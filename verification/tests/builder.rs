use terminal_executor::builder::build_command_line;
use terminal_executor::builder::lookup_value;
use terminal_executor::builder::render_param;
use terminal_executor::template::CommandTemplate;
use terminal_executor::template::ParamKind;
use terminal_executor::template::ParameterSpec;

fn param(name: &str, kind: ParamKind, prefix: &str) -> ParameterSpec {
    ParameterSpec {
        name: name.to_string(),
        description: String::new(),
        required: false,
        kind,
        prefix: prefix.to_string(),
    }
}

fn template(name: &str, params: Vec<ParameterSpec>) -> CommandTemplate {
    CommandTemplate { name: name.to_string(), description: String::new(), parameters: params }
}

fn pairs(entries: &[(&str, &str)]) -> Vec<(String, String)> {
    entries.iter().map(|(k, v)| (k.to_string(), v.to_string())).collect()
}

#[test]
fn echo_test_normal_parameter() {
    let t = template("echo_test", vec![param("msg", ParamKind::Normal, "--")]);
    let values = pairs(&[("msg", "hi")]);
    assert_eq!(build_command_line(&t, &values), "echo_test --msg hi ");
}

#[test]
fn list_files_flag_on() {
    let t = template("list_files", vec![param("all", ParamKind::Flag, "-")]);
    let values = pairs(&[("all", "true")]);
    let line = build_command_line(&t, &values);
    assert!(line.contains("-all"));
    assert_eq!(line, "list_files -all ");
}

#[test]
fn list_files_flag_off() {
    let t = template("list_files", vec![param("all", ParamKind::Flag, "-")]);
    let values = pairs(&[("all", "false")]);
    let line = build_command_line(&t, &values);
    assert!(!line.contains("-all"));
    assert_eq!(line, "list_files ");
}

#[test]
fn line_starts_with_template_name() {
    let t = template(
        "backup",
        vec![param("src", ParamKind::Positional, ""), param("verbose", ParamKind::Flag, "--")],
    );
    let values = pairs(&[("src", "/tmp/a"), ("verbose", "yes")]);
    let line = build_command_line(&t, &values);
    assert!(line.starts_with("backup "));
}

#[test]
fn flag_empty_value_is_omitted() {
    let t = template("ls", vec![param("all", ParamKind::Flag, "-")]);
    let values = pairs(&[("all", "")]);
    assert_eq!(build_command_line(&t, &values), "ls ");
}

#[test]
fn flag_renders_prefixed_name_without_value() {
    let p = param("force", ParamKind::Flag, "--");
    let rendered = render_param(&p, &"1".to_string());
    assert_eq!(rendered, "--force ");
}

#[test]
fn normal_empty_value_is_omitted() {
    let t = template("grep", vec![param("pattern", ParamKind::Normal, "-")]);
    let values = pairs(&[("pattern", "")]);
    assert_eq!(build_command_line(&t, &values), "grep ");
}

#[test]
fn normal_renders_prefix_name_space_value() {
    let p = param("count", ParamKind::Normal, "-");
    let rendered = render_param(&p, &"3".to_string());
    assert_eq!(rendered, "-count 3 ");
}

#[test]
fn positional_renders_bare_value() {
    let p = param("path", ParamKind::Positional, "--");
    let rendered = render_param(&p, &"/etc".to_string());
    assert_eq!(rendered, "/etc ");
}

#[test]
fn positional_empty_value_is_omitted() {
    let t = template("cat", vec![param("file", ParamKind::Positional, "")]);
    let values = pairs(&[("file", "")]);
    assert_eq!(build_command_line(&t, &values), "cat ");
}

#[test]
fn missing_value_is_treated_as_empty() {
    let t = template("tail", vec![param("lines", ParamKind::Normal, "-")]);
    let values = pairs(&[("other", "5")]);
    assert_eq!(build_command_line(&t, &values), "tail ");
}

#[test]
fn lookup_finds_first_matching_pair() {
    let values = pairs(&[("a", "1"), ("b", "2"), ("a", "3")]);
    assert_eq!(lookup_value(&values, &"a".to_string()), "1");
    assert_eq!(lookup_value(&values, &"b".to_string()), "2");
    assert_eq!(lookup_value(&values, &"c".to_string()), "");
}

#[test]
fn builder_is_deterministic_and_keeps_declaration_order() {
    let t = template(
        "rsync",
        vec![
            param("archive", ParamKind::Flag, "-"),
            param("src", ParamKind::Positional, ""),
            param("dest", ParamKind::Positional, ""),
            param("bwlimit", ParamKind::Normal, "--"),
        ],
    );
    let values = pairs(&[("dest", "/b"), ("bwlimit", "10"), ("src", "/a"), ("archive", "on")]);
    let first = build_command_line(&t, &values);
    let second = build_command_line(&t, &values);
    assert_eq!(first, second);
    assert_eq!(first, "rsync -archive /a /b --bwlimit 10 ");
}
