use terminal_executor::docs::template_doc;
use terminal_executor::template::find_template;
use terminal_executor::template::kind_from_booleans;
use terminal_executor::template::validate_catalog;
use terminal_executor::template::validate_template;
use terminal_executor::template::CatalogError;
use terminal_executor::template::CommandTemplate;
use terminal_executor::template::ParamKind;
use terminal_executor::template::ParameterSpec;

fn param(name: &str) -> ParameterSpec {
    ParameterSpec {
        name: name.to_string(),
        description: String::new(),
        required: false,
        kind: ParamKind::Normal,
        prefix: "-".to_string(),
    }
}

fn template(name: &str, params: Vec<ParameterSpec>) -> CommandTemplate {
    CommandTemplate { name: name.to_string(), description: String::new(), parameters: params }
}

#[test]
fn kind_classification_from_booleans() {
    assert_eq!(kind_from_booleans(true, false), Ok(ParamKind::Positional));
    assert_eq!(kind_from_booleans(false, true), Ok(ParamKind::Flag));
    assert_eq!(kind_from_booleans(false, false), Ok(ParamKind::Normal));
    assert_eq!(kind_from_booleans(true, true), Err(CatalogError::AmbiguousParameterKind));
}

#[test]
fn duplicate_parameter_names_are_rejected() {
    let t = template("cp", vec![param("src"), param("dest"), param("src")]);
    assert_eq!(validate_template(&t), Err(CatalogError::DuplicateParameterName));
}

#[test]
fn distinct_parameter_names_are_accepted() {
    let t = template("cp", vec![param("src"), param("dest")]);
    assert_eq!(validate_template(&t), Ok(()));
}

#[test]
fn duplicate_command_names_are_rejected() {
    let catalog = vec![template("ls", vec![]), template("cp", vec![]), template("ls", vec![])];
    assert_eq!(validate_catalog(&catalog), Err(CatalogError::DuplicateCommandName));
}

#[test]
fn catalog_reports_parameter_duplicates_of_a_member() {
    let catalog = vec![template("ok", vec![param("a")]), template("bad", vec![param("x"), param("x")])];
    assert_eq!(validate_catalog(&catalog), Err(CatalogError::DuplicateParameterName));
}

#[test]
fn well_formed_catalog_is_accepted() {
    let catalog = vec![template("ls", vec![param("a")]), template("cp", vec![param("a")])];
    assert_eq!(validate_catalog(&catalog), Ok(()));
}

#[test]
fn template_documentation_text() {
    let t = CommandTemplate {
        name: "echo_test".to_string(),
        description: "Echo a message".to_string(),
        parameters: vec![
            ParameterSpec {
                name: "msg".to_string(),
                description: "the message".to_string(),
                required: true,
                kind: ParamKind::Normal,
                prefix: "--".to_string(),
            },
            ParameterSpec {
                name: "quiet".to_string(),
                description: "say less".to_string(),
                required: false,
                kind: ParamKind::Flag,
                prefix: "-".to_string(),
            },
        ],
    };
    assert_eq!(
        template_doc(&t),
        "Echo a message\n\nParameters:\nmsg: the message (required)\nquiet: say less"
    );
}

#[test]
fn find_template_returns_first_match() {
    let catalog = vec![template("ls", vec![]), template("cp", vec![]), template("mv", vec![])];
    assert_eq!(find_template(&catalog, &"cp".to_string()), Some(1));
    assert_eq!(find_template(&catalog, &"mv".to_string()), Some(2));
    assert_eq!(find_template(&catalog, &"rm".to_string()), None);
}
