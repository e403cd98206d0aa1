//! The argument line builder: a pure function from a command template and a
//! set of supplied argument values to a single shell-ready command line.
//!
//! No shell escaping is performed: the template author is trusted. That is a
//! deliberate trust boundary of the engine, not an omission.

use vstd::prelude::*;

use crate::template::CommandTemplate;
use crate::template::ParamKind;
use crate::template::ParamModel;
use crate::template::ParameterSpec;
use crate::template::TemplateModel;

verus! {

/// The value supplied for the named parameter: the first pair whose name
/// matches, or the empty string when none does (absence is signalled by an
/// empty value).
pub open spec fn spec_lookup(values: Seq<(Seq<char>, Seq<char>)>, name: Seq<char>) -> Seq<char>
    decreases values.len(),
{
    if values.len() == 0 {
        Seq::empty()
    } else if values[0].0 == name {
        values[0].1
    } else {
        spec_lookup(values.drop_first(), name)
    }
}

/// What one parameter contributes to the command line.
///
/// A flag whose value is empty or the word `false` is off and contributes
/// nothing; any other parameter with an empty value is omitted entirely;
/// otherwise a flag renders its prefixed name, a positional parameter its
/// bare value, and a normal parameter its prefixed name followed by its
/// value, each piece followed by one space.
pub open spec fn spec_render(p: ParamModel, v: Seq<char>) -> Seq<char> {
    if p.kind is Flag && (v == "false"@ || v.len() == 0) {
        Seq::empty()
    } else if v.len() == 0 {
        Seq::empty()
    } else {
        match p.kind {
            ParamKind::Flag => p.prefix + p.name + " "@,
            ParamKind::Positional => v + " "@,
            ParamKind::Normal => p.prefix + p.name + " "@ + v + " "@,
        }
    }
}

/// The contributions of the parameters, concatenated in declared order.
pub open spec fn spec_args(params: Seq<ParamModel>, values: Seq<(Seq<char>, Seq<char>)>) -> Seq<
    char,
>
    decreases params.len(),
{
    if params.len() == 0 {
        Seq::empty()
    } else {
        spec_render(params[0], spec_lookup(values, params[0].name)) + spec_args(
            params.drop_first(),
            values,
        )
    }
}

/// The whole command line: the template's name, one space, then each
/// parameter's contribution in declared order.
pub open spec fn spec_build(t: TemplateModel, values: Seq<(Seq<char>, Seq<char>)>) -> Seq<char> {
    t.name + " "@ + spec_args(t.params, values)
}

proof fn lemma_args_take_succ(
    params: Seq<ParamModel>,
    values: Seq<(Seq<char>, Seq<char>)>,
    i: int,
)
    requires
        0 <= i < params.len(),
    ensures
        spec_args(params.take(i + 1), values) == spec_args(params.take(i), values) + spec_render(
            params[i],
            spec_lookup(values, params[i].name),
        ),
    decreases i,
{
    if i == 0 {
        assert(params.take(1).drop_first() =~= Seq::<ParamModel>::empty());
        assert(params.take(0) =~= Seq::<ParamModel>::empty());
        assert(params.take(1)[0] == params[0]);
        assert(spec_args(params.take(1), values) == spec_render(
            params[0],
            spec_lookup(values, params[0].name),
        ) + spec_args(Seq::<ParamModel>::empty(), values));
        assert(spec_args(Seq::<ParamModel>::empty(), values) == Seq::<char>::empty());
        assert(spec_args(params.take(1), values) =~= spec_args(params.take(0), values)
            + spec_render(params[0], spec_lookup(values, params[0].name)));
    } else {
        let sub = params.drop_first();
        lemma_args_take_succ(sub, values, i - 1);
        assert(params.take(i + 1).drop_first() =~= sub.take(i));
        assert(params.take(i).drop_first() =~= sub.take(i - 1));
        assert(params.take(i + 1)[0] == params[0]);
        assert(params.take(i)[0] == params[0]);
        assert(sub[i - 1] == params[i]);
        assert(spec_args(params.take(i + 1), values) =~= spec_args(params.take(i), values)
            + spec_render(params[i], spec_lookup(values, params[i].name)));
    }
}

/// Look a parameter's supplied value up by name; absent means empty.
pub fn lookup_value(values: &Vec<(String, String)>, name: &String) -> (r: String)
    ensures
        r@ == spec_lookup(values.deep_view(), name@),
{
    let n = values.len();
    let mut i: usize = 0;
    proof {
        assert(values.deep_view().skip(0) =~= values.deep_view());
    }
    while i < n
        invariant
            n == values.len(),
            i <= n,
            spec_lookup(values.deep_view(), name@) == spec_lookup(
                values.deep_view().skip(i as int),
                name@,
            ),
        decreases n - i,
    {
        proof {
            assert(values.deep_view().skip(i as int)[0] == values.deep_view()[i as int]);
            assert(values.deep_view()[i as int] == values[i as int].deep_view());
            assert(values.deep_view().skip(i as int).drop_first() =~= values.deep_view().skip(
                i as int + 1,
            ));
        }
        if values[i].0 == *name {
            return values[i].1.clone();
        }
        i += 1;
    }
    proof {
        assert(values.deep_view().skip(n as int) =~= Seq::<(Seq<char>, Seq<char>)>::empty());
    }
    String::new()
}

/// Render one parameter's contribution to the command line.
pub fn render_param(param: &ParameterSpec, value: &String) -> (r: String)
    ensures
        r@ == spec_render(param@, value@),
{
    let is_flag = param.kind == ParamKind::Flag;
    let value_empty = value.as_str().is_empty();
    let false_word: String = String::from_str("false");
    let flag_off = is_flag && (*value == false_word || value_empty);
    if flag_off || value_empty {
        return String::new();
    }
    let mut out = String::new();
    match param.kind {
        ParamKind::Flag => {
            out.append(param.prefix.as_str());
            out.append(param.name.as_str());
            out.append(" ");
        },
        ParamKind::Positional => {
            out.append(value.as_str());
            out.append(" ");
        },
        ParamKind::Normal => {
            out.append(param.prefix.as_str());
            out.append(param.name.as_str());
            out.append(" ");
            out.append(value.as_str());
            out.append(" ");
        },
    }
    out
}

/// Build the shell-ready command line for a template and the supplied
/// argument values: the template name, then each parameter's rendering in
/// declared order. Pure and deterministic; a trailing space is tolerated.
pub fn build_command_line(template: &CommandTemplate, values: &Vec<(String, String)>) -> (r:
    String)
    ensures
        r@ == spec_build(template@, values.deep_view()),
{
    let mut out = String::new();
    out.append(template.name.as_str());
    out.append(" ");
    let n = template.parameters.len();
    let mut i: usize = 0;
    proof {
        assert(template@.params.take(0) =~= Seq::<ParamModel>::empty());
    }
    while i < n
        invariant
            n == template.parameters.len(),
            i <= n,
            out@ == template@.name + " "@ + spec_args(
                template@.params.take(i as int),
                values.deep_view(),
            ),
        decreases n - i,
    {
        proof {
            assert(template@.params[i as int] == template.parameters[i as int]@);
        }
        let value = lookup_value(values, &template.parameters[i].name);
        let rendered = render_param(&template.parameters[i], &value);
        out.append(rendered.as_str());
        proof {
            lemma_args_take_succ(template@.params, values.deep_view(), i as int);
            assert(out@ =~= template@.name + " "@ + spec_args(
                template@.params.take(i as int + 1),
                values.deep_view(),
            ));
        }
        i += 1;
    }
    proof {
        assert(template@.params.take(n as int) =~= template@.params);
    }
    out
}

/// The built line always begins with the template's name followed by one
/// space, whatever values were supplied.
pub proof fn lemma_build_starts_with_name(t: TemplateModel, values: Seq<(Seq<char>, Seq<char>)>)
    ensures
        spec_build(t, values).len() >= t.name.len() + 1,
        spec_build(t, values).take(t.name.len() as int + 1) == t.name + " "@,
{
    reveal_strlit(" ");
    assert(spec_build(t, values).take(t.name.len() as int + 1) =~= t.name + " "@);
}

/// A flag supplied with the value `false` or with an empty value never
/// appears in the built command line.
pub proof fn lemma_flag_off_renders_nothing(p: ParamModel, v: Seq<char>)
    requires
        p.kind is Flag,
        v == "false"@ || v.len() == 0,
    ensures
        spec_render(p, v) == Seq::<char>::empty(),
{
}

/// A flag supplied with any other value renders exactly its prefixed name
/// and one space.
pub proof fn lemma_flag_on_renders_prefixed_name(p: ParamModel, v: Seq<char>)
    requires
        p.kind is Flag,
        v != "false"@,
        v.len() > 0,
    ensures
        spec_render(p, v) == p.prefix + p.name + " "@,
{
}

/// A normal parameter with an empty value is omitted entirely.
pub proof fn lemma_normal_empty_omitted(p: ParamModel, v: Seq<char>)
    requires
        p.kind is Normal,
        v.len() == 0,
    ensures
        spec_render(p, v) == Seq::<char>::empty(),
{
}

/// A normal parameter with a non-empty value renders exactly its prefixed
/// name, one space, the value, and one space.
pub proof fn lemma_normal_renders_name_then_value(p: ParamModel, v: Seq<char>)
    requires
        p.kind is Normal,
        v.len() > 0,
    ensures
        spec_render(p, v) == p.prefix + p.name + " "@ + v + " "@,
{
}

/// A positional parameter with a non-empty value renders exactly the value
/// and one space: no name, no prefix.
pub proof fn lemma_positional_renders_bare_value(p: ParamModel, v: Seq<char>)
    requires
        p.kind is Positional,
        v.len() > 0,
    ensures
        spec_render(p, v) == v + " "@,
{
}

/// The builder is a pure function of the template's and the values' views:
/// equal inputs yield byte-identical command lines, and the parameters'
/// contributions follow declaration order by construction of `spec_args`.
pub proof fn lemma_build_deterministic(
    t1: &CommandTemplate,
    t2: &CommandTemplate,
    v1: &Vec<(String, String)>,
    v2: &Vec<(String, String)>,
)
    requires
        t1@ == t2@,
        v1.deep_view() == v2.deep_view(),
    ensures
        spec_build(t1@, v1.deep_view()) == spec_build(t2@, v2.deep_view()),
{
}

} // verus!
