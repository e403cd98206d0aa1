//! Command templates: the declarative description of an invocable command,
//! its ordered parameters, and the load-time validation of a catalog.

use vstd::prelude::*;

verus! {

/// How a parameter is rendered on the command line.
#[derive(Clone, Copy, PartialEq, Eq, Structural, Debug)]
pub enum ParamKind {
    /// Rendered as the bare value, in declared order.
    Positional,
    /// Boolean-like: rendered as the prefixed name when on, omitted when off.
    Flag,
    /// Rendered as the prefixed name followed by the value.
    Normal,
}

/// A load-time error in the template catalog. The catalog is the one
/// configuration artifact the engine depends on, so a malformed catalog is
/// fatal at startup: the process must not proceed with an ambiguous catalog.
#[derive(Clone, Copy, PartialEq, Eq, Structural, Debug)]
pub enum CatalogError {
    /// A parameter was declared both positional and flag.
    AmbiguousParameterKind,
    /// Two parameters of one template share a name.
    DuplicateParameterName,
    /// Two templates of the catalog share a name.
    DuplicateCommandName,
}

/// One declared parameter of a command template.
pub struct ParameterSpec {
    /// Identifier, unique within its template.
    pub name: String,
    /// Human text, used for documentation only.
    pub description: String,
    /// Informational: the engine does not enforce presence.
    pub required: bool,
    /// How the parameter is rendered.
    pub kind: ParamKind,
    /// Prepended to the name when rendered as a flag or named option.
    pub prefix: String,
}

/// The mathematical model of a parameter.
pub ghost struct ParamModel {
    pub name: Seq<char>,
    pub description: Seq<char>,
    pub required: bool,
    pub kind: ParamKind,
    pub prefix: Seq<char>,
}

impl View for ParameterSpec {
    type V = ParamModel;

    open spec fn view(&self) -> ParamModel {
        ParamModel {
            name: self.name@,
            description: self.description@,
            required: self.required,
            kind: self.kind,
            prefix: self.prefix@,
        }
    }
}

impl DeepView for ParameterSpec {
    type V = ParamModel;

    open spec fn deep_view(&self) -> ParamModel {
        self@
    }
}

/// A named, declarative description of an invocable command. Loaded once at
/// startup; read-only thereafter. The name doubles as the execution-session
/// name, so at most one live session exists per command name.
pub struct CommandTemplate {
    /// Unique identifier; also the execution-session name.
    pub name: String,
    /// Human text, used for documentation only.
    pub description: String,
    /// Ordered parameter list.
    pub parameters: Vec<ParameterSpec>,
}

/// The mathematical model of a template.
pub ghost struct TemplateModel {
    pub name: Seq<char>,
    pub description: Seq<char>,
    pub params: Seq<ParamModel>,
}

impl View for CommandTemplate {
    type V = TemplateModel;

    open spec fn view(&self) -> TemplateModel {
        TemplateModel {
            name: self.name@,
            description: self.description@,
            params: self.parameters.deep_view(),
        }
    }
}

impl DeepView for CommandTemplate {
    type V = TemplateModel;

    open spec fn deep_view(&self) -> TemplateModel {
        self@
    }
}

/// The classification a catalog entry's two booleans stand for, where they
/// are not contradictory: positional, else flag, else normal.
pub open spec fn spec_kind_of(positional: bool, flag: bool) -> ParamKind {
    if positional {
        ParamKind::Positional
    } else if flag {
        ParamKind::Flag
    } else {
        ParamKind::Normal
    }
}

/// Classify a parameter from the catalog's two booleans. A parameter
/// declared both positional and flag is contradictory and is rejected at
/// load time rather than resolved by precedence.
pub fn kind_from_booleans(positional: bool, flag: bool) -> (r: Result<ParamKind, CatalogError>)
    ensures
        r is Ok <==> !(positional && flag),
        r is Ok ==> r->Ok_0 == spec_kind_of(positional, flag),
        r is Err ==> r->Err_0 == CatalogError::AmbiguousParameterKind,
{
    if positional && flag {
        Err(CatalogError::AmbiguousParameterKind)
    } else if positional {
        Ok(ParamKind::Positional)
    } else if flag {
        Ok(ParamKind::Flag)
    } else {
        Ok(ParamKind::Normal)
    }
}

/// Parameter names are pairwise distinct within the template.
pub open spec fn param_names_distinct(params: Seq<ParamModel>) -> bool {
    forall|i: int, j: int| 0 <= i < j < params.len() ==> params[i].name != params[j].name
}

/// Template names are pairwise distinct within the catalog.
pub open spec fn template_names_distinct(templates: Seq<TemplateModel>) -> bool {
    forall|i: int, j: int|
        0 <= i < j < templates.len() ==> templates[i].name != templates[j].name
}

/// A template is well formed when its parameter names are distinct.
pub fn validate_template(template: &CommandTemplate) -> (r: Result<(), CatalogError>)
    ensures
        r is Ok <==> param_names_distinct(template@.params),
        r is Err ==> r->Err_0 == CatalogError::DuplicateParameterName,
{
    let n = template.parameters.len();
    let mut i: usize = 0;
    while i < n
        invariant
            n == template.parameters.len(),
            i <= n,
            forall|a: int, b: int|
                0 <= a < b < n && a < i ==> template@.params[a].name != template@.params[b].name,
        decreases n - i,
    {
        let mut j: usize = i + 1;
        while j < n
            invariant
                n == template.parameters.len(),
                i < n,
                i < j <= n,
                forall|b: int| i < b < j ==> template@.params[i as int].name != template@.params[b].name,
            decreases n - j,
        {
            if template.parameters[i].name == template.parameters[j].name {
                proof {
                    assert(template@.params[i as int].name == template@.params[j as int].name);
                    assert(!param_names_distinct(template@.params));
                }
                return Err(CatalogError::DuplicateParameterName);
            }
            j += 1;
        }
        i += 1;
    }
    Ok(())
}

/// A catalog is well formed when its template names are distinct and every
/// template is itself well formed.
pub fn validate_catalog(templates: &Vec<CommandTemplate>) -> (r: Result<(), CatalogError>)
    ensures
        r is Ok <==> template_names_distinct(templates.deep_view()) && (forall|k: int|
            0 <= k < templates.deep_view().len() ==> param_names_distinct(
                templates.deep_view()[k].params,
            )),
        r is Err ==> r->Err_0 == CatalogError::DuplicateCommandName || r->Err_0
            == CatalogError::DuplicateParameterName,
        r == Err::<(), CatalogError>(CatalogError::DuplicateCommandName) ==> !template_names_distinct(
            templates.deep_view(),
        ),
        r == Err::<(), CatalogError>(CatalogError::DuplicateParameterName) ==> exists|k: int|
            0 <= k < templates.deep_view().len() && !param_names_distinct(
                #[trigger] templates.deep_view()[k].params,
            ),
{
    let n = templates.len();
    let mut i: usize = 0;
    while i < n
        invariant
            n == templates.len(),
            i <= n,
            forall|a: int, b: int|
                0 <= a < b < n && a < i ==> templates.deep_view()[a].name
                    != templates.deep_view()[b].name,
            forall|k: int| 0 <= k < i ==> param_names_distinct(templates.deep_view()[k].params),
        decreases n - i,
    {
        match validate_template(&templates[i]) {
            Ok(()) => {},
            Err(e) => {
                proof {
                    assert(templates.deep_view()[i as int] == templates[i as int]@);
                    assert(!param_names_distinct(templates.deep_view()[i as int].params));
                }
                return Err(e);
            },
        }
        let mut j: usize = i + 1;
        while j < n
            invariant
                n == templates.len(),
                i < n,
                i < j <= n,
                forall|b: int|
                    i < b < j ==> templates.deep_view()[i as int].name
                        != templates.deep_view()[b].name,
            decreases n - j,
        {
            if templates[i].name == templates[j].name {
                proof {
                    assert(templates.deep_view()[i as int].name
                        == templates.deep_view()[j as int].name);
                    assert(!template_names_distinct(templates.deep_view()));
                }
                return Err(CatalogError::DuplicateCommandName);
            }
            j += 1;
        }
        i += 1;
    }
    Ok(())
}

/// The first index whose template bears the given name, if any.
pub open spec fn spec_find(templates: Seq<TemplateModel>, name: Seq<char>) -> Option<int>
    decreases templates.len(),
{
    if templates.len() == 0 {
        None
    } else if templates[0].name == name {
        Some(0int)
    } else {
        match spec_find(templates.drop_first(), name) {
            Some(k) => Some(k + 1),
            None => None,
        }
    }
}

/// Look a template up by name: the first entry whose name matches.
pub fn find_template(templates: &Vec<CommandTemplate>, name: &String) -> (r: Option<usize>)
    ensures
        match r {
            Some(k) => spec_find(templates.deep_view(), name@) == Some(k as int)
                && k < templates.deep_view().len() && templates.deep_view()[k as int].name
                == name@,
            None => spec_find(templates.deep_view(), name@) is None,
        },
{
    let n = templates.len();
    let mut i: usize = 0;
    while i < n
        invariant
            n == templates.len(),
            i <= n,
            forall|a: int| 0 <= a < i ==> templates.deep_view()[a].name != name@,
        decreases n - i,
    {
        if templates[i].name == *name {
            proof {
                lemma_spec_find_hit(templates.deep_view(), name@, i as int);
            }
            return Some(i);
        }
        i += 1;
    }
    proof {
        lemma_spec_find_miss(templates.deep_view(), name@);
    }
    None
}

proof fn lemma_spec_find_hit(templates: Seq<TemplateModel>, name: Seq<char>, k: int)
    requires
        0 <= k < templates.len(),
        templates[k].name == name,
        forall|a: int| 0 <= a < k ==> templates[a].name != name,
    ensures
        spec_find(templates, name) == Some(k),
    decreases k,
{
    if k == 0 {
    } else {
        lemma_spec_find_hit(templates.drop_first(), name, k - 1);
    }
}

proof fn lemma_spec_find_miss(templates: Seq<TemplateModel>, name: Seq<char>)
    requires
        forall|a: int| 0 <= a < templates.len() ==> templates[a].name != name,
    ensures
        spec_find(templates, name) is None,
    decreases templates.len(),
{
    if templates.len() > 0 {
        lemma_spec_find_miss(templates.drop_first(), name);
    }
}

} // verus!
