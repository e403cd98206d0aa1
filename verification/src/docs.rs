//! Help text for the agent-facing callables: each template's documentation,
//! assembled from its description and the descriptions of its parameters.

use vstd::prelude::*;

use crate::template::CommandTemplate;
use crate::template::ParamModel;

verus! {

/// One parameter's documentation line: its name, its description, and a
/// note where it is required.
pub open spec fn spec_param_doc(p: ParamModel) -> Seq<char> {
    p.name + ": "@ + p.description + (if p.required {
        " (required)"@
    } else {
        Seq::<char>::empty()
    })
}

/// The parameters' documentation lines, joined by newlines.
pub open spec fn spec_params_doc(params: Seq<ParamModel>) -> Seq<char>
    decreases params.len(),
{
    if params.len() == 0 {
        Seq::empty()
    } else if params.len() == 1 {
        spec_param_doc(params[0])
    } else {
        spec_param_doc(params[0]) + "\n"@ + spec_params_doc(params.drop_first())
    }
}

/// A template's documentation: its description, then its parameters'
/// lines under a heading.
pub open spec fn spec_template_doc(
    description: Seq<char>,
    params: Seq<ParamModel>,
) -> Seq<char> {
    description + "\n\nParameters:\n"@ + spec_params_doc(params)
}

proof fn lemma_params_doc_take_succ(params: Seq<ParamModel>, i: int)
    requires
        1 <= i < params.len(),
    ensures
        spec_params_doc(params.take(i + 1)) == spec_params_doc(params.take(i)) + "\n"@
            + spec_param_doc(params[i]),
    decreases i,
{
    let sub = params.drop_first();
    if i == 1 {
        assert(params.take(2).drop_first() =~= sub.take(1));
        assert(params.take(2)[0] == params[0]);
        assert(sub.take(1)[0] == params[1]);
        assert(params.take(1)[0] == params[0]);
        assert(spec_params_doc(sub.take(1)) == spec_param_doc(params[1]));
        assert(spec_params_doc(params.take(1)) == spec_param_doc(params[0]));
        assert(spec_params_doc(params.take(2)) == spec_param_doc(params[0]) + "\n"@
            + spec_params_doc(sub.take(1)));
        assert(spec_params_doc(params.take(2)) =~= spec_params_doc(params.take(1)) + "\n"@
            + spec_param_doc(params[1]));
    } else {
        lemma_params_doc_take_succ(sub, i - 1);
        assert(params.take(i + 1).drop_first() =~= sub.take(i));
        assert(params.take(i).drop_first() =~= sub.take(i - 1));
        assert(params.take(i + 1)[0] == params[0]);
        assert(params.take(i)[0] == params[0]);
        assert(sub[i - 1] == params[i]);
        assert(spec_params_doc(params.take(i + 1)) =~= spec_params_doc(params.take(i)) + "\n"@
            + spec_param_doc(params[i]));
    }
}

/// Assemble a template's documentation text.
pub fn template_doc(template: &CommandTemplate) -> (r: String)
    ensures
        r@ == spec_template_doc(template@.description, template@.params),
{
    let mut out = String::new();
    out.append(template.description.as_str());
    out.append("\n\nParameters:\n");
    let n = template.parameters.len();
    let mut i: usize = 0;
    proof {
        assert(template@.params.take(0) =~= Seq::<ParamModel>::empty());
    }
    while i < n
        invariant
            n == template.parameters.len(),
            i <= n,
            out@ == template@.description + "\n\nParameters:\n"@ + spec_params_doc(
                template@.params.take(i as int),
            ),
        decreases n - i,
    {
        if i > 0 {
            out.append("\n");
        }
        let p = &template.parameters[i];
        out.append(p.name.as_str());
        out.append(": ");
        out.append(p.description.as_str());
        if p.required {
            out.append(" (required)");
        }
        proof {
            assert(template@.params[i as int] == template.parameters[i as int]@);
            if i == 0 {
                assert(template@.params.take(1)[0] == template@.params[0]);
                assert(out@ =~= template@.description + "\n\nParameters:\n"@ + spec_params_doc(
                    template@.params.take(1),
                ));
            } else {
                lemma_params_doc_take_succ(template@.params, i as int);
                assert(out@ =~= template@.description + "\n\nParameters:\n"@ + spec_params_doc(
                    template@.params.take(i as int + 1),
                ));
            }
        }
        i += 1;
    }
    proof {
        assert(template@.params.take(n as int) =~= template@.params);
    }
    out
}

} // verus!
