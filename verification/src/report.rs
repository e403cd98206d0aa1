//! The invocation facade's textual results. An invocation always answers
//! with a readable string: success, timeout and failure are told apart by
//! the markers embedded in that string, never by a propagated error.

use vstd::prelude::*;

use crate::capture::CaptureState;

verus! {

/// The report returned after a capture: the rendered command line and the
/// captured output, framed as one system message.
pub open spec fn spec_report(command_line: Seq<char>, output: Seq<char>) -> Seq<char> {
    "<system>command: "@ + command_line + " output: "@ + output + " </system>"@
}

/// The diagnostic returned when the session itself could not be started;
/// `cause` is the launch error's rendering.
pub open spec fn spec_launch_failure_report(cause: Seq<char>) -> Seq<char> {
    "<system>failed to launch tmux session: "@ + cause + "</system>"@
}

/// Format the report for a finished capture.
pub fn format_report(command_line: &str, output: &str) -> (r: String)
    ensures
        r@ == spec_report(command_line@, output@),
{
    let mut out = String::new();
    out.append("<system>command: ");
    out.append(command_line);
    out.append(" output: ");
    out.append(output);
    out.append(" </system>");
    proof {
        assert(out@ =~= spec_report(command_line@, output@));
    }
    out
}

/// Format the diagnostic for a session that could not be started.
pub fn launch_failure_report(cause: &str) -> (r: String)
    ensures
        r@ == spec_launch_failure_report(cause@),
{
    let mut out = String::new();
    out.append("<system>failed to launch tmux session: ");
    out.append(cause);
    out.append("</system>");
    proof {
        assert(out@ =~= spec_launch_failure_report(cause@));
    }
    out
}

/// The report for a finished capture: the rendered command line and the
/// capture's whole buffer, markers included, framed as one system message.
pub fn invocation_report(command_line: &str, capture: &CaptureState) -> (r: String)
    requires
        capture@.finished,
    ensures
        r@ == spec_report(command_line@, capture@.output),
{
    format_report(command_line, capture.output_text())
}

/// The diagnostic returned when the session started but its output stream
/// could not be attached to.
pub fn capture_attach_failure_report() -> (r: &'static str)
    ensures
        r@ == "<system>command launched, but failed to capture stdout.</system>"@,
{
    "<system>command launched, but failed to capture stdout.</system>"
}

} // verus!
