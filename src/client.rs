//! The client's decisions on the responses it reads.
use crate::buffer::{shown_on_push, OutputLine, TruncatingBuffer};
use crate::protocol::Response;
use vstd::prelude::*;

verus! {

/// The exit code of a client whose build request got an error response.
pub const ERROR_EXIT_CODE: i32 = 1;

/// What the client does after one response to a build request.
#[derive(Debug, PartialEq, Eq)]
pub enum BuildStep {
    /// Keep reading; print this line now, if there is one.
    Continue(Option<OutputLine>),
    /// The build ended: flush the buffer and exit with this code.
    Finished { exit_code: i32 },
    /// The server reported an error: print it and exit with this code.
    Failed { message: String, exit_code: i32 },
}

/// Handles one response to a build request. An output line goes through
/// the truncating buffer; a completion ends the client with the build's own
/// exit code, whatever its value; an error ends it with `ERROR_EXIT_CODE`;
/// any other response is ignored.
pub fn on_build_response(buffer: &mut TruncatingBuffer, response: Response) -> (r: BuildStep)
    requires
        old(buffer).wf(),
        old(buffer).pushed().len() < usize::MAX,
    ensures
        final(buffer).wf(),
        final(buffer).capacity() == old(buffer).capacity(),
        match response {
            Response::Output { line, is_stderr } => {
                let l = OutputLine { content: line, is_stderr };
                &&& final(buffer).pushed() == old(buffer).pushed().push(l)
                &&& r == BuildStep::Continue(
                    shown_on_push(old(buffer).capacity(), old(buffer).pushed(), l),
                )
            },
            Response::BuildComplete { exit_code } => {
                &&& final(buffer).pushed() == old(buffer).pushed()
                &&& r == BuildStep::Finished { exit_code }
            },
            Response::Error { message } => {
                &&& final(buffer).pushed() == old(buffer).pushed()
                &&& r == BuildStep::Failed { message, exit_code: ERROR_EXIT_CODE }
            },
            _ => {
                &&& final(buffer).pushed() == old(buffer).pushed()
                &&& r == BuildStep::Continue(None)
            },
        },
{
    match response {
        Response::Output { line, is_stderr } => {
            let shown = buffer.push(OutputLine { content: line, is_stderr });
            BuildStep::Continue(shown)
        },
        Response::BuildComplete { exit_code } => BuildStep::Finished { exit_code },
        Response::Error { message } => BuildStep::Failed { message, exit_code: ERROR_EXIT_CODE },
        _ => BuildStep::Continue(None),
    }
}

/// The step taken when the server closed the connection before a
/// completion arrived: the build counts as finished with code zero.
pub fn on_build_stream_end() -> (r: BuildStep)
    ensures
        r == (BuildStep::Finished { exit_code: 0 }),
{
    BuildStep::Finished { exit_code: 0 }
}

/// Whether the client reports a build that finished with `exit_code` as
/// failed.
pub fn build_failed(exit_code: i32) -> (r: bool)
    ensures
        r == (exit_code != 0),
{
    exit_code != 0
}

/// What a status request's reply tells: the server's readiness and its
/// init script, or `None` for any other response.
pub fn read_status(response: Response) -> (r: Option<(bool, Option<String>)>)
    ensures
        match response {
            Response::Status { initialized, init_script } => r == Some((initialized, init_script)),
            _ => r is None,
        },
{
    match response {
        Response::Status { initialized, init_script } => Some((initialized, init_script)),
        _ => None,
    }
}

/// Whether a stop request's reply acknowledges the shutdown.
pub fn is_stop_ack(response: &Response) -> (r: bool)
    ensures
        r == (*response is Stopping),
{
    match response {
        Response::Stopping => true,
        _ => false,
    }
}

} // verus!
