//! Messages exchanged between the client and the build server.
use vstd::prelude::*;
use vstd::string::{StrSliceExecFns, StringExecFns};

verus! {

/// A request sent by a client to the build server.
#[derive(Debug, PartialEq, Eq)]
pub enum Request {
    /// Run `command` with `dir` as its working directory.
    Build { dir: String, command: String },
    /// Ask for the server's readiness snapshot.
    Status,
    /// Ask the server to shut down.
    Stop,
}

/// A message sent by the build server to a client.
#[derive(Debug, PartialEq, Eq)]
pub enum Response {
    /// One line of build output, tagged with the stream it came from.
    Output { line: String, is_stderr: bool },
    /// The build finished; nothing follows on this connection.
    BuildComplete { exit_code: i32 },
    /// The server's readiness snapshot.
    Status { initialized: bool, init_script: Option<String> },
    /// Shutdown was requested.
    Stopping,
    /// The request failed; nothing follows on this connection.
    Error { message: String },
}

/// Whether an encoded message can stand on a line of its own.
pub open spec fn fits_one_line(text: Seq<char>) -> bool {
    forall|i: int| 0 <= i < text.len() ==> #[trigger] text[i] != '\n'
}

/// Frames one encoded message for the wire: the text and one newline. A
/// text that holds a newline would span two lines, and is refused.
pub fn frame_message(text: &str) -> (r: Option<String>)
    ensures
        r is Some <==> fits_one_line(text@),
        r matches Some(f) ==> f@ == text@ + "\n"@,
{
    let n = text.unicode_len();
    let mut i: usize = 0;
    while i < n
        invariant
            n == text@.len(),
            i <= n,
            forall|j: int| 0 <= j < i ==> #[trigger] text@[j] != '\n',
        decreases n - i,
    {
        if text.get_char(i) == '\n' {
            return None;
        }
        i = i + 1;
    }
    let mut framed = String::from_str(text);
    framed.append("\n");
    Some(framed)
}

} // verus!
