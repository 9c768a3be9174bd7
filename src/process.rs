//! Results of running an external program: the exit flag and both output
//! streams as text, and the message for a program that could not be launched.
use vstd::prelude::*;
use vstd::string::StringExecFns;

verus! {

/// Text that `String::from_utf8_lossy` makes of the bytes `b`: each invalid
/// sequence replaced by U+FFFD.
pub uninterp spec fn utf8_lossy(b: Seq<u8>) -> Seq<char>;

/// Whether every byte is ASCII.
pub open spec fn all_ascii(b: Seq<u8>) -> bool {
    forall|i: int| 0 <= i < b.len() ==> b[i] < 128
}

/// Relies on `String::from_utf8_lossy`: its text depends on the bytes alone,
/// and valid UTF-8 (here: ASCII) decodes to one character per byte.
#[verifier::external_body]
fn decode_lossy(b: &[u8]) -> (r: String)
    ensures
        r@ == utf8_lossy(b@),
        all_ascii(b@) ==> r@ == Seq::new(b@.len(), |i: int| b@[i] as char),
{
    String::from_utf8_lossy(b).into_owned()
}

/// What a finished program left behind.
pub struct CommandOutput {
    /// Whether the program exited successfully.
    pub success: bool,
    pub stdout: String,
    pub stderr: String,
}

/// The result of a finished program, given its exit flag and the raw bytes of
/// its standard output and standard error; invalid byte sequences are
/// replaced rather than rejected.
pub fn command_output(success: bool, stdout: &[u8], stderr: &[u8]) -> (r: CommandOutput)
    ensures
        r.success == success,
        r.stdout@ == utf8_lossy(stdout@),
        r.stderr@ == utf8_lossy(stderr@),
        all_ascii(stdout@) ==> r.stdout@ == Seq::new(stdout@.len(), |i: int| stdout@[i] as char),
        all_ascii(stderr@) ==> r.stderr@ == Seq::new(stderr@.len(), |i: int| stderr@[i] as char),
{
    CommandOutput { success, stdout: decode_lossy(stdout), stderr: decode_lossy(stderr) }
}

/// Message for a program that could not be launched: it names the command
/// and the underlying cause.
pub open spec fn launch_failure_spec(command: Seq<char>, cause: Seq<char>) -> Seq<char> {
    "Failed to execute command '"@ + command + "': "@ + cause
}

pub fn launch_failure_message(command: &str, cause: &str) -> (r: String)
    ensures
        r@ == launch_failure_spec(command@, cause@),
{
    let mut m = String::from_str("Failed to execute command '");
    m.append(command);
    m.append("': ");
    m.append(cause);
    m
}

} // verus!
