//! External tools as the engine sees them: a command line to run, and what a run gave.

use vstd::prelude::*;
use vstd::utf8::{decode_utf8, valid_utf8};

verus! {

/// A command line: the program and its arguments.
#[derive(Debug)]
pub struct ToolCommand {
    pub program: String,
    pub args: Vec<String>,
}

/// The mathematical value of a [`ToolCommand`].
pub struct ToolCommandView {
    pub program: Seq<char>,
    pub args: Seq<Seq<char>>,
}

impl View for ToolCommand {
    type V = ToolCommandView;

    open spec fn view(&self) -> ToolCommandView {
        ToolCommandView { program: self.program@, args: self.args.deep_view() }
    }
}

/// What a tool that ran to its end left behind.
#[derive(Debug)]
pub struct ToolOutput {
    /// Whether the tool reported success by its exit status.
    pub success: bool,
    /// The bytes the tool wrote to its standard output.
    pub stdout: Vec<u8>,
    /// The bytes the tool wrote to its standard error.
    pub stderr: Vec<u8>,
}

/// The result of trying to run a tool.
#[derive(Debug)]
pub enum ToolRun {
    /// The tool could not be started; the text is the system's description of why.
    NotStarted(String),
    /// The tool ran to its end.
    Finished(ToolOutput),
}

/// The mathematical value of a [`ToolRun`].
pub enum ToolRunView {
    NotStarted(Seq<char>),
    Finished { success: bool, stdout: Seq<u8>, stderr: Seq<u8> },
}

impl View for ToolRun {
    type V = ToolRunView;

    open spec fn view(&self) -> ToolRunView {
        match self {
            ToolRun::NotStarted(reason) => ToolRunView::NotStarted(reason@),
            ToolRun::Finished(output) => ToolRunView::Finished {
                success: output.success,
                stdout: output.stdout@,
                stderr: output.stderr@,
            },
        }
    }
}

/// The text that `String::from_utf8_lossy` makes of bytes that are not well-formed UTF-8:
/// what can be decoded, with a replacement character in place of each ill-formed part.
pub uninterp spec fn utf8_repaired(bytes: Seq<u8>) -> Seq<char>;

/// The text that a tool's output is read as: its decoding as UTF-8 where it is well-formed,
/// and the repaired text where it is not.
pub open spec fn utf8_lossy(bytes: Seq<u8>) -> Seq<char> {
    if valid_utf8(bytes) {
        decode_utf8(bytes)
    } else {
        utf8_repaired(bytes)
    }
}

/// Calls `String::from_utf8_lossy` and takes ownership of the text. Trusted: well-formed
/// UTF-8 comes back as the text that it encodes, and what comes back for other bytes depends
/// on the bytes alone.
#[verifier::external_body]
pub(crate) fn lossy_text(bytes: &[u8]) -> (text: String)
    ensures
        text@ == (if valid_utf8(bytes@) {
            decode_utf8(bytes@)
        } else {
            utf8_repaired(bytes@)
        }),
{
    String::from_utf8_lossy(bytes).into_owned()
}

} // verus!
