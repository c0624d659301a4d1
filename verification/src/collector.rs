//! The status collector, as far as it is decided here: which command is run,
//! and how its output becomes text. Running the command is left to the
//! program around this library, which reports back with a [`Collection`].

use vstd::prelude::*;
use vstd::string::*;
use vstd::utf8::*;

verus! {

/// A command line: the program and its arguments.
#[derive(Debug, Clone, PartialEq, Eq)]
pub struct Invocation {
    pub program: String,
    pub arguments: Vec<String>,
}

/// What an [`Invocation`] holds.
pub ghost struct InvocationView {
    pub program: Seq<char>,
    pub arguments: Seq<Seq<char>>,
}

impl View for Invocation {
    type V = InvocationView;

    open spec fn view(&self) -> InvocationView {
        InvocationView {
            program: self.program@,
            arguments: Seq::new(self.arguments@.len(), |i: int| self.arguments@[i]@),
        }
    }
}

/// The backup tool.
pub const PROGRAM: &'static str = "pg_probackup";

/// The request to show the status.
pub const SHOW: &'static str = "show";

/// The instance whose status is asked for.
pub const SCOPE: &'static str = "--instance=odo";

/// The request for output that a machine can read.
pub const FORMAT: &'static str = "--format=json";

/// The command line that asks the backup tool for the status of the
/// instance `odo`, as JSON.
pub open spec fn status_command() -> InvocationView {
    InvocationView { program: PROGRAM@, arguments: seq![SHOW@, SCOPE@, FORMAT@] }
}

/// The command line of the status collector. It is the same on every call.
pub fn status_invocation() -> (invocation: Invocation)
    ensures
        invocation@ == status_command(),
{
    let mut arguments: Vec<String> = Vec::new();
    arguments.push(SHOW.to_owned());
    arguments.push(SCOPE.to_owned());
    arguments.push(FORMAT.to_owned());
    let invocation = Invocation { program: PROGRAM.to_owned(), arguments };
    assert(invocation@.arguments =~= status_command().arguments);
    invocation
}

/// What came of one run of the status collector.
#[derive(Debug, Clone, PartialEq, Eq)]
pub enum Collection {
    /// The command could not be started; the text says why.
    NotStarted(String),
    /// The command ran to its end. `success` tells whether it reported
    /// success; `output` is what it wrote to its standard output.
    Finished { success: bool, output: Vec<u8> },
}

/// What a [`Collection`] holds.
pub ghost enum CollectionView {
    NotStarted(Seq<char>),
    Finished { success: bool, output: Seq<u8> },
}

impl View for Collection {
    type V = CollectionView;

    open spec fn view(&self) -> CollectionView {
        match self {
            Collection::NotStarted(reason) => CollectionView::NotStarted(reason@),
            Collection::Finished { success, output } => CollectionView::Finished {
                success: *success,
                output: output@,
            },
        }
    }
}

/// The text that `String::from_utf8_lossy` makes of bytes: the text that the
/// bytes encode, with each stretch that is no valid UTF-8 replaced by
/// U+FFFD.
pub uninterp spec fn lossy_text(bytes: Seq<u8>) -> Seq<char>;

/// Calls `String::from_utf8_lossy`. Nothing is proved here. The contract
/// names the result and adds what std documents of valid input: bytes that
/// are UTF-8 come out as the text that they encode.
#[verifier::external_body]
fn lossy(bytes: &[u8]) -> (text: String)
    ensures
        text@ == lossy_text(bytes@),
        valid_utf8(bytes@) ==> text@ == decode_utf8(bytes@),
{
    String::from_utf8_lossy(bytes).into_owned()
}

/// The text of an output: what the bytes encode where they are UTF-8, and
/// the lossy reading of them where they are not.
pub open spec fn decoded_text(output: Seq<u8>) -> Seq<char> {
    if valid_utf8(output) {
        decode_utf8(output)
    } else {
        lossy_text(output)
    }
}

/// Decodes the output of the collector. No output is refused: what is no
/// text is replaced.
pub fn decode_output(output: &[u8]) -> (text: String)
    ensures
        text@ == decoded_text(output@),
{
    lossy(output)
}

} // verus!
