use vstd::prelude::*;
use vstd::string::StringExecFns;
use crate::text::contains_substring;

verus! {

/// The file-system operation a failure came from.
#[derive(Clone, Copy, PartialEq, Eq, Structural, Debug)]
pub enum Operation {
    ReadFile,
    WriteFile,
    ListDirectory,
}

/// The coarse class of an operating-system failure, so a caller can branch
/// without parsing the rendered message.
#[derive(Clone, Copy, PartialEq, Eq, Structural, Debug)]
pub enum FailureKind {
    NotFound,
    PermissionDenied,
    InvalidPath,
    IoFailure,
}

/// A failed command: the operation, the class of the failure, the path it
/// touched, and the operating-system error text.
#[derive(Debug)]
pub struct CommandFailure {
    pub op: Operation,
    pub kind: FailureKind,
    pub path: String,
    pub detail: String,
}

/// The fixed lead-in of the rendered message for each operation.
pub open spec fn operation_label(op: Operation) -> Seq<char> {
    match op {
        Operation::ReadFile => "Failed to read file '"@,
        Operation::WriteFile => "Failed to write file '"@,
        Operation::ListDirectory => "Failed to read directory '"@,
    }
}

/// The rendered failure message: lead-in, path, separator, error text.
pub open spec fn error_message(op: Operation, path: Seq<char>, detail: Seq<char>) -> Seq<char> {
    operation_label(op) + path + "': "@ + detail
}

/// Builds the failure message for `op` on `path` with error text `detail`.
pub fn render_error(op: Operation, path: &str, detail: &str) -> (r: String)
    ensures
        r@ == error_message(op, path@, detail@),
{
    let label: &str = match op {
        Operation::ReadFile => "Failed to read file '",
        Operation::WriteFile => "Failed to write file '",
        Operation::ListDirectory => "Failed to read directory '",
    };
    let mut r = label.to_owned();
    r.append(path);
    r.append("': ");
    r.append(detail);
    r
}

impl CommandFailure {
    /// Packs a failure; every field is kept verbatim.
    pub fn new(op: Operation, kind: FailureKind, path: String, detail: String) -> (r:
        CommandFailure)
        ensures
            r.op == op,
            r.kind == kind,
            r.path@ == path@,
            r.detail@ == detail@,
    {
        CommandFailure { op, kind, path, detail }
    }

    /// Renders the failure in the fixed format the caller displays.
    pub fn render(&self) -> (r: String)
        ensures
            r@ == error_message(self.op, self.path@, self.detail@),
    {
        render_error(self.op, self.path.as_str(), self.detail.as_str())
    }
}

/// Law: every rendered failure message contains the path verbatim.
pub proof fn lemma_error_message_contains_path(op: Operation, path: Seq<char>, detail: Seq<char>)
    ensures
        contains_substring(error_message(op, path, detail), path),
{
    reveal_strlit("Failed to read file '");
    reveal_strlit("Failed to write file '");
    reveal_strlit("Failed to read directory '");
    let lead: int = operation_label(op).len() as int;
    assert(error_message(op, path, detail).subrange(lead, lead + path.len() as int) =~= path);
}

/// Law: the message also carries the operating-system error text verbatim.
pub proof fn lemma_error_message_contains_detail(op: Operation, path: Seq<char>, detail: Seq<char>)
    ensures
        contains_substring(error_message(op, path, detail), detail),
{
    reveal_strlit("Failed to read file '");
    reveal_strlit("Failed to write file '");
    reveal_strlit("Failed to read directory '");
    reveal_strlit("': ");
    let lead: int = (operation_label(op).len() + path.len() + "': "@.len()) as int;
    assert(error_message(op, path, detail).subrange(lead, lead + detail.len() as int) =~= detail);
}

} // verus!
