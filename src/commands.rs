//! The commands callable from the user interface.

use vstd::prelude::*;
use vstd::string::*;

verus! {

/// The greeting returned for `name`.
pub open spec fn greeting(name: Seq<char>) -> Seq<char> {
    "Hello, "@ + name + "! You've been greeted from Rust!"@
}

/// Whether `needle` occurs in `hay` as a contiguous run of characters.
pub open spec fn contains_text(hay: Seq<char>, needle: Seq<char>) -> bool {
    exists|i: int|
        0 <= i && i + needle.len() <= hay.len() && #[trigger] hay.subrange(i, i + needle.len())
            == needle
}

/// Returns the greeting for `name`, which always succeeds.
pub fn greet(name: &str) -> (r: String)
    ensures
        r@ == greeting(name@),
        contains_text(r@, name@),
        contains_text(r@, "Hello, "@),
        contains_text(r@, "You've been greeted from Rust!"@),
{
    let mut r = String::from_str("Hello, ");
    r.append(name);
    r.append("! You've been greeted from Rust!");
    proof {
        reveal_strlit("Hello, ");
        reveal_strlit("! You've been greeted from Rust!");
        reveal_strlit("You've been greeted from Rust!");
        let n: int = name@.len() as int;
        assert(r@.subrange(7, 7 + n) =~= name@);
        assert(r@.subrange(0, 0int + 7) =~= "Hello, "@);
        assert(r@.subrange(9 + n, 9 + n + 30) =~= "You've been greeted from Rust!"@);
    }
    r
}

/// The error text for a failed write of `file_path`, where `cause` is the
/// operating system's description of the failure.
pub open spec fn write_failure(file_path: Seq<char>, cause: Seq<char>) -> Seq<char> {
    "Failed to write file "@ + file_path + ": "@ + cause
}

/// Decides whether a write of `file_path` may go ahead. No policy is enforced
/// here: the host's capability configuration governs file access, and the
/// interface confirms with the user before it asks. Both arguments are
/// accepted for the sake of a later policy and are not inspected.
pub fn request_file_write_permission(file_path: String, diff_preview: String) -> (r: Result<
    bool,
    String,
>)
    ensures
        r == Ok::<bool, String>(true),
{
    Ok(true)
}

/// The text of the error that reports a failed write of `file_path`.
pub fn write_failure_message(file_path: &str, cause: &str) -> (r: String)
    ensures
        r@ == write_failure(file_path@, cause@),
        contains_text(r@, file_path@),
{
    let mut r = String::from_str("Failed to write file ");
    r.append(file_path);
    r.append(": ");
    r.append(cause);
    proof {
        reveal_strlit("Failed to write file ");
        reveal_strlit(": ");
        let n: int = file_path@.len() as int;
        assert(r@.subrange(21, 21 + n) =~= file_path@);
    }
    r
}

/// The outcome of applying an edit to `file_path`, given the outcome of
/// overwriting the file: success when the write succeeded, and otherwise an
/// error that names the path and carries the operating system's description.
pub fn file_edit_outcome(file_path: &str, written: Result<(), String>) -> (r: Result<(), String>)
    ensures
        written is Ok <==> r is Ok,
        written matches Err(cause) ==> r matches Err(m) && m@ == write_failure(file_path@, cause@),
        r matches Err(m) ==> contains_text(m@, file_path@),
{
    match written {
        Ok(()) => Ok(()),
        Err(cause) => Err(write_failure_message(file_path, cause.as_str())),
    }
}

} // verus!
