//! Assertions that an optional value is empty.
//!
//! The [`UnwrapNone`] trait extends an optional container with methods that
//! consume it while insisting that nothing is inside. `expect_none` and
//! `unwrap_none` demand emptiness outright; `unwrap_none_or_else` hands a
//! held value to a caller-supplied handler instead. The diagnostic text
//! raised at an abort site when a value was present is built by
//! [`expect_none_failed`], whose contract pins the text exactly.

use vstd::prelude::*;
use vstd::string::StringExecFns;

verus! {

/// The diagnostic text for an optional that held a value when it was
/// expected to be empty: the caller's message, the separator `": "`, and
/// the rendering of the held value.
pub open spec fn failure_text(msg: Seq<char>, rendered: Seq<char>) -> Seq<char> {
    msg + seq![':', ' '] + rendered
}

/// The fixed message used when `unwrap_none` finds a value.
pub open spec fn unwrap_none_message() -> Seq<char> {
    "called unwrap_none on a value that was present"@
}

/// Builds the diagnostic text shown when an optional that was expected to
/// be empty turned out to hold a value. `msg` describes the expectation,
/// `rendered` is a human-readable rendering of the unexpected value.
pub fn expect_none_failed(msg: &str, rendered: &str) -> (r: String)
    ensures
        r@ == failure_text(msg@, rendered@),
{
    let text = String::from_str(msg).concat(": ").concat(rendered);
    proof {
        reveal_strlit(": ");
        assert(text@ =~= failure_text(msg@, rendered@));
    }
    text
}

/// The fixed message that belongs in the diagnostic text when
/// `unwrap_none` finds a value.
pub fn unwrap_none_failure_message() -> (r: &'static str)
    ensures
        r@ == unwrap_none_message(),
{
    "called unwrap_none on a value that was present"
}

/// The diagnostic text always carries the caller's message as its prefix
/// and the rendering of the unexpected value as its suffix, whatever the
/// two are.
pub proof fn lemma_failure_text_contains(msg: Seq<char>, rendered: Seq<char>)
    ensures
        failure_text(msg, rendered).len() == msg.len() + 2 + rendered.len(),
        failure_text(msg, rendered).subrange(0, msg.len() as int) == msg,
        failure_text(msg, rendered).subrange(
            msg.len() as int + 2,
            failure_text(msg, rendered).len() as int,
        ) == rendered,
{
    assert(failure_text(msg, rendered).subrange(0, msg.len() as int) =~= msg);
    assert(failure_text(msg, rendered).subrange(
        msg.len() as int + 2,
        failure_text(msg, rendered).len() as int,
    ) =~= rendered);
}

/// Methods that consume an optional container while asserting that it is
/// empty. `expect_none` and `unwrap_none` accept only an empty optional:
/// a caller that cannot establish emptiness must test first and raise the
/// diagnostic of [`expect_none_failed`] itself. `unwrap_none_or_else`
/// accepts either state and delegates a held value to a handler.
pub trait UnwrapNone<T> {
    /// The optional value that `self` stands for.
    spec fn optional(self) -> Option<T>;

    /// Consumes `self`, which must be empty. `msg` describes the
    /// expectation and would name the failure had a value been present;
    /// it is accepted unconditionally, the empty string included.
    fn expect_none(self, msg: &str)
        requires
            self.optional() is None,
    ;

    /// Consumes `self`, which must be empty. The diagnostic belonging to
    /// a violated call is fixed: [`unwrap_none_message`].
    fn unwrap_none(self)
        requires
            self.optional() is None,
    ;

    /// Consumes `self`. A held value is passed to `f`, which is invoked
    /// exactly once with it; on an empty optional `f` is never invoked
    /// and the call returns at once.
    fn unwrap_none_or_else<F: FnOnce(T)>(self, f: F)
        requires
            self.optional() matches Some(v) ==> call_requires(f, (v,)),
        ensures
            self.optional() matches Some(v) ==> call_ensures(f, (v,), ()),
    ;
}

impl<T> UnwrapNone<T> for Option<T> {
    open spec fn optional(self) -> Option<T> {
        self
    }

    fn expect_none(self, msg: &str) {}

    fn unwrap_none(self) {}

    fn unwrap_none_or_else<F: FnOnce(T)>(self, f: F) {
        if let Some(val) = self {
            f(val);
        }
    }
}

} // verus!
