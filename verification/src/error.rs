//! The error taxonomy of the RPC layer.

use vstd::prelude::*;

verus! {

/// The suffix that turns a method name into a call: `name` becomes `name()`.
pub open spec fn call_of(name: Seq<char>) -> Seq<char> {
    name + seq!['(', ')']
}

/// The call path that goes on from `path` through the method `name`:
/// `path.name()`.
pub open spec fn call_then(path: Seq<char>, name: Seq<char>) -> Seq<char> {
    path + seq!['.'] + name + seq!['(', ')']
}

/// The response received belongs to another method than the request sent.
///
/// Both fields are call paths: one `name()` per nesting level that the call
/// went through, joined by dots, in the order in which it went through them.
#[derive(Debug, Clone, PartialEq, Eq)]
pub struct WrongResponseType {
    /// The expected method
    pub expected: String,
    /// The actual method
    pub actual: String,
}

/// The contents of [`WrongResponseType`], with its texts as sequences of characters.
pub struct WrongResponseTypeView {
    pub expected: Seq<char>,
    pub actual: Seq<char>,
}

impl View for WrongResponseType {
    type V = WrongResponseTypeView;

    open spec fn view(&self) -> WrongResponseTypeView {
        WrongResponseTypeView { expected: self.expected@, actual: self.actual@ }
    }
}

/// `name` followed by `()`.
pub fn call_name(name: &str) -> (path: String)
    ensures
        path@ == call_of(name@),
{
    proof {
        reveal_strlit("()");
    }
    let path = String::from_str(name).concat("()");
    assert(path@ =~= call_of(name@));
    path
}

/// `path`, a dot, and `name` followed by `()`.
pub fn nested_call_name(path: &str, name: &str) -> (longer: String)
    ensures
        longer@ == call_then(path@, name@),
{
    proof {
        reveal_strlit(".");
        reveal_strlit("()");
    }
    let longer = String::from_str(path).concat(".").concat(name).concat("()");
    assert(longer@ =~= call_then(path@, name@));
    longer
}

impl WrongResponseType {
    /// The mismatch seen by the method `expected` when the response of the
    /// method `actual` arrived.
    pub fn new(expected: &str, actual: &str) -> (err: Self)
        ensures
            err@.expected == call_of(expected@),
            err@.actual == call_of(actual@),
    {
        Self { expected: call_name(expected), actual: call_name(actual) }
    }

    /// The same mismatch as it reaches the client of the sub-service behind
    /// the method `name`: the call went on through `name`, and both paths say
    /// so.
    pub fn in_subservice(self, name: &str) -> (err: Self)
        ensures
            err@.expected == call_then(self@.expected, name@),
            err@.actual == call_then(self@.actual, name@),
    {
        Self {
            expected: nested_call_name(self.expected.as_str(), name),
            actual: nested_call_name(self.actual.as_str(), name),
        }
    }
}

impl WrongResponseType {
    /// The error as a sentence.
    pub fn message(&self) -> (text: String)
        ensures
            text@ == "Response was for the wrong method, sent a request for "@ + self@.expected
                + ", but received the response for "@ + self@.actual,
    {
        String::from_str("Response was for the wrong method, sent a request for ").concat(
            self.expected.as_str(),
        ).concat(", but received the response for ").concat(self.actual.as_str())
    }
}

} // verus!
