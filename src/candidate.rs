//! Completion candidates: what is listed to the user, and what goes into the
//! line when one is chosen.
use vstd::prelude::*;

verus! {

/// A completion candidate.
pub trait Candidate {
    /// The text listed among the alternatives.
    spec fn shown(&self) -> Seq<char>;

    /// The text put into the line.
    spec fn inserted(&self) -> Seq<char>;

    /// Text to display when listing alternatives.
    fn display(&self) -> (r: &str)
        ensures
            r@ == self.shown(),
    ;

    /// Text to insert in line.
    fn replacement(&self) -> (r: &str)
        ensures
            r@ == self.inserted(),
    ;
}

impl Candidate for String {
    open spec fn shown(&self) -> Seq<char> {
        self@
    }

    open spec fn inserted(&self) -> Seq<char> {
        self@
    }

    fn display(&self) -> (r: &str) {
        self.as_str()
    }

    fn replacement(&self) -> (r: &str) {
        self.as_str()
    }
}

impl Candidate for str {
    open spec fn shown(&self) -> Seq<char> {
        self@
    }

    open spec fn inserted(&self) -> Seq<char> {
        self@
    }

    fn display(&self) -> (r: &str) {
        self
    }

    fn replacement(&self) -> (r: &str) {
        self
    }
}

impl<'a> Candidate for &'a str {
    open spec fn shown(&self) -> Seq<char> {
        (*self)@
    }

    open spec fn inserted(&self) -> Seq<char> {
        (*self)@
    }

    fn display(&self) -> (r: &str) {
        *self
    }

    fn replacement(&self) -> (r: &str) {
        *self
    }
}

/// A suggestion of the completion engine: how it is listed and what it
/// puts into the line.
pub struct Suggestion {
    pub display: String,
    pub replacement: String,
}

/// A completion engine's suggestion offered as a candidate.
pub struct CompletionSuggestion(pub Suggestion);

impl Candidate for CompletionSuggestion {
    open spec fn shown(&self) -> Seq<char> {
        self.0.display@
    }

    open spec fn inserted(&self) -> Seq<char> {
        self.0.replacement@
    }

    fn display(&self) -> (r: &str) {
        self.0.display.as_str()
    }

    fn replacement(&self) -> (r: &str) {
        self.0.replacement.as_str()
    }
}

} // verus!
