//! Why a named value could not be had from an argument vector.

use vstd::prelude::*;

verus! {

/// The ways in which looking up a named value fails. Each failure is handed
/// back to the caller; none is printed or recovered from here.
#[derive(Debug, PartialEq, Eq)]
pub enum ArgError {
    /// The flag, held here by name, is not among the arguments.
    NotFound(String),
    /// The flag, held here by name, is the last argument: no token follows it.
    MissingValue(String),
    /// The token after the flag does not convert to the wanted type. Holds the
    /// caller's own message; what the conversion itself complained of is dropped.
    ConversionError(String),
}

/// An `ArgError` with its texts as sequences of characters.
pub ghost enum ArgErrorView {
    NotFound(Seq<char>),
    MissingValue(Seq<char>),
    ConversionError(Seq<char>),
}

impl ArgErrorView {
    /// The sentence that tells a user of this failure.
    pub open spec fn message(self) -> Seq<char> {
        match self {
            ArgErrorView::NotFound(name) => "Parameter not found "@ + name,
            ArgErrorView::MissingValue(name) => "Parameter passed but value not found "@ + name,
            ArgErrorView::ConversionError(text) => text,
        }
    }
}

impl View for ArgError {
    type V = ArgErrorView;

    open spec fn view(&self) -> ArgErrorView {
        match *self {
            ArgError::NotFound(name) => ArgErrorView::NotFound(name@),
            ArgError::MissingValue(name) => ArgErrorView::MissingValue(name@),
            ArgError::ConversionError(text) => ArgErrorView::ConversionError(text@),
        }
    }
}

impl ArgError {
    /// The sentence that tells a user of this failure: the fixed wording
    /// followed by the flag's name, or the caller's message unchanged.
    pub fn message(&self) -> (text: String)
        ensures
            text@ == self@.message(),
    {
        match self {
            ArgError::NotFound(name) => {
                let mut text = "Parameter not found ".to_owned();
                text.append(name.as_str());
                text
            },
            ArgError::MissingValue(name) => {
                let mut text = "Parameter passed but value not found ".to_owned();
                text.append(name.as_str());
                text
            },
            ArgError::ConversionError(text) => text.clone(),
        }
    }
}

} // verus!
