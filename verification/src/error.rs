//! Errors of the library.
use vstd::prelude::*;

verus! {

/// An error raised while building or restoring a capability set.
#[derive(Debug)]
pub enum NonoError {
    /// A configuration or persisted state could not be interpreted.
    ConfigParse(String),
    /// A value was refused by the capability set's own rules.
    InvalidConfig(String),
    /// A path that a capability names does not exist.
    PathNotFound(String),
    /// A path that should name a directory names something else.
    ExpectedDirectory(String),
    /// A path that should name a file names something else.
    ExpectedFile(String),
}

/// What an error is, with its message as a sequence of characters.
pub enum NonoErrorView {
    ConfigParse(Seq<char>),
    InvalidConfig(Seq<char>),
    PathNotFound(Seq<char>),
    ExpectedDirectory(Seq<char>),
    ExpectedFile(Seq<char>),
}

impl View for NonoError {
    type V = NonoErrorView;

    open spec fn view(&self) -> NonoErrorView {
        match self {
            NonoError::ConfigParse(m) => NonoErrorView::ConfigParse(m@),
            NonoError::InvalidConfig(m) => NonoErrorView::InvalidConfig(m@),
            NonoError::PathNotFound(m) => NonoErrorView::PathNotFound(m@),
            NonoError::ExpectedDirectory(m) => NonoErrorView::ExpectedDirectory(m@),
            NonoError::ExpectedFile(m) => NonoErrorView::ExpectedFile(m@),
        }
    }
}

impl Clone for NonoError {
    fn clone(&self) -> (e: Self)
        ensures
            e@ == self@,
    {
        match self {
            NonoError::ConfigParse(m) => NonoError::ConfigParse(m.clone()),
            NonoError::InvalidConfig(m) => NonoError::InvalidConfig(m.clone()),
            NonoError::PathNotFound(m) => NonoError::PathNotFound(m.clone()),
            NonoError::ExpectedDirectory(m) => NonoError::ExpectedDirectory(m.clone()),
            NonoError::ExpectedFile(m) => NonoError::ExpectedFile(m.clone()),
        }
    }
}

} // verus!
