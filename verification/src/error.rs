//! The errors of the library and the messages they read as.

use vstd::prelude::*;

verus! {

/// An error of the library.
#[derive(Clone, Debug, PartialEq, Eq)]
pub enum Error {
    /// An icon type cannot be turned into the type asked for.
    IconTypeTransfom,
    /// A fixed height lies outside the allowed heights.
    ConflictHeight,
    /// A fixed width lies outside the allowed widths.
    ConflictWidth,
    /// A theme style file cannot be loaded.
    ThemeStyleFileLoad(String),
    /// A theme style file cannot be parsed.
    ThemeStyleParse(String),
    /// A part cannot be converted into another.
    InvalidPart { from: String, to: String },
}

/// The message an error reads as.
pub open spec fn error_message(e: Error) -> Seq<char> {
    match e {
        Error::IconTypeTransfom => "Cannot transform icon type to target type. You may use the non-exist icon type."@,
        Error::ConflictHeight => "Widget height is fixed and bigger than max height or smaller than min height."@,
        Error::ConflictWidth => "Widget width is fixed and bigger than max width or smaller than min width."@,
        Error::ThemeStyleFileLoad(s) => "Cannot load theme style file: "@ + s@,
        Error::ThemeStyleParse(s) => "Cannot parse theme style file: "@ + s@,
        Error::InvalidPart { from, to } => "Invalid part conversion from "@ + from@ + " to "@ + to@,
    }
}

impl Error {
    /// The message the error reads as.
    pub fn message(&self) -> (m: String)
        ensures
            m@ == error_message(*self),
    {
        match self {
            Error::IconTypeTransfom => String::from_str(
                "Cannot transform icon type to target type. You may use the non-exist icon type.",
            ),
            Error::ConflictHeight => String::from_str(
                "Widget height is fixed and bigger than max height or smaller than min height.",
            ),
            Error::ConflictWidth => String::from_str(
                "Widget width is fixed and bigger than max width or smaller than min width.",
            ),
            Error::ThemeStyleFileLoad(e) => {
                let mut m = String::from_str("Cannot load theme style file: ");
                m.append(e.as_str());
                m
            },
            Error::ThemeStyleParse(e) => {
                let mut m = String::from_str("Cannot parse theme style file: ");
                m.append(e.as_str());
                m
            },
            Error::InvalidPart { from, to } => {
                let mut m = String::from_str("Invalid part conversion from ");
                m.append(from.as_str());
                m.append(" to ");
                m.append(to.as_str());
                m
            },
        }
    }
}

} // verus!
