//! What of a text run takes part in shaping.

use vstd::prelude::*;
use vstd::utf8::is_ascii_chars;

verus! {

/// The direction in which a run of text flows.
#[derive(Clone, Copy, Debug, PartialEq, Eq, Structural)]
pub enum Direction {
    /// Horizontal, left to right.
    LeftToRight,
    /// Horizontal, right to left.
    RightToLeft,
    /// Vertical, top to bottom.
    TopToBottom,
    /// Vertical, bottom to top.
    BottomToTop,
}

impl Direction {
    /// The byte that stands for the direction in a key.
    pub open spec fn spec_code(self) -> u8 {
        match self {
            Direction::LeftToRight => 1,
            Direction::RightToLeft => 2,
            Direction::TopToBottom => 3,
            Direction::BottomToTop => 4,
        }
    }

    /// The byte that stands for the direction in a key.
    #[verifier::when_used_as_spec(spec_code)]
    pub fn code(self) -> (c: u8)
        ensures
            c == self.spec_code(),
    {
        match self {
            Direction::LeftToRight => 1,
            Direction::RightToLeft => 2,
            Direction::TopToBottom => 3,
            Direction::BottomToTop => 4,
        }
    }
}

/// A run of text with the properties that decide how it is shaped.
///
/// The text itself is carried along but is no part of the run's shaping
/// context: two runs that differ only in their text share one plan.
pub struct TextRun {
    /// The characters of the run.
    pub text: String,
    /// The direction of the run.
    pub direction: Direction,
    /// The four bytes of the script tag, first byte in the highest position.
    pub script: u32,
    /// The language tag, if the run has one.
    pub language: Option<String>,
}

/// The shaping context of a run: everything but its text.
pub struct RunContext {
    /// The direction of the run.
    pub direction: Direction,
    /// The script tag.
    pub script: u32,
    /// The characters of the language tag, if there is one.
    pub language: Option<Seq<char>>,
}

impl TextRun {
    /// A run from its text and shaping properties.
    pub fn new(text: String, direction: Direction, script: u32, language: Option<String>) -> (run:
        TextRun)
        ensures
            run.text == text,
            run.direction == direction,
            run.script == script,
            run.language == language,
    {
        TextRun { text, direction, script, language }
    }

    /// The characters of the language tag, if there is one.
    pub open spec fn language_text(&self) -> Option<Seq<char>> {
        match self.language {
            Some(tag) => Some(tag@),
            None => None,
        }
    }

    /// The language tag, if there is one, is made of ASCII characters only,
    /// as every well-formed language tag is.
    pub open spec fn spec_has_plain_language(&self) -> bool {
        match self.language {
            Some(tag) => is_ascii_chars(tag@),
            None => true,
        }
    }

    /// Tells whether the language tag, if there is one, is made of ASCII
    /// characters only. The shaping engine takes no other tag.
    #[verifier::when_used_as_spec(spec_has_plain_language)]
    pub fn has_plain_language(&self) -> (plain: bool)
        ensures
            plain == self.spec_has_plain_language(),
    {
        match &self.language {
            Some(tag) => tag.as_str().is_ascii(),
            None => true,
        }
    }

    /// The shaping context of the run.
    pub open spec fn context(&self) -> RunContext {
        RunContext {
            direction: self.direction,
            script: self.script,
            language: self.language_text(),
        }
    }
}

} // verus!
