//! The shaping engine that builds plans.
//!
//! Faces and plans belong to the engine; the library carries them through
//! without looking inside.

use crate::run::Direction;
use vstd::prelude::*;
use vstd::utf8::is_ascii_chars;

verus! {

/// A parsed font face of the shaping engine.
#[verifier::external_type_specification]
#[verifier::external_body]
pub struct ExFace<'a>(rustybuzz::Face<'a>);

/// A plan of the shaping engine.
#[verifier::external_type_specification]
#[verifier::external_body]
pub struct ExShapePlan(rustybuzz::ShapePlan);

/// The plan that the engine builds for a face and a shaping context when no
/// feature is overridden.
pub uninterp spec fn engine_plan(
    face: rustybuzz::Face<'_>,
    direction: Direction,
    script: u32,
    language: Option<Seq<char>>,
) -> rustybuzz::ShapePlan;

/// Calls `rustybuzz::ShapePlan::new` with an empty feature list.
///
/// The engine takes the script and the language in types of its own, which
/// only its own constructors make. The tag goes through
/// `Script::from_iso15924_tag`, which gives no script for the null tag and
/// otherwise the script that the engine knows by the tag: it adjusts letter
/// case, follows a few older aliases and takes what is no tag of four
/// letters for the unknown script. The text goes through the `FromStr` impl
/// of `Language`, which gives no language for the empty text and otherwise
/// the text in lower case.
///
/// `ShapePlan::new` panics on two kinds of input, and both are kept out. One
/// is the engine's unset direction, which [`Direction`] does not have. The
/// other is a language with a character outside ASCII: to find the
/// language's OpenType tags the engine cuts the text at byte positions taken
/// from its own table of languages, and such a position may lie inside a
/// longer character. In ASCII text every position is a place to cut.
///
/// The contract claims that the plan is a function of the face and of the
/// three properties, and no more: that is what makes a stored plan fit for
/// every later run with the same properties.
#[verifier::external_body]
pub(crate) fn build_plan(
    face: &rustybuzz::Face<'_>,
    direction: Direction,
    script: u32,
    language: Option<&str>,
) -> (plan: rustybuzz::ShapePlan)
    requires
        match language {
            Some(tag) => is_ascii_chars(tag@),
            None => true,
        },
    ensures
        plan == engine_plan(
            *face,
            direction,
            script,
            match language {
                Some(tag) => Some(tag@),
                None => None,
            },
        ),
{
    let direction = match direction {
        Direction::LeftToRight => rustybuzz::Direction::LeftToRight,
        Direction::RightToLeft => rustybuzz::Direction::RightToLeft,
        Direction::TopToBottom => rustybuzz::Direction::TopToBottom,
        Direction::BottomToTop => rustybuzz::Direction::BottomToTop,
    };
    let script = rustybuzz::Script::from_iso15924_tag(rustybuzz::ttf_parser::Tag(script));
    let language = match language {
        Some(tag) => tag.parse::<rustybuzz::Language>().ok(),
        None => None,
    };
    rustybuzz::ShapePlan::new(face, direction, script, language.as_ref(), &[])
}

} // verus!
