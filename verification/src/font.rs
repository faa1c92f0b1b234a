//! A font as the cache sees it.

use crate::variation::Variation;
use vstd::prelude::*;

verus! {

/// A font: an identity, the engine's face, and the variation axes in the
/// font's own order.
///
/// The identity tells fonts apart; two fonts with one identity and the same
/// axis settings are taken to be the same font. The order of the axes is a
/// property of the font and never changes while the font is borrowed.
pub struct Font<'a> {
    /// What tells this font from every other.
    pub id: u64,
    /// The face that the shaping engine works on.
    pub face: rustybuzz::Face<'a>,
    /// The axis settings, in the font's own order.
    pub variations: Vec<Variation>,
}

impl<'a> Font<'a> {
    /// A font from its identity, its face and its axis settings.
    pub fn new(id: u64, face: rustybuzz::Face<'a>, variations: Vec<Variation>) -> (font: Font<'a>)
        ensures
            font.id == id,
            font.face == face,
            font.variations == variations,
    {
        Font { id, face, variations }
    }

    /// The font's identity.
    pub fn id(&self) -> (id: u64)
        ensures
            id == self.id,
    {
        self.id
    }

    /// The face that the shaping engine works on.
    pub fn rustybuzz(&self) -> (face: &rustybuzz::Face<'a>)
        ensures
            *face == self.face,
    {
        &self.face
    }

    /// The axis settings, always in the same order.
    pub fn variations(&self) -> (axes: &Vec<Variation>)
        ensures
            axes@ == self.variations@,
    {
        &self.variations
    }
}

} // verus!
