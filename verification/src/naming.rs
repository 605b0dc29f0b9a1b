//! A data-driven implementation of the animation-naming capability.
//!
//! A [`NamedAnimation`] carries an animation's name and resolves, for each
//! facing direction, the frame-set name `{lower-cased name}_{front|back|side}`.
//! Left and Right both resolve to the `side` suffix: they share one frame-set
//! and differ only in the playback target's mirror flag.

use vstd::prelude::*;

use crate::Direction;
use crate::SidedAnimation;
use vstd::string::StringExecFns;

verus! {

/// The ASCII lower-case image of a character: the letters 'A' through 'Z'
/// move to 'a' through 'z', every other character stays as it is.
pub open spec fn lower_char(c: char) -> char {
    if 65 <= c as u32 && c as u32 <= 90 {
        ((c as u32 + 32) as u32) as char
    } else {
        c
    }
}

/// A character sequence with every character in ASCII lower case.
pub open spec fn ascii_lower(s: Seq<char>) -> Seq<char> {
    s.map_values(|c: char| lower_char(c))
}

/// Relies on str::to_ascii_lowercase: every ASCII upper-case letter of the
/// string is mapped to its lower-case equivalent and every other character
/// is kept as it is.
#[verifier::external_body]
fn to_ascii_lower(s: &str) -> (r: String)
    ensures
        r@ == ascii_lower(s@),
{
    s.to_ascii_lowercase()
}

/// The frame-set suffix for a facing direction. Left and Right share the
/// `side` artwork.
pub open spec fn direction_suffix(dir: Direction) -> Seq<char> {
    match dir {
        Direction::Front => "_front"@,
        Direction::Back => "_back"@,
        Direction::Left => "_side"@,
        Direction::Right => "_side"@,
    }
}

/// Returns the frame-set suffix for a facing direction.
pub fn suffix_str(dir: Direction) -> (r: &'static str)
    ensures
        r@ == direction_suffix(dir),
{
    match dir {
        Direction::Front => "_front",
        Direction::Back => "_back",
        Direction::Left => "_side",
        Direction::Right => "_side",
    }
}

/// An animation identifier named by a string, as a plain-data stand-in for
/// one variant of an animation enumeration. Its frame-set names follow the
/// convention `{lower-cased name}_{front|back|side}`.
#[derive(Debug, PartialEq, Eq)]
pub struct NamedAnimation {
    base: String,
}

impl NamedAnimation {
    /// The lower-cased base name that all this animation's frame-set names
    /// start with.
    pub closed spec fn base_spec(&self) -> Seq<char> {
        self.base@
    }

    /// Creates the identifier for the animation called `name`.
    pub fn new(name: &str) -> (r: NamedAnimation)
        ensures
            r.base_spec() == ascii_lower(name@),
    {
        NamedAnimation { base: to_ascii_lower(name) }
    }

    /// The lower-cased base name.
    pub fn base(&self) -> (r: &str)
        ensures
            r@ == self.base_spec(),
    {
        self.base.as_str()
    }
}

impl SidedAnimation for NamedAnimation {
    open spec fn to_sided_spec(&self, dir: Direction) -> Seq<char> {
        self.base_spec() + direction_suffix(dir)
    }

    fn to_sided(&self, dir: Direction) -> (r: String) {
        self.base.clone().concat(suffix_str(dir))
    }
}

} // verus!
