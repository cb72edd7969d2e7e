//! Renderings of the consonants, keyed by case, and of rho by case and
//! breathing; also the word-final sigma form.

use vstd::prelude::*;

use crate::unicode::{enc1, spec_utf8};
use crate::{Breathing, Case};

verus! {

/// The rendering of a plain consonant: one code point per case.
pub open spec fn spec_consonant(small: u32, capital: u32, case: Case) -> Seq<u8> {
    if case is Small {
        spec_utf8(small)
    } else {
        spec_utf8(capital)
    }
}

/// Pick the code point of a plain consonant by case and encode it.
pub fn consonant(small: u32, capital: u32, case: Case) -> (r: Vec<u8>)
    requires
        small < 0x110000,
        capital < 0x110000,
    ensures
        r@ == spec_consonant(small, capital, case),
{
    match case {
        Case::Small => enc1(small),
        Case::Capital => enc1(capital),
    }
}

/// The rendering of rho.  The breathing field is carried but no toggle
/// rule ever sets it, so only the unmarked entries are reachable from the
/// transition rules; the marked entries keep the table total.  The
/// fallback arm catches both the unmarked small rho and the (unreachable)
/// smooth-breathing capital, which therefore renders as the small form.
pub open spec fn spec_rho(case: Case, breathing: Breathing) -> Seq<u8> {
    match (case, breathing) {
        (Case::Capital, Breathing::Rough) => spec_utf8(0x1fec),
        (Case::Capital, Breathing::Unmarked) => spec_utf8(0x03a1),
        (Case::Small, Breathing::Rough) => spec_utf8(0x1fe5),
        (Case::Small, Breathing::Smooth) => spec_utf8(0x1fe4),
        _ => spec_utf8(0x03c1),
    }
}

/// The rho rendering table.
pub struct Rho;

impl Rho {
    /// Look up the rendering of rho for a (case, breathing) pair.
    pub fn index(&self, v: (Case, Breathing)) -> (r: Vec<u8>)
        ensures
            r@ == spec_rho(v.0, v.1),
    {
        match v {
            (Case::Capital, Breathing::Rough) => enc1(0x1fec),
            (Case::Capital, Breathing::Unmarked) => enc1(0x03a1),
            (Case::Small, Breathing::Rough) => enc1(0x1fe5),
            (Case::Small, Breathing::Smooth) => enc1(0x1fe4),
            _ => enc1(0x03c1),
        }
    }
}

/// The medial sigma rendering.
pub open spec fn spec_sigma(case: Case) -> Seq<u8> {
    spec_consonant(0x03c3, 0x03a3, case)
}

/// The word-final sigma rendering, substituted for a trailing medial sigma
/// once a byte confirms the word has ended.
pub open spec fn spec_final_sigma(case: Case) -> Seq<u8> {
    spec_consonant(0x03c2, 0x03a3, case)
}

/// Encode the word-final sigma form for a case.
pub fn final_sigma(case: Case) -> (r: Vec<u8>)
    ensures
        r@ == spec_final_sigma(case),
{
    consonant(0x03c2, 0x03a3, case)
}

} // verus!
