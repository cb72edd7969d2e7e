//! The transliteration state machine: the descriptor of the currently open
//! letter, and the transition rules that interpret each incoming byte.

use vstd::prelude::*;

use crate::unicode::consonant;
use crate::unicode::consonant::Rho;
use crate::unicode::vowel;
use crate::{Accent, Breathing, Case, Diaeresis, Subscript};

verus! {

/// The descriptor of the letter currently open for diacritic composition.
///
/// Each letter's variant carries only the diacritic dimensions that are
/// legal for it, so an illegal combination (say, a circumflexed epsilon
/// with an iota subscript) cannot even be represented.  `Initial` is the
/// rest state: no letter is open.
#[derive(Debug, Clone, Copy, PartialEq, Eq, Structural)]
pub enum State {
    Initial,
    Alpha(Case, Breathing, Accent, Subscript),
    Beta(Case),
    Gamma(Case),
    Delta(Case),
    Epsilon(Case, Breathing, Accent),
    Zeta(Case),
    Eta(Case, Breathing, Accent, Subscript),
    Theta(Case),
    Iota(Case, Breathing, Accent, Diaeresis),
    Kappa(Case),
    Lambda(Case),
    Mu(Case),
    Nu(Case),
    Xi(Case),
    Omicron(Case, Breathing, Accent),
    Pi(Case),
    Rho(Case, Breathing),
    Sigma(Case),
    Tau(Case),
    Ypsilon(Case, Breathing, Accent, Diaeresis),
    Phi(Case),
    Chi(Case),
    Psi(Case),
    Omega(Case, Breathing, Accent, Subscript),
}

/// The seven diacritic-toggle bytes.
pub open spec fn spec_is_diacritics(c: u8) -> bool {
    c == 0x29 || c == 0x28 || c == 0x5c || c == 0x2f || c == 0x3d || c == 0x7c
        || c == 0x22
}

/// Whether `c` is one of the seven diacritic-toggle bytes:
/// `)` `(` `\` `/` `=` `|` `"`.
pub fn is_diacritics(c: u8) -> (r: bool)
    ensures
        r == spec_is_diacritics(c),
{
    c == 0x29 || c == 0x28 || c == 0x5c || c == 0x2f || c == 0x3d || c == 0x7c || c == 0x22
}

/// Does the tag of `s` carry a breathing field that the toggle bytes reach?
/// (Rho carries one too, but no toggle rule ever touches it.)
pub open spec fn spec_is_vowel(s: State) -> bool {
    match s {
        State::Alpha(..) => true,
        State::Epsilon(..) => true,
        State::Eta(..) => true,
        State::Iota(..) => true,
        State::Omicron(..) => true,
        State::Ypsilon(..) => true,
        State::Omega(..) => true,
        _ => false,
    }
}

pub open spec fn spec_toggle_smooth(s: State) -> State {
    match s {
        State::Alpha(a, b, c, d) => State::Alpha(
            a,
            if b is Smooth {
                Breathing::Unmarked
            } else {
                Breathing::Smooth
            },
            c,
            d,
        ),
        State::Epsilon(a, b, c) => State::Epsilon(
            a,
            if b is Smooth {
                Breathing::Unmarked
            } else {
                Breathing::Smooth
            },
            c,
        ),
        State::Eta(a, b, c, d) => State::Eta(
            a,
            if b is Smooth {
                Breathing::Unmarked
            } else {
                Breathing::Smooth
            },
            c,
            d,
        ),
        State::Iota(a, b, c, d) => State::Iota(
            a,
            if b is Smooth {
                Breathing::Unmarked
            } else {
                Breathing::Smooth
            },
            c,
            d,
        ),
        State::Omicron(a, b, c) => State::Omicron(
            a,
            if b is Smooth {
                Breathing::Unmarked
            } else {
                Breathing::Smooth
            },
            c,
        ),
        State::Ypsilon(a, b, c, d) => State::Ypsilon(
            a,
            if b is Smooth {
                Breathing::Unmarked
            } else {
                Breathing::Smooth
            },
            c,
            d,
        ),
        State::Omega(a, b, c, d) => State::Omega(
            a,
            if b is Smooth {
                Breathing::Unmarked
            } else {
                Breathing::Smooth
            },
            c,
            d,
        ),
        _ => s,
    }
}

pub open spec fn spec_toggle_rough(s: State) -> State {
    match s {
        State::Alpha(a, b, c, d) => State::Alpha(
            a,
            if b is Rough {
                Breathing::Unmarked
            } else {
                Breathing::Rough
            },
            c,
            d,
        ),
        State::Epsilon(a, b, c) => State::Epsilon(
            a,
            if b is Rough {
                Breathing::Unmarked
            } else {
                Breathing::Rough
            },
            c,
        ),
        State::Eta(a, b, c, d) => State::Eta(
            a,
            if b is Rough {
                Breathing::Unmarked
            } else {
                Breathing::Rough
            },
            c,
            d,
        ),
        State::Iota(a, b, c, d) => State::Iota(
            a,
            if b is Rough {
                Breathing::Unmarked
            } else {
                Breathing::Rough
            },
            c,
            d,
        ),
        State::Omicron(a, b, c) => State::Omicron(
            a,
            if b is Rough {
                Breathing::Unmarked
            } else {
                Breathing::Rough
            },
            c,
        ),
        State::Ypsilon(a, b, c, d) => State::Ypsilon(
            a,
            if b is Rough {
                Breathing::Unmarked
            } else {
                Breathing::Rough
            },
            c,
            d,
        ),
        State::Omega(a, b, c, d) => State::Omega(
            a,
            if b is Rough {
                Breathing::Unmarked
            } else {
                Breathing::Rough
            },
            c,
            d,
        ),
        _ => s,
    }
}

pub open spec fn spec_toggle_grave(s: State) -> State {
    match s {
        State::Alpha(a, b, c, d) => State::Alpha(
            a,
            b,
            if c is Grave {
                Accent::Unmarked
            } else {
                Accent::Grave
            },
            d,
        ),
        State::Epsilon(a, b, c) => State::Epsilon(
            a,
            b,
            if c is Grave {
                Accent::Unmarked
            } else {
                Accent::Grave
            },
        ),
        State::Eta(a, b, c, d) => State::Eta(
            a,
            b,
            if c is Grave {
                Accent::Unmarked
            } else {
                Accent::Grave
            },
            d,
        ),
        State::Iota(a, b, c, d) => State::Iota(
            a,
            b,
            if c is Grave {
                Accent::Unmarked
            } else {
                Accent::Grave
            },
            d,
        ),
        State::Omicron(a, b, c) => State::Omicron(
            a,
            b,
            if c is Grave {
                Accent::Unmarked
            } else {
                Accent::Grave
            },
        ),
        State::Ypsilon(a, b, c, d) => State::Ypsilon(
            a,
            b,
            if c is Grave {
                Accent::Unmarked
            } else {
                Accent::Grave
            },
            d,
        ),
        State::Omega(a, b, c, d) => State::Omega(
            a,
            b,
            if c is Grave {
                Accent::Unmarked
            } else {
                Accent::Grave
            },
            d,
        ),
        _ => s,
    }
}

pub open spec fn spec_toggle_acute(s: State) -> State {
    match s {
        State::Alpha(a, b, c, d) => State::Alpha(
            a,
            b,
            if c is Acute {
                Accent::Unmarked
            } else {
                Accent::Acute
            },
            d,
        ),
        State::Epsilon(a, b, c) => State::Epsilon(
            a,
            b,
            if c is Acute {
                Accent::Unmarked
            } else {
                Accent::Acute
            },
        ),
        State::Eta(a, b, c, d) => State::Eta(
            a,
            b,
            if c is Acute {
                Accent::Unmarked
            } else {
                Accent::Acute
            },
            d,
        ),
        State::Iota(a, b, c, d) => State::Iota(
            a,
            b,
            if c is Acute {
                Accent::Unmarked
            } else {
                Accent::Acute
            },
            d,
        ),
        State::Omicron(a, b, c) => State::Omicron(
            a,
            b,
            if c is Acute {
                Accent::Unmarked
            } else {
                Accent::Acute
            },
        ),
        State::Ypsilon(a, b, c, d) => State::Ypsilon(
            a,
            b,
            if c is Acute {
                Accent::Unmarked
            } else {
                Accent::Acute
            },
            d,
        ),
        State::Omega(a, b, c, d) => State::Omega(
            a,
            b,
            if c is Acute {
                Accent::Unmarked
            } else {
                Accent::Acute
            },
            d,
        ),
        _ => s,
    }
}

pub open spec fn spec_toggle_circumflex(s: State) -> State {
    match s {
        State::Alpha(a, b, c, d) => State::Alpha(
            a,
            b,
            if c is Circumflex {
                Accent::Unmarked
            } else {
                Accent::Circumflex
            },
            d,
        ),
        State::Eta(a, b, c, d) => State::Eta(
            a,
            b,
            if c is Circumflex {
                Accent::Unmarked
            } else {
                Accent::Circumflex
            },
            d,
        ),
        State::Iota(a, b, c, d) => State::Iota(
            a,
            b,
            if c is Circumflex {
                Accent::Unmarked
            } else {
                Accent::Circumflex
            },
            d,
        ),
        State::Ypsilon(a, b, c, d) => State::Ypsilon(
            a,
            b,
            if c is Circumflex {
                Accent::Unmarked
            } else {
                Accent::Circumflex
            },
            d,
        ),
        State::Omega(a, b, c, d) => State::Omega(
            a,
            b,
            if c is Circumflex {
                Accent::Unmarked
            } else {
                Accent::Circumflex
            },
            d,
        ),
        _ => s,
    }
}

pub open spec fn spec_toggle_iota(s: State) -> State {
    match s {
        State::Alpha(a, b, c, d) => State::Alpha(
            a,
            b,
            c,
            if d is Iota {
                Subscript::Unmarked
            } else {
                Subscript::Iota
            },
        ),
        State::Eta(a, b, c, d) => State::Eta(
            a,
            b,
            c,
            if d is Iota {
                Subscript::Unmarked
            } else {
                Subscript::Iota
            },
        ),
        State::Omega(a, b, c, d) => State::Omega(
            a,
            b,
            c,
            if d is Iota {
                Subscript::Unmarked
            } else {
                Subscript::Iota
            },
        ),
        _ => s,
    }
}

pub open spec fn spec_toggle_diaeresis(s: State) -> State {
    match s {
        State::Iota(a, b, c, d) => State::Iota(
            a,
            b,
            c,
            if d is Marked {
                Diaeresis::Unmarked
            } else {
                Diaeresis::Marked
            },
        ),
        State::Ypsilon(a, b, c, d) => State::Ypsilon(
            a,
            b,
            c,
            if d is Marked {
                Diaeresis::Unmarked
            } else {
                Diaeresis::Marked
            },
        ),
        _ => s,
    }
}

/// The transition function: pure, total, deterministic.
///
/// A base-letter byte yields that letter's fresh descriptor whatever the
/// incoming state; a diacritic-toggle byte applies its toggle rule; any
/// other byte yields `Initial`.
pub open spec fn spec_transit(s: State, c: u8) -> State {
    match c {
        0x41 => State::Alpha(Case::Capital, Breathing::Unmarked, Accent::Unmarked, Subscript::Unmarked),
        0x42 => State::Beta(Case::Capital),
        0x47 => State::Gamma(Case::Capital),
        0x44 => State::Delta(Case::Capital),
        0x45 => State::Epsilon(Case::Capital, Breathing::Unmarked, Accent::Unmarked),
        0x5a => State::Zeta(Case::Capital),
        0x48 => State::Eta(Case::Capital, Breathing::Unmarked, Accent::Unmarked, Subscript::Unmarked),
        0x51 => State::Theta(Case::Capital),
        0x49 => State::Iota(Case::Capital, Breathing::Unmarked, Accent::Unmarked, Diaeresis::Unmarked),
        0x4b => State::Kappa(Case::Capital),
        0x4c => State::Lambda(Case::Capital),
        0x4d => State::Mu(Case::Capital),
        0x4e => State::Nu(Case::Capital),
        0x58 => State::Xi(Case::Capital),
        0x4f => State::Omicron(Case::Capital, Breathing::Unmarked, Accent::Unmarked),
        0x50 => State::Pi(Case::Capital),
        0x52 => State::Rho(Case::Capital, Breathing::Unmarked),
        0x53 => State::Sigma(Case::Capital),
        0x54 => State::Tau(Case::Capital),
        0x59 => State::Ypsilon(Case::Capital, Breathing::Unmarked, Accent::Unmarked, Diaeresis::Unmarked),
        0x46 => State::Phi(Case::Capital),
        0x43 => State::Chi(Case::Capital),
        0x4a => State::Psi(Case::Capital),
        0x57 => State::Omega(Case::Capital, Breathing::Unmarked, Accent::Unmarked, Subscript::Unmarked),
        0x61 => State::Alpha(Case::Small, Breathing::Unmarked, Accent::Unmarked, Subscript::Unmarked),
        0x62 => State::Beta(Case::Small),
        0x67 => State::Gamma(Case::Small),
        0x64 => State::Delta(Case::Small),
        0x65 => State::Epsilon(Case::Small, Breathing::Unmarked, Accent::Unmarked),
        0x7a => State::Zeta(Case::Small),
        0x68 => State::Eta(Case::Small, Breathing::Unmarked, Accent::Unmarked, Subscript::Unmarked),
        0x71 => State::Theta(Case::Small),
        0x69 => State::Iota(Case::Small, Breathing::Unmarked, Accent::Unmarked, Diaeresis::Unmarked),
        0x6b => State::Kappa(Case::Small),
        0x6c => State::Lambda(Case::Small),
        0x6d => State::Mu(Case::Small),
        0x6e => State::Nu(Case::Small),
        0x78 => State::Xi(Case::Small),
        0x6f => State::Omicron(Case::Small, Breathing::Unmarked, Accent::Unmarked),
        0x70 => State::Pi(Case::Small),
        0x72 => State::Rho(Case::Small, Breathing::Unmarked),
        0x73 => State::Sigma(Case::Small),
        0x74 => State::Tau(Case::Small),
        0x79 => State::Ypsilon(Case::Small, Breathing::Unmarked, Accent::Unmarked, Diaeresis::Unmarked),
        0x66 => State::Phi(Case::Small),
        0x63 => State::Chi(Case::Small),
        0x6a => State::Psi(Case::Small),
        0x77 => State::Omega(Case::Small, Breathing::Unmarked, Accent::Unmarked, Subscript::Unmarked),
        0x29 => spec_toggle_smooth(s),
        0x28 => spec_toggle_rough(s),
        0x5c => spec_toggle_grave(s),
        0x2f => spec_toggle_acute(s),
        0x3d => spec_toggle_circumflex(s),
        0x7c => spec_toggle_iota(s),
        0x22 => spec_toggle_diaeresis(s),
        _ => State::Initial,
    }
}

/// A base-letter byte: one of the 24 case-sensitive letter codes.
pub open spec fn spec_is_base_letter(c: u8) -> bool {
    !spec_is_diacritics(c) && !(spec_transit(State::Initial, c) is Initial)
}

fn toggle_smooth(state: State) -> (r: State)
    ensures
        r == spec_toggle_smooth(state),
{
    match state {
        State::Alpha(a, Breathing::Smooth, c, d) => State::Alpha(a, Breathing::Unmarked, c, d),
        State::Alpha(a, _, c, d) => State::Alpha(a, Breathing::Smooth, c, d),
        State::Epsilon(a, Breathing::Smooth, c) => State::Epsilon(a, Breathing::Unmarked, c),
        State::Epsilon(a, _, c) => State::Epsilon(a, Breathing::Smooth, c),
        State::Eta(a, Breathing::Smooth, c, d) => State::Eta(a, Breathing::Unmarked, c, d),
        State::Eta(a, _, c, d) => State::Eta(a, Breathing::Smooth, c, d),
        State::Iota(a, Breathing::Smooth, c, d) => State::Iota(a, Breathing::Unmarked, c, d),
        State::Iota(a, _, c, d) => State::Iota(a, Breathing::Smooth, c, d),
        State::Omicron(a, Breathing::Smooth, c) => State::Omicron(a, Breathing::Unmarked, c),
        State::Omicron(a, _, c) => State::Omicron(a, Breathing::Smooth, c),
        State::Ypsilon(a, Breathing::Smooth, c, d) => State::Ypsilon(a, Breathing::Unmarked, c, d),
        State::Ypsilon(a, _, c, d) => State::Ypsilon(a, Breathing::Smooth, c, d),
        State::Omega(a, Breathing::Smooth, c, d) => State::Omega(a, Breathing::Unmarked, c, d),
        State::Omega(a, _, c, d) => State::Omega(a, Breathing::Smooth, c, d),
        _ => state,
    }
}

fn toggle_rough(state: State) -> (r: State)
    ensures
        r == spec_toggle_rough(state),
{
    match state {
        State::Alpha(a, Breathing::Rough, c, d) => State::Alpha(a, Breathing::Unmarked, c, d),
        State::Alpha(a, _, c, d) => State::Alpha(a, Breathing::Rough, c, d),
        State::Epsilon(a, Breathing::Rough, c) => State::Epsilon(a, Breathing::Unmarked, c),
        State::Epsilon(a, _, c) => State::Epsilon(a, Breathing::Rough, c),
        State::Eta(a, Breathing::Rough, c, d) => State::Eta(a, Breathing::Unmarked, c, d),
        State::Eta(a, _, c, d) => State::Eta(a, Breathing::Rough, c, d),
        State::Iota(a, Breathing::Rough, c, d) => State::Iota(a, Breathing::Unmarked, c, d),
        State::Iota(a, _, c, d) => State::Iota(a, Breathing::Rough, c, d),
        State::Omicron(a, Breathing::Rough, c) => State::Omicron(a, Breathing::Unmarked, c),
        State::Omicron(a, _, c) => State::Omicron(a, Breathing::Rough, c),
        State::Ypsilon(a, Breathing::Rough, c, d) => State::Ypsilon(a, Breathing::Unmarked, c, d),
        State::Ypsilon(a, _, c, d) => State::Ypsilon(a, Breathing::Rough, c, d),
        State::Omega(a, Breathing::Rough, c, d) => State::Omega(a, Breathing::Unmarked, c, d),
        State::Omega(a, _, c, d) => State::Omega(a, Breathing::Rough, c, d),
        _ => state,
    }
}

fn toggle_grave(state: State) -> (r: State)
    ensures
        r == spec_toggle_grave(state),
{
    match state {
        State::Alpha(a, b, Accent::Grave, d) => State::Alpha(a, b, Accent::Unmarked, d),
        State::Alpha(a, b, _, d) => State::Alpha(a, b, Accent::Grave, d),
        State::Epsilon(a, b, Accent::Grave) => State::Epsilon(a, b, Accent::Unmarked),
        State::Epsilon(a, b, _) => State::Epsilon(a, b, Accent::Grave),
        State::Eta(a, b, Accent::Grave, d) => State::Eta(a, b, Accent::Unmarked, d),
        State::Eta(a, b, _, d) => State::Eta(a, b, Accent::Grave, d),
        State::Iota(a, b, Accent::Grave, d) => State::Iota(a, b, Accent::Unmarked, d),
        State::Iota(a, b, _, d) => State::Iota(a, b, Accent::Grave, d),
        State::Omicron(a, b, Accent::Grave) => State::Omicron(a, b, Accent::Unmarked),
        State::Omicron(a, b, _) => State::Omicron(a, b, Accent::Grave),
        State::Ypsilon(a, b, Accent::Grave, d) => State::Ypsilon(a, b, Accent::Unmarked, d),
        State::Ypsilon(a, b, _, d) => State::Ypsilon(a, b, Accent::Grave, d),
        State::Omega(a, b, Accent::Grave, d) => State::Omega(a, b, Accent::Unmarked, d),
        State::Omega(a, b, _, d) => State::Omega(a, b, Accent::Grave, d),
        _ => state,
    }
}

fn toggle_acute(state: State) -> (r: State)
    ensures
        r == spec_toggle_acute(state),
{
    match state {
        State::Alpha(a, b, Accent::Acute, d) => State::Alpha(a, b, Accent::Unmarked, d),
        State::Alpha(a, b, _, d) => State::Alpha(a, b, Accent::Acute, d),
        State::Epsilon(a, b, Accent::Acute) => State::Epsilon(a, b, Accent::Unmarked),
        State::Epsilon(a, b, _) => State::Epsilon(a, b, Accent::Acute),
        State::Eta(a, b, Accent::Acute, d) => State::Eta(a, b, Accent::Unmarked, d),
        State::Eta(a, b, _, d) => State::Eta(a, b, Accent::Acute, d),
        State::Iota(a, b, Accent::Acute, d) => State::Iota(a, b, Accent::Unmarked, d),
        State::Iota(a, b, _, d) => State::Iota(a, b, Accent::Acute, d),
        State::Omicron(a, b, Accent::Acute) => State::Omicron(a, b, Accent::Unmarked),
        State::Omicron(a, b, _) => State::Omicron(a, b, Accent::Acute),
        State::Ypsilon(a, b, Accent::Acute, d) => State::Ypsilon(a, b, Accent::Unmarked, d),
        State::Ypsilon(a, b, _, d) => State::Ypsilon(a, b, Accent::Acute, d),
        State::Omega(a, b, Accent::Acute, d) => State::Omega(a, b, Accent::Unmarked, d),
        State::Omega(a, b, _, d) => State::Omega(a, b, Accent::Acute, d),
        _ => state,
    }
}

fn toggle_circumflex(state: State) -> (r: State)
    ensures
        r == spec_toggle_circumflex(state),
{
    match state {
        State::Alpha(a, b, Accent::Circumflex, d) => State::Alpha(a, b, Accent::Unmarked, d),
        State::Alpha(a, b, _, d) => State::Alpha(a, b, Accent::Circumflex, d),
        State::Eta(a, b, Accent::Circumflex, d) => State::Eta(a, b, Accent::Unmarked, d),
        State::Eta(a, b, _, d) => State::Eta(a, b, Accent::Circumflex, d),
        State::Iota(a, b, Accent::Circumflex, d) => State::Iota(a, b, Accent::Unmarked, d),
        State::Iota(a, b, _, d) => State::Iota(a, b, Accent::Circumflex, d),
        State::Ypsilon(a, b, Accent::Circumflex, d) => State::Ypsilon(a, b, Accent::Unmarked, d),
        State::Ypsilon(a, b, _, d) => State::Ypsilon(a, b, Accent::Circumflex, d),
        State::Omega(a, b, Accent::Circumflex, d) => State::Omega(a, b, Accent::Unmarked, d),
        State::Omega(a, b, _, d) => State::Omega(a, b, Accent::Circumflex, d),
        _ => state,
    }
}

fn toggle_iota(state: State) -> (r: State)
    ensures
        r == spec_toggle_iota(state),
{
    match state {
        State::Alpha(a, b, c, Subscript::Iota) => State::Alpha(a, b, c, Subscript::Unmarked),
        State::Alpha(a, b, c, Subscript::Unmarked) => State::Alpha(a, b, c, Subscript::Iota),
        State::Eta(a, b, c, Subscript::Iota) => State::Eta(a, b, c, Subscript::Unmarked),
        State::Eta(a, b, c, Subscript::Unmarked) => State::Eta(a, b, c, Subscript::Iota),
        State::Omega(a, b, c, Subscript::Iota) => State::Omega(a, b, c, Subscript::Unmarked),
        State::Omega(a, b, c, Subscript::Unmarked) => State::Omega(a, b, c, Subscript::Iota),
        _ => state,
    }
}

fn toggle_diaeresis(state: State) -> (r: State)
    ensures
        r == spec_toggle_diaeresis(state),
{
    match state {
        State::Iota(a, b, c, Diaeresis::Marked) => State::Iota(a, b, c, Diaeresis::Unmarked),
        State::Iota(a, b, c, Diaeresis::Unmarked) => State::Iota(a, b, c, Diaeresis::Marked),
        State::Ypsilon(a, b, c, Diaeresis::Marked) => State::Ypsilon(a, b, c, Diaeresis::Unmarked),
        State::Ypsilon(a, b, c, Diaeresis::Unmarked) => State::Ypsilon(a, b, c, Diaeresis::Marked),
        _ => state,
    }
}

fn transit(state: State, c: u8) -> (r: State)
    ensures
        r == spec_transit(state, c),
{
    match c {
        0x41 => State::Alpha(Case::Capital, Breathing::Unmarked, Accent::Unmarked, Subscript::Unmarked),
        0x42 => State::Beta(Case::Capital),
        0x47 => State::Gamma(Case::Capital),
        0x44 => State::Delta(Case::Capital),
        0x45 => State::Epsilon(Case::Capital, Breathing::Unmarked, Accent::Unmarked),
        0x5a => State::Zeta(Case::Capital),
        0x48 => State::Eta(Case::Capital, Breathing::Unmarked, Accent::Unmarked, Subscript::Unmarked),
        0x51 => State::Theta(Case::Capital),
        0x49 => State::Iota(Case::Capital, Breathing::Unmarked, Accent::Unmarked, Diaeresis::Unmarked),
        0x4b => State::Kappa(Case::Capital),
        0x4c => State::Lambda(Case::Capital),
        0x4d => State::Mu(Case::Capital),
        0x4e => State::Nu(Case::Capital),
        0x58 => State::Xi(Case::Capital),
        0x4f => State::Omicron(Case::Capital, Breathing::Unmarked, Accent::Unmarked),
        0x50 => State::Pi(Case::Capital),
        0x52 => State::Rho(Case::Capital, Breathing::Unmarked),
        0x53 => State::Sigma(Case::Capital),
        0x54 => State::Tau(Case::Capital),
        0x59 => State::Ypsilon(Case::Capital, Breathing::Unmarked, Accent::Unmarked, Diaeresis::Unmarked),
        0x46 => State::Phi(Case::Capital),
        0x43 => State::Chi(Case::Capital),
        0x4a => State::Psi(Case::Capital),
        0x57 => State::Omega(Case::Capital, Breathing::Unmarked, Accent::Unmarked, Subscript::Unmarked),
        0x61 => State::Alpha(Case::Small, Breathing::Unmarked, Accent::Unmarked, Subscript::Unmarked),
        0x62 => State::Beta(Case::Small),
        0x67 => State::Gamma(Case::Small),
        0x64 => State::Delta(Case::Small),
        0x65 => State::Epsilon(Case::Small, Breathing::Unmarked, Accent::Unmarked),
        0x7a => State::Zeta(Case::Small),
        0x68 => State::Eta(Case::Small, Breathing::Unmarked, Accent::Unmarked, Subscript::Unmarked),
        0x71 => State::Theta(Case::Small),
        0x69 => State::Iota(Case::Small, Breathing::Unmarked, Accent::Unmarked, Diaeresis::Unmarked),
        0x6b => State::Kappa(Case::Small),
        0x6c => State::Lambda(Case::Small),
        0x6d => State::Mu(Case::Small),
        0x6e => State::Nu(Case::Small),
        0x78 => State::Xi(Case::Small),
        0x6f => State::Omicron(Case::Small, Breathing::Unmarked, Accent::Unmarked),
        0x70 => State::Pi(Case::Small),
        0x72 => State::Rho(Case::Small, Breathing::Unmarked),
        0x73 => State::Sigma(Case::Small),
        0x74 => State::Tau(Case::Small),
        0x79 => State::Ypsilon(Case::Small, Breathing::Unmarked, Accent::Unmarked, Diaeresis::Unmarked),
        0x66 => State::Phi(Case::Small),
        0x63 => State::Chi(Case::Small),
        0x6a => State::Psi(Case::Small),
        0x77 => State::Omega(Case::Small, Breathing::Unmarked, Accent::Unmarked, Subscript::Unmarked),
        0x29 => toggle_smooth(state),
        0x28 => toggle_rough(state),
        0x5c => toggle_grave(state),
        0x2f => toggle_acute(state),
        0x3d => toggle_circumflex(state),
        0x7c => toggle_iota(state),
        0x22 => toggle_diaeresis(state),
        _ => State::Initial,
    }
}

impl State {
    /// The rest state: no letter is open.
    pub fn initial() -> (r: Self)
        ensures
            r == State::Initial,
    {
        Self::Initial
    }

    /// Whether the machine is in the rest state.
    pub fn is_initial(self) -> (r: bool)
        ensures
            r == (self is Initial),
    {
        matches!(self, Self::Initial)
    }
}


/// The rendering of a descriptor: the byte string the glyph table assigns
/// to it, empty for `Initial`.
pub open spec fn spec_glyph(s: State) -> Seq<u8> {
    match s {
        State::Initial => Seq::empty(),
        State::Alpha(a, b, c, d) => vowel::spec_alpha(
            a,
            vowel::spec_breathing_idx(b) + vowel::spec_accent_idx(c)
                + vowel::spec_subscript_idx(d),
        ),
        State::Beta(a) => consonant::spec_consonant(0x03b2, 0x0392, a),
        State::Gamma(a) => consonant::spec_consonant(0x03b3, 0x0393, a),
        State::Delta(a) => consonant::spec_consonant(0x02b4, 0x0394, a),
        State::Epsilon(a, b, c) => vowel::spec_epsilon(
            a,
            vowel::spec_breathing_idx(b) + vowel::spec_accent_idx(c),
        ),
        State::Zeta(a) => consonant::spec_consonant(0x03b6, 0x0396, a),
        State::Eta(a, b, c, d) => vowel::spec_eta(
            a,
            vowel::spec_breathing_idx(b) + vowel::spec_accent_idx(c)
                + vowel::spec_subscript_idx(d),
        ),
        State::Theta(a) => consonant::spec_consonant(0x03b8, 0x0398, a),
        State::Iota(a, b, c, d) => vowel::spec_iota(
            a,
            vowel::spec_breathing_idx(b) + vowel::spec_accent_idx(c)
                + vowel::spec_diaeresis_idx(d),
        ),
        State::Kappa(a) => consonant::spec_consonant(0x03ba, 0x039a, a),
        State::Lambda(a) => consonant::spec_consonant(0x03bb, 0x039b, a),
        State::Mu(a) => consonant::spec_consonant(0x03bc, 0x039c, a),
        State::Nu(a) => consonant::spec_consonant(0x03bd, 0x039d, a),
        State::Xi(a) => consonant::spec_consonant(0x03be, 0x039e, a),
        State::Omicron(a, b, c) => vowel::spec_omicron(
            a,
            vowel::spec_breathing_idx(b) + vowel::spec_accent_idx(c),
        ),
        State::Pi(a) => consonant::spec_consonant(0x03c0, 0x03a0, a),
        State::Rho(a, b) => consonant::spec_rho(a, b),
        State::Sigma(a) => consonant::spec_sigma(a),
        State::Tau(a) => consonant::spec_consonant(0x03c4, 0x03a4, a),
        State::Ypsilon(a, b, c, d) => vowel::spec_ypsilon(
            a,
            vowel::spec_breathing_idx(b) + vowel::spec_accent_idx(c)
                + vowel::spec_diaeresis_idx(d),
        ),
        State::Phi(a) => consonant::spec_consonant(0x03c6, 0x03a6, a),
        State::Chi(a) => consonant::spec_consonant(0x03c7, 0x03a7, a),
        State::Psi(a) => consonant::spec_consonant(0x03c8, 0x03a8, a),
        State::Omega(a, b, c, d) => vowel::spec_omega(
            a,
            vowel::spec_breathing_idx(b) + vowel::spec_accent_idx(c)
                + vowel::spec_subscript_idx(d),
        ),
    }
}

/// Append all of `tail` to `buffer`.
fn push_all(buffer: &mut Vec<u8>, tail: &Vec<u8>)
    ensures
        final(buffer)@ == old(buffer)@ + tail@,
{
    let mut i: usize = 0;
    while i < tail.len()
        invariant
            i <= tail@.len(),
            buffer@ == old(buffer)@ + tail@.take(i as int),
        decreases tail@.len() - i,
    {
        buffer.push(tail[i]);
        proof {
            assert(buffer@ =~= old(buffer)@ + tail@.take(i + 1));
        }
        i = i + 1;
    }
    proof {
        assert(old(buffer)@ + tail@.take(i as int) =~= old(buffer)@ + tail@);
    }
}

/// Replace the trailing region of `buffer` — exactly as many bytes as
/// `old_part` occupies — with `new_part`.
pub fn replace(buffer: &mut Vec<u8>, old_part: &Vec<u8>, new_part: &Vec<u8>)
    requires
        old_part@.len() <= old(buffer)@.len(),
    ensures
        final(buffer)@ == old(buffer)@.take(old(buffer)@.len() - old_part@.len()) + new_part@,
{
    let keep = buffer.len() - old_part.len();
    buffer.truncate(keep);
    push_all(buffer, new_part);
}


/// What one keystroke does to the output buffer, as a function of the old
/// state, the byte, and the old buffer contents.
///
/// From `Initial` the new rendering is appended.  From a sigma, a byte
/// ending the word replaces the trailing sigma rendering with the final
/// form, a new letter is appended, and a diacritic byte is discarded.
/// From a vowel, a diacritic byte replaces the trailing rendering with the
/// toggled one, and any other byte appends the new rendering.  From any
/// other consonant, a diacritic byte is discarded and any other byte
/// appends the new rendering.
pub open spec fn spec_rewrite(s: State, c: u8, buf: Seq<u8>) -> Seq<u8> {
    let n = spec_transit(s, c);
    match s {
        State::Initial => buf + spec_glyph(n),
        State::Sigma(a) => if n is Initial {
            buf.take(buf.len() - spec_glyph(s).len()) + consonant::spec_final_sigma(a)
        } else if !spec_is_diacritics(c) {
            buf + spec_glyph(n)
        } else {
            buf
        },
        _ => if spec_is_vowel(s) {
            if spec_is_diacritics(c) {
                buf.take(buf.len() - spec_glyph(s).len()) + spec_glyph(n)
            } else {
                buf + spec_glyph(n)
            }
        } else {
            if !spec_is_diacritics(c) {
                buf + spec_glyph(n)
            } else {
                buf
            }
        },
    }
}

proof fn lemma_append_suffix(b: Seq<u8>, g: Seq<u8>)
    ensures
        g.is_suffix_of(b + g),
{
    assert(g =~= (b + g).subrange(b.len() as int, (b + g).len() as int));
}

impl State {
    /// Encode the rendering of a vowel descriptor.
    #[verifier::rlimit(50)]
    fn glyph_vowel(self) -> (r: Vec<u8>)
        requires
            spec_is_vowel(self),
        ensures
            r@ == spec_glyph(self),
    {
        match self {
            State::Alpha(a, b, c, d) => vowel::alpha(
                a,
                vowel::breathing_idx(b) + vowel::accent_idx(c) + vowel::subscript_idx(d),
            ),
            State::Epsilon(a, b, c) => vowel::epsilon(
                a,
                vowel::breathing_idx(b) + vowel::accent_idx(c),
            ),
            State::Eta(a, b, c, d) => vowel::eta(
                a,
                vowel::breathing_idx(b) + vowel::accent_idx(c) + vowel::subscript_idx(d),
            ),
            State::Iota(a, b, c, d) => vowel::iota(
                a,
                vowel::breathing_idx(b) + vowel::accent_idx(c) + vowel::diaeresis_idx(d),
            ),
            State::Omicron(a, b, c) => vowel::omicron(
                a,
                vowel::breathing_idx(b) + vowel::accent_idx(c),
            ),
            State::Ypsilon(a, b, c, d) => vowel::ypsilon(
                a,
                vowel::breathing_idx(b) + vowel::accent_idx(c) + vowel::diaeresis_idx(d),
            ),
            State::Omega(a, b, c, d) => vowel::omega(
                a,
                vowel::breathing_idx(b) + vowel::accent_idx(c) + vowel::subscript_idx(d),
            ),
            _ => Vec::new(),
        }
    }

    /// Encode the rendering of a non-vowel descriptor.
    fn glyph_rest(self) -> (r: Vec<u8>)
        requires
            !spec_is_vowel(self),
        ensures
            r@ == spec_glyph(self),
    {
        match self {
            State::Beta(a) => consonant::consonant(0x03b2, 0x0392, a),
            State::Gamma(a) => consonant::consonant(0x03b3, 0x0393, a),
            State::Delta(a) => consonant::consonant(0x02b4, 0x0394, a),
            State::Zeta(a) => consonant::consonant(0x03b6, 0x0396, a),
            State::Theta(a) => consonant::consonant(0x03b8, 0x0398, a),
            State::Kappa(a) => consonant::consonant(0x03ba, 0x039a, a),
            State::Lambda(a) => consonant::consonant(0x03bb, 0x039b, a),
            State::Mu(a) => consonant::consonant(0x03bc, 0x039c, a),
            State::Nu(a) => consonant::consonant(0x03bd, 0x039d, a),
            State::Xi(a) => consonant::consonant(0x03be, 0x039e, a),
            State::Pi(a) => consonant::consonant(0x03c0, 0x03a0, a),
            State::Rho(a, b) => Rho.index((a, b)),
            State::Sigma(a) => consonant::consonant(0x03c3, 0x03a3, a),
            State::Tau(a) => consonant::consonant(0x03c4, 0x03a4, a),
            State::Phi(a) => consonant::consonant(0x03c6, 0x03a6, a),
            State::Chi(a) => consonant::consonant(0x03c7, 0x03a7, a),
            State::Psi(a) => consonant::consonant(0x03c8, 0x03a8, a),
            _ => Vec::new(),
        }
    }

    /// Encode the rendering of this descriptor (empty for `Initial`).
    pub fn glyph(self) -> (r: Vec<u8>)
        ensures
            r@ == spec_glyph(self),
    {
        match self {
            State::Alpha(..) | State::Epsilon(..) | State::Eta(..) | State::Iota(..)
                | State::Omicron(..) | State::Ypsilon(..) | State::Omega(..) => self.glyph_vowel(),
            _ => self.glyph_rest(),
        }
    }

    /// Feed one byte to the machine: compute the next state and edit the
    /// buffer accordingly.  The buffer must end with the rendering of the
    /// current state (it always does along a run, since it ends with the
    /// rendering of the next state afterwards).
    pub fn rewrite_buffer(self, c: u8, buffer: &mut Vec<u8>) -> (next: Self)
        requires
            spec_glyph(self).is_suffix_of(old(buffer)@),
        ensures
            next == spec_transit(self, c),
            final(buffer)@ == spec_rewrite(self, c, old(buffer)@),
            spec_glyph(next).is_suffix_of(final(buffer)@),
    {
        let new = transit(self, c);
        match self {
            State::Initial => {
                let g = new.glyph();
                push_all(buffer, &g);
                proof {
                    lemma_append_suffix(old(buffer)@, spec_glyph(new));
                }
            },
            State::Sigma(a) => {
                if new.is_initial() {
                    let sigma = self.glyph();
                    let fin = consonant::final_sigma(a);
                    replace(buffer, &sigma, &fin);
                    proof {
                        lemma_append_suffix(
                            old(buffer)@.take(old(buffer)@.len() - spec_glyph(self).len()),
                            consonant::spec_final_sigma(a),
                        );
                        assert(spec_glyph(new) =~= buffer@.subrange(
                            buffer@.len() as int,
                            buffer@.len() as int,
                        ));
                    }
                } else if !is_diacritics(c) {
                    let g = new.glyph();
                    push_all(buffer, &g);
                    proof {
                        lemma_append_suffix(old(buffer)@, spec_glyph(new));
                    }
                }
            },
            State::Alpha(..) | State::Epsilon(..) | State::Eta(..) | State::Iota(..)
                | State::Omicron(..) | State::Ypsilon(..) | State::Omega(..) => {
                if is_diacritics(c) {
                    let old_glyph = self.glyph();
                    let new_glyph = new.glyph();
                    replace(buffer, &old_glyph, &new_glyph);
                    proof {
                        lemma_append_suffix(
                            old(buffer)@.take(old(buffer)@.len() - spec_glyph(self).len()),
                            spec_glyph(new),
                        );
                    }
                } else {
                    let g = new.glyph();
                    push_all(buffer, &g);
                    proof {
                        lemma_append_suffix(old(buffer)@, spec_glyph(new));
                    }
                }
            },
            _ => {
                if !is_diacritics(c) {
                    let g = new.glyph();
                    push_all(buffer, &g);
                    proof {
                        lemma_append_suffix(old(buffer)@, spec_glyph(new));
                    }
                }
            },
        }
        new
    }
}

} // verus!
