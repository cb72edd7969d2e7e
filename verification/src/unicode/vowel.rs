//! Renderings of the seven vowels.  Each table is keyed by case and by a
//! diacritic index: the sum of the breathing, accent and (where carried)
//! subscript or diaeresis indices of the descriptor, so related diacritic
//! combinations sit at fixed offsets from one another.

use vstd::prelude::*;

use crate::unicode::{enc1, enc2, enc3, spec_utf8};
use crate::{Accent, Breathing, Case, Diaeresis, Subscript};

verus! {

/// Table offset of a breathing mark.
pub open spec fn spec_breathing_idx(v: Breathing) -> int {
    match v {
        Breathing::Smooth => 4,
        Breathing::Rough => 8,
        _ => 0,
    }
}

/// Table offset of a breathing mark.
pub fn breathing_idx(v: Breathing) -> (r: usize)
    ensures
        r == spec_breathing_idx(v),
{
    match v {
        Breathing::Smooth => 4,
        Breathing::Rough => 8,
        _ => 0,
    }
}

/// Table offset of an accent mark.
pub open spec fn spec_accent_idx(v: Accent) -> int {
    match v {
        Accent::Grave => 1,
        Accent::Acute => 2,
        Accent::Circumflex => 3,
        _ => 0,
    }
}

/// Table offset of an accent mark.
pub fn accent_idx(v: Accent) -> (r: usize)
    ensures
        r == spec_accent_idx(v),
{
    match v {
        Accent::Grave => 1,
        Accent::Acute => 2,
        Accent::Circumflex => 3,
        _ => 0,
    }
}

/// Table offset of an iota subscript.
pub open spec fn spec_subscript_idx(v: Subscript) -> int {
    if v is Iota {
        12
    } else {
        0
    }
}

/// Table offset of an iota subscript.
pub fn subscript_idx(v: Subscript) -> (r: usize)
    ensures
        r == spec_subscript_idx(v),
{
    if matches!(v, Subscript::Iota) {
        12
    } else {
        0
    }
}

/// Table offset of a diaeresis.
pub open spec fn spec_diaeresis_idx(v: Diaeresis) -> int {
    if v is Marked {
        12
    } else {
        0
    }
}

/// Table offset of a diaeresis.
pub fn diaeresis_idx(v: Diaeresis) -> (r: usize)
    ensures
        r == spec_diaeresis_idx(v),
{
    if matches!(v, Diaeresis::Marked) {
        12
    } else {
        0
    }
}

/// Rendering of alpha for a case and diacritic index.
#[verifier::opaque]
pub open spec fn spec_alpha(case: Case, idx: int) -> Seq<u8> {
    if case is Small {
        if idx == 0 {
            spec_utf8(0x03b1)
        } else if idx == 1 {
            spec_utf8(0x1f70)
        } else if idx == 2 {
            spec_utf8(0x03ac)
        } else if idx == 3 {
            spec_utf8(0x1fb6)
        } else if idx == 4 {
            spec_utf8(0x1f00)
        } else if idx == 5 {
            spec_utf8(0x1f02)
        } else if idx == 6 {
            spec_utf8(0x1f04)
        } else if idx == 7 {
            spec_utf8(0x1f06)
        } else if idx == 8 {
            spec_utf8(0x1f01)
        } else if idx == 9 {
            spec_utf8(0x1f03)
        } else if idx == 10 {
            spec_utf8(0x1f05)
        } else if idx == 11 {
            spec_utf8(0x1f07)
        } else if idx == 12 {
            spec_utf8(0x1fb3)
        } else if idx == 13 {
            spec_utf8(0x1fb2)
        } else if idx == 14 {
            spec_utf8(0x1fb4)
        } else if idx == 15 {
            spec_utf8(0x1fb7)
        } else if idx == 16 {
            spec_utf8(0x1f80)
        } else if idx == 17 {
            spec_utf8(0x1f82)
        } else if idx == 18 {
            spec_utf8(0x1f84)
        } else if idx == 19 {
            spec_utf8(0x1f86)
        } else if idx == 20 {
            spec_utf8(0x1f81)
        } else if idx == 21 {
            spec_utf8(0x1f83)
        } else if idx == 22 {
            spec_utf8(0x1f85)
        } else {
            spec_utf8(0x1f87)
        }
    } else {
        if idx == 0 {
            spec_utf8(0x0391)
        } else if idx == 1 {
            spec_utf8(0x1fba)
        } else if idx == 2 {
            spec_utf8(0x0386)
        } else if idx == 3 {
            spec_utf8(0x1fc0) + spec_utf8(0x0391)
        } else if idx == 4 {
            spec_utf8(0x1f08)
        } else if idx == 5 {
            spec_utf8(0x1f0a)
        } else if idx == 6 {
            spec_utf8(0x1f0c)
        } else if idx == 7 {
            spec_utf8(0x1f0e)
        } else if idx == 8 {
            spec_utf8(0x1f09)
        } else if idx == 9 {
            spec_utf8(0x1f0b)
        } else if idx == 10 {
            spec_utf8(0x1f0d)
        } else if idx == 11 {
            spec_utf8(0x1f0f)
        } else if idx == 12 {
            spec_utf8(0x1fbc)
        } else if idx == 13 {
            spec_utf8(0x1fef) + spec_utf8(0x1fbc)
        } else if idx == 14 {
            spec_utf8(0x0384) + spec_utf8(0x1fbc)
        } else if idx == 15 {
            spec_utf8(0x1fc0) + spec_utf8(0x1fbc)
        } else if idx == 16 {
            spec_utf8(0x1f88)
        } else if idx == 17 {
            spec_utf8(0x1f8a)
        } else if idx == 18 {
            spec_utf8(0x1f8c)
        } else if idx == 19 {
            spec_utf8(0x1f8e)
        } else if idx == 20 {
            spec_utf8(0x1f89)
        } else if idx == 21 {
            spec_utf8(0x1f8b)
        } else if idx == 22 {
            spec_utf8(0x1f8d)
        } else {
            spec_utf8(0x1f8f)
        }
    }
}

/// Encode the rendering of alpha for a case and diacritic index.
pub fn alpha(case: Case, idx: usize) -> (r: Vec<u8>)
    requires
        idx < 24,
    ensures
        r@ == spec_alpha(case, idx as int),
{
    proof {
        reveal(spec_alpha);
    }
    match case {
        Case::Small => match idx {
            0 => enc1(0x03b1),
            1 => enc1(0x1f70),
            2 => enc1(0x03ac),
            3 => enc1(0x1fb6),
            4 => enc1(0x1f00),
            5 => enc1(0x1f02),
            6 => enc1(0x1f04),
            7 => enc1(0x1f06),
            8 => enc1(0x1f01),
            9 => enc1(0x1f03),
            10 => enc1(0x1f05),
            11 => enc1(0x1f07),
            12 => enc1(0x1fb3),
            13 => enc1(0x1fb2),
            14 => enc1(0x1fb4),
            15 => enc1(0x1fb7),
            16 => enc1(0x1f80),
            17 => enc1(0x1f82),
            18 => enc1(0x1f84),
            19 => enc1(0x1f86),
            20 => enc1(0x1f81),
            21 => enc1(0x1f83),
            22 => enc1(0x1f85),
            _ => enc1(0x1f87),
        },
        Case::Capital => match idx {
            0 => enc1(0x0391),
            1 => enc1(0x1fba),
            2 => enc1(0x0386),
            3 => enc2(0x1fc0, 0x0391),
            4 => enc1(0x1f08),
            5 => enc1(0x1f0a),
            6 => enc1(0x1f0c),
            7 => enc1(0x1f0e),
            8 => enc1(0x1f09),
            9 => enc1(0x1f0b),
            10 => enc1(0x1f0d),
            11 => enc1(0x1f0f),
            12 => enc1(0x1fbc),
            13 => enc2(0x1fef, 0x1fbc),
            14 => enc2(0x0384, 0x1fbc),
            15 => enc2(0x1fc0, 0x1fbc),
            16 => enc1(0x1f88),
            17 => enc1(0x1f8a),
            18 => enc1(0x1f8c),
            19 => enc1(0x1f8e),
            20 => enc1(0x1f89),
            21 => enc1(0x1f8b),
            22 => enc1(0x1f8d),
            _ => enc1(0x1f8f),
        },
    }
}

/// Rendering of epsilon for a case and diacritic index.
#[verifier::opaque]
pub open spec fn spec_epsilon(case: Case, idx: int) -> Seq<u8> {
    if case is Small {
        if idx == 0 {
            spec_utf8(0x03b5)
        } else if idx == 1 {
            spec_utf8(0x1f72)
        } else if idx == 2 {
            spec_utf8(0x03ad)
        } else if idx == 3 {
            spec_utf8(0x03b5)
        } else if idx == 4 {
            spec_utf8(0x1f10)
        } else if idx == 5 {
            spec_utf8(0x1f12)
        } else if idx == 6 {
            spec_utf8(0x1f14)
        } else if idx == 7 {
            spec_utf8(0x1f10)
        } else if idx == 8 {
            spec_utf8(0x1f11)
        } else if idx == 9 {
            spec_utf8(0x1f13)
        } else if idx == 10 {
            spec_utf8(0x1f15)
        } else {
            spec_utf8(0x1f11)
        }
    } else {
        if idx == 0 {
            spec_utf8(0x0395)
        } else if idx == 1 {
            spec_utf8(0x1fc8)
        } else if idx == 2 {
            spec_utf8(0x0388)
        } else if idx == 3 {
            spec_utf8(0x0395)
        } else if idx == 4 {
            spec_utf8(0x1f18)
        } else if idx == 5 {
            spec_utf8(0x1f1a)
        } else if idx == 6 {
            spec_utf8(0x1f1c)
        } else if idx == 7 {
            spec_utf8(0x1f18)
        } else if idx == 8 {
            spec_utf8(0x1f19)
        } else if idx == 9 {
            spec_utf8(0x1f1b)
        } else if idx == 10 {
            spec_utf8(0x1f1d)
        } else {
            spec_utf8(0x1f19)
        }
    }
}

/// Encode the rendering of epsilon for a case and diacritic index.
pub fn epsilon(case: Case, idx: usize) -> (r: Vec<u8>)
    requires
        idx < 12,
    ensures
        r@ == spec_epsilon(case, idx as int),
{
    proof {
        reveal(spec_epsilon);
    }
    match case {
        Case::Small => match idx {
            0 => enc1(0x03b5),
            1 => enc1(0x1f72),
            2 => enc1(0x03ad),
            3 => enc1(0x03b5),
            4 => enc1(0x1f10),
            5 => enc1(0x1f12),
            6 => enc1(0x1f14),
            7 => enc1(0x1f10),
            8 => enc1(0x1f11),
            9 => enc1(0x1f13),
            10 => enc1(0x1f15),
            _ => enc1(0x1f11),
        },
        Case::Capital => match idx {
            0 => enc1(0x0395),
            1 => enc1(0x1fc8),
            2 => enc1(0x0388),
            3 => enc1(0x0395),
            4 => enc1(0x1f18),
            5 => enc1(0x1f1a),
            6 => enc1(0x1f1c),
            7 => enc1(0x1f18),
            8 => enc1(0x1f19),
            9 => enc1(0x1f1b),
            10 => enc1(0x1f1d),
            _ => enc1(0x1f19),
        },
    }
}

/// Rendering of eta for a case and diacritic index.
#[verifier::opaque]
pub open spec fn spec_eta(case: Case, idx: int) -> Seq<u8> {
    if case is Small {
        if idx == 0 {
            spec_utf8(0x03b7)
        } else if idx == 1 {
            spec_utf8(0x1f74)
        } else if idx == 2 {
            spec_utf8(0x03ae)
        } else if idx == 3 {
            spec_utf8(0x1fc6)
        } else if idx == 4 {
            spec_utf8(0x1f20)
        } else if idx == 5 {
            spec_utf8(0x1f22)
        } else if idx == 6 {
            spec_utf8(0x1f24)
        } else if idx == 7 {
            spec_utf8(0x1f26)
        } else if idx == 8 {
            spec_utf8(0x1f21)
        } else if idx == 9 {
            spec_utf8(0x1f23)
        } else if idx == 10 {
            spec_utf8(0x1f25)
        } else if idx == 11 {
            spec_utf8(0x1f27)
        } else if idx == 12 {
            spec_utf8(0x1fc3)
        } else if idx == 13 {
            spec_utf8(0x1fc2)
        } else if idx == 14 {
            spec_utf8(0x1fc4)
        } else if idx == 15 {
            spec_utf8(0x1fc7)
        } else if idx == 16 {
            spec_utf8(0x1f90)
        } else if idx == 17 {
            spec_utf8(0x1f92)
        } else if idx == 18 {
            spec_utf8(0x1f94)
        } else if idx == 19 {
            spec_utf8(0x1f96)
        } else if idx == 20 {
            spec_utf8(0x1f91)
        } else if idx == 21 {
            spec_utf8(0x1f93)
        } else if idx == 22 {
            spec_utf8(0x1f95)
        } else {
            spec_utf8(0x1f97)
        }
    } else {
        if idx == 0 {
            spec_utf8(0x0397)
        } else if idx == 1 {
            spec_utf8(0x1fca)
        } else if idx == 2 {
            spec_utf8(0x0389)
        } else if idx == 3 {
            spec_utf8(0x1fc0) + spec_utf8(0x0397)
        } else if idx == 4 {
            spec_utf8(0x1f28)
        } else if idx == 5 {
            spec_utf8(0x1f2a)
        } else if idx == 6 {
            spec_utf8(0x1f2c)
        } else if idx == 7 {
            spec_utf8(0x1f2e)
        } else if idx == 8 {
            spec_utf8(0x1f29)
        } else if idx == 9 {
            spec_utf8(0x1f2b)
        } else if idx == 10 {
            spec_utf8(0x1f2d)
        } else if idx == 11 {
            spec_utf8(0x1f2f)
        } else if idx == 12 {
            spec_utf8(0x1fcc)
        } else if idx == 13 {
            spec_utf8(0x1fef) + spec_utf8(0x1fcc)
        } else if idx == 14 {
            spec_utf8(0x0384) + spec_utf8(0x1fcc)
        } else if idx == 15 {
            spec_utf8(0x1fc0) + spec_utf8(0x1fcc)
        } else if idx == 16 {
            spec_utf8(0x1f98)
        } else if idx == 17 {
            spec_utf8(0x1f9a)
        } else if idx == 18 {
            spec_utf8(0x1f9c)
        } else if idx == 19 {
            spec_utf8(0x1f9e)
        } else if idx == 20 {
            spec_utf8(0x1f99)
        } else if idx == 21 {
            spec_utf8(0x1f9b)
        } else if idx == 22 {
            spec_utf8(0x1f9d)
        } else {
            spec_utf8(0x1f9f)
        }
    }
}

/// Encode the rendering of eta for a case and diacritic index.
pub fn eta(case: Case, idx: usize) -> (r: Vec<u8>)
    requires
        idx < 24,
    ensures
        r@ == spec_eta(case, idx as int),
{
    proof {
        reveal(spec_eta);
    }
    match case {
        Case::Small => match idx {
            0 => enc1(0x03b7),
            1 => enc1(0x1f74),
            2 => enc1(0x03ae),
            3 => enc1(0x1fc6),
            4 => enc1(0x1f20),
            5 => enc1(0x1f22),
            6 => enc1(0x1f24),
            7 => enc1(0x1f26),
            8 => enc1(0x1f21),
            9 => enc1(0x1f23),
            10 => enc1(0x1f25),
            11 => enc1(0x1f27),
            12 => enc1(0x1fc3),
            13 => enc1(0x1fc2),
            14 => enc1(0x1fc4),
            15 => enc1(0x1fc7),
            16 => enc1(0x1f90),
            17 => enc1(0x1f92),
            18 => enc1(0x1f94),
            19 => enc1(0x1f96),
            20 => enc1(0x1f91),
            21 => enc1(0x1f93),
            22 => enc1(0x1f95),
            _ => enc1(0x1f97),
        },
        Case::Capital => match idx {
            0 => enc1(0x0397),
            1 => enc1(0x1fca),
            2 => enc1(0x0389),
            3 => enc2(0x1fc0, 0x0397),
            4 => enc1(0x1f28),
            5 => enc1(0x1f2a),
            6 => enc1(0x1f2c),
            7 => enc1(0x1f2e),
            8 => enc1(0x1f29),
            9 => enc1(0x1f2b),
            10 => enc1(0x1f2d),
            11 => enc1(0x1f2f),
            12 => enc1(0x1fcc),
            13 => enc2(0x1fef, 0x1fcc),
            14 => enc2(0x0384, 0x1fcc),
            15 => enc2(0x1fc0, 0x1fcc),
            16 => enc1(0x1f98),
            17 => enc1(0x1f9a),
            18 => enc1(0x1f9c),
            19 => enc1(0x1f9e),
            20 => enc1(0x1f99),
            21 => enc1(0x1f9b),
            22 => enc1(0x1f9d),
            _ => enc1(0x1f9f),
        },
    }
}

/// Rendering of iota for a case and diacritic index.
#[verifier::opaque]
pub open spec fn spec_iota(case: Case, idx: int) -> Seq<u8> {
    if case is Small {
        if idx == 0 {
            spec_utf8(0x03b9)
        } else if idx == 1 {
            spec_utf8(0x1f76)
        } else if idx == 2 {
            spec_utf8(0x03af)
        } else if idx == 3 {
            spec_utf8(0x1fd6)
        } else if idx == 4 {
            spec_utf8(0x1f30)
        } else if idx == 5 {
            spec_utf8(0x1f32)
        } else if idx == 6 {
            spec_utf8(0x1f34)
        } else if idx == 7 {
            spec_utf8(0x1f36)
        } else if idx == 8 {
            spec_utf8(0x1f31)
        } else if idx == 9 {
            spec_utf8(0x1f33)
        } else if idx == 10 {
            spec_utf8(0x1f35)
        } else if idx == 11 {
            spec_utf8(0x1f37)
        } else if idx == 12 {
            spec_utf8(0x03ca)
        } else if idx == 13 {
            spec_utf8(0x1fd2)
        } else if idx == 14 {
            spec_utf8(0x0390)
        } else if idx == 15 {
            spec_utf8(0x1fd7)
        } else if idx == 16 {
            spec_utf8(0x03ca) + spec_utf8(0x1fbd)
        } else if idx == 17 {
            spec_utf8(0x1fd2) + spec_utf8(0x1fbd)
        } else if idx == 18 {
            spec_utf8(0x0390) + spec_utf8(0x1fbd)
        } else if idx == 19 {
            spec_utf8(0x1fd7) + spec_utf8(0x1fbd)
        } else if idx == 20 {
            spec_utf8(0x03ca) + spec_utf8(0x1ffe)
        } else if idx == 21 {
            spec_utf8(0x1fd2) + spec_utf8(0x1ffe)
        } else if idx == 22 {
            spec_utf8(0x0390) + spec_utf8(0x1ffe)
        } else {
            spec_utf8(0x1fd7) + spec_utf8(0x1ffe)
        }
    } else {
        if idx == 0 {
            spec_utf8(0x0399)
        } else if idx == 1 {
            spec_utf8(0x1fda)
        } else if idx == 2 {
            spec_utf8(0x038a)
        } else if idx == 3 {
            spec_utf8(0x1fc0) + spec_utf8(0x0399)
        } else if idx == 4 {
            spec_utf8(0x1f38)
        } else if idx == 5 {
            spec_utf8(0x1f3a)
        } else if idx == 6 {
            spec_utf8(0x1f3c)
        } else if idx == 7 {
            spec_utf8(0x1f3e)
        } else if idx == 8 {
            spec_utf8(0x1f39)
        } else if idx == 9 {
            spec_utf8(0x1f3b)
        } else if idx == 10 {
            spec_utf8(0x1f3d)
        } else if idx == 11 {
            spec_utf8(0x1f3f)
        } else if idx == 12 {
            spec_utf8(0x03aa)
        } else if idx == 13 {
            spec_utf8(0x1fef) + spec_utf8(0x03aa)
        } else if idx == 14 {
            spec_utf8(0x0384) + spec_utf8(0x03aa)
        } else if idx == 15 {
            spec_utf8(0x1fc0) + spec_utf8(0x03aa)
        } else if idx == 16 {
            spec_utf8(0x03aa) + spec_utf8(0x1fbd)
        } else if idx == 17 {
            spec_utf8(0x1fef) + spec_utf8(0x03aa) + spec_utf8(0x1fbd)
        } else if idx == 18 {
            spec_utf8(0x0384) + spec_utf8(0x03aa) + spec_utf8(0x1fbd)
        } else if idx == 19 {
            spec_utf8(0x1fc0) + spec_utf8(0x03aa) + spec_utf8(0x1fbd)
        } else if idx == 20 {
            spec_utf8(0x1ffe) + spec_utf8(0x03aa)
        } else if idx == 21 {
            spec_utf8(0x1fdd) + spec_utf8(0x03aa)
        } else if idx == 22 {
            spec_utf8(0x1fde) + spec_utf8(0x03aa)
        } else {
            spec_utf8(0x1fdf) + spec_utf8(0x03aa)
        }
    }
}

/// Encode the rendering of iota for a case and diacritic index.
pub fn iota(case: Case, idx: usize) -> (r: Vec<u8>)
    requires
        idx < 24,
    ensures
        r@ == spec_iota(case, idx as int),
{
    proof {
        reveal(spec_iota);
    }
    match case {
        Case::Small => match idx {
            0 => enc1(0x03b9),
            1 => enc1(0x1f76),
            2 => enc1(0x03af),
            3 => enc1(0x1fd6),
            4 => enc1(0x1f30),
            5 => enc1(0x1f32),
            6 => enc1(0x1f34),
            7 => enc1(0x1f36),
            8 => enc1(0x1f31),
            9 => enc1(0x1f33),
            10 => enc1(0x1f35),
            11 => enc1(0x1f37),
            12 => enc1(0x03ca),
            13 => enc1(0x1fd2),
            14 => enc1(0x0390),
            15 => enc1(0x1fd7),
            16 => enc2(0x03ca, 0x1fbd),
            17 => enc2(0x1fd2, 0x1fbd),
            18 => enc2(0x0390, 0x1fbd),
            19 => enc2(0x1fd7, 0x1fbd),
            20 => enc2(0x03ca, 0x1ffe),
            21 => enc2(0x1fd2, 0x1ffe),
            22 => enc2(0x0390, 0x1ffe),
            _ => enc2(0x1fd7, 0x1ffe),
        },
        Case::Capital => match idx {
            0 => enc1(0x0399),
            1 => enc1(0x1fda),
            2 => enc1(0x038a),
            3 => enc2(0x1fc0, 0x0399),
            4 => enc1(0x1f38),
            5 => enc1(0x1f3a),
            6 => enc1(0x1f3c),
            7 => enc1(0x1f3e),
            8 => enc1(0x1f39),
            9 => enc1(0x1f3b),
            10 => enc1(0x1f3d),
            11 => enc1(0x1f3f),
            12 => enc1(0x03aa),
            13 => enc2(0x1fef, 0x03aa),
            14 => enc2(0x0384, 0x03aa),
            15 => enc2(0x1fc0, 0x03aa),
            16 => enc2(0x03aa, 0x1fbd),
            17 => enc3(0x1fef, 0x03aa, 0x1fbd),
            18 => enc3(0x0384, 0x03aa, 0x1fbd),
            19 => enc3(0x1fc0, 0x03aa, 0x1fbd),
            20 => enc2(0x1ffe, 0x03aa),
            21 => enc2(0x1fdd, 0x03aa),
            22 => enc2(0x1fde, 0x03aa),
            _ => enc2(0x1fdf, 0x03aa),
        },
    }
}

/// Rendering of omicron for a case and diacritic index.
#[verifier::opaque]
pub open spec fn spec_omicron(case: Case, idx: int) -> Seq<u8> {
    if case is Small {
        if idx == 0 {
            spec_utf8(0x03bf)
        } else if idx == 1 {
            spec_utf8(0x1f78)
        } else if idx == 2 {
            spec_utf8(0x03cc)
        } else if idx == 3 {
            spec_utf8(0x03bf)
        } else if idx == 4 {
            spec_utf8(0x1f40)
        } else if idx == 5 {
            spec_utf8(0x1f42)
        } else if idx == 6 {
            spec_utf8(0x1f44)
        } else if idx == 7 {
            spec_utf8(0x1f40)
        } else if idx == 8 {
            spec_utf8(0x1f41)
        } else if idx == 9 {
            spec_utf8(0x1f43)
        } else if idx == 10 {
            spec_utf8(0x1f45)
        } else {
            spec_utf8(0x1f41)
        }
    } else {
        if idx == 0 {
            spec_utf8(0x039f)
        } else if idx == 1 {
            spec_utf8(0x1ff8)
        } else if idx == 2 {
            spec_utf8(0x038c)
        } else if idx == 3 {
            spec_utf8(0x039f)
        } else if idx == 4 {
            spec_utf8(0x1f48)
        } else if idx == 5 {
            spec_utf8(0x1f4a)
        } else if idx == 6 {
            spec_utf8(0x1f4c)
        } else if idx == 7 {
            spec_utf8(0x1f48)
        } else if idx == 8 {
            spec_utf8(0x1f49)
        } else if idx == 9 {
            spec_utf8(0x1f4b)
        } else if idx == 10 {
            spec_utf8(0x1f4d)
        } else {
            spec_utf8(0x1f49)
        }
    }
}

/// Encode the rendering of omicron for a case and diacritic index.
pub fn omicron(case: Case, idx: usize) -> (r: Vec<u8>)
    requires
        idx < 12,
    ensures
        r@ == spec_omicron(case, idx as int),
{
    proof {
        reveal(spec_omicron);
    }
    match case {
        Case::Small => match idx {
            0 => enc1(0x03bf),
            1 => enc1(0x1f78),
            2 => enc1(0x03cc),
            3 => enc1(0x03bf),
            4 => enc1(0x1f40),
            5 => enc1(0x1f42),
            6 => enc1(0x1f44),
            7 => enc1(0x1f40),
            8 => enc1(0x1f41),
            9 => enc1(0x1f43),
            10 => enc1(0x1f45),
            _ => enc1(0x1f41),
        },
        Case::Capital => match idx {
            0 => enc1(0x039f),
            1 => enc1(0x1ff8),
            2 => enc1(0x038c),
            3 => enc1(0x039f),
            4 => enc1(0x1f48),
            5 => enc1(0x1f4a),
            6 => enc1(0x1f4c),
            7 => enc1(0x1f48),
            8 => enc1(0x1f49),
            9 => enc1(0x1f4b),
            10 => enc1(0x1f4d),
            _ => enc1(0x1f49),
        },
    }
}

/// Rendering of ypsilon for a case and diacritic index.
#[verifier::opaque]
pub open spec fn spec_ypsilon(case: Case, idx: int) -> Seq<u8> {
    if case is Small {
        if idx == 0 {
            spec_utf8(0x03c5)
        } else if idx == 1 {
            spec_utf8(0x1f7a)
        } else if idx == 2 {
            spec_utf8(0x03cd)
        } else if idx == 3 {
            spec_utf8(0x1fe6)
        } else if idx == 4 {
            spec_utf8(0x1f50)
        } else if idx == 5 {
            spec_utf8(0x1f52)
        } else if idx == 6 {
            spec_utf8(0x1f54)
        } else if idx == 7 {
            spec_utf8(0x1f56)
        } else if idx == 8 {
            spec_utf8(0x1f51)
        } else if idx == 9 {
            spec_utf8(0x1f53)
        } else if idx == 10 {
            spec_utf8(0x1f55)
        } else if idx == 11 {
            spec_utf8(0x1f57)
        } else if idx == 12 {
            spec_utf8(0x03cb)
        } else if idx == 13 {
            spec_utf8(0x1fe2)
        } else if idx == 14 {
            spec_utf8(0x03b0)
        } else if idx == 15 {
            spec_utf8(0x1fe7)
        } else if idx == 16 {
            spec_utf8(0x03cb) + spec_utf8(0x1fbd)
        } else if idx == 17 {
            spec_utf8(0x1fe2) + spec_utf8(0x1fbd)
        } else if idx == 18 {
            spec_utf8(0x03b0) + spec_utf8(0x1fbd)
        } else if idx == 19 {
            spec_utf8(0x1fe7) + spec_utf8(0x1fbd)
        } else if idx == 20 {
            spec_utf8(0x03cb) + spec_utf8(0x1ffe)
        } else if idx == 21 {
            spec_utf8(0x1fe2) + spec_utf8(0x1ffe)
        } else if idx == 22 {
            spec_utf8(0x03b0) + spec_utf8(0x1ffe)
        } else {
            spec_utf8(0x1fe7) + spec_utf8(0x1ffe)
        }
    } else {
        if idx == 0 {
            spec_utf8(0x03a5)
        } else if idx == 1 {
            spec_utf8(0x1fea)
        } else if idx == 2 {
            spec_utf8(0x038e)
        } else if idx == 3 {
            spec_utf8(0x1fc0) + spec_utf8(0x03a5)
        } else if idx == 4 {
            spec_utf8(0x1fbf) + spec_utf8(0x03a5)
        } else if idx == 5 {
            spec_utf8(0x1fcd) + spec_utf8(0x03a5)
        } else if idx == 6 {
            spec_utf8(0x1fce) + spec_utf8(0x03a5)
        } else if idx == 7 {
            spec_utf8(0x1fcf) + spec_utf8(0x03a5)
        } else if idx == 8 {
            spec_utf8(0x1f59)
        } else if idx == 9 {
            spec_utf8(0x1f5b)
        } else if idx == 10 {
            spec_utf8(0x1f5d)
        } else if idx == 11 {
            spec_utf8(0x1f5f)
        } else if idx == 12 {
            spec_utf8(0x03ab)
        } else if idx == 13 {
            spec_utf8(0x1fef) + spec_utf8(0x03ab)
        } else if idx == 14 {
            spec_utf8(0x0384) + spec_utf8(0x03ab)
        } else if idx == 15 {
            spec_utf8(0x1fc0) + spec_utf8(0x03ab)
        } else if idx == 16 {
            spec_utf8(0x03ab) + spec_utf8(0x1fbd)
        } else if idx == 17 {
            spec_utf8(0x1fef) + spec_utf8(0x03ab) + spec_utf8(0x1fbd)
        } else if idx == 18 {
            spec_utf8(0x0384) + spec_utf8(0x03ab) + spec_utf8(0x1fbd)
        } else if idx == 19 {
            spec_utf8(0x1fc0) + spec_utf8(0x03ab) + spec_utf8(0x1fbd)
        } else if idx == 20 {
            spec_utf8(0x1ffe) + spec_utf8(0x03ab)
        } else if idx == 21 {
            spec_utf8(0x1fdd) + spec_utf8(0x03ab)
        } else if idx == 22 {
            spec_utf8(0x1fde) + spec_utf8(0x03ab)
        } else {
            spec_utf8(0x1fdf) + spec_utf8(0x03ab)
        }
    }
}

/// Encode the rendering of ypsilon for a case and diacritic index.
pub fn ypsilon(case: Case, idx: usize) -> (r: Vec<u8>)
    requires
        idx < 24,
    ensures
        r@ == spec_ypsilon(case, idx as int),
{
    proof {
        reveal(spec_ypsilon);
    }
    match case {
        Case::Small => match idx {
            0 => enc1(0x03c5),
            1 => enc1(0x1f7a),
            2 => enc1(0x03cd),
            3 => enc1(0x1fe6),
            4 => enc1(0x1f50),
            5 => enc1(0x1f52),
            6 => enc1(0x1f54),
            7 => enc1(0x1f56),
            8 => enc1(0x1f51),
            9 => enc1(0x1f53),
            10 => enc1(0x1f55),
            11 => enc1(0x1f57),
            12 => enc1(0x03cb),
            13 => enc1(0x1fe2),
            14 => enc1(0x03b0),
            15 => enc1(0x1fe7),
            16 => enc2(0x03cb, 0x1fbd),
            17 => enc2(0x1fe2, 0x1fbd),
            18 => enc2(0x03b0, 0x1fbd),
            19 => enc2(0x1fe7, 0x1fbd),
            20 => enc2(0x03cb, 0x1ffe),
            21 => enc2(0x1fe2, 0x1ffe),
            22 => enc2(0x03b0, 0x1ffe),
            _ => enc2(0x1fe7, 0x1ffe),
        },
        Case::Capital => match idx {
            0 => enc1(0x03a5),
            1 => enc1(0x1fea),
            2 => enc1(0x038e),
            3 => enc2(0x1fc0, 0x03a5),
            4 => enc2(0x1fbf, 0x03a5),
            5 => enc2(0x1fcd, 0x03a5),
            6 => enc2(0x1fce, 0x03a5),
            7 => enc2(0x1fcf, 0x03a5),
            8 => enc1(0x1f59),
            9 => enc1(0x1f5b),
            10 => enc1(0x1f5d),
            11 => enc1(0x1f5f),
            12 => enc1(0x03ab),
            13 => enc2(0x1fef, 0x03ab),
            14 => enc2(0x0384, 0x03ab),
            15 => enc2(0x1fc0, 0x03ab),
            16 => enc2(0x03ab, 0x1fbd),
            17 => enc3(0x1fef, 0x03ab, 0x1fbd),
            18 => enc3(0x0384, 0x03ab, 0x1fbd),
            19 => enc3(0x1fc0, 0x03ab, 0x1fbd),
            20 => enc2(0x1ffe, 0x03ab),
            21 => enc2(0x1fdd, 0x03ab),
            22 => enc2(0x1fde, 0x03ab),
            _ => enc2(0x1fdf, 0x03ab),
        },
    }
}

/// Rendering of omega for a case and diacritic index.
#[verifier::opaque]
pub open spec fn spec_omega(case: Case, idx: int) -> Seq<u8> {
    if case is Small {
        if idx == 0 {
            spec_utf8(0x03c9)
        } else if idx == 1 {
            spec_utf8(0x1f7c)
        } else if idx == 2 {
            spec_utf8(0x03ce)
        } else if idx == 3 {
            spec_utf8(0x1ff6)
        } else if idx == 4 {
            spec_utf8(0x1f60)
        } else if idx == 5 {
            spec_utf8(0x1f62)
        } else if idx == 6 {
            spec_utf8(0x1f64)
        } else if idx == 7 {
            spec_utf8(0x1f66)
        } else if idx == 8 {
            spec_utf8(0x1f61)
        } else if idx == 9 {
            spec_utf8(0x1f63)
        } else if idx == 10 {
            spec_utf8(0x1f65)
        } else if idx == 11 {
            spec_utf8(0x1f67)
        } else if idx == 12 {
            spec_utf8(0x1ff3)
        } else if idx == 13 {
            spec_utf8(0x1ff2)
        } else if idx == 14 {
            spec_utf8(0x1ff4)
        } else if idx == 15 {
            spec_utf8(0x1ff7)
        } else if idx == 16 {
            spec_utf8(0x1fa0)
        } else if idx == 17 {
            spec_utf8(0x1fa2)
        } else if idx == 18 {
            spec_utf8(0x1fa4)
        } else if idx == 19 {
            spec_utf8(0x1fa6)
        } else if idx == 20 {
            spec_utf8(0x1fa1)
        } else if idx == 21 {
            spec_utf8(0x1fa3)
        } else if idx == 22 {
            spec_utf8(0x1fa5)
        } else {
            spec_utf8(0x1fa7)
        }
    } else {
        if idx == 0 {
            spec_utf8(0x03a9)
        } else if idx == 1 {
            spec_utf8(0x1ffa)
        } else if idx == 2 {
            spec_utf8(0x038f)
        } else if idx == 3 {
            spec_utf8(0x1fc0) + spec_utf8(0x03a9)
        } else if idx == 4 {
            spec_utf8(0x1f68)
        } else if idx == 5 {
            spec_utf8(0x1f6a)
        } else if idx == 6 {
            spec_utf8(0x1f6c)
        } else if idx == 7 {
            spec_utf8(0x1f6e)
        } else if idx == 8 {
            spec_utf8(0x1f69)
        } else if idx == 9 {
            spec_utf8(0x1f6b)
        } else if idx == 10 {
            spec_utf8(0x1f6d)
        } else if idx == 11 {
            spec_utf8(0x1f6f)
        } else if idx == 12 {
            spec_utf8(0x1ffc)
        } else if idx == 13 {
            spec_utf8(0x1fef) + spec_utf8(0x1ffc)
        } else if idx == 14 {
            spec_utf8(0x0384) + spec_utf8(0x1ffc)
        } else if idx == 15 {
            spec_utf8(0x1fc0) + spec_utf8(0x1ffc)
        } else if idx == 16 {
            spec_utf8(0x1fa8)
        } else if idx == 17 {
            spec_utf8(0x1faa)
        } else if idx == 18 {
            spec_utf8(0x1fac)
        } else if idx == 19 {
            spec_utf8(0x1fae)
        } else if idx == 20 {
            spec_utf8(0x1fa9)
        } else if idx == 21 {
            spec_utf8(0x1fab)
        } else if idx == 22 {
            spec_utf8(0x1fad)
        } else {
            spec_utf8(0x1faf)
        }
    }
}

/// Encode the rendering of omega for a case and diacritic index.
pub fn omega(case: Case, idx: usize) -> (r: Vec<u8>)
    requires
        idx < 24,
    ensures
        r@ == spec_omega(case, idx as int),
{
    proof {
        reveal(spec_omega);
    }
    match case {
        Case::Small => match idx {
            0 => enc1(0x03c9),
            1 => enc1(0x1f7c),
            2 => enc1(0x03ce),
            3 => enc1(0x1ff6),
            4 => enc1(0x1f60),
            5 => enc1(0x1f62),
            6 => enc1(0x1f64),
            7 => enc1(0x1f66),
            8 => enc1(0x1f61),
            9 => enc1(0x1f63),
            10 => enc1(0x1f65),
            11 => enc1(0x1f67),
            12 => enc1(0x1ff3),
            13 => enc1(0x1ff2),
            14 => enc1(0x1ff4),
            15 => enc1(0x1ff7),
            16 => enc1(0x1fa0),
            17 => enc1(0x1fa2),
            18 => enc1(0x1fa4),
            19 => enc1(0x1fa6),
            20 => enc1(0x1fa1),
            21 => enc1(0x1fa3),
            22 => enc1(0x1fa5),
            _ => enc1(0x1fa7),
        },
        Case::Capital => match idx {
            0 => enc1(0x03a9),
            1 => enc1(0x1ffa),
            2 => enc1(0x038f),
            3 => enc2(0x1fc0, 0x03a9),
            4 => enc1(0x1f68),
            5 => enc1(0x1f6a),
            6 => enc1(0x1f6c),
            7 => enc1(0x1f6e),
            8 => enc1(0x1f69),
            9 => enc1(0x1f6b),
            10 => enc1(0x1f6d),
            11 => enc1(0x1f6f),
            12 => enc1(0x1ffc),
            13 => enc2(0x1fef, 0x1ffc),
            14 => enc2(0x0384, 0x1ffc),
            15 => enc2(0x1fc0, 0x1ffc),
            16 => enc1(0x1fa8),
            17 => enc1(0x1faa),
            18 => enc1(0x1fac),
            19 => enc1(0x1fae),
            20 => enc1(0x1fa9),
            21 => enc1(0x1fab),
            22 => enc1(0x1fad),
            _ => enc1(0x1faf),
        },
    }
}

} // verus!
