//! The glyph table: the pure lookup from a fully-resolved descriptor to the
//! UTF-8 byte string that renders it, split into the vowel tables (indexed
//! by the diacritic combination) and the consonant tables.

use vstd::prelude::*;

pub mod consonant;
pub mod vowel;

verus! {

/// The UTF-8 encoding of the code point `cp`, as a byte sequence.
#[verifier::opaque]
pub open spec fn spec_utf8(cp: u32) -> Seq<u8> {
    let c = cp as int;
    if c < 0x80 {
        seq![c as u8]
    } else if c < 0x800 {
        seq![(0xC0 + c / 0x40) as u8, (0x80 + c % 0x40) as u8]
    } else if c < 0x10000 {
        seq![
            (0xE0 + c / 0x1000) as u8,
            (0x80 + (c / 0x40) % 0x40) as u8,
            (0x80 + c % 0x40) as u8,
        ]
    } else {
        seq![
            (0xF0 + c / 0x40000) as u8,
            (0x80 + (c / 0x1000) % 0x40) as u8,
            (0x80 + (c / 0x40) % 0x40) as u8,
            (0x80 + c % 0x40) as u8,
        ]
    }
}

/// Append the UTF-8 encoding of `cp` to `v`.
fn push_cp(v: &mut Vec<u8>, cp: u32)
    requires
        cp < 0x110000,
    ensures
        final(v)@ == old(v)@ + spec_utf8(cp),
{
    proof {
        reveal(spec_utf8);
    }
    if cp < 0x80 {
        v.push(cp as u8);
    } else if cp < 0x800 {
        assert(cp / 0x40 < 0x20) by (nonlinear_arith)
            requires
                cp < 0x800,
        ;
        v.push((0xC0 + cp / 0x40) as u8);
        v.push((0x80 + cp % 0x40) as u8);
    } else if cp < 0x10000 {
        assert(cp / 0x1000 < 0x10 && (cp / 0x40) % 0x40 < 0x40) by (nonlinear_arith)
            requires
                cp < 0x10000,
        ;
        v.push((0xE0 + cp / 0x1000) as u8);
        v.push((0x80 + (cp / 0x40) % 0x40) as u8);
        v.push((0x80 + cp % 0x40) as u8);
    } else {
        assert(cp / 0x40000 < 0x8 && (cp / 0x1000) % 0x40 < 0x40 && (cp / 0x40) % 0x40 < 0x40)
            by (nonlinear_arith)
            requires
                cp < 0x110000,
        ;
        v.push((0xF0 + cp / 0x40000) as u8);
        v.push((0x80 + (cp / 0x1000) % 0x40) as u8);
        v.push((0x80 + (cp / 0x40) % 0x40) as u8);
        v.push((0x80 + cp % 0x40) as u8);
    }
    proof {
        assert(v@ =~= old(v)@ + spec_utf8(cp));
    }
}

/// A rendering of a single code point.
pub fn enc1(a: u32) -> (r: Vec<u8>)
    requires
        a < 0x110000,
    ensures
        r@ == spec_utf8(a),
{
    let mut v: Vec<u8> = Vec::new();
    push_cp(&mut v, a);
    proof {
        assert(v@ =~= spec_utf8(a));
    }
    v
}

/// A rendering of two code points in order.
pub fn enc2(a: u32, b: u32) -> (r: Vec<u8>)
    requires
        a < 0x110000,
        b < 0x110000,
    ensures
        r@ == spec_utf8(a) + spec_utf8(b),
{
    let mut v: Vec<u8> = Vec::new();
    push_cp(&mut v, a);
    push_cp(&mut v, b);
    proof {
        assert(v@ =~= spec_utf8(a) + spec_utf8(b));
    }
    v
}

/// A rendering of three code points in order.
pub fn enc3(a: u32, b: u32, c: u32) -> (r: Vec<u8>)
    requires
        a < 0x110000,
        b < 0x110000,
        c < 0x110000,
    ensures
        r@ == spec_utf8(a) + spec_utf8(b) + spec_utf8(c),
{
    let mut v: Vec<u8> = Vec::new();
    push_cp(&mut v, a);
    push_cp(&mut v, b);
    push_cp(&mut v, c);
    proof {
        assert(v@ =~= spec_utf8(a) + spec_utf8(b) + spec_utf8(c));
    }
    v
}

} // verus!
