//! The engine's laws: properties that relate several transition and
//! rewrite steps, proved once for all inputs.

use vstd::prelude::*;

use crate::state::{
    spec_glyph, spec_is_base_letter, spec_is_diacritics, spec_is_vowel, spec_rewrite,
    spec_transit, State,
};
use crate::spec_step;
use crate::unicode::consonant;
use crate::unicode::{spec_utf8, vowel};
use crate::{Accent, Case};

verus! {

/// The accent field of a descriptor; `Unmarked` for tags that carry none.
pub open spec fn spec_accent_of(s: State) -> Accent {
    match s {
        State::Alpha(_, _, c, _) => c,
        State::Epsilon(_, _, c) => c,
        State::Eta(_, _, c, _) => c,
        State::Iota(_, _, c, _) => c,
        State::Omicron(_, _, c) => c,
        State::Ypsilon(_, _, c, _) => c,
        State::Omega(_, _, c, _) => c,
        _ => Accent::Unmarked,
    }
}

/// A descriptor as a base-letter byte first creates it: every diacritic
/// field still unmarked.
pub open spec fn spec_is_fresh(s: State) -> bool {
    match s {
        State::Initial => false,
        State::Alpha(_, b, c, d) => b is Unmarked && c is Unmarked && d is Unmarked,
        State::Epsilon(_, b, c) => b is Unmarked && c is Unmarked,
        State::Eta(_, b, c, d) => b is Unmarked && c is Unmarked && d is Unmarked,
        State::Iota(_, b, c, d) => b is Unmarked && c is Unmarked && d is Unmarked,
        State::Omicron(_, b, c) => b is Unmarked && c is Unmarked,
        State::Ypsilon(_, b, c, d) => b is Unmarked && c is Unmarked && d is Unmarked,
        State::Omega(_, b, c, d) => b is Unmarked && c is Unmarked && d is Unmarked,
        State::Rho(_, b) => b is Unmarked,
        _ => true,
    }
}

/// On a fresh descriptor, any diacritic toggle applied twice comes back to
/// the fresh descriptor, and every toggle preserves the tag.
#[verifier::rlimit(100)]
proof fn lemma_fresh_double_toggle_state(s0: State, m: u8)
    requires
        spec_is_fresh(s0),
        spec_is_diacritics(m),
    ensures
        spec_transit(spec_transit(s0, m), m) == s0,
        spec_is_vowel(spec_transit(s0, m)) == spec_is_vowel(s0),
        !spec_is_vowel(s0) ==> spec_transit(s0, m) == s0,
{
    if m == 0x29 {
        assert(spec_transit(spec_transit(s0, m), m) == s0);
        assert(spec_is_vowel(spec_transit(s0, m)) == spec_is_vowel(s0));
        assert(!spec_is_vowel(s0) ==> spec_transit(s0, m) == s0);
    } else if m == 0x28 {
        assert(spec_transit(spec_transit(s0, m), m) == s0);
        assert(spec_is_vowel(spec_transit(s0, m)) == spec_is_vowel(s0));
        assert(!spec_is_vowel(s0) ==> spec_transit(s0, m) == s0);
    } else if m == 0x5c {
        assert(spec_transit(spec_transit(s0, m), m) == s0);
        assert(spec_is_vowel(spec_transit(s0, m)) == spec_is_vowel(s0));
        assert(!spec_is_vowel(s0) ==> spec_transit(s0, m) == s0);
    } else if m == 0x2f {
        assert(spec_transit(spec_transit(s0, m), m) == s0);
        assert(spec_is_vowel(spec_transit(s0, m)) == spec_is_vowel(s0));
        assert(!spec_is_vowel(s0) ==> spec_transit(s0, m) == s0);
    } else if m == 0x3d {
        assert(spec_transit(spec_transit(s0, m), m) == s0);
        assert(spec_is_vowel(spec_transit(s0, m)) == spec_is_vowel(s0));
        assert(!spec_is_vowel(s0) ==> spec_transit(s0, m) == s0);
    } else if m == 0x7c {
        assert(spec_transit(spec_transit(s0, m), m) == s0);
        assert(spec_is_vowel(spec_transit(s0, m)) == spec_is_vowel(s0));
        assert(!spec_is_vowel(s0) ==> spec_transit(s0, m) == s0);
    } else {
        assert(spec_transit(spec_transit(s0, m), m) == s0);
        assert(spec_is_vowel(spec_transit(s0, m)) == spec_is_vowel(s0));
        assert(!spec_is_vowel(s0) ==> spec_transit(s0, m) == s0);
    }
}

/// The buffer half of the double-toggle law, given the state half.
proof fn lemma_double_toggle_buffer(s0: State, m: u8, buf: Seq<u8>)
    requires
        spec_is_diacritics(m),
        !(s0 is Initial),
        spec_glyph(s0).is_suffix_of(buf),
        spec_transit(spec_transit(s0, m), m) == s0,
        spec_is_vowel(spec_transit(s0, m)) == spec_is_vowel(s0),
        !spec_is_vowel(s0) ==> spec_transit(s0, m) == s0,
    ensures
        spec_rewrite(spec_transit(s0, m), m, spec_rewrite(s0, m, buf)) == buf,
{
    let s1 = spec_transit(s0, m);
    let g0 = spec_glyph(s0);
    let g1 = spec_glyph(s1);
    if spec_is_vowel(s0) {
        let n0 = buf.len() - g0.len();
        let buf1 = spec_rewrite(s0, m, buf);
        assert(buf1 == buf.take(n0) + g1);
        let buf2 = spec_rewrite(s1, m, buf1);
        assert(buf1.take(buf1.len() - g1.len()) =~= buf.take(n0));
        assert(buf2 == buf.take(n0) + g0);
        assert(buf.take(n0) + g0 =~= buf);
    } else {
        assert(spec_rewrite(s0, m, buf) == buf);
    }
}

/// Pressing the same diacritic key twice right after a base letter
/// restores both the descriptor and the buffer that the base letter alone
/// produced.
pub proof fn lemma_toggle_twice_restores(b: u8, m: u8, buf: Seq<u8>)
    requires
        spec_is_base_letter(b),
        spec_is_diacritics(m),
        spec_glyph(spec_transit(State::Initial, b)).is_suffix_of(buf),
    ensures
        ({
            let s0 = spec_transit(State::Initial, b);
            spec_transit(spec_transit(s0, m), m) == s0
        }),
        ({
            let s0 = spec_transit(State::Initial, b);
            let s1 = spec_transit(s0, m);
            spec_rewrite(s1, m, spec_rewrite(s0, m, buf)) == buf
        }),
{
    let s0 = spec_transit(State::Initial, b);
    assert(spec_is_fresh(s0));
    lemma_fresh_double_toggle_state(s0, m);
    lemma_double_toggle_buffer(s0, m, buf);
}

/// The descriptor `s` with its accent field replaced; unchanged for tags
/// that carry no accent.
pub open spec fn spec_with_accent(s: State, acc: Accent) -> State {
    match s {
        State::Alpha(a, b, _, d) => State::Alpha(a, b, acc, d),
        State::Epsilon(a, b, _) => State::Epsilon(a, b, acc),
        State::Eta(a, b, _, d) => State::Eta(a, b, acc, d),
        State::Iota(a, b, _, d) => State::Iota(a, b, acc, d),
        State::Omicron(a, b, _) => State::Omicron(a, b, acc),
        State::Ypsilon(a, b, _, d) => State::Ypsilon(a, b, acc, d),
        State::Omega(a, b, _, d) => State::Omega(a, b, acc, d),
        _ => s,
    }
}

/// Grave then acute on any vowel leaves exactly the acute accent — the
/// marks overwrite one another, they never combine — and every other
/// field of the descriptor is untouched.
pub proof fn lemma_grave_then_acute(s: State)
    requires
        spec_is_vowel(s),
    ensures
        spec_accent_of(spec_transit(spec_transit(s, 0x5c), 0x2f)) == Accent::Acute,
        spec_transit(spec_transit(s, 0x5c), 0x2f) == spec_with_accent(s, Accent::Acute),
{
}

/// No tag carries both a subscript and a diaeresis field: the subscript
/// toggle leaves the diaeresis-carrying tags untouched, and the diaeresis
/// toggle leaves the subscript-carrying tags untouched.
pub proof fn lemma_subscript_diaeresis_disjoint(s: State)
    ensures
        (s is Iota || s is Ypsilon) ==> spec_transit(s, 0x7c) == s,
        (s is Alpha || s is Eta || s is Omega) ==> spec_transit(s, 0x22) == s,
{
}

/// A diacritic byte aimed at a consonant-tagged state (sigma and rho
/// included: rho's breathing field is never toggled) changes neither the
/// state nor the buffer.
pub proof fn lemma_consonant_ignores_diacritics(s: State, c: u8, buf: Seq<u8>)
    requires
        !spec_is_vowel(s),
        !(s is Initial),
        spec_is_diacritics(c),
    ensures
        spec_transit(s, c) == s,
        spec_rewrite(s, c, buf) == buf,
{
}

/// After a sigma, a byte that ends the word replaces the trailing medial
/// sigma rendering with the word-final form; a base-letter byte leaves the
/// medial sigma standing and appends the new letter's rendering.
pub proof fn lemma_sigma_final_form(a: Case, c: u8, buf: Seq<u8>)
    requires
        consonant::spec_sigma(a).is_suffix_of(buf),
    ensures
        (!spec_is_base_letter(c) && !spec_is_diacritics(c)) ==> spec_rewrite(
            State::Sigma(a),
            c,
            buf,
        ) == buf.take(buf.len() - consonant::spec_sigma(a).len())
            + consonant::spec_final_sigma(a),
        spec_is_base_letter(c) ==> spec_rewrite(State::Sigma(a), c, buf) == buf + spec_glyph(
            spec_transit(State::Sigma(a), c),
        ),
{
}

/// A byte that is not a base-letter code, fed at rest, is passed through
/// into the buffer unchanged, and the machine stays at rest.
pub proof fn lemma_pass_through(c: u8, buf: Seq<u8>)
    requires
        !spec_is_base_letter(c),
    ensures
        spec_step(State::Initial, buf, c).0 == State::Initial,
        spec_step(State::Initial, buf, c).1 == buf.push(c),
{
    assert(spec_transit(State::Initial, c) is Initial);
    assert(buf + spec_glyph(State::Initial) =~= buf);
}

proof fn lemma_utf8_nonempty()
    ensures
        forall|cp: u32| #[trigger] spec_utf8(cp).len() >= 1,
{
    assert forall|cp: u32| #[trigger] spec_utf8(cp).len() >= 1 by {
        reveal(spec_utf8);
    }
}

/// Every open descriptor renders as at least one byte: only the rest
/// state renders as the empty string, so typing a letter always makes
/// text appear.
pub proof fn lemma_glyph_nonempty(s: State)
    requires
        !(s is Initial),
    ensures
        spec_glyph(s).len() > 0,
{
    lemma_utf8_nonempty();
    match s {
        State::Alpha(..) => {
            reveal(vowel::spec_alpha);
        },
        State::Epsilon(..) => {
            reveal(vowel::spec_epsilon);
        },
        State::Eta(..) => {
            reveal(vowel::spec_eta);
        },
        State::Iota(..) => {
            reveal(vowel::spec_iota);
        },
        State::Omicron(..) => {
            reveal(vowel::spec_omicron);
        },
        State::Ypsilon(..) => {
            reveal(vowel::spec_ypsilon);
        },
        State::Omega(..) => {
            reveal(vowel::spec_omega);
        },
        _ => {},
    }
}

} // verus!
