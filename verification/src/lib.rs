//! Incremental transliteration of ASCII Beta-code keystrokes into polytonic
//! Greek text, one byte at a time.
//!
//! The engine keeps a single "open" letter descriptor ([`state::State`]):
//! a base-letter byte opens a fresh descriptor, each diacritic byte toggles
//! one of its fields in place, and any other byte closes it.  The output
//! buffer is a byte string (UTF-8); after every step its tail renders the
//! open descriptor exactly, so a diacritic keystroke can rewrite just that
//! tail.

use vstd::prelude::*;

pub mod laws;
pub mod state;
pub mod unicode;

use state::State;

verus! {

/// Letter case carried by every descriptor.
#[derive(Debug, Clone, Copy, PartialEq, Eq, Structural)]
pub enum Case {
    Capital,
    Small,
}

/// Breathing mark carried by the vowels (and, inertly, by rho).
#[derive(Debug, Clone, Copy, PartialEq, Eq, Structural)]
pub enum Breathing {
    Unmarked,
    Smooth,
    Rough,
}

/// Accent mark carried by the vowels; epsilon and omicron never take
/// the circumflex.
#[derive(Debug, Clone, Copy, PartialEq, Eq, Structural)]
pub enum Accent {
    Unmarked,
    Grave,
    Acute,
    Circumflex,
}

/// Iota subscript, carried by alpha, eta and omega.
#[derive(Debug, Clone, Copy, PartialEq, Eq, Structural)]
pub enum Subscript {
    Unmarked,
    Iota,
}

/// Diaeresis, carried by iota and ypsilon.
#[derive(Debug, Clone, Copy, PartialEq, Eq, Structural)]
pub enum Diaeresis {
    Unmarked,
    Marked,
}

/// One driver step: feed byte `c` to the machine in state `s` over buffer
/// `buf`; when the machine lands in `Initial` the raw byte is passed
/// through literally.
pub open spec fn spec_step(s: State, buf: Seq<u8>, c: u8) -> (State, Seq<u8>) {
    let s2 = state::spec_transit(s, c);
    let b2 = state::spec_rewrite(s, c, buf);
    (s2, if s2 is Initial { b2.push(c) } else { b2 })
}

/// Folding the machine over `input` from state `s` and buffer `buf`;
/// the result is the final buffer.
pub open spec fn spec_run(s: State, buf: Seq<u8>, input: Seq<u8>) -> Seq<u8>
    decreases input.len(),
{
    if input.len() == 0 {
        buf
    } else {
        let (s2, b2) = spec_step(s, buf, input[0]);
        spec_run(s2, b2, input.drop_first())
    }
}

/// The rendering of a whole input, starting from the rest state and an
/// empty buffer.
pub open spec fn spec_latin_to_greek(input: Seq<u8>) -> Seq<u8> {
    spec_run(State::Initial, Seq::empty(), input)
}

/// Transliterate a whole Beta-code byte string: fold the state machine and
/// buffer rewriter over each byte in order, passing unrecognized bytes
/// through literally.
pub fn latin_to_greek(s: &[u8]) -> (r: Vec<u8>)
    ensures
        r@ == spec_latin_to_greek(s@),
{
    let mut buffer: Vec<u8> = Vec::new();
    let mut st = State::initial();
    let mut i: usize = 0;
    proof {
        assert(buffer@ =~= Seq::<u8>::empty());
        assert(state::spec_glyph(st) =~= buffer@.subrange(0, 0));
        assert(s@.skip(0) =~= s@);
    }
    while i < s.len()
        invariant
            i <= s@.len(),
            state::spec_glyph(st).is_suffix_of(buffer@),
            spec_run(st, buffer@, s@.skip(i as int)) == spec_latin_to_greek(s@),
        decreases s@.len() - i,
    {
        let c = s[i];
        proof {
            assert(s@.skip(i as int)[0] == c);
            assert(s@.skip(i as int).drop_first() =~= s@.skip(i + 1));
        }
        st = st.rewrite_buffer(c, &mut buffer);
        if st.is_initial() {
            buffer.push(c);
            proof {
                assert(state::spec_glyph(st) =~= buffer@.subrange(
                    buffer@.len() as int,
                    buffer@.len() as int,
                ));
            }
        }
        i = i + 1;
    }
    proof {
        assert(s@.skip(i as int) =~= Seq::<u8>::empty());
    }
    buffer
}

} // verus!
