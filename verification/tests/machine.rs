use betacode::state::{is_diacritics, replace, State};
use betacode::unicode::consonant::{final_sigma, Rho};
use betacode::{Accent, Breathing, Case, Diaeresis, Subscript};

#[test]
fn initial_state_is_rest() {
    let s = State::initial();
    assert!(s.is_initial());
    assert_eq!(s, State::Initial);
}

#[test]
fn stepping_the_machine_updates_descriptor_and_buffer() {
    let mut buf: Vec<u8> = Vec::new();
    let s0 = State::initial();
    let s1 = s0.rewrite_buffer(b'a', &mut buf);
    assert_eq!(
        s1,
        State::Alpha(Case::Small, Breathing::Unmarked, Accent::Unmarked, Subscript::Unmarked)
    );
    assert_eq!(buf, "\u{03b1}".as_bytes().to_vec());
    let s2 = s1.rewrite_buffer(b'/', &mut buf);
    assert_eq!(
        s2,
        State::Alpha(Case::Small, Breathing::Unmarked, Accent::Acute, Subscript::Unmarked)
    );
    assert_eq!(buf, "\u{03ac}".as_bytes().to_vec());
    let s3 = s2.rewrite_buffer(b'/', &mut buf);
    assert_eq!(s3, s1);
    assert_eq!(buf, "\u{03b1}".as_bytes().to_vec());
    assert!(!s3.is_initial());
}

#[test]
fn grave_then_acute_leaves_only_acute() {
    let mut buf: Vec<u8> = Vec::new();
    let mut s = State::initial();
    for &c in b"h\\/" {
        s = s.rewrite_buffer(c, &mut buf);
    }
    assert_eq!(
        s,
        State::Eta(Case::Small, Breathing::Unmarked, Accent::Acute, Subscript::Unmarked)
    );
    assert_eq!(buf, "\u{03ae}".as_bytes().to_vec());
}

#[test]
fn diaeresis_and_breathing_are_independent_fields() {
    let mut buf: Vec<u8> = Vec::new();
    let mut s = State::initial();
    for &c in b"y\"" {
        s = s.rewrite_buffer(c, &mut buf);
    }
    assert_eq!(
        s,
        State::Ypsilon(Case::Small, Breathing::Unmarked, Accent::Unmarked, Diaeresis::Marked)
    );
}

#[test]
fn unrecognized_byte_resets_to_rest() {
    let mut buf: Vec<u8> = Vec::new();
    let s = State::initial().rewrite_buffer(b'k', &mut buf);
    let s = s.rewrite_buffer(b' ', &mut buf);
    assert!(s.is_initial());
    assert_eq!(buf, "\u{03ba}".as_bytes().to_vec());
}

#[test]
fn is_diacritics_accepts_exactly_the_seven_toggle_bytes() {
    for c in 0u8..=255 {
        let expected = matches!(c, b')' | b'(' | b'\\' | b'/' | b'=' | b'|' | b'"');
        assert_eq!(is_diacritics(c), expected);
    }
}

#[test]
fn replace_swaps_exactly_the_trailing_region() {
    let mut buf = b"abcd".to_vec();
    replace(&mut buf, &b"cd".to_vec(), &b"xyz".to_vec());
    assert_eq!(buf, b"abxyz".to_vec());
    let mut buf = b"ab".to_vec();
    replace(&mut buf, &b"".to_vec(), &b"c".to_vec());
    assert_eq!(buf, b"abc".to_vec());
}

#[test]
fn glyph_renders_the_open_descriptor() {
    let s = State::Iota(Case::Small, Breathing::Unmarked, Accent::Acute, Diaeresis::Marked);
    assert_eq!(s.glyph(), "\u{0390}".as_bytes().to_vec());
    assert_eq!(State::Initial.glyph(), Vec::<u8>::new());
    assert_eq!(State::Psi(Case::Capital).glyph(), "\u{03a8}".as_bytes().to_vec());
}

#[test]
fn rho_table_covers_breathing_entries() {
    assert_eq!(Rho.index((Case::Small, Breathing::Rough)), "\u{1fe5}".as_bytes().to_vec());
    assert_eq!(Rho.index((Case::Small, Breathing::Smooth)), "\u{1fe4}".as_bytes().to_vec());
    assert_eq!(Rho.index((Case::Capital, Breathing::Rough)), "\u{1fec}".as_bytes().to_vec());
    assert_eq!(Rho.index((Case::Capital, Breathing::Unmarked)), "\u{03a1}".as_bytes().to_vec());
    assert_eq!(Rho.index((Case::Small, Breathing::Unmarked)), "\u{03c1}".as_bytes().to_vec());
    // the fallback arm: a smooth-breathing capital (unreachable through the
    // transition rules) renders as the small form
    assert_eq!(Rho.index((Case::Capital, Breathing::Smooth)), "\u{03c1}".as_bytes().to_vec());
}

#[test]
fn final_sigma_forms() {
    assert_eq!(final_sigma(Case::Small), "\u{03c2}".as_bytes().to_vec());
    assert_eq!(final_sigma(Case::Capital), "\u{03a3}".as_bytes().to_vec());
}
