use betacode::latin_to_greek;

fn greek(input: &[u8]) -> Vec<u8> {
    latin_to_greek(input)
}

#[test]
fn empty_input_yields_empty_output() {
    assert_eq!(greek(b""), b"".to_vec());
}

#[test]
fn capital_letter_with_smooth_breathing() {
    assert_eq!(greek(b"A)"), "\u{1f08}".as_bytes().to_vec());
}

#[test]
fn second_acute_cancels_the_first() {
    assert_eq!(greek(b"a//"), "\u{03b1}".as_bytes().to_vec());
}

#[test]
fn sigma_before_letter_stays_medial() {
    assert_eq!(greek(b"sa"), "\u{03c3}\u{03b1}".as_bytes().to_vec());
}

#[test]
fn sigma_before_space_becomes_final() {
    assert_eq!(greek(b"s "), "\u{03c2} ".as_bytes().to_vec());
}

#[test]
fn capital_sigma_keeps_its_form_at_word_end() {
    assert_eq!(greek(b"S "), "\u{03a3} ".as_bytes().to_vec());
}

#[test]
fn subscript_and_circumflex_combine() {
    assert_eq!(greek(b"a|="), "\u{1fb7}".as_bytes().to_vec());
}

#[test]
fn digit_passes_through_unchanged() {
    assert_eq!(greek(b"1"), b"1".to_vec());
}

#[test]
fn unused_letters_pass_through() {
    assert_eq!(greek(b"uv"), b"uv".to_vec());
    assert_eq!(greek(b"a u"), "\u{03b1} u".as_bytes().to_vec());
}

#[test]
fn smooth_breathing_twice_restores_plain_vowel() {
    assert_eq!(greek(b"a))"), "\u{03b1}".as_bytes().to_vec());
    assert_eq!(greek(b"h(("), "\u{03b7}".as_bytes().to_vec());
}

#[test]
fn rough_breathing_overwrites_smooth() {
    assert_eq!(greek(b"a)("), "\u{1f01}".as_bytes().to_vec());
}

#[test]
fn acute_overwrites_grave() {
    assert_eq!(greek(b"a\\/"), "\u{03ac}".as_bytes().to_vec());
}

#[test]
fn circumflex_on_epsilon_is_inert() {
    assert_eq!(greek(b"e="), "\u{03b5}".as_bytes().to_vec());
    assert_eq!(greek(b"o="), "\u{03bf}".as_bytes().to_vec());
}

#[test]
fn diacritic_on_plain_consonant_is_discarded() {
    assert_eq!(greek(b"b)"), "\u{03b2}".as_bytes().to_vec());
    assert_eq!(greek(b"t/"), "\u{03c4}".as_bytes().to_vec());
    assert_eq!(greek(b"b)a"), "\u{03b2}\u{03b1}".as_bytes().to_vec());
}

#[test]
fn breathing_keys_are_inert_on_rho() {
    assert_eq!(greek(b"r("), "\u{03c1}".as_bytes().to_vec());
    assert_eq!(greek(b"R("), "\u{03a1}".as_bytes().to_vec());
}

#[test]
fn diacritic_after_sigma_is_discarded() {
    assert_eq!(greek(b"s)"), "\u{03c3}".as_bytes().to_vec());
    assert_eq!(greek(b"s) "), "\u{03c2} ".as_bytes().to_vec());
}

#[test]
fn diaeresis_toggles_on_iota_and_ypsilon() {
    assert_eq!(greek(b"i\""), "\u{03ca}".as_bytes().to_vec());
    assert_eq!(greek(b"y\"/"), "\u{03b0}".as_bytes().to_vec());
    assert_eq!(greek(b"i\"\""), "\u{03b9}".as_bytes().to_vec());
}

#[test]
fn capital_iota_diaeresis_accent_is_two_code_points() {
    assert_eq!(greek(b"I\"/"), "\u{0384}\u{03aa}".as_bytes().to_vec());
}

#[test]
fn capital_iota_rough_acute() {
    assert_eq!(greek(b"I(/"), "\u{1f3d}".as_bytes().to_vec());
}

#[test]
fn whole_word_with_final_sigma() {
    assert_eq!(
        greek(b"lo/gos "),
        "\u{03bb}\u{03cc}\u{03b3}\u{03bf}\u{03c2} ".as_bytes().to_vec()
    );
}

#[test]
fn word_ending_mid_input_keeps_medial_sigma() {
    assert_eq!(greek(b"sos"), "\u{03c3}\u{03bf}\u{03c3}".as_bytes().to_vec());
}

#[test]
fn omega_subscript_toggles() {
    assert_eq!(greek(b"w|"), "\u{1ff3}".as_bytes().to_vec());
    assert_eq!(greek(b"w||"), "\u{03c9}".as_bytes().to_vec());
}

#[test]
fn new_letter_resets_diacritics() {
    assert_eq!(greek(b"a/e"), "\u{03ac}\u{03b5}".as_bytes().to_vec());
}

#[test]
fn small_delta_uses_the_tables_code_point() {
    assert_eq!(greek(b"d"), "\u{02b4}".as_bytes().to_vec());
}

#[test]
fn mixed_text_passes_punctuation_through() {
    assert_eq!(
        greek(b"e)n 2024."),
        "\u{1f10}\u{03bd} 2024.".as_bytes().to_vec()
    );
}
