use font_loader::bundle::{bundled_family_utf16, BUNDLED_FONT_FAMILY};
use font_loader::utf16::encode_utf16_nul;

fn reference(s: &str) -> Vec<u16> {
    s.encode_utf16().chain(std::iter::once(0)).collect()
}

#[test]
fn ascii_family_name_is_nul_terminated() {
    let units = encode_utf16_nul("IoskeleyMono");
    assert_eq!(units.len(), 13);
    assert_eq!(units, reference("IoskeleyMono"));
    assert_eq!(units[0], 'I' as u16);
    assert_eq!(units[12], 0);
}

#[test]
fn cjk_family_name_matches_std_encoding() {
    let name = "等距更纱黑体 SC";
    let units = encode_utf16_nul(name);
    assert_eq!(units, reference(name));
    assert_eq!(units[0], 0x7B49);
    assert_eq!(units.iter().filter(|u| **u == 0).count(), 1);
}

#[test]
fn supplementary_characters_become_surrogate_pairs() {
    let units = encode_utf16_nul("a\u{1F600}b\u{10FFFD}");
    assert_eq!(units, vec![0x61, 0xD83D, 0xDE00, 0x62, 0xDBFF, 0xDFFD, 0]);
    assert_eq!(units, reference("a\u{1F600}b\u{10FFFD}"));
}

#[test]
fn empty_name_is_a_lone_nul() {
    assert_eq!(encode_utf16_nul(""), vec![0]);
}

#[test]
fn bundled_family_name_encoding() {
    assert_eq!(BUNDLED_FONT_FAMILY, "IoskeleyMono");
    assert_eq!(bundled_family_utf16(), reference("IoskeleyMono"));
}
