use edge_ort_runtime::text::split_whitespace;

#[test]
fn whitespace_matches_std_for_every_char() {
    for code in 0u32..=0x10FFFF {
        if let Some(c) = char::from_u32(code) {
            let words = split_whitespace(&vec!['a', c, 'b']);
            let expected = if c.is_whitespace() { 2 } else { 1 };
            assert_eq!(words.len(), expected, "char U+{code:04X}");
        }
    }
}
