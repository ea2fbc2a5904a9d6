use grafter::text::trim;

const WHITE_SPACE: [char; 25] = [
    '\u{0009}', '\u{000A}', '\u{000B}', '\u{000C}', '\u{000D}', '\u{0020}', '\u{0085}', '\u{00A0}',
    '\u{1680}', '\u{2000}', '\u{2001}', '\u{2002}', '\u{2003}', '\u{2004}', '\u{2005}', '\u{2006}',
    '\u{2007}', '\u{2008}', '\u{2009}', '\u{200A}', '\u{2028}', '\u{2029}', '\u{202F}', '\u{205F}',
    '\u{3000}',
];

#[test]
fn white_space_is_trimmed_and_nothing_else() {
    for c in '\0'..=char::MAX {
        let padded = format!("{c}a b{c}");
        if WHITE_SPACE.contains(&c) {
            assert_eq!(trim(&padded), "a b");
        } else {
            assert_eq!(trim(&padded), padded);
        }
    }
}

#[test]
fn trimming_again_changes_nothing() {
    for text in ["", " \t\n", "  a  b ", "\u{3000}x\u{200B} "] {
        let once = trim(text);
        assert_eq!(trim(&once), once);
    }
}
