use outerspace::{prefix_non_whitespace, suffix_non_whitespace, wrap_non_whitespace};

#[test]
fn wrap_works() {
    assert_eq!(wrap_non_whitespace("", "<", ">"), "<>");
    assert_eq!(wrap_non_whitespace("  \n ", "<", ">"), "<  \n >");
    assert_eq!(wrap_non_whitespace("cosy", "<", ">"), "<cosy>");
    assert_eq!(
        wrap_non_whitespace("cosy matthew", "<", ">"),
        "<cosy matthew>"
    );
    assert_eq!(
        wrap_non_whitespace("\n \ncosy \nmatthew\n \n", "<", ">"),
        "\n \n<cosy \nmatthew>\n \n"
    );
}

#[test]
fn prefix_works() {
    assert_eq!(prefix_non_whitespace("", "**"), "**");
    assert_eq!(prefix_non_whitespace("  \n ", "**"), "**  \n ");
    assert_eq!(prefix_non_whitespace("emboldened", "**"), "**emboldened");
    assert_eq!(
        prefix_non_whitespace("emboldened matthew", "**"),
        "**emboldened matthew"
    );
    assert_eq!(
        prefix_non_whitespace("\n \nemboldened \nmatthew", "**"),
        "\n \n**emboldened \nmatthew"
    );
}

#[test]
fn suffix_works() {
    assert_eq!(suffix_non_whitespace("", "**"), "**");
    assert_eq!(suffix_non_whitespace("  \n ", "**"), "  \n **");
    assert_eq!(suffix_non_whitespace("emboldened", "**"), "emboldened**");
    assert_eq!(
        suffix_non_whitespace("emboldened matthew", "**"),
        "emboldened matthew**"
    );
    assert_eq!(
        suffix_non_whitespace("emboldened \nmatthew\n \n", "**"),
        "emboldened \nmatthew**\n \n"
    );
}

#[test]
fn empty_markers_are_identity() {
    assert_eq!(wrap_non_whitespace("", "", ""), "");
    assert_eq!(wrap_non_whitespace("  \n ", "", ""), "  \n ");
    assert_eq!(wrap_non_whitespace("cosy matthew", "", ""), "cosy matthew");
    assert_eq!(
        wrap_non_whitespace("\n \ncosy \nmatthew\n \n", "", ""),
        "\n \ncosy \nmatthew\n \n"
    );
    assert_eq!(prefix_non_whitespace(" a ", ""), " a ");
    assert_eq!(suffix_non_whitespace(" a ", ""), " a ");
}

#[test]
fn outer_whitespace_is_kept() {
    let s = "\t\n  word one \n\t ";
    let wrapped = wrap_non_whitespace(s, "<", ">");
    assert_eq!(wrapped, "\t\n  <word one> \n\t ");
    let ws_prefix_len = s.len() - s.trim_start().len();
    let ws_suffix_len = s.len() - s.trim_end().len();
    assert_eq!(&wrapped[..ws_prefix_len], &s[..ws_prefix_len]);
    assert_eq!(
        &wrapped[wrapped.len() - ws_suffix_len..],
        &s[s.len() - ws_suffix_len..]
    );
}

#[test]
fn single_character_core() {
    assert_eq!(wrap_non_whitespace("x", "<", ">"), "<x>");
    assert_eq!(wrap_non_whitespace(" x ", "<", ">"), " <x> ");
    assert_eq!(prefix_non_whitespace(" x", "<"), " <x");
    assert_eq!(suffix_non_whitespace("x ", ">"), "x> ");
}

#[test]
fn unicode_whitespace_is_recognised() {
    assert_eq!(
        wrap_non_whitespace("\u{a0}\u{2000}core\u{3000}", "<", ">"),
        "\u{a0}\u{2000}<core>\u{3000}"
    );
    assert_eq!(
        wrap_non_whitespace("\u{2028}\u{205f}\u{1680}", "<", ">"),
        "<\u{2028}\u{205f}\u{1680}>"
    );
    assert_eq!(
        prefix_non_whitespace("\u{85}\u{200a}tail", "*"),
        "\u{85}\u{200a}*tail"
    );
    assert_eq!(
        suffix_non_whitespace("head\u{202f}\u{2029}", "*"),
        "head*\u{202f}\u{2029}"
    );
}

#[test]
fn non_whitespace_controls_are_core() {
    // Zero-width space and DEL lack the White_Space property, so they are core.
    assert_eq!(wrap_non_whitespace("\u{200b}", "<", ">"), "<\u{200b}>");
    assert_eq!(wrap_non_whitespace(" \u{7f} ", "<", ">"), " <\u{7f}> ");
}

#[test]
fn double_wrap_nests_markers() {
    let once = wrap_non_whitespace("\n core \n", "<", ">");
    assert_eq!(once, "\n <core> \n");
    let twice = wrap_non_whitespace(&once, "<", ">");
    assert_eq!(twice, "\n <<core>> \n");
    assert_ne!(twice, once);
}

#[test]
fn round_trip_strips_markers() {
    let s = "\n \ncosy \nmatthew\n \n";
    let prefix = "<<";
    let suffix = ">>";
    let wrapped = wrap_non_whitespace(s, prefix, suffix);
    let first = s.find(|c: char| !c.is_whitespace()).unwrap();
    let last = s.rfind(|c: char| !c.is_whitespace()).unwrap();
    let mut stripped = String::new();
    stripped.push_str(&wrapped[..first]);
    stripped.push_str(&wrapped[first + prefix.len()..last + 1 + prefix.len()]);
    stripped.push_str(&wrapped[last + 1 + prefix.len() + suffix.len()..]);
    assert_eq!(stripped, s);

    let all_ws = "  \n ";
    let wrapped_ws = wrap_non_whitespace(all_ws, prefix, suffix);
    assert_eq!(
        &wrapped_ws[prefix.len()..wrapped_ws.len() - suffix.len()],
        all_ws
    );
}

#[test]
fn multi_character_and_whitespace_markers() {
    assert_eq!(
        wrap_non_whitespace(" a ", "**[", "]**"),
        " **[a]** "
    );
    // Markers may themselves hold whitespace; they are inserted verbatim.
    assert_eq!(wrap_non_whitespace("a", " < ", " > "), " < a > ");
    assert_eq!(wrap_non_whitespace(" a ", "< ", " >"), " < a > ");
}

#[test]
fn one_sided_calls_ignore_the_other_side() {
    // No trailing whitespace in the input: the prefix call leaves the tail alone.
    assert_eq!(
        prefix_non_whitespace("\n \nemboldened \nmatthew", "**"),
        "\n \n**emboldened \nmatthew"
    );
    // No leading whitespace in the input: the suffix call leaves the head alone.
    assert_eq!(
        suffix_non_whitespace("emboldened \nmatthew\n \n", "**"),
        "emboldened \nmatthew**\n \n"
    );
}
