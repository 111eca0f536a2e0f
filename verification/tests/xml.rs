use bitter_truth::xml::{escape_xml, sanitize_xml_tag};

#[test]
fn test_escape_xml() {
    assert_eq!(escape_xml("<test>"), "&lt;test&gt;");
    assert_eq!(escape_xml("a & b"), "a &amp; b");
    assert_eq!(escape_xml("\"quoted\""), "&quot;quoted&quot;");
}

#[test]
fn escape_covers_all_five_reserved_characters() {
    assert_eq!(escape_xml("<a & \"b\">"), "&lt;a &amp; &quot;b&quot;&gt;");
    assert_eq!(escape_xml("it's"), "it&apos;s");
    assert_eq!(escape_xml("&<>\"'"), "&amp;&lt;&gt;&quot;&apos;");
}

#[test]
fn escape_keeps_plain_text() {
    assert_eq!(escape_xml(""), "");
    assert_eq!(escape_xml("plain text 123"), "plain text 123");
    assert_eq!(escape_xml("h\u{e9}llo \u{4e16}\u{754c}"), "h\u{e9}llo \u{4e16}\u{754c}");
}

#[test]
fn escape_twice_double_encodes() {
    let once = escape_xml("a & b");
    let twice = escape_xml(&once);
    assert_eq!(once, "a &amp; b");
    assert_eq!(twice, "a &amp;amp; b");
    assert_ne!(once, twice);
}

#[test]
fn escape_distributes_over_concatenation() {
    let a = "x < y";
    let b = " && 'z'";
    let joined = format!("{}{}", a, b);
    assert_eq!(escape_xml(&joined), format!("{}{}", escape_xml(a), escape_xml(b)));
}

#[test]
fn escaped_text_holds_no_markup() {
    let out = escape_xml("<<a href=\"x\">'q'</a>>&");
    assert!(!out.contains('<'));
    assert!(!out.contains('>'));
    assert!(!out.contains('"'));
    assert!(!out.contains('\''));
}

#[test]
fn sanitize_leading_digit() {
    assert_eq!(sanitize_xml_tag("1field"), "_1field");
}

#[test]
fn sanitize_empty_key() {
    assert_eq!(sanitize_xml_tag(""), "field");
}

#[test]
fn sanitize_is_identity_on_valid_names() {
    assert_eq!(sanitize_xml_tag("valid_name"), "valid_name");
    assert_eq!(sanitize_xml_tag("_x"), "_x");
    assert_eq!(sanitize_xml_tag("a-b.c_9"), "a-b.c_9");
    assert_eq!(sanitize_xml_tag("Z"), "Z");
}

#[test]
fn sanitize_replaces_what_cannot_stand_in_a_name() {
    assert_eq!(sanitize_xml_tag("my key"), "my_key");
    assert_eq!(sanitize_xml_tag("a/b:c"), "a_b_c");
    assert_eq!(sanitize_xml_tag("-x"), "_x");
    assert_eq!(sanitize_xml_tag(".x"), "_x");
    assert_eq!(sanitize_xml_tag(" "), "_");
    assert_eq!(sanitize_xml_tag("9"), "_9");
    assert_eq!(sanitize_xml_tag("\u{e9}t\u{e9}"), "_t_");
    assert_eq!(sanitize_xml_tag("<tag>"), "_tag_");
}

#[test]
fn sanitize_twice_is_sanitize_once() {
    for key in ["1field", "", "a b", "-", "ok", "\u{4e16}\u{754c}"] {
        let once = sanitize_xml_tag(key);
        assert_eq!(sanitize_xml_tag(&once), once);
    }
}
