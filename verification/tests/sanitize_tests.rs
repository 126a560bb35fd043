use net_diagram::sanitize::sanitize;

#[test]
fn address_like_text_passes_through() {
    assert_eq!(sanitize("10.0.0.0/24").unwrap(), "10.0.0.0/24");
    assert_eq!(sanitize("10.0.0.1").unwrap(), "10.0.0.1");
    assert_eq!(sanitize("").unwrap(), "");
}

#[test]
fn script_element_is_removed() {
    assert_eq!(sanitize("<script>alert(1)</script>").unwrap(), "");
}

#[test]
fn tags_are_stripped_and_text_kept() {
    assert_eq!(sanitize("<b>bold</b>").unwrap(), "bold");
}

#[test]
fn ampersand_is_escaped() {
    assert_eq!(sanitize("a & b").unwrap(), "a &amp; b");
}

#[test]
fn sanitizer_accepts_every_input() {
    let cases = [
        "",
        "plain",
        "<",
        ">",
        "&",
        "</",
        "<!DOCTYPE html>",
        "<!-- comment -->",
        "<<<>>>",
        "a\u{00A0}b",
        "\u{0000}",
        "crab \u{1F980} accent \u{00E9}",
    ];
    for raw in cases {
        assert!(sanitize(raw).is_ok(), "rejected {:?}", raw);
    }
}

#[test]
fn angle_brackets_never_survive() {
    let cases = [
        "<script>alert(1)</script>",
        "<img src=x onerror=alert(1)>",
        "a < b > c",
        "<<nested>>",
        "&lt;kept&gt;",
    ];
    for raw in cases {
        let clean = sanitize(raw).unwrap();
        assert!(!clean.contains('<'), "raw {:?} gave {:?}", raw, clean);
        assert!(!clean.contains('>'), "raw {:?} gave {:?}", raw, clean);
    }
}
