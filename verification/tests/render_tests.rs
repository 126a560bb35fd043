use net_diagram::render::{render, DiagramInputs};
use net_diagram::service::{render_only, render_only_status};

fn inputs(n: &str, r: &str, h0: &str, h1: &str, br: &str) -> DiagramInputs {
    DiagramInputs {
        network: n.to_string(),
        router: r.to_string(),
        host0: h0.to_string(),
        host1: h1.to_string(),
        broadcast: br.to_string(),
    }
}

fn count(s: &str, c: char) -> usize {
    s.chars().filter(|x| *x == c).count()
}

#[test]
fn render_is_deterministic() {
    let a = inputs("10.0.0.0/24", "10.0.0.1", "10.0.0.2", "10.0.0.3", "10.0.0.255");
    let b = inputs("10.0.0.0/24", "10.0.0.1", "10.0.0.2", "10.0.0.3", "10.0.0.255");
    assert_eq!(render(&a), render(&b));
}

#[test]
fn render_only_is_deterministic() {
    let i = inputs("<b>10.0.0.0/24</b>", "r & r", "h0", "h1", "br");
    let first = render_only(&i).unwrap();
    let second = render_only(&i).unwrap();
    assert_eq!(first, second);
}

#[test]
fn render_embeds_all_five_fields() {
    let doc = render(&inputs("NETV", "RTRV", "H0V", "H1V", "BRV"));
    assert!(doc.contains("Network: NETV"));
    assert!(doc.contains("Broadcast: BRV"));
    assert!(doc.contains("RTRV"));
    assert!(doc.contains("H0V"));
    assert!(doc.contains("H1V"));
    assert!(doc.starts_with("\n    <svg"));
    assert!(doc.trim_end().ends_with("</svg>"));
}

#[test]
fn render_only_plain_addresses() {
    let i = inputs("10.0.0.0/24", "10.0.0.1", "10.0.0.2", "10.0.0.3", "10.0.0.255");
    let r = render_only(&i);
    assert_eq!(render_only_status(&r), 200);
    let doc = r.unwrap();
    assert!(doc.contains("10.0.0.0/24"));
    assert!(doc.contains("10.0.0.1"));
    assert!(doc.contains("10.0.0.2"));
    assert!(doc.contains("10.0.0.3"));
    assert!(doc.contains("10.0.0.255"));
    // These fields hold no markup-significant character, so sanitization
    // leaves them as they are and the response is the plain rendering.
    assert_eq!(doc, render(&i));
}

#[test]
fn render_only_neutralizes_injected_tag() {
    let benign = render_only(&inputs("", "10.0.0.1", "10.0.0.2", "10.0.0.3", "10.0.0.255"))
        .unwrap();
    let attacked = render_only(&inputs(
        "<img src=x onerror=alert(1)>",
        "10.0.0.1",
        "10.0.0.2",
        "10.0.0.3",
        "10.0.0.255",
    ));
    assert_eq!(render_only_status(&attacked), 200);
    let doc = attacked.unwrap();
    assert!(!doc.contains("<img"));
    assert!(!doc.contains("onerror"));
    assert_eq!(count(&doc, '<'), count(&benign, '<'));
    assert_eq!(count(&doc, '>'), count(&benign, '>'));
}

#[test]
fn render_only_neutralizes_script() {
    let benign = render_only(&inputs("", "", "", "", "")).unwrap();
    let doc = render_only(&inputs(
        "<script>alert(1)</script>",
        "<script>x</script>",
        "",
        "",
        "",
    ))
    .unwrap();
    assert!(!doc.contains("<script"));
    assert!(!doc.contains("alert(1)"));
    assert_eq!(count(&doc, '<'), count(&benign, '<'));
    assert_eq!(count(&doc, '>'), count(&benign, '>'));
}
