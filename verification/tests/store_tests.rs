use net_diagram::render::DiagramInputs;
use net_diagram::service::{
    history, history_status, render_only, save, save_status, HistoryOutcome, SaveOutcome,
};
use net_diagram::store::{str_eq, HistoryStore};

fn inputs(n: &str, r: &str, h0: &str, h1: &str, br: &str) -> DiagramInputs {
    DiagramInputs {
        network: n.to_string(),
        router: r.to_string(),
        host0: h0.to_string(),
        host1: h1.to_string(),
        broadcast: br.to_string(),
    }
}

#[test]
fn str_eq_matches_equality() {
    assert!(str_eq("a@b.com", "a@b.com"));
    assert!(!str_eq("a@b.com", "a@b.org"));
    assert!(!str_eq("a", "ab"));
    assert!(str_eq("", ""));
}

#[test]
fn upsert_creates_then_overwrites() {
    let mut s = HistoryStore::new();
    assert_eq!(s.get_last_input("a@b.com"), None);
    s.upsert("a@b.com".to_string(), "first".to_string());
    assert_eq!(s.get_last_input("a@b.com").as_deref(), Some("first"));
    s.upsert("a@b.com".to_string(), "second".to_string());
    assert_eq!(s.get_last_input("a@b.com").as_deref(), Some("second"));
}

#[test]
fn upsert_keeps_other_emails() {
    let mut s = HistoryStore::new();
    s.upsert("a@b.com".to_string(), "doc-a".to_string());
    s.upsert("c@d.com".to_string(), "doc-c".to_string());
    s.upsert("a@b.com".to_string(), "doc-a2".to_string());
    assert_eq!(s.get_last_input("a@b.com").as_deref(), Some("doc-a2"));
    assert_eq!(s.get_last_input("c@d.com").as_deref(), Some("doc-c"));
}

#[test]
fn save_twice_last_writer_wins() {
    let mut s = HistoryStore::new();
    let x = inputs("10.0.0.0/24", "10.0.0.1", "10.0.0.2", "10.0.0.3", "10.0.0.255");
    let y = inputs("192.168.1.0/24", "192.168.1.1", "192.168.1.2", "192.168.1.3", "192.168.1.255");
    save(&mut s, "a@b.com".to_string(), &x).unwrap();
    save(&mut s, "a@b.com".to_string(), &y).unwrap();
    let got = history(&s, "a@b.com").unwrap();
    let expected = render_only(&y).unwrap();
    assert_eq!(got, expected);
    assert!(!got.contains("10.0.0.0/24"));
}

#[test]
fn save_then_history_returns_document_verbatim() {
    let mut s = HistoryStore::new();
    let i = inputs("10.0.0.0/24", "10.0.0.1", "10.0.0.2", "10.0.0.3", "10.0.0.255");
    save(&mut s, "a@b.com".to_string(), &i).unwrap();
    let got = history(&s, "a@b.com").unwrap();
    assert_eq!(got, render_only(&i).unwrap());
}

#[test]
fn history_unknown_email_is_not_found() {
    let mut s = HistoryStore::new();
    let i = inputs("10.0.0.0/24", "10.0.0.1", "10.0.0.2", "10.0.0.3", "10.0.0.255");
    save(&mut s, "a@b.com".to_string(), &i).unwrap();
    assert_eq!(history(&s, "never-seen@x.com"), None);
}

#[test]
fn history_on_fresh_store_is_not_found() {
    let s = HistoryStore::new();
    assert_eq!(history(&s, "a@b.com"), None);
}

#[test]
fn save_creates_a_record_only_for_its_own_email() {
    let mut s = HistoryStore::new();
    assert_eq!(history(&s, "a@b.com"), None);
    let i = inputs("<script>x</script>", "", "", "", "");
    save(&mut s, "a@b.com".to_string(), &i).unwrap();
    assert!(history(&s, "a@b.com").is_some());
    assert_eq!(history(&s, "c@d.com"), None);
}

#[test]
fn status_codes_follow_the_route_table() {
    let ok: Result<String, net_diagram::sanitize::SanitizeError> = Ok("doc".to_string());
    let bad: Result<String, net_diagram::sanitize::SanitizeError> =
        Err(net_diagram::sanitize::SanitizeError);
    assert_eq!(net_diagram::service::render_only_status(&ok), 200);
    assert_eq!(net_diagram::service::render_only_status(&bad), 400);
    assert_eq!(save_status(&SaveOutcome::Saved), 200);
    assert_eq!(save_status(&SaveOutcome::BadInput), 400);
    assert_eq!(save_status(&SaveOutcome::StorageFault), 500);
    assert_eq!(history_status(&HistoryOutcome::Found("doc".to_string())), 200);
    assert_eq!(history_status(&HistoryOutcome::NotFound), 204);
    assert_eq!(history_status(&HistoryOutcome::StorageFault), 500);
}
