use windswept::backup::{backup_file_name, classify_text, new_backup_file_name, TextKind};
use windswept::document::DocumentStore;
use windswept::heartbeat::{Heartbeat, Tick, CLIENT_TIMEOUT_MS, HEARTBEAT_INTERVAL_MS};
use windswept::registry::Registry;
use windswept::session::{Action, Frame, Phase, Session};

fn text_of(a: Action) -> (String, bool) {
    match a {
        Action::Update(u) => (u, false),
        Action::Backup(p) => (p, true),
        other => panic!("unexpected action {:?}", other),
    }
}

#[test]
fn two_clients_share_updates() {
    let mut doc = DocumentStore::new(String::new());
    let mut reg: Registry<&str> = Registry::new();

    let mut a = Session::new(1, 0);
    let pushed = a.start(&mut reg, "A", &doc);
    assert_eq!(pushed, "");
    assert_eq!(a.phase, Phase::Active);

    let (u, is_backup) = text_of(a.on_frame(Frame::Text("{\"tasks\":[]}".to_string()), 10));
    assert!(!is_backup);
    doc.replace(u.clone());
    assert!(a.relay_targets(&reg).is_empty());
    assert_eq!(doc.read(), "{\"tasks\":[]}");

    let mut b = Session::new(2, 20);
    let pushed = b.start(&mut reg, "B", &doc);
    assert_eq!(pushed, "{\"tasks\":[]}");

    let (u, is_backup) =
        text_of(b.on_frame(Frame::Text("{\"tasks\":[{\"id\":1}]}".to_string()), 30));
    assert!(!is_backup);
    let targets: Vec<&str> = b.commit_update(&mut doc, &reg, u, true).into_iter().map(|h| *h).collect();
    assert_eq!(targets, vec!["A"]);
    assert_eq!(doc.read(), "{\"tasks\":[{\"id\":1}]}");
}

#[test]
fn backup_marker_leaves_document_alone() {
    let doc = DocumentStore::new("{\"tasks\":[1]}".to_string());
    let mut reg: Registry<u8> = Registry::new();
    let mut s = Session::new(7, 0);
    s.start(&mut reg, 0, &doc);
    let (p, is_backup) = text_of(s.on_frame(Frame::Text("~!~{\"tasks\":[]}".to_string()), 1));
    assert!(is_backup);
    assert_eq!(p, "{\"tasks\":[]}");
    assert_eq!(doc.read(), "{\"tasks\":[1]}");
    assert_eq!(s.phase, Phase::Active);
}

#[test]
fn classify_marker_edges() {
    assert_eq!(classify_text("~!~".to_string()), TextKind::Backup(String::new()));
    assert_eq!(classify_text("~!~é~".to_string()), TextKind::Backup("é~".to_string()));
    assert_eq!(classify_text("~!".to_string()), TextKind::Update("~!".to_string()));
    assert_eq!(classify_text("x~!~a".to_string()), TextKind::Update("x~!~a".to_string()));
    assert_eq!(classify_text(String::new()), TextKind::Update(String::new()));
    assert_eq!(classify_text("é!~".to_string()), TextKind::Update("é!~".to_string()));
}

#[test]
fn binary_is_echoed_to_sender_only() {
    let mut s = Session::new(3, 0);
    match s.on_frame(Frame::Binary(vec![1, 2, 3]), 5) {
        Action::Echo(b) => assert_eq!(b, vec![1, 2, 3]),
        other => panic!("unexpected action {:?}", other),
    }
    assert_eq!(s.heartbeat.last_beat_ms, 0);
}

#[test]
fn ping_and_pong_refresh_heartbeat() {
    let mut s = Session::new(3, 0);
    match s.on_frame(Frame::Ping(vec![9]), 4000) {
        Action::Pong(p) => assert_eq!(p, vec![9]),
        other => panic!("unexpected action {:?}", other),
    }
    assert_eq!(s.heartbeat.last_beat_ms, 4000);
    assert!(matches!(s.on_frame(Frame::Pong(vec![]), 6000), Action::Idle));
    assert_eq!(s.heartbeat.last_beat_ms, 6000);
}

#[test]
fn close_and_malformed_stop_the_session() {
    let mut s = Session::new(3, 0);
    assert!(matches!(s.on_frame(Frame::Close, 1), Action::Stop));
    assert_eq!(s.phase, Phase::Stopped);
    let mut t = Session::new(4, 0);
    assert!(matches!(t.on_frame(Frame::Malformed, 1), Action::Stop));
    assert_eq!(t.phase, Phase::Stopped);
}

#[test]
fn heartbeat_times_out_after_ten_seconds() {
    assert_eq!(HEARTBEAT_INTERVAL_MS, 5000);
    assert_eq!(CLIENT_TIMEOUT_MS, 10000);
    let mut hb = Heartbeat::new(1000);
    assert_eq!(hb.tick(6000), Tick::SendPing);
    assert_eq!(hb.tick(11000), Tick::SendPing);
    assert_eq!(hb.tick(11001), Tick::TimedOut);
    assert_eq!(hb.tick(500), Tick::SendPing);
    hb.refresh(11000);
    assert_eq!(hb.tick(16000), Tick::SendPing);
}

#[test]
fn silent_session_is_stopped_and_deregistered() {
    let doc = DocumentStore::new(String::new());
    let mut reg: Registry<u8> = Registry::new();
    let mut s = Session::new(5, 0);
    s.start(&mut reg, 5, &doc);
    assert_eq!(s.on_tick(5000), Tick::SendPing);
    assert_eq!(s.on_tick(10000), Tick::SendPing);
    assert_eq!(s.phase, Phase::Active);
    assert_eq!(s.on_tick(15000), Tick::TimedOut);
    assert_eq!(s.phase, Phase::Stopped);
    s.stop(&mut reg);
    assert!(!reg.contains(5));
    assert_eq!(reg.len(), 0);
}

#[test]
fn broadcast_skips_sender_and_reaches_all_others() {
    let mut reg: Registry<char> = Registry::new();
    reg.register(1, 'a');
    reg.register(2, 'b');
    reg.register(3, 'c');
    reg.register(2, 'z');
    assert_eq!(reg.len(), 3);
    let r: Vec<char> = reg.recipients(2).into_iter().copied().collect();
    assert_eq!(r, vec!['a', 'c']);
    let r: Vec<char> = reg.recipients(9).into_iter().copied().collect();
    assert_eq!(r, vec!['a', 'b', 'c']);
    reg.deregister(1);
    reg.deregister(1);
    assert!(!reg.contains(1));
    assert!(reg.contains(2));
    let r: Vec<char> = reg.recipients(2).into_iter().copied().collect();
    assert_eq!(r, vec!['c']);
}

#[test]
fn stopped_session_relays_nothing() {
    let doc = DocumentStore::new(String::new());
    let mut reg: Registry<u8> = Registry::new();
    reg.register(10, 10);
    let mut s = Session::new(5, 0);
    assert!(s.relay_targets(&reg).is_empty());
    s.start(&mut reg, 5, &doc);
    assert_eq!(s.relay_targets(&reg).len(), 1);
    s.stop(&mut reg);
    assert!(s.relay_targets(&reg).is_empty());
    assert!(reg.contains(10));
}

#[test]
fn document_replace_is_whole() {
    let mut doc = DocumentStore::new("old".to_string());
    doc.replace("a".to_string());
    doc.replace("bc".to_string());
    assert_eq!(doc.read(), "bc");
    doc.replace(String::new());
    assert_eq!(doc.read(), "");
}

#[test]
fn backup_names() {
    assert_eq!(
        backup_file_name("2020-01-02T03:04:05+00:00"),
        "backup-2020-01-02T03:04:05+00:00.json"
    );
    let n = new_backup_file_name();
    assert!(n.starts_with("backup-"));
    assert!(n.ends_with(".json"));
    assert!(n.len() > "backup-.json".len() + 18);
    assert!(n.contains('T'));
    let stamp = &n["backup-".len()..n.len() - ".json".len()];
    assert!(stamp.len() >= 25);
    assert!(stamp.chars().all(|c| c.is_ascii_digit() || "-:T.+".contains(c)));
}

#[test]
fn failed_write_keeps_document_and_relays_nothing() {
    let mut doc = DocumentStore::new("before".to_string());
    let mut reg: Registry<u8> = Registry::new();
    reg.register(10, 10);
    let mut s = Session::new(5, 0);
    s.start(&mut reg, 5, &doc);
    assert!(s.commit_update(&mut doc, &reg, "after".to_string(), false).is_empty());
    assert_eq!(doc.read(), "before");
    let r: Vec<u8> = s.commit_update(&mut doc, &reg, "after".to_string(), true).into_iter().copied().collect();
    assert_eq!(r, vec![10]);
    assert_eq!(doc.read(), "after");
}

#[test]
fn stopped_session_only_asks_to_close() {
    let doc = DocumentStore::new(String::new());
    let mut reg: Registry<u8> = Registry::new();
    let mut s = Session::new(5, 0);
    s.start(&mut reg, 5, &doc);
    s.stop(&mut reg);
    assert!(matches!(s.on_frame(Frame::Text("x".to_string()), 1), Action::Stop));
    assert!(matches!(s.on_frame(Frame::Ping(vec![1]), 2), Action::Stop));
    assert!(matches!(s.on_frame(Frame::Binary(vec![1]), 3), Action::Stop));
    assert_eq!(s.heartbeat.last_beat_ms, 0);
    assert_eq!(s.on_tick(4), Tick::TimedOut);
    assert_eq!(s.phase, Phase::Stopped);
}

#[test]
fn start_stores_the_given_handle() {
    let doc = DocumentStore::new(String::new());
    let mut reg: Registry<char> = Registry::new();
    let mut a = Session::new(1, 0);
    let mut b = Session::new(2, 0);
    a.start(&mut reg, 'a', &doc);
    b.start(&mut reg, 'b', &doc);
    let r: Vec<char> = b.relay_targets(&reg).into_iter().copied().collect();
    assert_eq!(r, vec!['a']);
    let r: Vec<char> = a.relay_targets(&reg).into_iter().copied().collect();
    assert_eq!(r, vec!['b']);
}
