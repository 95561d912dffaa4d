use spamvoid::event::{AdmissionReply, AdmissionRequest, AdmitError, Decision, Event, Tag};
use spamvoid::pipeline::{Admission, Answer, Check, Step, MAX_STORED_KIND};
use spamvoid::preview::content_preview;
use spamvoid::settings::Database;

struct Lists {
    kinds: Vec<i64>,
    authors: Vec<String>,
    patterns: Vec<String>,
    down: bool,
}

fn empty_lists() -> Lists {
    Lists { kinds: vec![], authors: vec![], patterns: vec![], down: false }
}

fn answer_of(lists: &Lists, adm: &Admission, c: Check) -> Answer {
    if lists.down {
        return Answer::Unavailable;
    }
    let hit = match c {
        Check::Kind(k) => lists.kinds.contains(&k),
        Check::Author => lists.authors.iter().any(|a| *a == adm.author),
        Check::Content => lists.patterns.iter().any(|p| adm.content.contains(p.as_str())),
    };
    if hit {
        Answer::Listed
    } else {
        Answer::NotListed
    }
}

/// Runs one admission against in-memory lists; returns the reply and the
/// lookups made.
fn run(
    lists: &Lists,
    req: &AdmissionRequest,
    filter_kinds: bool,
) -> (Result<AdmissionReply, AdmitError>, Vec<Check>) {
    let mut made = vec![];
    let mut adm = match Admission::begin(req, filter_kinds) {
        Ok(a) => a,
        Err(e) => return (Err(e), made),
    };
    let mut step = adm.step();
    loop {
        match step {
            Step::Finish(d) => return (Ok(AdmissionReply::for_decision(d)), made),
            Step::Lookup(c) => {
                made.push(c);
                let ans = answer_of(lists, &adm, c);
                match adm.answer(ans) {
                    Ok(s) => step = s,
                    Err(e) => return (Err(e), made),
                }
            }
        }
    }
}

fn key_aa() -> Vec<u8> {
    vec![0xaa; 32]
}

fn hex_aa() -> String {
    "aa".repeat(32)
}

fn request(kind: u64, pubkey: Vec<u8>, content: &str, auth: Option<Vec<u8>>) -> AdmissionRequest {
    AdmissionRequest {
        event: Some(Event {
            kind,
            pubkey,
            content: content.to_string(),
            tags: vec![Tag { values: vec!["p".to_string(), "x".to_string()] }],
        }),
        origin: Some("ws1".to_string()),
        auth_pubkey: auth,
    }
}

#[test]
fn empty_lists_permit_with_ok() {
    let req = request(1, key_aa(), "hello", None);
    let (r, made) = run(&empty_lists(), &req, true);
    let reply = r.unwrap();
    assert_eq!(reply.decision, Decision::Permit);
    assert_eq!(reply.message.as_deref(), Some("Ok"));
    assert_eq!(made, vec![Check::Kind(1), Check::Author, Check::Content]);
}

#[test]
fn listed_author_denied_with_generic_message() {
    let mut lists = empty_lists();
    lists.authors.push(hex_aa());
    let req = request(1, key_aa(), "hello", None);
    let (r, made) = run(&lists, &req, true);
    let reply = r.unwrap();
    assert_eq!(reply.decision, Decision::Deny);
    assert_eq!(reply.message.as_deref(), Some("Event denied"));
    assert_eq!(made, vec![Check::Kind(1), Check::Author]);
}

#[test]
fn unlisted_event_permitted_among_other_entries() {
    let mut lists = empty_lists();
    lists.kinds.push(4);
    lists.authors.push("bb".repeat(32));
    lists.patterns.push("spam".to_string());
    let req = request(1, key_aa(), "hello there", None);
    let (r, _) = run(&lists, &req, true);
    assert_eq!(r.unwrap().decision, Decision::Permit);
}

#[test]
fn listed_author_denied_regardless_of_content_and_kind() {
    let mut lists = empty_lists();
    lists.authors.push(hex_aa());
    lists.patterns.push("buy".to_string());
    let req = request(7, key_aa(), "buy now", None);
    let (r, made) = run(&lists, &req, false);
    assert_eq!(r.unwrap().decision, Decision::Deny);
    assert_eq!(made, vec![Check::Author]);
}

#[test]
fn kind_check_fires_first() {
    let mut lists = empty_lists();
    lists.kinds.push(0);
    lists.authors.push(hex_aa());
    let req = request(0, key_aa(), "hello", None);
    let (r, made) = run(&lists, &req, true);
    assert_eq!(r.unwrap().decision, Decision::Deny);
    assert_eq!(made, vec![Check::Kind(0)]);
}

#[test]
fn kind_filtering_off_skips_kind_lookup() {
    let mut lists = empty_lists();
    lists.kinds.push(1);
    let req = request(1, key_aa(), "hello", None);
    let (r, made) = run(&lists, &req, false);
    assert_eq!(r.unwrap().decision, Decision::Permit);
    assert_eq!(made, vec![Check::Author, Check::Content]);
}

#[test]
fn kind_beyond_store_range_is_not_looked_up() {
    let req = request(MAX_STORED_KIND + 1, key_aa(), "hello", None);
    let (r, made) = run(&empty_lists(), &req, true);
    assert_eq!(r.unwrap().decision, Decision::Permit);
    assert_eq!(made, vec![Check::Author, Check::Content]);
    let req = request(MAX_STORED_KIND, key_aa(), "hello", None);
    let (_, made) = run(&empty_lists(), &req, true);
    assert_eq!(made[0], Check::Kind(i64::MAX));
}

#[test]
fn content_substring_denied() {
    let mut lists = empty_lists();
    lists.patterns.push("cheap".to_string());
    let req = request(1, key_aa(), "get cheap coins", None);
    let (r, made) = run(&lists, &req, true);
    assert_eq!(r.unwrap().decision, Decision::Deny);
    assert_eq!(made.len(), 3);
}

#[test]
fn empty_content_never_matches_pattern() {
    let mut lists = empty_lists();
    lists.patterns.push("x".to_string());
    let req = request(1, key_aa(), "", None);
    let (r, _) = run(&lists, &req, true);
    assert_eq!(r.unwrap().decision, Decision::Permit);
}

#[test]
fn authenticated_author_takes_precedence() {
    let mut lists = empty_lists();
    lists.authors.push(hex_aa());
    let req = request(1, vec![0xbb; 32], "hello", Some(key_aa()));
    let adm = Admission::begin(&req, true).ok().unwrap();
    assert_eq!(adm.author, hex_aa());
    let (r, _) = run(&lists, &req, true);
    assert_eq!(r.unwrap().decision, Decision::Deny);
}

#[test]
fn event_key_used_without_authenticated_author() {
    let req = request(1, vec![0x01, 0xab, 0xf0], "hello", None);
    let adm = Admission::begin(&req, true).ok().unwrap();
    assert_eq!(adm.author, "01abf0");
    assert_eq!(adm.content, "hello");
    assert_eq!(adm.kind, 1);
    assert_eq!(adm.passed, 0);
}

#[test]
fn missing_event_is_invalid_request() {
    let req = AdmissionRequest { event: None, origin: Some("ws1".to_string()), auth_pubkey: None };
    let (r, made) = run(&empty_lists(), &req, true);
    assert_eq!(r.err(), Some(AdmitError::InvalidRequest));
    assert!(made.is_empty());
}

#[test]
fn store_down_is_an_error_never_a_decision() {
    let mut lists = empty_lists();
    lists.down = true;
    let req = request(1, key_aa(), "hello", None);
    let (r, made) = run(&lists, &req, true);
    assert_eq!(r.err(), Some(AdmitError::StoreUnavailable));
    assert_eq!(made.len(), 1);
}

#[test]
fn store_failure_on_later_check_keeps_state() {
    let req = request(1, key_aa(), "hello", None);
    let mut adm = Admission::begin(&req, true).ok().unwrap();
    assert_eq!(adm.answer(Answer::NotListed).ok(), Some(Step::Lookup(Check::Author)));
    assert_eq!(adm.answer(Answer::Unavailable).err(), Some(AdmitError::StoreUnavailable));
    assert_eq!(adm.passed, 1);
    assert_eq!(adm.step(), Step::Lookup(Check::Author));
    assert_eq!(adm.answer(Answer::NotListed).ok(), Some(Step::Lookup(Check::Content)));
    assert_eq!(adm.answer(Answer::NotListed).ok(), Some(Step::Finish(Decision::Permit)));
}

#[test]
fn preview_cuts_at_forty_characters() {
    let long = "é".repeat(50);
    let p = content_preview(&long);
    assert_eq!(p.chars().count(), 40);
    assert_eq!(p, "é".repeat(40));
    assert_eq!(content_preview("short"), "short");
    assert_eq!(content_preview(""), "");
    let mixed = format!("{}日本語", "a".repeat(38));
    assert_eq!(content_preview(&mixed), format!("{}日本", "a".repeat(38)));
}

#[test]
fn connection_string_lists_fields() {
    let db = Database {
        host: "db.local".to_string(),
        port: "5432".to_string(),
        user: "relay".to_string(),
        password: "pw".to_string(),
        database_name: "spam".to_string(),
    };
    assert_eq!(db.connection_string(), "host=db.local user=relay password=pw dbname=spam");
}

#[test]
fn reply_messages() {
    let p = AdmissionReply::for_decision(Decision::Permit);
    assert_eq!(p.message.as_deref(), Some("Ok"));
    let d = AdmissionReply::for_decision(Decision::Deny);
    assert_eq!(d.decision, Decision::Deny);
    assert_eq!(d.message.as_deref(), Some("Event denied"));
}
