use football_analysis::decode::{screen_document, screen_line};
use football_analysis::dedup::DedupSet;
use football_analysis::dispatch::{dispatch, StoreWrite};
use football_analysis::models::{EventType, Rejection};
use football_analysis::partition::partition;
use football_analysis::pipeline::{run_worker, screen_lines, Outcome};
use football_analysis::report::tally;
use football_analysis::validation::is_valid_event;

fn lines(v: &[&str]) -> Vec<String> {
    v.iter().map(|s| s.to_string()).collect()
}

fn run_chunks(all: &[String], workers: usize, claims: &mut DedupSet) -> Vec<Outcome> {
    let mut out = Vec::new();
    for (start, end) in partition(all.len(), workers) {
        let chunk: Vec<String> = all[start..end].to_vec();
        out.extend(run_worker(&screen_lines(&chunk), claims));
    }
    out
}

const REG_U1: &str = r#"{"event_id":1,"event_timestamp":1000,"kind":"registration","payload":{"user_id":"u1","country":"US","device_os":"ios"}}"#;

#[test]
fn single_registration_gives_one_write() {
    let mut claims = DedupSet::new();
    let out = run_worker(&screen_lines(&lines(&[REG_U1])), &mut claims);
    assert_eq!(out.len(), 1);
    match &out[0] {
        Outcome::Persist(StoreWrite::Registration(d, ts)) => {
            assert_eq!(d.user_id, "u1");
            assert_eq!(d.country, "US");
            assert_eq!(d.device_os, "ios");
            assert_eq!(*ts, 1000);
        }
        other => panic!("unexpected outcome {:?}", other),
    }
    assert!(claims.contains(1));
}

#[test]
fn duplicated_line_is_written_once() {
    let mut claims = DedupSet::new();
    let out = run_worker(&screen_lines(&lines(&[REG_U1, REG_U1])), &mut claims);
    let report = tally(&out);
    assert_eq!(report.lines, 2);
    assert_eq!(report.persisted, 1);
    assert_eq!(report.duplicates, 1);
    assert!(matches!(out[1], Outcome::Duplicate(1)));
}

#[test]
fn session_ping_with_empty_payload_fails_validation() {
    let line = r#"{"event_id":2,"event_timestamp":1000,"kind":"sessionping","payload":{}}"#;
    assert!(matches!(screen_line(line), Err(Rejection::Validation)));
    let mut claims = DedupSet::new();
    let out = run_worker(&screen_lines(&lines(&[line])), &mut claims);
    let report = tally(&out);
    assert_eq!(report.validation_failures, 1);
    assert_eq!(report.persisted, 0);
    assert!(!claims.contains(2));
}

#[test]
fn malformed_line_is_a_decode_error_and_the_run_goes_on() {
    let mut claims = DedupSet::new();
    let out = run_worker(&screen_lines(&lines(&["this is {not json", REG_U1])), &mut claims);
    let report = tally(&out);
    assert_eq!(report.decode_errors, 1);
    assert_eq!(report.persisted, 1);
    assert!(matches!(out[0], Outcome::Dropped(Rejection::Decode)));
}

#[test]
fn thousand_lines_over_four_workers() {
    let all: Vec<String> = (0..1000)
        .map(|i| {
            format!(
                r#"{{"event_id":{},"event_timestamp":{},"kind":"session_ping","payload":{{"user_id":"u{}"}}}}"#,
                i,
                1000 + i,
                i % 7
            )
        })
        .collect();
    assert_eq!(partition(all.len(), 4), vec![(0, 250), (250, 500), (500, 750), (750, 1000)]);
    let mut claims = DedupSet::new();
    let out = run_chunks(&all, 4, &mut claims);
    let report = tally(&out);
    assert_eq!(report.lines, 1000);
    assert_eq!(report.persisted, 1000);
    assert_eq!(report.duplicates, 0);
    assert_eq!(report.validation_failures, 0);
}

#[test]
fn claim_is_granted_once() {
    let mut claims = DedupSet::new();
    let results: Vec<bool> = (0..5).map(|_| claims.try_claim(42)).collect();
    assert_eq!(results, vec![true, false, false, false, false]);
    assert!(!claims.try_claim(42));
    assert!(claims.try_claim(43));
}

#[test]
fn validation_requires_every_field_of_the_kind() {
    let cases: Vec<(&str, Vec<&str>)> = vec![
        ("registration", vec!["user_id", "country", "device_os"]),
        ("session_ping", vec!["user_id"]),
        ("match", vec!["match_id", "home_user_id", "away_user_id"]),
    ];
    for (kind, fields) in cases {
        let full: Vec<String> = fields.iter().map(|f| format!(r#""{}":"x""#, f)).collect();
        let line = format!(
            r#"{{"event_id":3,"event_timestamp":5,"kind":"{}","payload":{{{},"extra":1}}}}"#,
            kind,
            full.join(",")
        );
        let e = screen_line(&line).expect("all fields present");
        assert!(is_valid_event(&e));
        for skip in 0..fields.len() {
            let some: Vec<String> = full
                .iter()
                .enumerate()
                .filter(|(i, _)| *i != skip)
                .map(|(_, s)| s.clone())
                .collect();
            let line = format!(
                r#"{{"event_id":3,"event_timestamp":5,"kind":"{}","payload":{{{}}}}}"#,
                kind,
                some.join(",")
            );
            assert!(matches!(screen_line(&line), Err(Rejection::Validation)), "{}", line);
        }
    }
}

#[test]
fn writes_keep_file_order_within_a_chunk() {
    let ls = lines(&[
        r#"{"event_id":10,"event_timestamp":1,"kind":"session_ping","payload":{"user_id":"a"}}"#,
        r#"garbage"#,
        r#"{"event_id":11,"event_timestamp":2,"kind":"session_ping","payload":{"user_id":"b"}}"#,
        r#"{"event_id":12,"event_timestamp":3,"kind":"session_ping","payload":{"user_id":"c"}}"#,
    ]);
    let mut claims = DedupSet::new();
    let out = run_worker(&screen_lines(&ls), &mut claims);
    let users: Vec<String> = out
        .iter()
        .filter_map(|o| match o {
            Outcome::Persist(StoreWrite::SessionPing(p, _)) => Some(p.user_id.clone()),
            _ => None,
        })
        .collect();
    assert_eq!(users, vec!["a", "b", "c"]);
}

#[test]
fn duplicate_across_chunks_is_written_once() {
    let other = r#"{"event_id":1,"event_timestamp":2000,"kind":"match","payload":{"match_id":"m1","home_user_id":"u1","away_user_id":"u2"}}"#;
    let all = lines(&[REG_U1, other]);
    let mut claims = DedupSet::new();
    let out = run_chunks(&all, 2, &mut claims);
    let report = tally(&out);
    assert_eq!(report.persisted, 1);
    assert_eq!(report.duplicates, 1);
}

#[test]
fn rerun_gives_the_same_keyed_write() {
    for _ in 0..2 {
        let mut claims = DedupSet::new();
        let out = run_worker(&screen_lines(&lines(&[REG_U1])), &mut claims);
        match &out[0] {
            Outcome::Persist(StoreWrite::Registration(d, _)) => assert_eq!(d.user_id, "u1"),
            other => panic!("unexpected outcome {:?}", other),
        }
    }
}

#[test]
fn envelope_field_errors_are_decode_errors() {
    let bad = [
        r#"{"event_timestamp":1,"kind":"match","payload":{}}"#,
        r#"{"event_id":1,"kind":"match","payload":{}}"#,
        r#"{"event_id":1,"event_timestamp":1,"payload":{}}"#,
        r#"{"event_id":1,"event_timestamp":1,"kind":"match"}"#,
        r#"{"event_id":1,"event_timestamp":1,"kind":"goal","payload":{}}"#,
        r#"{"event_id":3000000000,"event_timestamp":1,"kind":"match","payload":{}}"#,
        r#"{"event_id":"1","event_timestamp":1,"kind":"match","payload":{}}"#,
        r#"[1,2,3]"#,
    ];
    for b in bad.iter() {
        assert!(matches!(screen_line(b), Err(Rejection::Decode)), "{}", b);
    }
}

#[test]
fn screen_document_reads_the_envelope() {
    let doc: serde_json::Value = serde_json::from_str(
        r#"{"event_id":-5,"event_timestamp":1700000000,"kind":"match","payload":{"match_id":"m","home_user_id":"h","away_user_id":"a"}}"#,
    )
    .unwrap();
    let e = screen_document(&doc).unwrap();
    assert_eq!(e.event_id, -5);
    assert_eq!(e.event_timestamp, 1700000000);
    assert_eq!(e.event_type, EventType::Match);
}

#[test]
fn wrong_field_types_are_payload_shape_errors() {
    let bad = [
        r#"{"event_id":1,"event_timestamp":1,"kind":"registration","payload":{"user_id":5,"country":"US","device_os":"ios"}}"#,
        r#"{"event_id":1,"event_timestamp":1,"kind":"session_ping","payload":{"user_id":"u","session_type":3}}"#,
        r#"{"event_id":1,"event_timestamp":1,"kind":"match","payload":{"match_id":"m","home_user_id":"h","away_user_id":"a","home_goals_scored":"two"}}"#,
        r#"{"event_id":1,"event_timestamp":1,"kind":"match","payload":{"match_id":"m","home_user_id":"h","away_user_id":"a","away_goals_scored":5000000000}}"#,
    ];
    for b in bad.iter() {
        let e = screen_line(b).expect("screens");
        assert!(matches!(dispatch(&e), Err(Rejection::PayloadShape)), "{}", b);
        let mut claims = DedupSet::new();
        let out = run_worker(&vec![Ok(e)], &mut claims);
        assert_eq!(tally(&out).payload_shape_errors, 1);
    }
}

#[test]
fn optional_fields_are_read() {
    let e = screen_line(r#"{"event_id":1,"event_timestamp":9,"kind":"match","payload":{"match_id":"m","home_user_id":"h","away_user_id":"a","home_goals_scored":3,"away_goals_scored":null}}"#).unwrap();
    match dispatch(&e) {
        Ok(StoreWrite::Match(m, ts)) => {
            assert_eq!(m.match_id, "m");
            assert_eq!(m.home_user_id, "h");
            assert_eq!(m.away_user_id, "a");
            assert_eq!(m.home_goals_scored, Some(3));
            assert_eq!(m.away_goals_scored, None);
            assert_eq!(ts, 9);
        }
        other => panic!("unexpected {:?}", other),
    }
    let e = screen_line(r#"{"event_id":2,"event_timestamp":9,"kind":"session_ping","payload":{"user_id":"u","session_type":"ranked"}}"#).unwrap();
    match dispatch(&e) {
        Ok(StoreWrite::SessionPing(p, _)) => {
            assert_eq!(p.user_id, "u");
            assert_eq!(p.session_type.as_deref(), Some("ranked"));
        }
        other => panic!("unexpected {:?}", other),
    }
}

#[test]
fn partition_edges() {
    assert_eq!(partition(0, 4), vec![]);
    assert_eq!(partition(3, 4), vec![(0, 1), (1, 2), (2, 3)]);
    assert_eq!(partition(10, 4), vec![(0, 3), (3, 6), (6, 9), (9, 10)]);
    assert_eq!(partition(5, 1), vec![(0, 5)]);
    assert_eq!(partition(9, 4), vec![(0, 3), (3, 6), (6, 9)]);
}

#[test]
fn report_counts_add_up_to_lines_read() {
    let ls = lines(&[
        REG_U1,
        REG_U1,
        "not json",
        r#"{"event_id":5,"event_timestamp":1,"kind":"match","payload":{"match_id":"m"}}"#,
        r#"{"event_id":6,"event_timestamp":1,"kind":"session_ping","payload":{"user_id":7}}"#,
    ]);
    let mut claims = DedupSet::new();
    let report = tally(&run_worker(&screen_lines(&ls), &mut claims));
    assert_eq!(report.lines, 5);
    assert_eq!(report.persisted, 1);
    assert_eq!(report.duplicates, 1);
    assert_eq!(report.decode_errors, 1);
    assert_eq!(report.validation_failures, 1);
    assert_eq!(report.payload_shape_errors, 1);
}
