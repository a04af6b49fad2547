use broker_gateway::stamp::{fresh_exec_id, fresh_order_id, FillStamp, TOKEN_LEN};

fn is_token_char(c: char) -> bool {
    c == '_' || c == '-' || c.is_ascii_alphanumeric()
}

#[test]
fn order_id_has_prefix_and_eight_token_characters() {
    for _ in 0..50 {
        let id = fresh_order_id();
        assert_eq!(id.chars().count(), 4 + TOKEN_LEN);
        assert!(id.starts_with("clo_"));
        assert!(id.chars().skip(4).all(is_token_char));
    }
}

#[test]
fn exec_id_has_prefix_and_eight_token_characters() {
    for _ in 0..50 {
        let id = fresh_exec_id();
        assert_eq!(id.chars().count(), 12);
        assert!(id.starts_with("exe_"));
        assert!(id.chars().skip(4).all(is_token_char));
    }
}

#[test]
fn token_length_is_eight() {
    assert_eq!(TOKEN_LEN, 8);
}

#[test]
fn fresh_ids_differ() {
    let a = fresh_order_id();
    let b = fresh_order_id();
    let c = fresh_exec_id();
    assert_ne!(a, b);
    assert_ne!(a[4..], c[4..]);
}

#[test]
fn stamp_holds_a_utc_timestamp_that_chrono_reads_back() {
    let before = chrono::Utc::now();
    let stamp = FillStamp::now();
    let after = chrono::Utc::now();
    assert!(stamp.ts.ends_with("+00:00"));
    let read = chrono::DateTime::parse_from_rfc3339(&stamp.ts).expect("an RFC 3339 timestamp");
    assert_eq!(read.offset().local_minus_utc(), 0);
    assert!(before <= read && read <= after);
    assert!(stamp.cl_ord_id.starts_with("clo_"));
    assert!(stamp.exec_id.starts_with("exe_"));
    assert_eq!(stamp.cl_ord_id.len(), 12);
    assert_eq!(stamp.exec_id.len(), 12);
}
