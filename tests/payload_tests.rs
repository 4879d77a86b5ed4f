use steep_repl::payload::{
    decimal, escape_quotes, percent_decimal, progress_payload, signed_decimal, snapshot_id,
    snapshot_salt, status_payload,
};

#[test]
fn decimal_forms() {
    assert_eq!(decimal(0), "0");
    assert_eq!(decimal(7), "7");
    assert_eq!(decimal(1234567890), "1234567890");
    assert_eq!(decimal(u64::MAX), "18446744073709551615");
    assert_eq!(signed_decimal(-42), "-42");
    assert_eq!(signed_decimal(i64::MIN), "-9223372036854775808");
    assert_eq!(signed_decimal(5), "5");
}

#[test]
fn percent_with_one_decimal() {
    assert_eq!(percent_decimal(0), "0.0");
    assert_eq!(percent_decimal(2500), "25.0");
    assert_eq!(percent_decimal(3333), "33.3");
    assert_eq!(percent_decimal(6667), "66.7");
    assert_eq!(percent_decimal(2505), "25.1");
    assert_eq!(percent_decimal(10000), "100.0");
}

#[test]
fn quotes_are_escaped() {
    assert_eq!(escape_quotes("a\"b\""), "a\\\"b\\\"");
    assert_eq!(escape_quotes(""), "");
    assert_eq!(escape_quotes("plain é"), "plain é");
}

#[test]
fn status_payloads() {
    assert_eq!(
        status_payload("snapshot_generate", "snap_1", "running", None),
        r#"{"op":"snapshot_generate","id":"snap_1","status":"running"}"#
    );
    assert_eq!(
        status_payload("bidirectional_merge", "m", "failed", Some("bad \"row\"")),
        r#"{"op":"bidirectional_merge","id":"m","status":"failed","error":"bad \"row\""}"#
    );
}

#[test]
fn progress_payloads() {
    assert_eq!(
        progress_payload("snapshot_apply", "s", "data", 2500, 1, 4, Some("public.users"), 1024, Some(30), None),
        r#"{"op":"snapshot_apply","id":"s","phase":"data","percent":25.0,"tables_completed":1,"tables_total":4,"table":"public.users","bytes":1024,"eta":30}"#
    );
    assert_eq!(
        progress_payload("snapshot_apply", "s", "failed", 10000, 4, 4, None, 0, None, Some("x\"y")),
        r#"{"op":"snapshot_apply","id":"s","phase":"failed","percent":100.0,"tables_completed":4,"tables_total":4,"bytes":0,"error":"x\"y"}"#
    );
}

#[test]
fn snapshot_ids() {
    assert_eq!(snapshot_id(1700000000, 0xdeadbeef), "snap_1700000000_deadbeef");
    assert_eq!(snapshot_id(0, 0x1f), "snap_0_0000001f");
    assert_eq!(snapshot_salt(1), 2654435761);
    assert_eq!(snapshot_salt(2), 2654435761u32.wrapping_mul(2));
    assert_eq!(snapshot_salt(0), 0);
}
