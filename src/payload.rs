//! Texts the engines publish: progress and status notifications, and the
//! ids of new snapshots.
//!
//! Notification payloads are one-line JSON objects; quotes inside free text
//! (table names, error messages) are escaped with a backslash.

use vstd::prelude::*;

use crate::fingerprint::{hex_digit, hex_digits, hex_text};
use crate::progress::FULL_PERCENT;

verus! {

/// Decimal digits of a natural number, without leading zeros.
pub open spec fn decimal_text(n: nat) -> Seq<char>
    decreases n,
{
    if n < 10 {
        seq![hex_digits()[n as int]]
    } else {
        decimal_text(n / 10) + seq![hex_digits()[(n % 10) as int]]
    }
}

/// Decimal text of an integer, with a leading `-` when negative.
pub open spec fn signed_text(n: int) -> Seq<char> {
    if n < 0 {
        seq!['-'] + decimal_text((-n) as nat)
    } else {
        decimal_text(n as nat)
    }
}

/// A text with each `"` preceded by a backslash.
pub open spec fn escaped(s: Seq<char>) -> Seq<char>
    decreases s.len(),
{
    if s.len() == 0 {
        Seq::empty()
    } else if s.last() == '"' {
        escaped(s.drop_last()) + seq!['\\', '"']
    } else {
        escaped(s.drop_last()).push(s.last())
    }
}

/// A share in hundredths of a percent as a percentage with one decimal,
/// rounded half up (`2505` reads `25.1`).
pub open spec fn percent_text(hundredths: nat) -> Seq<char> {
    let tenths = (hundredths + 5) / 10;
    decimal_text(tenths / 10) + "."@ + decimal_text(tenths % 10)
}

/// Writes a natural number in decimal.
pub fn decimal(n: u64) -> (r: String)
    ensures
        r@ == decimal_text(n as nat),
    decreases n,
{
    if n < 10 {
        String::from_str(hex_digit(n as u8))
    } else {
        let mut s = decimal(n / 10);
        s.append(hex_digit((n % 10) as u8));
        s
    }
}

/// Writes an integer in decimal.
pub fn signed_decimal(n: i64) -> (r: String)
    ensures
        r@ == signed_text(n as int),
{
    if n < 0 {
        let magnitude: u64 = (0i128 - n as i128) as u64;
        proof {
            reveal_strlit("-");
        }
        let s = String::from_str("-").concat(decimal(magnitude).as_str());
        assert(s@ =~= signed_text(n as int));
        s
    } else {
        decimal(n as u64)
    }
}

/// Escapes the quotes of a text.
pub fn escape_quotes(s: &str) -> (r: String)
    ensures
        r@ == escaped(s@),
{
    proof {
        reveal_strlit("\\\"");
        assert("\\\""@ =~= seq!['\\', '"']);
    }
    let n = s.unicode_len();
    let mut out = String::new();
    let mut i: usize = 0;
    while i < n
        invariant
            n == s@.len(),
            0 <= i <= n,
            out@ == escaped(s@.subrange(0, i as int)),
            "\\\""@ == seq!['\\', '"'],
        decreases n - i,
    {
        assert(s@.subrange(0, i + 1).drop_last() =~= s@.subrange(0, i as int));
        let c = s.get_char(i);
        if c == '"' {
            out.append("\\\"");
        } else {
            let one = s.substring_char(i, i + 1);
            assert(one@ =~= seq![c]);
            out.append(one);
        }
        i = i + 1;
    }
    assert(s@.subrange(0, n as int) =~= s@);
    out
}

/// Writes a share in hundredths of a percent with one decimal.
pub fn percent_decimal(hundredths: u32) -> (r: String)
    requires
        hundredths <= FULL_PERCENT,
    ensures
        r@ == percent_text(hundredths as nat),
{
    let tenths: u32 = (hundredths + 5) / 10;
    let mut s = decimal((tenths / 10) as u64);
    s.append(".");
    s.append(decimal((tenths % 10) as u64).as_str());
    s
}

/// The payload announcing an operation's status, with the error when one
/// is given.
pub open spec fn status_payload_text(
    op: Seq<char>,
    id: Seq<char>,
    status: Seq<char>,
    error: Option<Seq<char>>,
) -> Seq<char> {
    "{\"op\":\""@ + op + "\",\"id\":\""@ + id + "\",\"status\":\""@ + status + match error {
        Option::Some(e) => "\",\"error\":\""@ + escaped(e) + "\"}"@,
        Option::None => "\"}"@,
    }
}

/// Builds a status payload.
pub fn status_payload(op: &str, id: &str, status: &str, error: Option<&str>) -> (r: String)
    ensures
        r@ == status_payload_text(
            op@,
            id@,
            status@,
            match error {
                Some(e) => Some(e@),
                None => None,
            },
        ),
{
    let mut s = String::from_str("{\"op\":\"");
    s.append(op);
    s.append("\",\"id\":\"");
    s.append(id);
    s.append("\",\"status\":\"");
    s.append(status);
    match error {
        Some(e) => {
            s.append("\",\"error\":\"");
            s.append(escape_quotes(e).as_str());
            s.append("\"}");
        },
        None => {
            s.append("\"}");
        },
    }
    s
}

/// Opening of a progress payload, up to the counters of tables.
pub open spec fn progress_head_text(
    op: Seq<char>,
    id: Seq<char>,
    phase: Seq<char>,
    percent_hundredths: nat,
    tables_completed: nat,
    tables_total: nat,
) -> Seq<char> {
    "{\"op\":\""@ + op + "\",\"id\":\""@ + id + "\",\"phase\":\""@ + phase + "\",\"percent\":"@
        + percent_text(percent_hundredths) + ",\"tables_completed\":"@ + decimal_text(tables_completed)
        + ",\"tables_total\":"@ + decimal_text(tables_total) + ","@
}

/// The table member of a progress payload, when a table is named.
pub open spec fn table_member_text(current_table: Option<Seq<char>>) -> Seq<char> {
    match current_table {
        Option::Some(t) => "\"table\":\""@ + escaped(t) + "\","@,
        Option::None => Seq::empty(),
    }
}

/// The estimate member of a progress payload, when one is known.
pub open spec fn eta_member_text(eta_seconds: Option<int>) -> Seq<char> {
    match eta_seconds {
        Option::Some(e) => ",\"eta\":"@ + signed_text(e),
        Option::None => Seq::empty(),
    }
}

/// The error member of a progress payload, when one is given.
pub open spec fn error_member_text(error: Option<Seq<char>>) -> Seq<char> {
    match error {
        Option::Some(e) => ",\"error\":\""@ + escaped(e) + "\""@,
        Option::None => Seq::empty(),
    }
}

/// The payload describing the progress of an operation.
pub open spec fn progress_payload_text(
    op: Seq<char>,
    id: Seq<char>,
    phase: Seq<char>,
    percent_hundredths: nat,
    tables_completed: nat,
    tables_total: nat,
    current_table: Option<Seq<char>>,
    bytes_processed: nat,
    eta_seconds: Option<int>,
    error: Option<Seq<char>>,
) -> Seq<char> {
    progress_head_text(op, id, phase, percent_hundredths, tables_completed, tables_total)
        + table_member_text(current_table) + "\"bytes\":"@ + decimal_text(bytes_processed)
        + eta_member_text(eta_seconds) + error_member_text(error) + "}"@
}

fn progress_head(
    op: &str,
    id: &str,
    phase: &str,
    percent_hundredths: u32,
    tables_completed: u32,
    tables_total: u32,
) -> (r: String)
    requires
        percent_hundredths <= FULL_PERCENT,
    ensures
        r@ == progress_head_text(
            op@,
            id@,
            phase@,
            percent_hundredths as nat,
            tables_completed as nat,
            tables_total as nat,
        ),
{
    let mut s = String::from_str("{\"op\":\"");
    s.append(op);
    s.append("\",\"id\":\"");
    s.append(id);
    s.append("\",\"phase\":\"");
    s.append(phase);
    s.append("\",\"percent\":");
    s.append(percent_decimal(percent_hundredths).as_str());
    s.append(",\"tables_completed\":");
    s.append(decimal(tables_completed as u64).as_str());
    s.append(",\"tables_total\":");
    s.append(decimal(tables_total as u64).as_str());
    s.append(",");
    s
}

fn table_member(current_table: Option<&str>) -> (r: String)
    ensures
        r@ == table_member_text(
            match current_table {
                Some(t) => Some(t@),
                None => None,
            },
        ),
{
    match current_table {
        Some(t) => {
            let mut s = String::from_str("\"table\":\"");
            s.append(escape_quotes(t).as_str());
            s.append("\",");
            s
        },
        None => String::new(),
    }
}

fn eta_member(eta_seconds: Option<i32>) -> (r: String)
    ensures
        r@ == eta_member_text(
            match eta_seconds {
                Some(e) => Some(e as int),
                None => None,
            },
        ),
{
    match eta_seconds {
        Some(e) => String::from_str(",\"eta\":").concat(signed_decimal(e as i64).as_str()),
        None => String::new(),
    }
}

fn error_member(error: Option<&str>) -> (r: String)
    ensures
        r@ == error_member_text(
            match error {
                Some(e) => Some(e@),
                None => None,
            },
        ),
{
    match error {
        Some(e) => {
            let mut s = String::from_str(",\"error\":\"");
            s.append(escape_quotes(e).as_str());
            s.append("\"");
            s
        },
        None => String::new(),
    }
}

/// Builds a progress payload.
pub fn progress_payload(
    op: &str,
    id: &str,
    phase: &str,
    percent_hundredths: u32,
    tables_completed: u32,
    tables_total: u32,
    current_table: Option<&str>,
    bytes_processed: u64,
    eta_seconds: Option<i32>,
    error: Option<&str>,
) -> (r: String)
    requires
        percent_hundredths <= FULL_PERCENT,
    ensures
        r@ == progress_payload_text(
            op@,
            id@,
            phase@,
            percent_hundredths as nat,
            tables_completed as nat,
            tables_total as nat,
            match current_table {
                Some(t) => Some(t@),
                None => None,
            },
            bytes_processed as nat,
            match eta_seconds {
                Some(e) => Some(e as int),
                None => None,
            },
            match error {
                Some(e) => Some(e@),
                None => None,
            },
        ),
{
    let mut s = progress_head(op, id, phase, percent_hundredths, tables_completed, tables_total);
    s.append(table_member(current_table).as_str());
    s.append("\"bytes\":");
    s.append(decimal(bytes_processed).as_str());
    s.append(eta_member(eta_seconds).as_str());
    s.append(error_member(error).as_str());
    s.append("}");
    s
}

/// The four bytes of a 32-bit value, most significant first.
pub open spec fn be_bytes(v: u32) -> Seq<u8> {
    seq![
        (v / 0x100_0000) as u8,
        ((v / 0x1_0000) % 0x100) as u8,
        ((v / 0x100) % 0x100) as u8,
        (v % 0x100) as u8,
    ]
}

/// The id of a snapshot started at `secs` with the given salt:
/// `snap_<secs>_<salt as eight hex digits>`.
pub open spec fn snapshot_id_text(secs: nat, salt: u32) -> Seq<char> {
    "snap_"@ + decimal_text(secs) + "_"@ + hex_text(be_bytes(salt))
}

/// Builds the id of a new snapshot.
pub fn snapshot_id(secs: u64, salt: u32) -> (r: String)
    ensures
        r@ == snapshot_id_text(secs as nat, salt),
{
    let bytes: Vec<u8> = vec![
        (salt / 0x100_0000) as u8,
        ((salt / 0x1_0000) % 0x100) as u8,
        ((salt / 0x100) % 0x100) as u8,
        (salt % 0x100) as u8,
    ];
    assert(bytes@ =~= be_bytes(salt));
    let mut s = String::from_str("snap_");
    s.append(decimal(secs).as_str());
    s.append("_");
    s.append(crate::fingerprint::hex_encode(&bytes).as_str());
    s
}

/// Spreads the sub-second part of a clock reading over 32 bits
/// (multiplicative hashing), to tell apart snapshots started in one second.
pub fn snapshot_salt(subsec_nanos: u32) -> (r: u32)
    ensures
        r as nat == (subsec_nanos as nat * 2654435761) % 0x1_0000_0000,
{
    subsec_nanos.wrapping_mul(2654435761)
}

} // verus!
