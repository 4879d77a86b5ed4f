//! Schema fingerprints: a digest over a table's column definitions, used to
//! detect drift between nodes, and the comparison of fingerprint sets and
//! column lists.
//!
//! The digest is SHA-256 over the text `name:type:default:nullable` of each
//! column in ordinal order, joined with `|` (a missing default reads `NULL`,
//! nullability reads `YES` or `NO`), written as lower-case hex.

use vstd::prelude::*;

use crate::text::same_text;

verus! {

/// One column of a table, in ordinal order.
pub struct ColumnDef {
    pub name: String,
    pub data_type: String,
    /// Default expression, if any.
    pub default: Option<String>,
    pub nullable: bool,
}

/// Text that stands for a missing default.
pub open spec fn null_text() -> Seq<char> {
    seq!['N', 'U', 'L', 'L']
}

/// Text of the nullability flag.
pub open spec fn nullable_text(nullable: bool) -> Seq<char> {
    if nullable {
        seq!['Y', 'E', 'S']
    } else {
        seq!['N', 'O']
    }
}

/// Text of a default expression.
pub open spec fn default_text(default: Option<String>) -> Seq<char> {
    match default {
        Option::Some(d) => d@,
        Option::None => null_text(),
    }
}

/// Text of one column.
pub open spec fn column_text(c: ColumnDef) -> Seq<char> {
    c.name@ + seq![':'] + (c.data_type@ + seq![':'] + (default_text(c.default) + seq![':']
        + nullable_text(c.nullable)))
}

/// The text that is digested: the columns' texts joined with `|`.
pub open spec fn descriptor(cols: Seq<ColumnDef>) -> Seq<char>
    decreases cols.len(),
{
    if cols.len() == 0 {
        Seq::empty()
    } else if cols.len() == 1 {
        column_text(cols[0])
    } else {
        descriptor(cols.drop_last()) + seq!['|'] + column_text(cols.last())
    }
}

/// Lower-case hex digits.
pub open spec fn hex_digits() -> Seq<char> {
    seq!['0', '1', '2', '3', '4', '5', '6', '7', '8', '9', 'a', 'b', 'c', 'd', 'e', 'f']
}

/// Two hex digits per byte, high digit first.
pub open spec fn hex_text(bytes: Seq<u8>) -> Seq<char>
    decreases bytes.len(),
{
    if bytes.len() == 0 {
        Seq::empty()
    } else {
        hex_text(bytes.drop_last()) + seq![
            hex_digits()[(bytes.last() / 16) as int],
            hex_digits()[(bytes.last() % 16) as int],
        ]
    }
}

/// SHA-256 of the UTF-8 encoding of a text.
pub uninterp spec fn sha256_of_text(text: Seq<char>) -> Seq<u8>;

/// The fingerprint of a non-empty column list.
pub open spec fn fingerprint_of(cols: Seq<ColumnDef>) -> Seq<char> {
    hex_text(sha256_of_text(descriptor(cols)))
}

/// Relies on `sha2::Sha256::digest` (through the `Digest` trait): the
/// 32-byte SHA-256 digest of the bytes, which depend on the text alone.
#[verifier::external_body]
fn sha256_text(text: &str) -> (r: Vec<u8>)
    ensures
        r@ == sha256_of_text(text@),
        r@.len() == 32,
{
    <sha2::Sha256 as sha2::Digest>::digest(text.as_bytes()).to_vec()
}

/// The hex digit for a value below 16.
pub(crate) fn hex_digit(d: u8) -> (r: &'static str)
    requires
        d < 16,
    ensures
        r@ == seq![hex_digits()[d as int]],
{
    proof {
        reveal_strlit("0");
        reveal_strlit("1");
        reveal_strlit("2");
        reveal_strlit("3");
        reveal_strlit("4");
        reveal_strlit("5");
        reveal_strlit("6");
        reveal_strlit("7");
        reveal_strlit("8");
        reveal_strlit("9");
        reveal_strlit("a");
        reveal_strlit("b");
        reveal_strlit("c");
        reveal_strlit("d");
        reveal_strlit("e");
        reveal_strlit("f");
    }
    let r = match d {
        0 => "0",
        1 => "1",
        2 => "2",
        3 => "3",
        4 => "4",
        5 => "5",
        6 => "6",
        7 => "7",
        8 => "8",
        9 => "9",
        10 => "a",
        11 => "b",
        12 => "c",
        13 => "d",
        14 => "e",
        _ => "f",
    };
    assert(r@ =~= seq![hex_digits()[d as int]]);
    r
}

/// Writes bytes as lower-case hex.
pub fn hex_encode(bytes: &Vec<u8>) -> (r: String)
    ensures
        r@ == hex_text(bytes@),
        r@.len() == 2 * bytes@.len(),
{
    let mut out = String::new();
    let n = bytes.len();
    let mut i: usize = 0;
    while i < n
        invariant
            n == bytes@.len(),
            0 <= i <= n,
            out@ == hex_text(bytes@.subrange(0, i as int)),
            out@.len() == 2 * i,
        decreases n - i,
    {
        assert(bytes@.subrange(0, i + 1).drop_last() =~= bytes@.subrange(0, i as int));
        let b = bytes[i];
        out.append(hex_digit(b / 16));
        out.append(hex_digit(b % 16));
        assert(out@ =~= hex_text(bytes@.subrange(0, i + 1)));
        i = i + 1;
    }
    assert(bytes@.subrange(0, n as int) =~= bytes@);
    out
}

/// Builds the text that the fingerprint digests.
pub fn fingerprint_descriptor(cols: &Vec<ColumnDef>) -> (r: String)
    ensures
        r@ == descriptor(cols@),
{
    let mut out = String::new();
    let n = cols.len();
    let mut i: usize = 0;
    while i < n
        invariant
            n == cols@.len(),
            0 <= i <= n,
            out@ == descriptor(cols@.subrange(0, i as int)),
        decreases n - i,
    {
        proof {
            reveal_strlit(":");
            reveal_strlit("|");
            reveal_strlit("NULL");
            reveal_strlit("YES");
            reveal_strlit("NO");
            assert(":"@ =~= seq![':']);
            assert("|"@ =~= seq!['|']);
            assert("NULL"@ =~= null_text());
            assert("YES"@ =~= nullable_text(true));
            assert("NO"@ =~= nullable_text(false));
        }
        let ghost prefix = out@;
        assert(cols@.subrange(0, i + 1).drop_last() =~= cols@.subrange(0, i as int));
        if i > 0 {
            out.append("|");
        }
        let ghost lead = out@;
        let c = &cols[i];
        out.append(c.name.as_str());
        out.append(":");
        out.append(c.data_type.as_str());
        out.append(":");
        match &c.default {
            Some(d) => out.append(d.as_str()),
            None => out.append("NULL"),
        }
        out.append(":");
        if c.nullable {
            out.append("YES");
        } else {
            out.append("NO");
        }
        assert(out@ =~= lead + column_text(cols@[i as int]));
        if i == 0 {
            assert(out@ =~= column_text(cols@[0]));
        } else {
            assert(out@ =~= prefix + seq!['|'] + column_text(cols@[i as int]));
        }
        i = i + 1;
    }
    assert(cols@.subrange(0, n as int) =~= cols@);
    out
}

/// The fingerprint of a table's columns; a table without columns has none.
pub fn compute_fingerprint(cols: &Vec<ColumnDef>) -> (r: Option<String>)
    ensures
        r is None <==> cols@.len() == 0,
        r matches Some(f) ==> f@ == fingerprint_of(cols@),
        r matches Some(f) ==> f@.len() == 64,
{
    if cols.len() == 0 {
        return None;
    }
    let text = fingerprint_descriptor(cols);
    let digest = sha256_text(text.as_str());
    Some(hex_encode(&digest))
}

/// A table's fingerprint as one node holds it.
pub struct TableFingerprint {
    pub table_schema: String,
    pub table_name: String,
    pub fingerprint: String,
    pub column_count: u32,
}

/// How a table's fingerprints on the two nodes compare.
#[derive(Debug, Clone, Copy, PartialEq, Eq, Structural)]
pub enum FingerprintStatus {
    /// Both nodes hold the table with equal fingerprints.
    Match,
    /// Both nodes hold the table with different fingerprints.
    Mismatch,
    /// Only the local node holds the table.
    LocalOnly,
    /// Only the peer holds the table.
    RemoteOnly,
}

/// Text form of a comparison status.
pub open spec fn fingerprint_status_text(s: FingerprintStatus) -> Seq<char> {
    match s {
        FingerprintStatus::Match => "MATCH"@,
        FingerprintStatus::Mismatch => "MISMATCH"@,
        FingerprintStatus::LocalOnly => "LOCAL_ONLY"@,
        FingerprintStatus::RemoteOnly => "REMOTE_ONLY"@,
    }
}

impl FingerprintStatus {
    /// Text form of the status.
    pub fn as_str(&self) -> (r: &'static str)
        ensures
            r@ == fingerprint_status_text(*self),
    {
        match self {
            FingerprintStatus::Match => "MATCH",
            FingerprintStatus::Mismatch => "MISMATCH",
            FingerprintStatus::LocalOnly => "LOCAL_ONLY",
            FingerprintStatus::RemoteOnly => "REMOTE_ONLY",
        }
    }
}

/// One row of a fingerprint comparison.
pub struct FingerprintComparison {
    pub table_schema: String,
    pub table_name: String,
    pub local_fingerprint: Option<String>,
    pub remote_fingerprint: Option<String>,
    pub status: FingerprintStatus,
    pub local_column_count: Option<u32>,
    pub remote_column_count: Option<u32>,
}

/// Whether the entry is for table `schema.table`.
pub open spec fn is_entry_for(e: TableFingerprint, schema: Seq<char>, table: Seq<char>) -> bool {
    e.table_schema@ == schema && e.table_name@ == table
}

/// The entry for table `schema.table` (the last one), if any.
pub open spec fn entry_for(set: Seq<TableFingerprint>, schema: Seq<char>, table: Seq<char>) -> Option<
    TableFingerprint,
>
    decreases set.len(),
{
    if set.len() == 0 {
        None
    } else if is_entry_for(set.last(), schema, table) {
        Some(set.last())
    } else {
        entry_for(set.drop_last(), schema, table)
    }
}

/// The comparison row of a local entry.
pub open spec fn local_comparison(l: TableFingerprint, remote: Seq<TableFingerprint>) -> FingerprintComparison {
    match entry_for(remote, l.table_schema@, l.table_name@) {
        Option::None => FingerprintComparison {
            table_schema: l.table_schema,
            table_name: l.table_name,
            local_fingerprint: Some(l.fingerprint),
            remote_fingerprint: None,
            status: FingerprintStatus::LocalOnly,
            local_column_count: Some(l.column_count),
            remote_column_count: None,
        },
        Option::Some(r) => FingerprintComparison {
            table_schema: l.table_schema,
            table_name: l.table_name,
            local_fingerprint: Some(l.fingerprint),
            remote_fingerprint: Some(r.fingerprint),
            status: if l.fingerprint@ == r.fingerprint@ {
                FingerprintStatus::Match
            } else {
                FingerprintStatus::Mismatch
            },
            local_column_count: Some(l.column_count),
            remote_column_count: Some(r.column_count),
        },
    }
}

/// The comparison rows of the peer's tables missing locally, in peer order.
pub open spec fn remote_only_comparisons(
    local: Seq<TableFingerprint>,
    remote: Seq<TableFingerprint>,
) -> Seq<FingerprintComparison>
    decreases remote.len(),
{
    if remote.len() == 0 {
        Seq::empty()
    } else {
        let before = remote_only_comparisons(local, remote.drop_last());
        let r = remote.last();
        if entry_for(local, r.table_schema@, r.table_name@) is None {
            before.push(
                FingerprintComparison {
                    table_schema: r.table_schema,
                    table_name: r.table_name,
                    local_fingerprint: None,
                    remote_fingerprint: Some(r.fingerprint),
                    status: FingerprintStatus::RemoteOnly,
                    local_column_count: None,
                    remote_column_count: Some(r.column_count),
                },
            )
        } else {
            before
        }
    }
}

/// Full outer join of two fingerprint sets on (schema, table): local
/// entries in local order, then the peer's entries missing locally.
pub open spec fn comparisons(local: Seq<TableFingerprint>, remote: Seq<TableFingerprint>) -> Seq<
    FingerprintComparison,
> {
    Seq::new(local.len(), |i: int| local_comparison(local[i], remote)) + remote_only_comparisons(
        local,
        remote,
    )
}

/// Position of the entry for `schema.table`, looked up as `entry_for` reads.
fn find_entry(set: &Vec<TableFingerprint>, schema: &String, table: &String) -> (r: Option<usize>)
    ensures
        r is None <==> entry_for(set@, schema@, table@) is None,
        r matches Some(k) ==> k < set@.len() && entry_for(set@, schema@, table@) == Some(set@[k as int]),
{
    let n = set.len();
    let mut found: Option<usize> = None;
    let mut j: usize = 0;
    while j < n
        invariant
            n == set@.len(),
            0 <= j <= n,
            found is None <==> entry_for(set@.subrange(0, j as int), schema@, table@) is None,
            found matches Some(k) ==> k < j && entry_for(set@.subrange(0, j as int), schema@, table@)
                == Some(set@[k as int]),
        decreases n - j,
    {
        assert(set@.subrange(0, j + 1).drop_last() =~= set@.subrange(0, j as int));
        if set[j].table_schema == *schema && set[j].table_name == *table {
            found = Some(j);
        }
        j = j + 1;
    }
    assert(set@.subrange(0, n as int) =~= set@);
    found
}

/// Compares the local fingerprint set with the peer's.
pub fn compare_fingerprints(local: &Vec<TableFingerprint>, remote: &Vec<TableFingerprint>) -> (r: Vec<
    FingerprintComparison,
>)
    ensures
        r@ == comparisons(local@, remote@),
{
    let mut out: Vec<FingerprintComparison> = Vec::new();
    let n = local.len();
    let mut i: usize = 0;
    while i < n
        invariant
            n == local@.len(),
            0 <= i <= n,
            out@ == Seq::new(i as nat, |k: int| local_comparison(local@[k], remote@)),
        decreases n - i,
    {
        let l = &local[i];
        let row = match find_entry(remote, &l.table_schema, &l.table_name) {
            None => FingerprintComparison {
                table_schema: l.table_schema.clone(),
                table_name: l.table_name.clone(),
                local_fingerprint: Some(l.fingerprint.clone()),
                remote_fingerprint: None,
                status: FingerprintStatus::LocalOnly,
                local_column_count: Some(l.column_count),
                remote_column_count: None,
            },
            Some(k) => {
                let r = &remote[k];
                let status = if l.fingerprint == r.fingerprint {
                    FingerprintStatus::Match
                } else {
                    FingerprintStatus::Mismatch
                };
                FingerprintComparison {
                    table_schema: l.table_schema.clone(),
                    table_name: l.table_name.clone(),
                    local_fingerprint: Some(l.fingerprint.clone()),
                    remote_fingerprint: Some(r.fingerprint.clone()),
                    status,
                    local_column_count: Some(l.column_count),
                    remote_column_count: Some(r.column_count),
                }
            },
        };
        out.push(row);
        assert(out@ =~= Seq::new((i + 1) as nat, |k: int| local_comparison(local@[k], remote@)));
        i = i + 1;
    }
    let ghost head = out@;
    let m = remote.len();
    let mut j: usize = 0;
    while j < m
        invariant
            m == remote@.len(),
            0 <= j <= m,
            head == Seq::new(n as nat, |k: int| local_comparison(local@[k], remote@)),
            out@ == head + remote_only_comparisons(local@, remote@.subrange(0, j as int)),
        decreases m - j,
    {
        assert(remote@.subrange(0, j + 1).drop_last() =~= remote@.subrange(0, j as int));
        let r = &remote[j];
        if find_entry(local, &r.table_schema, &r.table_name).is_none() {
            out.push(
                FingerprintComparison {
                    table_schema: r.table_schema.clone(),
                    table_name: r.table_name.clone(),
                    local_fingerprint: None,
                    remote_fingerprint: Some(r.fingerprint.clone()),
                    status: FingerprintStatus::RemoteOnly,
                    local_column_count: None,
                    remote_column_count: Some(r.column_count),
                },
            );
        }
        assert(out@ =~= head + remote_only_comparisons(local@, remote@.subrange(0, j + 1)));
        j = j + 1;
    }
    assert(remote@.subrange(0, m as int) =~= remote@);
    out
}

/// Kind of a difference between the two nodes' versions of a column.
#[derive(Debug, Clone, Copy, PartialEq, Eq, Structural)]
pub enum DifferenceKind {
    /// The column exists on the peer only.
    MissingLocal,
    /// The column exists locally only.
    MissingRemote,
    TypeChange,
    DefaultChange,
    NullableChange,
}

/// Text form of a difference kind.
pub open spec fn difference_kind_text(k: DifferenceKind) -> Seq<char> {
    match k {
        DifferenceKind::MissingLocal => "missing_local"@,
        DifferenceKind::MissingRemote => "missing_remote"@,
        DifferenceKind::TypeChange => "type_change"@,
        DifferenceKind::DefaultChange => "default_change"@,
        DifferenceKind::NullableChange => "nullable_change"@,
    }
}

impl DifferenceKind {
    /// Text form of the kind.
    pub fn as_str(&self) -> (r: &'static str)
        ensures
            r@ == difference_kind_text(*self),
    {
        match self {
            DifferenceKind::MissingLocal => "missing_local",
            DifferenceKind::MissingRemote => "missing_remote",
            DifferenceKind::TypeChange => "type_change",
            DifferenceKind::DefaultChange => "default_change",
            DifferenceKind::NullableChange => "nullable_change",
        }
    }
}

/// One difference of one column; a column that differs in several ways
/// gives one difference for each.
pub struct ColumnDifference {
    pub column_name: String,
    pub kind: DifferenceKind,
    /// The local definition, empty when the column is missing locally.
    pub local_definition: String,
    /// The peer's definition, empty when the column is missing there.
    pub remote_definition: String,
}

/// A column as `name type [DEFAULT expr] [NOT NULL]`, the optional parts
/// left empty between single spaces.
pub open spec fn definition_text(c: ColumnDef) -> Seq<char> {
    c.name@ + " "@ + c.data_type@ + " "@ + match c.default {
        Option::Some(d) => "DEFAULT "@ + d@,
        Option::None => Seq::empty(),
    } + " "@ + if c.nullable {
        Seq::empty()
    } else {
        "NOT NULL"@
    }
}

/// A default as compared between nodes: a missing one reads as empty.
pub open spec fn default_or_empty(d: Option<String>) -> Seq<char> {
    match d {
        Option::Some(s) => s@,
        Option::None => Seq::empty(),
    }
}

/// The column named `name` (the last one), if any.
pub open spec fn column_named(cols: Seq<ColumnDef>, name: Seq<char>) -> Option<ColumnDef>
    decreases cols.len(),
{
    if cols.len() == 0 {
        None
    } else if cols.last().name@ == name {
        Some(cols.last())
    } else {
        column_named(cols.drop_last(), name)
    }
}

/// A difference as (column, kind, local definition, peer definition).
pub open spec fn diff_view(d: ColumnDifference) -> (Seq<char>, DifferenceKind, Seq<char>, Seq<char>) {
    (d.column_name@, d.kind, d.local_definition@, d.remote_definition@)
}

/// The differences of one local column against the peer's columns, in the
/// order missing, type, default, nullability.
pub open spec fn diffs_for_local(l: ColumnDef, remote: Seq<ColumnDef>) -> Seq<
    (Seq<char>, DifferenceKind, Seq<char>, Seq<char>),
> {
    match column_named(remote, l.name@) {
        Option::None => seq![
            (l.name@, DifferenceKind::MissingRemote, definition_text(l), Seq::<char>::empty()),
        ],
        Option::Some(r) => {
            let ld = definition_text(l);
            let rd = definition_text(r);
            (if l.data_type@ != r.data_type@ {
                seq![(l.name@, DifferenceKind::TypeChange, ld, rd)]
            } else {
                Seq::empty()
            }) + (if default_or_empty(l.default) != default_or_empty(r.default) {
                seq![(l.name@, DifferenceKind::DefaultChange, ld, rd)]
            } else {
                Seq::empty()
            }) + (if l.nullable != r.nullable {
                seq![(l.name@, DifferenceKind::NullableChange, ld, rd)]
            } else {
                Seq::empty()
            })
        },
    }
}

/// The differences of the local columns, in local order.
pub open spec fn local_diffs(local: Seq<ColumnDef>, remote: Seq<ColumnDef>) -> Seq<
    (Seq<char>, DifferenceKind, Seq<char>, Seq<char>),
>
    decreases local.len(),
{
    if local.len() == 0 {
        Seq::empty()
    } else {
        local_diffs(local.drop_last(), remote) + diffs_for_local(local.last(), remote)
    }
}

/// The peer's columns missing locally, in peer order.
pub open spec fn missing_local_diffs(local: Seq<ColumnDef>, remote: Seq<ColumnDef>) -> Seq<
    (Seq<char>, DifferenceKind, Seq<char>, Seq<char>),
>
    decreases remote.len(),
{
    if remote.len() == 0 {
        Seq::empty()
    } else {
        let before = missing_local_diffs(local, remote.drop_last());
        let r = remote.last();
        if column_named(local, r.name@) is None {
            before.push((r.name@, DifferenceKind::MissingLocal, Seq::<char>::empty(), definition_text(r)))
        } else {
            before
        }
    }
}

/// All differences between the local and the peer's column lists, joined
/// on the column name.
pub open spec fn column_diffs(local: Seq<ColumnDef>, remote: Seq<ColumnDef>) -> Seq<
    (Seq<char>, DifferenceKind, Seq<char>, Seq<char>),
> {
    local_diffs(local, remote) + missing_local_diffs(local, remote)
}

/// Writes a column's definition.
pub fn column_definition(c: &ColumnDef) -> (r: String)
    ensures
        r@ == definition_text(*c),
{
    let mut out = c.name.clone();
    out.append(" ");
    out.append(c.data_type.as_str());
    out.append(" ");
    match &c.default {
        Some(d) => {
            out.append("DEFAULT ");
            out.append(d.as_str());
        },
        None => {},
    }
    out.append(" ");
    if !c.nullable {
        out.append("NOT NULL");
    }
    assert(out@ =~= definition_text(*c));
    out
}

/// Position of the column named `name`, looked up as `column_named` reads.
fn find_column(cols: &Vec<ColumnDef>, name: &String) -> (r: Option<usize>)
    ensures
        r is None <==> column_named(cols@, name@) is None,
        r matches Some(k) ==> k < cols@.len() && column_named(cols@, name@) == Some(cols@[k as int]),
{
    let n = cols.len();
    let mut found: Option<usize> = None;
    let mut j: usize = 0;
    while j < n
        invariant
            n == cols@.len(),
            0 <= j <= n,
            found is None <==> column_named(cols@.subrange(0, j as int), name@) is None,
            found matches Some(k) ==> k < j && column_named(cols@.subrange(0, j as int), name@) == Some(
                cols@[k as int],
            ),
        decreases n - j,
    {
        assert(cols@.subrange(0, j + 1).drop_last() =~= cols@.subrange(0, j as int));
        if cols[j].name == *name {
            found = Some(j);
        }
        j = j + 1;
    }
    assert(cols@.subrange(0, n as int) =~= cols@);
    found
}

/// Whether two defaults differ once a missing one reads as empty.
fn defaults_differ(a: &Option<String>, b: &Option<String>) -> (r: bool)
    ensures
        r == (default_or_empty(*a) != default_or_empty(*b)),
{
    let x = match a {
        Some(s) => s.clone(),
        None => String::new(),
    };
    let y = match b {
        Some(s) => s.clone(),
        None => String::new(),
    };
    !(x == y)
}

/// Lists the differences between the local and the peer's columns of a
/// table whose fingerprints did not match.
pub fn diff_columns(local: &Vec<ColumnDef>, remote: &Vec<ColumnDef>) -> (r: Vec<ColumnDifference>)
    ensures
        r@.map_values(|d: ColumnDifference| diff_view(d)) == column_diffs(local@, remote@),
{
    let mut out: Vec<ColumnDifference> = Vec::new();
    let n = local.len();
    let mut i: usize = 0;
    while i < n
        invariant
            n == local@.len(),
            0 <= i <= n,
            out@.map_values(|d: ColumnDifference| diff_view(d)) == local_diffs(
                local@.subrange(0, i as int),
                remote@,
            ),
        decreases n - i,
    {
        assert(local@.subrange(0, i + 1).drop_last() =~= local@.subrange(0, i as int));
        let ghost before = out@.map_values(|d: ColumnDifference| diff_view(d));
        let l = &local[i];
        let ld = column_definition(l);
        match find_column(remote, &l.name) {
            None => {
                out.push(
                    ColumnDifference {
                        column_name: l.name.clone(),
                        kind: DifferenceKind::MissingRemote,
                        local_definition: ld,
                        remote_definition: String::new(),
                    },
                );
            },
            Some(k) => {
                let r = &remote[k];
                let rd = column_definition(r);
                let ghost g0 = out@.len();
                if !(l.data_type == r.data_type) {
                    out.push(
                        ColumnDifference {
                            column_name: l.name.clone(),
                            kind: DifferenceKind::TypeChange,
                            local_definition: ld.clone(),
                            remote_definition: rd.clone(),
                        },
                    );
                }
                let ghost g1 = out@.map_values(|d: ColumnDifference| diff_view(d));
                if defaults_differ(&l.default, &r.default) {
                    out.push(
                        ColumnDifference {
                            column_name: l.name.clone(),
                            kind: DifferenceKind::DefaultChange,
                            local_definition: ld.clone(),
                            remote_definition: rd.clone(),
                        },
                    );
                }
                let ghost g2 = out@.map_values(|d: ColumnDifference| diff_view(d));
                if l.nullable != r.nullable {
                    out.push(
                        ColumnDifference {
                            column_name: l.name.clone(),
                            kind: DifferenceKind::NullableChange,
                            local_definition: ld,
                            remote_definition: rd,
                        },
                    );
                }
            },
        }
        assert(out@.map_values(|d: ColumnDifference| diff_view(d)) =~= before + diffs_for_local(
            local@[i as int],
            remote@,
        ));
        i = i + 1;
    }
    assert(local@.subrange(0, n as int) =~= local@);
    let ghost head = out@.map_values(|d: ColumnDifference| diff_view(d));
    let m = remote.len();
    let mut j: usize = 0;
    while j < m
        invariant
            m == remote@.len(),
            0 <= j <= m,
            head == local_diffs(local@, remote@),
            out@.map_values(|d: ColumnDifference| diff_view(d)) == head + missing_local_diffs(
                local@,
                remote@.subrange(0, j as int),
            ),
        decreases m - j,
    {
        assert(remote@.subrange(0, j + 1).drop_last() =~= remote@.subrange(0, j as int));
        let r = &remote[j];
        let ghost prev = out@;
        if find_column(local, &r.name).is_none() {
            let d = ColumnDifference {
                column_name: r.name.clone(),
                kind: DifferenceKind::MissingLocal,
                local_definition: String::new(),
                remote_definition: column_definition(r),
            };
            out.push(d);
            assert(out@.map_values(|d: ColumnDifference| diff_view(d)) =~= prev.map_values(
                |d: ColumnDifference| diff_view(d),
            ).push(diff_view(d)));
        }
        assert(out@.map_values(|d: ColumnDifference| diff_view(d)) =~= head + missing_local_diffs(
            local@,
            remote@.subrange(0, j + 1),
        ));
        j = j + 1;
    }
    assert(remote@.subrange(0, m as int) =~= remote@);
    out
}

/// Whether two columns agree in name, type, default and nullability.
pub open spec fn same_column(a: ColumnDef, b: ColumnDef) -> bool {
    &&& a.name@ == b.name@
    &&& a.data_type@ == b.data_type@
    &&& match (a.default, b.default) {
        (Option::Some(x), Option::Some(y)) => x@ == y@,
        (Option::None, Option::None) => true,
        _ => false,
    }
    &&& a.nullable == b.nullable
}

/// Whether two column lists agree column by column.
pub open spec fn same_columns(a: Seq<ColumnDef>, b: Seq<ColumnDef>) -> bool {
    a.len() == b.len() && forall|i: int| 0 <= i < a.len() ==> same_column(#[trigger] a[i], b[i])
}

/// Whether a text holds neither separator of the fingerprint text.
pub open spec fn separator_free(t: Seq<char>) -> bool {
    !t.contains(':') && !t.contains('|')
}

/// A column whose name and type hold no separator, and whose default
/// (which may hold `:`, as casts such as `'a'::text` do) holds no `|` and is
/// not the text that stands for a missing default.
pub open spec fn plain_column(c: ColumnDef) -> bool {
    &&& separator_free(c.name@)
    &&& separator_free(c.data_type@)
    &&& match c.default {
        Option::Some(d) => !d@.contains('|') && d@ != null_text(),
        Option::None => true,
    }
}

/// Whether every column of the list is plain.
pub open spec fn plain_columns(cols: Seq<ColumnDef>) -> bool {
    forall|i: int| 0 <= i < cols.len() ==> plain_column(#[trigger] cols[i])
}

proof fn lemma_concat_lacks(x: Seq<char>, y: Seq<char>, c: char)
    requires
        !x.contains(c),
        !y.contains(c),
    ensures
        !(x + y).contains(c),
{
    assert forall|i: int| 0 <= i < (x + y).len() implies (x + y)[i] != c by {
        if i < x.len() {
            if x[i] == c {
                assert(x.contains(c));
            }
        } else {
            if y[i - x.len()] == c {
                assert(y.contains(c));
            }
        }
    }
}

proof fn lemma_split_first(x1: Seq<char>, x2: Seq<char>, y1: Seq<char>, y2: Seq<char>, c: char)
    requires
        x1 + seq![c] + x2 == y1 + seq![c] + y2,
        !x1.contains(c),
        !y1.contains(c),
    ensures
        x1 == y1,
        x2 == y2,
{
    let s = x1 + seq![c] + x2;
    if x1.len() < y1.len() {
        assert(s[x1.len() as int] == c);
        assert(y1[x1.len() as int] == c);
        assert(y1.contains(c));
    } else if y1.len() < x1.len() {
        assert(s[y1.len() as int] == c);
        assert(x1[y1.len() as int] == c);
        assert(x1.contains(c));
    }
    assert(x1 =~= s.subrange(0, x1.len() as int));
    assert(y1 =~= s.subrange(0, y1.len() as int));
    assert(x2 =~= s.subrange(x1.len() as int + 1, s.len() as int));
    assert(y2 =~= s.subrange(y1.len() as int + 1, s.len() as int));
}

proof fn lemma_split_last(x1: Seq<char>, x2: Seq<char>, y1: Seq<char>, y2: Seq<char>, c: char)
    requires
        x1 + seq![c] + x2 == y1 + seq![c] + y2,
        !x2.contains(c),
        !y2.contains(c),
    ensures
        x1 == y1,
        x2 == y2,
{
    let s = x1 + seq![c] + x2;
    if x2.len() < y2.len() {
        let k = s.len() - 1 - x2.len();
        assert(s[k] == c);
        assert(y2[k - y1.len() - 1] == c);
        assert(y2.contains(c));
    } else if y2.len() < x2.len() {
        let k = s.len() - 1 - y2.len();
        assert(s[k] == c);
        assert(x2[k - x1.len() - 1] == c);
        assert(x2.contains(c));
    }
    assert(x1 =~= s.subrange(0, x1.len() as int));
    assert(y1 =~= s.subrange(0, y1.len() as int));
    assert(x2 =~= s.subrange(x1.len() as int + 1, s.len() as int));
    assert(y2 =~= s.subrange(y1.len() as int + 1, s.len() as int));
}

proof fn lemma_column_text_lacks_bar(c: ColumnDef)
    requires
        plain_column(c),
    ensures
        !column_text(c).contains('|'),
{
    let colon = seq![':'];
    assert(!colon.contains('|')) by {
        if colon.contains('|') {
            let i = choose|i: int| 0 <= i < colon.len() && colon[i] == '|';
            assert(colon[i] == ':');
        }
    }
    let n = nullable_text(c.nullable);
    assert(!n.contains('|')) by {
        if n.contains('|') {
            let i = choose|i: int| 0 <= i < n.len() && n[i] == '|';
        }
    }
    let d = default_text(c.default);
    assert(!d.contains('|')) by {
        if c.default is None && d.contains('|') {
            let i = choose|i: int| 0 <= i < d.len() && d[i] == '|';
        }
    }
    lemma_concat_lacks(d, colon, '|');
    lemma_concat_lacks(d + colon, n, '|');
    lemma_concat_lacks(c.data_type@, colon, '|');
    lemma_concat_lacks(c.data_type@ + colon, d + colon + n, '|');
    lemma_concat_lacks(c.name@, colon, '|');
    lemma_concat_lacks(c.name@ + colon, c.data_type@ + colon + (d + colon + n), '|');
}

proof fn lemma_column_text_injective(a: ColumnDef, b: ColumnDef)
    requires
        plain_column(a),
        plain_column(b),
        column_text(a) == column_text(b),
    ensures
        same_column(a, b),
{
    let da = default_text(a.default);
    let db = default_text(b.default);
    let na = nullable_text(a.nullable);
    let nb = nullable_text(b.nullable);
    lemma_split_first(
        a.name@,
        a.data_type@ + seq![':'] + (da + seq![':'] + na),
        b.name@,
        b.data_type@ + seq![':'] + (db + seq![':'] + nb),
        ':',
    );
    lemma_split_first(a.data_type@, da + seq![':'] + na, b.data_type@, db + seq![':'] + nb, ':');
    assert(!na.contains(':')) by {
        if na.contains(':') {
            let i = choose|i: int| 0 <= i < na.len() && na[i] == ':';
        }
    }
    assert(!nb.contains(':')) by {
        if nb.contains(':') {
            let i = choose|i: int| 0 <= i < nb.len() && nb[i] == ':';
        }
    }
    lemma_split_last(da, na, db, nb, ':');
    if a.nullable != b.nullable {
        assert(na.len() != nb.len());
    }
}

proof fn lemma_descriptor_nonempty(cols: Seq<ColumnDef>)
    requires
        cols.len() > 0,
    ensures
        descriptor(cols).len() > 0,
{
    if cols.len() == 1 {
        assert(column_text(cols[0]).len() >= 1);
    }
}

/// The fingerprint text of column lists that agree column by column is the
/// same, so their fingerprints are equal: recomputing over an unchanged
/// table gives the same digest.
pub proof fn lemma_fingerprint_deterministic(a: Seq<ColumnDef>, b: Seq<ColumnDef>)
    requires
        same_columns(a, b),
    ensures
        descriptor(a) == descriptor(b),
        fingerprint_of(a) == fingerprint_of(b),
    decreases a.len(),
{
    if a.len() > 0 {
        assert(same_columns(a.drop_last(), b.drop_last())) by {
            assert forall|i: int| 0 <= i < a.drop_last().len() implies same_column(
                #[trigger] a.drop_last()[i],
                b.drop_last()[i],
            ) by {
                assert(same_column(a[i], b[i]));
            }
        }
        lemma_fingerprint_deterministic(a.drop_last(), b.drop_last());
        assert(same_column(a[a.len() - 1], b[b.len() - 1]));
        assert(default_text(a.last().default) == default_text(b.last().default));
        assert(column_text(a.last()) == column_text(b.last()));
        if a.len() == 1 {
            assert(a[0] == a.last());
            assert(b[0] == b.last());
        }
    }
}

/// Column lists of plain columns (no separator in a name or type, no `|`
/// in a default, no default spelled like the missing-default text) that differ anywhere
/// (a column added, dropped or reordered, a changed type, default or
/// nullability) give different fingerprint texts: the text that is
/// digested determines the columns.
pub proof fn lemma_changed_columns_change_descriptor(a: Seq<ColumnDef>, b: Seq<ColumnDef>)
    requires
        plain_columns(a),
        plain_columns(b),
        descriptor(a) == descriptor(b),
    ensures
        same_columns(a, b),
    decreases a.len(),
{
    if a.len() == 0 {
        if b.len() > 0 {
            lemma_descriptor_nonempty(b);
        }
    } else if b.len() == 0 {
        lemma_descriptor_nonempty(a);
    } else if a.len() == 1 && b.len() == 1 {
        lemma_column_text_injective(a[0], b[0]);
    } else if a.len() == 1 {
        lemma_column_text_lacks_bar(a[0]);
        let d = descriptor(b.drop_last());
        assert(descriptor(b)[d.len() as int] == '|');
        assert(column_text(a[0]).contains('|'));
    } else if b.len() == 1 {
        lemma_column_text_lacks_bar(b[0]);
        let d = descriptor(a.drop_last());
        assert(descriptor(a)[d.len() as int] == '|');
        assert(column_text(b[0]).contains('|'));
    } else {
        lemma_column_text_lacks_bar(a.last());
        lemma_column_text_lacks_bar(b.last());
        lemma_split_last(
            descriptor(a.drop_last()),
            column_text(a.last()),
            descriptor(b.drop_last()),
            column_text(b.last()),
            '|',
        );
        lemma_changed_columns_change_descriptor(a.drop_last(), b.drop_last());
        lemma_column_text_injective(a.last(), b.last());
        assert forall|i: int| 0 <= i < a.len() implies same_column(#[trigger] a[i], b[i]) by {
            if i < a.len() - 1 {
                assert(a[i] == a.drop_last()[i]);
                assert(b[i] == b.drop_last()[i]);
            }
        }
    }
}

/// A captured fingerprint, keyed by (node, schema, table).
pub struct SchemaFingerprint {
    pub node_id: String,
    pub table_schema: String,
    pub table_name: String,
    pub fingerprint: String,
    pub column_count: u32,
    pub captured_at: i64,
    pub columns: Vec<ColumnDef>,
}

/// Whether the record is keyed by this node, schema and table.
pub open spec fn is_keyed(r: SchemaFingerprint, node: Seq<char>, schema: Seq<char>, table: Seq<char>) -> bool {
    r.node_id@ == node && r.table_schema@ == schema && r.table_name@ == table
}

/// Whether two records have different keys.
pub open spec fn keys_differ(a: SchemaFingerprint, b: SchemaFingerprint) -> bool {
    !is_keyed(a, b.node_id@, b.table_schema@, b.table_name@)
}

/// Whether the record holds a capture of `cols` at `now`.
pub open spec fn holds_capture(r: SchemaFingerprint, cols: Seq<ColumnDef>, now: i64) -> bool {
    &&& r.fingerprint@ == fingerprint_of(cols)
    &&& r.column_count as nat == cols.len()
    &&& r.captured_at == now
    &&& r.columns@ == cols
}

/// The comparison entry of a record.
pub open spec fn entry_of(r: SchemaFingerprint) -> TableFingerprint {
    TableFingerprint {
        table_schema: r.table_schema,
        table_name: r.table_name,
        fingerprint: r.fingerprint,
        column_count: r.column_count,
    }
}

/// The entries of one node's records, in store order.
pub open spec fn node_entries(records: Seq<SchemaFingerprint>, node: Seq<char>) -> Seq<TableFingerprint>
    decreases records.len(),
{
    if records.len() == 0 {
        Seq::empty()
    } else if records.last().node_id@ == node {
        node_entries(records.drop_last(), node).push(entry_of(records.last()))
    } else {
        node_entries(records.drop_last(), node)
    }
}

/// The latest fingerprint of each table of each node; recapture overwrites.
pub struct FingerprintStore {
    records: Vec<SchemaFingerprint>,
}

impl FingerprintStore {
    /// The records held.
    pub closed spec fn records(&self) -> Seq<SchemaFingerprint> {
        self.records@
    }

    /// No two records share a key.
    pub open spec fn wf(&self) -> bool {
        forall|i: int, j: int|
            0 <= i < j < self.records().len() ==> #[trigger] keys_differ(
                self.records()[i],
                self.records()[j],
            )
    }

    /// An empty store.
    pub fn new() -> (r: FingerprintStore)
        ensures
            r.wf(),
            r.records().len() == 0,
    {
        FingerprintStore { records: Vec::new() }
    }

    /// Computes the fingerprint of a table's columns and stores it under
    /// (node, schema, table), replacing any earlier capture; a table without
    /// columns is not stored and gives `None`, else the fingerprint.
    pub fn capture(
        &mut self,
        node_id: &str,
        table_schema: &str,
        table_name: &str,
        columns: Vec<ColumnDef>,
        now: i64,
    ) -> (r: Option<String>)
        requires
            old(self).wf(),
            columns@.len() <= u32::MAX,
        ensures
            final(self).wf(),
            r is None <==> columns@.len() == 0,
            r is None ==> final(self).records() == old(self).records(),
            r matches Some(f) ==> {
                &&& f@ == fingerprint_of(columns@)
                &&& exists|i: int|
                    0 <= i < final(self).records().len() && is_keyed(
                        #[trigger] final(self).records()[i],
                        node_id@,
                        table_schema@,
                        table_name@,
                    ) && holds_capture(final(self).records()[i], columns@, now)
                &&& forall|j: int|
                    0 <= j < old(self).records().len() && !is_keyed(
                        #[trigger] old(self).records()[j],
                        node_id@,
                        table_schema@,
                        table_name@,
                    ) ==> final(self).records()[j] == old(self).records()[j]
                &&& final(self).records().len() <= old(self).records().len() + 1
                &&& forall|j: int|
                    old(self).records().len() <= j < final(self).records().len() ==> is_keyed(
                        #[trigger] final(self).records()[j],
                        node_id@,
                        table_schema@,
                        table_name@,
                    )
            },
    {
        let fingerprint = match compute_fingerprint(&columns) {
            None => return None,
            Some(f) => f,
        };
        let count = columns.len() as u32;
        let n = self.records.len();
        let mut found: Option<usize> = None;
        let mut j: usize = 0;
        while j < n
            invariant
                n == self.records@.len(),
                0 <= j <= n,
                found is None ==> forall|k: int| 0 <= k < j ==> !is_keyed(
                    #[trigger] self.records@[k],
                    node_id@,
                    table_schema@,
                    table_name@,
                ),
                found matches Some(k) ==> k < n && is_keyed(
                    self.records@[k as int],
                    node_id@,
                    table_schema@,
                    table_name@,
                ),
            decreases n - j,
        {
            let r = &self.records[j];
            if found.is_none() && same_text(r.node_id.as_str(), node_id) && same_text(
                r.table_schema.as_str(),
                table_schema,
            ) && same_text(r.table_name.as_str(), table_name) {
                found = Some(j);
            }
            j = j + 1;
        }
        let result = fingerprint.clone();
        if let Some(i) = found {
            let ghost before = self.records@;
            self.records[i].fingerprint = fingerprint;
            self.records[i].column_count = count;
            self.records[i].captured_at = now;
            self.records[i].columns = columns;
            assert(is_keyed(self.records@[i as int], node_id@, table_schema@, table_name@));
            assert forall|a: int, b: int|
                0 <= a < b < self.records().len() implies #[trigger] keys_differ(
                self.records()[a],
                self.records()[b],
            ) by {
                assert(keys_differ(before[a], before[b]));
            }
        } else {
            self.records.push(
                SchemaFingerprint {
                    node_id: node_id.to_owned(),
                    table_schema: table_schema.to_owned(),
                    table_name: table_name.to_owned(),
                    fingerprint,
                    column_count: count,
                    captured_at: now,
                    columns,
                },
            );
            assert(is_keyed(self.records@[n as int], node_id@, table_schema@, table_name@));
        }
        Some(result)
    }

    /// The fingerprints captured for one node, as a set to compare.
    pub fn fingerprints_for_node(&self, node_id: &str) -> (r: Vec<TableFingerprint>)
        ensures
            r@ == node_entries(self.records(), node_id@),
    {
        let mut out: Vec<TableFingerprint> = Vec::new();
        let n = self.records.len();
        let mut i: usize = 0;
        while i < n
            invariant
                n == self.records@.len(),
                0 <= i <= n,
                out@ == node_entries(self.records@.subrange(0, i as int), node_id@),
            decreases n - i,
        {
            assert(self.records@.subrange(0, i + 1).drop_last() =~= self.records@.subrange(0, i as int));
            let r = &self.records[i];
            if same_text(r.node_id.as_str(), node_id) {
                out.push(
                    TableFingerprint {
                        table_schema: r.table_schema.clone(),
                        table_name: r.table_name.clone(),
                        fingerprint: r.fingerprint.clone(),
                        column_count: r.column_count,
                    },
                );
            }
            i = i + 1;
        }
        assert(self.records@.subrange(0, n as int) =~= self.records@);
        out
    }
}

} // verus!
