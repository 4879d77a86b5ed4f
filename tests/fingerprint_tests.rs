use steep_repl::fingerprint::{
    column_definition, compare_fingerprints, compute_fingerprint, diff_columns,
    fingerprint_descriptor, hex_encode, ColumnDef, DifferenceKind, FingerprintStatus,
    FingerprintStore, TableFingerprint,
};

fn col(name: &str, ty: &str, default: Option<&str>, nullable: bool) -> ColumnDef {
    ColumnDef {
        name: name.to_string(),
        data_type: ty.to_string(),
        default: default.map(|d| d.to_string()),
        nullable,
    }
}

fn id_column() -> ColumnDef {
    col("id", "integer", None, false)
}

fn fp(schema: &str, table: &str, f: &str, n: u32) -> TableFingerprint {
    TableFingerprint {
        table_schema: schema.to_string(),
        table_name: table.to_string(),
        fingerprint: f.to_string(),
        column_count: n,
    }
}

#[test]
fn descriptor_joins_columns() {
    let cols = vec![id_column(), col("name", "text", Some("'x'::text"), true)];
    assert_eq!(fingerprint_descriptor(&cols), "id:integer:NULL:NO|name:text:'x'::text:YES");
    assert_eq!(fingerprint_descriptor(&vec![]), "");
}

#[test]
fn fingerprint_is_sha256_hex_of_descriptor() {
    assert_eq!(
        compute_fingerprint(&vec![id_column()]),
        Some("20c4bd06a187439ffbeb2ef5ce87fa83f2100e2d95ae993a3e76a10445d063ea".to_string())
    );
    let cols = vec![id_column(), col("name", "text", Some("'x'::text"), true)];
    assert_eq!(
        compute_fingerprint(&cols),
        Some("800d505a1de8e0ef14f4f92d96bea7c538b0fbb54b99556f0108de23b2490826".to_string())
    );
}

#[test]
fn table_without_columns_has_no_fingerprint() {
    assert_eq!(compute_fingerprint(&vec![]), None);
}

#[test]
fn fingerprint_is_deterministic() {
    let cols = vec![id_column(), col("name", "text", None, true)];
    let a = compute_fingerprint(&cols);
    let b = compute_fingerprint(&cols);
    assert!(a.is_some());
    assert_eq!(a, b);
}

#[test]
fn any_column_change_changes_fingerprint() {
    let base = compute_fingerprint(&vec![id_column()]).unwrap();
    let changed_type = compute_fingerprint(&vec![col("id", "bigint", None, false)]).unwrap();
    let changed_null = compute_fingerprint(&vec![col("id", "integer", None, true)]).unwrap();
    let changed_default = compute_fingerprint(&vec![col("id", "integer", Some("0"), false)]).unwrap();
    let added = compute_fingerprint(&vec![id_column(), col("x", "text", None, true)]).unwrap();
    assert_eq!(changed_type, "bbf09d9c87ad723769edc330c5fc09f818ef4aff71aba9651a5f567f79ce5842");
    assert_eq!(changed_null, "c06d55ec00c2d1f1074ed011a07e20e05402144901cc66f60e63817a11f11304");
    assert_eq!(changed_default, "9f2ae4654d6c35c5ba872c44597f001e548dec1666ef34d895145be94f5c0968");
    for other in [&changed_type, &changed_null, &changed_default, &added] {
        assert_ne!(&base, other);
    }
    let dropped = compute_fingerprint(&vec![col("x", "text", None, true)]).unwrap();
    assert_ne!(added, dropped);
}

#[test]
fn hex_is_lower_case_two_digits_per_byte() {
    assert_eq!(hex_encode(&vec![0x00, 0x0f, 0xa5, 0xff]), "000fa5ff");
    assert_eq!(hex_encode(&vec![]), "");
}

#[test]
fn compare_classifies_tables() {
    let local = vec![fp("public", "a", "f1", 2), fp("public", "b", "f2", 3), fp("public", "c", "f3", 1)];
    let remote = vec![fp("public", "b", "f2", 3), fp("public", "a", "zz", 2), fp("other", "c", "f3", 1)];
    let r = compare_fingerprints(&local, &remote);
    let got: Vec<(String, String, FingerprintStatus)> =
        r.iter().map(|c| (c.table_schema.clone(), c.table_name.clone(), c.status)).collect();
    assert_eq!(
        got,
        vec![
            ("public".to_string(), "a".to_string(), FingerprintStatus::Mismatch),
            ("public".to_string(), "b".to_string(), FingerprintStatus::Match),
            ("public".to_string(), "c".to_string(), FingerprintStatus::LocalOnly),
            ("other".to_string(), "c".to_string(), FingerprintStatus::RemoteOnly),
        ]
    );
    assert_eq!(r[0].remote_fingerprint, Some("zz".to_string()));
    assert_eq!(r[2].remote_column_count, None);
    assert_eq!(r[3].local_fingerprint, None);
    assert_eq!(r[3].remote_column_count, Some(1));
    assert_eq!(FingerprintStatus::RemoteOnly.as_str(), "REMOTE_ONLY");
}

#[test]
fn diff_reports_each_kind_separately() {
    let local = vec![
        id_column(),
        col("name", "text", None, true),
        col("only_here", "text", None, true),
    ];
    let remote = vec![
        col("id", "bigint", Some("nextval('s')"), true),
        col("name", "text", Some(""), true),
        col("only_there", "date", None, false),
    ];
    let d = diff_columns(&local, &remote);
    let got: Vec<(String, DifferenceKind)> = d.iter().map(|x| (x.column_name.clone(), x.kind)).collect();
    assert_eq!(
        got,
        vec![
            ("id".to_string(), DifferenceKind::TypeChange),
            ("id".to_string(), DifferenceKind::DefaultChange),
            ("id".to_string(), DifferenceKind::NullableChange),
            ("only_here".to_string(), DifferenceKind::MissingRemote),
            ("only_there".to_string(), DifferenceKind::MissingLocal),
        ]
    );
    assert_eq!(d[0].local_definition, "id integer  NOT NULL");
    assert_eq!(d[0].remote_definition, "id bigint DEFAULT nextval('s') ");
    assert_eq!(d[3].remote_definition, "");
    assert_eq!(d[4].local_definition, "");
    assert_eq!(d[4].remote_definition, "only_there date  NOT NULL");
    assert_eq!(DifferenceKind::NullableChange.as_str(), "nullable_change");
}

#[test]
fn identical_columns_have_no_difference() {
    let cols = vec![id_column(), col("name", "text", Some("'a'"), true)];
    let copy = vec![id_column(), col("name", "text", Some("'a'"), true)];
    assert!(diff_columns(&cols, &copy).is_empty());
}

#[test]
fn definition_text_layout() {
    assert_eq!(column_definition(&col("n", "numeric", Some("0"), false)), "n numeric DEFAULT 0 NOT NULL");
    assert_eq!(column_definition(&col("n", "numeric", None, true)), "n numeric  ");
}

#[test]
fn capture_upserts_by_key() {
    let mut store = FingerprintStore::new();
    let first = store.capture("node1", "public", "users", vec![id_column()], 10);
    assert_eq!(first, compute_fingerprint(&vec![id_column()]));
    store.capture("node2", "public", "users", vec![id_column()], 11);
    let second = store.capture("node1", "public", "users", vec![id_column(), col("x", "text", None, true)], 12);
    assert_ne!(first, second);
    let set = store.fingerprints_for_node("node1");
    assert_eq!(set.len(), 1);
    assert_eq!(Some(set[0].fingerprint.clone()), second);
    assert_eq!(set[0].column_count, 2);
    assert_eq!(store.fingerprints_for_node("node2").len(), 1);
    assert_eq!(store.capture("node1", "public", "empty", vec![], 13), None);
    assert_eq!(store.fingerprints_for_node("node1").len(), 1);
}
