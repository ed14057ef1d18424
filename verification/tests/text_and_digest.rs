use attune::digest::{md5_hex, sha1_hex, sha256, sha256_hex};
use attune::migrations::{
    collect_migrations, migration_entry, parse_i64, parse_migration_dir_name, MigrationDirEntry,
};
use attune::text::{
    append, clone_optional, concat2, concat3, i64_decimal, insert_sorted_unique, join_strings, owned,
    push_i64_decimal, push_u64_decimal, str_eq, str_lt,
};

#[test]
fn digests_of_known_inputs() {
    assert_eq!(md5_hex(b""), "d41d8cd98f00b204e9800998ecf8427e");
    assert_eq!(md5_hex(b"abc"), "900150983cd24fb0d6963f7d28e17f72");
    assert_eq!(sha1_hex(b"abc"), "a9993e364706816aba3e25717850c26c9cd0d89d");
    assert_eq!(
        sha256_hex(b"abc"),
        "ba7816bf8f01cfea414140de5dae2223b00361a396177a9cb410ff61f20015ad"
    );
    let raw = sha256(b"abc");
    assert_eq!(raw.len(), 32);
    assert_eq!(raw[0], 0xba);
    assert_eq!(raw[31], 0xad);
}

#[test]
fn decimal_rendering() {
    assert_eq!(i64_decimal(0), "0");
    assert_eq!(i64_decimal(42), "42");
    assert_eq!(i64_decimal(-7), "-7");
    assert_eq!(i64_decimal(i64::MAX), "9223372036854775807");
    assert_eq!(i64_decimal(i64::MIN), "-9223372036854775808");
    let mut s = owned("n=");
    push_u64_decimal(&mut s, u64::MAX);
    assert_eq!(s, "n=18446744073709551615");
    let mut s = String::new();
    push_i64_decimal(&mut s, -10);
    assert_eq!(s, "-10");
}

#[test]
fn string_building() {
    assert_eq!(concat2("ab", "cd"), "abcd");
    assert_eq!(concat3("a", ": ", "b"), "a: b");
    let mut s = owned("x");
    append(&mut s, "yz");
    assert_eq!(s, "xyz");
    assert_eq!(clone_optional(&Some(String::from("v"))), Some(String::from("v")));
    assert_eq!(clone_optional(&None), None);
}

#[test]
fn joining() {
    let parts = vec![String::from("a"), String::from("b"), String::from("c")];
    assert_eq!(join_strings(&parts, ", "), "a, b, c");
    assert_eq!(join_strings(&vec![String::from("only")], "\n"), "only");
    assert_eq!(join_strings(&vec![], "\n"), "");
}

#[test]
fn lexicographic_order() {
    assert!(str_lt("amd64", "arm64"));
    assert!(!str_lt("arm64", "amd64"));
    assert!(str_lt("main", "main2"));
    assert!(!str_lt("main", "main"));
    assert!(str_lt("", "a"));
    assert!(str_lt("Z", "a"));
    assert!(str_eq("main", "main"));
    assert!(!str_eq("main", "Main"));
}

#[test]
fn sorted_insertion_keeps_order_and_uniqueness() {
    let mut v: Vec<String> = Vec::new();
    for item in ["main", "contrib", "main", "non-free", "contrib", "a"] {
        insert_sorted_unique(&mut v, item);
    }
    assert_eq!(v, vec!["a", "contrib", "main", "non-free"]);
}

#[test]
fn i64_parsing() {
    assert_eq!(parse_i64("20240101000000"), Some(20240101000000));
    assert_eq!(parse_i64("+5"), Some(5));
    assert_eq!(parse_i64("-9223372036854775808"), Some(i64::MIN));
    assert_eq!(parse_i64("9223372036854775807"), Some(i64::MAX));
    assert_eq!(parse_i64("9223372036854775808"), None);
    assert_eq!(parse_i64("-9223372036854775809"), None);
    assert_eq!(parse_i64("99999999999999999999999"), None);
    assert_eq!(parse_i64(""), None);
    assert_eq!(parse_i64("-"), None);
    assert_eq!(parse_i64("+"), None);
    assert_eq!(parse_i64("12a"), None);
    assert_eq!(parse_i64(" 1"), None);
    for s in ["0", "-0", "+17", "abc", "00012", "-1-", "1_000"] {
        assert_eq!(parse_i64(s), s.parse::<i64>().ok(), "{s}");
    }
}

#[test]
fn migration_directory_names() {
    assert_eq!(
        parse_migration_dir_name("20250101120000_init"),
        Some((20250101120000, String::from("init")))
    );
    assert_eq!(
        parse_migration_dir_name("1_add_tenant_table"),
        Some((1, String::from("add_tenant_table")))
    );
    assert_eq!(parse_migration_dir_name("2_"), Some((2, String::new())));
    assert_eq!(parse_migration_dir_name("init"), None);
    assert_eq!(parse_migration_dir_name("v1_init"), None);
    assert_eq!(parse_migration_dir_name("_init"), None);
}

#[test]
fn migration_entries() {
    let m = migration_entry("20250101120000_init", "prisma/migrations/20250101120000_init/migration.sql")
        .unwrap();
    assert_eq!(m.version, 20250101120000);
    assert_eq!(m.description, "init");
    assert_eq!(m.path, "../../../../prisma/migrations/20250101120000_init/migration.sql");
    assert!(migration_entry("migration_lock.toml", "x").is_none());
}

fn dir(name: Option<&str>, is_dir: bool, has_sql: bool) -> MigrationDirEntry {
    MigrationDirEntry {
        name: name.map(String::from),
        is_dir,
        has_sql,
        sql_path: format!("migrations/{}/migration.sql", name.unwrap_or("?")),
    }
}

#[test]
fn migrations_are_filtered_and_sorted_by_name() {
    let entries = vec![
        dir(Some("20250301000000_third"), true, true),
        dir(Some("migration_lock.toml"), false, false),
        dir(Some("20250101000000_first"), true, true),
        dir(Some("20250201000000_no_sql"), true, false),
        dir(Some("notes_x"), true, true),
        dir(None, true, true),
        dir(Some("20250102000000_second"), true, true),
    ];
    let out = collect_migrations(&entries);
    let got: Vec<(i64, &str, &str)> =
        out.iter().map(|m| (m.version, m.description.as_str(), m.path.as_str())).collect();
    assert_eq!(
        got,
        vec![
            (20250101000000, "first", "../../../../migrations/20250101000000_first/migration.sql"),
            (20250102000000, "second", "../../../../migrations/20250102000000_second/migration.sql"),
            (20250301000000, "third", "../../../../migrations/20250301000000_third/migration.sql"),
        ]
    );
    assert!(collect_migrations(&vec![]).is_empty());
}

#[test]
fn hex_digests_have_fixed_lengths() {
    assert_eq!(md5_hex(b"x").len(), 32);
    assert_eq!(sha1_hex(b"x").len(), 40);
    assert_eq!(sha256_hex(b"x").len(), 64);
}
