use cargo_xfmt::cargo_toml::CargoToml;
use cargo_xfmt::document::boolean_text;
use cargo_xfmt::document::find_value;
use cargo_xfmt::document::integer_text;
use cargo_xfmt::document::parse;
use cargo_xfmt::document::parse_failure;
use cargo_xfmt::document::TomlValue;
use cargo_xfmt::error::IoOperation;
use cargo_xfmt::error::ValueKind;
use cargo_xfmt::error::XfmtError;
use cargo_xfmt::rustfmt_toml::Rename;
use cargo_xfmt::rustfmt_toml::RustfmtToml;
use cargo_xfmt::snapshot::Node;
use cargo_xfmt::snapshot::Snapshot;

fn pairs(items: &[(&str, &str)]) -> Vec<(String, String)> {
    items.iter().map(|(k, v)| (k.to_string(), v.to_string())).collect()
}

fn tree(cwd: Option<&str>, dirs: &[&str], files: &[(&str, &str)]) -> Snapshot {
    let mut fs = Snapshot::new(cwd.map(|s| s.to_string()));
    for dir in dirs {
        fs.record(dir.to_string(), Node::Directory);
    }
    for (path, text) in files {
        fs.record(path.to_string(), Node::File(text.to_string()));
    }
    fs
}

#[test]
fn integers_are_written_in_decimal() {
    assert_eq!(integer_text(0), "0");
    assert_eq!(integer_text(7), "7");
    assert_eq!(integer_text(10), "10");
    assert_eq!(integer_text(100), "100");
    assert_eq!(integer_text(1234567890), "1234567890");
    assert_eq!(integer_text(-1), "-1");
    assert_eq!(integer_text(-40), "-40");
    assert_eq!(integer_text(i64::MAX), "9223372036854775807");
    assert_eq!(integer_text(i64::MIN), "-9223372036854775808");
    assert_eq!(integer_text(i64::MIN), i64::MIN.to_string());
}

#[test]
fn booleans_are_written_as_words() {
    assert_eq!(boolean_text(true), "true");
    assert_eq!(boolean_text(false), "false");
}

#[test]
fn document_keeps_the_order_of_the_text() {
    let items = parse("zeta = 1\nalpha = 2\nmiddle = 3\n").unwrap();
    let keys: Vec<&str> = items.iter().map(|(k, _)| k.as_str()).collect();
    assert_eq!(keys, vec!["zeta", "alpha", "middle"]);
}

#[test]
fn document_values_by_kind() {
    let items = parse(
        "s = \"text\"\ni = -12\nf = 1.5\nb = true\nd = 1979-05-27T07:32:00Z\na = [1, 2]\n[t]\nx = 1\n",
    )
    .unwrap();
    assert_eq!(items.len(), 7);
    assert_eq!(items[0], ("s".to_string(), TomlValue::String("text".to_string())));
    assert_eq!(items[1], ("i".to_string(), TomlValue::Integer(-12)));
    assert_eq!(items[2], ("f".to_string(), TomlValue::Float("1.5".to_string())));
    assert_eq!(items[3], ("b".to_string(), TomlValue::Boolean(true)));
    assert_eq!(items[4], ("d".to_string(), TomlValue::Datetime("1979-05-27T07:32:00Z".to_string())));
    assert_eq!(items[5], ("a".to_string(), TomlValue::Array));
    assert_eq!(items[5].1.kind(), ValueKind::Array);
    assert_eq!(items[6].0, "t");
    assert_eq!(items[6].1.kind(), ValueKind::Table);
    let mut inner = toml::Table::new();
    inner.insert("x".to_string(), toml::Value::Integer(1));
    assert_eq!(items[6].1, TomlValue::Table(inner));
    assert_eq!(items[0].1.kind(), ValueKind::String);
    assert_eq!(items[1].1.kind(), ValueKind::Integer);
    assert_eq!(items[2].1.kind(), ValueKind::Float);
    assert_eq!(items[3].1.kind(), ValueKind::Boolean);
    assert_eq!(items[4].1.kind(), ValueKind::Datetime);
}

#[test]
fn scalars_have_text_and_containers_have_none() {
    assert_eq!(TomlValue::String("x y".to_string()).scalar_text(), Some("x y".to_string()));
    assert_eq!(TomlValue::Integer(100).scalar_text(), Some("100".to_string()));
    assert_eq!(TomlValue::Float("0.25".to_string()).scalar_text(), Some("0.25".to_string()));
    assert_eq!(TomlValue::Boolean(false).scalar_text(), Some("false".to_string()));
    assert_eq!(
        TomlValue::Datetime("2024-01-02".to_string()).scalar_text(),
        Some("2024-01-02".to_string())
    );
    assert_eq!(TomlValue::Array.scalar_text(), None);
    assert_eq!(TomlValue::Table(toml::Table::new()).scalar_text(), None);
}

#[test]
fn text_that_is_no_document_is_refused() {
    assert_eq!(parse("max_width = = 3"), Err(XfmtError::Parse));
    assert_eq!(parse("a = 1\na = 2\n"), Err(XfmtError::Parse));
    assert!(parse_failure("max_width = = 3").is_some());
    assert_eq!(parse_failure("max_width = 3"), None);
    assert_eq!(parse(""), Ok(Vec::new()));
}

#[test]
fn first_entry_of_a_key_is_found() {
    let items = vec![
        ("a".to_string(), TomlValue::Integer(1)),
        ("b".to_string(), TomlValue::Integer(2)),
        ("a".to_string(), TomlValue::Integer(3)),
    ];
    assert_eq!(find_value(&items, "a"), Some(&TomlValue::Integer(1)));
    assert_eq!(find_value(&items, "b"), Some(&TomlValue::Integer(2)));
    assert_eq!(find_value(&items, "c"), None);
}

#[test]
fn manifest_with_edition() {
    let manifest = CargoToml::parse("[package]\nname = \"x\"\nedition = \"2021\"\n").unwrap();
    assert_eq!(manifest.edition, Some("2021".to_string()));
    let dotted = CargoToml::parse("package.edition = \"2018\"\n").unwrap();
    assert_eq!(dotted.edition, Some("2018".to_string()));
}

#[test]
fn manifest_without_edition_has_none() {
    let manifest = CargoToml::parse("[package]\nname = \"x\"\n").unwrap();
    assert_eq!(manifest.edition, None);
}

#[test]
fn manifest_with_edition_of_wrong_type_is_malformed() {
    assert_eq!(CargoToml::parse("[package]\nedition = 2021\n"), Err(XfmtError::MalformedManifest));
    assert_eq!(
        CargoToml::parse("[package]\nedition = [\"2021\"]\n"),
        Err(XfmtError::MalformedManifest)
    );
}

#[test]
fn manifest_without_package_table_is_malformed() {
    assert_eq!(CargoToml::parse("[workspace]\nmembers = []\n"), Err(XfmtError::MalformedManifest));
    assert_eq!(CargoToml::parse("package = 3\n"), Err(XfmtError::MalformedManifest));
    assert_eq!(CargoToml::parse(""), Err(XfmtError::MalformedManifest));
}

#[test]
fn manifest_that_is_no_document_is_refused() {
    assert_eq!(CargoToml::parse("[package\n"), Err(XfmtError::Parse));
}

#[test]
fn manifest_from_items_written_by_hand() {
    let mut package = toml::Table::new();
    package.insert("name".to_string(), toml::Value::String("x".to_string()));
    package.insert("edition".to_string(), toml::Value::String("2024".to_string()));
    let items = vec![
        ("lib".to_string(), TomlValue::Array),
        ("package".to_string(), TomlValue::Table(package)),
    ];
    assert_eq!(CargoToml::from_items(&items), Ok(CargoToml { edition: Some("2024".to_string()) }));
    let none = vec![("package".to_string(), TomlValue::Table(toml::Table::new()))];
    assert_eq!(CargoToml::from_items(&none), Ok(CargoToml { edition: None }));
    let scalar = vec![("package".to_string(), TomlValue::String("x".to_string()))];
    assert_eq!(CargoToml::from_items(&scalar), Err(XfmtError::MalformedManifest));
}

#[test]
fn manifest_is_found_and_read_from_the_nearest_directory() {
    let fs = tree(
        None,
        &["/w", "/w/member", "/w/member/src"],
        &[
            ("/w/Cargo.toml", "[package]\nedition = \"2015\"\n"),
            ("/w/member/Cargo.toml", "[package]\nedition = \"2021\"\n"),
            ("/w/member/src/lib.rs", ""),
        ],
    );
    assert_eq!(CargoToml::find("/w/member/src/lib.rs", &fs), Ok(Some("/w/member/Cargo.toml".to_string())));
    assert_eq!(
        CargoToml::read_from("/w/member/src/lib.rs", &fs),
        Ok(CargoToml { edition: Some("2021".to_string()) })
    );
    assert_eq!(CargoToml::read_from("/w", &fs), Ok(CargoToml { edition: Some("2015".to_string()) }));
    assert_eq!(
        CargoToml::read("/w/Cargo.toml", &fs),
        Ok(CargoToml { edition: Some("2015".to_string()) })
    );
    assert_eq!(CargoToml::read("/w/none.toml", &fs), Err(XfmtError::Io(IoOperation::Read)));
}

#[test]
fn manifest_not_found() {
    let fs = tree(None, &["/w"], &[("/w/rustfmt.toml", "")]);
    assert_eq!(CargoToml::find("/w", &fs), Ok(None));
    assert_eq!(CargoToml::read_from("/w", &fs), Err(XfmtError::ManifestNotFound));
    assert_eq!(CargoToml::read_from("/missing", &fs), Err(XfmtError::Io(IoOperation::Metadata)));
}

#[test]
fn config_entries_become_text_in_key_order() {
    let config =
        RustfmtToml::parse("/p/rustfmt.toml", "max_width = 100\nhard_tabs = true\n").unwrap();
    assert_eq!(config.config(), &pairs(&[("max_width", "100"), ("hard_tabs", "true")]));
    assert_eq!(config.config_path(), "/p/rustfmt.toml");
    assert_eq!(config.config_dir(), "/p");
    assert!(!config.is_hidden());
}

#[test]
fn config_with_mixed_scalars() {
    let config = RustfmtToml::parse(
        "/p/.rustfmt.toml",
        "edition = \"2021\"\ntab_spaces = -4\nratio = 0.5\nwhole = 2.0\nreorder = false\nsince = 2020-01-01\n",
    )
    .unwrap();
    assert_eq!(
        config.config(),
        &pairs(&[
            ("edition", "2021"),
            ("tab_spaces", "-4"),
            ("ratio", "0.5"),
            ("whole", "2"),
            ("reorder", "false"),
            ("since", "2020-01-01"),
        ])
    );
}

#[test]
fn config_with_an_array_is_unsupported() {
    assert_eq!(
        RustfmtToml::parse("/p/rustfmt.toml", "ignore = [\"a.rs\"]\n"),
        Err(XfmtError::UnsupportedConfigValue(ValueKind::Array))
    );
}

#[test]
fn config_with_a_table_is_unsupported() {
    assert_eq!(
        RustfmtToml::parse("/p/rustfmt.toml", "max_width = 3\n[section]\nx = 1\n"),
        Err(XfmtError::UnsupportedConfigValue(ValueKind::Table))
    );
}

#[test]
fn first_unsupported_value_names_the_kind() {
    assert_eq!(
        RustfmtToml::parse("/p/rustfmt.toml", "a = 1\nt = { x = 1 }\nl = [1]\n"),
        Err(XfmtError::UnsupportedConfigValue(ValueKind::Table))
    );
    let items = vec![
        ("l".to_string(), TomlValue::Array),
        ("t".to_string(), TomlValue::Table(toml::Table::new())),
    ];
    assert_eq!(
        RustfmtToml::from_items("/p/rustfmt.toml", &items),
        Err(XfmtError::UnsupportedConfigValue(ValueKind::Array))
    );
}

#[test]
fn config_that_is_no_document_is_refused_first() {
    assert_eq!(RustfmtToml::parse("/", "x = = 1"), Err(XfmtError::Parse));
}

#[test]
fn unsupported_value_is_reported_before_a_missing_parent() {
    assert_eq!(
        RustfmtToml::parse("/", "ignore = []\n"),
        Err(XfmtError::UnsupportedConfigValue(ValueKind::Array))
    );
}

#[test]
fn config_path_without_parent() {
    assert_eq!(RustfmtToml::parse("/", "max_width = 3\n"), Err(XfmtError::NoParentDirectory));
    assert_eq!(RustfmtToml::from_items("", &Vec::new()), Err(XfmtError::NoParentDirectory));
}

#[test]
fn dotted_file_in_the_same_directory_wins() {
    let fs = tree(
        None,
        &["/b", "/b/a"],
        &[("/b/a/.rustfmt.toml", "max_width = 40\n"), ("/b/rustfmt.toml", "max_width = 80\n")],
    );
    assert_eq!(RustfmtToml::find("/b/a", &fs), Ok(Some("/b/a/.rustfmt.toml".to_string())));
    let config = RustfmtToml::read_from("/b/a", &fs).unwrap();
    assert_eq!(config.config_path(), "/b/a/.rustfmt.toml");
    assert_eq!(config.config(), &pairs(&[("max_width", "40")]));
}

#[test]
fn farther_dotted_file_beats_nearer_plain_file() {
    let fs = tree(
        None,
        &["/b", "/b/a"],
        &[("/b/.rustfmt.toml", "max_width = 80\n"), ("/b/a/rustfmt.toml", "max_width = 40\n")],
    );
    assert_eq!(RustfmtToml::find("/b/a", &fs), Ok(Some("/b/.rustfmt.toml".to_string())));
    assert_eq!(RustfmtToml::read_from("/b/a", &fs).unwrap().config(), &pairs(&[("max_width", "80")]));
}

#[test]
fn plain_file_is_used_where_no_dotted_file_exists() {
    let fs = tree(
        None,
        &["/b", "/b/a"],
        &[("/b/rustfmt.toml", "max_width = 80\n"), ("/rustfmt.toml", "max_width = 120\n")],
    );
    assert_eq!(RustfmtToml::find("/b/a", &fs), Ok(Some("/b/rustfmt.toml".to_string())));
}

#[test]
fn config_not_found() {
    let fs = tree(None, &["/b"], &[("/b/Cargo.toml", "")]);
    assert_eq!(RustfmtToml::find("/b", &fs), Ok(None));
    assert_eq!(RustfmtToml::read_from("/b", &fs), Err(XfmtError::ConfigNotFound));
    assert_eq!(RustfmtToml::read_from("/c", &fs), Err(XfmtError::Io(IoOperation::Metadata)));
}

#[test]
fn config_that_cannot_be_read() {
    let mut fs = Snapshot::new(None);
    fs.record("/b".to_string(), Node::Directory);
    fs.record("/b/rustfmt.toml".to_string(), Node::Unreadable);
    assert_eq!(RustfmtToml::read_from("/b", &fs), Err(XfmtError::Io(IoOperation::Read)));
    assert_eq!(RustfmtToml::read("/b/rustfmt.toml", &fs), Err(XfmtError::Io(IoOperation::Read)));
    assert_eq!(RustfmtToml::read("/b/other.toml", &fs), Err(XfmtError::Io(IoOperation::Read)));
}

#[test]
fn hiding_and_bringing_back_are_inverse_renames() {
    let config = RustfmtToml::parse("/p/q/.rustfmt.toml", "").unwrap();
    assert_eq!(
        config.hiding(),
        Rename { from: "/p/q/.rustfmt.toml".to_string(), to: "/p/q/_.rustfmt.toml".to_string() }
    );
    assert_eq!(
        config.unhiding(),
        Rename { from: "/p/q/_.rustfmt.toml".to_string(), to: "/p/q/.rustfmt.toml".to_string() }
    );
    let plain = RustfmtToml::parse("/p/rustfmt.toml", "").unwrap();
    assert_eq!(
        plain.hiding(),
        Rename { from: "/p/rustfmt.toml".to_string(), to: "/p/_rustfmt.toml".to_string() }
    );
    let nameless = RustfmtToml::parse("/p/..", "").unwrap();
    assert_eq!(nameless.config_dir(), "/p");
    assert_eq!(nameless.hiding().to, "/p/_rustfmt.toml");
}

#[test]
fn hidden_flag_follows_successful_renames_only() {
    let mut config = RustfmtToml::parse("/p/rustfmt.toml", "a = 1\n").unwrap();
    assert_eq!(config.teardown(), None);
    assert_eq!(config.hide_file(false), Err(XfmtError::Io(IoOperation::Rename)));
    assert!(!config.is_hidden());
    assert_eq!(config.hide_file(true), Ok(()));
    assert!(config.is_hidden());
    assert_eq!(config.teardown(), Some(config.unhiding()));
    assert_eq!(config.unhide(false), Err(XfmtError::Io(IoOperation::Rename)));
    assert!(config.is_hidden());
    assert_eq!(config.unhide(true), Ok(()));
    assert!(!config.is_hidden());
    assert_eq!(config.teardown(), None);
    assert_eq!(config.config(), &pairs(&[("a", "1")]));
    assert_eq!(config.config_path(), "/p/rustfmt.toml");
}

#[test]
fn errors_in_words() {
    assert_eq!(XfmtError::ManifestNotFound.message(), "Unable to find Cargo.toml");
    assert_eq!(XfmtError::ConfigNotFound.message(), "Unable to find rustfmt.toml");
    assert_eq!(
        XfmtError::UnsupportedConfigValue(ValueKind::Array).message(),
        "Unsupported config type: Array"
    );
    assert_eq!(
        XfmtError::UnsupportedConfigValue(ValueKind::Table).message(),
        "Unsupported config type: Table"
    );
    assert_eq!(XfmtError::NoParentDirectory.message(), "Unable to find parent of config file");
    assert_eq!(XfmtError::NotFound.message(), "Unable to find parent");
    assert_eq!(XfmtError::Parse.message(), "Unable to parse a file as TOML");
    assert_eq!(XfmtError::SpawnFailure.message(), "Unable to start the formatter");
    assert_eq!(
        XfmtError::MalformedManifest.message(),
        "Cargo.toml missing 'package', or 'package.edition' is no string"
    );
    assert_eq!(
        XfmtError::Io(IoOperation::CurrentDir).message(),
        "Unable to determine the working directory"
    );
    assert_eq!(XfmtError::Io(IoOperation::Rename).message(), IoOperation::Rename.message());
    assert_eq!(IoOperation::Metadata.message(), "Unable to find the path to start from");
    assert_eq!(IoOperation::Read.message(), "Unable to read a file as text");
    assert_eq!(IoOperation::Write.message(), "Unable to write the formatted file");
    assert_eq!(IoOperation::Child.message(), "Unable to talk to the formatter");
    assert_eq!(ValueKind::String.name(), "String");
    assert_eq!(ValueKind::Integer.name(), "Integer");
    assert_eq!(ValueKind::Float.name(), "Float");
    assert_eq!(ValueKind::Boolean.name(), "Boolean");
    assert_eq!(ValueKind::Datetime.name(), "Datetime");
}

#[test]
fn entries_of_a_nested_table() {
    let items = parse("[package]\nname = \"x\"\nedition = \"2021\"\nversion = 3\n").unwrap();
    let package = items[0].1.entries().unwrap();
    assert_eq!(
        package,
        vec![
            ("name".to_string(), TomlValue::String("x".to_string())),
            ("edition".to_string(), TomlValue::String("2021".to_string())),
            ("version".to_string(), TomlValue::Integer(3)),
        ]
    );
    assert_eq!(TomlValue::Integer(3).entries(), None);
    assert_eq!(TomlValue::Array.entries(), None);
}
