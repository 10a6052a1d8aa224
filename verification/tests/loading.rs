use redsigil::db::{find_rule, read_database};
use redsigil::errors::AppError;
use redsigil::settings::read_settings_file;

const DB_TEXT: &str = "file: redsigil.dfckr.db.v1\nrules:\n  - rule: widgets.taskbar\n    arg: ShowTaskbarWidgets\n    description: Show widgets on the taskbar\n    admin_required: false\n    value:\n      type: onoff\n    exec:\n      - subsystem: registry\n        path: HKCU\\X\n        value: V\n        type: i32\n        reversed: false\n  - rule: telemetry.basic\n    arg: Telemetry\n    admin_required: true\n    value:\n      type: onoff\n    exec:\n      - subsystem: registry\n        path: HKLM\\Y\n        value: W\n        type: i32\n        reversed: true\n      - subsystem: registry\n        path: HKLM\\Z\n        value: U\n        type: i32\n";

#[test]
fn db_load_counts_and_names() {
    let db = read_database(DB_TEXT).unwrap();
    assert_eq!(db.file, "redsigil.dfckr.db.v1");
    assert_eq!(db.rules.len(), 2);
    assert_eq!(db.rules[0].name, "ShowTaskbarWidgets");
    assert_eq!(db.rules[0].id, "widgets.taskbar");
    assert_eq!(db.rules[0].description, "Show widgets on the taskbar");
    assert!(!db.rules[0].admin_required);
    assert_eq!(db.rules[0].value.value_type, "onoff");
    assert_eq!(db.rules[0].ops.len(), 1);
    assert_eq!(db.rules[0].ops[0].subsystem, "registry");
    assert_eq!(db.rules[0].ops[0].path, "HKCU\\X");
    assert_eq!(db.rules[0].ops[0].value, "V");
    assert_eq!(db.rules[0].ops[0].value_type, "i32");
    assert_eq!(db.rules[0].ops[0].reversed, Some(false));
    assert_eq!(db.rules[1].name, "Telemetry");
    assert!(db.rules[1].admin_required);
    assert_eq!(db.rules[1].ops.len(), 2);
    assert_eq!(db.rules[1].ops[0].reversed, Some(true));
    assert_eq!(db.rules[1].ops[1].reversed, None);
}

#[test]
fn db_load_defaults_missing_fields() {
    let text = "file: redsigil.dfckr.db.v1\nrules:\n  - rule: r\n";
    let db = read_database(text).unwrap();
    assert_eq!(db.rules.len(), 1);
    assert_eq!(db.rules[0].name, "");
    assert_eq!(db.rules[0].description, "");
    assert!(!db.rules[0].admin_required);
    assert_eq!(db.rules[0].value.value_type, "");
    assert_eq!(db.rules[0].ops.len(), 0);
}

#[test]
fn db_load_rejects_wrong_marker() {
    let text = "file: something.else.v9\nrules: []\n";
    match read_database(text) {
        Err(AppError::FormatMismatch(m)) => assert_eq!(m, "something.else.v9"),
        other => panic!("expected a format mismatch, got {:?}", other),
    }
}

#[test]
fn db_load_rejects_missing_rules_section() {
    let text = "file: redsigil.dfckr.db.v1\n";
    assert!(matches!(
        read_database(text),
        Err(AppError::MalformedDocument)
    ));
}

#[test]
fn db_load_rejects_empty_text() {
    assert!(matches!(read_database(""), Err(AppError::MalformedDocument)));
}

#[test]
fn db_duplicate_names_last_wins() {
    let text = "file: redsigil.dfckr.db.v1\nrules:\n  - rule: first\n    arg: Twice\n  - rule: second\n    arg: Twice\n";
    let db = read_database(text).unwrap();
    assert_eq!(db.rules.len(), 2);
    let rule = find_rule(&db, "Twice").unwrap();
    assert_eq!(rule.id, "second");
    assert!(find_rule(&db, "Absent").is_none());
}

#[test]
fn settings_load_keeps_text_pairs_only() {
    let text = "file: redsigil.dfckr.settings.v1\nsettings:\n  ShowTaskbarWidgets: on\n  Telemetry: off\n  Oddity: 5\n";
    let s = read_settings_file(text).unwrap();
    assert_eq!(s.file, "redsigil.dfckr.settings.v1");
    assert_eq!(
        s.settings,
        vec![
            ("ShowTaskbarWidgets".to_string(), "on".to_string()),
            ("Telemetry".to_string(), "off".to_string()),
        ]
    );
}

#[test]
fn settings_load_rejects_wrong_marker() {
    let text = "file: redsigil.dfckr.db.v1\nsettings:\n  A: on\n";
    match read_settings_file(text) {
        Err(AppError::FormatMismatch(m)) => assert_eq!(m, "redsigil.dfckr.db.v1"),
        other => panic!("expected a format mismatch, got {:?}", other),
    }
}

#[test]
fn settings_load_rejects_missing_file_field() {
    let text = "settings:\n  A: on\n";
    assert!(matches!(
        read_settings_file(text),
        Err(AppError::MalformedDocument)
    ));
}

#[test]
fn settings_load_rejects_missing_settings_section() {
    let text = "file: redsigil.dfckr.settings.v1\n";
    assert!(matches!(
        read_settings_file(text),
        Err(AppError::MalformedDocument)
    ));
}
