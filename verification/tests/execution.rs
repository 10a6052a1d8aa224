use redsigil::db::{Exec, Rule, RulesDatabase, Value};
use redsigil::engine::evaluate_rule;
use redsigil::errors::AppError;
use redsigil::onoff::OnOffType;
use redsigil::registry::{get_datatype, get_path_components, Hive, RegDataType};
use redsigil::settings::{apply_settings_file, execute_rule, Settings};
use redsigil::utils::is_big_endian;

fn op(subsystem: &str, path: &str, value: &str, vt: &str, reversed: Option<bool>) -> Exec {
    Exec {
        subsystem: subsystem.to_string(),
        path: path.to_string(),
        value: value.to_string(),
        value_type: vt.to_string(),
        reversed,
    }
}

fn rule(name: &str, admin_required: bool, ops: Vec<Exec>) -> Rule {
    Rule {
        id: name.to_string(),
        name: name.to_string(),
        description: String::new(),
        admin_required,
        value: Value {
            value_type: "onoff".to_string(),
        },
        ops,
    }
}

fn widgets_db() -> RulesDatabase {
    RulesDatabase {
        file: "redsigil.dfckr.db.v1".to_string(),
        rules: vec![rule(
            "ShowTaskbarWidgets",
            false,
            vec![op("registry", "HKCU\\X", "V", "i32", Some(false))],
        )],
    }
}

#[test]
fn gated_rule_skipped_without_elevation() {
    let db = RulesDatabase {
        file: "redsigil.dfckr.db.v1".to_string(),
        rules: vec![rule(
            "Gated",
            true,
            vec![op("registry", "HKLM\\Y", "W", "i32", None)],
        )],
    };
    let writes = execute_rule(&db, "Gated", "off", false, true).unwrap();
    assert!(writes.is_empty());
}

#[test]
fn gated_rule_fails_without_elevation_and_skip() {
    let db = RulesDatabase {
        file: "redsigil.dfckr.db.v1".to_string(),
        rules: vec![rule(
            "Gated",
            true,
            vec![op("registry", "HKLM\\Y", "W", "i32", None)],
        )],
    };
    match execute_rule(&db, "Gated", "off", false, false) {
        Err(AppError::InsufficientPrivilege(n)) => assert_eq!(n, "Gated"),
        other => panic!("expected an insufficient privilege error, got {:?}", other),
    }
}

#[test]
fn end_to_end_apply_off_then_read_back() {
    let db = widgets_db();
    let writes = execute_rule(&db, "ShowTaskbarWidgets", "off", false, true).unwrap();
    assert_eq!(writes.len(), 1);
    assert_eq!(writes[0].path, "HKCU\\X");
    assert_eq!(writes[0].value_name, "V");
    assert_eq!(writes[0].data, 0);
    let current = evaluate_rule(&db.rules[0].ops, &vec!["0".to_string()]).unwrap();
    assert_eq!(current, OnOffType::Off);
    assert_eq!(current.as_str(), "off");
}

#[test]
fn apply_on_writes_one() {
    let db = widgets_db();
    let writes = execute_rule(&db, "ShowTaskbarWidgets", "on", true, false).unwrap();
    assert_eq!(writes.len(), 1);
    assert_eq!(writes[0].data, 1);
}

#[test]
fn apply_reversed_inverts_the_raw_value() {
    let db = RulesDatabase {
        file: "redsigil.dfckr.db.v1".to_string(),
        rules: vec![rule(
            "Inverted",
            false,
            vec![op("registry", "HKCU\\X", "V", "u32", Some(true))],
        )],
    };
    let writes = execute_rule(&db, "Inverted", "on", true, false).unwrap();
    assert_eq!(writes[0].data, 0);
    let writes = execute_rule(&db, "Inverted", "off", true, false).unwrap();
    assert_eq!(writes[0].data, 1);
}

#[test]
fn apply_rejects_invalid_desired_value() {
    let db = widgets_db();
    match execute_rule(&db, "ShowTaskbarWidgets", "maybe", true, false) {
        Err(AppError::InvalidValue(n)) => assert_eq!(n, "ShowTaskbarWidgets"),
        other => panic!("expected an invalid value error, got {:?}", other),
    }
}

#[test]
fn apply_rejects_unknown_subsystem() {
    let db = RulesDatabase {
        file: "redsigil.dfckr.db.v1".to_string(),
        rules: vec![rule(
            "Odd",
            false,
            vec![op("files", "HKCU\\X", "V", "i32", None)],
        )],
    };
    match execute_rule(&db, "Odd", "on", true, false) {
        Err(AppError::UnsupportedSubsystem(s)) => assert_eq!(s, "files"),
        other => panic!("expected an unsupported subsystem error, got {:?}", other),
    }
}

#[test]
fn apply_rejects_text_data_type() {
    let db = RulesDatabase {
        file: "redsigil.dfckr.db.v1".to_string(),
        rules: vec![rule(
            "Odd",
            false,
            vec![op("registry", "HKCU\\X", "V", "string", None)],
        )],
    };
    match execute_rule(&db, "Odd", "on", true, false) {
        Err(AppError::UnsupportedDataType(s)) => assert_eq!(s, "string"),
        other => panic!("expected an unsupported data type error, got {:?}", other),
    }
}

#[test]
fn apply_settings_concatenates_writes_in_order() {
    let db = RulesDatabase {
        file: "redsigil.dfckr.db.v1".to_string(),
        rules: vec![
            rule("A", false, vec![op("registry", "HKCU\\A", "V", "i32", None)]),
            rule("B", false, vec![op("registry", "HKCU\\B", "W", "i32", None)]),
        ],
    };
    let settings = Settings {
        file: "redsigil.dfckr.settings.v1".to_string(),
        settings: vec![
            ("A".to_string(), "on".to_string()),
            ("B".to_string(), "off".to_string()),
        ],
    };
    let writes = apply_settings_file(&db, &settings, true, false).unwrap();
    assert_eq!(writes.len(), 2);
    assert_eq!(writes[0].path, "HKCU\\A");
    assert_eq!(writes[0].data, 1);
    assert_eq!(writes[1].path, "HKCU\\B");
    assert_eq!(writes[1].data, 0);
}

#[test]
fn apply_settings_stops_at_the_first_failure() {
    let db = RulesDatabase {
        file: "redsigil.dfckr.db.v1".to_string(),
        rules: vec![
            rule("A", false, vec![op("registry", "HKCU\\A", "V", "i32", None)]),
            rule("Gated", true, vec![op("registry", "HKLM\\B", "W", "i32", None)]),
        ],
    };
    let settings = Settings {
        file: "redsigil.dfckr.settings.v1".to_string(),
        settings: vec![
            ("A".to_string(), "on".to_string()),
            ("Gated".to_string(), "off".to_string()),
        ],
    };
    match apply_settings_file(&db, &settings, false, false) {
        Err(AppError::InsufficientPrivilege(n)) => assert_eq!(n, "Gated"),
        other => panic!("expected an insufficient privilege error, got {:?}", other),
    }
    let writes = apply_settings_file(&db, &settings, false, true).unwrap();
    assert_eq!(writes.len(), 1);
    assert_eq!(writes[0].path, "HKCU\\A");
}

#[test]
fn path_components_split_at_the_first_backslash() {
    let (hive, rest) = get_path_components("HKLM\\SOFTWARE\\X").unwrap();
    assert_eq!(hive, Hive::LocalMachine);
    assert_eq!(rest, "SOFTWARE\\X");
    let (hive, rest) = get_path_components("HKEY_CURRENT_USER\\A").unwrap();
    assert_eq!(hive, Hive::CurrentUser);
    assert_eq!(rest, "A");
}

#[test]
fn path_without_backslash_is_invalid() {
    assert!(matches!(
        get_path_components("HKLM"),
        Err(AppError::InvalidPath)
    ));
}

#[test]
fn path_with_unknown_root_is_invalid() {
    assert!(matches!(
        get_path_components("NOPE\\A"),
        Err(AppError::InvalidPath)
    ));
}

#[test]
fn datatype_mapping_folds_case() {
    assert_eq!(get_datatype("U32").unwrap(), RegDataType::Dword);
    assert_eq!(get_datatype("i32").unwrap(), RegDataType::Dword);
    assert_eq!(get_datatype("I64").unwrap(), RegDataType::Qword);
    assert_eq!(get_datatype("String").unwrap(), RegDataType::Text);
    match get_datatype("f64") {
        Err(AppError::UnsupportedDataType(s)) => assert_eq!(s, "f64"),
        other => panic!("expected an unsupported data type error, got {:?}", other),
    }
}

#[test]
fn onoff_conversions() {
    assert_eq!(OnOffType::from_string("0"), OnOffType::Off);
    assert_eq!(OnOffType::from_string("7"), OnOffType::On);
    assert_eq!(OnOffType::from_str("on"), Some(OnOffType::On));
    assert_eq!(OnOffType::from_str("off"), Some(OnOffType::Off));
    assert_eq!(OnOffType::from_str("On"), None);
    assert_eq!(OnOffType::On.flipped(), OnOffType::Off);
    assert_eq!(OnOffType::Off.flipped(), OnOffType::On);
    assert_eq!(OnOffType::On.as_u32(), 1);
    assert_eq!(OnOffType::Off.as_u32(), 0);
    assert_eq!(OnOffType::On.as_str(), "on");
    assert_eq!(OnOffType::Off.as_str(), "off");
}

#[test]
fn this_machine_is_little_endian() {
    assert!(!is_big_endian());
}
