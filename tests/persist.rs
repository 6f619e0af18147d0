use persistent_config::{
    file_path, load_outcome, save_outcome, ConfigError, PersistentConfigDB,
    PersistentConfigParameters, SaveFormat,
};

#[derive(Debug, Clone, PartialEq)]
struct Prefs {
    theme: String,
    volume: i64,
}

impl Default for Prefs {
    fn default() -> Self {
        Prefs { theme: "light".to_string(), volume: 3 }
    }
}

fn params(dir: &str, name: &str, format: SaveFormat, panic_on_error: bool) -> PersistentConfigParameters {
    PersistentConfigParameters {
        config_dir: dir.to_string(),
        file_name: name.to_string(),
        save_format: format,
        panic_on_error,
    }
}

#[test]
fn path_joins_directory_stem_and_extension() {
    assert_eq!(file_path(&params("out", "prefs", SaveFormat::JSON, true)), "out/prefs.json");
    assert_eq!(file_path(&params("conf/", "alpha", SaveFormat::TOML, true)), "conf/alpha.toml");
    assert_eq!(file_path(&params("", "prefs", SaveFormat::YAML, true)), "prefs.yaml");
    assert_eq!(file_path(&params("./.config", "Prefs", SaveFormat::TOML, true)), "./.config/Prefs.toml");
}

#[test]
fn prefs_scenario_path_and_load() {
    let mut db = PersistentConfigDB::new();
    db.add_config("Prefs", params("out", "prefs", SaveFormat::JSON, true));
    let p = db.get_config("Prefs");
    assert_eq!(file_path(p.as_ref().unwrap()), "out/prefs.json");
    assert_eq!(save_outcome(&p, Ok(())), Ok(()));
    let saved = Prefs { theme: "dark".to_string(), volume: 7 };
    let mut fresh = Prefs::default();
    assert_eq!(load_outcome(&p, &mut fresh, Ok(saved.clone()), Prefs::default()), Ok(()));
    assert_eq!(fresh, Prefs { theme: "dark".to_string(), volume: 7 });
}

#[test]
fn missing_file_lenient_gives_default() {
    let p = Some(params("out", "prefs", SaveFormat::TOML, false));
    let mut slot = Prefs { theme: "dark".to_string(), volume: 7 };
    let r = load_outcome(&p, &mut slot, Err(ConfigError::IoError), Prefs::default());
    assert_eq!(r, Ok(()));
    assert_eq!(slot, Prefs::default());
}

#[test]
fn missing_file_strict_fails_and_keeps_value() {
    let p = Some(params("out", "prefs", SaveFormat::TOML, true));
    let mut slot = Prefs { theme: "dark".to_string(), volume: 7 };
    let r = load_outcome(&p, &mut slot, Err(ConfigError::IoError), Prefs::default());
    assert_eq!(r, Err(ConfigError::IoError));
    assert_eq!(slot, Prefs { theme: "dark".to_string(), volume: 7 });
    let r = load_outcome(&p, &mut slot, Err(ConfigError::SerializationError), Prefs::default());
    assert_eq!(r, Err(ConfigError::SerializationError));
    assert_eq!(slot.volume, 7);
}

#[test]
fn unregistered_type_is_never_masked() {
    let mut slot = Prefs { theme: "dark".to_string(), volume: 7 };
    let r = load_outcome(&None, &mut slot, Err(ConfigError::IoError), Prefs::default());
    assert_eq!(r, Err(ConfigError::ConfigNotFound));
    assert_eq!(slot.volume, 7);
    assert_eq!(save_outcome(&None, Ok(())), Err(ConfigError::ConfigNotFound));
    assert_eq!(save_outcome(&None, Err(ConfigError::IoError)), Err(ConfigError::ConfigNotFound));
}

#[test]
fn failed_save_lenient_reports_success() {
    let p = Some(params("/unwritable", "prefs", SaveFormat::JSON, false));
    assert_eq!(save_outcome(&p, Err(ConfigError::IoError)), Ok(()));
    assert_eq!(save_outcome(&p, Err(ConfigError::SerializationError)), Ok(()));
}

#[test]
fn failed_save_strict_reports_error() {
    let p = Some(params("/unwritable", "prefs", SaveFormat::JSON, true));
    assert_eq!(save_outcome(&p, Err(ConfigError::IoError)), Err(ConfigError::IoError));
    assert_eq!(save_outcome(&p, Ok(())), Ok(()));
}
