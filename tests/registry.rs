use persistent_config::{
    builder_parameters, default_file_name, default_save_parameters, short_name, ConfigError, PersistentConfigBuilder,
    PersistentConfigDB, PersistentConfigParameters, SaveFormat,
};

fn params(dir: &str, name: &str, format: SaveFormat, panic_on_error: bool) -> PersistentConfigParameters {
    PersistentConfigParameters {
        config_dir: dir.to_string(),
        file_name: name.to_string(),
        save_format: format,
        panic_on_error,
    }
}

fn same(a: &PersistentConfigParameters, b: &PersistentConfigParameters) -> bool {
    a.config_dir == b.config_dir
        && a.file_name == b.file_name
        && a.save_format == b.save_format
        && a.panic_on_error == b.panic_on_error
}

#[derive(Debug, Default, Clone, PartialEq)]
struct Settings {
    level: u32,
}

impl PersistentConfigBuilder for Settings {
    const TYPE_KEY: &'static str = "my_app::config::Settings";
}

#[test]
fn extensions_of_each_format() {
    assert_eq!(SaveFormat::JSON.ext(), "json");
    assert_eq!(SaveFormat::TOML.ext(), "toml");
    assert_eq!(SaveFormat::YAML.ext(), "yaml");
    assert_eq!(SaveFormat::YAML.to_name(), "yaml".to_string());
    assert_eq!(SaveFormat::default(), SaveFormat::TOML);
}

#[test]
fn format_names_are_read_exactly() {
    assert_eq!(SaveFormat::from_name("json"), Some(SaveFormat::JSON));
    assert_eq!(SaveFormat::from_name("toml"), Some(SaveFormat::TOML));
    assert_eq!(SaveFormat::from_name("yaml"), Some(SaveFormat::YAML));
    assert_eq!(SaveFormat::from_name("JSON"), None);
    assert_eq!(SaveFormat::from_name("xml"), None);
    assert_eq!(SaveFormat::from_name(""), None);
}

#[test]
fn default_parameters() {
    let p = PersistentConfigParameters::default();
    assert_eq!(p.config_dir, "./config");
    assert_eq!(p.file_name, "");
    assert_eq!(p.save_format, SaveFormat::TOML);
    assert!(p.panic_on_error);
}

#[test]
fn merge_takes_non_empty_strings_of_override() {
    let base = params("base_dir", "base_name", SaveFormat::JSON, false);
    let over = params("", "over_name", SaveFormat::TOML, false);
    let m = PersistentConfigParameters::merge(&base, &over);
    assert_eq!(m.config_dir, "base_dir");
    assert_eq!(m.file_name, "over_name");
    let over = params("over_dir", "", SaveFormat::TOML, false);
    let m = PersistentConfigParameters::merge(&base, &over);
    assert_eq!(m.config_dir, "over_dir");
    assert_eq!(m.file_name, "base_name");
}

#[test]
fn merge_keeps_base_format_when_override_is_default() {
    let base = params("d", "n", SaveFormat::JSON, true);
    let m = PersistentConfigParameters::merge(&base, &params("", "", SaveFormat::TOML, true));
    assert_eq!(m.save_format, SaveFormat::JSON);
    let m = PersistentConfigParameters::merge(&base, &params("", "", SaveFormat::YAML, true));
    assert_eq!(m.save_format, SaveFormat::YAML);
}

#[test]
fn merge_always_takes_override_error_policy() {
    let base = params("d", "n", SaveFormat::JSON, false);
    let m = PersistentConfigParameters::merge(&base, &PersistentConfigParameters::unset());
    assert!(m.panic_on_error);
    assert_eq!(m.config_dir, "d");
    assert_eq!(m.file_name, "n");
    assert_eq!(m.save_format, SaveFormat::JSON);
    let base = params("d", "n", SaveFormat::JSON, true);
    let m = PersistentConfigParameters::merge(&base, &params("", "", SaveFormat::TOML, false));
    assert!(!m.panic_on_error);
}

#[test]
fn get_returns_what_was_added() {
    let mut db = PersistentConfigDB::new();
    let p = params("out", "prefs", SaveFormat::JSON, false);
    db.add_config("Prefs", p.clone());
    let got = db.get_config("Prefs").unwrap();
    assert!(same(&got, &p));
}

#[test]
fn last_registration_wins() {
    let mut db = PersistentConfigDB::default();
    db.add_config("Prefs", params("a", "first", SaveFormat::JSON, true));
    db.add_config("Other", params("b", "other", SaveFormat::YAML, false));
    let second = params("c", "second", SaveFormat::YAML, false);
    db.add_config("Prefs", second.clone());
    assert!(same(&db.get_config("Prefs").unwrap(), &second));
    assert_eq!(db.get_config("Other").unwrap().file_name, "other");
}

#[test]
fn unregistered_key_has_no_config() {
    let mut db = PersistentConfigDB::new();
    assert!(db.get_config("Prefs").is_none());
    db.add_config("Prefs", PersistentConfigParameters::default());
    assert!(db.get_config("prefs").is_none());
    assert!(db.get_config("Prefs").is_some());
}

#[test]
fn short_name_takes_last_path_segment() {
    assert_eq!(short_name("my_app::config::Settings"), "Settings");
    assert_eq!(short_name("Settings"), "Settings");
    assert_eq!(short_name(""), "");
    assert_eq!(short_name("a::"), "");
    assert_eq!(short_name("a:::b"), ":b");
    assert_eq!(short_name("a:b"), "a:b");
}

#[test]
fn builder_fills_in_missing_directory_and_name() {
    let p = builder_parameters("my_app::Prefs", None, None, SaveFormat::YAML, false);
    assert_eq!(p.config_dir, "./.config");
    assert_eq!(p.file_name, "Prefs");
    assert_eq!(p.save_format, SaveFormat::YAML);
    assert!(!p.panic_on_error);
    let p = builder_parameters("my_app::Prefs", Some("./some_dir"), Some("some_name"), SaveFormat::JSON, true);
    assert_eq!(p.config_dir, "./some_dir");
    assert_eq!(p.file_name, "some_name");
    let p = default_save_parameters("Prefs", true);
    assert_eq!(p.config_dir, "./.config");
    assert_eq!(p.file_name, "Prefs");
    assert_eq!(p.save_format, SaveFormat::TOML);
    assert!(p.panic_on_error);
}

#[test]
fn trait_builders_register_under_type_key() {
    let mut db = PersistentConfigDB::new();
    let s = Settings::default();
    assert_eq!(s.config_builder(&mut db, None, Some("custom"), SaveFormat::JSON, false), Ok(()));
    let p = Settings::registered_config(&db).unwrap();
    assert_eq!(p.config_dir, "./.config");
    assert_eq!(p.file_name, "custom");
    assert_eq!(p.save_format, SaveFormat::JSON);
    assert!(!p.panic_on_error);
    assert_eq!(s.default_save_config(&mut db, true), Ok::<(), ConfigError>(()));
    let p = db.get_config("my_app::config::Settings").unwrap();
    assert_eq!(p.file_name, "Settings");
    assert_eq!(p.save_format, SaveFormat::TOML);
    assert!(p.panic_on_error);
}

#[test]
fn unset_parameters_are_empty() {
    let p = PersistentConfigParameters::unset();
    assert_eq!(p.config_dir, "");
    assert_eq!(p.file_name, "");
    assert_eq!(p.save_format, SaveFormat::TOML);
    assert!(p.panic_on_error);
}

#[test]
fn empty_file_name_falls_back_and_empty_directory_is_kept() {
    let p = builder_parameters("my_app::Prefs", Some(""), Some(""), SaveFormat::JSON, true);
    assert_eq!(p.config_dir, "");
    assert_eq!(p.file_name, "Prefs");
    let mut db = PersistentConfigDB::new();
    let s = Settings::default();
    s.config_builder(&mut db, Some(""), Some(""), SaveFormat::YAML, false).unwrap();
    let p = Settings::registered_config(&db).unwrap();
    assert_eq!(p.config_dir, "");
    assert_eq!(p.file_name, "Settings");
    s.config_builder(&mut db, Some("d"), Some("f"), SaveFormat::JSON, true).unwrap();
    let p = Settings::registered_config(&db).unwrap();
    assert_eq!(p.config_dir, "d");
    assert_eq!(p.file_name, "f");
    assert_eq!(p.save_format, SaveFormat::JSON);
    assert!(p.panic_on_error);
}

#[test]
fn formats_convert_to_and_from_strings() {
    assert_eq!(SaveFormat::try_from("json"), Ok(SaveFormat::JSON));
    assert_eq!(SaveFormat::try_from("yaml".to_string()), Ok(SaveFormat::YAML));
    assert_eq!(
        SaveFormat::try_from("xml"),
        Err("Unsupported format: use 'json', 'toml', or 'yaml'")
    );
    assert_eq!(
        SaveFormat::try_from(String::from("Toml")),
        Err("Unsupported format: use 'json', 'toml', or 'yaml'")
    );
    assert_eq!(String::try_from(SaveFormat::TOML), Ok("toml".to_string()));
    assert_eq!(String::try_from(SaveFormat::JSON), Ok("json".to_string()));
}

#[test]
fn default_file_name_is_never_empty() {
    assert_eq!(default_file_name("a::b::Prefs"), "Prefs");
    assert_eq!(default_file_name("a::"), "config");
    assert_eq!(default_file_name(""), "config");
    let p = builder_parameters("a::", None, None, SaveFormat::TOML, true);
    assert_eq!(p.file_name, "config");
}
