use chartpedia::cli::validate_file_exists;
use chartpedia::config::{
    CommentsConfig, Config, ConfigError, ConfigSource, ModifiersConfig, RegexpConfig, TagsConfig,
};

fn path_of(source: ConfigSource) -> Option<String> {
    match source {
        ConfigSource::File(path) => Some(path),
        ConfigSource::Defaults => None,
    }
}

#[test]
fn defaults_of_the_configuration() {
    let config = Config::default();
    assert_eq!(config.comments.format, "##");
    assert_eq!(config.tags.param, "@param");
    assert_eq!(config.tags.section, "@section");
    assert_eq!(config.tags.description_start, "@descriptionStart");
    assert_eq!(config.tags.description_end, "@descriptionEnd");
    assert_eq!(config.tags.skip, "@skip");
    assert_eq!(config.tags.extra, "@extra");
    assert_eq!(config.modifiers.param, "@param");
    assert_eq!(config.regexp.params_section_title, "Parameters");
    assert_eq!(CommentsConfig::default().format, "##");
    assert_eq!(TagsConfig::default().extra, "@extra");
    assert_eq!(RegexpConfig::default().params_section_title, "Parameters");
}

#[test]
fn defaults_of_the_modifiers() {
    let modifiers = ModifiersConfig::default();
    assert_eq!(modifiers.array, "array");
    assert_eq!(modifiers.object, "object");
    assert_eq!(modifiers.string, "string");
    assert_eq!(modifiers.nullable, "nullable");
    assert_eq!(modifiers.default, "default");
}

#[test]
fn named_file_is_the_source() {
    let source = Config::load(Some("my.yaml".to_string()), &vec![true, true, true]);
    assert_eq!(path_of(source), Some("my.yaml".to_string()));
}

#[test]
fn first_default_path_that_is_present_is_the_source() {
    assert_eq!(Config::default_paths(), vec![".chartpedia.yaml", ".chartpedia.yml", ".chartpedia.json"]);
    assert_eq!(
        path_of(Config::load(None, &vec![true, true, true])),
        Some(".chartpedia.yaml".to_string())
    );
    assert_eq!(
        path_of(Config::load(None, &vec![false, true, true])),
        Some(".chartpedia.yml".to_string())
    );
    assert_eq!(
        path_of(Config::load_default_paths(&vec![false, false, true, true])),
        Some(".chartpedia.json".to_string())
    );
    assert_eq!(path_of(Config::load_default_paths(&vec![false, false, false, true])), None);
    assert_eq!(path_of(Config::load_default_paths(&vec![false])), None);
    assert_eq!(path_of(Config::load(None, &Vec::new())), None);
}

#[test]
fn yaml_reading_goes_before_json_reading() {
    let mut yaml = Config::default();
    yaml.comments.format = "#y".to_string();
    let mut json = Config::default();
    json.comments.format = "#j".to_string();
    let loaded = Config::load_config(Some(yaml), Some(json)).unwrap();
    assert_eq!(loaded.comments.format, "#y");
    let mut json = Config::default();
    json.comments.format = "#j".to_string();
    let loaded = Config::load_config(None, Some(json)).unwrap();
    assert_eq!(loaded.comments.format, "#j");
    let mut yaml = Config::default();
    yaml.comments.format = "#y".to_string();
    assert_eq!(Config::load_config(Some(yaml), None).unwrap().comments.format, "#y");
}

#[test]
fn file_that_is_neither_yaml_nor_json_is_refused() {
    let error = Config::load_config(None, None).unwrap_err();
    assert_eq!(error.message(), "config file must be in YAML or JSON format");
}

#[test]
fn config_error_keeps_its_message() {
    assert_eq!(ConfigError::new("broken".to_string()).message(), "broken");
}

#[test]
fn path_of_a_missing_file_is_refused() {
    assert_eq!(validate_file_exists("values.yaml", true), Ok("values.yaml".to_string()));
    assert_eq!(
        validate_file_exists("no/such.yaml", false),
        Err("The file \"no/such.yaml\" does not exist".to_string())
    );
    assert_eq!(validate_file_exists("", false), Err("The file \"\" does not exist".to_string()));
}
