use pub_sub_service::config_utils::{try_into_format, ConfigError, ConfigFileMetadata, ConfigFormat};

#[test]
fn try_into_format_success() {
    // Ini format
    let ini_ext = "ini";
    let ini_format = try_into_format(ini_ext).unwrap();
    assert_eq!(ini_format, ConfigFormat::Ini);

    // Json format
    let json_ext = "json";
    let json_format = try_into_format(json_ext).unwrap();
    assert_eq!(json_format, ConfigFormat::Json);

    // Json5 format
    let json5_ext = "json5";
    let json5_format = try_into_format(json5_ext).unwrap();
    assert_eq!(json5_format, ConfigFormat::Json5);

    // Ron format
    let ron_ext = "ron";
    let ron_format = try_into_format(ron_ext).unwrap();
    assert_eq!(ron_format, ConfigFormat::Ron);

    // Toml format
    let toml_ext = "toml";
    let toml_format = try_into_format(toml_ext).unwrap();
    assert_eq!(toml_format, ConfigFormat::Toml);

    // Yaml format
    let yaml_ext = "yaml";
    let yaml_format = try_into_format(yaml_ext).unwrap();
    assert_eq!(yaml_format, ConfigFormat::Yaml);

    let yaml_ext_2 = "yml";
    let yaml_format_2 = try_into_format(yaml_ext_2).unwrap();
    assert_eq!(yaml_format_2, ConfigFormat::Yaml);
}

#[test]
fn try_into_format_invalid_err() {
    let ext_1 = "invalid";
    let result_1 = try_into_format(ext_1);
    assert!(result_1.is_err());

    let ext_2 = "";
    let result_2 = try_into_format(ext_2);
    assert!(result_2.is_err());

    let ext_3 = "123@";
    let result_3 = try_into_format(ext_3);
    assert!(result_3.is_err());
    assert_eq!(Err(ConfigError::UnsupportedFormat), result_3);
}

#[test]
fn new_config_metadata_from_file_name() {
    let expected_name = "test.yaml";
    let expected_metadata = ConfigFileMetadata {
        name: expected_name.to_string(),
        ext: ConfigFormat::Yaml,
    };

    let metadata = ConfigFileMetadata::new(expected_name).unwrap();
    assert_eq!(metadata, expected_metadata);

    let expected_name_2 = "test.default.json";
    let expected_metadata_2 = ConfigFileMetadata {
        name: expected_name_2.to_string(),
        ext: ConfigFormat::Json,
    };

    let metadata_2 = ConfigFileMetadata::new(expected_name_2).unwrap();
    assert_eq!(metadata_2, expected_metadata_2);
}

#[test]
fn new_config_metadata_from_invalid_str_err() {
    let result = ConfigFileMetadata::new("no_extension");
    assert_eq!(result.err().unwrap(), ConfigError::MissingExtension);

    let result_2 = ConfigFileMetadata::new("");
    assert_eq!(result_2.err().unwrap(), ConfigError::MissingExtension);

    let result_3 = ConfigFileMetadata::new(".yaml");
    assert_eq!(result_3.err().unwrap(), ConfigError::EmptyFileStem);

    let result_4 = ConfigFileMetadata::new("test.bad_extension");
    assert_eq!(result_4.err().unwrap(), ConfigError::UnsupportedFormat);
}

#[test]
fn config_name_with_trailing_dot() {
    assert_eq!(
        Err(ConfigError::UnsupportedFormat),
        ConfigFileMetadata::new("settings.")
    );
    assert_eq!(
        ConfigFormat::Ron,
        ConfigFileMetadata::new("a.b.ron").unwrap().ext
    );
}
