use tgrc::config::{Config, ConfigError, ConfigField};

fn parse(text: &str) -> Result<Config, ConfigError> {
    Config::from_toml(text)
}

#[test]
fn api_id_as_number_or_string_gives_same_config() {
    let a = parse("[telegram]\napi_id = -42\napi_hash = \"h\"\n").unwrap();
    let b = parse("[telegram]\napi_id = \"-42\"\napi_hash = \"h\"\n").unwrap();
    assert_eq!(a, b);
    assert_eq!(a.telegram.api_id, -42);
}

#[test]
fn api_id_string_with_plus_sign_is_accepted() {
    let c = parse("[telegram]\napi_id = \"+7\"\napi_hash = \"h\"\n").unwrap();
    assert_eq!(c.telegram.api_id, 7);
}

#[test]
fn api_id_string_with_spaces_is_refused() {
    let e = parse("[telegram]\napi_id = \" 7\"\napi_hash = \"h\"\n").unwrap_err();
    assert_eq!(e, ConfigError::InvalidApiId(" 7".to_string()));
}

#[test]
fn api_id_out_of_range_is_refused() {
    let e = parse("[telegram]\napi_id = 2147483648\napi_hash = \"h\"\n").unwrap_err();
    assert_eq!(e, ConfigError::OutOfRange(ConfigField::ApiId));
    let e = parse("[telegram]\napi_id = \"2147483648\"\napi_hash = \"h\"\n").unwrap_err();
    assert_eq!(e, ConfigError::InvalidApiId("2147483648".to_string()));
    let ok = parse("[telegram]\napi_id = -2147483648\napi_hash = \"h\"\n").unwrap();
    assert_eq!(ok.telegram.api_id, i32::MIN);
}

#[test]
fn api_id_of_wrong_type_is_refused() {
    let e = parse("[telegram]\napi_id = true\napi_hash = \"h\"\n").unwrap_err();
    assert_eq!(e, ConfigError::WrongType(ConfigField::ApiId));
    let e = parse("[telegram]\napi_id = 1.5\napi_hash = \"h\"\n").unwrap_err();
    assert_eq!(e, ConfigError::WrongType(ConfigField::ApiId));
}

#[test]
fn missing_sections_and_fields_are_named() {
    assert_eq!(parse("").unwrap_err(), ConfigError::Missing(ConfigField::Telegram));
    assert_eq!(
        parse("[telegram]\napi_hash = \"h\"\n").unwrap_err(),
        ConfigError::Missing(ConfigField::ApiId)
    );
    assert_eq!(
        parse("[telegram]\napi_id = 1\n").unwrap_err(),
        ConfigError::Missing(ConfigField::ApiHash)
    );
    assert_eq!(
        parse("[telegram]\napi_id = 1\napi_hash = \"h\"\n[channel]\n").unwrap_err(),
        ConfigError::Missing(ConfigField::Chat)
    );
}

#[test]
fn wrong_types_are_named() {
    assert_eq!(parse("telegram = 3\n").unwrap_err(), ConfigError::WrongType(ConfigField::Telegram));
    assert_eq!(
        parse("[telegram]\napi_id = 1\napi_hash = 5\n").unwrap_err(),
        ConfigError::WrongType(ConfigField::ApiHash)
    );
    assert_eq!(
        parse("[telegram]\napi_id = 1\napi_hash = \"h\"\ntdlib_log_verbosity = \"3\"\n").unwrap_err(),
        ConfigError::WrongType(ConfigField::TdlibLogVerbosity)
    );
    assert_eq!(
        parse("channel = \"x\"\n[telegram]\napi_id = 1\napi_hash = \"h\"\n").unwrap_err(),
        ConfigError::WrongType(ConfigField::Channel)
    );
    assert_eq!(
        parse("[telegram]\napi_id = 1\napi_hash = \"h\"\n[channel]\nchat = \"c\"\nmessage_limit = \"5\"\n").unwrap_err(),
        ConfigError::WrongType(ConfigField::MessageLimit)
    );
}

#[test]
fn verbosity_out_of_range_is_refused() {
    assert_eq!(
        parse("[telegram]\napi_id = 1\napi_hash = \"h\"\ntdlib_log_verbosity = 99999999999\n").unwrap_err(),
        ConfigError::OutOfRange(ConfigField::TdlibLogVerbosity)
    );
}

#[test]
fn unknown_keys_are_ignored() {
    let plain = parse("[telegram]\napi_id = 1\napi_hash = \"h\"\n").unwrap();
    let extra = parse("owner = \"me\"\n[telegram]\napi_id = 1\napi_hash = \"h\"\nproxy = true\n[other]\nx = 1\n").unwrap();
    assert_eq!(plain, extra);
}

fn toml_message(text: &str) -> String {
    toml::from_str::<toml::Table>(text).unwrap_err().to_string()
}

#[test]
fn syntax_errors_carry_the_toml_message() {
    let text = "[telegram\napi_id = 1\n";
    assert_eq!(parse(text).unwrap_err(), ConfigError::Syntax(toml_message(text)));
    assert_eq!(
        Config::parse("[telegram\n").unwrap_err(),
        format!("Failed to parse config: {}", toml_message("[telegram\n"))
    );
    assert_eq!(
        Config::load_from("c.toml", Ok("a = = 1".to_string())).unwrap_err(),
        format!("Failed to parse c.toml: {}", toml_message("a = = 1"))
    );
}

#[test]
fn parse_failure_messages() {
    let e = Config::parse("[telegram]\napi_hash = \"h\"\n").unwrap_err();
    assert_eq!(e, "Failed to parse config: missing field `api_id`");
    assert_eq!(ConfigError::WrongType(ConfigField::Chat).message(), "invalid type for field `chat`");
    assert_eq!(
        ConfigError::OutOfRange(ConfigField::MessageLimit).message(),
        "integer out of range for field `message_limit`"
    );
    assert_eq!(
        ConfigError::InvalidApiId("x".to_string()).message(),
        "invalid api_id `x`: expected a 32-bit integer"
    );
}

#[test]
fn from_table_reads_a_parsed_table() {
    let table: toml::Table = toml::from_str("[telegram]\napi_id = 5\napi_hash = \"k\"\n[channel]\nchat = \"durov\"\n").unwrap();
    let c = Config::from_table(&table).unwrap();
    assert_eq!(c.telegram.api_id, 5);
    assert_eq!(c.telegram.api_hash, "k");
    assert_eq!(c.channel.unwrap().chat, "durov");
}

#[test]
fn load_from_reports_read_and_parse_failures() {
    let e = Config::load_from("/x/config.toml", Err("permission denied".to_string())).unwrap_err();
    assert_eq!(e, "Failed to read /x/config.toml: permission denied");
    let e = Config::load_from("/x/config.toml", Ok("[telegram]\napi_id = 1\n".to_string())).unwrap_err();
    assert_eq!(e, "Failed to parse /x/config.toml: missing field `api_hash`");
    let c = Config::load_from("c.toml", Ok("[telegram]\napi_id = 1\napi_hash = \"h\"\n".to_string())).unwrap();
    assert_eq!(c.telegram.api_id, 1);
}

#[test]
fn not_found_message() {
    assert_eq!(
        Config::not_found(),
        "Config file not found. Create ~/.config/tgrc/config.toml or ./config.toml\nSee config.example.toml for the required format."
    );
}

#[test]
fn sections_may_be_written_as_arrays_in_field_order() {
    let c = parse("telegram = [123, \"hash\"]\n").unwrap();
    assert_eq!(c.telegram.api_id, 123);
    assert_eq!(c.telegram.api_hash, "hash");
    assert_eq!(c.telegram.tdlib_log_verbosity, None);
    let c = parse("telegram = [\"77\", \"h\", 2, \"ignored\"]\nchannel = [\"durov\", 10]\n").unwrap();
    assert_eq!(c.telegram.api_id, 77);
    assert_eq!(c.telegram.tdlib_log_verbosity, Some(2));
    let ch = c.channel.unwrap();
    assert_eq!(ch.chat, "durov");
    assert_eq!(ch.message_limit, Some(10));
}

#[test]
fn array_sections_that_are_too_short_or_mistyped_are_refused() {
    assert_eq!(parse("telegram = []\n").unwrap_err(), ConfigError::TooShort(ConfigField::Telegram));
    assert_eq!(parse("telegram = [1]\n").unwrap_err(), ConfigError::TooShort(ConfigField::Telegram));
    assert_eq!(parse("telegram = [true, \"h\"]\n").unwrap_err(), ConfigError::WrongType(ConfigField::ApiId));
    assert_eq!(parse("telegram = [1, 2]\n").unwrap_err(), ConfigError::WrongType(ConfigField::ApiHash));
    assert_eq!(
        parse("telegram = [1, \"h\"]\nchannel = [\"durov\"]\n").unwrap_err(),
        ConfigError::TooShort(ConfigField::Channel)
    );
    assert_eq!(
        parse("telegram = [1, \"h\"]\nchannel = [[\"x\"], 1]\n").unwrap_err(),
        ConfigError::WrongType(ConfigField::Chat)
    );
    assert_eq!(
        parse("[[telegram]]\napi_id = 1\napi_hash = \"h\"\n").unwrap_err(),
        ConfigError::WrongType(ConfigField::ApiId)
    );
    assert_eq!(ConfigError::TooShort(ConfigField::Telegram).message(), "too few values in `telegram`");
}
