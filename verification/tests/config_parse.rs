use tgrc::config::Config;

#[test]
fn parse_valid_config_with_integer_api_id() {
    let config = Config::parse(
        r#"
            [telegram]
            api_id = 12345678
            api_hash = "abc123"
            "#,
    )
    .unwrap();
    assert_eq!(config.telegram.api_id, 12345678);
    assert_eq!(config.telegram.api_hash, "abc123");
    assert!(config.channel.is_none());
}

#[test]
fn parse_valid_config_with_string_api_id() {
    let config = Config::parse(
        r#"
            [telegram]
            api_id = "12345678"
            api_hash = "abc123"
            "#,
    )
    .unwrap();
    assert_eq!(config.telegram.api_id, 12345678);
}

#[test]
fn parse_config_with_channel_section() {
    let config = Config::parse(
        r#"
            [telegram]
            api_id = 123
            api_hash = "hash"

            [channel]
            chat = "durov"
            message_limit = 10
            "#,
    )
    .unwrap();
    let channel = config.channel.unwrap();
    assert_eq!(channel.chat, "durov");
    assert_eq!(channel.message_limit, Some(10));
}

#[test]
fn parse_config_channel_optional() {
    let config = Config::parse(
        r#"
            [telegram]
            api_id = 123
            api_hash = "hash"
            "#,
    )
    .unwrap();
    assert!(config.channel.is_none());
}

#[test]
fn parse_config_message_limit_optional() {
    let config = Config::parse(
        r#"
            [telegram]
            api_id = 123
            api_hash = "hash"

            [channel]
            chat = "saved"
            "#,
    )
    .unwrap();
    assert_eq!(config.channel.unwrap().message_limit, None);
}

#[test]
fn parse_config_tdlib_log_verbosity() {
    let config = Config::parse(
        r#"
            [telegram]
            api_id = 123
            api_hash = "hash"
            tdlib_log_verbosity = 3
            "#,
    )
    .unwrap();
    assert_eq!(config.telegram.tdlib_log_verbosity, Some(3));
}

#[test]
fn parse_config_tdlib_log_verbosity_defaults_to_none() {
    let config = Config::parse(
        r#"
            [telegram]
            api_id = 123
            api_hash = "hash"
            "#,
    )
    .unwrap();
    assert_eq!(config.telegram.tdlib_log_verbosity, None);
}

#[test]
fn parse_config_missing_api_id_fails() {
    let result = Config::parse(
        r#"
            [telegram]
            api_hash = "hash"
            "#,
    );
    assert!(result.is_err());
}

#[test]
fn parse_config_missing_api_hash_fails() {
    let result = Config::parse(
        r#"
            [telegram]
            api_id = 123
            "#,
    );
    assert!(result.is_err());
}

#[test]
fn parse_config_invalid_string_api_id_fails() {
    let result = Config::parse(
        r#"
            [telegram]
            api_id = "not_a_number"
            api_hash = "hash"
            "#,
    );
    assert!(result.is_err());
}

#[test]
fn parse_config_missing_chat_in_channel_fails() {
    let result = Config::parse(
        r#"
            [telegram]
            api_id = 123
            api_hash = "hash"

            [channel]
            message_limit = 10
            "#,
    );
    assert!(result.is_err());
}
