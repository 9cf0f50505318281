use rivetui::api::{
    api_error_message, channel_messages_url, channel_url, current_user_guilds_url,
    decoding_error_message, guild_channels_url, guild_emojis_url, DISCORD_API_BASE_URL,
};
use rivetui::config::{
    entries_or_empty, load_emoji_map, parse_emoji_content, ConfigRead, CONFIG_DIR_NAME,
    EMOJI_FILE_NAME,
};

fn pair(name: &str, emoji: &str) -> (String, String) {
    (name.to_string(), emoji.to_string())
}

#[test]
fn emoji_content_decodes_pairs() {
    let entries = parse_emoji_content(r#"[["smile", "😄"], ["heart", "❤"]]"#);
    assert_eq!(entries, vec![pair("smile", "😄"), pair("heart", "❤")]);
    assert_eq!(parse_emoji_content("[]"), Vec::new());
    assert_eq!(parse_emoji_content(" [ [ \"a\" , \"b\" ] ] "), vec![pair("a", "b")]);
    assert_eq!(parse_emoji_content(r#"[["a\n", "A"]]"#), vec![pair("a\n", "A")]);
}

#[test]
fn emoji_content_that_does_not_decode_is_empty() {
    assert!(parse_emoji_content("").is_empty());
    assert!(parse_emoji_content("not json").is_empty());
    assert!(parse_emoji_content("{}").is_empty());
    assert!(parse_emoji_content(r#"[["only one"]]"#).is_empty());
    assert!(parse_emoji_content(r#"[["a", "b", "c"]]"#).is_empty());
    assert!(parse_emoji_content(r#"[["a", 1]]"#).is_empty());
    assert!(parse_emoji_content(r#"[["a", "b"]] trailing"#).is_empty());
    assert!(parse_emoji_content(r#"[["a", "b"],]"#).is_empty());
}

#[test]
fn decoded_entries_or_none() {
    assert_eq!(entries_or_empty(Some(vec![pair("a", "b")])), vec![pair("a", "b")]);
    assert!(entries_or_empty(None).is_empty());
}

#[test]
fn emoji_map_follows_the_read() {
    let default_json = r#"[["default", "d"]]"#;

    let load = load_emoji_map(ConfigRead::Unavailable, default_json);
    assert!(load.entries.is_empty());
    assert!(!load.write_default);

    let load = load_emoji_map(ConfigRead::Content(r#"[["mine", "m"]]"#.to_string()), default_json);
    assert_eq!(load.entries, vec![pair("mine", "m")]);
    assert!(!load.write_default);

    let load = load_emoji_map(ConfigRead::Content("broken".to_string()), default_json);
    assert!(load.entries.is_empty());
    assert!(!load.write_default);

    let load = load_emoji_map(ConfigRead::NotFound, default_json);
    assert_eq!(load.entries, vec![pair("default", "d")]);
    assert!(load.write_default);

    let load = load_emoji_map(ConfigRead::Failed, default_json);
    assert_eq!(load.entries, vec![pair("default", "d")]);
    assert!(!load.write_default);
}

#[test]
fn config_file_names() {
    assert_eq!(CONFIG_DIR_NAME, "rivetui");
    assert_eq!(EMOJI_FILE_NAME, "emojis.json");
}

#[test]
fn endpoint_addresses() {
    assert_eq!(DISCORD_API_BASE_URL, "https://discord.com/api/v10");
    assert_eq!(current_user_guilds_url(), "https://discord.com/api/v10/users/@me/guilds");
    assert_eq!(channel_url("42"), "https://discord.com/api/v10/channels/42");
    assert_eq!(channel_messages_url("42"), "https://discord.com/api/v10/channels/42/messages");
    assert_eq!(guild_channels_url("7"), "https://discord.com/api/v10/guilds/7/channels");
    assert_eq!(guild_emojis_url("7"), "https://discord.com/api/v10/guilds/7/emojis");
    assert_eq!(channel_url(""), "https://discord.com/api/v10/channels/");
}

#[test]
fn failure_texts() {
    assert_eq!(
        api_error_message("404 Not Found", "{\"message\": \"Unknown Channel\"}"),
        "API Error: Status 404 Not Found. Details: {\"message\": \"Unknown Channel\"}"
    );
    assert_eq!(
        decoding_error_message("missing field `id`"),
        "JSON Decoding Error: missing field `id`."
    );
}
