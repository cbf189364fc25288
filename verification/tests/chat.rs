use tgrc::chat::{
    chat_error, chat_list_header, chat_row, format_with_caption, list_error, message_line,
    render_content, resolve_chat_id, time_format, time_label, read_line, ChatInfo, ChatTarget, MessageContent,
};

#[test]
fn saved_is_recognised_in_any_case() {
    assert_eq!(ChatTarget::parse("saved"), ChatTarget::Saved);
    assert_eq!(ChatTarget::parse("SaVeD"), ChatTarget::Saved);
    assert_eq!(ChatTarget::parse("saved1"), ChatTarget::Username("saved1".to_string()));
}

#[test]
fn numeric_targets_are_chat_ids() {
    assert_eq!(ChatTarget::parse("-1001234567890"), ChatTarget::ChatId(-1001234567890));
    assert_eq!(ChatTarget::parse("123456789"), ChatTarget::ChatId(123456789));
    assert_eq!(ChatTarget::parse("durov"), ChatTarget::Username("durov".to_string()));
    assert_eq!(ChatTarget::parse("99999999999999999999"), ChatTarget::Username("99999999999999999999".to_string()));
}

#[test]
fn listed_ids_read_back_as_the_same_chat() {
    for id in [777000i64, -1001234567890, 0, i64::MIN] {
        let row = chat_row(id, "Some chat");
        let first = row.split_whitespace().next().unwrap();
        assert_eq!(ChatTarget::parse(first), ChatTarget::ChatId(id));
    }
}

#[test]
fn resolution_names_and_errors() {
    let info = ChatInfo { id: 5, title: "Group".to_string() };
    assert_eq!(resolve_chat_id(&ChatTarget::Saved, Ok(info.clone())), Ok((5, "Saved Messages".to_string())));
    assert_eq!(resolve_chat_id(&ChatTarget::ChatId(5), Ok(info.clone())), Ok((5, "Group".to_string())));
    assert_eq!(
        resolve_chat_id(&ChatTarget::Username("durov".to_string()), Ok(info)),
        Ok((5, "@durov".to_string()))
    );
    assert_eq!(
        resolve_chat_id(&ChatTarget::Saved, Err("boom".to_string())),
        Err("Failed to get current user: boom".to_string())
    );
    assert_eq!(
        resolve_chat_id(&ChatTarget::ChatId(-12), Err("Chat not found".to_string())),
        Err("Failed to find chat -12: Chat not found".to_string())
    );
    assert_eq!(
        resolve_chat_id(&ChatTarget::Username("x".to_string()), Err("nope".to_string())),
        Err("Failed to find channel @x: nope".to_string())
    );
}

#[test]
fn captions() {
    assert_eq!(format_with_caption("Photo", ""), "[Photo]");
    assert_eq!(format_with_caption("Video", "look"), "[Video] look");
}

#[test]
fn contents_render() {
    let cases = [
        (MessageContent::Text("hi".to_string()), "hi"),
        (MessageContent::Photo { caption: String::new() }, "[Photo]"),
        (MessageContent::Document { caption: "spec".to_string() }, "[Document] spec"),
        (MessageContent::Audio { caption: String::new() }, "[Audio]"),
        (MessageContent::Sticker { emoji: "🙂".to_string() }, "[Sticker: 🙂]"),
        (MessageContent::Animation, "[GIF]"),
        (MessageContent::VoiceNote, "[Voice message]"),
        (MessageContent::VideoNote, "[Video message]"),
        (MessageContent::Unsupported, "[Unsupported message type]"),
    ];
    for (c, want) in cases {
        assert_eq!(render_content(&c), want);
    }
}

#[test]
fn message_lines() {
    assert_eq!(
        message_line("2024-01-02 03:04 UTC", &MessageContent::Text("hello".to_string())),
        "[2024-01-02 03:04 UTC] hello"
    );
    assert_eq!(time_label(None), "unknown date");
    assert_eq!(time_label(Some("t".to_string())), "t");
    let line = read_line(0, &MessageContent::Animation);
    assert!(line.starts_with("["));
    assert!(line.ends_with("] [GIF]"));
    assert!(!line.contains("unknown date"));
}

#[test]
fn chat_list_layout() {
    let header = chat_list_header();
    assert_eq!(header[0], format!("{:<16} TITLE", "ID"));
    assert_eq!(header[1], "-".repeat(60));
    assert_eq!(chat_row(777000, "Telegram"), format!("{:<16} {}", 777000, "Telegram"));
    assert_eq!(chat_row(-1001234567890, "Example Group"), "-1001234567890   Example Group");
    assert_eq!(chat_row(1234567890123456789, "Long"), "1234567890123456789 Long");
    assert_eq!(list_error("x"), "Failed to list chats: x");
    assert_eq!(chat_error(7, "gone"), "Failed to get chat 7: gone");
}

#[test]
fn read_lines_show_the_local_send_time() {
    assert_eq!(time_format(), "%Y-%m-%d %H:%M %Z");
    for date in [0i32, 1_700_000_000, -86_400, i32::MAX, i32::MIN] {
        let local = chrono::DateTime::from_timestamp(date as i64, 0)
            .unwrap()
            .with_timezone(&chrono::Local)
            .format("%Y-%m-%d %H:%M %Z")
            .to_string();
        assert_eq!(
            read_line(date, &MessageContent::Text("hi".to_string())),
            format!("[{local}] hi")
        );
    }
}
