use rivetui::app::{App, AppState};
use rivetui::channel::{Channel, CATEGORY_CHANNEL_TYPE};
use rivetui::guild::{Guild, User};
use rivetui::layout::{
    estimated_height, format_message, pane_size, scroll_offset, time_of_day, visible_messages,
    wrapped_rows,
};
use rivetui::message::Message;
use rivetui::screen::{conversation_lines, input_title, list_items, pane_title, resize};

fn message(time: &str, author: &str, content: Option<&str>) -> Message {
    Message {
        id: "m".to_string(),
        timestamp: format!("2024-05-01T{time}.123000+00:00"),
        author: User { id: "u".to_string(), username: author.to_string() },
        content: content.map(|c| c.to_string()),
    }
}

#[test]
fn rows_of_a_wrapped_line() {
    assert_eq!(wrapped_rows(0, 4), 1);
    assert_eq!(wrapped_rows(1, 4), 1);
    assert_eq!(wrapped_rows(4, 4), 1);
    assert_eq!(wrapped_rows(5, 4), 2);
    assert_eq!(wrapped_rows(10, 4), 3);
    assert_eq!(wrapped_rows(65535, 1), 65535);
    assert_eq!(wrapped_rows(65535, 65535), 1);
    // Widths count modulo 65536.
    assert_eq!(wrapped_rows(65536, 4), 1);
    assert_eq!(wrapped_rows(65541, 4), 2);
}

#[test]
fn height_of_a_text() {
    assert_eq!(estimated_height("", 10), Some(1));
    assert_eq!(estimated_height("hello", 10), Some(1));
    assert_eq!(estimated_height("hello world", 4), Some(3));
    assert_eq!(estimated_height("a\nb", 10), Some(2));
    assert_eq!(estimated_height("a\n", 10), Some(2));
    assert_eq!(estimated_height("\n\n", 10), Some(3));
    assert_eq!(estimated_height("abcdef\nabc\n\nabcdefghi", 3), Some(2 + 1 + 1 + 3));
}

#[test]
fn height_counts_columns_not_characters() {
    // Five fullwidth letters take ten columns.
    assert_eq!(estimated_height("Ｈｅｌｌｏ", 10), Some(1));
    assert_eq!(estimated_height("Ｈｅｌｌｏ", 5), Some(2));
    assert_eq!(estimated_height("Ｈｅｌｌｏ", 3), Some(4));
    // A combining accent takes no column of its own.
    assert_eq!(estimated_height("e\u{301}e\u{301}", 2), Some(1));
    assert_eq!(estimated_height("eeee", 2), Some(2));
}

#[test]
fn time_of_day_of_a_timestamp() {
    assert_eq!(time_of_day("2024-05-01T12:34:56.789000+00:00"), "12:34:56");
    assert_eq!(time_of_day("2024-05-01T12:34:56"), "12:34:56");
    assert_eq!(time_of_day("2024-05-01T12:34:56T.1"), "12:34:56");
    assert_eq!(time_of_day("2024-05-01"), "");
    assert_eq!(time_of_day(""), "");
    assert_eq!(time_of_day("T"), "");
    assert_eq!(time_of_day("T."), "");
    assert_eq!(time_of_day("aTbTc"), "b");
    assert_eq!(time_of_day("a.bTc.d"), "c");
    assert_eq!(time_of_day("xT12:00"), "12:00");
}

#[test]
fn wording_of_a_message() {
    assert_eq!(format_message(&message("12:34:56", "alice", Some("hi"))), "[12:34:56] alice: hi");
    assert_eq!(
        format_message(&message("00:00:01", "bob", None)),
        "[00:00:01] bob: (*non-text*)"
    );
    let undated = Message {
        id: "m".to_string(),
        timestamp: "yesterday".to_string(),
        author: User { id: "u".to_string(), username: "carol".to_string() },
        content: Some("two\nlines".to_string()),
    };
    assert_eq!(format_message(&undated), "[] carol: two\nlines");
}

#[test]
fn messages_that_fit_come_out_last_first() {
    let messages = vec![
        message("10:00:03", "a", Some("three")),
        message("10:00:02", "b", Some("two")),
        message("10:00:01", "c", Some("one")),
    ];
    let all = visible_messages(&messages, 10, 80);
    assert_eq!(all, vec!["[10:00:01] c: one", "[10:00:02] b: two", "[10:00:03] a: three"]);
    let two = visible_messages(&messages, 2, 80);
    assert_eq!(two, vec!["[10:00:02] b: two", "[10:00:03] a: three"]);
    let none = visible_messages(&messages, 0, 80);
    assert!(none.is_empty());
    assert!(visible_messages(&Vec::new(), 10, 80).is_empty());
}

#[test]
fn fitting_ends_at_the_first_message_that_does_not_fit() {
    // 20 columns: the first two take one row each, the third takes three
    // rows, the fourth would fit again but comes after the end.
    let messages = vec![
        message("10:00:04", "a", Some("x")),
        message("10:00:03", "a", Some("y")),
        message("10:00:02", "a", Some("0123456789012345678901234567890123456789")),
        message("10:00:01", "a", Some("z")),
    ];
    let shown = visible_messages(&messages, 4, 20);
    assert_eq!(shown, vec!["[10:00:03] a: y", "[10:00:04] a: x"]);
    let shown = visible_messages(&messages, 5, 20);
    assert_eq!(shown.len(), 3);
    assert_eq!(shown[0], "[10:00:02] a: 0123456789012345678901234567890123456789");
    let shown = visible_messages(&messages, 6, 20);
    assert_eq!(shown.len(), 4);
    assert_eq!(shown[0], "[10:00:01] a: z");
}

#[test]
fn a_pane_without_columns_shows_nothing() {
    let messages = vec![message("10:00:01", "a", Some("x"))];
    assert!(visible_messages(&messages, 10, 0).is_empty());
}

#[test]
fn inner_size_of_a_pane() {
    assert_eq!(pane_size(20, 80), (18, 78));
    assert_eq!(pane_size(2, 2), (0, 0));
    assert_eq!(pane_size(1, 0), (0, 0));
    assert_eq!(pane_size(3, 65538), (1, 0));
    assert_eq!(pane_size(3, 65539), (1, 1));
}

#[test]
fn scrolling_to_the_last_row() {
    assert_eq!(scroll_offset(10, 4), 6);
    assert_eq!(scroll_offset(4, 4), 0);
    assert_eq!(scroll_offset(3, 4), 0);
    assert_eq!(scroll_offset(0, 0), 0);
    assert_eq!(scroll_offset(65536 + 7, 2), 5);
}

#[test]
fn titles_follow_the_state() {
    let mut app = App::new();
    assert_eq!(pane_title(&app), "Servers (Guilds)");
    assert_eq!(input_title(&app), "Input: Loading servers...");
    app.state = AppState::SelectingChannel("g7".to_string());
    assert_eq!(pane_title(&app), "Channels for Guild: g7");
    app.state = AppState::Chatting("c1".to_string());
    assert_eq!(pane_title(&app), "Rivet Client (Esc to return to Servers");
    app.status_message = "Chatting...".to_string();
    assert_eq!(input_title(&app), "Input: Chatting...");
}

#[test]
fn list_follows_the_state() {
    let mut app = App::new();
    app.guilds = vec![
        Guild { id: "g1".to_string(), name: "one".to_string() },
        Guild { id: "g2".to_string(), name: "two".to_string() },
    ];
    app.channels = vec![
        Channel {
            id: "c0".to_string(),
            name: "group".to_string(),
            channel_type: CATEGORY_CHANNEL_TYPE,
            guild_id: None,
            permission_overwrites: Vec::new(),
        },
        Channel {
            id: "c1".to_string(),
            name: "general".to_string(),
            channel_type: 0,
            guild_id: None,
            permission_overwrites: Vec::new(),
        },
    ];
    assert_eq!(list_items(&app), vec!["one", "two"]);
    app.state = AppState::SelectingChannel("g1".to_string());
    assert_eq!(list_items(&app), vec!["# general"]);
    app.state = AppState::Chatting("c1".to_string());
    assert!(list_items(&app).is_empty());
}

#[test]
fn conversation_uses_the_recorded_size() {
    let mut app = App::new();
    app.state = AppState::Chatting("c1".to_string());
    app.messages = vec![
        message("10:00:03", "a", Some("three")),
        message("10:00:02", "b", Some("two")),
        message("10:00:01", "c", Some("one")),
    ];
    assert_eq!(conversation_lines(&app).len(), 3);
    resize(&mut app, 4, 80);
    assert_eq!(app.terminal_height, 4);
    assert_eq!(app.terminal_width, 80);
    assert_eq!(conversation_lines(&app), vec!["[10:00:02] b: two", "[10:00:03] a: three"]);
    resize(&mut app, 4, 2);
    assert!(conversation_lines(&app).is_empty());
    resize(&mut app, 2, 80);
    assert!(conversation_lines(&app).is_empty());
}
