use rivetui::app::{
    App, AppAction, AppState, Effect, CHANNELS_LOADED_STATUS, CHATTING_STATUS,
    LOADING_SERVERS_STATUS, NO_CHANNELS_STATUS, SELECT_CHANNEL_STATUS, SELECT_SERVER_STATUS,
};
use rivetui::channel::{Channel, CATEGORY_CHANNEL_TYPE};
use rivetui::events::{
    channel_resolved, channels_fetched, count_selectable, handle_keys_events, input_submit,
    move_selection, well_formed,
};
use rivetui::guild::{Guild, User};
use rivetui::message::Message;

fn guild(id: &str, name: &str) -> Guild {
    Guild { id: id.to_string(), name: name.to_string() }
}

fn chan(id: &str, name: &str, channel_type: u8, guild_id: Option<&str>) -> Channel {
    Channel {
        id: id.to_string(),
        name: name.to_string(),
        channel_type,
        guild_id: guild_id.map(|g| g.to_string()),
        permission_overwrites: Vec::new(),
    }
}

fn message(id: &str, content: &str) -> Message {
    Message {
        id: id.to_string(),
        timestamp: "2024-05-01T12:34:56.000000+00:00".to_string(),
        author: User { id: "u1".to_string(), username: "alice".to_string() },
        content: Some(content.to_string()),
    }
}

fn three_guilds(index: usize) -> App {
    let mut app = App::new();
    app.guilds = vec![guild("g1", "one"), guild("g2", "two"), guild("g3", "three")];
    app.selection_index = index;
    app
}

fn state_name(state: &AppState) -> String {
    match state {
        AppState::SelectingGuild => "guilds".to_string(),
        AppState::SelectingChannel(id) => format!("channels:{id}"),
        AppState::Chatting(id) => format!("chat:{id}"),
    }
}

fn effect_name(effect: &Effect) -> String {
    match effect {
        Effect::Nothing => "nothing".to_string(),
        Effect::Stop => "stop".to_string(),
        Effect::FetchChannels(id) => format!("fetch:{id}"),
        Effect::PostMessage { channel_id, content } => format!("post:{channel_id}:{content}"),
        Effect::LookupChannel(id) => format!("lookup:{id}"),
    }
}

#[test]
fn new_app_waits_for_servers() {
    let app = App::new();
    assert_eq!(state_name(&app.state), "guilds");
    assert!(app.guilds.is_empty());
    assert!(app.channels.is_empty());
    assert!(app.messages.is_empty());
    assert_eq!(app.input, "");
    assert_eq!(app.selection_index, 0);
    assert_eq!(app.status_message, LOADING_SERVERS_STATUS);
    assert_eq!(app.status_message, "Loading servers...");
    assert_eq!(app.terminal_height, 20);
    assert_eq!(app.terminal_width, 80);
    assert!(well_formed(&app));
}

#[test]
fn select_next_wraps_at_the_end() {
    let mut app = three_guilds(2);
    let effect = handle_keys_events(&mut app, AppAction::SelectNext);
    assert_eq!(effect_name(&effect), "nothing");
    assert_eq!(app.selection_index, 0);
}

#[test]
fn select_previous_wraps_at_the_start() {
    let mut app = three_guilds(0);
    handle_keys_events(&mut app, AppAction::SelectPrevious);
    assert_eq!(app.selection_index, 2);
}

#[test]
fn selection_steps_by_one_inside_the_list() {
    let mut app = three_guilds(0);
    handle_keys_events(&mut app, AppAction::SelectNext);
    assert_eq!(app.selection_index, 1);
    handle_keys_events(&mut app, AppAction::SelectNext);
    assert_eq!(app.selection_index, 2);
    handle_keys_events(&mut app, AppAction::SelectPrevious);
    assert_eq!(app.selection_index, 1);
    move_selection(&mut app, false);
    assert_eq!(app.selection_index, 0);
    move_selection(&mut app, true);
    assert_eq!(app.selection_index, 1);
}

#[test]
fn selection_stays_on_an_empty_list() {
    let mut app = App::new();
    handle_keys_events(&mut app, AppAction::SelectNext);
    assert_eq!(app.selection_index, 0);
    handle_keys_events(&mut app, AppAction::SelectPrevious);
    assert_eq!(app.selection_index, 0);

    // Channels that are all categories leave nothing to select.
    app.state = AppState::SelectingChannel("g1".to_string());
    app.channels = vec![chan("c1", "group", CATEGORY_CHANNEL_TYPE, Some("g1"))];
    assert!(well_formed(&app));
    handle_keys_events(&mut app, AppAction::SelectNext);
    assert_eq!(app.selection_index, 0);
    handle_keys_events(&mut app, AppAction::SelectPrevious);
    assert_eq!(app.selection_index, 0);
}

#[test]
fn selection_over_channels_skips_categories() {
    let mut app = App::new();
    app.state = AppState::SelectingChannel("g1".to_string());
    app.channels = vec![
        chan("c0", "group", CATEGORY_CHANNEL_TYPE, Some("g1")),
        chan("c1", "general", 0, Some("g1")),
        chan("c2", "voice", 2, Some("g1")),
        chan("c3", "more", CATEGORY_CHANNEL_TYPE, Some("g1")),
        chan("c4", "random", 0, Some("g1")),
    ];
    assert_eq!(count_selectable(&app.channels), 3);
    app.selection_index = 2;
    assert!(well_formed(&app));
    handle_keys_events(&mut app, AppAction::SelectNext);
    assert_eq!(app.selection_index, 0);
    handle_keys_events(&mut app, AppAction::SelectPrevious);
    assert_eq!(app.selection_index, 2);

    let effect = handle_keys_events(&mut app, AppAction::InputSubmit);
    assert_eq!(effect_name(&effect), "nothing");
    assert_eq!(state_name(&app.state), "chat:c4");
    assert_eq!(app.status_message, "Chatting in channel #random");
    assert_eq!(app.selection_index, 0);
}

#[test]
fn selection_does_nothing_in_a_conversation() {
    let mut app = three_guilds(1);
    app.state = AppState::Chatting("c1".to_string());
    handle_keys_events(&mut app, AppAction::SelectNext);
    assert_eq!(app.selection_index, 1);
    handle_keys_events(&mut app, AppAction::SelectPrevious);
    assert_eq!(app.selection_index, 1);
}

#[test]
fn well_formed_tells_a_selection_out_of_range() {
    let mut app = three_guilds(2);
    assert!(well_formed(&app));
    app.selection_index = 3;
    assert!(!well_formed(&app));
    app.state = AppState::Chatting("c1".to_string());
    assert!(well_formed(&app));
    app.state = AppState::SelectingChannel("g1".to_string());
    assert!(well_formed(&app));
    app.channels = vec![chan("c1", "general", 0, Some("g1"))];
    assert!(!well_formed(&app));
    app.selection_index = 0;
    assert!(well_formed(&app));
}

#[test]
fn empty_submit_in_a_conversation_posts_nothing() {
    let mut app = App::new();
    app.state = AppState::Chatting("c1".to_string());
    app.status_message = "before".to_string();
    let effect = handle_keys_events(&mut app, AppAction::InputSubmit);
    assert_eq!(effect_name(&effect), "nothing");
    assert_eq!(app.input, "");
    assert_eq!(state_name(&app.state), "chat:c1");
    assert_eq!(app.status_message, "before");
}

#[test]
fn submit_in_a_conversation_takes_the_input() {
    let mut app = App::new();
    app.state = AppState::Chatting("c1".to_string());
    app.input = "hello there".to_string();
    let effect = input_submit(&mut app);
    assert_eq!(effect_name(&effect), "post:c1:hello there");
    assert_eq!(app.input, "");
    assert_eq!(state_name(&app.state), "chat:c1");
}

#[test]
fn channels_update_resets_the_selection() {
    let mut app = App::new();
    app.state = AppState::SelectingChannel("g1".to_string());
    app.channels = vec![
        chan("c1", "a", 0, Some("g1")),
        chan("c2", "b", 0, Some("g1")),
        chan("c3", "c", 0, Some("g1")),
    ];
    app.selection_index = 2;
    let effect =
        handle_keys_events(&mut app, AppAction::ApiUpdateChannel(vec![chan("c9", "z", 0, None)]));
    assert_eq!(effect_name(&effect), "nothing");
    assert_eq!(app.selection_index, 0);
    assert_eq!(app.channels.len(), 1);
    assert_eq!(app.channels[0].id, "c9");
    assert_eq!(app.status_message, CHANNELS_LOADED_STATUS);
    assert_eq!(
        app.status_message,
        "Channels loaded. Select one to chat. (Esc to return to Servers)"
    );
    assert_eq!(state_name(&app.state), "channels:g1");
}

#[test]
fn channels_update_without_a_selectable_channel_says_so() {
    let mut app = three_guilds(2);
    handle_keys_events(&mut app, AppAction::ApiUpdateChannel(Vec::new()));
    assert_eq!(app.selection_index, 0);
    assert_eq!(app.status_message, NO_CHANNELS_STATUS);
    assert_eq!(app.status_message, "No text channels found. (Esc to return to Servers)");

    let only_categories = vec![chan("c1", "group", CATEGORY_CHANNEL_TYPE, Some("g1"))];
    handle_keys_events(&mut app, AppAction::ApiUpdateChannel(only_categories));
    assert_eq!(app.status_message, NO_CHANNELS_STATUS);
    assert_eq!(app.channels.len(), 1);
}

#[test]
fn escape_from_a_conversation_asks_for_the_channel() {
    let mut app = App::new();
    app.state = AppState::Chatting("c7".to_string());
    app.selection_index = 5;
    let effect = handle_keys_events(&mut app, AppAction::InputEscape);
    assert_eq!(effect_name(&effect), "lookup:c7");
    assert_eq!(state_name(&app.state), "chat:c7");
    assert_eq!(app.selection_index, 5);
}

#[test]
fn escape_leads_to_the_channels_of_the_server() {
    let mut app = App::new();
    app.state = AppState::Chatting("c7".to_string());
    app.selection_index = 5;
    let action = channel_resolved(&chan("c7", "general", 0, Some("g42")));
    let effect = handle_keys_events(&mut app, action);
    assert_eq!(effect_name(&effect), "nothing");
    assert_eq!(state_name(&app.state), "channels:g42");
    assert_eq!(app.selection_index, 0);
    assert_eq!(app.status_message, SELECT_CHANNEL_STATUS);
}

#[test]
fn escape_leads_to_the_servers_without_a_server() {
    let mut app = App::new();
    app.state = AppState::Chatting("c7".to_string());
    app.selection_index = 5;
    let action = channel_resolved(&chan("c7", "direct", 1, None));
    handle_keys_events(&mut app, action);
    assert_eq!(state_name(&app.state), "guilds");
    assert_eq!(app.selection_index, 0);
    assert_eq!(app.status_message, SELECT_SERVER_STATUS);
}

#[test]
fn escape_from_the_channels_goes_back_to_the_servers() {
    let mut app = three_guilds(0);
    app.state = AppState::SelectingChannel("g1".to_string());
    app.channels = vec![chan("c1", "a", 0, Some("g1")), chan("c2", "b", 0, Some("g1"))];
    app.selection_index = 1;
    let effect = handle_keys_events(&mut app, AppAction::InputEscape);
    assert_eq!(effect_name(&effect), "nothing");
    assert_eq!(state_name(&app.state), "guilds");
    assert_eq!(app.selection_index, 0);
    assert_eq!(
        app.status_message,
        "Select a server. Use arrows to navigate, Enter to select & Esc to quit"
    );
}

#[test]
fn escape_from_the_servers_and_quit_stop_the_loop() {
    let mut app = three_guilds(1);
    let effect = handle_keys_events(&mut app, AppAction::InputEscape);
    assert_eq!(effect_name(&effect), "stop");
    assert_eq!(state_name(&app.state), "guilds");
    assert_eq!(app.selection_index, 1);

    app.state = AppState::Chatting("c1".to_string());
    let effect = handle_keys_events(&mut app, AppAction::Quit);
    assert_eq!(effect_name(&effect), "stop");
    assert_eq!(state_name(&app.state), "chat:c1");
}

#[test]
fn submit_over_one_server_reports_channels_then_transition() {
    let mut app = App::new();
    app.guilds = vec![guild("g1", "Home")];
    let effect = handle_keys_events(&mut app, AppAction::InputSubmit);
    assert_eq!(effect_name(&effect), "fetch:g1");
    assert_eq!(app.status_message, "Loading channels for Home...");
    assert_eq!(state_name(&app.state), "guilds");

    let fetched = vec![
        chan("c0", "group", CATEGORY_CHANNEL_TYPE, Some("g1")),
        chan("c1", "general", 0, Some("g1")),
    ];
    let guild_id = match effect {
        Effect::FetchChannels(id) => id,
        _ => panic!("submit over a server must ask for its channels"),
    };
    let actions = channels_fetched(guild_id, fetched);
    assert_eq!(actions.len(), 2);
    assert!(matches!(&actions[0], AppAction::ApiUpdateChannel(list) if list.len() == 2));
    assert!(matches!(&actions[1], AppAction::TransitionToChannels(id) if id == "g1"));

    let mut observed = Vec::new();
    for action in actions {
        observed.push(match &action {
            AppAction::ApiUpdateChannel(_) => "channels-updated",
            AppAction::TransitionToChannels(_) => "transition-to-channel-list",
            _ => "other",
        });
        handle_keys_events(&mut app, action);
    }
    assert_eq!(observed, vec!["channels-updated", "transition-to-channel-list"]);
    assert_eq!(state_name(&app.state), "channels:g1");
    assert_eq!(app.channels.len(), 2);
    assert_eq!(app.selection_index, 0);
    assert_eq!(app.status_message, SELECT_CHANNEL_STATUS);
}

#[test]
fn submit_over_the_servers_takes_the_selected_one() {
    let mut app = three_guilds(2);
    let effect = handle_keys_events(&mut app, AppAction::InputSubmit);
    assert_eq!(effect_name(&effect), "fetch:g3");
    assert_eq!(app.status_message, "Loading channels for three...");
    assert_eq!(app.selection_index, 2);
}

#[test]
fn submit_over_empty_lists_does_nothing() {
    let mut app = App::new();
    let effect = handle_keys_events(&mut app, AppAction::InputSubmit);
    assert_eq!(effect_name(&effect), "nothing");
    assert_eq!(app.status_message, LOADING_SERVERS_STATUS);

    app.state = AppState::SelectingChannel("g1".to_string());
    app.channels = vec![chan("c0", "group", CATEGORY_CHANNEL_TYPE, Some("g1"))];
    app.status_message = "before".to_string();
    let effect = handle_keys_events(&mut app, AppAction::InputSubmit);
    assert_eq!(effect_name(&effect), "nothing");
    assert_eq!(state_name(&app.state), "channels:g1");
    assert_eq!(app.status_message, "before");
}

#[test]
fn characters_reach_the_input_only_in_a_conversation() {
    let mut app = three_guilds(0);
    handle_keys_events(&mut app, AppAction::InputChar('x'));
    assert_eq!(app.input, "");

    app.state = AppState::SelectingChannel("g1".to_string());
    handle_keys_events(&mut app, AppAction::InputChar('x'));
    assert_eq!(app.input, "");

    app.state = AppState::Chatting("c1".to_string());
    handle_keys_events(&mut app, AppAction::InputChar('h'));
    handle_keys_events(&mut app, AppAction::InputChar('é'));
    let effect = handle_keys_events(&mut app, AppAction::InputChar('!'));
    assert_eq!(effect_name(&effect), "nothing");
    assert_eq!(app.input, "hé!");
}

#[test]
fn backspace_pops_in_every_state() {
    let mut app = three_guilds(0);
    app.input = "ab".to_string();
    handle_keys_events(&mut app, AppAction::InputBackspace);
    assert_eq!(app.input, "a");
    app.state = AppState::Chatting("c1".to_string());
    handle_keys_events(&mut app, AppAction::InputBackspace);
    assert_eq!(app.input, "");
    let effect = handle_keys_events(&mut app, AppAction::InputBackspace);
    assert_eq!(effect_name(&effect), "nothing");
    assert_eq!(app.input, "");
    assert_eq!(state_name(&app.state), "chat:c1");
}

#[test]
fn messages_update_replaces_the_messages() {
    let mut app = three_guilds(1);
    app.messages = vec![message("m0", "old")];
    let effect = handle_keys_events(
        &mut app,
        AppAction::ApiUpdateMessages(vec![message("m1", "a"), message("m2", "b")]),
    );
    assert_eq!(effect_name(&effect), "nothing");
    assert_eq!(app.messages.len(), 2);
    assert_eq!(app.messages[0].id, "m1");
    assert_eq!(app.messages[1].id, "m2");
    assert_eq!(app.selection_index, 1);
    assert_eq!(state_name(&app.state), "guilds");
}

#[test]
fn transitions_set_state_and_status() {
    let mut app = three_guilds(2);
    handle_keys_events(&mut app, AppAction::TransitionToChat("c5".to_string()));
    assert_eq!(state_name(&app.state), "chat:c5");
    assert_eq!(app.status_message, CHATTING_STATUS);
    assert_eq!(app.status_message, "Chatting...");
    assert_eq!(app.selection_index, 2);

    handle_keys_events(&mut app, AppAction::TransitionToChannels("g2".to_string()));
    assert_eq!(state_name(&app.state), "channels:g2");
    assert_eq!(
        app.status_message,
        "Select a channel. Use arrows to navigate, Enter to select & Esc to quit"
    );
    assert_eq!(app.selection_index, 0);

    app.channels = vec![chan("c1", "a", 0, None), chan("c2", "b", 0, None)];
    app.selection_index = 1;
    handle_keys_events(&mut app, AppAction::TransitionToGuilds);
    assert_eq!(state_name(&app.state), "guilds");
    assert_eq!(app.status_message, SELECT_SERVER_STATUS);
    assert_eq!(app.selection_index, 0);
}
