//! The state that the client displays, the actions that change it, and
//! the model of one dispatch step.

use crate::channel::{Channel, ChannelView, CATEGORY_CHANNEL_TYPE};
use crate::guild::{Guild, GuildView};
use crate::message::{Message, MessageView};
use vstd::arithmetic::div_mod::{
    lemma_mod_add_multiples_vanish, lemma_mod_bound, lemma_mod_self_0, lemma_small_mod,
};
use vstd::prelude::*;

verus! {

/// Status line while the list of servers is being fetched.
pub const LOADING_SERVERS_STATUS: &'static str = "Loading servers...";

/// Status line over the list of servers.
pub const SELECT_SERVER_STATUS: &'static str =
    "Select a server. Use arrows to navigate, Enter to select & Esc to quit";

/// Status line over the list of channels.
pub const SELECT_CHANNEL_STATUS: &'static str =
    "Select a channel. Use arrows to navigate, Enter to select & Esc to quit";

/// Status line once a server's channels have arrived and one can be chosen.
pub const CHANNELS_LOADED_STATUS: &'static str =
    "Channels loaded. Select one to chat. (Esc to return to Servers)";

/// Status line once a server's channels have arrived and none can be chosen.
pub const NO_CHANNELS_STATUS: &'static str = "No text channels found. (Esc to return to Servers)";

/// Status line on entering a conversation by its id alone.
pub const CHATTING_STATUS: &'static str = "Chatting...";

/// What the user is doing.
#[derive(Debug, Clone)]
pub enum AppState {
    /// Choosing among the servers.
    SelectingGuild,
    /// Choosing among the channels of the server with this id.
    SelectingChannel(String),
    /// Reading and writing in the channel with this id.
    Chatting(String),
}

/// One event for the dispatcher: a user's intent or a remote result.
#[derive(Debug, Clone)]
pub enum AppAction {
    Quit,
    InputChar(char),
    InputBackspace,
    InputEscape,
    InputSubmit,
    SelectNext,
    SelectPrevious,
    ApiUpdateMessages(Vec<Message>),
    ApiUpdateChannel(Vec<Channel>),
    TransitionToChat(String),
    TransitionToChannels(String),
    TransitionToGuilds,
}

/// What the dispatcher asks of its caller after a step. The remote calls
/// are the caller's to make, detached from the dispatch loop.
#[derive(Debug, Clone)]
pub enum Effect {
    /// Nothing to do but redraw.
    Nothing,
    /// Leave the dispatch loop.
    Stop,
    /// Fetch the channels of this server and report them back.
    FetchChannels(String),
    /// Post `content` to the channel `channel_id`.
    PostMessage { channel_id: String, content: String },
    /// Look this channel up and report back where escaping leads.
    LookupChannel(String),
}

/// The one snapshot of what is displayed and what the user is doing.
#[derive(Debug, Clone)]
pub struct App {
    pub state: AppState,
    pub guilds: Vec<Guild>,
    pub channels: Vec<Channel>,
    pub messages: Vec<Message>,
    pub input: String,
    pub selection_index: usize,
    pub status_message: String,
    pub terminal_height: usize,
    pub terminal_width: usize,
}

/// `AppState` as plain values.
pub enum AppStateView {
    SelectingGuild,
    SelectingChannel(Seq<char>),
    Chatting(Seq<char>),
}

/// `AppAction` as plain values.
pub enum AppActionView {
    Quit,
    InputChar(char),
    InputBackspace,
    InputEscape,
    InputSubmit,
    SelectNext,
    SelectPrevious,
    ApiUpdateMessages(Seq<MessageView>),
    ApiUpdateChannel(Seq<ChannelView>),
    TransitionToChat(Seq<char>),
    TransitionToChannels(Seq<char>),
    TransitionToGuilds,
}

/// `Effect` as plain values.
pub enum EffectView {
    Nothing,
    Stop,
    FetchChannels(Seq<char>),
    PostMessage { channel_id: Seq<char>, content: Seq<char> },
    LookupChannel(Seq<char>),
}

/// `App` as plain values.
pub struct AppView {
    pub state: AppStateView,
    pub guilds: Seq<GuildView>,
    pub channels: Seq<ChannelView>,
    pub messages: Seq<MessageView>,
    pub input: Seq<char>,
    pub selection_index: nat,
    pub status_message: Seq<char>,
    pub terminal_height: nat,
    pub terminal_width: nat,
}

impl View for AppState {
    type V = AppStateView;

    open spec fn view(&self) -> AppStateView {
        match self {
            AppState::SelectingGuild => AppStateView::SelectingGuild,
            AppState::SelectingChannel(id) => AppStateView::SelectingChannel(id@),
            AppState::Chatting(id) => AppStateView::Chatting(id@),
        }
    }
}

impl View for AppAction {
    type V = AppActionView;

    open spec fn view(&self) -> AppActionView {
        match self {
            AppAction::Quit => AppActionView::Quit,
            AppAction::InputChar(c) => AppActionView::InputChar(*c),
            AppAction::InputBackspace => AppActionView::InputBackspace,
            AppAction::InputEscape => AppActionView::InputEscape,
            AppAction::InputSubmit => AppActionView::InputSubmit,
            AppAction::SelectNext => AppActionView::SelectNext,
            AppAction::SelectPrevious => AppActionView::SelectPrevious,
            AppAction::ApiUpdateMessages(list) => AppActionView::ApiUpdateMessages(
                list.deep_view(),
            ),
            AppAction::ApiUpdateChannel(list) => AppActionView::ApiUpdateChannel(list.deep_view()),
            AppAction::TransitionToChat(id) => AppActionView::TransitionToChat(id@),
            AppAction::TransitionToChannels(id) => AppActionView::TransitionToChannels(id@),
            AppAction::TransitionToGuilds => AppActionView::TransitionToGuilds,
        }
    }
}

impl DeepView for AppAction {
    type V = AppActionView;

    open spec fn deep_view(&self) -> AppActionView {
        self@
    }
}

impl View for Effect {
    type V = EffectView;

    open spec fn view(&self) -> EffectView {
        match self {
            Effect::Nothing => EffectView::Nothing,
            Effect::Stop => EffectView::Stop,
            Effect::FetchChannels(id) => EffectView::FetchChannels(id@),
            Effect::PostMessage { channel_id, content } => EffectView::PostMessage {
                channel_id: channel_id@,
                content: content@,
            },
            Effect::LookupChannel(id) => EffectView::LookupChannel(id@),
        }
    }
}

impl View for App {
    type V = AppView;

    open spec fn view(&self) -> AppView {
        AppView {
            state: self.state@,
            guilds: self.guilds.deep_view(),
            channels: self.channels.deep_view(),
            messages: self.messages.deep_view(),
            input: self.input@,
            selection_index: self.selection_index as nat,
            status_message: self.status_message@,
            terminal_height: self.terminal_height as nat,
            terminal_width: self.terminal_width as nat,
        }
    }
}

/// Whether a channel can be chosen: any channel but a category.
pub open spec fn is_selectable(channel: ChannelView) -> bool {
    channel.channel_type != CATEGORY_CHANNEL_TYPE
}

/// The channels that can be chosen, in the order in which they are listed.
pub open spec fn selectable_channels(channels: Seq<ChannelView>) -> Seq<ChannelView> {
    channels.filter(|channel: ChannelView| is_selectable(channel))
}

/// How the channels that can be chosen grow with the list: the last
/// channel joins those before it if it can be chosen, and is left out if
/// it cannot.
pub proof fn lemma_selectable_step(channels: Seq<ChannelView>)
    ensures
        channels.len() == 0 ==> selectable_channels(channels) == Seq::<ChannelView>::empty(),
        channels.len() > 0 ==> selectable_channels(channels) == if is_selectable(
            channels.last(),
        ) {
            selectable_channels(channels.drop_last()).push(channels.last())
        } else {
            selectable_channels(channels.drop_last())
        },
{
    reveal(Seq::filter);
    if channels.len() == 0 {
        assert(selectable_channels(channels) =~= Seq::<ChannelView>::empty());
    }
}

/// Status line while the channels of the server called `name` are fetched.
pub open spec fn loading_channels_status(name: Seq<char>) -> Seq<char> {
    "Loading channels for "@ + name + "..."@
}

/// Status line on entering the channel called `name` from the list.
pub open spec fn chatting_in_status(name: Seq<char>) -> Seq<char> {
    "Chatting in channel #"@ + name
}

impl AppView {
    /// The snapshot at startup.
    pub open spec fn initial() -> AppView {
        AppView {
            state: AppStateView::SelectingGuild,
            guilds: Seq::empty(),
            channels: Seq::empty(),
            messages: Seq::empty(),
            input: Seq::empty(),
            selection_index: 0,
            status_message: LOADING_SERVERS_STATUS@,
            terminal_height: 20,
            terminal_width: 80,
        }
    }

    /// How many entries the list under the selection holds: the servers,
    /// or the channels that can be chosen. A conversation has no such list.
    pub open spec fn selection_count(self) -> nat {
        match self.state {
            AppStateView::SelectingGuild => self.guilds.len(),
            AppStateView::SelectingChannel(_) => selectable_channels(self.channels).len(),
            AppStateView::Chatting(_) => 0,
        }
    }

    /// The selection points into the list it belongs to, unless that list
    /// is empty.
    pub open spec fn wf(self) -> bool {
        self.selection_count() == 0 || self.selection_index < self.selection_count()
    }

    /// The snapshot with the selection moved one entry forward or back,
    /// wrapping at either end. An empty list leaves it where it is.
    pub open spec fn moved(self, forward: bool) -> AppView {
        let count = self.selection_count() as int;
        if count == 0 {
            self
        } else if forward {
            AppView { selection_index: ((self.selection_index as int + 1) % count) as nat, ..self }
        } else {
            AppView {
                selection_index: ((self.selection_index as int + count - 1) % count) as nat,
                ..self
            }
        }
    }

    /// The snapshot after escape.
    pub open spec fn escaped(self) -> AppView {
        match self.state {
            AppStateView::SelectingChannel(_) => AppView {
                state: AppStateView::SelectingGuild,
                selection_index: 0,
                status_message: SELECT_SERVER_STATUS@,
                ..self
            },
            _ => self,
        }
    }

    /// The snapshot after submit.
    pub open spec fn submitted(self) -> AppView {
        match self.state {
            AppStateView::SelectingGuild => if self.guilds.len() == 0 {
                self
            } else {
                AppView {
                    status_message: loading_channels_status(
                        self.guilds[self.selection_index as int].name,
                    ),
                    ..self
                }
            },
            AppStateView::SelectingChannel(_) => {
                let list = selectable_channels(self.channels);
                if list.len() == 0 {
                    self
                } else {
                    let chosen = list[self.selection_index as int];
                    AppView {
                        state: AppStateView::Chatting(chosen.id),
                        status_message: chatting_in_status(chosen.name),
                        selection_index: 0,
                        ..self
                    }
                }
            },
            AppStateView::Chatting(_) => if self.input.len() == 0 {
                self
            } else {
                AppView { input: Seq::empty(), ..self }
            },
        }
    }

    /// What submit asks of the caller.
    pub open spec fn submit_effect(self) -> EffectView {
        match self.state {
            AppStateView::SelectingGuild => if self.guilds.len() == 0 {
                EffectView::Nothing
            } else {
                EffectView::FetchChannels(self.guilds[self.selection_index as int].id)
            },
            AppStateView::SelectingChannel(_) => EffectView::Nothing,
            AppStateView::Chatting(channel_id) => if self.input.len() == 0 {
                EffectView::Nothing
            } else {
                EffectView::PostMessage { channel_id, content: self.input }
            },
        }
    }

    /// The snapshot after one action has been applied in full.
    pub open spec fn next(self, action: AppActionView) -> AppView {
        match action {
            AppActionView::Quit => self,
            AppActionView::InputChar(c) => if self.state is Chatting {
                AppView { input: self.input.push(c), ..self }
            } else {
                self
            },
            AppActionView::InputBackspace => if self.input.len() == 0 {
                self
            } else {
                AppView { input: self.input.drop_last(), ..self }
            },
            AppActionView::InputEscape => self.escaped(),
            AppActionView::InputSubmit => self.submitted(),
            AppActionView::SelectNext => self.moved(true),
            AppActionView::SelectPrevious => self.moved(false),
            AppActionView::ApiUpdateMessages(list) => AppView { messages: list, ..self },
            AppActionView::ApiUpdateChannel(list) => AppView {
                channels: list,
                selection_index: 0,
                status_message: if selectable_channels(list).len() > 0 {
                    CHANNELS_LOADED_STATUS@
                } else {
                    NO_CHANNELS_STATUS@
                },
                ..self
            },
            AppActionView::TransitionToChat(id) => AppView {
                state: AppStateView::Chatting(id),
                status_message: CHATTING_STATUS@,
                ..self
            },
            AppActionView::TransitionToChannels(id) => AppView {
                state: AppStateView::SelectingChannel(id),
                selection_index: 0,
                status_message: SELECT_CHANNEL_STATUS@,
                ..self
            },
            AppActionView::TransitionToGuilds => AppView {
                state: AppStateView::SelectingGuild,
                selection_index: 0,
                status_message: SELECT_SERVER_STATUS@,
                ..self
            },
        }
    }

    /// What one action asks of the caller.
    pub open spec fn effect(self, action: AppActionView) -> EffectView {
        match action {
            AppActionView::Quit => EffectView::Stop,
            AppActionView::InputEscape => match self.state {
                AppStateView::SelectingGuild => EffectView::Stop,
                AppStateView::SelectingChannel(_) => EffectView::Nothing,
                AppStateView::Chatting(channel_id) => EffectView::LookupChannel(channel_id),
            },
            AppActionView::InputSubmit => self.submit_effect(),
            _ => EffectView::Nothing,
        }
    }
}

impl App {
    /// The selection points into the list it belongs to, unless that list
    /// is empty.
    pub open spec fn wf(&self) -> bool {
        self@.wf()
    }

    /// The snapshot at startup: over an empty list of servers that is still
    /// to arrive.
    pub fn new() -> (app: App)
        ensures
            app@ == AppView::initial(),
            app.wf(),
    {
        let app = App {
            state: AppState::SelectingGuild,
            guilds: Vec::new(),
            channels: Vec::new(),
            messages: Vec::new(),
            input: String::new(),
            selection_index: 0,
            status_message: LOADING_SERVERS_STATUS.to_owned(),
            terminal_height: 20,
            terminal_width: 80,
        };
        assert(app@.guilds =~= Seq::empty());
        assert(app@.channels =~= Seq::empty());
        assert(app@.messages =~= Seq::empty());
        app
    }
}

/// The action that reports where escaping from a conversation leads, once
/// the conversation's channel has been looked up: to the channels of its
/// server, or to the servers when it belongs to none.
pub open spec fn escape_report(channel: ChannelView) -> AppActionView {
    match channel.guild_id {
        Some(guild_id) => AppActionView::TransitionToChannels(guild_id),
        None => AppActionView::TransitionToGuilds,
    }
}

/// The actions that report a server's channels, in the order in which they
/// are to reach the dispatcher: the list first, then the change of state.
pub open spec fn channels_report(guild_id: Seq<char>, channels: Seq<ChannelView>) -> Seq<
    AppActionView,
> {
    seq![AppActionView::ApiUpdateChannel(channels), AppActionView::TransitionToChannels(guild_id)]
}

/// Every action leaves the selection inside its list: a snapshot that is
/// well formed stays so, whatever is dispatched.
pub proof fn next_preserves_wf(app: AppView, action: AppActionView)
    requires
        app.wf(),
    ensures
        app.next(action).wf(),
{
    let count = app.selection_count() as int;
    if count > 0 {
        lemma_mod_bound(app.selection_index as int + 1, count);
        lemma_mod_bound(app.selection_index as int + count - 1, count);
    }
}

/// Moving the selection wraps at both ends of the list and steps by one
/// everywhere else, so that forward and back undo each other.
pub proof fn selection_wraps(app: AppView)
    requires
        app.wf(),
        app.selection_count() > 0,
    ensures
        app.moved(true).selection_index == if app.selection_index + 1 == app.selection_count() {
            0
        } else {
            app.selection_index + 1
        },
        app.moved(false).selection_index == if app.selection_index == 0 {
            app.selection_count() - 1
        } else {
            app.selection_index - 1
        },
        app.moved(true).moved(false) == app,
        app.moved(false).moved(true) == app,
{
    let c = app.selection_count() as int;
    let i = app.selection_index as int;
    lemma_mod_self_0(c);
    lemma_small_mod((c - 1) as nat, c as nat);
    if i + 1 < c {
        lemma_small_mod((i + 1) as nat, c as nat);
    }
    if i > 0 {
        lemma_mod_add_multiples_vanish(i - 1, c);
        lemma_small_mod((i - 1) as nat, c as nat);
    }
    lemma_mod_add_multiples_vanish(i, c);
    lemma_small_mod(i as nat, c as nat);
    assert(app.moved(true).selection_count() == c);
    assert(app.moved(false).selection_count() == c);
}

/// Submitting an empty input line in a conversation changes nothing and
/// asks for nothing to be posted.
pub proof fn empty_submit_is_ignored(app: AppView)
    requires
        app.state is Chatting,
        app.input.len() == 0,
    ensures
        app.next(AppActionView::InputSubmit) == app,
        app.effect(AppActionView::InputSubmit) == EffectView::Nothing,
{
}

/// A new list of channels always puts the selection back on the first
/// entry, however far down it stood and however short the new list is.
pub proof fn channels_update_resets_selection(app: AppView, channels: Seq<ChannelView>)
    ensures
        app.next(AppActionView::ApiUpdateChannel(channels)).selection_index == 0,
        app.next(AppActionView::ApiUpdateChannel(channels)).channels == channels,
        app.next(AppActionView::ApiUpdateChannel(channels)).state == app.state,
        app.next(AppActionView::ApiUpdateChannel(channels)).wf(),
{
}

/// Escape in a conversation asks for the conversation's channel to be
/// looked up and leaves the snapshot alone. Once the report of that lookup
/// is dispatched, the user is back among the channels of the channel's
/// server, or among the servers when the channel belongs to none.
pub proof fn escape_from_conversation(app: AppView, channel_id: Seq<char>, found: ChannelView)
    requires
        app.state == AppStateView::Chatting(channel_id),
    ensures
        app.effect(AppActionView::InputEscape) == EffectView::LookupChannel(channel_id),
        app.next(AppActionView::InputEscape) == app,
        app.next(escape_report(found)).state == match found.guild_id {
            Some(guild_id) => AppStateView::SelectingChannel(guild_id),
            None => AppStateView::SelectingGuild,
        },
        app.next(escape_report(found)).selection_index == 0,
{
}

/// Submit over a list of servers that is not empty asks for the chosen
/// server's channels. Once the two actions of their report are dispatched
/// in order, the user is choosing among exactly those channels, from the
/// first entry.
pub proof fn submit_leads_to_channel_list(app: AppView, channels: Seq<ChannelView>)
    requires
        app.wf(),
        app.state is SelectingGuild,
        app.guilds.len() > 0,
    ensures
        ({
            let guild_id = app.guilds[app.selection_index as int].id;
            let report = channels_report(guild_id, channels);
            let after = app.next(AppActionView::InputSubmit).next(report[0]).next(report[1]);
            &&& app.effect(AppActionView::InputSubmit) == EffectView::FetchChannels(guild_id)
            &&& report.len() == 2
            &&& report[0] == AppActionView::ApiUpdateChannel(channels)
            &&& report[1] == AppActionView::TransitionToChannels(guild_id)
            &&& after.state == AppStateView::SelectingChannel(guild_id)
            &&& after.channels == channels
            &&& after.selection_index == 0
            &&& after.wf()
        }),
{
}

} // verus!
