//! The sync task's decisions: what becomes of the list of servers once it
//! has been fetched, which channel to poll, and what becomes of a poll's
//! outcome.

use crate::app::{App, AppAction, AppActionView, AppState, AppStateView, AppView};
use crate::guild::{Guild, GuildView};
use crate::message::Message;
use vstd::prelude::*;
use vstd::string::StringExecFns;

verus! {

/// How many of a channel's latest messages one poll asks for.
pub const MESSAGE_LIMIT: usize = 100;

/// How long the sync task waits between two polls, in seconds. A shutdown
/// is noticed within this time.
pub const SYNC_INTERVAL_SECS: u64 = 1;

/// Status line once the servers have arrived.
pub const SERVERS_READY_STATUS: &'static str =
    "Select a server. Use arrows to navigate, Enter to select & Esc to quit.";

/// Status line when the servers could not be fetched.
pub open spec fn servers_failed_status(error: Seq<char>) -> Seq<char> {
    "Failed to load servers. "@ + error
}

/// Status line when a conversation's messages could not be fetched.
pub open spec fn chat_failed_status(error: Seq<char>) -> Seq<char> {
    "Error loading chat: "@ + error
}

impl AppView {
    /// The snapshot once the servers have arrived. The selection goes back
    /// to the first entry where it is the servers that it selects from.
    pub open spec fn with_servers(self, guilds: Seq<GuildView>) -> AppView {
        AppView {
            guilds,
            status_message: SERVERS_READY_STATUS@,
            selection_index: if self.state is SelectingGuild {
                0
            } else {
                self.selection_index
            },
            ..self
        }
    }

    /// The channel whose messages the sync task is to fetch at this tick:
    /// that of the conversation, if the user is in one.
    pub open spec fn poll_target(self) -> Option<Seq<char>> {
        match self.state {
            AppStateView::Chatting(channel_id) => Some(channel_id),
            _ => None,
        }
    }
}

/// Takes in the outcome of the one fetch of the user's servers. The list
/// is stored and the status line says that a server can be chosen; a
/// failure leaves the list as it is and puts the error on the status line.
pub fn servers_loaded(app: &mut App, outcome: Result<Vec<Guild>, String>)
    ensures
        final(app)@ == match outcome {
            Ok(guilds) => old(app)@.with_servers(guilds.deep_view()),
            Err(error) => AppView { status_message: servers_failed_status(error@), ..old(app)@ },
        },
        old(app).wf() ==> final(app).wf(),
{
    match outcome {
        Ok(guilds) => {
            app.guilds = guilds;
            app.status_message = SERVERS_READY_STATUS.to_owned();
            if let AppState::SelectingGuild = &app.state {
                app.selection_index = 0;
            }
        },
        Err(error) => {
            let mut status = "Failed to load servers. ".to_owned();
            status.append(error.as_str());
            app.status_message = status;
        },
    }
}

/// The id of the channel to poll at this tick, if the user is in a
/// conversation.
pub fn poll_target(app: &App) -> (target: Option<String>)
    ensures
        target.deep_view() == app@.poll_target(),
{
    match &app.state {
        AppState::Chatting(channel_id) => Some(channel_id.clone()),
        _ => None,
    }
}

/// Takes in the outcome of one poll. Fetched messages become an action for
/// the dispatcher and the snapshot is left alone; a failure goes on the
/// status line and yields no action.
pub fn messages_fetched(app: &mut App, outcome: Result<Vec<Message>, String>) -> (action: Option<
    AppAction,
>)
    ensures
        match outcome {
            Ok(messages) => final(app)@ == old(app)@ && action.deep_view() == Some(
                AppActionView::ApiUpdateMessages(messages.deep_view()),
            ),
            Err(error) => final(app)@ == (AppView {
                status_message: chat_failed_status(error@),
                ..old(app)@
            }) && action is None,
        },
        old(app).wf() ==> final(app).wf(),
{
    match outcome {
        Ok(messages) => Some(AppAction::ApiUpdateMessages(messages)),
        Err(error) => {
            let mut status = "Error loading chat: ".to_owned();
            status.append(error.as_str());
            app.status_message = status;
            None
        },
    }
}

} // verus!
