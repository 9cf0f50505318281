//! What the two panes show for a snapshot: the title and the entries of
//! the list that the state selects from, and the title of the input pane.

use crate::app::{
    lemma_selectable_step, selectable_channels, App, AppState, AppStateView, AppView,
};
use crate::channel::CATEGORY_CHANNEL_TYPE;
use crate::layout::{pane_size, visible_messages, visible_texts};
use vstd::prelude::*;
use vstd::string::StringExecFns;

verus! {

/// Title of the pane over the list of servers.
pub const SERVERS_TITLE: &'static str = "Servers (Guilds)";

/// Title of the pane over a conversation.
pub const CONVERSATION_TITLE: &'static str = "Rivet Client (Esc to return to Servers";

/// How a channel called `name` is listed.
pub open spec fn channel_label(name: Seq<char>) -> Seq<char> {
    "# "@ + name
}

impl AppView {
    /// The snapshot with the size of the main pane set.
    pub open spec fn resized(self, height: nat, width: nat) -> AppView {
        AppView { terminal_height: height, terminal_width: width, ..self }
    }

    /// The title of the main pane.
    pub open spec fn pane_title(self) -> Seq<char> {
        match self.state {
            AppStateView::SelectingGuild => SERVERS_TITLE@,
            AppStateView::SelectingChannel(guild_id) => "Channels for Guild: "@ + guild_id,
            AppStateView::Chatting(_) => CONVERSATION_TITLE@,
        }
    }

    /// The title of the input pane: the status line.
    pub open spec fn input_title(self) -> Seq<char> {
        "Input: "@ + self.status_message
    }

    /// The entries of the list under the selection, which is always the
    /// list of the current state: the servers by name, or the channels
    /// that can be chosen by their labels. A conversation has no list.
    pub open spec fn list_entries(self) -> Seq<Seq<char>> {
        match self.state {
            AppStateView::SelectingGuild => Seq::new(
                self.guilds.len(),
                |j: int| self.guilds[j].name,
            ),
            AppStateView::SelectingChannel(_) => {
                let list = selectable_channels(self.channels);
                Seq::new(list.len(), |j: int| channel_label(list[j].name))
            },
            AppStateView::Chatting(_) => Seq::empty(),
        }
    }

    /// The rows inside the main pane's border.
    pub open spec fn inner_height(self) -> nat {
        if self.terminal_height >= 2 {
            (self.terminal_height - 2) as nat
        } else {
            0
        }
    }

    /// The columns inside the main pane's border, modulo 65536.
    pub open spec fn inner_width(self) -> nat {
        if self.terminal_width >= 2 {
            ((self.terminal_width - 2) % 0x10000) as nat
        } else {
            0
        }
    }

    /// The texts of the conversation that the main pane has room for.
    pub open spec fn conversation_texts(self) -> Seq<Seq<char>> {
        visible_texts(self.messages, self.inner_height(), self.inner_width() as u16)
    }
}

/// Records the size of the main pane, which decides how much of a
/// conversation is shown.
pub fn resize(app: &mut App, height: usize, width: usize)
    ensures
        final(app)@ == old(app)@.resized(height as nat, width as nat),
        old(app).wf() ==> final(app).wf(),
{
    app.terminal_height = height;
    app.terminal_width = width;
}

/// Words the title of the main pane.
pub fn pane_title(app: &App) -> (title: String)
    ensures
        title@ == app@.pane_title(),
{
    match &app.state {
        AppState::SelectingGuild => SERVERS_TITLE.to_owned(),
        AppState::SelectingChannel(guild_id) => {
            let mut title = "Channels for Guild: ".to_owned();
            title.append(guild_id.as_str());
            title
        },
        AppState::Chatting(_) => CONVERSATION_TITLE.to_owned(),
    }
}

/// Words the title of the input pane.
pub fn input_title(app: &App) -> (title: String)
    ensures
        title@ == app@.input_title(),
{
    let mut title = "Input: ".to_owned();
    title.append(app.status_message.as_str());
    title
}

/// Lists the entries that the selection runs over in the current state.
/// The entry at `selection_index` is the one that submit would take.
pub fn list_items(app: &App) -> (items: Vec<String>)
    ensures
        items.deep_view() == app@.list_entries(),
        items.len() == app@.selection_count(),
{
    let mut items: Vec<String> = Vec::new();
    match &app.state {
        AppState::SelectingGuild => {
            let mut i: usize = 0;
            while i < app.guilds.len()
                invariant
                    i <= app.guilds.len(),
                    items.len() == i,
                    forall|j: int| 0 <= j < i ==> (#[trigger] items[j])@ == app.guilds[j].name@,
                decreases app.guilds.len() - i,
            {
                items.push(app.guilds[i].name.clone());
                i += 1;
            }
            assert(items.deep_view() =~= app@.list_entries());
        },
        AppState::SelectingChannel(_) => {
            let ghost all = app.channels.deep_view();
            let mut i: usize = 0;
            proof {
                lemma_selectable_step(all.take(0));
            }
            while i < app.channels.len()
                invariant
                    i <= app.channels.len(),
                    all == app.channels.deep_view(),
                    items.len() == selectable_channels(all.take(i as int)).len(),
                    forall|j: int|
                        0 <= j < items.len() ==> (#[trigger] items[j])@ == channel_label(
                            selectable_channels(all.take(i as int))[j].name,
                        ),
                decreases app.channels.len() - i,
            {
                proof {
                    assert(all.take(i + 1).drop_last() =~= all.take(i as int));
                    assert(all.take(i + 1).last() == app.channels[i as int]@);
                    lemma_selectable_step(all.take(i + 1));
                }
                if app.channels[i].channel_type != CATEGORY_CHANNEL_TYPE {
                    let mut label = "# ".to_owned();
                    label.append(app.channels[i].name.as_str());
                    items.push(label);
                }
                i += 1;
            }
            assert(all.take(all.len() as int) =~= all);
            assert(items.deep_view() =~= app@.list_entries());
        },
        AppState::Chatting(_) => {
            assert(items.deep_view() =~= app@.list_entries());
        },
    }
    items
}

/// Words the messages of the conversation that the main pane has room
/// for, the first message last.
pub fn conversation_lines(app: &App) -> (texts: Vec<String>)
    ensures
        texts.deep_view() == app@.conversation_texts(),
{
    let inner = pane_size(app.terminal_height, app.terminal_width);
    visible_messages(&app.messages, inner.0, inner.1)
}

} // verus!
