//! The dispatcher's step: one action applied to the snapshot, and what the
//! caller is asked to do about it.

use crate::app::{
    channels_report, escape_report, lemma_selectable_step, selectable_channels, App, AppAction,
    AppState, Effect, CHANNELS_LOADED_STATUS, CHATTING_STATUS, NO_CHANNELS_STATUS,
    SELECT_CHANNEL_STATUS, SELECT_SERVER_STATUS,
};
use crate::channel::{Channel, ChannelView, CATEGORY_CHANNEL_TYPE};
use vstd::arithmetic::div_mod::{
    lemma_mod_add_multiples_vanish, lemma_mod_self_0, lemma_small_mod,
};
use vstd::prelude::*;
use vstd::string::StringExecFns;

verus! {

/// Every channel that can be chosen among the first `k` can be chosen
/// among all, at the same place.
proof fn lemma_selectable_prefix(channels: Seq<ChannelView>, k: int)
    requires
        0 <= k <= channels.len(),
    ensures
        selectable_channels(channels.take(k)).len() <= selectable_channels(channels).len(),
        forall|j: int|
            0 <= j < selectable_channels(channels.take(k)).len() ==> selectable_channels(
                channels,
            )[j] == #[trigger] selectable_channels(channels.take(k))[j],
    decreases channels.len(),
{
    if k == channels.len() {
        assert(channels.take(k) =~= channels);
    } else {
        assert(channels.drop_last().take(k) =~= channels.take(k));
        lemma_selectable_prefix(channels.drop_last(), k);
        lemma_selectable_step(channels);
    }
}

/// Counts the channels that can be chosen.
pub fn count_selectable(channels: &Vec<Channel>) -> (count: usize)
    ensures
        count == selectable_channels(channels.deep_view()).len(),
{
    let ghost all = channels.deep_view();
    let mut count: usize = 0;
    let mut i: usize = 0;
    proof {
        lemma_selectable_step(all.take(0));
    }
    while i < channels.len()
        invariant
            i <= channels.len(),
            all == channels.deep_view(),
            count <= i,
            count == selectable_channels(all.take(i as int)).len(),
        decreases channels.len() - i,
    {
        proof {
            assert(all.take(i + 1).drop_last() =~= all.take(i as int));
            assert(all.take(i + 1).last() == channels[i as int]@);
            lemma_selectable_step(all.take(i + 1));
        }
        if channels[i].channel_type != CATEGORY_CHANNEL_TYPE {
            count += 1;
        }
        i += 1;
    }
    assert(all.take(all.len() as int) =~= all);
    count
}

/// Finds where the `n`-th channel that can be chosen stands among all.
fn nth_selectable(channels: &Vec<Channel>, n: usize) -> (at: usize)
    requires
        n < selectable_channels(channels.deep_view()).len(),
    ensures
        at < channels.len(),
        channels[at as int]@ == selectable_channels(channels.deep_view())[n as int],
{
    let ghost all = channels.deep_view();
    let mut seen: usize = 0;
    let mut i: usize = 0;
    proof {
        lemma_selectable_step(all.take(0));
    }
    while i < channels.len()
        invariant
            i <= channels.len(),
            all == channels.deep_view(),
            seen <= i,
            seen <= n,
            seen == selectable_channels(all.take(i as int)).len(),
            n < selectable_channels(all).len(),
        decreases channels.len() - i,
    {
        proof {
            assert(all.take(i + 1).drop_last() =~= all.take(i as int));
            assert(all.take(i + 1).last() == channels[i as int]@);
            lemma_selectable_step(all.take(i + 1));
        }
        if channels[i].channel_type != CATEGORY_CHANNEL_TYPE {
            if seen == n {
                proof {
                    lemma_selectable_prefix(all, i + 1);
                    assert(selectable_channels(all.take(i + 1))[n as int] == channels[i as int]@);
                }
                return i;
            }
            seen += 1;
        }
        i += 1;
    }
    // Not reached: by now every channel that can be chosen has been seen,
    // and there are more than `n` of them.
    assert(all.take(all.len() as int) =~= all);
    i
}

/// How many entries the list under the selection holds.
fn selection_count(app: &App) -> (count: usize)
    ensures
        count == app@.selection_count(),
{
    match &app.state {
        AppState::SelectingGuild => app.guilds.len(),
        AppState::SelectingChannel(_) => count_selectable(&app.channels),
        AppState::Chatting(_) => 0,
    }
}

/// Checks that the selection points into the list it belongs to, which
/// every step of the dispatcher asks of the snapshot it is given and keeps
/// true of the one it leaves.
pub fn well_formed(app: &App) -> (ok: bool)
    ensures
        ok == app.wf(),
{
    let count = selection_count(app);
    count == 0 || app.selection_index < count
}

/// Moves the selection one entry forward or back in the list that the
/// current state selects from, wrapping at either end. An empty list, and
/// a conversation, leave the selection where it is.
pub fn move_selection(app: &mut App, forward: bool)
    requires
        old(app).wf(),
    ensures
        final(app)@ == old(app)@.moved(forward),
        final(app).wf(),
{
    let count = selection_count(app);
    if count == 0 {
        return ;
    }
    let index = app.selection_index;
    proof {
        let c = count as int;
        let i = index as int;
        if forward {
            if i + 1 == c {
                lemma_mod_self_0(c);
            } else {
                lemma_small_mod((i + 1) as nat, c as nat);
            }
        } else {
            if i == 0 {
                lemma_small_mod((c - 1) as nat, c as nat);
            } else {
                lemma_mod_add_multiples_vanish(i - 1, c);
                lemma_small_mod((i - 1) as nat, c as nat);
            }
        }
    }
    if forward {
        app.selection_index = if index + 1 == count {
            0
        } else {
            index + 1
        };
    } else {
        app.selection_index = if index == 0 {
            count - 1
        } else {
            index - 1
        };
    }
}

/// Applies submit. Over the servers it asks for the chosen server's
/// channels; over the channels it enters the chosen channel; in a
/// conversation it takes the input line and asks for it to be posted. An
/// empty list or an empty input line makes it do nothing.
pub fn input_submit(app: &mut App) -> (effect: Effect)
    requires
        old(app).wf(),
    ensures
        final(app)@ == old(app)@.submitted(),
        effect@ == old(app)@.submit_effect(),
        final(app).wf(),
{
    match &app.state {
        AppState::SelectingGuild => {
            if app.guilds.len() == 0 {
                return Effect::Nothing;
            }
            let guild = &app.guilds[app.selection_index];
            let guild_id = guild.id.clone();
            let mut status = "Loading channels for ".to_owned();
            status.append(guild.name.as_str());
            status.append("...");
            app.status_message = status;
            Effect::FetchChannels(guild_id)
        },
        AppState::SelectingChannel(_) => {
            if count_selectable(&app.channels) == 0 {
                return Effect::Nothing;
            }
            let at = nth_selectable(&app.channels, app.selection_index);
            let channel_id = app.channels[at].id.clone();
            let mut status = "Chatting in channel #".to_owned();
            status.append(app.channels[at].name.as_str());
            app.state = AppState::Chatting(channel_id);
            app.status_message = status;
            app.selection_index = 0;
            Effect::Nothing
        },
        AppState::Chatting(channel_id) => {
            if app.input.as_str().is_empty() {
                return Effect::Nothing;
            }
            let channel_id = channel_id.clone();
            let content = app.input.clone();
            app.input = String::new();
            Effect::PostMessage { channel_id, content }
        },
    }
}

/// Applies one action to the snapshot and says what the caller is to do:
/// stop, make a remote call, or nothing. The step never waits for a remote
/// call itself.
pub fn handle_keys_events(app: &mut App, action: AppAction) -> (effect: Effect)
    requires
        old(app).wf(),
    ensures
        final(app)@ == old(app)@.next(action@),
        effect@ == old(app)@.effect(action@),
        final(app).wf(),
{
    match action {
        AppAction::Quit => Effect::Stop,
        AppAction::InputEscape => match &app.state {
            AppState::SelectingGuild => Effect::Stop,
            AppState::SelectingChannel(_) => {
                app.state = AppState::SelectingGuild;
                app.status_message = SELECT_SERVER_STATUS.to_owned();
                app.selection_index = 0;
                Effect::Nothing
            },
            AppState::Chatting(channel_id) => Effect::LookupChannel(channel_id.clone()),
        },
        AppAction::InputChar(c) => {
            if let AppState::Chatting(_) = &app.state {
                app.input.push(c);
            }
            Effect::Nothing
        },
        AppAction::InputBackspace => {
            app.input.pop();
            Effect::Nothing
        },
        AppAction::InputSubmit => input_submit(app),
        AppAction::SelectNext => {
            move_selection(app, true);
            Effect::Nothing
        },
        AppAction::SelectPrevious => {
            move_selection(app, false);
            Effect::Nothing
        },
        AppAction::ApiUpdateMessages(new_messages) => {
            app.messages = new_messages;
            Effect::Nothing
        },
        AppAction::ApiUpdateChannel(new_channels) => {
            app.channels = new_channels;
            if count_selectable(&app.channels) > 0 {
                app.status_message = CHANNELS_LOADED_STATUS.to_owned();
            } else {
                app.status_message = NO_CHANNELS_STATUS.to_owned();
            }
            app.selection_index = 0;
            Effect::Nothing
        },
        AppAction::TransitionToChannels(guild_id) => {
            app.state = AppState::SelectingChannel(guild_id);
            app.status_message = SELECT_CHANNEL_STATUS.to_owned();
            app.selection_index = 0;
            Effect::Nothing
        },
        AppAction::TransitionToChat(channel_id) => {
            app.state = AppState::Chatting(channel_id);
            app.status_message = CHATTING_STATUS.to_owned();
            Effect::Nothing
        },
        AppAction::TransitionToGuilds => {
            app.state = AppState::SelectingGuild;
            app.status_message = SELECT_SERVER_STATUS.to_owned();
            app.selection_index = 0;
            Effect::Nothing
        },
    }
}

/// Turns the outcome of the lookup that escape asked for into the action
/// that takes the user out of the conversation.
pub fn channel_resolved(channel: &Channel) -> (action: AppAction)
    ensures
        action@ == escape_report(channel@),
{
    match &channel.guild_id {
        Some(guild_id) => AppAction::TransitionToChannels(guild_id.clone()),
        None => AppAction::TransitionToGuilds,
    }
}

/// Turns a server's fetched channels into the actions that report them,
/// in the order in which they are to be sent.
pub fn channels_fetched(guild_id: String, channels: Vec<Channel>) -> (actions: Vec<AppAction>)
    ensures
        actions.deep_view() == channels_report(guild_id@, channels.deep_view()),
{
    let mut actions: Vec<AppAction> = Vec::new();
    actions.push(AppAction::ApiUpdateChannel(channels));
    actions.push(AppAction::TransitionToChannels(guild_id));
    assert(actions.deep_view() =~= channels_report(guild_id@, channels.deep_view()));
    actions
}

} // verus!
