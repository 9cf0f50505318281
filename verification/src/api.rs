//! Addresses of the remote endpoints and the texts of the failures that a
//! call to one of them can end in.

use vstd::prelude::*;
use vstd::string::StringExecFns;

verus! {

/// The root under which every endpoint lives.
pub const DISCORD_API_BASE_URL: &'static str = "https://discord.com/api/v10";

/// The address of an endpoint: the root, a collection, the id of one of
/// its members, and what is asked of that member.
pub open spec fn endpoint(collection: Seq<char>, id: Seq<char>, what: Seq<char>) -> Seq<char> {
    DISCORD_API_BASE_URL@ + collection + id + what
}

/// The text of a reply whose status is no success.
pub open spec fn api_error_text(status: Seq<char>, body: Seq<char>) -> Seq<char> {
    "API Error: Status "@ + status + ". Details: "@ + body
}

/// The text of a reply whose body could not be decoded.
pub open spec fn decoding_error_text(error: Seq<char>) -> Seq<char> {
    "JSON Decoding Error: "@ + error + "."@
}

fn endpoint_url(collection: &str, id: &str, what: &str) -> (url: String)
    ensures
        url@ == endpoint(collection@, id@, what@),
{
    let mut url = DISCORD_API_BASE_URL.to_owned();
    url.append(collection);
    url.append(id);
    url.append(what);
    url
}

/// Where the servers of the current user are listed.
pub fn current_user_guilds_url() -> (url: String)
    ensures
        url@ == DISCORD_API_BASE_URL@ + "/users/@me/guilds"@,
{
    let mut url = DISCORD_API_BASE_URL.to_owned();
    url.append("/users/@me/guilds");
    url
}

/// Where one channel is described.
pub fn channel_url(channel_id: &str) -> (url: String)
    ensures
        url@ == endpoint("/channels/"@, channel_id@, ""@),
{
    endpoint_url("/channels/", channel_id, "")
}

/// Where the messages of a channel are read and posted.
pub fn channel_messages_url(channel_id: &str) -> (url: String)
    ensures
        url@ == endpoint("/channels/"@, channel_id@, "/messages"@),
{
    endpoint_url("/channels/", channel_id, "/messages")
}

/// Where the channels of a server are listed.
pub fn guild_channels_url(guild_id: &str) -> (url: String)
    ensures
        url@ == endpoint("/guilds/"@, guild_id@, "/channels"@),
{
    endpoint_url("/guilds/", guild_id, "/channels")
}

/// Where the emojis of a server are listed.
pub fn guild_emojis_url(guild_id: &str) -> (url: String)
    ensures
        url@ == endpoint("/guilds/"@, guild_id@, "/emojis"@),
{
    endpoint_url("/guilds/", guild_id, "/emojis")
}

/// Words a reply whose status is no success: the status, then the body.
pub fn api_error_message(status: &str, body: &str) -> (text: String)
    ensures
        text@ == api_error_text(status@, body@),
{
    let mut text = "API Error: Status ".to_owned();
    text.append(status);
    text.append(". Details: ");
    text.append(body);
    text
}

/// Words a reply whose body could not be decoded.
pub fn decoding_error_message(error: &str) -> (text: String)
    ensures
        text@ == decoding_error_text(error@),
{
    let mut text = "JSON Decoding Error: ".to_owned();
    text.append(error);
    text.append(".");
    text
}

} // verus!
