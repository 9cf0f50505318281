//! The emoji dictionary: a JSON list of pairs of strings, read from the
//! user's configuration or taken from a built-in default.

use vstd::prelude::*;

verus! {

/// The directory under the user's configuration directory that holds the
/// client's files.
pub const CONFIG_DIR_NAME: &'static str = "rivetui";

/// The file in that directory that holds the emoji dictionary.
pub const EMOJI_FILE_NAME: &'static str = "emojis.json";

/// What `serde_json::from_str::<Vec<(String, String)>>` makes of a text:
/// the pairs it decodes, or `None` where decoding fails.
pub uninterp spec fn json_string_pairs(content: Seq<char>) -> Option<Seq<(Seq<char>, Seq<char>)>>;

/// The dictionary that a text stands for: its pairs where it decodes, and
/// an empty dictionary where it does not.
pub open spec fn emoji_entries(content: Seq<char>) -> Seq<(Seq<char>, Seq<char>)> {
    match json_string_pairs(content) {
        Some(pairs) => pairs,
        None => Seq::empty(),
    }
}

/// What became of the attempt to read the dictionary file.
#[derive(Debug, Clone)]
pub enum ConfigRead {
    /// No configuration directory could be determined.
    Unavailable,
    /// The file was read and held this text.
    Content(String),
    /// There is no such file.
    NotFound,
    /// The file is there and could not be read.
    Failed,
}

/// The dictionary to use, and whether the default is to be written to the
/// place where the file was missing.
#[derive(Debug, Clone)]
pub struct EmojiLoad {
    pub entries: Vec<(String, String)>,
    pub write_default: bool,
}

/// The dictionary and the decision that follow from a read, given the
/// default text.
pub open spec fn emoji_load(read: ConfigRead, default_json: Seq<char>) -> (
    Seq<(Seq<char>, Seq<char>)>,
    bool,
) {
    match read {
        ConfigRead::Unavailable => (Seq::empty(), false),
        ConfigRead::Content(text) => (emoji_entries(text@), false),
        ConfigRead::NotFound => (emoji_entries(default_json), true),
        ConfigRead::Failed => (emoji_entries(default_json), false),
    }
}

/// `serde_json::from_str` at the type `Vec<(String, String)>`: decodes a
/// JSON array of two-element arrays of strings. The outcome depends on the
/// text alone; a decoding error is reported as `None`.
#[verifier::external_body]
fn json_pairs(content: &str) -> (parsed: Option<Vec<(String, String)>>)
    ensures
        parsed.deep_view() == json_string_pairs(content@),
{
    match serde_json::from_str::<Vec<(String, String)>>(content) {
        Ok(pairs) => Some(pairs),
        Err(_) => None,
    }
}

/// The decoded pairs, or an empty dictionary where decoding failed.
pub fn entries_or_empty(parsed: Option<Vec<(String, String)>>) -> (entries: Vec<(String, String)>)
    ensures
        entries.deep_view() == match parsed {
            Some(pairs) => pairs.deep_view(),
            None => Seq::empty(),
        },
{
    match parsed {
        Some(pairs) => pairs,
        None => {
            let entries: Vec<(String, String)> = Vec::new();
            assert(entries.deep_view() =~= Seq::empty());
            entries
        },
    }
}

/// Reads an emoji dictionary from its JSON text. Text that does not decode
/// yields an empty dictionary.
pub fn parse_emoji_content(content: &str) -> (entries: Vec<(String, String)>)
    ensures
        entries.deep_view() == emoji_entries(content@),
{
    entries_or_empty(json_pairs(content))
}

/// Decides what the dictionary is once the file has been looked for. A
/// file that was read is decoded; a missing or unreadable file gives way to
/// the default, and only a missing one asks for the default to be written
/// in its place. Without a configuration directory the dictionary is empty.
pub fn load_emoji_map(read: ConfigRead, default_json: &str) -> (load: EmojiLoad)
    ensures
        load.entries.deep_view() == emoji_load(read, default_json@).0,
        load.write_default == emoji_load(read, default_json@).1,
{
    match read {
        ConfigRead::Unavailable => {
            let entries: Vec<(String, String)> = Vec::new();
            assert(entries.deep_view() =~= Seq::empty());
            EmojiLoad { entries, write_default: false }
        },
        ConfigRead::Content(text) => EmojiLoad {
            entries: parse_emoji_content(text.as_str()),
            write_default: false,
        },
        ConfigRead::NotFound => EmojiLoad {
            entries: parse_emoji_content(default_json),
            write_default: true,
        },
        ConfigRead::Failed => EmojiLoad {
            entries: parse_emoji_content(default_json),
            write_default: false,
        },
    }
}

} // verus!
