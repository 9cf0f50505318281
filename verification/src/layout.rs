//! What the conversation pane shows: how each message is worded, how many
//! rows it takes once wrapped, and which messages fit.

use crate::message::{Message, MessageView};
use unicode_width::UnicodeWidthStr;
use vstd::prelude::*;
use vstd::string::StringExecFns;

verus! {

/// What `unicode_width::UnicodeWidthStr::width` returns for a string: the
/// number of terminal columns it takes outside an East Asian context.
pub uninterp spec fn display_width(line: Seq<char>) -> usize;

/// `UnicodeWidthStr::width`: the displayed width of a string in columns,
/// computed from the string alone by the crate's tables.
#[verifier::external_body]
fn str_width(line: &str) -> (width: usize)
    ensures
        width == display_width(line@),
{
    UnicodeWidthStr::width(line)
}

/// The rows that one line of the given width takes in a pane `max_width`
/// columns wide. The width counts modulo 65536, as the terminal's own
/// coordinates do; a line of no width still takes its row.
pub open spec fn line_height(width: usize, max_width: u16) -> nat {
    let shown = width as int % 0x10000;
    if shown == 0 {
        1
    } else {
        ((shown + max_width - 1) / (max_width as int)) as nat
    }
}

/// The lines of a text: a newline ends one line and begins the next, so a
/// text always has one line more than it has newlines.
pub open spec fn lines(text: Seq<char>) -> Seq<Seq<char>>
    decreases text.len(),
{
    if text.len() == 0 {
        seq![Seq::empty()]
    } else {
        let before = lines(text.drop_last());
        if text.last() == '\n' {
            before.push(Seq::empty())
        } else {
            before.drop_last().push(before.last().push(text.last()))
        }
    }
}

/// The given lines set one after the other with a newline between any two.
pub open spec fn joined(lines: Seq<Seq<char>>) -> Seq<char>
    decreases lines.len(),
{
    if lines.len() == 0 {
        Seq::empty()
    } else if lines.len() == 1 {
        lines.last()
    } else {
        joined(lines.drop_last()) + seq!['\n'] + lines.last()
    }
}

/// A text falls into its lines exactly at its newlines: there is at least
/// one line, no line holds a newline, and the lines joined by newlines are
/// the text again.
pub proof fn lines_rejoin(text: Seq<char>)
    ensures
        lines(text).len() >= 1,
        forall|i: int| 0 <= i < lines(text).len() ==> !(#[trigger] lines(text)[i]).contains('\n'),
        joined(lines(text)) == text,
    decreases text.len(),
{
    if text.len() == 0 {
        assert(joined(lines(text)) =~= text);
    } else {
        let before = lines(text.drop_last());
        let c = text.last();
        lines_rejoin(text.drop_last());
        assert(text =~= text.drop_last().push(c));
        if c == '\n' {
            let after = before.push(Seq::empty());
            assert(after.drop_last() =~= before);
            assert(joined(after) =~= joined(before) + seq!['\n']);
            assert forall|i: int| 0 <= i < after.len() implies !(#[trigger] after[i]).contains(
                '\n',
            ) by {
                if i < before.len() {
                    assert(after[i] == before[i]);
                }
            }
        } else {
            let grown = before.last().push(c);
            let after = before.drop_last().push(grown);
            assert(after.drop_last() =~= before.drop_last());
            assert(after.last() == grown);
            assert(joined(after) =~= joined(before).push(c));
            assert forall|i: int| 0 <= i < after.len() implies !(#[trigger] after[i]).contains(
                '\n',
            ) by {
                if i < before.len() - 1 {
                    assert(after[i] == before[i]);
                } else {
                    assert(!before.last().contains('\n'));
                    if grown.contains('\n') {
                        let j = choose|j: int| 0 <= j < grown.len() && grown[j] == '\n';
                        assert(before.last()[j] == '\n');
                    }
                }
            }
        }
    }
}

/// The rows that the given lines take together.
pub open spec fn lines_height(lines: Seq<Seq<char>>, max_width: u16) -> nat
    decreases lines.len(),
{
    if lines.len() == 0 {
        0
    } else {
        lines_height(lines.drop_last(), max_width) + line_height(
            display_width(lines.last()),
            max_width,
        )
    }
}

/// The rows that a text takes once each of its lines is wrapped.
pub open spec fn text_height(text: Seq<char>, max_width: u16) -> nat {
    lines_height(lines(text), max_width)
}

/// The rows of one line of the given width.
pub fn wrapped_rows(width: usize, max_width: u16) -> (rows: usize)
    requires
        max_width > 0,
    ensures
        rows == line_height(width, max_width),
{
    let shown = (width % 0x10000) as u16;
    if shown == 0 {
        1
    } else {
        (shown as usize + max_width as usize - 1) / (max_width as usize)
    }
}

/// Estimates the rows that a text takes in a pane `max_width` columns
/// wide, or `None` where that number is beyond `usize`.
pub fn estimated_height(text: &str, max_width: u16) -> (height: Option<usize>)
    requires
        max_width > 0,
    ensures
        match height {
            Some(rows) => rows == text_height(text@, max_width),
            None => text_height(text@, max_width) > usize::MAX,
        },
{
    let mut done: Option<usize> = Some(0);
    let mut line = String::new();
    assert(lines(text@.take(0)) =~= seq![Seq::<char>::empty()]);
    assert(seq![Seq::<char>::empty()].drop_last() =~= Seq::<Seq<char>>::empty());
    for c in it: text.chars()
        invariant
            max_width > 0,
            it.seq() == text@,
            lines(text@.take(it.index() as int)).len() > 0,
            line@ == lines(text@.take(it.index() as int)).last(),
            match done {
                Some(rows) => rows == lines_height(
                    lines(text@.take(it.index() as int)).drop_last(),
                    max_width,
                ),
                None => lines_height(lines(text@.take(it.index() as int)).drop_last(), max_width)
                    > usize::MAX,
            },
    {
        let ghost k = it.index() as int;
        let ghost before = lines(text@.take(k));
        proof {
            assert(text@.take(k + 1).drop_last() =~= text@.take(k));
            assert(text@.take(k + 1).last() == c);
        }
        if c == '\n' {
            let rows = wrapped_rows(str_width(line.as_str()), max_width);
            proof {
                assert(before.push(Seq::empty()).drop_last() =~= before);
            }
            done = match done {
                Some(so_far) => so_far.checked_add(rows),
                None => None,
            };
            line = String::new();
        } else {
            line.push(c);
            proof {
                let after = before.drop_last().push(before.last().push(c));
                assert(after.drop_last() =~= before.drop_last());
            }
        }
    }
    proof {
        assert(text@.take(text@.len() as int) =~= text@);
    }
    let rows = wrapped_rows(str_width(line.as_str()), max_width);
    match done {
        Some(so_far) => so_far.checked_add(rows),
        None => None,
    }
}

/// What follows the first `mark` in `text`; nothing where there is none.
pub open spec fn after_first(text: Seq<char>, mark: char) -> Seq<char>
    decreases text.len(),
{
    if text.len() == 0 {
        text
    } else if text.first() == mark {
        text.drop_first()
    } else {
        after_first(text.drop_first(), mark)
    }
}

/// The longest prefix of `text` that holds neither `a` nor `b`.
pub open spec fn prefix_before(text: Seq<char>, a: char, b: char) -> Seq<char>
    decreases text.len(),
{
    if text.len() == 0 || text.first() == a || text.first() == b {
        Seq::empty()
    } else {
        seq![text.first()] + prefix_before(text.drop_first(), a, b)
    }
}

/// The time of day in a timestamp: what stands between the first `T` and
/// the next `T` or `.`, whichever comes first. A timestamp without a `T`
/// has none.
pub open spec fn message_time(timestamp: Seq<char>) -> Seq<char> {
    prefix_before(after_first(timestamp, 'T'), 'T', '.')
}

/// What stands for the text of a message that has none.
pub const NON_TEXT_CONTENT: &'static str = "(*non-text*)";

/// A message as the pane words it: its time of day in brackets, its
/// author, a colon, and its text.
pub open spec fn message_text(message: MessageView) -> Seq<char> {
    "["@ + message_time(message.timestamp) + "] "@ + message.author.username + ": "@
        + match message.content {
        Some(content) => content,
        None => NON_TEXT_CONTENT@,
    }
}

/// How many messages, taken from the front, fit in `max_height` rows: the
/// count ends at the first message that the rows left cannot hold.
pub open spec fn fitting_count(messages: Seq<MessageView>, max_height: nat, max_width: u16) -> nat
    decreases messages.len(),
{
    if messages.len() == 0 {
        0
    } else {
        let rows = text_height(message_text(messages.first()), max_width);
        if rows > max_height {
            0
        } else {
            1 + fitting_count(messages.drop_first(), (max_height - rows) as nat, max_width)
        }
    }
}

/// The rows that the first `count` messages take together.
pub open spec fn rows_of_first(messages: Seq<MessageView>, count: nat, max_width: u16) -> nat
    decreases count,
{
    if count == 0 || messages.len() == 0 {
        0
    } else {
        text_height(message_text(messages.first()), max_width) + rows_of_first(
            messages.drop_first(),
            (count - 1) as nat,
            max_width,
        )
    }
}

/// The messages that fit are as many as the pane can hold: together they
/// take no more than `max_height` rows, and with the next message, if there
/// is one, they would take more.
pub proof fn fitting_count_is_greatest(
    messages: Seq<MessageView>,
    max_height: nat,
    max_width: u16,
)
    ensures
        fitting_count(messages, max_height, max_width) <= messages.len(),
        rows_of_first(messages, fitting_count(messages, max_height, max_width), max_width)
            <= max_height,
        fitting_count(messages, max_height, max_width) < messages.len() ==> rows_of_first(
            messages,
            fitting_count(messages, max_height, max_width) + 1,
            max_width,
        ) > max_height,
    decreases messages.len(),
{
    if messages.len() > 0 {
        let rows = text_height(message_text(messages.first()), max_width);
        if rows <= max_height {
            fitting_count_is_greatest(
                messages.drop_first(),
                (max_height - rows) as nat,
                max_width,
            );
        }
    }
}

/// The texts that the pane shows: those of the messages that fit, the
/// first message last. A pane without columns shows none.
pub open spec fn visible_texts(messages: Seq<MessageView>, max_height: nat, max_width: u16) -> Seq<
    Seq<char>,
> {
    if max_width == 0 {
        Seq::empty()
    } else {
        let count = fitting_count(messages, max_height, max_width) as int;
        Seq::new(count as nat, |j: int| message_text(messages[count - 1 - j]))
    }
}

/// Extracts the time of day from a timestamp.
pub fn time_of_day(timestamp: &str) -> (time: String)
    ensures
        time@ == message_time(timestamp@),
{
    let mut time = String::new();
    let mut started = false;
    let mut ended = false;
    assert(timestamp@.skip(0) =~= timestamp@);
    for c in it: timestamp.chars()
        invariant
            it.seq() == timestamp@,
            !started ==> !ended && time@.len() == 0 && after_first(timestamp@, 'T') == after_first(
                timestamp@.skip(it.index() as int),
                'T',
            ),
            started && !ended ==> message_time(timestamp@) == time@ + prefix_before(
                timestamp@.skip(it.index() as int),
                'T',
                '.',
            ),
            ended ==> time@ == message_time(timestamp@),
    {
        let ghost k = it.index() as int;
        let ghost rest = timestamp@.skip(k);
        proof {
            assert(rest.first() == c);
            assert(rest.drop_first() =~= timestamp@.skip(k + 1));
        }
        if !started {
            if c == 'T' {
                started = true;
                assert(Seq::<char>::empty() + prefix_before(timestamp@.skip(k + 1), 'T', '.')
                    =~= prefix_before(timestamp@.skip(k + 1), 'T', '.'));
            }
        } else if !ended {
            if c == 'T' || c == '.' {
                ended = true;
                assert(time@ + Seq::<char>::empty() =~= time@);
            } else {
                let ghost shown = time@;
                time.push(c);
                assert(shown + (seq![c] + prefix_before(timestamp@.skip(k + 1), 'T', '.'))
                    =~= shown.push(c) + prefix_before(timestamp@.skip(k + 1), 'T', '.'));
            }
        }
    }
    proof {
        let end = timestamp@.skip(timestamp@.len() as int);
        assert(end.len() == 0);
        assert(time@ + Seq::<char>::empty() =~= time@);
    }
    time
}

/// Words a message for the pane.
pub fn format_message(message: &Message) -> (text: String)
    ensures
        text@ == message_text(message@),
{
    let mut text = "[".to_owned();
    let time = time_of_day(message.timestamp.as_str());
    text.append(time.as_str());
    text.append("] ");
    text.append(message.author.username.as_str());
    text.append(": ");
    match &message.content {
        Some(content) => text.append(content.as_str()),
        None => text.append(NON_TEXT_CONTENT),
    }
    text
}

/// Picks the messages that fit in a pane of `max_height` rows and
/// `max_width` columns and words them, the first message last.
pub fn visible_messages(messages: &Vec<Message>, max_height: usize, max_width: u16) -> (texts: Vec<
    String,
>)
    ensures
        texts.deep_view() == visible_texts(messages.deep_view(), max_height as nat, max_width),
{
    let mut texts: Vec<String> = Vec::new();
    if max_width == 0 {
        assert(texts.deep_view() =~= Seq::empty());
        return texts;
    }
    let ghost all = messages.deep_view();
    let mut fitting: Vec<String> = Vec::new();
    let mut used: usize = 0;
    let mut i: usize = 0;
    let mut full = false;
    assert(all.skip(0) =~= all);
    while i < messages.len() && !full
        invariant
            max_width > 0,
            i <= messages.len(),
            all == messages.deep_view(),
            used <= max_height,
            fitting.len() == i,
            forall|j: int| 0 <= j < i ==> fitting[j]@ == message_text(#[trigger] all[j]),
            fitting_count(all, max_height as nat, max_width) == i + if full {
                0
            } else {
                fitting_count(all.skip(i as int), (max_height - used) as nat, max_width)
            },
        decreases messages.len() - i + if full { 0int } else { 1int },
    {
        let ghost rest = all.skip(i as int);
        proof {
            assert(rest.first() == messages[i as int]@);
            assert(rest.drop_first() =~= all.skip(i + 1));
        }
        let text = format_message(&messages[i]);
        match estimated_height(text.as_str(), max_width) {
            Some(rows) if rows <= max_height - used => {
                used = used + rows;
                fitting.push(text);
                i += 1;
            },
            _ => {
                full = true;
            },
        }
    }
    let ghost count = fitting.len() as int;
    while fitting.len() > 0
        invariant
            fitting.len() <= count,
            texts.len() == count - fitting.len(),
            count == fitting_count(all, max_height as nat, max_width),
            forall|j: int|
                0 <= j < fitting.len() ==> fitting[j]@ == message_text(#[trigger] all[j]),
            forall|j: int|
                0 <= j < texts.len() ==> (#[trigger] texts[j])@ == message_text(all[count - 1 - j]),
        decreases fitting.len(),
    {
        let text = fitting.pop().unwrap();
        texts.push(text);
    }
    assert(texts.deep_view() =~= visible_texts(all, max_height as nat, max_width));
    texts
}

/// The rows and columns inside the pane's border, for a pane of the given
/// outer size. The columns count modulo 65536, as the terminal's own
/// coordinates do.
pub fn pane_size(height: usize, width: usize) -> (inner: (usize, u16))
    ensures
        inner.0 == if height >= 2 {
            height - 2
        } else {
            0
        },
        inner.1 == (if width >= 2 {
            width - 2
        } else {
            0
        }) % 0x10000,
{
    (height.saturating_sub(2), (width.saturating_sub(2) % 0x10000) as u16)
}

/// How many rows to scroll so that the last of `total_rows` rows stands at
/// the bottom of a pane of `max_height` rows, modulo 65536.
pub fn scroll_offset(total_rows: usize, max_height: usize) -> (offset: u16)
    ensures
        offset == (if total_rows > max_height {
            total_rows - max_height
        } else {
            0
        }) % 0x10000,
{
    (total_rows.saturating_sub(max_height) % 0x10000) as u16
}

} // verus!
