//! Messages of a conversation.

use crate::guild::{User, UserView};
use vstd::prelude::*;

verus! {

/// One message of a channel. `content` is absent for a message that
/// carries no text.
#[derive(Debug, Clone)]
pub struct Message {
    pub id: String,
    pub timestamp: String,
    pub author: User,
    pub content: Option<String>,
}

/// A message as plain values.
pub struct MessageView {
    pub id: Seq<char>,
    pub timestamp: Seq<char>,
    pub author: UserView,
    pub content: Option<Seq<char>>,
}

impl View for Message {
    type V = MessageView;

    open spec fn view(&self) -> MessageView {
        MessageView {
            id: self.id@,
            timestamp: self.timestamp@,
            author: self.author@,
            content: self.content.deep_view(),
        }
    }
}

impl DeepView for Message {
    type V = MessageView;

    open spec fn deep_view(&self) -> MessageView {
        self@
    }
}

} // verus!
