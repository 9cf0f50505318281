//! Servers and their members.

use vstd::prelude::*;

verus! {

/// An account on the platform.
#[derive(Debug, Clone)]
pub struct User {
    pub id: String,
    pub username: String,
}

/// A user as a member of one server, with the ids of the roles held there.
#[derive(Debug, Clone)]
pub struct GuildMember {
    pub user: User,
    pub roles: Vec<String>,
}

/// A server: the top-level container of channels and roles.
#[derive(Debug, Clone)]
pub struct Guild {
    pub id: String,
    pub name: String,
}

/// A user as plain values.
pub struct UserView {
    pub id: Seq<char>,
    pub username: Seq<char>,
}

/// A member as plain values.
pub struct GuildMemberView {
    pub user: UserView,
    pub roles: Seq<Seq<char>>,
}

/// A server as plain values.
pub struct GuildView {
    pub id: Seq<char>,
    pub name: Seq<char>,
}

impl View for User {
    type V = UserView;

    open spec fn view(&self) -> UserView {
        UserView { id: self.id@, username: self.username@ }
    }
}

impl DeepView for User {
    type V = UserView;

    open spec fn deep_view(&self) -> UserView {
        self@
    }
}

impl View for GuildMember {
    type V = GuildMemberView;

    open spec fn view(&self) -> GuildMemberView {
        GuildMemberView { user: self.user@, roles: self.roles.deep_view() }
    }
}

impl DeepView for GuildMember {
    type V = GuildMemberView;

    open spec fn deep_view(&self) -> GuildMemberView {
        self@
    }
}

impl View for Guild {
    type V = GuildView;

    open spec fn view(&self) -> GuildView {
        GuildView { id: self.id@, name: self.name@ }
    }
}

impl DeepView for Guild {
    type V = GuildView;

    open spec fn deep_view(&self) -> GuildView {
        self@
    }
}

} // verus!
