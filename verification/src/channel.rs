//! Channels, roles and overwrites, and the resolver that computes which
//! permissions a user has in a channel.

use crate::bitmask::{parse_permission_string, permission_bits};
use vstd::prelude::*;

verus! {

/// The permission bit that lets a user see a channel.
pub const VIEW_CHANNEL_PERMISSION: u64 = 0x400;

/// The channel type of a category, which groups channels and holds no
/// conversation of its own.
pub const CATEGORY_CHANNEL_TYPE: u8 = 4;

/// The overwrite kind whose subject is a role.
pub const ROLE_OVERWRITE: u8 = 0;

/// The overwrite kind whose subject is a single member.
pub const MEMBER_OVERWRITE: u8 = 1;

/// A named grant of permissions that members of a server may hold.
#[derive(Debug, Clone)]
pub struct Role {
    pub id: String,
    pub name: String,
    pub permissions: String,
}

/// What the resolver needs to know of a user and their server.
#[derive(Debug, Clone)]
pub struct PermissionContext {
    pub user_id: String,
    pub user_role_ids: Vec<String>,
    pub all_guild_roles: Vec<Role>,
    pub everyone_role_id: String,
}

/// A per-channel correction of the permissions of one role or one member.
#[derive(Debug, Clone)]
pub struct Overwrite {
    pub id: String,
    pub kind: u8,
    pub allow: String,
    pub deny: String,
}

/// A channel of a server, or a direct conversation when it has no server.
#[derive(Debug, Clone)]
pub struct Channel {
    pub id: String,
    pub name: String,
    pub channel_type: u8,
    pub guild_id: Option<String>,
    pub permission_overwrites: Vec<Overwrite>,
}

/// A role as plain values.
pub struct RoleView {
    pub id: Seq<char>,
    pub name: Seq<char>,
    pub permissions: Seq<char>,
}

/// A permission context as plain values.
pub struct PermissionContextView {
    pub user_id: Seq<char>,
    pub user_role_ids: Seq<Seq<char>>,
    pub all_guild_roles: Seq<RoleView>,
    pub everyone_role_id: Seq<char>,
}

/// An overwrite as plain values.
pub struct OverwriteView {
    pub id: Seq<char>,
    pub kind: u8,
    pub allow: Seq<char>,
    pub deny: Seq<char>,
}

/// A channel as plain values.
pub struct ChannelView {
    pub id: Seq<char>,
    pub name: Seq<char>,
    pub channel_type: u8,
    pub guild_id: Option<Seq<char>>,
    pub permission_overwrites: Seq<OverwriteView>,
}

impl View for Role {
    type V = RoleView;

    open spec fn view(&self) -> RoleView {
        RoleView { id: self.id@, name: self.name@, permissions: self.permissions@ }
    }
}

impl DeepView for Role {
    type V = RoleView;

    open spec fn deep_view(&self) -> RoleView {
        self@
    }
}

impl View for PermissionContext {
    type V = PermissionContextView;

    open spec fn view(&self) -> PermissionContextView {
        PermissionContextView {
            user_id: self.user_id@,
            user_role_ids: self.user_role_ids.deep_view(),
            all_guild_roles: self.all_guild_roles.deep_view(),
            everyone_role_id: self.everyone_role_id@,
        }
    }
}

impl View for Overwrite {
    type V = OverwriteView;

    open spec fn view(&self) -> OverwriteView {
        OverwriteView { id: self.id@, kind: self.kind, allow: self.allow@, deny: self.deny@ }
    }
}

impl DeepView for Overwrite {
    type V = OverwriteView;

    open spec fn deep_view(&self) -> OverwriteView {
        self@
    }
}

impl View for Channel {
    type V = ChannelView;

    open spec fn view(&self) -> ChannelView {
        ChannelView {
            id: self.id@,
            name: self.name@,
            channel_type: self.channel_type,
            guild_id: self.guild_id.deep_view(),
            permission_overwrites: self.permission_overwrites.deep_view(),
        }
    }
}

impl DeepView for Channel {
    type V = ChannelView;

    open spec fn deep_view(&self) -> ChannelView {
        self@
    }
}

/// The first role of `roles` whose id is `id`.
pub open spec fn find_role(roles: Seq<RoleView>, id: Seq<char>) -> Option<RoleView>
    decreases roles.len(),
{
    if roles.len() == 0 {
        None
    } else if roles.first().id == id {
        Some(roles.first())
    } else {
        find_role(roles.drop_first(), id)
    }
}

/// The bitmask of the role `id`, empty when the server has no such role.
pub open spec fn role_bits(roles: Seq<RoleView>, id: Seq<char>) -> u64 {
    match find_role(roles, id) {
        Some(role) => permission_bits(role.permissions),
        None => 0,
    }
}

/// What holding the role `id` adds to the default role's bitmask: nothing
/// for the default role itself, the role's bitmask for any other.
pub open spec fn held_role_bits(roles: Seq<RoleView>, everyone: Seq<char>, id: Seq<char>) -> u64 {
    if id == everyone {
        0
    } else {
        role_bits(roles, id)
    }
}

/// The union of what each role in `ids` adds.
pub open spec fn held_roles_bits(
    roles: Seq<RoleView>,
    everyone: Seq<char>,
    ids: Seq<Seq<char>>,
) -> u64
    decreases ids.len(),
{
    if ids.len() == 0 {
        0
    } else {
        held_roles_bits(roles, everyone, ids.drop_last()) | held_role_bits(
            roles,
            everyone,
            ids.last(),
        )
    }
}

/// The server-wide bitmask of the user: the default role's, joined with
/// that of every other role the user holds.
pub open spec fn base_permissions(ctx: PermissionContextView) -> u64 {
    role_bits(ctx.all_guild_roles, ctx.everyone_role_id) | held_roles_bits(
        ctx.all_guild_roles,
        ctx.everyone_role_id,
        ctx.user_role_ids,
    )
}

/// The first overwrite of `overwrites` of the given kind and subject.
pub open spec fn find_overwrite(overwrites: Seq<OverwriteView>, kind: u8, id: Seq<char>) -> Option<
    OverwriteView,
>
    decreases overwrites.len(),
{
    if overwrites.len() == 0 {
        None
    } else if overwrites.first().kind == kind && overwrites.first().id == id {
        Some(overwrites.first())
    } else {
        find_overwrite(overwrites.drop_first(), kind, id)
    }
}

/// Clears the bits of `deny` in `bits`, then sets those of `allow`.
pub open spec fn apply_masks(bits: u64, deny: u64, allow: u64) -> u64 {
    (bits & !deny) | allow
}

/// Applies one overwrite, if there is one: deny first, then allow.
pub open spec fn apply_overwrite(bits: u64, overwrite: Option<OverwriteView>) -> u64 {
    match overwrite {
        Some(o) => apply_masks(bits, permission_bits(o.deny), permission_bits(o.allow)),
        None => bits,
    }
}

/// Whether `o` is a role overwrite for a role that the user holds, the
/// default role aside.
pub open spec fn is_held_role_overwrite(ctx: PermissionContextView, o: OverwriteView) -> bool {
    o.kind == ROLE_OVERWRITE && o.id != ctx.everyone_role_id && ctx.user_role_ids.contains(o.id)
}

/// The union of the deny masks of the held roles' overwrites.
pub open spec fn role_denies(ctx: PermissionContextView, overwrites: Seq<OverwriteView>) -> u64
    decreases overwrites.len(),
{
    if overwrites.len() == 0 {
        0
    } else {
        role_denies(ctx, overwrites.drop_last()) | if is_held_role_overwrite(
            ctx,
            overwrites.last(),
        ) {
            permission_bits(overwrites.last().deny)
        } else {
            0
        }
    }
}

/// The union of the allow masks of the held roles' overwrites.
pub open spec fn role_allows(ctx: PermissionContextView, overwrites: Seq<OverwriteView>) -> u64
    decreases overwrites.len(),
{
    if overwrites.len() == 0 {
        0
    } else {
        role_allows(ctx, overwrites.drop_last()) | if is_held_role_overwrite(
            ctx,
            overwrites.last(),
        ) {
            permission_bits(overwrites.last().allow)
        } else {
            0
        }
    }
}

/// The effective bitmask of the user in the channel. The server-wide
/// bitmask is corrected by the default role's overwrite, then by the union
/// of the held roles' overwrites, then by the member's own overwrite; each
/// correction clears its deny bits before it sets its allow bits.
pub open spec fn resolve(channel: ChannelView, ctx: PermissionContextView) -> u64 {
    let overwrites = channel.permission_overwrites;
    let after_everyone = apply_overwrite(
        base_permissions(ctx),
        find_overwrite(overwrites, ROLE_OVERWRITE, ctx.everyone_role_id),
    );
    let after_roles = apply_masks(
        after_everyone,
        role_denies(ctx, overwrites),
        role_allows(ctx, overwrites),
    );
    apply_overwrite(after_roles, find_overwrite(overwrites, MEMBER_OVERWRITE, ctx.user_id))
}

/// Whether the user may see the channel: never a category, otherwise
/// whoever holds the view bit.
pub open spec fn is_visible(channel: ChannelView, ctx: PermissionContextView) -> bool {
    channel.channel_type != CATEGORY_CHANNEL_TYPE && (resolve(channel, ctx)
        & VIEW_CHANNEL_PERMISSION) != 0
}

/// The bitmask of the first role named `id`, or zero.
fn lookup_role_bits(roles: &Vec<Role>, id: &String) -> (bits: u64)
    ensures
        bits == role_bits(roles.deep_view(), id@),
{
    let ghost all = roles.deep_view();
    assert(all.skip(0) =~= all);
    let mut i: usize = 0;
    while i < roles.len()
        invariant
            i <= roles.len(),
            all == roles.deep_view(),
            find_role(all, id@) == find_role(all.skip(i as int), id@),
        decreases roles.len() - i,
    {
        assert(all.skip(i as int).first() == roles[i as int]@);
        if roles[i].id == *id {
            return parse_permission_string(roles[i].permissions.as_str());
        }
        assert(all.skip(i as int).drop_first() =~= all.skip(i + 1));
        i += 1;
    }
    0
}

/// Whether `id` is among `ids`.
fn holds_role(ids: &Vec<String>, id: &String) -> (held: bool)
    ensures
        held == ids.deep_view().contains(id@),
{
    let mut i: usize = 0;
    while i < ids.len()
        invariant
            i <= ids.len(),
            forall|j: int| 0 <= j < i ==> ids.deep_view()[j] != id@,
        decreases ids.len() - i,
    {
        if ids[i] == *id {
            assert(ids.deep_view()[i as int] == id@);
            return true;
        }
        i += 1;
    }
    false
}

/// `bits` corrected by the first overwrite of the given kind and subject.
fn apply_first_overwrite(bits: u64, overwrites: &Vec<Overwrite>, kind: u8, id: &String) -> (out:
    u64)
    ensures
        out == apply_overwrite(bits, find_overwrite(overwrites.deep_view(), kind, id@)),
{
    let ghost all = overwrites.deep_view();
    assert(all.skip(0) =~= all);
    let mut i: usize = 0;
    while i < overwrites.len()
        invariant
            i <= overwrites.len(),
            all == overwrites.deep_view(),
            find_overwrite(all, kind, id@) == find_overwrite(all.skip(i as int), kind, id@),
        decreases overwrites.len() - i,
    {
        assert(all.skip(i as int).first() == overwrites[i as int]@);
        if overwrites[i].kind == kind && overwrites[i].id == *id {
            let deny = parse_permission_string(overwrites[i].deny.as_str());
            let allow = parse_permission_string(overwrites[i].allow.as_str());
            return (bits & !deny) | allow;
        }
        assert(all.skip(i as int).drop_first() =~= all.skip(i + 1));
        i += 1;
    }
    bits
}

impl Channel {
    /// Computes the effective permission bitmask of the user in this
    /// channel.
    pub fn calculate_permissions(&self, context: &PermissionContext) -> (bits: u64)
        ensures
            bits == resolve(self@, context@),
    {
        let everyone = lookup_role_bits(&context.all_guild_roles, &context.everyone_role_id);
        let ghost ids = context.user_role_ids.deep_view();
        let mut held: u64 = 0;
        let mut i: usize = 0;
        while i < context.user_role_ids.len()
            invariant
                i <= context.user_role_ids.len(),
                ids == context.user_role_ids.deep_view(),
                held == held_roles_bits(
                    context.all_guild_roles.deep_view(),
                    context.everyone_role_id@,
                    ids.take(i as int),
                ),
            decreases context.user_role_ids.len() - i,
        {
            let id = &context.user_role_ids[i];
            assert(ids.take(i + 1).drop_last() =~= ids.take(i as int));
            assert(ids.take(i + 1).last() == id@);
            if *id != context.everyone_role_id {
                held = held | lookup_role_bits(&context.all_guild_roles, id);
            } else {
                assert(held | 0 == held) by (bit_vector);
            }
            i += 1;
        }
        assert(ids.take(ids.len() as int) =~= ids);
        let base = everyone | held;

        let after_everyone = apply_first_overwrite(
            base,
            &self.permission_overwrites,
            ROLE_OVERWRITE,
            &context.everyone_role_id,
        );

        let ghost overwrites = self.permission_overwrites.deep_view();
        let mut denies: u64 = 0;
        let mut allows: u64 = 0;
        let mut k: usize = 0;
        while k < self.permission_overwrites.len()
            invariant
                k <= self.permission_overwrites.len(),
                overwrites == self.permission_overwrites.deep_view(),
                denies == role_denies(context@, overwrites.take(k as int)),
                allows == role_allows(context@, overwrites.take(k as int)),
            decreases self.permission_overwrites.len() - k,
        {
            let overwrite = &self.permission_overwrites[k];
            assert(overwrites.take(k + 1).drop_last() =~= overwrites.take(k as int));
            assert(overwrites.take(k + 1).last() == overwrite@);
            if overwrite.kind == ROLE_OVERWRITE && overwrite.id != context.everyone_role_id
                && holds_role(&context.user_role_ids, &overwrite.id) {
                denies = denies | parse_permission_string(overwrite.deny.as_str());
                allows = allows | parse_permission_string(overwrite.allow.as_str());
            } else {
                assert(denies | 0 == denies) by (bit_vector);
                assert(allows | 0 == allows) by (bit_vector);
            }
            k += 1;
        }
        assert(overwrites.take(overwrites.len() as int) =~= overwrites);
        let after_roles = (after_everyone & !denies) | allows;

        apply_first_overwrite(
            after_roles,
            &self.permission_overwrites,
            MEMBER_OVERWRITE,
            &context.user_id,
        )
    }

    /// Whether the user may see this channel. A category is never visible;
    /// any other channel is visible to whoever holds the view bit in it.
    pub fn is_readable(&self, context: &PermissionContext) -> (visible: bool)
        ensures
            visible == is_visible(self@, context@),
            self.channel_type == CATEGORY_CHANNEL_TYPE ==> !visible,
    {
        if self.channel_type == CATEGORY_CHANNEL_TYPE {
            return false;
        }
        let permissions = self.calculate_permissions(context);
        (permissions & VIEW_CHANNEL_PERMISSION) != 0
    }
}

proof fn lemma_or_zero(whole: u64)
    by (bit_vector)
    ensures
        0u64 | whole == whole,
        whole | 0u64 == whole,
{
}

proof fn lemma_or_absorbs(part: u64, whole: u64, more: u64)
    by (bit_vector)
    requires
        part | whole == whole,
    ensures
        part | (whole | more) == whole | more,
        more | (whole | more) == whole | more,
{
}

proof fn lemma_or_covers(a: u64, b: u64, whole: u64)
    by (bit_vector)
    requires
        a | whole == whole,
        b | whole == whole,
    ensures
        (a | b) | whole == whole,
{
}

proof fn lemma_or_antisymmetric(a: u64, b: u64)
    by (bit_vector)
    requires
        a | b == b,
        b | a == a,
    ensures
        a == b,
{
}

/// Clearing `deny` and then setting `allow` leaves every bit of `allow`
/// set, whatever `deny` holds.
pub proof fn allow_wins_over_deny(bits: u64, deny: u64, allow: u64)
    ensures
        apply_masks(bits, deny, allow) & allow == allow,
{
    assert(((bits & !deny) | allow) & allow == allow) by (bit_vector);
}

/// What one held role adds is part of what all held roles add.
proof fn lemma_held_role_is_part(
    roles: Seq<RoleView>,
    everyone: Seq<char>,
    ids: Seq<Seq<char>>,
    id: Seq<char>,
)
    requires
        ids.contains(id),
    ensures
        held_role_bits(roles, everyone, id) | held_roles_bits(roles, everyone, ids)
            == held_roles_bits(roles, everyone, ids),
    decreases ids.len(),
{
    let rest = held_roles_bits(roles, everyone, ids.drop_last());
    let last = held_role_bits(roles, everyone, ids.last());
    if ids.last() == id {
        lemma_or_zero(rest);
        lemma_or_absorbs(0, rest, last);
    } else {
        let i = choose|i: int| 0 <= i < ids.len() && ids[i] == id;
        assert(ids.drop_last()[i] == id);
        lemma_held_role_is_part(roles, everyone, ids.drop_last(), id);
        lemma_or_absorbs(held_role_bits(roles, everyone, id), rest, last);
    }
}

/// Roles drawn from `whole` add nothing that `whole` does not add.
proof fn lemma_held_roles_are_part(
    roles: Seq<RoleView>,
    everyone: Seq<char>,
    ids: Seq<Seq<char>>,
    whole: Seq<Seq<char>>,
)
    requires
        forall|i: int| 0 <= i < ids.len() ==> whole.contains(#[trigger] ids[i]),
    ensures
        held_roles_bits(roles, everyone, ids) | held_roles_bits(roles, everyone, whole)
            == held_roles_bits(roles, everyone, whole),
    decreases ids.len(),
{
    let all = held_roles_bits(roles, everyone, whole);
    if ids.len() == 0 {
        lemma_or_zero(all);
    } else {
        assert forall|i: int| 0 <= i < ids.drop_last().len() implies whole.contains(
            #[trigger] ids.drop_last()[i],
        ) by {
            assert(ids.drop_last()[i] == ids[i]);
        }
        lemma_held_roles_are_part(roles, everyone, ids.drop_last(), whole);
        lemma_held_role_is_part(roles, everyone, whole, ids.last());
        lemma_or_covers(
            held_roles_bits(roles, everyone, ids.drop_last()),
            held_role_bits(roles, everyone, ids.last()),
            all,
        );
    }
}

/// The held roles' overwrites join to the same masks for two contexts
/// that hold the same roles under the same default role.
proof fn lemma_role_masks_depend_on_role_set(
    a: PermissionContextView,
    b: PermissionContextView,
    overwrites: Seq<OverwriteView>,
)
    requires
        a.everyone_role_id == b.everyone_role_id,
        a.user_role_ids.to_set() == b.user_role_ids.to_set(),
    ensures
        role_denies(a, overwrites) == role_denies(b, overwrites),
        role_allows(a, overwrites) == role_allows(b, overwrites),
    decreases overwrites.len(),
{
    if overwrites.len() > 0 {
        lemma_role_masks_depend_on_role_set(a, b, overwrites.drop_last());
        let id = overwrites.last().id;
        assert(a.user_role_ids.to_set().contains(id) == a.user_role_ids.contains(id));
        assert(b.user_role_ids.to_set().contains(id) == b.user_role_ids.contains(id));
    }
}

/// The effective bitmask depends on which roles the user holds, not on how
/// their ids are listed: two contexts that differ only in `user_role_ids`,
/// and name the same set of roles there, resolve alike in every channel.
pub proof fn resolve_depends_on_role_set(
    channel: ChannelView,
    ctx: PermissionContextView,
    role_ids: Seq<Seq<char>>,
)
    requires
        role_ids.to_set() == ctx.user_role_ids.to_set(),
    ensures
        resolve(channel, PermissionContextView { user_role_ids: role_ids, ..ctx }) == resolve(
            channel,
            ctx,
        ),
        is_visible(channel, PermissionContextView { user_role_ids: role_ids, ..ctx })
            == is_visible(channel, ctx),
{
    let other = PermissionContextView { user_role_ids: role_ids, ..ctx };
    let roles = ctx.all_guild_roles;
    let everyone = ctx.everyone_role_id;
    assert forall|i: int| 0 <= i < role_ids.len() implies ctx.user_role_ids.contains(
        #[trigger] role_ids[i],
    ) by {
        assert(role_ids.contains(role_ids[i]));
        assert(role_ids.to_set().contains(role_ids[i]));
        assert(ctx.user_role_ids.to_set().contains(role_ids[i]));
    }
    assert forall|i: int| 0 <= i < ctx.user_role_ids.len() implies role_ids.contains(
        #[trigger] ctx.user_role_ids[i],
    ) by {
        assert(ctx.user_role_ids.contains(ctx.user_role_ids[i]));
        assert(ctx.user_role_ids.to_set().contains(ctx.user_role_ids[i]));
        assert(role_ids.to_set().contains(ctx.user_role_ids[i]));
    }
    lemma_held_roles_are_part(roles, everyone, role_ids, ctx.user_role_ids);
    lemma_held_roles_are_part(roles, everyone, ctx.user_role_ids, role_ids);
    lemma_or_antisymmetric(
        held_roles_bits(roles, everyone, role_ids),
        held_roles_bits(roles, everyone, ctx.user_role_ids),
    );
    lemma_role_masks_depend_on_role_set(other, ctx, channel.permission_overwrites);
}

/// Listing the user's roles in another order changes nothing: a context
/// whose `user_role_ids` is a rearrangement of another's resolves to the
/// same bitmask.
pub proof fn resolve_ignores_role_order(
    channel: ChannelView,
    ctx: PermissionContextView,
    reordered: Seq<Seq<char>>,
)
    requires
        reordered.to_multiset() == ctx.user_role_ids.to_multiset(),
    ensures
        resolve(channel, PermissionContextView { user_role_ids: reordered, ..ctx }) == resolve(
            channel,
            ctx,
        ),
{
    reordered.to_multiset_ensures();
    ctx.user_role_ids.to_multiset_ensures();
    assert forall|id: Seq<char>| reordered.contains(id) == ctx.user_role_ids.contains(id) by {
        assert(reordered.contains(id) == (reordered.to_multiset().count(id) > 0));
        assert(ctx.user_role_ids.contains(id) == (ctx.user_role_ids.to_multiset().count(id) > 0));
    }
    assert(reordered.to_set() =~= ctx.user_role_ids.to_set());
    resolve_depends_on_role_set(channel, ctx, reordered);
}

/// The member's own overwrite has the last word: every bit that it allows
/// is set in the effective bitmask, whatever the roles deny.
pub proof fn member_allow_wins(channel: ChannelView, ctx: PermissionContextView)
    ensures
        match find_overwrite(channel.permission_overwrites, MEMBER_OVERWRITE, ctx.user_id) {
            Some(own) => resolve(channel, ctx) & permission_bits(own.allow) == permission_bits(
                own.allow,
            ),
            None => true,
        },
{
    let overwrites = channel.permission_overwrites;
    let after_everyone = apply_overwrite(
        base_permissions(ctx),
        find_overwrite(overwrites, ROLE_OVERWRITE, ctx.everyone_role_id),
    );
    let after_roles = apply_masks(
        after_everyone,
        role_denies(ctx, overwrites),
        role_allows(ctx, overwrites),
    );
    match find_overwrite(overwrites, MEMBER_OVERWRITE, ctx.user_id) {
        Some(own) => {
            allow_wins_over_deny(
                after_roles,
                permission_bits(own.deny),
                permission_bits(own.allow),
            );
        },
        None => {},
    }
}

/// Every bit of a role that the user holds, the default role aside, is in
/// the server-wide bitmask.
pub proof fn held_role_is_granted(ctx: PermissionContextView, id: Seq<char>)
    requires
        ctx.user_role_ids.contains(id),
        id != ctx.everyone_role_id,
    ensures
        role_bits(ctx.all_guild_roles, id) | base_permissions(ctx) == base_permissions(ctx),
{
    let everyone = role_bits(ctx.all_guild_roles, ctx.everyone_role_id);
    let held = held_roles_bits(ctx.all_guild_roles, ctx.everyone_role_id, ctx.user_role_ids);
    let one = role_bits(ctx.all_guild_roles, id);
    lemma_held_role_is_part(ctx.all_guild_roles, ctx.everyone_role_id, ctx.user_role_ids, id);
    assert(one | held == held ==> one | (everyone | held) == everyone | held) by (bit_vector);
}

/// The overwrite of a role that the user holds, the default role aside,
/// counts in full: its deny mask is part of what the roles deny and its
/// allow mask is part of what they allow.
pub proof fn held_overwrite_is_counted(
    ctx: PermissionContextView,
    overwrites: Seq<OverwriteView>,
    i: int,
)
    requires
        0 <= i < overwrites.len(),
        is_held_role_overwrite(ctx, overwrites[i]),
    ensures
        permission_bits(overwrites[i].deny) | role_denies(ctx, overwrites) == role_denies(
            ctx,
            overwrites,
        ),
        permission_bits(overwrites[i].allow) | role_allows(ctx, overwrites) == role_allows(
            ctx,
            overwrites,
        ),
    decreases overwrites.len(),
{
    let deny = permission_bits(overwrites[i].deny);
    let allow = permission_bits(overwrites[i].allow);
    let denies = role_denies(ctx, overwrites.drop_last());
    let allows = role_allows(ctx, overwrites.drop_last());
    if i == overwrites.len() - 1 {
        lemma_or_zero(denies);
        lemma_or_zero(allows);
        lemma_or_absorbs(0, denies, deny);
        lemma_or_absorbs(0, allows, allow);
    } else {
        assert(overwrites.drop_last()[i] == overwrites[i]);
        held_overwrite_is_counted(ctx, overwrites.drop_last(), i);
        let last = overwrites.last();
        let last_deny: u64 = if is_held_role_overwrite(ctx, last) {
            permission_bits(last.deny)
        } else {
            0
        };
        let last_allow: u64 = if is_held_role_overwrite(ctx, last) {
            permission_bits(last.allow)
        } else {
            0
        };
        lemma_or_absorbs(deny, denies, last_deny);
        lemma_or_absorbs(allow, allows, last_allow);
    }
}

/// In a channel without overwrites the effective bitmask is the
/// server-wide one.
pub proof fn resolve_without_overwrites(channel: ChannelView, ctx: PermissionContextView)
    requires
        channel.permission_overwrites.len() == 0,
    ensures
        resolve(channel, ctx) == base_permissions(ctx),
{
    let bits = base_permissions(ctx);
    assert((bits & !0u64) | 0u64 == bits) by (bit_vector);
}

/// What the held roles' overwrites deny and none of them allows is cleared
/// in the effective bitmask, unless the member has an overwrite of their
/// own.
pub proof fn role_denies_clear_bits(channel: ChannelView, ctx: PermissionContextView)
    requires
        find_overwrite(channel.permission_overwrites, MEMBER_OVERWRITE, ctx.user_id) is None,
    ensures
        resolve(channel, ctx) & (role_denies(ctx, channel.permission_overwrites) & !role_allows(
            ctx,
            channel.permission_overwrites,
        )) == 0,
{
    let overwrites = channel.permission_overwrites;
    let before = apply_overwrite(
        base_permissions(ctx),
        find_overwrite(overwrites, ROLE_OVERWRITE, ctx.everyone_role_id),
    );
    let deny = role_denies(ctx, overwrites);
    let allow = role_allows(ctx, overwrites);
    assert(((before & !deny) | allow) & (deny & !allow) == 0) by (bit_vector);
}

/// A category is visible to nobody, whatever bits resolve for it.
pub proof fn category_never_visible(channel: ChannelView, ctx: PermissionContextView)
    requires
        channel.channel_type == CATEGORY_CHANNEL_TYPE,
    ensures
        !is_visible(channel, ctx),
{
}

} // verus!
