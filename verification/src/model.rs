//! The ledger as a sequence of entries: what its operations mean, and what holds of it.

use crate::types::{EntryView, ModerationRow, ModerationType, ModlogEntry};
use vstd::prelude::*;

verus! {

/// The highest id that the store can assign: ids are kept in a signed 64-bit column.
pub const MAX_ID: u64 = 0x7fff_ffff_ffff_ffff;

/// The views of a sequence of entries, in the same order.
pub open spec fn views(entries: Seq<ModlogEntry>) -> Seq<EntryView> {
    entries.map_values(|e: ModlogEntry| e@)
}

/// Within a guild, a later entry has a higher id than an earlier one. So no two entries of a
/// guild share an id, and the order of the entries of a guild is the order of their ids.
pub open spec fn ids_ascend(s: Seq<EntryView>) -> bool {
    forall|i: int, j: int|
        0 <= i < j < s.len() && s[i].guild_id == s[j].guild_id ==> s[i].id < s[j].id
}

/// No two active entries are sanctions of one kind against one user in one guild.
pub open spec fn one_active_sanction(s: Seq<EntryView>) -> bool {
    forall|i: int, j: int|
        0 <= i < j < s.len() && s[i].active && s[j].active
            && s[i].moderation_type.is_sanction() ==> !s[j].concerns(
            s[i].guild_id,
            s[i].user_id,
            s[i].moderation_type,
        )
}

/// Kicks and reversals are never active.
pub open spec fn events_inactive(s: Seq<EntryView>) -> bool {
    forall|i: int| 0 <= i < s.len() && !s[i].moderation_type.starts_active() ==> !s[i].active
}

/// What holds of every ledger.
pub open spec fn well_formed(s: Seq<EntryView>) -> bool {
    &&& ids_ascend(s)
    &&& one_active_sanction(s)
    &&& events_inactive(s)
}

/// The highest id among the entries of a guild, and 0 where it has none.
pub open spec fn highest_id(s: Seq<EntryView>, guild_id: u64) -> nat
    decreases s.len(),
{
    if s.len() == 0 {
        0
    } else {
        let before = highest_id(s.drop_last(), guild_id);
        if s.last().guild_id == guild_id && s.last().id > before {
            s.last().id as nat
        } else {
            before
        }
    }
}

/// The id that the next entry of a guild gets: one more than the highest so far.
pub open spec fn next_id(s: Seq<EntryView>, guild_id: u64) -> nat {
    highest_id(s, guild_id) + 1
}

/// Whether some active entry is of this kind, about this user in this guild.
pub open spec fn has_active(
    s: Seq<EntryView>,
    guild_id: u64,
    user_id: u64,
    kind: ModerationType,
) -> bool {
    exists|i: int| 0 <= i < s.len() && s[i].active && #[trigger] s[i].concerns(
        guild_id,
        user_id,
        kind,
    )
}

/// Whether the store takes a new entry: the guild has an id left, the entry is active exactly
/// if its kind starts active, and an active sanction finds no active one of its kind in place.
pub open spec fn admits(s: Seq<EntryView>, e: EntryView) -> bool {
    &&& highest_id(s, e.guild_id) < MAX_ID
    &&& e.active == e.moderation_type.starts_active()
    &&& e.moderation_type.is_sanction() ==> !has_active(
        s,
        e.guild_id,
        e.user_id,
        e.moderation_type,
    )
}

/// The ledger after a new entry was added: it comes last, under the guild's next id. The id
/// of `e` plays no part.
pub open spec fn inserted(s: Seq<EntryView>, e: EntryView) -> Seq<EntryView> {
    s.push(EntryView { id: next_id(s, e.guild_id) as u64, ..e })
}

/// The ledger after every entry of this kind about this user in this guild was deactivated.
pub open spec fn without_active(
    s: Seq<EntryView>,
    guild_id: u64,
    user_id: u64,
    kind: ModerationType,
) -> Seq<EntryView> {
    s.map_values(
        |e: EntryView|
            if e.concerns(guild_id, user_id, kind) {
                e.deactivated()
            } else {
                e
            },
    )
}

/// The ledger after every entry whose expiry date lies before `now` was deactivated.
pub open spec fn without_expired(s: Seq<EntryView>, now: i64) -> Seq<EntryView> {
    s.map_values(
        |e: EntryView|
            if e.expired(now) {
                e.deactivated()
            } else {
                e
            },
    )
}

/// The position of the first entry with this id, or the length where there is none.
pub open spec fn position_of(s: Seq<EntryView>, id: u64) -> int
    decreases s.len(),
{
    if s.len() == 0 {
        0
    } else if s.first().id == id {
        0
    } else {
        1 + position_of(s.drop_first(), id)
    }
}

/// The ledger after the first entry with this id was deactivated.
pub open spec fn without_id(s: Seq<EntryView>, id: u64) -> Seq<EntryView> {
    let at = position_of(s, id);
    if at < s.len() {
        s.update(at, s[at].deactivated())
    } else {
        s
    }
}

/// Whether a query picks an entry: it is about this user in this guild; with a kind given,
/// it is also of that kind and still active.
pub open spec fn selects(
    e: EntryView,
    guild_id: u64,
    user_id: u64,
    kind: Option<ModerationType>,
) -> bool {
    e.guild_id == guild_id && e.user_id == user_id && match kind {
        Some(k) => e.moderation_type == k && e.active,
        None => true,
    }
}

/// The entries that a query picks, oldest first.
pub open spec fn selection(
    s: Seq<EntryView>,
    guild_id: u64,
    user_id: u64,
    kind: Option<ModerationType>,
) -> Seq<EntryView> {
    s.filter(|e: EntryView| selects(e, guild_id, user_id, kind))
}

/// The number of the last page: the count divided by the page size, rounded up.
pub open spec fn max_page(count: nat, page_size: nat) -> nat {
    if page_size == 0 {
        0
    } else if count % page_size == 0 {
        count / page_size
    } else {
        count / page_size + 1
    }
}

/// How many entries come before page `page`.
pub open spec fn page_offset(page: nat, page_size: nat) -> int {
    (page - 1) * page_size
}

/// Whether a page can be shown: pages count from 1, and the entries before the page are no
/// more than there are entries.
pub open spec fn page_in_bounds(count: nat, page: nat, page_size: nat) -> bool {
    page >= 1 && page_offset(page, page_size) <= count
}

/// How many entries a page that can be shown holds.
pub open spec fn page_len(count: nat, page: nat, page_size: nat) -> nat {
    let rest = count - page_offset(page, page_size);
    if rest <= 0 {
        0
    } else if rest < page_size {
        rest as nat
    } else {
        page_size
    }
}

/// A page of a selection, newest entry first.
pub open spec fn page_of(picked: Seq<EntryView>, page: nat, page_size: nat) -> Seq<EntryView> {
    Seq::new(
        page_len(picked.len(), page, page_size),
        |k: int| picked[picked.len() - 1 - page_offset(page, page_size) - k],
    )
}

/// Whether the sweep at time `now` takes up an entry: it is active and its expiry date lies
/// before `now`.
pub open spec fn due(e: EntryView, now: i64) -> bool {
    e.active && e.expired(now)
}

/// The entries that the sweep at time `now` takes up, oldest first.
pub open spec fn expired_active(s: Seq<EntryView>, now: i64) -> Seq<EntryView> {
    s.filter(|e: EntryView| due(e, now))
}

/// Every id of a guild is at most the guild's highest id.
pub proof fn lemma_highest_id_bounds(s: Seq<EntryView>, guild_id: u64)
    ensures
        forall|i: int|
            0 <= i < s.len() && s[i].guild_id == guild_id ==> s[i].id <= highest_id(s, guild_id),
        highest_id(s, guild_id) <= u64::MAX,
    decreases s.len(),
{
    if s.len() > 0 {
        lemma_highest_id_bounds(s.drop_last(), guild_id);
        assert forall|i: int| 0 <= i < s.len() && s[i].guild_id == guild_id implies s[i].id
            <= highest_id(s, guild_id) by {
            if i < s.len() - 1 {
                assert(s.drop_last()[i] == s[i]);
            }
        }
    }
}

/// Deactivating entries keeps a ledger well-formed.
pub proof fn lemma_deactivation_keeps_well_formed(s: Seq<EntryView>, t: Seq<EntryView>)
    requires
        well_formed(s),
        t.len() == s.len(),
        forall|i: int| 0 <= i < s.len() ==> t[i] == s[i] || t[i] == s[i].deactivated(),
    ensures
        well_formed(t),
{
    assert forall|i: int, j: int|
        0 <= i < j < t.len() && t[i].guild_id == t[j].guild_id implies t[i].id < t[j].id by {
        assert(s[i].guild_id == s[j].guild_id);
    }
    assert forall|i: int, j: int|
        0 <= i < j < t.len() && t[i].active && t[j].active
            && t[i].moderation_type.is_sanction() implies !t[j].concerns(
        t[i].guild_id,
        t[i].user_id,
        t[i].moderation_type,
    ) by {
        assert(s[i].active && s[j].active);
        assert(!s[j].concerns(s[i].guild_id, s[i].user_id, s[i].moderation_type));
    }
    assert forall|i: int|
        0 <= i < t.len() && !t[i].moderation_type.starts_active() implies !t[i].active by {
        assert(!s[i].moderation_type.starts_active());
    }
}

/// Deactivating entries changes no id and no guild, so no guild's highest id.
pub proof fn lemma_deactivation_keeps_highest_id(
    s: Seq<EntryView>,
    t: Seq<EntryView>,
    guild_id: u64,
)
    requires
        t.len() == s.len(),
        forall|i: int| 0 <= i < s.len() ==> t[i] == s[i] || t[i] == s[i].deactivated(),
    ensures
        highest_id(t, guild_id) == highest_id(s, guild_id),
    decreases s.len(),
{
    if s.len() > 0 {
        assert forall|i: int| 0 <= i < s.drop_last().len() implies t.drop_last()[i]
            == s.drop_last()[i] || t.drop_last()[i] == s.drop_last()[i].deactivated() by {
            assert(t.drop_last()[i] == t[i]);
            assert(s.drop_last()[i] == s[i]);
        }
        lemma_deactivation_keeps_highest_id(s.drop_last(), t.drop_last(), guild_id);
        assert(t.last() == s.last() || t.last() == s.last().deactivated());
    }
}

/// An entry that the store admits leaves the ledger well-formed.
pub proof fn lemma_insert_keeps_well_formed(s: Seq<EntryView>, e: EntryView)
    requires
        well_formed(s),
        admits(s, e),
    ensures
        well_formed(inserted(s, e)),
{
    let t = inserted(s, e);
    let n = s.len() as int;
    lemma_highest_id_bounds(s, e.guild_id);
    assert(t[n].id == next_id(s, e.guild_id));
    assert forall|i: int, j: int|
        0 <= i < j < t.len() && t[i].guild_id == t[j].guild_id implies t[i].id < t[j].id by {
        if j < n {
            assert(t[i] == s[i] && t[j] == s[j]);
        } else {
            assert(t[i] == s[i]);
        }
    }
    assert forall|i: int, j: int|
        0 <= i < j < t.len() && t[i].active && t[j].active
            && t[i].moderation_type.is_sanction() implies !t[j].concerns(
        t[i].guild_id,
        t[i].user_id,
        t[i].moderation_type,
    ) by {
        if j < n {
            assert(t[i] == s[i] && t[j] == s[j]);
        } else {
            assert(t[i] == s[i]);
            if t[j].concerns(t[i].guild_id, t[i].user_id, t[i].moderation_type) {
                assert(s[i].concerns(e.guild_id, e.user_id, e.moderation_type));
                assert(has_active(s, e.guild_id, e.user_id, e.moderation_type));
            }
        }
    }
    assert forall|i: int|
        0 <= i < t.len() && !t[i].moderation_type.starts_active() implies !t[i].active by {
        if i < n {
            assert(t[i] == s[i]);
        }
    }
}

/// `position_of` is the least position that holds the id, and the length where none does.
pub proof fn lemma_position_of(s: Seq<EntryView>, id: u64)
    ensures
        0 <= position_of(s, id) <= s.len(),
        forall|j: int| 0 <= j < position_of(s, id) ==> s[j].id != id,
        position_of(s, id) < s.len() ==> s[position_of(s, id)].id == id,
    decreases s.len(),
{
    if s.len() > 0 && s.first().id != id {
        let rest = s.drop_first();
        lemma_position_of(rest, id);
        assert forall|j: int| 0 <= j < position_of(s, id) implies s[j].id != id by {
            if j > 0 {
                assert(rest[j - 1] == s[j]);
            }
        }
        if position_of(s, id) < s.len() {
            assert(rest[position_of(rest, id)] == s[position_of(s, id)]);
        }
    }
}

/// Filtering one element more: the element is appended to the result if it passes.
pub proof fn lemma_filter_take_step<A>(s: Seq<A>, pred: spec_fn(A) -> bool, i: int)
    requires
        0 <= i < s.len(),
    ensures
        s.take(i + 1).filter(pred) == if pred(s[i]) {
            s.take(i).filter(pred).push(s[i])
        } else {
            s.take(i).filter(pred)
        },
{
    s.lemma_take_succ_push(i);
    s.take(i).lemma_filter_push(s[i], pred);
}

/// The ledger after an action was recorded: a sanction first deactivates what is active of
/// its kind against the user, then the entry is added under the next id of its guild, active
/// if its kind starts active. The id of `e` and whether it is active play no part.
pub open spec fn recorded(s: Seq<EntryView>, e: EntryView) -> Seq<EntryView> {
    let cleared = if e.moderation_type.is_sanction() {
        without_active(s, e.guild_id, e.user_id, e.moderation_type)
    } else {
        s
    };
    inserted(cleared, EntryView { active: e.moderation_type.starts_active(), ..e })
}

/// What the sweep needs to know of an entry that it takes up.
#[derive(Debug, Clone, Copy, PartialEq, Eq, Structural)]
pub struct ExpiredSanction {
    pub guild_id: u64,
    pub user_id: u64,
    pub moderation_type: ModerationType,
}

/// The guild, user and kind of an entry.
pub open spec fn sanction_of(e: EntryView) -> ExpiredSanction {
    ExpiredSanction {
        guild_id: e.guild_id,
        user_id: e.user_id,
        moderation_type: e.moderation_type,
    }
}

/// Guild, user and kind of each entry that the sweep at time `now` takes up, oldest first.
pub open spec fn expired_sanctions(s: Seq<EntryView>, now: i64) -> Seq<ExpiredSanction> {
    expired_active(s, now).map_values(|e: EntryView| sanction_of(e))
}

/// Whether an earlier entry and a later one can stand in one ledger.
pub open spec fn compatible(earlier: EntryView, later: EntryView) -> bool {
    &&& earlier.guild_id == later.guild_id ==> earlier.id < later.id
    &&& earlier.active && later.active && earlier.moderation_type.is_sanction()
        ==> !later.concerns(earlier.guild_id, earlier.user_id, earlier.moderation_type)
}

/// Whether an entry's activity is possible for its kind.
pub open spec fn plausible(e: EntryView) -> bool {
    !e.moderation_type.starts_active() ==> !e.active
}

/// A ledger is well-formed exactly if each entry is plausible and each pair compatible.
pub proof fn lemma_well_formed_pairwise(s: Seq<EntryView>)
    ensures
        well_formed(s) <==> (forall|i: int| 0 <= i < s.len() ==> plausible(#[trigger] s[i]))
            && (forall|i: int, j: int|
            0 <= i < j < s.len() ==> compatible(#[trigger] s[i], #[trigger] s[j])),
{
    if well_formed(s) {
        assert forall|i: int, j: int| 0 <= i < j < s.len() implies compatible(
            #[trigger] s[i],
            #[trigger] s[j],
        ) by {}
    }
    if (forall|i: int| 0 <= i < s.len() ==> plausible(#[trigger] s[i])) && (forall|
        i: int,
        j: int,
    | 0 <= i < j < s.len() ==> compatible(#[trigger] s[i], #[trigger] s[j])) {
        assert forall|i: int, j: int|
            0 <= i < j < s.len() && s[i].guild_id == s[j].guild_id implies s[i].id
            < s[j].id by {
            assert(compatible(s[i], s[j]));
        }
        assert forall|i: int, j: int|
            0 <= i < j < s.len() && s[i].active && s[j].active
                && s[i].moderation_type.is_sanction() implies !s[j].concerns(
            s[i].guild_id,
            s[i].user_id,
            s[i].moderation_type,
        ) by {
            assert(compatible(s[i], s[j]));
        }
        assert forall|i: int|
            0 <= i < s.len() && !s[i].moderation_type.starts_active() implies !s[i].active by {
            assert(plausible(s[i]));
        }
    }
}

/// Whether the tag of every row names a kind.
pub open spec fn rows_decode(rows: Seq<ModerationRow>) -> bool {
    forall|i: int| 0 <= i < rows.len() ==> (#[trigger] rows[i]).decoded().is_some()
}

/// The entries that rows stand for, in the same order.
pub open spec fn decoded_rows(rows: Seq<ModerationRow>) -> Seq<EntryView> {
    rows.map_values(|row: ModerationRow| row.decoded().unwrap()@)
}

} // verus!
