//! What holds of the ledger and of the sweep, whatever their contents.

use crate::model::{
    due, expired_active, expired_sanctions, has_active, highest_id, ids_ascend,
    lemma_deactivation_keeps_highest_id, lemma_deactivation_keeps_well_formed,
    lemma_insert_keeps_well_formed, max_page, next_id, page_in_bounds, page_len, page_of,
    recorded, sanction_of, selection, selects, well_formed, without_active, without_expired,
    without_id, ExpiredSanction, MAX_ID,
};
use crate::reconciler::{
    begin, compensation, resume, sweep_plan, Compensation, StepView, SweepReport, SweepView,
};
use crate::settings::SettingsView;
use crate::types::{EntryView, ModerationType};
use vstd::prelude::*;

verus! {

/// The active entries of one kind about one user in one guild, oldest first.
pub open spec fn active_of(
    s: Seq<EntryView>,
    guild_id: u64,
    user_id: u64,
    kind: ModerationType,
) -> Seq<EntryView> {
    s.filter(|e: EntryView| e.active && e.concerns(guild_id, user_id, kind))
}

/// A ledger holds at most one active ban of a user in a guild, and likewise at most one
/// active mute and one active timeout: two such entries are one and the same.
pub proof fn lemma_one_active_sanction(
    s: Seq<EntryView>,
    guild_id: u64,
    user_id: u64,
    kind: ModerationType,
    i: int,
    j: int,
)
    requires
        well_formed(s),
        kind.is_sanction(),
        0 <= i < s.len(),
        0 <= j < s.len(),
        s[i].active && s[i].concerns(guild_id, user_id, kind),
        s[j].active && s[j].concerns(guild_id, user_id, kind),
    ensures
        i == j,
{
    if i < j {
        assert(!s[j].concerns(s[i].guild_id, s[i].user_id, s[i].moderation_type));
    } else if j < i {
        assert(!s[i].concerns(s[j].guild_id, s[j].user_id, s[j].moderation_type));
    }
}

/// Counted, the same: of the bans of a user in a guild, one is active if any is, and
/// likewise of the mutes and of the timeouts.
pub proof fn lemma_active_sanction_count(
    s: Seq<EntryView>,
    guild_id: u64,
    user_id: u64,
    kind: ModerationType,
)
    requires
        well_formed(s),
        kind.is_sanction(),
    ensures
        active_of(s, guild_id, user_id, kind).len() == if has_active(
            s,
            guild_id,
            user_id,
            kind,
        ) {
            1nat
        } else {
            0nat
        },
    decreases s.len(),
{
    let pred = |e: EntryView| e.active && e.concerns(guild_id, user_id, kind);
    if s.len() == 0 {
        reveal(Seq::filter);
    } else {
        let r = s.drop_last();
        let e = s.last();
        assert(s =~= r.push(e));
        assert(well_formed(r)) by {
            assert forall|i: int| 0 <= i < r.len() implies r[i] == s[i] by {}
        }
        lemma_active_sanction_count(r, guild_id, user_id, kind);
        r.lemma_filter_push(e, pred);
        if pred(e) {
            assert(s[s.len() - 1].active && s[s.len() - 1].concerns(guild_id, user_id, kind));
            if has_active(r, guild_id, user_id, kind) {
                let i = choose|i: int|
                    0 <= i < r.len() && r[i].active && #[trigger] r[i].concerns(
                        guild_id,
                        user_id,
                        kind,
                    );
                assert(r[i] == s[i]);
                lemma_one_active_sanction(s, guild_id, user_id, kind, i, s.len() - 1);
            }
        } else {
            if has_active(s, guild_id, user_id, kind) {
                let i = choose|i: int|
                    0 <= i < s.len() && s[i].active && #[trigger] s[i].concerns(
                        guild_id,
                        user_id,
                        kind,
                    );
                assert(r[i] == s[i]);
                assert(r[i].active && r[i].concerns(guild_id, user_id, kind));
            }
            if has_active(r, guild_id, user_id, kind) {
                let i = choose|i: int|
                    0 <= i < r.len() && r[i].active && #[trigger] r[i].concerns(
                        guild_id,
                        user_id,
                        kind,
                    );
                assert(s[i] == r[i]);
                assert(s[i].active && s[i].concerns(guild_id, user_id, kind));
            }
        }
    }
}

/// Recording keeps a ledger well-formed, as long as the guild has an id left.
pub proof fn lemma_record_keeps_well_formed(s: Seq<EntryView>, e: EntryView)
    requires
        well_formed(s),
        highest_id(s, e.guild_id) < MAX_ID,
    ensures
        well_formed(recorded(s, e)),
        recorded(s, e).len() == s.len() + 1,
{
    let kind = e.moderation_type;
    let new = EntryView { active: kind.starts_active(), ..e };
    if kind.is_sanction() {
        let cleared = without_active(s, e.guild_id, e.user_id, kind);
        lemma_deactivation_keeps_well_formed(s, cleared);
        lemma_deactivation_keeps_highest_id(s, cleared, e.guild_id);
        assert(!has_active(cleared, e.guild_id, e.user_id, kind));
        lemma_insert_keeps_well_formed(cleared, new);
    } else {
        lemma_insert_keeps_well_formed(s, new);
    }
}

/// Recording a ban of a user in a guild deactivates every earlier ban of the user there,
/// changes no other entry, and leaves exactly one active ban of the user there: the new one.
/// The same holds of mutes and of timeouts.
pub proof fn lemma_sanction_supersedes(s: Seq<EntryView>, e: EntryView)
    requires
        well_formed(s),
        highest_id(s, e.guild_id) < MAX_ID,
        e.moderation_type.is_sanction(),
    ensures
        ({
            let t = recorded(s, e);
            &&& t.len() == s.len() + 1
            &&& t.last().active && t.last().concerns(e.guild_id, e.user_id, e.moderation_type)
            &&& forall|i: int|
                0 <= i < s.len() ==> #[trigger] t[i] == if s[i].concerns(
                    e.guild_id,
                    e.user_id,
                    e.moderation_type,
                ) {
                    s[i].deactivated()
                } else {
                    s[i]
                }
            &&& active_of(t, e.guild_id, e.user_id, e.moderation_type).len() == 1
        }),
{
    let t = recorded(s, e);
    lemma_record_keeps_well_formed(s, e);
    lemma_active_sanction_count(t, e.guild_id, e.user_id, e.moderation_type);
    assert(t[t.len() - 1].active && t[t.len() - 1].concerns(
        e.guild_id,
        e.user_id,
        e.moderation_type,
    ));
}

/// Recording a second ban of a user in a guild deactivates the first one and leaves exactly
/// one active ban of the user there. The same holds of mutes and of timeouts.
pub proof fn lemma_second_sanction_replaces_first(
    s: Seq<EntryView>,
    first: EntryView,
    second: EntryView,
)
    requires
        well_formed(s),
        first.moderation_type.is_sanction(),
        second.concerns(first.guild_id, first.user_id, first.moderation_type),
        highest_id(s, first.guild_id) < MAX_ID,
        highest_id(recorded(s, first), first.guild_id) < MAX_ID,
    ensures
        ({
            let t = recorded(recorded(s, first), second);
            &&& t.len() == s.len() + 2
            &&& !t[s.len() as int].active
            &&& t[s.len() as int + 1].active
            &&& active_of(t, first.guild_id, first.user_id, first.moderation_type).len() == 1
        }),
{
    let once = recorded(s, first);
    lemma_record_keeps_well_formed(s, first);
    lemma_sanction_supersedes(s, first);
    lemma_sanction_supersedes(once, second);
    let t = recorded(once, second);
    assert(once[s.len() as int] == once.last());
    assert(t[s.len() as int] == once[s.len() as int].deactivated());
}

/// The highest id of a guild is the greatest id among its entries: none of them has a
/// higher one, and unless it is 0 one of them has it.
pub proof fn lemma_highest_id_is_the_maximum(s: Seq<EntryView>, guild_id: u64)
    ensures
        forall|i: int|
            0 <= i < s.len() && s[i].guild_id == guild_id ==> s[i].id <= highest_id(s, guild_id),
        highest_id(s, guild_id) == 0 || exists|i: int|
            0 <= i < s.len() && s[i].guild_id == guild_id && s[i].id == highest_id(s, guild_id),
    decreases s.len(),
{
    crate::model::lemma_highest_id_bounds(s, guild_id);
    if s.len() > 0 {
        lemma_highest_id_is_the_maximum(s.drop_last(), guild_id);
        let before = highest_id(s.drop_last(), guild_id);
        if s.last().guild_id == guild_id && s.last().id > before {
            assert(s[s.len() - 1].id == highest_id(s, guild_id));
        } else if before != 0 {
            let i = choose|i: int|
                0 <= i < s.drop_last().len() && s.drop_last()[i].guild_id == guild_id
                    && s.drop_last()[i].id == before;
            assert(s[i] == s.drop_last()[i]);
        }
    }
}

/// Ids are assigned guild by guild, counting up by one: an entry recorded for a guild gets
/// the guild's next id and raises that next id by one, and it leaves the next id of every
/// other guild as it was.
pub proof fn lemma_ids_count_up_by_guild(s: Seq<EntryView>, e: EntryView, guild_id: u64)
    requires
        highest_id(s, e.guild_id) < MAX_ID,
    ensures
        recorded(s, e).last().id == next_id(s, e.guild_id),
        next_id(recorded(s, e), guild_id) == if guild_id == e.guild_id {
            next_id(s, guild_id) + 1
        } else {
            next_id(s, guild_id)
        },
{
    let kind = e.moderation_type;
    let cleared = if kind.is_sanction() {
        without_active(s, e.guild_id, e.user_id, kind)
    } else {
        s
    };
    lemma_deactivation_keeps_highest_id(s, cleared, e.guild_id);
    lemma_deactivation_keeps_highest_id(s, cleared, guild_id);
    let t = recorded(s, e);
    assert(t.drop_last() =~= cleared);
}

/// No two entries of a guild share an id.
pub proof fn lemma_ids_unique_in_guild(s: Seq<EntryView>, i: int, j: int)
    requires
        well_formed(s),
        0 <= i < s.len(),
        0 <= j < s.len(),
        s[i].guild_id == s[j].guild_id,
        s[i].id == s[j].id,
    ensures
        i == j,
{
}

/// The pages that can be shown are those from 1 to one more than the number of full pages.
pub proof fn lemma_pages_in_bounds(count: nat, page: nat, page_size: nat)
    requires
        page_size > 0,
    ensures
        page_in_bounds(count, page, page_size) <==> 1 <= page <= count / page_size + 1,
{
    let q = count / page_size;
    assert(count == q * page_size + count % page_size && 0 <= count % page_size < page_size)
        by (nonlinear_arith)
        requires
            page_size > 0,
            q == count / page_size,
    ;
    if 1 <= page <= q + 1 {
        assert((page - 1) * page_size <= q * page_size) by (nonlinear_arith)
            requires
                1 <= page <= q + 1,
                page_size > 0,
        ;
    }
    if page > q + 1 {
        assert((page - 1) * page_size >= (q + 1) * page_size) by (nonlinear_arith)
            requires
                page > q + 1,
                page_size > 0,
        ;
        assert((q + 1) * page_size == q * page_size + page_size) by (nonlinear_arith);
    }
}

/// Every page after the one that holds the last entries is out of bounds. (The page with the
/// number `count / page_size + 1` is the one left out here: it is in bounds and holds what
/// is left, which may be nothing.)
pub proof fn lemma_page_beyond_entries(count: nat, page: nat, page_size: nat)
    requires
        page * page_size > count,
        page_size > 0 ==> page != count / page_size + 1,
    ensures
        !page_in_bounds(count, page, page_size),
{
    assert(page_size > 0 && page > 0) by (nonlinear_arith)
        requires
            page * page_size > count,
    ;
    let q = count / page_size;
    assert(count == q * page_size + count % page_size && 0 <= count % page_size < page_size)
        by (nonlinear_arith)
        requires
            page_size > 0,
            q == count / page_size,
    ;
    assert(page > q) by (nonlinear_arith)
        requires
            page * page_size > count,
            count >= q * page_size,
            page_size > 0,
    ;
    assert((q + 1) * page_size == q * page_size + page_size) by (nonlinear_arith);
    assert((page - 1) * page_size > count) by (nonlinear_arith)
        requires
            page >= q + 2,
            count < (q + 1) * page_size,
            page_size > 0,
    ;
}

/// The last page is in bounds and not empty: it holds what is left over when the count is
/// divided by the page size, or a full page where nothing is left over.
pub proof fn lemma_last_page(count: nat, page_size: nat)
    requires
        count > 0,
        page_size > 0,
    ensures
        max_page(count, page_size) >= 1,
        page_in_bounds(count, max_page(count, page_size), page_size),
        page_len(count, max_page(count, page_size), page_size) == if count % page_size == 0 {
            page_size
        } else {
            count % page_size
        },
{
    let q = count / page_size;
    let r = count % page_size;
    assert(count == q * page_size + r && 0 <= r < page_size) by (nonlinear_arith)
        requires
            page_size > 0,
            q == count / page_size,
            r == count % page_size,
    ;
    if r == 0 {
        assert(q >= 1) by (nonlinear_arith)
            requires
                count == q * page_size,
                count > 0,
                page_size > 0,
        ;
        assert((q - 1) * page_size == count - page_size) by (nonlinear_arith)
            requires
                count == q * page_size,
        ;
    } else {
        assert((q + 1 - 1) * page_size == count - r) by (nonlinear_arith)
            requires
                count == q * page_size + r,
        ;
    }
}

/// What a query picks is in the order of the ids, lowest first.
pub proof fn lemma_selection_ascends(
    s: Seq<EntryView>,
    guild_id: u64,
    user_id: u64,
    kind: Option<ModerationType>,
)
    requires
        ids_ascend(s),
    ensures
        forall|a: int, b: int|
            0 <= a < b < selection(s, guild_id, user_id, kind).len() ==> (#[trigger] selection(
                s,
                guild_id,
                user_id,
                kind,
            )[a]).id < (#[trigger] selection(s, guild_id, user_id, kind)[b]).id,
    decreases s.len(),
{
    let pred = |e: EntryView| selects(e, guild_id, user_id, kind);
    if s.len() == 0 {
        reveal(Seq::filter);
    } else {
        let r = s.drop_last();
        let e = s.last();
        assert(s =~= r.push(e));
        assert(ids_ascend(r)) by {
            assert forall|i: int| 0 <= i < r.len() implies r[i] == s[i] by {}
        }
        lemma_selection_ascends(r, guild_id, user_id, kind);
        r.lemma_filter_push(e, pred);
        let picked = r.filter(pred);
        if pred(e) {
            assert forall|a: int| 0 <= a < picked.len() implies (#[trigger] picked[a]).id
                < e.id by {
                r.lemma_filter_pred(pred, a);
                assert(picked.contains(picked[a]));
                r.lemma_filter_contains_rev(pred, picked[a]);
                let i = choose|i: int| 0 <= i < r.len() && r[i] == picked[a];
                assert(s[i] == r[i]);
                assert(s[s.len() - 1] == e);
            }
        }
    }
}

/// A page shows newer entries before older ones: its ids fall from each entry to the next.
pub proof fn lemma_page_newest_first(
    s: Seq<EntryView>,
    guild_id: u64,
    user_id: u64,
    kind: Option<ModerationType>,
    page: nat,
    page_size: nat,
)
    requires
        well_formed(s),
        page_in_bounds(selection(s, guild_id, user_id, kind).len(), page, page_size),
    ensures
        forall|a: int, b: int|
            0 <= a < b < page_of(selection(s, guild_id, user_id, kind), page, page_size).len()
                ==> (#[trigger] page_of(
                selection(s, guild_id, user_id, kind),
                page,
                page_size,
            )[a]).id > (#[trigger] page_of(
                selection(s, guild_id, user_id, kind),
                page,
                page_size,
            )[b]).id,
{
    lemma_selection_ascends(s, guild_id, user_id, kind);
}

/// The sweep plan of a ledger with one entry more: the plan of the ledger, followed by what
/// undoes the new entry if the sweep takes it up and it has something to undo.
pub proof fn lemma_sweep_plan_push(
    s: Seq<EntryView>,
    e: EntryView,
    settings: Map<u64, SettingsView>,
    now: i64,
)
    ensures
        sweep_plan(s.push(e), settings, now) == if due(e, now) && compensation(
            sanction_of(e),
            settings,
        ).is_some() {
            sweep_plan(s, settings, now).push(compensation(sanction_of(e), settings).unwrap())
        } else {
            sweep_plan(s, settings, now)
        },
{
    let pred = |e: EntryView| due(e, now);
    let pick = |e: EntryView| sanction_of(e);
    let f = |item: ExpiredSanction| compensation(item, settings);
    s.lemma_filter_push(e, pred);
    let items = expired_sanctions(s, now);
    if due(e, now) {
        let more = items.push(sanction_of(e));
        assert(expired_sanctions(s.push(e), now) =~= more);
        more.lemma_filter_map_take_succ(f, items.len() as int);
        assert(more.take(items.len() as int) =~= items);
        assert(more.take(items.len() as int + 1) =~= more);
        assert(sweep_plan(s.push(e), settings, now) =~= if compensation(
            sanction_of(e),
            settings,
        ).is_some() {
            sweep_plan(s, settings, now).push(compensation(sanction_of(e), settings).unwrap())
        } else {
            sweep_plan(s, settings, now)
        });
    }
}

/// The test that picks one action out of a plan.
pub open spec fn is_action(action: Compensation) -> spec_fn(Compensation) -> bool {
    |c: Compensation| c == action
}

/// How often an action stands in a plan.
pub open spec fn occurrences(plan: Seq<Compensation>, action: Compensation) -> nat {
    plan.filter(is_action(action)).len()
}

/// Whether the sweep at time `now` takes up a ban of this user in this guild.
pub open spec fn has_due_ban(s: Seq<EntryView>, guild_id: u64, user_id: u64, now: i64) -> bool {
    exists|i: int|
        0 <= i < s.len() && due(s[i], now) && #[trigger] s[i].concerns(
            guild_id,
            user_id,
            ModerationType::Ban,
        )
}

/// A sweep lifts the ban of a user in a guild once if it takes up a ban of the user there,
/// and not at all if it takes up none.
pub proof fn lemma_unban_count(
    s: Seq<EntryView>,
    settings: Map<u64, SettingsView>,
    now: i64,
    guild_id: u64,
    user_id: u64,
)
    requires
        well_formed(s),
    ensures
        occurrences(sweep_plan(s, settings, now), Compensation::Unban { guild_id, user_id })
            == if has_due_ban(s, guild_id, user_id, now) {
            1nat
        } else {
            0nat
        },
    decreases s.len(),
{
    let unban = Compensation::Unban { guild_id, user_id };
    let is_unban = is_action(unban);
    if s.len() == 0 {
        reveal(Seq::filter);
        assert(sweep_plan(s, settings, now) =~= Seq::<Compensation>::empty());
    } else {
        let r = s.drop_last();
        let e = s.last();
        assert(s =~= r.push(e));
        assert(well_formed(r)) by {
            assert forall|i: int| 0 <= i < r.len() implies r[i] == s[i] by {}
        }
        lemma_unban_count(r, settings, now, guild_id, user_id);
        lemma_sweep_plan_push(r, e, settings, now);
        let before = sweep_plan(r, settings, now);
        let undo = compensation(sanction_of(e), settings);
        if due(e, now) && undo.is_some() {
            before.lemma_filter_push(undo.unwrap(), is_unban);
        }
        if due(e, now) && e.concerns(guild_id, user_id, ModerationType::Ban) {
            assert(undo == Some(unban));

            assert(due(s[s.len() - 1], now) && s[s.len() - 1].concerns(
                guild_id,
                user_id,
                ModerationType::Ban,
            ));
            if has_due_ban(r, guild_id, user_id, now) {
                let i = choose|i: int|
                    0 <= i < r.len() && due(r[i], now) && #[trigger] r[i].concerns(
                        guild_id,
                        user_id,
                        ModerationType::Ban,
                    );
                assert(r[i] == s[i]);
                lemma_one_active_sanction(
                    s,
                    guild_id,
                    user_id,
                    ModerationType::Ban,
                    i,
                    s.len() - 1,
                );
            }
        } else {
            if due(e, now) {
                assert(undo != Some(unban));
            }
            if has_due_ban(s, guild_id, user_id, now) {
                let i = choose|i: int|
                    0 <= i < s.len() && due(s[i], now) && #[trigger] s[i].concerns(
                        guild_id,
                        user_id,
                        ModerationType::Ban,
                    );
                assert(r[i] == s[i]);
                assert(due(r[i], now) && r[i].concerns(guild_id, user_id, ModerationType::Ban));
            }
            if has_due_ban(r, guild_id, user_id, now) {
                let i = choose|i: int|
                    0 <= i < r.len() && due(r[i], now) && #[trigger] r[i].concerns(
                        guild_id,
                        user_id,
                        ModerationType::Ban,
                    );
                assert(s[i] == r[i]);
                assert(due(s[i], now) && s[i].concerns(guild_id, user_id, ModerationType::Ban));
            }
        }
    }
}

/// An active ban whose expiry date has passed is lifted by exactly one action of the sweep,
/// and the sweep leaves its entry inactive.
pub proof fn lemma_expired_ban_is_lifted_once(
    s: Seq<EntryView>,
    settings: Map<u64, SettingsView>,
    now: i64,
    i: int,
)
    requires
        well_formed(s),
        0 <= i < s.len(),
        s[i].active,
        s[i].moderation_type == ModerationType::Ban,
        s[i].expired(now),
    ensures
        occurrences(
            sweep_plan(s, settings, now),
            Compensation::Unban { guild_id: s[i].guild_id, user_id: s[i].user_id },
        ) == 1,
        !without_expired(s, now)[i].active,
{
    lemma_unban_count(s, settings, now, s[i].guild_id, s[i].user_id);
    assert(due(s[i], now) && s[i].concerns(s[i].guild_id, s[i].user_id, ModerationType::Ban));
}

/// An active ban whose expiry date has not passed, or that has none, is not lifted by the
/// sweep, and the sweep leaves its entry as it is.
pub proof fn lemma_unexpired_ban_is_kept(
    s: Seq<EntryView>,
    settings: Map<u64, SettingsView>,
    now: i64,
    i: int,
)
    requires
        well_formed(s),
        0 <= i < s.len(),
        s[i].active,
        s[i].moderation_type == ModerationType::Ban,
        !s[i].expired(now),
    ensures
        occurrences(
            sweep_plan(s, settings, now),
            Compensation::Unban { guild_id: s[i].guild_id, user_id: s[i].user_id },
        ) == 0,
        without_expired(s, now)[i] == s[i],
{
    let guild_id = s[i].guild_id;
    let user_id = s[i].user_id;
    lemma_unban_count(s, settings, now, guild_id, user_id);
    if has_due_ban(s, guild_id, user_id, now) {
        let j = choose|j: int|
            0 <= j < s.len() && due(s[j], now) && #[trigger] s[j].concerns(
                guild_id,
                user_id,
                ModerationType::Ban,
            );
        assert(s[i].concerns(guild_id, user_id, ModerationType::Ban));
        lemma_one_active_sanction(s, guild_id, user_id, ModerationType::Ban, i, j);
    }
}

/// How many of the outcomes are failures.
pub open spec fn failures(outcomes: Seq<bool>) -> nat
    decreases outcomes.len(),
{
    if outcomes.len() == 0 {
        0
    } else if outcomes.first() {
        failures(outcomes.drop_first())
    } else {
        1 + failures(outcomes.drop_first())
    }
}

/// The course of a sweep: the actions that it asked for, in order, the ledger that it left,
/// and its report if it came to its end.
pub struct Course {
    pub performed: Seq<Compensation>,
    pub ledger: Seq<EntryView>,
    pub report: Option<SweepReport>,
}

/// The course of a sweep from one of its steps on, where its actions turn out as `outcomes`
/// say, one outcome for each action in turn.
pub open spec fn course(step: StepView, ledger: Seq<EntryView>, outcomes: Seq<bool>) -> Course
    decreases outcomes.len(),
{
    match step {
        StepView::Finished(report) => Course {
            performed: Seq::empty(),
            ledger,
            report: Some(report),
        },
        StepView::Perform(sweep, action) => if outcomes.len() == 0 {
            Course { performed: seq![action], ledger, report: None }
        } else {
            let next = resume(ledger, sweep, outcomes.first());
            let rest = course(next.0, next.1, outcomes.drop_first());
            Course {
                performed: seq![action] + rest.performed,
                ledger: rest.ledger,
                report: rest.report,
            }
        },
    }
}

/// From any step of a sweep on: every action still in the queue is asked for, whatever became
/// of the ones before it, and at the end the expired entries are deactivated.
pub proof fn lemma_course_from(
    ledger: Seq<EntryView>,
    sweep: SweepView,
    outcomes: Seq<bool>,
)
    requires
        sweep.wf(),
        sweep.queue.len() <= usize::MAX,
        outcomes.len() == sweep.queue.len() - sweep.done,
    ensures
        ({
            let c = course(
                StepView::Perform(sweep, sweep.queue[sweep.done as int]),
                ledger,
                outcomes,
            );
            &&& c.performed == sweep.queue.subrange(sweep.done as int, sweep.queue.len() as int)
            &&& c.ledger == without_expired(ledger, sweep.now)
            &&& c.report == Some(
                SweepReport {
                    attempted: sweep.queue.len() as usize,
                    failed: (sweep.failed + failures(outcomes)) as usize,
                },
            )
        }),
    decreases outcomes.len(),
{
    let step = StepView::Perform(sweep, sweep.queue[sweep.done as int]);
    let c = course(step, ledger, outcomes);
    let next = resume(ledger, sweep, outcomes.first());
    let rest = course(next.0, next.1, outcomes.drop_first());
    if sweep.done + 1 < sweep.queue.len() {
        let after = SweepView {
            done: sweep.done + 1,
            failed: if outcomes.first() {
                sweep.failed
            } else {
                sweep.failed + 1
            },
            ..sweep
        };
        lemma_course_from(ledger, after, outcomes.drop_first());
        assert(c.performed =~= sweep.queue.subrange(
            sweep.done as int,
            sweep.queue.len() as int,
        ));
    } else {
        assert(outcomes.drop_first().len() == 0);
        assert(failures(outcomes.drop_first()) == 0);
        assert(c.performed =~= sweep.queue.subrange(
            sweep.done as int,
            sweep.queue.len() as int,
        ));
    }
}

/// A whole sweep, whatever fails: every action of its plan is asked for once, in order, also
/// after others have failed; every entry whose expiry date has passed ends up inactive, also
/// those whose action failed; and the report counts the failures.
pub proof fn lemma_sweep_survives_failures(
    ledger: Seq<EntryView>,
    settings: Map<u64, SettingsView>,
    now: i64,
    outcomes: Seq<bool>,
)
    requires
        sweep_plan(ledger, settings, now).len() <= usize::MAX,
        outcomes.len() == sweep_plan(ledger, settings, now).len(),
    ensures
        ({
            let first = begin(ledger, settings, now);
            let c = course(first.0, first.1, outcomes);
            &&& c.performed == sweep_plan(ledger, settings, now)
            &&& c.ledger == without_expired(ledger, now)
            &&& c.report == Some(
                SweepReport {
                    attempted: outcomes.len() as usize,
                    failed: failures(outcomes) as usize,
                },
            )
            &&& forall|i: int|
                0 <= i < ledger.len() && (#[trigger] ledger[i]).expired(now) ==> !c.ledger[i].active
        }),
{
    let queue = sweep_plan(ledger, settings, now);
    let first = begin(ledger, settings, now);
    let c = course(first.0, first.1, outcomes);
    if queue.len() == 0 {
        assert(c.performed =~= queue);
    } else {
        let sweep = SweepView { now, queue, done: 0, failed: 0 };
        lemma_course_from(ledger, sweep, outcomes);
        assert(queue.subrange(0, queue.len() as int) =~= queue);
    }
}

/// Whether a ledger comes from another by entries being added at the end and entries
/// becoming inactive, and by nothing else.
pub open spec fn grows_from(new: Seq<EntryView>, old: Seq<EntryView>) -> bool {
    &&& old.len() <= new.len()
    &&& forall|i: int|
        0 <= i < old.len() ==> #[trigger] new[i] == old[i] || new[i] == old[i].deactivated()
}

/// The life of an entry: once recorded it is never removed and never changed, but for
/// becoming inactive, and what is inactive stays inactive. This holds of every operation of
/// the ledger, and so of every sequence of them.
pub proof fn lemma_entries_only_become_inactive(
    s: Seq<EntryView>,
    e: EntryView,
    guild_id: u64,
    user_id: u64,
    kind: ModerationType,
    id: u64,
    now: i64,
)
    ensures
        grows_from(crate::model::inserted(s, e), s),
        grows_from(recorded(s, e), s),
        grows_from(without_active(s, guild_id, user_id, kind), s),
        grows_from(without_id(s, id), s),
        grows_from(without_expired(s, now), s),
{
    crate::model::lemma_position_of(s, id);
}

/// What grew from what grew from a ledger grew from that ledger.
pub proof fn lemma_growth_composes(a: Seq<EntryView>, b: Seq<EntryView>, c: Seq<EntryView>)
    requires
        grows_from(b, a),
        grows_from(c, b),
    ensures
        grows_from(c, a),
{
    assert forall|i: int| 0 <= i < a.len() implies #[trigger] c[i] == a[i] || c[i]
        == a[i].deactivated() by {
        assert(b[i] == a[i] || b[i] == a[i].deactivated());
        assert(c[i] == b[i] || c[i] == b[i].deactivated());
    }
}

/// The sweep touches nothing but what has expired: an entry without an expiry date, or
/// with one that has not passed, stays as it is, and the entries whose expiry date has
/// passed become inactive and stay otherwise as they are.
pub proof fn lemma_sweep_deactivates_the_expired(s: Seq<EntryView>, now: i64, i: int)
    requires
        0 <= i < s.len(),
    ensures
        without_expired(s, now).len() == s.len(),
        without_expired(s, now)[i] == if s[i].expired(now) {
            s[i].deactivated()
        } else {
            s[i]
        },
{
}

/// Once swept, a ledger has nothing left to sweep at that time: no action is asked for
/// twice.
pub proof fn lemma_swept_is_done(s: Seq<EntryView>, settings: Map<u64, SettingsView>, now: i64)
    ensures
        expired_active(without_expired(s, now), now) == Seq::<EntryView>::empty(),
        sweep_plan(without_expired(s, now), settings, now) == Seq::<Compensation>::empty(),
    decreases s.len(),
{
    let t = without_expired(s, now);
    let pred = |e: EntryView| due(e, now);
    if s.len() == 0 {
        reveal(Seq::filter);
        assert(t =~= Seq::<EntryView>::empty());
        assert(t.filter(pred) =~= Seq::<EntryView>::empty());
    } else {
        let r = s.drop_last();
        lemma_swept_is_done(r, settings, now);
        let last = t.last();
        assert(t =~= without_expired(r, now).push(last));
        without_expired(r, now).lemma_filter_push(last, pred);
        assert(!due(last, now));
    }
    assert(expired_sanctions(t, now) =~= Seq::<ExpiredSanction>::empty());
    assert(sweep_plan(t, settings, now) =~= Seq::<Compensation>::empty());
}

/// One sweep and an active ban: if the expiry date of the ban has passed, the sweep asks
/// exactly once for the ban to be lifted and leaves the entry inactive, whatever becomes of
/// its actions; if it has not passed, the sweep does not ask for it and leaves the entry
/// active.
pub proof fn lemma_sweep_and_ban(
    ledger: Seq<EntryView>,
    settings: Map<u64, SettingsView>,
    now: i64,
    outcomes: Seq<bool>,
    i: int,
)
    requires
        well_formed(ledger),
        0 <= i < ledger.len(),
        ledger[i].active,
        ledger[i].moderation_type == ModerationType::Ban,
        sweep_plan(ledger, settings, now).len() <= usize::MAX,
        outcomes.len() == sweep_plan(ledger, settings, now).len(),
    ensures
        ({
            let first = begin(ledger, settings, now);
            let c = course(first.0, first.1, outcomes);
            let unban = Compensation::Unban {
                guild_id: ledger[i].guild_id,
                user_id: ledger[i].user_id,
            };
            if ledger[i].expired(now) {
                occurrences(c.performed, unban) == 1 && !c.ledger[i].active
            } else {
                occurrences(c.performed, unban) == 0 && c.ledger[i].active
            }
        }),
{
    lemma_sweep_survives_failures(ledger, settings, now, outcomes);
    if ledger[i].expired(now) {
        lemma_expired_ban_is_lifted_once(ledger, settings, now, i);
    } else {
        lemma_unexpired_ban_is_kept(ledger, settings, now, i);
    }
}

} // verus!
