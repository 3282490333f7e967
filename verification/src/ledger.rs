//! The ledger of moderation entries: an append-only log whose entries change only by
//! becoming inactive.

use crate::error::Error;
use crate::model::{
    admits, compatible, decoded_rows, due, expired_sanctions, has_active, highest_id, inserted,
    lemma_deactivation_keeps_highest_id, lemma_deactivation_keeps_well_formed,
    lemma_filter_take_step, lemma_insert_keeps_well_formed, lemma_position_of,
    lemma_well_formed_pairwise, max_page, next_id, page_in_bounds, page_len, page_of,
    plausible, position_of, recorded, rows_decode, sanction_of, selection, selects, views,
    well_formed, without_active, without_expired, without_id, ExpiredSanction, MAX_ID,
};
use crate::types::{opt_chars, EntryView, ModerationRow, ModerationType, ModlogEntry};
use vstd::prelude::*;

verus! {

/// An entry that is to be added to the ledger: all of an entry but its id.
#[derive(Debug)]
pub struct NewEntry {
    pub guild_id: u64,
    pub user_id: u64,
    pub moderator_id: u64,
    pub moderation_type: ModerationType,
    pub administered_at: i64,
    pub expiry_date: Option<i64>,
    pub reason: Option<String>,
    pub active: bool,
}

impl View for NewEntry {
    type V = EntryView;

    /// The entry with 0 in the place of the id that the ledger will assign.
    open spec fn view(&self) -> EntryView {
        EntryView {
            id: 0,
            guild_id: self.guild_id,
            moderation_type: self.moderation_type,
            user_id: self.user_id,
            moderator_id: self.moderator_id,
            administered_at: self.administered_at,
            expiry_date: self.expiry_date,
            reason: opt_chars(self.reason),
            active: self.active,
        }
    }
}

/// The ledger: every moderation entry of every guild, in the order in which they were added.
#[derive(Debug)]
pub struct Ledger {
    entries: Vec<ModlogEntry>,
}

impl View for Ledger {
    type V = Seq<EntryView>;

    closed spec fn view(&self) -> Seq<EntryView> {
        views(self.entries@)
    }
}

impl Ledger {
    /// The invariant of the ledger.
    pub open spec fn wf(&self) -> bool {
        well_formed(self@)
    }

    /// A ledger without entries.
    pub fn new() -> (ledger: Ledger)
        ensures
            ledger@ == Seq::<EntryView>::empty(),
            ledger.wf(),
    {
        let ledger = Ledger { entries: Vec::new() };
        assert(ledger@ =~= Seq::<EntryView>::empty());
        ledger
    }

    /// The entries, oldest first.
    pub fn entries(&self) -> (entries: &Vec<ModlogEntry>)
        ensures
            views(entries@) == self@,
    {
        &self.entries
    }

    /// The highest id among the entries of a guild, and 0 where it has none.
    pub fn highest_id(&self, guild_id: u64) -> (id: u64)
        ensures
            id == highest_id(self@, guild_id),
    {
        let mut highest: u64 = 0;
        let mut i: usize = 0;
        while i < self.entries.len()
            invariant
                i <= self.entries.len(),
                highest == highest_id(self@.take(i as int), guild_id),
            decreases self.entries.len() - i,
        {
            proof {
                assert(self@.take(i + 1).drop_last() =~= self@.take(i as int));
                assert(self@.take(i + 1).last() == self.entries[i as int]@);
            }
            if self.entries[i].guild_id == guild_id && self.entries[i].id > highest {
                highest = self.entries[i].id;
            }
            i = i + 1;
        }
        assert(self@.take(i as int) =~= self@);
        highest
    }

    /// Tells whether an active entry of this kind is about this user in this guild.
    pub fn has_active(&self, guild_id: u64, user_id: u64, kind: ModerationType) -> (found: bool)
        ensures
            found == has_active(self@, guild_id, user_id, kind),
    {
        let mut i: usize = 0;
        while i < self.entries.len()
            invariant
                i <= self.entries.len(),
                forall|j: int|
                    0 <= j < i ==> !(self@[j].active && #[trigger] self@[j].concerns(
                        guild_id,
                        user_id,
                        kind,
                    )),
            decreases self.entries.len() - i,
        {
            let e = &self.entries[i];
            if e.active && e.guild_id == guild_id && e.user_id == user_id && e.moderation_type
                == kind {
                assert(self@[i as int].active && self@[i as int].concerns(
                    guild_id,
                    user_id,
                    kind,
                ));
                return true;
            }
            i = i + 1;
        }
        false
    }

    /// Adds an entry under the next id of its guild and returns that id.
    ///
    /// The store refuses, with `StorageError` and unchanged, an entry that would break one of
    /// its constraints: the guild has no id left, the entry's activity is not that of its
    /// kind, or it is an active sanction while one of its kind is still active.
    pub fn insert(&mut self, entry: NewEntry) -> (r: Result<u64, Error>)
        requires
            old(self).wf(),
        ensures
            final(self).wf(),
            match r {
                Ok(id) => admits(old(self)@, entry@) && id == next_id(old(self)@, entry.guild_id)
                    && final(self)@ == inserted(old(self)@, entry@),
                Err(e) => !admits(old(self)@, entry@) && e == Error::StorageError && final(self)@
                    == old(self)@,
            },
    {
        let highest = self.highest_id(entry.guild_id);
        if highest >= MAX_ID {
            return Err(Error::StorageError);
        }
        if entry.active != entry.moderation_type.active_when_recorded() {
            return Err(Error::StorageError);
        }
        if entry.moderation_type.supersedes() && self.has_active(
            entry.guild_id,
            entry.user_id,
            entry.moderation_type,
        ) {
            return Err(Error::StorageError);
        }
        let id: u64 = highest + 1;
        let ghost before = self@;
        proof {
            lemma_insert_keeps_well_formed(before, entry@);
        }
        self.entries.push(
            ModlogEntry {
                id,
                guild_id: entry.guild_id,
                moderation_type: entry.moderation_type,
                user_id: entry.user_id,
                moderator_id: entry.moderator_id,
                administered_at: entry.administered_at,
                expiry_date: entry.expiry_date,
                reason: entry.reason,
                active: entry.active,
            },
        );
        assert(self@ =~= inserted(before, entry@));
        Ok(id)
    }

    /// Deactivates every entry of this kind about this user in this guild.
    pub fn deactivate_by_kind(&mut self, guild_id: u64, user_id: u64, kind: ModerationType)
        requires
            old(self).wf(),
        ensures
            final(self).wf(),
            final(self)@ == without_active(old(self)@, guild_id, user_id, kind),
    {
        let ghost before = self@;
        let n = self.entries.len();
        let mut i: usize = 0;
        while i < n
            invariant
                i <= n,
                n == self.entries.len(),
                self@.len() == before.len(),
                forall|j: int|
                    0 <= j < i ==> #[trigger] self@[j] == without_active(
                        before,
                        guild_id,
                        user_id,
                        kind,
                    )[j],
                forall|j: int| i <= j < n ==> #[trigger] self@[j] == before[j],
            decreases n - i,
        {
            let e = &self.entries[i];
            if e.guild_id == guild_id && e.user_id == user_id && e.moderation_type == kind {
                let ghost pre = self@;
                self.entries[i].active = false;
                assert(forall|j: int| 0 <= j < n && j != i ==> #[trigger] self@[j] == pre[j]);
                assert(self@[i as int] == pre[i as int].deactivated());
            }
            i = i + 1;
        }
        proof {
            let after = without_active(before, guild_id, user_id, kind);
            assert(self@ =~= after);
            lemma_deactivation_keeps_well_formed(before, after);
        }
    }

    /// Deactivates the first entry with this id, and tells whether there was one.
    pub fn deactivate_by_id(&mut self, id: u64) -> (found: bool)
        requires
            old(self).wf(),
        ensures
            final(self).wf(),
            final(self)@ == without_id(old(self)@, id),
            found == (position_of(old(self)@, id) < old(self)@.len()),
    {
        let ghost before = self@;
        let n = self.entries.len();
        let mut i: usize = 0;
        while i < n
            invariant
                i <= n,
                n == self.entries.len(),
                self@ == before,
                before == old(self)@,
                well_formed(before),
                forall|j: int| 0 <= j < i ==> (#[trigger] before[j]).id != id,
            decreases n - i,
        {
            if self.entries[i].id == id {
                self.entries[i].active = false;
                proof {
                    lemma_position_of(before, id);
                    assert(before[i as int].id == id);
                    assert(position_of(before, id) == i);
                    assert(self@ =~= without_id(before, id));
                    lemma_deactivation_keeps_well_formed(before, self@);
                }
                return true;
            }
            i = i + 1;
        }
        proof {
            lemma_position_of(before, id);
        }
        false
    }

    /// The first entry with this id. Where no entry has the id, the result is `NotFound`.
    pub fn get_by_id(&self, id: u64) -> (r: Result<ModlogEntry, Error>)
        ensures
            match r {
                Ok(entry) => position_of(self@, id) < self@.len() && entry@ == self@[position_of(
                    self@,
                    id,
                )],
                Err(e) => position_of(self@, id) == self@.len() && e == Error::NotFound,
            },
    {
        let n = self.entries.len();
        let mut i: usize = 0;
        while i < n
            invariant
                i <= n,
                n == self.entries.len(),
                forall|j: int| 0 <= j < i ==> (#[trigger] self@[j]).id != id,
            decreases n - i,
        {
            if self.entries[i].id == id {
                proof {
                    lemma_position_of(self@, id);
                    assert(self@[i as int].id == id);
                    assert(position_of(self@, id) == i);
                }
                return Ok(self.entries[i].clone());
            }
            i = i + 1;
        }
        proof {
            lemma_position_of(self@, id);
        }
        Err(Error::NotFound)
    }

    /// Deactivates every entry whose expiry date lies before `now`.
    pub fn deactivate_all_expired(&mut self, now: i64)
        requires
            old(self).wf(),
        ensures
            final(self).wf(),
            final(self)@ == without_expired(old(self)@, now),
    {
        let ghost before = self@;
        let n = self.entries.len();
        let mut i: usize = 0;
        while i < n
            invariant
                i <= n,
                n == self.entries.len(),
                self@.len() == before.len(),
                forall|j: int|
                    0 <= j < i ==> #[trigger] self@[j] == without_expired(before, now)[j],
                forall|j: int| i <= j < n ==> #[trigger] self@[j] == before[j],
            decreases n - i,
        {
            let lapsed = match self.entries[i].expiry_date {
                Some(at) => at < now,
                None => false,
            };
            if lapsed {
                let ghost pre = self@;
                self.entries[i].active = false;
                assert(forall|j: int| 0 <= j < n && j != i ==> #[trigger] self@[j] == pre[j]);
                assert(self@[i as int] == pre[i as int].deactivated());
            }
            i = i + 1;
        }
        proof {
            let after = without_expired(before, now);
            assert(self@ =~= after);
            lemma_deactivation_keeps_well_formed(before, after);
        }
    }

    /// Records a moderation action and returns the id of its entry.
    ///
    /// A ban, mute or timeout first deactivates what is active of its kind against the user;
    /// the new entry is active unless it is a kick or a reversal. Where the guild has no id
    /// left, nothing changes and the result is `StorageError`.
    pub fn record(
        &mut self,
        guild_id: u64,
        user_id: u64,
        moderator_id: u64,
        kind: ModerationType,
        administered_at: i64,
        expiry_date: Option<i64>,
        reason: Option<String>,
    ) -> (r: Result<u64, Error>)
        requires
            old(self).wf(),
        ensures
            final(self).wf(),
            match r {
                Ok(id) => highest_id(old(self)@, guild_id) < MAX_ID && id == next_id(
                    old(self)@,
                    guild_id,
                ) && final(self)@ == recorded(
                    old(self)@,
                    EntryView {
                        id: 0,
                        guild_id,
                        moderation_type: kind,
                        user_id,
                        moderator_id,
                        administered_at,
                        expiry_date,
                        reason: opt_chars(reason),
                        active: true,
                    },
                ),
                Err(e) => highest_id(old(self)@, guild_id) >= MAX_ID && e == Error::StorageError
                    && final(self)@ == old(self)@,
            },
    {
        let ghost before = self@;
        if self.highest_id(guild_id) >= MAX_ID {
            return Err(Error::StorageError);
        }
        if kind.supersedes() {
            self.deactivate_by_kind(guild_id, user_id, kind);
            proof {
                let cleared = without_active(before, guild_id, user_id, kind);
                lemma_deactivation_keeps_highest_id(before, cleared, guild_id);
                assert(!has_active(cleared, guild_id, user_id, kind));
            }
        }
        let entry = NewEntry {
            guild_id,
            user_id,
            moderator_id,
            moderation_type: kind,
            administered_at,
            expiry_date,
            reason,
            active: kind.active_when_recorded(),
        };
        self.insert(entry)
    }

    /// How many entries a query picks: those about this user in this guild; with a kind
    /// given, only those of that kind that are still active.
    pub fn count(&self, guild_id: u64, user_id: u64, kind: Option<ModerationType>) -> (n: usize)
        ensures
            n == selection(self@, guild_id, user_id, kind).len(),
    {
        let ghost pred = |e: EntryView| selects(e, guild_id, user_id, kind);
        let mut n: usize = 0;
        let mut i: usize = 0;
        while i < self.entries.len()
            invariant
                i <= self.entries.len(),
                n <= i,
                pred == (|e: EntryView| selects(e, guild_id, user_id, kind)),
                n == self@.take(i as int).filter(pred).len(),
            decreases self.entries.len() - i,
        {
            proof {
                lemma_filter_take_step(self@, pred, i as int);
            }
            if Self::picks(&self.entries[i], guild_id, user_id, kind) {
                n = n + 1;
            }
            i = i + 1;
        }
        assert(self@.take(i as int) =~= self@);
        n
    }

    fn picks(entry: &ModlogEntry, guild_id: u64, user_id: u64, kind: Option<ModerationType>) -> (b:
        bool)
        ensures
            b == selects(entry@, guild_id, user_id, kind),
    {
        entry.guild_id == guild_id && entry.user_id == user_id && match kind {
            Some(k) => entry.moderation_type == k && entry.active,
            None => true,
        }
    }

    /// One page of what a query picks, newest entry first. Pages count from 1.
    ///
    /// Where the page lies beyond the entries, the result is `PageOutOfBounds` with the page
    /// asked for and the number of the last page.
    pub fn page(
        &self,
        guild_id: u64,
        user_id: u64,
        kind: Option<ModerationType>,
        page: usize,
        page_size: usize,
    ) -> (r: Result<Vec<ModlogEntry>, Error>)
        ensures
            match r {
                Ok(entries) => page_in_bounds(
                    selection(self@, guild_id, user_id, kind).len(),
                    page as nat,
                    page_size as nat,
                ) && views(entries@) == page_of(
                    selection(self@, guild_id, user_id, kind),
                    page as nat,
                    page_size as nat,
                ) && (self.wf() ==> forall|a: int, b: int|
                    0 <= a < b < entries@.len() ==> (#[trigger] entries@[a]).id
                        > (#[trigger] entries@[b]).id),
                Err(e) => !page_in_bounds(
                    selection(self@, guild_id, user_id, kind).len(),
                    page as nat,
                    page_size as nat,
                ) && e == Error::PageOutOfBounds(
                    page,
                    max_page(
                        selection(self@, guild_id, user_id, kind).len(),
                        page_size as nat,
                    ) as usize,
                ),
            },
    {
        let ghost pred = |e: EntryView| selects(e, guild_id, user_id, kind);
        let ghost picked = selection(self@, guild_id, user_id, kind);
        let mut at: Vec<usize> = Vec::new();
        let mut i: usize = 0;
        while i < self.entries.len()
            invariant
                i <= self.entries.len(),
                pred == (|e: EntryView| selects(e, guild_id, user_id, kind)),
                at@.len() == self@.take(i as int).filter(pred).len(),
                at@.len() <= i,
                forall|k: int|
                    0 <= k < at@.len() ==> 0 <= #[trigger] at@[k] < i && self@[at@[k] as int]
                        == self@.take(i as int).filter(pred)[k],
            decreases self.entries.len() - i,
        {
            proof {
                lemma_filter_take_step(self@, pred, i as int);
            }
            if Self::picks(&self.entries[i], guild_id, user_id, kind) {
                at.push(i);
            }
            i = i + 1;
        }
        assert(self@.take(i as int) =~= self@);
        let count = at.len();
        let offset = if page == 0 {
            None
        } else {
            (page - 1).checked_mul(page_size)
        };
        let in_bounds = match offset {
            Some(skip) => skip <= count,
            None => false,
        };
        if !in_bounds {
            let last: usize = if page_size == 0 {
                0
            } else if count % page_size == 0 {
                count / page_size
            } else {
                assert(count / page_size < count) by (nonlinear_arith)
                    requires
                        page_size > 0,
                        count % page_size != 0,
                ;
                count / page_size + 1
            };
            return Err(Error::PageOutOfBounds(page, last));
        }
        let skip: usize = offset.unwrap();
        let rest: usize = count - skip;
        let len: usize = if rest < page_size {
            rest
        } else {
            page_size
        };
        assert(len == page_len(count as nat, page as nat, page_size as nat));
        let mut out: Vec<ModlogEntry> = Vec::new();
        let mut k: usize = 0;
        while k < len
            invariant
                k <= len,
                len <= count - skip,
                count == at@.len(),
                count == picked.len(),
                out@.len() == k,
                forall|j: int|
                    0 <= j < count ==> 0 <= #[trigger] at@[j] < self.entries.len()
                        && self@[at@[j] as int] == picked[j],
                forall|j: int| 0 <= j < k ==> (#[trigger] out@[j])@ == picked[count - 1 - skip - j],
            decreases len - k,
        {
            let from: usize = at[count - 1 - skip - k];
            out.push(self.entries[from].clone());
            k = k + 1;
        }
        assert(views(out@) =~= page_of(picked, page as nat, page_size as nat));
        proof {
            if self.wf() {
                crate::laws::lemma_page_newest_first(
                    self@,
                    guild_id,
                    user_id,
                    kind,
                    page as nat,
                    page_size as nat,
                );
                let shown = page_of(picked, page as nat, page_size as nat);
                assert forall|a: int, b: int| 0 <= a < b < out@.len() implies (
                #[trigger] out@[a]).id > (#[trigger] out@[b]).id by {
                    assert(views(out@)[a] == out@[a]@);
                    assert(views(out@)[b] == out@[b]@);
                    assert(shown[a].id > shown[b].id);
                }
            }
        }
        Ok(out)
    }

    /// Guild, user and kind of every active entry whose expiry date lies before `now`, oldest
    /// first.
    pub fn find_expired_active(&self, now: i64) -> (found: Vec<ExpiredSanction>)
        ensures
            found@ == expired_sanctions(self@, now),
    {
        let ghost pred = |e: EntryView| due(e, now);
        let ghost pick = |e: EntryView| sanction_of(e);
        let mut found: Vec<ExpiredSanction> = Vec::new();
        let mut i: usize = 0;
        while i < self.entries.len()
            invariant
                i <= self.entries.len(),
                pred == (|e: EntryView| due(e, now)),
                pick == (|e: EntryView| sanction_of(e)),
                found@ == self@.take(i as int).filter(pred).map_values(pick),
            decreases self.entries.len() - i,
        {
            proof {
                lemma_filter_take_step(self@, pred, i as int);
            }
            let e = &self.entries[i];
            let lapsed = match e.expiry_date {
                Some(at) => at < now,
                None => false,
            };
            if e.active && lapsed {
                found.push(
                    ExpiredSanction {
                        guild_id: e.guild_id,
                        user_id: e.user_id,
                        moderation_type: e.moderation_type,
                    },
                );
                assert(found@ =~= self@.take(i + 1).filter(pred).map_values(pick));
            }
            i = i + 1;
        }
        assert(self@.take(i as int) =~= self@);
        found
    }

    fn fits(earlier: &ModlogEntry, later: &ModlogEntry) -> (b: bool)
        ensures
            b == compatible(earlier@, later@),
    {
        if earlier.guild_id == later.guild_id && earlier.id >= later.id {
            return false;
        }
        !(earlier.active && later.active && earlier.moderation_type.supersedes()
            && later.guild_id == earlier.guild_id && later.user_id == earlier.user_id
            && later.moderation_type == earlier.moderation_type)
    }

    /// Makes a ledger of these entries, in this order, if they form one.
    pub fn from_entries(entries: Vec<ModlogEntry>) -> (r: Option<Ledger>)
        ensures
            match r {
                Some(ledger) => well_formed(views(entries@)) && ledger@ == views(entries@)
                    && ledger.wf(),
                None => !well_formed(views(entries@)),
            },
    {
        if Self::form_a_ledger(&entries) {
            Some(Ledger { entries })
        } else {
            None
        }
    }

    /// Tells whether the invariant of the ledger holds.
    pub fn is_well_formed(&self) -> (b: bool)
        ensures
            b == self.wf(),
    {
        Self::form_a_ledger(&self.entries)
    }

    fn form_a_ledger(entries: &Vec<ModlogEntry>) -> (b: bool)
        ensures
            b == well_formed(views(entries@)),
    {
        let ghost v = views(entries@);
        proof {
            lemma_well_formed_pairwise(v);
        }
        let n = entries.len();
        let mut j: usize = 0;
        while j < n
            invariant
                j <= n,
                n == entries.len(),
                v == views(entries@),
                forall|a: int| 0 <= a < j ==> plausible(#[trigger] v[a]),
                forall|a: int, b: int|
                    0 <= a < b < j ==> compatible(#[trigger] v[a], #[trigger] v[b]),
                well_formed(v) ==> (forall|a: int| 0 <= a < v.len() ==> plausible(#[trigger] v[a]))
                    && (forall|a: int, b: int|
                    0 <= a < b < v.len() ==> compatible(#[trigger] v[a], #[trigger] v[b])),
            decreases n - j,
        {
            let later = &entries[j];
            if later.active && !later.moderation_type.active_when_recorded() {
                assert(!plausible(v[j as int]));
                return false;
            }
            let mut i: usize = 0;
            while i < j
                invariant
                    i <= j,
                    j < n,
                    n == entries.len(),
                    v == views(entries@),
                    later == entries[j as int],
                    forall|a: int| 0 <= a < i ==> compatible(#[trigger] v[a], v[j as int]),
                    well_formed(v) ==> (forall|a: int, b: int|
                        0 <= a < b < v.len() ==> compatible(#[trigger] v[a], #[trigger] v[b])),
                decreases j - i,
            {
                if !Self::fits(&entries[i], later) {
                    assert(!compatible(v[i as int], v[j as int]));
                    return false;
                }
                i = i + 1;
            }
            j = j + 1;
        }
        true
    }

    /// Decodes stored rows, in this order, into a ledger.
    ///
    /// Where a row's tag names no kind, the result is `IntEnumError`; where the rows decode
    /// and do not form a ledger, `StorageError`.
    pub fn from_rows(rows: &Vec<ModerationRow>) -> (r: Result<Ledger, Error>)
        ensures
            match r {
                Ok(ledger) => rows_decode(rows@) && ledger@ == decoded_rows(rows@)
                    && ledger.wf(),
                Err(e) => if rows_decode(rows@) {
                    !well_formed(decoded_rows(rows@)) && e == Error::StorageError
                } else {
                    e == Error::IntEnumError
                },
            },
    {
        let mut entries: Vec<ModlogEntry> = Vec::new();
        let mut i: usize = 0;
        while i < rows.len()
            invariant
                i <= rows.len(),
                entries@.len() == i,
                forall|k: int|
                    0 <= k < i ==> (#[trigger] rows@[k]).decoded() == Some(entries@[k]),
            decreases rows.len() - i,
        {
            match ModlogEntry::from_row(&rows[i]) {
                Ok(entry) => {
                    entries.push(entry);
                },
                Err(e) => {
                    assert(rows@[i as int].decoded().is_none());
                    return Err(e);
                },
            }
            i = i + 1;
        }
        assert(views(entries@) =~= decoded_rows(rows@));
        match Self::from_entries(entries) {
            Some(ledger) => Ok(ledger),
            None => Err(Error::StorageError),
        }
    }

    /// The rows under which the entries are stored, oldest first.
    pub fn to_rows(&self) -> (rows: Vec<ModerationRow>)
        ensures
            rows_decode(rows@),
            decoded_rows(rows@) == self@,
    {
        let mut rows: Vec<ModerationRow> = Vec::new();
        let mut i: usize = 0;
        while i < self.entries.len()
            invariant
                i <= self.entries.len(),
                rows@.len() == i,
                forall|k: int|
                    0 <= k < i ==> (#[trigger] rows@[k]).decoded() == Some(self.entries@[k]),
            decreases self.entries.len() - i,
        {
            rows.push(self.entries[i].to_row());
            i = i + 1;
        }
        assert(decoded_rows(rows@) =~= self@);
        rows
    }
}

} // verus!
