//! The sweep that ends sanctions whose time is up.
//!
//! One sweep takes up every active entry whose expiry date has passed, has each of their
//! real-world effects undone, whether or not that succeeds, and then deactivates every entry
//! whose expiry date has passed. The caller carries out the actions and reports how each
//! went; what to do next is decided here.

use crate::database::Database;
use crate::error::Error;
use crate::model::{expired_sanctions, without_expired, ExpiredSanction};
use crate::settings::{settings_of, SettingsView};
use crate::types::{EntryView, ModerationType};
use vstd::prelude::*;

verus! {

/// An action on the platform that undoes the effect of an expired sanction.
#[derive(Debug, Clone, Copy, PartialEq, Eq, Structural)]
pub enum Compensation {
    /// Lift the ban of a user in a guild.
    Unban { guild_id: u64, user_id: u64 },
    /// Take the mute role of a guild away from a user.
    RemoveRole { guild_id: u64, user_id: u64, role_id: u64 },
}

/// What undoes an expired sanction: a ban is lifted; a mute loses its role, if the guild has
/// set one; a timeout ends by itself, and nothing else has anything to undo.
pub open spec fn compensation(
    item: ExpiredSanction,
    settings: Map<u64, SettingsView>,
) -> Option<Compensation> {
    match item.moderation_type {
        ModerationType::Ban => Some(
            Compensation::Unban { guild_id: item.guild_id, user_id: item.user_id },
        ),
        ModerationType::Mute => match settings_of(settings, item.guild_id).mute_role_id {
            Some(role_id) => Some(
                Compensation::RemoveRole {
                    guild_id: item.guild_id,
                    user_id: item.user_id,
                    role_id,
                },
            ),
            None => None,
        },
        _ => None,
    }
}

/// The actions that a sweep at time `now` asks for, in the order of the entries.
pub open spec fn sweep_plan(
    ledger: Seq<EntryView>,
    settings: Map<u64, SettingsView>,
    now: i64,
) -> Seq<Compensation> {
    expired_sanctions(ledger, now).filter_map(|item: ExpiredSanction| compensation(item, settings))
}

/// How a sweep went: how many actions were attempted and how many of them failed.
#[derive(Debug, Clone, Copy, PartialEq, Eq, Structural)]
pub struct SweepReport {
    pub attempted: usize,
    pub failed: usize,
}

impl SweepReport {
    /// The sweep as a result: an `EnforcementFailure` if an action failed.
    pub fn outcome(&self) -> (r: Result<(), Error>)
        ensures
            match r {
                Ok(_) => self.failed == 0,
                Err(e) => self.failed > 0 && e == Error::EnforcementFailure,
            },
    {
        if self.failed == 0 {
            Ok(())
        } else {
            Err(Error::EnforcementFailure)
        }
    }
}

/// A sweep under way, as a value of the model.
pub struct SweepView {
    pub now: i64,
    pub queue: Seq<Compensation>,
    pub done: nat,
    pub failed: nat,
}

/// A sweep under way: the time it runs for, its actions, how many of them were attempted,
/// and how many failed. One action, the next one, is always outstanding.
#[derive(Debug)]
pub struct Sweep {
    now: i64,
    queue: Vec<Compensation>,
    done: usize,
    failed: usize,
}

impl View for Sweep {
    type V = SweepView;

    closed spec fn view(&self) -> SweepView {
        SweepView {
            now: self.now,
            queue: self.queue@,
            done: self.done as nat,
            failed: self.failed as nat,
        }
    }
}

impl SweepView {
    /// An action is outstanding, and no more have failed than were attempted.
    pub open spec fn wf(self) -> bool {
        self.done < self.queue.len() && self.failed <= self.done
    }
}

impl Sweep {
    /// The invariant of a sweep under way.
    pub open spec fn wf(&self) -> bool {
        self@.wf()
    }

    /// Tells whether the invariant of the sweep holds.
    pub fn is_well_formed(&self) -> (b: bool)
        ensures
            b == self.wf(),
    {
        self.done < self.queue.len() && self.failed <= self.done
    }
}

/// What a sweep does next, as a value of the model.
pub enum StepView {
    Perform(SweepView, Compensation),
    Finished(SweepReport),
}

/// What a sweep does next.
#[derive(Debug)]
pub enum SweepStep {
    /// Carry out the action, then resume the sweep with how it went.
    Perform(Sweep, Compensation),
    /// The sweep is over and the expired entries are deactivated.
    Finished(SweepReport),
}

impl View for SweepStep {
    type V = StepView;

    open spec fn view(&self) -> StepView {
        match self {
            SweepStep::Perform(sweep, action) => StepView::Perform(sweep@, *action),
            SweepStep::Finished(report) => StepView::Finished(*report),
        }
    }
}

/// The first step of a sweep at time `now`, and the ledger after it. A sweep without
/// actions is over at once.
pub open spec fn begin(
    ledger: Seq<EntryView>,
    settings: Map<u64, SettingsView>,
    now: i64,
) -> (StepView, Seq<EntryView>) {
    let queue = sweep_plan(ledger, settings, now);
    if queue.len() == 0 {
        (StepView::Finished(SweepReport { attempted: 0, failed: 0 }), without_expired(ledger, now))
    } else {
        (StepView::Perform(SweepView { now, queue, done: 0, failed: 0 }, queue[0]), ledger)
    }
}

/// The step after the outstanding action was attempted, and the ledger after it. Failed or
/// not, the sweep goes on to its next action; after the last one it deactivates the entries
/// whose expiry date lies before its time.
pub open spec fn resume(ledger: Seq<EntryView>, sweep: SweepView, succeeded: bool) -> (
    StepView,
    Seq<EntryView>,
) {
    let done = sweep.done + 1;
    let failed = if succeeded {
        sweep.failed
    } else {
        sweep.failed + 1
    };
    if done < sweep.queue.len() {
        (
            StepView::Perform(SweepView { done, failed, ..sweep }, sweep.queue[done as int]),
            ledger,
        )
    } else {
        (
            StepView::Finished(SweepReport { attempted: done as usize, failed: failed as usize }),
            without_expired(ledger, sweep.now),
        )
    }
}

/// What undoes an expired sanction in this store, if anything does.
pub fn compensate(database: &Database, item: &ExpiredSanction) -> (action: Option<Compensation>)
    ensures
        action == compensation(*item, database.guild_settings@),
{
    match item.moderation_type {
        ModerationType::Ban => Some(
            Compensation::Unban { guild_id: item.guild_id, user_id: item.user_id },
        ),
        ModerationType::Mute => match crate::database::get_mute_role(database, item.guild_id) {
            Some(role_id) => Some(
                Compensation::RemoveRole {
                    guild_id: item.guild_id,
                    user_id: item.user_id,
                    role_id,
                },
            ),
            None => None,
        },
        _ => None,
    }
}

/// The actions that a sweep of this store at time `now` asks for.
pub fn plan_sweep(database: &Database, now: i64) -> (queue: Vec<Compensation>)
    ensures
        queue@ == sweep_plan(database.moderations@, database.guild_settings@, now),
{
    let items = database.moderations.find_expired_active(now);
    let ghost f = |item: ExpiredSanction| compensation(item, database.guild_settings@);
    let mut queue: Vec<Compensation> = Vec::new();
    let mut i: usize = 0;
    while i < items.len()
        invariant
            i <= items.len(),
            f == (|item: ExpiredSanction| compensation(item, database.guild_settings@)),
            queue@ == items@.take(i as int).filter_map(f),
        decreases items.len() - i,
    {
        proof {
            items@.lemma_filter_map_take_succ(f, i as int);
        }
        match compensate(database, &items[i]) {
            Some(action) => {
                queue.push(action);
                assert(queue@ =~= items@.take(i + 1).filter_map(f));
            },
            None => {
                assert(queue@ =~= items@.take(i + 1).filter_map(f));
            },
        }
        i = i + 1;
    }
    assert(items@.take(i as int) =~= items@);
    queue
}

/// Begins a sweep at time `now`.
///
/// Where an expired sanction has an effect to undo, the result is the first action to carry
/// out, and the store is unchanged. Where none has, the entries whose expiry date lies
/// before `now` are deactivated and the sweep is over.
pub fn begin_sweep(database: &mut Database, now: i64) -> (step: SweepStep)
    requires
        old(database).wf(),
    ensures
        final(database).wf(),
        final(database).guild_settings == old(database).guild_settings,
        (step@, final(database).moderations@) == begin(
            old(database).moderations@,
            old(database).guild_settings@,
            now,
        ),
        step matches SweepStep::Perform(sweep, _) ==> sweep.wf(),
{
    let queue = plan_sweep(database, now);
    if queue.len() == 0 {
        database.moderations.deactivate_all_expired(now);
        SweepStep::Finished(SweepReport { attempted: 0, failed: 0 })
    } else {
        let first = queue[0];
        SweepStep::Perform(Sweep { now, queue, done: 0, failed: 0 }, first)
    }
}

/// Resumes a sweep after its outstanding action was attempted.
///
/// Whether the action succeeded or failed, the sweep goes on: the result is its next action,
/// and the store is unchanged. After the last action the entries whose expiry date lies
/// before the time of the sweep are deactivated and the sweep is over.
pub fn resume_sweep(database: &mut Database, sweep: Sweep, succeeded: bool) -> (step: SweepStep)
    requires
        old(database).wf(),
        sweep.wf(),
    ensures
        final(database).wf(),
        final(database).guild_settings == old(database).guild_settings,
        (step@, final(database).moderations@) == resume(
            old(database).moderations@,
            sweep@,
            succeeded,
        ),
        step matches SweepStep::Perform(next, _) ==> next.wf(),
{
    let len = sweep.queue.len();
    let done: usize = sweep.done + 1;
    let failed: usize = if succeeded {
        sweep.failed
    } else {
        sweep.failed + 1
    };
    if done < len {
        let next = sweep.queue[done];
        SweepStep::Perform(Sweep { now: sweep.now, queue: sweep.queue, done, failed }, next)
    } else {
        database.moderations.deactivate_all_expired(sweep.now);
        SweepStep::Finished(SweepReport { attempted: done, failed })
    }
}

} // verus!
