//! The actions that reconcile one installation with another, and the plan
//! that lists them.

use crate::types::{ModInfo, ModInfoView};
use vstd::prelude::*;

verus! {

/// Where an action is carried out.
#[derive(Debug, Clone, Copy, PartialEq, Eq, Structural)]
pub enum SyncTarget {
    /// On the client.
    Client,
    /// On the server.
    Server,
}

/// One step that brings the target closer to the source.
#[derive(Debug, PartialEq)]
pub enum SyncAction {
    /// Replace a mod by another version of it.
    UpdateMod {
        /// Mod identifier.
        mod_id: String,
        /// Version the target has now.
        from_version: String,
        /// Version the target is to have.
        to_version: String,
        /// Archive the target has now.
        current_path: String,
        /// Archive that replaces it.
        new_path: String,
    },
    /// Add a mod that the target lacks.
    AddMod {
        /// The mod to add.
        mod_info: ModInfo,
        /// Where to add it.
        target: SyncTarget,
    },
    /// Remove a mod that the target should not have.
    RemoveMod {
        /// Mod identifier.
        mod_id: String,
        /// The mod to remove.
        mod_info: ModInfo,
        /// Where to remove it.
        target: SyncTarget,
    },
    /// Leave a mod as it is.
    KeepAsIs {
        /// Mod identifier.
        mod_id: String,
        /// Why nothing is done.
        reason: String,
    },
}

/// The mathematical content of a [`SyncAction`].
pub enum SyncActionView {
    UpdateMod {
        mod_id: Seq<char>,
        from_version: Seq<char>,
        to_version: Seq<char>,
        current_path: Seq<char>,
        new_path: Seq<char>,
    },
    AddMod { mod_info: ModInfoView, target: SyncTarget },
    RemoveMod { mod_id: Seq<char>, mod_info: ModInfoView, target: SyncTarget },
    KeepAsIs { mod_id: Seq<char>, reason: Seq<char> },
}

impl View for SyncAction {
    type V = SyncActionView;

    open spec fn view(&self) -> SyncActionView {
        match *self {
            SyncAction::UpdateMod { mod_id, from_version, to_version, current_path, new_path } => {
                SyncActionView::UpdateMod {
                    mod_id: mod_id@,
                    from_version: from_version@,
                    to_version: to_version@,
                    current_path: current_path@,
                    new_path: new_path@,
                }
            },
            SyncAction::AddMod { mod_info, target } => SyncActionView::AddMod {
                mod_info: mod_info@,
                target,
            },
            SyncAction::RemoveMod { mod_id, mod_info, target } => SyncActionView::RemoveMod {
                mod_id: mod_id@,
                mod_info: mod_info@,
                target,
            },
            SyncAction::KeepAsIs { mod_id, reason } => SyncActionView::KeepAsIs {
                mod_id: mod_id@,
                reason: reason@,
            },
        }
    }
}

impl Clone for SyncAction {
    fn clone(&self) -> (copy: Self)
        ensures
            copy@ == self@,
    {
        match self {
            SyncAction::UpdateMod { mod_id, from_version, to_version, current_path, new_path } => {
                SyncAction::UpdateMod {
                    mod_id: mod_id.clone(),
                    from_version: from_version.clone(),
                    to_version: to_version.clone(),
                    current_path: current_path.clone(),
                    new_path: new_path.clone(),
                }
            },
            SyncAction::AddMod { mod_info, target } => SyncAction::AddMod {
                mod_info: mod_info.clone(),
                target: *target,
            },
            SyncAction::RemoveMod { mod_id, mod_info, target } => SyncAction::RemoveMod {
                mod_id: mod_id.clone(),
                mod_info: mod_info.clone(),
                target: *target,
            },
            SyncAction::KeepAsIs { mod_id, reason } => SyncAction::KeepAsIs {
                mod_id: mod_id.clone(),
                reason: reason.clone(),
            },
        }
    }
}

/// The views of the actions in `actions`, in order.
pub open spec fn actions_view(actions: Seq<SyncAction>) -> Seq<SyncActionView> {
    actions.map_values(|a: SyncAction| a@)
}

/// How many actions of each kind a plan holds.
#[derive(Debug, Clone, Copy, PartialEq, Eq, Structural)]
pub struct SyncSummary {
    /// Number of mods to be updated.
    pub mods_to_update: usize,
    /// Number of mods to be added.
    pub mods_to_add: usize,
    /// Number of mods to be removed.
    pub mods_to_remove: usize,
    /// Number of mods to keep as they are.
    pub mods_to_keep: usize,
    /// Number of mods dealt with.
    pub total_mods: usize,
}

/// Selects the updates among actions.
pub open spec fn is_update() -> spec_fn(SyncActionView) -> bool {
    |a: SyncActionView| a is UpdateMod
}

/// Selects the additions among actions.
pub open spec fn is_add() -> spec_fn(SyncActionView) -> bool {
    |a: SyncActionView| a is AddMod
}

/// Selects the removals among actions.
pub open spec fn is_remove() -> spec_fn(SyncActionView) -> bool {
    |a: SyncActionView| a is RemoveMod
}

/// Selects the actions that keep a mod as it is.
pub open spec fn is_keep() -> spec_fn(SyncActionView) -> bool {
    |a: SyncActionView| a is KeepAsIs
}

/// Whether `summary` counts the actions in `actions`, kind by kind.
pub open spec fn summarizes(summary: SyncSummary, actions: Seq<SyncActionView>) -> bool {
    &&& summary.mods_to_update == actions.filter(is_update()).len()
    &&& summary.mods_to_add == actions.filter(is_add()).len()
    &&& summary.mods_to_remove == actions.filter(is_remove()).len()
    &&& summary.mods_to_keep == actions.filter(is_keep()).len()
    &&& summary.total_mods == actions.len()
}

/// The actions that bring a target in line with a source, in order, with
/// their summary.
#[derive(Debug, Clone, PartialEq)]
pub struct SyncPlan {
    /// The actions, in the order in which they are to be carried out.
    pub actions: Vec<SyncAction>,
    /// How many actions of each kind there are.
    pub summary: SyncSummary,
    /// Whether the two sides were compatible when the plan was made.
    pub will_be_compatible: bool,
}

/// The mathematical content of a [`SyncPlan`].
pub struct SyncPlanView {
    pub actions: Seq<SyncActionView>,
    pub summary: SyncSummary,
    pub will_be_compatible: bool,
}

impl View for SyncPlan {
    type V = SyncPlanView;

    open spec fn view(&self) -> SyncPlanView {
        SyncPlanView {
            actions: actions_view(self.actions@),
            summary: self.summary,
            will_be_compatible: self.will_be_compatible,
        }
    }
}

impl SyncPlan {
    /// A plan is well formed when its summary counts its actions.
    pub open spec fn wf(&self) -> bool {
        summarizes(self.summary, self@.actions)
    }

    /// An empty plan.
    pub fn new() -> (plan: Self)
        ensures
            plan.wf(),
            plan.counts_add_up(),
            plan@.actions == Seq::<SyncActionView>::empty(),
            plan@.will_be_compatible,
    {
        let plan = SyncPlan {
            actions: Vec::new(),
            summary: SyncSummary {
                mods_to_update: 0,
                mods_to_add: 0,
                mods_to_remove: 0,
                mods_to_keep: 0,
                total_mods: 0,
            },
            will_be_compatible: true,
        };
        proof {
            assert(plan@.actions =~= Seq::<SyncActionView>::empty());
            reveal(Seq::filter);
        }
        plan
    }

    /// Whether the total of the summary is the number of actions and the
    /// sum of the four counts.
    pub open spec fn counts_add_up(&self) -> bool {
        &&& self.summary.total_mods == self.actions@.len()
        &&& self.summary.total_mods == self.summary.mods_to_update + self.summary.mods_to_add
            + self.summary.mods_to_remove + self.summary.mods_to_keep
    }

    /// Appends `action` as the last action and counts it in the summary:
    /// the total and the count of the action's kind grow by one, and no
    /// other count changes.
    pub fn add_action(&mut self, action: SyncAction)
        requires
            old(self).counts_add_up(),
            old(self).actions.len() < usize::MAX,
        ensures
            final(self)@.actions == old(self)@.actions.push(action@),
            final(self)@.will_be_compatible == old(self)@.will_be_compatible,
            final(self).summary.total_mods == old(self).summary.total_mods + 1,
            final(self).summary.mods_to_update == old(self).summary.mods_to_update + (if action
                is UpdateMod {
                1int
            } else {
                0int
            }),
            final(self).summary.mods_to_add == old(self).summary.mods_to_add + (if action is AddMod {
                1int
            } else {
                0int
            }),
            final(self).summary.mods_to_remove == old(self).summary.mods_to_remove + (if action
                is RemoveMod {
                1int
            } else {
                0int
            }),
            final(self).summary.mods_to_keep == old(self).summary.mods_to_keep + (if action
                is KeepAsIs {
                1int
            } else {
                0int
            }),
            final(self).counts_add_up(),
            old(self).wf() ==> final(self).wf(),
    {
        proof {
            let before = self@.actions;
            before.lemma_filter_push(action@, is_update());
            before.lemma_filter_push(action@, is_add());
            before.lemma_filter_push(action@, is_remove());
            before.lemma_filter_push(action@, is_keep());
        }
        match &action {
            SyncAction::UpdateMod { .. } => {
                self.summary.mods_to_update += 1;
            },
            SyncAction::AddMod { .. } => {
                self.summary.mods_to_add += 1;
            },
            SyncAction::RemoveMod { .. } => {
                self.summary.mods_to_remove += 1;
            },
            SyncAction::KeepAsIs { .. } => {
                self.summary.mods_to_keep += 1;
            },
        }
        self.summary.total_mods += 1;
        self.actions.push(action);
        assert(self@.actions =~= old(self)@.actions.push(action@));
    }

    /// Whether the plan changes anything on the target.
    pub fn has_changes(&self) -> (changes: bool)
        ensures
            changes == (self.summary.mods_to_update > 0 || self.summary.mods_to_add > 0
                || self.summary.mods_to_remove > 0),
            self.wf() ==> changes == exists|i: int|
                0 <= i < self@.actions.len() && !(#[trigger] self@.actions[i] is KeepAsIs),
    {
        proof {
            if self.wf() {
                lemma_kinds_partition(self@.actions);
                let actions = self@.actions;
                if exists|i: int| 0 <= i < actions.len() && !(#[trigger] actions[i] is KeepAsIs) {
                    let i = choose|i: int|
                        0 <= i < actions.len() && !(#[trigger] actions[i] is KeepAsIs);
                    if actions[i] is UpdateMod {
                        actions.lemma_filter_contains(is_update(), i);
                    } else if actions[i] is AddMod {
                        actions.lemma_filter_contains(is_add(), i);
                    } else {
                        actions.lemma_filter_contains(is_remove(), i);
                    }
                } else {
                    lemma_all_keep(actions);
                }
            }
        }
        self.summary.mods_to_update > 0 || self.summary.mods_to_add > 0
            || self.summary.mods_to_remove > 0
    }
}

/// Every action is of exactly one kind: the four counts of a list of
/// actions add up to its length.
pub proof fn lemma_kinds_partition(actions: Seq<SyncActionView>)
    ensures
        actions.filter(is_update()).len() + actions.filter(is_add()).len() + actions.filter(
            is_remove(),
        ).len() + actions.filter(is_keep()).len() == actions.len(),
    decreases actions.len(),
{
    reveal(Seq::filter);
    if actions.len() > 0 {
        lemma_kinds_partition(actions.drop_last());
    }
}

/// A list of actions that only keeps mods has no update, addition or removal.
proof fn lemma_all_keep(actions: Seq<SyncActionView>)
    requires
        forall|i: int| 0 <= i < actions.len() ==> #[trigger] actions[i] is KeepAsIs,
    ensures
        actions.filter(is_update()).len() == 0,
        actions.filter(is_add()).len() == 0,
        actions.filter(is_remove()).len() == 0,
    decreases actions.len(),
{
    reveal(Seq::filter);
    if actions.len() > 0 {
        lemma_all_keep(actions.drop_last());
    }
}

/// In a well-formed plan the total of the summary is the number of actions
/// and the sum of the four counts.
pub proof fn lemma_summary_counts_actions(plan: SyncPlan)
    requires
        plan.wf(),
    ensures
        plan.summary.total_mods == plan.actions.len(),
        plan.summary.total_mods == plan.summary.mods_to_update + plan.summary.mods_to_add
            + plan.summary.mods_to_remove + plan.summary.mods_to_keep,
{
    lemma_kinds_partition(plan@.actions);
}

} // verus!
