//! How a build command repairs what expired in the content store, round by round.
//!
//! An action that fails because an input is gone from the store arms the action that
//! made the input. Running that one again takes a new round of the build, and one
//! round reaches one layer of a dependency chain only: what is gone further down
//! stays hidden behind the failure above it. So a command builds, repairs and builds
//! again, until the build works or nothing more can be repaired.
use vstd::prelude::*;
use vstd::string::*;

use crate::calculation::BuildKey;
use crate::cas_missing_recovery::{
    action_names, eligible, invalidates_eligible, is_eligible, stage_cas_recovery_round,
    ActionKeySet, ActionName, BatchState, CasMissingRecoveryConfig, CasMissingRecoveryRegistry,
    CasRecoveryBatch, RecoveryStates,
};
use crate::text::{decimal, decimal_text};

verus! {

/// What a finished round says about the one that should follow.
#[derive(Clone, Copy, Debug, PartialEq, Eq, Structural)]
pub enum CasRecoveryStep {
    /// Hand the result of the build back: it worked, or nothing can repair it.
    Finish,
    /// Hand the result of the build back, and say that the rounds were used up first.
    ReportBudgetSpent,
    /// Invalidate what is armed and build again.
    StageAnotherRound,
}

/// What a finished round leaves to decide by.
#[derive(Clone, Copy, Debug, PartialEq, Eq, Structural)]
pub struct CasRecoveryRoundResult {
    /// The build of this round failed.
    pub build_failed: bool,
    /// A failure over something missing arms the actions that made it.
    pub recovery_enabled: bool,
    /// Some action is armed and has attempts left.
    pub anything_armed: bool,
    /// None of the actions that the round staged went on to run again.
    pub repaired_nothing: bool,
    /// Some armed action was not staged by this round. A failure further down the
    /// chain shows here, which tells a build that has more to repair from one that
    /// spins on actions it does not depend on.
    pub armed_beyond_staged: bool,
    /// How many further rounds the command may stage.
    pub rounds_left: u32,
}

impl CasRecoveryRoundResult {
    /// Another round could repair something: the build fails, something is armed,
    /// and the last round got somewhere or uncovered something new.
    pub open spec fn is_repairable(self) -> bool {
        &&& self.build_failed
        &&& self.recovery_enabled
        &&& self.anything_armed
        &&& !self.repaired_nothing || self.armed_beyond_staged
    }

    /// What should follow.
    pub open spec fn next_step(self) -> CasRecoveryStep {
        if !self.is_repairable() {
            CasRecoveryStep::Finish
        } else if self.rounds_left == 0 {
            CasRecoveryStep::ReportBudgetSpent
        } else {
            CasRecoveryStep::StageAnotherRound
        }
    }
}

/// Decides whether a command repairs again after a round.
///
/// That is worth while only as long as the build fails, something is armed that may
/// run again, and the last round either got somewhere or uncovered an action that no
/// round has staged. A round that staged actions, repaired none of them and armed
/// nothing new would stage the same actions to the same effect.
pub fn next_cas_recovery_step(round: CasRecoveryRoundResult) -> (step: CasRecoveryStep)
    ensures
        step == round.next_step(),
{
    if !round.build_failed || !round.recovery_enabled || !round.anything_armed {
        return CasRecoveryStep::Finish;
    }
    if round.repaired_nothing && !round.armed_beyond_staged {
        return CasRecoveryStep::Finish;
    }
    if round.rounds_left == 0 {
        return CasRecoveryStep::ReportBudgetSpent;
    }
    CasRecoveryStep::StageAnotherRound
}

/// What a command does after a round.
#[derive(Debug)]
pub enum RoundOutcome {
    /// Show the message, if there is one, and hand the result of the build back.
    Finish { parting_message: Option<String> },
    /// Commit what was invalidated, show the message and build again.
    Rebuild { message: String },
}

/// What is shown when the rounds are used up.
pub open spec fn budget_spent_message(max_rounds: nat) -> Seq<char> {
    "Stopping after "@ + decimal(max_rounds)
        + " repair round(s) for artifacts that expired in the RE CAS. Set `buck2.cas_missing_recovery_max_rounds` higher to work through a deeper chain."@
}

/// What is shown when invalidating failed.
pub open spec fn cannot_rerun_message(error: Seq<char>) -> Seq<char> {
    "Cannot re-run the actions whose output expired in the RE CAS: "@ + error
}

/// What is shown when `count` actions are about to run again.
pub open spec fn rerun_message(count: nat) -> Seq<char> {
    if count == 1 {
        "Re-running 1 action whose output expired in the RE CAS, then rebuilding everything that depends on it."@
    } else {
        "Re-running "@ + decimal(count)
            + " actions whose output expired in the RE CAS, then rebuilding everything that depends on them."@
    }
}

fn budget_spent_text(max_rounds: u32) -> (text: String)
    ensures
        text@ == budget_spent_message(max_rounds as nat),
{
    let mut text = "Stopping after ".to_string();
    text.append(decimal_text(max_rounds as u64).as_str());
    text.append(
        " repair round(s) for artifacts that expired in the RE CAS. Set `buck2.cas_missing_recovery_max_rounds` higher to work through a deeper chain.",
    );
    text
}

fn cannot_rerun_text(error: &String) -> (text: String)
    ensures
        text@ == cannot_rerun_message(error@),
{
    let mut text = "Cannot re-run the actions whose output expired in the RE CAS: ".to_string();
    text.append(error.as_str());
    text
}

fn rerun_text(count: usize) -> (text: String)
    ensures
        text@ == rerun_message(count as nat),
{
    if count == 1 {
        "Re-running 1 action whose output expired in the RE CAS, then rebuilding everything that depends on it.".to_string()
    } else {
        let mut text = "Re-running ".to_string();
        text.append(decimal_text(count as u64).as_str());
        text.append(
            " actions whose output expired in the RE CAS, then rebuilding everything that depends on them.",
        );
        text
    }
}

/// The rounds of one command.
#[derive(Debug)]
pub struct CasRecoveryRounds {
    pub recovery: CasMissingRecoveryConfig,
    pub recovery_enabled: bool,
    /// How many further rounds may be staged.
    pub rounds_left: u32,
    /// The actions that the running round staged.
    pub staged: ActionKeySet,
    /// How many repairs had been charged when the running round began.
    pub repairs_before: u64,
}

impl CasRecoveryRounds {
    /// What the running round comes to.
    pub open spec fn round_result(
        self,
        build_failed: bool,
        states: RecoveryStates,
        batch: BatchState,
    ) -> CasRecoveryRoundResult {
        let armed = eligible(states, self.recovery.max_action_attempts);
        CasRecoveryRoundResult {
            build_failed,
            recovery_enabled: self.recovery_enabled,
            anything_armed: armed != Set::<ActionName>::empty(),
            repaired_nothing: batch.repairs_charged == self.repairs_before,
            armed_beyond_staged: !armed.subset_of(self.staged@),
            rounds_left: self.rounds_left,
        }
    }

    /// `self` is what `before` became when another round was staged, with `batch`
    /// for what that round runs again.
    pub open spec fn staged_another(self, before: CasRecoveryRounds, batch: BatchState) -> bool {
        &&& self.recovery == before.recovery
        &&& self.recovery_enabled == before.recovery_enabled
        &&& self.rounds_left == before.rounds_left - 1
        &&& self.staged@ == batch.keys
        &&& self.repairs_before == batch.repairs_charged
    }

    /// How a round ends: from `self` and `batch`, with `next` and `next_batch` for the
    /// round that follows, if one does.
    pub open spec fn ends_round<F: FnOnce(Vec<BuildKey>) -> Result<(), String>>(
        self,
        build_failed: bool,
        states: RecoveryStates,
        changed: F,
        batch: BatchState,
        next: CasRecoveryRounds,
        next_batch: BatchState,
        outcome: RoundOutcome,
    ) -> bool {
        let step = self.round_result(build_failed, states, batch).next_step();
        let max_attempts = self.recovery.max_action_attempts;
        let armed = eligible(states, max_attempts);
        match outcome {
            RoundOutcome::Finish { parting_message: None } => {
                &&& step is Finish
                &&& next_batch == batch
                &&& next == self
            },
            RoundOutcome::Finish { parting_message: Some(message) } => {
                &&& next == self
                &&& if step is ReportBudgetSpent {
                    &&& next_batch == batch
                    &&& message@ == budget_spent_message(
                        self.recovery.max_rounds as nat,
                    )
                } else {
                    &&& step is StageAnotherRound
                    &&& next_batch == (BatchState { keys: Set::empty(), ..batch })
                    &&& exists|error: String|
                        #[trigger] invalidates_eligible(
                            states,
                            max_attempts,
                            changed,
                            Err::<(), String>(error),
                        ) && message@ == cannot_rerun_message(error@)
                }
            },
            RoundOutcome::Rebuild { message } => {
                &&& step is StageAnotherRound
                &&& invalidates_eligible(
                    states,
                    max_attempts,
                    changed,
                    Ok::<(), String>(()),
                )
                &&& next_batch == (BatchState { keys: armed, ..batch })
                &&& armed.finite()
                &&& armed.len() > 0
                &&& message@ == rerun_message(armed.len())
                &&& next.staged_another(self, next_batch)
            },
        }
    }

    /// The rounds of a command that is about to build for the first time.
    pub fn new(
        recovery: CasMissingRecoveryConfig,
        recovery_enabled: bool,
        batch: &CasRecoveryBatch,
    ) -> (rounds: Self)
        ensures
            rounds.recovery == recovery,
            rounds.recovery_enabled == recovery_enabled,
            rounds.rounds_left == recovery.max_rounds,
            rounds.staged@ == batch@.keys,
            rounds.repairs_before == batch@.repairs_charged,
    {
        CasRecoveryRounds {
            recovery,
            recovery_enabled,
            rounds_left: recovery.max_rounds,
            staged: batch.staged(),
            repairs_before: batch.repairs_charged(),
        }
    }

    /// Takes in how the build of a round ended, and says how to go on.
    ///
    /// `changed` invalidates computations, and comes to what its error says where it
    /// cannot. Every later round would fail for the same reason, so that ends the
    /// rounds. It is called only where another round is staged.
    pub fn after_round<F: FnOnce(Vec<BuildKey>) -> Result<(), String>>(
        &mut self,
        build_failed: bool,
        registry: &CasMissingRecoveryRegistry,
        batch: &mut CasRecoveryBatch,
        changed: F,
    ) -> (outcome: RoundOutcome)
        requires
            old(self).round_result(build_failed, registry@, old(batch)@).next_step()
                is StageAnotherRound && eligible(
                registry@,
                old(self).recovery.max_action_attempts,
            ) != Set::<ActionName>::empty() ==> forall|build_keys: Vec<BuildKey>|
                #[trigger] call_requires(changed, (build_keys,)),
        ensures
            old(self).ends_round(
                build_failed,
                registry@,
                changed,
                old(batch)@,
                *final(self),
                final(batch)@,
                outcome,
            ),
    {
        let max_attempts = self.recovery.max_action_attempts;
        let armed = registry.keys_eligible_for_recovery(max_attempts);
        let ghost names = action_names(armed@);
        let mut armed_beyond_staged = false;
        let mut i: usize = 0;
        while i < armed.len()
            invariant
                i <= armed@.len(),
                names == action_names(armed@),
                armed_beyond_staged == exists|k: int|
                    0 <= k < i && !self.staged@.contains(#[trigger] names[k]),
            decreases armed@.len() - i,
        {
            assert(names[i as int] == armed@[i as int]@);
            if !self.staged.contains(&armed[i]) {
                armed_beyond_staged = true;
            }
            i = i + 1;
        }
        let round = CasRecoveryRoundResult {
            build_failed,
            recovery_enabled: self.recovery_enabled,
            anything_armed: armed.len() > 0,
            repaired_nothing: batch.repairs_charged() == self.repairs_before,
            armed_beyond_staged,
            rounds_left: self.rounds_left,
        };
        proof {
            let all = eligible(registry@, max_attempts);
            assert forall|key: ActionName| all.contains(key) == names.contains(key) by {
                assert(names.contains(key) <==> is_eligible(registry@, key, max_attempts));
            }
            if armed@.len() > 0 {
                assert(names.contains(names[0]));
                assert(all.contains(names[0]));
            } else {
                assert(all =~= Set::empty());
            }
            if armed_beyond_staged {
                let k = choose|k: int|
                    0 <= k < names.len() && !self.staged@.contains(#[trigger] names[k]);
                assert(names.contains(names[k]));
                assert(all.contains(names[k]));
            } else {
                assert(all.subset_of(self.staged@));
            }
            assert(round == self.round_result(build_failed, registry@, batch@));
        }
        match next_cas_recovery_step(round) {
            CasRecoveryStep::Finish => {
                return RoundOutcome::Finish { parting_message: None };
            },
            CasRecoveryStep::ReportBudgetSpent => {
                return RoundOutcome::Finish {
                    parting_message: Some(budget_spent_text(self.recovery.max_rounds)),
                };
            },
            CasRecoveryStep::StageAnotherRound => {},
        }
        match stage_cas_recovery_round(registry, max_attempts, batch, changed) {
            Err(error) => RoundOutcome::Finish { parting_message: Some(cannot_rerun_text(&error)) },
            Ok(staged_now) => {
                proof {
                    if staged_now == 0 {
                        batch@.keys.lemma_len0_is_empty();
                    }
                }
                self.rounds_left = self.rounds_left - 1;
                self.staged = batch.staged();
                self.repairs_before = batch.repairs_charged();
                RoundOutcome::Rebuild { message: rerun_text(staged_now) }
            },
        }
    }
}

/// A command builds once and then at most once for every round it may stage: however
/// its rounds end, there are no more of them.
pub proof fn rounds_are_bounded(history: Seq<CasRecoveryRounds>, batches: Seq<BatchState>)
    requires
        history.len() > 0,
        batches.len() == history.len(),
        history[0].rounds_left == history[0].recovery.max_rounds,
        forall|i: int|
            #![trigger history[i]]
            0 < i < history.len() ==> history[i].staged_another(history[i - 1], batches[i]),
    ensures
        history.last().rounds_left == history[0].recovery.max_rounds - (history.len() - 1),
        history.len() - 1 <= history[0].recovery.max_rounds,
    decreases history.len(),
{
    if history.len() > 1 {
        let earlier = history.drop_last();
        assert(earlier[0] == history[0]);
        assert forall|i: int|
            #![trigger earlier[i]]
            0 < i < earlier.len() implies earlier[i].staged_another(
            earlier[i - 1],
            batches.drop_last()[i],
        ) by {
            assert(history[i].staged_another(history[i - 1], batches[i]));
        }
        rounds_are_bounded(earlier, batches.drop_last());
        assert(earlier.last() == history[history.len() - 2]);
        let last = history.len() - 1;
        assert(history[last].staged_another(history[last - 1], batches[last]));
    }
}

/// A round that staged what is armed and repaired none of it is the last one, unless
/// a failure arms something that it did not stage.
pub proof fn a_round_without_progress_is_the_last(
    rounds: CasRecoveryRounds,
    build_failed: bool,
    states: RecoveryStates,
    batch: BatchState,
)
    requires
        batch.repairs_charged == rounds.repairs_before,
        eligible(states, rounds.recovery.max_action_attempts).subset_of(rounds.staged@),
    ensures
        rounds.round_result(build_failed, states, batch).next_step() is Finish,
{
}

/// The message about spent rounds is kept for failures that a round could have
/// repaired.
pub proof fn only_repairable_failures_blame_the_budget(round: CasRecoveryRoundResult)
    requires
        !(round.next_step() is Finish),
    ensures
        round.build_failed,
        round.recovery_enabled,
        round.anything_armed,
        round.next_step() is ReportBudgetSpent <==> round.rounds_left == 0,
{
}

/// Another round is staged exactly where the build failed, recovery is on, some action
/// is armed with attempts left, the round repaired something or such an action was not
/// staged by it, and rounds are left. Where only the rounds are lacking, that is
/// reported; everything else ends the rounds in silence.
pub proof fn rounds_go_on_while_something_can_be_repaired(
    rounds: CasRecoveryRounds,
    build_failed: bool,
    states: RecoveryStates,
    batch: BatchState,
)
    ensures
        ({
            let max = rounds.recovery.max_action_attempts;
            let step = rounds.round_result(build_failed, states, batch).next_step();
            let armed = exists|key: ActionName|
                #![trigger states.contains_key(key)]
                states.contains_key(key) && states[key].armed && states[key].attempts < max;
            let uncovered = exists|key: ActionName|
                #![trigger states.contains_key(key)]
                states.contains_key(key) && states[key].armed && states[key].attempts < max
                    && !rounds.staged@.contains(key);
            let progress = batch.repairs_charged != rounds.repairs_before || uncovered;
            let repairable = build_failed && rounds.recovery_enabled && armed && progress;
            &&& step is StageAnotherRound <==> repairable && rounds.rounds_left > 0
            &&& step is ReportBudgetSpent <==> repairable && rounds.rounds_left == 0
            &&& step is Finish <==> !repairable
        }),
{
    let max = rounds.recovery.max_action_attempts;
    let all = eligible(states, max);
    if all == Set::<ActionName>::empty() {
        assert forall|key: ActionName| #[trigger] states.contains_key(key) implies !(
        states[key].armed && states[key].attempts < max) by {
            assert(!all.contains(key));
        }
    } else {
        if forall|key: ActionName| #[trigger] states.contains_key(key) ==> !(states[key].armed
            && states[key].attempts < max) {
            assert(all =~= Set::empty());
        }
    }
    if all.subset_of(rounds.staged@) {
        assert forall|key: ActionName| #[trigger] states.contains_key(key) implies !(
        states[key].armed && states[key].attempts < max && !rounds.staged@.contains(key)) by {
            assert(all.contains(key) ==> rounds.staged@.contains(key));
        }
    } else {
        let key = choose|key: ActionName| all.contains(key) && !rounds.staged@.contains(key);
        assert(states.contains_key(key));
    }
}

/// A failed build whose last round repaired something is built again as long as rounds
/// are left and something is armed, whether or not anything new was armed.
pub proof fn progress_earns_another_round(
    rounds: CasRecoveryRounds,
    states: RecoveryStates,
    batch: BatchState,
)
    requires
        rounds.recovery_enabled,
        eligible(states, rounds.recovery.max_action_attempts) != Set::<ActionName>::empty(),
        batch.repairs_charged != rounds.repairs_before,
        rounds.rounds_left > 0,
    ensures
        rounds.round_result(true, states, batch).next_step() is StageAnotherRound,
{
}

/// A build that worked is never built again, and neither is one with recovery off.
pub proof fn working_builds_are_final(
    rounds: CasRecoveryRounds,
    build_failed: bool,
    states: RecoveryStates,
    batch: BatchState,
)
    requires
        !build_failed || !rounds.recovery_enabled,
    ensures
        rounds.round_result(build_failed, states, batch).next_step() is Finish,
{
}

/// A build is started again with every action staged that is armed and has attempts
/// left, and with no other. That takes one round off, remembers what was staged and how
/// many repairs there were, and says how many actions run again.
pub proof fn rebuilds_stage_what_is_armed<F: FnOnce(Vec<BuildKey>) -> Result<(), String>>(
    rounds: CasRecoveryRounds,
    build_failed: bool,
    states: RecoveryStates,
    changed: F,
    batch: BatchState,
    next: CasRecoveryRounds,
    next_batch: BatchState,
    outcome: RoundOutcome,
    key: ActionName,
)
    requires
        rounds.ends_round(build_failed, states, changed, batch, next, next_batch, outcome),
        outcome is Rebuild,
    ensures
        build_failed,
        rounds.recovery_enabled,
        rounds.rounds_left > 0,
        next.rounds_left == rounds.rounds_left - 1,
        next.recovery == rounds.recovery,
        next.recovery_enabled == rounds.recovery_enabled,
        next_batch.keys.contains(key) <==> states.contains_key(key) && states[key].armed
            && states[key].attempts < rounds.recovery.max_action_attempts,
        next.staged@ == next_batch.keys,
        next_batch.repairs_charged == batch.repairs_charged,
        next.repairs_before == batch.repairs_charged,
        next_batch.keys.len() == 1 ==> outcome->message@
            == "Re-running 1 action whose output expired in the RE CAS, then rebuilding everything that depends on it."@,
        next_batch.keys.len() != 1 ==> outcome->message@ == "Re-running "@ + decimal(
            next_batch.keys.len(),
        )
            + " actions whose output expired in the RE CAS, then rebuilding everything that depends on them."@,
        next_batch.keys.len() > 0,
{
}

/// Where a command does not build again, its rounds stay as they are; it parts with a
/// message exactly where rounds are lacking, or where invalidating failed, and then
/// nothing is staged.
pub proof fn finished_rounds_stay_as_they_are<F: FnOnce(Vec<BuildKey>) -> Result<(), String>>(
    rounds: CasRecoveryRounds,
    build_failed: bool,
    states: RecoveryStates,
    changed: F,
    batch: BatchState,
    next: CasRecoveryRounds,
    next_batch: BatchState,
    outcome: RoundOutcome,
)
    requires
        rounds.ends_round(build_failed, states, changed, batch, next, next_batch, outcome),
        outcome is Finish,
    ensures
        next == rounds,
        next_batch.repairs_charged == batch.repairs_charged,
        outcome->parting_message is None || rounds.rounds_left == 0 ==> next_batch == batch,
        outcome->parting_message matches Some(message) ==> {
            &&& build_failed
            &&& rounds.recovery_enabled
            &&& rounds.rounds_left == 0 ==> message@ == "Stopping after "@ + decimal(
                rounds.recovery.max_rounds as nat,
            )
                + " repair round(s) for artifacts that expired in the RE CAS. Set `buck2.cas_missing_recovery_max_rounds` higher to work through a deeper chain."@
            &&& rounds.rounds_left > 0 ==> next_batch.keys == Set::<ActionName>::empty()
                && exists|error: String|
                message@ == "Cannot re-run the actions whose output expired in the RE CAS: "@
                    + #[trigger] error@
        },
        outcome->parting_message is None ==> !(build_failed && rounds.recovery_enabled && (
        batch.repairs_charged != rounds.repairs_before || exists|key: ActionName|
            #![trigger states.contains_key(key)]
            states.contains_key(key) && states[key].armed && states[key].attempts
                < rounds.recovery.max_action_attempts && !rounds.staged@.contains(key))
            && exists|key: ActionName|
            #![trigger states.contains_key(key)]
            states.contains_key(key) && states[key].armed && states[key].attempts
                < rounds.recovery.max_action_attempts),
{
    rounds_go_on_while_something_can_be_repaired(rounds, build_failed, states, batch);
}

/// A command that got as far as staging another round asked to have what is eligible
/// invalidated. It builds again where that worked, and parts with the failure where it
/// did not.
pub proof fn rebuilds_follow_an_invalidation<F: FnOnce(Vec<BuildKey>) -> Result<(), String>>(
    rounds: CasRecoveryRounds,
    build_failed: bool,
    states: RecoveryStates,
    changed: F,
    batch: BatchState,
    next: CasRecoveryRounds,
    next_batch: BatchState,
    outcome: RoundOutcome,
) -> (answer: Result<(), String>)
    requires
        rounds.ends_round(build_failed, states, changed, batch, next, next_batch, outcome),
        outcome is Rebuild || outcome->parting_message is Some && rounds.rounds_left > 0,
    ensures
        invalidates_eligible(states, rounds.recovery.max_action_attempts, changed, answer),
        answer is Ok <==> outcome is Rebuild,
        outcome matches RoundOutcome::Finish { parting_message: Some(message) } ==> message@
            == "Cannot re-run the actions whose output expired in the RE CAS: "@
            + answer->Err_0@,
{
    let max = rounds.recovery.max_action_attempts;
    if outcome is Rebuild {
        Ok::<(), String>(())
    } else {
        let message = outcome->parting_message->0;
        Err::<(), String>(
            choose|error: String|
                #[trigger] invalidates_eligible(states, max, changed, Err::<(), String>(error))
                    && message@ == cannot_rerun_message(error@),
        )
    }
}

/// A command starts with all of its rounds, what its batch holds as staged, and the
/// repairs that were charged so far as the mark to tell progress by.
pub proof fn commands_start_with_all_rounds(
    recovery: CasMissingRecoveryConfig,
    recovery_enabled: bool,
    batch: CasRecoveryBatch,
    rounds: CasRecoveryRounds,
)
    requires
        call_ensures(CasRecoveryRounds::new, (recovery, recovery_enabled, &batch), rounds),
    ensures
        rounds.rounds_left == recovery.max_rounds,
        rounds.recovery == recovery,
        rounds.recovery_enabled == recovery_enabled,
        rounds.staged@ == batch@.keys,
        rounds.repairs_before == batch@.repairs_charged,
{
}

} // verus!
