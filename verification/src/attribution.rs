//! Finding the actions that produced digests which went missing, and arming them.
use vstd::prelude::*;
use vstd::string::*;

use crate::cas_missing_recovery::{
    action_names, after_missing, after_repair, is_armed, ActionKey, ActionName, BatchState,
    CasMissingRecoveryRegistry, CasRecoveryBatch, RecoveryStates, UserComputationData,
};
use crate::keyed::{Key, KeyedMap};
use crate::missing_cas_digests::{
    contexts_stand_in_front, missing_digests_survive_wrapping, BuildError, ErrorContext,
    MissingCasDigests,
};
use crate::text::{decimal, decimal_text};

verus! {

impl Key for String {
    fn same_key(&self, other: &Self) -> (same: bool) {
        *self == *other
    }
}

/// What stands under a path of an artifact.
#[derive(Debug)]
pub enum ArtifactEntry {
    /// A file, by its digest.
    File(String),
    /// A symlink; it has no digest of its own.
    Symlink,
    /// A directory with its entries by name.
    Directory(Vec<(String, ArtifactEntry)>),
}

/// The digests of the files in an entry.
pub open spec fn file_digests(entry: ArtifactEntry) -> Set<Seq<char>>
    decreases entry, 0nat,
{
    match entry {
        ArtifactEntry::File(digest) => set![digest@],
        ArtifactEntry::Symlink => Set::empty(),
        ArtifactEntry::Directory(children) => tree_digests(children@, children@.len()),
    }
}

/// The digests of the files in the first `n` entries of a directory.
pub open spec fn tree_digests(children: Seq<(String, ArtifactEntry)>, n: nat) -> Set<Seq<char>>
    decreases children, n,
{
    if n == 0 || n > children.len() {
        Set::empty()
    } else {
        tree_digests(children, (n - 1) as nat).union(file_digests(children[n - 1].1))
    }
}

/// What an action left under one of its outputs.
#[derive(Debug)]
pub struct ArtifactValue {
    /// The digest of the whole; a symlink has none.
    pub digest: Option<String>,
    /// The short form of the digest, as logs show it.
    pub tiny_digest: Option<String>,
    pub entry: ArtifactEntry,
}

impl ArtifactValue {
    /// Every digest that can be reached from the value: its own and those of the files
    /// in it.
    pub open spec fn digests(self) -> Set<Seq<char>> {
        match self.digest {
            Some(digest) => file_digests(self.entry).insert(digest@),
            None => file_digests(self.entry),
        }
    }
}

/// Where an input comes from.
#[derive(Debug)]
pub struct InputArtifact {
    /// The action that produced it; none for a source file.
    pub action_key: Option<ActionKey>,
}

/// The values of one group of an action's inputs.
#[derive(Debug)]
pub struct ArtifactGroupValues {
    pub values: Vec<(InputArtifact, ArtifactValue)>,
}

/// Which action produced a digest.
pub type DigestIndex = Map<Seq<char>, ActionKey>;

/// `index` with `key` for those of `digests` that it does not know yet.
pub open spec fn with_digests(
    index: DigestIndex,
    digests: Set<Seq<char>>,
    key: ActionKey,
) -> DigestIndex {
    Map::new(
        |digest: Seq<char>| index.contains_key(digest) || digests.contains(digest),
        |digest: Seq<char>|
            if index.contains_key(digest) {
                index[digest]
            } else {
                key
            },
    )
}

/// `index` with what is known of one input.
pub open spec fn with_input(
    index: DigestIndex,
    input: (InputArtifact, ArtifactValue),
) -> DigestIndex {
    match input.0.action_key {
        Some(key) => with_digests(index, input.1.digests(), key),
        None => index,
    }
}

/// `index` with what is known of the first `n` inputs of a group.
pub open spec fn with_inputs(
    index: DigestIndex,
    inputs: Seq<(InputArtifact, ArtifactValue)>,
    n: nat,
) -> DigestIndex
    decreases n,
{
    if n == 0 {
        index
    } else {
        with_input(with_inputs(index, inputs, (n - 1) as nat), inputs[n - 1])
    }
}

/// Which action produced a digest, by the first `n` groups of an action's inputs.
pub open spec fn digest_index(groups: Seq<ArtifactGroupValues>, n: nat) -> DigestIndex
    decreases n,
{
    if n == 0 {
        Map::empty()
    } else {
        with_inputs(
            digest_index(groups, (n - 1) as nat),
            groups[n - 1].values@,
            groups[n - 1].values@.len(),
        )
    }
}

fn index_digest(digest: &String, action_key: &ActionKey, index: &mut KeyedMap<String, ActionKey>)
    ensures
        final(index)@ == with_digests(old(index)@, set![digest@], *action_key),
{
    index.insert_new(digest.clone(), action_key.clone());
    assert(index@ =~= with_digests(old(index)@, set![digest@], *action_key));
}

proof fn with_digests_twice(
    index: DigestIndex,
    first: Set<Seq<char>>,
    second: Set<Seq<char>>,
    key: ActionKey,
)
    ensures
        with_digests(with_digests(index, first, key), second, key) == with_digests(
            index,
            first.union(second),
            key,
        ),
{
    assert(with_digests(with_digests(index, first, key), second, key) =~= with_digests(
        index,
        first.union(second),
        key,
    ));
}

fn index_entry(
    entry: &ArtifactEntry,
    action_key: &ActionKey,
    index: &mut KeyedMap<String, ActionKey>,
)
    ensures
        final(index)@ == with_digests(old(index)@, file_digests(*entry), *action_key),
    decreases *entry,
{
    match entry {
        ArtifactEntry::File(digest) => {
            index_digest(digest, action_key, index);
        },
        ArtifactEntry::Symlink => {
            assert(index@ =~= with_digests(old(index)@, Set::empty(), *action_key));
        },
        ArtifactEntry::Directory(children) => {
            let ghost before = index@;
            let mut i: usize = 0;
            assert(index@ =~= with_digests(before, tree_digests(children@, 0), *action_key));
            while i < children.len()
                invariant
                    *entry == ArtifactEntry::Directory(*children),
                    i <= children@.len(),
                    index@ == with_digests(
                        before,
                        tree_digests(children@, i as nat),
                        *action_key,
                    ),
                decreases children@.len() - i,
            {
                assert(decreases_to!(*entry => entry->Directory_0));
                assert(decreases_to!(entry->Directory_0 => children@));
                assert(decreases_to!(children@ => children@[i as int]));
                assert(decreases_to!(children@[i as int] => children@[i as int].1));
                index_entry(&children[i].1, action_key, index);
                proof {
                    with_digests_twice(
                        before,
                        tree_digests(children@, i as nat),
                        file_digests(children@[i as int].1),
                        *action_key,
                    );
                }
                i = i + 1;
            }
        },
    }
}

/// Indexes every digest that can be reached from `value` under `action_key`, unless
/// another action has it already.
pub fn index_artifact_value_digests(
    value: &ArtifactValue,
    action_key: &ActionKey,
    index: &mut KeyedMap<String, ActionKey>,
)
    ensures
        final(index)@ == with_digests(old(index)@, value.digests(), *action_key),
{
    let ghost before = index@;
    if let Some(digest) = &value.digest {
        index_digest(digest, action_key, index);
        index_entry(&value.entry, action_key, index);
        proof {
            with_digests_twice(before, set![digest@], file_digests(value.entry), *action_key);
            assert(set![digest@].union(file_digests(value.entry)) =~= value.digests());
        }
    } else {
        index_entry(&value.entry, action_key, index);
    }
}

/// Indexes the digests of an action's inputs by the actions that produced them, so
/// that a failure over one of them shows which action to repair. A source file has no
/// such action and adds nothing.
pub fn index_missing_digest_candidates(ensured_inputs: &Vec<ArtifactGroupValues>) -> (index:
    KeyedMap<String, ActionKey>)
    ensures
        index@ == digest_index(ensured_inputs@, ensured_inputs@.len()),
{
    let mut index: KeyedMap<String, ActionKey> = KeyedMap::new();
    let mut g: usize = 0;
    while g < ensured_inputs.len()
        invariant
            g <= ensured_inputs@.len(),
            index@ == digest_index(ensured_inputs@, g as nat),
        decreases ensured_inputs@.len() - g,
    {
        let values = &ensured_inputs[g].values;
        let ghost before = index@;
        let mut i: usize = 0;
        while i < values.len()
            invariant
                i <= values@.len(),
                index@ == with_inputs(before, values@, i as nat),
            decreases values@.len() - i,
        {
            if let Some(action_key) = &values[i].0.action_key {
                index_artifact_value_digests(&values[i].1, action_key, &mut index);
            }
            i = i + 1;
        }
        g = g + 1;
    }
    index
}

/// What the user is told once an action was found and armed.
pub const CAS_MISSING_RECOVERY_QUEUED: &'static str = "Buck2 identified the action(s) that produced these artifacts and queued them for re-execution on your next build.";

/// What the user is told when no action was found for any of the digests.
pub const CAS_MISSING_RECOVERY_UNATTRIBUTED: &'static str = "This error is currently unrecoverable. To proceed, you should restart Buck using `buck2 killall`.";

/// What became of one failure: the actions to arm, the digests that no action
/// produced, and what the user is told.
#[derive(Debug)]
pub struct CasMissingRecoveryOutcome {
    pub producing_actions: Vec<ActionKey>,
    pub unattributed: Vec<(String, String)>,
    pub guidance: &'static str,
}

/// The actions that produced the missing digests, in their order.
pub open spec fn producers(
    index: DigestIndex,
    missing: Seq<(Seq<char>, Seq<char>)>,
) -> Seq<ActionName>
    decreases missing.len(),
{
    if missing.len() == 0 {
        Seq::empty()
    } else {
        let before = producers(index, missing.drop_last());
        if index.contains_key(missing.last().1) {
            before.push(index[missing.last().1]@)
        } else {
            before
        }
    }
}

/// The missing digests that no action produced, in their order.
pub open spec fn orphans(
    index: DigestIndex,
    missing: Seq<(Seq<char>, Seq<char>)>,
) -> Seq<(Seq<char>, Seq<char>)>
    decreases missing.len(),
{
    if missing.len() == 0 {
        Seq::empty()
    } else {
        let before = orphans(index, missing.drop_last());
        if index.contains_key(missing.last().1) {
            before
        } else {
            before.push(missing.last())
        }
    }
}

/// What the user is told.
pub open spec fn guidance_text(producing: nat) -> Seq<char> {
    if producing == 0 {
        CAS_MISSING_RECOVERY_UNATTRIBUTED@
    } else {
        CAS_MISSING_RECOVERY_QUEUED@
    }
}

/// Finds, for the digests that a failure reported missing, the actions among the
/// producers of the inputs that recovery can arm.
///
/// A digest without such an action is no error in itself: the action did not declare
/// it, or nobody knows who produced it. Only when none of them has an action is there
/// nothing to arm, and the failure stays fatal.
pub fn resolve_cas_missing_recovery_outcome(
    missing: &MissingCasDigests,
    ensured_inputs: &Vec<ArtifactGroupValues>,
) -> (outcome: CasMissingRecoveryOutcome)
    ensures
        action_names(outcome.producing_actions@) == producers(
            digest_index(ensured_inputs@, ensured_inputs@.len()),
            missing@,
        ),
        outcome.unattributed.deep_view() == orphans(
            digest_index(ensured_inputs@, ensured_inputs@.len()),
            missing@,
        ),
        outcome.guidance@ == guidance_text(outcome.producing_actions@.len()),
{
    let digest_to_producing_action = index_missing_digest_candidates(ensured_inputs);
    let ghost index = digest_to_producing_action@;
    let mut producing_actions: Vec<ActionKey> = Vec::new();
    let mut unattributed: Vec<(String, String)> = Vec::new();
    let mut i: usize = 0;
    assert(action_names(producing_actions@) =~= Seq::empty());
    assert(unattributed.deep_view() =~= Seq::empty());
    assert(missing@.take(0) =~= Seq::empty());
    while i < missing.missing.len()
        invariant
            i <= missing.missing@.len(),
            missing@.len() == missing.missing@.len(),
            index == digest_to_producing_action@,
            action_names(producing_actions@) == producers(index, missing@.take(i as int)),
            unattributed.deep_view() == orphans(index, missing@.take(i as int)),
        decreases missing.missing@.len() - i,
    {
        let ghost pair = missing@[i as int];
        assert(missing@.take(i + 1).drop_last() =~= missing@.take(i as int));
        assert(missing@.take(i + 1).last() == pair);
        match digest_to_producing_action.get(&missing.missing[i].1) {
            Some(action) => {
                let ghost before = producing_actions@;
                producing_actions.push(action.clone());
                assert(action_names(producing_actions@) =~= action_names(before).push(action@));
            },
            None => {
                let ghost before = unattributed.deep_view();
                unattributed.push((missing.missing[i].0.clone(), missing.missing[i].1.clone()));
                assert(unattributed.deep_view() =~= before.push(pair));
            },
        }
        i = i + 1;
    }
    assert(missing@.take(i as int) =~= missing@);
    let guidance = if producing_actions.len() == 0 {
        CAS_MISSING_RECOVERY_UNATTRIBUTED
    } else {
        CAS_MISSING_RECOVERY_QUEUED
    };
    CasMissingRecoveryOutcome { producing_actions, unattributed, guidance }
}

proof fn producers_and_orphans_count(
    index: DigestIndex,
    missing: Seq<(Seq<char>, Seq<char>)>,
)
    ensures
        producers(index, missing).len() + orphans(index, missing).len() == missing.len(),
    decreases missing.len(),
{
    if missing.len() > 0 {
        producers_and_orphans_count(index, missing.drop_last());
    }
}

/// Every missing digest either has an action that is armed or is reported as having
/// none.
pub proof fn every_digest_is_attributed_or_not(
    index: DigestIndex,
    missing: Seq<(Seq<char>, Seq<char>)>,
    i: int,
)
    requires
        0 <= i < missing.len(),
    ensures
        producers(index, missing).len() + orphans(index, missing).len() == missing.len(),
        index.contains_key(missing[i].1) ==> producers(index, missing).contains(
            index[missing[i].1]@,
        ),
        !index.contains_key(missing[i].1) ==> orphans(index, missing).contains(missing[i]),
    decreases missing.len(),
{
    producers_and_orphans_count(index, missing);
    let n = missing.len() - 1;
    let found = producers(index, missing);
    let lost = orphans(index, missing);
    if i == n {
        if index.contains_key(missing[i].1) {
            assert(found[found.len() - 1] == index[missing[i].1]@);
        } else {
            assert(lost[lost.len() - 1] == missing[i]);
        }
    } else {
        let earlier = missing.drop_last();
        every_digest_is_attributed_or_not(index, earlier, i);
        if index.contains_key(missing[i].1) {
            let before = producers(index, earlier);
            let k = choose|k: int| 0 <= k < before.len() && before[k] == index[missing[i].1]@;
            assert(found[k] == before[k]);
        } else {
            let before = orphans(index, earlier);
            let k = choose|k: int| 0 <= k < before.len() && before[k] == missing[i];
            assert(lost[k] == before[k]);
        }
    }
}

/// What makes attribution possible, for builds that opted into recovery.
#[derive(Clone, Copy, Debug, PartialEq, Eq, Structural)]
pub struct RunActionKnobs {
    pub cas_missing_recovery_enabled: bool,
}

/// Retains an action's inputs for attribution, and only for a build that opted in.
pub fn inputs_for_cas_missing_recovery<'a>(
    knobs: &RunActionKnobs,
    ensured_inputs: &'a Vec<ArtifactGroupValues>,
) -> (inputs: Option<&'a Vec<ArtifactGroupValues>>)
    ensures
        knobs.cas_missing_recovery_enabled ==> inputs == Some(ensured_inputs),
        !knobs.cas_missing_recovery_enabled ==> inputs is None,
{
    if knobs.cas_missing_recovery_enabled {
        Some(ensured_inputs)
    } else {
        None
    }
}

/// What an action left, by output path.
#[derive(Debug)]
pub struct ActionOutputs {
    pub outputs: Vec<(String, ArtifactValue)>,
}

/// Why an action failed.
#[derive(Debug)]
pub enum ExecuteError {
    /// A command of the action failed.
    CommandExecutionError { action_outputs: ActionOutputs, error: Option<BuildError> },
    /// Anything else.
    Other(BuildError),
}

/// What is told to the user and to the client about a failure that lacked digests.
#[derive(Debug)]
pub struct RecoveryNotice {
    /// What the console shows.
    pub guidance: &'static str,
    /// How many actions were armed. Where any was, the client is told that running the
    /// same command again is expected to succeed.
    pub queued_actions: usize,
    /// The paths and digests that no action was found for, which are warned of.
    pub unattributed: Vec<(String, String)>,
}

/// The digests whose absence caused a failure that recovery acts on.
pub open spec fn recoverable_digests(error: ExecuteError) -> Option<MissingCasDigests> {
    match error {
        ExecuteError::CommandExecutionError { error: Some(inner), .. } => inner.missing_digests(),
        _ => None,
    }
}

/// What is tracked after `keys` were reported missing one after the other.
pub open spec fn after_all_missing(states: RecoveryStates, keys: Seq<ActionName>) -> RecoveryStates
    decreases keys.len(),
{
    if keys.len() == 0 {
        states
    } else {
        after_missing(after_all_missing(states, keys.drop_last()), keys.last())
    }
}

/// What recovery makes of a failure: from the states `before` to `after`, from
/// `error` to `told` and `notice`.
pub open spec fn recovery_applies(
    before: RecoveryStates,
    error: ExecuteError,
    inputs_for_recovery: Option<&Vec<ArtifactGroupValues>>,
    after: RecoveryStates,
    told: ExecuteError,
    notice: Option<RecoveryNotice>,
) -> bool {
    match (inputs_for_recovery, recoverable_digests(error)) {
        (Some(inputs), Some(missing)) => {
            let index = digest_index(inputs@, inputs@.len());
            let armed = producers(index, missing@);
            let inner = error->error->0;
            &&& after == after_all_missing(before, armed)
            &&& told matches ExecuteError::CommandExecutionError {
                action_outputs,
                error: Some(outer),
            }
            &&& action_outputs == error->action_outputs
            &&& outer.message == inner.message
            &&& outer.contexts@.len() == inner.contexts@.len() + 1
            &&& outer.contexts@.drop_last() == inner.contexts@
            &&& outer.contexts@.last() matches ErrorContext::Text(text)
            &&& text@ == guidance_text(armed.len())
            &&& notice matches Some(notice)
            &&& notice.guidance@ == guidance_text(armed.len())
            &&& notice.queued_actions == armed.len()
            &&& notice.unattributed.deep_view() == orphans(index, missing@)
        },
        _ => {
            &&& told == error
            &&& notice is None
            &&& after == before
        },
    }
}

/// Brings recovery to bear on a failure: arms every action that it finds, and lays
/// what the user is told round the error.
///
/// Without inputs, because the build did not opt in, and for an error that carries no
/// missing digests, nothing changes.
pub fn apply_cas_missing_recovery_outcome(
    registry: &mut CasMissingRecoveryRegistry,
    error: ExecuteError,
    inputs_for_recovery: Option<&Vec<ArtifactGroupValues>>,
) -> (applied: (ExecuteError, Option<RecoveryNotice>))
    ensures
        recovery_applies(
            old(registry)@,
            error,
            inputs_for_recovery,
            final(registry)@,
            applied.0,
            applied.1,
        ),
{
    let ensured_inputs = match inputs_for_recovery {
        Some(inputs) => inputs,
        None => {
            return (error, None);
        },
    };
    match error {
        ExecuteError::CommandExecutionError { action_outputs, error: Some(inner) } => {
            let outcome = match inner.find_missing_digests() {
                Some(missing) => resolve_cas_missing_recovery_outcome(missing, ensured_inputs),
                None => {
                    return (
                        ExecuteError::CommandExecutionError {
                            action_outputs,
                            error: Some(inner),
                        },
                        None,
                    );
                },
            };
            let ghost before = registry@;
            let ghost armed = action_names(outcome.producing_actions@);
            let mut i: usize = 0;
            assert(armed.take(0) =~= Seq::empty());
            while i < outcome.producing_actions.len()
                invariant
                    i <= outcome.producing_actions@.len(),
                    armed == action_names(outcome.producing_actions@),
                    registry@ == after_all_missing(before, armed.take(i as int)),
                decreases outcome.producing_actions@.len() - i,
            {
                assert(armed.take(i + 1).drop_last() =~= armed.take(i as int));
                registry.record_missing(outcome.producing_actions[i].clone());
                i = i + 1;
            }
            assert(armed.take(i as int) =~= armed);
            let queued_actions: usize = outcome.producing_actions.len();
            let ghost contexts = inner.contexts@;
            let outer = inner.context(ErrorContext::Text(outcome.guidance.to_owned()));
            assert(outer.contexts@.drop_last() =~= contexts);
            (
                ExecuteError::CommandExecutionError { action_outputs, error: Some(outer) },
                Some(
                    RecoveryNotice {
                        guidance: outcome.guidance,
                        queued_actions,
                        unattributed: outcome.unattributed,
                    },
                ),
            )
        },
        other => (other, None),
    }
}

proof fn arming_reaches_all(states: RecoveryStates, keys: Seq<ActionName>, key: ActionName)
    ensures
        keys.contains(key) ==> is_armed(after_all_missing(states, keys), key),
        is_armed(states, key) ==> is_armed(after_all_missing(states, keys), key),
        !keys.contains(key) ==> after_all_missing(states, keys).contains_key(key)
            == states.contains_key(key) && (states.contains_key(key) ==> after_all_missing(
            states,
            keys,
        )[key] == states[key]),
    decreases keys.len(),
{
    if keys.len() > 0 {
        let before = keys.drop_last();
        arming_reaches_all(states, before, key);
        if keys.contains(key) {
            let i = choose|i: int| 0 <= i < keys.len() && keys[i] == key;
            if i < before.len() {
                assert(before[i] == key);
            }
        } else {
            assert(keys[keys.len() - 1] != key);
            if before.contains(key) {
                let i = choose|i: int| 0 <= i < before.len() && before[i] == key;
                assert(keys[i] == key);
            }
        }
    }
}

/// A failure arms exactly the actions that produced one of its missing digests; every
/// other action stays as it was.
pub proof fn producers_are_armed(
    states: RecoveryStates,
    index: DigestIndex,
    missing: Seq<(Seq<char>, Seq<char>)>,
    key: ActionName,
)
    ensures
        producers(index, missing).contains(key) ==> is_armed(
            after_all_missing(states, producers(index, missing)),
            key,
        ),
        !producers(index, missing).contains(key) ==> {
            let after = after_all_missing(states, producers(index, missing));
            &&& after.contains_key(key) == states.contains_key(key)
            &&& states.contains_key(key) ==> after[key] == states[key]
        },
{
    arming_reaches_all(states, producers(index, missing), key);
}

/// What the client is told about a failure that running the command again is expected
/// to get past.
pub fn report_recoverable_by_command_retry(producing_action_count: usize) -> (text: String)
    ensures
        text@ == "queued "@ + decimal(producing_action_count as nat)
            + " action(s) for CAS-missing repair"@,
{
    let mut text = "queued ".to_owned();
    text.append(decimal_text(producing_action_count as u64).as_str());
    text.append(" action(s) for CAS-missing repair");
    text
}

/// Brings recovery to bear on a failure, with the registry of the computation.
pub fn attach_cas_missing_recovery_outcome(
    data: &mut UserComputationData,
    error: ExecuteError,
    inputs_for_recovery: Option<&Vec<ArtifactGroupValues>>,
) -> (applied: (ExecuteError, Option<RecoveryNotice>))
    requires
        old(data).registry is Some,
    ensures
        final(data).registry is Some,
        final(data).batch == old(data).batch,
        final(data).config == old(data).config,
        recovery_applies(
            old(data).registry->0@,
            error,
            inputs_for_recovery,
            final(data).registry->0@,
            applied.0,
            applied.1,
        ),
{
    match data.registry.take() {
        Some(mut registry) => {
            let applied = apply_cas_missing_recovery_outcome(
                &mut registry,
                error,
                inputs_for_recovery,
            );
            data.registry = Some(registry);
            applied
        },
        None => (error, None),
    }
}

/// What a run of `key` charges, where the batch selected it and the registry has it
/// armed.
pub open spec fn charges(states: RecoveryStates, batch: BatchState, key: ActionName) -> bool {
    batch.keys.contains(key) && is_armed(states, key)
}

/// The batch after a run of `key`: one more repair is counted where one is charged.
pub open spec fn charged_batch(
    states: RecoveryStates,
    batch: BatchState,
    key: ActionName,
) -> BatchState {
    if charges(states, batch, key) {
        batch.with_repair()
    } else {
        batch
    }
}

/// What is tracked after a run of `key`.
pub open spec fn charged_states(
    states: RecoveryStates,
    batch: BatchState,
    key: ActionName,
) -> RecoveryStates {
    if charges(states, batch, key) {
        after_repair(states, key)
    } else {
        states
    }
}

/// Charges the run of an action, if the batch selected it for repair.
///
/// An action that is not in the batch leaves the registry alone. The charge does not
/// depend on how the run went: the budget counts how often an action ran again, not
/// how often that helped. The batch counts a repair exactly when one was charged.
pub fn charge_cas_missing_recovery_repair(
    registry: &mut CasMissingRecoveryRegistry,
    batch: &mut CasRecoveryBatch,
    key: &ActionKey,
)
    requires
        charges(old(registry)@, old(batch)@, key@) ==> old(registry)@[key@].attempts < u32::MAX,
    ensures
        final(registry)@ == charged_states(old(registry)@, old(batch)@, key@),
        final(batch)@ == charged_batch(old(registry)@, old(batch)@, key@),
{
    if batch.contains(key) {
        if registry.record_repair_attempt(key) {
            batch.record_repair_charged();
        }
    }
}

/// Charges the run of an action to the registry of the computation.
pub fn record_cas_missing_recovery_repair(
    data: &mut UserComputationData,
    batch: &mut CasRecoveryBatch,
    key: &ActionKey,
)
    requires
        old(data).registry is Some,
        charges(old(data).registry->0@, old(batch)@, key@)
            ==> old(data).registry->0@[key@].attempts < u32::MAX,
    ensures
        final(data).registry is Some,
        final(data).batch == old(data).batch,
        final(data).config == old(data).config,
        final(data).registry->0@ == charged_states(old(data).registry->0@, old(batch)@, key@),
        final(batch)@ == charged_batch(old(data).registry->0@, old(batch)@, key@),
{
    if let Some(mut registry) = data.registry.take() {
        charge_cas_missing_recovery_repair(&mut registry, batch, key);
        data.registry = Some(registry);
    }
}

/// Running an action again pays once: a second run before the next failure finds
/// nothing to charge.
pub proof fn a_repair_is_charged_once(states: RecoveryStates, batch: BatchState, key: ActionName)
    ensures
        !charges(charged_states(states, batch, key), charged_batch(states, batch, key), key),
        charged_batch(states, batch, key).repairs_charged != batch.repairs_charged <==> charges(
            states,
            batch,
            key,
        ),
{
}

/// Going down `path` from `entry`, one position per directory, leads to a file with the
/// given digest.
pub open spec fn leads_to(entry: ArtifactEntry, path: Seq<int>, digest: Seq<char>) -> bool
    decreases path.len(),
{
    if path.len() == 0 {
        entry matches ArtifactEntry::File(found) && found@ == digest
    } else {
        &&& entry matches ArtifactEntry::Directory(children)
        &&& 0 <= path[0] < children@.len()
        &&& leads_to(children@[path[0]].1, path.drop_first(), digest)
    }
}

proof fn tree_digests_are_those_of_the_children(
    children: Seq<(String, ArtifactEntry)>,
    n: nat,
    digest: Seq<char>,
)
    requires
        n <= children.len(),
    ensures
        tree_digests(children, n).contains(digest) <==> exists|i: int|
            0 <= i < n && file_digests((#[trigger] children[i]).1).contains(digest),
    decreases n,
{
    if n > 0 {
        tree_digests_are_those_of_the_children(children, (n - 1) as nat, digest);
        if file_digests(children[n - 1].1).contains(digest) {
            assert(0 <= n - 1 < n);
        }
    }
}

proof fn digests_have_a_path(entry: ArtifactEntry, digest: Seq<char>) -> (path: Seq<int>)
    requires
        file_digests(entry).contains(digest),
    ensures
        leads_to(entry, path, digest),
    decreases entry,
{
    match entry {
        ArtifactEntry::Directory(children) => {
            tree_digests_are_those_of_the_children(children@, children@.len(), digest);
            let i = choose|i: int|
                0 <= i < children@.len() && file_digests((#[trigger] children@[i]).1).contains(
                    digest,
                );
            assert(decreases_to!(entry => entry->Directory_0));
            assert(decreases_to!(entry->Directory_0 => children@));
            assert(decreases_to!(children@ => children@[i]));
            assert(decreases_to!(children@[i] => children@[i].1));
            let rest = digests_have_a_path(children@[i].1, digest);
            let path = seq![i] + rest;
            assert(path.drop_first() =~= rest);
            path
        },
        _ => { Seq::empty() },
    }
}

proof fn paths_lead_to_digests(entry: ArtifactEntry, path: Seq<int>, digest: Seq<char>)
    requires
        leads_to(entry, path, digest),
    ensures
        file_digests(entry).contains(digest),
    decreases path.len(),
{
    if path.len() > 0 {
        let children = entry->Directory_0@;
        paths_lead_to_digests(children[path[0]].1, path.drop_first(), digest);
        tree_digests_are_those_of_the_children(children, children.len(), digest);
    }
}

/// The digests of a value are its own and those of every file that some path leads to,
/// however deep it stands; symlinks and directories add none of their own.
pub proof fn every_file_is_reached(value: ArtifactValue, digest: Seq<char>)
    ensures
        value.digests().contains(digest) <==> (value.digest is Some && value.digest->0@ == digest)
            || exists|path: Seq<int>| #[trigger] leads_to(value.entry, path, digest),
{
    if file_digests(value.entry).contains(digest) {
        let path = digests_have_a_path(value.entry, digest);
    }
    if exists|path: Seq<int>| #[trigger] leads_to(value.entry, path, digest) {
        let path = choose|path: Seq<int>| #[trigger] leads_to(value.entry, path, digest);
        paths_lead_to_digests(value.entry, path, digest);
    }
}

/// An action made the input, and the digest can be reached from it.
pub open spec fn is_candidate(input: (InputArtifact, ArtifactValue), digest: Seq<char>) -> bool {
    input.0.action_key is Some && input.1.digests().contains(digest)
}

proof fn inputs_are_indexed(
    index: DigestIndex,
    inputs: Seq<(InputArtifact, ArtifactValue)>,
    n: nat,
    digest: Seq<char>,
)
    requires
        n <= inputs.len(),
    ensures
        ({
            let after = with_inputs(index, inputs, n);
            &&& index.contains_key(digest) ==> after.contains_key(digest) && after[digest]
                == index[digest]
            &&& after.contains_key(digest) <==> index.contains_key(digest) || exists|i: int|
                0 <= i < n && is_candidate(#[trigger] inputs[i], digest)
            &&& !index.contains_key(digest) && after.contains_key(digest) ==> exists|i: int|
                {
                    &&& 0 <= i < n
                    &&& is_candidate(#[trigger] inputs[i], digest)
                    &&& after[digest] == inputs[i].0.action_key->0
                    &&& forall|j: int|
                        0 <= j < i ==> !is_candidate(#[trigger] inputs[j], digest)
                }
        }),
    decreases n,
{
    if n > 0 {
        inputs_are_indexed(index, inputs, (n - 1) as nat, digest);
        let last = inputs[n - 1];
        assert(is_candidate(last, digest) ==> with_inputs(index, inputs, n).contains_key(digest));
    }
}

/// The index knows a digest exactly where it can be reached from some input, of any
/// group and at any place in it, that an action made.
pub proof fn every_input_is_indexed(
    groups: Seq<ArtifactGroupValues>,
    n: nat,
    digest: Seq<char>,
)
    requires
        n <= groups.len(),
    ensures
        digest_index(groups, n).contains_key(digest) <==> exists|g: int, i: int|
            0 <= g < n && 0 <= i < groups[g].values@.len() && is_candidate(
                #[trigger] groups[g].values@[i],
                digest,
            ),
    decreases n,
{
    if n > 0 {
        every_input_is_indexed(groups, (n - 1) as nat, digest);
        let before = digest_index(groups, (n - 1) as nat);
        let last = groups[n - 1].values@;
        inputs_are_indexed(before, last, last.len(), digest);
        if exists|i: int| 0 <= i < last.len() && is_candidate(#[trigger] last[i], digest) {
            let i = choose|i: int| 0 <= i < last.len() && is_candidate(#[trigger] last[i], digest);
            assert(is_candidate(groups[n - 1].values@[i], digest));
        }
        if exists|g: int, i: int|
            0 <= g < n && 0 <= i < groups[g].values@.len() && is_candidate(
                #[trigger] groups[g].values@[i],
                digest,
            ) {
            let (g, i) = choose|g: int, i: int|
                0 <= g < n && 0 <= i < groups[g].values@.len() && is_candidate(
                    #[trigger] groups[g].values@[i],
                    digest,
                );
            if g == n - 1 {
                assert(is_candidate(last[i], digest));
            }
        }
    }
}

/// The entry for a digest names the action that made the first input from which the
/// digest can be reached: no earlier input of the same group has it, and no input of an
/// earlier group.
pub proof fn the_first_producer_is_named(
    groups: Seq<ArtifactGroupValues>,
    n: nat,
    digest: Seq<char>,
) -> (place: (int, int))
    requires
        n <= groups.len(),
        digest_index(groups, n).contains_key(digest),
    ensures
        0 <= place.0 < n,
        0 <= place.1 < groups[place.0].values@.len(),
        is_candidate(groups[place.0].values@[place.1], digest),
        digest_index(groups, n)[digest] == groups[place.0].values@[place.1].0.action_key->0,
        forall|j: int|
            0 <= j < place.1 ==> !is_candidate(#[trigger] groups[place.0].values@[j], digest),
        forall|g: int, j: int|
            0 <= g < place.0 && 0 <= j < groups[g].values@.len() ==> !is_candidate(
                #[trigger] groups[g].values@[j],
                digest,
            ),
    decreases n,
{
    let before = digest_index(groups, (n - 1) as nat);
    let last = groups[n - 1].values@;
    inputs_are_indexed(before, last, last.len(), digest);
    every_input_is_indexed(groups, (n - 1) as nat, digest);
    if before.contains_key(digest) {
        the_first_producer_is_named(groups, (n - 1) as nat, digest)
    } else {
        let after = digest_index(groups, n);
        let i = choose|i: int|
            {
                &&& 0 <= i < last.len()
                &&& is_candidate(#[trigger] last[i], digest)
                &&& after[digest] == last[i].0.action_key->0
                &&& forall|j: int| 0 <= j < i ==> !is_candidate(#[trigger] last[j], digest)
            };
        (n - 1, i)
    }
}

/// Whatever input of an action a missing digest can be reached from, the index that is
/// built of the inputs has an action for it; and what the index names is the producer of
/// an input from which the digest can be reached.
pub proof fn digests_of_produced_inputs_are_found(
    inputs: Vec<ArtifactGroupValues>,
    index: KeyedMap<String, ActionKey>,
    g: int,
    i: int,
    digest: Seq<char>,
)
    requires
        call_ensures(index_missing_digest_candidates, (&inputs,), index),
    ensures
        0 <= g < inputs@.len() && 0 <= i < inputs@[g].values@.len()
            && inputs@[g].values@[i].0.action_key is Some
            && inputs@[g].values@[i].1.digests().contains(digest) ==> index@.contains_key(digest),
        index@.contains_key(digest) ==> exists|h: int, k: int|
            {
                &&& 0 <= h < inputs@.len()
                &&& 0 <= k < inputs@[h].values@.len()
                &&& (#[trigger] inputs@[h].values@[k]).0.action_key == Some(index@[digest])
                &&& inputs@[h].values@[k].1.digests().contains(digest)
            },
{
    every_input_is_indexed(inputs@, inputs@.len(), digest);
    if 0 <= g < inputs@.len() && 0 <= i < inputs@[g].values@.len()
        && inputs@[g].values@[i].0.action_key is Some
        && inputs@[g].values@[i].1.digests().contains(digest) {
        assert(is_candidate(inputs@[g].values@[i], digest));
    }
    if index@.contains_key(digest) {
        let (h, k) = the_first_producer_is_named(inputs@, inputs@.len(), digest);
        assert(inputs@[h].values@[k].0.action_key == Some(index@[digest]));
    }
}

proof fn producers_come_from_the_index(
    index: DigestIndex,
    missing: Seq<(Seq<char>, Seq<char>)>,
    key: ActionName,
)
    ensures
        producers(index, missing).contains(key) <==> exists|k: int|
            0 <= k < missing.len() && index.contains_key((#[trigger] missing[k]).1)
                && index[missing[k].1]@ == key,
    decreases missing.len(),
{
    if missing.len() > 0 {
        let earlier = missing.drop_last();
        let before = producers(index, earlier);
        let all = producers(index, missing);
        producers_come_from_the_index(index, earlier, key);
        let n = missing.len() - 1;
        if before.contains(key) {
            let k = choose|k: int|
                0 <= k < earlier.len() && index.contains_key((#[trigger] earlier[k]).1)
                    && index[earlier[k].1]@ == key;
            assert(missing[k] == earlier[k]);
            let at = choose|at: int| 0 <= at < before.len() && before[at] == key;
            assert(all[at] == key);
        }
        if index.contains_key(missing[n].1) && index[missing[n].1]@ == key {
            assert(all[all.len() - 1] == key);
        }
        if exists|k: int|
            0 <= k < missing.len() && index.contains_key((#[trigger] missing[k]).1)
                && index[missing[k].1]@ == key {
            let k = choose|k: int|
                0 <= k < missing.len() && index.contains_key((#[trigger] missing[k]).1)
                    && index[missing[k].1]@ == key;
            if k < n {
                assert(earlier[k] == missing[k]);
            }
        }
        if all.contains(key) && !before.contains(key) {
            let at = choose|at: int| 0 <= at < all.len() && all[at] == key;
            if at < before.len() {
                assert(before[at] == key);
            }
            assert(index.contains_key(missing[n].1) && index[missing[n].1]@ == key);
        }
    }
}

/// The digests without an action are just those that the index does not know, in the
/// order in which they were reported.
pub proof fn digests_without_an_action_keep_their_order(
    index: DigestIndex,
    missing: Seq<(Seq<char>, Seq<char>)>,
)
    ensures
        orphans(index, missing) == missing.filter(
            |pair: (Seq<char>, Seq<char>)| !index.contains_key(pair.1),
        ),
    decreases missing.len(),
{
    reveal(Seq::filter);
    if missing.len() > 0 {
        digests_without_an_action_keep_their_order(index, missing.drop_last());
    }
}

/// A failure over a missing digest that some produced input holds arms an action that
/// made such an input, and that action keeps the attempts it had.
pub proof fn missing_inputs_arm_their_producer(
    before: RecoveryStates,
    error: ExecuteError,
    inputs: Vec<ArtifactGroupValues>,
    after: RecoveryStates,
    told: ExecuteError,
    notice: Option<RecoveryNotice>,
    missing: MissingCasDigests,
    k: int,
    g: int,
    i: int,
) -> (place: (int, int))
    requires
        recovery_applies(before, error, Some(&inputs), after, told, notice),
        error is CommandExecutionError,
        error->error is Some,
        error->error->0.missing_digests() == Some(missing),
        0 <= k < missing@.len(),
        0 <= g < inputs@.len(),
        0 <= i < inputs@[g].values@.len(),
        inputs@[g].values@[i].0.action_key is Some,
        inputs@[g].values@[i].1.digests().contains(missing@[k].1),
    ensures
        0 <= place.0 < inputs@.len(),
        0 <= place.1 < inputs@[place.0].values@.len(),
        inputs@[place.0].values@[place.1].1.digests().contains(missing@[k].1),
        ({
            let key = inputs@[place.0].values@[place.1].0.action_key->0@;
            &&& inputs@[place.0].values@[place.1].0.action_key is Some
            &&& after.contains_key(key)
            &&& after[key].armed
        }),
        notice is Some,
        notice->0.queued_actions > 0,
        notice->0.guidance@
            == "Buck2 identified the action(s) that produced these artifacts and queued them for re-execution on your next build."@,
{
    let index = digest_index(inputs@, inputs@.len());
    let digest = missing@[k].1;
    every_input_is_indexed(inputs@, inputs@.len(), digest);
    assert(is_candidate(inputs@[g].values@[i], digest));
    let place = the_first_producer_is_named(inputs@, inputs@.len(), digest);
    let key = index[digest]@;
    every_digest_is_attributed_or_not(index, missing@, k);
    producers_are_armed(before, index, missing@, key);
    let armed = producers(index, missing@);
    assert(armed.contains(key));
    place
}

/// A failure leaves every action alone from none of whose outputs a missing digest can
/// be reached, and names every digest that no produced input holds.
pub proof fn other_actions_are_left_alone(
    before: RecoveryStates,
    error: ExecuteError,
    inputs: Vec<ArtifactGroupValues>,
    after: RecoveryStates,
    told: ExecuteError,
    notice: Option<RecoveryNotice>,
    missing: MissingCasDigests,
    key: ActionName,
    k: int,
)
    requires
        recovery_applies(before, error, Some(&inputs), after, told, notice),
        error is CommandExecutionError,
        error->error is Some,
        error->error->0.missing_digests() == Some(missing),
        0 <= k < missing@.len(),
    ensures
        (forall|g: int, i: int, j: int|
            #![trigger inputs@[g].values@[i], missing@[j]]
            0 <= g < inputs@.len() && 0 <= i < inputs@[g].values@.len() && 0 <= j < missing@.len()
                ==> !(inputs@[g].values@[i].0.action_key is Some
                && inputs@[g].values@[i].0.action_key->0@ == key
                && inputs@[g].values@[i].1.digests().contains(missing@[j].1))) ==> {
            &&& after.contains_key(key) <==> before.contains_key(key)
            &&& before.contains_key(key) ==> after[key] == before[key]
        },
        before.contains_key(key) ==> after.contains_key(key) && after[key].attempts
            == before[key].attempts,
        !before.contains_key(key) && after.contains_key(key) ==> after[key].attempts == 0,
        notice is Some,
        (forall|g: int, i: int|
            0 <= g < inputs@.len() && 0 <= i < inputs@[g].values@.len() ==> !is_candidate(
                #[trigger] inputs@[g].values@[i],
                missing@[k].1,
            )) ==> notice->0.unattributed.deep_view().contains(missing@[k]),
        notice->0.queued_actions == 0 ==> notice->0.guidance@
            == "This error is currently unrecoverable. To proceed, you should restart Buck using `buck2 killall`."@
            && after == before,
        notice->0.queued_actions + notice->0.unattributed@.len() == missing@.len(),
{
    let index = digest_index(inputs@, inputs@.len());
    let armed = producers(index, missing@);
    every_input_is_indexed(inputs@, inputs@.len(), missing@[k].1);
    every_digest_is_attributed_or_not(index, missing@, k);
    producers_are_armed(before, index, missing@, key);
    producers_come_from_the_index(index, missing@, key);
    arming_keeps_attempts(before, armed, key);
    if armed.contains(key) {
        let j = choose|j: int|
            0 <= j < missing@.len() && index.contains_key((#[trigger] missing@[j]).1)
                && index[missing@[j].1]@ == key;
        let (g, i) = the_first_producer_is_named(inputs@, inputs@.len(), missing@[j].1);
        assert(is_candidate(inputs@[g].values@[i], missing@[j].1));
    }
    assert(notice->0.unattributed.deep_view().len() == notice->0.unattributed@.len());
}

proof fn arming_keeps_attempts(states: RecoveryStates, keys: Seq<ActionName>, key: ActionName)
    ensures
        ({
            let after = after_all_missing(states, keys);
            &&& states.contains_key(key) ==> after.contains_key(key) && after[key].attempts
                == states[key].attempts
            &&& !states.contains_key(key) && after.contains_key(key) ==> after[key].attempts == 0
        }),
    decreases keys.len(),
{
    if keys.len() > 0 {
        arming_keeps_attempts(states, keys.drop_last(), key);
    }
}

/// The user still sees what the failure said, behind what recovery has to say; the
/// digests stay attached to it.
pub proof fn recovery_keeps_the_failure(
    before: RecoveryStates,
    error: ExecuteError,
    inputs: Vec<ArtifactGroupValues>,
    after: RecoveryStates,
    told: ExecuteError,
    notice: Option<RecoveryNotice>,
)
    requires
        recovery_applies(before, error, Some(&inputs), after, told, notice),
        error is CommandExecutionError,
        error->error is Some,
        error->error->0.missing_digests() is Some,
    ensures
        told is CommandExecutionError,
        told->action_outputs == error->action_outputs,
        told->error is Some,
        told->error->0.text_spec() == notice->0.guidance@ + ": "@
            + error->error->0.text_spec(),
        told->error->0.missing_digests() == error->error->0.missing_digests(),
{
    let inner = error->error->0;
    let outer = told->error->0;
    let text = outer.contexts@.last()->Text_0;
    assert(outer.contexts@ =~= inner.contexts@.push(ErrorContext::Text(text)));
    contexts_stand_in_front(inner, outer, text);
    missing_digests_survive_wrapping(inner, outer, text);
}

/// Nothing changes for a build that did not opt in, for a failure that is not that of a
/// command, and for one that carries no missing digests.
pub proof fn other_failures_pass_unchanged(
    before: RecoveryStates,
    error: ExecuteError,
    inputs_for_recovery: Option<&Vec<ArtifactGroupValues>>,
    after: RecoveryStates,
    told: ExecuteError,
    notice: Option<RecoveryNotice>,
)
    requires
        recovery_applies(before, error, inputs_for_recovery, after, told, notice),
        inputs_for_recovery is None || error is Other || error->error is None
            || error->error->0.missing_digests() is None,
    ensures
        told == error,
        notice is None,
        after == before,
{
}

/// A run is charged exactly where the round selected the action and a failure armed it:
/// then it counts one attempt, disarms the action and counts as a repair of the round.
/// Any other run changes nothing.
pub proof fn only_selected_and_armed_runs_are_charged(
    states: RecoveryStates,
    batch: BatchState,
    key: ActionName,
    other: ActionName,
)
    requires
        states.contains_key(key) ==> states[key].attempts < u32::MAX,
        batch.repairs_charged < u64::MAX,
    ensures
        ({
            let charged = batch.keys.contains(key) && states.contains_key(key)
                && states[key].armed;
            let after = charged_states(states, batch, key);
            let after_batch = charged_batch(states, batch, key);
            &&& charged ==> after.contains_key(key) && !after[key].armed && after[key].attempts
                == states[key].attempts + 1
            &&& charged ==> after_batch.repairs_charged == batch.repairs_charged + 1
            &&& !charged ==> after == states && after_batch == batch
            &&& after_batch.keys == batch.keys
            &&& other != key ==> (after.contains_key(other) <==> states.contains_key(other))
            &&& other != key && states.contains_key(other) ==> after[other] == states[other]
        }),
{
}

/// Inputs are kept for attribution exactly where the build opted in, and then all.
pub proof fn only_opted_in_builds_keep_their_inputs(
    knobs: RunActionKnobs,
    inputs: Vec<ArtifactGroupValues>,
    kept: Option<&Vec<ArtifactGroupValues>>,
)
    requires
        call_ensures(inputs_for_cas_missing_recovery, (&knobs, &inputs), kept),
    ensures
        kept is Some <==> knobs.cas_missing_recovery_enabled,
        kept is Some ==> *kept->0 == inputs,
{
}

/// The client is told how many actions are queued for repair.
pub proof fn queued_repairs_are_told(count: usize, text: String)
    requires
        call_ensures(report_recoverable_by_command_retry, (count,), text),
    ensures
        text@ == "queued "@ + decimal(count as nat) + " action(s) for CAS-missing repair"@,
{
}

/// A failure is resolved to an action for each of its digests that the index knows, and
/// the other digests stay listed, in order; the guidance says whether any was found.
pub proof fn failures_are_resolved(
    missing: MissingCasDigests,
    inputs: Vec<ArtifactGroupValues>,
    outcome: CasMissingRecoveryOutcome,
    k: int,
)
    requires
        call_ensures(resolve_cas_missing_recovery_outcome, (&missing, &inputs), outcome),
        0 <= k < missing@.len(),
    ensures
        outcome.producing_actions@.len() + outcome.unattributed@.len() == missing@.len(),
        digest_index(inputs@, inputs@.len()).contains_key(missing@[k].1) ==> exists|i: int|
            0 <= i < outcome.producing_actions@.len() && (
            #[trigger] outcome.producing_actions@[i])@ == digest_index(
                inputs@,
                inputs@.len(),
            )[missing@[k].1]@,
        !digest_index(inputs@, inputs@.len()).contains_key(missing@[k].1)
            ==> outcome.unattributed.deep_view().contains(missing@[k]),
        outcome.producing_actions@.len() > 0 ==> outcome.guidance@
            == "Buck2 identified the action(s) that produced these artifacts and queued them for re-execution on your next build."@,
        outcome.producing_actions@.len() == 0 ==> outcome.guidance@
            == "This error is currently unrecoverable. To proceed, you should restart Buck using `buck2 killall`."@,
{
    let index = digest_index(inputs@, inputs@.len());
    let names = action_names(outcome.producing_actions@);
    every_digest_is_attributed_or_not(index, missing@, k);
    assert(outcome.unattributed.deep_view().len() == outcome.unattributed@.len());
    assert(names.len() == outcome.producing_actions@.len());
    if index.contains_key(missing@[k].1) {
        let i = choose|i: int| 0 <= i < names.len() && names[i] == index[missing@[k].1]@;
        assert(outcome.producing_actions@[i]@ == index[missing@[k].1]@);
    }
}

} // verus!
