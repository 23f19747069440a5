//! Recovery of actions whose outputs went missing from the remote store.
//!
//! [`CasMissingRecoveryRegistry`] lives as long as the daemon. The build layer writes
//! to it whenever an action fails because an input of it has disappeared from the
//! store. [`CasRecoveryBatch`] holds the actions that were invalidated for the round
//! that is running; the executor layer asks it which actions to route around cached
//! results that would hand back a digest that is gone, and charges the registry once
//! one of them has run again.
//!
//! One round heals one layer of a dependency chain: an action whose input is gone
//! reports the failure, which arms the producer of the input; a producer further down
//! stays hidden until the layer above it is there again. [`stage_cas_recovery_round`]
//! takes the registry from armed to invalidated once per round.
use vstd::prelude::*;
use vstd::string::*;

use crate::calculation::BuildKey;
use crate::keyed::{
    by_key, entries_are_counted, entries_are_found, has_no_twins, Key, KeyedMap,
};

verus! {

/// What an action is known by: who declared it, and its number there.
#[derive(Debug, PartialEq, Eq)]
pub struct ActionKey {
    pub parent: String,
    pub id: u32,
}

/// What an action's key says.
pub type ActionName = (Seq<char>, u32);

impl View for ActionKey {
    type V = ActionName;

    open spec fn view(&self) -> ActionName {
        (self.parent@, self.id)
    }
}

impl Clone for ActionKey {
    fn clone(&self) -> (res: Self)
        ensures
            res == *self,
    {
        ActionKey { parent: self.parent.clone(), id: self.id }
    }
}

impl Key for ActionKey {
    fn same_key(&self, other: &Self) -> (same: bool) {
        self.parent == other.parent && self.id == other.id
    }
}

/// What keys say, in order.
pub open spec fn action_names(keys: Seq<ActionKey>) -> Seq<ActionName> {
    keys.map_values(|key: ActionKey| key@)
}

/// How many repairs of an action have run, and whether a failure has armed it for
/// another.
#[derive(Clone, Copy, Debug, PartialEq, Eq, Structural)]
pub struct RecoveryState {
    pub attempts: u32,
    pub armed: bool,
}

/// What is known of actions whose output went missing.
pub type RecoveryStates = Map<ActionName, RecoveryState>;

/// What is known after an output of `key` was reported missing: the action is armed,
/// and keeps the attempts that it has.
pub open spec fn after_missing(states: RecoveryStates, key: ActionName) -> RecoveryStates {
    states.insert(
        key,
        RecoveryState {
            attempts: if states.contains_key(key) {
                states[key].attempts
            } else {
                0
            },
            armed: true,
        },
    )
}

/// The action is armed.
pub open spec fn is_armed(states: RecoveryStates, key: ActionName) -> bool {
    states.contains_key(key) && states[key].armed
}

/// What is known after a repair of `key` ran: an action that was armed has one more
/// attempt and is disarmed, any other is left alone.
pub open spec fn after_repair(states: RecoveryStates, key: ActionName) -> RecoveryStates {
    if is_armed(states, key) {
        states.insert(
            key,
            RecoveryState { attempts: (states[key].attempts + 1) as u32, armed: false },
        )
    } else {
        states
    }
}

/// The action is armed and has attempts left.
pub open spec fn is_eligible(states: RecoveryStates, key: ActionName, max_attempts: u32) -> bool {
    is_armed(states, key) && states[key].attempts < max_attempts
}

/// `keys` are the actions that are eligible, each once.
pub open spec fn lists_eligible(
    states: RecoveryStates,
    max_attempts: u32,
    keys: Seq<ActionKey>,
) -> bool {
    &&& action_names(keys).no_duplicates()
    &&& forall|key: ActionName|
        #[trigger] action_names(keys).contains(key) <==> is_eligible(states, key, max_attempts)
}

/// An entry makes `key` eligible.
spec fn offers(entry: (ActionKey, RecoveryState), key: ActionName, max_attempts: u32) -> bool {
    entry.0@ == key && entry.1.armed && entry.1.attempts < max_attempts
}

/// Some entry makes `key` eligible.
spec fn is_offered(
    entries: Seq<(ActionKey, RecoveryState)>,
    key: ActionName,
    max_attempts: u32,
) -> bool {
    exists|j: int| 0 <= j < entries.len() && #[trigger] offers(entries[j], key, max_attempts)
}

/// Tracks actions whose output was reported missing, so that they can be run again.
///
/// [`record_missing`] arms an action. [`keys_eligible_for_recovery`] lists the armed
/// actions that have attempts left. [`record_repair_attempt`] is the charge: it counts
/// an attempt and disarms the action. A disarmed action is in no later list until a
/// new failure arms it again, so that a repair that worked is not handed out a second
/// time. Once an action has no attempts left its failure is fatal.
///
/// [`record_missing`]: CasMissingRecoveryRegistry::record_missing
/// [`keys_eligible_for_recovery`]: CasMissingRecoveryRegistry::keys_eligible_for_recovery
/// [`record_repair_attempt`]: CasMissingRecoveryRegistry::record_repair_attempt
#[derive(Debug)]
pub struct CasMissingRecoveryRegistry {
    state: KeyedMap<ActionKey, RecoveryState>,
}

impl View for CasMissingRecoveryRegistry {
    type V = RecoveryStates;

    closed spec fn view(&self) -> RecoveryStates {
        self.state@
    }
}

impl CasMissingRecoveryRegistry {
    /// Nothing is tracked.
    pub fn new() -> (registry: Self)
        ensures
            registry@ == RecoveryStates::empty(),
    {
        CasMissingRecoveryRegistry { state: KeyedMap::new() }
    }

    /// Arms an action. One that is armed already keeps its attempts.
    pub fn record_missing(&mut self, key: ActionKey)
        ensures
            final(self)@ == after_missing(old(self)@, key@),
    {
        let attempts: u32 = match self.state.get(&key) {
            Some(state) => state.attempts,
            None => 0,
        };
        self.state.insert(key, RecoveryState { attempts, armed: true });
    }

    /// Lists every armed action that has attempts left. Nothing changes: between
    /// failures the list is the same each time.
    pub fn keys_eligible_for_recovery(&self, max_attempts: u32) -> (keys: Vec<ActionKey>)
        ensures
            lists_eligible(self@, max_attempts, keys@),
    {
        let mut keys: Vec<ActionKey> = Vec::new();
        let count: usize = self.state.len();
        let ghost entries = self.state.entries();
        let ghost states = self@;
        let mut i: usize = 0;
        assert(action_names(keys@) =~= Seq::empty());
        while i < count
            invariant
                i <= count,
                count == entries.len(),
                entries == self.state.entries(),
                has_no_twins(entries),
                states == by_key(entries),
                forall|k: int|
                    0 <= k < keys@.len() ==> is_offered(
                        entries.take(i as int),
                        (#[trigger] keys@[k])@,
                        max_attempts,
                    ),
                forall|j: int|
                    0 <= j < i && entries[j].1.armed && entries[j].1.attempts < max_attempts
                        ==> action_names(keys@).contains((#[trigger] entries[j]).0@),
                action_names(keys@).no_duplicates(),
            decreases count - i,
        {
            let (key, state) = self.state.entry(i);
            let ghost before = keys@;
            if state.armed && state.attempts < max_attempts {
                keys.push(key.clone());
                proof {
                    assert(action_names(keys@) =~= action_names(before).push(key@));
                    assert(!action_names(before).contains(key@)) by {
                        if action_names(before).contains(key@) {
                            let k = choose|k: int|
                                0 <= k < action_names(before).len() && action_names(before)[k]
                                    == key@;
                            assert(is_offered(entries.take(i as int), before[k]@, max_attempts));
                            let j = choose|j: int|
                                0 <= j < i && #[trigger] offers(
                                    entries.take(i as int)[j],
                                    before[k]@,
                                    max_attempts,
                                );
                            assert(entries[j].0@ != entries[i as int].0@);
                        }
                    }
                    assert forall|j: int|
                        0 <= j < i + 1 && entries[j].1.armed && entries[j].1.attempts
                            < max_attempts implies action_names(keys@).contains(
                        (#[trigger] entries[j]).0@,
                    ) by {
                        if j < i {
                            let k = choose|k: int|
                                0 <= k < action_names(before).len() && action_names(before)[k]
                                    == entries[j].0@;
                            assert(action_names(keys@)[k] == entries[j].0@);
                        } else {
                            assert(action_names(keys@)[before.len() as int] == entries[j].0@);
                        }
                    }
                }
            }
            proof {
                assert forall|k: int| 0 <= k < keys@.len() implies is_offered(
                    entries.take(i + 1),
                    (#[trigger] keys@[k])@,
                    max_attempts,
                ) by {
                    let later = entries.take(i + 1);
                    if k < before.len() {
                        assert(is_offered(entries.take(i as int), before[k]@, max_attempts));
                        let j = choose|j: int|
                            0 <= j < i && #[trigger] offers(
                                entries.take(i as int)[j],
                                before[k]@,
                                max_attempts,
                            );
                        assert(offers(later[j], keys@[k]@, max_attempts));
                    } else {
                        assert(offers(later[i as int], keys@[k]@, max_attempts));
                    }
                }
            }
            i = i + 1;
        }
        proof {
            assert(entries.take(i as int) =~= entries);
            assert forall|name: ActionName|
                #[trigger] action_names(keys@).contains(name) <==> is_eligible(
                    states,
                    name,
                    max_attempts,
                ) by {
                entries_are_found(entries, name);
                if action_names(keys@).contains(name) {
                    let k = choose|k: int|
                        0 <= k < action_names(keys@).len() && action_names(keys@)[k] == name;
                    assert(keys@[k]@ == name);
                    assert(is_offered(entries, name, max_attempts));
                    let j = choose|j: int|
                        0 <= j < entries.len() && #[trigger] offers(
                            entries[j],
                            keys@[k]@,
                            max_attempts,
                        );
                    assert(entries[j].0@ == name);
                }
                if is_eligible(states, name, max_attempts) {
                    let j = choose|j: int|
                        0 <= j < entries.len() && (#[trigger] entries[j]).0@ == name;
                    assert(entries[j].1 == states[name]);
                }
            }
        }
        keys
    }

    /// Charges one repair to an action: counts an attempt and disarms it. An action
    /// that is not armed is left alone, so that of several runs of it after one
    /// failure only the first pays. Reports whether this call charged the attempt.
    pub fn record_repair_attempt(&mut self, key: &ActionKey) -> (charged: bool)
        requires
            is_armed(old(self)@, key@) ==> old(self)@[key@].attempts < u32::MAX,
        ensures
            charged == is_armed(old(self)@, key@),
            final(self)@ == after_repair(old(self)@, key@),
    {
        let attempts: u32 = match self.state.get(key) {
            Some(state) => if state.armed {
                state.attempts
            } else {
                return false;
            },
            None => {
                return false;
            },
        };
        self.state.insert(key.clone(), RecoveryState { attempts: attempts + 1, armed: false });
        true
    }

    /// How many repairs of an action have run; nothing where it is not tracked.
    pub fn attempts(&self, key: &ActionKey) -> (attempts: Option<u32>)
        ensures
            attempts == if self@.contains_key(key@) {
                Some(self@[key@].attempts)
            } else {
                None
            },
    {
        match self.state.get(key) {
            Some(state) => Some(state.attempts),
            None => None,
        }
    }
}

/// Reporting an action missing twice is the same as reporting it once.
pub proof fn recording_missing_is_idempotent(states: RecoveryStates, key: ActionName)
    ensures
        after_missing(after_missing(states, key), key) == after_missing(states, key),
{
    assert(after_missing(after_missing(states, key), key) =~= after_missing(states, key));
}

/// Until an action is armed again, further runs of it charge nothing.
pub proof fn charging_is_idempotent(states: RecoveryStates, key: ActionName)
    ensures
        after_repair(after_repair(states, key), key) == after_repair(states, key),
        !is_armed(after_repair(states, key), key),
{
}

/// What is recorded of one action changes nothing about another.
pub proof fn actions_are_independent(states: RecoveryStates, key: ActionName, other: ActionName)
    requires
        key != other,
    ensures
        after_missing(states, key).contains_key(other) == states.contains_key(other),
        states.contains_key(other) ==> after_missing(states, key)[other] == states[other],
        after_repair(states, key).contains_key(other) == states.contains_key(other),
        states.contains_key(other) ==> after_repair(states, key)[other] == states[other],
{
}

/// Something that happens to the registry.
pub ghost enum RegistryEvent {
    Missing(ActionName),
    Repaired(ActionName),
}

/// What is known after some events, one after the other.
pub open spec fn after_events(states: RecoveryStates, events: Seq<RegistryEvent>) -> RecoveryStates
    decreases events.len(),
{
    if events.len() == 0 {
        states
    } else {
        let before = after_events(states, events.drop_last());
        match events.last() {
            RegistryEvent::Missing(key) => after_missing(before, key),
            RegistryEvent::Repaired(key) => after_repair(before, key),
        }
    }
}

/// No counter is at its end when an event charges it.
pub open spec fn has_room(states: RecoveryStates, events: Seq<RegistryEvent>) -> bool {
    forall|i: int|
        0 <= i < events.len() ==> (#[trigger] events[i] matches RegistryEvent::Repaired(key)
            ==> is_armed(after_events(states, events.take(i)), key) ==> after_events(
            states,
            events.take(i),
        )[key].attempts < u32::MAX)
}

/// Once an action has used up its attempts it is never eligible again, whatever
/// happens later.
pub proof fn spent_attempts_are_final(
    states: RecoveryStates,
    events: Seq<RegistryEvent>,
    key: ActionName,
    max_attempts: u32,
)
    requires
        states.contains_key(key),
        states[key].attempts >= max_attempts,
        has_room(states, events),
    ensures
        after_events(states, events).contains_key(key),
        after_events(states, events)[key].attempts >= max_attempts,
        !is_eligible(after_events(states, events), key, max_attempts),
    decreases events.len(),
{
    if events.len() > 0 {
        let earlier = events.drop_last();
        assert forall|i: int| 0 <= i < earlier.len() implies (
        #[trigger] earlier[i] matches RegistryEvent::Repaired(k) ==> is_armed(
            after_events(states, earlier.take(i)),
            k,
        ) ==> after_events(states, earlier.take(i))[k].attempts < u32::MAX) by {
            assert(earlier[i] == events[i]);
            assert(earlier.take(i) =~= events.take(i));
        }
        spent_attempts_are_final(states, earlier, key, max_attempts);
        let last = events.len() - 1;
        assert(events.take(last) =~= earlier);
        assert(events[last] == events.last());
    }
}

/// A repair that was charged disarms its action, and until a new failure arms it
/// again the action is in no later round, whatever else happens.
pub proof fn repaired_actions_wait_for_a_failure(
    states: RecoveryStates,
    key: ActionName,
    events: Seq<RegistryEvent>,
    max_attempts: u32,
)
    requires
        forall|i: int| 0 <= i < events.len() ==> #[trigger] events[i] != RegistryEvent::Missing(key),
    ensures
        !is_armed(after_events(after_repair(states, key), events), key),
        !is_eligible(after_events(after_repair(states, key), events), key, max_attempts),
    decreases events.len(),
{
    if events.len() > 0 {
        let earlier = events.drop_last();
        assert forall|i: int| 0 <= i < earlier.len() implies #[trigger] earlier[i]
            != RegistryEvent::Missing(key) by {
            assert(events[i] != RegistryEvent::Missing(key));
        }
        repaired_actions_wait_for_a_failure(states, key, earlier, max_attempts);
        assert(events[events.len() - 1] != RegistryEvent::Missing(key));
    }
}

/// A set of actions.
#[derive(Debug)]
pub struct ActionKeySet {
    keys: KeyedMap<ActionKey, ()>,
}

impl View for ActionKeySet {
    type V = Set<ActionName>;

    closed spec fn view(&self) -> Set<ActionName> {
        self.keys@.dom()
    }
}

impl ActionKeySet {
    /// No actions.
    pub fn new() -> (set: Self)
        ensures
            set@ == Set::<ActionName>::empty(),
    {
        let set = ActionKeySet { keys: KeyedMap::new() };
        assert(set@ =~= Set::empty());
        set
    }

    /// Adds an action.
    pub fn insert(&mut self, key: ActionKey)
        ensures
            final(self)@ == old(self)@.insert(key@),
    {
        self.keys.insert(key, ());
        assert(self@ =~= old(self)@.insert(key@));
    }

    /// Reports whether an action is in the set.
    pub fn contains(&self, key: &ActionKey) -> (found: bool)
        ensures
            found == self@.contains(key@),
    {
        self.keys.contains(key)
    }

    /// How many actions are in the set.
    pub fn len(&self) -> (len: usize)
        ensures
            self@.finite(),
            len == self@.len(),
    {
        let len: usize = self.keys.len();
        proof {
            entries_are_counted(self.keys.entries());
        }
        len
    }

    /// Reports whether no action is in the set.
    pub fn is_empty(&self) -> (empty: bool)
        ensures
            empty == (self@ == Set::<ActionName>::empty()),
    {
        let len: usize = self.len();
        if len == 0 {
            assert(self@ =~= Set::empty()) by {
                assert(self@.len() == 0);
                self@.lemma_len0_is_empty();
            }
        }
        len == 0
    }
}

impl Clone for ActionKeySet {
    fn clone(&self) -> (res: Self)
        ensures
            res@ == self@,
    {
        let mut res = ActionKeySet::new();
        let count: usize = self.keys.len();
        let ghost entries = self.keys.entries();
        let mut i: usize = 0;
        assert(by_key(entries.take(0)).dom() =~= Set::empty());
        while i < count
            invariant
                i <= count,
                count == entries.len(),
                entries == self.keys.entries(),
                res@ == by_key(entries.take(i as int)).dom(),
            decreases count - i,
        {
            let (key, _) = self.keys.entry(i);
            assert(entries.take(i + 1).drop_last() =~= entries.take(i as int));
            res.insert(key.clone());
            assert(res@ =~= by_key(entries.take(i + 1)).dom());
            i = i + 1;
        }
        assert(entries.take(i as int) =~= entries);
        res
    }
}

/// The actions that are run again in the round that is running, and how many of the
/// command's actions were.
///
/// The batch outlives its round, so that a command that runs several rounds keeps one
/// batch over all of them. The count belongs here and not in the registry because a
/// command reads it to tell a round that made progress from one that made none; a
/// count in the registry would also go up for what other commands repair. Those who
/// share one batch share it behind a lock.
#[derive(Debug)]
pub struct CasRecoveryBatch {
    keys: ActionKeySet,
    repairs_charged: u64,
}

/// What a batch holds.
pub ghost struct BatchState {
    pub keys: Set<ActionName>,
    pub repairs_charged: u64,
}

impl BatchState {
    /// The batch once one more repair was charged.
    pub open spec fn with_repair(self) -> BatchState {
        BatchState {
            repairs_charged: if self.repairs_charged == u64::MAX {
                0
            } else {
                (self.repairs_charged + 1) as u64
            },
            ..self
        }
    }
}

impl View for CasRecoveryBatch {
    type V = BatchState;

    closed spec fn view(&self) -> BatchState {
        BatchState { keys: self.keys@, repairs_charged: self.repairs_charged }
    }
}

impl CasRecoveryBatch {
    /// No actions, no repairs.
    pub fn empty() -> (batch: Self)
        ensures
            batch@ == (BatchState { keys: Set::empty(), repairs_charged: 0 }),
    {
        CasRecoveryBatch { keys: ActionKeySet::new(), repairs_charged: 0 }
    }

    /// A batch of the given actions, without repairs.
    pub fn new(keys: ActionKeySet) -> (batch: Self)
        ensures
            batch@ == (BatchState { keys: keys@, repairs_charged: 0 }),
    {
        CasRecoveryBatch { keys, repairs_charged: 0 }
    }

    /// Reports whether an action is run again in this round.
    pub fn contains(&self, key: &ActionKey) -> (found: bool)
        ensures
            found == self@.keys.contains(key@),
    {
        self.keys.contains(key)
    }

    /// The actions that are run again in this round. Later rounds do not change what
    /// is handed out here.
    pub fn staged(&self) -> (staged: ActionKeySet)
        ensures
            staged@ == self@.keys,
    {
        self.keys.clone()
    }

    /// How many repairs were charged to the command. The count goes up exactly when
    /// an action of the batch was run again.
    pub fn repairs_charged(&self) -> (repairs: u64)
        ensures
            repairs == self@.repairs_charged,
    {
        self.repairs_charged
    }

    /// Counts one repair.
    pub fn record_repair_charged(&mut self)
        ensures
            final(self)@ == old(self)@.with_repair(),
    {
        if self.repairs_charged == u64::MAX {
            self.repairs_charged = 0;
        } else {
            self.repairs_charged = self.repairs_charged + 1;
        }
    }

    /// Makes `keys` the batch, in place of what an earlier round left.
    pub fn replace(&mut self, keys: Vec<ActionKey>)
        ensures
            final(self)@ == (BatchState { keys: action_names(keys@).to_set(), ..old(self)@ }),
    {
        let mut set = ActionKeySet::new();
        let ghost all = keys@;
        assert(action_names(all.take(0)).to_set() =~= Set::empty());
        for key in it: keys.into_iter()
            invariant
                it.seq() == all,
                set@ == action_names(all.take(it.index() as int)).to_set(),
        {
            proof {
                let before = action_names(all.take(it.index() as int));
                let after = action_names(all.take(it.index() + 1));
                assert(after =~= before.push(key@));
                assert forall|name: ActionName| after.to_set().contains(name) == before.to_set().insert(
                    key@,
                ).contains(name) by {
                    if before.contains(name) {
                        let k = choose|k: int| 0 <= k < before.len() && before[k] == name;
                        assert(after[k] == name);
                    }
                    if name == key@ {
                        assert(after[before.len() as int] == name);
                    }
                    if after.contains(name) && name != key@ {
                        let k = choose|k: int| 0 <= k < after.len() && after[k] == name;
                        assert(before[k] == name);
                    }
                }
                assert(after.to_set() =~= before.to_set().insert(key@));
            }
            set.insert(key);
        }
        assert(all.take(all.len() as int) =~= all);
        self.keys = set;
    }
}

/// The limits of recovery.
#[derive(Clone, Copy, Debug, PartialEq, Eq, Structural)]
pub struct CasMissingRecoveryConfig {
    /// How often one action may run again before its failure is fatal.
    pub max_action_attempts: u32,
    /// How many rounds one command may stage beyond the one it opens with. Each heals
    /// one layer of a dependency chain, so this sets how deep a cascade one command
    /// works through, and bounds a build whose repairs keep arming actions.
    pub max_rounds: u32,
}

/// Lets the limits of recovery be set.
pub trait SetCasMissingRecoveryConfig {
    /// Sets the limits.
    fn set_cas_missing_recovery_config(&mut self, config: CasMissingRecoveryConfig);
}

/// Knows the limits of recovery.
pub trait HasCasMissingRecoveryConfig {
    /// The limits, if they are set.
    spec fn recovery_config(&self) -> Option<CasMissingRecoveryConfig>;

    /// The limits, which must be set.
    fn get_cas_missing_recovery_config(&self) -> (config: CasMissingRecoveryConfig)
        requires
            self.recovery_config() is Some,
        ensures
            self.recovery_config() == Some(config),
    ;
}

/// Lets the registry be set.
pub trait SetCasMissingRecoveryRegistry {
    /// Sets the registry.
    fn set_cas_missing_recovery_registry(&mut self, registry: CasMissingRecoveryRegistry);
}

/// Knows the registry.
pub trait HasCasMissingRecoveryRegistry {
    /// What the registry tracks, if it is set.
    spec fn recovery_states(&self) -> Option<RecoveryStates>;

    /// The registry, which must be set.
    fn get_cas_missing_recovery_registry(&self) -> (registry: &CasMissingRecoveryRegistry)
        requires
            self.recovery_states() is Some,
        ensures
            self.recovery_states() == Some(registry@),
    ;
}

/// Lets the batch be set.
pub trait SetCasRecoveryBatch {
    /// Sets the batch.
    fn set_cas_recovery_batch(&mut self, batch: CasRecoveryBatch);
}

/// Knows the batch.
pub trait HasCasRecoveryBatch {
    /// What the batch holds, if it is set.
    spec fn recovery_batch(&self) -> Option<BatchState>;

    /// The batch, which must be set.
    fn get_cas_recovery_batch(&self) -> (batch: &CasRecoveryBatch)
        requires
            self.recovery_batch() is Some,
        ensures
            self.recovery_batch() == Some(batch@),
    ;
}

/// What a computation carries along for recovery.
#[derive(Debug)]
pub struct UserComputationData {
    pub registry: Option<CasMissingRecoveryRegistry>,
    pub batch: Option<CasRecoveryBatch>,
    pub config: Option<CasMissingRecoveryConfig>,
}

impl UserComputationData {
    /// Nothing is set.
    pub fn new() -> (data: Self)
        ensures
            data.registry is None,
            data.batch is None,
            data.config is None,
    {
        UserComputationData { registry: None, batch: None, config: None }
    }
}

impl SetCasMissingRecoveryConfig for UserComputationData {
    fn set_cas_missing_recovery_config(&mut self, config: CasMissingRecoveryConfig)
        ensures
            *final(self) == (UserComputationData { config: Some(config), ..*old(self) }),
    {
        self.config = Some(config);
    }
}

impl HasCasMissingRecoveryConfig for UserComputationData {
    open spec fn recovery_config(&self) -> Option<CasMissingRecoveryConfig> {
        self.config
    }

    fn get_cas_missing_recovery_config(&self) -> (config: CasMissingRecoveryConfig) {
        self.config.unwrap()
    }
}

impl SetCasMissingRecoveryRegistry for UserComputationData {
    fn set_cas_missing_recovery_registry(&mut self, registry: CasMissingRecoveryRegistry)
        ensures
            *final(self) == (UserComputationData { registry: Some(registry), ..*old(self) }),
    {
        self.registry = Some(registry);
    }
}

impl HasCasMissingRecoveryRegistry for UserComputationData {
    open spec fn recovery_states(&self) -> Option<RecoveryStates> {
        match self.registry {
            Some(registry) => Some(registry@),
            None => None,
        }
    }

    fn get_cas_missing_recovery_registry(&self) -> (registry: &CasMissingRecoveryRegistry) {
        self.registry.as_ref().unwrap()
    }
}

impl SetCasRecoveryBatch for UserComputationData {
    fn set_cas_recovery_batch(&mut self, batch: CasRecoveryBatch)
        ensures
            *final(self) == (UserComputationData { batch: Some(batch), ..*old(self) }),
    {
        self.batch = Some(batch);
    }
}

impl HasCasRecoveryBatch for UserComputationData {
    open spec fn recovery_batch(&self) -> Option<BatchState> {
        match self.batch {
            Some(batch) => Some(batch@),
            None => None,
        }
    }

    fn get_cas_recovery_batch(&self) -> (batch: &CasRecoveryBatch) {
        self.batch.as_ref().unwrap()
    }
}

/// `build_keys` are the computations of the actions in `keys`.
pub open spec fn computes(keys: Seq<ActionKey>, build_keys: Seq<BuildKey>) -> bool {
    &&& build_keys.len() == keys.len()
    &&& forall|i: int| 0 <= i < keys.len() ==> (#[trigger] build_keys[i]).0 == keys[i]
}

/// Invalidates the computations of the actions in `keys`, so that the next request
/// for one of them runs it again.
pub fn invalidate_actions_for_recovery<E, F: FnOnce(Vec<BuildKey>) -> Result<(), E>>(
    keys: &Vec<ActionKey>,
    changed: F,
) -> (invalidated: Result<(), E>)
    requires
        forall|build_keys: Vec<BuildKey>| #[trigger] call_requires(changed, (build_keys,)),
    ensures
        exists|build_keys: Vec<BuildKey>|
            {
                &&& computes(keys@, build_keys@)
                &&& #[trigger] call_ensures(changed, (build_keys,), invalidated)
            },
{
    let mut build_keys: Vec<BuildKey> = Vec::new();
    let mut i: usize = 0;
    while i < keys.len()
        invariant
            i <= keys@.len(),
            build_keys@.len() == i,
            forall|j: int| 0 <= j < i ==> (#[trigger] build_keys@[j]).0 == keys@[j],
        decreases keys@.len() - i,
    {
        build_keys.push(BuildKey(keys[i].clone()));
        i = i + 1;
    }
    changed(build_keys)
}

/// `changed` may come to `outcome` when it is asked to invalidate the actions that
/// are eligible.
pub open spec fn invalidates_eligible<E, F: FnOnce(Vec<BuildKey>) -> Result<(), E>>(
    states: RecoveryStates,
    max_attempts: u32,
    changed: F,
    outcome: Result<(), E>,
) -> bool {
    exists|keys: Seq<ActionKey>, build_keys: Vec<BuildKey>|
        {
            &&& #[trigger] lists_eligible(states, max_attempts, keys)
            &&& computes(keys, build_keys@)
            &&& #[trigger] call_ensures(changed, (build_keys,), outcome)
        }
}

/// The actions that are eligible.
pub open spec fn eligible(states: RecoveryStates, max_attempts: u32) -> Set<ActionName> {
    Set::new(|key: ActionName| is_eligible(states, key, max_attempts))
}

/// Staging a round comes to `staged` and turns the batch `before` into `after`: what
/// is eligible is invalidated and makes up the batch, or, where `changed` fails,
/// nothing does.
pub open spec fn stages_eligible<E, F: FnOnce(Vec<BuildKey>) -> Result<(), E>>(
    states: RecoveryStates,
    max_attempts: u32,
    changed: F,
    before: BatchState,
    after: BatchState,
    staged: Result<usize, E>,
) -> bool {
    &&& eligible(states, max_attempts) == Set::<ActionName>::empty() ==> staged == Ok::<usize, E>(
        0,
    )
    &&& match staged {
        Ok(count) => {
            &&& after == (BatchState { keys: eligible(states, max_attempts), ..before })
            &&& after.keys.finite()
            &&& count == after.keys.len()
            &&& count > 0 ==> invalidates_eligible(
                states,
                max_attempts,
                changed,
                Ok::<(), E>(()),
            )
        },
        Err(error) => {
            &&& after == (BatchState { keys: Set::empty(), ..before })
            &&& invalidates_eligible(states, max_attempts, changed, Err::<(), E>(error))
        },
    }
}

/// Takes every action that is armed and has attempts left, has its computation
/// invalidated by `changed`, and makes it part of the batch.
///
/// Comes to how many actions were staged. Zero means that nothing is left to repair.
/// An error means that invalidating failed, which no further round can get past. The
/// registry stays as it is: an action is charged only once it has run again, so one
/// that is staged here and never requested stays armed. Short of a success the batch
/// is left empty, so that caches are only passed by for actions that really were
/// invalidated. Where no action is eligible, `changed` is not called.
pub fn stage_cas_recovery_round<E, F: FnOnce(Vec<BuildKey>) -> Result<(), E>>(
    registry: &CasMissingRecoveryRegistry,
    max_attempts: u32,
    batch: &mut CasRecoveryBatch,
    changed: F,
) -> (staged: Result<usize, E>)
    requires
        eligible(registry@, max_attempts) != Set::<ActionName>::empty() ==> forall|
            build_keys: Vec<BuildKey>,
        | #[trigger] call_requires(changed, (build_keys,)),
    ensures
        stages_eligible(registry@, max_attempts, changed, old(batch)@, final(batch)@, staged),
{
    let keys = registry.keys_eligible_for_recovery(max_attempts);
    let ghost names = action_names(keys@);
    proof {
        assert forall|key: ActionName| names.to_set().contains(key) == eligible(
            registry@,
            max_attempts,
        ).contains(key) by {
            assert(names.contains(key) <==> is_eligible(registry@, key, max_attempts));
        }
        assert(names.to_set() =~= eligible(registry@, max_attempts));
        names.unique_seq_to_set();
        vstd::seq_lib::seq_to_set_is_finite(names);
    }
    if keys.len() == 0 {
        assert(names.to_set() =~= Set::empty());
        batch.replace(Vec::new());
        assert(action_names(Seq::empty()).to_set() =~= Set::empty());
        return Ok(0);
    }
    assert(names.contains(names[0]));
    assert(eligible(registry@, max_attempts).contains(names[0]));
    match invalidate_actions_for_recovery(&keys, changed) {
        Err(error) => {
            batch.replace(Vec::new());
            assert(action_names(Seq::empty()).to_set() =~= Set::empty());
            Err(error)
        },
        Ok(done) => {
            assert(done == ());
            let staged: usize = keys.len();
            batch.replace(keys);
            Ok(staged)
        },
    }
}

/// An output that is reported missing arms the action that made it, leaves its count of
/// attempts alone, and touches no other action.
pub proof fn missing_outputs_arm_their_action(
    states: RecoveryStates,
    key: ActionName,
    other: ActionName,
)
    ensures
        ({
            let after = after_missing(states, key);
            &&& after.contains_key(key)
            &&& after[key].armed
            &&& states.contains_key(key) ==> after[key].attempts == states[key].attempts
            &&& !states.contains_key(key) ==> after[key].attempts == 0
            &&& other != key ==> (after.contains_key(other) <==> states.contains_key(other))
            &&& other != key && states.contains_key(other) ==> after[other] == states[other]
        }),
{
}

/// A repair of an armed action counts one attempt and disarms the action; any other
/// repair changes nothing.
pub proof fn repairs_count_one_attempt(
    states: RecoveryStates,
    key: ActionName,
    other: ActionName,
)
    requires
        states.contains_key(key) ==> states[key].attempts < u32::MAX,
    ensures
        ({
            let after = after_repair(states, key);
            &&& states.contains_key(key) && states[key].armed ==> {
                &&& after.contains_key(key)
                &&& !after[key].armed
                &&& after[key].attempts == states[key].attempts + 1
            }
            &&& !(states.contains_key(key) && states[key].armed) ==> after == states
            &&& other != key ==> (after.contains_key(other) <==> states.contains_key(other))
            &&& other != key && states.contains_key(other) ==> after[other] == states[other]
        }),
{
}

/// Exactly the actions that are armed and have run fewer repairs than they may are
/// eligible, and every list of them names each once and no other.
pub proof fn armed_actions_with_attempts_left_are_listed(
    states: RecoveryStates,
    max_attempts: u32,
    keys: Seq<ActionKey>,
    key: ActionName,
)
    requires
        lists_eligible(states, max_attempts, keys),
    ensures
        (exists|i: int| 0 <= i < keys.len() && (#[trigger] keys[i])@ == key)
            <==> states.contains_key(key) && states[key].armed && states[key].attempts
            < max_attempts,
        eligible(states, max_attempts).contains(key) <==> states.contains_key(key)
            && states[key].armed && states[key].attempts < max_attempts,
        forall|i: int, j: int|
            #![trigger keys[i], keys[j]]
            0 <= i < keys.len() && 0 <= j < keys.len() && i != j ==> keys[i]@ != keys[j]@,
{
    let names = action_names(keys);
    assert(names.contains(key) <==> is_eligible(states, key, max_attempts));
    if names.contains(key) {
        let i = choose|i: int| 0 <= i < names.len() && names[i] == key;
        assert(keys[i]@ == key);
    }
    if exists|i: int| 0 <= i < keys.len() && (#[trigger] keys[i])@ == key {
        let i = choose|i: int| 0 <= i < keys.len() && (#[trigger] keys[i])@ == key;
        assert(names[i] == key);
    }
    assert forall|i: int, j: int|
        #![trigger keys[i], keys[j]]
        0 <= i < keys.len() && 0 <= j < keys.len() && i != j implies keys[i]@ != keys[j]@ by {
        assert(names[i] != names[j]);
    }
}

/// Whatever `changed` came to, it was asked to invalidate the computation of every
/// action that is armed and has attempts left, and of no other.
pub proof fn eligible_actions_are_invalidated<E, F: FnOnce(Vec<BuildKey>) -> Result<(), E>>(
    states: RecoveryStates,
    max_attempts: u32,
    changed: F,
    outcome: Result<(), E>,
) -> (build_keys: Vec<BuildKey>)
    requires
        invalidates_eligible(states, max_attempts, changed, outcome),
    ensures
        call_ensures(changed, (build_keys,), outcome),
        forall|key: ActionName|
            #![trigger states.contains_key(key)]
            states.contains_key(key) && states[key].armed && states[key].attempts < max_attempts
                <==> exists|i: int| 0 <= i < build_keys@.len() && (#[trigger] build_keys@[i]).0@
                == key,
{
    let (keys, build_keys) = choose|keys: Seq<ActionKey>, build_keys: Vec<BuildKey>|
        {
            &&& #[trigger] lists_eligible(states, max_attempts, keys)
            &&& computes(keys, build_keys@)
            &&& #[trigger] call_ensures(changed, (build_keys,), outcome)
        };
    assert forall|key: ActionName|
        #![trigger states.contains_key(key)]
        states.contains_key(key) && states[key].armed && states[key].attempts < max_attempts
            <==> exists|i: int| 0 <= i < build_keys@.len() && (#[trigger] build_keys@[i]).0@
            == key by {
        armed_actions_with_attempts_left_are_listed(states, max_attempts, keys, key);
        if exists|i: int| 0 <= i < keys.len() && (#[trigger] keys[i])@ == key {
            let i = choose|i: int| 0 <= i < keys.len() && (#[trigger] keys[i])@ == key;
            assert(build_keys@[i].0@ == key);
        }
        if exists|i: int| 0 <= i < build_keys@.len() && (#[trigger] build_keys@[i]).0@ == key {
            let i = choose|i: int|
                0 <= i < build_keys@.len() && (#[trigger] build_keys@[i]).0@ == key;
            assert(keys[i]@ == key);
        }
    }
    build_keys
}

/// A staged round holds exactly the actions that are armed and have attempts left; a
/// round that could not be staged holds none. Neither counts as a repair.
pub proof fn staged_rounds_hold_what_is_armed<E, F: FnOnce(Vec<BuildKey>) -> Result<(), E>>(
    states: RecoveryStates,
    max_attempts: u32,
    changed: F,
    before: BatchState,
    after: BatchState,
    staged: Result<usize, E>,
    key: ActionName,
)
    requires
        stages_eligible(states, max_attempts, changed, before, after, staged),
    ensures
        after.repairs_charged == before.repairs_charged,
        staged is Ok ==> (after.keys.contains(key) <==> states.contains_key(key)
            && states[key].armed && states[key].attempts < max_attempts),
        staged is Ok ==> staged->Ok_0 == after.keys.len(),
        staged is Err ==> !after.keys.contains(key),
        staged is Err ==> exists|some: ActionName|
            #![trigger states.contains_key(some)]
            states.contains_key(some) && states[some].armed && states[some].attempts
                < max_attempts,
{
    if staged is Err {
        let all = eligible(states, max_attempts);
        if forall|some: ActionName| #[trigger] states.contains_key(some) ==> !(
        states[some].armed && states[some].attempts < max_attempts) {
            assert(all =~= Set::empty());
        }
    }
}

/// A charged repair goes up by one, round the end of the counter, and leaves the
/// batch's actions alone; so two counts that differ by one charge are never equal.
pub proof fn charged_repairs_show(batch: BatchState)
    ensures
        batch.with_repair().keys == batch.keys,
        batch.with_repair().repairs_charged != batch.repairs_charged,
        batch.repairs_charged < u64::MAX ==> batch.with_repair().repairs_charged
            == batch.repairs_charged + 1,
        batch.repairs_charged == u64::MAX ==> batch.with_repair().repairs_charged == 0,
{
}

/// The attempts of an action are counted where it is tracked, and nowhere else.
pub proof fn attempts_are_known_of_tracked_actions(
    registry: CasMissingRecoveryRegistry,
    key: ActionKey,
    attempts: Option<u32>,
)
    requires
        call_ensures(CasMissingRecoveryRegistry::attempts, (&registry, &key), attempts),
    ensures
        attempts is Some <==> registry@.contains_key(key@),
        attempts is Some ==> attempts->0 == registry@[key@].attempts,
{
}

/// Where anything is armed with attempts left, staging asks to have what is eligible
/// invalidated, and fails with what it was told exactly where that fails.
pub proof fn rounds_are_staged_by_invalidating<E, F: FnOnce(Vec<BuildKey>) -> Result<(), E>>(
    states: RecoveryStates,
    max_attempts: u32,
    changed: F,
    before: BatchState,
    after: BatchState,
    staged: Result<usize, E>,
    some: ActionName,
)
    requires
        stages_eligible(states, max_attempts, changed, before, after, staged),
        states.contains_key(some),
        states[some].armed,
        states[some].attempts < max_attempts,
    ensures
        staged is Ok ==> invalidates_eligible(states, max_attempts, changed, Ok::<(), E>(())),
        staged matches Err(error) ==> invalidates_eligible(
            states,
            max_attempts,
            changed,
            Err::<(), E>(error),
        ),
        staged is Ok ==> staged->Ok_0 > 0 && after.keys.contains(some),
{
    if staged is Ok {
        assert(after.keys.contains(some));
    }
}

} // verus!
