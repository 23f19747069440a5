//! Finding actions, and gathering what they need before they run.
use vstd::prelude::*;
use vstd::string::*;

use crate::attribution::ArtifactGroupValues;
use crate::cas_missing_recovery::ActionKey;
use crate::error::Error;
use crate::keyed::{by_key, entries_are_found, has_no_twins, with_entry, Key, KeyedMap};

verus! {

/// Computes the results of actions.
#[derive(Debug)]
pub struct ActionCalculation;

/// What the computation of an action is known by.
#[derive(Debug)]
pub struct BuildKey(pub ActionKey);

/// An output of an action, known by the action that produces it.
#[derive(Debug)]
pub struct BuildArtifact {
    pub key: ActionKey,
}

/// What a holder of actions knows under a key.
#[derive(Debug)]
pub enum ActionLookup<A> {
    /// The action.
    Action(A),
    /// Another key, under which the action is to be looked for.
    Deferred(ActionKey),
}

/// What to do about a key that was looked up.
#[derive(Debug)]
pub enum LookupStep<A> {
    /// The action is found.
    Found(A),
    /// Look under this key.
    LookUp(ActionKey),
}

impl ActionCalculation {
    /// Finds an action by its key, one lookup at a time. Mostly a single lookup is
    /// enough; an output that a dynamic output binds to another one leads on to the
    /// key under which it is bound there.
    pub fn get_action<A>(lookup: ActionLookup<A>) -> (step: LookupStep<A>)
        ensures
            lookup matches ActionLookup::Action(action) ==> step == LookupStep::Found(action),
            lookup matches ActionLookup::Deferred(key) ==> step == LookupStep::<A>::LookUp(key),
    {
        match lookup {
            ActionLookup::Action(action) => LookupStep::Found(action),
            ActionLookup::Deferred(key) => LookupStep::LookUp(key),
        }
    }

    /// The computation of an action.
    pub fn build_action(action_key: &ActionKey) -> (key: BuildKey)
        ensures
            key.0 == *action_key,
    {
        BuildKey(action_key.clone())
    }

    /// The computation of an output.
    pub fn build_artifact(artifact: &BuildArtifact) -> (key: BuildKey)
        ensures
            key.0 == artifact.key,
    {
        ActionCalculation::build_action(&artifact.key)
    }
}

/// The computation to hand a request on to, because the action that was found under
/// `requested` is known by another key. Two keys may lead to one action; handing on
/// keeps it from running twice.
pub fn redirect(found: &ActionKey, requested: &ActionKey) -> (target: Option<BuildKey>)
    ensures
        found@ == requested@ ==> target is None,
        found@ != requested@ ==> (target matches Some(key) && key.0 == *found),
{
    if found.same_key(requested) {
        None
    } else {
        Some(ActionCalculation::build_action(found))
    }
}

impl BuildKey {
    /// Reports whether two results of a computation are the same: two successes with
    /// the same outputs. A failure is never the same as anything.
    pub fn equality<T, E, F: Fn(&T, &T) -> bool>(
        x: &Result<T, E>,
        y: &Result<T, E>,
        same: &F,
    ) -> (equal: bool)
        requires
            forall|a: &T, b: &T| #[trigger] call_requires(*same, (a, b)),
        ensures
            x is Ok && y is Ok ==> call_ensures(*same, (&x->Ok_0, &y->Ok_0), equal),
            x is Err || y is Err ==> !equal,
    {
        match (x, y) {
            (Ok(x), Ok(y)) => (*same)(x, y),
            _ => false,
        }
    }

    /// Reports whether a result may be kept: a failure may not, for it may pass.
    pub fn validity<T, E>(x: &Result<T, E>) -> (valid: bool)
        ensures
            valid == (x is Ok),
    {
        x.is_ok()
    }
}

/// A configured target, or why it does not fit its platform.
#[derive(Debug)]
pub enum MaybeCompatible<T> {
    Compatible(T),
    Incompatible(Error),
}

/// A configured target, as far as its rule goes.
#[derive(Debug)]
pub struct ConfiguredTargetNode {
    /// The name of the rule that lies under the target.
    pub underlying_rule_type: String,
}

/// The name of the rule of the target that owns an action. A target that cannot be
/// had, or that does not fit its platform, is an error.
pub fn get_target_rule_type_name(
    node: Result<MaybeCompatible<ConfiguredTargetNode>, Error>,
) -> (name: Result<String, Error>)
    ensures
        name == match node {
            Ok(MaybeCompatible::Compatible(target)) => Ok::<String, Error>(
                target.underlying_rule_type,
            ),
            Ok(MaybeCompatible::Incompatible(error)) => Err(error),
            Err(error) => Err(error),
        },
{
    match node {
        Ok(MaybeCompatible::Compatible(target)) => Ok(target.underlying_rule_type),
        Ok(MaybeCompatible::Incompatible(error)) => Err(error),
        Err(error) => Err(error),
    }
}

/// How an action likes to be run.
#[derive(Clone, Copy, Debug, PartialEq, Eq, Structural)]
pub struct ExecutorPreference {
    pub prefers_local: bool,
    pub prefers_remote: bool,
    /// Whether the executor can run it locally at all.
    pub local_execution_possible: bool,
}

/// Reports whether an action's inputs are to be there on disk before it runs: both
/// sides have it switched on, and the action may run locally.
pub fn wants_eager_materialization(
    materializer_enabled: bool,
    action_enabled: bool,
    preference: Option<ExecutorPreference>,
    full_hybrid_enabled: bool,
) -> (wanted: bool)
    ensures
        wanted == (materializer_enabled && action_enabled && (match preference {
            Some(pref) => !pref.prefers_remote && pref.local_execution_possible && (
            pref.prefers_local || full_hybrid_enabled),
            None => false,
        })),
{
    materializer_enabled && action_enabled && match preference {
        Some(pref) => !pref.prefers_remote && pref.local_execution_possible && (pref.prefers_local
            || full_hybrid_enabled),
        None => false,
    }
}

/// Which path of an artifact is put on disk.
#[derive(Clone, Copy, Debug, PartialEq, Eq, Structural)]
pub enum EagerPath {
    /// The artifact's own.
    Own,
    /// That of the directory that the artifact lies in: only whole outputs are known
    /// to the materializer.
    Base,
}

/// What a group of inputs is.
#[derive(Clone, Copy, Debug, PartialEq, Eq, Structural)]
pub enum ArtifactGroupKind {
    /// One artifact.
    Artifact { requires_materialization: bool, is_projected: bool },
    /// Artifacts of a transitive set.
    TransitiveSetProjection,
    /// An artifact that is not known yet.
    Promise,
}

/// A group of inputs. Groups with the same number are the same group.
#[derive(Clone, Copy, Debug, PartialEq, Eq, Structural)]
pub struct ArtifactGroup {
    pub id: u64,
    pub kind: ArtifactGroupKind,
}

impl View for ArtifactGroup {
    type V = u64;

    open spec fn view(&self) -> u64 {
        self.id
    }
}

impl Key for ArtifactGroup {
    fn same_key(&self, other: &Self) -> (same: bool) {
        self.id == other.id
    }
}

/// What a group asks for when eager paths are collected.
#[derive(Clone, Copy, Debug, PartialEq, Eq, Structural)]
pub enum EagerStep {
    /// Resolve a path of this artifact.
    Resolve(u64, EagerPath),
    /// Look up the inputs of this transitive set.
    Expand(u64),
    /// Nothing is left.
    Done,
}

/// What a group asks for, if anything.
pub open spec fn group_step(group: ArtifactGroup) -> Option<EagerStep> {
    match group.kind {
        ArtifactGroupKind::Artifact { requires_materialization, is_projected } => {
            if !requires_materialization {
                None
            } else if is_projected {
                Some(EagerStep::Resolve(group.id, EagerPath::Base))
            } else {
                Some(EagerStep::Resolve(group.id, EagerPath::Own))
            }
        },
        ArtifactGroupKind::TransitiveSetProjection => Some(EagerStep::Expand(group.id)),
        ArtifactGroupKind::Promise => None,
    }
}

/// How far the collection of eager paths is.
pub ghost struct EagerProgress {
    pub queue: Seq<ArtifactGroup>,
    pub visited: Set<u64>,
    pub paths: Set<Seq<char>>,
}

impl EagerProgress {
    /// A collection that starts from `inputs`.
    pub open spec fn from(inputs: Seq<ArtifactGroup>) -> EagerProgress {
        EagerProgress { queue: inputs, visited: Set::empty(), paths: Set::empty() }
    }

    /// The collection with one more path.
    pub open spec fn with_path(self, path: Seq<char>) -> EagerProgress {
        EagerProgress { paths: self.paths.insert(path), ..self }
    }

    /// The collection with more groups to look at.
    pub open spec fn with_groups(self, groups: Seq<ArtifactGroup>) -> EagerProgress {
        EagerProgress { queue: self.queue + groups, ..self }
    }
}

/// The next thing that groups ask for, taken from the end of the queue, each group
/// once.
pub open spec fn next_eager(queue: Seq<ArtifactGroup>, visited: Set<u64>) -> (
    Seq<ArtifactGroup>,
    Set<u64>,
    EagerStep,
)
    decreases queue.len(),
{
    if queue.len() == 0 {
        (queue, visited, EagerStep::Done)
    } else {
        let group = queue.last();
        if visited.contains(group.id) {
            next_eager(queue.drop_last(), visited)
        } else {
            match group_step(group) {
                Some(step) => (queue.drop_last(), visited.insert(group.id), step),
                None => next_eager(queue.drop_last(), visited.insert(group.id)),
            }
        }
    }
}

/// Collects the paths of an action's inputs that are put on disk before it runs,
/// through the transitive sets among them.
#[derive(Debug)]
pub struct EagerPaths {
    queue: Vec<ArtifactGroup>,
    visited: KeyedMap<ArtifactGroup, ()>,
    paths: KeyedMap<String, ()>,
}

impl View for EagerPaths {
    type V = EagerProgress;

    closed spec fn view(&self) -> EagerProgress {
        EagerProgress {
            queue: self.queue@,
            visited: self.visited@.dom(),
            paths: self.paths@.dom(),
        }
    }
}

impl EagerPaths {
    /// A collection that starts from an action's inputs.
    pub fn collect_eager_paths(inputs: Vec<ArtifactGroup>) -> (collection: Self)
        ensures
            collection@ == EagerProgress::from(inputs@),
    {
        let collection = EagerPaths {
            queue: inputs,
            visited: KeyedMap::new(),
            paths: KeyedMap::new(),
        };
        assert(collection@.visited =~= Set::empty());
        assert(collection@.paths =~= Set::empty());
        collection
    }

    /// The next thing to do.
    pub fn next(&mut self) -> (step: EagerStep)
        ensures
            final(self)@.paths == old(self)@.paths,
            (final(self)@.queue, final(self)@.visited, step) == next_eager(
                old(self)@.queue,
                old(self)@.visited,
            ),
    {
        let ghost goal = next_eager(self@.queue, self@.visited);
        let ghost paths = self@.paths;
        while self.queue.len() > 0
            invariant
                goal == next_eager(old(self)@.queue, old(self)@.visited),
                paths == old(self)@.paths,
                self@.paths == paths,
                next_eager(self@.queue, self@.visited) == goal,
            decreases self.queue@.len(),
        {
            let ghost before = self@;
            match self.queue.pop() {
                None => {},
                Some(group) => {
                    assert(before.queue.last() == group);
                    assert(self@.queue =~= before.queue.drop_last());
                    if !self.visited.contains(&group) {
                        self.visited.insert(group, ());
                        assert(self@.visited =~= before.visited.insert(group.id));
                        match group.kind {
                            ArtifactGroupKind::Artifact {
                                requires_materialization,
                                is_projected,
                            } => {
                                if requires_materialization {
                                    let path = if is_projected {
                                        EagerPath::Base
                                    } else {
                                        EagerPath::Own
                                    };
                                    return EagerStep::Resolve(group.id, path);
                                }
                            },
                            ArtifactGroupKind::TransitiveSetProjection => {
                                return EagerStep::Expand(group.id);
                            },
                            ArtifactGroupKind::Promise => {},
                        }
                    }
                },
            }
        }
        EagerStep::Done
    }

    /// Takes in a path that was resolved.
    pub fn add_path(&mut self, path: String)
        ensures
            final(self)@ == old(self)@.with_path(path@),
    {
        self.paths.insert(path, ());
        assert(self@.paths =~= old(self)@.paths.insert(path@));
    }

    /// Takes in the inputs of a transitive set.
    pub fn extend(&mut self, sub_inputs: Vec<ArtifactGroup>)
        ensures
            final(self)@ == old(self)@.with_groups(sub_inputs@),
    {
        let mut sub_inputs = sub_inputs;
        self.queue.append(&mut sub_inputs);
    }

    /// The paths, each once.
    pub fn finish(self) -> (paths: Vec<String>)
        ensures
            paths@.len() == self@.paths.len(),
            self@.paths.finite(),
            paths.deep_view().no_duplicates(),
            paths.deep_view().to_set() == self@.paths,
    {
        let ghost known = self.paths@;
        let entries = self.paths.into_entries();
        let ghost all = entries@;
        let mut paths: Vec<String> = Vec::new();
        assert(paths.deep_view() =~= Seq::empty());
        for entry in it: entries.into_iter()
            invariant
                it.seq() == all,
                paths@.len() == it.index(),
                paths.deep_view().len() == it.index(),
                forall|i: int| 0 <= i < it.index() ==> paths.deep_view()[i] == all[i].0@,
        {
            let ghost before = paths.deep_view();
            let (path, _) = entry;
            let ghost said = path@;
            paths.push(path);
            assert(paths.deep_view() =~= before.push(said));
        }
        proof {
            let texts = paths.deep_view();
            crate::keyed::entries_are_counted(all);
            assert forall|i: int, j: int|
                0 <= i < texts.len() && 0 <= j < texts.len() && i != j implies texts[i]
                != texts[j] by {
                if i < j {
                    assert(all[i].0@ != all[j].0@);
                } else {
                    assert(all[j].0@ != all[i].0@);
                }
            }
            assert forall|text: Seq<char>| texts.to_set().contains(text) == known.dom().contains(
                text,
            ) by {
                entries_are_found(all, text);
                if texts.contains(text) {
                    let i = choose|i: int| 0 <= i < texts.len() && texts[i] == text;
                    assert(all[i].0@ == text);
                }
                if known.contains_key(text) {
                    let i = choose|i: int| 0 <= i < all.len() && (#[trigger] all[i]).0@ == text;
                    assert(texts[i] == text);
                }
            }
            assert(texts.to_set() =~= known.dom());
        }
        paths
    }
}

/// No group asks for anything twice: what a step asks for is marked as visited, it was
/// not before, and nothing is ever unmarked.
pub proof fn groups_ask_once(queue: Seq<ArtifactGroup>, visited: Set<u64>)
    ensures
        visited.subset_of(next_eager(queue, visited).1),
        next_eager(queue, visited).0.len() <= queue.len(),
        match next_eager(queue, visited).2 {
            EagerStep::Resolve(id, _) => !visited.contains(id) && next_eager(
                queue,
                visited,
            ).1.contains(id),
            EagerStep::Expand(id) => !visited.contains(id) && next_eager(
                queue,
                visited,
            ).1.contains(id),
            EagerStep::Done => next_eager(queue, visited).0.len() == 0,
        },
    decreases queue.len(),
{
    if queue.len() > 0 {
        let group = queue.last();
        if visited.contains(group.id) {
            groups_ask_once(queue.drop_last(), visited);
        } else if group_step(group) is None {
            groups_ask_once(queue.drop_last(), visited.insert(group.id));
        }
    }
}

/// The inputs with their values, `n` of them, later ones in place of earlier ones of
/// the same group.
pub open spec fn zipped(
    inputs: Seq<ArtifactGroup>,
    values: Seq<ArtifactGroupValues>,
    n: nat,
) -> Map<u64, ArtifactGroupValues>
    decreases n,
{
    if n == 0 {
        Map::empty()
    } else {
        zipped(inputs, values, (n - 1) as nat).insert(inputs[n - 1]@, values[n - 1])
    }
}

/// The inputs with their values, `n` of them, in the order in which each group first
/// comes.
pub open spec fn zipped_entries(
    inputs: Seq<ArtifactGroup>,
    values: Seq<ArtifactGroupValues>,
    n: nat,
) -> Seq<(ArtifactGroup, ArtifactGroupValues)>
    decreases n,
{
    if n == 0 {
        Seq::empty()
    } else {
        with_entry(
            zipped_entries(inputs, values, (n - 1) as nat),
            inputs[n - 1],
            values[n - 1],
        )
    }
}

/// Pairs an action's inputs with the values that were computed for them. They stay in
/// the order in which the action names them.
pub fn ensure_inputs(inputs: &Vec<ArtifactGroup>, ready: Vec<ArtifactGroupValues>) -> (ensured:
    KeyedMap<ArtifactGroup, ArtifactGroupValues>)
    requires
        inputs@.len() == ready@.len(),
    ensures
        ensured@ == zipped(inputs@, ready@, ready@.len()),
        ensured.entries() == zipped_entries(inputs@, ready@, ready@.len()),
{
    let mut ensured: KeyedMap<ArtifactGroup, ArtifactGroupValues> = KeyedMap::new();
    let ghost all = ready@;
    let count: usize = inputs.len();
    let mut i: usize = 0;
    for values in it: ready.into_iter()
        invariant
            it.seq() == all,
            inputs@.len() == all.len(),
            all.len() == count,
            i == it.index(),
            ensured@ == zipped(inputs@, all, i as nat),
            ensured.entries() == zipped_entries(inputs@, all, i as nat),
    {
        assert(all[it.index() as int] == values);
        ensured.insert(inputs[i], values);
        i = i + 1;
    }
    ensured
}

/// Inputs that are all different are paired with their values one for one, in order.
pub proof fn inputs_keep_their_order(
    inputs: Seq<ArtifactGroup>,
    values: Seq<ArtifactGroupValues>,
    n: nat,
)
    requires
        n <= inputs.len(),
        n <= values.len(),
        forall|i: int, j: int|
            0 <= i < j < n ==> (#[trigger] inputs[i])@ != (#[trigger] inputs[j])@,
    ensures
        zipped_entries(inputs, values, n) == Seq::new(n, |i: int| (inputs[i], values[i])),
    decreases n,
{
    if n > 0 {
        let before = zipped_entries(inputs, values, (n - 1) as nat);
        inputs_keep_their_order(inputs, values, (n - 1) as nat);
        assert(has_no_twins(before));
        entries_are_found(before, inputs[n - 1]@);
        assert(!by_key(before).contains_key(inputs[n - 1]@));
    }
    assert(zipped_entries(inputs, values, n) =~= Seq::new(n, |i: int| (inputs[i], values[i])));
}

/// A group asks for something exactly where it is an artifact that must be on disk or a
/// transitive set: for the artifact's own path, or that of the directory it lies in
/// where it is only a part of an output, or for the set's inputs.
pub proof fn groups_ask_by_their_kind(group: ArtifactGroup)
    ensures
        group.kind matches ArtifactGroupKind::Artifact { requires_materialization, is_projected }
            ==> {
            &&& !requires_materialization ==> group_step(group) is None
            &&& requires_materialization && is_projected ==> group_step(group) == Some(
                EagerStep::Resolve(group.id, EagerPath::Base),
            )
            &&& requires_materialization && !is_projected ==> group_step(group) == Some(
                EagerStep::Resolve(group.id, EagerPath::Own),
            )
        },
        group.kind is TransitiveSetProjection ==> group_step(group) == Some(
            EagerStep::Expand(group.id),
        ),
        group.kind is Promise ==> group_step(group) is None,
{
}

/// The group asks for something.
pub open spec fn asks(group: ArtifactGroup) -> bool {
    match group.kind {
        ArtifactGroupKind::Artifact { requires_materialization, .. } => requires_materialization,
        ArtifactGroupKind::TransitiveSetProjection => true,
        ArtifactGroupKind::Promise => false,
    }
}

/// No group is passed over: when nothing is left to do, every group of the queue that
/// asks for something was visited. Otherwise the step is what some group asks for that
/// was not visited yet, all groups behind it in the queue asked for nothing or were
/// visited, and those in front of it stay.
pub proof fn no_group_is_passed_over(
    queue: Seq<ArtifactGroup>,
    visited: Set<u64>,
) -> (at: int)
    requires
        forall|i: int, j: int|
            #![trigger queue[i], queue[j]]
            0 <= i < queue.len() && 0 <= j < queue.len() && queue[i].id == queue[j].id
                ==> queue[i] == queue[j],
    ensures
        ({
            let (rest, marked, step) = next_eager(queue, visited);
            &&& step is Done ==> rest.len() == 0 && forall|i: int|
                0 <= i < queue.len() && asks(#[trigger] queue[i]) ==> visited.contains(
                    queue[i].id,
                )
            &&& !(step is Done) ==> {
                &&& 0 <= at < queue.len()
                &&& asks(queue[at])
                &&& group_step(queue[at]) == Some(step)
                &&& !visited.contains(queue[at].id)
                &&& rest == queue.take(at)
                &&& forall|i: int|
                    at < i < queue.len() && asks(#[trigger] queue[i]) ==> visited.contains(
                        queue[i].id,
                    )
            }
        }),
    decreases queue.len(),
{
    if queue.len() == 0 {
        0
    } else {
        let n = queue.len() - 1;
        let group = queue.last();
        let earlier = queue.drop_last();
        assert forall|i: int, j: int|
            #![trigger earlier[i], earlier[j]]
            0 <= i < earlier.len() && 0 <= j < earlier.len() && earlier[i].id
                == earlier[j].id implies earlier[i] == earlier[j] by {
            assert(queue[i] == earlier[i]);
            assert(queue[j] == earlier[j]);
        }
        if !visited.contains(group.id) && group_step(group) is Some {
            assert(earlier =~= queue.take(n));
            n
        } else {
            let known = if visited.contains(group.id) {
                visited
            } else {
                visited.insert(group.id)
            };
            let at = no_group_is_passed_over(earlier, known);
            let (rest, marked, step) = next_eager(queue, visited);
            if step is Done {
                assert forall|i: int| 0 <= i < queue.len() && asks(
                    #[trigger] queue[i],
                ) implies visited.contains(queue[i].id) by {
                    if i < n {
                        assert(earlier[i] == queue[i]);
                        if queue[i].id == group.id {
                            assert(queue[i] == queue[n]);
                        }
                    }
                }
            } else {
                assert(earlier[at] == queue[at]);
                assert(earlier.take(at) =~= queue.take(at));
                assert forall|i: int| at < i < queue.len() && asks(
                    #[trigger] queue[i],
                ) implies visited.contains(queue[i].id) by {
                    if i < n {
                        assert(earlier[i] == queue[i]);
                        if queue[i].id == group.id {
                            assert(queue[i] == queue[n]);
                        }
                    }
                }
            }
            at
        }
    }
}

/// Every input has the value that was computed for it, and of several for one group the
/// last; nothing else has one.
pub proof fn inputs_have_their_values(
    inputs: Seq<ArtifactGroup>,
    values: Seq<ArtifactGroupValues>,
    n: nat,
    i: int,
    id: u64,
)
    requires
        n <= inputs.len(),
        n <= values.len(),
    ensures
        0 <= i < n && (forall|j: int| i < j < n ==> (#[trigger] inputs[j]).id != inputs[i].id)
            ==> zipped(inputs, values, n).contains_key(inputs[i].id) && zipped(
            inputs,
            values,
            n,
        )[inputs[i].id] == values[i],
        zipped(inputs, values, n).contains_key(id) <==> exists|j: int|
            0 <= j < n && (#[trigger] inputs[j]).id == id,
    decreases n,
{
    if n > 0 {
        let m = (n - 1) as nat;
        inputs_have_their_values(inputs, values, m, i, id);
        if i < n - 1 && (forall|j: int|
            i < j < n ==> (#[trigger] inputs[j]).id != inputs[i].id) {
            assert(inputs[n - 1].id != inputs[i].id);
        }
        if inputs[n - 1].id == id {
            assert(0 <= n - 1 < n);
        }
    }
}

/// Inputs are put on disk ahead of a run only where both sides have that switched on and
/// the action can run locally: it does not prefer a remote run, and either prefers a
/// local one or races the two.
pub proof fn only_local_runs_want_their_inputs(
    materializer_enabled: bool,
    action_enabled: bool,
    preference: Option<ExecutorPreference>,
    full_hybrid_enabled: bool,
    wanted: bool,
)
    requires
        call_ensures(
            wants_eager_materialization,
            (materializer_enabled, action_enabled, preference, full_hybrid_enabled),
            wanted,
        ),
    ensures
        wanted ==> materializer_enabled && action_enabled && preference is Some,
        wanted ==> !preference->0.prefers_remote && preference->0.local_execution_possible,
        wanted ==> preference->0.prefers_local || full_hybrid_enabled,
        materializer_enabled && action_enabled && preference is Some
            && !preference->0.prefers_remote && preference->0.local_execution_possible && (
        preference->0.prefers_local || full_hybrid_enabled) ==> wanted,
{
}

/// A request is handed on exactly where the action that was found goes by another key,
/// and then to the computation of that key.
pub proof fn requests_follow_the_action(
    found: ActionKey,
    requested: ActionKey,
    target: Option<BuildKey>,
)
    requires
        call_ensures(redirect, (&found, &requested), target),
    ensures
        target is Some <==> found.parent@ != requested.parent@ || found.id != requested.id,
        target matches Some(key) ==> key.0@ == found@,
{
}

/// A lookup that found the action ends there; one that was deferred goes on under the
/// key that it was deferred to.
pub proof fn lookups_end_at_the_action<A>(lookup: ActionLookup<A>, step: LookupStep<A>)
    requires
        call_ensures(ActionCalculation::get_action::<A>, (lookup,), step),
    ensures
        lookup is Action <==> step is Found,
        lookup matches ActionLookup::Action(action) ==> step == LookupStep::Found(action),
        lookup matches ActionLookup::Deferred(key) ==> step == LookupStep::<A>::LookUp(key),
{
}

/// A collection starts with the inputs to look at and with nothing seen or found. A path
/// is added to those that were found, and groups behind those that are to be looked at;
/// neither changes anything else.
pub proof fn collections_only_grow(
    inputs: Seq<ArtifactGroup>,
    progress: EagerProgress,
    path: Seq<char>,
    groups: Seq<ArtifactGroup>,
    other: Seq<char>,
    i: int,
)
    ensures
        EagerProgress::from(inputs).queue == inputs,
        EagerProgress::from(inputs).visited == Set::<u64>::empty(),
        EagerProgress::from(inputs).paths == Set::<Seq<char>>::empty(),
        progress.with_path(path).paths.contains(other) <==> other == path
            || progress.paths.contains(other),
        progress.with_path(path).queue == progress.queue,
        progress.with_path(path).visited == progress.visited,
        progress.with_groups(groups).queue.len() == progress.queue.len() + groups.len(),
        0 <= i < progress.queue.len() ==> progress.with_groups(groups).queue[i]
            == progress.queue[i],
        0 <= i < groups.len() ==> progress.with_groups(groups).queue[progress.queue.len() + i]
            == groups[i],
        progress.with_groups(groups).visited == progress.visited,
        progress.with_groups(groups).paths == progress.paths,
{
}

/// An output is computed by computing the action that produces it.
pub proof fn outputs_are_computed_by_their_action(
    key: ActionKey,
    artifact: BuildArtifact,
    action: BuildKey,
    output: BuildKey,
)
    requires
        call_ensures(ActionCalculation::build_action, (&key,), action),
        call_ensures(ActionCalculation::build_artifact, (&artifact,), output),
    ensures
        action.0@ == key@,
        output.0@ == artifact.key@,
{
}

/// Only successes are kept.
pub proof fn only_successes_are_kept<T, E>(result: Result<T, E>, valid: bool)
    requires
        call_ensures(BuildKey::validity::<T, E>, (&result,), valid),
    ensures
        valid <==> result is Ok,
{
}

/// The rule's name is that of a target that fits; otherwise its own error says why not.
pub proof fn rules_are_named_for_fitting_targets(
    node: Result<MaybeCompatible<ConfiguredTargetNode>, Error>,
    name: Result<String, Error>,
)
    requires
        call_ensures(get_target_rule_type_name, (node,), name),
    ensures
        name is Ok <==> node is Ok && node->Ok_0 is Compatible,
        node matches Ok(MaybeCompatible::Compatible(target)) ==> name->Ok_0@
            == target.underlying_rule_type@,
        node matches Ok(MaybeCompatible::Incompatible(error)) ==> name->Err_0 == error,
        node matches Err(error) ==> name->Err_0 == error,
{
}

} // verus!
