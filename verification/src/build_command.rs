//! The decisions of a build command around the builds that it runs.
use vstd::prelude::*;
use vstd::string::*;

use crate::convert::{
    duration_from_wire, negative_span_text, wire_nanos, WireDuration, MAX_WIRE_NANOS,
};
use crate::duration::{Duration, NANOS_PER_MILLI};
use crate::error::Error;
use crate::text::{same_text, trim, trimmed};

verus! {

/// What is reported when arguments follow a target without a separator.
pub const RUN_ARGS_MISSING_SEPARATOR: &'static str = "`buck2 run` will require a `--` separator before target arguments in the future. Please use `buck2 run <target> -- <args>` instead of `buck2 run <target> <args>`";

/// The deprecation that a command reports, if its arguments call for it.
pub fn run_args_deprecation(run_args_missing_separator: bool) -> (deprecation: Option<Error>)
    ensures
        deprecation is Some == run_args_missing_separator,
        deprecation matches Some(error) ==> error.says(RUN_ARGS_MISSING_SEPARATOR@),
{
    if run_args_missing_separator {
        Some(Error::msg(RUN_ARGS_MISSING_SEPARATOR.to_string()))
    } else {
        None
    }
}

/// How long a command may take, if a limit is set. A limit below zero is an error.
pub fn command_timeout(timeout: Option<WireDuration>) -> (limit: Result<Option<Duration>, Error>)
    ensures
        limit is Ok == (timeout matches Some(wire) ==> wire_nanos(wire) >= 0),
        limit matches Ok(read) ==> match timeout {
            Some(wire) => read is Some && read->0@ == if wire_nanos(wire) <= MAX_WIRE_NANOS {
                wire_nanos(wire)
            } else {
                MAX_WIRE_NANOS as int
            },
            None => read is None,
        },
        limit matches Err(error) ==> {
            &&& error.root.text_spec() == negative_span_text(timeout->0)
            &&& error.layers() == seq!["Invalid `duration`"@]
        },
{
    match timeout {
        None => Ok(None),
        Some(wire) => match duration_from_wire(wire) {
            Ok(span) => Ok(Some(span)),
            Err(error) => {
                let error = error.context("Invalid `duration`".to_string());
                assert(error.layers() =~= seq!["Invalid `duration`"@]);
                Err(error)
            },
        },
    }
}

/// Reports whether some pattern brings modifiers of its own.
pub fn has_pattern_modifiers(modifiers: &Vec<Option<Vec<String>>>) -> (has: bool)
    ensures
        has == exists|i: int| 0 <= i < modifiers@.len() && (#[trigger] modifiers@[i]) is Some,
{
    let mut i: usize = 0;
    while i < modifiers.len()
        invariant
            i <= modifiers@.len(),
            forall|k: int| 0 <= k < i ==> (#[trigger] modifiers@[k]) is None,
        decreases modifiers@.len() - i,
    {
        if modifiers[i].is_some() {
            return true;
        }
        i = i + 1;
    }
    false
}

/// How the configuration of targets is found.
#[derive(Debug)]
pub enum TargetResolutionConfig {
    /// From options that hold for all targets.
    Default(GlobalCfgOptions),
    /// From a universe of configured targets.
    Universe,
}

/// Options that hold for all targets.
#[derive(Debug)]
pub struct GlobalCfgOptions {
    pub target_platform: Option<String>,
    pub cli_modifiers: Vec<String>,
}

/// Modifiers that do not go together.
#[derive(Clone, Copy, Debug, PartialEq, Eq, Structural)]
pub enum ModifiersError {
    PatternModifiersWithGlobalModifiers,
    PatternModifiersWithTargetUniverse,
}

/// Checks that patterns with modifiers stand beside neither global modifiers nor a
/// universe.
pub fn check_modifiers(config: &TargetResolutionConfig, has_pattern_modifiers: bool) -> (checked:
    Result<(), ModifiersError>)
    ensures
        checked == match *config {
            TargetResolutionConfig::Default(options) => if options.cli_modifiers@.len() > 0
                && has_pattern_modifiers {
                Err::<(), ModifiersError>(ModifiersError::PatternModifiersWithGlobalModifiers)
            } else {
                Ok(())
            },
            TargetResolutionConfig::Universe => if has_pattern_modifiers {
                Err(ModifiersError::PatternModifiersWithTargetUniverse)
            } else {
                Ok(())
            },
        },
{
    match config {
        TargetResolutionConfig::Default(options) => {
            if options.cli_modifiers.len() > 0 && has_pattern_modifiers {
                return Err(ModifiersError::PatternModifiersWithGlobalModifiers);
            }
        },
        TargetResolutionConfig::Universe => {
            if has_pattern_modifiers {
                return Err(ModifiersError::PatternModifiersWithTargetUniverse);
            }
        },
    }
    Ok(())
}

/// Which properties of the graph a command records.
#[derive(Clone, Copy, Debug, PartialEq, Eq, Structural)]
pub struct GraphPropertiesOptions {
    pub configured_graph_size: bool,
    pub configured_graph_sketch: bool,
    pub total_configured_graph_sketch: bool,
    pub retained_analysis_memory_sketch: bool,
    pub peak_analysis_memory_sketch: bool,
    pub peak_load_memory_sketch: bool,
    pub action_graph_sketch: bool,
    pub artifact_count_sketch: bool,
    pub artifact_size_sketch: bool,
    pub log_sketch_cardinalities: bool,
}

/// One of the properties that a command may record.
#[derive(Clone, Copy, Debug, PartialEq, Eq, Structural)]
pub enum GraphProperty {
    ConfiguredGraphSize,
    ConfiguredGraphSketch,
    TotalConfiguredGraphSketch,
    RetainedAnalysisMemorySketch,
    ActionGraphSketch,
    PeakAnalysisMemorySketch,
    PeakLoadMemorySketch,
    ArtifactCountSketch,
    ArtifactSizeSketch,
    LogSketchCardinalities,
}

impl GraphProperty {
    /// The configuration key, in the section `buck2`, that switches the property on.
    pub open spec fn key_spec(self) -> Seq<char> {
        match self {
            GraphProperty::ConfiguredGraphSize => "log_configured_graph_size"@,
            GraphProperty::ConfiguredGraphSketch => "log_configured_graph_sketch"@,
            GraphProperty::TotalConfiguredGraphSketch => "log_total_configured_graph_sketch"@,
            GraphProperty::RetainedAnalysisMemorySketch => "log_retained_analysis_memory_sketch"@,
            GraphProperty::ActionGraphSketch => "log_action_graph_sketch"@,
            GraphProperty::PeakAnalysisMemorySketch => "log_peak_analysis_memory_sketch"@,
            GraphProperty::PeakLoadMemorySketch => "log_peak_load_memory_sketch"@,
            GraphProperty::ArtifactCountSketch => "log_artifact_count_sketch"@,
            GraphProperty::ArtifactSizeSketch => "log_artifact_size_sketch"@,
            GraphProperty::LogSketchCardinalities => "log_sketch_cardinalities"@,
        }
    }

    /// The configuration key, in the section `buck2`, that switches the property on.
    pub fn key(self) -> (key: &'static str)
        ensures
            key@ == self.key_spec(),
    {
        match self {
            GraphProperty::ConfiguredGraphSize => "log_configured_graph_size",
            GraphProperty::ConfiguredGraphSketch => "log_configured_graph_sketch",
            GraphProperty::TotalConfiguredGraphSketch => "log_total_configured_graph_sketch",
            GraphProperty::RetainedAnalysisMemorySketch => "log_retained_analysis_memory_sketch",
            GraphProperty::ActionGraphSketch => "log_action_graph_sketch",
            GraphProperty::PeakAnalysisMemorySketch => "log_peak_analysis_memory_sketch",
            GraphProperty::PeakLoadMemorySketch => "log_peak_load_memory_sketch",
            GraphProperty::ArtifactCountSketch => "log_artifact_count_sketch",
            GraphProperty::ArtifactSizeSketch => "log_artifact_size_sketch",
            GraphProperty::LogSketchCardinalities => "log_sketch_cardinalities",
        }
    }

    /// Whether `options` have the property switched on.
    pub open spec fn is_on(self, options: GraphPropertiesOptions) -> bool {
        match self {
            GraphProperty::ConfiguredGraphSize => options.configured_graph_size,
            GraphProperty::ConfiguredGraphSketch => options.configured_graph_sketch,
            GraphProperty::TotalConfiguredGraphSketch => options.total_configured_graph_sketch,
            GraphProperty::RetainedAnalysisMemorySketch => options.retained_analysis_memory_sketch,
            GraphProperty::ActionGraphSketch => options.action_graph_sketch,
            GraphProperty::PeakAnalysisMemorySketch => options.peak_analysis_memory_sketch,
            GraphProperty::PeakLoadMemorySketch => options.peak_load_memory_sketch,
            GraphProperty::ArtifactCountSketch => options.artifact_count_sketch,
            GraphProperty::ArtifactSizeSketch => options.artifact_size_sketch,
            GraphProperty::LogSketchCardinalities => options.log_sketch_cardinalities,
        }
    }
}

impl GraphPropertiesOptions {
    /// Reads every property from the configuration. One that is not set is off.
    pub fn from_config<F: Fn(GraphProperty) -> Option<bool>>(configured: &F) -> (options: Self)
        requires
            forall|property: GraphProperty| #[trigger] call_requires(*configured, (property,)),
        ensures
            forall|property: GraphProperty|
                exists|value: Option<bool>| #[trigger]
                    call_ensures(*configured, (property,), value) && #[trigger] property.is_on(
                        options,
                    ) == (value == Some(true)),
    {
        let size = (*configured)(GraphProperty::ConfiguredGraphSize);
        let sketch = (*configured)(GraphProperty::ConfiguredGraphSketch);
        let total = (*configured)(GraphProperty::TotalConfiguredGraphSketch);
        let retained = (*configured)(GraphProperty::RetainedAnalysisMemorySketch);
        let actions = (*configured)(GraphProperty::ActionGraphSketch);
        let peak_analysis = (*configured)(GraphProperty::PeakAnalysisMemorySketch);
        let peak_load = (*configured)(GraphProperty::PeakLoadMemorySketch);
        let counts = (*configured)(GraphProperty::ArtifactCountSketch);
        let sizes = (*configured)(GraphProperty::ArtifactSizeSketch);
        let cardinalities = (*configured)(GraphProperty::LogSketchCardinalities);
        let options = GraphPropertiesOptions {
            configured_graph_size: size.unwrap_or(false),
            configured_graph_sketch: sketch.unwrap_or(false),
            total_configured_graph_sketch: total.unwrap_or(false),
            retained_analysis_memory_sketch: retained.unwrap_or(false),
            peak_analysis_memory_sketch: peak_analysis.unwrap_or(false),
            peak_load_memory_sketch: peak_load.unwrap_or(false),
            action_graph_sketch: actions.unwrap_or(false),
            artifact_count_sketch: counts.unwrap_or(false),
            artifact_size_sketch: sizes.unwrap_or(false),
            log_sketch_cardinalities: cardinalities.unwrap_or(false),
        };
        proof {
            assert forall|property: GraphProperty|
                exists|value: Option<bool>| #[trigger]
                    call_ensures(*configured, (property,), value) && #[trigger] property.is_on(
                        options,
                    ) == (value == Some(true)) by {
                let value = match property {
                    GraphProperty::ConfiguredGraphSize => size,
                    GraphProperty::ConfiguredGraphSketch => sketch,
                    GraphProperty::TotalConfiguredGraphSketch => total,
                    GraphProperty::RetainedAnalysisMemorySketch => retained,
                    GraphProperty::ActionGraphSketch => actions,
                    GraphProperty::PeakAnalysisMemorySketch => peak_analysis,
                    GraphProperty::PeakLoadMemorySketch => peak_load,
                    GraphProperty::ArtifactCountSketch => counts,
                    GraphProperty::ArtifactSizeSketch => sizes,
                    GraphProperty::LogSketchCardinalities => cardinalities,
                };
                assert(call_ensures(*configured, (property,), value));
                assert(property.is_on(options) == (value == Some(true)));
            }
        }
        options
    }

    /// Reports whether paths of artifacts are sketched.
    pub fn sketches_artifact_paths(&self) -> (sketches: bool)
        ensures
            sketches == (self.artifact_count_sketch || self.artifact_size_sketch),
    {
        self.artifact_count_sketch || self.artifact_size_sketch
    }

    /// Reports whether the events of the build are needed once it is over.
    pub fn needs_events(&self, want_detailed_metrics: bool) -> (needed: bool)
        ensures
            needed == (want_detailed_metrics || self.action_graph_sketch
                || self.artifact_count_sketch || self.artifact_size_sketch),
    {
        want_detailed_metrics || self.action_graph_sketch || self.sketches_artifact_paths()
    }
}

/// What came of one configured target.
#[derive(Debug)]
pub struct ConfiguredResult<A, E> {
    pub outputs: Vec<Result<A, E>>,
    pub timed_out: bool,
    /// How long after the start of the build the target was done.
    pub wall_clock_completion: Option<Duration>,
}

/// The labels of the targets that hit the deadline of the command, in order.
pub open spec fn timed_out_labels<L, A, E>(
    configured: Seq<(L, Option<ConfiguredResult<A, E>>)>,
) -> Seq<L>
    decreases configured.len(),
{
    if configured.len() == 0 {
        seq![]
    } else {
        let rest = timed_out_labels(configured.drop_last());
        match configured.last().1 {
            Some(result) => if result.timed_out {
                rest.push(configured.last().0)
            } else {
                rest
            },
            None => rest,
        }
    }
}

/// The targets that hit the deadline of the command. Asking for their outputs again
/// would run what the deadline just stopped.
pub fn timed_out_targets<'a, L, A, E>(
    configured: &'a Vec<(L, Option<ConfiguredResult<A, E>>)>,
) -> (labels: Vec<&'a L>)
    ensures
        labels@.map_values(|label: &L| *label) == timed_out_labels(configured@),
{
    let mut labels: Vec<&'a L> = Vec::new();
    let mut i: usize = 0;
    assert(labels@.map_values(|label: &L| *label) =~= seq![]);
    while i < configured.len()
        invariant
            i <= configured@.len(),
            labels@.map_values(|label: &L| *label) == timed_out_labels(configured@.take(i as int)),
        decreases configured@.len() - i,
    {
        let ghost before = labels@;
        assert(configured@.take(i + 1).drop_last() =~= configured@.take(i as int));
        if let Some(result) = &configured[i].1 {
            if result.timed_out {
                labels.push(&configured[i].0);
                assert(labels@.map_values(|label: &L| *label) =~= before.map_values(
                    |label: &L| *label,
                ).push(configured@[i as int].0));
            }
        }
        i = i + 1;
    }
    assert(configured@.take(i as int) =~= configured@);
    labels
}

/// A time in milliseconds, as metrics carry it.
pub fn completion_millis(completion: Option<Duration>) -> (millis: Option<u64>)
    ensures
        millis == match completion {
            Some(span) => Some((span@ / NANOS_PER_MILLI as nat) as u64),
            None => None,
        },
{
    match completion {
        Some(span) => {
            let millis: u128 = span.as_nanos() / NANOS_PER_MILLI;
            Some(#[verifier::truncate] (millis as u64))
        },
        None => None,
    }
}

/// The outputs that were built, of all targets that were not skipped, in order.
pub open spec fn built_outputs<L, A, E>(
    configured: Seq<(L, Option<ConfiguredResult<A, E>>)>,
) -> Seq<A>
    decreases configured.len(),
{
    if configured.len() == 0 {
        seq![]
    } else {
        let rest = built_outputs(configured.drop_last());
        match configured.last().1 {
            Some(result) => rest + successes(result.outputs@),
            None => rest,
        }
    }
}

/// The values of the results that are none of the failures, in order.
pub open spec fn successes<A, E>(results: Seq<Result<A, E>>) -> Seq<A>
    decreases results.len(),
{
    if results.len() == 0 {
        seq![]
    } else {
        let rest = successes(results.drop_last());
        match results.last() {
            Ok(value) => rest.push(value),
            Err(_) => rest,
        }
    }
}

/// The outputs that were built, of all targets that were not skipped.
pub fn provider_artifacts<L, A, E>(
    configured: Vec<(L, Option<ConfiguredResult<A, E>>)>,
) -> (artifacts: Vec<A>)
    ensures
        artifacts@ == built_outputs(configured@),
{
    let mut artifacts: Vec<A> = Vec::new();
    let ghost all = configured@;
    assert(all.take(0) =~= seq![]);
    for entry in it: configured.into_iter()
        invariant
            it.seq() == all,
            artifacts@ == built_outputs(all.take(it.index() as int)),
    {
        let ghost before = artifacts@;
        proof {
            let n = it.index() as int;
            assert(all.take(n + 1).drop_last() =~= all.take(n));
            assert(all.take(n + 1).last() == entry);
        }
        if let Some(result) = entry.1 {
            let ghost outputs = result.outputs@;
            assert(outputs.take(0) =~= seq![]);
            assert(artifacts@ =~= before + successes(outputs.take(0)));
            for output in inner: result.outputs.into_iter()
                invariant
                    inner.seq() == outputs,
                    artifacts@ == before + successes(outputs.take(inner.index() as int)),
            {
                proof {
                    let k = inner.index() as int;
                    assert(outputs.take(k + 1).drop_last() =~= outputs.take(k));
                    assert(outputs.take(k + 1).last() == output);
                }
                if let Ok(artifact) = output {
                    artifacts.push(artifact);
                    assert(artifacts@ =~= before + successes(
                        outputs.take(inner.index() + 1),
                    ));
                }
            }
            assert(outputs.take(outputs.len() as int) =~= outputs);
        }
    }
    assert(all.take(all.len() as int) =~= all);
    artifacts
}

/// An error as a command reports it.
#[derive(Debug)]
pub struct ReportedError<R> {
    pub message: String,
    pub report: R,
}

/// Some error of `errors` has this message.
pub open spec fn has_message<R>(errors: Seq<ReportedError<R>>, message: Seq<char>) -> bool {
    exists|i: int| 0 <= i < errors.len() && (#[trigger] errors[i]).message@ == message
}

/// The errors without those whose message came before, in order.
pub open spec fn first_by_message<R>(errors: Seq<ReportedError<R>>) -> Seq<ReportedError<R>>
    decreases errors.len(),
{
    if errors.len() == 0 {
        seq![]
    } else {
        let rest = first_by_message(errors.drop_last());
        if has_message(rest, errors.last().message@) {
            rest
        } else {
            rest.push(errors.last())
        }
    }
}

/// Drops every error whose message came before.
pub fn unique_errors<R>(errors: Vec<ReportedError<R>>) -> (unique: Vec<ReportedError<R>>)
    ensures
        unique@ == first_by_message(errors@),
{
    let mut unique: Vec<ReportedError<R>> = Vec::new();
    let ghost all = errors@;
    assert(all.take(0) =~= seq![]);
    for error in it: errors.into_iter()
        invariant
            it.seq() == all,
            unique@ == first_by_message(all.take(it.index() as int)),
    {
        proof {
            let n = it.index() as int;
            assert(all.take(n + 1).drop_last() =~= all.take(n));
            assert(all.take(n + 1).last() == error);
        }
        let mut seen = false;
        let mut i: usize = 0;
        while i < unique.len()
            invariant
                i <= unique@.len(),
                seen == exists|k: int|
                    0 <= k < i && (#[trigger] unique@[k]).message@ == error.message@,
            decreases unique@.len() - i,
        {
            if unique[i].message == error.message {
                seen = true;
            }
            i = i + 1;
        }
        if !seen {
            unique.push(error);
        }
    }
    assert(all.take(all.len() as int) =~= all);
    unique
}

/// No two errors that are reported have the same message, and every message of the
/// errors that occurred is reported.
pub proof fn every_message_is_reported_once<R>(errors: Seq<ReportedError<R>>, message: Seq<char>)
    ensures
        has_message(errors, message) == has_message(first_by_message(errors), message),
        forall|i: int, j: int|
            #![trigger first_by_message(errors)[i], first_by_message(errors)[j]]
            0 <= i < j < first_by_message(errors).len() ==> first_by_message(errors)[i].message@
                != first_by_message(errors)[j].message@,
    decreases errors.len(),
{
    if errors.len() > 0 {
        let earlier = errors.drop_last();
        let rest = first_by_message(earlier);
        let unique = first_by_message(errors);
        every_message_is_reported_once(earlier, message);
        if has_message(earlier, message) {
            let k = choose|k: int| 0 <= k < earlier.len() && (#[trigger] earlier[k]).message@
                == message;
            assert(errors[k].message@ == message);
            let n = choose|n: int| 0 <= n < rest.len() && (#[trigger] rest[n]).message@ == message;
            assert(unique[n].message@ == message);
        }
        if errors.last().message@ == message {
            assert(errors[errors.len() - 1].message@ == message);
            if !has_message(rest, message) {
                assert(unique[rest.len() as int].message@ == message);
            }
        }
        if has_message(errors, message) && errors.last().message@ != message {
            let k = choose|k: int| 0 <= k < errors.len() && (#[trigger] errors[k]).message@
                == message;
            assert(earlier[k].message@ == message);
        }
        if has_message(unique, message) && !has_message(rest, message) {
            let n = choose|n: int| 0 <= n < unique.len() && (#[trigger] unique[n]).message@
                == message;
            if n < rest.len() {
                assert(rest[n].message@ == message);
            }
        }
        assert forall|i: int, j: int|
            #![trigger unique[i], unique[j]]
            0 <= i < j < unique.len() implies unique[i].message@ != unique[j].message@ by {
            if j < rest.len() {
                assert(rest[i].message@ != rest[j].message@);
            } else {
                assert(rest[i].message@ != errors.last().message@);
            }
        }
    }
}

/// What a build command answers.
#[derive(Debug)]
pub struct BuildResponse<T, R> {
    pub build_targets: T,
    pub project_root: String,
    pub serialized_build_report: Option<String>,
    pub errors: Vec<ReportedError<R>>,
}

/// Puts the answer of a build command together. Each message is reported once.
pub fn build_response<T, R>(
    build_targets: T,
    project_root: String,
    serialized_build_report: Option<String>,
    errors: Vec<ReportedError<R>>,
) -> (response: BuildResponse<T, R>)
    ensures
        response.build_targets == build_targets,
        response.project_root == project_root,
        response.serialized_build_report == serialized_build_report,
        response.errors@ == first_by_message(errors@),
{
    BuildResponse {
        build_targets,
        project_root,
        serialized_build_report,
        errors: unique_errors(errors),
    }
}

/// Reports whether a build went through: it has no errors to report.
pub fn build_completed<T, R>(response: &BuildResponse<T, R>) -> (completed: bool)
    ensures
        completed == (response.errors@.len() == 0),
{
    response.errors.len() == 0
}

/// How many links to outputs a command says it made. One that failed made none.
pub fn links_created<E>(result: &Result<u64, E>) -> (created: u64)
    ensures
        created == match *result {
            Ok(count) => count,
            Err(_) => 0,
        },
{
    match result {
        Ok(count) => *count,
        Err(_) => 0,
    }
}

/// What is to be done about a provider.
#[derive(Clone, Copy, Debug, PartialEq, Eq, Structural)]
pub enum BuildProviderAction {
    Skip,
    BuildIfAvailable,
    Build,
    /// A number that stands for none of them.
    Other(i32),
}

/// What is to be done about each provider of a target.
#[derive(Clone, Copy, Debug, PartialEq, Eq, Structural)]
pub struct BuildProviders {
    pub default_info: BuildProviderAction,
    pub run_info: BuildProviderAction,
    pub test_info: BuildProviderAction,
}

/// The providers that are built.
#[derive(Clone, Copy, Debug, PartialEq, Eq, Structural)]
pub struct ProvidersToBuild {
    pub default: bool,
    pub default_other: bool,
    pub run: bool,
    pub tests: bool,
}

/// The providers that are not to be skipped.
pub fn build_providers_to_providers_to_build(build_providers: &BuildProviders) -> (providers:
    ProvidersToBuild)
    ensures
        providers.default == (build_providers.default_info != BuildProviderAction::Skip),
        providers.default_other == (build_providers.default_info != BuildProviderAction::Skip),
        providers.run == (build_providers.run_info != BuildProviderAction::Skip),
        providers.tests == (build_providers.test_info != BuildProviderAction::Skip),
{
    let mut providers_to_build = ProvidersToBuild {
        default: false,
        default_other: false,
        run: false,
        tests: false,
    };
    if build_providers.default_info != BuildProviderAction::Skip {
        providers_to_build.default = true;
        providers_to_build.default_other = true;
    }
    if build_providers.test_info != BuildProviderAction::Skip {
        providers_to_build.tests = true;
    }
    if build_providers.run_info != BuildProviderAction::Skip {
        providers_to_build.run = true;
    }
    providers_to_build
}

/// Which targets of a package a pattern asks for.
#[derive(Debug)]
pub enum PackageSpec<T> {
    Targets(Vec<T>),
    All,
}

impl<T> PackageSpec<T> {
    /// Reports whether a target that does not fit may be skipped. Those that a
    /// pattern for a whole package takes in always may.
    pub fn is_skippable(&self, skip_incompatible_targets: bool) -> (skippable: bool)
        ensures
            skippable == (self is All || skip_incompatible_targets),
    {
        match self {
            PackageSpec::Targets(_) => skip_incompatible_targets,
            PackageSpec::All => true,
        }
    }

    /// The targets to blame when the package cannot be read: those that were named,
    /// or none in particular.
    pub fn into_blamed(self) -> (blamed: Vec<Option<T>>)
        ensures
            match self {
                PackageSpec::Targets(targets) => blamed@ == targets@.map_values(
                    |target: T| Some(target),
                ),
                PackageSpec::All => blamed@ == seq![None::<T>],
            },
    {
        let mut blamed: Vec<Option<T>> = Vec::new();
        match self {
            PackageSpec::Targets(targets) => {
                let ghost all = targets@;
                for target in it: targets.into_iter()
                    invariant
                        it.seq() == all,
                        blamed@.len() == it.index(),
                        forall|k: int|
                            0 <= k < blamed@.len() ==> #[trigger] blamed@[k] == Some(all[k]),
                {
                    blamed.push(Some(target));
                }
                assert(blamed@ =~= all.map_values(|target: T| Some(target)));
            },
            PackageSpec::All => {
                blamed.push(None);
                assert(blamed@ =~= seq![None::<T>]);
            },
        }
        blamed
    }
}

/// What happens when a target that was named does not exist.
#[derive(Clone, Copy, Debug, PartialEq, Eq, Structural)]
pub enum MissingTargetBehavior {
    Fail,
    Warn,
}

impl MissingTargetBehavior {
    /// Targets that may be skipped are only warned about.
    pub fn from_skip(skip_missing_targets: bool) -> (behavior: Self)
        ensures
            behavior == if skip_missing_targets {
                MissingTargetBehavior::Warn
            } else {
                MissingTargetBehavior::Fail
            },
    {
        if skip_missing_targets {
            MissingTargetBehavior::Warn
        } else {
            MissingTargetBehavior::Fail
        }
    }
}

/// What to do about the targets that do not exist.
#[derive(Debug)]
pub enum MissingTargetReport<M> {
    Nothing,
    /// Report an error for each.
    Errors(Vec<M>),
    /// Show one warning about all of them.
    Warning(Vec<M>),
}

/// Decides what to do about the targets that do not exist, if there are any.
pub fn report_missing_targets<M>(
    missing: Option<Vec<M>>,
    behavior: MissingTargetBehavior,
) -> (report: MissingTargetReport<M>)
    ensures
        report == match missing {
            None => MissingTargetReport::Nothing,
            Some(targets) => match behavior {
                MissingTargetBehavior::Fail => MissingTargetReport::Errors(targets),
                MissingTargetBehavior::Warn => MissingTargetReport::Warning(targets),
            },
        },
{
    match missing {
        None => MissingTargetReport::Nothing,
        Some(targets) => match behavior {
            MissingTargetBehavior::Fail => MissingTargetReport::Errors(targets),
            MissingTargetBehavior::Warn => MissingTargetReport::Warning(targets),
        },
    }
}

/// What is shown when a universe holds none of the targets that were asked for.
pub const NO_TARGETS_IN_UNIVERSE: &'static str = "\nNo targets found inside the specified universe, nothing will be built\n\n";

/// The message about a universe that holds none of the targets, if it holds none.
pub fn universe_message<L>(labels: &Vec<L>) -> (message: Option<&'static str>)
    ensures
        message == if labels@.len() == 0 {
            Some(NO_TARGETS_IN_UNIVERSE)
        } else {
            None
        },
{
    if labels.len() == 0 {
        Some(NO_TARGETS_IN_UNIVERSE)
    } else {
        None
    }
}

/// The options that hold for one target: modifiers of the target's own pattern take
/// the place of the global ones.
pub fn local_cfg_options(
    modifiers: Option<Vec<String>>,
    global_cfg_options: GlobalCfgOptions,
) -> (options: GlobalCfgOptions)
    ensures
        options.target_platform == global_cfg_options.target_platform,
        options.cli_modifiers == match modifiers {
            None => global_cfg_options.cli_modifiers,
            Some(own) => own,
        },
{
    match modifiers {
        None => global_cfg_options,
        Some(own) => GlobalCfgOptions {
            target_platform: global_cfg_options.target_platform,
            cli_modifiers: own,
        },
    }
}

/// Reports whether results are streamed to a file while the build runs.
pub fn wants_streaming_report(filename: &String) -> (wanted: bool)
    ensures
        wanted == (filename@.len() > 0),
{
    !filename.as_str().is_empty()
}

/// A provider that the sketch of artifact paths may leave out.
#[derive(Clone, Copy, Debug, PartialEq, Eq, Structural)]
pub enum SkipProvider {
    Build,
    Run,
    Test,
}

/// A kind of provider.
#[derive(Clone, Copy, Debug, PartialEq, Eq, Hash, Structural)]
pub enum BuildProviderType {
    Default,
    DefaultOther,
    Run,
    Test,
}

/// A word that names no provider that may be left out.
#[derive(Debug)]
pub struct SkipProviderParseError(pub String);

impl SkipProviderParseError {
    /// The error as it is shown.
    pub fn to_text(&self) -> (text: String)
        ensures
            text@ == "Invalid skip provider: `"@ + self.0@
                + "`. Valid values are: [`build`, `run`, `test`]"@,
    {
        let mut text = "Invalid skip provider: `".to_string();
        text.append(self.0.as_str());
        text.append("`. Valid values are: [`build`, `run`, `test`]");
        text
    }
}

impl SkipProvider {
    /// The word that names a provider.
    pub open spec fn word(self) -> Seq<char> {
        match self {
            SkipProvider::Build => "build"@,
            SkipProvider::Run => "run"@,
            SkipProvider::Test => "test"@,
        }
    }

    /// Reads the word that names a provider. White space around it does not matter.
    pub fn from_str(s: &str) -> (parsed: Result<SkipProvider, SkipProviderParseError>)
        ensures
            parsed is Ok == exists|provider: SkipProvider| trimmed(s@) == #[trigger]
                provider.word(),
            parsed matches Ok(provider) ==> provider.word() == trimmed(s@),
            parsed matches Err(error) ==> error.0@ == trimmed(s@),
    {
        let word = trim(s);
        if same_text(word.as_str(), "build") {
            assert(SkipProvider::Build.word() == trimmed(s@));
            Ok(SkipProvider::Build)
        } else if same_text(word.as_str(), "run") {
            assert(SkipProvider::Run.word() == trimmed(s@));
            Ok(SkipProvider::Run)
        } else if same_text(word.as_str(), "test") {
            assert(SkipProvider::Test.word() == trimmed(s@));
            Ok(SkipProvider::Test)
        } else {
            Err(SkipProviderParseError(word))
        }
    }

    /// The kind of provider that is left out.
    pub fn into_build_provider_type(self) -> (kind: BuildProviderType)
        ensures
            kind == match self {
                SkipProvider::Build => BuildProviderType::Default,
                SkipProvider::Run => BuildProviderType::Run,
                SkipProvider::Test => BuildProviderType::Test,
            },
    {
        match self {
            SkipProvider::Build => BuildProviderType::Default,
            SkipProvider::Run => BuildProviderType::Run,
            SkipProvider::Test => BuildProviderType::Test,
        }
    }
}

/// A deprecation is reported exactly where the separator is missing, and asks for it.
pub proof fn missing_separators_are_reported(missing: bool, deprecation: Option<Error>)
    requires
        call_ensures(run_args_deprecation, (missing,), deprecation),
    ensures
        deprecation is Some <==> missing,
        deprecation matches Some(error) ==> error.says(
            "`buck2 run` will require a `--` separator before target arguments in the future. Please use `buck2 run <target> -- <args>` instead of `buck2 run <target> <args>`"@,
        ),
{
}

/// A command has a limit exactly where one is set, and then the one that was set; a
/// limit below zero is refused.
pub proof fn limits_are_taken_as_set(
    timeout: Option<WireDuration>,
    limit: Result<Option<Duration>, Error>,
)
    requires
        call_ensures(command_timeout, (timeout,), limit),
    ensures
        timeout is None ==> limit is Ok && limit->Ok_0 is None,
        timeout matches Some(wire) ==> {
            let nanos = wire.seconds * 1_000_000_000 + wire.nanos;
            let longest = 0x7fff_ffff_ffff_ffff * 1_000_000_000 + 999_999_999;
            &&& limit is Ok <==> nanos >= 0
            &&& 0 <= nanos <= longest ==> limit->Ok_0 is Some && limit->Ok_0->0@ == nanos
            &&& nanos > longest ==> limit->Ok_0 is Some && limit->Ok_0->0@ == longest
            &&& nanos < 0 ==> limit->Err_0.layers().len() == 1 && limit->Err_0.layers()[0]
                == "Invalid `duration`"@
        },
{
}

/// Modifiers of patterns go together with neither global modifiers nor a universe, and
/// with everything else.
pub proof fn pattern_modifiers_stand_alone(
    config: TargetResolutionConfig,
    has_pattern_modifiers: bool,
    checked: Result<(), ModifiersError>,
)
    requires
        call_ensures(check_modifiers, (&config, has_pattern_modifiers), checked),
    ensures
        !has_pattern_modifiers ==> checked is Ok,
        has_pattern_modifiers && config is Universe ==> checked is Err
            && checked->Err_0 is PatternModifiersWithTargetUniverse,
        has_pattern_modifiers && config is Default ==> (checked is Err
            <==> config->Default_0.cli_modifiers@.len() > 0),
        has_pattern_modifiers && config is Default && checked is Err
            ==> checked->Err_0 is PatternModifiersWithGlobalModifiers,
{
}

/// Every property is switched on by a key of its own, and by the configuration only.
pub proof fn properties_have_keys_of_their_own(one: GraphProperty, other: GraphProperty)
    ensures
        GraphProperty::ConfiguredGraphSize.key_spec() == "log_configured_graph_size"@,
        GraphProperty::ConfiguredGraphSketch.key_spec() == "log_configured_graph_sketch"@,
        GraphProperty::TotalConfiguredGraphSketch.key_spec()
            == "log_total_configured_graph_sketch"@,
        GraphProperty::RetainedAnalysisMemorySketch.key_spec()
            == "log_retained_analysis_memory_sketch"@,
        GraphProperty::ActionGraphSketch.key_spec() == "log_action_graph_sketch"@,
        GraphProperty::PeakAnalysisMemorySketch.key_spec() == "log_peak_analysis_memory_sketch"@,
        GraphProperty::PeakLoadMemorySketch.key_spec() == "log_peak_load_memory_sketch"@,
        GraphProperty::ArtifactCountSketch.key_spec() == "log_artifact_count_sketch"@,
        GraphProperty::ArtifactSizeSketch.key_spec() == "log_artifact_size_sketch"@,
        GraphProperty::LogSketchCardinalities.key_spec() == "log_sketch_cardinalities"@,
        one.key_spec() == other.key_spec() ==> one == other,
{
    reveal_strlit("log_configured_graph_size");
    reveal_strlit("log_configured_graph_sketch");
    reveal_strlit("log_total_configured_graph_sketch");
    reveal_strlit("log_retained_analysis_memory_sketch");
    reveal_strlit("log_action_graph_sketch");
    reveal_strlit("log_peak_analysis_memory_sketch");
    reveal_strlit("log_peak_load_memory_sketch");
    reveal_strlit("log_artifact_count_sketch");
    reveal_strlit("log_artifact_size_sketch");
    reveal_strlit("log_sketch_cardinalities");
    if one.key_spec() == other.key_spec() {
        assert(one.key_spec().len() == other.key_spec().len());
        assert(one.key_spec()[4] == other.key_spec()[4]);
        assert(one.key_spec()[13] == other.key_spec()[13]);
    }
}

/// Every option is on exactly where the configuration has its own property set to true.
pub proof fn options_are_read_from_the_configuration<F: Fn(GraphProperty) -> Option<bool>>(
    configured: F,
    options: GraphPropertiesOptions,
    set: spec_fn(GraphProperty) -> Option<bool>,
)
    requires
        call_ensures(GraphPropertiesOptions::from_config::<F>, (&configured,), options),
        forall|property: GraphProperty, value: Option<bool>| #[trigger]
            call_ensures(configured, (property,), value) ==> value == set(property),
    ensures
        options.configured_graph_size <==> set(GraphProperty::ConfiguredGraphSize) == Some(true),
        options.configured_graph_sketch <==> set(GraphProperty::ConfiguredGraphSketch) == Some(
            true,
        ),
        options.total_configured_graph_sketch <==> set(GraphProperty::TotalConfiguredGraphSketch)
            == Some(true),
        options.retained_analysis_memory_sketch <==> set(
            GraphProperty::RetainedAnalysisMemorySketch,
        ) == Some(true),
        options.action_graph_sketch <==> set(GraphProperty::ActionGraphSketch) == Some(true),
        options.peak_analysis_memory_sketch <==> set(GraphProperty::PeakAnalysisMemorySketch)
            == Some(true),
        options.peak_load_memory_sketch <==> set(GraphProperty::PeakLoadMemorySketch) == Some(
            true,
        ),
        options.artifact_count_sketch <==> set(GraphProperty::ArtifactCountSketch) == Some(true),
        options.artifact_size_sketch <==> set(GraphProperty::ArtifactSizeSketch) == Some(true),
        options.log_sketch_cardinalities <==> set(GraphProperty::LogSketchCardinalities) == Some(
            true,
        ),
{
    assert(GraphProperty::ConfiguredGraphSize.is_on(options) == options.configured_graph_size);
    assert(GraphProperty::ConfiguredGraphSketch.is_on(options)
        == options.configured_graph_sketch);
    assert(GraphProperty::TotalConfiguredGraphSketch.is_on(options)
        == options.total_configured_graph_sketch);
    assert(GraphProperty::RetainedAnalysisMemorySketch.is_on(options)
        == options.retained_analysis_memory_sketch);
    assert(GraphProperty::ActionGraphSketch.is_on(options) == options.action_graph_sketch);
    assert(GraphProperty::PeakAnalysisMemorySketch.is_on(options)
        == options.peak_analysis_memory_sketch);
    assert(GraphProperty::PeakLoadMemorySketch.is_on(options)
        == options.peak_load_memory_sketch);
    assert(GraphProperty::ArtifactCountSketch.is_on(options) == options.artifact_count_sketch);
    assert(GraphProperty::ArtifactSizeSketch.is_on(options) == options.artifact_size_sketch);
    assert(GraphProperty::LogSketchCardinalities.is_on(options)
        == options.log_sketch_cardinalities);
}

/// The targets that hit the deadline are those whose result says so, in order; one
/// without a result did not.
pub proof fn late_targets_are_listed<L, A, E>(
    configured: Seq<(L, Option<ConfiguredResult<A, E>>)>,
)
    ensures
        timed_out_labels(configured) == configured.filter(
            |entry: (L, Option<ConfiguredResult<A, E>>)| entry.1 is Some && entry.1->0.timed_out,
        ).map_values(|entry: (L, Option<ConfiguredResult<A, E>>)| entry.0),
    decreases configured.len(),
{
    reveal(Seq::filter);
    let late = |entry: (L, Option<ConfiguredResult<A, E>>)|
        entry.1 is Some && entry.1->0.timed_out;
    let label = |entry: (L, Option<ConfiguredResult<A, E>>)| entry.0;
    if configured.len() > 0 {
        let before = configured.drop_last();
        late_targets_are_listed(before);
        if late(configured.last()) {
            assert(configured.filter(late).map_values(label) =~= before.filter(late).map_values(
                label,
            ).push(configured.last().0));
        }
    } else {
        assert(configured.filter(late).map_values(label) =~= seq![]);
    }
}

/// The successes among results are their values, in order and none twice.
pub proof fn successes_keep_their_order<A, E>(results: Seq<Result<A, E>>)
    ensures
        successes(results) == results.filter(|result: Result<A, E>| result is Ok).map_values(
            |result: Result<A, E>| result->Ok_0,
        ),
    decreases results.len(),
{
    reveal(Seq::filter);
    let good = |result: Result<A, E>| result is Ok;
    let value = |result: Result<A, E>| result->Ok_0;
    if results.len() > 0 {
        let before = results.drop_last();
        successes_keep_their_order(before);
        if good(results.last()) {
            assert(results.filter(good).map_values(value) =~= before.filter(good).map_values(
                value,
            ).push(results.last()->Ok_0));
        }
    } else {
        assert(results.filter(good).map_values(value) =~= seq![]);
    }
}

/// What was built is what succeeded of each target that has a result, target by target.
pub proof fn built_outputs_follow_their_targets<L, A, E>(
    configured: Seq<(L, Option<ConfiguredResult<A, E>>)>,
)
    ensures
        built_outputs(configured) == configured.map_values(
            |entry: (L, Option<ConfiguredResult<A, E>>)|
                match entry.1 {
                    Some(result) => successes(result.outputs@),
                    None => seq![],
                },
        ).flatten(),
{
    let outputs = configured.map_values(
        |entry: (L, Option<ConfiguredResult<A, E>>)|
            match entry.1 {
                Some(result) => successes(result.outputs@),
                None => seq![],
            },
    );
    outputs_in_a_row(configured);
    outputs.lemma_flatten_and_flatten_alt_are_equivalent();
}

proof fn outputs_in_a_row<L, A, E>(configured: Seq<(L, Option<ConfiguredResult<A, E>>)>)
    ensures
        built_outputs(configured) == configured.map_values(
            |entry: (L, Option<ConfiguredResult<A, E>>)|
                match entry.1 {
                    Some(result) => successes(result.outputs@),
                    None => seq![],
                },
        ).flatten_alt(),
    decreases configured.len(),
{
    let of = |entry: (L, Option<ConfiguredResult<A, E>>)|
        match entry.1 {
            Some(result) => successes(result.outputs@),
            None => seq![],
        };
    if configured.len() > 0 {
        let before = configured.drop_last();
        outputs_in_a_row(before);
        assert(configured.map_values(of).drop_last() =~= before.map_values(of));
        assert(configured.map_values(of).last() == of(configured.last()));
        if configured.last().1 is None {
            assert(built_outputs(before) + Seq::<A>::empty() =~= built_outputs(before));
        }
    } else {
        assert(configured.map_values(of) =~= seq![]);
    }
}

/// Of the errors with one message the first is reported, and the others are not.
pub proof fn the_first_of_a_message_is_reported<R>(errors: Seq<ReportedError<R>>, i: int)
    requires
        0 <= i < errors.len(),
        forall|j: int| 0 <= j < i ==> (#[trigger] errors[j]).message@ != errors[i].message@,
    ensures
        first_by_message(errors).contains(errors[i]),
    decreases errors.len(),
{
    let earlier = errors.drop_last();
    let rest = first_by_message(earlier);
    let unique = first_by_message(errors);
    if i == errors.len() - 1 {
        every_message_is_reported_once(earlier, errors[i].message@);
        if has_message(earlier, errors[i].message@) {
            let k = choose|k: int|
                0 <= k < earlier.len() && (#[trigger] earlier[k]).message@ == errors[i].message@;
            assert(errors[k].message@ != errors[i].message@);
        }
        assert(unique[rest.len() as int] == errors[i]);
    } else {
        assert forall|j: int| 0 <= j < i implies (#[trigger] earlier[j]).message@
            != earlier[i].message@ by {
            assert(errors[j].message@ != errors[i].message@);
        }
        the_first_of_a_message_is_reported(earlier, i);
        let k = choose|k: int| 0 <= k < rest.len() && rest[k] == errors[i];
        assert(unique[k] == errors[i]);
    }
}

/// A build went through exactly where no error occurred, and its answer carries the
/// targets, the root and the report as they are.
pub proof fn builds_without_errors_went_through<T, R>(
    build_targets: T,
    project_root: String,
    report: Option<String>,
    errors: Vec<ReportedError<R>>,
    response: BuildResponse<T, R>,
    completed: bool,
)
    requires
        call_ensures(
            build_response::<T, R>,
            (build_targets, project_root, report, errors),
            response,
        ),
        call_ensures(build_completed::<T, R>, (&response,), completed),
    ensures
        completed <==> errors@.len() == 0,
        response.build_targets == build_targets,
        response.project_root == project_root,
        response.serialized_build_report == report,
{
    if errors@.len() > 0 {
        the_first_of_a_message_is_reported(errors@, 0);
    }
}

/// Exactly the providers that are not to be skipped are built, and the default one with
/// its other outputs.
pub proof fn skipped_providers_are_not_built(
    asked: BuildProviders,
    providers: ProvidersToBuild,
)
    requires
        call_ensures(build_providers_to_providers_to_build, (&asked,), providers),
    ensures
        providers.default <==> !(asked.default_info is Skip),
        providers.default_other <==> !(asked.default_info is Skip),
        providers.run <==> !(asked.run_info is Skip),
        providers.tests <==> !(asked.test_info is Skip),
{
}

/// A provider to leave out is named by its own word, with any white space round it, and
/// leads to its own kind.
pub proof fn words_name_their_provider(
    s: &str,
    parsed: Result<SkipProvider, SkipProviderParseError>,
    provider: SkipProvider,
    kind: BuildProviderType,
)
    requires
        call_ensures(SkipProvider::from_str, (s,), parsed),
        call_ensures(SkipProvider::into_build_provider_type, (provider,), kind),
    ensures
        trimmed(s@) == "build"@ ==> parsed == Ok::<SkipProvider, SkipProviderParseError>(
            SkipProvider::Build,
        ),
        trimmed(s@) == "run"@ ==> parsed == Ok::<SkipProvider, SkipProviderParseError>(
            SkipProvider::Run,
        ),
        trimmed(s@) == "test"@ ==> parsed == Ok::<SkipProvider, SkipProviderParseError>(
            SkipProvider::Test,
        ),
        trimmed(s@) != "build"@ && trimmed(s@) != "run"@ && trimmed(s@) != "test"@
            ==> parsed is Err && parsed->Err_0.0@ == trimmed(s@),
        provider is Build <==> kind is Default,
        provider is Run <==> kind is Run,
        provider is Test <==> kind is Test,
{
    reveal_strlit("build");
    reveal_strlit("run");
    reveal_strlit("test");
    assert("build"@.len() == 5 && "run"@.len() == 3 && "test"@.len() == 4);
    if trimmed(s@) == "build"@ {
        assert(SkipProvider::Build.word() == trimmed(s@));
    }
    if trimmed(s@) == "run"@ {
        assert(SkipProvider::Run.word() == trimmed(s@));
    }
    if trimmed(s@) == "test"@ {
        assert(SkipProvider::Test.word() == trimmed(s@));
    }
}

/// A target that does not fit may be skipped where it was not named itself, or where
/// skipping is allowed; and every target that was named is blamed for its package.
pub proof fn named_targets_are_not_skipped<T>(
    spec: PackageSpec<T>,
    skip: bool,
    skippable: bool,
    blamed: Vec<Option<T>>,
)
    requires
        call_ensures(PackageSpec::<T>::is_skippable, (&spec, skip), skippable),
        call_ensures(PackageSpec::<T>::into_blamed, (spec,), blamed),
    ensures
        skip ==> skippable,
        spec is All ==> skippable && blamed@.len() == 1 && blamed@[0] is None,
        spec is Targets && !skip ==> !skippable,
        spec matches PackageSpec::Targets(targets) ==> blamed@.len() == targets@.len()
            && forall|i: int|
            0 <= i < targets@.len() ==> #[trigger] blamed@[i] == Some(targets@[i]),
{
}

/// Missing targets fail the command, unless they may be skipped: then there is one
/// warning about all of them. Without any there is nothing to report.
pub proof fn missing_targets_fail_unless_skipped<M>(
    skip: bool,
    behavior: MissingTargetBehavior,
    missing: Option<Vec<M>>,
    report: MissingTargetReport<M>,
)
    requires
        call_ensures(MissingTargetBehavior::from_skip, (skip,), behavior),
        call_ensures(report_missing_targets::<M>, (missing, behavior), report),
    ensures
        missing is None <==> report is Nothing,
        missing matches Some(targets) ==> !skip ==> report == MissingTargetReport::Errors(targets),
        missing matches Some(targets) ==> skip ==> report == MissingTargetReport::Warning(targets),
{
}

/// Modifiers of a target's own pattern take the place of the global ones; the platform
/// stays.
pub proof fn own_modifiers_take_precedence(
    modifiers: Option<Vec<String>>,
    global: GlobalCfgOptions,
    options: GlobalCfgOptions,
)
    requires
        call_ensures(local_cfg_options, (modifiers, global), options),
    ensures
        options.target_platform == global.target_platform,
        modifiers matches Some(own) ==> options.cli_modifiers == own,
        modifiers is None ==> options.cli_modifiers == global.cli_modifiers,
{
}

/// The events of a build are needed exactly for detailed metrics and for the sketches
/// that are made of them.
pub proof fn sketches_need_events(
    options: GraphPropertiesOptions,
    detailed: bool,
    needed: bool,
    sketches: bool,
)
    requires
        call_ensures(GraphPropertiesOptions::needs_events, (&options, detailed), needed),
        call_ensures(GraphPropertiesOptions::sketches_artifact_paths, (&options,), sketches),
    ensures
        sketches <==> options.artifact_count_sketch || options.artifact_size_sketch,
        needed <==> detailed || options.action_graph_sketch || options.artifact_count_sketch
            || options.artifact_size_sketch,
{
}

/// Times are given in whole milliseconds.
pub proof fn times_are_given_in_milliseconds(
    completion: Option<Duration>,
    millis: Option<u64>,
)
    requires
        call_ensures(completion_millis, (completion,), millis),
    ensures
        completion is None <==> millis is None,
        completion matches Some(span) ==> span@ < 0x1_0000_0000_0000_0000 * 1_000_000
            ==> millis->0 * 1_000_000 <= span@ < (millis->0 + 1) * 1_000_000,
{
    if let Some(span) = completion {
        if span@ < 0x1_0000_0000_0000_0000 * 1_000_000 {
            let whole = span@ / 1_000_000nat;
            assert(whole * 1_000_000 <= span@ < (whole + 1) * 1_000_000);
            assert(whole <= u64::MAX);
        }
    }
}

/// Some pattern brings modifiers exactly where one of the patterns has any; a command
/// that failed made no links; an empty universe is told of; and a report is streamed
/// where a file is named for it.
pub proof fn commands_read_their_arguments(
    modifiers: Vec<Option<Vec<String>>>,
    has: bool,
    links: Result<u64, Error>,
    created: u64,
    labels: Vec<String>,
    message: Option<&'static str>,
    filename: String,
    wanted: bool,
)
    requires
        call_ensures(has_pattern_modifiers, (&modifiers,), has),
        call_ensures(links_created::<Error>, (&links,), created),
        call_ensures(universe_message::<String>, (&labels,), message),
        call_ensures(wants_streaming_report, (&filename,), wanted),
    ensures
        has <==> exists|i: int| 0 <= i < modifiers@.len() && (#[trigger] modifiers@[i]) is Some,
        links matches Ok(count) ==> created == count,
        links is Err ==> created == 0,
        message is Some <==> labels@.len() == 0,
        message is Some ==> message->0@
            == "\nNo targets found inside the specified universe, nothing will be built\n\n"@,
        wanted <==> filename@.len() > 0,
{
}

} // verus!
