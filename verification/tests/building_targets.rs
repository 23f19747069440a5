//! What a build command decides around its builds.
use buck2_re_recovery::build_command::{
    build_completed, build_providers_to_providers_to_build, build_response, check_modifiers,
    command_timeout, completion_millis, has_pattern_modifiers, links_created, local_cfg_options,
    provider_artifacts, report_missing_targets, run_args_deprecation, timed_out_targets,
    unique_errors, universe_message, wants_streaming_report, BuildProviderAction,
    BuildProviderType, BuildProviders, ConfiguredResult, GlobalCfgOptions, GraphPropertiesOptions,
    GraphProperty, MissingTargetBehavior, MissingTargetReport, ModifiersError, PackageSpec,
    ReportedError, SkipProvider, TargetResolutionConfig,
};
use buck2_re_recovery::convert::WireDuration;
use buck2_re_recovery::duration::Duration;
use buck2_re_recovery::text::{
    contains, decimal_text, is_before, signed_decimal_text, starts_with, trim,
};

#[test]
fn arguments_without_a_separator_are_deprecated() {
    assert!(run_args_deprecation(false).is_none());
    assert_eq!(
        run_args_deprecation(true).unwrap().to_text(),
        "`buck2 run` will require a `--` separator before target arguments in the future. Please \
         use `buck2 run <target> -- <args>` instead of `buck2 run <target> <args>`"
    );
}

#[test]
fn a_limit_below_zero_is_an_error() {
    let limit = |seconds: i64, nanos: i32| {
        command_timeout(Some(WireDuration { seconds, nanos })).map_err(|error| error.to_text())
    };
    assert_eq!(command_timeout(None).unwrap(), None);
    assert_eq!(limit(2, 5), Ok(Some(Duration::new(2, 5))));
    assert_eq!(
        limit(-2, 0),
        Err("Invalid `duration`: failed to convert negative duration: 2s".to_owned())
    );
}

fn global(cli_modifiers: &[&str]) -> GlobalCfgOptions {
    GlobalCfgOptions {
        target_platform: Some("//platform".to_owned()),
        cli_modifiers: cli_modifiers.iter().map(|m| (*m).to_owned()).collect(),
    }
}

#[test]
fn modifiers_of_patterns_stand_alone() {
    assert!(!has_pattern_modifiers(&vec![None, None]));
    assert!(has_pattern_modifiers(&vec![None, Some(Vec::new())]));
    let plain = TargetResolutionConfig::Default(global(&[]));
    let modified = TargetResolutionConfig::Default(global(&["m"]));
    assert_eq!(check_modifiers(&plain, true), Ok(()));
    assert_eq!(check_modifiers(&modified, false), Ok(()));
    assert_eq!(
        check_modifiers(&modified, true),
        Err(ModifiersError::PatternModifiersWithGlobalModifiers)
    );
    assert_eq!(
        check_modifiers(&TargetResolutionConfig::Universe, true),
        Err(ModifiersError::PatternModifiersWithTargetUniverse)
    );
    assert_eq!(
        check_modifiers(&TargetResolutionConfig::Universe, false),
        Ok(())
    );
}

#[test]
fn modifiers_of_a_pattern_replace_the_global_ones() {
    let own = local_cfg_options(Some(vec!["x".to_owned()]), global(&["m"]));
    assert_eq!(own.cli_modifiers, vec!["x".to_owned()]);
    assert_eq!(own.target_platform, Some("//platform".to_owned()));
    let kept = local_cfg_options(None, global(&["m"]));
    assert_eq!(kept.cli_modifiers, vec!["m".to_owned()]);
}

#[test]
fn graph_properties_are_off_unless_switched_on() {
    let options = GraphPropertiesOptions::from_config(&|property: GraphProperty| {
        match property.key() {
            "log_configured_graph_size" => Some(true),
            "log_artifact_size_sketch" => Some(true),
            "log_action_graph_sketch" => Some(false),
            _ => None,
        }
    });
    assert!(options.configured_graph_size);
    assert!(options.artifact_size_sketch);
    assert!(!options.action_graph_sketch);
    assert!(!options.log_sketch_cardinalities);
    assert!(options.sketches_artifact_paths());
    assert!(options.needs_events(false));
    let none = GraphPropertiesOptions::from_config(&|_: GraphProperty| None);
    assert!(!none.needs_events(false));
    assert!(none.needs_events(true));
}

#[test]
fn each_graph_property_has_a_key_of_its_own() {
    let all = [
        GraphProperty::ConfiguredGraphSize,
        GraphProperty::ConfiguredGraphSketch,
        GraphProperty::TotalConfiguredGraphSketch,
        GraphProperty::RetainedAnalysisMemorySketch,
        GraphProperty::ActionGraphSketch,
        GraphProperty::PeakAnalysisMemorySketch,
        GraphProperty::PeakLoadMemorySketch,
        GraphProperty::ArtifactCountSketch,
        GraphProperty::ArtifactSizeSketch,
        GraphProperty::LogSketchCardinalities,
    ];
    for one in all {
        let options =
            GraphPropertiesOptions::from_config(&|property: GraphProperty| Some(property == one));
        let flags = [
            options.configured_graph_size,
            options.configured_graph_sketch,
            options.total_configured_graph_sketch,
            options.retained_analysis_memory_sketch,
            options.action_graph_sketch,
            options.peak_analysis_memory_sketch,
            options.peak_load_memory_sketch,
            options.artifact_count_sketch,
            options.artifact_size_sketch,
            options.log_sketch_cardinalities,
        ];
        let expected: Vec<bool> = all.iter().map(|other| *other == one).collect();
        assert_eq!(flags.to_vec(), expected, "{}", one.key());
    }
}

fn result(
    outputs: Vec<Result<u32, &'static str>>,
    timed_out: bool,
) -> Option<ConfiguredResult<u32, &'static str>> {
    Some(ConfiguredResult {
        outputs,
        timed_out,
        wall_clock_completion: None,
    })
}

#[test]
fn targets_that_hit_the_deadline_are_listed() {
    let configured = vec![
        ("a", result(vec![], true)),
        ("b", None),
        ("c", result(vec![], false)),
        ("d", result(vec![], true)),
    ];
    assert_eq!(timed_out_targets(&configured), vec![&"a", &"d"]);
}

#[test]
fn outputs_that_were_built_are_gathered_in_order() {
    let configured = vec![
        ("a", result(vec![Ok(1), Err("x"), Ok(2)], false)),
        ("b", None),
        ("c", result(vec![Err("y")], false)),
        ("d", result(vec![Ok(3)], true)),
    ];
    assert_eq!(provider_artifacts(configured), vec![1, 2, 3]);
}

fn reported(message: &str, report: u32) -> ReportedError<u32> {
    ReportedError {
        message: message.to_owned(),
        report,
    }
}

#[test]
fn a_message_is_reported_once() {
    let unique = unique_errors(vec![
        reported("a", 1),
        reported("b", 2),
        reported("a", 3),
        reported("c", 4),
        reported("b", 5),
    ]);
    let kept: Vec<(&str, u32)> = unique
        .iter()
        .map(|error| (error.message.as_str(), error.report))
        .collect();
    assert_eq!(kept, vec![("a", 1), ("b", 2), ("c", 4)]);
}

#[test]
fn a_build_went_through_when_it_has_no_errors() {
    let failed = build_response(
        7,
        "/root".to_owned(),
        Some("report".to_owned()),
        vec![reported("a", 1), reported("a", 2)],
    );
    assert!(!build_completed(&failed));
    assert_eq!(failed.errors.len(), 1);
    assert_eq!(failed.build_targets, 7);
    assert_eq!(failed.project_root, "/root");
    assert_eq!(failed.serialized_build_report, Some("report".to_owned()));
    let built = build_response(7, String::new(), None, Vec::<ReportedError<u32>>::new());
    assert!(build_completed(&built));
}

#[test]
fn failed_links_count_as_none() {
    assert_eq!(links_created(&Ok::<u64, &str>(4)), 4);
    assert_eq!(links_created(&Err::<u64, &str>("no")), 0);
}

#[test]
fn completion_is_counted_in_whole_milliseconds() {
    assert_eq!(completion_millis(None), None);
    assert_eq!(
        completion_millis(Some(Duration::new(2, 3_999_999))),
        Some(2_003)
    );
}

#[test]
fn providers_are_built_unless_skipped() {
    let providers = build_providers_to_providers_to_build(&BuildProviders {
        default_info: BuildProviderAction::Build,
        run_info: BuildProviderAction::Skip,
        test_info: BuildProviderAction::BuildIfAvailable,
    });
    assert!(providers.default && providers.default_other && providers.tests);
    assert!(!providers.run);
    let unheard_of = build_providers_to_providers_to_build(&BuildProviders {
        default_info: BuildProviderAction::Skip,
        run_info: BuildProviderAction::Skip,
        test_info: BuildProviderAction::Other(17),
    });
    assert!(unheard_of.tests && !unheard_of.run && !unheard_of.default);
    let none = build_providers_to_providers_to_build(&BuildProviders {
        default_info: BuildProviderAction::Skip,
        run_info: BuildProviderAction::Build,
        test_info: BuildProviderAction::Skip,
    });
    assert!(none.run);
    assert!(!none.default && !none.default_other && !none.tests);
}

#[test]
fn targets_of_a_whole_package_may_be_skipped() {
    let named = PackageSpec::Targets(vec!["a", "b"]);
    assert!(!named.is_skippable(false));
    assert!(named.is_skippable(true));
    assert!(PackageSpec::<&str>::All.is_skippable(false));
    assert_eq!(named.into_blamed(), vec![Some("a"), Some("b")]);
    assert_eq!(PackageSpec::<&str>::All.into_blamed(), vec![None]);
}

#[test]
fn missing_targets_fail_or_warn() {
    assert_eq!(
        MissingTargetBehavior::from_skip(true),
        MissingTargetBehavior::Warn
    );
    assert_eq!(
        MissingTargetBehavior::from_skip(false),
        MissingTargetBehavior::Fail
    );
    assert!(matches!(
        report_missing_targets(Some(vec!["x"]), MissingTargetBehavior::Fail),
        MissingTargetReport::Errors(targets) if targets == vec!["x"]
    ));
    assert!(matches!(
        report_missing_targets(Some(vec!["x"]), MissingTargetBehavior::Warn),
        MissingTargetReport::Warning(targets) if targets == vec!["x"]
    ));
    assert!(matches!(
        report_missing_targets::<&str>(None, MissingTargetBehavior::Fail),
        MissingTargetReport::Nothing
    ));
}

#[test]
fn an_empty_universe_is_pointed_out() {
    assert_eq!(
        universe_message::<u8>(&vec![]),
        Some("\nNo targets found inside the specified universe, nothing will be built\n\n")
    );
    assert_eq!(universe_message(&vec![1]), None);
    assert!(wants_streaming_report(&"file".to_owned()));
    assert!(!wants_streaming_report(&String::new()));
}

#[test]
fn providers_to_skip_are_read_by_name() {
    let parse = |word: &str| SkipProvider::from_str(word).map_err(|error| error.to_text());
    assert_eq!(parse("build"), Ok(SkipProvider::Build));
    assert_eq!(parse(" run\t"), Ok(SkipProvider::Run));
    assert_eq!(parse("\u{3000}test\n"), Ok(SkipProvider::Test));
    assert_eq!(
        parse(" bu ild "),
        Err(
            "Invalid skip provider: `bu ild`. Valid values are: [`build`, `run`, `test`]"
                .to_owned()
        )
    );
    assert!(parse("Build").is_err());
    assert!(parse("").is_err());
    assert_eq!(
        SkipProvider::Build.into_build_provider_type(),
        BuildProviderType::Default
    );
    assert_eq!(
        SkipProvider::Run.into_build_provider_type(),
        BuildProviderType::Run
    );
    assert_eq!(
        SkipProvider::Test.into_build_provider_type(),
        BuildProviderType::Test
    );
}

#[test]
fn white_space_is_what_std_takes_it_to_be() {
    for code in 0..=0x1_0000u32 {
        if let Some(c) = char::from_u32(code) {
            let text = format!("{c}a{c}{c}b{c}");
            assert_eq!(trim(&text), text.trim(), "{code:x}");
        }
    }
    assert_eq!(trim(" \t\n"), "");
}

#[test]
fn texts_are_compared_as_std_compares_them() {
    let texts = ["", "a", "ab", "b", "aa", "\u{e9}", "\u{1f600}", "\u{ffff}", "ABC"];
    for left in texts {
        for right in texts {
            assert_eq!(is_before(left, right), left < right, "{left} {right}");
            assert_eq!(starts_with(left, right), left.starts_with(right));
            assert_eq!(contains(left, right), left.contains(right));
        }
    }
    assert!(contains("xaaay", "aay"));
}

#[test]
fn numbers_are_spelled_as_std_spells_them() {
    for n in [0, 7, 10, 99, 100, u64::MAX] {
        assert_eq!(decimal_text(n), n.to_string());
    }
    for n in [0, -1, 42, i64::MIN, i64::MAX] {
        assert_eq!(signed_decimal_text(n), n.to_string());
    }
}
