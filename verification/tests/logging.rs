use skardi::server::logging::{
    allow_plan_value_logging_from_env, build_env_filter, directive_leaks_plan_values,
    directive_target, directives_are_aligned, filter_can_be_built, is_level_name,
    QUERY_PLAN_TARGET,
};


#[test]
fn env_filter_defaults_to_info_and_caps_aws_config() {
    let filter = build_env_filter(None, false).to_string();
    assert!(filter.contains("info"), "got {filter}");
    assert!(filter.contains("aws_config=warn"), "got {filter}");
}

#[test]
fn env_filter_caps_aws_config_for_unrelated_rust_log() {
    let filter = build_env_filter(Some("debug"), false).to_string();
    assert!(filter.contains("debug"), "got {filter}");
    assert!(filter.contains("aws_config=warn"), "got {filter}");
}

#[test]
fn env_filter_honors_explicit_aws_config_opt_in() {
    let filter = build_env_filter(Some("info,aws_config=debug"), false).to_string();
    assert!(filter.contains("aws_config=debug"), "got {filter}");
    assert!(!filter.contains("aws_config=warn"), "got {filter}");
}

#[test]
fn env_filter_falls_back_to_info_on_invalid_rust_log() {
    let filter = build_env_filter(Some("not a [valid directive"), false).to_string();
    assert!(filter.contains("info"), "got {filter}");
    assert!(filter.contains("aws_config=warn"), "got {filter}");
}

#[test]
fn global_debug_does_not_lower_plan_targets() {
    let filter = build_env_filter(Some("debug"), false).to_string();
    for prefix in ["datafusion", QUERY_PLAN_TARGET, "sqlparser"] {
        assert!(filter.contains(&format!("{prefix}=info")), "got {filter}");
    }
}

#[test]
fn targeted_plan_debug_directives_are_dropped() {
    let filter = build_env_filter(
        Some(
            "info,datafusion_optimizer=debug,datafusion_tracing=trace,skardi_query_plan=debug",
        ),
        false,
    )
    .to_string();
    assert!(
        !filter.contains("datafusion_optimizer=debug"),
        "got {filter}"
    );
    assert!(!filter.contains("datafusion_tracing=trace"), "got {filter}");
    assert!(!filter.contains("skardi_query_plan=debug"), "got {filter}");
    assert!(filter.contains("datafusion=info"), "got {filter}");
}

#[test]
fn bare_plan_target_directive_is_dropped() {
    // `RUST_LOG=datafusion` means TRACE for that target.
    let filter = build_env_filter(Some("datafusion"), false).to_string();
    assert!(filter.contains("datafusion=info"), "got {filter}");
    assert!(filter.contains("info"), "got {filter}");
}

#[test]
fn plan_only_rust_log_falls_back_to_info() {
    let filter = build_env_filter(Some("datafusion=debug"), false).to_string();
    assert!(filter.contains("info"), "got {filter}");
}

#[test]
fn non_plan_targets_keep_their_debug_level() {
    let filter = build_env_filter(Some("warn,skardi_server=debug"), false).to_string();
    assert!(filter.contains("skardi_server=debug"), "got {filter}");
}

#[test]
fn raising_plan_targets_is_still_allowed() {
    // Only *lowering* is blocked; `off`/`warn` are honored as written.
    let filter = build_env_filter(Some("debug,datafusion=off"), false).to_string();
    assert!(filter.contains("datafusion=off"), "got {filter}");
}

#[test]
fn explicit_opt_in_lifts_the_floor() {
    let filter = build_env_filter(Some("datafusion_optimizer=debug"), true).to_string();
    assert!(
        filter.contains("datafusion_optimizer=debug"),
        "got {filter}"
    );
    assert!(!filter.contains("datafusion=info"), "got {filter}");
}

#[test]
fn span_filter_syntax_is_recognised() {
    assert!(directive_leaks_plan_values("datafusion[span{k=v}]=debug"));
    assert!(!directive_leaks_plan_values("datafusion[span{k=v}]=info"));
}

#[test]
fn targets_and_levels_are_told_apart() {
    assert_eq!(directive_target("debug"), None);
    assert_eq!(directive_target("  "), None);
    assert_eq!(directive_target("3"), None);
    assert_eq!(directive_target("datafusion"), Some("datafusion".to_string()));
    assert_eq!(directive_target(" my_crate = info "), Some("my_crate".to_string()));
    assert_eq!(
        directive_target("datafusion[span{k=v}]=debug"),
        Some("datafusion".to_string())
    );
    for level in ["off", "ERROR", "Warn", "info", "debug", "trace", "0", "255", "+7"] {
        assert!(is_level_name(level), "{level}");
    }
    for token in ["256", "verbose", "", "-1"] {
        assert!(!is_level_name(token), "{token}");
    }
}

#[test]
fn leaking_levels_are_recognised() {
    for directive in ["datafusion=", "datafusion = DEBUG", "sqlparser=4", "datafusion_sql=Trace"] {
        assert!(directive_leaks_plan_values(directive), "{directive}");
    }
    for directive in ["datafusion=3", "datafusion=warn", "hyper=trace", "trace", ""] {
        assert!(!directive_leaks_plan_values(directive), "{directive}");
    }
}

#[test]
fn the_filter_is_exactly_what_was_planned() {
    assert_eq!(
        build_env_filter(None, true).to_string(),
        "aws_config=warn,info"
    );
    let filter = build_env_filter(Some("debug,datafusion=off"), false).to_string();
    assert!(filter.contains("skardi_query_plan=info"), "got {filter}");
    assert!(!filter.contains("datafusion=info"), "got {filter}");
}

#[test]
fn the_opt_in_is_read_from_its_value() {
    for value in ["1", "true", " YES ", "anything", "off"] {
        assert!(allow_plan_value_logging_from_env(Some(value)), "{value}");
    }
    for value in ["", "0", "false", " No "] {
        assert!(!allow_plan_value_logging_from_env(Some(value)), "{value}");
    }
    assert!(!allow_plan_value_logging_from_env(None));
}

#[test]
fn directives_that_would_split_a_character_are_noticed() {
    assert!(directives_are_aligned("info, hyper=debug"));
    assert!(directives_are_aligned("caf\u{e9}=debug"));
    assert!(directives_are_aligned(" x\u{e9}"));
    assert!(directives_are_aligned("\u{3000}x"));
    assert!(!directives_are_aligned("info, caf\u{e9}=debug"));
    assert!(!directives_are_aligned("\u{3000}x=debug"));
    let filter = build_env_filter(Some("debug, x\u{e9}"), false).to_string();
    assert!(filter.contains("datafusion=info"), "got {filter}");
}

#[test]
fn only_kept_directives_need_be_parsed() {
    let dropped = "info, datafusion\u{e9}=debug";
    assert!(!directives_are_aligned(dropped));
    assert!(filter_can_be_built(Some(dropped), false));
    assert!(!filter_can_be_built(Some(dropped), true));
    assert!(!filter_can_be_built(Some("info, caf\u{e9}=debug"), false));
    assert!(filter_can_be_built(None, false));
    let filter = build_env_filter(Some(dropped), false).to_string();
    assert!(filter.contains("datafusion=info"), "got {filter}");
    assert!(!filter.contains("debug"), "got {filter}");
}

#[test]
fn a_span_does_not_lift_the_floor() {
    let filter = build_env_filter(Some("debug,datafusion[span]=info"), false).to_string();
    assert!(filter.contains("datafusion=info"), "got {filter}");
    assert!(filter.contains("datafusion[span]=info"), "got {filter}");
}

#[test]
fn a_span_without_a_level_leaks() {
    assert!(directive_leaks_plan_values("datafusion[span{k=v}]"));
    assert!(directive_leaks_plan_values("datafusion[span]"));
    assert!(directive_leaks_plan_values("datafusion[span{k=info}]="));
    assert!(directive_leaks_plan_values("datafusion[span{k=info"));
    assert!(!directive_leaks_plan_values("hyper[span{k=v}]=info"));
    assert_eq!(directive_target("datafusion[span{k=v}]"), Some("datafusion".to_string()));
    assert_eq!(directive_target("datafusion=[x"), Some("datafusion".to_string()));
    assert_eq!(directive_target("a=b[c=d]"), Some("a=b".to_string()));
    assert_eq!(directive_target("a=b [c=d]=info"), Some("a=b".to_string()));
}

#[test]
fn targets_are_compared_as_they_are_parsed() {
    let filter = build_env_filter(Some("debug,datafusion =info"), false).to_string();
    assert!(filter.contains("datafusion=info"), "got {filter}");
    assert!(filter.contains("datafusion =info"), "got {filter}");
    let filter = build_env_filter(Some("debug,datafusion_sql=warn,sqlparser=1"), false).to_string();
    assert!(filter.contains("datafusion_sql=warn"), "got {filter}");
    assert!(filter.contains("datafusion=info"), "got {filter}");
    assert!(filter.contains("sqlparser=error"), "got {filter}");
    assert!(!filter.contains("sqlparser=info"), "got {filter}");
}

#[test]
fn spans_of_other_targets_do_not_let_plans_through() {
    // Inside such a span the level would hold for every target.
    for directive in ["hyper[span]=debug", "[query]=trace", "[{k=v}]=5", "hyper[span{k=v}]"] {
        assert!(directive_leaks_plan_values(directive), "{directive}");
    }
    let filter = build_env_filter(Some("info,[query]=debug,hyper[s]=warn"), false).to_string();
    assert!(!filter.contains("debug"), "got {filter}");
    assert!(filter.contains("hyper[s]=warn"), "got {filter}");
    let filter = build_env_filter(Some("[query]=debug"), true).to_string();
    assert!(filter.contains("[query]=debug"), "got {filter}");
}
