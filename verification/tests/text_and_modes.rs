use cartoboost_py::decimal::{parse_usize, usize_decimal};
use cartoboost_py::method_choice::{
    choose_reconciliation, choose_sequence_blend_mode, parse_sequence_state_space_method,
    arima_order, auto_arima_max_order, parse_theta_seasonality, parse_utility_model,
    seasonal_naive_season_length, usize_param, utility_usize_param, utility_usize_param_or,
    IntegerParamEntry, IntegerParamError, UtilityParamError, ReconciliationChoice, ReconciliationError, SequenceBlendError,
    SequenceBlendMode, SequenceStateSpaceMethod, ThetaSeasonalityChoice, ThetaSeasonalityError,
    ThetaSeasonalityMode, UtilityModel,
};
use cartoboost_py::splitters::{
    parse_splitter, parse_splitters, splitter_name, splitter_names, PeriodReading, SplitterKind,
};
use cartoboost_py::target_mode::{parse_global_target_mode, GlobalTargetMode, TargetModeError};
use cartoboost_py::text::{
    format_forecast_timestamp, lower_key_chars, option_key_chars, str_chars, string_from_chars,
};

/// Reads the period of a `periodic:<p>` name as the Python module does.
fn reading(name: &str) -> PeriodReading {
    match name
        .strip_prefix("periodic:")
        .and_then(|text| text.parse::<f64>().ok())
        .filter(|period| period.is_finite() && *period > 0.0)
    {
        Some(period) => PeriodReading::Valid {
            display: format!("{period}"),
            daily: (period - 24.0).abs() < 1e-12,
        },
        None => PeriodReading::Invalid,
    }
}

fn readings(names: &[String]) -> Vec<PeriodReading> {
    names.iter().map(|name| reading(name)).collect()
}

fn split(name: &str) -> Result<SplitterKind, cartoboost_py::text::UnknownName> {
    parse_splitter(name, &reading(name))
}

fn chars(text: &str) -> Vec<char> {
    text.chars().collect()
}

#[test]
fn option_key_normalises() {
    assert_eq!(string_from_chars(&option_key_chars("  Universal-Linear\t")), "universal_linear");
    assert_eq!(string_from_chars(&option_key_chars("")), "");
    assert_eq!(string_from_chars(&option_key_chars(" \n ")), "");
    assert_eq!(string_from_chars(&option_key_chars("ÄB-c")), "Äb_c");
    let once = string_from_chars(&option_key_chars(" Mean-Squared_Error "));
    let twice = string_from_chars(&option_key_chars(&once));
    assert_eq!(once, twice);
}

#[test]
fn lower_key_keeps_hyphens() {
    assert_eq!(string_from_chars(&lower_key_chars(" Forward-EKF ")), "forward-ekf");
}

#[test]
fn str_chars_reads_unicode() {
    assert_eq!(str_chars("héllo"), vec!['h', 'é', 'l', 'l', 'o']);
}

#[test]
fn timestamp_spaces_become_t() {
    assert_eq!(format_forecast_timestamp("2024-01-02 03:04:05"), "2024-01-02T03:04:05");
    assert_eq!(format_forecast_timestamp("2024-01-02"), "2024-01-02");
}

#[test]
fn usize_text_follows_from_str() {
    for text in ["0", "7", "+12", "0042", "18446744073709551615"] {
        assert_eq!(parse_usize(&chars(text)), text.parse::<usize>().ok(), "{text}");
    }
    for text in ["", "+", "-1", "1_000", " 3", "3 ", "18446744073709551616", "12a"] {
        assert_eq!(parse_usize(&chars(text)), None, "{text}");
        assert_eq!(text.parse::<usize>().ok(), None, "{text}");
    }
}

#[test]
fn usize_decimal_matches_to_string() {
    for n in [0usize, 9, 10, 64, 1234567, usize::MAX] {
        let text: String = usize_decimal(n).into_iter().collect();
        assert_eq!(text, n.to_string());
        assert_eq!(parse_usize(&usize_decimal(n)), Some(n));
    }
}

#[test]
fn target_modes() {
    assert_eq!(parse_global_target_mode("level").unwrap(), GlobalTargetMode::Level);
    assert_eq!(parse_global_target_mode("delta").unwrap(), GlobalTargetMode::DeltaFromLast);
    assert_eq!(
        parse_global_target_mode("delta_from_last").unwrap(),
        GlobalTargetMode::DeltaFromLast
    );
    assert_eq!(
        parse_global_target_mode("seasonal_delta_7").unwrap(),
        GlobalTargetMode::SeasonalDelta { season_length: 7 }
    );
    assert_eq!(
        parse_global_target_mode("seasonal_delta:52").unwrap(),
        GlobalTargetMode::SeasonalDelta { season_length: 52 }
    );
    assert_eq!(
        parse_global_target_mode("seasonal_delta_+24").unwrap(),
        GlobalTargetMode::SeasonalDelta { season_length: 24 }
    );
}

#[test]
fn target_mode_errors() {
    assert!(matches!(parse_global_target_mode("Level"), Err(TargetModeError::Unknown)));
    assert!(matches!(parse_global_target_mode("seasonal_delta"), Err(TargetModeError::Unknown)));
    assert!(matches!(
        parse_global_target_mode("seasonal_delta_0"),
        Err(TargetModeError::ZeroSeasonLength)
    ));
    match parse_global_target_mode("seasonal_delta:week") {
        Err(TargetModeError::NotAnInteger { text }) => assert_eq!(text, "week"),
        other => panic!("unexpected {other:?}"),
    }
    match parse_global_target_mode("seasonal_delta_") {
        Err(TargetModeError::NotAnInteger { text }) => assert_eq!(text, ""),
        other => panic!("unexpected {other:?}"),
    }
}

#[test]
fn splitter_names_and_aliases() {
    assert!(matches!(split("auto"), Ok(SplitterKind::Auto)));
    assert!(matches!(split("histogram"), Ok(SplitterKind::AxisHistogram { bins: 64 })));
    assert!(matches!(split("axis_hist:16"), Ok(SplitterKind::AxisHistogram { bins: 16 })));
    assert!(matches!(
        split("axis_histogram:2"),
        Ok(SplitterKind::AxisHistogram { bins: 2 })
    ));
    assert!(matches!(split("radial"), Ok(SplitterKind::Gaussian2D)));
    assert!(matches!(split("diagonal2d"), Ok(SplitterKind::Diagonal2D)));
    assert!(matches!(split("periodic_24"), Ok(SplitterKind::PeriodicTime)));
    assert!(matches!(split("sparse"), Ok(SplitterKind::SparseSet)));
    match split("periodic:7.5") {
        Ok(SplitterKind::PeriodicCustom { period_text, daily }) => {
            assert_eq!(period_text, "7.5");
            assert!(!daily);
        }
        other => panic!("unexpected {other:?}"),
    }
}

#[test]
fn splitter_errors() {
    assert_eq!(split("axis_histogram:1").unwrap_err().name, "axis_histogram:1");
    assert_eq!(split("axis_hist:many").unwrap_err().name, "axis_hist:many");
    assert_eq!(split("Auto").unwrap_err().name, "Auto");
    let names = vec!["axis".to_string(), "bogus".to_string(), "worse".to_string()];
    assert_eq!(parse_splitters(&names, &readings(&names)).unwrap_err().name, "bogus");
}

#[test]
fn empty_splitter_list_is_auto() {
    let kinds = parse_splitters(&[], &[]).unwrap();
    assert_eq!(kinds.len(), 1);
    assert!(matches!(kinds[0], SplitterKind::Auto));
}

#[test]
fn splitter_names_round_trip() {
    let names: Vec<String> = ["axis_hist:32", "periodic_time", "gaussian2d", "periodic:12", "sparse"]
        .iter()
        .map(|name| name.to_string())
        .collect();
    let kinds = parse_splitters(&names, &readings(&names)).unwrap();
    let canonical = splitter_names(&kinds);
    assert_eq!(
        canonical,
        vec!["axis_histogram:32", "periodic_time", "gaussian_2d", "periodic:12", "sparse_set"]
    );
    let again = splitter_names(&parse_splitters(&canonical, &readings(&canonical)).unwrap());
    assert_eq!(again, canonical);
    assert_eq!(splitter_name(&SplitterKind::AxisHistogram { bins: 64 }), "axis_histogram:64");
}

#[test]
fn sequence_state_space_methods() {
    assert_eq!(
        parse_sequence_state_space_method(" EKF ").unwrap(),
        SequenceStateSpaceMethod::ForwardEkf
    );
    assert_eq!(
        parse_sequence_state_space_method("UKF_Reference").unwrap(),
        SequenceStateSpaceMethod::UkfReference
    );
    assert_eq!(
        parse_sequence_state_space_method("rts").unwrap(),
        SequenceStateSpaceMethod::RtsSmoother
    );
    assert_eq!(
        parse_sequence_state_space_method("continuation").unwrap(),
        SequenceStateSpaceMethod::MissingTargetContinuation
    );
    assert_eq!(parse_sequence_state_space_method(" Forward-EKF").unwrap_err().name, "forward-ekf");
}

#[test]
fn blend_modes_need_their_inputs() {
    assert_eq!(choose_sequence_blend_mode("fixed", true, false).unwrap(), SequenceBlendMode::Fixed);
    assert!(matches!(
        choose_sequence_blend_mode("Fixed", false, true),
        Err(SequenceBlendError::WeightsRequired)
    ));
    assert_eq!(
        choose_sequence_blend_mode("validation", false, true).unwrap(),
        SequenceBlendMode::ValidationDerived
    );
    assert!(matches!(
        choose_sequence_blend_mode("nonnegative", true, false),
        Err(SequenceBlendError::ActualsRequired)
    ));
    assert_eq!(
        choose_sequence_blend_mode(" CONSTRAINED ", false, true).unwrap(),
        SequenceBlendMode::ConstrainedNonnegative
    );
    match choose_sequence_blend_mode("Stacked", true, true) {
        Err(SequenceBlendError::UnknownMode(e)) => assert_eq!(e.name, "stacked"),
        other => panic!("unexpected {other:?}"),
    }
}

#[test]
fn theta_seasonality_choices() {
    assert_eq!(parse_theta_seasonality(None, None), Ok(None));
    assert_eq!(parse_theta_seasonality(Some(7), None), Ok(None));
    assert_eq!(
        parse_theta_seasonality(None, Some("additive")),
        Err(ThetaSeasonalityError::SeasonLengthRequired)
    );
    assert_eq!(
        parse_theta_seasonality(Some(12), Some("multiplicative")),
        Ok(Some(ThetaSeasonalityChoice {
            mode: ThetaSeasonalityMode::Multiplicative,
            season_length: 12
        }))
    );
    assert_eq!(
        parse_theta_seasonality(Some(12), Some("Additive")),
        Err(ThetaSeasonalityError::UnknownMode)
    );
    assert_eq!(
        parse_theta_seasonality(None, Some("bogus")),
        Err(ThetaSeasonalityError::SeasonLengthRequired)
    );
}

#[test]
fn reconciliation_methods() {
    assert_eq!(choose_reconciliation("bottom_up", None, false, false), Ok(ReconciliationChoice::BottomUp));
    assert_eq!(choose_reconciliation("top_down", None, false, false), Ok(ReconciliationChoice::TopDown));
    assert_eq!(
        choose_reconciliation("middle_out", Some(2), false, false),
        Ok(ReconciliationChoice::MiddleOut { level: 2 })
    );
    assert_eq!(
        choose_reconciliation("middle_out", None, true, true),
        Err(ReconciliationError::LevelRequired)
    );
    assert_eq!(choose_reconciliation("ols", None, false, false), Ok(ReconciliationChoice::Ols));
    assert_eq!(choose_reconciliation("wls", None, true, false), Ok(ReconciliationChoice::Wls));
    assert_eq!(
        choose_reconciliation("wls", Some(1), false, true),
        Err(ReconciliationError::VariancesRequired)
    );
    assert_eq!(choose_reconciliation("mint", None, false, true), Ok(ReconciliationChoice::MinTrace));
    assert_eq!(
        choose_reconciliation("min_trace", None, true, false),
        Err(ReconciliationError::ResidualsRequired)
    );
    assert_eq!(
        choose_reconciliation("Bottom_Up", None, true, true),
        Err(ReconciliationError::Unsupported)
    );
}

#[test]
fn utility_models() {
    let cases = [
        ("naive", UtilityModel::Naive),
        ("seasonal-naive", UtilityModel::SeasonalNaive),
        ("theta", UtilityModel::Theta),
        ("optimized_theta", UtilityModel::OptimizedTheta),
        ("ets", UtilityModel::Ets),
        ("arima", UtilityModel::Arima),
        ("auto-arima", UtilityModel::AutoArima),
        ("kalman", UtilityModel::LocalLinearTrendKalman),
        ("local-linear-trend-kalman", UtilityModel::LocalLinearTrendKalman),
        ("self_tuning_kalman", UtilityModel::AutoKalman),
        ("local_level_kalman", UtilityModel::LocalLevelKalman),
        ("auto-local-level-kalman", UtilityModel::AutoLocalLevelKalman),
    ];
    for (name, model) in cases {
        assert_eq!(parse_utility_model(name).unwrap(), model, "{name}");
    }
    assert_eq!(parse_utility_model("prophet").unwrap_err().name, "prophet");
}

#[test]
fn integer_parameters() {
    assert_eq!(usize_param(IntegerParamEntry::Missing), Ok(None));
    assert_eq!(usize_param(IntegerParamEntry::Null), Ok(None));
    assert_eq!(usize_param(IntegerParamEntry::Unsigned(12)), Ok(Some(12)));
    assert_eq!(
        usize_param(IntegerParamEntry::NotUnsigned),
        Err(IntegerParamError::NotNonNegativeInteger)
    );
    if usize::BITS == 64 {
        assert_eq!(usize_param(IntegerParamEntry::Unsigned(u64::MAX)), Ok(Some(usize::MAX)));
    }
}

#[test]
fn lower_key_is_idempotent() {
    let once = string_from_chars(&lower_key_chars("\u{2003}Validation_Derived "));
    assert_eq!(once, "validation_derived");
    assert_eq!(string_from_chars(&lower_key_chars(&once)), once);
}

#[test]
fn every_positive_season_length_reads_back() {
    for n in [1usize, 2, 7, 365, 1_000_000] {
        assert_eq!(
            parse_global_target_mode(&format!("seasonal_delta_{n}")).unwrap(),
            GlobalTargetMode::SeasonalDelta { season_length: n }
        );
        assert_eq!(
            parse_global_target_mode(&format!("seasonal_delta:{n}")).unwrap(),
            GlobalTargetMode::SeasonalDelta { season_length: n }
        );
    }
}

#[test]
fn utility_params_from_json() {
    assert_eq!(utility_usize_param(None, "p").unwrap(), None);
    assert_eq!(utility_usize_param(Some(r#"{"p": 3, "q": null}"#), "p").unwrap(), Some(3));
    assert_eq!(utility_usize_param(Some(r#"{"p": 3, "q": null}"#), "q").unwrap(), None);
    assert_eq!(utility_usize_param(Some(r#"{"p": 3}"#), "d").unwrap(), None);
    assert_eq!(utility_usize_param(Some("[1, 2]"), "p").unwrap(), None);
    assert!(matches!(
        utility_usize_param(Some(r#"{"p": -1}"#), "p"),
        Err(UtilityParamError::Integer(IntegerParamError::NotNonNegativeInteger))
    ));
    assert!(matches!(
        utility_usize_param(Some(r#"{"p": 1.5}"#), "p"),
        Err(UtilityParamError::Integer(IntegerParamError::NotNonNegativeInteger))
    ));
    assert!(matches!(
        utility_usize_param(Some("{not json"), "p"),
        Err(UtilityParamError::InvalidJson(_))
    ));
}

#[test]
fn first_bad_splitter_is_reported_even_for_a_bad_period() {
    let names = vec!["periodic:x".to_string(), "bogus".to_string()];
    assert_eq!(parse_splitters(&names, &readings(&names)).unwrap_err().name, "periodic:x");
    let names = vec!["axis".to_string(), "periodic:-2".to_string(), "bogus".to_string()];
    assert_eq!(parse_splitters(&names, &readings(&names)).unwrap_err().name, "periodic:-2");
}

#[test]
fn period_validity_counts_only_for_custom_periods() {
    let names = vec!["axis".to_string(), "periodic_time".to_string(), "periodic:12".to_string()];
    let invalid = vec![PeriodReading::Invalid, PeriodReading::Invalid, reading("periodic:12")];
    let kinds = parse_splitters(&names, &invalid).unwrap();
    assert_eq!(kinds.len(), 3);
    assert!(matches!(kinds[1], SplitterKind::PeriodicTime));
}

#[test]
fn utility_integer_defaults() {
    assert_eq!(seasonal_naive_season_length(None).unwrap(), 1);
    assert_eq!(seasonal_naive_season_length(Some(r#"{"season_length": 7}"#)).unwrap(), 7);
    assert_eq!(seasonal_naive_season_length(Some(r#"{"season_length": null}"#)).unwrap(), 1);
    assert_eq!(arima_order(None).unwrap(), (1, 0, 0));
    assert_eq!(arima_order(Some(r#"{"d": 2}"#)).unwrap(), (1, 2, 0));
    assert_eq!(auto_arima_max_order(None).unwrap(), (3, 1, 2));
    assert_eq!(auto_arima_max_order(Some(r#"{"max_q": 5, "max_p": 0}"#)).unwrap(), (0, 1, 5));
    assert_eq!(utility_usize_param_or(Some(r#"{"k": 4}"#), "k", 9).unwrap(), 4);
    assert_eq!(utility_usize_param_or(Some("{}"), "k", 9).unwrap(), 9);
}

#[test]
fn utility_integer_errors() {
    assert!(matches!(
        arima_order(Some(r#"{"p": "one", "q": -1}"#)),
        Err(UtilityParamError::Integer(IntegerParamError::NotNonNegativeInteger))
    ));
    assert!(matches!(
        auto_arima_max_order(Some("not json")),
        Err(UtilityParamError::InvalidJson(_))
    ));
    assert!(matches!(
        seasonal_naive_season_length(Some(r#"{"season_length": 2.5}"#)),
        Err(UtilityParamError::Integer(IntegerParamError::NotNonNegativeInteger))
    ));
}

#[test]
fn a_custom_period_of_24_is_named_periodic_time() {
    let names = vec!["periodic:24".to_string(), "periodic:24.0".to_string(), "periodic:1e1".to_string()];
    let kinds = parse_splitters(&names, &readings(&names)).unwrap();
    assert_eq!(splitter_names(&kinds), vec!["periodic_time", "periodic_time", "periodic:10"]);
}
