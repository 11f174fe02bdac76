use cartoboost_py::arrays::{
    all_rows_have_width, blocks_from_shape, fixed_width_rows, rows_from_flat, rows_from_shape,
    ShapeError,
};
use cartoboost_py::calendar::{calendar_feature_config, push_elapsed_calendar_periods, CalendarFeature};
use cartoboost_py::lag_features::{
    keep_steps_above_one, require_recursive, resolve_lag_lists, LagConfigError, LagListRequest,
    LagModelFamily,
};
use cartoboost_py::model_options::ClassificationObjective;
use cartoboost_py::sparse::{encoded_sparse_sets, SparseSetError};
use cartoboost_py::validate::{
    choose_timestamp_schedule, validate_estimator_count, validate_min_samples_leaf,
    ConflictingSchedules, TimestampSchedule, graph_node_count, pair_together, validate_class_setup, validate_feature_rows,
    validate_fit_horizon, validate_frame_rows, validate_future_timestamp_count,
    validate_max_split_candidates, validate_n_threads, ClassSetupError, ConfigError,
    FeatureRowsError, FrameRowsError, GraphPartsError,
};

#[test]
fn calendar_disabled_is_empty() {
    assert!(calendar_feature_config(false, true, true, Some(&[7, 14])).is_empty());
}

#[test]
fn calendar_basic_and_rich() {
    assert_eq!(
        calendar_feature_config(true, false, false, Some(&[7])),
        vec![CalendarFeature::DayOfWeek, CalendarFeature::Month, CalendarFeature::Day]
    );
    let rich = calendar_feature_config(true, true, false, Some(&[7, 1, 7, 30, 0, 2]));
    assert_eq!(rich.len(), 3 + 11 + 3);
    assert_eq!(rich[13], CalendarFeature::ElapsedIndex);
    assert_eq!(
        &rich[14..],
        &[
            CalendarFeature::ElapsedPhase(7),
            CalendarFeature::ElapsedPhase(30),
            CalendarFeature::ElapsedPhase(2)
        ]
    );
}

#[test]
fn calendar_elapsed_only() {
    assert_eq!(
        calendar_feature_config(true, false, true, Some(&[24, 168, 24])),
        vec![
            CalendarFeature::ElapsedIndex,
            CalendarFeature::ElapsedPhase(24),
            CalendarFeature::ElapsedPhase(168)
        ]
    );
    assert_eq!(calendar_feature_config(true, true, true, None), vec![CalendarFeature::ElapsedIndex]);
}

#[test]
fn elapsed_periods_are_appended_once() {
    let mut features = vec![CalendarFeature::Month];
    push_elapsed_calendar_periods(&mut features, Some(&[3, 3, 1, 5, 3]));
    assert_eq!(
        features,
        vec![
            CalendarFeature::Month,
            CalendarFeature::ElapsedPhase(3),
            CalendarFeature::ElapsedPhase(5)
        ]
    );
}

fn empty_request(trend_features: bool) -> LagListRequest {
    LagListRequest {
        lags: None,
        rolling_windows: None,
        partial_rolling_mean_windows: None,
        ewm_alpha_percents: None,
        rolling_std_windows: None,
        rolling_min_windows: None,
        rolling_max_windows: None,
        difference_lags: None,
        rolling_trend_windows: None,
        trend_features,
    }
}

#[test]
fn lag_forecaster_defaults() {
    let lists = resolve_lag_lists(LagModelFamily::LagForecaster, empty_request(true));
    assert_eq!(lists.lags, vec![1, 7, 14]);
    assert_eq!(lists.rolling_mean_windows, vec![7, 28]);
    assert_eq!(lists.rolling_std_windows, vec![7, 28]);
    assert_eq!(lists.rolling_min_windows, vec![7, 28]);
    assert_eq!(lists.rolling_max_windows, vec![7, 28]);
    assert_eq!(lists.difference_lags, vec![7, 14]);
    assert_eq!(lists.rolling_trend_windows, vec![7, 28]);
    assert!(lists.partial_rolling_mean_windows.is_empty());
    assert!(lists.ewm_alpha_percents.is_empty());
}

#[test]
fn auto_model_defaults() {
    let lists = resolve_lag_lists(LagModelFamily::AutoForecastModel, empty_request(true));
    assert_eq!(lists.lags, vec![1, 2, 3, 7, 14, 28]);
    assert_eq!(lists.rolling_mean_windows, vec![7, 14, 28]);
    assert_eq!(lists.difference_lags, vec![2, 3, 7, 14, 28]);
    assert_eq!(lists.rolling_trend_windows, vec![7, 14, 28]);
}

#[test]
fn trend_lists_without_trend_features() {
    let lists = resolve_lag_lists(LagModelFamily::LagForecaster, empty_request(false));
    assert!(lists.difference_lags.is_empty());
    assert!(lists.rolling_trend_windows.is_empty());
}

#[test]
fn given_lists_are_kept() {
    let mut request = empty_request(true);
    request.lags = Some(vec![1, 3, 1, 5]);
    request.rolling_windows = Some(vec![1, 4]);
    request.rolling_trend_windows = Some(vec![9]);
    request.partial_rolling_mean_windows = Some(vec![3]);
    request.ewm_alpha_percents = Some(vec![10, 50]);
    let lists = resolve_lag_lists(LagModelFamily::LagForecaster, request);
    assert_eq!(lists.lags, vec![1, 3, 1, 5]);
    assert_eq!(lists.difference_lags, vec![3, 5]);
    assert_eq!(lists.rolling_mean_windows, vec![1, 4]);
    assert_eq!(lists.rolling_trend_windows, vec![9]);
    assert_eq!(lists.rolling_std_windows, vec![7, 28]);
    assert_eq!(lists.partial_rolling_mean_windows, vec![3]);
    assert_eq!(lists.ewm_alpha_percents, vec![10, 50]);
}

#[test]
fn steps_above_one_filter() {
    assert_eq!(keep_steps_above_one(&vec![0, 1, 2, 1, 9]), vec![2, 9]);
    assert!(keep_steps_above_one(&vec![]).is_empty());
}

#[test]
fn recursive_is_required() {
    assert_eq!(require_recursive(true), Ok(()));
    assert_eq!(require_recursive(false), Err(LagConfigError::RecursiveOnly));
}

#[test]
fn sparse_sets_decode_rows() {
    let columns = encoded_sparse_sets(
        3,
        Some(vec![vec![0, 2, 2, 3], vec![0, 0, 1, 1]]),
        Some(vec![vec![10, 11, 12], vec![99]]),
    )
    .unwrap();
    assert_eq!(columns, vec![vec![vec![10, 11], vec![], vec![12]], vec![vec![], vec![99], vec![]]]);
    let flat: Vec<u64> = columns[0].iter().flatten().copied().collect();
    assert_eq!(flat, vec![10, 11, 12]);
}

#[test]
fn sparse_sets_absent_means_no_columns() {
    assert_eq!(encoded_sparse_sets(4, None, None).unwrap(), Vec::<Vec<Vec<u64>>>::new());
}

#[test]
fn sparse_set_errors() {
    assert_eq!(
        encoded_sparse_sets(1, Some(vec![vec![0, 1]]), None),
        Err(SparseSetError::ColumnCountMismatch)
    );
    assert_eq!(
        encoded_sparse_sets(2, Some(vec![vec![0, 0, 0], vec![0, 1]]), Some(vec![vec![], vec![5]])),
        Err(SparseSetError::OffsetCount { column: 1 })
    );
    assert_eq!(
        encoded_sparse_sets(1, Some(vec![vec![1, 1]]), Some(vec![vec![5]])),
        Err(SparseSetError::NonZeroStart { column: 0 })
    );
    assert_eq!(
        encoded_sparse_sets(1, Some(vec![vec![0, 2]]), Some(vec![vec![5]])),
        Err(SparseSetError::FinalOffsetMismatch { column: 0 })
    );
    assert_eq!(
        encoded_sparse_sets(3, Some(vec![vec![0, 2, 1, 2]]), Some(vec![vec![5, 6]])),
        Err(SparseSetError::Decreasing { column: 0 })
    );
    assert_eq!(
        encoded_sparse_sets(0, Some(vec![vec![]]), Some(vec![vec![]])),
        Err(SparseSetError::OffsetCount { column: 0 })
    );
    assert_eq!(
        encoded_sparse_sets(0, Some(vec![vec![0]]), Some(vec![vec![]])),
        Ok(vec![vec![]])
    );
}

#[test]
fn rows_are_cut_like_chunks_exact() {
    let values = [1, 2, 3, 4, 5, 6, 7];
    let rows = rows_from_flat(&values, 3);
    let expected: Vec<Vec<i32>> = values.chunks_exact(3).map(|row| row.to_vec()).collect();
    assert_eq!(rows, expected);
    assert_eq!(rows_from_flat(&values, 1).len(), 7);
}

#[test]
fn shaped_rows_and_blocks() {
    let values: Vec<u8> = (0..12).collect();
    assert_eq!(rows_from_shape(&[3], &values), Err(ShapeError::WrongDimensions));
    assert_eq!(rows_from_shape(&[4, 3], &values).unwrap()[3], vec![9, 10, 11]);
    let blocks = blocks_from_shape(&[2, 3, 2], &values).unwrap();
    assert_eq!(blocks.len(), 2);
    assert_eq!(blocks[1], vec![vec![6, 7], vec![8, 9], vec![10, 11]]);
    assert_eq!(blocks_from_shape(&[12, 1], &values), Err(ShapeError::WrongDimensions));
}

#[test]
fn coordinate_rows_need_their_width() {
    let values = [0.5f64, 1.5, 2.5, 3.5];
    assert_eq!(fixed_width_rows(&[2, 2], &values, 2).unwrap(), vec![vec![0.5, 1.5], vec![2.5, 3.5]]);
    assert_eq!(fixed_width_rows(&[1, 4], &values, 2), Err(ShapeError::WrongWidth));
    assert_eq!(fixed_width_rows(&[4], &values, 2), Err(ShapeError::WrongWidth));
    assert_eq!(fixed_width_rows(&[1, 4], &values, 4).unwrap(), vec![values.to_vec()]);
    assert!(all_rows_have_width(&vec![vec![1, 2, 3, 4], vec![5, 6, 7, 8]], 4));
    assert!(!all_rows_have_width(&vec![vec![1, 2, 3, 4], vec![5, 6, 7]], 4));
    assert!(all_rows_have_width::<u8>(&vec![], 4));
}

#[test]
fn simple_validations() {
    assert_eq!(validate_n_threads(None), Ok(()));
    assert_eq!(validate_n_threads(Some(4)), Ok(()));
    assert_eq!(validate_n_threads(Some(0)), Err(ConfigError::ZeroThreads));
    assert_eq!(validate_max_split_candidates(Some(0)), Err(ConfigError::ZeroSplitCandidates));
    assert_eq!(validate_max_split_candidates(Some(32)), Ok(()));
    assert_eq!(validate_fit_horizon(0), Err(ConfigError::ZeroFitHorizon));
    assert_eq!(validate_fit_horizon(1), Ok(()));
    assert_eq!(validate_future_timestamp_count(3, 3), Ok(()));
    assert_eq!(
        validate_future_timestamp_count(2, 5),
        Err(ConfigError::TimestampCountMismatch { count: 2, horizon: 5 })
    );
}

#[test]
fn class_setup_checks_in_order() {
    assert!(matches!(validate_class_setup(1, "bogus", 7), Err(ClassSetupError::TooFewClasses)));
    assert!(matches!(validate_class_setup(3, "bogus", 7), Err(ClassSetupError::UnknownObjective)));
    assert!(matches!(
        validate_class_setup(3, "auto", 2),
        Err(ClassSetupError::ClassWeightCount { given: 2, class_count: 3 })
    ));
    assert_eq!(validate_class_setup(3, "auto", 0).unwrap(), ClassificationObjective::MulticlassLogLoss);
    assert_eq!(validate_class_setup(2, "auto", 2).unwrap(), ClassificationObjective::BinaryLogLoss);
}

#[test]
fn graph_parts() {
    assert_eq!(graph_node_count(None, false, false, 0), Ok(None));
    assert_eq!(graph_node_count(Some(4), true, true, 2), Ok(Some(3)));
    assert_eq!(graph_node_count(Some(1), true, true, 1), Ok(Some(0)));
    assert_eq!(graph_node_count(Some(0), true, true, 1), Err(GraphPartsError::NoOffsets));
    assert_eq!(graph_node_count(Some(4), true, true, 0), Err(GraphPartsError::ZeroIterations));
    assert_eq!(graph_node_count(Some(4), false, true, 1), Err(GraphPartsError::PartialGraph));
    assert_eq!(graph_node_count(None, true, false, 1), Err(GraphPartsError::PartialGraph));
}

#[test]
fn paired_options() {
    assert_eq!(pair_together(Some(1.5f64), Some(2.5f64)), Ok(Some((1.5, 2.5))));
    assert_eq!(pair_together::<u8, u8>(None, None), Ok(None));
    assert!(pair_together(Some(1u8), None::<u8>).is_err());
    assert!(pair_together(None::<u8>, Some(1u8)).is_err());
}

#[test]
fn frame_rows() {
    assert_eq!(validate_frame_rows(3, Some(3), true), Ok(()));
    assert_eq!(validate_frame_rows(3, Some(2), false), Err(FrameRowsError::CovariateCountMismatch));
    assert_eq!(validate_frame_rows(3, None, true), Err(FrameRowsError::WeightsNeedCovariates));
    assert_eq!(validate_frame_rows(3, None, false), Ok(()));
}

#[test]
fn feature_rows() {
    assert_eq!(validate_feature_rows::<f64>(&vec![]), Err(FeatureRowsError::NoRows));
    assert_eq!(validate_feature_rows::<f64>(&vec![vec![]]), Err(FeatureRowsError::NoFeatures));
    assert_eq!(validate_feature_rows(&vec![vec![1.0]]), Ok(()));
}

#[test]
fn calendar_features_never_repeat() {
    for enabled in [false, true] {
        for rich in [false, true] {
            for elapsed_only in [false, true] {
                let features = calendar_feature_config(enabled, rich, elapsed_only, Some(&[7, 7, 2, 7, 1, 2]));
                for i in 0..features.len() {
                    for j in 0..i {
                        assert_ne!(features[i], features[j]);
                    }
                }
            }
        }
    }
}

#[test]
fn booster_counts() {
    assert_eq!(validate_estimator_count(0), Err(ConfigError::ZeroEstimators));
    assert_eq!(validate_estimator_count(1), Ok(()));
    assert_eq!(validate_min_samples_leaf(0), Err(ConfigError::ZeroMinSamplesLeaf));
    assert_eq!(validate_min_samples_leaf(5), Ok(()));
}

#[test]
fn timestamp_schedules() {
    assert_eq!(choose_timestamp_schedule(false, false), Ok(TimestampSchedule::Horizon));
    assert_eq!(choose_timestamp_schedule(true, false), Ok(TimestampSchedule::Shared));
    assert_eq!(choose_timestamp_schedule(false, true), Ok(TimestampSchedule::BySeries));
    assert_eq!(choose_timestamp_schedule(true, true), Err(ConflictingSchedules));
}
