use cartoboost_py::forecast_options::{
    forecast_window_name, parse_classical_validation_objective, parse_forecast_window,
    parse_intermittent_demand_method, parse_kriging_drift, parse_kriging_variogram_model,
    parse_optional_piecewise_component_mode, parse_piecewise_component_mode,
    parse_piecewise_regressor_modes,
    parse_piecewise_fit_loss, parse_piecewise_growth, parse_piecewise_regressor_standardization,
    parse_piecewise_trend_uncertainty_policy, parse_spatial_piecewise_kriging_mode,
    ClassicalValidationObjective, ForecastWindow, IntermittentDemandMethod, KrigingDrift,
    KrigingVariogramModel, PiecewiseComponentMode, PiecewiseFitLoss, PiecewiseGrowth,
    RegressorStandardization, SpatialPiecewiseKrigingMode, TrendUncertaintyPolicy,
};
use cartoboost_py::model_options::{
    artifact_fallback_name, classification_objective_name, fuzzy_kernel_name,
    leaf_predictor_name, loss_name, parse_classification_objective, parse_embedding_fallback,
    parse_fuzzy_kernel, parse_leaf_predictor, parse_loss_kind, parse_portfolio_side,
    parse_ranking_objective, portfolio_side_name, ranking_objective_name,
    ClassificationObjective, EmbeddingFallback, EmbeddingFallbackError, FuzzyKernel,
    LeafPredictorKind, LossKind, PortfolioSide, RankingObjective,
};
use cartoboost_py::neural_options::{
    parse_graph_transformer_profile, parse_neural_panel_component_mode,
    parse_neural_panel_global_local_mode, parse_neural_panel_loss, parse_neural_panel_regressor_modes,
    parse_neural_panel_trend_mode,
    GraphTransformerProfile, NeuralPanelComponentMode, NeuralPanelLoss, NeuralPanelMode,
    NeuralPanelTrendMode,
};

#[test]
fn variogram_names_ignore_case_space_and_hyphens() {
    assert_eq!(parse_kriging_variogram_model("exponential").unwrap(), KrigingVariogramModel::Exponential);
    assert_eq!(parse_kriging_variogram_model("  EXP ").unwrap(), KrigingVariogramModel::Exponential);
    assert_eq!(parse_kriging_variogram_model("Gauss").unwrap(), KrigingVariogramModel::Gaussian);
    assert_eq!(parse_kriging_variogram_model("sphere").unwrap(), KrigingVariogramModel::Spherical);
    assert_eq!(parse_kriging_variogram_model("\tLinear\n").unwrap(), KrigingVariogramModel::Linear);
}

#[test]
fn unknown_variogram_reports_the_normalised_name() {
    let err = parse_kriging_variogram_model("  Matern-32 ").unwrap_err();
    assert_eq!(err.name, "matern_32");
}

#[test]
fn kriging_drift_aliases() {
    for name in ["ordinary", "Constant", " none "] {
        assert_eq!(parse_kriging_drift(name).unwrap(), KrigingDrift::Ordinary);
    }
    for name in ["linear", "universal-linear", "UNIVERSAL"] {
        assert_eq!(parse_kriging_drift(name).unwrap(), KrigingDrift::Linear);
    }
    assert_eq!(parse_kriging_drift("Quadratic").unwrap_err().name, "quadratic");
}

#[test]
fn spatial_piecewise_modes() {
    assert_eq!(
        parse_spatial_piecewise_kriging_mode("Kriged-Regressors").unwrap(),
        SpatialPiecewiseKrigingMode::KrigedRegressors
    );
    assert_eq!(
        parse_spatial_piecewise_kriging_mode("residual").unwrap(),
        SpatialPiecewiseKrigingMode::ResidualKriging
    );
    assert_eq!(parse_spatial_piecewise_kriging_mode("HYBRID").unwrap(), SpatialPiecewiseKrigingMode::Hybrid);
    assert!(parse_spatial_piecewise_kriging_mode("other").is_err());
}

#[test]
fn classical_objective_uses_at_least_one_season() {
    assert_eq!(
        parse_classical_validation_objective("MSE", 7).unwrap(),
        ClassicalValidationObjective::MeanSquaredError
    );
    assert_eq!(
        parse_classical_validation_objective("owa-proxy", 12).unwrap(),
        ClassicalValidationObjective::SmapeMaseAverage { seasonality: 12 }
    );
    assert_eq!(
        parse_classical_validation_objective("smape_mase_average", 0).unwrap(),
        ClassicalValidationObjective::SmapeMaseAverage { seasonality: 1 }
    );
    assert_eq!(parse_classical_validation_objective("mape", 1).unwrap_err().name, "mape");
}

#[test]
fn piecewise_options_default_on_empty_text() {
    assert_eq!(parse_piecewise_growth("").unwrap(), PiecewiseGrowth::Linear);
    assert_eq!(parse_piecewise_growth("  ").unwrap(), PiecewiseGrowth::Linear);
    assert_eq!(parse_piecewise_growth("Flat").unwrap(), PiecewiseGrowth::Flat);
    assert_eq!(parse_piecewise_growth("logistic").unwrap(), PiecewiseGrowth::Logistic);
    assert_eq!(parse_piecewise_growth("cubic").unwrap_err().name, "cubic");
    assert_eq!(parse_piecewise_component_mode("").unwrap(), PiecewiseComponentMode::Additive);
    assert_eq!(
        parse_piecewise_component_mode("Multiplicative").unwrap(),
        PiecewiseComponentMode::Multiplicative
    );
    assert_eq!(parse_piecewise_fit_loss("least-squares").unwrap(), PiecewiseFitLoss::Squared);
    assert_eq!(parse_piecewise_fit_loss("L2").unwrap(), PiecewiseFitLoss::Squared);
    assert_eq!(parse_piecewise_fit_loss("robust").unwrap(), PiecewiseFitLoss::Huber);
    assert_eq!(
        parse_piecewise_regressor_standardization("").unwrap(),
        RegressorStandardization::Auto
    );
    assert_eq!(
        parse_piecewise_regressor_standardization("FALSE").unwrap(),
        RegressorStandardization::Off
    );
    assert_eq!(
        parse_piecewise_trend_uncertainty_policy("gaussian").unwrap(),
        TrendUncertaintyPolicy::Normal
    );
    assert_eq!(
        parse_piecewise_trend_uncertainty_policy(" ").unwrap(),
        TrendUncertaintyPolicy::Laplace
    );
    assert_eq!(parse_piecewise_trend_uncertainty_policy("t-dist").unwrap_err().name, "t_dist");
}

#[test]
fn optional_component_mode() {
    assert_eq!(parse_optional_piecewise_component_mode(None).unwrap(), None);
    assert_eq!(
        parse_optional_piecewise_component_mode(Some("additive")).unwrap(),
        Some(PiecewiseComponentMode::Additive)
    );
    assert_eq!(parse_optional_piecewise_component_mode(Some("xx")).unwrap_err().name, "xx");
}

#[test]
fn non_ascii_white_space_is_trimmed() {
    assert_eq!(
        parse_piecewise_growth("\u{3000}flat\u{a0}").unwrap(),
        PiecewiseGrowth::Flat
    );
}

#[test]
fn forecast_window_round_trip() {
    for window in [ForecastWindow::Expanding, ForecastWindow::Sliding] {
        assert_eq!(parse_forecast_window(forecast_window_name(window)).unwrap(), window);
    }
    assert_eq!(parse_forecast_window("Expanding").unwrap_err().name, "Expanding");
}

#[test]
fn intermittent_methods() {
    assert_eq!(parse_intermittent_demand_method("croston").unwrap(), IntermittentDemandMethod::Croston);
    assert_eq!(parse_intermittent_demand_method("sba").unwrap(), IntermittentDemandMethod::Sba);
    assert_eq!(parse_intermittent_demand_method("tsb").unwrap(), IntermittentDemandMethod::Tsb);
    assert_eq!(parse_intermittent_demand_method("adida").unwrap_err().name, "adida");
}

#[test]
fn leaf_predictor_round_trip() {
    for kind in [LeafPredictorKind::Constant, LeafPredictorKind::Linear] {
        assert_eq!(parse_leaf_predictor(leaf_predictor_name(kind)).unwrap(), kind);
    }
    assert_eq!(parse_leaf_predictor("tree").unwrap_err().name, "tree");
}

#[test]
fn fuzzy_kernel_round_trip_and_alias() {
    let kernels = [
        FuzzyKernel::Linear,
        FuzzyKernel::Gaussian,
        FuzzyKernel::Exponential,
        FuzzyKernel::Bisquare,
        FuzzyKernel::Epanechnikov,
        FuzzyKernel::Tricube,
    ];
    for kernel in kernels {
        assert_eq!(parse_fuzzy_kernel(fuzzy_kernel_name(kernel)).unwrap(), kernel);
    }
    assert_eq!(parse_fuzzy_kernel("triangular").unwrap(), FuzzyKernel::Linear);
    assert_eq!(fuzzy_kernel_name(parse_fuzzy_kernel("triangular").unwrap()), "linear");
    assert!(parse_fuzzy_kernel("Gaussian").is_err());
}

#[test]
fn classification_objective_auto_depends_on_class_count() {
    assert_eq!(
        parse_classification_objective("auto", 2).unwrap(),
        ClassificationObjective::BinaryLogLoss
    );
    assert_eq!(
        parse_classification_objective("auto", 3).unwrap(),
        ClassificationObjective::MulticlassLogLoss
    );
    assert_eq!(
        parse_classification_objective("logloss", 5).unwrap(),
        ClassificationObjective::BinaryLogLoss
    );
    assert_eq!(
        parse_classification_objective("multi_logloss", 2).unwrap(),
        ClassificationObjective::MulticlassLogLoss
    );
    assert_eq!(parse_classification_objective("softmax", 3).unwrap_err().name, "softmax");
    for objective in [ClassificationObjective::BinaryLogLoss, ClassificationObjective::MulticlassLogLoss] {
        for count in [2, 3, 10] {
            assert_eq!(
                parse_classification_objective(classification_objective_name(objective), count).unwrap(),
                objective
            );
        }
    }
}

#[test]
fn ranking_objective_round_trip() {
    assert_eq!(parse_ranking_objective("pairwise").unwrap(), RankingObjective::PairwiseLogit);
    assert_eq!(parse_ranking_objective("lambda_rank").unwrap(), RankingObjective::LambdaRank);
    for objective in [RankingObjective::PairwiseLogit, RankingObjective::LambdaRank] {
        assert_eq!(parse_ranking_objective(ranking_objective_name(objective)).unwrap(), objective);
    }
    assert_eq!(ranking_objective_name(RankingObjective::LambdaRank), "lambdarank");
    assert!(parse_ranking_objective("listwise").is_err());
}

#[test]
fn loss_names_and_aliases() {
    let cases = [
        ("squared_error", LossKind::L2),
        ("lad", LossKind::L1),
        ("least_absolute_deviation", LossKind::L1),
        ("mae", LossKind::L1),
        ("huber", LossKind::Huber),
        ("log", LossKind::LogL2),
        ("log_squared_error", LossKind::LogL2),
        ("pinball", LossKind::Quantile),
    ];
    for (name, kind) in cases {
        assert_eq!(parse_loss_kind(name).unwrap(), kind);
    }
    for kind in [LossKind::L2, LossKind::L1, LossKind::Huber, LossKind::LogL2, LossKind::Quantile] {
        assert_eq!(parse_loss_kind(loss_name(kind)).unwrap(), kind);
    }
    assert_eq!(loss_name(LossKind::LogL2), "log_l2");
    assert_eq!(parse_loss_kind("poisson").unwrap_err().name, "poisson");
}

#[test]
fn embedding_fallback_needs_parent_resolution() {
    assert_eq!(parse_embedding_fallback("zero_vector", None), Ok(EmbeddingFallback::ZeroVector));
    assert_eq!(
        parse_embedding_fallback("global_mean_vector", Some(3)),
        Ok(EmbeddingFallback::GlobalMeanVector)
    );
    assert_eq!(
        parse_embedding_fallback("parent_cell", Some(5)),
        Ok(EmbeddingFallback::ParentCell { parent_resolution: 5 })
    );
    assert_eq!(
        parse_embedding_fallback("parent_cell", None),
        Err(EmbeddingFallbackError::ParentResolutionRequired)
    );
    assert_eq!(
        parse_embedding_fallback("nearest", Some(1)),
        Err(EmbeddingFallbackError::UnknownName)
    );
    assert_eq!(
        artifact_fallback_name(EmbeddingFallback::ParentCell { parent_resolution: 7 }),
        "parent_cell"
    );
    let fallback = EmbeddingFallback::ParentCell { parent_resolution: 9 };
    assert_eq!(parse_embedding_fallback(artifact_fallback_name(fallback), Some(9)), Ok(fallback));
}

#[test]
fn portfolio_sides() {
    assert_eq!(parse_portfolio_side("long").unwrap(), PortfolioSide::Long);
    assert_eq!(parse_portfolio_side("short").unwrap(), PortfolioSide::Short);
    assert_eq!(portfolio_side_name(PortfolioSide::Short), "short");
    assert_eq!(parse_portfolio_side("Long").unwrap_err().name, "Long");
}

#[test]
fn neural_panel_parsers() {
    assert_eq!(parse_neural_panel_loss("huber").unwrap(), NeuralPanelLoss::SmoothL1);
    assert_eq!(parse_neural_panel_loss("l2").unwrap(), NeuralPanelLoss::Mse);
    assert_eq!(parse_neural_panel_loss("l1").unwrap(), NeuralPanelLoss::Mae);
    assert_eq!(parse_neural_panel_loss("quantile").unwrap(), NeuralPanelLoss::Pinball);
    assert!(parse_neural_panel_loss("HUBER").is_err());
    assert_eq!(parse_neural_panel_trend_mode("none").unwrap(), NeuralPanelTrendMode::Off);
    assert_eq!(parse_neural_panel_trend_mode("linear").unwrap(), NeuralPanelTrendMode::PiecewiseLinear);
    assert_eq!(
        parse_neural_panel_component_mode("multiplicative").unwrap(),
        NeuralPanelComponentMode::Multiplicative
    );
    assert!(parse_neural_panel_component_mode("").is_err());
    assert_eq!(parse_neural_panel_global_local_mode("glocal").unwrap(), NeuralPanelMode::Glocal);
    assert_eq!(parse_neural_panel_global_local_mode("locals").unwrap_err().name, "locals");
    assert_eq!(
        parse_graph_transformer_profile("spatial_shift_graphon_moe").unwrap(),
        GraphTransformerProfile::SpatialShiftGraphonMoE
    );
    assert_eq!(
        parse_graph_transformer_profile("long_short_fusion").unwrap(),
        GraphTransformerProfile::LongShortFusion
    );
    assert!(parse_graph_transformer_profile("moe").is_err());
}

#[test]
fn portfolio_side_round_trip() {
    for side in [PortfolioSide::Long, PortfolioSide::Short] {
        assert_eq!(parse_portfolio_side(portfolio_side_name(side)).unwrap(), side);
    }
}

#[test]
fn piecewise_regressor_modes_in_order() {
    let entries = vec![
        ("price".to_string(), "Multiplicative".to_string()),
        ("promo".to_string(), "".to_string()),
    ];
    let modes = parse_piecewise_regressor_modes(&entries).unwrap();
    assert_eq!(
        modes,
        vec![
            ("price".to_string(), PiecewiseComponentMode::Multiplicative),
            ("promo".to_string(), PiecewiseComponentMode::Additive)
        ]
    );
    let bad = vec![
        ("a".to_string(), "additive".to_string()),
        ("b".to_string(), " Log ".to_string()),
        ("c".to_string(), "worse".to_string()),
    ];
    assert_eq!(parse_piecewise_regressor_modes(&bad).unwrap_err().name, "log");
    assert!(parse_piecewise_regressor_modes(&vec![]).unwrap().is_empty());
}

#[test]
fn neural_regressor_modes_in_order() {
    let entries = vec![("temp".to_string(), "additive".to_string())];
    assert_eq!(
        parse_neural_panel_regressor_modes(&entries).unwrap(),
        vec![("temp".to_string(), NeuralPanelComponentMode::Additive)]
    );
    let bad = vec![("temp".to_string(), "Additive".to_string())];
    assert_eq!(parse_neural_panel_regressor_modes(&bad).unwrap_err().name, "Additive");
}
