use vstd::prelude::*;

use crate::text::{
    chars_equal, option_key, option_key_chars, parsed, string_from_chars, str_chars, UnknownName,
};

verus! {

// ---------------------------------------------------------------------------
// Kriging
// ---------------------------------------------------------------------------

/// The variogram a kriging model fits.
#[derive(Clone, Copy, Debug, PartialEq, Eq, Structural)]
pub enum KrigingVariogramModel {
    Exponential,
    Gaussian,
    Spherical,
    Linear,
}

/// The variogram that the option key `key` selects.
pub open spec fn kriging_variogram_model_of(key: Seq<char>) -> Option<KrigingVariogramModel> {
    if key == "exponential"@ || key == "exp"@ {
        Some(KrigingVariogramModel::Exponential)
    } else if key == "gaussian"@ || key == "gauss"@ {
        Some(KrigingVariogramModel::Gaussian)
    } else if key == "spherical"@ || key == "sphere"@ {
        Some(KrigingVariogramModel::Spherical)
    } else if key == "linear"@ {
        Some(KrigingVariogramModel::Linear)
    } else {
        None
    }
}

/// Reads a variogram name, ignoring case, surrounding white space and the
/// difference between `-` and `_`.
pub fn parse_kriging_variogram_model(value: &str) -> (r: Result<KrigingVariogramModel, UnknownName>)
    ensures
        parsed(r, kriging_variogram_model_of(option_key(value@)), option_key(value@)),
{
    let key = option_key_chars(value);
    if chars_equal(&key, "exponential") || chars_equal(&key, "exp") {
        Ok(KrigingVariogramModel::Exponential)
    } else if chars_equal(&key, "gaussian") || chars_equal(&key, "gauss") {
        Ok(KrigingVariogramModel::Gaussian)
    } else if chars_equal(&key, "spherical") || chars_equal(&key, "sphere") {
        Ok(KrigingVariogramModel::Spherical)
    } else if chars_equal(&key, "linear") {
        Ok(KrigingVariogramModel::Linear)
    } else {
        Err(UnknownName { name: string_from_chars(&key) })
    }
}

/// The trend a kriging model removes before it interpolates.
#[derive(Clone, Copy, Debug, PartialEq, Eq, Structural)]
pub enum KrigingDrift {
    Ordinary,
    Linear,
}

/// The drift that the option key `key` selects.
pub open spec fn kriging_drift_of(key: Seq<char>) -> Option<KrigingDrift> {
    if key == "ordinary"@ || key == "constant"@ || key == "none"@ {
        Some(KrigingDrift::Ordinary)
    } else if key == "linear"@ || key == "universal_linear"@ || key == "universal"@ {
        Some(KrigingDrift::Linear)
    } else {
        None
    }
}

/// Reads a kriging drift name, ignoring case, surrounding white space and the
/// difference between `-` and `_`.
pub fn parse_kriging_drift(value: &str) -> (r: Result<KrigingDrift, UnknownName>)
    ensures
        parsed(r, kriging_drift_of(option_key(value@)), option_key(value@)),
{
    let key = option_key_chars(value);
    if chars_equal(&key, "ordinary") || chars_equal(&key, "constant") || chars_equal(&key, "none") {
        Ok(KrigingDrift::Ordinary)
    } else if chars_equal(&key, "linear") || chars_equal(&key, "universal_linear") || chars_equal(
        &key,
        "universal",
    ) {
        Ok(KrigingDrift::Linear)
    } else {
        Err(UnknownName { name: string_from_chars(&key) })
    }
}

/// How a spatial piecewise forecaster uses kriging.
#[derive(Clone, Copy, Debug, PartialEq, Eq, Structural)]
pub enum SpatialPiecewiseKrigingMode {
    KrigedRegressors,
    ResidualKriging,
    Hybrid,
}

/// The mode that the option key `key` selects.
pub open spec fn spatial_piecewise_kriging_mode_of(key: Seq<char>) -> Option<
    SpatialPiecewiseKrigingMode,
> {
    if key == "kriged_regressors"@ || key == "regressors"@ {
        Some(SpatialPiecewiseKrigingMode::KrigedRegressors)
    } else if key == "residual_kriging"@ || key == "residual"@ {
        Some(SpatialPiecewiseKrigingMode::ResidualKriging)
    } else if key == "hybrid"@ {
        Some(SpatialPiecewiseKrigingMode::Hybrid)
    } else {
        None
    }
}

/// Reads a spatial piecewise kriging mode, ignoring case, surrounding white
/// space and the difference between `-` and `_`.
pub fn parse_spatial_piecewise_kriging_mode(value: &str) -> (r: Result<
    SpatialPiecewiseKrigingMode,
    UnknownName,
>)
    ensures
        parsed(r, spatial_piecewise_kriging_mode_of(option_key(value@)), option_key(value@)),
{
    let key = option_key_chars(value);
    if chars_equal(&key, "kriged_regressors") || chars_equal(&key, "regressors") {
        Ok(SpatialPiecewiseKrigingMode::KrigedRegressors)
    } else if chars_equal(&key, "residual_kriging") || chars_equal(&key, "residual") {
        Ok(SpatialPiecewiseKrigingMode::ResidualKriging)
    } else if chars_equal(&key, "hybrid") {
        Ok(SpatialPiecewiseKrigingMode::Hybrid)
    } else {
        Err(UnknownName { name: string_from_chars(&key) })
    }
}

// ---------------------------------------------------------------------------
// Classical expert validation
// ---------------------------------------------------------------------------

/// The score that classical experts are validated on.
#[derive(Clone, Copy, Debug, PartialEq, Eq, Structural)]
pub enum ClassicalValidationObjective {
    MeanSquaredError,
    SmapeMaseAverage { seasonality: usize },
}

/// The objective that the option key `key` selects; the sMAPE/MASE average
/// uses the season length as its seasonality, and at least 1.
pub open spec fn classical_validation_objective_of(key: Seq<char>, season_length: usize) -> Option<
    ClassicalValidationObjective,
> {
    if key == "mse"@ || key == "mean_squared_error"@ {
        Some(ClassicalValidationObjective::MeanSquaredError)
    } else if key == "smape_mase_average"@ || key == "owa_proxy"@ {
        Some(
            ClassicalValidationObjective::SmapeMaseAverage {
                seasonality: if season_length >= 1 {
                    season_length
                } else {
                    1
                },
            },
        )
    } else {
        None
    }
}

/// Reads a classical validation objective, ignoring case, surrounding white
/// space and the difference between `-` and `_`.
pub fn parse_classical_validation_objective(value: &str, season_length: usize) -> (r: Result<
    ClassicalValidationObjective,
    UnknownName,
>)
    ensures
        parsed(
            r,
            classical_validation_objective_of(option_key(value@), season_length),
            option_key(value@),
        ),
{
    let key = option_key_chars(value);
    if chars_equal(&key, "mse") || chars_equal(&key, "mean_squared_error") {
        Ok(ClassicalValidationObjective::MeanSquaredError)
    } else if chars_equal(&key, "smape_mase_average") || chars_equal(&key, "owa_proxy") {
        let seasonality = if season_length >= 1 {
            season_length
        } else {
            1
        };
        Ok(ClassicalValidationObjective::SmapeMaseAverage { seasonality })
    } else {
        Err(UnknownName { name: string_from_chars(&key) })
    }
}

// ---------------------------------------------------------------------------
// Piecewise linear seasonal forecaster
// ---------------------------------------------------------------------------

/// The trend shape of a piecewise linear forecaster.
#[derive(Clone, Copy, Debug, PartialEq, Eq, Structural)]
pub enum PiecewiseGrowth {
    Linear,
    Flat,
    Logistic,
}

/// The growth that the option key `key` selects; an empty key is linear.
pub open spec fn piecewise_growth_of(key: Seq<char>) -> Option<PiecewiseGrowth> {
    if key == ""@ || key == "linear"@ {
        Some(PiecewiseGrowth::Linear)
    } else if key == "flat"@ {
        Some(PiecewiseGrowth::Flat)
    } else if key == "logistic"@ {
        Some(PiecewiseGrowth::Logistic)
    } else {
        None
    }
}

/// Reads a growth name, ignoring case, surrounding white space and the
/// difference between `-` and `_`.
pub fn parse_piecewise_growth(value: &str) -> (r: Result<PiecewiseGrowth, UnknownName>)
    ensures
        parsed(r, piecewise_growth_of(option_key(value@)), option_key(value@)),
{
    let key = option_key_chars(value);
    if chars_equal(&key, "") || chars_equal(&key, "linear") {
        Ok(PiecewiseGrowth::Linear)
    } else if chars_equal(&key, "flat") {
        Ok(PiecewiseGrowth::Flat)
    } else if chars_equal(&key, "logistic") {
        Ok(PiecewiseGrowth::Logistic)
    } else {
        Err(UnknownName { name: string_from_chars(&key) })
    }
}

/// How a component combines with the trend.
#[derive(Clone, Copy, Debug, PartialEq, Eq, Structural)]
pub enum PiecewiseComponentMode {
    Additive,
    Multiplicative,
}

/// The component mode that the option key `key` selects; an empty key is
/// additive.
pub open spec fn piecewise_component_mode_of(key: Seq<char>) -> Option<PiecewiseComponentMode> {
    if key == ""@ || key == "additive"@ {
        Some(PiecewiseComponentMode::Additive)
    } else if key == "multiplicative"@ {
        Some(PiecewiseComponentMode::Multiplicative)
    } else {
        None
    }
}

/// Reads a component mode, ignoring case, surrounding white space and the
/// difference between `-` and `_`.
pub fn parse_piecewise_component_mode(value: &str) -> (r: Result<
    PiecewiseComponentMode,
    UnknownName,
>)
    ensures
        parsed(r, piecewise_component_mode_of(option_key(value@)), option_key(value@)),
{
    let key = option_key_chars(value);
    if chars_equal(&key, "") || chars_equal(&key, "additive") {
        Ok(PiecewiseComponentMode::Additive)
    } else if chars_equal(&key, "multiplicative") {
        Ok(PiecewiseComponentMode::Multiplicative)
    } else {
        Err(UnknownName { name: string_from_chars(&key) })
    }
}

/// Reads a component mode when one is given.
pub fn parse_optional_piecewise_component_mode(value: Option<&str>) -> (r: Result<
    Option<PiecewiseComponentMode>,
    UnknownName,
>)
    ensures
        match value {
            None => r matches Ok(None),
            Some(text) => match r {
                Ok(Some(mode)) => piecewise_component_mode_of(option_key(text@)) == Some(mode),
                Ok(None) => false,
                Err(e) => piecewise_component_mode_of(option_key(text@)) is None && e.name@
                    == option_key(text@),
            },
        },
{
    match value {
        None => Ok(None),
        Some(text) => match parse_piecewise_component_mode(text) {
            Ok(mode) => Ok(Some(mode)),
            Err(e) => Err(e),
        },
    }
}

/// Reads the component mode of each named regressor. The entries are those
/// of a map from regressor names, so no name occurs twice; they are read in
/// the order given, and the first mode that is not a component mode is the
/// error.
pub fn parse_piecewise_regressor_modes(entries: &Vec<(String, String)>) -> (r: Result<
    Vec<(String, PiecewiseComponentMode)>,
    UnknownName,
>)
    requires
        forall|i: int, j: int|
            0 <= i < j < entries@.len() ==> (#[trigger] entries@[i]).0@ != (#[trigger] entries@[j]).0@,
    ensures
        match r {
            Ok(modes) => {
                &&& modes@.len() == entries@.len()
                &&& forall|i: int|
                    0 <= i < entries@.len() ==> (#[trigger] modes@[i]).0@ == entries@[i].0@
                        && piecewise_component_mode_of(option_key(entries@[i].1@)) == Some(
                        modes@[i].1,
                    )
            },
            Err(e) => exists|i: int|
                {
                    &&& 0 <= i < entries@.len()
                    &&& forall|j: int|
                        0 <= j < i ==> #[trigger] piecewise_component_mode_of(
                            option_key(entries@[j].1@),
                        ) is Some
                    &&& piecewise_component_mode_of(option_key(#[trigger] entries@[i].1@)) is None
                    &&& e.name@ == option_key(entries@[i].1@)
                },
        },
{
    let mut modes: Vec<(String, PiecewiseComponentMode)> = Vec::new();
    let mut i: usize = 0;
    while i < entries.len()
        invariant
            i <= entries@.len(),
            modes@.len() == i,
            forall|j: int|
                0 <= j < i ==> (#[trigger] modes@[j]).0@ == entries@[j].0@
                    && piecewise_component_mode_of(option_key(entries@[j].1@)) == Some(modes@[j].1),
            forall|j: int|
                0 <= j < i ==> #[trigger] piecewise_component_mode_of(option_key(entries@[j].1@))
                    is Some,
        decreases entries@.len() - i,
    {
        let entry = &entries[i];
        match parse_piecewise_component_mode(entry.1.as_str()) {
            Ok(mode) => {
                modes.push((entry.0.clone(), mode));
            },
            Err(e) => {
                return Err(e);
            },
        }
        i = i + 1;
    }
    Ok(modes)
}

/// The loss a piecewise linear forecaster fits with.
#[derive(Clone, Copy, Debug, PartialEq, Eq, Structural)]
pub enum PiecewiseFitLoss {
    Squared,
    Huber,
}

/// The fit loss that the option key `key` selects; an empty key is squared.
pub open spec fn piecewise_fit_loss_of(key: Seq<char>) -> Option<PiecewiseFitLoss> {
    if key == ""@ || key == "squared"@ || key == "l2"@ || key == "least_squares"@ {
        Some(PiecewiseFitLoss::Squared)
    } else if key == "huber"@ || key == "robust"@ {
        Some(PiecewiseFitLoss::Huber)
    } else {
        None
    }
}

/// Reads a fit loss, ignoring case, surrounding white space and the
/// difference between `-` and `_`.
pub fn parse_piecewise_fit_loss(value: &str) -> (r: Result<PiecewiseFitLoss, UnknownName>)
    ensures
        parsed(r, piecewise_fit_loss_of(option_key(value@)), option_key(value@)),
{
    let key = option_key_chars(value);
    if chars_equal(&key, "") || chars_equal(&key, "squared") || chars_equal(&key, "l2")
        || chars_equal(&key, "least_squares") {
        Ok(PiecewiseFitLoss::Squared)
    } else if chars_equal(&key, "huber") || chars_equal(&key, "robust") {
        Ok(PiecewiseFitLoss::Huber)
    } else {
        Err(UnknownName { name: string_from_chars(&key) })
    }
}

/// Whether regressors are standardised before the fit.
#[derive(Clone, Copy, Debug, PartialEq, Eq, Structural)]
pub enum RegressorStandardization {
    Auto,
    Off,
}

/// The standardisation that the option key `key` selects; an empty key is
/// automatic.
pub open spec fn regressor_standardization_of(key: Seq<char>) -> Option<RegressorStandardization> {
    if key == ""@ || key == "auto"@ {
        Some(RegressorStandardization::Auto)
    } else if key == "none"@ || key == "off"@ || key == "false"@ {
        Some(RegressorStandardization::Off)
    } else {
        None
    }
}

/// Reads a regressor standardisation, ignoring case, surrounding white space
/// and the difference between `-` and `_`.
pub fn parse_piecewise_regressor_standardization(value: &str) -> (r: Result<
    RegressorStandardization,
    UnknownName,
>)
    ensures
        parsed(r, regressor_standardization_of(option_key(value@)), option_key(value@)),
{
    let key = option_key_chars(value);
    if chars_equal(&key, "") || chars_equal(&key, "auto") {
        Ok(RegressorStandardization::Auto)
    } else if chars_equal(&key, "none") || chars_equal(&key, "off") || chars_equal(&key, "false") {
        Ok(RegressorStandardization::Off)
    } else {
        Err(UnknownName { name: string_from_chars(&key) })
    }
}

/// The distribution that trend uncertainty is sampled from.
#[derive(Clone, Copy, Debug, PartialEq, Eq, Structural)]
pub enum TrendUncertaintyPolicy {
    Laplace,
    Normal,
}

/// The policy that the option key `key` selects; an empty key is Laplace.
pub open spec fn trend_uncertainty_policy_of(key: Seq<char>) -> Option<TrendUncertaintyPolicy> {
    if key == ""@ || key == "laplace"@ {
        Some(TrendUncertaintyPolicy::Laplace)
    } else if key == "normal"@ || key == "gaussian"@ {
        Some(TrendUncertaintyPolicy::Normal)
    } else {
        None
    }
}

/// Reads a trend uncertainty policy, ignoring case, surrounding white space
/// and the difference between `-` and `_`.
pub fn parse_piecewise_trend_uncertainty_policy(value: &str) -> (r: Result<
    TrendUncertaintyPolicy,
    UnknownName,
>)
    ensures
        parsed(r, trend_uncertainty_policy_of(option_key(value@)), option_key(value@)),
{
    let key = option_key_chars(value);
    if chars_equal(&key, "") || chars_equal(&key, "laplace") {
        Ok(TrendUncertaintyPolicy::Laplace)
    } else if chars_equal(&key, "normal") || chars_equal(&key, "gaussian") {
        Ok(TrendUncertaintyPolicy::Normal)
    } else {
        Err(UnknownName { name: string_from_chars(&key) })
    }
}

// ---------------------------------------------------------------------------
// Backtesting window
// ---------------------------------------------------------------------------

/// How the training window moves between backtest folds.
#[derive(Clone, Copy, Debug, PartialEq, Eq, Structural)]
pub enum ForecastWindow {
    Expanding,
    Sliding,
}

/// The window that `value` selects.
pub open spec fn forecast_window_of(value: Seq<char>) -> Option<ForecastWindow> {
    if value == "expanding"@ {
        Some(ForecastWindow::Expanding)
    } else if value == "sliding"@ {
        Some(ForecastWindow::Sliding)
    } else {
        None
    }
}

/// The name of a window.
pub open spec fn forecast_window_text(window: ForecastWindow) -> Seq<char> {
    match window {
        ForecastWindow::Expanding => "expanding"@,
        ForecastWindow::Sliding => "sliding"@,
    }
}

/// Reads a window: exactly `expanding` or `sliding`.
pub fn parse_forecast_window(value: &str) -> (r: Result<ForecastWindow, UnknownName>)
    ensures
        parsed(r, forecast_window_of(value@), value@),
{
    let v = str_chars(value);
    if chars_equal(&v, "expanding") {
        Ok(ForecastWindow::Expanding)
    } else if chars_equal(&v, "sliding") {
        Ok(ForecastWindow::Sliding)
    } else {
        Err(UnknownName { name: value.to_owned() })
    }
}

/// The name of a window.
pub fn forecast_window_name(window: ForecastWindow) -> (r: &'static str)
    ensures
        r@ == forecast_window_text(window),
{
    match window {
        ForecastWindow::Expanding => "expanding",
        ForecastWindow::Sliding => "sliding",
    }
}

/// Reading the name of a window gives that window back.
pub proof fn lemma_forecast_window_round_trip(window: ForecastWindow)
    ensures
        forecast_window_of(forecast_window_text(window)) == Some(window),
{
    reveal_strlit("expanding");
    reveal_strlit("sliding");
    assert("expanding"@.len() == 9);
    assert("sliding"@.len() == 7);
}

// ---------------------------------------------------------------------------
// Intermittent demand
// ---------------------------------------------------------------------------

/// The estimator for intermittent demand.
#[derive(Clone, Copy, Debug, PartialEq, Eq, Structural)]
pub enum IntermittentDemandMethod {
    Croston,
    Sba,
    Tsb,
}

/// The method that `value` selects.
pub open spec fn intermittent_demand_method_of(value: Seq<char>) -> Option<
    IntermittentDemandMethod,
> {
    if value == "croston"@ {
        Some(IntermittentDemandMethod::Croston)
    } else if value == "sba"@ {
        Some(IntermittentDemandMethod::Sba)
    } else if value == "tsb"@ {
        Some(IntermittentDemandMethod::Tsb)
    } else {
        None
    }
}

/// Reads an intermittent demand method: `croston`, `sba` or `tsb`.
pub fn parse_intermittent_demand_method(value: &str) -> (r: Result<
    IntermittentDemandMethod,
    UnknownName,
>)
    ensures
        parsed(r, intermittent_demand_method_of(value@), value@),
{
    let v = str_chars(value);
    if chars_equal(&v, "croston") {
        Ok(IntermittentDemandMethod::Croston)
    } else if chars_equal(&v, "sba") {
        Ok(IntermittentDemandMethod::Sba)
    } else if chars_equal(&v, "tsb") {
        Ok(IntermittentDemandMethod::Tsb)
    } else {
        Err(UnknownName { name: value.to_owned() })
    }
}

/// Each variogram key (the option key of a name) selects its own variogram, and no other key selects one.
pub proof fn lemma_kriging_variogram_model_names()
    ensures
        kriging_variogram_model_of("exponential"@) == Some(KrigingVariogramModel::Exponential),
        kriging_variogram_model_of("exp"@) == Some(KrigingVariogramModel::Exponential),
        kriging_variogram_model_of("gaussian"@) == Some(KrigingVariogramModel::Gaussian),
        kriging_variogram_model_of("gauss"@) == Some(KrigingVariogramModel::Gaussian),
        kriging_variogram_model_of("spherical"@) == Some(KrigingVariogramModel::Spherical),
        kriging_variogram_model_of("sphere"@) == Some(KrigingVariogramModel::Spherical),
        kriging_variogram_model_of("linear"@) == Some(KrigingVariogramModel::Linear),
        forall|name: Seq<char>| #[trigger] kriging_variogram_model_of(name) is Some ==> (name == "exponential"@ || name == "exp"@ || name == "gaussian"@ || name == "gauss"@ || name == "spherical"@ || name == "sphere"@ || name == "linear"@),
{
    reveal_strlit("exponential");
    reveal_strlit("exp");
    reveal_strlit("gaussian");
    reveal_strlit("gauss");
    reveal_strlit("spherical");
    reveal_strlit("sphere");
    reveal_strlit("linear");
    assert("exponential"@.len() == 11);
    assert("exp"@.len() == 3);
    assert("gaussian"@.len() == 8);
    assert("gauss"@.len() == 5);
    assert("spherical"@.len() == 9);
    assert("sphere"@.len() == 6);
    assert("linear"@.len() == 6);
    assert("linear"@[0] == 'l');
    assert("sphere"@[0] == 's');
}

/// `ordinary`, `constant` and `none` select ordinary kriging; `linear`, `universal_linear` and `universal` the linear drift; no other key selects a drift.
pub proof fn lemma_kriging_drift_names()
    ensures
        kriging_drift_of("ordinary"@) == Some(KrigingDrift::Ordinary),
        kriging_drift_of("constant"@) == Some(KrigingDrift::Ordinary),
        kriging_drift_of("none"@) == Some(KrigingDrift::Ordinary),
        kriging_drift_of("linear"@) == Some(KrigingDrift::Linear),
        kriging_drift_of("universal_linear"@) == Some(KrigingDrift::Linear),
        kriging_drift_of("universal"@) == Some(KrigingDrift::Linear),
        forall|name: Seq<char>| #[trigger] kriging_drift_of(name) is Some ==> (name == "ordinary"@ || name == "constant"@ || name == "none"@ || name == "linear"@ || name == "universal_linear"@ || name == "universal"@),
{
    reveal_strlit("ordinary");
    reveal_strlit("constant");
    reveal_strlit("none");
    reveal_strlit("linear");
    reveal_strlit("universal_linear");
    reveal_strlit("universal");
    assert("ordinary"@.len() == 8);
    assert("constant"@.len() == 8);
    assert("none"@.len() == 4);
    assert("linear"@.len() == 6);
    assert("universal_linear"@.len() == 16);
    assert("universal"@.len() == 9);
    assert("constant"@[0] == 'c');
    assert("ordinary"@[0] == 'o');
}

/// Each spatial piecewise kriging key selects its own mode, and no other key selects one.
pub proof fn lemma_spatial_piecewise_kriging_mode_names()
    ensures
        spatial_piecewise_kriging_mode_of("kriged_regressors"@) == Some(SpatialPiecewiseKrigingMode::KrigedRegressors),
        spatial_piecewise_kriging_mode_of("regressors"@) == Some(SpatialPiecewiseKrigingMode::KrigedRegressors),
        spatial_piecewise_kriging_mode_of("residual_kriging"@) == Some(SpatialPiecewiseKrigingMode::ResidualKriging),
        spatial_piecewise_kriging_mode_of("residual"@) == Some(SpatialPiecewiseKrigingMode::ResidualKriging),
        spatial_piecewise_kriging_mode_of("hybrid"@) == Some(SpatialPiecewiseKrigingMode::Hybrid),
        forall|name: Seq<char>| #[trigger] spatial_piecewise_kriging_mode_of(name) is Some ==> (name == "kriged_regressors"@ || name == "regressors"@ || name == "residual_kriging"@ || name == "residual"@ || name == "hybrid"@),
{
    reveal_strlit("kriged_regressors");
    reveal_strlit("regressors");
    reveal_strlit("residual_kriging");
    reveal_strlit("residual");
    reveal_strlit("hybrid");
    assert("kriged_regressors"@.len() == 17);
    assert("regressors"@.len() == 10);
    assert("residual_kriging"@.len() == 16);
    assert("residual"@.len() == 8);
    assert("hybrid"@.len() == 6);
}

/// An empty key and `linear` select linear growth, `flat` and `logistic` their own; no other key selects a growth.
pub proof fn lemma_piecewise_growth_names()
    ensures
        piecewise_growth_of(""@) == Some(PiecewiseGrowth::Linear),
        piecewise_growth_of("linear"@) == Some(PiecewiseGrowth::Linear),
        piecewise_growth_of("flat"@) == Some(PiecewiseGrowth::Flat),
        piecewise_growth_of("logistic"@) == Some(PiecewiseGrowth::Logistic),
        forall|name: Seq<char>| #[trigger] piecewise_growth_of(name) is Some ==> (name == ""@ || name == "linear"@ || name == "flat"@ || name == "logistic"@),
{
    reveal_strlit("");
    reveal_strlit("linear");
    reveal_strlit("flat");
    reveal_strlit("logistic");
    assert(""@.len() == 0);
    assert("linear"@.len() == 6);
    assert("flat"@.len() == 4);
    assert("logistic"@.len() == 8);
}

/// An empty key and `additive` select the additive mode, `multiplicative` the multiplicative one; no other key selects a mode.
pub proof fn lemma_piecewise_component_mode_names()
    ensures
        piecewise_component_mode_of(""@) == Some(PiecewiseComponentMode::Additive),
        piecewise_component_mode_of("additive"@) == Some(PiecewiseComponentMode::Additive),
        piecewise_component_mode_of("multiplicative"@) == Some(PiecewiseComponentMode::Multiplicative),
        forall|name: Seq<char>| #[trigger] piecewise_component_mode_of(name) is Some ==> (name == ""@ || name == "additive"@ || name == "multiplicative"@),
{
    reveal_strlit("");
    reveal_strlit("additive");
    reveal_strlit("multiplicative");
    assert(""@.len() == 0);
    assert("additive"@.len() == 8);
    assert("multiplicative"@.len() == 14);
}

/// An empty key, `squared`, `l2` and `least_squares` select the squared loss, `huber` and `robust` the Huber loss; no other key selects a loss.
pub proof fn lemma_piecewise_fit_loss_names()
    ensures
        piecewise_fit_loss_of(""@) == Some(PiecewiseFitLoss::Squared),
        piecewise_fit_loss_of("squared"@) == Some(PiecewiseFitLoss::Squared),
        piecewise_fit_loss_of("l2"@) == Some(PiecewiseFitLoss::Squared),
        piecewise_fit_loss_of("least_squares"@) == Some(PiecewiseFitLoss::Squared),
        piecewise_fit_loss_of("huber"@) == Some(PiecewiseFitLoss::Huber),
        piecewise_fit_loss_of("robust"@) == Some(PiecewiseFitLoss::Huber),
        forall|name: Seq<char>| #[trigger] piecewise_fit_loss_of(name) is Some ==> (name == ""@ || name == "squared"@ || name == "l2"@ || name == "least_squares"@ || name == "huber"@ || name == "robust"@),
{
    reveal_strlit("");
    reveal_strlit("squared");
    reveal_strlit("l2");
    reveal_strlit("least_squares");
    reveal_strlit("huber");
    reveal_strlit("robust");
    assert(""@.len() == 0);
    assert("squared"@.len() == 7);
    assert("l2"@.len() == 2);
    assert("least_squares"@.len() == 13);
    assert("huber"@.len() == 5);
    assert("robust"@.len() == 6);
}

/// An empty key and `auto` select automatic standardisation, `none`, `off` and `false` none; no other key selects one.
pub proof fn lemma_regressor_standardization_names()
    ensures
        regressor_standardization_of(""@) == Some(RegressorStandardization::Auto),
        regressor_standardization_of("auto"@) == Some(RegressorStandardization::Auto),
        regressor_standardization_of("none"@) == Some(RegressorStandardization::Off),
        regressor_standardization_of("off"@) == Some(RegressorStandardization::Off),
        regressor_standardization_of("false"@) == Some(RegressorStandardization::Off),
        forall|name: Seq<char>| #[trigger] regressor_standardization_of(name) is Some ==> (name == ""@ || name == "auto"@ || name == "none"@ || name == "off"@ || name == "false"@),
{
    reveal_strlit("");
    reveal_strlit("auto");
    reveal_strlit("none");
    reveal_strlit("off");
    reveal_strlit("false");
    assert(""@.len() == 0);
    assert("auto"@.len() == 4);
    assert("none"@.len() == 4);
    assert("off"@.len() == 3);
    assert("false"@.len() == 5);
    assert("auto"@[0] == 'a');
    assert("none"@[0] == 'n');
}

/// An empty key and `laplace` select the Laplace policy, `normal` and `gaussian` the normal one; no other key selects a policy.
pub proof fn lemma_trend_uncertainty_policy_names()
    ensures
        trend_uncertainty_policy_of(""@) == Some(TrendUncertaintyPolicy::Laplace),
        trend_uncertainty_policy_of("laplace"@) == Some(TrendUncertaintyPolicy::Laplace),
        trend_uncertainty_policy_of("normal"@) == Some(TrendUncertaintyPolicy::Normal),
        trend_uncertainty_policy_of("gaussian"@) == Some(TrendUncertaintyPolicy::Normal),
        forall|name: Seq<char>| #[trigger] trend_uncertainty_policy_of(name) is Some ==> (name == ""@ || name == "laplace"@ || name == "normal"@ || name == "gaussian"@),
{
    reveal_strlit("");
    reveal_strlit("laplace");
    reveal_strlit("normal");
    reveal_strlit("gaussian");
    assert(""@.len() == 0);
    assert("laplace"@.len() == 7);
    assert("normal"@.len() == 6);
    assert("gaussian"@.len() == 8);
}

/// `expanding` and `sliding` select the two windows, and no other name selects one.
pub proof fn lemma_forecast_window_names()
    ensures
        forecast_window_of("expanding"@) == Some(ForecastWindow::Expanding),
        forecast_window_of("sliding"@) == Some(ForecastWindow::Sliding),
        forall|name: Seq<char>| #[trigger] forecast_window_of(name) is Some ==> (name == "expanding"@ || name == "sliding"@),
{
    reveal_strlit("expanding");
    reveal_strlit("sliding");
    assert("expanding"@.len() == 9);
    assert("sliding"@.len() == 7);
}

/// `croston`, `sba` and `tsb` select their own methods, and no other name selects one.
pub proof fn lemma_intermittent_demand_method_names()
    ensures
        intermittent_demand_method_of("croston"@) == Some(IntermittentDemandMethod::Croston),
        intermittent_demand_method_of("sba"@) == Some(IntermittentDemandMethod::Sba),
        intermittent_demand_method_of("tsb"@) == Some(IntermittentDemandMethod::Tsb),
        forall|name: Seq<char>| #[trigger] intermittent_demand_method_of(name) is Some ==> (name == "croston"@ || name == "sba"@ || name == "tsb"@),
{
    reveal_strlit("croston");
    reveal_strlit("sba");
    reveal_strlit("tsb");
    assert("croston"@.len() == 7);
    assert("sba"@.len() == 3);
    assert("tsb"@.len() == 3);
    assert("sba"@[0] == 's');
    assert("tsb"@[0] == 't');
}

/// Both `mse` and `mean_squared_error` select the mean squared error, and
/// both `smape_mase_average` and `owa_proxy` the sMAPE/MASE average with the
/// season length as seasonality (at least 1), whatever the season length; no
/// other key selects an objective.
pub proof fn lemma_classical_validation_objective_names()
    ensures
        forall|n: usize| #[trigger] classical_validation_objective_of("mse"@, n) == Some(ClassicalValidationObjective::MeanSquaredError),
        forall|n: usize| #[trigger] classical_validation_objective_of("mean_squared_error"@, n) == Some(ClassicalValidationObjective::MeanSquaredError),
        forall|n: usize| #[trigger] classical_validation_objective_of("smape_mase_average"@, n) == Some(ClassicalValidationObjective::SmapeMaseAverage { seasonality: if n == 0 { 1 } else { n } }),
        forall|n: usize| #[trigger] classical_validation_objective_of("owa_proxy"@, n) == Some(ClassicalValidationObjective::SmapeMaseAverage { seasonality: if n == 0 { 1 } else { n } }),
        forall|key: Seq<char>, n: usize| #[trigger] classical_validation_objective_of(key, n) is Some ==> (key == "mse"@ || key == "mean_squared_error"@ || key == "smape_mase_average"@ || key == "owa_proxy"@),
{
    reveal_strlit("mse");
    reveal_strlit("mean_squared_error");
    reveal_strlit("smape_mase_average");
    reveal_strlit("owa_proxy");
    assert("mse"@.len() == 3);
    assert("mean_squared_error"@.len() == 18);
    assert("smape_mase_average"@.len() == 18);
    assert("owa_proxy"@.len() == 9);
    assert("mean_squared_error"@[0] == 'm');
    assert("smape_mase_average"@[0] == 's');
}

} // verus!
