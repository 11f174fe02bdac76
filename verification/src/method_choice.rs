use vstd::prelude::*;

use crate::text::{
    chars_equal, lower_key, lower_key_chars, parsed, string_from_chars, str_chars, UnknownName,
};

verus! {

// ---------------------------------------------------------------------------
// Sequence state-space filters
// ---------------------------------------------------------------------------

/// The filter or smoother that a sequence state-space run uses.
#[derive(Clone, Copy, Debug, PartialEq, Eq, Structural)]
pub enum SequenceStateSpaceMethod {
    ForwardEkf,
    UkfReference,
    RtsSmoother,
    MissingTargetContinuation,
}

/// The method that the lower key `key` selects.
pub open spec fn sequence_state_space_method_of(key: Seq<char>) -> Option<
    SequenceStateSpaceMethod,
> {
    if key == "ekf"@ || key == "forward_ekf"@ {
        Some(SequenceStateSpaceMethod::ForwardEkf)
    } else if key == "ukf"@ || key == "ukf_reference"@ {
        Some(SequenceStateSpaceMethod::UkfReference)
    } else if key == "rts"@ || key == "rts_smoother"@ {
        Some(SequenceStateSpaceMethod::RtsSmoother)
    } else if key == "continuation"@ || key == "missing_target_continuation"@ {
        Some(SequenceStateSpaceMethod::MissingTargetContinuation)
    } else {
        None
    }
}

/// Reads a state-space method, ignoring case and surrounding white space.
pub fn parse_sequence_state_space_method(method: &str) -> (r: Result<
    SequenceStateSpaceMethod,
    UnknownName,
>)
    ensures
        parsed(r, sequence_state_space_method_of(lower_key(method@)), lower_key(method@)),
{
    let key = lower_key_chars(method);
    if chars_equal(&key, "ekf") || chars_equal(&key, "forward_ekf") {
        Ok(SequenceStateSpaceMethod::ForwardEkf)
    } else if chars_equal(&key, "ukf") || chars_equal(&key, "ukf_reference") {
        Ok(SequenceStateSpaceMethod::UkfReference)
    } else if chars_equal(&key, "rts") || chars_equal(&key, "rts_smoother") {
        Ok(SequenceStateSpaceMethod::RtsSmoother)
    } else if chars_equal(&key, "continuation") || chars_equal(&key, "missing_target_continuation") {
        Ok(SequenceStateSpaceMethod::MissingTargetContinuation)
    } else {
        Err(UnknownName { name: string_from_chars(&key) })
    }
}

// ---------------------------------------------------------------------------
// Sequence candidate blending
// ---------------------------------------------------------------------------

/// How sequence candidates are blended.
#[derive(Clone, Copy, Debug, PartialEq, Eq, Structural)]
pub enum SequenceBlendMode {
    /// With weights that the caller gives.
    Fixed,
    /// With weights derived from validation actuals.
    ValidationDerived,
    /// With a non-negative linear blend fitted to validation actuals.
    ConstrainedNonnegative,
}

/// Why a blend mode could not be chosen.
#[derive(Clone, Debug)]
pub enum SequenceBlendError {
    /// No blend mode has this (lower-cased, trimmed) name.
    UnknownMode(UnknownName),
    /// The fixed blend was asked for without weights.
    WeightsRequired,
    /// A validation-based blend was asked for without actuals.
    ActualsRequired,
}

/// The blend mode that the lower key `key` names.
pub open spec fn sequence_blend_mode_of(key: Seq<char>) -> Option<SequenceBlendMode> {
    if key == "fixed"@ {
        Some(SequenceBlendMode::Fixed)
    } else if key == "validation"@ || key == "validation_derived"@ {
        Some(SequenceBlendMode::ValidationDerived)
    } else if key == "constrained"@ || key == "nonnegative"@ || key
        == "constrained_nonnegative_linear_blend"@ {
        Some(SequenceBlendMode::ConstrainedNonnegative)
    } else {
        None
    }
}

/// Chooses a blend mode from its name and from which inputs were given: the
/// fixed blend needs weights, the others need actuals.
pub fn choose_sequence_blend_mode(mode: &str, has_weights: bool, has_actuals: bool) -> (r: Result<
    SequenceBlendMode,
    SequenceBlendError,
>)
    ensures
        match sequence_blend_mode_of(lower_key(mode@)) {
            None => r matches Err(SequenceBlendError::UnknownMode(e)) && e.name@ == lower_key(
                mode@,
            ),
            Some(SequenceBlendMode::Fixed) => if has_weights {
                r matches Ok(SequenceBlendMode::Fixed)
            } else {
                r matches Err(SequenceBlendError::WeightsRequired)
            },
            Some(chosen) => if has_actuals {
                r matches Ok(m) && m == chosen
            } else {
                r matches Err(SequenceBlendError::ActualsRequired)
            },
        },
{
    let key = lower_key_chars(mode);
    if chars_equal(&key, "fixed") {
        if has_weights {
            Ok(SequenceBlendMode::Fixed)
        } else {
            Err(SequenceBlendError::WeightsRequired)
        }
    } else if chars_equal(&key, "validation") || chars_equal(&key, "validation_derived") {
        if has_actuals {
            Ok(SequenceBlendMode::ValidationDerived)
        } else {
            Err(SequenceBlendError::ActualsRequired)
        }
    } else if chars_equal(&key, "constrained") || chars_equal(&key, "nonnegative") || chars_equal(
        &key,
        "constrained_nonnegative_linear_blend",
    ) {
        if has_actuals {
            Ok(SequenceBlendMode::ConstrainedNonnegative)
        } else {
            Err(SequenceBlendError::ActualsRequired)
        }
    } else {
        Err(SequenceBlendError::UnknownMode(UnknownName { name: string_from_chars(&key) }))
    }
}

// ---------------------------------------------------------------------------
// Theta seasonality
// ---------------------------------------------------------------------------

/// How a theta forecaster removes seasonality.
#[derive(Clone, Copy, Debug, PartialEq, Eq, Structural)]
pub enum ThetaSeasonalityMode {
    Additive,
    Multiplicative,
}

/// A requested seasonal adjustment: its mode and its season length.
#[derive(Clone, Copy, Debug, PartialEq, Eq, Structural)]
pub struct ThetaSeasonalityChoice {
    pub mode: ThetaSeasonalityMode,
    pub season_length: usize,
}

/// Why a theta seasonality could not be chosen.
#[derive(Clone, Copy, Debug, PartialEq, Eq, Structural)]
pub enum ThetaSeasonalityError {
    /// A seasonality was asked for without a season length.
    SeasonLengthRequired,
    /// The seasonality is neither `additive` nor `multiplicative`.
    UnknownMode,
}

/// The mode that `value` selects.
pub open spec fn theta_seasonality_mode_of(value: Seq<char>) -> Option<ThetaSeasonalityMode> {
    if value == "additive"@ {
        Some(ThetaSeasonalityMode::Additive)
    } else if value == "multiplicative"@ {
        Some(ThetaSeasonalityMode::Multiplicative)
    } else {
        None
    }
}

/// What choosing a theta seasonality from `season_length` and the name
/// `seasonality` gives: nothing without a name; with one, the season length
/// is required first, and then the name must be a mode.
pub open spec fn theta_seasonality_of(season_length: Option<usize>, seasonality: Option<Seq<char>>) -> Result<
    Option<ThetaSeasonalityChoice>,
    ThetaSeasonalityError,
> {
    match seasonality {
        None => Ok(None),
        Some(name) => match season_length {
            None => Err(ThetaSeasonalityError::SeasonLengthRequired),
            Some(length) => match theta_seasonality_mode_of(name) {
                Some(mode) => Ok(Some(ThetaSeasonalityChoice { mode, season_length: length })),
                None => Err(ThetaSeasonalityError::UnknownMode),
            },
        },
    }
}

/// The view of an optional text.
pub open spec fn optional_text(value: Option<&str>) -> Option<Seq<char>> {
    match value {
        Some(text) => Some(text@),
        None => None,
    }
}

/// Chooses the seasonal adjustment of a theta forecaster.
pub fn parse_theta_seasonality(season_length: Option<usize>, seasonality: Option<&str>) -> (r: Result<
    Option<ThetaSeasonalityChoice>,
    ThetaSeasonalityError,
>)
    ensures
        r == theta_seasonality_of(season_length, optional_text(seasonality)),
{
    match seasonality {
        None => Ok(None),
        Some(name) => match season_length {
            None => Err(ThetaSeasonalityError::SeasonLengthRequired),
            Some(length) => {
                let v = str_chars(name);
                if chars_equal(&v, "additive") {
                    Ok(
                        Some(
                            ThetaSeasonalityChoice {
                                mode: ThetaSeasonalityMode::Additive,
                                season_length: length,
                            },
                        ),
                    )
                } else if chars_equal(&v, "multiplicative") {
                    Ok(
                        Some(
                            ThetaSeasonalityChoice {
                                mode: ThetaSeasonalityMode::Multiplicative,
                                season_length: length,
                            },
                        ),
                    )
                } else {
                    Err(ThetaSeasonalityError::UnknownMode)
                }
            },
        },
    }
}

// ---------------------------------------------------------------------------
// Hierarchical reconciliation
// ---------------------------------------------------------------------------

/// A reconciliation method, with the level that middle-out needs; the
/// variances and residuals that WLS and MinT need travel beside it.
#[derive(Clone, Copy, Debug, PartialEq, Eq, Structural)]
pub enum ReconciliationChoice {
    BottomUp,
    TopDown,
    MiddleOut { level: usize },
    Ols,
    Wls,
    MinTrace,
}

/// Why a reconciliation method could not be chosen.
#[derive(Clone, Copy, Debug, PartialEq, Eq, Structural)]
pub enum ReconciliationError {
    /// No method has this name.
    Unsupported,
    /// Middle-out was asked for without a level.
    LevelRequired,
    /// WLS was asked for without variances.
    VariancesRequired,
    /// MinT was asked for without residuals.
    ResidualsRequired,
}

/// What choosing the reconciliation `method` gives, from the level and from
/// whether variances and residuals were given.
pub open spec fn reconciliation_of(
    method: Seq<char>,
    level: Option<usize>,
    has_variances: bool,
    has_residuals: bool,
) -> Result<ReconciliationChoice, ReconciliationError> {
    if method == "bottom_up"@ {
        Ok(ReconciliationChoice::BottomUp)
    } else if method == "top_down"@ {
        Ok(ReconciliationChoice::TopDown)
    } else if method == "middle_out"@ {
        match level {
            Some(l) => Ok(ReconciliationChoice::MiddleOut { level: l }),
            None => Err(ReconciliationError::LevelRequired),
        }
    } else if method == "ols"@ {
        Ok(ReconciliationChoice::Ols)
    } else if method == "wls"@ {
        if has_variances {
            Ok(ReconciliationChoice::Wls)
        } else {
            Err(ReconciliationError::VariancesRequired)
        }
    } else if method == "mint"@ || method == "min_trace"@ {
        if has_residuals {
            Ok(ReconciliationChoice::MinTrace)
        } else {
            Err(ReconciliationError::ResidualsRequired)
        }
    } else {
        Err(ReconciliationError::Unsupported)
    }
}

/// Chooses a reconciliation method from its name and from which of its inputs
/// were given.
pub fn choose_reconciliation(
    method: &str,
    level: Option<usize>,
    has_variances: bool,
    has_residuals: bool,
) -> (r: Result<ReconciliationChoice, ReconciliationError>)
    ensures
        r == reconciliation_of(method@, level, has_variances, has_residuals),
{
    let v = str_chars(method);
    if chars_equal(&v, "bottom_up") {
        Ok(ReconciliationChoice::BottomUp)
    } else if chars_equal(&v, "top_down") {
        Ok(ReconciliationChoice::TopDown)
    } else if chars_equal(&v, "middle_out") {
        match level {
            Some(l) => Ok(ReconciliationChoice::MiddleOut { level: l }),
            None => Err(ReconciliationError::LevelRequired),
        }
    } else if chars_equal(&v, "ols") {
        Ok(ReconciliationChoice::Ols)
    } else if chars_equal(&v, "wls") {
        if has_variances {
            Ok(ReconciliationChoice::Wls)
        } else {
            Err(ReconciliationError::VariancesRequired)
        }
    } else if chars_equal(&v, "mint") || chars_equal(&v, "min_trace") {
        if has_residuals {
            Ok(ReconciliationChoice::MinTrace)
        } else {
            Err(ReconciliationError::ResidualsRequired)
        }
    } else {
        Err(ReconciliationError::Unsupported)
    }
}

// ---------------------------------------------------------------------------
// Utility series forecasters
// ---------------------------------------------------------------------------

/// The statistical forecaster that a one-series utility forecast runs.
#[derive(Clone, Copy, Debug, PartialEq, Eq, Structural)]
pub enum UtilityModel {
    Naive,
    SeasonalNaive,
    Theta,
    OptimizedTheta,
    Ets,
    Arima,
    AutoArima,
    LocalLinearTrendKalman,
    AutoKalman,
    LocalLevelKalman,
    AutoLocalLevelKalman,
}

/// The model that `model` names; hyphens and underscores are both accepted
/// where the names have them.
pub open spec fn utility_model_of(model: Seq<char>) -> Option<UtilityModel> {
    if model == "naive"@ {
        Some(UtilityModel::Naive)
    } else if model == "seasonal_naive"@ || model == "seasonal-naive"@ {
        Some(UtilityModel::SeasonalNaive)
    } else if model == "theta"@ {
        Some(UtilityModel::Theta)
    } else if model == "optimized_theta"@ || model == "optimized-theta"@ {
        Some(UtilityModel::OptimizedTheta)
    } else if model == "ets"@ {
        Some(UtilityModel::Ets)
    } else if model == "arima"@ {
        Some(UtilityModel::Arima)
    } else if model == "auto_arima"@ || model == "auto-arima"@ {
        Some(UtilityModel::AutoArima)
    } else if model == "kalman"@ || model == "local_linear_trend_kalman"@ || model
        == "local-linear-trend-kalman"@ {
        Some(UtilityModel::LocalLinearTrendKalman)
    } else if model == "auto_kalman"@ || model == "self_tuning_kalman"@ || model
        == "self-tuning-kalman"@ {
        Some(UtilityModel::AutoKalman)
    } else if model == "local_level_kalman"@ || model == "local-level-kalman"@ {
        Some(UtilityModel::LocalLevelKalman)
    } else if model == "auto_local_level_kalman"@ || model == "auto-local-level-kalman"@ {
        Some(UtilityModel::AutoLocalLevelKalman)
    } else {
        None
    }
}

/// Reads the name of a utility forecaster.
pub fn parse_utility_model(model: &str) -> (r: Result<UtilityModel, UnknownName>)
    ensures
        parsed(r, utility_model_of(model@), model@),
{
    let v = str_chars(model);
    if chars_equal(&v, "naive") {
        Ok(UtilityModel::Naive)
    } else if chars_equal(&v, "seasonal_naive") || chars_equal(&v, "seasonal-naive") {
        Ok(UtilityModel::SeasonalNaive)
    } else if chars_equal(&v, "theta") {
        Ok(UtilityModel::Theta)
    } else if chars_equal(&v, "optimized_theta") || chars_equal(&v, "optimized-theta") {
        Ok(UtilityModel::OptimizedTheta)
    } else if chars_equal(&v, "ets") {
        Ok(UtilityModel::Ets)
    } else if chars_equal(&v, "arima") {
        Ok(UtilityModel::Arima)
    } else if chars_equal(&v, "auto_arima") || chars_equal(&v, "auto-arima") {
        Ok(UtilityModel::AutoArima)
    } else if chars_equal(&v, "kalman") || chars_equal(&v, "local_linear_trend_kalman")
        || chars_equal(&v, "local-linear-trend-kalman") {
        Ok(UtilityModel::LocalLinearTrendKalman)
    } else if chars_equal(&v, "auto_kalman") || chars_equal(&v, "self_tuning_kalman")
        || chars_equal(&v, "self-tuning-kalman") {
        Ok(UtilityModel::AutoKalman)
    } else if chars_equal(&v, "local_level_kalman") || chars_equal(&v, "local-level-kalman") {
        Ok(UtilityModel::LocalLevelKalman)
    } else if chars_equal(&v, "auto_local_level_kalman") || chars_equal(
        &v,
        "auto-local-level-kalman",
    ) {
        Ok(UtilityModel::AutoLocalLevelKalman)
    } else {
        Err(UnknownName { name: model.to_owned() })
    }
}

/// What a JSON parameters object holds under one name, as far as an integer
/// parameter is concerned.
#[derive(Clone, Copy, Debug, PartialEq, Eq, Structural)]
pub enum IntegerParamEntry {
    /// The name is not there.
    Missing,
    /// The name holds `null`.
    Null,
    /// The name holds a number that is a non-negative integer within `u64`.
    Unsigned(u64),
    /// The name holds anything else.
    NotUnsigned,
}

/// Why an integer parameter could not be read.
#[derive(Clone, Copy, Debug, PartialEq, Eq, Structural)]
pub enum IntegerParamError {
    /// The value is not a non-negative integer.
    NotNonNegativeInteger,
    /// The value does not fit a `usize`.
    TooLarge,
}

/// What an optional `usize` parameter is, from what its name holds: missing
/// or `null` is no value; a non-negative integer is that value if it fits a
/// `usize`.
pub open spec fn integer_param_value(entry: IntegerParamEntry) -> Result<
    Option<usize>,
    IntegerParamError,
> {
    match entry {
        IntegerParamEntry::Missing => Ok(None),
        IntegerParamEntry::Null => Ok(None),
        IntegerParamEntry::Unsigned(raw) => if raw <= usize::MAX {
            Ok(Some(raw as usize))
        } else {
            Err(IntegerParamError::TooLarge)
        },
        IntegerParamEntry::NotUnsigned => Err(IntegerParamError::NotNonNegativeInteger),
    }
}

/// Reads an optional `usize` parameter from what its name holds.
pub fn usize_param(entry: IntegerParamEntry) -> (r: Result<Option<usize>, IntegerParamError>)
    ensures
        r == integer_param_value(entry),
{
    match entry {
        IntegerParamEntry::Missing => Ok(None),
        IntegerParamEntry::Null => Ok(None),
        IntegerParamEntry::Unsigned(raw) => {
            if raw <= usize::MAX as u64 {
                Ok(Some(raw as usize))
            } else {
                Err(IntegerParamError::TooLarge)
            }
        },
        IntegerParamEntry::NotUnsigned => Err(IntegerParamError::NotNonNegativeInteger),
    }
}

/// The error that `serde_json` reports for text it cannot read.
#[verifier::external_type_specification]
#[verifier::external_body]
pub struct ExJsonError(serde_json::Error);

/// What the JSON text `params_json` holds under the key `name`, as far as an
/// integer parameter is concerned; nothing when the text is not JSON.
pub uninterp spec fn json_integer_param(params_json: Seq<char>, name: Seq<char>) -> Option<
    IntegerParamEntry,
>;

/// Reads `params_json` with `serde_json::from_str` into a `serde_json::Value`,
/// looks `name` up with `Value::get` (a key of an object; nothing for any other
/// value) and reads what is there with `Value::as_u64`. Trusted, not proved:
/// the outcome is `json_integer_param` of the text and the name (it depends
/// on them alone), an error exactly when that is nothing.
#[verifier::external_body]
fn json_integer_param_entry(params_json: &str, name: &str) -> (r: Result<
    IntegerParamEntry,
    serde_json::Error,
>)
    ensures
        match r {
            Ok(entry) => json_integer_param(params_json@, name@) == Some(entry),
            Err(_) => json_integer_param(params_json@, name@) is None,
        },
{
    let params: serde_json::Value = serde_json::from_str(params_json)?;
    Ok(
        match params.get(name) {
            None => IntegerParamEntry::Missing,
            Some(serde_json::Value::Null) => IntegerParamEntry::Null,
            Some(value) => match value.as_u64() {
                Some(raw) => IntegerParamEntry::Unsigned(raw),
                None => IntegerParamEntry::NotUnsigned,
            },
        },
    )
}

/// Why a utility forecaster's parameter could not be read.
#[derive(Debug)]
pub enum UtilityParamError {
    /// The parameters are not JSON.
    InvalidJson(serde_json::Error),
    /// The parameter is not a `usize`.
    Integer(IntegerParamError),
}

/// Reads the optional `usize` parameter `name` of a utility forecaster from
/// its JSON parameters; no parameters at all is an empty object.
pub fn utility_usize_param(params_json: Option<&str>, name: &str) -> (r: Result<
    Option<usize>,
    UtilityParamError,
>)
    ensures
        match params_json {
            None => r matches Ok(None),
            Some(text) => match json_integer_param(text@, name@) {
                None => r matches Err(UtilityParamError::InvalidJson(_)),
                Some(entry) => match integer_param_value(entry) {
                    Ok(value) => r matches Ok(v) && v == value,
                    Err(e) => r matches Err(UtilityParamError::Integer(got)) && got == e,
                },
            },
        },
{
    match params_json {
        None => Ok(None),
        Some(text) => match json_integer_param_entry(text, name) {
            Err(e) => Err(UtilityParamError::InvalidJson(e)),
            Ok(entry) => match usize_param(entry) {
                Ok(value) => Ok(value),
                Err(e) => Err(UtilityParamError::Integer(e)),
            },
        },
    }
}

/// What an integer parameter with a default is: the parameter's value, or
/// the default when it has none.
pub open spec fn param_or_default(value: Result<Option<usize>, IntegerParamError>, default: usize) -> Result<
    usize,
    IntegerParamError,
> {
    match value {
        Ok(Some(v)) => Ok(v),
        Ok(None) => Ok(default),
        Err(e) => Err(e),
    }
}

/// What `params_json` gives for the parameter `name`: no parameters at all
/// give no value, text that is not JSON gives nothing.
pub open spec fn json_param_value(params_json: Option<Seq<char>>, name: Seq<char>) -> Option<
    Result<Option<usize>, IntegerParamError>,
> {
    match params_json {
        None => Some(Ok(None)),
        Some(text) => match json_integer_param(text, name) {
            None => None,
            Some(entry) => Some(integer_param_value(entry)),
        },
    }
}

/// The view of optional parameters text.
pub open spec fn optional_params(params_json: Option<&str>) -> Option<Seq<char>> {
    match params_json {
        Some(text) => Some(text@),
        None => None,
    }
}

/// `r` is what reading `name` from `params_json` with default `default` owes.
pub open spec fn defaulted_param(
    r: Result<usize, UtilityParamError>,
    params_json: Option<&str>,
    name: Seq<char>,
    default: usize,
) -> bool {
    match json_param_value(optional_params(params_json), name) {
        None => r matches Err(UtilityParamError::InvalidJson(_)),
        Some(value) => match param_or_default(value, default) {
            Ok(v) => r matches Ok(got) && got == v,
            Err(e) => r matches Err(UtilityParamError::Integer(got)) && got == e,
        },
    }
}

/// Whether reading a parameter with this outcome and default succeeds.
pub open spec fn param_read_ok(value: Option<Result<Option<usize>, IntegerParamError>>, default: usize) -> bool {
    value matches Some(v) && param_or_default(v, default) is Ok
}

/// Whether `e` is the error of reading a parameter with this outcome and
/// default.
pub open spec fn param_read_error(
    value: Option<Result<Option<usize>, IntegerParamError>>,
    default: usize,
    e: UtilityParamError,
) -> bool {
    match value {
        None => e is InvalidJson,
        Some(v) => match param_or_default(v, default) {
            Ok(_) => false,
            Err(x) => e matches UtilityParamError::Integer(got) && got == x,
        },
    }
}

/// Reads the `usize` parameter `name`, or `default` when it has no value.
pub fn utility_usize_param_or(params_json: Option<&str>, name: &str, default: usize) -> (r: Result<
    usize,
    UtilityParamError,
>)
    ensures
        defaulted_param(r, params_json, name@, default),
{
    match utility_usize_param(params_json, name) {
        Ok(Some(value)) => Ok(value),
        Ok(None) => Ok(default),
        Err(e) => Err(e),
    }
}

/// The season length of a seasonal naive utility forecaster: the
/// `season_length` parameter, 1 by default.
pub fn seasonal_naive_season_length(params_json: Option<&str>) -> (r: Result<
    usize,
    UtilityParamError,
>)
    ensures
        defaulted_param(r, params_json, "season_length"@, 1),
{
    utility_usize_param_or(params_json, "season_length", 1)
}

/// The order `(p, d, q)` of an ARIMA utility forecaster, read in that order:
/// 1, 0 and 0 by default; the first parameter that cannot be read is the
/// error.
pub fn arima_order(params_json: Option<&str>) -> (r: Result<
    (usize, usize, usize),
    UtilityParamError,
>)
    ensures
        ({
            let p = json_param_value(optional_params(params_json), "p"@);
            let d = json_param_value(optional_params(params_json), "d"@);
            let q = json_param_value(optional_params(params_json), "q"@);
            match r {
                Ok((rp, rd, rq)) => {
                    &&& p matches Some(v) && param_or_default(v, 1) == Ok::<usize, IntegerParamError>(rp)
                    &&& d matches Some(v) && param_or_default(v, 0) == Ok::<usize, IntegerParamError>(rd)
                    &&& q matches Some(v) && param_or_default(v, 0) == Ok::<usize, IntegerParamError>(rq)
                },
                Err(e) => if !param_read_ok(p, 1) {
                    param_read_error(p, 1, e)
                } else if !param_read_ok(d, 0) {
                    param_read_error(d, 0, e)
                } else {
                    !param_read_ok(q, 0) && param_read_error(q, 0, e)
                },
            }
        }),
{
    let p = match utility_usize_param_or(params_json, "p", 1) {
        Ok(v) => v,
        Err(e) => {
            return Err(e);
        },
    };
    let d = match utility_usize_param_or(params_json, "d", 0) {
        Ok(v) => v,
        Err(e) => {
            return Err(e);
        },
    };
    let q = match utility_usize_param_or(params_json, "q", 0) {
        Ok(v) => v,
        Err(e) => {
            return Err(e);
        },
    };
    Ok((p, d, q))
}

/// The largest order `(max_p, max_d, max_q)` an automatic ARIMA utility
/// forecaster searches, read in that order: 3, 1 and 2 by default; the first
/// parameter that cannot be read is the error.
pub fn auto_arima_max_order(params_json: Option<&str>) -> (r: Result<
    (usize, usize, usize),
    UtilityParamError,
>)
    ensures
        ({
            let p = json_param_value(optional_params(params_json), "max_p"@);
            let d = json_param_value(optional_params(params_json), "max_d"@);
            let q = json_param_value(optional_params(params_json), "max_q"@);
            match r {
                Ok((rp, rd, rq)) => {
                    &&& p matches Some(v) && param_or_default(v, 3) == Ok::<usize, IntegerParamError>(rp)
                    &&& d matches Some(v) && param_or_default(v, 1) == Ok::<usize, IntegerParamError>(rd)
                    &&& q matches Some(v) && param_or_default(v, 2) == Ok::<usize, IntegerParamError>(rq)
                },
                Err(e) => if !param_read_ok(p, 3) {
                    param_read_error(p, 3, e)
                } else if !param_read_ok(d, 1) {
                    param_read_error(d, 1, e)
                } else {
                    !param_read_ok(q, 2) && param_read_error(q, 2, e)
                },
            }
        }),
{
    let p = match utility_usize_param_or(params_json, "max_p", 3) {
        Ok(v) => v,
        Err(e) => {
            return Err(e);
        },
    };
    let d = match utility_usize_param_or(params_json, "max_d", 1) {
        Ok(v) => v,
        Err(e) => {
            return Err(e);
        },
    };
    let q = match utility_usize_param_or(params_json, "max_q", 2) {
        Ok(v) => v,
        Err(e) => {
            return Err(e);
        },
    };
    Ok((p, d, q))
}

/// Each state-space key selects its own method (the short and the long name alike), and no other key selects one.
pub proof fn lemma_sequence_state_space_method_names()
    ensures
        sequence_state_space_method_of("ekf"@) == Some(SequenceStateSpaceMethod::ForwardEkf),
        sequence_state_space_method_of("forward_ekf"@) == Some(SequenceStateSpaceMethod::ForwardEkf),
        sequence_state_space_method_of("ukf"@) == Some(SequenceStateSpaceMethod::UkfReference),
        sequence_state_space_method_of("ukf_reference"@) == Some(SequenceStateSpaceMethod::UkfReference),
        sequence_state_space_method_of("rts"@) == Some(SequenceStateSpaceMethod::RtsSmoother),
        sequence_state_space_method_of("rts_smoother"@) == Some(SequenceStateSpaceMethod::RtsSmoother),
        sequence_state_space_method_of("continuation"@) == Some(SequenceStateSpaceMethod::MissingTargetContinuation),
        sequence_state_space_method_of("missing_target_continuation"@) == Some(SequenceStateSpaceMethod::MissingTargetContinuation),
        forall|name: Seq<char>| #[trigger] sequence_state_space_method_of(name) is Some ==> (name == "ekf"@ || name == "forward_ekf"@ || name == "ukf"@ || name == "ukf_reference"@ || name == "rts"@ || name == "rts_smoother"@ || name == "continuation"@ || name == "missing_target_continuation"@),
{
    reveal_strlit("ekf");
    reveal_strlit("forward_ekf");
    reveal_strlit("ukf");
    reveal_strlit("ukf_reference");
    reveal_strlit("rts");
    reveal_strlit("rts_smoother");
    reveal_strlit("continuation");
    reveal_strlit("missing_target_continuation");
    assert("ekf"@.len() == 3);
    assert("forward_ekf"@.len() == 11);
    assert("ukf"@.len() == 3);
    assert("ukf_reference"@.len() == 13);
    assert("rts"@.len() == 3);
    assert("rts_smoother"@.len() == 12);
    assert("continuation"@.len() == 12);
    assert("missing_target_continuation"@.len() == 27);
    assert("continuation"@[0] == 'c');
    assert("ekf"@[0] == 'e');
    assert("rts"@[0] == 'r');
    assert("rts_smoother"@[0] == 'r');
    assert("ukf"@[0] == 'u');
}

/// `fixed` selects the fixed blend, `validation` and `validation_derived` the validation-derived one, `constrained`, `nonnegative` and `constrained_nonnegative_linear_blend` the non-negative linear blend; no other key selects a mode.
pub proof fn lemma_sequence_blend_mode_names()
    ensures
        sequence_blend_mode_of("fixed"@) == Some(SequenceBlendMode::Fixed),
        sequence_blend_mode_of("validation"@) == Some(SequenceBlendMode::ValidationDerived),
        sequence_blend_mode_of("validation_derived"@) == Some(SequenceBlendMode::ValidationDerived),
        sequence_blend_mode_of("constrained"@) == Some(SequenceBlendMode::ConstrainedNonnegative),
        sequence_blend_mode_of("nonnegative"@) == Some(SequenceBlendMode::ConstrainedNonnegative),
        sequence_blend_mode_of("constrained_nonnegative_linear_blend"@) == Some(SequenceBlendMode::ConstrainedNonnegative),
        forall|name: Seq<char>| #[trigger] sequence_blend_mode_of(name) is Some ==> (name == "fixed"@ || name == "validation"@ || name == "validation_derived"@ || name == "constrained"@ || name == "nonnegative"@ || name == "constrained_nonnegative_linear_blend"@),
{
    reveal_strlit("fixed");
    reveal_strlit("validation");
    reveal_strlit("validation_derived");
    reveal_strlit("constrained");
    reveal_strlit("nonnegative");
    reveal_strlit("constrained_nonnegative_linear_blend");
    assert("fixed"@.len() == 5);
    assert("validation"@.len() == 10);
    assert("validation_derived"@.len() == 18);
    assert("constrained"@.len() == 11);
    assert("nonnegative"@.len() == 11);
    assert("constrained_nonnegative_linear_blend"@.len() == 36);
    assert("constrained"@[0] == 'c');
    assert("nonnegative"@[0] == 'n');
}

/// Each model name selects its own forecaster (`auto_kalman` and `self_tuning_kalman` the self-tuning Kalman filter, `kalman` the fixed local linear trend one, and so on), and no other name selects one.
pub proof fn lemma_utility_model_names()
    ensures
        utility_model_of("naive"@) == Some(UtilityModel::Naive),
        utility_model_of("seasonal_naive"@) == Some(UtilityModel::SeasonalNaive),
        utility_model_of("seasonal-naive"@) == Some(UtilityModel::SeasonalNaive),
        utility_model_of("theta"@) == Some(UtilityModel::Theta),
        utility_model_of("optimized_theta"@) == Some(UtilityModel::OptimizedTheta),
        utility_model_of("optimized-theta"@) == Some(UtilityModel::OptimizedTheta),
        utility_model_of("ets"@) == Some(UtilityModel::Ets),
        utility_model_of("arima"@) == Some(UtilityModel::Arima),
        utility_model_of("auto_arima"@) == Some(UtilityModel::AutoArima),
        utility_model_of("auto-arima"@) == Some(UtilityModel::AutoArima),
        utility_model_of("kalman"@) == Some(UtilityModel::LocalLinearTrendKalman),
        utility_model_of("local_linear_trend_kalman"@) == Some(UtilityModel::LocalLinearTrendKalman),
        utility_model_of("local-linear-trend-kalman"@) == Some(UtilityModel::LocalLinearTrendKalman),
        utility_model_of("auto_kalman"@) == Some(UtilityModel::AutoKalman),
        utility_model_of("self_tuning_kalman"@) == Some(UtilityModel::AutoKalman),
        utility_model_of("self-tuning-kalman"@) == Some(UtilityModel::AutoKalman),
        utility_model_of("local_level_kalman"@) == Some(UtilityModel::LocalLevelKalman),
        utility_model_of("local-level-kalman"@) == Some(UtilityModel::LocalLevelKalman),
        utility_model_of("auto_local_level_kalman"@) == Some(UtilityModel::AutoLocalLevelKalman),
        utility_model_of("auto-local-level-kalman"@) == Some(UtilityModel::AutoLocalLevelKalman),
        forall|name: Seq<char>| #[trigger] utility_model_of(name) is Some ==> (name == "naive"@ || name == "seasonal_naive"@ || name == "seasonal-naive"@ || name == "theta"@ || name == "optimized_theta"@ || name == "optimized-theta"@ || name == "ets"@ || name == "arima"@ || name == "auto_arima"@ || name == "auto-arima"@ || name == "kalman"@ || name == "local_linear_trend_kalman"@ || name == "local-linear-trend-kalman"@ || name == "auto_kalman"@ || name == "self_tuning_kalman"@ || name == "self-tuning-kalman"@ || name == "local_level_kalman"@ || name == "local-level-kalman"@ || name == "auto_local_level_kalman"@ || name == "auto-local-level-kalman"@),
{
    reveal_strlit("naive");
    reveal_strlit("seasonal_naive");
    reveal_strlit("seasonal-naive");
    reveal_strlit("theta");
    reveal_strlit("optimized_theta");
    reveal_strlit("optimized-theta");
    reveal_strlit("ets");
    reveal_strlit("arima");
    reveal_strlit("auto_arima");
    reveal_strlit("auto-arima");
    reveal_strlit("kalman");
    reveal_strlit("local_linear_trend_kalman");
    reveal_strlit("local-linear-trend-kalman");
    reveal_strlit("auto_kalman");
    reveal_strlit("self_tuning_kalman");
    reveal_strlit("self-tuning-kalman");
    reveal_strlit("local_level_kalman");
    reveal_strlit("local-level-kalman");
    reveal_strlit("auto_local_level_kalman");
    reveal_strlit("auto-local-level-kalman");
    assert("naive"@.len() == 5);
    assert("seasonal_naive"@.len() == 14);
    assert("seasonal-naive"@.len() == 14);
    assert("theta"@.len() == 5);
    assert("optimized_theta"@.len() == 15);
    assert("optimized-theta"@.len() == 15);
    assert("ets"@.len() == 3);
    assert("arima"@.len() == 5);
    assert("auto_arima"@.len() == 10);
    assert("auto-arima"@.len() == 10);
    assert("kalman"@.len() == 6);
    assert("local_linear_trend_kalman"@.len() == 25);
    assert("local-linear-trend-kalman"@.len() == 25);
    assert("auto_kalman"@.len() == 11);
    assert("self_tuning_kalman"@.len() == 18);
    assert("self-tuning-kalman"@.len() == 18);
    assert("local_level_kalman"@.len() == 18);
    assert("local-level-kalman"@.len() == 18);
    assert("auto_local_level_kalman"@.len() == 23);
    assert("auto-local-level-kalman"@.len() == 23);
    assert("arima"@[0] == 'a');
    assert("auto-arima"@[4] == '-');
    assert("auto-local-level-kalman"@[4] == '-');
    assert("auto_arima"@[4] == '_');
    assert("auto_local_level_kalman"@[4] == '_');
    assert("local-level-kalman"@[0] == 'l');
    assert("local-level-kalman"@[5] == '-');
    assert("local-linear-trend-kalman"@[5] == '-');
    assert("local_level_kalman"@[0] == 'l');
    assert("local_level_kalman"@[5] == '_');
    assert("local_linear_trend_kalman"@[5] == '_');
    assert("naive"@[0] == 'n');
    assert("optimized-theta"@[9] == '-');
    assert("optimized_theta"@[9] == '_');
    assert("seasonal-naive"@[8] == '-');
    assert("seasonal_naive"@[8] == '_');
    assert("self-tuning-kalman"@[0] == 's');
    assert("self-tuning-kalman"@[4] == '-');
    assert("self_tuning_kalman"@[0] == 's');
    assert("self_tuning_kalman"@[4] == '_');
    assert("theta"@[0] == 't');
}

/// `additive` selects the additive and `multiplicative` the multiplicative
/// adjustment, with the season length given; naming a seasonality without a
/// season length is an error, any other name an unknown mode, and no
/// seasonality is no adjustment.
pub proof fn lemma_theta_seasonality_choices()
    ensures
        theta_seasonality_mode_of("additive"@) == Some(ThetaSeasonalityMode::Additive),
        theta_seasonality_mode_of("multiplicative"@) == Some(ThetaSeasonalityMode::Multiplicative),
        forall|n: usize| #[trigger] theta_seasonality_of(Some(n), Some("additive"@)) == Ok::<Option<ThetaSeasonalityChoice>, ThetaSeasonalityError>(Some(ThetaSeasonalityChoice { mode: ThetaSeasonalityMode::Additive, season_length: n })),
        forall|n: usize| #[trigger] theta_seasonality_of(Some(n), Some("multiplicative"@)) == Ok::<Option<ThetaSeasonalityChoice>, ThetaSeasonalityError>(Some(ThetaSeasonalityChoice { mode: ThetaSeasonalityMode::Multiplicative, season_length: n })),
        forall|name: Seq<char>| #[trigger] theta_seasonality_of(None, Some(name)) == Err::<Option<ThetaSeasonalityChoice>, ThetaSeasonalityError>(ThetaSeasonalityError::SeasonLengthRequired),
        forall|n: usize, name: Seq<char>| !(name == "additive"@ || name == "multiplicative"@) ==> #[trigger] theta_seasonality_of(Some(n), Some(name)) == Err::<Option<ThetaSeasonalityChoice>, ThetaSeasonalityError>(ThetaSeasonalityError::UnknownMode),
        forall|length: Option<usize>| #[trigger] theta_seasonality_of(length, None) == Ok::<Option<ThetaSeasonalityChoice>, ThetaSeasonalityError>(None),
{
    reveal_strlit("additive");
    reveal_strlit("multiplicative");
    assert("additive"@.len() == 8);
    assert("multiplicative"@.len() == 14);
}

/// Each reconciliation name selects its own method whatever else is given;
/// middle-out takes the level given and needs one, WLS needs variances and
/// MinT (`mint` or `min_trace`) needs residuals; every other name is
/// unsupported.
pub proof fn lemma_reconciliation_names()
    ensures
        forall|l: Option<usize>, v: bool, s: bool| #[trigger] reconciliation_of("bottom_up"@, l, v, s) == Ok::<ReconciliationChoice, ReconciliationError>(ReconciliationChoice::BottomUp),
        forall|l: Option<usize>, v: bool, s: bool| #[trigger] reconciliation_of("top_down"@, l, v, s) == Ok::<ReconciliationChoice, ReconciliationError>(ReconciliationChoice::TopDown),
        forall|l: usize, v: bool, s: bool| #[trigger] reconciliation_of("middle_out"@, Some(l), v, s) == Ok::<ReconciliationChoice, ReconciliationError>(ReconciliationChoice::MiddleOut { level: l }),
        forall|v: bool, s: bool| #[trigger] reconciliation_of("middle_out"@, None, v, s) == Err::<ReconciliationChoice, ReconciliationError>(ReconciliationError::LevelRequired),
        forall|l: Option<usize>, v: bool, s: bool| #[trigger] reconciliation_of("ols"@, l, v, s) == Ok::<ReconciliationChoice, ReconciliationError>(ReconciliationChoice::Ols),
        forall|l: Option<usize>, v: bool, s: bool| #[trigger] reconciliation_of("wls"@, l, v, s) == if v { Ok::<ReconciliationChoice, ReconciliationError>(ReconciliationChoice::Wls) } else { Err::<ReconciliationChoice, ReconciliationError>(ReconciliationError::VariancesRequired) },
        forall|l: Option<usize>, v: bool, s: bool| #[trigger] reconciliation_of("mint"@, l, v, s) == if s { Ok::<ReconciliationChoice, ReconciliationError>(ReconciliationChoice::MinTrace) } else { Err::<ReconciliationChoice, ReconciliationError>(ReconciliationError::ResidualsRequired) },
        forall|l: Option<usize>, v: bool, s: bool| #[trigger] reconciliation_of("min_trace"@, l, v, s) == if s { Ok::<ReconciliationChoice, ReconciliationError>(ReconciliationChoice::MinTrace) } else { Err::<ReconciliationChoice, ReconciliationError>(ReconciliationError::ResidualsRequired) },
        forall|name: Seq<char>, l: Option<usize>, v: bool, s: bool| !(name == "bottom_up"@ || name == "top_down"@ || name == "middle_out"@ || name == "ols"@ || name == "wls"@ || name == "mint"@ || name == "min_trace"@) ==> #[trigger] reconciliation_of(name, l, v, s) == Err::<ReconciliationChoice, ReconciliationError>(ReconciliationError::Unsupported),
{
    reveal_strlit("bottom_up");
    reveal_strlit("top_down");
    reveal_strlit("middle_out");
    reveal_strlit("ols");
    reveal_strlit("wls");
    reveal_strlit("mint");
    reveal_strlit("min_trace");
    assert("bottom_up"@.len() == 9);
    assert("top_down"@.len() == 8);
    assert("middle_out"@.len() == 10);
    assert("ols"@.len() == 3);
    assert("wls"@.len() == 3);
    assert("mint"@.len() == 4);
    assert("min_trace"@.len() == 9);
    assert("bottom_up"@[0] == 'b');
    assert("min_trace"@[0] == 'm');
    assert("ols"@[0] == 'o');
    assert("wls"@[0] == 'w');
}

/// An integer parameter that is missing or `null` has no value, a
/// non-negative integer that fits a `usize` is that value, a larger one is
/// too large and anything else is not an integer; no parameters at all give
/// no value for any name.
pub proof fn lemma_integer_param_values()
    ensures
        integer_param_value(IntegerParamEntry::Missing) == Ok::<Option<usize>, IntegerParamError>(None),
        integer_param_value(IntegerParamEntry::Null) == Ok::<Option<usize>, IntegerParamError>(None),
        forall|raw: u64| raw <= usize::MAX ==> #[trigger] integer_param_value(IntegerParamEntry::Unsigned(raw))
            == Ok::<Option<usize>, IntegerParamError>(Some(raw as usize)),
        forall|raw: u64| raw > usize::MAX ==> #[trigger] integer_param_value(IntegerParamEntry::Unsigned(raw))
            == Err::<Option<usize>, IntegerParamError>(IntegerParamError::TooLarge),
        integer_param_value(IntegerParamEntry::NotUnsigned) == Err::<Option<usize>, IntegerParamError>(
            IntegerParamError::NotNonNegativeInteger,
        ),
        forall|name: Seq<char>| #[trigger] json_param_value(None, name) == Some(
            Ok::<Option<usize>, IntegerParamError>(None),
        ),
{
}

} // verus!
