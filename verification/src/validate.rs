use vstd::prelude::*;

use crate::model_options::{classification_objective_of, parse_classification_objective, ClassificationObjective};

verus! {

/// A configuration value that is out of bounds.
#[derive(Clone, Copy, Debug, PartialEq, Eq, Structural)]
pub enum ConfigError {
    /// A thread count of zero.
    ZeroThreads,
    /// A split-candidate limit of zero.
    ZeroSplitCandidates,
    /// A fit horizon of zero.
    ZeroFitHorizon,
    /// A booster with no estimators.
    ZeroEstimators,
    /// A leaf size of zero.
    ZeroMinSamplesLeaf,
    /// A number of timestamps that differs from the horizon.
    TimestampCountMismatch { count: usize, horizon: usize },
}

/// A thread count, when one is given, must be positive.
pub fn validate_n_threads(n_threads: Option<usize>) -> (r: Result<(), ConfigError>)
    ensures
        r is Err <==> n_threads == Some(0usize),
        r is Err ==> r == Err::<(), ConfigError>(ConfigError::ZeroThreads),
{
    match n_threads {
        Some(0) => Err(ConfigError::ZeroThreads),
        _ => Ok(()),
    }
}

/// A limit on split candidates, when one is given, must be positive.
pub fn validate_max_split_candidates(limit: Option<usize>) -> (r: Result<(), ConfigError>)
    ensures
        r is Err <==> limit == Some(0usize),
        r is Err ==> r == Err::<(), ConfigError>(ConfigError::ZeroSplitCandidates),
{
    match limit {
        Some(0) => Err(ConfigError::ZeroSplitCandidates),
        _ => Ok(()),
    }
}

/// A direct or rectified forecaster's fit horizon must be positive.
pub fn validate_fit_horizon(fit_horizon: usize) -> (r: Result<(), ConfigError>)
    ensures
        r is Err <==> fit_horizon == 0,
        r is Err ==> r == Err::<(), ConfigError>(ConfigError::ZeroFitHorizon),
{
    if fit_horizon == 0 {
        Err(ConfigError::ZeroFitHorizon)
    } else {
        Ok(())
    }
}

/// A booster needs at least one estimator.
pub fn validate_estimator_count(n_estimators: usize) -> (r: Result<(), ConfigError>)
    ensures
        r is Err <==> n_estimators == 0,
        r is Err ==> r == Err::<(), ConfigError>(ConfigError::ZeroEstimators),
{
    if n_estimators == 0 {
        Err(ConfigError::ZeroEstimators)
    } else {
        Ok(())
    }
}

/// A leaf needs at least one sample.
pub fn validate_min_samples_leaf(min_samples_leaf: usize) -> (r: Result<(), ConfigError>)
    ensures
        r is Err <==> min_samples_leaf == 0,
        r is Err ==> r == Err::<(), ConfigError>(ConfigError::ZeroMinSamplesLeaf),
{
    if min_samples_leaf == 0 {
        Err(ConfigError::ZeroMinSamplesLeaf)
    } else {
        Ok(())
    }
}

/// Where the timestamps of a piecewise forecast come from.
#[derive(Clone, Copy, Debug, PartialEq, Eq, Structural)]
pub enum TimestampSchedule {
    /// The steps after the last observation, as many as the horizon.
    Horizon,
    /// One list of timestamps shared by every series.
    Shared,
    /// A list of timestamps for each series.
    BySeries,
}

/// Both shared and per-series timestamps were given.
#[derive(Clone, Copy, Debug, PartialEq, Eq, Structural)]
pub struct ConflictingSchedules;

/// Chooses the timestamps of a forecast from which lists were given: shared
/// timestamps and per-series timestamps exclude each other.
pub fn choose_timestamp_schedule(has_shared: bool, has_by_series: bool) -> (r: Result<
    TimestampSchedule,
    ConflictingSchedules,
>)
    ensures
        r == (if has_shared && has_by_series {
            Err::<TimestampSchedule, ConflictingSchedules>(ConflictingSchedules)
        } else if has_shared {
            Ok(TimestampSchedule::Shared)
        } else if has_by_series {
            Ok(TimestampSchedule::BySeries)
        } else {
            Ok(TimestampSchedule::Horizon)
        }),
{
    if has_shared && has_by_series {
        Err(ConflictingSchedules)
    } else if has_shared {
        Ok(TimestampSchedule::Shared)
    } else if has_by_series {
        Ok(TimestampSchedule::BySeries)
    } else {
        Ok(TimestampSchedule::Horizon)
    }
}

/// Future timestamps must number exactly the horizon.
pub fn validate_future_timestamp_count(count: usize, horizon: usize) -> (r: Result<(), ConfigError>)
    ensures
        r is Ok <==> count == horizon,
        r is Err ==> r == Err::<(), ConfigError>(ConfigError::TimestampCountMismatch { count, horizon }),
{
    if count != horizon {
        Err(ConfigError::TimestampCountMismatch { count, horizon })
    } else {
        Ok(())
    }
}

// ---------------------------------------------------------------------------
// Classifier set-up
// ---------------------------------------------------------------------------

/// Why a classifier's class set-up was refused.
#[derive(Clone, Debug)]
pub enum ClassSetupError {
    /// Fewer than two classes.
    TooFewClasses,
    /// The objective is not a classification objective.
    UnknownObjective,
    /// Class weights were given, but not one per class.
    ClassWeightCount { given: usize, class_count: usize },
}

/// Checks a classifier's classes, in order: at least two classes, a known
/// objective, and either no class weights or one per class. Gives the
/// objective that the classes select.
pub fn validate_class_setup(class_count: usize, objective: &str, class_weight_count: usize) -> (r:
    Result<ClassificationObjective, ClassSetupError>)
    ensures
        class_count < 2 ==> r matches Err(ClassSetupError::TooFewClasses),
        class_count >= 2 && classification_objective_of(objective@, class_count) is None ==> r matches Err(
            ClassSetupError::UnknownObjective,
        ),
        class_count >= 2 && classification_objective_of(objective@, class_count) is Some && (
        class_weight_count != 0 && class_weight_count != class_count) ==> (r matches Err(
            ClassSetupError::ClassWeightCount { given, class_count: count },
        ) && given == class_weight_count && count == class_count),
        class_count >= 2 && (class_weight_count == 0 || class_weight_count == class_count) ==> (
        match classification_objective_of(objective@, class_count) {
            Some(chosen) => r matches Ok(o) && o == chosen,
            None => r is Err,
        }),
{
    if class_count < 2 {
        return Err(ClassSetupError::TooFewClasses);
    }
    let chosen = match parse_classification_objective(objective, class_count) {
        Ok(o) => o,
        Err(_) => {
            return Err(ClassSetupError::UnknownObjective);
        },
    };
    if class_weight_count != 0 && class_weight_count != class_count {
        return Err(ClassSetupError::ClassWeightCount { given: class_weight_count, class_count });
    }
    Ok(chosen)
}

// ---------------------------------------------------------------------------
// Graph leaf smoothing
// ---------------------------------------------------------------------------

/// Why the parts of a leaf-smoothing graph were refused.
#[derive(Clone, Copy, Debug, PartialEq, Eq, Structural)]
pub enum GraphPartsError {
    /// Some but not all of offsets, indices and weights were given.
    PartialGraph,
    /// A graph was given with zero smoothing iterations.
    ZeroIterations,
    /// The offsets are empty, so there is no node count.
    NoOffsets,
}

/// The node count of a compressed graph whose offsets, indices and weights
/// are all given or all absent. Given the lengths of the parts that are
/// present, gives `None` for no graph and the node count (one less than the
/// number of offsets) for a graph.
pub fn graph_node_count(
    offsets_len: Option<usize>,
    has_indices: bool,
    has_weights: bool,
    iterations: usize,
) -> (r: Result<Option<usize>, GraphPartsError>)
    ensures
        (offsets_len is None && !has_indices && !has_weights) ==> r == Ok::<
            Option<usize>,
            GraphPartsError,
        >(None),
        (offsets_len is Some && has_indices && has_weights) ==> if iterations == 0 {
            r == Err::<Option<usize>, GraphPartsError>(GraphPartsError::ZeroIterations)
        } else if offsets_len == Some(0usize) {
            r == Err::<Option<usize>, GraphPartsError>(GraphPartsError::NoOffsets)
        } else {
            r == Ok::<Option<usize>, GraphPartsError>(Some((offsets_len->0 - 1) as usize))
        },
        !(offsets_len is None && !has_indices && !has_weights) && !(offsets_len is Some
            && has_indices && has_weights) ==> r == Err::<Option<usize>, GraphPartsError>(
            GraphPartsError::PartialGraph,
        ),
{
    match offsets_len {
        None => {
            if !has_indices && !has_weights {
                Ok(None)
            } else {
                Err(GraphPartsError::PartialGraph)
            }
        },
        Some(len) => {
            if !(has_indices && has_weights) {
                return Err(GraphPartsError::PartialGraph);
            }
            if iterations == 0 {
                return Err(GraphPartsError::ZeroIterations);
            }
            if len == 0 {
                Err(GraphPartsError::NoOffsets)
            } else {
                Ok(Some(len - 1))
            }
        },
    }
}

/// Two options that must be given together or not at all.
#[derive(Clone, Copy, Debug, PartialEq, Eq, Structural)]
pub struct MissingPartner;

/// Pairs two options that must be given together: both give the pair,
/// neither gives nothing, one alone is an error.
pub fn pair_together<A: Copy, B: Copy>(first: Option<A>, second: Option<B>) -> (r: Result<
    Option<(A, B)>,
    MissingPartner,
>)
    ensures
        match (first, second) {
            (Some(a), Some(b)) => r == Ok::<Option<(A, B)>, MissingPartner>(Some((a, b))),
            (None, None) => r == Ok::<Option<(A, B)>, MissingPartner>(None),
            _ => r is Err,
        },
{
    match (first, second) {
        (Some(a), Some(b)) => Ok(Some((a, b))),
        (None, None) => Ok(None),
        _ => Err(MissingPartner),
    }
}

// ---------------------------------------------------------------------------
// Forecast frame rows
// ---------------------------------------------------------------------------

/// Why the per-row extras of a forecast frame were refused.
#[derive(Clone, Copy, Debug, PartialEq, Eq, Structural)]
pub enum FrameRowsError {
    /// Row covariates were given, but not one per row.
    CovariateCountMismatch,
    /// Sample weights were given without row covariates.
    WeightsNeedCovariates,
}

/// Checks the per-row extras of a forecast frame: covariates, when given,
/// number one per row; weights need covariates.
pub fn validate_frame_rows(row_count: usize, covariate_count: Option<usize>, has_weights: bool) -> (r:
    Result<(), FrameRowsError>)
    ensures
        match covariate_count {
            Some(count) => if count != row_count {
                r == Err::<(), FrameRowsError>(FrameRowsError::CovariateCountMismatch)
            } else {
                r is Ok
            },
            None => if has_weights {
                r == Err::<(), FrameRowsError>(FrameRowsError::WeightsNeedCovariates)
            } else {
                r is Ok
            },
        },
{
    match covariate_count {
        Some(count) => {
            if count != row_count {
                Err(FrameRowsError::CovariateCountMismatch)
            } else {
                Ok(())
            }
        },
        None => {
            if has_weights {
                Err(FrameRowsError::WeightsNeedCovariates)
            } else {
                Ok(())
            }
        },
    }
}

/// Why a feature matrix was refused for its shape.
#[derive(Clone, Copy, Debug, PartialEq, Eq, Structural)]
pub enum FeatureRowsError {
    /// There are no rows.
    NoRows,
    /// The first row has no features.
    NoFeatures,
}

/// A feature matrix needs a row, and its first row a feature.
pub fn validate_feature_rows<T>(rows: &Vec<Vec<T>>) -> (r: Result<(), FeatureRowsError>)
    ensures
        rows@.len() == 0 ==> r == Err::<(), FeatureRowsError>(FeatureRowsError::NoRows),
        rows@.len() > 0 && rows@[0]@.len() == 0 ==> r == Err::<(), FeatureRowsError>(
            FeatureRowsError::NoFeatures,
        ),
        rows@.len() > 0 && rows@[0]@.len() > 0 ==> r is Ok,
{
    if rows.len() == 0 {
        return Err(FeatureRowsError::NoRows);
    }
    if rows[0].len() == 0 {
        return Err(FeatureRowsError::NoFeatures);
    }
    Ok(())
}

} // verus!
