use vstd::prelude::*;

use crate::text::{chars_equal, parsed, str_chars, UnknownName};

verus! {

// ---------------------------------------------------------------------------
// Leaf predictor
// ---------------------------------------------------------------------------

/// How a boosted tree's leaf predicts.
#[derive(Clone, Copy, Debug, PartialEq, Eq, Structural)]
pub enum LeafPredictorKind {
    Constant,
    Linear,
}

/// The leaf predictor that `name` selects.
pub open spec fn leaf_predictor_of(name: Seq<char>) -> Option<LeafPredictorKind> {
    if name == "constant"@ {
        Some(LeafPredictorKind::Constant)
    } else if name == "linear"@ {
        Some(LeafPredictorKind::Linear)
    } else {
        None
    }
}

/// The canonical name of a leaf predictor.
pub open spec fn leaf_predictor_text(kind: LeafPredictorKind) -> Seq<char> {
    match kind {
        LeafPredictorKind::Constant => "constant"@,
        LeafPredictorKind::Linear => "linear"@,
    }
}

/// Reads a leaf predictor name: `constant` or `linear`.
pub fn parse_leaf_predictor(name: &str) -> (r: Result<LeafPredictorKind, UnknownName>)
    ensures
        parsed(r, leaf_predictor_of(name@), name@),
{
    let v = str_chars(name);
    if chars_equal(&v, "constant") {
        Ok(LeafPredictorKind::Constant)
    } else if chars_equal(&v, "linear") {
        Ok(LeafPredictorKind::Linear)
    } else {
        Err(UnknownName { name: name.to_owned() })
    }
}

/// The canonical name of a leaf predictor.
pub fn leaf_predictor_name(kind: LeafPredictorKind) -> (r: &'static str)
    ensures
        r@ == leaf_predictor_text(kind),
{
    match kind {
        LeafPredictorKind::Constant => "constant",
        LeafPredictorKind::Linear => "linear",
    }
}

/// Reading the name of a leaf predictor gives that predictor back.
pub proof fn lemma_leaf_predictor_round_trip(kind: LeafPredictorKind)
    ensures
        leaf_predictor_of(leaf_predictor_text(kind)) == Some(kind),
{
    reveal_strlit("constant");
    reveal_strlit("linear");
    assert("constant"@.len() == 8);
    assert("linear"@.len() == 6);
}

// ---------------------------------------------------------------------------
// Fuzzy split kernel
// ---------------------------------------------------------------------------

/// The kernel that weighs samples near a fuzzy split.
#[derive(Clone, Copy, Debug, PartialEq, Eq, Structural)]
pub enum FuzzyKernel {
    Linear,
    Gaussian,
    Exponential,
    Bisquare,
    Epanechnikov,
    Tricube,
}

/// The fuzzy kernel that `name` selects; `triangular` is another name of the
/// linear kernel.
pub open spec fn fuzzy_kernel_of(name: Seq<char>) -> Option<FuzzyKernel> {
    if name == "linear"@ || name == "triangular"@ {
        Some(FuzzyKernel::Linear)
    } else if name == "gaussian"@ {
        Some(FuzzyKernel::Gaussian)
    } else if name == "exponential"@ {
        Some(FuzzyKernel::Exponential)
    } else if name == "bisquare"@ {
        Some(FuzzyKernel::Bisquare)
    } else if name == "epanechnikov"@ {
        Some(FuzzyKernel::Epanechnikov)
    } else if name == "tricube"@ {
        Some(FuzzyKernel::Tricube)
    } else {
        None
    }
}

/// The canonical name of a fuzzy kernel.
pub open spec fn fuzzy_kernel_text(kernel: FuzzyKernel) -> Seq<char> {
    match kernel {
        FuzzyKernel::Linear => "linear"@,
        FuzzyKernel::Gaussian => "gaussian"@,
        FuzzyKernel::Exponential => "exponential"@,
        FuzzyKernel::Bisquare => "bisquare"@,
        FuzzyKernel::Epanechnikov => "epanechnikov"@,
        FuzzyKernel::Tricube => "tricube"@,
    }
}

/// Reads a fuzzy kernel name.
pub fn parse_fuzzy_kernel(name: &str) -> (r: Result<FuzzyKernel, UnknownName>)
    ensures
        parsed(r, fuzzy_kernel_of(name@), name@),
{
    let v = str_chars(name);
    if chars_equal(&v, "linear") || chars_equal(&v, "triangular") {
        Ok(FuzzyKernel::Linear)
    } else if chars_equal(&v, "gaussian") {
        Ok(FuzzyKernel::Gaussian)
    } else if chars_equal(&v, "exponential") {
        Ok(FuzzyKernel::Exponential)
    } else if chars_equal(&v, "bisquare") {
        Ok(FuzzyKernel::Bisquare)
    } else if chars_equal(&v, "epanechnikov") {
        Ok(FuzzyKernel::Epanechnikov)
    } else if chars_equal(&v, "tricube") {
        Ok(FuzzyKernel::Tricube)
    } else {
        Err(UnknownName { name: name.to_owned() })
    }
}

/// The canonical name of a fuzzy kernel.
pub fn fuzzy_kernel_name(kernel: FuzzyKernel) -> (r: &'static str)
    ensures
        r@ == fuzzy_kernel_text(kernel),
{
    match kernel {
        FuzzyKernel::Linear => "linear",
        FuzzyKernel::Gaussian => "gaussian",
        FuzzyKernel::Exponential => "exponential",
        FuzzyKernel::Bisquare => "bisquare",
        FuzzyKernel::Epanechnikov => "epanechnikov",
        FuzzyKernel::Tricube => "tricube",
    }
}

/// Reading the name of a fuzzy kernel gives that kernel back.
pub proof fn lemma_fuzzy_kernel_round_trip(kernel: FuzzyKernel)
    ensures
        fuzzy_kernel_of(fuzzy_kernel_text(kernel)) == Some(kernel),
{
    reveal_strlit("linear");
    reveal_strlit("triangular");
    reveal_strlit("gaussian");
    reveal_strlit("exponential");
    reveal_strlit("bisquare");
    reveal_strlit("epanechnikov");
    reveal_strlit("tricube");
    assert("linear"@.len() == 6);
    assert("triangular"@.len() == 10);
    assert("gaussian"@.len() == 8);
    assert("exponential"@.len() == 11);
    assert("bisquare"@.len() == 8);
    assert("epanechnikov"@.len() == 12);
    assert("tricube"@.len() == 7);
    assert("bisquare"@[0] == 'b');
    assert("gaussian"@[0] == 'g');
}

// ---------------------------------------------------------------------------
// Classification objective
// ---------------------------------------------------------------------------

/// The loss a classifier is boosted on.
#[derive(Clone, Copy, Debug, PartialEq, Eq, Structural)]
pub enum ClassificationObjective {
    BinaryLogLoss,
    MulticlassLogLoss,
}

/// The objective that `name` selects for `class_count` classes: `auto` is the
/// binary loss for two classes and the multiclass loss otherwise.
pub open spec fn classification_objective_of(name: Seq<char>, class_count: usize) -> Option<
    ClassificationObjective,
> {
    if name == "auto"@ {
        if class_count == 2 {
            Some(ClassificationObjective::BinaryLogLoss)
        } else {
            Some(ClassificationObjective::MulticlassLogLoss)
        }
    } else if name == "binary_logloss"@ || name == "logloss"@ || name == "binary"@ {
        Some(ClassificationObjective::BinaryLogLoss)
    } else if name == "multiclass_logloss"@ || name == "multi_logloss"@ || name == "multiclass"@ {
        Some(ClassificationObjective::MulticlassLogLoss)
    } else {
        None
    }
}

/// The canonical name of a classification objective.
pub open spec fn classification_objective_text(objective: ClassificationObjective) -> Seq<char> {
    match objective {
        ClassificationObjective::BinaryLogLoss => "binary_logloss"@,
        ClassificationObjective::MulticlassLogLoss => "multiclass_logloss"@,
    }
}

/// Reads a classification objective for `class_count` classes.
pub fn parse_classification_objective(name: &str, class_count: usize) -> (r: Result<
    ClassificationObjective,
    UnknownName,
>)
    ensures
        parsed(r, classification_objective_of(name@, class_count), name@),
{
    let v = str_chars(name);
    if chars_equal(&v, "auto") {
        if class_count == 2 {
            Ok(ClassificationObjective::BinaryLogLoss)
        } else {
            Ok(ClassificationObjective::MulticlassLogLoss)
        }
    } else if chars_equal(&v, "binary_logloss") || chars_equal(&v, "logloss") || chars_equal(
        &v,
        "binary",
    ) {
        Ok(ClassificationObjective::BinaryLogLoss)
    } else if chars_equal(&v, "multiclass_logloss") || chars_equal(&v, "multi_logloss")
        || chars_equal(&v, "multiclass") {
        Ok(ClassificationObjective::MulticlassLogLoss)
    } else {
        Err(UnknownName { name: name.to_owned() })
    }
}

/// The canonical name of a classification objective.
pub fn classification_objective_name(objective: ClassificationObjective) -> (r: &'static str)
    ensures
        r@ == classification_objective_text(objective),
{
    match objective {
        ClassificationObjective::BinaryLogLoss => "binary_logloss",
        ClassificationObjective::MulticlassLogLoss => "multiclass_logloss",
    }
}

/// Reading the name of an objective gives that objective back, whatever the
/// number of classes.
pub proof fn lemma_classification_objective_round_trip(
    objective: ClassificationObjective,
    class_count: usize,
)
    ensures
        classification_objective_of(classification_objective_text(objective), class_count)
            == Some(objective),
{
    reveal_strlit("auto");
    reveal_strlit("binary_logloss");
    reveal_strlit("logloss");
    reveal_strlit("binary");
    reveal_strlit("multiclass_logloss");
    reveal_strlit("multi_logloss");
    reveal_strlit("multiclass");
    assert("auto"@.len() == 4);
    assert("binary_logloss"@.len() == 14);
    assert("logloss"@.len() == 7);
    assert("binary"@.len() == 6);
    assert("multiclass_logloss"@.len() == 18);
    assert("multi_logloss"@.len() == 13);
    assert("multiclass"@.len() == 10);
}

// ---------------------------------------------------------------------------
// Ranking objective
// ---------------------------------------------------------------------------

/// The loss a ranker is boosted on.
#[derive(Clone, Copy, Debug, PartialEq, Eq, Structural)]
pub enum RankingObjective {
    PairwiseLogit,
    LambdaRank,
}

/// The ranking objective that `name` selects.
pub open spec fn ranking_objective_of(name: Seq<char>) -> Option<RankingObjective> {
    if name == "pairwise_logit"@ || name == "pairwise"@ {
        Some(RankingObjective::PairwiseLogit)
    } else if name == "lambdarank"@ || name == "lambda_rank"@ {
        Some(RankingObjective::LambdaRank)
    } else {
        None
    }
}

/// The canonical name of a ranking objective.
pub open spec fn ranking_objective_text(objective: RankingObjective) -> Seq<char> {
    match objective {
        RankingObjective::PairwiseLogit => "pairwise_logit"@,
        RankingObjective::LambdaRank => "lambdarank"@,
    }
}

/// Reads a ranking objective name.
pub fn parse_ranking_objective(name: &str) -> (r: Result<RankingObjective, UnknownName>)
    ensures
        parsed(r, ranking_objective_of(name@), name@),
{
    let v = str_chars(name);
    if chars_equal(&v, "pairwise_logit") || chars_equal(&v, "pairwise") {
        Ok(RankingObjective::PairwiseLogit)
    } else if chars_equal(&v, "lambdarank") || chars_equal(&v, "lambda_rank") {
        Ok(RankingObjective::LambdaRank)
    } else {
        Err(UnknownName { name: name.to_owned() })
    }
}

/// The canonical name of a ranking objective.
pub fn ranking_objective_name(objective: RankingObjective) -> (r: &'static str)
    ensures
        r@ == ranking_objective_text(objective),
{
    match objective {
        RankingObjective::PairwiseLogit => "pairwise_logit",
        RankingObjective::LambdaRank => "lambdarank",
    }
}

/// Reading the name of a ranking objective gives it back.
pub proof fn lemma_ranking_objective_round_trip(objective: RankingObjective)
    ensures
        ranking_objective_of(ranking_objective_text(objective)) == Some(objective),
{
    reveal_strlit("pairwise_logit");
    reveal_strlit("pairwise");
    reveal_strlit("lambdarank");
    reveal_strlit("lambda_rank");
    assert("pairwise_logit"@.len() == 14);
    assert("pairwise"@.len() == 8);
    assert("lambdarank"@.len() == 10);
    assert("lambda_rank"@.len() == 11);
}

// ---------------------------------------------------------------------------
// Regression loss
// ---------------------------------------------------------------------------

/// The family of a regression loss; its numeric parameters (the quantile,
/// the Huber delta, the log offset) travel beside it.
#[derive(Clone, Copy, Debug, PartialEq, Eq, Structural)]
pub enum LossKind {
    L2,
    L1,
    Huber,
    LogL2,
    Quantile,
}

/// The loss family that `name` selects.
pub open spec fn loss_kind_of(name: Seq<char>) -> Option<LossKind> {
    if name == "l2"@ || name == "squared_error"@ {
        Some(LossKind::L2)
    } else if name == "l1"@ || name == "mae"@ || name == "absolute_error"@ || name
        == "least_absolute_deviation"@ || name == "lad"@ {
        Some(LossKind::L1)
    } else if name == "huber"@ {
        Some(LossKind::Huber)
    } else if name == "log_l2"@ || name == "log"@ || name == "log_squared_error"@ {
        Some(LossKind::LogL2)
    } else if name == "quantile"@ || name == "pinball"@ {
        Some(LossKind::Quantile)
    } else {
        None
    }
}

/// The canonical name of a loss family.
pub open spec fn loss_kind_text(kind: LossKind) -> Seq<char> {
    match kind {
        LossKind::L2 => "l2"@,
        LossKind::L1 => "l1"@,
        LossKind::Huber => "huber"@,
        LossKind::LogL2 => "log_l2"@,
        LossKind::Quantile => "quantile"@,
    }
}

/// Reads a loss name.
pub fn parse_loss_kind(name: &str) -> (r: Result<LossKind, UnknownName>)
    ensures
        parsed(r, loss_kind_of(name@), name@),
{
    let v = str_chars(name);
    if chars_equal(&v, "l2") || chars_equal(&v, "squared_error") {
        Ok(LossKind::L2)
    } else if chars_equal(&v, "l1") || chars_equal(&v, "mae") || chars_equal(&v, "absolute_error")
        || chars_equal(&v, "least_absolute_deviation") || chars_equal(&v, "lad") {
        Ok(LossKind::L1)
    } else if chars_equal(&v, "huber") {
        Ok(LossKind::Huber)
    } else if chars_equal(&v, "log_l2") || chars_equal(&v, "log") || chars_equal(
        &v,
        "log_squared_error",
    ) {
        Ok(LossKind::LogL2)
    } else if chars_equal(&v, "quantile") || chars_equal(&v, "pinball") {
        Ok(LossKind::Quantile)
    } else {
        Err(UnknownName { name: name.to_owned() })
    }
}

/// The canonical name of a loss family.
pub fn loss_name(kind: LossKind) -> (r: &'static str)
    ensures
        r@ == loss_kind_text(kind),
{
    match kind {
        LossKind::L2 => "l2",
        LossKind::L1 => "l1",
        LossKind::Huber => "huber",
        LossKind::LogL2 => "log_l2",
        LossKind::Quantile => "quantile",
    }
}

/// Reading the name of a loss family gives it back.
pub proof fn lemma_loss_kind_round_trip(kind: LossKind)
    ensures
        loss_kind_of(loss_kind_text(kind)) == Some(kind),
{
    reveal_strlit("l2");
    reveal_strlit("squared_error");
    reveal_strlit("l1");
    reveal_strlit("mae");
    reveal_strlit("absolute_error");
    reveal_strlit("least_absolute_deviation");
    reveal_strlit("lad");
    reveal_strlit("huber");
    reveal_strlit("log_l2");
    reveal_strlit("log");
    reveal_strlit("log_squared_error");
    reveal_strlit("quantile");
    reveal_strlit("pinball");
    assert("l2"@.len() == 2);
    assert("squared_error"@.len() == 13);
    assert("l1"@.len() == 2);
    assert("mae"@.len() == 3);
    assert("absolute_error"@.len() == 14);
    assert("least_absolute_deviation"@.len() == 24);
    assert("lad"@.len() == 3);
    assert("huber"@.len() == 5);
    assert("log_l2"@.len() == 6);
    assert("log"@.len() == 3);
    assert("log_squared_error"@.len() == 17);
    assert("quantile"@.len() == 8);
    assert("pinball"@.len() == 7);
    assert("l1"@[1] == '1');
    assert("l2"@[1] == '2');
    assert("lad"@[0] == 'l');
    assert("lad"@[1] == 'a');
    assert("log"@[0] == 'l');
    assert("log"@[1] == 'o');
    assert("mae"@[0] == 'm');
}

// ---------------------------------------------------------------------------
// Embedding fallback
// ---------------------------------------------------------------------------

/// What an embedding lookup gives for a cell that has no learned vector.
#[derive(Clone, Copy, Debug, PartialEq, Eq, Structural)]
pub enum EmbeddingFallback {
    ZeroVector,
    GlobalMeanVector,
    ParentCell { parent_resolution: u8 },
}

/// Why an embedding fallback could not be read.
#[derive(Clone, Copy, Debug, PartialEq, Eq, Structural)]
pub enum EmbeddingFallbackError {
    /// The name is none of `zero_vector`, `global_mean_vector`, `parent_cell`.
    UnknownName,
    /// `parent_cell` was asked for without a parent resolution.
    ParentResolutionRequired,
}

/// What reading the fallback `name` with `parent_resolution` gives.
pub open spec fn embedding_fallback_of(name: Seq<char>, parent_resolution: Option<u8>) -> Result<
    EmbeddingFallback,
    EmbeddingFallbackError,
> {
    if name == "zero_vector"@ {
        Ok(EmbeddingFallback::ZeroVector)
    } else if name == "global_mean_vector"@ {
        Ok(EmbeddingFallback::GlobalMeanVector)
    } else if name == "parent_cell"@ {
        match parent_resolution {
            Some(level) => Ok(EmbeddingFallback::ParentCell { parent_resolution: level }),
            None => Err(EmbeddingFallbackError::ParentResolutionRequired),
        }
    } else {
        Err(EmbeddingFallbackError::UnknownName)
    }
}

/// The name of a fallback.
pub open spec fn embedding_fallback_text(fallback: EmbeddingFallback) -> Seq<char> {
    match fallback {
        EmbeddingFallback::ZeroVector => "zero_vector"@,
        EmbeddingFallback::GlobalMeanVector => "global_mean_vector"@,
        EmbeddingFallback::ParentCell { .. } => "parent_cell"@,
    }
}

/// The parent resolution a fallback carries, if any.
pub open spec fn embedding_fallback_resolution(fallback: EmbeddingFallback) -> Option<u8> {
    match fallback {
        EmbeddingFallback::ParentCell { parent_resolution } => Some(parent_resolution),
        _ => None,
    }
}

/// Reads an embedding fallback; `parent_cell` takes `parent_resolution`,
/// which it requires.
pub fn parse_embedding_fallback(value: &str, parent_resolution: Option<u8>) -> (r: Result<
    EmbeddingFallback,
    EmbeddingFallbackError,
>)
    ensures
        r == embedding_fallback_of(value@, parent_resolution),
{
    let v = str_chars(value);
    if chars_equal(&v, "zero_vector") {
        Ok(EmbeddingFallback::ZeroVector)
    } else if chars_equal(&v, "global_mean_vector") {
        Ok(EmbeddingFallback::GlobalMeanVector)
    } else if chars_equal(&v, "parent_cell") {
        match parent_resolution {
            Some(level) => Ok(EmbeddingFallback::ParentCell { parent_resolution: level }),
            None => Err(EmbeddingFallbackError::ParentResolutionRequired),
        }
    } else {
        Err(EmbeddingFallbackError::UnknownName)
    }
}

/// The name of a fallback.
pub fn artifact_fallback_name(fallback: EmbeddingFallback) -> (r: &'static str)
    ensures
        r@ == embedding_fallback_text(fallback),
{
    match fallback {
        EmbeddingFallback::ZeroVector => "zero_vector",
        EmbeddingFallback::GlobalMeanVector => "global_mean_vector",
        EmbeddingFallback::ParentCell { .. } => "parent_cell",
    }
}

/// Reading the name of a fallback, with the parent resolution it carries,
/// gives that fallback back.
pub proof fn lemma_embedding_fallback_round_trip(fallback: EmbeddingFallback)
    ensures
        embedding_fallback_of(
            embedding_fallback_text(fallback),
            embedding_fallback_resolution(fallback),
        ) == Ok::<EmbeddingFallback, EmbeddingFallbackError>(fallback),
{
    reveal_strlit("zero_vector");
    reveal_strlit("global_mean_vector");
    reveal_strlit("parent_cell");
    assert("zero_vector"@.len() == 11);
    assert("global_mean_vector"@.len() == 18);
    assert("parent_cell"@.len() == 11);
    assert("parent_cell"@[0] == 'p');
    assert("zero_vector"@[0] == 'z');
}

// ---------------------------------------------------------------------------
// Portfolio side
// ---------------------------------------------------------------------------

/// The side of a portfolio decision.
#[derive(Clone, Copy, Debug, PartialEq, Eq, Structural)]
pub enum PortfolioSide {
    Long,
    Short,
}

/// The side that `name` selects.
pub open spec fn portfolio_side_of(name: Seq<char>) -> Option<PortfolioSide> {
    if name == "long"@ {
        Some(PortfolioSide::Long)
    } else if name == "short"@ {
        Some(PortfolioSide::Short)
    } else {
        None
    }
}

/// The name of a side.
pub open spec fn portfolio_side_text(side: PortfolioSide) -> Seq<char> {
    match side {
        PortfolioSide::Long => "long"@,
        PortfolioSide::Short => "short"@,
    }
}

/// Reads a portfolio side: `long` or `short`.
pub fn parse_portfolio_side(name: &str) -> (r: Result<PortfolioSide, UnknownName>)
    ensures
        parsed(r, portfolio_side_of(name@), name@),
{
    let v = str_chars(name);
    if chars_equal(&v, "long") {
        Ok(PortfolioSide::Long)
    } else if chars_equal(&v, "short") {
        Ok(PortfolioSide::Short)
    } else {
        Err(UnknownName { name: name.to_owned() })
    }
}

/// The name of a side.
pub fn portfolio_side_name(side: PortfolioSide) -> (r: &'static str)
    ensures
        r@ == portfolio_side_text(side),
{
    match side {
        PortfolioSide::Long => "long",
        PortfolioSide::Short => "short",
    }
}

/// Reading the name of a side gives it back.
pub proof fn lemma_portfolio_side_round_trip(side: PortfolioSide)
    ensures
        portfolio_side_of(portfolio_side_text(side)) == Some(side),
{
    reveal_strlit("long");
    reveal_strlit("short");
    assert("long"@.len() == 4);
    assert("short"@.len() == 5);
}

/// Each leaf predictor name selects its own predictor, and no other name selects one.
pub proof fn lemma_leaf_predictor_names()
    ensures
        leaf_predictor_of("constant"@) == Some(LeafPredictorKind::Constant),
        leaf_predictor_of("linear"@) == Some(LeafPredictorKind::Linear),
        forall|name: Seq<char>| #[trigger] leaf_predictor_of(name) is Some ==> (name == "constant"@ || name == "linear"@),
{
    reveal_strlit("constant");
    reveal_strlit("linear");
    assert("constant"@.len() == 8);
    assert("linear"@.len() == 6);
}

/// Each fuzzy kernel name, `triangular` among them, selects its own kernel, and no other name selects one.
pub proof fn lemma_fuzzy_kernel_names()
    ensures
        fuzzy_kernel_of("linear"@) == Some(FuzzyKernel::Linear),
        fuzzy_kernel_of("triangular"@) == Some(FuzzyKernel::Linear),
        fuzzy_kernel_of("gaussian"@) == Some(FuzzyKernel::Gaussian),
        fuzzy_kernel_of("exponential"@) == Some(FuzzyKernel::Exponential),
        fuzzy_kernel_of("bisquare"@) == Some(FuzzyKernel::Bisquare),
        fuzzy_kernel_of("epanechnikov"@) == Some(FuzzyKernel::Epanechnikov),
        fuzzy_kernel_of("tricube"@) == Some(FuzzyKernel::Tricube),
        forall|name: Seq<char>| #[trigger] fuzzy_kernel_of(name) is Some ==> (name == "linear"@ || name == "triangular"@ || name == "gaussian"@ || name == "exponential"@ || name == "bisquare"@ || name == "epanechnikov"@ || name == "tricube"@),
{
    reveal_strlit("linear");
    reveal_strlit("triangular");
    reveal_strlit("gaussian");
    reveal_strlit("exponential");
    reveal_strlit("bisquare");
    reveal_strlit("epanechnikov");
    reveal_strlit("tricube");
    assert("linear"@.len() == 6);
    assert("triangular"@.len() == 10);
    assert("gaussian"@.len() == 8);
    assert("exponential"@.len() == 11);
    assert("bisquare"@.len() == 8);
    assert("epanechnikov"@.len() == 12);
    assert("tricube"@.len() == 7);
    assert("bisquare"@[0] == 'b');
    assert("gaussian"@[0] == 'g');
}

/// Each ranking objective name selects its own objective, and no other name selects one.
pub proof fn lemma_ranking_objective_names()
    ensures
        ranking_objective_of("pairwise_logit"@) == Some(RankingObjective::PairwiseLogit),
        ranking_objective_of("pairwise"@) == Some(RankingObjective::PairwiseLogit),
        ranking_objective_of("lambdarank"@) == Some(RankingObjective::LambdaRank),
        ranking_objective_of("lambda_rank"@) == Some(RankingObjective::LambdaRank),
        forall|name: Seq<char>| #[trigger] ranking_objective_of(name) is Some ==> (name == "pairwise_logit"@ || name == "pairwise"@ || name == "lambdarank"@ || name == "lambda_rank"@),
{
    reveal_strlit("pairwise_logit");
    reveal_strlit("pairwise");
    reveal_strlit("lambdarank");
    reveal_strlit("lambda_rank");
    assert("pairwise_logit"@.len() == 14);
    assert("pairwise"@.len() == 8);
    assert("lambdarank"@.len() == 10);
    assert("lambda_rank"@.len() == 11);
}

/// Every name of a loss selects its own family (`l1`, `mae`, `absolute_error`, `least_absolute_deviation` and `lad` all select L1, and so on), and no other name selects one.
pub proof fn lemma_loss_kind_names()
    ensures
        loss_kind_of("l2"@) == Some(LossKind::L2),
        loss_kind_of("squared_error"@) == Some(LossKind::L2),
        loss_kind_of("l1"@) == Some(LossKind::L1),
        loss_kind_of("mae"@) == Some(LossKind::L1),
        loss_kind_of("absolute_error"@) == Some(LossKind::L1),
        loss_kind_of("least_absolute_deviation"@) == Some(LossKind::L1),
        loss_kind_of("lad"@) == Some(LossKind::L1),
        loss_kind_of("huber"@) == Some(LossKind::Huber),
        loss_kind_of("log_l2"@) == Some(LossKind::LogL2),
        loss_kind_of("log"@) == Some(LossKind::LogL2),
        loss_kind_of("log_squared_error"@) == Some(LossKind::LogL2),
        loss_kind_of("quantile"@) == Some(LossKind::Quantile),
        loss_kind_of("pinball"@) == Some(LossKind::Quantile),
        forall|name: Seq<char>| #[trigger] loss_kind_of(name) is Some ==> (name == "l2"@ || name == "squared_error"@ || name == "l1"@ || name == "mae"@ || name == "absolute_error"@ || name == "least_absolute_deviation"@ || name == "lad"@ || name == "huber"@ || name == "log_l2"@ || name == "log"@ || name == "log_squared_error"@ || name == "quantile"@ || name == "pinball"@),
{
    reveal_strlit("l2");
    reveal_strlit("squared_error");
    reveal_strlit("l1");
    reveal_strlit("mae");
    reveal_strlit("absolute_error");
    reveal_strlit("least_absolute_deviation");
    reveal_strlit("lad");
    reveal_strlit("huber");
    reveal_strlit("log_l2");
    reveal_strlit("log");
    reveal_strlit("log_squared_error");
    reveal_strlit("quantile");
    reveal_strlit("pinball");
    assert("l2"@.len() == 2);
    assert("squared_error"@.len() == 13);
    assert("l1"@.len() == 2);
    assert("mae"@.len() == 3);
    assert("absolute_error"@.len() == 14);
    assert("least_absolute_deviation"@.len() == 24);
    assert("lad"@.len() == 3);
    assert("huber"@.len() == 5);
    assert("log_l2"@.len() == 6);
    assert("log"@.len() == 3);
    assert("log_squared_error"@.len() == 17);
    assert("quantile"@.len() == 8);
    assert("pinball"@.len() == 7);
    assert("l1"@[1] == '1');
    assert("l2"@[1] == '2');
    assert("lad"@[0] == 'l');
    assert("lad"@[1] == 'a');
    assert("log"@[0] == 'l');
    assert("log"@[1] == 'o');
    assert("mae"@[0] == 'm');
}

/// `long` and `short` select the two sides, and no other name selects one.
pub proof fn lemma_portfolio_side_names()
    ensures
        portfolio_side_of("long"@) == Some(PortfolioSide::Long),
        portfolio_side_of("short"@) == Some(PortfolioSide::Short),
        forall|name: Seq<char>| #[trigger] portfolio_side_of(name) is Some ==> (name == "long"@ || name == "short"@),
{
    reveal_strlit("long");
    reveal_strlit("short");
    assert("long"@.len() == 4);
    assert("short"@.len() == 5);
}

/// `auto` selects the binary loss for exactly two classes and the multiclass
/// loss otherwise; every binary name selects the binary loss and every
/// multiclass name the multiclass loss, whatever the number of classes; no
/// other name selects an objective.
pub proof fn lemma_classification_objective_names()
    ensures
        forall|n: usize| #[trigger] classification_objective_of("auto"@, n) == Some(if n == 2 { ClassificationObjective::BinaryLogLoss } else { ClassificationObjective::MulticlassLogLoss }),
        forall|n: usize| #[trigger] classification_objective_of("binary_logloss"@, n) == Some(ClassificationObjective::BinaryLogLoss),
        forall|n: usize| #[trigger] classification_objective_of("logloss"@, n) == Some(ClassificationObjective::BinaryLogLoss),
        forall|n: usize| #[trigger] classification_objective_of("binary"@, n) == Some(ClassificationObjective::BinaryLogLoss),
        forall|n: usize| #[trigger] classification_objective_of("multiclass_logloss"@, n) == Some(ClassificationObjective::MulticlassLogLoss),
        forall|n: usize| #[trigger] classification_objective_of("multi_logloss"@, n) == Some(ClassificationObjective::MulticlassLogLoss),
        forall|n: usize| #[trigger] classification_objective_of("multiclass"@, n) == Some(ClassificationObjective::MulticlassLogLoss),
        forall|name: Seq<char>, n: usize| #[trigger] classification_objective_of(name, n) is Some ==> (name == "auto"@ || name == "binary_logloss"@ || name == "logloss"@ || name == "binary"@ || name == "multiclass_logloss"@ || name == "multi_logloss"@ || name == "multiclass"@),
{
    reveal_strlit("auto");
    reveal_strlit("binary_logloss");
    reveal_strlit("logloss");
    reveal_strlit("binary");
    reveal_strlit("multiclass_logloss");
    reveal_strlit("multi_logloss");
    reveal_strlit("multiclass");
    assert("auto"@.len() == 4);
    assert("binary_logloss"@.len() == 14);
    assert("logloss"@.len() == 7);
    assert("binary"@.len() == 6);
    assert("multiclass_logloss"@.len() == 18);
    assert("multi_logloss"@.len() == 13);
    assert("multiclass"@.len() == 10);
}

/// `zero_vector` and `global_mean_vector` select their fallbacks with or
/// without a parent resolution; `parent_cell` selects the parent cell at the
/// resolution given and needs one; every other name is unknown.
pub proof fn lemma_embedding_fallback_names()
    ensures
        forall|p: Option<u8>| #[trigger] embedding_fallback_of("zero_vector"@, p) == Ok::<EmbeddingFallback, EmbeddingFallbackError>(EmbeddingFallback::ZeroVector),
        forall|p: Option<u8>| #[trigger] embedding_fallback_of("global_mean_vector"@, p) == Ok::<EmbeddingFallback, EmbeddingFallbackError>(EmbeddingFallback::GlobalMeanVector),
        forall|l: u8| #[trigger] embedding_fallback_of("parent_cell"@, Some(l)) == Ok::<EmbeddingFallback, EmbeddingFallbackError>(EmbeddingFallback::ParentCell { parent_resolution: l }),
        embedding_fallback_of("parent_cell"@, None) == Err::<EmbeddingFallback, EmbeddingFallbackError>(EmbeddingFallbackError::ParentResolutionRequired),
        forall|name: Seq<char>, p: Option<u8>| !(name == "zero_vector"@ || name == "global_mean_vector"@ || name == "parent_cell"@) ==> #[trigger] embedding_fallback_of(name, p) == Err::<EmbeddingFallback, EmbeddingFallbackError>(EmbeddingFallbackError::UnknownName),
{
    reveal_strlit("zero_vector");
    reveal_strlit("global_mean_vector");
    reveal_strlit("parent_cell");
    assert("zero_vector"@.len() == 11);
    assert("global_mean_vector"@.len() == 18);
    assert("parent_cell"@.len() == 11);
    assert("parent_cell"@[0] == 'p');
    assert("zero_vector"@[0] == 'z');
}

} // verus!
