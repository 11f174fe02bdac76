use vstd::prelude::*;

use crate::text::{chars_equal, parsed, str_chars, UnknownName};

verus! {

/// The loss a neural panel forecaster trains on.
#[derive(Clone, Copy, Debug, PartialEq, Eq, Structural)]
pub enum NeuralPanelLoss {
    SmoothL1,
    Mse,
    Mae,
    Pinball,
}

/// The loss that `value` selects.
pub open spec fn neural_panel_loss_of(value: Seq<char>) -> Option<NeuralPanelLoss> {
    if value == "smooth_l1"@ || value == "huber"@ {
        Some(NeuralPanelLoss::SmoothL1)
    } else if value == "mse"@ || value == "l2"@ {
        Some(NeuralPanelLoss::Mse)
    } else if value == "mae"@ || value == "l1"@ {
        Some(NeuralPanelLoss::Mae)
    } else if value == "pinball"@ || value == "quantile"@ {
        Some(NeuralPanelLoss::Pinball)
    } else {
        None
    }
}

/// Reads a neural panel loss.
pub fn parse_neural_panel_loss(value: &str) -> (r: Result<NeuralPanelLoss, UnknownName>)
    ensures
        parsed(r, neural_panel_loss_of(value@), value@),
{
    let v = str_chars(value);
    if chars_equal(&v, "smooth_l1") || chars_equal(&v, "huber") {
        Ok(NeuralPanelLoss::SmoothL1)
    } else if chars_equal(&v, "mse") || chars_equal(&v, "l2") {
        Ok(NeuralPanelLoss::Mse)
    } else if chars_equal(&v, "mae") || chars_equal(&v, "l1") {
        Ok(NeuralPanelLoss::Mae)
    } else if chars_equal(&v, "pinball") || chars_equal(&v, "quantile") {
        Ok(NeuralPanelLoss::Pinball)
    } else {
        Err(UnknownName { name: value.to_owned() })
    }
}

/// The trend a neural panel forecaster models.
#[derive(Clone, Copy, Debug, PartialEq, Eq, Structural)]
pub enum NeuralPanelTrendMode {
    Off,
    PiecewiseLinear,
}

/// The trend mode that `value` selects.
pub open spec fn neural_panel_trend_mode_of(value: Seq<char>) -> Option<NeuralPanelTrendMode> {
    if value == "off"@ || value == "none"@ {
        Some(NeuralPanelTrendMode::Off)
    } else if value == "piecewise_linear"@ || value == "linear"@ {
        Some(NeuralPanelTrendMode::PiecewiseLinear)
    } else {
        None
    }
}

/// Reads a neural panel trend mode.
pub fn parse_neural_panel_trend_mode(value: &str) -> (r: Result<NeuralPanelTrendMode, UnknownName>)
    ensures
        parsed(r, neural_panel_trend_mode_of(value@), value@),
{
    let v = str_chars(value);
    if chars_equal(&v, "off") || chars_equal(&v, "none") {
        Ok(NeuralPanelTrendMode::Off)
    } else if chars_equal(&v, "piecewise_linear") || chars_equal(&v, "linear") {
        Ok(NeuralPanelTrendMode::PiecewiseLinear)
    } else {
        Err(UnknownName { name: value.to_owned() })
    }
}

/// How a neural panel component combines with the rest.
#[derive(Clone, Copy, Debug, PartialEq, Eq, Structural)]
pub enum NeuralPanelComponentMode {
    Additive,
    Multiplicative,
}

/// The component mode that `value` selects.
pub open spec fn neural_panel_component_mode_of(value: Seq<char>) -> Option<
    NeuralPanelComponentMode,
> {
    if value == "additive"@ {
        Some(NeuralPanelComponentMode::Additive)
    } else if value == "multiplicative"@ {
        Some(NeuralPanelComponentMode::Multiplicative)
    } else {
        None
    }
}

/// Reads a neural panel component mode.
pub fn parse_neural_panel_component_mode(value: &str) -> (r: Result<
    NeuralPanelComponentMode,
    UnknownName,
>)
    ensures
        parsed(r, neural_panel_component_mode_of(value@), value@),
{
    let v = str_chars(value);
    if chars_equal(&v, "additive") {
        Ok(NeuralPanelComponentMode::Additive)
    } else if chars_equal(&v, "multiplicative") {
        Ok(NeuralPanelComponentMode::Multiplicative)
    } else {
        Err(UnknownName { name: value.to_owned() })
    }
}

/// Reads the component mode of each named future regressor. The entries are
/// those of a map from regressor names, so no name occurs twice; they are
/// read in the order given, and the first mode that is not a component mode
/// is the error.
pub fn parse_neural_panel_regressor_modes(entries: &Vec<(String, String)>) -> (r: Result<
    Vec<(String, NeuralPanelComponentMode)>,
    UnknownName,
>)
    requires
        forall|i: int, j: int|
            0 <= i < j < entries@.len() ==> (#[trigger] entries@[i]).0@ != (#[trigger] entries@[j]).0@,
    ensures
        match r {
            Ok(modes) => {
                &&& modes@.len() == entries@.len()
                &&& forall|i: int|
                    0 <= i < entries@.len() ==> (#[trigger] modes@[i]).0@ == entries@[i].0@
                        && neural_panel_component_mode_of(entries@[i].1@) == Some(modes@[i].1)
            },
            Err(e) => exists|i: int|
                {
                    &&& 0 <= i < entries@.len()
                    &&& forall|j: int|
                        0 <= j < i ==> #[trigger] neural_panel_component_mode_of(entries@[j].1@)
                            is Some
                    &&& neural_panel_component_mode_of(#[trigger] entries@[i].1@) is None
                    &&& e.name@ == entries@[i].1@
                },
        },
{
    let mut modes: Vec<(String, NeuralPanelComponentMode)> = Vec::new();
    let mut i: usize = 0;
    while i < entries.len()
        invariant
            i <= entries@.len(),
            modes@.len() == i,
            forall|j: int|
                0 <= j < i ==> (#[trigger] modes@[j]).0@ == entries@[j].0@
                    && neural_panel_component_mode_of(entries@[j].1@) == Some(modes@[j].1),
            forall|j: int|
                0 <= j < i ==> #[trigger] neural_panel_component_mode_of(entries@[j].1@) is Some,
        decreases entries@.len() - i,
    {
        let entry = &entries[i];
        match parse_neural_panel_component_mode(entry.1.as_str()) {
            Ok(mode) => {
                modes.push((entry.0.clone(), mode));
            },
            Err(e) => {
                return Err(e);
            },
        }
        i = i + 1;
    }
    Ok(modes)
}

/// Whether a neural panel component is shared by all series, fitted per
/// series, or both.
#[derive(Clone, Copy, Debug, PartialEq, Eq, Structural)]
pub enum NeuralPanelMode {
    Global,
    Local,
    Glocal,
}

/// The mode that `value` selects.
pub open spec fn neural_panel_mode_of(value: Seq<char>) -> Option<NeuralPanelMode> {
    if value == "global"@ {
        Some(NeuralPanelMode::Global)
    } else if value == "local"@ {
        Some(NeuralPanelMode::Local)
    } else if value == "glocal"@ {
        Some(NeuralPanelMode::Glocal)
    } else {
        None
    }
}

/// Reads a global/local mode.
pub fn parse_neural_panel_global_local_mode(value: &str) -> (r: Result<
    NeuralPanelMode,
    UnknownName,
>)
    ensures
        parsed(r, neural_panel_mode_of(value@), value@),
{
    let v = str_chars(value);
    if chars_equal(&v, "global") {
        Ok(NeuralPanelMode::Global)
    } else if chars_equal(&v, "local") {
        Ok(NeuralPanelMode::Local)
    } else if chars_equal(&v, "glocal") {
        Ok(NeuralPanelMode::Glocal)
    } else {
        Err(UnknownName { name: value.to_owned() })
    }
}

/// The architecture profile of a graph transformer forecaster.
#[derive(Clone, Copy, Debug, PartialEq, Eq, Structural)]
pub enum GraphTransformerProfile {
    HeterogeneousMoE,
    EfficientHighOrder,
    LongShortFusion,
    GatedGraphTemporal,
    SpatialShiftGraphonMoE,
}

/// The profile that `value` selects.
pub open spec fn graph_transformer_profile_of(value: Seq<char>) -> Option<GraphTransformerProfile> {
    if value == "heterogeneous_moe"@ {
        Some(GraphTransformerProfile::HeterogeneousMoE)
    } else if value == "efficient_high_order"@ {
        Some(GraphTransformerProfile::EfficientHighOrder)
    } else if value == "long_short_fusion"@ {
        Some(GraphTransformerProfile::LongShortFusion)
    } else if value == "gated_graph_temporal"@ {
        Some(GraphTransformerProfile::GatedGraphTemporal)
    } else if value == "spatial_shift_graphon_moe"@ {
        Some(GraphTransformerProfile::SpatialShiftGraphonMoE)
    } else {
        None
    }
}

/// Reads a graph transformer profile.
pub fn parse_graph_transformer_profile(value: &str) -> (r: Result<
    GraphTransformerProfile,
    UnknownName,
>)
    ensures
        parsed(r, graph_transformer_profile_of(value@), value@),
{
    let v = str_chars(value);
    if chars_equal(&v, "heterogeneous_moe") {
        Ok(GraphTransformerProfile::HeterogeneousMoE)
    } else if chars_equal(&v, "efficient_high_order") {
        Ok(GraphTransformerProfile::EfficientHighOrder)
    } else if chars_equal(&v, "long_short_fusion") {
        Ok(GraphTransformerProfile::LongShortFusion)
    } else if chars_equal(&v, "gated_graph_temporal") {
        Ok(GraphTransformerProfile::GatedGraphTemporal)
    } else if chars_equal(&v, "spatial_shift_graphon_moe") {
        Ok(GraphTransformerProfile::SpatialShiftGraphonMoE)
    } else {
        Err(UnknownName { name: value.to_owned() })
    }
}

/// Each neural panel loss name selects its own loss (`huber` is the smooth L1 loss, `l2` the squared error, `l1` the absolute error, `quantile` the pinball loss), and no other name selects one.
pub proof fn lemma_neural_panel_loss_names()
    ensures
        neural_panel_loss_of("smooth_l1"@) == Some(NeuralPanelLoss::SmoothL1),
        neural_panel_loss_of("huber"@) == Some(NeuralPanelLoss::SmoothL1),
        neural_panel_loss_of("mse"@) == Some(NeuralPanelLoss::Mse),
        neural_panel_loss_of("l2"@) == Some(NeuralPanelLoss::Mse),
        neural_panel_loss_of("mae"@) == Some(NeuralPanelLoss::Mae),
        neural_panel_loss_of("l1"@) == Some(NeuralPanelLoss::Mae),
        neural_panel_loss_of("pinball"@) == Some(NeuralPanelLoss::Pinball),
        neural_panel_loss_of("quantile"@) == Some(NeuralPanelLoss::Pinball),
        forall|name: Seq<char>| #[trigger] neural_panel_loss_of(name) is Some ==> (name == "smooth_l1"@ || name == "huber"@ || name == "mse"@ || name == "l2"@ || name == "mae"@ || name == "l1"@ || name == "pinball"@ || name == "quantile"@),
{
    reveal_strlit("smooth_l1");
    reveal_strlit("huber");
    reveal_strlit("mse");
    reveal_strlit("l2");
    reveal_strlit("mae");
    reveal_strlit("l1");
    reveal_strlit("pinball");
    reveal_strlit("quantile");
    assert("smooth_l1"@.len() == 9);
    assert("huber"@.len() == 5);
    assert("mse"@.len() == 3);
    assert("l2"@.len() == 2);
    assert("mae"@.len() == 3);
    assert("l1"@.len() == 2);
    assert("pinball"@.len() == 7);
    assert("quantile"@.len() == 8);
    assert("l1"@[1] == '1');
    assert("l2"@[1] == '2');
    assert("mae"@[1] == 'a');
    assert("mse"@[1] == 's');
}

/// `off` and `none` switch the trend off, `piecewise_linear` and `linear` select the piecewise linear trend; no other name selects a mode.
pub proof fn lemma_neural_panel_trend_mode_names()
    ensures
        neural_panel_trend_mode_of("off"@) == Some(NeuralPanelTrendMode::Off),
        neural_panel_trend_mode_of("none"@) == Some(NeuralPanelTrendMode::Off),
        neural_panel_trend_mode_of("piecewise_linear"@) == Some(NeuralPanelTrendMode::PiecewiseLinear),
        neural_panel_trend_mode_of("linear"@) == Some(NeuralPanelTrendMode::PiecewiseLinear),
        forall|name: Seq<char>| #[trigger] neural_panel_trend_mode_of(name) is Some ==> (name == "off"@ || name == "none"@ || name == "piecewise_linear"@ || name == "linear"@),
{
    reveal_strlit("off");
    reveal_strlit("none");
    reveal_strlit("piecewise_linear");
    reveal_strlit("linear");
    assert("off"@.len() == 3);
    assert("none"@.len() == 4);
    assert("piecewise_linear"@.len() == 16);
    assert("linear"@.len() == 6);
}

/// `additive` and `multiplicative` select the two modes, and no other name selects one.
pub proof fn lemma_neural_panel_component_mode_names()
    ensures
        neural_panel_component_mode_of("additive"@) == Some(NeuralPanelComponentMode::Additive),
        neural_panel_component_mode_of("multiplicative"@) == Some(NeuralPanelComponentMode::Multiplicative),
        forall|name: Seq<char>| #[trigger] neural_panel_component_mode_of(name) is Some ==> (name == "additive"@ || name == "multiplicative"@),
{
    reveal_strlit("additive");
    reveal_strlit("multiplicative");
    assert("additive"@.len() == 8);
    assert("multiplicative"@.len() == 14);
}

/// `global`, `local` and `glocal` select their own modes, and no other name selects one.
pub proof fn lemma_neural_panel_mode_names()
    ensures
        neural_panel_mode_of("global"@) == Some(NeuralPanelMode::Global),
        neural_panel_mode_of("local"@) == Some(NeuralPanelMode::Local),
        neural_panel_mode_of("glocal"@) == Some(NeuralPanelMode::Glocal),
        forall|name: Seq<char>| #[trigger] neural_panel_mode_of(name) is Some ==> (name == "global"@ || name == "local"@ || name == "glocal"@),
{
    reveal_strlit("global");
    reveal_strlit("local");
    reveal_strlit("glocal");
    assert("global"@.len() == 6);
    assert("local"@.len() == 5);
    assert("glocal"@.len() == 6);
    assert("global"@[3] == 'b');
    assert("glocal"@[3] == 'c');
}

/// Each profile name selects its own profile, and no other name selects one.
pub proof fn lemma_graph_transformer_profile_names()
    ensures
        graph_transformer_profile_of("heterogeneous_moe"@) == Some(GraphTransformerProfile::HeterogeneousMoE),
        graph_transformer_profile_of("efficient_high_order"@) == Some(GraphTransformerProfile::EfficientHighOrder),
        graph_transformer_profile_of("long_short_fusion"@) == Some(GraphTransformerProfile::LongShortFusion),
        graph_transformer_profile_of("gated_graph_temporal"@) == Some(GraphTransformerProfile::GatedGraphTemporal),
        graph_transformer_profile_of("spatial_shift_graphon_moe"@) == Some(GraphTransformerProfile::SpatialShiftGraphonMoE),
        forall|name: Seq<char>| #[trigger] graph_transformer_profile_of(name) is Some ==> (name == "heterogeneous_moe"@ || name == "efficient_high_order"@ || name == "long_short_fusion"@ || name == "gated_graph_temporal"@ || name == "spatial_shift_graphon_moe"@),
{
    reveal_strlit("heterogeneous_moe");
    reveal_strlit("efficient_high_order");
    reveal_strlit("long_short_fusion");
    reveal_strlit("gated_graph_temporal");
    reveal_strlit("spatial_shift_graphon_moe");
    assert("heterogeneous_moe"@.len() == 17);
    assert("efficient_high_order"@.len() == 20);
    assert("long_short_fusion"@.len() == 17);
    assert("gated_graph_temporal"@.len() == 20);
    assert("spatial_shift_graphon_moe"@.len() == 25);
    assert("efficient_high_order"@[0] == 'e');
    assert("gated_graph_temporal"@[0] == 'g');
    assert("heterogeneous_moe"@[0] == 'h');
    assert("long_short_fusion"@[0] == 'l');
}

} // verus!
