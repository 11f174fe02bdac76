use vstd::prelude::*;

pub mod arrays;
pub mod calendar;
pub mod decimal;
pub mod forecast_options;
pub mod lag_features;
pub mod method_choice;
pub mod model_options;
pub mod neural_options;
pub mod sparse;
pub mod splitters;
pub mod target_mode;
pub mod text;
pub mod validate;

verus! {

} // verus!
