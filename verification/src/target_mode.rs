use vstd::prelude::*;

use crate::decimal::{decimal_text, lemma_usize_text_round_trip, parse_usize, usize_of_text};
use crate::text::{chars_equal, chars_from, chars_start_with, has_prefix, str_chars, string_from_chars};

verus! {

/// What a global lag forecaster learns to predict.
#[derive(Clone, Copy, Debug, PartialEq, Eq, Structural)]
pub enum GlobalTargetMode {
    /// The value itself.
    Level,
    /// The change from the last observed value.
    DeltaFromLast,
    /// The change from the value one season earlier.
    SeasonalDelta { season_length: usize },
}

/// Why a target mode could not be read (the spec-level outcome).
#[derive(Clone, Copy, Debug, PartialEq, Eq, Structural)]
pub enum TargetModeFailure {
    Unknown,
    NotAnInteger,
    ZeroSeasonLength,
}

/// Why a target mode could not be read.
#[derive(Clone, Debug)]
pub enum TargetModeError {
    /// The name is none of the target modes.
    Unknown,
    /// The season length after `seasonal_delta_` or `seasonal_delta:` is
    /// not an integer; `text` is that season length's text.
    NotAnInteger { text: String },
    /// The season length is zero.
    ZeroSeasonLength,
}

/// The season length text of a seasonal-delta name: what follows
/// `seasonal_delta_` or, failing that, `seasonal_delta:`.
pub open spec fn seasonal_delta_suffix(name: Seq<char>) -> Option<Seq<char>> {
    if has_prefix(name, "seasonal_delta_"@) {
        Some(name.subrange("seasonal_delta_"@.len() as int, name.len() as int))
    } else if has_prefix(name, "seasonal_delta:"@) {
        Some(name.subrange("seasonal_delta:"@.len() as int, name.len() as int))
    } else {
        None
    }
}

/// What reading the target mode `name` gives.
pub open spec fn target_mode_of(name: Seq<char>) -> Result<GlobalTargetMode, TargetModeFailure> {
    if name == "level"@ {
        Ok(GlobalTargetMode::Level)
    } else if name == "delta_from_last"@ || name == "delta"@ {
        Ok(GlobalTargetMode::DeltaFromLast)
    } else {
        match seasonal_delta_suffix(name) {
            None => Err(TargetModeFailure::Unknown),
            Some(text) => match usize_of_text(text) {
                None => Err(TargetModeFailure::NotAnInteger),
                Some(length) => if length == 0 {
                    Err(TargetModeFailure::ZeroSeasonLength)
                } else {
                    Ok(GlobalTargetMode::SeasonalDelta { season_length: length })
                },
            },
        }
    }
}

/// Reads a season length for a seasonal-delta target.
fn seasonal_delta_from_text(text: &Vec<char>) -> (r: Result<GlobalTargetMode, TargetModeError>)
    ensures
        match usize_of_text(text@) {
            None => r matches Err(TargetModeError::NotAnInteger { text: shown }) && shown@
                == text@,
            Some(length) => if length == 0 {
                r matches Err(TargetModeError::ZeroSeasonLength)
            } else {
                r matches Ok(GlobalTargetMode::SeasonalDelta { season_length }) && season_length
                    == length
            },
        },
{
    match parse_usize(text) {
        None => Err(TargetModeError::NotAnInteger { text: string_from_chars(text) }),
        Some(length) => {
            if length == 0 {
                Err(TargetModeError::ZeroSeasonLength)
            } else {
                Ok(GlobalTargetMode::SeasonalDelta { season_length: length })
            }
        },
    }
}

/// Reads the target mode of a global lag forecaster: `level`,
/// `delta_from_last` (or `delta`), or `seasonal_delta_<n>` /
/// `seasonal_delta:<n>` with a positive season length `n`.
pub fn parse_global_target_mode(name: &str) -> (r: Result<GlobalTargetMode, TargetModeError>)
    ensures
        match target_mode_of(name@) {
            Ok(mode) => r matches Ok(m) && m == mode,
            Err(TargetModeFailure::Unknown) => r matches Err(TargetModeError::Unknown),
            Err(TargetModeFailure::NotAnInteger) => r matches Err(
                TargetModeError::NotAnInteger { text },
            ) && text@ == seasonal_delta_suffix(name@)->0,
            Err(TargetModeFailure::ZeroSeasonLength) => r matches Err(
                TargetModeError::ZeroSeasonLength,
            ),
        },
{
    let v = str_chars(name);
    if chars_equal(&v, "level") {
        Ok(GlobalTargetMode::Level)
    } else if chars_equal(&v, "delta_from_last") || chars_equal(&v, "delta") {
        Ok(GlobalTargetMode::DeltaFromLast)
    } else if chars_start_with(&v, "seasonal_delta_") {
        let rest = chars_from(&v, "seasonal_delta_".unicode_len());
        seasonal_delta_from_text(&rest)
    } else if chars_start_with(&v, "seasonal_delta:") {
        let rest = chars_from(&v, "seasonal_delta:".unicode_len());
        seasonal_delta_from_text(&rest)
    } else {
        Err(TargetModeError::Unknown)
    }
}

/// Every positive season length, written in decimal after `seasonal_delta_`
/// or `seasonal_delta:`, is read back as a seasonal-delta target of that
/// length.
pub proof fn lemma_seasonal_delta_accepts_positive_lengths(season_length: usize)
    requires
        season_length > 0,
    ensures
        target_mode_of("seasonal_delta_"@ + decimal_text(season_length as nat)) == Ok::<
            GlobalTargetMode,
            TargetModeFailure,
        >(GlobalTargetMode::SeasonalDelta { season_length }),
        target_mode_of("seasonal_delta:"@ + decimal_text(season_length as nat)) == Ok::<
            GlobalTargetMode,
            TargetModeFailure,
        >(GlobalTargetMode::SeasonalDelta { season_length }),
{
    reveal_strlit("level");
    reveal_strlit("delta_from_last");
    reveal_strlit("delta");
    reveal_strlit("seasonal_delta_");
    reveal_strlit("seasonal_delta:");
    assert("level"@.len() == 5);
    assert("delta_from_last"@.len() == 15);
    assert("delta"@.len() == 5);
    assert("seasonal_delta_"@.len() == 15);
    assert("seasonal_delta:"@.len() == 15);
    assert("delta"@[0] == 'd');
    assert("delta_from_last"@[0] == 'd');
    assert("level"@[0] == 'l');
    assert("seasonal_delta:"@[0] == 's');
    assert("seasonal_delta:"@[14] == ':');
    assert("seasonal_delta_"@[0] == 's');
    assert("seasonal_delta_"@[14] == '_');
    assert("seasonal_delta_"@[14] == '_');
    assert("seasonal_delta:"@[14] == ':');
    let digits = decimal_text(season_length as nat);
    lemma_usize_text_round_trip(season_length);
    let under = "seasonal_delta_"@ + digits;
    let colon = "seasonal_delta:"@ + digits;
    assert(under.subrange(0, 15) =~= "seasonal_delta_"@);
    assert(under.subrange(15, under.len() as int) =~= digits);
    assert(colon.subrange(0, 15) =~= "seasonal_delta:"@);
    assert(colon.subrange(15, colon.len() as int) =~= digits);
    assert(colon[14] == ':');
    assert(colon.subrange(0, 15)[14] == ':');
}

/// `level` selects the level target and both `delta_from_last` and `delta`
/// the change from the last value.
pub proof fn lemma_target_mode_names()
    ensures
        target_mode_of("level"@) == Ok::<GlobalTargetMode, TargetModeFailure>(GlobalTargetMode::Level),
        target_mode_of("delta_from_last"@) == Ok::<GlobalTargetMode, TargetModeFailure>(GlobalTargetMode::DeltaFromLast),
        target_mode_of("delta"@) == Ok::<GlobalTargetMode, TargetModeFailure>(GlobalTargetMode::DeltaFromLast),
{
    reveal_strlit("level");
    reveal_strlit("delta_from_last");
    reveal_strlit("delta");
    assert("level"@.len() == 5);
    assert("delta_from_last"@.len() == 15);
    assert("delta"@.len() == 5);
    assert("delta"@[0] == 'd');
    assert("level"@[0] == 'l');
}

} // verus!
