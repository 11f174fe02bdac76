use vstd::prelude::*;

use crate::decimal::{
    decimal_text, lemma_usize_text_round_trip, parse_usize, usize_decimal, usize_of_text,
};
use crate::text::{
    chars_equal, chars_from, chars_start_with, has_prefix, str_chars, string_from_chars,
    UnknownName,
};

verus! {

/// A family of split candidates that the booster searches.
#[derive(Clone, Debug)]
pub enum SplitterKind {
    /// Let the booster choose.
    Auto,
    /// Exact axis-aligned splits.
    Axis,
    /// Axis-aligned splits over a histogram with `bins` bins.
    AxisHistogram { bins: usize },
    /// Oblique splits on pairs of coordinates.
    Diagonal2D,
    /// Radial splits around 2-D centres.
    Gaussian2D,
    /// Periodic splits with a period of 24 (hours of a day).
    PeriodicTime,
    /// Periodic splits with a period given after `periodic:`: `period_text`
    /// writes the number as the caller read it, and `daily` tells whether it
    /// is (within rounding) 24.
    PeriodicCustom { period_text: String, daily: bool },
    /// Splits on sparse set-valued features.
    SparseSet,
}

/// How the caller read the period after `periodic:` in a splitter name (a
/// floating-point question that the library leaves to it).
#[derive(Clone, Debug)]
pub enum PeriodReading {
    /// The text is not a finite positive number, or there is no such text.
    Invalid,
    /// A finite positive number: `display` writes it back, `daily` tells
    /// whether it is (within rounding) 24.
    Valid { display: String, daily: bool },
}

/// The number of bins that a histogram splitter name asks for: the decimal
/// number after `axis_histogram:` (or, failing that prefix, `axis_hist:`),
/// when it is at least 2.
pub open spec fn histogram_bins_of(name: Seq<char>) -> Option<usize> {
    let text = if has_prefix(name, "axis_histogram:"@) {
        Some(name.subrange("axis_histogram:"@.len() as int, name.len() as int))
    } else if has_prefix(name, "axis_hist:"@) {
        Some(name.subrange("axis_hist:"@.len() as int, name.len() as int))
    } else {
        None
    };
    match text {
        Some(t) => match usize_of_text(t) {
            Some(bins) => if bins >= 2 {
                Some(bins)
            } else {
                None
            },
            None => None,
        },
        None => None,
    }
}

/// Whether `name` is one of the fixed splitter names.
pub open spec fn splitter_fixed_name(name: Seq<char>) -> bool {
    ||| name == "auto"@
    ||| name == "axis"@
    ||| name == "axis_histogram"@
    ||| name == "axis_hist"@
    ||| name == "histogram"@
    ||| name == "diagonal_2d"@
    ||| name == "diagonal2d"@
    ||| name == "gaussian_2d"@
    ||| name == "gaussian2d"@
    ||| name == "radial"@
    ||| name == "periodic_time"@
    ||| name == "periodic_24"@
    ||| name == "sparse_set"@
    ||| name == "sparse"@
}

/// Whether `name` is one of the splitter names, reading the text of a custom
/// period as any text.
pub open spec fn splitter_name_known(name: Seq<char>) -> bool {
    ||| splitter_fixed_name(name)
    ||| histogram_bins_of(name) is Some
    ||| has_prefix(name, "periodic:"@)
}

/// Whether `name` is a custom periodic splitter name: `periodic:` and a
/// period, when neither a fixed name nor a histogram name takes it.
pub open spec fn names_custom_period(name: Seq<char>) -> bool {
    &&& !splitter_fixed_name(name)
    &&& histogram_bins_of(name) is None
    &&& has_prefix(name, "periodic:"@)
}

/// Whether `name` is a splitter name when `reading` is how the period of a
/// custom periodic name was read.
pub open spec fn splitter_name_accepted(name: Seq<char>, reading: PeriodReading) -> bool {
    splitter_name_known(name) && (names_custom_period(name) ==> reading is Valid)
}

/// Whether `name` selects the splitter `kind`, `reading` being how the
/// period of a custom periodic name was read.
pub open spec fn splitter_named(name: Seq<char>, kind: SplitterKind, reading: PeriodReading) -> bool {
    if name == "auto"@ {
        kind == SplitterKind::Auto
    } else if name == "axis"@ {
        kind == SplitterKind::Axis
    } else if name == "axis_histogram"@ || name == "axis_hist"@ || name == "histogram"@ {
        kind == SplitterKind::AxisHistogram { bins: 64 }
    } else if name == "diagonal_2d"@ || name == "diagonal2d"@ {
        kind == SplitterKind::Diagonal2D
    } else if name == "gaussian_2d"@ || name == "gaussian2d"@ || name == "radial"@ {
        kind == SplitterKind::Gaussian2D
    } else if name == "periodic_time"@ || name == "periodic_24"@ {
        kind == SplitterKind::PeriodicTime
    } else if name == "sparse_set"@ || name == "sparse"@ {
        kind == SplitterKind::SparseSet
    } else if histogram_bins_of(name) is Some {
        kind == SplitterKind::AxisHistogram { bins: histogram_bins_of(name)->0 }
    } else if has_prefix(name, "periodic:"@) {
        match reading {
            PeriodReading::Valid { display, daily } => kind matches SplitterKind::PeriodicCustom {
                period_text,
                daily: d,
            } && period_text@ == display@ && d == daily,
            PeriodReading::Invalid => false,
        }
    } else {
        false
    }
}

/// The canonical name of a splitter.
pub open spec fn splitter_text(kind: SplitterKind) -> Seq<char> {
    match kind {
        SplitterKind::Auto => "auto"@,
        SplitterKind::Axis => "axis"@,
        SplitterKind::AxisHistogram { bins } => "axis_histogram:"@ + decimal_text(bins as nat),
        SplitterKind::Diagonal2D => "diagonal_2d"@,
        SplitterKind::Gaussian2D => "gaussian_2d"@,
        SplitterKind::PeriodicTime => "periodic_time"@,
        SplitterKind::PeriodicCustom { period_text, daily } => if daily {
            "periodic_time"@
        } else {
            "periodic:"@ + period_text@
        },
        SplitterKind::SparseSet => "sparse_set"@,
    }
}

/// Whether a splitter is one that its canonical name selects again: a
/// histogram needs at least two bins, and a custom period must not be 24.
pub open spec fn splitter_well_formed(kind: SplitterKind) -> bool {
    &&& kind matches SplitterKind::AxisHistogram { bins } ==> bins >= 2
    &&& kind matches SplitterKind::PeriodicCustom { daily, .. } ==> !daily
}

/// The bins that the text after a histogram prefix asks for.
fn histogram_bins_after(v: &Vec<char>, prefix_len: usize) -> (r: Option<usize>)
    requires
        prefix_len <= v@.len(),
    ensures
        r == (match usize_of_text(v@.subrange(prefix_len as int, v@.len() as int)) {
            Some(bins) => if bins >= 2 {
                Some(bins)
            } else {
                None
            },
            None => None,
        }),
{
    let rest = chars_from(v, prefix_len);
    match parse_usize(&rest) {
        Some(bins) => if bins >= 2 {
            Some(bins)
        } else {
            None
        },
        None => None,
    }
}

/// Reads one splitter name; `reading` is how the caller read the period of a
/// custom periodic name.
pub fn parse_splitter(name: &str, reading: &PeriodReading) -> (r: Result<SplitterKind, UnknownName>)
    ensures
        match r {
            Ok(kind) => splitter_named(name@, kind, *reading),
            Err(e) => !splitter_name_accepted(name@, *reading) && e.name@ == name@,
        },
{
    let v = str_chars(name);
    if chars_equal(&v, "auto") {
        Ok(SplitterKind::Auto)
    } else if chars_equal(&v, "axis") {
        Ok(SplitterKind::Axis)
    } else if chars_equal(&v, "axis_histogram") || chars_equal(&v, "axis_hist") || chars_equal(
        &v,
        "histogram",
    ) {
        Ok(SplitterKind::AxisHistogram { bins: 64 })
    } else if chars_equal(&v, "diagonal_2d") || chars_equal(&v, "diagonal2d") {
        Ok(SplitterKind::Diagonal2D)
    } else if chars_equal(&v, "gaussian_2d") || chars_equal(&v, "gaussian2d") || chars_equal(
        &v,
        "radial",
    ) {
        Ok(SplitterKind::Gaussian2D)
    } else if chars_equal(&v, "periodic_time") || chars_equal(&v, "periodic_24") {
        Ok(SplitterKind::PeriodicTime)
    } else if chars_equal(&v, "sparse_set") || chars_equal(&v, "sparse") {
        Ok(SplitterKind::SparseSet)
    } else {
        let bins = if chars_start_with(&v, "axis_histogram:") {
            histogram_bins_after(&v, "axis_histogram:".unicode_len())
        } else if chars_start_with(&v, "axis_hist:") {
            histogram_bins_after(&v, "axis_hist:".unicode_len())
        } else {
            None
        };
        match bins {
            Some(count) => Ok(SplitterKind::AxisHistogram { bins: count }),
            None => {
                if chars_start_with(&v, "periodic:") {
                    match reading {
                        PeriodReading::Valid { display, daily } => Ok(
                            SplitterKind::PeriodicCustom {
                                period_text: display.as_str().to_owned(),
                                daily: *daily,
                            },
                        ),
                        PeriodReading::Invalid => Err(UnknownName { name: name.to_owned() }),
                    }
                } else {
                    Err(UnknownName { name: name.to_owned() })
                }
            },
        }
    }
}

/// Reads a list of splitter names; an empty list means the automatic choice.
/// `readings[i]` is how the caller read the period after `periodic:` in
/// `names[i]` (it counts only for custom periodic names). The first name
/// that is not a splitter is the error.
pub fn parse_splitters(names: &[String], readings: &[PeriodReading]) -> (r: Result<
    Vec<SplitterKind>,
    UnknownName,
>)
    requires
        readings@.len() == names@.len(),
    ensures
        match r {
            Ok(kinds) => {
                &&& forall|i: int|
                    0 <= i < names@.len() ==> splitter_name_accepted(
                        #[trigger] names@[i]@,
                        readings@[i],
                    )
                &&& names@.len() == 0 ==> kinds@.len() == 1 && kinds@[0] == SplitterKind::Auto
                &&& names@.len() > 0 ==> kinds@.len() == names@.len() && forall|i: int|
                    0 <= i < names@.len() ==> splitter_named(
                        #[trigger] names@[i]@,
                        kinds@[i],
                        readings@[i],
                    )
            },
            Err(e) => exists|i: int|
                {
                    &&& 0 <= i < names@.len()
                    &&& !splitter_name_accepted(#[trigger] names@[i]@, readings@[i])
                    &&& forall|j: int|
                        0 <= j < i ==> splitter_name_accepted(#[trigger] names@[j]@, readings@[j])
                    &&& e.name@ == names@[i]@
                },
        },
{
    let mut kinds: Vec<SplitterKind> = Vec::new();
    let mut i: usize = 0;
    while i < names.len()
        invariant
            i <= names@.len(),
            readings@.len() == names@.len(),
            kinds@.len() == i,
            forall|j: int|
                0 <= j < i ==> splitter_name_accepted(#[trigger] names@[j]@, readings@[j]),
            forall|j: int|
                0 <= j < i ==> splitter_named(#[trigger] names@[j]@, kinds@[j], readings@[j]),
        decreases names@.len() - i,
    {
        match parse_splitter(names[i].as_str(), &readings[i]) {
            Ok(kind) => {
                kinds.push(kind);
            },
            Err(e) => {
                return Err(e);
            },
        }
        i = i + 1;
    }
    if kinds.len() == 0 {
        let mut fallback: Vec<SplitterKind> = Vec::new();
        fallback.push(SplitterKind::Auto);
        Ok(fallback)
    } else {
        Ok(kinds)
    }
}

/// The canonical name of a splitter.
pub fn splitter_name(kind: &SplitterKind) -> (r: String)
    ensures
        r@ == splitter_text(*kind),
{
    match kind {
        SplitterKind::Auto => "auto".to_owned(),
        SplitterKind::Axis => "axis".to_owned(),
        SplitterKind::AxisHistogram { bins } => {
            let mut text = "axis_histogram:".to_owned();
            let digits = string_from_chars(&usize_decimal(*bins));
            text.append(digits.as_str());
            text
        },
        SplitterKind::Diagonal2D => "diagonal_2d".to_owned(),
        SplitterKind::Gaussian2D => "gaussian_2d".to_owned(),
        SplitterKind::PeriodicTime => "periodic_time".to_owned(),
        SplitterKind::PeriodicCustom { period_text, daily } => {
            if *daily {
                "periodic_time".to_owned()
            } else {
                let mut text = "periodic:".to_owned();
                text.append(period_text.as_str());
                text
            }
        },
        SplitterKind::SparseSet => "sparse_set".to_owned(),
    }
}

/// The canonical names of splitters, in order.
pub fn splitter_names(splitters: &[SplitterKind]) -> (r: Vec<String>)
    ensures
        r@.len() == splitters@.len(),
        forall|i: int| 0 <= i < splitters@.len() ==> (#[trigger] r@[i])@ == splitter_text(
            splitters@[i],
        ),
{
    let mut names: Vec<String> = Vec::new();
    let mut i: usize = 0;
    while i < splitters.len()
        invariant
            i <= splitters@.len(),
            names@.len() == i,
            forall|j: int| 0 <= j < i ==> (#[trigger] names@[j])@ == splitter_text(splitters@[j]),
        decreases splitters@.len() - i,
    {
        let name = splitter_name(&splitters[i]);
        names.push(name);
        i = i + 1;
    }
    names
}

/// Whether `reading` is how the period of `kind`'s canonical name reads: for
/// a custom period, the same number, written the same way.
pub open spec fn reading_matches(kind: SplitterKind, reading: PeriodReading) -> bool {
    kind matches SplitterKind::PeriodicCustom { period_text, daily } ==> reading matches PeriodReading::Valid {
        display,
        daily: d,
    } && display@ == period_text@ && d == daily
}

/// Reading the canonical name of a well-formed splitter selects that
/// splitter again, when its period reads back as the same number.
pub proof fn lemma_splitter_round_trip(kind: SplitterKind, reading: PeriodReading)
    requires
        splitter_well_formed(kind),
        reading_matches(kind, reading),
    ensures
        splitter_name_accepted(splitter_text(kind), reading),
        splitter_named(splitter_text(kind), kind, reading),
{
    reveal_strlit("auto");
    reveal_strlit("axis");
    reveal_strlit("axis_histogram");
    reveal_strlit("axis_hist");
    reveal_strlit("histogram");
    reveal_strlit("diagonal_2d");
    reveal_strlit("diagonal2d");
    reveal_strlit("gaussian_2d");
    reveal_strlit("gaussian2d");
    reveal_strlit("radial");
    reveal_strlit("periodic_time");
    reveal_strlit("periodic_24");
    reveal_strlit("sparse_set");
    reveal_strlit("sparse");
    reveal_strlit("axis_histogram:");
    reveal_strlit("axis_hist:");
    reveal_strlit("periodic:");
    assert("auto"@.len() == 4);
    assert("axis"@.len() == 4);
    assert("axis_histogram"@.len() == 14);
    assert("axis_hist"@.len() == 9);
    assert("histogram"@.len() == 9);
    assert("diagonal_2d"@.len() == 11);
    assert("diagonal2d"@.len() == 10);
    assert("gaussian_2d"@.len() == 11);
    assert("gaussian2d"@.len() == 10);
    assert("radial"@.len() == 6);
    assert("periodic_time"@.len() == 13);
    assert("periodic_24"@.len() == 11);
    assert("sparse_set"@.len() == 10);
    assert("sparse"@.len() == 6);
    reveal_strlit("axis_histogram:");
    reveal_strlit("axis_hist:");
    reveal_strlit("periodic:");
    assert("axis_histogram:"@.len() == 15);
    assert("axis_hist:"@.len() == 10);
    assert("periodic:"@.len() == 9);
    assert("auto"@[1] == 'u');
    assert("axis"@[1] == 'x');
    assert("axis_hist"@[0] == 'a');
    assert("axis_hist:"@[0] == 'a');
    assert("diagonal2d"@[0] == 'd');
    assert("diagonal_2d"@[0] == 'd');
    assert("gaussian2d"@[0] == 'g');
    assert("gaussian_2d"@[0] == 'g');
    assert("histogram"@[0] == 'h');
    assert("periodic:"@[0] == 'p');
    assert("periodic_24"@[0] == 'p');
    assert("radial"@[0] == 'r');
    assert("sparse"@[0] == 's');
    assert("sparse_set"@[0] == 's');
    assert("axis_histogram:"@[0] == 'a');
    assert("axis_hist:"@[0] == 'a');
    assert("axis_hist:"@[9] == ':');
    assert("axis_histogram:"@[9] == 'o');
    assert("periodic:"@[0] == 'p');
    assert("periodic:"@[8] == ':');
    assert("periodic_time"@[8] == '_');
    assert("periodic_24"@[8] == '_');
    match kind {
        SplitterKind::AxisHistogram { bins } => {
            let digits = decimal_text(bins as nat);
            lemma_usize_text_round_trip(bins);
            let name = "axis_histogram:"@ + digits;
            assert(name.subrange(0, 15) =~= "axis_histogram:"@);
            assert(name.subrange(15, name.len() as int) =~= digits);
        },
        SplitterKind::PeriodicCustom { period_text, .. } => {
            let name = "periodic:"@ + period_text@;
            assert(name.subrange(0, 9) =~= "periodic:"@);
            assert(name.subrange(9, name.len() as int) =~= period_text@);
            assert(name[0] == 'p');
            assert(name[8] == ':');
        },
        _ => {},
    }
}

/// Writing well-formed splitters by name and reading the names back gives
/// the same splitters, in the same order.
pub proof fn lemma_splitter_names_round_trip(kinds: Seq<SplitterKind>, readings: Seq<PeriodReading>)
    requires
        readings.len() == kinds.len(),
        forall|i: int| 0 <= i < kinds.len() ==> splitter_well_formed(#[trigger] kinds[i]),
        forall|i: int| 0 <= i < kinds.len() ==> reading_matches(#[trigger] kinds[i], readings[i]),
    ensures
        forall|i: int|
            0 <= i < kinds.len() ==> splitter_name_accepted(
                #[trigger] splitter_text(kinds[i]),
                readings[i],
            ) && splitter_named(splitter_text(kinds[i]), kinds[i], readings[i]),
{
    assert forall|i: int| 0 <= i < kinds.len() implies splitter_name_accepted(
        #[trigger] splitter_text(kinds[i]),
        readings[i],
    ) && splitter_named(splitter_text(kinds[i]), kinds[i], readings[i]) by {
        lemma_splitter_round_trip(kinds[i], readings[i]);
    }
}

/// Each fixed splitter name selects its own splitter, whatever the period
/// reading: `axis_histogram`, `axis_hist` and `histogram` the 64-bin
/// histogram, `diagonal_2d` and `diagonal2d` the oblique splits, `gaussian_2d`,
/// `gaussian2d` and `radial` the radial ones, `periodic_time` and
/// `periodic_24` the daily period, `sparse_set` and `sparse` the sparse sets.
pub proof fn lemma_fixed_splitter_names()
    ensures
        forall|kind: SplitterKind, reading: PeriodReading| #[trigger] splitter_named("auto"@, kind, reading) <==> kind == SplitterKind::Auto,
        forall|reading: PeriodReading| #[trigger] splitter_name_accepted("auto"@, reading),
        forall|kind: SplitterKind, reading: PeriodReading| #[trigger] splitter_named("axis"@, kind, reading) <==> kind == SplitterKind::Axis,
        forall|reading: PeriodReading| #[trigger] splitter_name_accepted("axis"@, reading),
        forall|kind: SplitterKind, reading: PeriodReading| #[trigger] splitter_named("axis_histogram"@, kind, reading) <==> kind == (SplitterKind::AxisHistogram { bins: 64 }),
        forall|reading: PeriodReading| #[trigger] splitter_name_accepted("axis_histogram"@, reading),
        forall|kind: SplitterKind, reading: PeriodReading| #[trigger] splitter_named("axis_hist"@, kind, reading) <==> kind == (SplitterKind::AxisHistogram { bins: 64 }),
        forall|reading: PeriodReading| #[trigger] splitter_name_accepted("axis_hist"@, reading),
        forall|kind: SplitterKind, reading: PeriodReading| #[trigger] splitter_named("histogram"@, kind, reading) <==> kind == (SplitterKind::AxisHistogram { bins: 64 }),
        forall|reading: PeriodReading| #[trigger] splitter_name_accepted("histogram"@, reading),
        forall|kind: SplitterKind, reading: PeriodReading| #[trigger] splitter_named("diagonal_2d"@, kind, reading) <==> kind == SplitterKind::Diagonal2D,
        forall|reading: PeriodReading| #[trigger] splitter_name_accepted("diagonal_2d"@, reading),
        forall|kind: SplitterKind, reading: PeriodReading| #[trigger] splitter_named("diagonal2d"@, kind, reading) <==> kind == SplitterKind::Diagonal2D,
        forall|reading: PeriodReading| #[trigger] splitter_name_accepted("diagonal2d"@, reading),
        forall|kind: SplitterKind, reading: PeriodReading| #[trigger] splitter_named("gaussian_2d"@, kind, reading) <==> kind == SplitterKind::Gaussian2D,
        forall|reading: PeriodReading| #[trigger] splitter_name_accepted("gaussian_2d"@, reading),
        forall|kind: SplitterKind, reading: PeriodReading| #[trigger] splitter_named("gaussian2d"@, kind, reading) <==> kind == SplitterKind::Gaussian2D,
        forall|reading: PeriodReading| #[trigger] splitter_name_accepted("gaussian2d"@, reading),
        forall|kind: SplitterKind, reading: PeriodReading| #[trigger] splitter_named("radial"@, kind, reading) <==> kind == SplitterKind::Gaussian2D,
        forall|reading: PeriodReading| #[trigger] splitter_name_accepted("radial"@, reading),
        forall|kind: SplitterKind, reading: PeriodReading| #[trigger] splitter_named("periodic_time"@, kind, reading) <==> kind == SplitterKind::PeriodicTime,
        forall|reading: PeriodReading| #[trigger] splitter_name_accepted("periodic_time"@, reading),
        forall|kind: SplitterKind, reading: PeriodReading| #[trigger] splitter_named("periodic_24"@, kind, reading) <==> kind == SplitterKind::PeriodicTime,
        forall|reading: PeriodReading| #[trigger] splitter_name_accepted("periodic_24"@, reading),
        forall|kind: SplitterKind, reading: PeriodReading| #[trigger] splitter_named("sparse_set"@, kind, reading) <==> kind == SplitterKind::SparseSet,
        forall|reading: PeriodReading| #[trigger] splitter_name_accepted("sparse_set"@, reading),
        forall|kind: SplitterKind, reading: PeriodReading| #[trigger] splitter_named("sparse"@, kind, reading) <==> kind == SplitterKind::SparseSet,
        forall|reading: PeriodReading| #[trigger] splitter_name_accepted("sparse"@, reading),
{
    reveal_strlit("auto");
    reveal_strlit("axis");
    reveal_strlit("axis_histogram");
    reveal_strlit("axis_hist");
    reveal_strlit("histogram");
    reveal_strlit("diagonal_2d");
    reveal_strlit("diagonal2d");
    reveal_strlit("gaussian_2d");
    reveal_strlit("gaussian2d");
    reveal_strlit("radial");
    reveal_strlit("periodic_time");
    reveal_strlit("periodic_24");
    reveal_strlit("sparse_set");
    reveal_strlit("sparse");
    assert("auto"@.len() == 4);
    assert("axis"@.len() == 4);
    assert("axis_histogram"@.len() == 14);
    assert("axis_hist"@.len() == 9);
    assert("histogram"@.len() == 9);
    assert("diagonal_2d"@.len() == 11);
    assert("diagonal2d"@.len() == 10);
    assert("gaussian_2d"@.len() == 11);
    assert("gaussian2d"@.len() == 10);
    assert("radial"@.len() == 6);
    assert("periodic_time"@.len() == 13);
    assert("periodic_24"@.len() == 11);
    assert("sparse_set"@.len() == 10);
    assert("sparse"@.len() == 6);
    assert("auto"@[1] == 'u');
    assert("axis"@[1] == 'x');
    assert("axis_hist"@[0] == 'a');
    assert("diagonal2d"@[0] == 'd');
    assert("diagonal_2d"@[0] == 'd');
    assert("gaussian2d"@[0] == 'g');
    assert("gaussian_2d"@[0] == 'g');
    assert("histogram"@[0] == 'h');
    assert("periodic_24"@[0] == 'p');
    assert("radial"@[0] == 'r');
    assert("sparse"@[0] == 's');
    assert("sparse_set"@[0] == 's');
    reveal_strlit("axis_histogram:");
    reveal_strlit("axis_hist:");
    reveal_strlit("periodic:");
    assert("axis_histogram:"@.len() == 15);
    assert("axis_hist:"@.len() == 10);
    assert("periodic:"@.len() == 9);
    assert("axis_hist:"@[9] == ':');
    assert("axis_histogram"@[9] == 'o');
    assert("periodic:"@[8] == ':');
    assert("periodic_time"@[8] == '_');
    assert("periodic_24"@[8] == '_');
    assert forall|n: Seq<char>| #[trigger] splitter_fixed_name(n) implies histogram_bins_of(n) is None
        && !has_prefix(n, "periodic:"@) by {
        reveal_strlit("axis_histogram:");
        reveal_strlit("axis_hist:");
        reveal_strlit("periodic:");
        if has_prefix(n, "axis_histogram:"@) {
            assert(n.subrange(0, 15)[14] == ':');
        }
        if has_prefix(n, "axis_hist:"@) {
            assert(n.subrange(0, 10)[9] == ':');
        }
        if has_prefix(n, "periodic:"@) {
            assert(n.subrange(0, 9)[8] == ':');
        }
    }
}

/// Both histogram prefixes, `axis_histogram:` and `axis_hist:`, followed by
/// the decimal text of a number of bins of at least 2, select a histogram
/// with that many bins, whatever the period reading.
pub proof fn lemma_histogram_prefixes(bins: usize)
    requires
        bins >= 2,
    ensures
        forall|kind: SplitterKind, reading: PeriodReading| #[trigger] splitter_named(
            "axis_histogram:"@ + decimal_text(bins as nat),
            kind,
            reading,
        ) <==> kind == (SplitterKind::AxisHistogram { bins }),
        forall|kind: SplitterKind, reading: PeriodReading| #[trigger] splitter_named(
            "axis_hist:"@ + decimal_text(bins as nat),
            kind,
            reading,
        ) <==> kind == (SplitterKind::AxisHistogram { bins }),
{
    reveal_strlit("axis_histogram:");
    reveal_strlit("axis_hist:");
    lemma_splitter_round_trip(SplitterKind::AxisHistogram { bins }, PeriodReading::Invalid);
    lemma_usize_text_round_trip(bins);
    let digits = decimal_text(bins as nat);
    let name = "axis_hist:"@ + digits;
    assert(name.subrange(0, 10) =~= "axis_hist:"@);
    assert(name.subrange(10, name.len() as int) =~= digits);
    assert(name[9] == ':');
    assert(name[0] == 'a');
    assert(!has_prefix(name, "axis_histogram:"@)) by {
        if has_prefix(name, "axis_histogram:"@) {
            assert(name.subrange(0, 15)[9] == 'o');
        }
    }
    lemma_fixed_splitter_names();
    assert(!splitter_fixed_name(name)) by {
        reveal_strlit("auto");
        reveal_strlit("axis");
        reveal_strlit("axis_histogram");
        reveal_strlit("axis_hist");
        reveal_strlit("histogram");
        reveal_strlit("diagonal_2d");
        reveal_strlit("diagonal2d");
        reveal_strlit("gaussian_2d");
        reveal_strlit("gaussian2d");
        reveal_strlit("radial");
        reveal_strlit("periodic_time");
        reveal_strlit("periodic_24");
        reveal_strlit("sparse_set");
        reveal_strlit("sparse");
        assert(name.len() >= 11);
        assert("axis_histogram"@.len() == 14);
        assert("axis_histogram"@[9] == 'o');
        assert("periodic_time"@.len() == 13);
        assert("diagonal_2d"@.len() == 11);
        assert("gaussian_2d"@.len() == 11);
        assert("periodic_24"@.len() == 11);
        assert("diagonal_2d"@[0] == 'd');
        assert("gaussian_2d"@[0] == 'g');
        assert("periodic_24"@[0] == 'p');
        assert("periodic_time"@[0] == 'p');
        assert("auto"@.len() == 4);
        assert("axis"@.len() == 4);
        assert("axis_hist"@.len() == 9);
        assert("histogram"@.len() == 9);
        assert("diagonal2d"@.len() == 10);
        assert("gaussian2d"@.len() == 10);
        assert("radial"@.len() == 6);
        assert("sparse_set"@.len() == 10);
        assert("sparse"@.len() == 6);
    }
}

} // verus!
