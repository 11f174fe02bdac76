use std::collections::BTreeSet;
use vstd::prelude::*;

verus! {

/// A calendar feature that a lag forecaster derives from each timestamp.
#[derive(Clone, Copy, Debug, PartialEq, Eq, Structural)]
pub enum CalendarFeature {
    DayOfWeek,
    Month,
    Day,
    DayOfWeekSin,
    DayOfWeekCos,
    MonthSin,
    MonthCos,
    DaySin,
    DayCos,
    MonthStart,
    MonthMiddle,
    MonthEnd,
    DayOfYear,
    ElapsedIndex,
    /// The phase of the elapsed index within a cycle of this many steps.
    ElapsedPhase(usize),
}

/// The periods of `s` that give an elapsed phase: those of at least 2, each
/// at its first occurrence, in the order of `s`.
pub open spec fn first_periods(s: Seq<usize>) -> Seq<usize>
    decreases s.len(),
{
    if s.len() == 0 {
        Seq::empty()
    } else {
        let kept = first_periods(s.drop_last());
        let p = s.last();
        if p >= 2 && !kept.contains(p) {
            kept.push(p)
        } else {
            kept
        }
    }
}

/// One elapsed-phase feature per period.
pub open spec fn phase_features(periods: Seq<usize>) -> Seq<CalendarFeature> {
    periods.map_values(|p: usize| CalendarFeature::ElapsedPhase(p))
}

/// The periods given, if any.
pub open spec fn given_periods(periods: Option<&[usize]>) -> Seq<usize> {
    match periods {
        Some(s) => s@,
        None => Seq::empty(),
    }
}

/// The features of the plain calendar.
pub open spec fn basic_calendar() -> Seq<CalendarFeature> {
    seq![CalendarFeature::DayOfWeek, CalendarFeature::Month, CalendarFeature::Day]
}

/// The features that the rich calendar adds to the plain one.
pub open spec fn rich_calendar_extra() -> Seq<CalendarFeature> {
    seq![
        CalendarFeature::DayOfWeekSin,
        CalendarFeature::DayOfWeekCos,
        CalendarFeature::MonthSin,
        CalendarFeature::MonthCos,
        CalendarFeature::DaySin,
        CalendarFeature::DayCos,
        CalendarFeature::MonthStart,
        CalendarFeature::MonthMiddle,
        CalendarFeature::MonthEnd,
        CalendarFeature::DayOfYear,
        CalendarFeature::ElapsedIndex,
    ]
}

/// The calendar features for the given switches and elapsed periods: none
/// when disabled; the elapsed index and its phases when only elapsed time is
/// asked for; otherwise day of week, month and day, followed, for the rich
/// calendar, by their cyclic encodings, month position, day of year, the
/// elapsed index and its phases.
pub open spec fn calendar_features_of(
    enabled: bool,
    rich: bool,
    elapsed_only: bool,
    periods: Seq<usize>,
) -> Seq<CalendarFeature> {
    if !enabled {
        Seq::empty()
    } else if elapsed_only {
        seq![CalendarFeature::ElapsedIndex] + phase_features(first_periods(periods))
    } else if rich {
        basic_calendar() + rich_calendar_extra() + phase_features(first_periods(periods))
    } else {
        basic_calendar()
    }
}

/// `usize` keys obey the order laws that `BTreeSet`'s specification asks
/// for.
proof fn lemma_usize_keys_ordered()
    ensures
        vstd::laws_cmp::obeys_cmp::<usize>(),
{
    broadcast use vstd::laws_cmp::group_laws_cmp;

}

/// Appends one elapsed-phase feature for each period of at least 2, skipping
/// periods already seen (kept in a `BTreeSet`).
pub fn push_elapsed_calendar_periods(
    features: &mut Vec<CalendarFeature>,
    elapsed_periods: Option<&[usize]>,
)
    ensures
        final(features)@ == old(features)@ + phase_features(
            first_periods(given_periods(elapsed_periods)),
        ),
{
    let ghost start = features@;
    match elapsed_periods {
        None => {
            assert(first_periods(Seq::<usize>::empty()) =~= Seq::<usize>::empty());
            assert(features@ =~= start + phase_features(Seq::<usize>::empty()));
        },
        Some(periods) => {
            let mut seen: BTreeSet<usize> = BTreeSet::new();
            let ghost mut kept: Seq<usize> = Seq::empty();
            let mut i: usize = 0;
            assert(periods@.subrange(0, 0) =~= Seq::<usize>::empty());
            while i < periods.len()
                invariant
                    i <= periods@.len(),
                    kept == first_periods(periods@.subrange(0, i as int)),
                    forall|q: usize| seen@.contains(q) <==> kept.contains(q),
                    features@ == start + phase_features(kept),
                decreases periods@.len() - i,
            {
                let p = periods[i];
                let ghost prefix = periods@.subrange(0, i as int + 1);
                assert(prefix.drop_last() =~= periods@.subrange(0, i as int));
                assert(prefix.last() == p);
                proof {
                    lemma_usize_keys_ordered();
                }
                let ghost old_seen = seen@;
                let ghost old_kept = kept;
                if p >= 2 {
                    let fresh = seen.insert(p);
                    assert(seen@ == old_seen.insert(p));
                    assert(fresh == !old_kept.contains(p));
                    if fresh {
                        proof {
                            kept = old_kept.push(p);
                            assert forall|q: usize| seen@.contains(q) <==> kept.contains(q) by {
                                if old_kept.contains(q) {
                                    let k = choose|k: int| 0 <= k < old_kept.len() && old_kept[k] == q;
                                    assert(kept[k] == q);
                                }
                                if q == p {
                                    assert(kept[kept.len() - 1] == q);
                                }
                                if kept.contains(q) && q != p {
                                    let k = choose|k: int| 0 <= k < kept.len() && kept[k] == q;
                                    assert(old_kept[k] == q);
                                }
                            }
                        }
                        features.push(CalendarFeature::ElapsedPhase(p));
                        assert(features@ =~= start + phase_features(kept));
                    } else {
                        assert(seen@ =~= old_seen);
                    }
                }
                i = i + 1;
            }
            assert(periods@.subrange(0, periods@.len() as int) =~= periods@);
        },
    }
}

/// The calendar features of a lag forecaster (see `calendar_features_of`).
pub fn calendar_feature_config(
    enabled: bool,
    rich: bool,
    elapsed_only: bool,
    elapsed_periods: Option<&[usize]>,
) -> (r: Vec<CalendarFeature>)
    ensures
        r@ == calendar_features_of(enabled, rich, elapsed_only, given_periods(elapsed_periods)),
{
    if !enabled {
        return Vec::new();
    }
    if elapsed_only {
        let mut features: Vec<CalendarFeature> = Vec::new();
        features.push(CalendarFeature::ElapsedIndex);
        push_elapsed_calendar_periods(&mut features, elapsed_periods);
        return features;
    }
    let mut features: Vec<CalendarFeature> = Vec::new();
    features.push(CalendarFeature::DayOfWeek);
    features.push(CalendarFeature::Month);
    features.push(CalendarFeature::Day);
    assert(features@ =~= basic_calendar());
    if rich {
        features.push(CalendarFeature::DayOfWeekSin);
        features.push(CalendarFeature::DayOfWeekCos);
        features.push(CalendarFeature::MonthSin);
        features.push(CalendarFeature::MonthCos);
        features.push(CalendarFeature::DaySin);
        features.push(CalendarFeature::DayCos);
        features.push(CalendarFeature::MonthStart);
        features.push(CalendarFeature::MonthMiddle);
        features.push(CalendarFeature::MonthEnd);
        features.push(CalendarFeature::DayOfYear);
        features.push(CalendarFeature::ElapsedIndex);
        assert(features@ =~= basic_calendar() + rich_calendar_extra());
        push_elapsed_calendar_periods(&mut features, elapsed_periods);
    }
    features
}

/// The elapsed periods kept are exactly the distinct periods of at least 2
/// that were given, each once.
pub proof fn lemma_first_periods_distinct(s: Seq<usize>)
    ensures
        first_periods(s).no_duplicates(),
        forall|p: usize| #[trigger] first_periods(s).contains(p) <==> (p >= 2 && s.contains(p)),
    decreases s.len(),
{
    if s.len() > 0 {
        let t = s.drop_last();
        lemma_first_periods_distinct(t);
        let kept = first_periods(t);
        let p = s.last();
        assert forall|q: usize| #[trigger] s.contains(q) <==> (t.contains(q) || q == p) by {
            if s.contains(q) {
                let k = choose|k: int| 0 <= k < s.len() && s[k] == q;
                if k < s.len() - 1 {
                    assert(t[k] == q);
                }
            }
            if t.contains(q) {
                let k = choose|k: int| 0 <= k < t.len() && t[k] == q;
                assert(s[k] == q);
            }
            if q == p {
                assert(s[s.len() - 1] == q);
            }
        }
        if p >= 2 && !kept.contains(p) {
            let r = kept.push(p);
            assert forall|q: usize| #[trigger] r.contains(q) <==> (kept.contains(q) || q == p) by {
                if r.contains(q) {
                    let k = choose|k: int| 0 <= k < r.len() && r[k] == q;
                    if k < kept.len() {
                        assert(kept[k] == q);
                    }
                }
                if kept.contains(q) {
                    let k = choose|k: int| 0 <= k < kept.len() && kept[k] == q;
                    assert(r[k] == q);
                }
                if q == p {
                    assert(r[r.len() - 1] == q);
                }
            }
            assert forall|i: int, j: int| 0 <= i < r.len() && 0 <= j < r.len() && i != j implies r[i]
                != r[j] by {
                if i < kept.len() && j < kept.len() {
                } else if i == kept.len() {
                    assert(kept.contains(r[j]));
                } else {
                    assert(kept.contains(r[i]));
                }
            }
        }
    } else {
        assert(first_periods(s) =~= Seq::<usize>::empty());
    }
}

/// Elapsed-phase features for distinct periods are distinct.
proof fn lemma_phase_features_distinct(periods: Seq<usize>)
    requires
        periods.no_duplicates(),
    ensures
        phase_features(periods).no_duplicates(),
        forall|i: int|
            0 <= i < phase_features(periods).len() ==> (#[trigger] phase_features(periods)[i]) is ElapsedPhase,
{
    let phases = phase_features(periods);
    assert forall|i: int, j: int| 0 <= i < phases.len() && 0 <= j < phases.len() && i != j implies phases[i]
        != phases[j] by {
        assert(phases[i] == CalendarFeature::ElapsedPhase(periods[i]));
        assert(phases[j] == CalendarFeature::ElapsedPhase(periods[j]));
    }
}

/// No calendar feature is asked for twice, whatever the switches and
/// however often a period is repeated.
pub proof fn lemma_calendar_features_distinct(
    enabled: bool,
    rich: bool,
    elapsed_only: bool,
    periods: Seq<usize>,
)
    ensures
        calendar_features_of(enabled, rich, elapsed_only, periods).no_duplicates(),
{
    lemma_first_periods_distinct(periods);
    let phases = phase_features(first_periods(periods));
    lemma_phase_features_distinct(first_periods(periods));
    let features = calendar_features_of(enabled, rich, elapsed_only, periods);
    if !enabled {
    } else if elapsed_only {
        assert forall|i: int, j: int|
            0 <= i < features.len() && 0 <= j < features.len() && i != j implies features[i]
            != features[j] by {
            if i >= 1 && j >= 1 {
                assert(features[i] == phases[i - 1]);
                assert(features[j] == phases[j - 1]);
            } else if i == 0 {
                assert(features[j] == phases[j - 1]);
            } else {
                assert(features[i] == phases[i - 1]);
            }
        }
    } else if rich {
        let head = basic_calendar() + rich_calendar_extra();
        assert(head.len() == 14);
        assert forall|i: int, j: int|
            0 <= i < head.len() && 0 <= j < head.len() && i != j implies head[i] != head[j] by {
            assert(head =~= seq![
                CalendarFeature::DayOfWeek,
                CalendarFeature::Month,
                CalendarFeature::Day,
                CalendarFeature::DayOfWeekSin,
                CalendarFeature::DayOfWeekCos,
                CalendarFeature::MonthSin,
                CalendarFeature::MonthCos,
                CalendarFeature::DaySin,
                CalendarFeature::DayCos,
                CalendarFeature::MonthStart,
                CalendarFeature::MonthMiddle,
                CalendarFeature::MonthEnd,
                CalendarFeature::DayOfYear,
                CalendarFeature::ElapsedIndex,
            ]);
        }
        assert forall|i: int| 0 <= i < head.len() implies !(#[trigger] head[i] is ElapsedPhase) by {
            assert(head =~= seq![
                CalendarFeature::DayOfWeek,
                CalendarFeature::Month,
                CalendarFeature::Day,
                CalendarFeature::DayOfWeekSin,
                CalendarFeature::DayOfWeekCos,
                CalendarFeature::MonthSin,
                CalendarFeature::MonthCos,
                CalendarFeature::DaySin,
                CalendarFeature::DayCos,
                CalendarFeature::MonthStart,
                CalendarFeature::MonthMiddle,
                CalendarFeature::MonthEnd,
                CalendarFeature::DayOfYear,
                CalendarFeature::ElapsedIndex,
            ]);
        }
        assert(features =~= head + phases);
        assert forall|i: int, j: int|
            0 <= i < features.len() && 0 <= j < features.len() && i != j implies features[i]
            != features[j] by {
            if i < 14 && j < 14 {
                assert(features[i] == head[i]);
                assert(features[j] == head[j]);
            } else if i >= 14 && j >= 14 {
                assert(features[i] == phases[i - 14]);
                assert(features[j] == phases[j - 14]);
            } else if i < 14 {
                assert(features[i] == head[i]);
                assert(features[j] == phases[j - 14]);
            } else {
                assert(features[j] == head[j]);
                assert(features[i] == phases[i - 14]);
            }
        }
    } else {
        assert(features =~= seq![CalendarFeature::DayOfWeek, CalendarFeature::Month, CalendarFeature::Day]);
    }
}

/// What each switch gives: nothing when disabled, whatever else is asked;
/// only the elapsed index and its phases when only elapsed time is asked for,
/// rich or not; day of week, month and day for the plain calendar; and for
/// the rich calendar those, their sine and cosine, month start, middle and
/// end, day of year and the elapsed index, followed by the phases.
pub proof fn lemma_calendar_switches(periods: Seq<usize>)
    ensures
        forall|rich: bool, elapsed_only: bool| #[trigger] calendar_features_of(false, rich, elapsed_only, periods)
            == Seq::<CalendarFeature>::empty(),
        forall|rich: bool| #[trigger] calendar_features_of(true, rich, true, periods) == seq![
            CalendarFeature::ElapsedIndex,
        ] + phase_features(first_periods(periods)),
        calendar_features_of(true, false, false, periods) == seq![
            CalendarFeature::DayOfWeek,
            CalendarFeature::Month,
            CalendarFeature::Day,
        ],
        calendar_features_of(true, true, false, periods) == seq![
            CalendarFeature::DayOfWeek,
            CalendarFeature::Month,
            CalendarFeature::Day,
            CalendarFeature::DayOfWeekSin,
            CalendarFeature::DayOfWeekCos,
            CalendarFeature::MonthSin,
            CalendarFeature::MonthCos,
            CalendarFeature::DaySin,
            CalendarFeature::DayCos,
            CalendarFeature::MonthStart,
            CalendarFeature::MonthMiddle,
            CalendarFeature::MonthEnd,
            CalendarFeature::DayOfYear,
            CalendarFeature::ElapsedIndex,
        ] + phase_features(first_periods(periods)),
{
    assert(basic_calendar() + rich_calendar_extra() =~= seq![
            CalendarFeature::DayOfWeek,
            CalendarFeature::Month,
            CalendarFeature::Day,
            CalendarFeature::DayOfWeekSin,
            CalendarFeature::DayOfWeekCos,
            CalendarFeature::MonthSin,
            CalendarFeature::MonthCos,
            CalendarFeature::DaySin,
            CalendarFeature::DayCos,
            CalendarFeature::MonthStart,
            CalendarFeature::MonthMiddle,
            CalendarFeature::MonthEnd,
            CalendarFeature::DayOfYear,
            CalendarFeature::ElapsedIndex,
        ]);
}

} // verus!
