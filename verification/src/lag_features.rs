use vstd::prelude::*;

verus! {

/// The lag forecasters whose feature lists have defaults.
#[derive(Clone, Copy, Debug, PartialEq, Eq, Structural)]
pub enum LagModelFamily {
    /// The global lag forecaster.
    LagForecaster,
    /// The automatic forecast model.
    AutoForecastModel,
}

/// Why a lag forecaster could not be configured.
#[derive(Clone, Copy, Debug, PartialEq, Eq, Structural)]
pub enum LagConfigError {
    /// Only recursive forecasting is supported.
    RecursiveOnly,
}

/// The lag and window lists that a lag forecaster was asked for; `None` takes
/// the family's default.
#[derive(Clone, Debug)]
pub struct LagListRequest {
    pub lags: Option<Vec<usize>>,
    pub rolling_windows: Option<Vec<usize>>,
    pub partial_rolling_mean_windows: Option<Vec<usize>>,
    pub ewm_alpha_percents: Option<Vec<u8>>,
    pub rolling_std_windows: Option<Vec<usize>>,
    pub rolling_min_windows: Option<Vec<usize>>,
    pub rolling_max_windows: Option<Vec<usize>>,
    pub difference_lags: Option<Vec<usize>>,
    pub rolling_trend_windows: Option<Vec<usize>>,
    pub trend_features: bool,
}

/// The lag and window lists a lag forecaster uses.
#[derive(Clone, Debug)]
pub struct LagLists {
    pub lags: Vec<usize>,
    pub rolling_mean_windows: Vec<usize>,
    pub partial_rolling_mean_windows: Vec<usize>,
    pub ewm_alpha_percents: Vec<u8>,
    pub rolling_std_windows: Vec<usize>,
    pub rolling_min_windows: Vec<usize>,
    pub rolling_max_windows: Vec<usize>,
    pub difference_lags: Vec<usize>,
    pub rolling_trend_windows: Vec<usize>,
}

/// The default lags of a family.
pub open spec fn default_lags(family: LagModelFamily) -> Seq<usize> {
    match family {
        LagModelFamily::LagForecaster => seq![1, 7, 14],
        LagModelFamily::AutoForecastModel => seq![1, 2, 3, 7, 14, 28],
    }
}

/// The default rolling windows of a family (mean, deviation, minimum and
/// maximum alike).
pub open spec fn default_windows(family: LagModelFamily) -> Seq<usize> {
    match family {
        LagModelFamily::LagForecaster => seq![7, 28],
        LagModelFamily::AutoForecastModel => seq![7, 14, 28],
    }
}

/// The steps of `s` greater than one, in order.
pub open spec fn steps_above_one(s: Seq<usize>) -> Seq<usize>
    decreases s.len(),
{
    if s.len() == 0 {
        Seq::empty()
    } else if s.last() > 1 {
        steps_above_one(s.drop_last()).push(s.last())
    } else {
        steps_above_one(s.drop_last())
    }
}

/// The list given, or `default` when none was.
pub open spec fn list_or(given: Option<Vec<usize>>, default: Seq<usize>) -> Seq<usize> {
    match given {
        Some(v) => v@,
        None => default,
    }
}

/// A trend list: the one given; else, with trend features, the steps of
/// `base` greater than one; else none.
pub open spec fn trend_steps(given: Option<Vec<usize>>, base: Seq<usize>, trend: bool) -> Seq<usize> {
    match given {
        Some(v) => v@,
        None => if trend {
            steps_above_one(base)
        } else {
            Seq::empty()
        },
    }
}

/// Only recursive lag forecasting is supported.
pub fn require_recursive(recursive: bool) -> (r: Result<(), LagConfigError>)
    ensures
        r is Ok <==> recursive,
{
    if recursive {
        Ok(())
    } else {
        Err(LagConfigError::RecursiveOnly)
    }
}

/// The steps of `s` greater than one, in order.
pub fn keep_steps_above_one(s: &Vec<usize>) -> (r: Vec<usize>)
    ensures
        r@ == steps_above_one(s@),
{
    let mut r: Vec<usize> = Vec::new();
    let mut i: usize = 0;
    assert(s@.subrange(0, 0) =~= Seq::<usize>::empty());
    while i < s.len()
        invariant
            i <= s@.len(),
            r@ == steps_above_one(s@.subrange(0, i as int)),
        decreases s@.len() - i,
    {
        let ghost prefix = s@.subrange(0, i as int + 1);
        assert(prefix.drop_last() =~= s@.subrange(0, i as int));
        if s[i] > 1 {
            r.push(s[i]);
        }
        i = i + 1;
    }
    assert(s@.subrange(0, s@.len() as int) =~= s@);
    r
}

/// The family's default lags.
fn default_lag_list(family: LagModelFamily) -> (r: Vec<usize>)
    ensures
        r@ == default_lags(family),
{
    match family {
        LagModelFamily::LagForecaster => {
            let r = vec![1, 7, 14];
            assert(r@ =~= default_lags(family));
            r
        },
        LagModelFamily::AutoForecastModel => {
            let r = vec![1, 2, 3, 7, 14, 28];
            assert(r@ =~= default_lags(family));
            r
        },
    }
}

/// The family's default rolling windows.
fn default_window_list(family: LagModelFamily) -> (r: Vec<usize>)
    ensures
        r@ == default_windows(family),
{
    match family {
        LagModelFamily::LagForecaster => {
            let r = vec![7, 28];
            assert(r@ =~= default_windows(family));
            r
        },
        LagModelFamily::AutoForecastModel => {
            let r = vec![7, 14, 28];
            assert(r@ =~= default_windows(family));
            r
        },
    }
}

/// The list given, or the family's default windows.
fn windows_or_default(given: Option<Vec<usize>>, family: LagModelFamily) -> (r: Vec<usize>)
    ensures
        r@ == list_or(given, default_windows(family)),
{
    match given {
        Some(v) => v,
        None => default_window_list(family),
    }
}

/// The lag and window lists of a lag forecaster: each list given is kept;
/// a missing lag or window list takes the family's default (no partial
/// rolling means and no exponential weights by default); missing
/// difference lags and trend windows are, with trend features, the lags and
/// rolling mean windows greater than one, and otherwise empty.
pub fn resolve_lag_lists(family: LagModelFamily, request: LagListRequest) -> (r: LagLists)
    ensures
        r.lags@ == list_or(request.lags, default_lags(family)),
        r.rolling_mean_windows@ == list_or(request.rolling_windows, default_windows(family)),
        r.partial_rolling_mean_windows@ == list_or(request.partial_rolling_mean_windows, Seq::empty()),
        r.ewm_alpha_percents@ == (match request.ewm_alpha_percents {
            Some(v) => v@,
            None => Seq::<u8>::empty(),
        }),
        r.rolling_std_windows@ == list_or(request.rolling_std_windows, default_windows(family)),
        r.rolling_min_windows@ == list_or(request.rolling_min_windows, default_windows(family)),
        r.rolling_max_windows@ == list_or(request.rolling_max_windows, default_windows(family)),
        r.difference_lags@ == trend_steps(
            request.difference_lags,
            list_or(request.lags, default_lags(family)),
            request.trend_features,
        ),
        r.rolling_trend_windows@ == trend_steps(
            request.rolling_trend_windows,
            list_or(request.rolling_windows, default_windows(family)),
            request.trend_features,
        ),
{
    let LagListRequest {
        lags,
        rolling_windows,
        partial_rolling_mean_windows,
        ewm_alpha_percents,
        rolling_std_windows,
        rolling_min_windows,
        rolling_max_windows,
        difference_lags,
        rolling_trend_windows,
        trend_features,
    } = request;
    let partial_rolling_mean_windows = match partial_rolling_mean_windows {
        Some(v) => v,
        None => Vec::new(),
    };
    let ewm_alpha_percents = match ewm_alpha_percents {
        Some(v) => v,
        None => Vec::new(),
    };
    let lags = match lags {
        Some(v) => v,
        None => default_lag_list(family),
    };
    let rolling_mean_windows = windows_or_default(rolling_windows, family);
    let rolling_std_windows = windows_or_default(rolling_std_windows, family);
    let rolling_min_windows = windows_or_default(rolling_min_windows, family);
    let rolling_max_windows = windows_or_default(rolling_max_windows, family);
    let difference_lags = match difference_lags {
        Some(v) => v,
        None => if trend_features {
            keep_steps_above_one(&lags)
        } else {
            Vec::new()
        },
    };
    let rolling_trend_windows = match rolling_trend_windows {
        Some(v) => v,
        None => if trend_features {
            keep_steps_above_one(&rolling_mean_windows)
        } else {
            Vec::new()
        },
    };
    LagLists {
        lags,
        rolling_mean_windows,
        partial_rolling_mean_windows,
        ewm_alpha_percents,
        rolling_std_windows,
        rolling_min_windows,
        rolling_max_windows,
        difference_lags,
        rolling_trend_windows,
    }
}

/// The steps kept are exactly the steps of `s` greater than one, in their
/// order: each kept step is greater than one and every such step of `s` is
/// kept.
pub proof fn lemma_steps_above_one(s: Seq<usize>)
    ensures
        steps_above_one(s).len() <= s.len(),
        forall|i: int| 0 <= i < steps_above_one(s).len() ==> #[trigger] steps_above_one(s)[i] > 1,
        forall|x: usize| #[trigger] steps_above_one(s).contains(x) <==> (x > 1 && s.contains(x)),
    decreases s.len(),
{
    if s.len() > 0 {
        let t = s.drop_last();
        lemma_steps_above_one(t);
        let x = s.last();
        assert forall|q: usize| #[trigger] s.contains(q) <==> (t.contains(q) || q == x) by {
            if s.contains(q) {
                let k = choose|k: int| 0 <= k < s.len() && s[k] == q;
                if k < s.len() - 1 {
                    assert(t[k] == q);
                }
            }
            if t.contains(q) {
                let k = choose|k: int| 0 <= k < t.len() && t[k] == q;
                assert(s[k] == q);
            }
            if q == x {
                assert(s[s.len() - 1] == q);
            }
        }
        if x > 1 {
            let kept = steps_above_one(t);
            let r = kept.push(x);
            assert forall|q: usize| #[trigger] r.contains(q) <==> (kept.contains(q) || q == x) by {
                if r.contains(q) {
                    let k = choose|k: int| 0 <= k < r.len() && r[k] == q;
                    if k < kept.len() {
                        assert(kept[k] == q);
                    }
                }
                if kept.contains(q) {
                    let k = choose|k: int| 0 <= k < kept.len() && kept[k] == q;
                    assert(r[k] == q);
                }
                if q == x {
                    assert(r[r.len() - 1] == q);
                }
            }
        }
    } else {
        assert(steps_above_one(s) =~= Seq::<usize>::empty());
    }
}

/// The defaults: the lag forecaster lags 1, 7 and 14 with windows of 7 and
/// 28; the automatic model lags 1, 2, 3, 7, 14 and 28 with windows of 7, 14
/// and 28. With trend features and nothing given, the difference lags and
/// trend windows are those defaults above one; without trend features they
/// are empty; a list given is always kept.
pub proof fn lemma_lag_defaults()
    ensures
        default_lags(LagModelFamily::LagForecaster) == seq![1usize, 7, 14],
        default_windows(LagModelFamily::LagForecaster) == seq![7usize, 28],
        default_lags(LagModelFamily::AutoForecastModel) == seq![1usize, 2, 3, 7, 14, 28],
        default_windows(LagModelFamily::AutoForecastModel) == seq![7usize, 14, 28],
        trend_steps(None, default_lags(LagModelFamily::LagForecaster), true) == seq![7usize, 14],
        trend_steps(None, default_windows(LagModelFamily::LagForecaster), true) == seq![7usize, 28],
        trend_steps(None, default_lags(LagModelFamily::AutoForecastModel), true) == seq![
            2usize,
            3,
            7,
            14,
            28,
        ],
        trend_steps(None, default_windows(LagModelFamily::AutoForecastModel), true) == seq![
            7usize,
            14,
            28,
        ],
        forall|base: Seq<usize>| #[trigger] trend_steps(None, base, false) == Seq::<usize>::empty(),
        forall|v: Vec<usize>, base: Seq<usize>, trend: bool| #[trigger] trend_steps(Some(v), base, trend) == v@,
{
    reveal_with_fuel(steps_above_one, 7);
    assert(steps_above_one(seq![1usize, 7, 14]) =~= seq![7usize, 14]) by {
        assert(seq![1usize, 7, 14].drop_last() =~= seq![1usize, 7]);
        assert(seq![1usize, 7].drop_last() =~= seq![1usize]);
        assert(seq![1usize].drop_last() =~= Seq::<usize>::empty());
    }
    assert(steps_above_one(seq![7usize, 28]) =~= seq![7usize, 28]) by {
        assert(seq![7usize, 28].drop_last() =~= seq![7usize]);
        assert(seq![7usize].drop_last() =~= Seq::<usize>::empty());
    }
    assert(steps_above_one(seq![1usize, 2, 3, 7, 14, 28]) =~= seq![2usize, 3, 7, 14, 28]) by {
        assert(seq![1usize, 2, 3, 7, 14, 28].drop_last() =~= seq![1usize, 2, 3, 7, 14]);
        assert(seq![1usize, 2, 3, 7, 14].drop_last() =~= seq![1usize, 2, 3, 7]);
        assert(seq![1usize, 2, 3, 7].drop_last() =~= seq![1usize, 2, 3]);
        assert(seq![1usize, 2, 3].drop_last() =~= seq![1usize, 2]);
        assert(seq![1usize, 2].drop_last() =~= seq![1usize]);
        assert(seq![1usize].drop_last() =~= Seq::<usize>::empty());
    }
    assert(steps_above_one(seq![7usize, 14, 28]) =~= seq![7usize, 14, 28]) by {
        assert(seq![7usize, 14, 28].drop_last() =~= seq![7usize, 14]);
        assert(seq![7usize, 14].drop_last() =~= seq![7usize]);
        assert(seq![7usize].drop_last() =~= Seq::<usize>::empty());
    }
}

} // verus!
