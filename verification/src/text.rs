use vstd::prelude::*;

verus! {

// ---------------------------------------------------------------------------
// Names that an option does not accept
// ---------------------------------------------------------------------------

/// A name that none of an option's spellings accepts; `name` is the text as
/// it was matched, for the caller's message.
#[derive(Clone, Debug)]
pub struct UnknownName {
    pub name: String,
}

/// `r` is what a name parser owes: the value that `expected` names when there
/// is one, and otherwise an `UnknownName` that shows `shown`.
pub open spec fn parsed<T>(r: Result<T, UnknownName>, expected: Option<T>, shown: Seq<char>) -> bool {
    match r {
        Ok(v) => expected == Some(v),
        Err(e) => expected is None && e.name@ == shown,
    }
}

// ---------------------------------------------------------------------------
// Character classes
// ---------------------------------------------------------------------------

/// Whether `c` carries the Unicode `White_Space` property, the set that
/// `char::is_whitespace` and `str::trim` use.
pub open spec fn is_white_space(c: char) -> bool {
    ||| ('\u{9}' <= c && c <= '\u{d}')
    ||| c == ' '
    ||| c == '\u{85}'
    ||| c == '\u{a0}'
    ||| c == '\u{1680}'
    ||| ('\u{2000}' <= c && c <= '\u{200a}')
    ||| c == '\u{2028}'
    ||| c == '\u{2029}'
    ||| c == '\u{202f}'
    ||| c == '\u{205f}'
    ||| c == '\u{3000}'
}

/// ASCII lower-casing of one character, as `to_ascii_lowercase` does it:
/// `A..=Z` become `a..=z`, every other character stays.
pub open spec fn ascii_lower(c: char) -> char {
    if 'A' <= c && c <= 'Z' {
        ((c as int) + 32) as char
    } else {
        c
    }
}

/// The per-character part of option-name normalisation: ASCII lower case,
/// with `-` read as `_`.
pub open spec fn option_char(c: char) -> char {
    if c == '-' {
        '_'
    } else {
        ascii_lower(c)
    }
}

// ---------------------------------------------------------------------------
// Trimming and normalised keys
// ---------------------------------------------------------------------------

/// `s` without its leading white space.
pub open spec fn trim_start(s: Seq<char>) -> Seq<char>
    decreases s.len(),
{
    if s.len() > 0 && is_white_space(s[0]) {
        trim_start(s.drop_first())
    } else {
        s
    }
}

/// `s` without its trailing white space.
pub open spec fn trim_end(s: Seq<char>) -> Seq<char>
    decreases s.len(),
{
    if s.len() > 0 && is_white_space(s.last()) {
        trim_end(s.drop_last())
    } else {
        s
    }
}

/// `s` without white space at either end (`str::trim`).
pub open spec fn trimmed(s: Seq<char>) -> Seq<char> {
    trim_end(trim_start(s))
}

/// The key an option name is matched by: trimmed, ASCII lower case, `-` as `_`.
pub open spec fn option_key(s: Seq<char>) -> Seq<char> {
    trimmed(s).map_values(|c: char| option_char(c))
}

/// The key a mode name is matched by: trimmed and ASCII lower case.
pub open spec fn lower_key(s: Seq<char>) -> Seq<char> {
    trimmed(s).map_values(|c: char| ascii_lower(c))
}

/// Whether `p` is a prefix of `s`.
pub open spec fn has_prefix(s: Seq<char>, p: Seq<char>) -> bool {
    p.len() <= s.len() && s.subrange(0, p.len() as int) == p
}

/// `s` with every space replaced by `T`.
pub open spec fn spaces_to_t(s: Seq<char>) -> Seq<char> {
    s.map_values(|c: char| if c == ' ' { 'T' } else { c })
}

// ---------------------------------------------------------------------------
// Lemmas on trimming
// ---------------------------------------------------------------------------

/// Skipping a run of white space at the front is what `trim_start` does.
pub proof fn lemma_trim_start_at(s: Seq<char>, i: int)
    requires
        0 <= i <= s.len(),
        forall|k: int| 0 <= k < i ==> is_white_space(#[trigger] s[k]),
        i == s.len() || !is_white_space(s[i]),
    ensures
        trim_start(s) == s.subrange(i, s.len() as int),
    decreases i,
{
    if i == 0 {
        assert(s.subrange(0, s.len() as int) =~= s);
    } else {
        let t = s.drop_first();
        assert forall|k: int| 0 <= k < i - 1 implies is_white_space(#[trigger] t[k]) by {
            assert(t[k] == s[k + 1]);
        }
        lemma_trim_start_at(t, i - 1);
        assert(t.subrange(i - 1, t.len() as int) =~= s.subrange(i, s.len() as int));
    }
}

/// Dropping a run of white space at the back is what `trim_end` does.
pub proof fn lemma_trim_end_at(s: Seq<char>, j: int)
    requires
        0 <= j <= s.len(),
        forall|k: int| j <= k < s.len() ==> is_white_space(#[trigger] s[k]),
        j == 0 || !is_white_space(s[j - 1]),
    ensures
        trim_end(s) == s.subrange(0, j),
    decreases s.len() - j,
{
    if j == s.len() {
        assert(s.subrange(0, j) =~= s);
    } else {
        let t = s.drop_last();
        assert forall|k: int| j <= k < t.len() implies is_white_space(#[trigger] t[k]) by {
            assert(t[k] == s[k]);
        }
        lemma_trim_end_at(t, j);
        assert(t.subrange(0, j) =~= s.subrange(0, j));
    }
}

/// Where `trim_start` cuts: the index of the first non-white-space character.
pub proof fn lemma_trim_start_index(s: Seq<char>) -> (i: int)
    ensures
        0 <= i <= s.len(),
        trim_start(s) == s.subrange(i, s.len() as int),
        i == s.len() || !is_white_space(s[i]),
    decreases s.len(),
{
    if s.len() > 0 && is_white_space(s[0]) {
        let t = s.drop_first();
        let j = lemma_trim_start_index(t);
        assert(t.subrange(j, t.len() as int) =~= s.subrange(j + 1, s.len() as int));
        if j < t.len() {
            assert(t[j] == s[j + 1]);
        }
        j + 1
    } else {
        assert(s.subrange(0, s.len() as int) =~= s);
        0
    }
}

/// Where `trim_end` cuts: just after the last non-white-space character.
pub proof fn lemma_trim_end_index(s: Seq<char>) -> (j: int)
    ensures
        0 <= j <= s.len(),
        trim_end(s) == s.subrange(0, j),
        j == 0 || !is_white_space(s[j - 1]),
    decreases s.len(),
{
    if s.len() > 0 && is_white_space(s.last()) {
        let t = s.drop_last();
        let j = lemma_trim_end_index(t);
        assert(t.subrange(0, j) =~= s.subrange(0, j));
        if j > 0 {
            assert(t[j - 1] == s[j - 1]);
        }
        j
    } else {
        assert(s.subrange(0, s.len() as int) =~= s);
        s.len() as int
    }
}

/// A trimmed text neither begins nor ends with white space.
pub proof fn lemma_trimmed_ends(s: Seq<char>)
    ensures
        trimmed(s).len() > 0 ==> !is_white_space(trimmed(s)[0]) && !is_white_space(
            trimmed(s).last(),
        ),
{
    let u = trim_start(s);
    let i = lemma_trim_start_index(s);
    let j = lemma_trim_end_index(u);
    if j > 0 {
        assert(u[0] == s[i]);
        assert(trimmed(s)[0] == u[0]);
        assert(trimmed(s).last() == u[j - 1]);
    }
}

/// A text that neither begins nor ends with white space is its own trim.
pub proof fn lemma_trimmed_when_no_edge_space(s: Seq<char>)
    requires
        s.len() > 0 ==> !is_white_space(s[0]) && !is_white_space(s.last()),
    ensures
        trimmed(s) == s,
{
    lemma_trim_start_at(s, 0);
    assert(s.subrange(0, s.len() as int) =~= s);
    lemma_trim_end_at(s, s.len() as int);
}

/// Normalising an option name twice is normalising it once: parsing a
/// normalised name accepts exactly what parsing the raw name accepts.
pub proof fn lemma_option_key_idempotent(s: Seq<char>)
    ensures
        option_key(option_key(s)) == option_key(s),
{
    let t = trimmed(s);
    let k = option_key(s);
    lemma_trimmed_ends(s);
    if k.len() > 0 {
        assert(k[0] == option_char(t[0]));
        assert(k.last() == option_char(t.last()));
    }
    lemma_trimmed_when_no_edge_space(k);
    assert(k.map_values(|c: char| option_char(c)) =~= k);
}

/// Lower-casing a mode name twice is lower-casing it once.
pub proof fn lemma_lower_key_idempotent(s: Seq<char>)
    ensures
        lower_key(lower_key(s)) == lower_key(s),
{
    let t = trimmed(s);
    let k = lower_key(s);
    lemma_trimmed_ends(s);
    if k.len() > 0 {
        assert(k[0] == ascii_lower(t[0]));
        assert(k.last() == ascii_lower(t.last()));
    }
    lemma_trimmed_when_no_edge_space(k);
    assert(k.map_values(|c: char| ascii_lower(c)) =~= k);
}

/// An option key is the trimmed name, character for character, with no
/// upper-case ASCII letter and no `-` left: each upper-case letter becomes
/// its lower-case letter, each `-` an `_`, and every other character stays.
pub proof fn lemma_option_key_characters(s: Seq<char>)
    ensures
        option_key(s).len() == trimmed(s).len(),
        forall|i: int|
            0 <= i < option_key(s).len() ==> {
                let c = trimmed(s)[i];
                let k = #[trigger] option_key(s)[i];
                &&& k != '-'
                &&& !('A' <= k && k <= 'Z')
                &&& (c == '-' ==> k == '_')
                &&& ('A' <= c && c <= 'Z' ==> k as int == c as int + 32)
                &&& (c != '-' && !('A' <= c && c <= 'Z') ==> k == c)
            },
{
}

/// A lower key is the trimmed name, character for character, with each
/// upper-case ASCII letter lowered and every other character (`-` among
/// them) kept.
pub proof fn lemma_lower_key_characters(s: Seq<char>)
    ensures
        lower_key(s).len() == trimmed(s).len(),
        forall|i: int|
            0 <= i < lower_key(s).len() ==> {
                let c = trimmed(s)[i];
                let k = #[trigger] lower_key(s)[i];
                &&& !('A' <= k && k <= 'Z')
                &&& ('A' <= c && c <= 'Z' ==> k as int == c as int + 32)
                &&& (!('A' <= c && c <= 'Z') ==> k == c)
            },
{
}

// ---------------------------------------------------------------------------
// Executable helpers
// ---------------------------------------------------------------------------

/// Executable test for `is_white_space`.
pub fn char_is_white_space(c: char) -> (b: bool)
    ensures
        b == is_white_space(c),
{
    ('\u{9}' <= c && c <= '\u{d}') || c == ' ' || c == '\u{85}' || c == '\u{a0}' || c == '\u{1680}'
        || ('\u{2000}' <= c && c <= '\u{200a}') || c == '\u{2028}' || c == '\u{2029}' || c
        == '\u{202f}' || c == '\u{205f}' || c == '\u{3000}'
}

/// Executable `ascii_lower`.
pub fn char_ascii_lower(c: char) -> (r: char)
    ensures
        r == ascii_lower(c),
{
    if 'A' <= c && c <= 'Z' {
        let code: u32 = c as u32;
        let lowered: u8 = (code + 32) as u8;
        lowered as char
    } else {
        c
    }
}

/// The characters of `s`, in order.
pub fn str_chars(s: &str) -> (v: Vec<char>)
    ensures
        v@ == s@,
{
    let n = s.unicode_len();
    let mut v: Vec<char> = Vec::new();
    let mut i: usize = 0;
    while i < n
        invariant
            i <= n,
            n == s@.len(),
            v@ == s@.subrange(0, i as int),
        decreases n - i,
    {
        let c = s.get_char(i);
        v.push(c);
        i = i + 1;
        assert(v@ =~= s@.subrange(0, i as int));
    }
    assert(v@ =~= s@);
    v
}

/// The bounds of `v` without white space at either end.
pub fn trim_bounds(v: &Vec<char>) -> (r: (usize, usize))
    ensures
        r.0 <= r.1 <= v@.len(),
        trimmed(v@) == v@.subrange(r.0 as int, r.1 as int),
{
    let n = v.len();
    let mut start: usize = 0;
    while start < n && char_is_white_space(v[start])
        invariant
            start <= n,
            n == v@.len(),
            forall|k: int| 0 <= k < start ==> is_white_space(#[trigger] v@[k]),
        decreases n - start,
    {
        start = start + 1;
    }
    proof {
        lemma_trim_start_at(v@, start as int);
    }
    let ghost front = v@.subrange(start as int, n as int);
    let mut end: usize = n;
    while end > start && char_is_white_space(v[end - 1])
        invariant
            start <= end <= n,
            n == v@.len(),
            front == v@.subrange(start as int, n as int),
            forall|k: int| end <= k < n ==> is_white_space(#[trigger] v@[k]),
        decreases end - start,
    {
        end = end - 1;
    }
    proof {
        let j = end - start;
        assert forall|k: int| j <= k < front.len() implies is_white_space(#[trigger] front[k]) by {
            assert(front[k] == v@[k + start]);
        }
        if j > 0 {
            assert(front[j - 1] == v@[end - 1]);
        }
        lemma_trim_end_at(front, j);
        assert(front.subrange(0, j) =~= v@.subrange(start as int, end as int));
    }
    (start, end)
}

/// The option key of `s`: trimmed, ASCII lower case, `-` as `_`.
pub fn option_key_chars(s: &str) -> (r: Vec<char>)
    ensures
        r@ == option_key(s@),
{
    let v = str_chars(s);
    let (start, end) = trim_bounds(&v);
    let ghost t = v@.subrange(start as int, end as int);
    let mut r: Vec<char> = Vec::new();
    let mut i: usize = start;
    while i < end
        invariant
            start <= i <= end <= v@.len(),
            t == v@.subrange(start as int, end as int),
            r@ == t.subrange(0, i - start).map_values(|c: char| option_char(c)),
        decreases end - i,
    {
        let c = v[i];
        let d = if c == '-' {
            '_'
        } else {
            char_ascii_lower(c)
        };
        r.push(d);
        i = i + 1;
        assert(r@ =~= t.subrange(0, i - start).map_values(|c: char| option_char(c)));
    }
    assert(t.subrange(0, end - start) =~= t);
    r
}

/// The lower key of `s`: trimmed and ASCII lower case.
pub fn lower_key_chars(s: &str) -> (r: Vec<char>)
    ensures
        r@ == lower_key(s@),
{
    let v = str_chars(s);
    let (start, end) = trim_bounds(&v);
    let ghost t = v@.subrange(start as int, end as int);
    let mut r: Vec<char> = Vec::new();
    let mut i: usize = start;
    while i < end
        invariant
            start <= i <= end <= v@.len(),
            t == v@.subrange(start as int, end as int),
            r@ == t.subrange(0, i - start).map_values(|c: char| ascii_lower(c)),
        decreases end - i,
    {
        let d = char_ascii_lower(v[i]);
        r.push(d);
        i = i + 1;
        assert(r@ =~= t.subrange(0, i - start).map_values(|c: char| ascii_lower(c)));
    }
    assert(t.subrange(0, end - start) =~= t);
    r
}

/// Whether the characters `v` spell `lit` exactly.
pub fn chars_equal(v: &Vec<char>, lit: &str) -> (b: bool)
    ensures
        b == (v@ == lit@),
{
    let n = lit.unicode_len();
    if v.len() != n {
        return false;
    }
    let mut i: usize = 0;
    while i < n
        invariant
            i <= n,
            n == lit@.len(),
            n == v@.len(),
            v@.subrange(0, i as int) == lit@.subrange(0, i as int),
        decreases n - i,
    {
        if v[i] != lit.get_char(i) {
            return false;
        }
        i = i + 1;
        assert(v@.subrange(0, i as int) =~= lit@.subrange(0, i as int));
    }
    assert(v@ =~= v@.subrange(0, n as int));
    assert(lit@ =~= lit@.subrange(0, n as int));
    true
}

/// Whether `v` begins with `lit`.
pub fn chars_start_with(v: &Vec<char>, lit: &str) -> (b: bool)
    ensures
        b == has_prefix(v@, lit@),
{
    let n = lit.unicode_len();
    if v.len() < n {
        return false;
    }
    let mut i: usize = 0;
    while i < n
        invariant
            i <= n <= v@.len(),
            n == lit@.len(),
            v@.subrange(0, i as int) == lit@.subrange(0, i as int),
        decreases n - i,
    {
        if v[i] != lit.get_char(i) {
            assert(v@.subrange(0, n as int)[i as int] != lit@[i as int]);
            return false;
        }
        i = i + 1;
        assert(v@.subrange(0, i as int) =~= lit@.subrange(0, i as int));
    }
    assert(lit@ =~= lit@.subrange(0, n as int));
    true
}

/// The characters of `v` from index `from` on.
pub fn chars_from(v: &Vec<char>, from: usize) -> (r: Vec<char>)
    requires
        from <= v@.len(),
    ensures
        r@ == v@.subrange(from as int, v@.len() as int),
{
    let mut r: Vec<char> = Vec::new();
    let mut i: usize = from;
    while i < v.len()
        invariant
            from <= i <= v@.len(),
            r@ == v@.subrange(from as int, i as int),
        decreases v@.len() - i,
    {
        r.push(v[i]);
        i = i + 1;
        assert(r@ =~= v@.subrange(from as int, i as int));
    }
    r
}

/// Appends one character with std's `String::push`. Trusted, not proved:
/// the text afterwards is the text before followed by `c`, as `String::push`
/// is documented to do.
#[verifier::external_body]
pub(crate) fn push_char(s: &mut String, c: char)
    ensures
        final(s)@ == old(s)@.push(c),
{
    s.push(c);
}

/// The `String` made of the characters `v`.
pub fn string_from_chars(v: &Vec<char>) -> (s: String)
    ensures
        s@ == v@,
{
    let mut s = String::new();
    let mut i: usize = 0;
    while i < v.len()
        invariant
            i <= v@.len(),
            s@ == v@.subrange(0, i as int),
        decreases v@.len() - i,
    {
        push_char(&mut s, v[i]);
        i = i + 1;
        assert(s@ =~= v@.subrange(0, i as int));
    }
    assert(v@ =~= v@.subrange(0, v@.len() as int));
    s
}

/// A timestamp's text in ISO form: every space becomes `T`, as between a
/// date and a time.
pub fn format_forecast_timestamp(text: &str) -> (r: String)
    ensures
        r@ == spaces_to_t(text@),
{
    let v = str_chars(text);
    let mut s = String::new();
    let mut i: usize = 0;
    while i < v.len()
        invariant
            i <= v@.len(),
            v@ == text@,
            s@ == v@.subrange(0, i as int).map_values(|c: char| if c == ' ' { 'T' } else { c }),
        decreases v@.len() - i,
    {
        let c = v[i];
        if c == ' ' {
            push_char(&mut s, 'T');
        } else {
            push_char(&mut s, c);
        }
        i = i + 1;
        assert(s@ =~= v@.subrange(0, i as int).map_values(
            |c: char| if c == ' ' { 'T' } else { c },
        ));
    }
    assert(v@ =~= v@.subrange(0, v@.len() as int));
    s
}

} // verus!
