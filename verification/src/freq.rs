//! Frequency tables: the `available_frequencies` files of cpufreq and devfreq
//! hold whitespace-separated numbers, and the tuning picks values out of them.
use vstd::prelude::*;
use vstd::relations::{sorted_by, total_ordering};
use crate::num::{fmt_int, format_i64, law_parse_format_i64, parse_i64, parse_i64_chars};
use crate::text::{chars_of, replace, replace_str, string_of, views, words, words_of};

verus! {

broadcast use vstd::seq_lib::group_to_multiset_ensures;

/// The order in which a frequency table is kept: ascending.
pub open spec fn leq_i64() -> spec_fn(i64, i64) -> bool {
    |a: i64, b: i64| a <= b
}

/// The numbers among `ws` that parse as `i64`, in order (the words that do
/// not parse are skipped).
pub open spec fn values_of(ws: Seq<Seq<char>>) -> Seq<i64>
    decreases ws.len(),
{
    if ws.len() == 0 {
        seq![]
    } else {
        values_of(ws.drop_last()) + match parse_i64(ws.last()) {
            Some(v) => seq![v],
            None => seq![],
        }
    }
}

/// The frequencies that a table's text lists, in the order written.
pub open spec fn freq_values(s: Seq<char>) -> Seq<i64> {
    values_of(words(s))
}

/// The frequencies that a table's text lists, in ascending order.
pub open spec fn freq_table(s: Seq<char>) -> Seq<i64> {
    freq_values(s).sort_by(leq_i64())
}

pub(crate) proof fn lemma_leq_total()
    ensures
        total_ordering(leq_i64()),
{
}

/// Two ascending sequences with the same elements are equal.
proof fn lemma_sorted_unique(a: Seq<i64>, b: Seq<i64>)
    requires
        sorted_by(a, leq_i64()),
        sorted_by(b, leq_i64()),
        a.to_multiset() == b.to_multiset(),
    ensures
        a == b,
    decreases a.len(),
{
    if a.len() == 0 {
        assert(b.to_multiset().len() == 0);
        assert(b.len() == 0);
    } else {
        assert(a.to_multiset().len() == a.len());
        assert(b.to_multiset().len() == b.len());
        assert(a.contains(a[0]));
        assert(b.to_multiset().count(a[0]) > 0);
        assert(b.contains(a[0]));
        let j = choose|j: int| 0 <= j < b.len() && b[j] == a[0];
        assert(b[0] <= b[j]) by {
            if j > 0 {
                assert(leq_i64()(b[0], b[j]));
            }
        }
        assert(b.contains(b[0]));
        assert(a.to_multiset().count(b[0]) > 0);
        assert(a.contains(b[0]));
        let k = choose|k: int| 0 <= k < a.len() && a[k] == b[0];
        assert(a[0] <= a[k]) by {
            if k > 0 {
                assert(leq_i64()(a[0], a[k]));
            }
        }
        assert(a[0] == b[0]);
        assert(a.remove(0) == a.drop_first());
        assert(b.remove(0) == b.drop_first());
        assert(a.drop_first().to_multiset() == a.to_multiset().remove(a[0]));
        assert(b.drop_first().to_multiset() == b.to_multiset().remove(b[0]));
        assert forall|x: int, y: int| 0 <= x < y < a.drop_first().len() implies #[trigger] leq_i64()(
            a.drop_first()[x],
            a.drop_first()[y],
        ) by {
            assert(leq_i64()(a[x + 1], a[y + 1]));
        }
        assert forall|x: int, y: int| 0 <= x < y < b.drop_first().len() implies #[trigger] leq_i64()(
            b.drop_first()[x],
            b.drop_first()[y],
        ) by {
            assert(leq_i64()(b[x + 1], b[y + 1]));
        }
        lemma_sorted_unique(a.drop_first(), b.drop_first());
        assert(a == seq![a[0]] + a.drop_first());
        assert(b == seq![b[0]] + b.drop_first());
    }
}

/// Inserts `x` into the ascending vector `v`, after the elements not above it.
fn insert_sorted(v: &mut Vec<i64>, x: i64)
    requires
        sorted_by(old(v)@, leq_i64()),
    ensures
        sorted_by(final(v)@, leq_i64()),
        final(v)@.to_multiset() == old(v)@.to_multiset().insert(x),
{
    let mut p: usize = 0;
    while p < v.len() && v[p] <= x
        invariant
            p <= v.len(),
            forall|q: int| 0 <= q < p ==> v@[q] <= x,
        decreases v.len() - p,
    {
        p = p + 1;
    }
    let ghost before = v@;
    v.insert(p, x);
    proof {
        vstd::seq_lib::to_multiset_insert(before, p as int, x);
        assert(v@ == before.insert(p as int, x));
        assert forall|i: int, j: int| 0 <= i < j < v@.len() implies #[trigger] leq_i64()(v@[i], v@[j]) by {
            if j < p {
                assert(leq_i64()(before[i], before[j]));
            } else if j == p {
            } else if i < p {
                assert(before[j - 1] > x || j - 1 >= p) by {
                    if p < before.len() {
                        assert(before[p as int] > x);
                        if j - 1 > p {
                            assert(leq_i64()(before[p as int], before[j - 1]));
                        }
                    }
                }
            } else if i == p {
                assert(before[p as int] > x);
                if j - 1 > p {
                    assert(leq_i64()(before[p as int], before[j - 1]));
                }
            } else {
                assert(leq_i64()(before[i - 1], before[j - 1]));
            }
        }
    }
}

/// The frequencies that the text of a table lists, in ascending order: each
/// whitespace-separated word that parses as an `i64`, the others skipped.
pub fn get_freqs(content: &str) -> (res: Vec<i64>)
    ensures
        res@ == freq_table(content@),
{
    let chars = chars_of(content);
    let ws = words_of(chars.as_slice());
    let mut out: Vec<i64> = Vec::new();
    let mut i: usize = 0;
    let ghost all = views(ws@);
    assert(out@.to_multiset() == values_of(all.take(0)).to_multiset()) by {
        assert(all.take(0) == Seq::<Seq<char>>::empty());
    }
    while i < ws.len()
        invariant
            i <= ws.len(),
            all == views(ws@),
            sorted_by(out@, leq_i64()),
            out@.to_multiset() == values_of(all.take(i as int)).to_multiset(),
        decreases ws.len() - i,
    {
        let ghost pre = all.take(i as int);
        assert(all.take(i + 1).drop_last() == pre);
        assert(all.take(i + 1).last() == ws@[i as int]@);
        match parse_i64_chars(ws[i].as_slice()) {
            Some(x) => {
                insert_sorted(&mut out, x);
                assert(values_of(all.take(i + 1)) == values_of(pre).push(x));
            },
            None => {
                assert(values_of(all.take(i + 1)) == values_of(pre));
            },
        }
        i = i + 1;
    }
    assert(all.take(ws.len() as int) == all);
    proof {
        let vals = freq_values(content@);
        lemma_leq_total();
        vals.lemma_sort_by_ensures(leq_i64());
        lemma_sorted_unique(out@, vals.sort_by(leq_i64()));
    }
    out
}


/// The text of the highest frequency of a table, or empty text for a table
/// without frequencies.
pub open spec fn max_text(s: Seq<char>) -> Seq<char> {
    let t = freq_table(s);
    if t.len() == 0 { seq![] } else { fmt_int(t.last() as int) }
}

/// The text of the lowest frequency of a table, or empty text.
pub open spec fn min_text(s: Seq<char>) -> Seq<char> {
    let t = freq_table(s);
    if t.len() == 0 { seq![] } else { fmt_int(t[0] as int) }
}

/// The text of the middle frequency of a table (the one at index half the
/// count, counting from the lowest), or empty text.
pub open spec fn mid_text(s: Seq<char>) -> Seq<char> {
    let t = freq_table(s);
    if t.len() == 0 { seq![] } else { fmt_int(t[(t.len() / 2) as int] as int) }
}

/// The highest frequency that the table text lists, as text; empty text when
/// it lists none.
pub fn which_maxfreq(content: &str) -> (res: String)
    ensures
        res@ == max_text(content@),
{
    let freqs = get_freqs(content);
    let n = freqs.len();
    if n > 0 {
        format_i64(freqs[n - 1])
    } else {
        String::new()
    }
}

/// The lowest frequency that the table text lists, as text; empty text when
/// it lists none.
pub fn which_minfreq(content: &str) -> (res: String)
    ensures
        res@ == min_text(content@),
{
    let freqs = get_freqs(content);
    if freqs.len() > 0 {
        format_i64(freqs[0])
    } else {
        String::new()
    }
}

/// The middle frequency that the table text lists, as text; empty text when
/// it lists none.
pub fn which_midfreq(content: &str) -> (res: String)
    ensures
        res@ == mid_text(content@),
{
    let freqs = get_freqs(content);
    let len = freqs.len();
    if len > 0 {
        format_i64(freqs[len / 2])
    } else {
        String::new()
    }
}

/// The distance between two frequencies.
pub open spec fn dist(a: i64, b: i64) -> int {
    if a >= b { a - b } else { b - a }
}

/// `r` is the frequency of `fs` nearest to `target`, the lower one on a tie,
/// among those nearer than `i64::MAX`; or `target` itself when there is none.
pub open spec fn nearest(fs: Seq<i64>, target: i64, r: i64) -> bool {
    if exists|i: int| 0 <= i < fs.len() && dist(target, #[trigger] fs[i]) < i64::MAX {
        &&& fs.contains(r)
        &&& dist(target, r) < i64::MAX
        &&& forall|i: int| 0 <= i < fs.len() ==> dist(target, r) <= dist(target, #[trigger] fs[i])
        &&& forall|i: int| 0 <= i < fs.len() && dist(target, #[trigger] fs[i]) == dist(target, r) ==> r <= fs[i]
    } else {
        r == target
    }
}

/// Each frequency of `fs` is within `i64::MAX` of `target`, so that the
/// distances can be taken without overflow.
pub open spec fn diffs_fit(fs: Seq<i64>, target: i64) -> bool {
    forall|i: int| 0 <= i < fs.len() ==> -i64::MAX <= target - #[trigger] fs[i] <= i64::MAX
}

/// `nearest` picks one frequency at most.
pub proof fn law_nearest_unique(fs: Seq<i64>, target: i64, r1: i64, r2: i64)
    requires
        nearest(fs, target, r1),
        nearest(fs, target, r2),
    ensures
        r1 == r2,
{
    if exists|i: int| 0 <= i < fs.len() && dist(target, #[trigger] fs[i]) < i64::MAX {
        let i1 = choose|i: int| 0 <= i < fs.len() && fs[i] == r1;
        let i2 = choose|i: int| 0 <= i < fs.len() && fs[i] == r2;
        assert(dist(target, r1) <= dist(target, fs[i2]));
        assert(dist(target, r2) <= dist(target, fs[i1]));
    }
}

/// The frequency of the ascending table `fs` nearest to `target`.
pub fn closest_freq(fs: &[i64], target: i64) -> (r: i64)
    requires
        sorted_by(fs@, leq_i64()),
        diffs_fit(fs@, target),
    ensures
        nearest(fs@, target, r),
{
    let mut best = target;
    let mut min_diff: i64 = i64::MAX;
    let mut k: usize = 0;
    while k < fs.len()
        invariant
            k <= fs.len(),
            sorted_by(fs@, leq_i64()),
            diffs_fit(fs@, target),
            min_diff <= i64::MAX,
            min_diff == i64::MAX ==> best == target,
            min_diff == i64::MAX ==> forall|i: int| 0 <= i < k ==> dist(target, #[trigger] fs@[i]) >= i64::MAX,
            min_diff < i64::MAX ==> {
                &&& fs@.take(k as int).contains(best)
                &&& dist(target, best) == min_diff
                &&& forall|i: int| 0 <= i < k ==> min_diff <= dist(target, #[trigger] fs@[i])
                &&& forall|i: int| 0 <= i < k && dist(target, #[trigger] fs@[i]) == min_diff ==> best <= fs@[i]
            },
        decreases fs.len() - k,
    {
        let f = fs[k];
        assert(-i64::MAX <= target - fs@[k as int] <= i64::MAX);
        let d = target - f;
        let diff = if d < 0 { -d } else { d };
        assert(diff == dist(target, f));
        if diff < min_diff {
            proof {
                assert forall|i: int| 0 <= i < k && dist(target, #[trigger] fs@[i]) == diff implies f <= fs@[i] by {
                    if min_diff == i64::MAX {
                        assert(dist(target, fs@[i]) >= i64::MAX);
                    }
                }
                assert(fs@.take(k + 1)[k as int] == f);
            }
            min_diff = diff;
            best = f;
        } else {
            proof {
                if min_diff < i64::MAX {
                    let j = choose|j: int| 0 <= j < k && fs@.take(k as int)[j] == best;
                    assert(fs@.take(k + 1)[j] == best);
                    if diff == min_diff {
                        assert(leq_i64()(fs@[j], fs@[k as int]));
                    }
                }
            }
        }
        k = k + 1;
    }
    assert(fs@.take(fs.len() as int) == fs@);
    best
}

/// Whether `setfreqs` computes without overflow on these arguments: when the
/// table exists and the target parses, every listed frequency is within
/// `i64::MAX` of the target.
pub open spec fn setfreqs_fits(avail: Option<Seq<char>>, target: Seq<char>) -> bool {
    match (avail, parse_i64(target)) {
        (Some(c), Some(t)) => diffs_fit(freq_table(c), t),
        _ => true,
    }
}

/// What `setfreqs` gives: when the table exists and `target` parses, the
/// text of the listed frequency nearest to it (see `nearest`); otherwise
/// `target` unchanged.
pub open spec fn setfreqs_result(avail: Option<Seq<char>>, target: Seq<char>, res: Seq<char>) -> bool {
    match (avail, parse_i64(target)) {
        (Some(c), Some(t)) => exists|r: i64| nearest(freq_table(c), t, r) && res == fmt_int(r as int),
        _ => res == target,
    }
}

/// The text `setfreqs` gives: when the table exists and `target` parses,
/// the text of the listed frequency nearest to it; otherwise `target`.
pub open spec fn snap_text(avail: Option<Seq<char>>, target: Seq<char>) -> Seq<char> {
    match (avail, parse_i64(target)) {
        (Some(c), Some(t)) => fmt_int((choose|r: i64| nearest(freq_table(c), t, r)) as int),
        _ => target,
    }
}

/// The text of an `Option<&str>`.
pub open spec fn opt_view(o: Option<&str>) -> Option<Seq<char>> {
    match o {
        Some(s) => Some(s@),
        None => None,
    }
}

/// Snaps `target` to the nearest frequency of a table. `avail` is the text of
/// the table file when the file exists (empty when it could not be read),
/// `None` when it does not.
pub fn setfreqs(avail: Option<&str>, target: &str) -> (res: String)
    requires
        setfreqs_fits(opt_view(avail), target@),
    ensures
        setfreqs_result(opt_view(avail), target@, res@),
        res@ == snap_text(opt_view(avail), target@),
{
    if let Some(content) = avail {
        let tv = chars_of(target);
        if let Some(t) = parse_i64_chars(tv.as_slice()) {
            let freqs = get_freqs(content);
            proof {
                lemma_leq_total();
                freq_values(content@).lemma_sort_by_ensures(leq_i64());
            }
            let best = closest_freq(freqs.as_slice(), t);
            proof {
                let fs = freq_table(content@);
                let r = choose|r: i64| nearest(fs, t, r);
                law_nearest_unique(fs, t, r, best);
            }
            return format_i64(best);
        }
    }
    let tv = chars_of(target);
    string_of(tv.as_slice())
}

/// Whether `setfreqs` may be called on these arguments.
pub fn setfreqs_fits_exec(avail: Option<&str>, target: &str) -> (b: bool)
    ensures
        b == setfreqs_fits(opt_view(avail), target@),
{
    if let Some(content) = avail {
        let tv = chars_of(target);
        if let Some(t) = parse_i64_chars(tv.as_slice()) {
            let freqs = get_freqs(content);
            let mut k: usize = 0;
            while k < freqs.len()
                invariant
                    k <= freqs.len(),
                    freqs@ == freq_table(content@),
                    parse_i64(target@) == Some(t),
                    opt_view(avail) == Some(content@),
                    forall|i: int| 0 <= i < k ==> -i64::MAX <= t - #[trigger] freqs@[i] <= i64::MAX,
                decreases freqs.len() - k,
            {
                let d = t as i128 - freqs[k] as i128;
                if d < -0x7fff_ffff_ffff_ffff || d > 0x7fff_ffff_ffff_ffff {
                    assert(!(-i64::MAX <= t - freqs@[k as int] <= i64::MAX));
                    assert(!diffs_fit(freq_table(content@), t));
                    return false;
                }
                k = k + 1;
            }
            return true;
        }
    }
    true
}

/// The frequency offset in percent that a property value sets: an empty value
/// means 100, `Disabled` stands for 100, `%` signs are dropped, and a value
/// that does not then parse means 100.
pub open spec fn limiter_of(raw: Seq<char>) -> i64 {
    if raw.len() == 0 {
        100
    } else {
        match parse_i64(replace(replace(raw, "Disabled"@, "100"@), "%"@, ""@)) {
            Some(v) => v,
            None => 100,
        }
    }
}

/// The frequency offset in percent that the property value `raw` sets.
pub fn get_freq_limiter(raw: &str) -> (res: i64)
    ensures
        res == limiter_of(raw@),
{
    if raw.is_empty() {
        return 100;
    }
    proof {
        reveal_strlit("Disabled");
        reveal_strlit("%");
    }
    let a = replace_str(raw, "Disabled", "100");
    let b = replace_str(a.as_str(), "%", "");
    let bv = chars_of(b.as_str());
    match parse_i64_chars(bv.as_slice()) {
        Some(v) => v,
        None => 100,
    }
}


/// A table lists its frequencies in ascending order: the lowest comes first,
/// the middle one between, the highest last, and the table holds just the
/// values the text lists.
pub proof fn law_table_order(s: Seq<char>)
    ensures
        freq_table(s).to_multiset() == freq_values(s).to_multiset(),
        freq_table(s).len() > 0 ==> freq_table(s)[0] <= freq_table(s)[(freq_table(s).len() / 2) as int]
            <= freq_table(s).last(),
        forall|i: int| 0 <= i < freq_values(s).len() ==> freq_table(s)[0] <= #[trigger] freq_values(s)[i]
            <= freq_table(s).last(),
{
    let t = freq_table(s);
    let v = freq_values(s);
    lemma_leq_total();
    v.lemma_sort_by_ensures(leq_i64());
    if t.len() > 0 {
        let m = t.len() / 2;
        if m > 0 {
            assert(leq_i64()(t[0], t[m as int]));
        }
        if m < t.len() - 1 {
            assert(leq_i64()(t[m as int], t[t.len() - 1]));
        }
    }
    assert forall|i: int| 0 <= i < v.len() implies t[0] <= #[trigger] v[i] <= t.last() by {
        assert(v.contains(v[i]));
        assert(t.to_multiset().count(v[i]) > 0);
        assert(t.contains(v[i]));
        let j = choose|j: int| 0 <= j < t.len() && t[j] == v[i];
        if j > 0 {
            assert(leq_i64()(t[0], t[j]));
        }
        if j < t.len() - 1 {
            assert(leq_i64()(t[j], t[t.len() - 1]));
        }
    }
}

proof fn lemma_nearest_self(fs: Seq<i64>, t: i64, r: i64)
    requires
        nearest(fs, t, r),
    ensures
        nearest(fs, r, r),
{
    if exists|i: int| 0 <= i < fs.len() && dist(t, #[trigger] fs[i]) < i64::MAX {
        let j = choose|j: int| 0 <= j < fs.len() && fs[j] == r;
        assert(dist(r, fs[j]) < i64::MAX);
        assert forall|i: int| 0 <= i < fs.len() && dist(r, #[trigger] fs[i]) == dist(r, r) implies r <= fs[i] by {
        }
    } else {
        assert(r == t);
    }
}

/// Snapping to a table twice gives what snapping once gives.
pub proof fn law_setfreqs_idempotent(avail: Option<Seq<char>>, target: Seq<char>, res: Seq<char>, res2: Seq<char>)
    requires
        setfreqs_result(avail, target, res),
        setfreqs_result(avail, res, res2),
    ensures
        res2 == res,
{
    match (avail, parse_i64(target)) {
        (Some(c), Some(t)) => {
            let fs = freq_table(c);
            let r = choose|r: i64| nearest(fs, t, r) && res == fmt_int(r as int);
            law_parse_format_i64(r);
            lemma_nearest_self(fs, t, r);
            let r2 = choose|r2: i64| nearest(fs, r, r2) && res2 == fmt_int(r2 as int);
            law_nearest_unique(fs, r, r, r2);
        },
        _ => {},
    }
}


/// A copy of `v` in ascending order.
pub fn sorted_copy(v: &[i64]) -> (res: Vec<i64>)
    ensures
        res@ == v@.sort_by(leq_i64()),
{
    let mut out: Vec<i64> = Vec::new();
    let mut k: usize = 0;
    assert(v@.take(0) == Seq::<i64>::empty());
    while k < v.len()
        invariant
            k <= v.len(),
            sorted_by(out@, leq_i64()),
            out@.to_multiset() == v@.take(k as int).to_multiset(),
        decreases v.len() - k,
    {
        insert_sorted(&mut out, v[k]);
        assert(v@.take(k + 1) == v@.take(k as int).push(v@[k as int]));
        k = k + 1;
    }
    assert(v@.take(v.len() as int) == v@);
    proof {
        lemma_leq_total();
        v@.lemma_sort_by_ensures(leq_i64());
        lemma_sorted_unique(out@, v@.sort_by(leq_i64()));
    }
    out
}


/// The last element of a sorted sequence is its largest.
pub proof fn lemma_sorted_last_max(v: Seq<i64>)
    ensures
        v.len() > 0 ==> forall|i: int| 0 <= i < v.len() ==> #[trigger] v[i] <= v.sort_by(leq_i64()).last(),
        v.len() > 0 ==> v.contains(v.sort_by(leq_i64()).last()),
        v.sort_by(leq_i64()).len() == v.len(),
{
    let t = v.sort_by(leq_i64());
    lemma_leq_total();
    v.lemma_sort_by_ensures(leq_i64());
    assert(t.to_multiset().len() == t.len());
    assert(v.to_multiset().len() == v.len());
    if v.len() > 0 {
        assert forall|i: int| 0 <= i < v.len() implies #[trigger] v[i] <= t.last() by {
            assert(v.contains(v[i]));
            assert(t.to_multiset().count(v[i]) > 0);
            assert(t.contains(v[i]));
            let j = choose|j: int| 0 <= j < t.len() && t[j] == v[i];
            if j < t.len() - 1 {
                assert(leq_i64()(t[j], t[t.len() - 1]));
            }
        }
        assert(t.contains(t.last()));
        assert(v.to_multiset().count(t.last()) > 0);
    }
}

} // verus!
