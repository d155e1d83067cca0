//! The one-time tunes of the boot sequence: the rate limits and efficient
//! frequencies of the schedutil, schedhorizon and WALT governors, the FPSGO
//! and GED parameters, and the Mali scheduling mode.
use vstd::prelude::*;
use crate::freq::{freq_table, get_freqs};
use crate::num::{fmt_int, format_i64_chars};
use crate::plan::{lw, push_locked_in, writes_view, SysWrite, WriteView};
use crate::soc::ostr;
use crate::text::{concat_str, string_of};

verus! {

/// Texts joined by single spaces.
pub open spec fn joined(ws: Seq<Seq<char>>) -> Seq<char>
    decreases ws.len(),
{
    if ws.len() == 0 {
        seq![]
    } else if ws.len() == 1 {
        ws[0]
    } else {
        joined(ws.drop_last()) + seq![' '] + ws.last()
    }
}

/// Numbers in decimal, joined by single spaces.
pub open spec fn ints_text(xs: Seq<int>) -> Seq<char> {
    joined(xs.map_values(|x: int| fmt_int(x)))
}

/// The up to six highest frequencies of a table, highest first.
pub open spec fn top_freqs(c: Seq<char>) -> Seq<int> {
    let t = freq_table(c);
    let n: int = if t.len() < 6 { t.len() as int } else { 6 };
    Seq::new(n as nat, |i: int| t[t.len() - 1 - i] as int)
}

/// The up delays of schedhorizon for `n` frequencies: 50, 100, 150, ...
pub open spec fn up_delays(n: nat) -> Seq<int> {
    Seq::new(n, |i: int| 50 * (i + 1))
}

/// The WALT target loads for `n` frequencies: 95, then 8 less for each
/// further one, never under 10.
pub open spec fn target_loads(n: nat) -> Seq<int> {
    Seq::new(n, |i: int| if 95 - 8 * i < 10 { 10 } else { 95 - 8 * i })
}

fn join_ints(xs: &[i64]) -> (res: String)
    ensures
        res@ == ints_text(xs@.map_values(|x: i64| x as int)),
{
    let ghost xv = xs@.map_values(|x: i64| x as int);
    let mut out: Vec<char> = Vec::new();
    let mut k: usize = 0;
    while k < xs.len()
        invariant
            k <= xs.len(),
            xv == xs@.map_values(|x: i64| x as int),
            out@ == ints_text(xv.take(k as int)),
        decreases xs.len() - k,
    {
        let ghost o0 = out@;
        let d = format_i64_chars(xs[k]);
        if k > 0 {
            out.push(' ');
        }
        let mut i: usize = 0;
        let ghost o1 = out@;
        while i < d.len()
            invariant
                i <= d.len(),
                out@ == o1 + d@.take(i as int),
            decreases d.len() - i,
        {
            out.push(d[i]);
            assert(d@.take(i + 1) == d@.take(i as int).push(d@[i as int]));
            i = i + 1;
        }
        assert(d@.take(d.len() as int) == d@);
        proof {
            let m = xv.take(k + 1).map_values(|x: int| fmt_int(x));
            assert(xv.take(k + 1).map_values(|x: int| fmt_int(x)).drop_last() =~= xv.take(k as int).map_values(
                |x: int| fmt_int(x),
            ));
            assert(m.last() == fmt_int(xs@[k as int] as int));
            if k == 0 {
                assert(m.len() == 1);
                assert(out@ =~= m[0]);
            } else {
                assert(out@ =~= o0 + seq![' '] + d@);
            }
        }
        k = k + 1;
    }
    assert(xv.take(xs.len() as int) == xv);
    string_of(out.as_slice())
}

fn top_of(c: &str) -> (res: Vec<i64>)
    ensures
        res@.map_values(|x: i64| x as int) == top_freqs(c@),
{
    let t = get_freqs(c);
    let n = t.len();
    let m: usize = if n < 6 { n } else { 6 };
    let mut res: Vec<i64> = Vec::new();
    let mut i: usize = 0;
    while i < m
        invariant
            i <= m,
            m <= n,
            n == t@.len(),
            m == (if n < 6 { n } else { 6 }),
            t@ == freq_table(c@),
            res@.len() == i,
            forall|j: int| 0 <= j < i ==> res@[j] == t@[n - 1 - j],
        decreases m - i,
    {
        res.push(t[n - 1 - i]);
        i = i + 1;
    }
    assert(res@.map_values(|x: i64| x as int) =~= top_freqs(c@));
    res
}

fn up_delays_of(n: usize) -> (res: Vec<i64>)
    requires
        n <= 6,
    ensures
        res@.map_values(|x: i64| x as int) == up_delays(n as nat),
{
    let mut res: Vec<i64> = Vec::new();
    let mut i: usize = 0;
    while i < n
        invariant
            i <= n <= 6,
            res@.len() == i,
            forall|j: int| 0 <= j < i ==> res@[j] == 50 * (j + 1),
        decreases n - i,
    {
        let v: i64 = 50 * (i as i64 + 1);
        res.push(v);
        i = i + 1;
    }
    assert(res@.map_values(|x: i64| x as int) =~= up_delays(n as nat));
    res
}

fn target_loads_of(n: usize) -> (res: Vec<i64>)
    requires
        n <= 6,
    ensures
        res@.map_values(|x: i64| x as int) == target_loads(n as nat),
{
    let mut res: Vec<i64> = Vec::new();
    let mut cur: i64 = 95;
    let mut i: usize = 0;
    while i < n
        invariant
            i <= n <= 6,
            res@.len() == i,
            cur == (if 95 - 8 * i < 10 { 10 } else { 95 - 8 * i }),
            forall|j: int| 0 <= j < i ==> res@[j] == (if 95 - 8 * j < 10 { 10 } else { 95 - 8 * j }),
        decreases n - i,
    {
        res.push(cur);
        cur = cur - 8;
        if cur < 10 {
            cur = 10;
        }
        i = i + 1;
    }
    assert(res@.map_values(|x: i64| x as int) =~= target_loads(n as nat));
    res
}

/// Which rate limit files of a governor directory exist.
#[derive(Clone, Copy, Debug, PartialEq, Eq, Structural)]
pub struct RateLimits {
    /// `up_rate_limit_us` exists.
    pub up_rate: bool,
    /// `rate_limit_us` exists.
    pub rate: bool,
}

/// What the boot tunes read of one cpufreq policy directory.
pub struct TunePolicy {
    /// The directory of the policy.
    pub path: String,
    /// The text of its `scaling_available_frequencies`, when it can be read.
    pub avail: Option<String>,
    /// Its `schedhorizon` directory's rate limit files, when the directory
    /// exists.
    pub horizon: Option<RateLimits>,
    /// Its `schedutil` directory's rate limit files, when the directory
    /// exists.
    pub schedutil: Option<RateLimits>,
    /// Its `walt` directory exists.
    pub walt: bool,
}

/// The rate limit of a governor directory: `up` to `up_rate_limit_us` when
/// it exists, else `rate` to `rate_limit_us` when that exists.
pub open spec fn rate_write(dir: Seq<char>, r: RateLimits, up: Seq<char>, rate: Seq<char>) -> Seq<WriteView> {
    if r.up_rate {
        seq![lw(up, dir + "/up_rate_limit_us"@)]
    } else if r.rate {
        seq![lw(rate, dir + "/rate_limit_us"@)]
    } else {
        seq![]
    }
}

fn push_rate(plan: &mut Vec<SysWrite>, dir: &str, r: RateLimits, up: &str, rate: &str)
    ensures
        writes_view(final(plan)@) == writes_view(old(plan)@) + rate_write(dir@, r, up@, rate@),
{
    let ghost before = writes_view(plan@);
    if r.up_rate {
        push_locked_in(plan, up, dir, "/up_rate_limit_us");
    } else if r.rate {
        push_locked_in(plan, rate, dir, "/rate_limit_us");
    }
    assert(writes_view(plan@) =~= before + rate_write(dir@, r, up@, rate@));
}

/// The schedhorizon tunes of a policy whose table text is `c`.
pub open spec fn horizon_plan(path: Seq<char>, c: Seq<char>, horizon: Option<RateLimits>) -> Seq<WriteView> {
    let h = path + "/schedhorizon"@;
    match horizon {
        Some(r) => seq![
            lw(ints_text(up_delays(top_freqs(c).len())), h + "/up_delay"@),
            lw(ints_text(top_freqs(c)), h + "/efficient_freq"@),
        ] + rate_write(h, r, "6500"@, "7000"@) + seq![lw("12000"@, h + "/down_rate_limit_us"@)],
        None => seq![],
    }
}

/// The schedutil tunes of a policy.
pub open spec fn schedutil_plan(path: Seq<char>, schedutil: Option<RateLimits>) -> Seq<WriteView> {
    let u = path + "/schedutil"@;
    match schedutil {
        Some(r) => rate_write(u, r, "6500"@, "7000"@) + seq![lw("12000"@, u + "/down_rate_limit_us"@)],
        None => seq![],
    }
}

/// The schedtunes of one policy: nothing when its table cannot be read.
pub open spec fn schedtune_policy(p: TunePolicy) -> Seq<WriteView> {
    match ostr(p.avail) {
        Some(c) => horizon_plan(p.path@, c, p.horizon) + schedutil_plan(p.path@, p.schedutil),
        None => seq![],
    }
}

/// The schedtunes of each policy, in order.
pub open spec fn schedtunes_plan(ps: Seq<TunePolicy>) -> Seq<WriteView>
    decreases ps.len(),
{
    if ps.len() == 0 {
        seq![]
    } else {
        schedtunes_plan(ps.drop_last()) + schedtune_policy(ps.last())
    }
}

fn push_horizon(plan: &mut Vec<SysWrite>, path: &str, c: &str, r: RateLimits)
    ensures
        writes_view(final(plan)@) == writes_view(old(plan)@) + horizon_plan(path@, c@, Some(r)),
{
    let ghost before = writes_view(plan@);
    let top = top_of(c);
    let delays = up_delays_of(top.len());
    let delay_text = join_ints(delays.as_slice());
    let top_text = join_ints(top.as_slice());
    let h = concat_str(path, "/schedhorizon");
    push_locked_in(plan, delay_text.as_str(), h.as_str(), "/up_delay");
    push_locked_in(plan, top_text.as_str(), h.as_str(), "/efficient_freq");
    push_rate(plan, h.as_str(), r, "6500", "7000");
    push_locked_in(plan, "12000", h.as_str(), "/down_rate_limit_us");
    assert(writes_view(plan@) =~= before + horizon_plan(path@, c@, Some(r)));
}

fn push_schedutil(plan: &mut Vec<SysWrite>, path: &str, r: RateLimits)
    ensures
        writes_view(final(plan)@) == writes_view(old(plan)@) + schedutil_plan(path@, Some(r)),
{
    let ghost before = writes_view(plan@);
    let u = concat_str(path, "/schedutil");
    push_rate(plan, u.as_str(), r, "6500", "7000");
    push_locked_in(plan, "12000", u.as_str(), "/down_rate_limit_us");
    assert(writes_view(plan@) =~= before + schedutil_plan(path@, Some(r)));
}

fn push_schedtune_policy(plan: &mut Vec<SysWrite>, p: &TunePolicy)
    ensures
        writes_view(final(plan)@) == writes_view(old(plan)@) + schedtune_policy(*p),
{
    let ghost before = writes_view(plan@);
    if let Some(c) = &p.avail {
        let ghost b1 = writes_view(plan@);
        if let Some(r) = p.horizon {
            push_horizon(plan, p.path.as_str(), c.as_str(), r);
        }
        assert(writes_view(plan@) =~= b1 + horizon_plan(p.path@, c@, p.horizon));
        let ghost b2 = writes_view(plan@);
        if let Some(r) = p.schedutil {
            push_schedutil(plan, p.path.as_str(), r);
        }
        assert(writes_view(plan@) =~= b2 + schedutil_plan(p.path@, p.schedutil));
    }
    assert(writes_view(plan@) =~= before + schedtune_policy(*p));
}

/// The schedtunes of each policy whose frequency table can be read: on
/// schedhorizon, up delays of 50 ms steps and the six highest frequencies
/// as efficient frequencies, and on both schedhorizon and schedutil, rate
/// limits of 6.5 ms up (or 7 ms when only one limit exists) and 12 ms down.
pub fn schedtunes(policies: &[TunePolicy]) -> (res: Vec<SysWrite>)
    ensures
        writes_view(res@) == schedtunes_plan(policies@),
{
    let mut plan: Vec<SysWrite> = Vec::new();
    let mut k: usize = 0;
    while k < policies.len()
        invariant
            k <= policies.len(),
            writes_view(plan@) == schedtunes_plan(policies@.take(k as int)),
        decreases policies.len() - k,
    {
        push_schedtune_policy(&mut plan, &policies[k]);
        assert(policies@.take(k + 1).drop_last() == policies@.take(k as int));
        k = k + 1;
    }
    assert(policies@.take(policies.len() as int) == policies@);
    plan
}

/// The WALT tunes of one policy: nothing unless its `walt` directory
/// exists and its table lists a frequency.
pub open spec fn walt_policy(p: TunePolicy) -> Seq<WriteView> {
    match ostr(p.avail) {
        Some(c) => {
            let top = top_freqs(c);
            let w = p.path@ + "/walt"@;
            if p.walt && top.len() > 0 {
                seq![
                    lw("92"@, w + "/hispeed_load"@),
                    lw(fmt_int(if top.len() > 1 { top[1] } else { top[0] }), w + "/hispeed_freq"@),
                    lw(fmt_int(top[0]), w + "/rtg_boost_freq"@),
                    lw(ints_text(target_loads(top.len())), w + "/target_loads"@),
                    lw(ints_text(top), w + "/efficient_freq"@),
                    lw("8000"@, w + "/up_rate_limit_us"@),
                    lw("12000"@, w + "/down_rate_limit_us"@),
                ]
            } else {
                seq![]
            }
        },
        None => seq![],
    }
}

/// The WALT tunes of each policy, in order.
pub open spec fn walt_plan(ps: Seq<TunePolicy>) -> Seq<WriteView>
    decreases ps.len(),
{
    if ps.len() == 0 {
        seq![]
    } else {
        walt_plan(ps.drop_last()) + walt_policy(ps.last())
    }
}

fn push_walt_policy(plan: &mut Vec<SysWrite>, p: &TunePolicy)
    ensures
        writes_view(final(plan)@) == writes_view(old(plan)@) + walt_policy(*p),
{
    let ghost before = writes_view(plan@);
    if let Some(c) = &p.avail {
        let top = top_of(c.as_str());
        proof {
            assert(top@.len() == top_freqs(c@).len());
        }
        if p.walt && top.len() > 0 {
            let w = concat_str(p.path.as_str(), "/walt");
            let second = if top.len() > 1 { top[1] } else { top[0] };
            proof {
                assert(top@.map_values(|x: i64| x as int)[0] == top@[0] as int);
                assert(top.len() > 1 ==> top@.map_values(|x: i64| x as int)[1] == top@[1] as int);
            }
            let second_text = string_of(format_i64_chars(second).as_slice());
            let highest_text = string_of(format_i64_chars(top[0]).as_slice());
            let loads = target_loads_of(top.len());
            let loads_text = join_ints(loads.as_slice());
            let top_text = join_ints(top.as_slice());
            push_locked_in(plan, "92", w.as_str(), "/hispeed_load");
            push_locked_in(plan, second_text.as_str(), w.as_str(), "/hispeed_freq");
            push_locked_in(plan, highest_text.as_str(), w.as_str(), "/rtg_boost_freq");
            push_locked_in(plan, loads_text.as_str(), w.as_str(), "/target_loads");
            push_locked_in(plan, top_text.as_str(), w.as_str(), "/efficient_freq");
            push_locked_in(plan, "8000", w.as_str(), "/up_rate_limit_us");
            push_locked_in(plan, "12000", w.as_str(), "/down_rate_limit_us");
        }
    }
    assert(writes_view(plan@) =~= before + walt_policy(*p));
}

/// The WALT tunes of each policy with a `walt` directory and a readable,
/// non-empty table: hispeed load 92 at the second-highest frequency, RTG
/// boost at the highest, target loads from 95 down by 8, the six highest
/// frequencies as efficient frequencies, rate limits of 8 ms up and 12 ms
/// down.
pub fn walt_tunes(policies: &[TunePolicy]) -> (res: Vec<SysWrite>)
    ensures
        writes_view(res@) == walt_plan(policies@),
{
    let mut plan: Vec<SysWrite> = Vec::new();
    let mut k: usize = 0;
    while k < policies.len()
        invariant
            k <= policies.len(),
            writes_view(plan@) == walt_plan(policies@.take(k as int)),
        decreases policies.len() - k,
    {
        push_walt_policy(&mut plan, &policies[k]);
        assert(policies@.take(k + 1).drop_last() == policies@.take(k as int));
        k = k + 1;
    }
    assert(policies@.take(policies.len() as int) == policies@);
    plan
}

/// The WALT target loads fall from 95 by 8 and never under 10, and there is
/// one for each frequency.
pub proof fn law_target_loads(n: nat, i: int)
    requires
        0 <= i < n,
    ensures
        target_loads(n).len() == n,
        10 <= target_loads(n)[i] <= 95,
        i + 1 < n ==> target_loads(n)[i + 1] == if target_loads(n)[i] - 8 < 10 {
            10
        } else {
            target_loads(n)[i] - 8
        },
{
}

/// The efficient frequencies are at most six, the highest first, each
/// listed by the table.
pub proof fn law_top_freqs(c: Seq<char>, i: int, j: int)
    requires
        0 <= i < j < top_freqs(c).len(),
    ensures
        top_freqs(c).len() <= 6,
        top_freqs(c)[j] <= top_freqs(c)[i],
        freq_table(c).contains(top_freqs(c)[i] as i64),
{
    let t = freq_table(c);
    crate::freq::lemma_leq_total();
    crate::freq::freq_values(c).lemma_sort_by_ensures(crate::freq::leq_i64());
    let a = t.len() - 1 - j;
    let b = t.len() - 1 - i;
    assert(crate::freq::leq_i64()(t[a], t[b]));
    assert(t[b] as int == top_freqs(c)[i]);
    assert(t[a] as int == top_freqs(c)[j]);
    assert(t.contains(t[b]));
}

} // verus!
