//! CPU frequency bounds for each cpufreq policy, written either to the
//! policy's own `scaling_*_freq` files or, on MediaTek kernels with PPM, to
//! the PPM user limits.
use vstd::prelude::*;
use crate::freq::{get_freq_limiter, limiter_of, opt_view, setfreqs, setfreqs_fits, setfreqs_fits_exec, snap_text};
use crate::num::{fmt_int, format_i64, format_usize, parse_i64, parse_i64_chars};
use crate::plan::{as_steps, push_write, push_writes, steps_view, write_of, writes_view, wv, Step, StepView, SysWrite, WriteMode, WriteView};
use crate::tune::{lock_all, locks};
use crate::text::{chars_of, concat_str, str_eq, string_of, strings_view, trim, trim_chars};

verus! {

/// What the tuning reads of one cpufreq policy directory.
pub struct CpuPolicy {
    /// The directory of the policy.
    pub path: String,
    /// The text of its `cpuinfo_max_freq`, empty when it cannot be read.
    pub max_file: String,
    /// The text of its `cpuinfo_min_freq`, empty when it cannot be read.
    pub min_file: String,
    /// The text of its `scaling_available_frequencies` when that file exists
    /// (empty when it cannot be read).
    pub avail: Option<String>,
}

/// The content of a `CpuPolicy`.
pub struct PolicyView {
    pub path: Seq<char>,
    pub max_file: Seq<char>,
    pub min_file: Seq<char>,
    pub avail: Option<Seq<char>>,
}

impl View for CpuPolicy {
    type V = PolicyView;

    open spec fn view(&self) -> PolicyView {
        PolicyView {
            path: self.path@,
            max_file: self.max_file@,
            min_file: self.min_file@,
            avail: match self.avail {
                Some(a) => Some(a@),
                None => None,
            },
        }
    }
}

/// The contents of a list of policies.
pub open spec fn policies_view(ps: Seq<CpuPolicy>) -> Seq<PolicyView> {
    ps.map_values(|p: CpuPolicy| p@)
}

/// The number a file's text holds, once trimmed; 0 when it holds none.
pub open spec fn file_int(s: Seq<char>) -> i64 {
    match parse_i64(trim(s)) {
        Some(v) => v,
        None => 0,
    }
}

/// `v` divided by 100, rounded toward zero as integer division does.
pub open spec fn div100(v: int) -> int {
    if v >= 0 { v / 100 } else { -((-v) / 100) }
}

/// `pct` percent of `x`, rounded toward zero.
pub open spec fn percent_of(x: i64, pct: i64) -> int {
    div100(x * pct)
}

/// `pct` percent of `x` is `x * pct / 100` rounded toward zero: for a
/// product that is not negative, the largest `q` with `100 q <= x * pct`;
/// for a negative one, the negation of that for `-(x * pct)`.
pub proof fn law_percent_of(x: i64, pct: i64)
    ensures
        x * pct >= 0 ==> 100 * percent_of(x, pct) <= x * pct < 100 * percent_of(x, pct) + 100,
        x * pct < 0 ==> percent_of(x, pct) <= 0 && 100 * (-percent_of(x, pct)) <= -(x * pct) < 100 * (-percent_of(
            x,
            pct,
        )) + 100,
{
    let v = x * pct;
    if v >= 0 {
        assert(100 * (v / 100) <= v < 100 * (v / 100) + 100) by (nonlinear_arith)
            requires
                v >= 0,
        ;
    } else {
        let w = -v;
        assert(100 * (w / 100) <= w < 100 * (w / 100) + 100 && w / 100 >= 0) by (nonlinear_arith)
            requires
                w > 0,
        ;
    }
}

/// The frequency the policy is snapped to for `pct` percent of its hardware
/// maximum.
pub open spec fn snapped(p: PolicyView, pct: i64) -> Seq<char> {
    snap_text(p.avail, fmt_int(percent_of(file_int(p.max_file), pct)))
}

/// `pct` percent of the policy's hardware maximum can be computed without
/// overflow, and snapped to its table.
pub open spec fn target_fits(p: PolicyView, pct: i64) -> bool {
    &&& i64::MIN <= file_int(p.max_file) * pct <= i64::MAX
    &&& setfreqs_fits(p.avail, fmt_int(percent_of(file_int(p.max_file), pct)))
}

/// The upper bound of a policy in the balanced and eco profiles: the
/// configured share of the hardware maximum, snapped to the table.
pub open spec fn balance_max(p: PolicyView, limiter: i64) -> Seq<char> {
    snapped(p, limiter)
}

/// The lower bound of a policy in the balanced and eco profiles: in eco, 40
/// percent of the hardware maximum, snapped; else the hardware minimum, as
/// the file writes it (`raw`) or as a number.
pub open spec fn balance_min(p: PolicyView, eco: bool, raw: bool) -> Seq<char> {
    if eco {
        snapped(p, 40)
    } else if raw {
        trim(p.min_file)
    } else {
        fmt_int(file_int(p.min_file) as int)
    }
}

/// The bounds of a policy in the performance profile: in lite mode from the
/// hardware maximum (snapped) down to the hardware minimum; else pinned from
/// the hardware maximum (as the file writes it, `raw`, or as a number) down
/// to the snapped maximum.
pub open spec fn game_bounds(p: PolicyView, lite: bool, raw: bool) -> (Seq<char>, Seq<char>) {
    if lite {
        (snapped(p, 100), trim(p.min_file))
    } else {
        (if raw { trim(p.max_file) } else { fmt_int(file_int(p.max_file) as int) }, snapped(p, 100))
    }
}

/// The PPM file of the CPU upper bounds.
pub open spec fn ppm_max_path() -> Seq<char> {
    "/proc/ppm/policy/hard_userlimit_max_cpu_freq"@
}

/// The PPM file of the CPU lower bounds.
pub open spec fn ppm_min_path() -> Seq<char> {
    "/proc/ppm/policy/hard_userlimit_min_cpu_freq"@
}

/// The two writes of the bounds of the policy with index `k`: to PPM as
/// "`k` `value`", or to the policy's `scaling_max_freq` and
/// `scaling_min_freq`.
pub open spec fn policy_writes(
    p: PolicyView,
    k: int,
    maxv: Seq<char>,
    minv: Seq<char>,
    ppm: bool,
    mode: WriteMode,
) -> Seq<WriteView> {
    if ppm {
        seq![
            wv(fmt_int(k) + " "@ + maxv, ppm_max_path(), mode),
            wv(fmt_int(k) + " "@ + minv, ppm_min_path(), mode),
        ]
    } else {
        seq![
            wv(maxv, p.path + "/scaling_max_freq"@, mode),
            wv(minv, p.path + "/scaling_min_freq"@, mode),
        ]
    }
}

/// The writes of the balanced or eco bounds of the policies, in order.
pub open spec fn balance_plan(ps: Seq<PolicyView>, limiter: i64, eco: bool, ppm: bool, mode: WriteMode) -> Seq<WriteView>
    decreases ps.len(),
{
    if ps.len() == 0 {
        seq![]
    } else {
        let p = ps.last();
        balance_plan(ps.drop_last(), limiter, eco, ppm, mode) + policy_writes(
            p,
            ps.len() - 1,
            balance_max(p, limiter),
            balance_min(p, eco, mode == WriteMode::Plain),
            ppm,
            mode,
        )
    }
}

/// The writes of the performance bounds of the policies, in order.
pub open spec fn game_plan(ps: Seq<PolicyView>, lite: bool, ppm: bool, mode: WriteMode) -> Seq<WriteView>
    decreases ps.len(),
{
    if ps.len() == 0 {
        seq![]
    } else {
        let p = ps.last();
        let b = game_bounds(p, lite, !ppm);
        game_plan(ps.drop_last(), lite, ppm, mode) + policy_writes(p, ps.len() - 1, b.0, b.1, ppm, mode)
    }
}

/// A bound as written: through PPM, the policy's index, a space, then the
/// frequency; through the policy's own files, the frequency alone.
pub open spec fn bound_text(ppm: bool, k: int, v: Seq<char>) -> Seq<char> {
    if ppm { fmt_int(k) + " "@ + v } else { v }
}

/// The table frequency nearest to `pct` percent of a policy's hardware
/// maximum, as `setfreqs` gives it.
pub open spec fn nearest_share(p: PolicyView, pct: i64) -> Seq<char> {
    snap_text(p.avail, fmt_int(percent_of(file_int(p.max_file), pct)))
}

/// In the balanced and eco plans, policy `i` gets two writes, at `2i` and
/// `2i + 1`: its upper bound, the table frequency nearest to `limiter`
/// percent of its hardware maximum; then its lower bound: in eco, the table
/// frequency nearest to 40 percent of its hardware maximum, through PPM and
/// through the policy's own files alike; otherwise its hardware minimum
/// (as its file writes it when written plainly, as a number when locked).
/// Through PPM they go to the PPM user limits, prefixed by the policy's
/// index; otherwise to the policy's `scaling_max_freq` and
/// `scaling_min_freq`.
pub proof fn law_balance_bounds(ps: Seq<PolicyView>, limiter: i64, eco: bool, ppm: bool, mode: WriteMode, i: int)
    requires
        0 <= i < ps.len(),
    ensures
        balance_plan(ps, limiter, eco, ppm, mode).len() == 2 * ps.len(),
        balance_plan(ps, limiter, eco, ppm, mode)[2 * i].value == bound_text(ppm, i, nearest_share(ps[i], limiter)),
        eco ==> balance_plan(ps, limiter, eco, ppm, mode)[2 * i + 1].value == bound_text(
            ppm,
            i,
            nearest_share(ps[i], 40),
        ),
        !eco && mode == WriteMode::Plain ==> balance_plan(ps, limiter, eco, ppm, mode)[2 * i + 1].value == bound_text(
            ppm,
            i,
            trim(ps[i].min_file),
        ),
        !eco && mode != WriteMode::Plain ==> balance_plan(ps, limiter, eco, ppm, mode)[2 * i + 1].value == bound_text(
            ppm,
            i,
            fmt_int(file_int(ps[i].min_file) as int),
        ),
        ppm ==> balance_plan(ps, limiter, eco, ppm, mode)[2 * i].path == "/proc/ppm/policy/hard_userlimit_max_cpu_freq"@,
        ppm ==> balance_plan(ps, limiter, eco, ppm, mode)[2 * i + 1].path
            == "/proc/ppm/policy/hard_userlimit_min_cpu_freq"@,
        !ppm ==> balance_plan(ps, limiter, eco, ppm, mode)[2 * i].path == ps[i].path + "/scaling_max_freq"@,
        !ppm ==> balance_plan(ps, limiter, eco, ppm, mode)[2 * i + 1].path == ps[i].path + "/scaling_min_freq"@,
        balance_plan(ps, limiter, eco, ppm, mode)[2 * i].mode == mode,
        balance_plan(ps, limiter, eco, ppm, mode)[2 * i + 1].mode == mode,
    decreases ps.len(),
{
    let prev = ps.drop_last();
    let p = ps.last();
    let w = policy_writes(p, ps.len() - 1, balance_max(p, limiter), balance_min(p, eco, mode == WriteMode::Plain), ppm, mode);
    assert(balance_plan(ps, limiter, eco, ppm, mode) == balance_plan(prev, limiter, eco, ppm, mode) + w);
    if ps.len() > 1 {
        law_balance_bounds(prev, limiter, eco, ppm, mode, 0);
    }
    assert(balance_plan(prev, limiter, eco, ppm, mode).len() == 2 * prev.len());
    if i < ps.len() - 1 {
        law_balance_bounds(prev, limiter, eco, ppm, mode, i);
        assert(prev[i] == ps[i]);
    } else {
        assert(ps[i] == p);
    }
}

/// In the performance plans, policy `i` gets two writes, at `2i` and
/// `2i + 1`: in lite mode, its upper bound is the table frequency nearest
/// to its hardware maximum and its lower bound its hardware minimum as its
/// file writes it; otherwise its upper bound is its hardware maximum (as
/// its file writes it through its own files, as a number through PPM) and
/// its lower bound the table frequency nearest to its hardware maximum.
/// Paths and prefixes are as in the balanced plans.
pub proof fn law_game_bounds(ps: Seq<PolicyView>, lite: bool, ppm: bool, mode: WriteMode, i: int)
    requires
        0 <= i < ps.len(),
    ensures
        game_plan(ps, lite, ppm, mode).len() == 2 * ps.len(),
        lite ==> game_plan(ps, lite, ppm, mode)[2 * i].value == bound_text(ppm, i, nearest_share(ps[i], 100)),
        lite ==> game_plan(ps, lite, ppm, mode)[2 * i + 1].value == bound_text(ppm, i, trim(ps[i].min_file)),
        !lite && !ppm ==> game_plan(ps, lite, ppm, mode)[2 * i].value == trim(ps[i].max_file),
        !lite && ppm ==> game_plan(ps, lite, ppm, mode)[2 * i].value == bound_text(
            ppm,
            i,
            fmt_int(file_int(ps[i].max_file) as int),
        ),
        !lite ==> game_plan(ps, lite, ppm, mode)[2 * i + 1].value == bound_text(ppm, i, nearest_share(ps[i], 100)),
        ppm ==> game_plan(ps, lite, ppm, mode)[2 * i].path == "/proc/ppm/policy/hard_userlimit_max_cpu_freq"@,
        ppm ==> game_plan(ps, lite, ppm, mode)[2 * i + 1].path == "/proc/ppm/policy/hard_userlimit_min_cpu_freq"@,
        !ppm ==> game_plan(ps, lite, ppm, mode)[2 * i].path == ps[i].path + "/scaling_max_freq"@,
        !ppm ==> game_plan(ps, lite, ppm, mode)[2 * i + 1].path == ps[i].path + "/scaling_min_freq"@,
        game_plan(ps, lite, ppm, mode)[2 * i].mode == mode,
        game_plan(ps, lite, ppm, mode)[2 * i + 1].mode == mode,
    decreases ps.len(),
{
    let prev = ps.drop_last();
    let p = ps.last();
    let b = game_bounds(p, lite, !ppm);
    let w = policy_writes(p, ps.len() - 1, b.0, b.1, ppm, mode);
    assert(game_plan(ps, lite, ppm, mode) == game_plan(prev, lite, ppm, mode) + w);
    if ps.len() > 1 {
        law_game_bounds(prev, lite, ppm, mode, 0);
    }
    assert(game_plan(prev, lite, ppm, mode).len() == 2 * prev.len());
    if i < ps.len() - 1 {
        law_game_bounds(prev, lite, ppm, mode, i);
        assert(prev[i] == ps[i]);
    } else {
        assert(ps[i] == p);
    }
}

/// The balanced or eco bounds can be computed for every policy.
pub open spec fn balance_fits(ps: Seq<PolicyView>, limiter: i64, eco: bool) -> bool {
    forall|i: int| 0 <= i < ps.len() ==> target_fits(#[trigger] ps[i], limiter) && (eco ==> target_fits(ps[i], 40))
}

/// The performance bounds can be computed for every policy.
pub open spec fn game_fits(ps: Seq<PolicyView>) -> bool {
    forall|i: int| 0 <= i < ps.len() ==> target_fits(#[trigger] ps[i], 100)
}

/// The current profile is eco when its file holds `3`.
pub open spec fn is_eco(current_profile: Seq<char>) -> bool {
    trim(current_profile) == "3"@
}

/// Lite mode is on when its property holds the number 1.
pub open spec fn is_lite(litemode: Seq<char>) -> bool {
    parse_i64(litemode) == Some(1i64)
}

/// The number a file's text holds, once trimmed; 0 when it holds none.
pub fn file_int_exec(s: &str) -> (v: i64)
    ensures
        v == file_int(s@),
{
    let t = trim_chars(chars_of(s).as_slice());
    match parse_i64_chars(t.as_slice()) {
        Some(v) => v,
        None => 0,
    }
}

/// A file's text, trimmed.
pub fn trimmed(s: &str) -> (res: String)
    ensures
        res@ == trim(s@),
{
    let t = trim_chars(chars_of(s).as_slice());
    string_of(t.as_slice())
}

fn avail_of(p: &CpuPolicy) -> (a: Option<&str>)
    ensures
        opt_view(a) == p@.avail,
{
    match &p.avail {
        Some(s) => Some(s.as_str()),
        None => None,
    }
}

/// Whether `pct` percent of the policy's hardware maximum can be computed and
/// snapped without overflow.
pub fn target_fits_exec(p: &CpuPolicy, pct: i64) -> (b: bool)
    ensures
        b == target_fits(p@, pct),
{
    let m = file_int_exec(p.max_file.as_str());
    assert(-0x4000_0000_0000_0000_0000_0000_0000_0000 <= (m as int) * (pct as int) <= 0x4000_0000_0000_0000_0000_0000_0000_0000) by (nonlinear_arith)
        requires
            i64::MIN <= m <= i64::MAX,
            i64::MIN <= pct <= i64::MAX;
    let prod = m as i128 * pct as i128;
    if prod < -0x8000_0000_0000_0000 || prod > 0x7fff_ffff_ffff_ffff {
        return false;
    }
    let t = format_i64(percent_exec(m, pct));
    setfreqs_fits_exec(avail_of(p), t.as_str())
}

/// `pct` percent of `x`, rounded toward zero.
pub fn percent_exec(x: i64, pct: i64) -> (r: i64)
    requires
        i64::MIN <= x * pct <= i64::MAX,
    ensures
        r == percent_of(x, pct),
{
    let prod = x as i128 * pct as i128;
    let q = if prod >= 0 { prod / 100 } else { -((-prod) / 100) };
    q as i64
}

/// The policy snapped to `pct` percent of its hardware maximum.
fn snapped_exec(p: &CpuPolicy, pct: i64) -> (res: String)
    requires
        target_fits(p@, pct),
    ensures
        res@ == snapped(p@, pct),
{
    let m = file_int_exec(p.max_file.as_str());
    let t = format_i64(percent_exec(m, pct));
    setfreqs(avail_of(p), t.as_str())
}

fn cluster_value(k: usize, v: &str) -> (res: String)
    ensures
        res@ == fmt_int(k as int) + " "@ + v@,
{
    let kt = format_usize(k);
    let a = concat_str(kt.as_str(), " ");
    concat_str(a.as_str(), v)
}

fn push_policy_writes(
    plan: &mut Vec<SysWrite>,
    p: &CpuPolicy,
    k: usize,
    maxv: String,
    minv: String,
    ppm: bool,
    mode: WriteMode,
)
    ensures
        writes_view(final(plan)@) == writes_view(old(plan)@) + policy_writes(p@, k as int, maxv@, minv@, ppm, mode),
{
    let ghost before = writes_view(plan@);
    if ppm {
        proof {
            reveal_strlit("/proc/ppm/policy/hard_userlimit_max_cpu_freq");
            reveal_strlit("/proc/ppm/policy/hard_userlimit_min_cpu_freq");
        }
        let a = cluster_value(k, maxv.as_str());
        let b = cluster_value(k, minv.as_str());
        push_write(plan, write_of(a, string_of(chars_of("/proc/ppm/policy/hard_userlimit_max_cpu_freq").as_slice()), mode));
        push_write(plan, write_of(b, string_of(chars_of("/proc/ppm/policy/hard_userlimit_min_cpu_freq").as_slice()), mode));
    } else {
        let a = concat_str(p.path.as_str(), "/scaling_max_freq");
        let b = concat_str(p.path.as_str(), "/scaling_min_freq");
        push_write(plan, write_of(maxv, a, mode));
        push_write(plan, write_of(minv, b, mode));
    }
    assert(writes_view(plan@) =~= before + policy_writes(p@, k as int, maxv@, minv@, ppm, mode));
}

fn balance_writes(ps: &[CpuPolicy], limiter: i64, eco: bool, ppm: bool, mode: WriteMode) -> (res: Vec<SysWrite>)
    requires
        balance_fits(policies_view(ps@), limiter, eco),
    ensures
        writes_view(res@) == balance_plan(policies_view(ps@), limiter, eco, ppm, mode),
{
    let ghost pv = policies_view(ps@);
    let mut plan: Vec<SysWrite> = Vec::new();
    let mut k: usize = 0;
    while k < ps.len()
        invariant
            k <= ps.len(),
            pv == policies_view(ps@),
            balance_fits(pv, limiter, eco),
            writes_view(plan@) == balance_plan(pv.take(k as int), limiter, eco, ppm, mode),
        decreases ps.len() - k,
    {
        let p = &ps[k];
        assert(pv[k as int] == p@);
        assert(target_fits(pv[k as int], limiter));
        let maxv = snapped_exec(p, limiter);
        let minv = if eco {
            snapped_exec(p, 40)
        } else if mode == WriteMode::Plain {
            trimmed(p.min_file.as_str())
        } else {
            format_i64(file_int_exec(p.min_file.as_str()))
        };
        push_policy_writes(&mut plan, p, k, maxv, minv, ppm, mode);
        assert(pv.take(k + 1).drop_last() == pv.take(k as int));
        assert(pv.take(k + 1).last() == p@);
        k = k + 1;
    }
    assert(pv.take(ps.len() as int) == pv);
    plan
}

fn game_writes(ps: &[CpuPolicy], lite: bool, ppm: bool, mode: WriteMode) -> (res: Vec<SysWrite>)
    requires
        game_fits(policies_view(ps@)),
    ensures
        writes_view(res@) == game_plan(policies_view(ps@), lite, ppm, mode),
{
    let ghost pv = policies_view(ps@);
    let mut plan: Vec<SysWrite> = Vec::new();
    let mut k: usize = 0;
    while k < ps.len()
        invariant
            k <= ps.len(),
            pv == policies_view(ps@),
            game_fits(pv),
            writes_view(plan@) == game_plan(pv.take(k as int), lite, ppm, mode),
        decreases ps.len() - k,
    {
        let p = &ps[k];
        assert(pv[k as int] == p@);
        assert(target_fits(pv[k as int], 100));
        let mid = snapped_exec(p, 100);
        let (maxv, minv) = if lite {
            (mid, trimmed(p.min_file.as_str()))
        } else if !ppm {
            (trimmed(p.max_file.as_str()), mid)
        } else {
            (format_i64(file_int_exec(p.max_file.as_str())), mid)
        };
        push_policy_writes(&mut plan, p, k, maxv, minv, ppm, mode);
        assert(pv.take(k + 1).drop_last() == pv.take(k as int));
        assert(pv.take(k + 1).last() == p@);
        k = k + 1;
    }
    assert(pv.take(ps.len() as int) == pv);
    plan
}

/// Whether the current profile file names the eco profile.
pub fn is_eco_exec(current_profile: &str) -> (b: bool)
    ensures
        b == is_eco(current_profile@),
{
    let t = trimmed(current_profile);
    proof {
        reveal_strlit("3");
    }
    str_eq(t.as_str(), "3")
}

/// Whether the lite mode property turns lite mode on.
pub fn is_lite_exec(litemode: &str) -> (b: bool)
    ensures
        b == is_lite(litemode@),
{
    match parse_i64_chars(chars_of(litemode).as_slice()) {
        Some(v) => v == 1,
        None => false,
    }
}

/// Whether the balanced or eco bounds can be computed for every policy, with
/// the offset property `freqoffset` and the current profile file text.
pub fn balance_fits_exec(ps: &[CpuPolicy], freqoffset: &str, current_profile: &str) -> (b: bool)
    ensures
        b == balance_fits(policies_view(ps@), limiter_of(freqoffset@), is_eco(current_profile@)),
{
    let limiter = get_freq_limiter(freqoffset);
    let eco = is_eco_exec(current_profile);
    let ghost pv = policies_view(ps@);
    let mut k: usize = 0;
    while k < ps.len()
        invariant
            k <= ps.len(),
            pv == policies_view(ps@),
            limiter == limiter_of(freqoffset@),
            eco == is_eco(current_profile@),
            forall|i: int| 0 <= i < k ==> target_fits(#[trigger] pv[i], limiter) && (eco ==> target_fits(pv[i], 40)),
        decreases ps.len() - k,
    {
        assert(pv[k as int] == ps[k as int]@);
        if !target_fits_exec(&ps[k], limiter) {
            assert(!(target_fits(pv[k as int], limiter) && (eco ==> target_fits(pv[k as int], 40))));
            return false;
        }
        if eco && !target_fits_exec(&ps[k], 40) {
            assert(!(target_fits(pv[k as int], limiter) && (eco ==> target_fits(pv[k as int], 40))));
            return false;
        }
        k = k + 1;
    }
    true
}

/// Whether the performance bounds can be computed for every policy.
pub fn game_fits_exec(ps: &[CpuPolicy]) -> (b: bool)
    ensures
        b == game_fits(policies_view(ps@)),
{
    let ghost pv = policies_view(ps@);
    let mut k: usize = 0;
    while k < ps.len()
        invariant
            k <= ps.len(),
            pv == policies_view(ps@),
            forall|i: int| 0 <= i < k ==> target_fits(#[trigger] pv[i], 100),
        decreases ps.len() - k,
    {
        assert(pv[k as int] == ps[k as int]@);
        if !target_fits_exec(&ps[k], 100) {
            return false;
        }
        k = k + 1;
    }
    true
}

/// The writes of a frequency setting, then each of the policies' scaling
/// files made read-only.
pub open spec fn then_locks(ws: Seq<WriteView>, scaling_files: Seq<Seq<char>>) -> Seq<StepView> {
    as_steps(ws) + locks(scaling_files)
}

fn with_locks(ws: Vec<SysWrite>, scaling_files: &[String]) -> (res: Vec<Step>)
    ensures
        steps_view(res@) == then_locks(writes_view(ws@), strings_view(scaling_files@)),
{
    let mut plan: Vec<Step> = Vec::new();
    push_writes(&mut plan, ws);
    let ghost p0 = steps_view(plan@);
    let mut l = lock_all(scaling_files);
    let ghost lv = steps_view(l@);
    plan.append(&mut l);
    assert(steps_view(plan@) =~= p0 + lv);
    plan
}

/// Balanced and eco bounds through each CPU's own files, locked, the CPUs
/// in the order the directory listing gives them; then each of the
/// policies' `scaling_*_freq` files made read-only.
pub fn setfreq(ps: &[CpuPolicy], scaling_files: &[String], freqoffset: &str, current_profile: &str) -> (res: Vec<Step>)
    requires
        balance_fits(policies_view(ps@), limiter_of(freqoffset@), is_eco(current_profile@)),
    ensures
        steps_view(res@) == then_locks(
            balance_plan(policies_view(ps@), limiter_of(freqoffset@), is_eco(current_profile@), false, WriteMode::Locked),
            strings_view(scaling_files@),
        ),
{
    let limiter = get_freq_limiter(freqoffset);
    let eco = is_eco_exec(current_profile);
    with_locks(balance_writes(ps, limiter, eco, false, WriteMode::Locked), scaling_files)
}

/// Balanced and eco bounds through the PPM user limits, locked.
pub fn setfreqppm(ps: &[CpuPolicy], freqoffset: &str, current_profile: &str) -> (res: Vec<SysWrite>)
    requires
        balance_fits(policies_view(ps@), limiter_of(freqoffset@), is_eco(current_profile@)),
    ensures
        writes_view(res@) == balance_plan(policies_view(ps@), limiter_of(freqoffset@), is_eco(current_profile@), true, WriteMode::Locked),
{
    let limiter = get_freq_limiter(freqoffset);
    let eco = is_eco_exec(current_profile);
    balance_writes(ps, limiter, eco, true, WriteMode::Locked)
}

/// Balanced and eco bounds through each CPU's own files, written plainly;
/// then each of the policies' `scaling_*_freq` files made read-only.
pub fn dsetfreq(ps: &[CpuPolicy], scaling_files: &[String], freqoffset: &str, current_profile: &str) -> (res: Vec<Step>)
    requires
        balance_fits(policies_view(ps@), limiter_of(freqoffset@), is_eco(current_profile@)),
    ensures
        steps_view(res@) == then_locks(
            balance_plan(policies_view(ps@), limiter_of(freqoffset@), is_eco(current_profile@), false, WriteMode::Plain),
            strings_view(scaling_files@),
        ),
{
    let limiter = get_freq_limiter(freqoffset);
    let eco = is_eco_exec(current_profile);
    with_locks(balance_writes(ps, limiter, eco, false, WriteMode::Plain), scaling_files)
}

/// Balanced and eco bounds through the PPM user limits, written plainly.
pub fn dsetfreqppm(ps: &[CpuPolicy], freqoffset: &str, current_profile: &str) -> (res: Vec<SysWrite>)
    requires
        balance_fits(policies_view(ps@), limiter_of(freqoffset@), is_eco(current_profile@)),
    ensures
        writes_view(res@) == balance_plan(policies_view(ps@), limiter_of(freqoffset@), is_eco(current_profile@), true, WriteMode::Plain),
{
    let limiter = get_freq_limiter(freqoffset);
    let eco = is_eco_exec(current_profile);
    balance_writes(ps, limiter, eco, true, WriteMode::Plain)
}

/// Performance bounds through each CPU's own files, locked; then each of
/// the policies' `scaling_*_freq` files made read-only.
pub fn setgamefreq(ps: &[CpuPolicy], scaling_files: &[String], litemode: &str) -> (res: Vec<Step>)
    requires
        game_fits(policies_view(ps@)),
    ensures
        steps_view(res@) == then_locks(
            game_plan(policies_view(ps@), is_lite(litemode@), false, WriteMode::Locked),
            strings_view(scaling_files@),
        ),
{
    with_locks(game_writes(ps, is_lite_exec(litemode), false, WriteMode::Locked), scaling_files)
}

/// Performance bounds through the PPM user limits, locked.
pub fn setgamefreqppm(ps: &[CpuPolicy], litemode: &str) -> (res: Vec<SysWrite>)
    requires
        game_fits(policies_view(ps@)),
    ensures
        writes_view(res@) == game_plan(policies_view(ps@), is_lite(litemode@), true, WriteMode::Locked),
{
    game_writes(ps, is_lite_exec(litemode), true, WriteMode::Locked)
}

/// Performance bounds through each CPU's own files, written plainly; then
/// each of the policies' `scaling_*_freq` files made read-only.
pub fn dsetgamefreq(ps: &[CpuPolicy], scaling_files: &[String], litemode: &str) -> (res: Vec<Step>)
    requires
        game_fits(policies_view(ps@)),
    ensures
        steps_view(res@) == then_locks(
            game_plan(policies_view(ps@), is_lite(litemode@), false, WriteMode::Plain),
            strings_view(scaling_files@),
        ),
{
    with_locks(game_writes(ps, is_lite_exec(litemode), false, WriteMode::Plain), scaling_files)
}

/// Performance bounds through the PPM user limits, written plainly.
pub fn dsetgamefreqppm(ps: &[CpuPolicy], litemode: &str) -> (res: Vec<SysWrite>)
    requires
        game_fits(policies_view(ps@)),
    ensures
        writes_view(res@) == game_plan(policies_view(ps@), is_lite(litemode@), true, WriteMode::Plain),
{
    game_writes(ps, is_lite_exec(litemode), true, WriteMode::Plain)
}

/// The plan of a frequency setting: its writes, then, without PPM, the
/// policies' scaling files made read-only.
pub open spec fn freq_steps(ws: Seq<WriteView>, ppm: bool, scaling_files: Seq<Seq<char>>) -> Seq<StepView> {
    if ppm { as_steps(ws) } else { then_locks(ws, scaling_files) }
}

/// The balanced bounds, written plainly, through PPM when `/proc/ppm` exists
/// (`ppm_exists`, with `ps` the policies) and through the CPUs' own files
/// otherwise (with `ps` the CPUs).
pub fn applyfreqbalance(
    ppm_exists: bool,
    ps: &[CpuPolicy],
    scaling_files: &[String],
    freqoffset: &str,
    current_profile: &str,
) -> (res: Vec<Step>)
    requires
        balance_fits(policies_view(ps@), limiter_of(freqoffset@), is_eco(current_profile@)),
    ensures
        steps_view(res@) == freq_steps(
            balance_plan(policies_view(ps@), limiter_of(freqoffset@), is_eco(current_profile@), ppm_exists, WriteMode::Plain),
            ppm_exists,
            strings_view(scaling_files@),
        ),
{
    if ppm_exists {
        let mut plan: Vec<Step> = Vec::new();
        push_writes(&mut plan, dsetfreqppm(ps, freqoffset, current_profile));
        plan
    } else {
        dsetfreq(ps, scaling_files, freqoffset, current_profile)
    }
}

/// The performance bounds, written plainly, through PPM when `/proc/ppm`
/// exists (`ppm_exists`, with `ps` the policies) and through the CPUs' own
/// files otherwise (with `ps` the CPUs).
pub fn applyfreqgame(ppm_exists: bool, ps: &[CpuPolicy], scaling_files: &[String], litemode: &str) -> (res: Vec<Step>)
    requires
        game_fits(policies_view(ps@)),
    ensures
        steps_view(res@) == freq_steps(
            game_plan(policies_view(ps@), is_lite(litemode@), ppm_exists, WriteMode::Plain),
            ppm_exists,
            strings_view(scaling_files@),
        ),
{
    if ppm_exists {
        let mut plan: Vec<Step> = Vec::new();
        push_writes(&mut plan, dsetgamefreqppm(ps, litemode));
        plan
    } else {
        dsetgamefreq(ps, scaling_files, litemode)
    }
}

} // verus!
