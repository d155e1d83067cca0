//! The vendor-specific part of each profile on MediaTek devices: PPM,
//! the GPU, the power limits and the DVFS controller.
use vstd::prelude::*;
use crate::freq::opt_view;
use crate::num::{fmt_int, format_i64};
use crate::plan::{lw, push_locked, push_locked_in, writes_view, SysWrite, WriteView};
use crate::scan::{gpu_opp_max, opp_values, ppm_lines_plan, ppm_policy_writes};
use crate::text::lines;

verus! {

/// What the tuning reads of a MediaTek device.
pub struct MtkDevice {
    /// The text of `/proc/ppm/policy_status`, when `/proc/ppm` and it exist
    /// and it can be read.
    pub ppm_status: Option<String>,
    /// `/proc/gpufreq` exists.
    pub gpufreq: bool,
    /// `/proc/gpufreqv2` exists.
    pub gpufreqv2: bool,
    /// `/proc/gpufreq/gpufreq_power_limited` exists.
    pub gpu_power_limited: bool,
    /// The text of `/proc/gpufreq/gpufreq_opp_dump`, when it can be read.
    pub gpu_opp_dump: Option<String>,
    /// The first Mali device under `/sys/devices/platform`.
    pub mali: Option<String>,
}

/// The text of an optional string.
pub open spec fn ostr(o: Option<String>) -> Option<Seq<char>> {
    match o {
        Some(s) => Some(s@),
        None => None,
    }
}

fn oref(o: &Option<String>) -> (r: Option<&str>)
    ensures
        opt_view(r) == ostr(*o),
{
    match o {
        Some(s) => Some(s.as_str()),
        None => None,
    }
}

/// The power limits of the MediaTek GPU that a profile switches.
pub open spec fn gpu_limit_writes(v: Seq<char>) -> Seq<WriteView> {
    seq![
        lw("ignore_batt_oc"@ + " "@ + v, "/proc/gpufreq/gpufreq_power_limited"@),
        lw("ignore_batt_percent"@ + " "@ + v, "/proc/gpufreq/gpufreq_power_limited"@),
        lw("ignore_low_batt"@ + " "@ + v, "/proc/gpufreq/gpufreq_power_limited"@),
        lw("ignore_thermal_protect"@ + " "@ + v, "/proc/gpufreq/gpufreq_power_limited"@),
        lw("ignore_pbm_limited"@ + " "@ + v, "/proc/gpufreq/gpufreq_power_limited"@),
    ]
}

pub fn push_gpu_limits(plan: &mut Vec<SysWrite>, v: &str)
    ensures
        writes_view(final(plan)@) == writes_view(old(plan)@) + gpu_limit_writes(v@),
{
    let ghost before = writes_view(plan@);
    let p = "/proc/gpufreq/gpufreq_power_limited";
    push_limit(plan, "ignore_batt_oc", v, p);
    push_limit(plan, "ignore_batt_percent", v, p);
    push_limit(plan, "ignore_low_batt", v, p);
    push_limit(plan, "ignore_thermal_protect", v, p);
    push_limit(plan, "ignore_pbm_limited", v, p);
    assert(writes_view(plan@) =~= before + gpu_limit_writes(v@));
}

fn push_limit(plan: &mut Vec<SysWrite>, setting: &str, v: &str, path: &str)
    ensures
        writes_view(final(plan)@) == writes_view(old(plan)@).push(lw(setting@ + " "@ + v@, path@)),
{
    let a = crate::text::concat_str(setting, " ");
    let b = crate::text::concat_str(a.as_str(), v);
    push_locked(plan, b.as_str(), path);
}

/// The power policy write of the first Mali device, if there is one.
pub open spec fn mali_policy(mali: Option<Seq<char>>, policy: Seq<char>) -> Seq<WriteView> {
    match mali {
        Some(m) => seq![lw(policy, m + "/power_policy"@)],
        None => seq![],
    }
}

pub fn push_mali_policy(plan: &mut Vec<SysWrite>, mali: &Option<String>, policy: &str)
    ensures
        writes_view(final(plan)@) == writes_view(old(plan)@) + mali_policy(ostr(*mali), policy@),
{
    let ghost before = writes_view(plan@);
    if let Some(m) = mali {
        push_locked_in(plan, policy, m.as_str(), "/power_policy");
    }
    assert(writes_view(plan@) =~= before + mali_policy(ostr(*mali), policy@));
}

/// Two locked writes.
pub open spec fn two(v1: Seq<char>, p1: Seq<char>, v2: Seq<char>, p2: Seq<char>) -> Seq<WriteView> {
    seq![lw(v1, p1), lw(v2, p2)]
}

fn push_two(plan: &mut Vec<SysWrite>, v1: &str, p1: &str, v2: &str, p2: &str)
    ensures
        writes_view(final(plan)@) == writes_view(old(plan)@) + two(v1@, p1@, v2@, p2@),
{
    let ghost before = writes_view(plan@);
    push_locked(plan, v1, p1);
    push_locked(plan, v2, p2);
    assert(writes_view(plan@) =~= before + two(v1@, p1@, v2@, p2@));
}

/// The PPM part of a MediaTek profile.
pub open spec fn mtk_ppm(d: MtkDevice, limit_v: Seq<char>, boost_v: Seq<char>) -> Seq<WriteView> {
    match ostr(d.ppm_status) {
        Some(st) => ppm_lines_plan(lines(st), limit_v, Some(boost_v), true),
        None => seq![],
    }
}

/// The GPU power limits part of a MediaTek profile.
pub open spec fn mtk_limits(d: MtkDevice, v: Seq<char>) -> Seq<WriteView> {
    if d.gpu_power_limited { gpu_limit_writes(v) } else { seq![] }
}

/// The GPU frequency part of the balanced MediaTek profile.
pub open spec fn mtk_gpu_balance(d: MtkDevice) -> Seq<WriteView> {
    if d.gpufreq {
        seq![lw("0"@, "/proc/gpufreq/gpufreq_opp_freq"@)]
    } else if d.gpufreqv2 {
        seq![lw("-1"@, "/proc/gpufreqv2/fix_target_opp_index"@)]
    } else {
        seq![]
    }
}

/// The throttling and DVFS part of the balanced MediaTek profile.
pub open spec fn mtk_throttle_balance() -> Seq<WriteView> {
    seq![
        lw("0"@, "/proc/perfmgr/syslimiter/syslimiter_force_disable"@),
        lw("stop 0"@, "/proc/mtk_batoc_throttling/battery_oc_protect_stop"@),
        lw("stop 0"@, "/proc/pbm/pbm_stop"@),
        lw("1"@, "/sys/kernel/eara_thermal/enable"@),
        lw("-1"@, "/sys/devices/platform/10012000.dvfsrc/helio-dvfsrc/dvfsrc_req_ddr_opp"@),
        lw("-1"@, "/sys/kernel/helio-dvfsrc/dvfsrc_force_vcore_dvfs_opp"@),
        lw("userspace"@, "/sys/class/devfreq/mtk-dvfsrc-devfreq/governor"@),
        lw("userspace"@, "/sys/devices/platform/soc/1c00f000.dvfsrc/mtk-dvfsrc-devfreq/devfreq/mtk-dvfsrc-devfreq/governor"@),
    ]
}

fn push_throttle_balance(plan: &mut Vec<SysWrite>)
    ensures
        writes_view(final(plan)@) == writes_view(old(plan)@) + mtk_throttle_balance(),
{
    let ghost before = writes_view(plan@);
    push_locked(plan, "0", "/proc/perfmgr/syslimiter/syslimiter_force_disable");
    push_locked(plan, "stop 0", "/proc/mtk_batoc_throttling/battery_oc_protect_stop");
    push_locked(plan, "stop 0", "/proc/pbm/pbm_stop");
    push_locked(plan, "1", "/sys/kernel/eara_thermal/enable");
    push_locked(plan, "-1", "/sys/devices/platform/10012000.dvfsrc/helio-dvfsrc/dvfsrc_req_ddr_opp");
    push_locked(plan, "-1", "/sys/kernel/helio-dvfsrc/dvfsrc_force_vcore_dvfs_opp");
    push_locked(plan, "userspace", "/sys/class/devfreq/mtk-dvfsrc-devfreq/governor");
    push_locked(
        plan,
        "userspace",
        "/sys/devices/platform/soc/1c00f000.dvfsrc/mtk-dvfsrc-devfreq/devfreq/mtk-dvfsrc-devfreq/governor",
    );
    assert(writes_view(plan@) =~= before + mtk_throttle_balance());
}

fn push_limits(plan: &mut Vec<SysWrite>, d: &MtkDevice, v: &str)
    ensures
        writes_view(final(plan)@) == writes_view(old(plan)@) + mtk_limits(*d, v@),
{
    let ghost before = writes_view(plan@);
    if d.gpu_power_limited {
        push_gpu_limits(plan, v);
    }
    assert(writes_view(plan@) =~= before + mtk_limits(*d, v@));
}

fn push_one(plan: &mut Vec<SysWrite>, v: &str, p: &str)
    ensures
        writes_view(final(plan)@) == writes_view(old(plan)@) + seq![lw(v@, p@)],
{
    let ghost before = writes_view(plan@);
    push_locked(plan, v, p);
    assert(writes_view(plan@) =~= before + seq![lw(v@, p@)]);
}

/// The balanced profile of a MediaTek device.
pub open spec fn mtk_balance_plan(d: MtkDevice) -> Seq<WriteView> {
    mtk_ppm(d, "1"@, "0"@) + two("0"@, "/proc/cpufreq/cpufreq_cci_mode"@, "1"@, "/proc/cpufreq/cpufreq_power_mode"@)
        + mtk_gpu_balance(d) + seq![lw("1"@, "/sys/devices/system/cpu/eas/enable"@)] + mtk_limits(d, "0"@)
        + mtk_throttle_balance() + mali_policy(ostr(d.mali), "coarse_demand"@)
}

/// The balanced profile of a MediaTek device: PPM limits on and boost off,
/// the default CCI and power modes, the GPU unpinned, EAS on, GPU power
/// limits kept, throttling and DVFS left to the kernel.
pub fn mediatek_balance(d: &MtkDevice) -> (res: Vec<SysWrite>)
    ensures
        writes_view(res@) == mtk_balance_plan(*d),
{
    let mut plan = ppm_policy_writes(oref(&d.ppm_status), "1", Some("0"), true);
    push_two(&mut plan, "0", "/proc/cpufreq/cpufreq_cci_mode", "1", "/proc/cpufreq/cpufreq_power_mode");
    let ghost p1 = writes_view(plan@);
    if d.gpufreq {
        push_locked(&mut plan, "0", "/proc/gpufreq/gpufreq_opp_freq");
    } else if d.gpufreqv2 {
        push_locked(&mut plan, "-1", "/proc/gpufreqv2/fix_target_opp_index");
    }
    assert(writes_view(plan@) =~= p1 + mtk_gpu_balance(*d));
    push_one(&mut plan, "1", "/sys/devices/system/cpu/eas/enable");
    push_limits(&mut plan, d, "0");
    push_throttle_balance(&mut plan);
    push_mali_policy(&mut plan, &d.mali, "coarse_demand");
    plan
}

/// The GPU frequency the performance profile pins on a MediaTek device
/// with `/proc/gpufreq`: the highest of its OPP table, when it names one.
pub open spec fn mtk_gpu_pin(dump: Option<Seq<char>>) -> Seq<WriteView> {
    match dump {
        Some(t) => if opp_values(lines(t)).len() > 0 {
            seq![lw(fmt_int(opp_values(lines(t)).sort_by(crate::freq::leq_i64()).last() as int), "/proc/gpufreq/gpufreq_opp_freq"@)]
        } else {
            seq![]
        },
        None => seq![],
    }
}

/// The frequency the performance profile pins a MediaTek GPU at is the
/// highest that its OPP table names: one of them, and none is higher.
/// Nothing is pinned when the table names none.
pub proof fn law_mtk_gpu_pin(t: Seq<char>)
    ensures
        opp_values(lines(t)).len() == 0 ==> mtk_gpu_pin(Some(t)).len() == 0,
        opp_values(lines(t)).len() > 0 ==> exists|j: int|
            0 <= j < opp_values(lines(t)).len() && mtk_gpu_pin(Some(t)) == seq![
                lw(fmt_int(#[trigger] opp_values(lines(t))[j] as int), "/proc/gpufreq/gpufreq_opp_freq"@),
            ] && forall|i: int|
                0 <= i < opp_values(lines(t)).len() ==> #[trigger] opp_values(lines(t))[i] <= opp_values(lines(t))[j],
{
    broadcast use vstd::seq_lib::group_to_multiset_ensures;

    let v = opp_values(lines(t));
    if v.len() > 0 {
        let leq = crate::freq::leq_i64();
        crate::freq::lemma_leq_total();
        v.lemma_sort_by_ensures(leq);
        let s = v.sort_by(leq);
        assert(s.len() == v.to_multiset().len());
        assert(s.len() == v.len());
        let top = s.last();
        assert(s[s.len() - 1] == top);
        assert(s.contains(top));
        assert(v.to_multiset().count(top) > 0);
        assert(v.contains(top));
        let j = choose|j: int| 0 <= j < v.len() && v[j] == top;
        assert forall|i: int| 0 <= i < v.len() implies #[trigger] v[i] <= v[j] by {
            assert(v.contains(v[i]));
            assert(s.to_multiset().count(v[i]) > 0);
            assert(s.contains(v[i]));
            let k = choose|k: int| 0 <= k < s.len() && s[k] == v[i];
            if k < s.len() - 1 {
                assert(leq(s[k], s[s.len() - 1]));
            }
        }
        assert(mtk_gpu_pin(Some(t)) == seq![lw(fmt_int(v[j] as int), "/proc/gpufreq/gpufreq_opp_freq"@)]);
    }
}

/// The GPU frequency part of the performance MediaTek profile.
pub open spec fn mtk_gpu_performance(d: MtkDevice) -> Seq<WriteView> {
    if d.gpufreq {
        mtk_gpu_pin(ostr(d.gpu_opp_dump))
    } else if d.gpufreqv2 {
        seq![lw("0"@, "/proc/gpufreqv2/fix_target_opp_index"@)]
    } else {
        seq![]
    }
}

/// The throttling and DVFS part of the performance MediaTek profile.
pub open spec fn mtk_throttle_performance() -> Seq<WriteView> {
    seq![
        lw("0"@, "/proc/perfmgr/syslimiter/syslimiter_force_disable"@),
        lw("stop 1"@, "/proc/mtk_batoc_throttling/battery_oc_protect_stop"@),
        lw("0"@, "/sys/kernel/eara_thermal/enable"@),
        lw("0"@, "/sys/devices/platform/10012000.dvfsrc/helio-dvfsrc/dvfsrc_req_ddr_opp"@),
        lw("0"@, "/sys/kernel/helio-dvfsrc/dvfsrc_force_vcore_dvfs_opp"@),
        lw("performance"@, "/sys/class/devfreq/mtk-dvfsrc-devfreq/governor"@),
        lw("performance"@, "/sys/devices/platform/soc/1c00f000.dvfsrc/mtk-dvfsrc-devfreq/devfreq/mtk-dvfsrc-devfreq/governor"@),
    ]
}

fn push_throttle_performance(plan: &mut Vec<SysWrite>)
    ensures
        writes_view(final(plan)@) == writes_view(old(plan)@) + mtk_throttle_performance(),
{
    let ghost before = writes_view(plan@);
    push_locked(plan, "0", "/proc/perfmgr/syslimiter/syslimiter_force_disable");
    push_locked(plan, "stop 1", "/proc/mtk_batoc_throttling/battery_oc_protect_stop");
    push_locked(plan, "0", "/sys/kernel/eara_thermal/enable");
    push_locked(plan, "0", "/sys/devices/platform/10012000.dvfsrc/helio-dvfsrc/dvfsrc_req_ddr_opp");
    push_locked(plan, "0", "/sys/kernel/helio-dvfsrc/dvfsrc_force_vcore_dvfs_opp");
    push_locked(plan, "performance", "/sys/class/devfreq/mtk-dvfsrc-devfreq/governor");
    push_locked(
        plan,
        "performance",
        "/sys/devices/platform/soc/1c00f000.dvfsrc/mtk-dvfsrc-devfreq/devfreq/mtk-dvfsrc-devfreq/governor",
    );
    assert(writes_view(plan@) =~= before + mtk_throttle_performance());
}

fn push_gpu_performance(plan: &mut Vec<SysWrite>, d: &MtkDevice)
    ensures
        writes_view(final(plan)@) == writes_view(old(plan)@) + mtk_gpu_performance(*d),
{
    let ghost before = writes_view(plan@);
    if d.gpufreq {
        if let Some(dump) = &d.gpu_opp_dump {
            if let Some(m) = gpu_opp_max(dump.as_str()) {
                proof {
                    let vals = opp_values(lines(dump@));
                    let t = vals.sort_by(crate::freq::leq_i64());
                    crate::freq::lemma_sorted_last_max(vals);
                    let j = choose|j: int| 0 <= j < vals.len() && vals[j] == m;
                    let k = choose|k: int| 0 <= k < vals.len() && vals[k] == t.last();
                    assert(vals[j] <= t.last());
                    assert(vals[k] <= m);
                }
                let v = format_i64(m);
                push_locked(plan, v.as_str(), "/proc/gpufreq/gpufreq_opp_freq");
            }
        }
    } else if d.gpufreqv2 {
        push_locked(plan, "0", "/proc/gpufreqv2/fix_target_opp_index");
    }
    assert(writes_view(plan@) =~= before + mtk_gpu_performance(*d));
}

/// The performance profile of a MediaTek device.
pub open spec fn mtk_performance_plan(d: MtkDevice) -> Seq<WriteView> {
    mtk_ppm(d, "0"@, "1"@) + two("1"@, "/proc/cpufreq/cpufreq_cci_mode"@, "3"@, "/proc/cpufreq/cpufreq_power_mode"@)
        + mtk_gpu_performance(d) + seq![lw("0"@, "/sys/devices/system/cpu/eas/enable"@)] + mtk_limits(d, "1"@)
        + mtk_throttle_performance() + mali_policy(ostr(d.mali), "always_on"@)
}

/// The performance profile of a MediaTek device: PPM limits off and boost
/// on, the fast CCI and power modes, the GPU pinned at its highest
/// frequency, EAS off, GPU power limits ignored, throttling stopped, DVFS
/// at its highest level.
pub fn mediatek_performance(d: &MtkDevice) -> (res: Vec<SysWrite>)
    ensures
        writes_view(res@) == mtk_performance_plan(*d),
{
    let mut plan = ppm_policy_writes(oref(&d.ppm_status), "0", Some("1"), true);
    push_two(&mut plan, "1", "/proc/cpufreq/cpufreq_cci_mode", "3", "/proc/cpufreq/cpufreq_power_mode");
    push_gpu_performance(&mut plan, d);
    push_one(&mut plan, "0", "/sys/devices/system/cpu/eas/enable");
    push_limits(&mut plan, d, "1");
    push_throttle_performance(&mut plan);
    push_mali_policy(&mut plan, &d.mali, "always_on");
    plan
}

/// The powersave profile of a MediaTek device.
pub open spec fn mtk_powersave_plan(d: MtkDevice) -> Seq<WriteView> {
    (match ostr(d.ppm_status) {
        Some(st) => ppm_lines_plan(lines(st), "1"@, Some("0"@), true),
        None => seq![],
    }) + seq![
        lw("0"@, "/sys/devices/platform/10012000.dvfsrc/helio-dvfsrc/dvfsrc_req_ddr_opp"@),
        lw("0"@, "/sys/kernel/helio-dvfsrc/dvfsrc_force_vcore_dvfs_opp"@),
        lw("powersave"@, "/sys/class/devfreq/mtk-dvfsrc-devfreq/governor"@),
        lw("powersave"@, "/sys/devices/platform/soc/1c00f000.dvfsrc/mtk-dvfsrc-devfreq/devfreq/mtk-dvfsrc-devfreq/governor"@),
    ] + (if d.gpu_power_limited {
        gpu_limit_writes("1"@)
    } else {
        seq![]
    }) + seq![
        lw("0"@, "/proc/perfmgr/syslimiter/syslimiter_force_disable"@),
        lw("stop 0"@, "/proc/mtk_batoc_throttling/battery_oc_protect_stop"@),
        lw("stop 0"@, "/proc/pbm/pbm_stop"@),
        lw("1"@, "/sys/kernel/eara_thermal/enable"@),
    ] + mali_policy(ostr(d.mali), "coarse_demand"@)
}

/// The powersave profile of a MediaTek device: PPM limits on and boost
/// off, DVFS at its lowest level, GPU power limits ignored.
pub fn mediatek_powersave(d: &MtkDevice) -> (res: Vec<SysWrite>)
    ensures
        writes_view(res@) == mtk_powersave_plan(*d),
{
    let mut plan = ppm_policy_writes(oref(&d.ppm_status), "1", Some("0"), true);
    push_locked(&mut plan, "0", "/sys/devices/platform/10012000.dvfsrc/helio-dvfsrc/dvfsrc_req_ddr_opp");
    push_locked(&mut plan, "0", "/sys/kernel/helio-dvfsrc/dvfsrc_force_vcore_dvfs_opp");
    push_locked(&mut plan, "powersave", "/sys/class/devfreq/mtk-dvfsrc-devfreq/governor");
    push_locked(
        &mut plan,
        "powersave",
        "/sys/devices/platform/soc/1c00f000.dvfsrc/mtk-dvfsrc-devfreq/devfreq/mtk-dvfsrc-devfreq/governor",
    );
    if d.gpu_power_limited {
        push_gpu_limits(&mut plan, "1");
    }
    push_locked(&mut plan, "0", "/proc/perfmgr/syslimiter/syslimiter_force_disable");
    push_locked(&mut plan, "stop 0", "/proc/mtk_batoc_throttling/battery_oc_protect_stop");
    push_locked(&mut plan, "stop 0", "/proc/pbm/pbm_stop");
    push_locked(&mut plan, "1", "/sys/kernel/eara_thermal/enable");
    push_mali_policy(&mut plan, &d.mali, "coarse_demand");
    assert(writes_view(plan@) =~= mtk_powersave_plan(*d));
    plan
}

} // verus!
