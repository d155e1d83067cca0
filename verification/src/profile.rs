//! The three profiles (performance, balanced, eco) as plans of steps, and
//! the vendor-specific part that each dispatches to.
use vstd::prelude::*;
use crate::cpufreq::{
    balance_fits, balance_plan, game_fits, game_plan, is_eco, is_lite, policies_view, setfreq, setfreqppm,
    setgamefreq, setgamefreqppm, CpuPolicy,
};
use crate::freq::limiter_of;
use crate::gpu::{
    exynos_balance, exynos_balance_plan, exynos_gpu, exynos_performance, exynos_performance_plan, exynos_powersave,
    tensor_balance, tensor_balance_plan, tensor_gpu, tensor_performance, tensor_performance_plan, tensor_powersave,
    unisoc_balance, unisoc_performance, unisoc_plan, unisoc_powersave, DevfreqNode, ExynosDevice, TensorDevice,
};
use crate::devfreq::{DevfreqLevel, Pick};
use crate::plan::{
    as_steps, fixed_writes, lw, pairs_view, push_fixed, push_step, push_writes, steps_view, writes_view, Step,
    StepView, SysWrite, WriteView,
};
use crate::probe::{chosen, choose_setting, prop_int, prop_int_exec};
use crate::qcom::{
    qcom_balance_plan, qcom_performance_plan, qcom_powersave_plan, snapdragon_balance, snapdragon_performance,
    snapdragon_powersave, QcomDevice,
};
use crate::scan::{clear_background_apps, to_stop};
use crate::soc::{
    mediatek_balance, mediatek_performance, mediatek_powersave, mtk_balance_plan, mtk_performance_plan,
    mtk_powersave_plan, ostr, MtkDevice,
};
use crate::text::{concat_str, str_eq, strings_view};
use crate::thermal::runs_of;
use crate::tune::{
    locks, saver_on, saver_value,
    apply_battery_saver, apply_core_ctl, apply_sched_features, apply_stune_boost, battery_saver_plan, biggest_of,
    core_ctl_plan, each_at, features_plan, get_biggest_cluster, io_schedulers, perf_nodes, perf_nodes_plan, sets_gpu_mali,
    sets_io, setgov, setgov_plan, stune_plan, Cluster,
};

verus! {

/// The vendor of the device, as the `persist.sys.azenithdebug.soctype`
/// property names it.
#[derive(Clone, Copy, Debug, PartialEq, Eq, Structural)]
pub enum SocKind {
    MediaTek,
    Snapdragon,
    Exynos,
    Unisoc,
    Tensor,
    Other,
}

/// The vendor a soctype property names: `1` MediaTek, `2` Snapdragon, `3`
/// Exynos, `4` Unisoc, `5` Tensor.
pub open spec fn soc_kind_of(soctype: Seq<char>) -> SocKind {
    if soctype == "1"@ {
        SocKind::MediaTek
    } else if soctype == "2"@ {
        SocKind::Snapdragon
    } else if soctype == "3"@ {
        SocKind::Exynos
    } else if soctype == "4"@ {
        SocKind::Unisoc
    } else if soctype == "5"@ {
        SocKind::Tensor
    } else {
        SocKind::Other
    }
}

/// The vendor a soctype property names.
pub fn soc_kind(soctype: &str) -> (k: SocKind)
    ensures
        k == soc_kind_of(soctype@),
{
    if str_eq(soctype, "1") {
        SocKind::MediaTek
    } else if str_eq(soctype, "2") {
        SocKind::Snapdragon
    } else if str_eq(soctype, "3") {
        SocKind::Exynos
    } else if str_eq(soctype, "4") {
        SocKind::Unisoc
    } else if str_eq(soctype, "5") {
        SocKind::Tensor
    } else {
        SocKind::Other
    }
}

/// What the profiles read of the device's vendor-specific hardware.
pub enum SocDevice {
    MediaTek(MtkDevice),
    Snapdragon(QcomDevice),
    Exynos(ExynosDevice),
    /// The first Unisoc GPU (`*.gpu`), if there is one.
    Unisoc(Option<DevfreqNode>),
    Tensor(TensorDevice),
    Other,
}

/// The vendor part of the performance profile.
pub open spec fn soc_performance_plan(d: SocDevice, litemode: Seq<char>, devicemitigation: Seq<char>) -> Seq<WriteView> {
    match d {
        SocDevice::MediaTek(m) => mtk_performance_plan(m),
        SocDevice::Snapdragon(q) => qcom_performance_plan(q),
        SocDevice::Exynos(x) => exynos_performance_plan(x, litemode, devicemitigation),
        SocDevice::Unisoc(g) => unisoc_plan(
            g,
            if prop_int(litemode) == 0 { DevfreqLevel::Max } else { DevfreqLevel::Mid },
        ),
        SocDevice::Tensor(t) => tensor_performance_plan(t, litemode, devicemitigation),
        SocDevice::Other => seq![],
    }
}

/// The vendor part of the performance profile.
pub fn soc_performance(d: &SocDevice, litemode: &str, devicemitigation: &str) -> (res: Vec<SysWrite>)
    ensures
        writes_view(res@) == soc_performance_plan(*d, litemode@, devicemitigation@),
{
    match d {
        SocDevice::MediaTek(m) => mediatek_performance(m),
        SocDevice::Snapdragon(q) => snapdragon_performance(q),
        SocDevice::Exynos(x) => exynos_performance(x, litemode, devicemitigation),
        SocDevice::Unisoc(g) => unisoc_performance(g, litemode),
        SocDevice::Tensor(t) => tensor_performance(t, litemode, devicemitigation),
        SocDevice::Other => Vec::new(),
    }
}

/// The vendor part of the balanced profile.
pub open spec fn soc_balance_plan(d: SocDevice, devicemitigation: Seq<char>) -> Seq<WriteView> {
    match d {
        SocDevice::MediaTek(m) => mtk_balance_plan(m),
        SocDevice::Snapdragon(q) => qcom_balance_plan(q),
        SocDevice::Exynos(x) => exynos_balance_plan(x, devicemitigation),
        SocDevice::Unisoc(g) => unisoc_plan(g, DevfreqLevel::Unlock),
        SocDevice::Tensor(t) => tensor_balance_plan(t, devicemitigation),
        SocDevice::Other => seq![],
    }
}

/// The vendor part of the balanced profile.
pub fn soc_balance(d: &SocDevice, devicemitigation: &str) -> (res: Vec<SysWrite>)
    ensures
        writes_view(res@) == soc_balance_plan(*d, devicemitigation@),
{
    match d {
        SocDevice::MediaTek(m) => mediatek_balance(m),
        SocDevice::Snapdragon(q) => snapdragon_balance(q),
        SocDevice::Exynos(x) => exynos_balance(x, devicemitigation),
        SocDevice::Unisoc(g) => unisoc_balance(g),
        SocDevice::Tensor(t) => tensor_balance(t, devicemitigation),
        SocDevice::Other => Vec::new(),
    }
}

/// The vendor part of the eco profile.
pub open spec fn soc_powersave_plan(d: SocDevice) -> Seq<WriteView> {
    match d {
        SocDevice::MediaTek(m) => mtk_powersave_plan(m),
        SocDevice::Snapdragon(q) => qcom_powersave_plan(q),
        SocDevice::Exynos(x) => exynos_gpu(x, "/gpu_min_clock"@, Pick::Min, "/gpu_max_clock"@, Pick::Min),
        SocDevice::Unisoc(g) => unisoc_plan(g, DevfreqLevel::Min),
        SocDevice::Tensor(t) => tensor_gpu(t, "/scaling_min_freq"@, Pick::Min, "/scaling_max_freq"@, Pick::Min),
        SocDevice::Other => seq![],
    }
}

/// The vendor part of the eco profile.
pub fn soc_powersave(d: &SocDevice) -> (res: Vec<SysWrite>)
    ensures
        writes_view(res@) == soc_powersave_plan(*d),
{
    match d {
        SocDevice::MediaTek(m) => mediatek_powersave(m),
        SocDevice::Snapdragon(q) => snapdragon_powersave(q),
        SocDevice::Exynos(x) => exynos_powersave(x),
        SocDevice::Unisoc(g) => unisoc_powersave(g),
        SocDevice::Tensor(t) => tensor_powersave(t),
        SocDevice::Other => Vec::new(),
    }
}

/// What the profiles read.
pub struct ProfileEnv {
    /// The `persist.sys.azenith.custom_default_cpu_gov` property.
    pub custom_default_cpu_gov: String,
    /// The `persist.sys.azenith.default_cpu_gov` property.
    pub default_cpu_gov: String,
    /// The `persist.sys.azenith.custom_powersave_cpu_gov` property.
    pub custom_powersave_cpu_gov: String,
    /// The `persist.sys.azenithconf.litemode` property.
    pub litemode: String,
    /// The `persist.sys.azenith.custom_default_balanced_IO` property.
    pub custom_default_balanced_io: String,
    /// The `persist.sys.azenith.default_balanced_IO` property.
    pub default_balanced_io: String,
    /// The `persist.sys.azenith.custom_performance_IO` property.
    pub custom_performance_io: String,
    /// The `persist.sys.azenith.custom_powersave_IO` property.
    pub custom_powersave_io: String,
    /// The `sys.azenith.maligovsupport` property.
    pub maligovsupport: String,
    /// The `persist.sys.azenith.custom_default_gpumali_gov` property.
    pub custom_default_gpumali_gov: String,
    /// The `persist.sys.azenith.custom_performance_gpumali_gov` property.
    pub custom_performance_gpumali_gov: String,
    /// The `persist.sys.azenith.custom_powersave_gpumali_gov` property.
    pub custom_powersave_gpumali_gov: String,
    /// The `persist.sys.azenith.default_gpumali_gov` property.
    pub default_gpumali_gov: String,
    /// The `persist.sys.azenithconf.bypasschg` property.
    pub bypasschg: String,
    /// The `persist.sys.azenithconf.clearbg` property.
    pub clearbg: String,
    /// The `persist.sys.azenithconf.freqoffset` property.
    pub freqoffset: String,
    /// The `persist.sys.azenithconf.devicemitigation` property.
    pub devicemitigation: String,
    /// The text of the current profile file, empty when it cannot be read.
    pub current_profile: String,
    /// The `scaling_governor` file of each CPU.
    pub cpu_governors: Vec<String>,
    /// The `scaling_governor` file of each cpufreq policy.
    pub policy_governors: Vec<String>,
    /// Each cpufreq policy, by name, with its maximum frequency.
    pub clusters: Vec<Cluster>,
    /// The Mali governor files.
    pub mali_governors: Vec<String>,
    /// `/proc/ppm` exists.
    pub ppm: bool,
    /// Each CPU frequency directory: the `policy*` directories when
    /// `/proc/ppm` exists, the `cpu*/cpufreq` directories otherwise.
    pub policies: Vec<CpuPolicy>,
    /// The `scaling_*_freq` files of each cpufreq policy, made read-only
    /// after the frequencies are set without PPM.
    pub scaling_files: Vec<String>,
    /// The performance monitor nodes.
    pub perf_nodes: Vec<String>,
    /// The schedtune groups under `/dev/stune`.
    pub stune_groups: Vec<String>,
    /// The CPU directories (`/sys/devices/system/cpu/cpu*`).
    pub cpus: Vec<String>,
    /// The text of the battery saver parameter, when it exists and can be
    /// read.
    pub battery_saver: Option<String>,
    /// `/sys/kernel/debug/sched_features` exists.
    pub sched_features: bool,
    /// The output of `dumpsys window displays`, when the clear-background
    /// property holds `1` and it ran.
    pub window_dump: Option<String>,
    /// The vendor-specific hardware.
    pub soc: SocDevice,
}

/// The I/O scheduler part of a profile.
pub open spec fn io_steps(g: Seq<char>) -> Seq<StepView> {
    as_steps(each_at(io_schedulers(), g))
}

fn push_io(plan: &mut Vec<Step>, g: &str)
    ensures
        steps_view(final(plan)@) == steps_view(old(plan)@) + io_steps(g@),
{
    push_writes(plan, sets_io(g));
}

/// The Mali governor part of a profile: `g` to each Mali governor file when
/// the Mali governor support property holds 1.
pub open spec fn mali_steps(e: ProfileEnv, g: Seq<char>) -> Seq<StepView> {
    if prop_int(e.maligovsupport@) == 1 {
        as_steps(each_at(strings_view(e.mali_governors@), g))
    } else {
        seq![]
    }
}

fn push_mali(plan: &mut Vec<Step>, e: &ProfileEnv, g: &str)
    ensures
        steps_view(final(plan)@) == steps_view(old(plan)@) + mali_steps(*e, g@),
{
    let ghost before = steps_view(plan@);
    if prop_int_exec(e.maligovsupport.as_str()) == 1 {
        push_writes(plan, sets_gpu_mali(g, e.mali_governors.as_slice()));
    }
    assert(steps_view(plan@) =~= before + mali_steps(*e, g@));
}

/// The bypass charging command of a profile, when the bypass property holds
/// `1`.
pub open spec fn bypass_steps(e: ProfileEnv, command: Seq<char>) -> Seq<StepView> {
    if e.bypasschg@ == "1"@ {
        seq![StepView::Run(seq!["sys.azenith-utilityconf"@, command])]
    } else {
        seq![]
    }
}

fn push_bypass(plan: &mut Vec<Step>, e: &ProfileEnv, command: &str)
    ensures
        steps_view(final(plan)@) == steps_view(old(plan)@) + bypass_steps(*e, command@),
{
    let ghost before = steps_view(plan@);
    if str_eq(e.bypasschg.as_str(), "1") {
        let a = crate::plan::args_of(&["sys.azenith-utilityconf", command]);
        assert(strings_view(a@) =~= seq!["sys.azenith-utilityconf"@, command@]);
        push_step(plan, Step::Run(a));
    }
    assert(steps_view(plan@) =~= before + bypass_steps(*e, command@));
}

fn push_fixed_steps(plan: &mut Vec<Step>, ps: &[(&str, &str)])
    ensures
        steps_view(final(plan)@) == steps_view(old(plan)@) + as_steps(fixed_writes(pairs_view(ps@))),
{
    let mut ws: Vec<SysWrite> = Vec::new();
    push_fixed(&mut ws, ps);
    assert(writes_view(ws@) =~= fixed_writes(pairs_view(ps@)));
    push_writes(plan, ws);
}

/// The common tail of every profile, after the governors and frequencies:
/// the performance monitor nodes, the VM and workqueue settings, schedtune,
/// the perf and energy settings, core control, the battery saver, split
/// lock mitigation and the scheduler features.
pub open spec fn common_steps(
    e: ProfileEnv,
    performance: bool,
    vm: Seq<(Seq<char>, Seq<char>)>,
    perf: Seq<(Seq<char>, Seq<char>)>,
    saver: Seq<char>,
    split_lock: Seq<char>,
    features: Seq<Seq<char>>,
) -> Seq<StepView> {
    as_steps(perf_nodes_plan(strings_view(e.perf_nodes@), performance)) + as_steps(fixed_writes(vm)) + as_steps(
        stune_plan(strings_view(e.stune_groups@), performance),
    ) + as_steps(fixed_writes(perf)) + as_steps(core_ctl_plan(strings_view(e.cpus@), "0"@)) + as_steps(
        battery_saver_plan(saver, ostr(e.battery_saver)),
    ) + as_steps(seq![lw(split_lock, "/proc/sys/kernel/split_lock_mitigate"@)]) + as_steps(
        if e.sched_features { features_plan(features) } else { seq![] },
    )
}

fn push_common(
    plan: &mut Vec<Step>,
    e: &ProfileEnv,
    performance: bool,
    vm: &[(&str, &str)],
    perf: &[(&str, &str)],
    saver: &str,
    split_lock: &str,
    features: &[&str],
)
    ensures
        steps_view(final(plan)@) == steps_view(old(plan)@) + common_steps(
            *e,
            performance,
            pairs_view(vm@),
            pairs_view(perf@),
            saver@,
            split_lock@,
            features@.map_values(|f: &str| f@),
        ),
{
    let ghost before = steps_view(plan@);
    push_writes(plan, perf_nodes(e.perf_nodes.as_slice(), performance));
    push_fixed_steps(plan, vm);
    push_writes(plan, apply_stune_boost(e.stune_groups.as_slice(), performance, false));
    push_fixed_steps(plan, perf);
    push_writes(plan, apply_core_ctl(e.cpus.as_slice(), "0"));
    let saver_text: Option<&str> = match &e.battery_saver {
        Some(t) => Some(t.as_str()),
        None => None,
    };
    assert(crate::freq::opt_view(saver_text) == ostr(e.battery_saver));
    push_writes(plan, apply_battery_saver(saver, saver_text));
    let ghost b1 = steps_view(plan@);
    crate::plan::push_locked_step(plan, split_lock, "/proc/sys/kernel/split_lock_mitigate");
    assert(steps_view(plan@) =~= b1 + as_steps(seq![lw(split_lock@, "/proc/sys/kernel/split_lock_mitigate"@)]));
    push_writes(plan, apply_sched_features(e.sched_features, features));
    assert(steps_view(plan@) =~= before + common_steps(
        *e,
        performance,
        pairs_view(vm@),
        pairs_view(perf@),
        saver@,
        split_lock@,
        features@.map_values(|f: &str| f@),
    ));
}

/// The packages a profile may force-stop: those of the window dump that
/// have only invisible tasks and are not system packages, each once, when
/// the clear-background property holds `1` and the dump was taken; none
/// otherwise.
pub open spec fn stops_ok(e: ProfileEnv, st: Seq<Seq<char>>) -> bool {
    if e.clearbg@ == "1"@ && e.window_dump is Some {
        &&& forall|p: Seq<char>| to_stop(e.window_dump->0@, p) <==> st.contains(p)
        &&& forall|i: int, j: int| 0 <= i < j < st.len() ==> st[i] != st[j]
    } else {
        st.len() == 0
    }
}

fn stop_list(e: &ProfileEnv) -> (res: Vec<String>)
    ensures
        stops_ok(*e, strings_view(res@)),
{
    if str_eq(e.clearbg.as_str(), "1") {
        if let Some(d) = &e.window_dump {
            let r = clear_background_apps(d.as_str());
            proof {
                let sv = strings_view(r@);
                assert forall|p: Seq<char>| to_stop(d@, p) <==> sv.contains(p) by {
                    assert(strings_view(r@).contains(p) == sv.contains(p));
                }
                assert forall|i: int, j: int| 0 <= i < j < sv.len() implies sv[i] != sv[j] by {
                    assert(sv[i] == r@[i]@ && sv[j] == r@[j]@);
                }
            }
            return r;
        }
    }
    Vec::new()
}

/// The CPU governor part of the performance profile: `performance` on every
/// CPU, or in lite mode only on the biggest cluster.
pub open spec fn perf_gov_steps(e: ProfileEnv) -> Seq<StepView> {
    if prop_int(e.litemode@) == 0 {
        setgov_plan("performance"@, strings_view(e.cpu_governors@), strings_view(e.policy_governors@))
    } else {
        let b = biggest_of(e.clusters@).1;
        if b.len() > 0 {
            seq![StepView::Write(lw("performance"@, "/sys/devices/system/cpu/cpufreq/"@ + b + "/scaling_governor"@))]
        } else {
            seq![]
        }
    }
}

fn push_perf_gov(plan: &mut Vec<Step>, e: &ProfileEnv)
    ensures
        steps_view(final(plan)@) == steps_view(old(plan)@) + perf_gov_steps(*e),
{
    let ghost before = steps_view(plan@);
    if prop_int_exec(e.litemode.as_str()) == 0 {
        let mut g = setgov("performance", e.cpu_governors.as_slice(), e.policy_governors.as_slice());
        let ghost gv = steps_view(g@);
        plan.append(&mut g);
        assert(steps_view(plan@) =~= before + gv);
    } else {
        let b = get_biggest_cluster(e.clusters.as_slice());
        if !b.as_str().is_empty() {
            let p1 = concat_str("/sys/devices/system/cpu/cpufreq/", b.as_str());
            let p = concat_str(p1.as_str(), "/scaling_governor");
            crate::plan::push_locked_step(plan, "performance", p.as_str());
        }
    }
    assert(steps_view(plan@) =~= before + perf_gov_steps(*e));
}

/// The I/O scheduler of the balanced profile.
pub open spec fn balanced_io(e: ProfileEnv) -> Seq<char> {
    chosen(e.custom_default_balanced_io@, e.default_balanced_io@, "none"@)
}

/// The read-only pass over the policies' scaling files that follows the
/// CPU bounds when they are set without PPM.
pub open spec fn freq_locks(e: ProfileEnv) -> Seq<StepView> {
    if e.ppm { seq![] } else { locks(strings_view(e.scaling_files@)) }
}

/// The head of the performance profile, before the common tail.
pub open spec fn performance_head(e: ProfileEnv) -> Seq<StepView> {
    perf_gov_steps(e) + io_steps(crate::boot::custom_or(e.custom_performance_io@, balanced_io(e))) + mali_steps(
        e,
        chosen(e.custom_performance_gpumali_gov@, e.default_gpumali_gov@, "dummy"@),
    ) + bypass_steps(e, "enableBypass"@) + as_steps(
        game_plan(policies_view(e.policies@), is_lite(e.litemode@), e.ppm, crate::plan::WriteMode::Locked),
    ) + freq_locks(e)
}

/// The VM and workqueue settings of the performance profile.
pub open spec fn perf_vm() -> Seq<(Seq<char>, Seq<char>)> {
    seq![
        ("/proc/sys/vm/vfs_cache_pressure"@, "40"@),
        ("/proc/sys/vm/drop_caches"@, "3"@),
        ("/sys/module/workqueue/parameters/power_efficient"@, "N"@),
        ("/sys/module/workqueue/parameters/disable_numa"@, "N"@),
        ("/sys/kernel/eara_thermal/enable"@, "0"@),
        ("/sys/devices/system/cpu/eas/enable"@, "0"@),
        ("/sys/devices/system/cpu/cpu2/online"@, "1"@),
        ("/sys/devices/system/cpu/cpu3/online"@, "1"@),
    ]
}

/// The perf and energy settings of the performance profile.
pub open spec fn perf_energy() -> Seq<(Seq<char>, Seq<char>)> {
    seq![("/proc/sys/kernel/perf_cpu_time_max_percent"@, "1"@), ("/proc/sys/kernel/sched_energy_aware"@, "1"@)]
}

/// The performance profile, with `st` the packages it force-stops.
pub open spec fn performance_plan(e: ProfileEnv, st: Seq<Seq<char>>) -> Seq<StepView> {
    performance_head(e) + common_steps(e, true, perf_vm(), perf_energy(), "0"@, "0"@, seq!["NEXT_BUDDY"@, "NO_TTWU_QUEUE"@])
        + runs_of(seq!["am"@, "force-stop"@], st) + (if prop_int(e.litemode@) == 0 {
        as_steps(soc_performance_plan(e.soc, e.litemode@, e.devicemitigation@))
    } else {
        seq![]
    })
}

fn push_perf_head(plan: &mut Vec<Step>, e: &ProfileEnv)
    requires
        game_fits(policies_view(e.policies@)),
    ensures
        steps_view(final(plan)@) == steps_view(old(plan)@) + performance_head(*e),
{
    let ghost before = steps_view(plan@);
    push_perf_gov(plan, e);
    let d = choose_setting(e.custom_default_balanced_io.as_str(), e.default_balanced_io.as_str(), "none");
    let io = choose_setting(e.custom_performance_io.as_str(), d.as_str(), d.as_str());
    assert(io@ == crate::boot::custom_or(e.custom_performance_io@, balanced_io(*e)));
    push_io(plan, io.as_str());
    let g = choose_setting(e.custom_performance_gpumali_gov.as_str(), e.default_gpumali_gov.as_str(), "dummy");
    push_mali(plan, e, g.as_str());
    push_bypass(plan, e, "enableBypass");
    let ghost b4 = steps_view(plan@);
    if e.ppm {
        push_writes(plan, setgamefreqppm(e.policies.as_slice(), e.litemode.as_str()));
    } else {
        let mut fs = setgamefreq(e.policies.as_slice(), e.scaling_files.as_slice(), e.litemode.as_str());
        let ghost fv = steps_view(fs@);
        plan.append(&mut fs);
        assert(steps_view(plan@) =~= b4 + fv);
    }
    assert(steps_view(plan@) =~= b4 + as_steps(
        game_plan(policies_view(e.policies@), is_lite(e.litemode@), e.ppm, crate::plan::WriteMode::Locked),
    ) + freq_locks(*e));
    assert(steps_view(plan@) =~= before + performance_head(*e));
}

fn push_stops(plan: &mut Vec<Step>, st: &[String])
    ensures
        steps_view(final(plan)@) == steps_view(old(plan)@) + runs_of(seq!["am"@, "force-stop"@], strings_view(st@)),
{
    let pre: &[&str] = &["am", "force-stop"];
    crate::thermal::push_runs(plan, pre, st);
    assert(pre@.map_values(|w: &str| w@) =~= seq!["am"@, "force-stop"@]);
}

/// The performance profile: the `performance` governor (only on the
/// biggest cluster in lite mode), the performance I/O and Mali governors,
/// bypass charging on when enabled, the CPUs at their highest frequencies
/// (lower bounds at the middle ones in lite mode), the performance monitor
/// nodes on, the VM, workqueue, schedtune, perf and energy settings for
/// speed, the background apps stopped when enabled, and, outside lite mode,
/// the vendor part.
pub fn performance_profile(e: &ProfileEnv) -> (res: Vec<Step>)
    requires
        game_fits(policies_view(e.policies@)),
    ensures
        exists|st: Seq<Seq<char>>| stops_ok(*e, st) && steps_view(res@) == performance_plan(*e, st),
{
    let vm: &[(&str, &str)] = &[
        ("/proc/sys/vm/vfs_cache_pressure", "40"),
        ("/proc/sys/vm/drop_caches", "3"),
        ("/sys/module/workqueue/parameters/power_efficient", "N"),
        ("/sys/module/workqueue/parameters/disable_numa", "N"),
        ("/sys/kernel/eara_thermal/enable", "0"),
        ("/sys/devices/system/cpu/eas/enable", "0"),
        ("/sys/devices/system/cpu/cpu2/online", "1"),
        ("/sys/devices/system/cpu/cpu3/online", "1"),
    ];
    let energy: &[(&str, &str)] = &[
        ("/proc/sys/kernel/perf_cpu_time_max_percent", "1"),
        ("/proc/sys/kernel/sched_energy_aware", "1"),
    ];
    let features: &[&str] = &["NEXT_BUDDY", "NO_TTWU_QUEUE"];
    assert(pairs_view(vm@) =~= perf_vm());
    assert(pairs_view(energy@) =~= perf_energy());
    assert(features@.map_values(|f: &str| f@) =~= seq!["NEXT_BUDDY"@, "NO_TTWU_QUEUE"@]);
    let mut plan: Vec<Step> = Vec::new();
    push_perf_head(&mut plan, e);
    push_common(&mut plan, e, true, vm, energy, "0", "0", features);
    let st = stop_list(e);
    push_stops(&mut plan, st.as_slice());
    let ghost b3 = steps_view(plan@);
    if prop_int_exec(e.litemode.as_str()) == 0 {
        push_writes(&mut plan, soc_performance(&e.soc, e.litemode.as_str(), e.devicemitigation.as_str()));
    }
    assert(steps_view(plan@) =~= performance_plan(*e, strings_view(st@)));
    plan
}

/// The VM and workqueue settings of the balanced and eco profiles.
pub open spec fn calm_vm() -> Seq<(Seq<char>, Seq<char>)> {
    seq![
        ("/proc/sys/vm/vfs_cache_pressure"@, "120"@),
        ("/sys/module/workqueue/parameters/power_efficient"@, "Y"@),
        ("/sys/module/workqueue/parameters/disable_numa"@, "Y"@),
        ("/sys/kernel/eara_thermal/enable"@, "1"@),
        ("/sys/devices/system/cpu/eas/enable"@, "1"@),
    ]
}

/// The perf and energy settings of the balanced profile.
pub open spec fn balanced_energy() -> Seq<(Seq<char>, Seq<char>)> {
    seq![
        ("/proc/sys/kernel/perf_cpu_time_max_percent"@, "100"@),
        ("/proc/sys/kernel/perf_cpu_time_max_percent"@, "2"@),
        ("/proc/sys/kernel/sched_energy_aware"@, "1"@),
    ]
}

/// The perf and energy settings of the eco profile.
pub open spec fn eco_energy() -> Seq<(Seq<char>, Seq<char>)> {
    seq![
        ("/proc/sys/kernel/perf_cpu_time_max_percent"@, "50"@),
        ("/proc/sys/kernel/perf_cpu_time_max_percent"@, "0"@),
        ("/proc/sys/kernel/sched_energy_aware"@, "0"@),
    ]
}

/// The CPU bounds of the balanced and eco profiles.
pub open spec fn calm_freqs(e: ProfileEnv) -> Seq<StepView> {
    as_steps(
        balance_plan(
            policies_view(e.policies@),
            limiter_of(e.freqoffset@),
            is_eco(e.current_profile@),
            e.ppm,
            crate::plan::WriteMode::Locked,
        ),
    ) + freq_locks(e)
}

fn push_calm_freqs(plan: &mut Vec<Step>, e: &ProfileEnv)
    requires
        balance_fits(policies_view(e.policies@), limiter_of(e.freqoffset@), is_eco(e.current_profile@)),
    ensures
        steps_view(final(plan)@) == steps_view(old(plan)@) + calm_freqs(*e),
{
    let ghost before = steps_view(plan@);
    if e.ppm {
        push_writes(plan, setfreqppm(e.policies.as_slice(), e.freqoffset.as_str(), e.current_profile.as_str()));
    } else {
        let mut fs = setfreq(
            e.policies.as_slice(),
            e.scaling_files.as_slice(),
            e.freqoffset.as_str(),
            e.current_profile.as_str(),
        );
        let ghost fv = steps_view(fs@);
        plan.append(&mut fs);
        assert(steps_view(plan@) =~= before + fv);
    }
    assert(steps_view(plan@) =~= before + calm_freqs(*e));
}

/// The head of the balanced profile, before the common tail.
pub open spec fn balanced_head(e: ProfileEnv) -> Seq<StepView> {
    setgov_plan(
        chosen(e.custom_default_cpu_gov@, e.default_cpu_gov@, "schedutil"@),
        strings_view(e.cpu_governors@),
        strings_view(e.policy_governors@),
    ) + io_steps(balanced_io(e)) + mali_steps(e, chosen(e.custom_default_gpumali_gov@, e.default_gpumali_gov@, "dummy"@))
        + bypass_steps(e, "disableBypass"@) + calm_freqs(e)
}

/// The balanced profile.
pub open spec fn balanced_plan(e: ProfileEnv) -> Seq<StepView> {
    balanced_head(e) + common_steps(e, false, calm_vm(), balanced_energy(), "0"@, "1"@, seq!["NEXT_BUDDY"@, "TTWU_QUEUE"@])
        + as_steps(soc_balance_plan(e.soc, e.devicemitigation@))
}

fn push_balanced_head(plan: &mut Vec<Step>, e: &ProfileEnv)
    requires
        balance_fits(policies_view(e.policies@), limiter_of(e.freqoffset@), is_eco(e.current_profile@)),
    ensures
        steps_view(final(plan)@) == steps_view(old(plan)@) + balanced_head(*e),
{
    let ghost before = steps_view(plan@);
    let gov = choose_setting(e.custom_default_cpu_gov.as_str(), e.default_cpu_gov.as_str(), "schedutil");
    let mut g = setgov(gov.as_str(), e.cpu_governors.as_slice(), e.policy_governors.as_slice());
    let ghost gv = steps_view(g@);
    plan.append(&mut g);
    assert(steps_view(plan@) =~= before + gv);
    let io = choose_setting(e.custom_default_balanced_io.as_str(), e.default_balanced_io.as_str(), "none");
    push_io(plan, io.as_str());
    let m = choose_setting(e.custom_default_gpumali_gov.as_str(), e.default_gpumali_gov.as_str(), "dummy");
    push_mali(plan, e, m.as_str());
    push_bypass(plan, e, "disableBypass");
    push_calm_freqs(plan, e);
    assert(steps_view(plan@) =~= before + balanced_head(*e));
}

/// The balanced profile: the default CPU, I/O and Mali governors (custom
/// ones when set), bypass charging off when enabled, the CPUs within the
/// frequency offset, the performance monitor nodes off but the charger's,
/// the VM, workqueue, schedtune, perf and energy settings for balance, and
/// the vendor part.
pub fn balanced_profile(e: &ProfileEnv) -> (res: Vec<Step>)
    requires
        balance_fits(policies_view(e.policies@), limiter_of(e.freqoffset@), is_eco(e.current_profile@)),
    ensures
        steps_view(res@) == balanced_plan(*e),
{
    let vm: &[(&str, &str)] = &[
        ("/proc/sys/vm/vfs_cache_pressure", "120"),
        ("/sys/module/workqueue/parameters/power_efficient", "Y"),
        ("/sys/module/workqueue/parameters/disable_numa", "Y"),
        ("/sys/kernel/eara_thermal/enable", "1"),
        ("/sys/devices/system/cpu/eas/enable", "1"),
    ];
    let energy: &[(&str, &str)] = &[
        ("/proc/sys/kernel/perf_cpu_time_max_percent", "100"),
        ("/proc/sys/kernel/perf_cpu_time_max_percent", "2"),
        ("/proc/sys/kernel/sched_energy_aware", "1"),
    ];
    let features: &[&str] = &["NEXT_BUDDY", "TTWU_QUEUE"];
    assert(pairs_view(vm@) =~= calm_vm());
    assert(pairs_view(energy@) =~= balanced_energy());
    assert(features@.map_values(|f: &str| f@) =~= seq!["NEXT_BUDDY"@, "TTWU_QUEUE"@]);
    let mut plan: Vec<Step> = Vec::new();
    push_balanced_head(&mut plan, e);
    push_common(&mut plan, e, false, vm, energy, "0", "1", features);
    push_writes(&mut plan, soc_balance(&e.soc, e.devicemitigation.as_str()));
    assert(steps_view(plan@) =~= balanced_plan(*e));
    plan
}

/// The head of the eco profile, before the common tail.
pub open spec fn eco_head(e: ProfileEnv) -> Seq<StepView> {
    setgov_plan(
        crate::boot::custom_or(e.custom_powersave_cpu_gov@, "powersave"@),
        strings_view(e.cpu_governors@),
        strings_view(e.policy_governors@),
    ) + io_steps(crate::boot::custom_or(e.custom_powersave_io@, "none"@)) + mali_steps(
        e,
        crate::boot::custom_or(e.custom_powersave_gpumali_gov@, "dummy"@),
    ) + calm_freqs(e) + bypass_steps(e, "disableBypass"@)
}

/// The eco profile.
pub open spec fn eco_plan(e: ProfileEnv) -> Seq<StepView> {
    eco_head(e) + common_steps(e, false, calm_vm(), eco_energy(), "1"@, "1"@, seq!["NO_NEXT_BUDDY"@, "NO_TTWU_QUEUE"@])
        + as_steps(soc_powersave_plan(e.soc))
}

fn push_eco_head(plan: &mut Vec<Step>, e: &ProfileEnv)
    requires
        balance_fits(policies_view(e.policies@), limiter_of(e.freqoffset@), is_eco(e.current_profile@)),
    ensures
        steps_view(final(plan)@) == steps_view(old(plan)@) + eco_head(*e),
{
    let ghost before = steps_view(plan@);
    let gov = choose_setting(e.custom_powersave_cpu_gov.as_str(), "powersave", "powersave");
    proof {
        reveal_strlit("powersave");
    }
    assert(gov@ == crate::boot::custom_or(e.custom_powersave_cpu_gov@, "powersave"@));
    let mut g = setgov(gov.as_str(), e.cpu_governors.as_slice(), e.policy_governors.as_slice());
    let ghost gv = steps_view(g@);
    plan.append(&mut g);
    assert(steps_view(plan@) =~= before + gv);
    let io = choose_setting(e.custom_powersave_io.as_str(), "none", "none");
    proof {
        reveal_strlit("none");
    }
    assert(io@ == crate::boot::custom_or(e.custom_powersave_io@, "none"@));
    push_io(plan, io.as_str());
    let m = choose_setting(e.custom_powersave_gpumali_gov.as_str(), "dummy", "dummy");
    proof {
        reveal_strlit("dummy");
    }
    assert(m@ == crate::boot::custom_or(e.custom_powersave_gpumali_gov@, "dummy"@));
    push_mali(plan, e, m.as_str());
    push_calm_freqs(plan, e);
    push_bypass(plan, e, "disableBypass");
    assert(steps_view(plan@) =~= before + eco_head(*e));
}

/// The eco profile: the powersave CPU, I/O and Mali governors (custom ones
/// when set), the CPUs within the frequency offset, bypass charging off
/// when enabled, the performance monitor nodes off but the charger's, the
/// VM, workqueue, schedtune, perf and energy settings for saving power, the
/// battery saver on, and the vendor part.
pub fn eco_mode(e: &ProfileEnv) -> (res: Vec<Step>)
    requires
        balance_fits(policies_view(e.policies@), limiter_of(e.freqoffset@), is_eco(e.current_profile@)),
    ensures
        steps_view(res@) == eco_plan(*e),
{
    let vm: &[(&str, &str)] = &[
        ("/proc/sys/vm/vfs_cache_pressure", "120"),
        ("/sys/module/workqueue/parameters/power_efficient", "Y"),
        ("/sys/module/workqueue/parameters/disable_numa", "Y"),
        ("/sys/kernel/eara_thermal/enable", "1"),
        ("/sys/devices/system/cpu/eas/enable", "1"),
    ];
    let energy: &[(&str, &str)] = &[
        ("/proc/sys/kernel/perf_cpu_time_max_percent", "50"),
        ("/proc/sys/kernel/perf_cpu_time_max_percent", "0"),
        ("/proc/sys/kernel/sched_energy_aware", "0"),
    ];
    let features: &[&str] = &["NO_NEXT_BUDDY", "NO_TTWU_QUEUE"];
    assert(pairs_view(vm@) =~= calm_vm());
    assert(pairs_view(energy@) =~= eco_energy());
    assert(features@.map_values(|f: &str| f@) =~= seq!["NO_NEXT_BUDDY"@, "NO_TTWU_QUEUE"@]);
    let mut plan: Vec<Step> = Vec::new();
    push_eco_head(&mut plan, e);
    push_common(&mut plan, e, false, vm, energy, "1", "1", features);
    push_writes(&mut plan, soc_powersave(&e.soc));
    assert(steps_view(plan@) =~= eco_plan(*e));
    plan
}

/// A setting with two fallbacks: the first of `a`, `b` that is set, else
/// `c`.
pub open spec fn first_set(a: Seq<char>, b: Seq<char>, c: Seq<char>) -> Seq<char> {
    if a.len() > 0 { a } else if b.len() > 0 { b } else { c }
}

/// The performance profile starts with its governors, in order:
/// outside lite mode, `performance` to each CPU's governor file; then, at
/// the end of the CPU governor part, the I/O scheduler to each block
/// device's scheduler file: the custom performance scheduler when set, else
/// the custom default, else the recorded default, else `none`; then, with
/// Mali governor support on, the Mali governor to each Mali governor file:
/// the custom performance Mali governor when set, else the recorded
/// default, else `dummy`.
pub proof fn law_performance_governors(e: ProfileEnv, st: Seq<Seq<char>>, k: int)
    ensures
        prop_int(e.litemode@) == 0 && 0 <= k < e.cpu_governors@.len() ==> performance_plan(e, st)[k]
            == StepView::Write(lw("performance"@, e.cpu_governors@[k]@)),
        0 <= k < 5 ==> performance_plan(e, st)[perf_gov_steps(e).len() + k] == StepView::Write(
            lw(
                first_set(
                    e.custom_performance_io@,
                    first_set(e.custom_default_balanced_io@, e.default_balanced_io@, "none"@),
                    "none"@,
                ),
                io_schedulers()[k],
            ),
        ),
        prop_int(e.maligovsupport@) == 1 && 0 <= k < e.mali_governors@.len() ==> performance_plan(e, st)[perf_gov_steps(
            e,
        ).len() + 5 + k] == StepView::Write(
            lw(
                first_set(e.custom_performance_gpumali_gov@, e.default_gpumali_gov@, "dummy"@),
                e.mali_governors@[k]@,
            ),
        ),
{
    let cpus = strings_view(e.cpu_governors@);
    let io = crate::boot::custom_or(e.custom_performance_io@, balanced_io(e));
    let m = chosen(e.custom_performance_gpumali_gov@, e.default_gpumali_gov@, "dummy"@);
    crate::tune::lemma_setgov("performance"@, cpus, strings_view(e.policy_governors@));
    crate::tune::lemma_each_at(io_schedulers(), io);
    crate::tune::lemma_each_at(strings_view(e.mali_governors@), m);
    let g0 = perf_gov_steps(e);
    let rest = bypass_steps(e, "enableBypass"@) + as_steps(
        game_plan(policies_view(e.policies@), is_lite(e.litemode@), e.ppm, crate::plan::WriteMode::Locked),
    ) + freq_locks(e);
    assert(performance_head(e) =~= g0 + io_steps(io) + mali_steps(e, m) + rest);
    let tail = common_steps(e, true, perf_vm(), perf_energy(), "0"@, "0"@, seq!["NEXT_BUDDY"@, "NO_TTWU_QUEUE"@])
        + runs_of(seq!["am"@, "force-stop"@], st) + (if prop_int(e.litemode@) == 0 {
        as_steps(soc_performance_plan(e.soc, e.litemode@, e.devicemitigation@))
    } else {
        seq![]
    });
    assert(performance_plan(e, st) =~= g0 + io_steps(io) + mali_steps(e, m) + rest + tail);
    if prop_int(e.litemode@) == 0 && 0 <= k < cpus.len() {
        assert(cpus[k] == e.cpu_governors@[k]@);
        assert(g0[k] == StepView::Write(lw("performance"@, cpus[k])));
    }
    if 0 <= k < 5 {
        assert(io_steps(io)[k] == StepView::Write(lw(io, io_schedulers()[k])));
    }
    if prop_int(e.maligovsupport@) == 1 && 0 <= k < e.mali_governors@.len() {
        assert(strings_view(e.mali_governors@)[k] == e.mali_governors@[k]@);
        assert(mali_steps(e, m)[k] == StepView::Write(lw(m, e.mali_governors@[k]@)));
    }
}

/// The balanced profile starts with its governors, in order: the CPU
/// governor to each CPU's governor file (the custom default when set, else
/// the recorded default, else `schedutil`), then each policy's governor
/// file made read-only; then the I/O scheduler to each block device's
/// scheduler file (the custom default, else the recorded default, else
/// `none`); then, with Mali governor support on, the Mali governor to each
/// Mali governor file (the custom default, else the recorded default, else
/// `dummy`).
pub proof fn law_balanced_governors(e: ProfileEnv, k: int)
    ensures
        0 <= k < e.cpu_governors@.len() ==> balanced_plan(e)[k] == StepView::Write(
            lw(first_set(e.custom_default_cpu_gov@, e.default_cpu_gov@, "schedutil"@), e.cpu_governors@[k]@),
        ),
        0 <= k < e.policy_governors@.len() ==> balanced_plan(e)[e.cpu_governors@.len() + k] == StepView::Lock(
            e.policy_governors@[k]@,
        ),
        0 <= k < 5 ==> balanced_plan(e)[e.cpu_governors@.len() + e.policy_governors@.len() + k] == StepView::Write(
            lw(first_set(e.custom_default_balanced_io@, e.default_balanced_io@, "none"@), io_schedulers()[k]),
        ),
        prop_int(e.maligovsupport@) == 1 && 0 <= k < e.mali_governors@.len() ==> balanced_plan(e)[e.cpu_governors@.len()
            + e.policy_governors@.len() + 5 + k] == StepView::Write(
            lw(first_set(e.custom_default_gpumali_gov@, e.default_gpumali_gov@, "dummy"@), e.mali_governors@[k]@),
        ),
{
    let cpus = strings_view(e.cpu_governors@);
    let pols = strings_view(e.policy_governors@);
    let g = chosen(e.custom_default_cpu_gov@, e.default_cpu_gov@, "schedutil"@);
    let io = balanced_io(e);
    let m = chosen(e.custom_default_gpumali_gov@, e.default_gpumali_gov@, "dummy"@);
    crate::tune::lemma_setgov(g, cpus, pols);
    crate::tune::lemma_each_at(io_schedulers(), io);
    crate::tune::lemma_each_at(strings_view(e.mali_governors@), m);
    let g0 = setgov_plan(g, cpus, pols);
    let rest = bypass_steps(e, "disableBypass"@) + calm_freqs(e);
    let tail = common_steps(e, false, calm_vm(), balanced_energy(), "0"@, "1"@, seq!["NEXT_BUDDY"@, "TTWU_QUEUE"@])
        + as_steps(soc_balance_plan(e.soc, e.devicemitigation@));
    assert(balanced_plan(e) =~= g0 + io_steps(io) + mali_steps(e, m) + rest + tail);
    if 0 <= k < cpus.len() {
        assert(cpus[k] == e.cpu_governors@[k]@);
        assert(g0[k] == StepView::Write(lw(g, cpus[k])));
    }
    if 0 <= k < pols.len() {
        assert(pols[k] == e.policy_governors@[k]@);
        assert(g0[cpus.len() + k] == StepView::Lock(pols[k]));
    }
    if 0 <= k < 5 {
        assert(io_steps(io)[k] == StepView::Write(lw(io, io_schedulers()[k])));
    }
    if prop_int(e.maligovsupport@) == 1 && 0 <= k < e.mali_governors@.len() {
        assert(strings_view(e.mali_governors@)[k] == e.mali_governors@[k]@);
        assert(mali_steps(e, m)[k] == StepView::Write(lw(m, e.mali_governors@[k]@)));
    }
}

/// The eco profile starts with its governors, in order: the CPU governor
/// to each CPU's governor file (the custom powersave governor when set,
/// else `powersave`), then each policy's governor file made read-only; then
/// the I/O scheduler to each block device's scheduler file (the custom
/// powersave scheduler, else `none`); then, with Mali governor support on,
/// the Mali governor to each Mali governor file (the custom powersave Mali
/// governor, else `dummy`).
pub proof fn law_eco_governors(e: ProfileEnv, k: int)
    ensures
        0 <= k < e.cpu_governors@.len() ==> eco_plan(e)[k] == StepView::Write(
            lw(first_set(e.custom_powersave_cpu_gov@, "powersave"@, "powersave"@), e.cpu_governors@[k]@),
        ),
        0 <= k < e.policy_governors@.len() ==> eco_plan(e)[e.cpu_governors@.len() + k] == StepView::Lock(
            e.policy_governors@[k]@,
        ),
        0 <= k < 5 ==> eco_plan(e)[e.cpu_governors@.len() + e.policy_governors@.len() + k] == StepView::Write(
            lw(first_set(e.custom_powersave_io@, "none"@, "none"@), io_schedulers()[k]),
        ),
        prop_int(e.maligovsupport@) == 1 && 0 <= k < e.mali_governors@.len() ==> eco_plan(e)[e.cpu_governors@.len()
            + e.policy_governors@.len() + 5 + k] == StepView::Write(
            lw(first_set(e.custom_powersave_gpumali_gov@, "dummy"@, "dummy"@), e.mali_governors@[k]@),
        ),
{
    let cpus = strings_view(e.cpu_governors@);
    let pols = strings_view(e.policy_governors@);
    let g = crate::boot::custom_or(e.custom_powersave_cpu_gov@, "powersave"@);
    let io = crate::boot::custom_or(e.custom_powersave_io@, "none"@);
    let m = crate::boot::custom_or(e.custom_powersave_gpumali_gov@, "dummy"@);
    reveal_strlit("powersave");
    reveal_strlit("none");
    reveal_strlit("dummy");
    crate::tune::lemma_setgov(g, cpus, pols);
    crate::tune::lemma_each_at(io_schedulers(), io);
    crate::tune::lemma_each_at(strings_view(e.mali_governors@), m);
    let g0 = setgov_plan(g, cpus, pols);
    let rest = calm_freqs(e) + bypass_steps(e, "disableBypass"@);
    let tail = common_steps(e, false, calm_vm(), eco_energy(), "1"@, "1"@, seq!["NO_NEXT_BUDDY"@, "NO_TTWU_QUEUE"@])
        + as_steps(soc_powersave_plan(e.soc));
    assert(eco_plan(e) =~= g0 + io_steps(io) + mali_steps(e, m) + rest + tail);
    if 0 <= k < cpus.len() {
        assert(cpus[k] == e.cpu_governors@[k]@);
        assert(g0[k] == StepView::Write(lw(g, cpus[k])));
    }
    if 0 <= k < pols.len() {
        assert(pols[k] == e.policy_governors@[k]@);
        assert(g0[cpus.len() + k] == StepView::Lock(pols[k]));
    }
    if 0 <= k < 5 {
        assert(io_steps(io)[k] == StepView::Write(lw(io, io_schedulers()[k])));
    }
    if prop_int(e.maligovsupport@) == 1 && 0 <= k < e.mali_governors@.len() {
        assert(strings_view(e.mali_governors@)[k] == e.mali_governors@[k]@);
        assert(mali_steps(e, m)[k] == StepView::Write(lw(m, e.mali_governors@[k]@)));
    }
}

/// A call of the utility (`sys.azenith-utilityconf`).
pub open spec fn utility_step(s: StepView) -> bool {
    match s {
        StepView::Run(a) => a.len() > 0 && a[0] == "sys.azenith-utilityconf"@,
        _ => false,
    }
}

/// The utility's bypass charging command `command`.
pub open spec fn bypass_run(command: Seq<char>) -> StepView {
    StepView::Run(seq!["sys.azenith-utilityconf"@, command])
}

/// Every call of the utility in `s` is `x`.
pub open spec fn calls_only(s: Seq<StepView>, x: StepView) -> bool {
    forall|i: int| 0 <= i < s.len() && #[trigger] utility_step(s[i]) ==> s[i] == x
}

/// `s` makes no call of the utility.
pub open spec fn no_utility(s: Seq<StepView>) -> bool {
    forall|i: int| 0 <= i < s.len() ==> !#[trigger] utility_step(s[i])
}

proof fn lemma_no_utility_concat(a: Seq<StepView>, b: Seq<StepView>)
    requires
        no_utility(a),
        no_utility(b),
    ensures
        no_utility(a + b),
{
    assert forall|i: int| 0 <= i < (a + b).len() implies !#[trigger] utility_step((a + b)[i]) by {
        if i < a.len() {
            assert((a + b)[i] == a[i]);
        } else {
            assert((a + b)[i] == b[i - a.len()]);
        }
    }
}

proof fn lemma_writes_no_utility(ws: Seq<WriteView>)
    ensures
        no_utility(as_steps(ws)),
{
    assert forall|i: int| 0 <= i < as_steps(ws).len() implies !#[trigger] utility_step(as_steps(ws)[i]) by {
        assert(as_steps(ws)[i] == StepView::Write(ws[i]));
    }
}

proof fn lemma_locks_no_utility(ps: Seq<Seq<char>>)
    ensures
        no_utility(locks(ps)),
{
    assert forall|i: int| 0 <= i < locks(ps).len() implies !#[trigger] utility_step(locks(ps)[i]) by {
        assert(locks(ps)[i] == StepView::Lock(ps[i]));
    }
}

proof fn lemma_stops_no_utility(st: Seq<Seq<char>>)
    ensures
        no_utility(runs_of(seq!["am"@, "force-stop"@], st)),
{
    reveal_strlit("am");
    reveal_strlit("sys.azenith-utilityconf");
    let r = runs_of(seq!["am"@, "force-stop"@], st);
    assert forall|i: int| 0 <= i < r.len() implies !#[trigger] utility_step(r[i]) by {
        let a = seq!["am"@, "force-stop"@].push(st[i]);
        assert(r[i] == StepView::Run(a));
        assert(a[0] == "am"@);
        assert("am"@.len() != "sys.azenith-utilityconf"@.len());
    }
}

proof fn lemma_common_no_utility(
    e: ProfileEnv,
    performance: bool,
    vm: Seq<(Seq<char>, Seq<char>)>,
    perf: Seq<(Seq<char>, Seq<char>)>,
    saver: Seq<char>,
    split_lock: Seq<char>,
    features: Seq<Seq<char>>,
)
    ensures
        no_utility(common_steps(e, performance, vm, perf, saver, split_lock, features)),
{
    let a = as_steps(perf_nodes_plan(strings_view(e.perf_nodes@), performance));
    let b = as_steps(fixed_writes(vm));
    let c = as_steps(stune_plan(strings_view(e.stune_groups@), performance));
    let d = as_steps(fixed_writes(perf));
    let f = as_steps(core_ctl_plan(strings_view(e.cpus@), "0"@));
    let g = as_steps(battery_saver_plan(saver, ostr(e.battery_saver)));
    let h = as_steps(seq![lw(split_lock, "/proc/sys/kernel/split_lock_mitigate"@)]);
    let k = as_steps(if e.sched_features { features_plan(features) } else { seq![] });
    lemma_writes_no_utility(perf_nodes_plan(strings_view(e.perf_nodes@), performance));
    lemma_writes_no_utility(fixed_writes(vm));
    lemma_writes_no_utility(stune_plan(strings_view(e.stune_groups@), performance));
    lemma_writes_no_utility(fixed_writes(perf));
    lemma_writes_no_utility(core_ctl_plan(strings_view(e.cpus@), "0"@));
    lemma_writes_no_utility(battery_saver_plan(saver, ostr(e.battery_saver)));
    lemma_writes_no_utility(seq![lw(split_lock, "/proc/sys/kernel/split_lock_mitigate"@)]);
    lemma_writes_no_utility(if e.sched_features { features_plan(features) } else { seq![] });
    lemma_no_utility_concat(a, b);
    lemma_no_utility_concat(a + b, c);
    lemma_no_utility_concat(a + b + c, d);
    lemma_no_utility_concat(a + b + c + d, f);
    lemma_no_utility_concat(a + b + c + d + f, g);
    lemma_no_utility_concat(a + b + c + d + f + g, h);
    lemma_no_utility_concat(a + b + c + d + f + g + h, k);
}

/// `pre + bypass_steps(e, command) + post`, with neither `pre` nor `post`
/// calling the utility: every utility call is the bypass command, which is
/// there, at the end of `pre`, exactly when the bypass property holds `1`.
proof fn lemma_bypass_between(e: ProfileEnv, command: Seq<char>, pre: Seq<StepView>, post: Seq<StepView>)
    requires
        no_utility(pre),
        no_utility(post),
    ensures
        calls_only(pre + bypass_steps(e, command) + post, bypass_run(command)),
        e.bypasschg@ == "1"@ ==> (pre + bypass_steps(e, command) + post)[pre.len() as int] == bypass_run(command),
        e.bypasschg@ != "1"@ ==> no_utility(pre + bypass_steps(e, command) + post),
{
    let s = pre + bypass_steps(e, command) + post;
    let b = bypass_steps(e, command);
    assert forall|i: int| 0 <= i < s.len() && #[trigger] utility_step(s[i]) implies s[i] == bypass_run(command) by {
        if i < pre.len() {
            assert(s[i] == pre[i]);
        } else if i < pre.len() + b.len() {
            assert(s[i] == b[i - pre.len()]);
        } else {
            assert(s[i] == post[i - pre.len() - b.len()]);
        }
    }
    if e.bypasschg@ == "1"@ {
        assert(s[pre.len() as int] == b[0]);
    } else {
        assert(b =~= Seq::<StepView>::empty());
        assert(s =~= pre + post);
        lemma_no_utility_concat(pre, post);
    }
}

proof fn lemma_perf_bypass(e: ProfileEnv, st: Seq<Seq<char>>)
    ensures
        calls_only(performance_plan(e, st), bypass_run("enableBypass"@)),
        e.bypasschg@ == "1"@ ==> performance_plan(e, st).contains(bypass_run("enableBypass"@)),
        e.bypasschg@ != "1"@ ==> no_utility(performance_plan(e, st)),
{
    let pm = chosen(e.custom_performance_gpumali_gov@, e.default_gpumali_gov@, "dummy"@);
    let pio = crate::boot::custom_or(e.custom_performance_io@, balanced_io(e));
    let ppre = perf_gov_steps(e) + io_steps(pio) + mali_steps(e, pm);
    let ppost = as_steps(
        game_plan(policies_view(e.policies@), is_lite(e.litemode@), e.ppm, crate::plan::WriteMode::Locked),
    ) + freq_locks(e) + common_steps(e, true, perf_vm(), perf_energy(), "0"@, "0"@, seq!["NEXT_BUDDY"@, "NO_TTWU_QUEUE"@])
        + runs_of(seq!["am"@, "force-stop"@], st) + (if prop_int(e.litemode@) == 0 {
        as_steps(soc_performance_plan(e.soc, e.litemode@, e.devicemitigation@))
    } else {
        seq![]
    });
    if prop_int(e.litemode@) == 0 {
        lemma_writes_no_utility(each_at(strings_view(e.cpu_governors@), "performance"@));
        lemma_locks_no_utility(strings_view(e.policy_governors@));
        lemma_no_utility_concat(
            as_steps(each_at(strings_view(e.cpu_governors@), "performance"@)),
            locks(strings_view(e.policy_governors@)),
        );
    } else {
        let b = biggest_of(e.clusters@).1;
        lemma_writes_no_utility(seq![lw("performance"@, "/sys/devices/system/cpu/cpufreq/"@ + b + "/scaling_governor"@)]);
        assert(no_utility(Seq::<StepView>::empty()));
        assert(seq![StepView::Write(lw("performance"@, "/sys/devices/system/cpu/cpufreq/"@ + b + "/scaling_governor"@))]
            =~= as_steps(seq![lw("performance"@, "/sys/devices/system/cpu/cpufreq/"@ + b + "/scaling_governor"@)]));
    }
    lemma_writes_no_utility(each_at(io_schedulers(), pio));
    lemma_writes_no_utility(each_at(strings_view(e.mali_governors@), pm));
    assert(no_utility(Seq::<StepView>::empty()));
    lemma_no_utility_concat(perf_gov_steps(e), io_steps(pio));
    lemma_no_utility_concat(perf_gov_steps(e) + io_steps(pio), mali_steps(e, pm));
    lemma_writes_no_utility(
        game_plan(policies_view(e.policies@), is_lite(e.litemode@), e.ppm, crate::plan::WriteMode::Locked),
    );
    lemma_locks_no_utility(strings_view(e.scaling_files@));
    lemma_common_no_utility(e, true, perf_vm(), perf_energy(), "0"@, "0"@, seq!["NEXT_BUDDY"@, "NO_TTWU_QUEUE"@]);
    lemma_stops_no_utility(st);
    lemma_writes_no_utility(soc_performance_plan(e.soc, e.litemode@, e.devicemitigation@));
    let g = as_steps(
        game_plan(policies_view(e.policies@), is_lite(e.litemode@), e.ppm, crate::plan::WriteMode::Locked),
    );
    let cm = common_steps(e, true, perf_vm(), perf_energy(), "0"@, "0"@, seq!["NEXT_BUDDY"@, "NO_TTWU_QUEUE"@]);
    let rs = runs_of(seq!["am"@, "force-stop"@], st);
    let so = if prop_int(e.litemode@) == 0 {
        as_steps(soc_performance_plan(e.soc, e.litemode@, e.devicemitigation@))
    } else {
        seq![]
    };
    lemma_no_utility_concat(g, freq_locks(e));
    lemma_no_utility_concat(g + freq_locks(e), cm);
    lemma_no_utility_concat(g + freq_locks(e) + cm, rs);
    lemma_no_utility_concat(g + freq_locks(e) + cm + rs, so);
    lemma_bypass_between(e, "enableBypass"@, ppre, ppost);
    assert(performance_plan(e, st) =~= ppre + bypass_steps(e, "enableBypass"@) + ppost);
    if e.bypasschg@ == "1"@ {
        assert(performance_plan(e, st)[ppre.len() as int] == bypass_run("enableBypass"@));
    }
}

proof fn lemma_balanced_bypass(e: ProfileEnv)
    ensures
        calls_only(balanced_plan(e), bypass_run("disableBypass"@)),
        e.bypasschg@ == "1"@ ==> balanced_plan(e).contains(bypass_run("disableBypass"@)),
        e.bypasschg@ != "1"@ ==> no_utility(balanced_plan(e)),
{
    let bg = chosen(e.custom_default_cpu_gov@, e.default_cpu_gov@, "schedutil"@);
    let bm = chosen(e.custom_default_gpumali_gov@, e.default_gpumali_gov@, "dummy"@);
    let cpus = strings_view(e.cpu_governors@);
    let pols = strings_view(e.policy_governors@);
    lemma_writes_no_utility(each_at(cpus, bg));
    lemma_locks_no_utility(pols);
    lemma_no_utility_concat(as_steps(each_at(cpus, bg)), locks(pols));
    lemma_writes_no_utility(each_at(io_schedulers(), balanced_io(e)));
    lemma_writes_no_utility(each_at(strings_view(e.mali_governors@), bm));
    lemma_no_utility_concat(setgov_plan(bg, cpus, pols), io_steps(balanced_io(e)));
    lemma_no_utility_concat(setgov_plan(bg, cpus, pols) + io_steps(balanced_io(e)), mali_steps(e, bm));
    let bpre = setgov_plan(bg, cpus, pols) + io_steps(balanced_io(e)) + mali_steps(e, bm);
    let bal = balance_plan(
        policies_view(e.policies@),
        limiter_of(e.freqoffset@),
        is_eco(e.current_profile@),
        e.ppm,
        crate::plan::WriteMode::Locked,
    );
    lemma_writes_no_utility(bal);
    lemma_no_utility_concat(as_steps(bal), freq_locks(e));
    lemma_common_no_utility(e, false, calm_vm(), balanced_energy(), "0"@, "1"@, seq!["NEXT_BUDDY"@, "TTWU_QUEUE"@]);
    lemma_writes_no_utility(soc_balance_plan(e.soc, e.devicemitigation@));
    let bcm = common_steps(e, false, calm_vm(), balanced_energy(), "0"@, "1"@, seq!["NEXT_BUDDY"@, "TTWU_QUEUE"@]);
    let bso = as_steps(soc_balance_plan(e.soc, e.devicemitigation@));
    lemma_no_utility_concat(calm_freqs(e), bcm);
    lemma_no_utility_concat(calm_freqs(e) + bcm, bso);
    lemma_bypass_between(e, "disableBypass"@, bpre, calm_freqs(e) + bcm + bso);
    assert(balanced_plan(e) =~= bpre + bypass_steps(e, "disableBypass"@) + (calm_freqs(e) + bcm + bso));
    if e.bypasschg@ == "1"@ {
        assert(balanced_plan(e)[bpre.len() as int] == bypass_run("disableBypass"@));
    }
}

proof fn lemma_eco_bypass(e: ProfileEnv)
    ensures
        calls_only(eco_plan(e), bypass_run("disableBypass"@)),
        e.bypasschg@ == "1"@ ==> eco_plan(e).contains(bypass_run("disableBypass"@)),
        e.bypasschg@ != "1"@ ==> no_utility(eco_plan(e)),
{
    let cpus = strings_view(e.cpu_governors@);
    let pols = strings_view(e.policy_governors@);
    let eg = crate::boot::custom_or(e.custom_powersave_cpu_gov@, "powersave"@);
    let eio = crate::boot::custom_or(e.custom_powersave_io@, "none"@);
    let em = crate::boot::custom_or(e.custom_powersave_gpumali_gov@, "dummy"@);
    lemma_writes_no_utility(each_at(cpus, eg));
    lemma_no_utility_concat(as_steps(each_at(cpus, eg)), locks(pols));
    lemma_writes_no_utility(each_at(io_schedulers(), eio));
    lemma_writes_no_utility(each_at(strings_view(e.mali_governors@), em));
    lemma_no_utility_concat(setgov_plan(eg, cpus, pols), io_steps(eio));
    lemma_no_utility_concat(setgov_plan(eg, cpus, pols) + io_steps(eio), mali_steps(e, em));
    lemma_no_utility_concat(setgov_plan(eg, cpus, pols) + io_steps(eio) + mali_steps(e, em), calm_freqs(e));
    let epre = setgov_plan(eg, cpus, pols) + io_steps(eio) + mali_steps(e, em) + calm_freqs(e);
    lemma_common_no_utility(e, false, calm_vm(), eco_energy(), "1"@, "1"@, seq!["NO_NEXT_BUDDY"@, "NO_TTWU_QUEUE"@]);
    lemma_writes_no_utility(soc_powersave_plan(e.soc));
    let ecm = common_steps(e, false, calm_vm(), eco_energy(), "1"@, "1"@, seq!["NO_NEXT_BUDDY"@, "NO_TTWU_QUEUE"@]);
    let eso = as_steps(soc_powersave_plan(e.soc));
    lemma_no_utility_concat(ecm, eso);
    lemma_bypass_between(e, "disableBypass"@, epre, ecm + eso);
    assert(eco_plan(e) =~= epre + bypass_steps(e, "disableBypass"@) + (ecm + eso));
    if e.bypasschg@ == "1"@ {
        assert(eco_plan(e)[epre.len() as int] == bypass_run("disableBypass"@));
    }
}

/// With bypass charging enabled (its property holds `1`), the performance
/// profile asks the utility to turn bypass charging on, and the balanced
/// and eco profiles ask it to turn it off; that command is the only call
/// of the utility a profile makes. With bypass charging not enabled, no
/// profile calls the utility.
pub proof fn law_profile_bypass(e: ProfileEnv, st: Seq<Seq<char>>)
    ensures
        calls_only(performance_plan(e, st), bypass_run("enableBypass"@)),
        calls_only(balanced_plan(e), bypass_run("disableBypass"@)),
        calls_only(eco_plan(e), bypass_run("disableBypass"@)),
        e.bypasschg@ == "1"@ ==> performance_plan(e, st).contains(bypass_run("enableBypass"@)),
        e.bypasschg@ == "1"@ ==> balanced_plan(e).contains(bypass_run("disableBypass"@)),
        e.bypasschg@ == "1"@ ==> eco_plan(e).contains(bypass_run("disableBypass"@)),
        e.bypasschg@ != "1"@ ==> no_utility(performance_plan(e, st)) && no_utility(balanced_plan(e)) && no_utility(
            eco_plan(e),
        ),
{
    lemma_perf_bypass(e, st);
    lemma_balanced_bypass(e);
    lemma_eco_bypass(e);
}

proof fn lemma_contains_mid(a: Seq<StepView>, m: Seq<StepView>, b: Seq<StepView>, x: StepView)
    requires
        m.contains(x),
    ensures
        (a + m + b).contains(x),
{
    let i = choose|i: int| 0 <= i < m.len() && m[i] == x;
    assert((a + m + b)[a.len() + i] == x);
}

proof fn lemma_common_saver(
    e: ProfileEnv,
    performance: bool,
    vm: Seq<(Seq<char>, Seq<char>)>,
    perf: Seq<(Seq<char>, Seq<char>)>,
    saver: Seq<char>,
    split_lock: Seq<char>,
    features: Seq<Seq<char>>,
)
    requires
        e.battery_saver is Some,
    ensures
        common_steps(e, performance, vm, perf, saver, split_lock, features).contains(
            StepView::Write(
                lw(saver_value(saver, e.battery_saver->0@), "/sys/module/battery_saver/parameters/enabled"@),
            ),
        ),
{
    let a = as_steps(perf_nodes_plan(strings_view(e.perf_nodes@), performance)) + as_steps(fixed_writes(vm))
        + as_steps(stune_plan(strings_view(e.stune_groups@), performance)) + as_steps(fixed_writes(perf)) + as_steps(
        core_ctl_plan(strings_view(e.cpus@), "0"@),
    );
    let g = as_steps(battery_saver_plan(saver, ostr(e.battery_saver)));
    let b = as_steps(seq![lw(split_lock, "/proc/sys/kernel/split_lock_mitigate"@)]) + as_steps(
        if e.sched_features { features_plan(features) } else { seq![] },
    );
    let x = StepView::Write(
        lw(saver_value(saver, e.battery_saver->0@), "/sys/module/battery_saver/parameters/enabled"@),
    );
    assert(g[0] == x);
    lemma_contains_mid(a, g, b, x);
    assert(common_steps(e, performance, vm, perf, saver, split_lock, features) =~= a + g + b);
}

/// Where the battery saver parameter exists and could be read, the eco
/// profile turns the battery saver on (`1` when the parameter's text holds
/// a digit, `Y` otherwise), and the performance and balanced profiles turn
/// it off (`0`, or `N`).
pub proof fn law_profile_battery_saver(e: ProfileEnv, st: Seq<Seq<char>>)
    requires
        e.battery_saver is Some,
    ensures
        ({
            let c = e.battery_saver->0@;
            let digits = exists|i: int| 0 <= i < c.len() && '0' <= #[trigger] c[i] && c[i] <= '9';
            let path = "/sys/module/battery_saver/parameters/enabled"@;
            &&& eco_plan(e).contains(StepView::Write(lw(if digits { "1"@ } else { "Y"@ }, path)))
            &&& balanced_plan(e).contains(StepView::Write(lw(if digits { "0"@ } else { "N"@ }, path)))
            &&& performance_plan(e, st).contains(StepView::Write(lw(if digits { "0"@ } else { "N"@ }, path)))
        }),
{
    reveal_strlit("0");
    reveal_strlit("1");
    reveal_strlit("Y");
    let c = e.battery_saver->0@;
    assert(saver_on("1"@));
    assert("0"@[0] != "Y"@[0] && "0"@[0] != "1"@[0]);
    assert(!saver_on("0"@));
    let ef = seq!["NO_NEXT_BUDDY"@, "NO_TTWU_QUEUE"@];
    lemma_common_saver(e, false, calm_vm(), eco_energy(), "1"@, "1"@, ef);
    lemma_contains_mid(
        eco_head(e),
        common_steps(e, false, calm_vm(), eco_energy(), "1"@, "1"@, ef),
        as_steps(soc_powersave_plan(e.soc)),
        StepView::Write(lw(saver_value("1"@, c), "/sys/module/battery_saver/parameters/enabled"@)),
    );
    let bf = seq!["NEXT_BUDDY"@, "TTWU_QUEUE"@];
    lemma_common_saver(e, false, calm_vm(), balanced_energy(), "0"@, "1"@, bf);
    lemma_contains_mid(
        balanced_head(e),
        common_steps(e, false, calm_vm(), balanced_energy(), "0"@, "1"@, bf),
        as_steps(soc_balance_plan(e.soc, e.devicemitigation@)),
        StepView::Write(lw(saver_value("0"@, c), "/sys/module/battery_saver/parameters/enabled"@)),
    );
    let pf = seq!["NEXT_BUDDY"@, "NO_TTWU_QUEUE"@];
    lemma_common_saver(e, true, perf_vm(), perf_energy(), "0"@, "0"@, pf);
    let ptail = runs_of(seq!["am"@, "force-stop"@], st) + (if prop_int(e.litemode@) == 0 {
        as_steps(soc_performance_plan(e.soc, e.litemode@, e.devicemitigation@))
    } else {
        seq![]
    });
    lemma_contains_mid(
        performance_head(e),
        common_steps(e, true, perf_vm(), perf_energy(), "0"@, "0"@, pf),
        ptail,
        StepView::Write(lw(saver_value("0"@, c), "/sys/module/battery_saver/parameters/enabled"@)),
    );
    assert(performance_plan(e, st) =~= performance_head(e) + common_steps(
        e,
        true,
        perf_vm(),
        perf_energy(),
        "0"@,
        "0"@,
        pf,
    ) + ptail);
}


/// In lite mode the performance profile starts by writing `performance` to
/// the governor file of the biggest cluster alone (see
/// `law_biggest_named`), and to no CPU's governor file when no cluster
/// reports a maximum frequency.
pub proof fn law_performance_lite_governor(e: ProfileEnv, st: Seq<Seq<char>>)
    requires
        prop_int(e.litemode@) != 0,
    ensures
        biggest_of(e.clusters@).1.len() > 0 ==> perf_gov_steps(e).len() == 1 && performance_plan(e, st)[0]
            == StepView::Write(
            lw(
                "performance"@,
                "/sys/devices/system/cpu/cpufreq/"@ + biggest_of(e.clusters@).1 + "/scaling_governor"@,
            ),
        ),
        biggest_of(e.clusters@).1.len() == 0 ==> perf_gov_steps(e).len() == 0,
{
    let rest = io_steps(crate::boot::custom_or(e.custom_performance_io@, balanced_io(e))) + mali_steps(
        e,
        chosen(e.custom_performance_gpumali_gov@, e.default_gpumali_gov@, "dummy"@),
    ) + bypass_steps(e, "enableBypass"@) + as_steps(
        game_plan(policies_view(e.policies@), is_lite(e.litemode@), e.ppm, crate::plan::WriteMode::Locked),
    ) + freq_locks(e) + common_steps(e, true, perf_vm(), perf_energy(), "0"@, "0"@, seq!["NEXT_BUDDY"@, "NO_TTWU_QUEUE"@])
        + runs_of(seq!["am"@, "force-stop"@], st) + (if prop_int(e.litemode@) == 0 {
        as_steps(soc_performance_plan(e.soc, e.litemode@, e.devicemitigation@))
    } else {
        seq![]
    });
    assert(performance_plan(e, st) =~= perf_gov_steps(e) + rest);
    if biggest_of(e.clusters@).1.len() > 0 {
        assert(performance_plan(e, st)[0] == perf_gov_steps(e)[0]);
    }
}


} // verus!
