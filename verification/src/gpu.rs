//! The vendor-specific part of each profile on Samsung Exynos, Unisoc and
//! Google Tensor devices: the GPU bounds, the Mali power policy and the
//! memory interface devfreq devices.
use vstd::prelude::*;
use crate::devfreq::{devfreq_apply, devfreq_plan, pick_freq, pick_text, DevfreqLevel, Pick};
use crate::freq::{freq_table, opt_view};
use crate::num::fmt_int;
use crate::plan::{lw, push_locked, writes_view, SysWrite, WriteView};
use crate::probe::{prop_int, prop_int_exec};
use crate::soc::{mali_policy, ostr};
use crate::text::concat_str;

verus! {

/// A devfreq device and the text of its `available_frequencies` when that
/// file exists (empty when it cannot be read).
pub struct DevfreqNode {
    pub path: String,
    pub avail: Option<String>,
}

/// The content of a `DevfreqNode`.
pub struct NodeView {
    pub path: Seq<char>,
    pub avail: Option<Seq<char>>,
}

impl View for DevfreqNode {
    type V = NodeView;

    open spec fn view(&self) -> NodeView {
        NodeView { path: self.path@, avail: ostr(self.avail) }
    }
}

/// The contents of a list of devfreq devices.
pub open spec fn nodes_view(ns: Seq<DevfreqNode>) -> Seq<NodeView> {
    ns.map_values(|n: DevfreqNode| n@)
}

/// A GPU directory and the text of its frequency table (empty when it
/// cannot be read).
pub struct GpuTable {
    pub path: String,
    pub table: String,
}

/// The writes of one devfreq setting on each of the devices, in order.
pub open spec fn nodes_plan(ns: Seq<NodeView>, level: DevfreqLevel) -> Seq<WriteView>
    decreases ns.len(),
{
    if ns.len() == 0 {
        seq![]
    } else {
        nodes_plan(ns.drop_last(), level) + devfreq_plan(ns.last().path, ns.last().avail, level)
    }
}

fn push_node(plan: &mut Vec<SysWrite>, n: &DevfreqNode, level: DevfreqLevel)
    ensures
        writes_view(final(plan)@) == writes_view(old(plan)@) + devfreq_plan(n@.path, n@.avail, level),
{
    let ghost before = plan@;
    let avail: Option<&str> = match &n.avail {
        Some(a) => Some(a.as_str()),
        None => None,
    };
    assert(opt_view(avail) == n@.avail);
    let mut more = devfreq_apply(n.path.as_str(), avail, level);
    let ghost m = more@;
    plan.append(&mut more);
    assert(writes_view(plan@) =~= writes_view(before) + writes_view(m));
}

fn push_nodes(plan: &mut Vec<SysWrite>, ns: &[DevfreqNode], level: DevfreqLevel)
    ensures
        writes_view(final(plan)@) == writes_view(old(plan)@) + nodes_plan(nodes_view(ns@), level),
{
    let ghost before = writes_view(plan@);
    let ghost nv = nodes_view(ns@);
    let mut k: usize = 0;
    while k < ns.len()
        invariant
            k <= ns.len(),
            nv == nodes_view(ns@),
            writes_view(plan@) == before + nodes_plan(nv.take(k as int), level),
        decreases ns.len() - k,
    {
        push_node(plan, &ns[k], level);
        assert(nv.take(k + 1).drop_last() == nv.take(k as int));
        assert(nv[k as int] == ns@[k as int]@);
        k = k + 1;
    }
    assert(nv.take(ns.len() as int) == nv);
}

/// The memory interface part of a profile: the setting on each device,
/// unless the device mitigation property holds a number other than 0.
pub open spec fn mif_plan(mif: Seq<DevfreqNode>, devicemitigation: Seq<char>, level: DevfreqLevel) -> Seq<WriteView> {
    if prop_int(devicemitigation) == 0 { nodes_plan(nodes_view(mif), level) } else { seq![] }
}

fn push_mif(plan: &mut Vec<SysWrite>, mif: &Vec<DevfreqNode>, devicemitigation: &str, level: DevfreqLevel)
    ensures
        writes_view(final(plan)@) == writes_view(old(plan)@) + mif_plan(mif@, devicemitigation@, level),
{
    let ghost before = writes_view(plan@);
    if prop_int_exec(devicemitigation) == 0 {
        push_nodes(plan, mif.as_slice(), level);
    }
    assert(writes_view(plan@) =~= before + mif_plan(mif@, devicemitigation@, level));
}

/// Two locked writes of picks from one frequency table into one directory:
/// first the `p1` pick to `dir` + `f1`, then the `p2` pick to `dir` + `f2`.
pub open spec fn table_pair(dir: Seq<char>, table: Seq<char>, f1: Seq<char>, p1: Pick, f2: Seq<char>, p2: Pick) -> Seq<
    WriteView,
> {
    seq![lw(pick_text(table, p1), dir + f1), lw(pick_text(table, p2), dir + f2)]
}

fn push_table_pair(plan: &mut Vec<SysWrite>, dir: &str, table: &str, f1: &str, p1: Pick, f2: &str, p2: Pick)
    ensures
        writes_view(final(plan)@) == writes_view(old(plan)@) + table_pair(dir@, table@, f1@, p1, f2@, p2),
{
    let ghost before = writes_view(plan@);
    let a = pick_freq(table, p1);
    let b = pick_freq(table, p2);
    let pa = concat_str(dir, f1);
    let pb = concat_str(dir, f2);
    push_locked(plan, a.as_str(), pa.as_str());
    push_locked(plan, b.as_str(), pb.as_str());
    assert(writes_view(plan@) =~= before + table_pair(dir@, table@, f1@, p1, f2@, p2));
}

/// Whether the lite mode property holds the number 1.
pub open spec fn lite_on(litemode: Seq<char>) -> bool {
    prop_int(litemode) == 1
}

/// What the tuning reads of an Exynos device.
pub struct ExynosDevice {
    /// The text of `/sys/kernel/gpu/gpu_available_frequencies` when
    /// `/sys/kernel/gpu` exists (empty when it cannot be read).
    pub gpu_avail: Option<String>,
    /// The first Mali device under `/sys/devices/platform`.
    pub mali: Option<String>,
    /// The memory interface devfreq devices (`*devfreq_mif*`).
    pub mif: Vec<DevfreqNode>,
}

/// The GPU clock bounds of an Exynos device, `p1` to `f1` then `p2` to `f2`.
pub open spec fn exynos_gpu(d: ExynosDevice, f1: Seq<char>, p1: Pick, f2: Seq<char>, p2: Pick) -> Seq<WriteView> {
    match ostr(d.gpu_avail) {
        Some(t) => table_pair("/sys/kernel/gpu"@, t, f1, p1, f2, p2),
        None => seq![],
    }
}

fn push_exynos_gpu(plan: &mut Vec<SysWrite>, d: &ExynosDevice, f1: &str, p1: Pick, f2: &str, p2: Pick)
    ensures
        writes_view(final(plan)@) == writes_view(old(plan)@) + exynos_gpu(*d, f1@, p1, f2@, p2),
{
    let ghost before = writes_view(plan@);
    if let Some(t) = &d.gpu_avail {
        push_table_pair(plan, "/sys/kernel/gpu", t.as_str(), f1, p1, f2, p2);
    }
    assert(writes_view(plan@) =~= before + exynos_gpu(*d, f1@, p1, f2@, p2));
}

/// The balanced profile of an Exynos device.
pub open spec fn exynos_balance_plan(d: ExynosDevice, devicemitigation: Seq<char>) -> Seq<WriteView> {
    exynos_gpu(d, "/gpu_max_clock"@, Pick::Max, "/gpu_min_clock"@, Pick::Min) + mali_policy(
        ostr(d.mali),
        "coarse_demand"@,
    ) + mif_plan(d.mif@, devicemitigation, DevfreqLevel::Unlock)
}

/// The balanced profile of an Exynos device: the GPU open to its whole
/// range, the Mali demand policy, and, unless device mitigation is on, the
/// memory interface unlocked.
pub fn exynos_balance(d: &ExynosDevice, devicemitigation: &str) -> (res: Vec<SysWrite>)
    ensures
        writes_view(res@) == exynos_balance_plan(*d, devicemitigation@),
{
    let mut plan: Vec<SysWrite> = Vec::new();
    push_exynos_gpu(&mut plan, d, "/gpu_max_clock", Pick::Max, "/gpu_min_clock", Pick::Min);
    crate::soc::push_mali_policy(&mut plan, &d.mali, "coarse_demand");
    push_mif(&mut plan, &d.mif, devicemitigation, DevfreqLevel::Unlock);
    assert(writes_view(plan@) =~= exynos_balance_plan(*d, devicemitigation@));
    plan
}

/// The pick for the lower bound in the performance profile: the middle
/// frequency in lite mode, else the highest.
pub open spec fn perf_floor(litemode: Seq<char>) -> Pick {
    if lite_on(litemode) { Pick::Mid } else { Pick::Max }
}

/// The devfreq setting of the memory interface in the performance profile.
pub open spec fn perf_level(litemode: Seq<char>) -> DevfreqLevel {
    if lite_on(litemode) { DevfreqLevel::Mid } else { DevfreqLevel::Max }
}

fn perf_choice(litemode: &str) -> (r: (Pick, DevfreqLevel))
    ensures
        r.0 == perf_floor(litemode@),
        r.1 == perf_level(litemode@),
{
    if prop_int_exec(litemode) == 1 {
        (Pick::Mid, DevfreqLevel::Mid)
    } else {
        (Pick::Max, DevfreqLevel::Max)
    }
}

/// The performance profile of an Exynos device.
pub open spec fn exynos_performance_plan(d: ExynosDevice, litemode: Seq<char>, devicemitigation: Seq<char>) -> Seq<
    WriteView,
> {
    exynos_gpu(d, "/gpu_max_clock"@, Pick::Max, "/gpu_min_clock"@, perf_floor(litemode)) + mali_policy(
        ostr(d.mali),
        "always_on"@,
    ) + mif_plan(d.mif@, devicemitigation, perf_level(litemode))
}

/// The performance profile of an Exynos device: the GPU at its highest
/// frequency (its lower bound at the middle one in lite mode), the Mali
/// policy always on, and, unless device mitigation is on, the memory
/// interface at its highest frequency (its middle one in lite mode).
pub fn exynos_performance(d: &ExynosDevice, litemode: &str, devicemitigation: &str) -> (res: Vec<SysWrite>)
    ensures
        writes_view(res@) == exynos_performance_plan(*d, litemode@, devicemitigation@),
{
    let (floor, level) = perf_choice(litemode);
    let mut plan: Vec<SysWrite> = Vec::new();
    push_exynos_gpu(&mut plan, d, "/gpu_max_clock", Pick::Max, "/gpu_min_clock", floor);
    crate::soc::push_mali_policy(&mut plan, &d.mali, "always_on");
    push_mif(&mut plan, &d.mif, devicemitigation, level);
    assert(writes_view(plan@) =~= exynos_performance_plan(*d, litemode@, devicemitigation@));
    plan
}

/// The powersave profile of an Exynos device: the GPU pinned at its lowest
/// frequency, `gpu_min_clock` first.
pub fn exynos_powersave(d: &ExynosDevice) -> (res: Vec<SysWrite>)
    ensures
        writes_view(res@) == exynos_gpu(*d, "/gpu_min_clock"@, Pick::Min, "/gpu_max_clock"@, Pick::Min),
{
    let mut plan: Vec<SysWrite> = Vec::new();
    push_exynos_gpu(&mut plan, d, "/gpu_min_clock", Pick::Min, "/gpu_max_clock", Pick::Min);
    assert(writes_view(plan@) =~= exynos_gpu(*d, "/gpu_min_clock"@, Pick::Min, "/gpu_max_clock"@, Pick::Min));
    plan
}

/// A devfreq setting on the first Unisoc GPU (`*.gpu`), if there is one.
pub open spec fn unisoc_plan(gpu: Option<DevfreqNode>, level: DevfreqLevel) -> Seq<WriteView> {
    match gpu {
        Some(n) => devfreq_plan(n@.path, n@.avail, level),
        None => seq![],
    }
}

fn unisoc_writes(gpu: &Option<DevfreqNode>, level: DevfreqLevel) -> (res: Vec<SysWrite>)
    ensures
        writes_view(res@) == unisoc_plan(*gpu, level),
{
    let mut plan: Vec<SysWrite> = Vec::new();
    if let Some(n) = gpu {
        push_node(&mut plan, n, level);
    }
    assert(writes_view(plan@) =~= unisoc_plan(*gpu, level));
    plan
}

/// The balanced profile of a Unisoc device: its GPU unlocked.
pub fn unisoc_balance(gpu: &Option<DevfreqNode>) -> (res: Vec<SysWrite>)
    ensures
        writes_view(res@) == unisoc_plan(*gpu, DevfreqLevel::Unlock),
{
    unisoc_writes(gpu, DevfreqLevel::Unlock)
}

/// The performance profile of a Unisoc device.
pub open spec fn unisoc_performance_plan(gpu: Option<DevfreqNode>, litemode: Seq<char>) -> Seq<WriteView> {
    unisoc_plan(gpu, if prop_int(litemode) == 0 { DevfreqLevel::Max } else { DevfreqLevel::Mid })
}

/// The performance profile of a Unisoc device: its GPU at its highest
/// frequency when the lite mode property holds 0 (or no number), else
/// between its middle and highest frequencies.
pub fn unisoc_performance(gpu: &Option<DevfreqNode>, litemode: &str) -> (res: Vec<SysWrite>)
    ensures
        writes_view(res@) == unisoc_performance_plan(*gpu, litemode@),
{
    if prop_int_exec(litemode) == 0 {
        unisoc_writes(gpu, DevfreqLevel::Max)
    } else {
        unisoc_writes(gpu, DevfreqLevel::Mid)
    }
}

/// The powersave profile of a Unisoc device: its GPU at its lowest
/// frequency.
pub fn unisoc_powersave(gpu: &Option<DevfreqNode>) -> (res: Vec<SysWrite>)
    ensures
        writes_view(res@) == unisoc_plan(*gpu, DevfreqLevel::Min),
{
    unisoc_writes(gpu, DevfreqLevel::Min)
}

/// What the tuning reads of a Tensor device.
pub struct TensorDevice {
    /// The first Mali GPU under `/sys/devices/platform` and the text of its
    /// `available_frequencies`.
    pub mali: Option<GpuTable>,
    /// The memory interface devfreq devices (`*devfreq_mif*`).
    pub mif: Vec<DevfreqNode>,
}

/// The scaling bounds of a Tensor GPU, `p1` to `f1` then `p2` to `f2`.
pub open spec fn tensor_gpu(d: TensorDevice, f1: Seq<char>, p1: Pick, f2: Seq<char>, p2: Pick) -> Seq<WriteView> {
    match d.mali {
        Some(g) => table_pair(g.path@, g.table@, f1, p1, f2, p2),
        None => seq![],
    }
}

fn push_tensor_gpu(plan: &mut Vec<SysWrite>, d: &TensorDevice, f1: &str, p1: Pick, f2: &str, p2: Pick)
    ensures
        writes_view(final(plan)@) == writes_view(old(plan)@) + tensor_gpu(*d, f1@, p1, f2@, p2),
{
    let ghost before = writes_view(plan@);
    if let Some(g) = &d.mali {
        push_table_pair(plan, g.path.as_str(), g.table.as_str(), f1, p1, f2, p2);
    }
    assert(writes_view(plan@) =~= before + tensor_gpu(*d, f1@, p1, f2@, p2));
}

/// The balanced profile of a Tensor device.
pub open spec fn tensor_balance_plan(d: TensorDevice, devicemitigation: Seq<char>) -> Seq<WriteView> {
    tensor_gpu(d, "/scaling_max_freq"@, Pick::Max, "/scaling_min_freq"@, Pick::Min) + mif_plan(
        d.mif@,
        devicemitigation,
        DevfreqLevel::Unlock,
    )
}

/// The balanced profile of a Tensor device: the GPU open to its whole
/// range and, unless device mitigation is on, the memory interface
/// unlocked.
pub fn tensor_balance(d: &TensorDevice, devicemitigation: &str) -> (res: Vec<SysWrite>)
    ensures
        writes_view(res@) == tensor_balance_plan(*d, devicemitigation@),
{
    let mut plan: Vec<SysWrite> = Vec::new();
    push_tensor_gpu(&mut plan, d, "/scaling_max_freq", Pick::Max, "/scaling_min_freq", Pick::Min);
    push_mif(&mut plan, &d.mif, devicemitigation, DevfreqLevel::Unlock);
    assert(writes_view(plan@) =~= tensor_balance_plan(*d, devicemitigation@));
    plan
}

/// The performance profile of a Tensor device.
pub open spec fn tensor_performance_plan(d: TensorDevice, litemode: Seq<char>, devicemitigation: Seq<char>) -> Seq<
    WriteView,
> {
    tensor_gpu(d, "/scaling_max_freq"@, Pick::Max, "/scaling_min_freq"@, perf_floor(litemode)) + mif_plan(
        d.mif@,
        devicemitigation,
        perf_level(litemode),
    )
}

/// The performance profile of a Tensor device: the GPU at its highest
/// frequency (its lower bound at the middle one in lite mode) and, unless
/// device mitigation is on, the memory interface at its highest frequency
/// (its middle one in lite mode).
pub fn tensor_performance(d: &TensorDevice, litemode: &str, devicemitigation: &str) -> (res: Vec<SysWrite>)
    ensures
        writes_view(res@) == tensor_performance_plan(*d, litemode@, devicemitigation@),
{
    let (floor, level) = perf_choice(litemode);
    let mut plan: Vec<SysWrite> = Vec::new();
    push_tensor_gpu(&mut plan, d, "/scaling_max_freq", Pick::Max, "/scaling_min_freq", floor);
    push_mif(&mut plan, &d.mif, devicemitigation, level);
    assert(writes_view(plan@) =~= tensor_performance_plan(*d, litemode@, devicemitigation@));
    plan
}

/// The powersave profile of a Tensor device: the GPU pinned at its lowest
/// frequency, `scaling_min_freq` first.
pub fn tensor_powersave(d: &TensorDevice) -> (res: Vec<SysWrite>)
    ensures
        writes_view(res@) == tensor_gpu(*d, "/scaling_min_freq"@, Pick::Min, "/scaling_max_freq"@, Pick::Min),
{
    let mut plan: Vec<SysWrite> = Vec::new();
    push_tensor_gpu(&mut plan, d, "/scaling_min_freq", Pick::Min, "/scaling_max_freq", Pick::Min);
    assert(writes_view(plan@) =~= tensor_gpu(*d, "/scaling_min_freq"@, Pick::Min, "/scaling_max_freq"@, Pick::Min));
    plan
}

/// The highest, middle and lowest frequencies of a table, as text.
pub open spec fn table_hi(c: Seq<char>) -> Seq<char> {
    fmt_int(freq_table(c).last() as int)
}

/// The middle frequency of a table (at index half the count), as text.
pub open spec fn table_mid(c: Seq<char>) -> Seq<char> {
    fmt_int(freq_table(c)[(freq_table(c).len() / 2) as int] as int)
}

/// The lowest frequency of a table, as text.
pub open spec fn table_lo(c: Seq<char>) -> Seq<char> {
    fmt_int(freq_table(c)[0] as int)
}

/// In the performance profile of an Exynos or Tensor device, the GPU's
/// upper bound is its highest frequency, and its lower bound the middle
/// one when the lite mode property holds 1, the highest otherwise; on a
/// Unisoc device the GPU's lower bound is the highest frequency when the
/// lite mode property holds 0 (or no number) and the middle one otherwise.
/// In the balanced profile the Exynos and Tensor GPU spans its whole table,
/// and in the eco profile it is pinned at its lowest frequency.
pub proof fn law_vendor_gpu_bounds(x: ExynosDevice, t: TensorDevice, u: Option<DevfreqNode>, litemode: Seq<char>, dm: Seq<char>)
    ensures
        x.gpu_avail is Some && freq_table(x.gpu_avail->0@).len() > 0 ==> ({
            let c = x.gpu_avail->0@;
            &&& exynos_performance_plan(x, litemode, dm)[0] == lw(table_hi(c), "/sys/kernel/gpu/gpu_max_clock"@)
            &&& exynos_performance_plan(x, litemode, dm)[1] == lw(
                if prop_int(litemode) == 1 { table_mid(c) } else { table_hi(c) },
                "/sys/kernel/gpu/gpu_min_clock"@,
            )
            &&& exynos_balance_plan(x, dm)[0] == lw(table_hi(c), "/sys/kernel/gpu/gpu_max_clock"@)
            &&& exynos_balance_plan(x, dm)[1] == lw(table_lo(c), "/sys/kernel/gpu/gpu_min_clock"@)
            &&& exynos_gpu(x, "/gpu_min_clock"@, Pick::Min, "/gpu_max_clock"@, Pick::Min) == seq![
                lw(table_lo(c), "/sys/kernel/gpu/gpu_min_clock"@),
                lw(table_lo(c), "/sys/kernel/gpu/gpu_max_clock"@),
            ]
        }),
        t.mali is Some && freq_table(t.mali->0.table@).len() > 0 ==> ({
            let c = t.mali->0.table@;
            let p = t.mali->0.path@;
            &&& tensor_performance_plan(t, litemode, dm)[0] == lw(table_hi(c), p + "/scaling_max_freq"@)
            &&& tensor_performance_plan(t, litemode, dm)[1] == lw(
                if prop_int(litemode) == 1 { table_mid(c) } else { table_hi(c) },
                p + "/scaling_min_freq"@,
            )
            &&& tensor_balance_plan(t, dm)[1] == lw(table_lo(c), p + "/scaling_min_freq"@)
        }),
        u is Some && u->0.avail is Some && freq_table(u->0.avail->0@).len() > 0 ==> unisoc_performance_plan(
            u,
            litemode,
        )[1] == crate::plan::wv(
            if prop_int(litemode) == 0 { table_hi(u->0.avail->0@) } else { table_mid(u->0.avail->0@) },
            u->0.path@ + "/min_freq"@,
            crate::plan::WriteMode::Locked,
        ),
{
    reveal_strlit("/sys/kernel/gpu");
    reveal_strlit("/gpu_max_clock");
    reveal_strlit("/gpu_min_clock");
    reveal_strlit("/sys/kernel/gpu/gpu_max_clock");
    reveal_strlit("/sys/kernel/gpu/gpu_min_clock");
    assert("/sys/kernel/gpu"@ + "/gpu_max_clock"@ =~= "/sys/kernel/gpu/gpu_max_clock"@);
    assert("/sys/kernel/gpu"@ + "/gpu_min_clock"@ =~= "/sys/kernel/gpu/gpu_min_clock"@);
}

} // verus!
