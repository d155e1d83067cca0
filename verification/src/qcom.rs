//! The vendor-specific part of each profile on Qualcomm Snapdragon devices:
//! the CPU bus governors, the bus DCVS bounds and the Adreno GPU.
use vstd::prelude::*;
use crate::devfreq::{pick_freq, pick_text, Pick};
use crate::freq::{freq_table, get_freqs, max_text, min_text, which_minfreq};
use crate::num::{fmt_int, format_i64};
use crate::plan::{each_in, lw, push_each_in, push_locked, writes_view, SysWrite, WriteView};
use crate::text::strings_view;

verus! {

/// What the tuning reads of one bus DCVS directory (`LLCC`, `L3`, `DDR`,
/// `DDRQOS`) that exists.
pub struct BusDcvs {
    /// The text of its `available_frequencies`, empty when it cannot be read.
    pub avail: String,
    /// Its `*/max_freq` files.
    pub max_files: Vec<String>,
    /// Its `*/min_freq` files.
    pub min_files: Vec<String>,
}

/// The content of a `BusDcvs`.
pub struct BusView {
    pub avail: Seq<char>,
    pub max_files: Seq<Seq<char>>,
    pub min_files: Seq<Seq<char>>,
}

impl View for BusDcvs {
    type V = BusView;

    open spec fn view(&self) -> BusView {
        BusView {
            avail: self.avail@,
            max_files: strings_view(self.max_files@),
            min_files: strings_view(self.min_files@),
        }
    }
}

/// The contents of a list of bus DCVS directories.
pub open spec fn buses_view(bs: Seq<BusDcvs>) -> Seq<BusView> {
    bs.map_values(|b: BusDcvs| b@)
}

/// What the tuning reads of a Snapdragon device.
pub struct QcomDevice {
    /// The devfreq devices named `*cpu-ddr-latfloor*`.
    pub latfloor: Vec<String>,
    /// The devfreq devices named `*cpu*-lat`.
    pub lat: Vec<String>,
    /// The devfreq devices named `*cpu-cpu-ddr-bw`.
    pub ddr_bw: Vec<String>,
    /// The devfreq devices named `*cpu-cpu-llcc-bw`.
    pub llcc_bw: Vec<String>,
    /// The bus DCVS directories that exist, in the order `LLCC`, `L3`, `DDR`,
    /// `DDRQOS`.
    pub buses: Vec<BusDcvs>,
    /// The text of the Adreno frequency table when
    /// `/sys/class/kgsl/kgsl-3d0/devfreq` exists (empty when the table cannot
    /// be read).
    pub gpu_avail: Option<String>,
    /// The devfreq devices named `*gpubw*`.
    pub gpubw: Vec<String>,
}

/// The governors of the CPU bus devfreq devices.
pub open spec fn cpu_bus_governors(
    d: QcomDevice,
    latfloor: Seq<char>,
    lat: Seq<char>,
    ddr_bw: Seq<char>,
    llcc_bw: Seq<char>,
) -> Seq<WriteView> {
    each_in(strings_view(d.latfloor@), latfloor, "/governor"@) + each_in(strings_view(d.lat@), lat, "/governor"@)
        + each_in(strings_view(d.ddr_bw@), ddr_bw, "/governor"@) + each_in(
        strings_view(d.llcc_bw@),
        llcc_bw,
        "/governor"@,
    )
}

fn push_cpu_bus_governors(plan: &mut Vec<SysWrite>, d: &QcomDevice, latfloor: &str, lat: &str, ddr_bw: &str, llcc_bw: &str)
    ensures
        writes_view(final(plan)@) == writes_view(old(plan)@) + cpu_bus_governors(*d, latfloor@, lat@, ddr_bw@, llcc_bw@),
{
    let ghost before = writes_view(plan@);
    push_each_in(plan, d.latfloor.as_slice(), latfloor, "/governor");
    push_each_in(plan, d.lat.as_slice(), lat, "/governor");
    push_each_in(plan, d.ddr_bw.as_slice(), ddr_bw, "/governor");
    push_each_in(plan, d.llcc_bw.as_slice(), llcc_bw, "/governor");
    assert(writes_view(plan@) =~= before + cpu_bus_governors(*d, latfloor@, lat@, ddr_bw@, llcc_bw@));
}

/// The bounds of the bus DCVS directories: for each, in order, the `hi`
/// pick of its table to each of its `max_freq` files, then the `lo` pick to
/// each of its `min_freq` files.
pub open spec fn bus_writes(bs: Seq<BusView>, hi: Pick, lo: Pick) -> Seq<WriteView>
    decreases bs.len(),
{
    if bs.len() == 0 {
        seq![]
    } else {
        let b = bs.last();
        bus_writes(bs.drop_last(), hi, lo) + each_in(b.max_files, pick_text(b.avail, hi), seq![]) + each_in(
            b.min_files,
            pick_text(b.avail, lo),
            seq![],
        )
    }
}

fn push_bus(plan: &mut Vec<SysWrite>, b: &BusDcvs, hi: Pick, lo: Pick)
    ensures
        writes_view(final(plan)@) == writes_view(old(plan)@) + each_in(b@.max_files, pick_text(b@.avail, hi), seq![])
            + each_in(b@.min_files, pick_text(b@.avail, lo), seq![]),
{
    let ghost before = writes_view(plan@);
    let hv = pick_freq(b.avail.as_str(), hi);
    let lv = pick_freq(b.avail.as_str(), lo);
    proof {
        reveal_strlit("");
        assert(""@ =~= Seq::<char>::empty());
    }
    push_each_in(plan, b.max_files.as_slice(), hv.as_str(), "");
    push_each_in(plan, b.min_files.as_slice(), lv.as_str(), "");
    assert(writes_view(plan@) =~= before + each_in(b@.max_files, pick_text(b@.avail, hi), seq![]) + each_in(
        b@.min_files,
        pick_text(b@.avail, lo),
        seq![],
    ));
}

fn push_buses(plan: &mut Vec<SysWrite>, bs: &[BusDcvs], hi: Pick, lo: Pick)
    ensures
        writes_view(final(plan)@) == writes_view(old(plan)@) + bus_writes(buses_view(bs@), hi, lo),
{
    let ghost before = writes_view(plan@);
    let ghost bv = buses_view(bs@);
    let mut k: usize = 0;
    while k < bs.len()
        invariant
            k <= bs.len(),
            bv == buses_view(bs@),
            writes_view(plan@) == before + bus_writes(bv.take(k as int), hi, lo),
        decreases bs.len() - k,
    {
        push_bus(plan, &bs[k], hi, lo);
        assert(bv.take(k + 1).drop_last() == bv.take(k as int));
        assert(bv[k as int] == bs@[k as int]@);
        k = k + 1;
    }
    assert(bv.take(bs.len() as int) == bv);
}

/// The second-lowest frequency of the Adreno table, as text, or the lowest
/// when the table lists fewer than two.
pub open spec fn low_text(c: Seq<char>) -> Seq<char> {
    let t = freq_table(c);
    if t.len() >= 2 { fmt_int(t[1] as int) } else { min_text(c) }
}

/// The highest or the second-lowest frequency of the Adreno table.
pub open spec fn kgsl_text(c: Seq<char>, top: bool) -> Seq<char> {
    if top { max_text(c) } else { low_text(c) }
}

/// The bounds of the Adreno GPU: `min_freq` first, then `max_freq`.
pub open spec fn kgsl_writes(gpu: Option<Seq<char>>, min_top: bool, max_top: bool) -> Seq<WriteView> {
    match gpu {
        Some(c) => seq![
            lw(kgsl_text(c, min_top), "/sys/class/kgsl/kgsl-3d0/devfreq/min_freq"@),
            lw(kgsl_text(c, max_top), "/sys/class/kgsl/kgsl-3d0/devfreq/max_freq"@),
        ],
        None => seq![],
    }
}

fn kgsl_freq(c: &str, top: bool) -> (res: String)
    ensures
        res@ == kgsl_text(c@, top),
{
    if top {
        pick_freq(c, Pick::Max)
    } else {
        let freqs = get_freqs(c);
        if freqs.len() >= 2 {
            format_i64(freqs[1])
        } else {
            which_minfreq(c)
        }
    }
}

fn push_kgsl(plan: &mut Vec<SysWrite>, gpu: &Option<String>, min_top: bool, max_top: bool)
    ensures
        writes_view(final(plan)@) == writes_view(old(plan)@) + kgsl_writes(crate::soc::ostr(*gpu), min_top, max_top),
{
    let ghost before = writes_view(plan@);
    if let Some(c) = gpu {
        let lo = kgsl_freq(c.as_str(), min_top);
        let hi = kgsl_freq(c.as_str(), max_top);
        push_locked(plan, lo.as_str(), "/sys/class/kgsl/kgsl-3d0/devfreq/min_freq");
        push_locked(plan, hi.as_str(), "/sys/class/kgsl/kgsl-3d0/devfreq/max_freq");
    }
    assert(writes_view(plan@) =~= before + kgsl_writes(crate::soc::ostr(*gpu), min_top, max_top));
}

/// The GPU bus governors and the Adreno boost level.
pub open spec fn gpu_tail(d: QcomDevice, gpubw: Seq<char>, boost: Seq<char>) -> Seq<WriteView> {
    each_in(strings_view(d.gpubw@), gpubw, "/governor"@).push(lw(boost, "/sys/class/kgsl/kgsl-3d0/devfreq/adrenoboost"@))
}

fn push_gpu_tail(plan: &mut Vec<SysWrite>, d: &QcomDevice, gpubw: &str, boost: &str)
    ensures
        writes_view(final(plan)@) == writes_view(old(plan)@) + gpu_tail(*d, gpubw@, boost@),
{
    let ghost before = writes_view(plan@);
    push_each_in(plan, d.gpubw.as_slice(), gpubw, "/governor");
    push_locked(plan, boost, "/sys/class/kgsl/kgsl-3d0/devfreq/adrenoboost");
    assert(writes_view(plan@) =~= before + gpu_tail(*d, gpubw@, boost@));
}

/// The balanced profile of a Snapdragon device.
pub open spec fn qcom_balance_plan(d: QcomDevice) -> Seq<WriteView> {
    cpu_bus_governors(d, "compute"@, "mem_latency"@, "bw_hwmon"@, "bw_hwmon"@) + bus_writes(
        buses_view(d.buses@),
        Pick::Max,
        Pick::Min,
    ) + kgsl_writes(crate::soc::ostr(d.gpu_avail), false, true) + gpu_tail(d, "bw_vbif"@, "1"@)
}

/// The balanced profile of a Snapdragon device: the demand-driven bus
/// governors, each bus DCVS open to its whole range, the Adreno GPU between
/// its second-lowest and highest frequencies, Adreno boost at its lowest
/// level.
pub fn snapdragon_balance(d: &QcomDevice) -> (res: Vec<SysWrite>)
    ensures
        writes_view(res@) == qcom_balance_plan(*d),
{
    let mut plan: Vec<SysWrite> = Vec::new();
    push_cpu_bus_governors(&mut plan, d, "compute", "mem_latency", "bw_hwmon", "bw_hwmon");
    push_buses(&mut plan, d.buses.as_slice(), Pick::Max, Pick::Min);
    push_kgsl(&mut plan, &d.gpu_avail, false, true);
    push_gpu_tail(&mut plan, d, "bw_vbif", "1");
    assert(writes_view(plan@) =~= qcom_balance_plan(*d));
    plan
}

/// The performance profile of a Snapdragon device.
pub open spec fn qcom_performance_plan(d: QcomDevice) -> Seq<WriteView> {
    cpu_bus_governors(d, "performance"@, "performance"@, "performance"@, "performance"@) + bus_writes(
        buses_view(d.buses@),
        Pick::Max,
        Pick::Max,
    ) + kgsl_writes(crate::soc::ostr(d.gpu_avail), true, true) + gpu_tail(d, "performance"@, "3"@)
}

/// The performance profile of a Snapdragon device: every bus governor at
/// `performance`, each bus DCVS and the Adreno GPU pinned at their highest
/// frequency, Adreno boost at its highest level.
pub fn snapdragon_performance(d: &QcomDevice) -> (res: Vec<SysWrite>)
    ensures
        writes_view(res@) == qcom_performance_plan(*d),
{
    let mut plan: Vec<SysWrite> = Vec::new();
    push_cpu_bus_governors(&mut plan, d, "performance", "performance", "performance", "performance");
    push_buses(&mut plan, d.buses.as_slice(), Pick::Max, Pick::Max);
    push_kgsl(&mut plan, &d.gpu_avail, true, true);
    push_gpu_tail(&mut plan, d, "performance", "3");
    assert(writes_view(plan@) =~= qcom_performance_plan(*d));
    plan
}

/// The powersave profile of a Snapdragon device.
pub open spec fn qcom_powersave_plan(d: QcomDevice) -> Seq<WriteView> {
    cpu_bus_governors(d, "powersave"@, "powersave"@, "powersave"@, "powersave"@) + bus_writes(
        buses_view(d.buses@),
        Pick::Min,
        Pick::Min,
    ) + kgsl_writes(crate::soc::ostr(d.gpu_avail), false, false) + gpu_tail(d, "powersave"@, "0"@)
}

/// The powersave profile of a Snapdragon device: every bus governor at
/// `powersave`, each bus DCVS pinned at its lowest frequency, the Adreno
/// GPU at its second-lowest, Adreno boost off.
pub fn snapdragon_powersave(d: &QcomDevice) -> (res: Vec<SysWrite>)
    ensures
        writes_view(res@) == qcom_powersave_plan(*d),
{
    let mut plan: Vec<SysWrite> = Vec::new();
    push_cpu_bus_governors(&mut plan, d, "powersave", "powersave", "powersave", "powersave");
    push_buses(&mut plan, d.buses.as_slice(), Pick::Min, Pick::Min);
    push_kgsl(&mut plan, &d.gpu_avail, false, false);
    push_gpu_tail(&mut plan, d, "powersave", "0");
    assert(writes_view(plan@) =~= qcom_powersave_plan(*d));
    plan
}

/// The shape of a Snapdragon profile's writes `w`: first `govs[0]` to the
/// governor of each `*cpu-ddr-latfloor*` device, `govs[1]` to each
/// `*cpu*-lat`, `govs[2]` to each `*cpu-cpu-ddr-bw`, `govs[3]` to each
/// `*cpu-cpu-llcc-bw`; at the end, when the Adreno table exists, `gmin` to
/// its `min_freq` and `gmax` to its `max_freq`, then `gpubw` to the governor
/// of each `*gpubw*` device and last `boost` to `adrenoboost`.
pub open spec fn qcom_shape(
    w: Seq<WriteView>,
    d: QcomDevice,
    govs: Seq<Seq<char>>,
    gmin: Seq<char>,
    gmax: Seq<char>,
    gpubw: Seq<char>,
    boost: Seq<char>,
) -> bool {
    let a = strings_view(d.latfloor@);
    let b = strings_view(d.lat@);
    let c = strings_view(d.ddr_bw@);
    let e = strings_view(d.llcc_bw@);
    let g = strings_view(d.gpubw@);
    let n = w.len() as int;
    &&& forall|k: int| 0 <= k < a.len() ==> #[trigger] w[k] == lw(govs[0], a[k] + "/governor"@)
    &&& forall|k: int| 0 <= k < b.len() ==> #[trigger] w[a.len() + k] == lw(govs[1], b[k] + "/governor"@)
    &&& forall|k: int| 0 <= k < c.len() ==> #[trigger] w[a.len() + b.len() + k] == lw(govs[2], c[k] + "/governor"@)
    &&& forall|k: int|
        0 <= k < e.len() ==> #[trigger] w[a.len() + b.len() + c.len() + k] == lw(govs[3], e[k] + "/governor"@)
    &&& forall|k: int| 0 <= k < g.len() ==> #[trigger] w[n - 1 - g.len() + k] == lw(gpubw, g[k] + "/governor"@)
    &&& w[n - 1] == lw(boost, "/sys/class/kgsl/kgsl-3d0/devfreq/adrenoboost"@)
    &&& d.gpu_avail is Some ==> w[n - 3 - g.len()] == lw(gmin, "/sys/class/kgsl/kgsl-3d0/devfreq/min_freq"@)
        && w[n - 2 - g.len()] == lw(gmax, "/sys/class/kgsl/kgsl-3d0/devfreq/max_freq"@)
}

proof fn lemma_qcom_shape(
    d: QcomDevice,
    l0: Seq<char>,
    l1: Seq<char>,
    l2: Seq<char>,
    l3: Seq<char>,
    hi: Pick,
    lo: Pick,
    min_top: bool,
    max_top: bool,
    gpubw: Seq<char>,
    boost: Seq<char>,
)
    ensures
        ({
            let w = cpu_bus_governors(d, l0, l1, l2, l3) + bus_writes(buses_view(d.buses@), hi, lo) + kgsl_writes(
                crate::soc::ostr(d.gpu_avail),
                min_top,
                max_top,
            ) + gpu_tail(d, gpubw, boost);
            let c = crate::soc::ostr(d.gpu_avail)->0;
            qcom_shape(w, d, seq![l0, l1, l2, l3], kgsl_text(c, min_top), kgsl_text(c, max_top), gpubw, boost)
        }),
{
    let a = strings_view(d.latfloor@);
    let b = strings_view(d.lat@);
    let c = strings_view(d.ddr_bw@);
    let e = strings_view(d.llcc_bw@);
    let g = strings_view(d.gpubw@);
    crate::plan::lemma_each_in(a, l0, "/governor"@);
    crate::plan::lemma_each_in(b, l1, "/governor"@);
    crate::plan::lemma_each_in(c, l2, "/governor"@);
    crate::plan::lemma_each_in(e, l3, "/governor"@);
    crate::plan::lemma_each_in(g, gpubw, "/governor"@);
    let cb = cpu_bus_governors(d, l0, l1, l2, l3);
    let bw = bus_writes(buses_view(d.buses@), hi, lo);
    let kg = kgsl_writes(crate::soc::ostr(d.gpu_avail), min_top, max_top);
    let gt = gpu_tail(d, gpubw, boost);
    let w = cb + bw + kg + gt;
    let ga = each_in(a, l0, "/governor"@);
    let gb = each_in(b, l1, "/governor"@);
    let gc = each_in(c, l2, "/governor"@);
    let ge = each_in(e, l3, "/governor"@);
    let gg = each_in(g, gpubw, "/governor"@);
    assert(cb =~= ga + gb + gc + ge);
    assert(gt.len() == g.len() + 1);
    let n = w.len() as int;
    assert forall|k: int| 0 <= k < a.len() implies #[trigger] w[k] == lw(l0, a[k] + "/governor"@) by {
        assert(w[k] == cb[k]);
        assert(cb[k] == ga[k]);
    }
    assert forall|k: int| 0 <= k < b.len() implies #[trigger] w[a.len() + k] == lw(l1, b[k] + "/governor"@) by {
        assert(w[a.len() + k] == cb[a.len() + k]);
        assert(cb[a.len() + k] == gb[k]);
    }
    assert forall|k: int| 0 <= k < c.len() implies #[trigger] w[a.len() + b.len() + k] == lw(
        l2,
        c[k] + "/governor"@,
    ) by {
        assert(w[a.len() + b.len() + k] == cb[a.len() + b.len() + k]);
        assert(cb[a.len() + b.len() + k] == gc[k]);
    }
    assert forall|k: int| 0 <= k < e.len() implies #[trigger] w[a.len() + b.len() + c.len() + k] == lw(
        l3,
        e[k] + "/governor"@,
    ) by {
        assert(w[a.len() + b.len() + c.len() + k] == cb[a.len() + b.len() + c.len() + k]);
        assert(cb[a.len() + b.len() + c.len() + k] == ge[k]);
    }
    assert forall|k: int| 0 <= k < g.len() implies #[trigger] w[n - 1 - g.len() + k] == lw(
        gpubw,
        g[k] + "/governor"@,
    ) by {
        assert(w[n - 1 - g.len() + k] == gt[k]);
        assert(gt[k] == gg[k]);
    }
    assert(w[n - 1] == gt[g.len() as int]);
    if d.gpu_avail is Some {
        assert(kg.len() == 2);
        assert(w[n - 3 - g.len()] == kg[0]);
        assert(w[n - 2 - g.len()] == kg[1]);
    }
}

/// On a Snapdragon device, with `t` the Adreno frequency table (ascending)
/// when it lists at least one frequency: the performance profile sets every
/// CPU and GPU bus governor to `performance`, pins the Adreno GPU at its
/// highest frequency (as both bounds) and sets Adreno boost to 3; the
/// balanced profile sets the bus governors to `compute`, `mem_latency`,
/// `bw_hwmon`, `bw_hwmon` and `bw_vbif`, lets the GPU range from its
/// second-lowest frequency (its lowest when it lists only one) to its
/// highest, and sets boost to 1; the powersave profile sets every bus
/// governor to `powersave`, pins the GPU at its second-lowest frequency and
/// turns boost off (0).
pub proof fn law_snapdragon_profiles(d: QcomDevice)
    ensures
        ({
            let t = freq_table(crate::soc::ostr(d.gpu_avail)->0);
            let hi = fmt_int(t.last() as int);
            let low = if t.len() >= 2 { fmt_int(t[1] as int) } else { fmt_int(t[0] as int) };
            let p = "performance"@;
            let s = "powersave"@;
            &&& d.gpu_avail is Some ==> t.len() > 0 ==> qcom_shape(
                qcom_performance_plan(d),
                d,
                seq![p, p, p, p],
                hi,
                hi,
                p,
                "3"@,
            )
            &&& d.gpu_avail is Some ==> t.len() > 0 ==> qcom_shape(
                qcom_balance_plan(d),
                d,
                seq!["compute"@, "mem_latency"@, "bw_hwmon"@, "bw_hwmon"@],
                low,
                hi,
                "bw_vbif"@,
                "1"@,
            )
            &&& d.gpu_avail is Some ==> t.len() > 0 ==> qcom_shape(
                qcom_powersave_plan(d),
                d,
                seq![s, s, s, s],
                low,
                low,
                s,
                "0"@,
            )
        }),
        d.gpu_avail is None ==> qcom_shape(
            qcom_performance_plan(d),
            d,
            seq!["performance"@, "performance"@, "performance"@, "performance"@],
            seq![],
            seq![],
            "performance"@,
            "3"@,
        ) && qcom_shape(
            qcom_balance_plan(d),
            d,
            seq!["compute"@, "mem_latency"@, "bw_hwmon"@, "bw_hwmon"@],
            seq![],
            seq![],
            "bw_vbif"@,
            "1"@,
        ) && qcom_shape(
            qcom_powersave_plan(d),
            d,
            seq!["powersave"@, "powersave"@, "powersave"@, "powersave"@],
            seq![],
            seq![],
            "powersave"@,
            "0"@,
        ),
{
    let p = "performance"@;
    let s = "powersave"@;
    lemma_qcom_shape(d, p, p, p, p, Pick::Max, Pick::Max, true, true, p, "3"@);
    lemma_qcom_shape(d, "compute"@, "mem_latency"@, "bw_hwmon"@, "bw_hwmon"@, Pick::Max, Pick::Min, false, true, "bw_vbif"@, "1"@);
    lemma_qcom_shape(d, s, s, s, s, Pick::Min, Pick::Min, false, false, s, "0"@);
}


} // verus!
