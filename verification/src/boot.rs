//! The boot sequence: the kernel defaults, the detection of the default
//! governors and I/O scheduler, and the optional tunes that follow.
use vstd::prelude::*;
use crate::plan::{
    as_steps, fixed_writes, lw, pairs_view, push_fixed, push_locked_in, push_setprop, push_step, push_writes,
    steps_view, writes_view, Step, StepView, SysWrite, WriteView,
};
use crate::probe::{default_io_scheduler, fallback_governor, fallback_of, io_sched_of, listed_packages, prop_int, prop_int_exec};
use crate::sched::{schedtunes, schedtunes_plan, walt_plan, walt_tunes, TunePolicy};
use crate::soc::ostr;
use crate::text::{str_eq, strings_view, trim};
use crate::tune::{each_at, io_schedulers, sets_io, setgov, setgov_plan};

verus! {

/// The kernel defaults written first at boot.
pub open spec fn kernel_defaults() -> Seq<(Seq<char>, Seq<char>)> {
    seq![
        ("/proc/sys/kernel/hung_task_timeout_secs"@, "0"@),
        ("/proc/sys/kernel/panic_on_oom"@, "0"@),
        ("/proc/sys/kernel/panic_on_oops"@, "0"@),
        ("/proc/sys/kernel/panic"@, "0"@),
        ("/proc/sys/kernel/softlockup_panic"@, "0"@),
        ("/proc/sys/kernel/sched_migration_cost_ns"@, "750000"@),
        ("/proc/sys/kernel/sched_min_granularity_ns"@, "1000000"@),
        ("/proc/sys/kernel/sched_wakeup_granularity_ns"@, "600000"@),
        ("/proc/sys/vm/page-cluster"@, "0"@),
        ("/proc/sys/vm/stat_interval"@, "20"@),
        ("/proc/sys/vm/compaction_proactiveness"@, "0"@),
        ("/proc/sys/kernel/sched_lib_mask_force"@, "255"@),
    ]
}

fn push_kernel_defaults(plan: &mut Vec<Step>)
    ensures
        steps_view(final(plan)@) == steps_view(old(plan)@) + as_steps(fixed_writes(kernel_defaults())),
{
    let mut ws: Vec<SysWrite> = Vec::new();
    let ps: &[(&str, &str)] = &[
            ("/proc/sys/kernel/hung_task_timeout_secs", "0"),
            ("/proc/sys/kernel/panic_on_oom", "0"),
            ("/proc/sys/kernel/panic_on_oops", "0"),
            ("/proc/sys/kernel/panic", "0"),
            ("/proc/sys/kernel/softlockup_panic", "0"),
            ("/proc/sys/kernel/sched_migration_cost_ns", "750000"),
            ("/proc/sys/kernel/sched_min_granularity_ns", "1000000"),
            ("/proc/sys/kernel/sched_wakeup_granularity_ns", "600000"),
            ("/proc/sys/vm/page-cluster", "0"),
            ("/proc/sys/vm/stat_interval", "20"),
            ("/proc/sys/vm/compaction_proactiveness", "0"),
            ("/proc/sys/kernel/sched_lib_mask_force", "255"),
    ];
    push_fixed(&mut ws, ps);
    assert(pairs_view(ps@) =~= kernel_defaults());
    assert(writes_view(ws@) =~= fixed_writes(kernel_defaults()));
    push_writes(plan, ws);
}

/// What the boot sequence reads before it tunes.
pub struct InitEnv {
    /// The first `devfreq/*.mali/governor` file of a Mali device under
    /// `/sys/devices/platform/soc`.
    pub mali_governor: Option<String>,
    /// The text of that file, when it can be read.
    pub mali_governor_text: Option<String>,
    /// The `persist.sys.azenith.custom_default_gpumali_gov` property.
    pub custom_default_gpumali_gov: String,
    /// The `persist.sys.azenith.custom_powersave_gpumali_gov` property.
    pub custom_powersave_gpumali_gov: String,
    /// The `persist.sys.azenith.custom_performance_gpumali_gov` property.
    pub custom_performance_gpumali_gov: String,
    /// The text of cpu0's `scaling_governor`, empty when it cannot be read.
    pub cpu0_governor: String,
    /// The text of cpu0's `scaling_available_governors`, when it can be read.
    pub available_governors: Option<String>,
    /// The `persist.sys.azenith.custom_default_cpu_gov` property.
    pub custom_default_cpu_gov: String,
    /// The `persist.sys.azenith.custom_powersave_cpu_gov` property.
    pub custom_powersave_cpu_gov: String,
    /// The `scaling_governor` file of each CPU.
    pub cpu_governors: Vec<String>,
    /// The `scaling_governor` file of each cpufreq policy.
    pub policy_governors: Vec<String>,
    /// For each block device in the order of `io_probe_order`: nothing when
    /// its scheduler file does not exist, else its text when it can be read.
    pub io_blocks: Vec<Option<Option<String>>>,
    /// The `persist.sys.azenith.custom_default_balanced_IO` property.
    pub custom_default_balanced_io: String,
    /// The `persist.sys.azenith.custom_powersave_IO` property.
    pub custom_powersave_io: String,
    /// The `persist.sys.azenith.custom_performance_IO` property.
    pub custom_performance_io: String,
}

/// A property step, as a value.
pub open spec fn setprop(name: Seq<char>, value: Seq<char>) -> Seq<StepView> {
    seq![StepView::SetProp(name, value)]
}

/// A property step when `current` is empty.
pub open spec fn setprop_if_unset(current: Seq<char>, name: Seq<char>, value: Seq<char>) -> Seq<StepView> {
    if current.len() == 0 { setprop(name, value) } else { seq![] }
}

fn push_setprop_if_unset(plan: &mut Vec<Step>, current: &str, name: &str, value: &str)
    ensures
        steps_view(final(plan)@) == steps_view(old(plan)@) + setprop_if_unset(current@, name@, value@),
{
    let ghost before = steps_view(plan@);
    if current.is_empty() {
        push_setprop(plan, name, value);
    }
    assert(steps_view(plan@) =~= before + setprop_if_unset(current@, name@, value@));
}

/// The governor of a setting: the custom one when it is set, else the
/// detected one.
pub open spec fn custom_or(custom: Seq<char>, detected: Seq<char>) -> Seq<char> {
    if custom.len() > 0 { custom } else { detected }
}

fn custom_or_exec(custom: &str, detected: &str) -> (res: String)
    ensures
        res@ == custom_or(custom@, detected@),
{
    let s = if !custom.is_empty() { custom } else { detected };
    crate::text::string_of(crate::text::chars_of(s).as_slice())
}

/// The Mali governor detected at boot: the trimmed text of its file, empty
/// when it cannot be read.
pub open spec fn detected_mali(e: InitEnv) -> Seq<char> {
    match ostr(e.mali_governor_text) {
        Some(t) => trim(t),
        None => seq![],
    }
}

/// The Mali governor part of the boot sequence.
pub open spec fn mali_init_plan(e: InitEnv) -> Seq<StepView> {
    match e.mali_governor {
        None => setprop("sys.azenith.maligovsupport"@, "0"@),
        Some(p) => {
            let g = custom_or(e.custom_default_gpumali_gov@, detected_mali(e));
            setprop("sys.azenith.maligovsupport"@, "1"@) + (match ostr(e.mali_governor_text) {
                Some(t) => setprop("persist.sys.azenith.default_gpumali_gov"@, trim(t)),
                None => seq![],
            }) + seq![StepView::Write(lw(g, p@))] + setprop_if_unset(
                e.custom_powersave_gpumali_gov@,
                "persist.sys.azenith.custom_powersave_gpumali_gov"@,
                g,
            ) + setprop_if_unset(e.custom_performance_gpumali_gov@, "persist.sys.azenith.custom_performance_gpumali_gov"@, g)
        },
    }
}

fn push_mali_init(plan: &mut Vec<Step>, e: &InitEnv)
    ensures
        steps_view(final(plan)@) == steps_view(old(plan)@) + mali_init_plan(*e),
{
    let ghost before = steps_view(plan@);
    match &e.mali_governor {
        None => {
            push_setprop(plan, "sys.azenith.maligovsupport", "0");
        },
        Some(p) => {
            push_setprop(plan, "sys.azenith.maligovsupport", "1");
            let ghost b1 = steps_view(plan@);
            let detected = match &e.mali_governor_text {
                Some(t) => {
                    let d = crate::cpufreq::trimmed(t.as_str());
                    push_setprop(plan, "persist.sys.azenith.default_gpumali_gov", d.as_str());
                    d
                },
                None => String::new(),
            };
            assert(detected@ == detected_mali(*e));
            let g = custom_or_exec(e.custom_default_gpumali_gov.as_str(), detected.as_str());
            let ghost b2 = steps_view(plan@);
            let mut ws: Vec<SysWrite> = Vec::new();
            crate::plan::push_locked(&mut ws, g.as_str(), p.as_str());
            push_writes(plan, ws);
            assert(steps_view(plan@) =~= b2 + seq![StepView::Write(lw(g@, p@))]);
            push_setprop_if_unset(
                plan,
                e.custom_powersave_gpumali_gov.as_str(),
                "persist.sys.azenith.custom_powersave_gpumali_gov",
                g.as_str(),
            );
            push_setprop_if_unset(
                plan,
                e.custom_performance_gpumali_gov.as_str(),
                "persist.sys.azenith.custom_performance_gpumali_gov",
                g.as_str(),
            );
        },
    }
    assert(steps_view(plan@) =~= before + mali_init_plan(*e));
}

/// The CPU governor detected at boot, after the fallback from
/// `performance`.
pub open spec fn detected_cpu(e: InitEnv) -> Seq<char> {
    match fallback_of(trim(e.cpu0_governor@), e.custom_default_cpu_gov@, ostr(e.available_governors)) {
        Some(g) => g,
        None => trim(e.cpu0_governor@),
    }
}

/// The CPU governor part of the boot sequence.
pub open spec fn cpu_init_plan(e: InitEnv) -> Seq<StepView> {
    let g = custom_or(e.custom_default_cpu_gov@, detected_cpu(e));
    setprop("persist.sys.azenith.default_cpu_gov"@, trim(e.cpu0_governor@)) + (match fallback_of(
        trim(e.cpu0_governor@),
        e.custom_default_cpu_gov@,
        ostr(e.available_governors),
    ) {
        Some(f) => setprop("persist.sys.azenith.default_cpu_gov"@, f),
        None => seq![],
    }) + setgov_plan(g, strings_view(e.cpu_governors@), strings_view(e.policy_governors@)) + setprop_if_unset(
        e.custom_powersave_cpu_gov@,
        "persist.sys.azenith.custom_powersave_cpu_gov"@,
        g,
    )
}

fn push_cpu_init(plan: &mut Vec<Step>, e: &InitEnv)
    ensures
        steps_view(final(plan)@) == steps_view(old(plan)@) + cpu_init_plan(*e),
{
    let ghost before = steps_view(plan@);
    let d0 = crate::cpufreq::trimmed(e.cpu0_governor.as_str());
    push_setprop(plan, "persist.sys.azenith.default_cpu_gov", d0.as_str());
    let avail: Option<&str> = match &e.available_governors {
        Some(a) => Some(a.as_str()),
        None => None,
    };
    assert(crate::freq::opt_view(avail) == ostr(e.available_governors));
    let ghost b1 = steps_view(plan@);
    let detected = match fallback_governor(d0.as_str(), e.custom_default_cpu_gov.as_str(), avail) {
        Some(f) => {
            push_setprop(plan, "persist.sys.azenith.default_cpu_gov", f.as_str());
            f
        },
        None => d0,
    };
    assert(detected@ == detected_cpu(*e));
    let g = custom_or_exec(e.custom_default_cpu_gov.as_str(), detected.as_str());
    let ghost b2 = steps_view(plan@);
    let mut gs = setgov(g.as_str(), e.cpu_governors.as_slice(), e.policy_governors.as_slice());
    let ghost gv = steps_view(gs@);
    plan.append(&mut gs);
    assert(steps_view(plan@) =~= b2 + gv);
    push_setprop_if_unset(plan, e.custom_powersave_cpu_gov.as_str(), "persist.sys.azenith.custom_powersave_cpu_gov", g.as_str());
    assert(steps_view(plan@) =~= before + cpu_init_plan(*e));
}

/// The scheduler files probed for the default I/O scheduler, in order.
pub open spec fn io_probe_paths() -> Seq<Seq<char>> {
    seq![
        "/sys/block/mmcblk0/queue/scheduler"@,
        "/sys/block/mmcblk1/queue/scheduler"@,
        "/sys/block/sda/queue/scheduler"@,
        "/sys/block/sdb/queue/scheduler"@,
        "/sys/block/sdc/queue/scheduler"@,
    ]
}

/// The scheduler files probed for the default I/O scheduler, in order.
pub fn io_probe_order() -> (res: Vec<String>)
    ensures
        strings_view(res@) == io_probe_paths(),
{
    let v = crate::plan::args_of(
        &[
            "/sys/block/mmcblk0/queue/scheduler",
            "/sys/block/mmcblk1/queue/scheduler",
            "/sys/block/sda/queue/scheduler",
            "/sys/block/sdb/queue/scheduler",
            "/sys/block/sdc/queue/scheduler",
        ],
    );
    assert(strings_view(v@) =~= io_probe_paths());
    v
}

/// What was read of the first scheduler file that exists: its text when it
/// can be read.
pub open spec fn first_present(bs: Seq<Option<Option<String>>>) -> Option<Option<Seq<char>>>
    decreases bs.len(),
{
    if bs.len() == 0 {
        None
    } else {
        match bs[0] {
            Some(r) => Some(ostr(r)),
            None => first_present(bs.drop_first()),
        }
    }
}

/// The I/O scheduler part of the boot sequence: nothing unless the first
/// scheduler file that exists can be read.
pub open spec fn io_init_plan(e: InitEnv) -> Seq<StepView> {
    match first_present(e.io_blocks@) {
        Some(Some(t)) => {
            let g = custom_or(e.custom_default_balanced_io@, io_sched_of(t));
            setprop("persist.sys.azenith.default_balanced_IO"@, io_sched_of(t)) + as_steps(each_at(io_schedulers(), g))
                + setprop_if_unset(e.custom_powersave_io@, "persist.sys.azenith.custom_powersave_IO"@, g)
                + setprop_if_unset(e.custom_performance_io@, "persist.sys.azenith.custom_performance_IO"@, g)
        },
        _ => seq![],
    }
}

fn first_present_exec(bs: &Vec<Option<Option<String>>>) -> (r: Option<Option<&str>>)
    ensures
        match r {
            Some(x) => first_present(bs@) == Some(crate::freq::opt_view(x)),
            None => first_present(bs@) is None,
        },
{
    let mut k: usize = 0;
    assert(bs@.skip(0) == bs@);
    while k < bs.len()
        invariant
            k <= bs.len(),
            first_present(bs@) == first_present(bs@.skip(k as int)),
        decreases bs.len() - k,
    {
        assert(bs@.skip(k as int)[0] == bs@[k as int]);
        assert(bs@.skip(k as int).drop_first() == bs@.skip(k + 1));
        match &bs[k] {
            Some(r) => {
                let x: Option<&str> = match r {
                    Some(t) => Some(t.as_str()),
                    None => None,
                };
                assert(crate::freq::opt_view(x) == ostr(*r));
                return Some(x);
            },
            None => {},
        }
        k = k + 1;
    }
    None
}

fn push_io_init(plan: &mut Vec<Step>, e: &InitEnv)
    ensures
        steps_view(final(plan)@) == steps_view(old(plan)@) + io_init_plan(*e),
{
    let ghost before = steps_view(plan@);
    if let Some(Some(t)) = first_present_exec(&e.io_blocks) {
        let d = default_io_scheduler(t);
        push_setprop(plan, "persist.sys.azenith.default_balanced_IO", d.as_str());
        let g = custom_or_exec(e.custom_default_balanced_io.as_str(), d.as_str());
        push_writes(plan, sets_io(g.as_str()));
        push_setprop_if_unset(plan, e.custom_powersave_io.as_str(), "persist.sys.azenith.custom_powersave_IO", g.as_str());
        push_setprop_if_unset(plan, e.custom_performance_io.as_str(), "persist.sys.azenith.custom_performance_IO", g.as_str());
    }
    assert(steps_view(plan@) =~= before + io_init_plan(*e));
}

/// Where the Mali governor part starts in the boot sequence.
pub open spec fn init_mali_start() -> int {
    as_steps(fixed_writes(kernel_defaults())).len() as int
}

/// Where the CPU governor part starts in the boot sequence.
pub open spec fn init_cpu_start(e: InitEnv) -> int {
    init_mali_start() + mali_init_plan(e).len()
}

/// At boot, without a Mali governor file, Mali governor support is
/// recorded as off; with one, as on, and the governor written to it is the
/// custom default when set, else the trimmed text the file held (empty when
/// it could not be read), that text being recorded first as the default.
/// Then the CPU's boot governor (cpu0's, trimmed) is recorded as the
/// default; when it is `performance` and no custom default is set, the
/// first fallback governor the available list mentions is recorded after
/// it; and the governor written to each CPU's governor file is the custom
/// default when set, else that fallback, else the boot governor.
pub proof fn law_boot_governors(e: InitEnv, k: int)
    ensures
        e.mali_governor is None ==> initialize_plan(e)[init_mali_start()] == StepView::SetProp(
            "sys.azenith.maligovsupport"@,
            "0"@,
        ),
        e.mali_governor is Some ==> initialize_plan(e)[init_mali_start()] == StepView::SetProp(
            "sys.azenith.maligovsupport"@,
            "1"@,
        ),
        e.mali_governor is Some && e.mali_governor_text is Some ==> initialize_plan(e)[init_mali_start() + 1]
            == StepView::SetProp("persist.sys.azenith.default_gpumali_gov"@, trim(e.mali_governor_text->0@)),
        e.mali_governor is Some ==> initialize_plan(e)[init_mali_start() + 1 + (if e.mali_governor_text is Some {
            1int
        } else {
            0int
        })] == StepView::Write(
            lw(
                if e.custom_default_gpumali_gov@.len() > 0 {
                    e.custom_default_gpumali_gov@
                } else if e.mali_governor_text is Some {
                    trim(e.mali_governor_text->0@)
                } else {
                    seq![]
                },
                e.mali_governor->0@,
            ),
        ),
        initialize_plan(e)[init_cpu_start(e)] == StepView::SetProp(
            "persist.sys.azenith.default_cpu_gov"@,
            trim(e.cpu0_governor@),
        ),
        ({
            let fb = fallback_of(trim(e.cpu0_governor@), e.custom_default_cpu_gov@, ostr(e.available_governors));
            let off = init_cpu_start(e) + 1 + (if fb is Some { 1int } else { 0int });
            &&& fb is Some ==> initialize_plan(e)[init_cpu_start(e) + 1] == StepView::SetProp(
                "persist.sys.azenith.default_cpu_gov"@,
                fb->0,
            )
            &&& 0 <= k < e.cpu_governors@.len() ==> initialize_plan(e)[off + k] == StepView::Write(
                lw(
                    if e.custom_default_cpu_gov@.len() > 0 {
                        e.custom_default_cpu_gov@
                    } else if fb is Some {
                        fb->0
                    } else {
                        trim(e.cpu0_governor@)
                    },
                    e.cpu_governors@[k]@,
                ),
            )
        }),
{
    let m = mali_init_plan(e);
    let c = cpu_init_plan(e);
    let pre = as_steps(fixed_writes(kernel_defaults()));
    assert(initialize_plan(e) == pre + m + c + io_init_plan(e));
    assert(pre.len() == init_mali_start());
    let fb = fallback_of(trim(e.cpu0_governor@), e.custom_default_cpu_gov@, ostr(e.available_governors));
    let g = custom_or(e.custom_default_cpu_gov@, detected_cpu(e));
    let cpus = strings_view(e.cpu_governors@);
    crate::tune::lemma_setgov(g, cpus, strings_view(e.policy_governors@));
    let head = setprop("persist.sys.azenith.default_cpu_gov"@, trim(e.cpu0_governor@)) + (match fb {
        Some(f) => setprop("persist.sys.azenith.default_cpu_gov"@, f),
        None => seq![],
    });
    assert(c =~= head + setgov_plan(g, cpus, strings_view(e.policy_governors@)) + setprop_if_unset(
        e.custom_powersave_cpu_gov@,
        "persist.sys.azenith.custom_powersave_cpu_gov"@,
        g,
    ));
    if 0 <= k < cpus.len() {
        assert(cpus[k] == e.cpu_governors@[k]@);
    }
}

/// Where the I/O scheduler part starts in the boot sequence.
pub open spec fn init_io_start(e: InitEnv) -> int {
    (as_steps(fixed_writes(kernel_defaults())).len() + mali_init_plan(e).len() + cpu_init_plan(e).len()) as int
}

/// At boot, when the first block scheduler file that exists can be read:
/// the scheduler it marks is recorded in `default_balanced_IO`; then the
/// scheduler written to the scheduler file of `sda`, `sdb`, `sdc`,
/// `mmcblk0` and `mmcblk1`, in that order, is the custom default when one
/// is set, the detected one otherwise; and that same scheduler is copied to
/// the custom powersave and performance properties that are unset.
pub proof fn law_boot_io(e: InitEnv, t: Seq<char>, j: int)
    requires
        first_present(e.io_blocks@) == Some(Some(t)),
        0 <= j < 5,
    ensures
        initialize_plan(e)[init_io_start(e)] == StepView::SetProp("persist.sys.azenith.default_balanced_IO"@, io_sched_of(t)),
        e.custom_default_balanced_io@.len() > 0 ==> initialize_plan(e)[init_io_start(e) + 1 + j] == StepView::Write(
            lw(e.custom_default_balanced_io@, io_schedulers()[j]),
        ),
        e.custom_default_balanced_io@.len() == 0 ==> initialize_plan(e)[init_io_start(e) + 1 + j] == StepView::Write(
            lw(io_sched_of(t), io_schedulers()[j]),
        ),
        e.custom_default_balanced_io@.len() > 0 && e.custom_powersave_io@.len() == 0 ==> initialize_plan(e)[init_io_start(e) + 6]
            == StepView::SetProp("persist.sys.azenith.custom_powersave_IO"@, e.custom_default_balanced_io@),
        e.custom_default_balanced_io@.len() == 0 && e.custom_powersave_io@.len() == 0 ==> initialize_plan(e)[init_io_start(e) + 6]
            == StepView::SetProp("persist.sys.azenith.custom_powersave_IO"@, io_sched_of(t)),
        initialize_plan(e).len() >= init_io_start(e) + 6,
{
    let g = custom_or(e.custom_default_balanced_io@, io_sched_of(t));
    crate::tune::lemma_each_at(io_schedulers(), g);
    let io = io_init_plan(e);
    assert(io[0] == StepView::SetProp("persist.sys.azenith.default_balanced_IO"@, io_sched_of(t)));
    assert(io[1 + j] == StepView::Write(lw(g, io_schedulers()[j])));
    if e.custom_powersave_io@.len() == 0 {
        assert(io[6] == StepView::SetProp("persist.sys.azenith.custom_powersave_IO"@, g));
    }
    assert(io.len() >= 6);
    let pre = as_steps(fixed_writes(kernel_defaults())) + mali_init_plan(e) + cpu_init_plan(e);
    assert(initialize_plan(e) == pre + io);
    assert(pre.len() == init_io_start(e));
}

proof fn lemma_last_in(a: Seq<StepView>, m: Seq<StepView>, b: Seq<StepView>, x: StepView)
    requires
        m.len() > 0,
        m.last() == x,
    ensures
        (a + m + b).contains(x),
{
    assert((a + m + b)[a.len() + m.len() - 1] == x);
}

/// At boot, each custom profile property that is unset gets the setting
/// boot applies: the custom powersave CPU governor the CPU governor written
/// to each CPU (the custom default, else the fallback, else the boot
/// governor); with a Mali governor file, the custom powersave and
/// performance Mali governors the Mali governor written to it; with a
/// readable scheduler file `t` first among the block devices, the custom
/// performance scheduler the scheduler written to each block device.
pub proof fn law_boot_copies(e: InitEnv)
    ensures
        ({
            let fb = fallback_of(trim(e.cpu0_governor@), e.custom_default_cpu_gov@, ostr(e.available_governors));
            let g = if e.custom_default_cpu_gov@.len() > 0 {
                e.custom_default_cpu_gov@
            } else if fb is Some {
                fb->0
            } else {
                trim(e.cpu0_governor@)
            };
            e.custom_powersave_cpu_gov@.len() == 0 ==> initialize_plan(e).contains(
                StepView::SetProp("persist.sys.azenith.custom_powersave_cpu_gov"@, g),
            )
        }),
        ({
            let m = if e.custom_default_gpumali_gov@.len() > 0 {
                e.custom_default_gpumali_gov@
            } else if e.mali_governor_text is Some {
                trim(e.mali_governor_text->0@)
            } else {
                seq![]
            };
            &&& e.mali_governor is Some && e.custom_powersave_gpumali_gov@.len() == 0 ==> initialize_plan(e).contains(
                StepView::SetProp("persist.sys.azenith.custom_powersave_gpumali_gov"@, m),
            )
            &&& e.mali_governor is Some && e.custom_performance_gpumali_gov@.len() == 0 ==> initialize_plan(
                e,
            ).contains(StepView::SetProp("persist.sys.azenith.custom_performance_gpumali_gov"@, m))
        }),
        forall|t: Seq<char>|
            first_present(e.io_blocks@) == Some(Some(t)) && e.custom_performance_io@.len() == 0 ==> initialize_plan(
                e,
            ).contains(
                StepView::SetProp(
                    "persist.sys.azenith.custom_performance_IO"@,
                    if e.custom_default_balanced_io@.len() > 0 {
                        e.custom_default_balanced_io@
                    } else {
                        #[trigger] io_sched_of(t)
                    },
                ),
            ),
{
    let pre = as_steps(fixed_writes(kernel_defaults()));
    let mp = mali_init_plan(e);
    let cp = cpu_init_plan(e);
    let ip = io_init_plan(e);
    assert(initialize_plan(e) == pre + mp + cp + ip);
    if e.custom_powersave_cpu_gov@.len() == 0 {
        lemma_last_in(pre + mp, cp, ip, cp.last());
    }
    if let Some(p) = e.mali_governor {
        let g = custom_or(e.custom_default_gpumali_gov@, detected_mali(e));
        let head = setprop("sys.azenith.maligovsupport"@, "1"@) + (match ostr(e.mali_governor_text) {
            Some(t) => setprop("persist.sys.azenith.default_gpumali_gov"@, trim(t)),
            None => seq![],
        }) + seq![StepView::Write(lw(g, p@))];
        let ps = setprop_if_unset(e.custom_powersave_gpumali_gov@, "persist.sys.azenith.custom_powersave_gpumali_gov"@, g);
        let pf = setprop_if_unset(
            e.custom_performance_gpumali_gov@,
            "persist.sys.azenith.custom_performance_gpumali_gov"@,
            g,
        );
        assert(mp =~= head + ps + pf);
        if e.custom_powersave_gpumali_gov@.len() == 0 {
            lemma_last_in(pre, head + ps, pf + cp + ip, ps[0]);
            assert(pre + (head + ps) + (pf + cp + ip) =~= pre + mp + cp + ip);
        }
        if e.custom_performance_gpumali_gov@.len() == 0 {
            lemma_last_in(pre, mp, cp + ip, pf[0]);
            assert(pre + mp + (cp + ip) =~= pre + mp + cp + ip);
        }
    }
    assert forall|t: Seq<char>|
        first_present(e.io_blocks@) == Some(Some(t)) && e.custom_performance_io@.len() == 0 implies initialize_plan(
            e,
        ).contains(
            StepView::SetProp(
                "persist.sys.azenith.custom_performance_IO"@,
                if e.custom_default_balanced_io@.len() > 0 {
                    e.custom_default_balanced_io@
                } else {
                    #[trigger] io_sched_of(t)
                },
            ),
        ) by {
        assert(ip.last() == StepView::SetProp(
            "persist.sys.azenith.custom_performance_IO"@,
            custom_or(e.custom_default_balanced_io@, io_sched_of(t)),
        ));
        lemma_last_in(pre + mp + cp, ip, seq![], ip.last());
        assert(pre + mp + cp + ip + Seq::<StepView>::empty() =~= pre + mp + cp + ip);
    }
}

/// The boot sequence up to the resolution probe.
pub open spec fn initialize_plan(e: InitEnv) -> Seq<StepView> {
    as_steps(fixed_writes(kernel_defaults())) + mali_init_plan(e) + cpu_init_plan(e) + io_init_plan(e)
}

/// The boot sequence up to the resolution probe: the kernel defaults, then
/// the Mali governor, the CPU governor and the I/O scheduler, each detected,
/// recorded in its default property, replaced by its custom property when
/// that is set, applied, and copied to the profiles' custom properties that
/// are unset.
pub fn initialize(e: &InitEnv) -> (res: Vec<Step>)
    ensures
        steps_view(res@) == initialize_plan(*e),
{
    let mut plan: Vec<Step> = Vec::new();
    push_kernel_defaults(&mut plan);
    push_mali_init(&mut plan, e);
    push_cpu_init(&mut plan, e);
    push_io_init(&mut plan, e);
    assert(steps_view(plan@) =~= initialize_plan(*e));
    plan
}

/// The property step of the resolution probe, as a value.
pub open spec fn resolution_step(resosettings: Seq<char>, wm_output: Option<Seq<char>>) -> Option<StepView> {
    if resosettings.len() > 0 {
        None
    } else {
        match wm_output {
            Some(o) => match crate::probe::first_resolution(crate::text::words(o)) {
                Some(w) => Some(StepView::SetProp("persist.sys.azenithconf.resosettings"@, w)),
                None => None,
            },
            None => None,
        }
    }
}

/// The property step of the resolution probe: the first resolution that
/// `wm size` printed, recorded when no resolution is recorded yet.
pub fn parse_resolution(resosettings: &str, wm_output: Option<&str>) -> (res: Option<Step>)
    ensures
        match res {
            Some(s) => resolution_step(resosettings@, crate::freq::opt_view(wm_output)) == Some(s@),
            None => resolution_step(resosettings@, crate::freq::opt_view(wm_output)) is None,
        },
{
    if !resosettings.is_empty() {
        return None;
    }
    match wm_output {
        Some(o) => match crate::probe::detect_resolution(o) {
            Some(w) => Some(Step::SetProp(crate::text::string_of(crate::text::chars_of("persist.sys.azenithconf.resosettings").as_slice()), w)),
            None => None,
        },
        None => None,
    }
}

/// What the optional boot tunes read.
pub struct BootTunes {
    /// The `persist.sys.azenithconf.justintime` property.
    pub justintime: String,
    /// The output of `cmd package list packages -3`, when it ran.
    pub package_listing: Option<String>,
    /// The `persist.sys.azenithconf.schedtunes` property.
    pub schedtunes: String,
    /// The `persist.sys.azenithconf.walttunes` property.
    pub walttunes: String,
    /// Each cpufreq policy.
    pub policies: Vec<TunePolicy>,
    /// The `persist.sys.azenithconf.fpsged` property.
    pub fpsged: String,
    /// The `persist.sys.azenithconf.malisched` property.
    pub malisched: String,
    /// The first `scheduling` directory of a Mali device under
    /// `/sys/devices/platform/soc`.
    pub mali_scheduling: Option<String>,
    /// The first Mali device under `/sys/devices/platform/soc`.
    pub mali_device: Option<String>,
}

/// The ahead-of-time compilation of each listed package.
pub open spec fn jit_plan(pkgs: Seq<Seq<char>>) -> Seq<StepView> {
    pkgs.map_values(|p: Seq<char>| StepView::Spawn(seq!["cmd"@, "package"@, "compile"@, "-m"@, "speed-profile"@, p]))
}

fn push_jit(plan: &mut Vec<Step>, listing: &str)
    ensures
        steps_view(final(plan)@) == steps_view(old(plan)@) + jit_plan(listed_packages(crate::text::lines(listing@))),
{
    let ghost before = steps_view(plan@);
    let pkgs = crate::probe::jit_packages(listing);
    let ghost pv = strings_view(pkgs@);
    let mut k: usize = 0;
    while k < pkgs.len()
        invariant
            k <= pkgs.len(),
            pv == strings_view(pkgs@),
            steps_view(plan@) == before + jit_plan(pv.take(k as int)),
        decreases pkgs.len() - k,
    {
        let a = crate::plan::args_of(&["cmd", "package", "compile", "-m", "speed-profile", pkgs[k].as_str()]);
        assert(strings_view(a@) =~= seq!["cmd"@, "package"@, "compile"@, "-m"@, "speed-profile"@, pv[k as int]]);
        push_step(plan, Step::Spawn(a));
        assert(jit_plan(pv.take(k + 1)) =~= jit_plan(pv.take(k as int)).push(
            StepView::Spawn(seq!["cmd"@, "package"@, "compile"@, "-m"@, "speed-profile"@, pv[k as int]]),
        ));
        k = k + 1;
    }
    assert(pv.take(pkgs.len() as int) == pv);
}

/// The FPSGO and GED parameters of MediaTek kernels.
pub open spec fn fpsgo_params() -> Seq<(Seq<char>, Seq<char>)> {
    seq![
        ("/sys/module/ged/parameters/ged_smart_boost"@, "1"@),
        ("/sys/module/ged/parameters/boost_upper_bound"@, "100"@),
        ("/sys/module/ged/parameters/enable_gpu_boost"@, "1"@),
        ("/sys/module/ged/parameters/enable_cpu_boost"@, "1"@),
        ("/sys/module/ged/parameters/ged_boost_enable"@, "1"@),
        ("/sys/module/ged/parameters/boost_gpu_enable"@, "1"@),
        ("/sys/module/ged/parameters/gpu_dvfs_enable"@, "1"@),
        ("/sys/module/ged/parameters/gx_frc_mode"@, "1"@),
        ("/sys/module/ged/parameters/gx_dfps"@, "1"@),
        ("/sys/module/ged/parameters/gx_force_cpu_boost"@, "1"@),
        ("/sys/module/ged/parameters/gx_boost_on"@, "1"@),
        ("/sys/module/ged/parameters/gx_game_mode"@, "1"@),
        ("/sys/module/ged/parameters/gx_3D_benchmark_on"@, "1"@),
        ("/sys/module/ged/parameters/gpu_loading"@, "0"@),
        ("/sys/module/ged/parameters/cpu_boost_policy"@, "1"@),
        ("/sys/module/ged/parameters/boost_extra"@, "1"@),
        ("/sys/module/ged/parameters/is_GED_KPI_enabled"@, "0"@),
        ("/sys/kernel/fpsgo/fbt/boost_ta"@, "0"@),
        ("/sys/kernel/fpsgo/fbt/enable_switch_down_throttle"@, "1"@),
        ("/sys/kernel/fpsgo/fstb/adopt_low_fps"@, "1"@),
        ("/sys/kernel/fpsgo/fstb/fstb_self_ctrl_fps_enable"@, "1"@),
        ("/sys/kernel/fpsgo/fstb/boost_ta"@, "0"@),
        ("/sys/kernel/fpsgo/fstb/enable_switch_sync_flag"@, "1"@),
        ("/sys/kernel/fpsgo/fbt/boost_VIP"@, "0"@),
        ("/sys/kernel/fpsgo/fstb/gpu_slowdown_check"@, "1"@),
        ("/sys/kernel/fpsgo/fbt/thrm_limit_cpu"@, "1"@),
        ("/sys/kernel/fpsgo/fbt/thrm_temp_th"@, "0"@),
        ("/sys/kernel/fpsgo/fbt/llf_task_policy"@, "0"@),
        ("/sys/module/mtk_fpsgo/parameters/uboost_enhance_f"@, "100"@),
        ("/sys/module/mtk_fpsgo/parameters/isolation_limit_cap"@, "0"@),
        ("/sys/pnpmgr/fpsgo_boost/boost_enable"@, "1"@),
        ("/sys/pnpmgr/fpsgo_boost/boost_mode"@, "1"@),
        ("/sys/pnpmgr/install"@, "1"@),
        ("/sys/kernel/ged/hal/gpu_boost_level"@, "100"@),
    ]
}

/// The FPSGO and GED parameters, locked.
pub fn fpsged_tunes() -> (res: Vec<SysWrite>)
    ensures
        writes_view(res@) == fixed_writes(fpsgo_params()),
{
    let mut ws: Vec<SysWrite> = Vec::new();
    let ps: &[(&str, &str)] = &[
            ("/sys/module/ged/parameters/ged_smart_boost", "1"),
            ("/sys/module/ged/parameters/boost_upper_bound", "100"),
            ("/sys/module/ged/parameters/enable_gpu_boost", "1"),
            ("/sys/module/ged/parameters/enable_cpu_boost", "1"),
            ("/sys/module/ged/parameters/ged_boost_enable", "1"),
            ("/sys/module/ged/parameters/boost_gpu_enable", "1"),
            ("/sys/module/ged/parameters/gpu_dvfs_enable", "1"),
            ("/sys/module/ged/parameters/gx_frc_mode", "1"),
            ("/sys/module/ged/parameters/gx_dfps", "1"),
            ("/sys/module/ged/parameters/gx_force_cpu_boost", "1"),
            ("/sys/module/ged/parameters/gx_boost_on", "1"),
            ("/sys/module/ged/parameters/gx_game_mode", "1"),
            ("/sys/module/ged/parameters/gx_3D_benchmark_on", "1"),
            ("/sys/module/ged/parameters/gpu_loading", "0"),
            ("/sys/module/ged/parameters/cpu_boost_policy", "1"),
            ("/sys/module/ged/parameters/boost_extra", "1"),
            ("/sys/module/ged/parameters/is_GED_KPI_enabled", "0"),
            ("/sys/kernel/fpsgo/fbt/boost_ta", "0"),
            ("/sys/kernel/fpsgo/fbt/enable_switch_down_throttle", "1"),
            ("/sys/kernel/fpsgo/fstb/adopt_low_fps", "1"),
            ("/sys/kernel/fpsgo/fstb/fstb_self_ctrl_fps_enable", "1"),
            ("/sys/kernel/fpsgo/fstb/boost_ta", "0"),
            ("/sys/kernel/fpsgo/fstb/enable_switch_sync_flag", "1"),
            ("/sys/kernel/fpsgo/fbt/boost_VIP", "0"),
            ("/sys/kernel/fpsgo/fstb/gpu_slowdown_check", "1"),
            ("/sys/kernel/fpsgo/fbt/thrm_limit_cpu", "1"),
            ("/sys/kernel/fpsgo/fbt/thrm_temp_th", "0"),
            ("/sys/kernel/fpsgo/fbt/llf_task_policy", "0"),
            ("/sys/module/mtk_fpsgo/parameters/uboost_enhance_f", "100"),
            ("/sys/module/mtk_fpsgo/parameters/isolation_limit_cap", "0"),
            ("/sys/pnpmgr/fpsgo_boost/boost_enable", "1"),
            ("/sys/pnpmgr/fpsgo_boost/boost_mode", "1"),
            ("/sys/pnpmgr/install", "1"),
            ("/sys/kernel/ged/hal/gpu_boost_level", "100"),
    ];
    push_fixed(&mut ws, ps);
    assert(pairs_view(ps@) =~= fpsgo_params());
    ws
}

/// The Mali scheduling writes: serialized jobs in the first scheduling
/// directory, the context scheduling mode on the first Mali device.
pub open spec fn mali_sched_plan(scheduling: Option<Seq<char>>, device: Option<Seq<char>>) -> Seq<WriteView> {
    (match scheduling {
        Some(d) => seq![lw("full"@, d + "/serialize_jobs"@)],
        None => seq![],
    }) + (match device {
        Some(m) => seq![lw("1"@, m + "/js_ctx_scheduling_mode"@)],
        None => seq![],
    })
}

/// The Mali scheduling writes.
pub fn mali_sched(scheduling: &Option<String>, device: &Option<String>) -> (res: Vec<SysWrite>)
    ensures
        writes_view(res@) == mali_sched_plan(ostr(*scheduling), ostr(*device)),
{
    let mut ws: Vec<SysWrite> = Vec::new();
    if let Some(d) = scheduling {
        push_locked_in(&mut ws, "full", d.as_str(), "/serialize_jobs");
    }
    let ghost w1 = writes_view(ws@);
    if let Some(m) = device {
        push_locked_in(&mut ws, "1", m.as_str(), "/js_ctx_scheduling_mode");
    }
    assert(writes_view(ws@) =~= mali_sched_plan(ostr(*scheduling), ostr(*device)));
    ws
}

/// Whether a switch property holds the number 1.
pub open spec fn switched_on(prop: Seq<char>) -> bool {
    prop_int(prop) == 1
}

/// The two boot tunes that follow the optional ones, as switched by their
/// properties: the SurfaceFlinger latency (`persist.sys.azenithconf.SFL`)
/// and turning the thermal throttling off
/// (`persist.sys.azenithconf.DThermal`), each on when its property holds 1.
pub fn init_switches(sfl: &str, dthermal: &str) -> (r: (bool, bool))
    ensures
        r.0 == switched_on(sfl@),
        r.1 == switched_on(dthermal@),
{
    (prop_int_exec(sfl) == 1, prop_int_exec(dthermal) == 1)
}

/// The optional boot tunes that come before the SurfaceFlinger latency.
pub open spec fn boot_tunes_plan(t: BootTunes) -> Seq<StepView> {
    (if switched_on(t.justintime@) && t.package_listing is Some {
        jit_plan(listed_packages(crate::text::lines(t.package_listing->0@)))
    } else {
        seq![]
    }) + (if switched_on(t.schedtunes@) {
        as_steps(schedtunes_plan(t.policies@))
    } else {
        seq![]
    }) + (if switched_on(t.walttunes@) {
        as_steps(walt_plan(t.policies@))
    } else {
        seq![]
    }) + (if switched_on(t.fpsged@) {
        as_steps(fixed_writes(fpsgo_params()))
    } else {
        seq![]
    }) + (if switched_on(t.malisched@) {
        as_steps(mali_sched_plan(ostr(t.mali_scheduling), ostr(t.mali_device)))
    } else {
        seq![]
    })
}

/// The optional boot tunes that come before the SurfaceFlinger latency, each
/// when its property holds 1: ahead-of-time compilation of the third-party
/// packages, the schedutil and schedhorizon tunes, the WALT tunes, the
/// FPSGO and GED parameters, and the Mali scheduling mode.
pub fn apply_init_logic(t: &BootTunes) -> (res: Vec<Step>)
    ensures
        steps_view(res@) == boot_tunes_plan(*t),
{
    let mut plan: Vec<Step> = Vec::new();
    let ghost b0 = steps_view(plan@);
    if prop_int_exec(t.justintime.as_str()) == 1 {
        if let Some(l) = &t.package_listing {
            push_jit(&mut plan, l.as_str());
        }
    }
    let ghost b1 = steps_view(plan@);
    if prop_int_exec(t.schedtunes.as_str()) == 1 {
        push_writes(&mut plan, schedtunes(t.policies.as_slice()));
    }
    let ghost b2 = steps_view(plan@);
    if prop_int_exec(t.walttunes.as_str()) == 1 {
        push_writes(&mut plan, walt_tunes(t.policies.as_slice()));
    }
    let ghost b3 = steps_view(plan@);
    if prop_int_exec(t.fpsged.as_str()) == 1 {
        push_writes(&mut plan, fpsged_tunes());
    }
    let ghost b4 = steps_view(plan@);
    if prop_int_exec(t.malisched.as_str()) == 1 {
        push_writes(&mut plan, mali_sched(&t.mali_scheduling, &t.mali_device));
    }
    assert(steps_view(plan@) =~= boot_tunes_plan(*t));
    plan
}

/// A `resetprop -n` command, as a value.
pub open spec fn resetprop(name: Seq<char>, value: Seq<char>) -> StepView {
    StepView::Run(seq!["resetprop"@, "-n"@, name, value])
}

/// The command that sets a property with `resetprop -n`.
pub fn resetprop_step(name: &str, value: &str) -> (res: Step)
    ensures
        res@ == resetprop(name@, value@),
{
    let a = crate::plan::args_of(&["resetprop", "-n", name, value]);
    assert(strings_view(a@) =~= seq!["resetprop"@, "-n"@, name@, value@]);
    Step::Run(a)
}

/// The fixed SurfaceFlinger and HWUI debug properties of the latency tune.
pub open spec fn sf_props() -> Seq<(Seq<char>, Seq<char>)> {
    seq![
        ("debug.sf.enable_advanced_sf_phase_offset"@, "1"@),
        ("debug.sf.predict_hwc_composition_strategy"@, "1"@),
        ("debug.sf.use_phase_offsets_as_durations"@, "1"@),
        ("debug.sf.disable_hwc_vds"@, "1"@),
        ("debug.sf.show_refresh_rate_overlay_spinner"@, "0"@),
        ("debug.sf.show_refresh_rate_overlay_render_rate"@, "0"@),
        ("debug.sf.show_refresh_rate_overlay_in_middle"@, "0"@),
        ("debug.sf.kernel_idle_timer_update_overlay"@, "0"@),
        ("debug.sf.dump.enable"@, "0"@),
        ("debug.sf.dump.external"@, "0"@),
        ("debug.sf.dump.primary"@, "0"@),
        ("debug.sf.treat_170m_as_sRGB"@, "0"@),
        ("debug.sf.luma_sampling"@, "0"@),
        ("debug.sf.showupdates"@, "0"@),
        ("debug.sf.disable_client_composition_cache"@, "0"@),
        ("debug.sf.treble_testing_override"@, "false"@),
        ("debug.sf.enable_layer_caching"@, "false"@),
        ("debug.sf.enable_cached_set_render_scheduling"@, "true"@),
        ("debug.sf.layer_history_trace"@, "false"@),
        ("debug.sf.edge_extension_shader"@, "false"@),
        ("debug.sf.enable_egl_image_tracker"@, "false"@),
        ("debug.sf.use_phase_offsets_as_durations"@, "false"@),
        ("debug.sf.layer_caching_highlight"@, "false"@),
        ("debug.sf.enable_hwc_vds"@, "false"@),
        ("debug.sf.vsp_trace"@, "false"@),
        ("debug.sf.enable_transaction_tracing"@, "false"@),
        ("debug.hwui.filter_test_overhead"@, "false"@),
        ("debug.hwui.show_layers_updates"@, "false"@),
        ("debug.hwui.capture_skp_enabled"@, "false"@),
        ("debug.hwui.trace_gpu_resources"@, "false"@),
        ("debug.hwui.skia_tracing_enabled"@, "false"@),
        ("debug.hwui.nv_profiling"@, "false"@),
        ("debug.hwui.skia_use_perfetto_track_events"@, "false"@),
        ("debug.hwui.show_dirty_regions"@, "false"@),
        ("debug.hwui.profile"@, "false"@),
        ("debug.hwui.overdraw"@, "false"@),
        ("debug.hwui.show_non_rect_clip"@, "hide"@),
        ("debug.hwui.webview_overlays_enabled"@, "false"@),
        ("debug.hwui.skip_empty_damage"@, "true"@),
        ("debug.hwui.use_gpu_pixel_buffers"@, "true"@),
        ("debug.hwui.use_buffer_age"@, "true"@),
        ("debug.hwui.use_partial_updates"@, "true"@),
        ("debug.hwui.skip_eglmanager_telemetry"@, "true"@),
        ("debug.hwui.level"@, "0"@),
    ]
}

/// The `resetprop` commands of each property, in order.
pub open spec fn resetprops(ps: Seq<(Seq<char>, Seq<char>)>) -> Seq<StepView> {
    ps.map_values(|p: (Seq<char>, Seq<char>)| resetprop(p.0, p.1))
}

/// The fixed SurfaceFlinger and HWUI debug properties of the latency tune,
/// set in order after its computed durations and offsets.
pub fn sf_debug_props() -> (res: Vec<Step>)
    ensures
        steps_view(res@) == resetprops(sf_props()),
{
    let ps: &[(&str, &str)] = &[
            ("debug.sf.enable_advanced_sf_phase_offset", "1"),
            ("debug.sf.predict_hwc_composition_strategy", "1"),
            ("debug.sf.use_phase_offsets_as_durations", "1"),
            ("debug.sf.disable_hwc_vds", "1"),
            ("debug.sf.show_refresh_rate_overlay_spinner", "0"),
            ("debug.sf.show_refresh_rate_overlay_render_rate", "0"),
            ("debug.sf.show_refresh_rate_overlay_in_middle", "0"),
            ("debug.sf.kernel_idle_timer_update_overlay", "0"),
            ("debug.sf.dump.enable", "0"),
            ("debug.sf.dump.external", "0"),
            ("debug.sf.dump.primary", "0"),
            ("debug.sf.treat_170m_as_sRGB", "0"),
            ("debug.sf.luma_sampling", "0"),
            ("debug.sf.showupdates", "0"),
            ("debug.sf.disable_client_composition_cache", "0"),
            ("debug.sf.treble_testing_override", "false"),
            ("debug.sf.enable_layer_caching", "false"),
            ("debug.sf.enable_cached_set_render_scheduling", "true"),
            ("debug.sf.layer_history_trace", "false"),
            ("debug.sf.edge_extension_shader", "false"),
            ("debug.sf.enable_egl_image_tracker", "false"),
            ("debug.sf.use_phase_offsets_as_durations", "false"),
            ("debug.sf.layer_caching_highlight", "false"),
            ("debug.sf.enable_hwc_vds", "false"),
            ("debug.sf.vsp_trace", "false"),
            ("debug.sf.enable_transaction_tracing", "false"),
            ("debug.hwui.filter_test_overhead", "false"),
            ("debug.hwui.show_layers_updates", "false"),
            ("debug.hwui.capture_skp_enabled", "false"),
            ("debug.hwui.trace_gpu_resources", "false"),
            ("debug.hwui.skia_tracing_enabled", "false"),
            ("debug.hwui.nv_profiling", "false"),
            ("debug.hwui.skia_use_perfetto_track_events", "false"),
            ("debug.hwui.show_dirty_regions", "false"),
            ("debug.hwui.profile", "false"),
            ("debug.hwui.overdraw", "false"),
            ("debug.hwui.show_non_rect_clip", "hide"),
            ("debug.hwui.webview_overlays_enabled", "false"),
            ("debug.hwui.skip_empty_damage", "true"),
            ("debug.hwui.use_gpu_pixel_buffers", "true"),
            ("debug.hwui.use_buffer_age", "true"),
            ("debug.hwui.use_partial_updates", "true"),
            ("debug.hwui.skip_eglmanager_telemetry", "true"),
            ("debug.hwui.level", "0"),
    ];
    let ghost pv = pairs_view(ps@);
    assert(pv =~= sf_props());
    let mut plan: Vec<Step> = Vec::new();
    let mut k: usize = 0;
    while k < ps.len()
        invariant
            k <= ps.len(),
            pv == pairs_view(ps@),
            steps_view(plan@) == resetprops(pv.take(k as int)),
        decreases ps.len() - k,
    {
        let (n, v) = ps[k];
        push_step(&mut plan, resetprop_step(n, v));
        assert(resetprops(pv.take(k + 1)) =~= resetprops(pv.take(k as int)).push(resetprop(n@, v@)));
        k = k + 1;
    }
    assert(pv.take(ps.len() as int) == pv);
    plan
}

/// The trace files cleared when tracing is disabled, and the trace options
/// turned off.
pub open spec fn trace_off() -> Seq<(Seq<char>, Seq<char>)> {
    seq![
        ("/sys/kernel/tracing/instances/mmstat/trace"@, ""@),
        ("/sys/kernel/tracing/trace"@, ""@),
        ("/sys/kernel/tracing/options/overwrite"@, "0"@),
        ("/sys/kernel/tracing/options/record-tgids"@, "0"@),
    ]
}

/// The logging services stopped or started at boot.
pub open spec fn loggers() -> Seq<Seq<char>> {
    seq![
        "logd"@, "traced"@, "statsd"@, "tcpdump"@, "cnss_diag"@, "subsystem_ramdump"@, "charge_logger"@,
        "wlan_logging"@,
    ]
}

/// The end of the boot sequence.
pub open spec fn init_tail_plan(disabletrace: Seq<char>, logd: Seq<char>, vsync: Seq<char>) -> Seq<StepView> {
    (if disabletrace == "1"@ { as_steps(fixed_writes(trace_off())) } else { seq![] }) + loggers().map_values(
        |l: Seq<char>| StepView::Run(seq![if logd == "1"@ { "stop"@ } else { "start"@ }, l]),
    ) + seq![
        StepView::Run(seq!["sys.azenith-utilityconf"@, "disablevsync"@, vsync]),
        StepView::Run(seq!["sys.azenith-utilityconf"@, "checkBypass"@]),
        StepView::Run(seq!["sync"@]),
    ]
}

/// The end of the boot sequence: tracing off when the trace property holds
/// `1`, the logging services stopped when the logd property holds `1` and
/// started otherwise, then the vsync setting, the bypass charging check and
/// a sync.
pub fn init_tail(disabletrace: &str, logd: &str, vsync: &str) -> (res: Vec<Step>)
    ensures
        steps_view(res@) == init_tail_plan(disabletrace@, logd@, vsync@),
{
    let mut plan: Vec<Step> = Vec::new();
    if str_eq(disabletrace, "1") {
        let mut ws: Vec<SysWrite> = Vec::new();
        let ps: &[(&str, &str)] = &[
            ("/sys/kernel/tracing/instances/mmstat/trace", ""),
            ("/sys/kernel/tracing/trace", ""),
            ("/sys/kernel/tracing/options/overwrite", "0"),
            ("/sys/kernel/tracing/options/record-tgids", "0"),
        ];
        push_fixed(&mut ws, ps);
        assert(pairs_view(ps@) =~= trace_off());
        push_writes(&mut plan, ws);
    }
    let ghost b1 = steps_view(plan@);
    let verb = if str_eq(logd, "1") { "stop" } else { "start" };
    let names = crate::plan::args_of(
        &["logd", "traced", "statsd", "tcpdump", "cnss_diag", "subsystem_ramdump", "charge_logger", "wlan_logging"],
    );
    assert(strings_view(names@) =~= loggers());
    let ghost lv = loggers();
    let ghost runs = lv.map_values(|l: Seq<char>| StepView::Run(seq![if logd@ == "1"@ { "stop"@ } else { "start"@ }, l]));
    let mut k: usize = 0;
    while k < names.len()
        invariant
            k <= names.len(),
            strings_view(names@) == lv,
            verb@ == (if logd@ == "1"@ { "stop"@ } else { "start"@ }),
            runs == lv.map_values(|l: Seq<char>| StepView::Run(seq![if logd@ == "1"@ { "stop"@ } else { "start"@ }, l])),
            steps_view(plan@) == b1 + runs.take(k as int),
        decreases names.len() - k,
    {
        let a = crate::plan::args_of(&[verb, names[k].as_str()]);
        assert(strings_view(a@) =~= seq![verb@, lv[k as int]]);
        push_step(&mut plan, Step::Run(a));
        assert(runs.take(k + 1) =~= runs.take(k as int).push(runs[k as int]));
        k = k + 1;
    }
    assert(runs.take(names.len() as int) == runs);
    let a1 = crate::plan::args_of(&["sys.azenith-utilityconf", "disablevsync", vsync]);
    let a2 = crate::plan::args_of(&["sys.azenith-utilityconf", "checkBypass"]);
    let a3 = crate::plan::args_of(&["sync"]);
    assert(strings_view(a1@) =~= seq!["sys.azenith-utilityconf"@, "disablevsync"@, vsync@]);
    assert(strings_view(a2@) =~= seq!["sys.azenith-utilityconf"@, "checkBypass"@]);
    assert(strings_view(a3@) =~= seq!["sync"@]);
    push_step(&mut plan, Step::Run(a1));
    push_step(&mut plan, Step::Run(a2));
    push_step(&mut plan, Step::Run(a3));
    assert(steps_view(plan@) =~= init_tail_plan(disabletrace@, logd@, vsync@));
    plan
}

/// With the five switches of the optional boot tunes off, those tunes plan
/// nothing; the two switches that remain are decided by `init_switches`
/// and `thermal_start`, which switch nothing on when their properties do not
/// hold 1.
pub proof fn law_boot_switches_off(t: BootTunes)
    requires
        !switched_on(t.justintime@),
        !switched_on(t.schedtunes@),
        !switched_on(t.walttunes@),
        !switched_on(t.fpsged@),
        !switched_on(t.malisched@),
    ensures
        boot_tunes_plan(t) == Seq::<StepView>::empty(),
{
    assert(boot_tunes_plan(t) =~= Seq::<StepView>::empty());
}

} // verus!
