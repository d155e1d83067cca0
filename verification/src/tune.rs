//! The tunables that the profiles share: CPU, GPU and I/O governors, the
//! performance monitor nodes, schedtune, core control, the battery saver and
//! the scheduler features.
use vstd::prelude::*;
use crate::cpufreq::{file_int, file_int_exec};
use crate::num::{is_digit, is_digit_exec};
use crate::plan::{
    as_steps, each_in, lw, push_each_in, push_locked, push_locked_in, push_step, push_writes, steps_view, writes_view,
    Step, StepView, SysWrite, WriteView,
};
use crate::text::{chars_of, ends_with, ends_with_chars, str_eq, strings_view};

verus! {

/// The locked writes of `value` to each of `paths`.
pub open spec fn each_at(paths: Seq<Seq<char>>, value: Seq<char>) -> Seq<WriteView> {
    each_in(paths, value, seq![])
}

/// The writes of `each_at` are one per path, in order, each the value to
/// its path.
pub proof fn lemma_each_at(paths: Seq<Seq<char>>, value: Seq<char>)
    ensures
        each_at(paths, value).len() == paths.len(),
        forall|j: int| 0 <= j < paths.len() ==> #[trigger] each_at(paths, value)[j] == lw(value, paths[j]),
{
    crate::plan::lemma_each_in(paths, value, seq![]);
    assert forall|j: int| 0 <= j < paths.len() implies #[trigger] each_at(paths, value)[j] == lw(value, paths[j]) by {
        assert(paths[j] + Seq::<char>::empty() =~= paths[j]);
    }
}

fn push_each_at(plan: &mut Vec<SysWrite>, paths: &[String], value: &str)
    ensures
        writes_view(final(plan)@) == writes_view(old(plan)@) + each_at(strings_view(paths@), value@),
{
    proof {
        reveal_strlit("");
        assert(""@ =~= Seq::<char>::empty());
    }
    push_each_in(plan, paths, value, "");
}

/// Steps that make each of `paths` read-only.
pub open spec fn locks(paths: Seq<Seq<char>>) -> Seq<StepView> {
    paths.map_values(|p: Seq<char>| StepView::Lock(p))
}

/// The CPU governor set by the utility: `gov` to each CPU's
/// `scaling_governor` file, locked.
pub fn setsgov(gov: &str, cpu_governors: &[String]) -> (res: Vec<SysWrite>)
    ensures
        writes_view(res@) == each_at(strings_view(cpu_governors@), gov@),
{
    let mut plan: Vec<SysWrite> = Vec::new();
    push_each_at(&mut plan, cpu_governors, gov);
    assert(writes_view(plan@) =~= each_at(strings_view(cpu_governors@), gov@));
    plan
}

/// The CPU governor set by a profile: `gov` to each CPU's
/// `scaling_governor` file, locked, then each policy's `scaling_governor`
/// made read-only.
pub open spec fn setgov_plan(gov: Seq<char>, cpu_governors: Seq<Seq<char>>, policy_governors: Seq<Seq<char>>) -> Seq<
    StepView,
> {
    as_steps(each_at(cpu_governors, gov)) + locks(policy_governors)
}

/// The CPU governor set by a profile.
pub fn setgov(gov: &str, cpu_governors: &[String], policy_governors: &[String]) -> (res: Vec<Step>)
    ensures
        steps_view(res@) == setgov_plan(gov@, strings_view(cpu_governors@), strings_view(policy_governors@)),
{
    let mut plan: Vec<Step> = Vec::new();
    push_writes(&mut plan, setsgov(gov, cpu_governors));
    let ghost p0 = steps_view(plan@);
    let mut l = lock_all(policy_governors);
    let ghost lv = steps_view(l@);
    plan.append(&mut l);
    assert(steps_view(plan@) =~= p0 + lv);
    plan
}

/// Steps that make each of `paths` read-only, in order.
pub fn lock_all(paths: &[String]) -> (res: Vec<Step>)
    ensures
        steps_view(res@) == locks(strings_view(paths@)),
{
    let mut plan: Vec<Step> = Vec::new();
    let ghost pv = strings_view(paths@);
    let mut k: usize = 0;
    while k < paths.len()
        invariant
            k <= paths.len(),
            pv == strings_view(paths@),
            steps_view(plan@) == locks(pv.take(k as int)),
        decreases paths.len() - k,
    {
        let p = crate::text::string_of(chars_of(paths[k].as_str()).as_slice());
        push_step(&mut plan, Step::Lock(p));
        assert(locks(pv.take(k + 1)) =~= locks(pv.take(k as int)).push(StepView::Lock(pv[k as int])));
        k = k + 1;
    }
    assert(pv.take(paths.len() as int) == pv);
    plan
}

/// Setting a profile's CPU governor writes it to each CPU's governor file,
/// in order, then makes each policy's governor file read-only, in order.
pub proof fn lemma_setgov(gov: Seq<char>, cpus: Seq<Seq<char>>, policies: Seq<Seq<char>>)
    ensures
        setgov_plan(gov, cpus, policies).len() == cpus.len() + policies.len(),
        forall|j: int| 0 <= j < cpus.len() ==> #[trigger] setgov_plan(gov, cpus, policies)[j] == StepView::Write(
            lw(gov, cpus[j]),
        ),
        forall|k: int| 0 <= k < policies.len() ==> #[trigger] setgov_plan(gov, cpus, policies)[cpus.len() + k]
            == StepView::Lock(policies[k]),
{
    lemma_each_at(cpus, gov);
}

/// The scheduler files of the block devices that the tuning sets, in order.
pub open spec fn io_schedulers() -> Seq<Seq<char>> {
    seq![
        "/sys/block/sda/queue/scheduler"@,
        "/sys/block/sdb/queue/scheduler"@,
        "/sys/block/sdc/queue/scheduler"@,
        "/sys/block/mmcblk0/queue/scheduler"@,
        "/sys/block/mmcblk1/queue/scheduler"@,
    ]
}

/// The I/O scheduler: `scheduler` to the scheduler file of each of the
/// block devices `sda`, `sdb`, `sdc`, `mmcblk0`, `mmcblk1` that exists,
/// locked.
pub fn sets_io(scheduler: &str) -> (res: Vec<SysWrite>)
    ensures
        writes_view(res@) == each_at(io_schedulers(), scheduler@),
{
    let mut plan: Vec<SysWrite> = Vec::new();
    push_locked(&mut plan, scheduler, "/sys/block/sda/queue/scheduler");
    push_locked(&mut plan, scheduler, "/sys/block/sdb/queue/scheduler");
    push_locked(&mut plan, scheduler, "/sys/block/sdc/queue/scheduler");
    push_locked(&mut plan, scheduler, "/sys/block/mmcblk0/queue/scheduler");
    push_locked(&mut plan, scheduler, "/sys/block/mmcblk1/queue/scheduler");
    proof {
        reveal_with_fuel(each_in, 6);
    }
    assert(writes_view(plan@) =~= each_at(io_schedulers(), scheduler@));
    plan
}

/// The Mali GPU governor: `gov` to each `devfreq/*.mali/governor` file of
/// each Mali device under `/sys/devices/platform/soc`, locked.
pub fn sets_gpu_mali(gov: &str, mali_governors: &[String]) -> (res: Vec<SysWrite>)
    ensures
        writes_view(res@) == each_at(strings_view(mali_governors@), gov@),
{
    let mut plan: Vec<SysWrite> = Vec::new();
    push_each_at(&mut plan, mali_governors, gov);
    assert(writes_view(plan@) =~= each_at(strings_view(mali_governors@), gov@));
    plan
}

/// A cpufreq policy by its name and the text of its `cpuinfo_max_freq`
/// (empty when it cannot be read).
pub struct Cluster {
    pub name: String,
    pub max_freq: String,
}

/// The highest maximum frequency among the clusters, starting from 0, and
/// the name of the first cluster that reaches it above 0 (empty when none
/// does).
pub open spec fn biggest_of(cs: Seq<Cluster>) -> (i64, Seq<char>)
    decreases cs.len(),
{
    if cs.len() == 0 {
        (0, seq![])
    } else {
        let (m, t) = biggest_of(cs.drop_last());
        let v = file_int(cs.last().max_freq@);
        if v > m { (v, cs.last().name@) } else { (m, t) }
    }
}

/// The name of the cluster with the highest maximum frequency: the first
/// one to reach it, empty when no cluster reports one above 0.
pub fn get_biggest_cluster(clusters: &[Cluster]) -> (res: String)
    ensures
        res@ == biggest_of(clusters@).1,
{
    let mut max_freq: i64 = 0;
    let mut target = String::new();
    let mut k: usize = 0;
    while k < clusters.len()
        invariant
            k <= clusters.len(),
            (max_freq, target@) == biggest_of(clusters@.take(k as int)),
        decreases clusters.len() - k,
    {
        assert(clusters@.take(k + 1).drop_last() == clusters@.take(k as int));
        let v = file_int_exec(clusters[k].max_freq.as_str());
        if v > max_freq {
            max_freq = v;
            target = crate::text::string_of(chars_of(clusters[k].name.as_str()).as_slice());
        }
        k = k + 1;
    }
    assert(clusters@.take(clusters.len() as int) == clusters@);
    target
}

/// The biggest cluster is chosen by the highest maximum frequency: no
/// cluster reports more, and the choice never starts below 0.
pub proof fn law_biggest_is_highest(cs: Seq<Cluster>, i: int)
    requires
        0 <= i < cs.len(),
    ensures
        file_int(cs[i].max_freq@) <= biggest_of(cs).0,
        biggest_of(cs).0 >= 0,
    decreases cs.len(),
{
    if i < cs.len() - 1 {
        law_biggest_is_highest(cs.drop_last(), i);
        assert(cs.drop_last()[i] == cs[i]);
    } else if cs.len() > 1 {
        law_biggest_is_highest(cs.drop_last(), 0);
    }
}

/// The biggest cluster's name is that of the first cluster whose maximum
/// frequency is the highest one, when that is above 0; it is empty when no
/// cluster reports a maximum frequency above 0.
pub proof fn law_biggest_named(cs: Seq<Cluster>)
    ensures
        biggest_of(cs).0 == 0 ==> biggest_of(cs).1 == Seq::<char>::empty(),
        biggest_of(cs).0 > 0 ==> exists|j: int|
            0 <= j < cs.len() && #[trigger] cs[j].name@ == biggest_of(cs).1 && file_int(cs[j].max_freq@) == biggest_of(
                cs,
            ).0 && forall|k: int| 0 <= k < j ==> file_int(#[trigger] cs[k].max_freq@) < biggest_of(cs).0,
    decreases cs.len(),
{
    if cs.len() > 0 {
        let p = cs.drop_last();
        law_biggest_named(p);
        if p.len() > 0 {
            law_biggest_is_highest(p, 0);
        }
        let (m, t) = biggest_of(p);
        let v = file_int(cs.last().max_freq@);
        if v > m {
            let j = cs.len() - 1;
            assert forall|k: int| 0 <= k < j implies file_int(#[trigger] cs[k].max_freq@) < biggest_of(cs).0 by {
                law_biggest_is_highest(p, k);
                assert(p[k] == cs[k]);
            }
            assert(cs[j].name@ == biggest_of(cs).1);
        } else if m > 0 {
            let j = choose|j: int|
                0 <= j < p.len() && #[trigger] p[j].name@ == t && file_int(p[j].max_freq@) == m && forall|k: int|
                    0 <= k < j ==> file_int(#[trigger] p[k].max_freq@) < m;
            assert(p[j] == cs[j]);
            assert forall|k: int| 0 <= k < j implies file_int(#[trigger] cs[k].max_freq@) < biggest_of(cs).0 by {
                assert(p[k] == cs[k]);
            }
            assert(cs[j].name@ == biggest_of(cs).1);
        }
    }
}

/// The write a performance monitor node gets in the performance profile:
/// `1` to each node whose name ends with `gpu_pmu_enable`,
/// `fuel_gauge_enable`, `enable` or `charger_enable`.
pub open spec fn perf_node_on(p: Seq<char>) -> Seq<WriteView> {
    if ends_with(p, "gpu_pmu_enable"@) || ends_with(p, "fuel_gauge_enable"@) || ends_with(p, "enable"@) || ends_with(
        p,
        "charger_enable"@,
    ) {
        seq![lw("1"@, p)]
    } else {
        seq![]
    }
}

/// The writes a performance monitor node gets in the balanced and eco
/// profiles: `0` to each node whose name ends with `gpu_pmu_enable`,
/// `fuel_gauge_enable` or `enable`, then `1` to each node whose name ends
/// with `charger_enable`.
pub open spec fn perf_node_off(p: Seq<char>) -> Seq<WriteView> {
    (if ends_with(p, "gpu_pmu_enable"@) || ends_with(p, "fuel_gauge_enable"@) || ends_with(p, "enable"@) {
        seq![lw("0"@, p)]
    } else {
        seq![]
    }) + (if ends_with(p, "charger_enable"@) {
        seq![lw("1"@, p)]
    } else {
        seq![]
    })
}

/// The writes of the performance monitor nodes, in order.
pub open spec fn perf_nodes_plan(ps: Seq<Seq<char>>, performance: bool) -> Seq<WriteView>
    decreases ps.len(),
{
    if ps.len() == 0 {
        seq![]
    } else {
        perf_nodes_plan(ps.drop_last(), performance) + if performance {
            perf_node_on(ps.last())
        } else {
            perf_node_off(ps.last())
        }
    }
}

fn ends_with_str(p: &[char], suffix: &str) -> (b: bool)
    ensures
        b == ends_with(p@, suffix@),
{
    ends_with_chars(p, chars_of(suffix).as_slice())
}

fn push_perf_node(plan: &mut Vec<SysWrite>, path: &str, performance: bool)
    ensures
        writes_view(final(plan)@) == writes_view(old(plan)@) + if performance {
            perf_node_on(path@)
        } else {
            perf_node_off(path@)
        },
{
    let ghost before = writes_view(plan@);
    let p = chars_of(path);
    let pmu = ends_with_str(p.as_slice(), "gpu_pmu_enable");
    let fuel = ends_with_str(p.as_slice(), "fuel_gauge_enable");
    let en = ends_with_str(p.as_slice(), "enable");
    let chg = ends_with_str(p.as_slice(), "charger_enable");
    if performance {
        if pmu || fuel || en || chg {
            push_locked(plan, "1", path);
        }
    } else {
        if pmu || fuel || en {
            push_locked(plan, "0", path);
        }
        if chg {
            push_locked(plan, "1", path);
        }
    }
    assert(writes_view(plan@) =~= before + if performance {
        perf_node_on(path@)
    } else {
        perf_node_off(path@)
    });
}

/// The performance monitor nodes (`/sys/devices/system/cpu/perf/*`): each
/// node ending with `enable` switched on in the performance profile; in the
/// others, switched off, and the charger nodes switched back on.
pub fn perf_nodes(nodes: &[String], performance: bool) -> (res: Vec<SysWrite>)
    ensures
        writes_view(res@) == perf_nodes_plan(strings_view(nodes@), performance),
{
    let mut plan: Vec<SysWrite> = Vec::new();
    let ghost nv = strings_view(nodes@);
    let mut k: usize = 0;
    while k < nodes.len()
        invariant
            k <= nodes.len(),
            nv == strings_view(nodes@),
            writes_view(plan@) == perf_nodes_plan(nv.take(k as int), performance),
        decreases nodes.len() - k,
    {
        push_perf_node(&mut plan, nodes[k].as_str(), performance);
        assert(nv.take(k + 1).drop_last() == nv.take(k as int));
        assert(nv[k as int] == nodes@[k as int]@);
        k = k + 1;
    }
    assert(nv.take(nodes.len() as int) == nv);
    plan
}

/// The schedtune writes of one group.
pub open spec fn stune_group(dir: Seq<char>, is_performance: bool) -> Seq<WriteView> {
    seq![
        lw(if is_performance { "30"@ } else { "0"@ }, dir + "/schedtune.boost"@),
        lw(if is_performance { "1"@ } else { "0"@ }, dir + "/schedtune.sched_boost_enabled"@),
        lw("0"@, dir + "/schedtune.prefer_idle"@),
        lw("0"@, dir + "/schedtune.colocate"@),
    ]
}

/// The schedtune writes of each group, in order.
pub open spec fn stune_plan(dirs: Seq<Seq<char>>, is_performance: bool) -> Seq<WriteView>
    decreases dirs.len(),
{
    if dirs.len() == 0 {
        seq![]
    } else {
        stune_plan(dirs.drop_last(), is_performance) + stune_group(dirs.last(), is_performance)
    }
}

fn push_stune_group(plan: &mut Vec<SysWrite>, dir: &str, is_performance: bool)
    ensures
        writes_view(final(plan)@) == writes_view(old(plan)@) + stune_group(dir@, is_performance),
{
    let ghost before = writes_view(plan@);
    if is_performance {
        push_locked_in(plan, "30", dir, "/schedtune.boost");
        push_locked_in(plan, "1", dir, "/schedtune.sched_boost_enabled");
    } else {
        push_locked_in(plan, "0", dir, "/schedtune.boost");
        push_locked_in(plan, "0", dir, "/schedtune.sched_boost_enabled");
    }
    push_locked_in(plan, "0", dir, "/schedtune.prefer_idle");
    push_locked_in(plan, "0", dir, "/schedtune.colocate");
    assert(writes_view(plan@) =~= before + stune_group(dir@, is_performance));
}

/// Schedtune for each group under `/dev/stune`: boosted in the performance
/// profile, unboosted in the balanced and eco profiles alike.
pub fn apply_stune_boost(groups: &[String], is_performance: bool, is_eco: bool) -> (res: Vec<SysWrite>)
    ensures
        writes_view(res@) == stune_plan(strings_view(groups@), is_performance),
{
    let mut plan: Vec<SysWrite> = Vec::new();
    let ghost gv = strings_view(groups@);
    let mut k: usize = 0;
    while k < groups.len()
        invariant
            k <= groups.len(),
            gv == strings_view(groups@),
            writes_view(plan@) == stune_plan(gv.take(k as int), is_performance),
        decreases groups.len() - k,
    {
        push_stune_group(&mut plan, groups[k].as_str(), is_performance);
        assert(gv.take(k + 1).drop_last() == gv.take(k as int));
        assert(gv[k as int] == groups@[k as int]@);
        k = k + 1;
    }
    assert(gv.take(groups.len() as int) == gv);
    plan
}

/// The core control writes of each CPU directory, in order: core control
/// off, then its boost.
pub open spec fn core_ctl_plan(cpus: Seq<Seq<char>>, boost: Seq<char>) -> Seq<WriteView>
    decreases cpus.len(),
{
    if cpus.len() == 0 {
        seq![]
    } else {
        core_ctl_plan(cpus.drop_last(), boost) + seq![
            lw("0"@, cpus.last() + "/core_ctl/enable"@),
            lw(boost, cpus.last() + "/core_ctl/core_ctl_boost"@),
        ]
    }
}

/// Core control off on each CPU directory, with `boost` as its boost.
pub fn apply_core_ctl(cpus: &[String], boost: &str) -> (res: Vec<SysWrite>)
    ensures
        writes_view(res@) == core_ctl_plan(strings_view(cpus@), boost@),
{
    let mut plan: Vec<SysWrite> = Vec::new();
    let ghost cv = strings_view(cpus@);
    let mut k: usize = 0;
    while k < cpus.len()
        invariant
            k <= cpus.len(),
            cv == strings_view(cpus@),
            writes_view(plan@) == core_ctl_plan(cv.take(k as int), boost@),
        decreases cpus.len() - k,
    {
        let ghost p0 = writes_view(plan@);
        push_locked_in(&mut plan, "0", cpus[k].as_str(), "/core_ctl/enable");
        push_locked_in(&mut plan, boost, cpus[k].as_str(), "/core_ctl/core_ctl_boost");
        assert(cv.take(k + 1).drop_last() == cv.take(k as int));
        assert(cv[k as int] == cpus@[k as int]@);
        assert(writes_view(plan@) =~= p0 + seq![
            lw("0"@, cv[k as int] + "/core_ctl/enable"@),
            lw(boost@, cv[k as int] + "/core_ctl/core_ctl_boost"@),
        ]);
        k = k + 1;
    }
    assert(cv.take(cpus.len() as int) == cv);
    plan
}

/// Whether a battery saver request turns it on.
pub open spec fn saver_on(enabled: Seq<char>) -> bool {
    enabled == "Y"@ || enabled == "1"@
}

/// The value the battery saver parameter takes: `1` or `0` when its current
/// text holds a digit, else `Y` or `N`.
pub open spec fn saver_value(enabled: Seq<char>, current: Seq<char>) -> Seq<char> {
    if exists|i: int| 0 <= i < current.len() && is_digit(#[trigger] current[i]) {
        if saver_on(enabled) { "1"@ } else { "0"@ }
    } else {
        if saver_on(enabled) { "Y"@ } else { "N"@ }
    }
}

/// The battery saver writes: none when its parameter does not exist or
/// cannot be read.
pub open spec fn battery_saver_plan(enabled: Seq<char>, current: Option<Seq<char>>) -> Seq<WriteView> {
    match current {
        Some(c) => seq![lw(saver_value(enabled, c), "/sys/module/battery_saver/parameters/enabled"@)],
        None => seq![],
    }
}

fn has_digit(s: &[char]) -> (b: bool)
    ensures
        b == exists|i: int| 0 <= i < s@.len() && is_digit(#[trigger] s@[i]),
{
    let mut k: usize = 0;
    while k < s.len()
        invariant
            k <= s.len(),
            forall|i: int| 0 <= i < k ==> !is_digit(#[trigger] s@[i]),
        decreases s.len() - k,
    {
        if is_digit_exec(s[k]) {
            return true;
        }
        k = k + 1;
    }
    false
}

/// The battery saver, `current` being the text of its parameter when it
/// exists and can be read: on when `enabled` is `Y` or `1`, written in the
/// form (digit or letter) that the parameter already uses.
pub fn apply_battery_saver(enabled: &str, current: Option<&str>) -> (res: Vec<SysWrite>)
    ensures
        writes_view(res@) == battery_saver_plan(enabled@, crate::freq::opt_view(current)),
{
    let mut plan: Vec<SysWrite> = Vec::new();
    if let Some(c) = current {
        let on = str_eq(enabled, "Y") || str_eq(enabled, "1");
        let digits = has_digit(chars_of(c).as_slice());
        let v = if digits {
            if on { "1" } else { "0" }
        } else {
            if on { "Y" } else { "N" }
        };
        push_locked(&mut plan, v, "/sys/module/battery_saver/parameters/enabled");
    }
    assert(writes_view(plan@) =~= battery_saver_plan(enabled@, crate::freq::opt_view(current)));
    plan
}

/// The writes of each feature to the scheduler features file, in order.
pub open spec fn features_plan(features: Seq<Seq<char>>) -> Seq<WriteView>
    decreases features.len(),
{
    if features.len() == 0 {
        seq![]
    } else {
        features_plan(features.drop_last()).push(lw(features.last(), "/sys/kernel/debug/sched_features"@))
    }
}

/// The scheduler features, each written in turn to
/// `/sys/kernel/debug/sched_features` when that file is `present`.
pub fn apply_sched_features(present: bool, features: &[&str]) -> (res: Vec<SysWrite>)
    ensures
        writes_view(res@) == (if present { features_plan(features@.map_values(|f: &str| f@)) } else { seq![] }),
{
    let mut plan: Vec<SysWrite> = Vec::new();
    if present {
        let ghost fv = features@.map_values(|f: &str| f@);
        let mut k: usize = 0;
        while k < features.len()
            invariant
                k <= features.len(),
                fv == features@.map_values(|f: &str| f@),
                writes_view(plan@) == features_plan(fv.take(k as int)),
            decreases features.len() - k,
        {
            push_locked(&mut plan, features[k], "/sys/kernel/debug/sched_features");
            assert(fv.take(k + 1).drop_last() == fv.take(k as int));
            k = k + 1;
        }
        assert(fv.take(features.len() as int) == fv);
    }
    plan
}

/// Whether the debug mode property turns verbose logging on.
pub fn debugmode(prop: &str) -> (b: bool)
    ensures
        b == (prop@ == "true"@),
{
    str_eq(prop, "true")
}

/// The renderer a `setrender` request names, as the value of
/// `debug.hwui.renderer`: `skiavk` for `vulkan`, `skiagl` for `skiagl`,
/// none for anything else.
pub open spec fn renderer_of(renderer: Seq<char>) -> Option<Seq<char>> {
    if renderer == "vulkan"@ {
        Some("skiavk"@)
    } else if renderer == "skiagl"@ {
        Some("skiagl"@)
    } else {
        None
    }
}

/// The property step of a `setrender` request, if it names a renderer.
pub fn setrender(renderer: &str) -> (res: Option<Step>)
    ensures
        match renderer_of(renderer@) {
            Some(v) => res is Some && res->0@ == StepView::SetProp("debug.hwui.renderer"@, v),
            None => res is None,
        },
{
    let name = crate::text::string_of(chars_of("debug.hwui.renderer").as_slice());
    if str_eq(renderer, "vulkan") {
        Some(Step::SetProp(name, crate::text::string_of(chars_of("skiavk").as_slice())))
    } else if str_eq(renderer, "skiagl") {
        Some(Step::SetProp(name, crate::text::string_of(chars_of("skiagl").as_slice())))
    } else {
        None
    }
}

/// The commands of a `setrefreshrates` request: the peak refresh rate, then
/// the minimum refresh rate with `.0` appended.
pub fn setrefreshrates(rate: &str) -> (res: Vec<Step>)
    ensures
        steps_view(res@) == seq![
            StepView::Run(seq!["settings"@, "put"@, "system"@, "peak_refresh_rate"@, rate@]),
            StepView::Run(seq!["settings"@, "put"@, "system"@, "min_refresh_rate"@, rate@ + ".0"@]),
        ],
{
    let min_rate = crate::text::concat_str(rate, ".0");
    let peak = crate::plan::args_of(&["settings", "put", "system", "peak_refresh_rate", rate]);
    let low = crate::plan::args_of(&["settings", "put", "system", "min_refresh_rate", min_rate.as_str()]);
    assert(strings_view(peak@) =~= seq!["settings"@, "put"@, "system"@, "peak_refresh_rate"@, rate@]);
    assert(strings_view(low@) =~= seq!["settings"@, "put"@, "system"@, "min_refresh_rate"@, rate@ + ".0"@]);
    let mut plan: Vec<Step> = Vec::new();
    push_step(&mut plan, Step::Run(peak));
    push_step(&mut plan, Step::Run(low));
    assert(steps_view(plan@) =~= seq![
        StepView::Run(seq!["settings"@, "put"@, "system"@, "peak_refresh_rate"@, rate@]),
        StepView::Run(seq!["settings"@, "put"@, "system"@, "min_refresh_rate"@, rate@ + ".0"@]),
    ]);
    plan
}

/// The command of a `setthermalcore` request: the thermal core service
/// started for `1`, killed for anything else.
pub fn setthermalcore(state: &str) -> (res: Step)
    ensures
        res@ == if state@ == "1"@ {
            StepView::Spawn(seq!["sys.azenith-rianixiathermalcore"@])
        } else {
            StepView::Run(seq!["pkill"@, "-9"@, "-f"@, "sys.azenith-rianixiathermalcore"@])
        },
{
    if str_eq(state, "1") {
        let a = crate::plan::args_of(&["sys.azenith-rianixiathermalcore"]);
        assert(strings_view(a@) =~= seq!["sys.azenith-rianixiathermalcore"@]);
        Step::Spawn(a)
    } else {
        let a = crate::plan::args_of(&["pkill", "-9", "-f", "sys.azenith-rianixiathermalcore"]);
        assert(strings_view(a@) =~= seq!["pkill"@, "-9"@, "-f"@, "sys.azenith-rianixiathermalcore"@]);
        Step::Run(a)
    }
}

/// The mounts that the trim request tries, in order, when the trim property
/// holds `1`.
pub open spec fn trim_mounts() -> Seq<Seq<char>> {
    seq!["/system"@, "/vendor"@, "/data"@, "/cache"@, "/metadata"@, "/odm"@, "/system_ext"@, "/product"@]
}

/// The mounts to trim: all of them when the trim property holds `1`, none
/// otherwise.
pub fn fstrim_func(fstrim: &str) -> (res: Vec<String>)
    ensures
        strings_view(res@) == if fstrim@ == "1"@ { trim_mounts() } else { seq![] },
{
    if str_eq(fstrim, "1") {
        crate::plan::args_of(&["/system", "/vendor", "/data", "/cache", "/metadata", "/odm", "/system_ext", "/product"])
    } else {
        Vec::new()
    }
}

/// The trim of one mount, once it is known whether it is mounted.
pub fn trim_step(mount: &str, mounted: bool) -> (res: Option<Step>)
    ensures
        mounted ==> res is Some && res->0@ == StepView::Run(seq!["fstrim"@, "-v"@, mount@]),
        !mounted ==> res is None,
{
    if mounted {
        let a = crate::plan::args_of(&["fstrim", "-v", mount]);
        assert(strings_view(a@) =~= seq!["fstrim"@, "-v"@, mount@]);
        Some(Step::Run(a))
    } else {
        None
    }
}

/// The command that turns Do Not Disturb to priority.
pub fn enable_dnd() -> (res: Step)
    ensures
        res@ == StepView::Run(seq!["cmd"@, "notification"@, "set_dnd"@, "priority"@]),
{
    let a = crate::plan::args_of(&["cmd", "notification", "set_dnd", "priority"]);
    assert(strings_view(a@) =~= seq!["cmd"@, "notification"@, "set_dnd"@, "priority"@]);
    Step::Run(a)
}

/// The command that turns Do Not Disturb off.
pub fn disable_dnd() -> (res: Step)
    ensures
        res@ == StepView::Run(seq!["cmd"@, "notification"@, "set_dnd"@, "off"@]),
{
    let a = crate::plan::args_of(&["cmd", "notification", "set_dnd", "off"]);
    assert(strings_view(a@) =~= seq!["cmd"@, "notification"@, "set_dnd"@, "off"@]);
    Step::Run(a)
}

} // verus!
