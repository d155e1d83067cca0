//! Turning the thermal throttling off at boot: the thermal services, their
//! properties and processes, the thermal zones, and the vendor power limits.
use vstd::prelude::*;
use crate::boot::{resetprop, resetprop_step};
use crate::plan::{as_steps, lw, push_step, push_writes, steps_view, Step, StepView, SysWrite};
use crate::scan::{bracket_chars, bracket_of, ppm_lines_plan, ppm_policy_writes};
use crate::soc::{gpu_limit_writes, ostr};
use crate::text::{
    chars_of, contains, contains_chars, lines, lines_of, starts_with, starts_with_chars, string_of, strings_view, views,
    words, words_of,
};
use crate::tune::{each_at, sets_gpu_mali};

verus! {

/// What `str::to_lowercase` returns for a text: its Unicode lowercase
/// mapping, which this library does not spell out.
pub uninterp spec fn lowercase(s: Seq<char>) -> Seq<char>;

/// `str::to_lowercase`: the text with each character mapped to lowercase.
/// Claimed: the result is `lowercase` of the text, a function of the text
/// alone; nothing more is stated of it.
#[verifier::external_body]
fn to_lower(s: &str) -> (r: String)
    ensures
        r@ == lowercase(s@),
{
    s.to_lowercase()
}

/// The service a line of an init file declares, when the line starts with
/// `service`, its lowercase form `lowered` mentions `thermal`, and it has a
/// second word (the service's name).
pub open spec fn service_name(line: Seq<char>, lowered: Seq<char>) -> Option<Seq<char>> {
    if starts_with(line, "service"@) && contains(lowered, "thermal"@) && words(line).len() > 1 {
        Some(words(line)[1])
    } else {
        None
    }
}

fn second_word(line: &[char]) -> (r: Option<String>)
    ensures
        match r {
            Some(w) => words(line@).len() > 1 && w@ == words(line@)[1],
            None => words(line@).len() <= 1,
        },
{
    let ws = words_of(line);
    if ws.len() > 1 {
        assert(views(ws@)[1] == ws@[1]@);
        Some(string_of(ws[1].as_slice()))
    } else {
        None
    }
}

/// The thermal service a line of an init file declares, given the line's
/// lowercase form.
pub fn thermal_service_in(line: &str, lowered: &str) -> (r: Option<String>)
    ensures
        match r {
            Some(s) => service_name(line@, lowered@) == Some(s@),
            None => service_name(line@, lowered@) is None,
        },
{
    let l = chars_of(line);
    if starts_with_chars(l.as_slice(), chars_of("service").as_slice()) && contains_chars(
        chars_of(lowered).as_slice(),
        chars_of("thermal").as_slice(),
    ) {
        second_word(l.as_slice())
    } else {
        None
    }
}

/// The thermal service a line of an init file declares.
pub fn thermal_service(line: &str) -> (r: Option<String>)
    ensures
        match r {
            Some(s) => service_name(line@, lowercase(line@)) == Some(s@),
            None => service_name(line@, lowercase(line@)) is None,
        },
{
    let low = to_lower(line);
    thermal_service_in(line, low.as_str())
}

/// The property a line of `getprop` names in brackets, when the line's
/// lowercase form `lowered` mentions `thermal`.
pub open spec fn prop_name(line: Seq<char>, lowered: Seq<char>) -> Option<Seq<char>> {
    if contains(lowered, "thermal"@) { bracket_of(line) } else { None }
}

/// The thermal property a line of `getprop` names, given the line's
/// lowercase form.
pub fn thermal_prop_in(line: &str, lowered: &str) -> (r: Option<String>)
    ensures
        match r {
            Some(s) => prop_name(line@, lowered@) == Some(s@),
            None => prop_name(line@, lowered@) is None,
        },
{
    if contains_chars(chars_of(lowered).as_slice(), chars_of("thermal").as_slice()) {
        match bracket_chars(chars_of(line).as_slice()) {
            Some(v) => Some(string_of(v.as_slice())),
            None => None,
        }
    } else {
        None
    }
}

/// The thermal property a line of `getprop` names.
pub fn thermal_prop(line: &str) -> (r: Option<String>)
    ensures
        match r {
            Some(s) => prop_name(line@, lowercase(line@)) == Some(s@),
            None => prop_name(line@, lowercase(line@)) is None,
        },
{
    let low = to_lower(line);
    thermal_prop_in(line, low.as_str())
}

/// The process id a line of `ps -A` gives (its second word), when the
/// line's lowercase form `lowered` names a thermal daemon.
pub open spec fn pid_of(line: Seq<char>, lowered: Seq<char>) -> Option<Seq<char>> {
    if (contains(lowered, "thermal-engine"@) || contains(lowered, "thermald"@) || contains(lowered, "mtk_thermal"@))
        && words(line).len() > 1 {
        Some(words(line)[1])
    } else {
        None
    }
}

/// The thermal daemon a line of `ps -A` gives, given the line's lowercase
/// form.
pub fn thermal_pid_in(line: &str, lowered: &str) -> (r: Option<String>)
    ensures
        match r {
            Some(s) => pid_of(line@, lowered@) == Some(s@),
            None => pid_of(line@, lowered@) is None,
        },
{
    let low = chars_of(lowered);
    if contains_chars(low.as_slice(), chars_of("thermal-engine").as_slice()) || contains_chars(
        low.as_slice(),
        chars_of("thermald").as_slice(),
    ) || contains_chars(low.as_slice(), chars_of("mtk_thermal").as_slice()) {
        second_word(chars_of(line).as_slice())
    } else {
        None
    }
}

/// The thermal daemon a line of `ps -A` gives.
pub fn thermal_pid(line: &str) -> (r: Option<String>)
    ensures
        match r {
            Some(s) => pid_of(line@, lowercase(line@)) == Some(s@),
            None => pid_of(line@, lowercase(line@)) is None,
        },
{
    let low = to_lower(line);
    thermal_pid_in(line, low.as_str())
}

/// Which rule picks a value out of a line.
#[derive(Clone, Copy, Debug, PartialEq, Eq, Structural)]
pub enum Pickup {
    Service,
    Prop,
    Pid,
}

/// The value a rule picks out of a line.
pub open spec fn picked(k: Pickup, line: Seq<char>) -> Option<Seq<char>> {
    match k {
        Pickup::Service => service_name(line, lowercase(line)),
        Pickup::Prop => prop_name(line, lowercase(line)),
        Pickup::Pid => pid_of(line, lowercase(line)),
    }
}

/// The values a rule picks out of lines, in order.
pub open spec fn picked_all(k: Pickup, ls: Seq<Seq<char>>) -> Seq<Seq<char>>
    decreases ls.len(),
{
    if ls.len() == 0 {
        seq![]
    } else {
        picked_all(k, ls.drop_last()) + match picked(k, ls.last()) {
            Some(v) => seq![v],
            None => seq![],
        }
    }
}

fn pick_line(k: Pickup, line: &str) -> (r: Option<String>)
    ensures
        match r {
            Some(v) => picked(k, line@) == Some(v@),
            None => picked(k, line@) is None,
        },
{
    match k {
        Pickup::Service => thermal_service(line),
        Pickup::Prop => thermal_prop(line),
        Pickup::Pid => thermal_pid(line),
    }
}

fn pick_lines(out: &mut Vec<String>, k: Pickup, text: &str)
    ensures
        strings_view(final(out)@) == strings_view(old(out)@) + picked_all(k, lines(text@)),
{
    let ghost before = strings_view(out@);
    let ls = lines_of(chars_of(text).as_slice());
    let ghost lv = views(ls@);
    let mut i: usize = 0;
    while i < ls.len()
        invariant
            i <= ls.len(),
            lv == views(ls@),
            lv == lines(text@),
            strings_view(out@) == before + picked_all(k, lv.take(i as int)),
        decreases ls.len() - i,
    {
        let ghost o0 = strings_view(out@);
        let line = string_of(ls[i].as_slice());
        assert(line@ == lv[i as int]);
        assert(lv.take(i + 1).drop_last() == lv.take(i as int));
        match pick_line(k, line.as_str()) {
            Some(v) => {
                out.push(v);
                assert(strings_view(out@) =~= o0.push(out@[out@.len() - 1]@));
            },
            None => {},
        }
        assert(strings_view(out@) =~= before + picked_all(k, lv.take(i + 1)));
        i = i + 1;
    }
    assert(lv.take(ls.len() as int) == lv);
}

/// The thermal services that the init files declare, file after file.
pub open spec fn services_in(files: Seq<Seq<char>>) -> Seq<Seq<char>>
    decreases files.len(),
{
    if files.len() == 0 {
        seq![]
    } else {
        services_in(files.drop_last()) + picked_all(Pickup::Service, lines(files.last()))
    }
}

/// The thermal services that the init files declare, file after file.
pub fn thermal_services(files: &[String]) -> (res: Vec<String>)
    ensures
        strings_view(res@) == services_in(strings_view(files@)),
{
    let ghost fv = strings_view(files@);
    let mut out: Vec<String> = Vec::new();
    let mut i: usize = 0;
    while i < files.len()
        invariant
            i <= files.len(),
            fv == strings_view(files@),
            strings_view(out@) == services_in(fv.take(i as int)),
        decreases files.len() - i,
    {
        pick_lines(&mut out, Pickup::Service, files[i].as_str());
        assert(fv.take(i + 1).drop_last() == fv.take(i as int));
        assert(fv[i as int] == files@[i as int]@);
        i = i + 1;
    }
    assert(fv.take(files.len() as int) == fv);
    out
}

/// The thermal properties that `getprop` lists, in order.
pub fn thermal_props(getprop_output: &str) -> (res: Vec<String>)
    ensures
        strings_view(res@) == picked_all(Pickup::Prop, lines(getprop_output@)),
{
    let mut out: Vec<String> = Vec::new();
    pick_lines(&mut out, Pickup::Prop, getprop_output);
    assert(strings_view(out@) =~= picked_all(Pickup::Prop, lines(getprop_output@)));
    out
}

/// The process ids of the thermal daemons that `ps -A` lists, in order.
pub fn thermal_pids(ps_output: &str) -> (res: Vec<String>)
    ensures
        strings_view(res@) == picked_all(Pickup::Pid, lines(ps_output@)),
{
    let mut out: Vec<String> = Vec::new();
    pick_lines(&mut out, Pickup::Pid, ps_output);
    assert(strings_view(out@) =~= picked_all(Pickup::Pid, lines(ps_output@)));
    out
}

/// What turning the thermal throttling off reads of the thermal zones and
/// the vendor limits, once the daemons are dealt with.
pub struct ThermalZones {
    /// The `mode` file of each thermal zone.
    pub zone_modes: Vec<String>,
    /// The `policy` file of each thermal zone.
    pub zone_policies: Vec<String>,
    /// `/proc/gpufreq/gpufreq_power_limited` exists.
    pub gpu_power_limited: bool,
    /// The text of `/proc/ppm/policy_status`, when it exists and can be read.
    pub ppm_status: Option<String>,
    /// The `temp` file of each virtual thermal zone.
    pub zone_temps: Vec<String>,
    /// The `trip_point_*` files of each virtual thermal zone.
    pub trip_points: Vec<String>,
    /// `/proc/mtk_batoc_throttling/battery_oc_protect_stop` exists.
    pub batoc: bool,
}

/// What turning the thermal throttling off reads, after `thermald` is
/// killed, each read in turn between the stages that use it.
pub struct ThermalEnv {
    /// The texts of the files under `/system/etc/init`, `/vendor/etc/init`
    /// and `/odm/etc/init` that can be read, in the order `find` lists them.
    pub init_files: Vec<String>,
    /// The output of `getprop`, when it ran, read once the services are
    /// stopped.
    pub getprop_output: Option<String>,
    /// The output of `ps -A`, when it ran, read once the properties are
    /// suspended.
    pub ps_output: Option<String>,
    /// The zones and limits, read once the daemons are killed.
    pub zones: ThermalZones,
}

/// A command with one argument after a fixed prefix, for each value.
pub open spec fn runs_of(prefix: Seq<Seq<char>>, vals: Seq<Seq<char>>) -> Seq<StepView> {
    vals.map_values(|v: Seq<char>| StepView::Run(prefix.push(v)))
}

pub(crate) fn push_runs(plan: &mut Vec<Step>, prefix: &[&str], vals: &[String])
    ensures
        steps_view(final(plan)@) == steps_view(old(plan)@) + runs_of(
            prefix@.map_values(|w: &str| w@),
            strings_view(vals@),
        ),
{
    let ghost before = steps_view(plan@);
    let ghost pv = prefix@.map_values(|w: &str| w@);
    let ghost vv = strings_view(vals@);
    let mut i: usize = 0;
    while i < vals.len()
        invariant
            i <= vals.len(),
            pv == prefix@.map_values(|w: &str| w@),
            vv == strings_view(vals@),
            steps_view(plan@) == before + runs_of(pv, vv.take(i as int)),
        decreases vals.len() - i,
    {
        let mut a = crate::plan::args_of(prefix);
        let ghost a0 = a@;
        a.push(string_of(chars_of(vals[i].as_str()).as_slice()));
        assert(strings_view(a@) =~= strings_view(a0).push(vv[i as int]));
        push_step(plan, Step::Run(a));
        assert(runs_of(pv, vv.take(i + 1)) =~= runs_of(pv, vv.take(i as int)).push(StepView::Run(pv.push(vv[i as int]))));
        i = i + 1;
    }
    assert(vv.take(vals.len() as int) == vv);
}

/// Steps that take every permission of each file away.
pub open spec fn seals(paths: Seq<Seq<char>>) -> Seq<StepView> {
    paths.map_values(|p: Seq<char>| StepView::Seal(p))
}

fn push_seals(plan: &mut Vec<Step>, paths: &[String])
    ensures
        steps_view(final(plan)@) == steps_view(old(plan)@) + seals(strings_view(paths@)),
{
    let ghost before = steps_view(plan@);
    let ghost pv = strings_view(paths@);
    let mut i: usize = 0;
    while i < paths.len()
        invariant
            i <= paths.len(),
            pv == strings_view(paths@),
            steps_view(plan@) == before + seals(pv.take(i as int)),
        decreases paths.len() - i,
    {
        push_step(plan, Step::Seal(string_of(chars_of(paths[i].as_str()).as_slice())));
        assert(seals(pv.take(i + 1)) =~= seals(pv.take(i as int)).push(StepView::Seal(pv[i as int])));
        i = i + 1;
    }
    assert(pv.take(paths.len() as int) == pv);
}

/// The properties reset to `suspended`, as commands.
pub open spec fn suspend_props(props: Seq<Seq<char>>) -> Seq<StepView> {
    props.map_values(|p: Seq<char>| resetprop(p, "suspended"@))
}

/// The first step of turning the thermal throttling off, taken before the
/// system is read: `thermald` killed.
pub fn stop_thermald() -> (res: Step)
    ensures
        res@ == StepView::Run(seq!["pkill"@, "-f"@, "thermald"@]),
{
    let a = crate::plan::args_of(&["pkill", "-f", "thermald"]);
    assert(strings_view(a@) =~= seq!["pkill"@, "-f"@, "thermald"@]);
    Step::Run(a)
}

/// Whether the boot sequence turns the thermal throttling off, and if so
/// its first step: none unless the thermal switch property holds 1, else
/// `thermald` killed, after which the system is read and `disable_thermal`
/// runs.
pub fn thermal_start(dthermal: &str) -> (res: Option<Step>)
    ensures
        crate::boot::switched_on(dthermal@) ==> res is Some && res->0@ == StepView::Run(
            seq!["pkill"@, "-f"@, "thermald"@],
        ),
        !crate::boot::switched_on(dthermal@) ==> res is None,
{
    if crate::probe::prop_int_exec(dthermal) == 1 {
        Some(stop_thermald())
    } else {
        None
    }
}

/// The thermal services stopped, as commands.
pub open spec fn stop_services_plan(files: Seq<Seq<char>>) -> Seq<StepView> {
    runs_of(seq!["stop"@], services_in(files))
}

/// Stops each thermal service that the init files declare, file after file.
pub fn thermal_stop_services(init_files: &[String]) -> (res: Vec<Step>)
    ensures
        steps_view(res@) == stop_services_plan(strings_view(init_files@)),
{
    let mut plan: Vec<Step> = Vec::new();
    let services = thermal_services(init_files);
    let stop: &[&str] = &["stop"];
    push_runs(&mut plan, stop, services.as_slice());
    assert(stop@.map_values(|w: &str| w@) =~= seq!["stop"@]);
    assert(steps_view(plan@) =~= stop_services_plan(strings_view(init_files@)));
    plan
}

/// The thermal properties that a `getprop` output lists, suspended.
pub open spec fn suspend_plan(getprop_output: Option<Seq<char>>) -> Seq<StepView> {
    match getprop_output {
        Some(o) => suspend_props(picked_all(Pickup::Prop, lines(o))),
        None => seq![],
    }
}

/// Resets each thermal property that `getprop` lists to `suspended`.
pub fn thermal_suspend_props(getprop_output: Option<&str>) -> (res: Vec<Step>)
    ensures
        steps_view(res@) == suspend_plan(crate::freq::opt_view(getprop_output)),
{
    let mut plan: Vec<Step> = Vec::new();
    if let Some(o) = getprop_output {
        let props = thermal_props(o);
        let ghost pv = strings_view(props@);
        let mut i: usize = 0;
        while i < props.len()
            invariant
                i <= props.len(),
                pv == strings_view(props@),
                steps_view(plan@) == suspend_props(pv.take(i as int)),
            decreases props.len() - i,
        {
            push_step(&mut plan, resetprop_step(props[i].as_str(), "suspended"));
            assert(suspend_props(pv.take(i + 1)) =~= suspend_props(pv.take(i as int)).push(
                resetprop(pv[i as int], "suspended"@),
            ));
            i = i + 1;
        }
        assert(pv.take(props.len() as int) == pv);
    }
    assert(steps_view(plan@) =~= suspend_plan(crate::freq::opt_view(getprop_output)));
    plan
}

/// The thermal daemons that a `ps -A` output lists, killed.
pub open spec fn kill_plan(ps_output: Option<Seq<char>>) -> Seq<StepView> {
    match ps_output {
        Some(o) => runs_of(seq!["kill"@, "-9"@], picked_all(Pickup::Pid, lines(o))),
        None => seq![],
    }
}

/// Kills each thermal daemon that `ps -A` lists.
pub fn thermal_kill_daemons(ps_output: Option<&str>) -> (res: Vec<Step>)
    ensures
        steps_view(res@) == kill_plan(crate::freq::opt_view(ps_output)),
{
    let mut plan: Vec<Step> = Vec::new();
    if let Some(o) = ps_output {
        let pids = thermal_pids(o);
        let kill: &[&str] = &["kill", "-9"];
        push_runs(&mut plan, kill, pids.as_slice());
        assert(kill@.map_values(|w: &str| w@) =~= seq!["kill"@, "-9"@]);
    }
    assert(steps_view(plan@) =~= kill_plan(crate::freq::opt_view(ps_output)));
    plan
}

/// The zones and limits part of turning the thermal throttling off.
pub open spec fn thermal_zones_plan(z: ThermalZones) -> Seq<StepView> {
    as_steps(each_at(strings_view(z.zone_modes@), "disabled"@)) + as_steps(
        each_at(strings_view(z.zone_policies@), "userspace"@),
    ) + (if z.gpu_power_limited {
        as_steps(gpu_limit_writes("1"@))
    } else {
        seq![]
    }) + (match ostr(z.ppm_status) {
        Some(st) => as_steps(ppm_lines_plan(lines(st), "0"@, None, false)),
        None => seq![],
    }) + seals(strings_view(z.zone_temps@)) + seals(strings_view(z.trip_points@)) + seq![
        StepView::Run(seq!["cmd"@, "thermalservice"@, "override-status"@, "0"@]),
    ] + (if z.batoc {
        seq![StepView::Write(lw("stop 1"@, "/proc/mtk_batoc_throttling/battery_oc_protect_stop"@))]
    } else {
        seq![]
    })
}

/// Disables the thermal zones, ignores the GPU power limits and the PPM
/// thermal policies, hides the zone temperatures and trip points, overrides
/// the thermal service status, and stops the battery over-current
/// throttling.
pub fn thermal_zones(z: &ThermalZones) -> (res: Vec<Step>)
    ensures
        steps_view(res@) == thermal_zones_plan(*z),
{
    let mut plan: Vec<Step> = Vec::new();
    push_writes(&mut plan, sets_gpu_mali("disabled", z.zone_modes.as_slice()));
    push_writes(&mut plan, sets_gpu_mali("userspace", z.zone_policies.as_slice()));
    let ghost b1 = steps_view(plan@);
    if z.gpu_power_limited {
        let mut ws: Vec<SysWrite> = Vec::new();
        crate::soc::push_gpu_limits(&mut ws, "1");
        push_writes(&mut plan, ws);
    }
    let ghost b2 = steps_view(plan@);
    if let Some(st) = &z.ppm_status {
        push_writes(&mut plan, ppm_policy_writes(Some(st.as_str()), "0", None, false));
    }
    let ghost b3 = steps_view(plan@);
    push_seals(&mut plan, z.zone_temps.as_slice());
    push_seals(&mut plan, z.trip_points.as_slice());
    let a = crate::plan::args_of(&["cmd", "thermalservice", "override-status", "0"]);
    assert(strings_view(a@) =~= seq!["cmd"@, "thermalservice"@, "override-status"@, "0"@]);
    push_step(&mut plan, Step::Run(a));
    let ghost b4 = steps_view(plan@);
    if z.batoc {
        crate::plan::push_locked_step(&mut plan, "stop 1", "/proc/mtk_batoc_throttling/battery_oc_protect_stop");
    }
    assert(steps_view(plan@) =~= thermal_zones_plan(*z));
    plan
}

/// Turning the thermal zones off writes `disabled` to every zone's `mode`
/// file, then `userspace` to every zone's `policy` file; it takes every
/// permission from each virtual zone's temperature file and trip points,
/// and overrides the thermal service's status to 0.
pub proof fn law_thermal_zones(z: ThermalZones, k: int)
    ensures
        0 <= k < z.zone_modes@.len() ==> thermal_zones_plan(z)[k] == StepView::Write(
            lw("disabled"@, z.zone_modes@[k]@),
        ),
        0 <= k < z.zone_policies@.len() ==> thermal_zones_plan(z)[z.zone_modes@.len() + k] == StepView::Write(
            lw("userspace"@, z.zone_policies@[k]@),
        ),
        0 <= k < z.zone_temps@.len() ==> thermal_zones_plan(z).contains(StepView::Seal(z.zone_temps@[k]@)),
        0 <= k < z.trip_points@.len() ==> thermal_zones_plan(z).contains(StepView::Seal(z.trip_points@[k]@)),
        thermal_zones_plan(z).contains(StepView::Run(seq!["cmd"@, "thermalservice"@, "override-status"@, "0"@])),
{
    let modes = strings_view(z.zone_modes@);
    let pols = strings_view(z.zone_policies@);
    let temps = strings_view(z.zone_temps@);
    let trips = strings_view(z.trip_points@);
    crate::tune::lemma_each_at(modes, "disabled"@);
    crate::tune::lemma_each_at(pols, "userspace"@);
    let a = as_steps(each_at(modes, "disabled"@));
    let b = as_steps(each_at(pols, "userspace"@));
    let c = (if z.gpu_power_limited {
        as_steps(gpu_limit_writes("1"@))
    } else {
        seq![]
    }) + (match ostr(z.ppm_status) {
        Some(st) => as_steps(ppm_lines_plan(lines(st), "0"@, None, false)),
        None => seq![],
    });
    let r = StepView::Run(seq!["cmd"@, "thermalservice"@, "override-status"@, "0"@]);
    let d = if z.batoc {
        seq![StepView::Write(lw("stop 1"@, "/proc/mtk_batoc_throttling/battery_oc_protect_stop"@))]
    } else {
        seq![]
    };
    let w = a + b + c + seals(temps) + seals(trips) + seq![r] + d;
    assert(thermal_zones_plan(z) =~= w);
    if 0 <= k < modes.len() {
        assert(modes[k] == z.zone_modes@[k]@);
        assert(w[k] == a[k]);
    }
    if 0 <= k < pols.len() {
        assert(pols[k] == z.zone_policies@[k]@);
        assert(w[modes.len() + k] == b[k]);
    }
    let o = (a.len() + b.len() + c.len()) as int;
    if 0 <= k < temps.len() {
        assert(temps[k] == z.zone_temps@[k]@);
        assert(w[o + k] == seals(temps)[k]);
    }
    if 0 <= k < trips.len() {
        assert(trips[k] == z.trip_points@[k]@);
        assert(w[o + temps.len() + k] == seals(trips)[k]);
    }
    assert(w[o + temps.len() as int + trips.len() as int] == r);
}

/// Turning the thermal throttling off after `thermald` is killed, as
/// planned.
pub open spec fn thermal_plan(e: ThermalEnv) -> Seq<StepView> {
    stop_services_plan(strings_view(e.init_files@)) + suspend_plan(ostr(e.getprop_output)) + kill_plan(
        ostr(e.ps_output),
    ) + thermal_zones_plan(e.zones)
}

fn opt_str(o: &Option<String>) -> (r: Option<&str>)
    ensures
        crate::freq::opt_view(r) == ostr(*o),
{
    match o {
        Some(s) => Some(s.as_str()),
        None => None,
    }
}

/// Turns the thermal throttling off, once `stop_thermald` has run: stops
/// each thermal service the init files declare, suspends each thermal
/// property, kills each thermal daemon, then `thermal_zones`. The four
/// stages are `thermal_stop_services`, `thermal_suspend_props`,
/// `thermal_kill_daemons` and `thermal_zones`, in that order, each on what
/// was read before it.
pub fn disable_thermal(e: &ThermalEnv) -> (res: Vec<Step>)
    ensures
        steps_view(res@) == thermal_plan(*e),
{
    let mut plan = thermal_stop_services(e.init_files.as_slice());
    let ghost p1 = steps_view(plan@);
    let mut a = thermal_suspend_props(opt_str(&e.getprop_output));
    let ghost av = steps_view(a@);
    plan.append(&mut a);
    assert(steps_view(plan@) =~= p1 + av);
    let ghost p2 = steps_view(plan@);
    let mut b = thermal_kill_daemons(opt_str(&e.ps_output));
    let ghost bv = steps_view(b@);
    plan.append(&mut b);
    assert(steps_view(plan@) =~= p2 + bv);
    let ghost p3 = steps_view(plan@);
    let mut c = thermal_zones(&e.zones);
    let ghost cv = steps_view(c@);
    plan.append(&mut c);
    assert(steps_view(plan@) =~= p3 + cv);
    assert(steps_view(plan@) =~= thermal_plan(*e));
    plan
}

} // verus!
