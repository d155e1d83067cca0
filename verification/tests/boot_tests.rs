use tweakfls::boot::{
    apply_init_logic, fpsged_tunes, init_switches, init_tail, initialize, io_probe_order, mali_sched, parse_resolution, resetprop_step,
    sf_debug_props, BootTunes, InitEnv,
};
use tweakfls::plan::{Step, SysWrite, WriteMode};
use tweakfls::sched::{RateLimits, TunePolicy};
use tweakfls::thermal::{
    disable_thermal, stop_thermald, thermal_kill_daemons, thermal_pid, thermal_start, thermal_stop_services,
    thermal_suspend_props, thermal_zones, ThermalZones, thermal_pid_in, thermal_pids, thermal_prop, thermal_prop_in, thermal_props,
    thermal_service, thermal_service_in, thermal_services, ThermalEnv,
};

fn lk(value: &str, path: &str) -> SysWrite {
    SysWrite { value: value.to_string(), path: path.to_string(), mode: WriteMode::Locked }
}

fn s(v: &str) -> String {
    v.to_string()
}

fn run(words: &[&str]) -> Step {
    Step::Run(words.iter().map(|w| w.to_string()).collect())
}

fn setprop(n: &str, v: &str) -> Step {
    Step::SetProp(s(n), s(v))
}

fn env() -> InitEnv {
    InitEnv {
        mali_governor: Some(s("/sys/devices/platform/soc/13000000.mali/devfreq/13000000.mali/governor")),
        mali_governor_text: Some(s("mali_ondemand\n")),
        custom_default_gpumali_gov: s(""),
        custom_powersave_gpumali_gov: s(""),
        custom_performance_gpumali_gov: s("performance"),
        cpu0_governor: s("performance\n"),
        available_governors: Some(s("performance schedutil powersave")),
        custom_default_cpu_gov: s(""),
        custom_powersave_cpu_gov: s(""),
        cpu_governors: vec![s("/c0/scaling_governor")],
        policy_governors: vec![s("/p0/scaling_governor")],
        io_blocks: vec![None, None, Some(Some(s("none [mq-deadline] kyber"))), Some(None), None],
        custom_default_balanced_io: s(""),
        custom_powersave_io: s("noop"),
        custom_performance_io: s(""),
    }
}

#[test]
fn boot_sequence_detects_defaults() {
    let steps = initialize(&env());
    assert_eq!(steps.len(), 28);
    assert_eq!(steps[0], Step::Write(lk("0", "/proc/sys/kernel/hung_task_timeout_secs")));
    assert_eq!(steps[11], Step::Write(lk("255", "/proc/sys/kernel/sched_lib_mask_force")));
    assert_eq!(steps[12], setprop("sys.azenith.maligovsupport", "1"));
    assert_eq!(steps[13], setprop("persist.sys.azenith.default_gpumali_gov", "mali_ondemand"));
    assert_eq!(steps[14], Step::Write(lk("mali_ondemand", "/sys/devices/platform/soc/13000000.mali/devfreq/13000000.mali/governor")));
    assert_eq!(steps[15], setprop("persist.sys.azenith.custom_powersave_gpumali_gov", "mali_ondemand"));
    assert_eq!(steps[16], setprop("persist.sys.azenith.default_cpu_gov", "performance"));
    assert_eq!(steps[17], setprop("persist.sys.azenith.default_cpu_gov", "schedutil"));
    assert_eq!(steps[18], Step::Write(lk("schedutil", "/c0/scaling_governor")));
    assert_eq!(steps[19], Step::Lock(s("/p0/scaling_governor")));
    assert_eq!(steps[20], setprop("persist.sys.azenith.custom_powersave_cpu_gov", "schedutil"));
    assert_eq!(steps[21], setprop("persist.sys.azenith.default_balanced_IO", "mq-deadline"));
    assert_eq!(steps[22], Step::Write(lk("mq-deadline", "/sys/block/sda/queue/scheduler")));
    assert_eq!(steps[27], setprop("persist.sys.azenith.custom_performance_IO", "mq-deadline"));
}

#[test]
fn boot_sequence_without_mali_or_readable_io() {
    let mut e = env();
    e.mali_governor = None;
    e.io_blocks = vec![Some(None), Some(Some(s("[bfq]")))];
    e.custom_default_cpu_gov = s("walt");
    let steps = initialize(&e);
    assert_eq!(steps[12], setprop("sys.azenith.maligovsupport", "0"));
    assert_eq!(steps[13], setprop("persist.sys.azenith.default_cpu_gov", "performance"));
    assert_eq!(steps[14], Step::Write(lk("walt", "/c0/scaling_governor")));
    assert_eq!(steps.len(), 12 + 1 + 1 + 2 + 1);
}

#[test]
fn io_probe_paths() {
    assert_eq!(io_probe_order()[0], "/sys/block/mmcblk0/queue/scheduler");
    assert_eq!(io_probe_order()[4], "/sys/block/sdc/queue/scheduler");
}

#[test]
fn resolution_is_recorded_once() {
    assert_eq!(
        parse_resolution("", Some("Physical size: 1080x2400")),
        Some(setprop("persist.sys.azenithconf.resosettings", "1080x2400"))
    );
    assert_eq!(parse_resolution("720x1600", Some("Physical size: 1080x2400")), None);
    assert_eq!(parse_resolution("", None), None);
    assert_eq!(parse_resolution("", Some("no size")), None);
}

fn tunes() -> BootTunes {
    BootTunes {
        justintime: s("1"),
        package_listing: Some(s("package:com.a\n")),
        schedtunes: s("0"),
        walttunes: s("1"),
        policies: vec![TunePolicy {
            path: s("/pol"),
            avail: Some(s("100 200")),
            horizon: None,
            schedutil: Some(RateLimits { up_rate: true, rate: false }),
            walt: true,
        }],
        fpsged: s("0"),
        malisched: s("1"),
        mali_scheduling: Some(s("/soc/m.mali/scheduling")),
        mali_device: None,
    }
}

#[test]
fn optional_boot_tunes() {
    let steps = apply_init_logic(&tunes());
    assert_eq!(steps[0], Step::Spawn(vec![s("cmd"), s("package"), s("compile"), s("-m"), s("speed-profile"), s("com.a")]));
    assert_eq!(steps[1], Step::Write(lk("92", "/pol/walt/hispeed_load")));
    assert_eq!(steps[2], Step::Write(lk("100", "/pol/walt/hispeed_freq")));
    assert_eq!(steps[8], Step::Write(lk("full", "/soc/m.mali/scheduling/serialize_jobs")));
    assert_eq!(steps.len(), 9);
    let mut off = tunes();
    off.justintime = s("0");
    off.walttunes = s("");
    off.malisched = s("2");
    assert_eq!(apply_init_logic(&off), vec![]);
}

#[test]
fn fixed_boot_tunes() {
    let f = fpsged_tunes();
    assert_eq!(f.len(), 34);
    assert_eq!(f[0], lk("1", "/sys/module/ged/parameters/ged_smart_boost"));
    assert_eq!(f[33], lk("100", "/sys/kernel/ged/hal/gpu_boost_level"));
    assert_eq!(mali_sched(&None, &Some(s("/m"))), vec![lk("1", "/m/js_ctx_scheduling_mode")]);
    let sf = sf_debug_props();
    assert_eq!(sf.len(), 44);
    assert_eq!(sf[0], resetprop_step("debug.sf.enable_advanced_sf_phase_offset", "1"));
    assert_eq!(sf[43], run(&["resetprop", "-n", "debug.hwui.level", "0"]));
}

#[test]
fn end_of_boot() {
    let t = init_tail("1", "1", "0");
    assert_eq!(t[0], Step::Write(lk("", "/sys/kernel/tracing/instances/mmstat/trace")));
    assert_eq!(t[4], run(&["stop", "logd"]));
    assert_eq!(t[11], run(&["stop", "wlan_logging"]));
    assert_eq!(t[12], run(&["sys.azenith-utilityconf", "disablevsync", "0"]));
    assert_eq!(t[13], run(&["sys.azenith-utilityconf", "checkBypass"]));
    assert_eq!(t[14], run(&["sync"]));
    let t = init_tail("0", "0", "1");
    assert_eq!(t.len(), 11);
    assert_eq!(t[0], run(&["start", "logd"]));
}

#[test]
fn thermal_lines_ignore_case() {
    assert_eq!(thermal_service("service Vendor.Thermal-HAL /vendor/bin/hw/thermal"), Some(s("Vendor.Thermal-HAL")));
    assert_eq!(thermal_service("  service vendor.thermal /x"), None);
    assert_eq!(thermal_service("service foo /bin/foo"), None);
    assert_eq!(thermal_service_in("service x y", "has thermal"), Some(s("x")));
    assert_eq!(thermal_prop("[init.svc.THERMAL-engine]: [running]"), Some(s("init.svc.THERMAL-engine")));
    assert_eq!(thermal_prop("[ro.boot.x]: [1]"), None);
    assert_eq!(thermal_prop_in("[a]: [b]", "thermal"), Some(s("a")));
    assert_eq!(thermal_pid("root  1234  1 0 Thermal-Engine"), Some(s("1234")));
    assert_eq!(thermal_pid("root 99 1 mtk_Thermal_x"), Some(s("99")));
    assert_eq!(thermal_pid("root 98 1 thermal"), None);
    assert_eq!(thermal_pid_in("a b", "thermald"), Some(s("b")));
    assert_eq!(thermal_services(&[s("service a\nservice thermal-svc /x\n"), s("service THERMALD /bin\n")]), vec![
        s("thermal-svc"),
        s("THERMALD"),
    ]);
    assert_eq!(thermal_props("[a.thermal]: [1]\n[b]: [2]\n"), vec![s("a.thermal")]);
    assert_eq!(thermal_pids("u 5 x thermald\nu 6 x other\n"), vec![s("5")]);
}

#[test]
fn thermal_throttling_off() {
    let zones = || ThermalZones {
        zone_modes: vec![s("/z0/mode")],
        zone_policies: vec![s("/z0/policy")],
        gpu_power_limited: true,
        ppm_status: Some(s("[3] PPM_POLICY_PWR_THRO: enabled\n[6] PPM_POLICY_USER_LIMIT: enabled\n")),
        zone_temps: vec![s("/v0/temp")],
        trip_points: vec![],
        batoc: true,
    };
    let e = ThermalEnv {
        init_files: vec![s("service thermal-hal /bin/t\n")],
        getprop_output: Some(s("[vendor.thermal.x]: [1]\n")),
        ps_output: Some(s("root 77 1 thermald\n")),
        zones: zones(),
    };
    assert_eq!(stop_thermald(), run(&["pkill", "-f", "thermald"]));
    let steps = disable_thermal(&e);
    assert_eq!(steps[0], run(&["stop", "thermal-hal"]));
    assert_eq!(steps[1], run(&["resetprop", "-n", "vendor.thermal.x", "suspended"]));
    assert_eq!(steps[2], run(&["kill", "-9", "77"]));
    assert_eq!(steps[3], Step::Write(lk("disabled", "/z0/mode")));
    assert_eq!(steps[4], Step::Write(lk("userspace", "/z0/policy")));
    assert_eq!(steps[5], Step::Write(lk("ignore_batt_oc 1", "/proc/gpufreq/gpufreq_power_limited")));
    assert_eq!(steps[10], Step::Write(lk("3 0", "/proc/ppm/policy_status")));
    assert_eq!(steps[11], Step::Seal(s("/v0/temp")));
    assert_eq!(steps[12], run(&["cmd", "thermalservice", "override-status", "0"]));
    assert_eq!(steps[13], Step::Write(lk("stop 1", "/proc/mtk_batoc_throttling/battery_oc_protect_stop")));
    assert_eq!(steps.len(), 14);
    let mut staged = thermal_stop_services(&e.init_files);
    staged.extend(thermal_suspend_props(e.getprop_output.as_deref()));
    staged.extend(thermal_kill_daemons(e.ps_output.as_deref()));
    staged.extend(thermal_zones(&zones()));
    assert_eq!(staged, steps);
    assert_eq!(thermal_suspend_props(None), vec![]);
    assert_eq!(thermal_kill_daemons(None), vec![]);
}

#[test]
fn late_boot_switches() {
    assert_eq!(init_switches("1", "0"), (true, false));
    assert_eq!(init_switches("", "1"), (false, true));
    assert_eq!(init_switches("yes", "01"), (false, true));
    assert_eq!(thermal_start("1"), Some(run(&["pkill", "-f", "thermald"])));
    assert_eq!(thermal_start("0"), None);
    assert_eq!(thermal_start(""), None);
}
