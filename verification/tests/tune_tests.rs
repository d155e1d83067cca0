use tweakfls::plan::{Step, SysWrite, WriteMode};
use tweakfls::sched::{schedtunes, walt_tunes, RateLimits, TunePolicy};
use tweakfls::tune::{
    apply_battery_saver, apply_core_ctl, apply_sched_features, apply_stune_boost, debugmode, disable_dnd, enable_dnd,
    fstrim_func, get_biggest_cluster, lock_all, perf_nodes, sets_gpu_mali, sets_io, setgov, setrefreshrates, setrender,
    setsgov, setthermalcore, trim_step, Cluster,
};

fn lk(value: &str, path: &str) -> SysWrite {
    SysWrite { value: value.to_string(), path: path.to_string(), mode: WriteMode::Locked }
}

fn s(v: &str) -> String {
    v.to_string()
}

fn run(words: &[&str]) -> Step {
    Step::Run(words.iter().map(|w| w.to_string()).collect())
}

#[test]
fn governors() {
    let cpus = vec![s("/c0/scaling_governor"), s("/c1/scaling_governor")];
    let pols = vec![s("/p0/scaling_governor")];
    assert_eq!(setsgov("schedutil", &cpus), vec![lk("schedutil", "/c0/scaling_governor"), lk("schedutil", "/c1/scaling_governor")]);
    assert_eq!(setgov("walt", &cpus, &pols), vec![
        Step::Write(lk("walt", "/c0/scaling_governor")),
        Step::Write(lk("walt", "/c1/scaling_governor")),
        Step::Lock(s("/p0/scaling_governor")),
    ]);
    assert_eq!(sets_gpu_mali("dummy", &[s("/mali/governor")]), vec![lk("dummy", "/mali/governor")]);
    assert_eq!(lock_all(&[]), vec![]);
}

#[test]
fn io_scheduler_order() {
    let w = sets_io("bfq");
    let paths: Vec<&str> = w.iter().map(|x| x.path.as_str()).collect();
    assert_eq!(paths, vec![
        "/sys/block/sda/queue/scheduler",
        "/sys/block/sdb/queue/scheduler",
        "/sys/block/sdc/queue/scheduler",
        "/sys/block/mmcblk0/queue/scheduler",
        "/sys/block/mmcblk1/queue/scheduler",
    ]);
    assert!(w.iter().all(|x| x.value == "bfq" && x.mode == WriteMode::Locked));
}

#[test]
fn biggest_cluster() {
    let cs = vec![
        Cluster { name: s("policy0"), max_freq: s("1800000\n") },
        Cluster { name: s("policy4"), max_freq: s("2400000") },
        Cluster { name: s("policy7"), max_freq: s("2400000") },
        Cluster { name: s("policy9"), max_freq: s("junk") },
    ];
    assert_eq!(get_biggest_cluster(&cs), "policy4");
    assert_eq!(get_biggest_cluster(&[Cluster { name: s("policy0"), max_freq: s("") }]), "");
    assert_eq!(get_biggest_cluster(&[]), "");
}

#[test]
fn performance_monitor_nodes() {
    let nodes = vec![s("/perf/gpu_pmu_enable"), s("/perf/charger_enable"), s("/perf/ratio")];
    assert_eq!(perf_nodes(&nodes, true), vec![lk("1", "/perf/gpu_pmu_enable"), lk("1", "/perf/charger_enable")]);
    assert_eq!(perf_nodes(&nodes, false), vec![
        lk("0", "/perf/gpu_pmu_enable"),
        lk("0", "/perf/charger_enable"),
        lk("1", "/perf/charger_enable"),
    ]);
}

#[test]
fn schedtune_core_ctl_saver_features() {
    assert_eq!(apply_stune_boost(&[s("/dev/stune/top-app")], true, false), vec![
        lk("30", "/dev/stune/top-app/schedtune.boost"),
        lk("1", "/dev/stune/top-app/schedtune.sched_boost_enabled"),
        lk("0", "/dev/stune/top-app/schedtune.prefer_idle"),
        lk("0", "/dev/stune/top-app/schedtune.colocate"),
    ]);
    assert_eq!(apply_stune_boost(&[s("/g")], false, true), apply_stune_boost(&[s("/g")], false, false));
    assert_eq!(apply_core_ctl(&[s("/cpu0")], "0"), vec![
        lk("0", "/cpu0/core_ctl/enable"),
        lk("0", "/cpu0/core_ctl/core_ctl_boost"),
    ]);
    let p = "/sys/module/battery_saver/parameters/enabled";
    assert_eq!(apply_battery_saver("1", Some("0\n")), vec![lk("1", p)]);
    assert_eq!(apply_battery_saver("0", Some("Y")), vec![lk("N", p)]);
    assert_eq!(apply_battery_saver("Y", Some("N")), vec![lk("Y", p)]);
    assert_eq!(apply_battery_saver("1", None), vec![]);
    let f = "/sys/kernel/debug/sched_features";
    assert_eq!(apply_sched_features(true, &["NEXT_BUDDY", "NO_TTWU_QUEUE"]), vec![lk("NEXT_BUDDY", f), lk("NO_TTWU_QUEUE", f)]);
    assert_eq!(apply_sched_features(false, &["NEXT_BUDDY"]), vec![]);
}

#[test]
fn utility_requests() {
    assert!(debugmode("true"));
    assert!(!debugmode("1"));
    assert_eq!(setrender("vulkan"), Some(Step::SetProp(s("debug.hwui.renderer"), s("skiavk"))));
    assert_eq!(setrender("skiagl"), Some(Step::SetProp(s("debug.hwui.renderer"), s("skiagl"))));
    assert_eq!(setrender("opengl"), None);
    assert_eq!(setrefreshrates("120"), vec![
        run(&["settings", "put", "system", "peak_refresh_rate", "120"]),
        run(&["settings", "put", "system", "min_refresh_rate", "120.0"]),
    ]);
    assert_eq!(setthermalcore("1"), Step::Spawn(vec![s("sys.azenith-rianixiathermalcore")]));
    assert_eq!(setthermalcore("0"), run(&["pkill", "-9", "-f", "sys.azenith-rianixiathermalcore"]));
    assert_eq!(fstrim_func("1").len(), 8);
    assert_eq!(fstrim_func("1")[0], "/system");
    assert!(fstrim_func("0").is_empty());
    assert_eq!(trim_step("/data", true), Some(run(&["fstrim", "-v", "/data"])));
    assert_eq!(trim_step("/odm", false), None);
    assert_eq!(enable_dnd(), run(&["cmd", "notification", "set_dnd", "priority"]));
    assert_eq!(disable_dnd(), run(&["cmd", "notification", "set_dnd", "off"]));
}

fn tune_policy(avail: Option<&str>, walt: bool) -> TunePolicy {
    TunePolicy {
        path: s("/pol"),
        avail: avail.map(s),
        horizon: Some(RateLimits { up_rate: false, rate: true }),
        schedutil: Some(RateLimits { up_rate: true, rate: true }),
        walt,
    }
}

#[test]
fn schedutil_and_schedhorizon_tunes() {
    let p = tune_policy(Some("300 1200 600 900 1500 1800 2100 2400"), false);
    assert_eq!(schedtunes(&[p]), vec![
        lk("50 100 150 200 250 300", "/pol/schedhorizon/up_delay"),
        lk("2400 2100 1800 1500 1200 900", "/pol/schedhorizon/efficient_freq"),
        lk("7000", "/pol/schedhorizon/rate_limit_us"),
        lk("12000", "/pol/schedhorizon/down_rate_limit_us"),
        lk("6500", "/pol/schedutil/up_rate_limit_us"),
        lk("12000", "/pol/schedutil/down_rate_limit_us"),
    ]);
    assert_eq!(schedtunes(&[tune_policy(None, false)]), vec![]);
    let empty = schedtunes(&[tune_policy(Some(""), false)]);
    assert_eq!(empty[0], lk("", "/pol/schedhorizon/up_delay"));
}

#[test]
fn walt_governor_tunes() {
    let p = tune_policy(Some("300 1200 600"), true);
    assert_eq!(walt_tunes(&[p]), vec![
        lk("92", "/pol/walt/hispeed_load"),
        lk("600", "/pol/walt/hispeed_freq"),
        lk("1200", "/pol/walt/rtg_boost_freq"),
        lk("95 87 79", "/pol/walt/target_loads"),
        lk("1200 600 300", "/pol/walt/efficient_freq"),
        lk("8000", "/pol/walt/up_rate_limit_us"),
        lk("12000", "/pol/walt/down_rate_limit_us"),
    ]);
    let one = walt_tunes(&[tune_policy(Some("700"), true)]);
    assert_eq!(one[1], lk("700", "/pol/walt/hispeed_freq"));
    assert_eq!(one[3], lk("95", "/pol/walt/target_loads"));
    assert_eq!(walt_tunes(&[tune_policy(Some("700"), false)]), vec![]);
    assert_eq!(walt_tunes(&[tune_policy(Some(""), true)]), vec![]);
    let six = walt_tunes(&[tune_policy(Some("1 2 3 4 5 6 7 8"), true)]);
    assert_eq!(six[3], lk("95 87 79 71 63 55", "/pol/walt/target_loads"));
}
