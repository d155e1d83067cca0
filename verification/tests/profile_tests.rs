use tweakfls::cli::{profile_command, utility_command, ProfileCommand, Utility};
use tweakfls::cpufreq::CpuPolicy;
use tweakfls::gpu::DevfreqNode;
use tweakfls::plan::{Step, SysWrite, WriteMode};
use tweakfls::profile::{
    balanced_profile, eco_mode, performance_profile, soc_balance, soc_kind, soc_performance, soc_powersave,
    ProfileEnv, SocDevice, SocKind,
};
use tweakfls::tune::Cluster;

fn lk(value: &str, path: &str) -> SysWrite {
    SysWrite { value: value.to_string(), path: path.to_string(), mode: WriteMode::Locked }
}

fn s(v: &str) -> String {
    v.to_string()
}

fn wr(value: &str, path: &str) -> Step {
    Step::Write(lk(value, path))
}

fn run(words: &[&str]) -> Step {
    Step::Run(words.iter().map(|w| w.to_string()).collect())
}

fn env() -> ProfileEnv {
    ProfileEnv {
        custom_default_cpu_gov: s(""),
        default_cpu_gov: s("schedutil"),
        custom_powersave_cpu_gov: s(""),
        litemode: s("0"),
        custom_default_balanced_io: s(""),
        default_balanced_io: s("mq-deadline"),
        custom_performance_io: s("none"),
        custom_powersave_io: s(""),
        maligovsupport: s("0"),
        custom_default_gpumali_gov: s(""),
        custom_performance_gpumali_gov: s(""),
        custom_powersave_gpumali_gov: s(""),
        default_gpumali_gov: s(""),
        bypasschg: s("1"),
        clearbg: s("1"),
        freqoffset: s("Disabled"),
        devicemitigation: s("0"),
        current_profile: s("2"),
        cpu_governors: vec![s("/c0/scaling_governor")],
        policy_governors: vec![s("/p0/scaling_governor")],
        clusters: vec![Cluster { name: s("policy0"), max_freq: s("2000") }],
        mali_governors: vec![s("/mali/governor")],
        ppm: false,
        policies: vec![CpuPolicy {
            path: s("/sys/devices/system/cpu/cpu0/cpufreq"),
            max_file: s("2000"),
            min_file: s("500"),
            avail: Some(s("500 1000 2000")),
        }],
        scaling_files: vec![s("/p0/scaling_max_freq")],
        perf_nodes: vec![],
        stune_groups: vec![],
        cpus: vec![],
        battery_saver: None,
        sched_features: false,
        window_dump: Some(s("Task{x A=1:com.bg.app visible=false}\n")),
        soc: SocDevice::Unisoc(Some(DevfreqNode { path: s("/g"), avail: Some(s("1 2 3")) })),
    }
}

#[test]
fn performance_profile_plan() {
    let p = performance_profile(&env());
    assert_eq!(p[0], wr("performance", "/c0/scaling_governor"));
    assert_eq!(p[1], Step::Lock(s("/p0/scaling_governor")));
    assert_eq!(p[2], wr("none", "/sys/block/sda/queue/scheduler"));
    assert_eq!(p[7], run(&["sys.azenith-utilityconf", "enableBypass"]));
    assert_eq!(p[8], wr("2000", "/sys/devices/system/cpu/cpu0/cpufreq/scaling_max_freq"));
    assert_eq!(p[9], wr("2000", "/sys/devices/system/cpu/cpu0/cpufreq/scaling_min_freq"));
    assert_eq!(p[10], Step::Lock(s("/p0/scaling_max_freq")));
    assert_eq!(p[11], wr("40", "/proc/sys/vm/vfs_cache_pressure"));
    assert_eq!(p[19], wr("1", "/proc/sys/kernel/perf_cpu_time_max_percent"));
    assert_eq!(p[21], wr("0", "/proc/sys/kernel/split_lock_mitigate"));
    assert_eq!(p[22], run(&["am", "force-stop", "com.bg.app"]));
    assert_eq!(p[23], wr("3", "/g/max_freq"));
    assert_eq!(p[24], wr("3", "/g/min_freq"));
    assert_eq!(p.len(), 25);
}

#[test]
fn performance_profile_in_lite_mode() {
    let mut e = env();
    e.litemode = s("1");
    e.clearbg = s("0");
    e.maligovsupport = s("1");
    let p = performance_profile(&e);
    assert_eq!(p[0], wr("performance", "/sys/devices/system/cpu/cpufreq/policy0/scaling_governor"));
    assert_eq!(p[6], wr("dummy", "/mali/governor"));
    assert_eq!(p[8], wr("2000", "/sys/devices/system/cpu/cpu0/cpufreq/scaling_max_freq"));
    assert_eq!(p[9], wr("500", "/sys/devices/system/cpu/cpu0/cpufreq/scaling_min_freq"));
    assert_eq!(p.len(), 22);
}

#[test]
fn balanced_profile_plan() {
    let p = balanced_profile(&env());
    assert_eq!(p[0], wr("schedutil", "/c0/scaling_governor"));
    assert_eq!(p[2], wr("mq-deadline", "/sys/block/sda/queue/scheduler"));
    assert_eq!(p[7], run(&["sys.azenith-utilityconf", "disableBypass"]));
    assert_eq!(p[8], wr("2000", "/sys/devices/system/cpu/cpu0/cpufreq/scaling_max_freq"));
    assert_eq!(p[9], wr("500", "/sys/devices/system/cpu/cpu0/cpufreq/scaling_min_freq"));
    assert_eq!(p[11], wr("120", "/proc/sys/vm/vfs_cache_pressure"));
    assert_eq!(p[16], wr("100", "/proc/sys/kernel/perf_cpu_time_max_percent"));
    assert_eq!(p[17], wr("2", "/proc/sys/kernel/perf_cpu_time_max_percent"));
    assert_eq!(p[19], wr("1", "/proc/sys/kernel/split_lock_mitigate"));
    assert_eq!(p[20], Step::Write(SysWrite { value: s("3"), path: s("/g/max_freq"), mode: WriteMode::Unlocked }));
    assert_eq!(p.len(), 22);
}

#[test]
fn eco_profile_plan() {
    let mut e = env();
    e.current_profile = s("3");
    e.battery_saver = Some(s("N"));
    let p = eco_mode(&e);
    assert_eq!(p[0], wr("powersave", "/c0/scaling_governor"));
    assert_eq!(p[2], wr("none", "/sys/block/sda/queue/scheduler"));
    assert_eq!(p[7], wr("2000", "/sys/devices/system/cpu/cpu0/cpufreq/scaling_max_freq"));
    assert_eq!(p[8], wr("1000", "/sys/devices/system/cpu/cpu0/cpufreq/scaling_min_freq"));
    assert_eq!(p[9], Step::Lock(s("/p0/scaling_max_freq")));
    assert_eq!(p[10], run(&["sys.azenith-utilityconf", "disableBypass"]));
    assert_eq!(p[18], wr("0", "/proc/sys/kernel/sched_energy_aware"));
    assert_eq!(p[19], wr("Y", "/sys/module/battery_saver/parameters/enabled"));
    assert_eq!(p[21], wr("1", "/g/min_freq"));
    assert_eq!(p.len(), 23);
}

#[test]
fn vendor_dispatch() {
    assert_eq!(soc_kind("1"), SocKind::MediaTek);
    assert_eq!(soc_kind("2"), SocKind::Snapdragon);
    assert_eq!(soc_kind("3"), SocKind::Exynos);
    assert_eq!(soc_kind("4"), SocKind::Unisoc);
    assert_eq!(soc_kind("5"), SocKind::Tensor);
    assert_eq!(soc_kind(""), SocKind::Other);
    assert_eq!(soc_performance(&SocDevice::Other, "0", "0"), vec![]);
    assert_eq!(soc_balance(&SocDevice::Unisoc(None), "0"), vec![]);
    assert_eq!(soc_powersave(&SocDevice::Unisoc(Some(DevfreqNode { path: s("/g"), avail: None }))), vec![]);
}

#[test]
fn program_arguments() {
    let a = |v: &[&str]| v.iter().map(|x| x.to_string()).collect::<Vec<String>>();
    assert_eq!(profile_command(&a(&["p", "0"])), Some(ProfileCommand::Initialize));
    assert_eq!(profile_command(&a(&["p", "3"])), Some(ProfileCommand::Eco));
    assert_eq!(profile_command(&a(&["p", "4"])), None);
    assert_eq!(profile_command(&a(&["p"])), None);
    assert_eq!(utility_command(&a(&["u", "setsgov", "walt"])), Some(Utility::SetsGov));
    assert_eq!(utility_command(&a(&["u", "setsgov"])), None);
    assert_eq!(utility_command(&a(&["u", "FSTrim"])), Some(Utility::FsTrim));
    assert_eq!(utility_command(&a(&["u", "saveLog"])), Some(Utility::SaveLog));
    assert_eq!(utility_command(&a(&["u", "bogus"])), Some(Utility::Unknown));
    assert_eq!(utility_command(&a(&["u"])), None);
}
