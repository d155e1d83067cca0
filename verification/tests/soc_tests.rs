use tweakfls::gpu::{
    exynos_balance, exynos_performance, exynos_powersave, tensor_balance, tensor_performance, tensor_powersave,
    unisoc_balance, unisoc_performance, unisoc_powersave, DevfreqNode, ExynosDevice, GpuTable, TensorDevice,
};
use tweakfls::plan::{SysWrite, WriteMode};
use tweakfls::qcom::{snapdragon_balance, snapdragon_performance, snapdragon_powersave, BusDcvs, QcomDevice};
use tweakfls::soc::{mediatek_balance, mediatek_performance, mediatek_powersave, MtkDevice};

fn lk(value: &str, path: &str) -> SysWrite {
    SysWrite { value: value.to_string(), path: path.to_string(), mode: WriteMode::Locked }
}

fn un(value: &str, path: &str) -> SysWrite {
    SysWrite { value: value.to_string(), path: path.to_string(), mode: WriteMode::Unlocked }
}

fn s(v: &str) -> String {
    v.to_string()
}

fn bare_mtk() -> MtkDevice {
    MtkDevice {
        ppm_status: None,
        gpufreq: false,
        gpufreqv2: false,
        gpu_power_limited: false,
        gpu_opp_dump: None,
        mali: None,
    }
}

#[test]
fn mediatek_balanced_profile() {
    let d = MtkDevice {
        ppm_status: Some(s("[0] PPM_POLICY_FORCE_LIMIT: enabled\n[5] PPM_POLICY_SYS_BOOST: enabled\n")),
        gpufreq: false,
        gpufreqv2: true,
        gpu_power_limited: false,
        gpu_opp_dump: None,
        mali: Some(s("/sys/devices/platform/13000000.mali")),
    };
    let p = mediatek_balance(&d);
    assert_eq!(p[0], lk("0 1", "/proc/ppm/policy_status"));
    assert_eq!(p[1], lk("5 0", "/proc/ppm/policy_status"));
    assert_eq!(p[2], lk("0", "/proc/cpufreq/cpufreq_cci_mode"));
    assert_eq!(p[3], lk("1", "/proc/cpufreq/cpufreq_power_mode"));
    assert_eq!(p[4], lk("-1", "/proc/gpufreqv2/fix_target_opp_index"));
    assert_eq!(p[5], lk("1", "/sys/devices/system/cpu/eas/enable"));
    assert_eq!(p[6], lk("0", "/proc/perfmgr/syslimiter/syslimiter_force_disable"));
    assert_eq!(p.last().unwrap(), &lk("coarse_demand", "/sys/devices/platform/13000000.mali/power_policy"));
    assert_eq!(p.len(), 15);
}

#[test]
fn mediatek_performance_pins_the_gpu() {
    let mut d = bare_mtk();
    d.gpufreq = true;
    d.gpu_power_limited = true;
    d.gpu_opp_dump = Some(s("[0] freq = 500000\n[1] freq = 900000\n"));
    let p = mediatek_performance(&d);
    assert_eq!(p[0], lk("1", "/proc/cpufreq/cpufreq_cci_mode"));
    assert_eq!(p[1], lk("3", "/proc/cpufreq/cpufreq_power_mode"));
    assert_eq!(p[2], lk("900000", "/proc/gpufreq/gpufreq_opp_freq"));
    assert_eq!(p[3], lk("0", "/sys/devices/system/cpu/eas/enable"));
    assert_eq!(p[4], lk("ignore_batt_oc 1", "/proc/gpufreq/gpufreq_power_limited"));
    assert_eq!(p[8], lk("ignore_pbm_limited 1", "/proc/gpufreq/gpufreq_power_limited"));
    assert_eq!(p[10], lk("stop 1", "/proc/mtk_batoc_throttling/battery_oc_protect_stop"));
    assert_eq!(p.len(), 16);
}

#[test]
fn mediatek_powersave_profile() {
    let p = mediatek_powersave(&bare_mtk());
    assert_eq!(p[0], lk("0", "/sys/devices/platform/10012000.dvfsrc/helio-dvfsrc/dvfsrc_req_ddr_opp"));
    assert_eq!(p[2], lk("powersave", "/sys/class/devfreq/mtk-dvfsrc-devfreq/governor"));
    assert_eq!(p[7], lk("1", "/sys/kernel/eara_thermal/enable"));
    assert_eq!(p.len(), 8);
}

fn qcom() -> QcomDevice {
    QcomDevice {
        latfloor: vec![s("/sys/class/devfreq/soc:qcom,cpu-ddr-latfloor")],
        lat: vec![s("/sys/class/devfreq/soc:qcom,cpu0-cpu-l3-lat")],
        ddr_bw: vec![],
        llcc_bw: vec![s("/sys/class/devfreq/soc:qcom,cpu-cpu-llcc-bw")],
        buses: vec![BusDcvs {
            avail: s("300 800 1500"),
            max_files: vec![s("/bus/LLCC/a/max_freq"), s("/bus/LLCC/b/max_freq")],
            min_files: vec![s("/bus/LLCC/a/min_freq")],
        }],
        gpu_avail: Some(s("900 200 300 600")),
        gpubw: vec![s("/sys/class/devfreq/soc:qcom,gpubw")],
    }
}

#[test]
fn snapdragon_balanced_profile() {
    assert_eq!(snapdragon_balance(&qcom()), vec![
        lk("compute", "/sys/class/devfreq/soc:qcom,cpu-ddr-latfloor/governor"),
        lk("mem_latency", "/sys/class/devfreq/soc:qcom,cpu0-cpu-l3-lat/governor"),
        lk("bw_hwmon", "/sys/class/devfreq/soc:qcom,cpu-cpu-llcc-bw/governor"),
        lk("1500", "/bus/LLCC/a/max_freq"),
        lk("1500", "/bus/LLCC/b/max_freq"),
        lk("300", "/bus/LLCC/a/min_freq"),
        lk("300", "/sys/class/kgsl/kgsl-3d0/devfreq/min_freq"),
        lk("900", "/sys/class/kgsl/kgsl-3d0/devfreq/max_freq"),
        lk("bw_vbif", "/sys/class/devfreq/soc:qcom,gpubw/governor"),
        lk("1", "/sys/class/kgsl/kgsl-3d0/devfreq/adrenoboost"),
    ]);
}

#[test]
fn snapdragon_performance_and_powersave() {
    let perf = snapdragon_performance(&qcom());
    assert_eq!(perf[5], lk("1500", "/bus/LLCC/a/min_freq"));
    assert_eq!(perf[6], lk("900", "/sys/class/kgsl/kgsl-3d0/devfreq/min_freq"));
    assert_eq!(perf[9], lk("3", "/sys/class/kgsl/kgsl-3d0/devfreq/adrenoboost"));
    let save = snapdragon_powersave(&qcom());
    assert_eq!(save[3], lk("300", "/bus/LLCC/a/max_freq"));
    assert_eq!(save[6], lk("300", "/sys/class/kgsl/kgsl-3d0/devfreq/min_freq"));
    assert_eq!(save[7], lk("300", "/sys/class/kgsl/kgsl-3d0/devfreq/max_freq"));
    assert_eq!(save[9], lk("0", "/sys/class/kgsl/kgsl-3d0/devfreq/adrenoboost"));
    let mut one = qcom();
    one.gpu_avail = Some(s("450"));
    let save = snapdragon_powersave(&one);
    assert_eq!(save[6], lk("450", "/sys/class/kgsl/kgsl-3d0/devfreq/min_freq"));
}

fn mif() -> Vec<DevfreqNode> {
    vec![DevfreqNode { path: s("/sys/class/devfreq/17000010.devfreq_mif"), avail: Some(s("421000 845000 1539000")) }]
}

#[test]
fn exynos_profiles() {
    let d = ExynosDevice { gpu_avail: Some(s("100 400 200")), mali: Some(s("/m")), mif: mif() };
    assert_eq!(exynos_balance(&d, "0"), vec![
        lk("400", "/sys/kernel/gpu/gpu_max_clock"),
        lk("100", "/sys/kernel/gpu/gpu_min_clock"),
        lk("coarse_demand", "/m/power_policy"),
        un("1539000", "/sys/class/devfreq/17000010.devfreq_mif/max_freq"),
        un("421000", "/sys/class/devfreq/17000010.devfreq_mif/min_freq"),
    ]);
    assert_eq!(exynos_balance(&d, "1").len(), 3);
    assert_eq!(exynos_performance(&d, "1", "0"), vec![
        lk("400", "/sys/kernel/gpu/gpu_max_clock"),
        lk("200", "/sys/kernel/gpu/gpu_min_clock"),
        lk("always_on", "/m/power_policy"),
        lk("1539000", "/sys/class/devfreq/17000010.devfreq_mif/max_freq"),
        lk("845000", "/sys/class/devfreq/17000010.devfreq_mif/min_freq"),
    ]);
    assert_eq!(exynos_performance(&d, "0", "0")[1], lk("400", "/sys/kernel/gpu/gpu_min_clock"));
    assert_eq!(exynos_powersave(&d), vec![
        lk("100", "/sys/kernel/gpu/gpu_min_clock"),
        lk("100", "/sys/kernel/gpu/gpu_max_clock"),
    ]);
    let none = ExynosDevice { gpu_avail: None, mali: None, mif: vec![] };
    assert_eq!(exynos_powersave(&none), vec![]);
}

#[test]
fn unisoc_profiles() {
    let g = Some(DevfreqNode { path: s("/g"), avail: Some(s("3 1 2")) });
    assert_eq!(unisoc_balance(&g), vec![un("3", "/g/max_freq"), un("1", "/g/min_freq")]);
    assert_eq!(unisoc_performance(&g, "0"), vec![lk("3", "/g/max_freq"), lk("3", "/g/min_freq")]);
    assert_eq!(unisoc_performance(&g, "1"), vec![lk("3", "/g/max_freq"), lk("2", "/g/min_freq")]);
    assert_eq!(unisoc_performance(&g, "junk"), vec![lk("3", "/g/max_freq"), lk("3", "/g/min_freq")]);
    assert_eq!(unisoc_powersave(&g), vec![lk("1", "/g/min_freq"), lk("1", "/g/max_freq")]);
    assert_eq!(unisoc_powersave(&None), vec![]);
}

#[test]
fn tensor_profiles() {
    let d = TensorDevice { mali: Some(GpuTable { path: s("/mali"), table: s("151000 848000 302000") }), mif: mif() };
    assert_eq!(tensor_balance(&d, "1"), vec![
        lk("848000", "/mali/scaling_max_freq"),
        lk("151000", "/mali/scaling_min_freq"),
    ]);
    assert_eq!(tensor_balance(&d, "0").len(), 4);
    assert_eq!(tensor_performance(&d, "1", "1"), vec![
        lk("848000", "/mali/scaling_max_freq"),
        lk("302000", "/mali/scaling_min_freq"),
    ]);
    assert_eq!(tensor_performance(&d, "0", "0")[3], lk("1539000", "/sys/class/devfreq/17000010.devfreq_mif/min_freq"));
    assert_eq!(tensor_powersave(&d), vec![
        lk("151000", "/mali/scaling_min_freq"),
        lk("151000", "/mali/scaling_max_freq"),
    ]);
}
