use tweakfls::bypass::{
    bypass_candidates, bypass_effective, bypass_probe_writes, check_bypass, disable_bypass, enable_bypass, eval_env,
    probe_result, probe_start, Bypass, Probe, ProbeAction,
};
use tweakfls::plan::Step;
use tweakfls::plan::{SysWrite, WriteMode};
use tweakfls::probe::{
    battery_current_files, choose_setting, current_ma_of, default_io_scheduler, detect_resolution, fallback_governor, ischarging,
    jit_packages, median_refresh, prop_int_exec, read_current_ma, refresh_rate_sample,
};
use tweakfls::scan::{clear_background_apps, extract_pkg, gpu_opp_max, ppm_policy_writes};

fn lk(value: &str, path: &str) -> SysWrite {
    SysWrite { value: value.to_string(), path: path.to_string(), mode: WriteMode::Locked }
}

#[test]
fn package_of_a_task_line() {
    assert_eq!(
        extract_pkg("  * Task{1a2b #12 type=standard A=10123:com.example.game U=0 visible=true}"),
        Some("com.example.game".to_string())
    );
    assert_eq!(extract_pkg("Task{ A=1:com.x}"), Some("com.x".to_string()));
    assert_eq!(extract_pkg("Task{ A=1:}"), Some(String::new()));
    assert_eq!(extract_pkg("Task{ A=com.x }"), None);
    assert_eq!(extract_pkg("no marker here"), None);
}

#[test]
fn background_apps_to_stop() {
    let dump = "\
Task{a #1 A=10001:com.game.one U=0 visible=false}
Task{b #2 A=10002:com.chat.two U=0 visible=true}
Task{c #3 A=10002:com.chat.two U=0 visible=false}
Task{d #4 A=10003:com.android.settings U=0 visible=false}
Task{e #5 A=10004:com.game.one U=0 visible=false}
Task{f #6 A=10005:com.music.three U=0 visible=false}
Task{g #7 A=10006:com.mystuff.system U=0 visible=false}
not a task A=1:com.not.task visible=false
";
    let mut got = clear_background_apps(dump);
    got.sort();
    assert_eq!(got, vec!["com.game.one".to_string(), "com.music.three".to_string()]);
    assert_eq!(clear_background_apps(""), Vec::<String>::new());
}

#[test]
fn ppm_policy_switches() {
    let status = "\
[0] PPM_POLICY_PTPOD: enabled
[1] PPM_POLICY_UT: enabled
[2] PPM_POLICY_FORCE_LIMIT: enabled
[3] PPM_POLICY_PWR_THRO: enabled
[4] PPM_POLICY_THERMAL: enabled
[6] PPM_POLICY_USER_LIMIT: enabled
[9] PPM_POLICY_SYS_BOOST: disabled
";
    let p = "/proc/ppm/policy_status";
    assert_eq!(ppm_policy_writes(Some(status), "0", Some("1"), true), vec![
        lk("2 0", p),
        lk("3 0", p),
        lk("4 0", p),
        lk("6 0", p),
        lk("9 1", p),
    ]);
    assert_eq!(ppm_policy_writes(Some(status), "0", None, false), vec![lk("2 0", p), lk("3 0", p), lk("4 0", p)]);
    assert_eq!(ppm_policy_writes(None, "0", Some("1"), true), vec![]);
    assert_eq!(ppm_policy_writes(Some("THERMAL without brackets"), "1", None, true), vec![]);
}

#[test]
fn gpu_opp_table_maximum() {
    let dump = "[0] freq = 886000, volt = 80000\n[1] freq = 1000000, volt = 85000\n[2] freq = 390000\nno entry\n";
    assert_eq!(gpu_opp_max(dump), Some(1000000));
    assert_eq!(gpu_opp_max("nothing here"), None);
    assert_eq!(gpu_opp_max("freq = x"), None);
}

#[test]
fn battery_current() {
    assert_eq!(current_ma_of("-1500000\n"), Some(1500));
    assert_eq!(current_ma_of("850"), Some(850));
    assert_eq!(current_ma_of("1000"), Some(1000));
    assert_eq!(current_ma_of("1001"), Some(1));
    assert_eq!(current_ma_of("junk"), None);
    let files = vec![None, Some("n/a".to_string()), Some(" -2000000 ".to_string()), Some("5".to_string())];
    assert_eq!(read_current_ma(&files), 2000);
    assert_eq!(read_current_ma(&[None, None]), 9999);
    assert_eq!(battery_current_files()[0], "/sys/class/power_supply/battery/current_now");
    assert_eq!(battery_current_files().len(), 4);
}

#[test]
fn charging_status() {
    assert!(ischarging(Some("Charging\n")));
    assert!(ischarging(Some("Full")));
    assert!(!ischarging(Some("Discharging")));
    assert!(!ischarging(None));
}

#[test]
fn io_scheduler_in_brackets() {
    assert_eq!(default_io_scheduler("mq-deadline kyber [bfq] none\n"), "bfq");
    assert_eq!(default_io_scheduler("none"), "none");
}

#[test]
fn resolution_from_wm_size() {
    assert_eq!(detect_resolution("Physical size: 1080x2400\n"), Some("1080x2400".to_string()));
    assert_eq!(detect_resolution("Physical size: 720x1600\nOverride size: 1080x2400"), Some("720x1600".to_string()));
    assert_eq!(detect_resolution("size: x"), Some("x".to_string()));
    assert_eq!(detect_resolution("size 10x20x30"), None);
    assert_eq!(detect_resolution(""), None);
}

#[test]
fn packages_for_ahead_of_time_compilation() {
    assert_eq!(jit_packages("package:com.a\npackage:com.b\nbroken\n"), vec!["com.a".to_string(), "com.b".to_string()]);
    assert_eq!(jit_packages(""), Vec::<String>::new());
}

#[test]
fn refresh_rate_from_vsync_period() {
    assert_eq!(refresh_rate_sample("16666666\n1 2 3\n"), Some(60));
    assert_eq!(refresh_rate_sample("8333333"), Some(120));
    assert_eq!(refresh_rate_sample("1000"), None);
    assert_eq!(refresh_rate_sample("0"), None);
    assert_eq!(refresh_rate_sample(""), None);
    assert_eq!(median_refresh(&[]), 60);
    assert_eq!(median_refresh(&[120, 60, 90]), 90);
    assert_eq!(median_refresh(&[60, 121, 90, 120]), 105);
}

#[test]
fn governor_fallback_from_performance() {
    let avail = "performance powersave schedutil walt";
    assert_eq!(fallback_governor("performance", "", Some(avail)), Some("walt".to_string()));
    assert_eq!(fallback_governor("performance", "custom", Some(avail)), None);
    assert_eq!(fallback_governor("schedutil", "", Some(avail)), None);
    assert_eq!(fallback_governor("performance", "", None), None);
    assert_eq!(fallback_governor("performance", "", Some("performance")), None);
}

#[test]
fn settings_with_defaults() {
    assert_eq!(choose_setting("a", "b", "c"), "a");
    assert_eq!(choose_setting("", "b", "c"), "b");
    assert_eq!(choose_setting("", "", "c"), "c");
    assert_eq!(prop_int_exec("1"), 1);
    assert_eq!(prop_int_exec(""), 0);
    assert_eq!(prop_int_exec("x"), 0);
}

#[test]
fn bypass_keys() {
    assert_eq!(eval_env("MTK_BYPASS_CHARGER"), "/sys/devices/platform/charger/bypass_charger");
    assert_eq!(eval_env("MTK_CURRENT_CMD_ON"), "0 1");
    assert_eq!(eval_env("MTK_CURRENT_CMD_OFF"), "0 0");
    assert_eq!(eval_env("TRAN_AICHG"), "/sys/devices/platform/charger/tran_aichg_disable_charger");
    assert_eq!(eval_env("MTK_DISABLE_CHARGER_OFF"), "0");
    assert_eq!(eval_env("UNSUPPORTED"), "");
    for (name, path) in bypass_candidates() {
        assert_eq!(eval_env(&name), path);
        assert!(!eval_env(&format!("{}_ON", name)).is_empty());
        assert!(!eval_env(&format!("{}_OFF", name)).is_empty());
    }
}

#[test]
fn bypass_on_with_retries() {
    assert!(matches!(enable_bypass(false, "MTK_BYPASS_CHARGER"), Bypass::Done(true)));
    assert!(matches!(enable_bypass(true, "UNSUPPORTED"), Bypass::Done(false)));
    let mut state = enable_bypass(true, "MTK_CURRENT_CMD");
    let mut attempts = 0;
    loop {
        match state {
            Bypass::Attempt(a) => {
                attempts += 1;
                assert_eq!(a.write(), lk("0 1", "/proc/mtk_battery_cmd/current_cmd"));
                state = a.observe("0 0", 500);
            },
            Bypass::Done(ok) => {
                assert!(!ok);
                break;
            },
        }
    }
    assert_eq!(attempts, 5);
    match enable_bypass(true, "MTK_BYPASS_CHARGER") {
        Bypass::Attempt(a) => assert!(matches!(a.observe("1\n", 8), Bypass::Done(true))),
        Bypass::Done(_) => panic!("expected an attempt"),
    }
}

#[test]
fn bypass_probe_and_off() {
    assert!(matches!(check_bypass(false, ""), Probe::Done(true)));
    assert!(matches!(check_bypass(true, "TRAN_AICHG"), Probe::Done(true)));
    assert!(matches!(check_bypass(true, ""), Probe::Run));
    assert!(matches!(check_bypass(true, "UNSUPPORTED"), Probe::Run));
    let (on, off) = bypass_probe_writes("MTK_DISABLE_CHARGER", "/sys/devices/platform/mt-battery/disable_charger");
    assert_eq!(on, lk("1", "/sys/devices/platform/mt-battery/disable_charger"));
    assert_eq!(off, lk("0", "/sys/devices/platform/mt-battery/disable_charger"));
    assert!(bypass_effective(9));
    assert!(!bypass_effective(10));
    assert_eq!(disable_bypass("MTK_BYPASS_CHARGER"), vec![lk("0", "/sys/devices/platform/charger/bypass_charger")]);
    assert_eq!(disable_bypass(""), vec![]);
}

fn tested(a: &ProbeAction) -> Option<usize> {
    match a {
        ProbeAction::Test(k, _, _) => Some(*k),
        ProbeAction::Finish(_, _) => None,
    }
}

fn finished(a: ProbeAction) -> Option<(Step, bool)> {
    match a {
        ProbeAction::Test(_, _, _) => None,
        ProbeAction::Finish(s, ok) => Some((s, ok)),
    }
}

#[test]
fn bypass_probe_steps() {
    let present = [false, true, false, true];
    let first = probe_start(&present);
    assert_eq!(tested(&first), Some(1));
    if let ProbeAction::Test(_, on, off) = &first {
        assert_eq!(on, &lk("0 1", "/proc/mtk_battery_cmd/current_cmd"));
        assert_eq!(off, &lk("0 0", "/proc/mtk_battery_cmd/current_cmd"));
    }
    let next = probe_result(&present, 1, 500);
    assert_eq!(tested(&next), Some(3));
    let none = probe_result(&present, 3, 10);
    assert_eq!(
        finished(none),
        Some((Step::SetProp("persist.sys.azenithconf.bypasspath".to_string(), "UNSUPPORTED".to_string()), false))
    );
    let found = probe_result(&present, 1, 9);
    assert_eq!(
        finished(found),
        Some((Step::SetProp("persist.sys.azenithconf.bypasspath".to_string(), "MTK_CURRENT_CMD".to_string()), true))
    );
    let empty = probe_start(&[false, false, false, false]);
    assert_eq!(
        finished(empty),
        Some((Step::SetProp("persist.sys.azenithconf.bypasspath".to_string(), "UNSUPPORTED".to_string()), false))
    );
}
