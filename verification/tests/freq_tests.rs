use tweakfls::cpufreq::{
    applyfreqbalance, applyfreqgame, balance_fits_exec, dsetfreq, dsetfreqppm, dsetgamefreq, dsetgamefreqppm,
    game_fits_exec, setfreq, setfreqppm, setgamefreq, setgamefreqppm, CpuPolicy,
};
use tweakfls::devfreq::{
    devfreq_max_perf, devfreq_mid_perf, devfreq_min_perf, devfreq_unlock, qcom_cpudcvs_max_perf, qcom_cpudcvs_mid_perf,
    qcom_cpudcvs_min_perf, qcom_cpudcvs_unlock,
};
use tweakfls::freq::{get_freq_limiter, get_freqs, setfreqs, setfreqs_fits_exec, which_maxfreq, which_midfreq, which_minfreq};
use tweakfls::num::{format_i64, parse_i64_chars};
use tweakfls::plan::{Step, SysWrite, WriteMode};

fn w(value: &str, path: &str, mode: WriteMode) -> SysWrite {
    SysWrite { value: value.to_string(), path: path.to_string(), mode }
}

fn lk(value: &str, path: &str) -> SysWrite {
    w(value, path, WriteMode::Locked)
}

fn steps(ws: Vec<SysWrite>, locked: &[&str]) -> Vec<Step> {
    let mut out: Vec<Step> = ws.into_iter().map(Step::Write).collect();
    out.extend(locked.iter().map(|p| Step::Lock(p.to_string())));
    out
}

fn chars(s: &str) -> Vec<char> {
    s.chars().collect()
}

#[test]
fn format_and_parse_round_trip() {
    for x in [0i64, 7, -42, 1_000_000, i64::MAX, i64::MIN] {
        let t = format_i64(x);
        assert_eq!(t, x.to_string());
        assert_eq!(parse_i64_chars(&chars(&t)), Some(x));
    }
}

#[test]
fn parse_follows_std_rules() {
    assert_eq!(parse_i64_chars(&chars("+5")), Some(5));
    assert_eq!(parse_i64_chars(&chars("-17")), Some(-17));
    assert_eq!(parse_i64_chars(&chars("")), None);
    assert_eq!(parse_i64_chars(&chars("-")), None);
    assert_eq!(parse_i64_chars(&chars("12a")), None);
    assert_eq!(parse_i64_chars(&chars(" 1")), None);
    assert_eq!(parse_i64_chars(&chars("9223372036854775808")), None);
    assert_eq!(parse_i64_chars(&chars("-9223372036854775808")), Some(i64::MIN));
}

#[test]
fn table_is_sorted_and_skips_junk() {
    assert_eq!(get_freqs("300 100 abc 200\n"), vec![100, 200, 300]);
    assert_eq!(get_freqs(""), Vec::<i64>::new());
    assert_eq!(get_freqs("  5\t5 1 "), vec![1, 5, 5]);
}

#[test]
fn max_min_mid_of_a_table() {
    assert_eq!(which_maxfreq("300 100 200"), "300");
    assert_eq!(which_minfreq("300 100 200"), "100");
    assert_eq!(which_midfreq("300 100 200"), "200");
    assert_eq!(which_midfreq("4 1 3 2"), "3");
    assert_eq!(which_maxfreq(""), "");
    assert_eq!(which_minfreq("x y"), "");
    assert_eq!(which_midfreq(""), "");
}

#[test]
fn snapping_to_the_nearest_frequency() {
    assert_eq!(setfreqs(Some("100 200 300"), "240"), "200");
    assert_eq!(setfreqs(Some("100 200 300"), "260"), "300");
    assert_eq!(setfreqs(Some("100 200"), "150"), "100");
    assert_eq!(setfreqs(Some("100 200 300"), "5000"), "300");
    assert_eq!(setfreqs(None, "240"), "240");
    assert_eq!(setfreqs(Some("100 200"), "abc"), "abc");
    assert_eq!(setfreqs(Some(""), "+240"), "240");
}

#[test]
fn snapping_twice_changes_nothing() {
    let table = Some("1804800 300000 576000 1094400");
    for t in ["0", "700000", "1500000", "99999999"] {
        let once = setfreqs(table, t);
        assert_eq!(setfreqs(table, &once), once);
    }
}

#[test]
fn snapping_checks_overflow() {
    assert!(setfreqs_fits_exec(Some("100 200"), "150"));
    assert!(!setfreqs_fits_exec(Some("-9223372036854775808"), "9223372036854775807"));
    assert!(setfreqs_fits_exec(None, "9223372036854775807"));
}

#[test]
fn frequency_offset_property() {
    assert_eq!(get_freq_limiter(""), 100);
    assert_eq!(get_freq_limiter("Disabled"), 100);
    assert_eq!(get_freq_limiter("85%"), 85);
    assert_eq!(get_freq_limiter("90"), 90);
    assert_eq!(get_freq_limiter("abc"), 100);
}

#[test]
fn devfreq_bounds() {
    let t = Some("100 300 200");
    assert_eq!(devfreq_max_perf("/d", t), vec![lk("300", "/d/max_freq"), lk("300", "/d/min_freq")]);
    assert_eq!(devfreq_mid_perf("/d", t), vec![lk("300", "/d/max_freq"), lk("200", "/d/min_freq")]);
    assert_eq!(
        devfreq_unlock("/d", t),
        vec![w("300", "/d/max_freq", WriteMode::Unlocked), w("100", "/d/min_freq", WriteMode::Unlocked)]
    );
    assert_eq!(devfreq_min_perf("/d", t), vec![lk("100", "/d/min_freq"), lk("100", "/d/max_freq")]);
    assert_eq!(devfreq_max_perf("/d", None), vec![]);
    assert_eq!(devfreq_unlock("/d", Some("")), vec![
        w("", "/d/max_freq", WriteMode::Unlocked),
        w("", "/d/min_freq", WriteMode::Unlocked),
    ]);
}

#[test]
fn cpu_bus_dcvs_bounds() {
    let t = Some("10 30 20 40");
    assert_eq!(qcom_cpudcvs_max_perf("/b", t), vec![lk("40", "/b/hw_max_freq"), lk("40", "/b/hw_min_freq")]);
    assert_eq!(qcom_cpudcvs_mid_perf("/b", t), vec![lk("40", "/b/hw_max_freq"), lk("30", "/b/hw_min_freq")]);
    assert_eq!(
        qcom_cpudcvs_unlock("/b", t),
        vec![w("40", "/b/hw_max_freq", WriteMode::Unlocked), w("10", "/b/hw_min_freq", WriteMode::Unlocked)]
    );
    assert_eq!(qcom_cpudcvs_min_perf("/b", t), vec![lk("10", "/b/hw_min_freq"), lk("10", "/b/hw_max_freq")]);
    assert_eq!(qcom_cpudcvs_min_perf("/b", None), vec![]);
}

fn policies() -> Vec<CpuPolicy> {
    vec![
        CpuPolicy {
            path: "/cpu/policy0".to_string(),
            max_file: "2000\n".to_string(),
            min_file: "500\n".to_string(),
            avail: Some("500 800 1000 1500 2000".to_string()),
        },
        CpuPolicy {
            path: "/cpu/policy4".to_string(),
            max_file: "3000".to_string(),
            min_file: "700".to_string(),
            avail: None,
        },
    ]
}

#[test]
fn balanced_bounds_through_the_policies() {
    let ps = policies();
    let files = vec!["/cpu/policy0/scaling_max_freq".to_string()];
    assert!(balance_fits_exec(&ps, "75%", ""));
    assert_eq!(setfreq(&ps, &files, "75%", ""), steps(vec![
        lk("1500", "/cpu/policy0/scaling_max_freq"),
        lk("500", "/cpu/policy0/scaling_min_freq"),
        lk("2250", "/cpu/policy4/scaling_max_freq"),
        lk("700", "/cpu/policy4/scaling_min_freq"),
    ], &["/cpu/policy0/scaling_max_freq"]));
}

#[test]
fn eco_bounds_through_the_policies() {
    let ps = policies();
    assert_eq!(setfreq(&ps, &[], "Disabled", "3\n"), steps(vec![
        lk("2000", "/cpu/policy0/scaling_max_freq"),
        lk("800", "/cpu/policy0/scaling_min_freq"),
        lk("3000", "/cpu/policy4/scaling_max_freq"),
        lk("1200", "/cpu/policy4/scaling_min_freq"),
    ], &[]));
}

#[test]
fn balanced_bounds_through_ppm() {
    let ps = policies();
    let max = "/proc/ppm/policy/hard_userlimit_max_cpu_freq";
    let min = "/proc/ppm/policy/hard_userlimit_min_cpu_freq";
    assert_eq!(setfreqppm(&ps, "", ""), vec![lk("0 2000", max), lk("0 500", min), lk("1 3000", max), lk("1 700", min)]);
    assert_eq!(dsetfreqppm(&ps, "", ""), vec![
        w("0 2000", max, WriteMode::Plain),
        w("0 500", min, WriteMode::Plain),
        w("1 3000", max, WriteMode::Plain),
        w("1 700", min, WriteMode::Plain),
    ]);
}

#[test]
fn performance_bounds() {
    let ps = policies();
    assert!(game_fits_exec(&ps));
    assert_eq!(setgamefreq(&ps, &[], "0"), steps(vec![
        lk("2000", "/cpu/policy0/scaling_max_freq"),
        lk("2000", "/cpu/policy0/scaling_min_freq"),
        lk("3000", "/cpu/policy4/scaling_max_freq"),
        lk("3000", "/cpu/policy4/scaling_min_freq"),
    ], &[]));
    assert_eq!(setgamefreq(&ps, &[], "1"), steps(vec![
        lk("2000", "/cpu/policy0/scaling_max_freq"),
        lk("500", "/cpu/policy0/scaling_min_freq"),
        lk("3000", "/cpu/policy4/scaling_max_freq"),
        lk("700", "/cpu/policy4/scaling_min_freq"),
    ], &[]));
    let max = "/proc/ppm/policy/hard_userlimit_max_cpu_freq";
    let min = "/proc/ppm/policy/hard_userlimit_min_cpu_freq";
    assert_eq!(setgamefreqppm(&ps, "0"), vec![lk("0 2000", max), lk("0 2000", min), lk("1 3000", max), lk("1 3000", min)]);
    assert_eq!(setgamefreqppm(&ps, "1"), vec![lk("0 2000", max), lk("0 500", min), lk("1 3000", max), lk("1 700", min)]);
}

#[test]
fn plain_bounds_and_dispatch() {
    let ps = policies();
    let files = vec!["/cpu/policy0/scaling_min_freq".to_string()];
    let plain = dsetgamefreq(&ps, &files, "0");
    assert_eq!(plain.len(), 5);
    assert_eq!(plain[4], Step::Lock("/cpu/policy0/scaling_min_freq".to_string()));
    assert!(plain[..4].iter().all(|x| matches!(x, Step::Write(w) if w.mode == WriteMode::Plain)));
    assert_eq!(applyfreqgame(false, &ps, &files, "0"), plain);
    assert_eq!(applyfreqgame(true, &ps, &files, "0"), steps(dsetgamefreqppm(&ps, "0"), &[]));
    assert_eq!(applyfreqbalance(false, &ps, &files, "", ""), dsetfreq(&ps, &files, "", ""));
    assert_eq!(applyfreqbalance(true, &ps, &files, "", ""), steps(dsetfreqppm(&ps, "", ""), &[]));
}
