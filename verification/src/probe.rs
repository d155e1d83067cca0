//! Single readings of the device: battery current and state, the display
//! resolution, the default I/O scheduler and CPU governor, the display
//! refresh rate.
use vstd::prelude::*;
use crate::freq::{leq_i64, sorted_copy};
use crate::num::{is_digit, is_digit_exec, parse_i32, parse_i32_chars, parse_i64, parse_i64_chars};
use crate::scan::{bracket_chars, bracket_of};
use crate::text::{
    chars_eq, chars_of, contains, contains_chars, find, find_chars, lemma_find_from, lines, lines_of,
    matches_at, slice_chars, string_of, strings_view, trim, trim_chars, views, words, words_of,
};

verus! {

/// `t` without one leading minus sign, if it has one.
pub open spec fn strip_minus(t: Seq<char>) -> Seq<char> {
    if t.len() > 0 && t[0] == '-' { t.drop_first() } else { t }
}

/// The current in mA that a battery file reports: its trimmed text without
/// a leading minus, as an `i32`; a value above 1000 is taken as µA and
/// divided by 1000.
pub open spec fn ma_of(s: Seq<char>) -> Option<i32> {
    match parse_i32(strip_minus(trim(s))) {
        Some(v) => Some(if v > 1000 { (v / 1000) as i32 } else { v }),
        None => None,
    }
}

/// The current in mA that a battery file reports.
pub fn current_ma_of(content: &str) -> (r: Option<i32>)
    ensures
        r == ma_of(content@),
{
    let t = trim_chars(chars_of(content).as_slice());
    let u = if t.len() > 0 && t[0] == '-' {
        slice_chars(t.as_slice(), 1, t.len())
    } else {
        t
    };
    match parse_i32_chars(u.as_slice()) {
        Some(v) => Some(if v > 1000 { v / 1000 } else { v }),
        None => None,
    }
}

/// The current that the first readable battery file reports, 9999 when
/// none reports one.
pub open spec fn first_ma(fs: Seq<Option<Seq<char>>>) -> i32
    decreases fs.len(),
{
    if fs.len() == 0 {
        9999
    } else {
        match fs[0] {
            Some(c) => match ma_of(c) {
                Some(v) => v,
                None => first_ma(fs.drop_first()),
            },
            None => first_ma(fs.drop_first()),
        }
    }
}

/// The texts of a list of optional strings.
pub open spec fn opt_strings_view(fs: Seq<Option<String>>) -> Seq<Option<Seq<char>>> {
    fs.map_values(|o: Option<String>| match o {
        Some(s) => Some(s@),
        None => None,
    })
}

/// The battery current files, in order of preference.
pub open spec fn current_files() -> Seq<Seq<char>> {
    seq![
        "/sys/class/power_supply/battery/current_now"@,
        "/sys/class/power_supply/battery/BatteryAverageCurrent"@,
        "/sys/class/power_supply/battery/input_current_now"@,
        "/sys/class/power_supply/usb/current_now"@,
    ]
}

/// The battery current files, in order of preference.
pub fn battery_current_files() -> (res: Vec<String>)
    ensures
        strings_view(res@) == current_files(),
{
    let v = crate::plan::args_of(
        &[
            "/sys/class/power_supply/battery/current_now",
            "/sys/class/power_supply/battery/BatteryAverageCurrent",
            "/sys/class/power_supply/battery/input_current_now",
            "/sys/class/power_supply/usb/current_now",
        ],
    );
    assert(strings_view(v@) =~= current_files());
    v
}

/// The charging current in mA, from the battery current files in order of
/// preference (each `None` when it cannot be read); 9999 when none reports
/// a current.
pub fn read_current_ma(files: &[Option<String>]) -> (r: i32)
    ensures
        r == first_ma(opt_strings_view(files@)),
{
    let ghost fv = opt_strings_view(files@);
    let mut k: usize = 0;
    assert(fv.skip(0) == fv);
    while k < files.len()
        invariant
            k <= files.len(),
            fv == opt_strings_view(files@),
            first_ma(fv) == first_ma(fv.skip(k as int)),
        decreases files.len() - k,
    {
        assert(fv.skip(k as int)[0] == fv[k as int]);
        assert(fv.skip(k as int).drop_first() == fv.skip(k + 1));
        if let Some(c) = &files[k] {
            if let Some(v) = current_ma_of(c.as_str()) {
                return v;
            }
        }
        k = k + 1;
    }
    assert(fv.skip(files.len() as int).len() == 0);
    9999
}

/// The battery status file says the battery charges or is full.
pub open spec fn charging_status(s: Seq<char>) -> bool {
    trim(s) == "Charging"@ || trim(s) == "Full"@
}

/// Whether the device charges, from the battery status file (`None` when it
/// cannot be read).
pub fn ischarging(status: Option<&str>) -> (b: bool)
    ensures
        b == (match status {
            Some(s) => charging_status(s@),
            None => false,
        }),
{
    match status {
        Some(s) => {
            let t = trim_chars(chars_of(s).as_slice());
            chars_eq(t.as_slice(), chars_of("Charging").as_slice()) || chars_eq(
                t.as_slice(),
                chars_of("Full").as_slice(),
            )
        },
        None => false,
    }
}

/// The scheduler a block queue's `scheduler` file marks as current (the one
/// in brackets), `none` when it marks none.
pub open spec fn io_sched_of(s: Seq<char>) -> Seq<char> {
    match bracket_of(s) {
        Some(v) => v,
        None => "none"@,
    }
}

proof fn lemma_first_char(s: Seq<char>, x: char, k: int)
    requires
        0 <= k < s.len(),
        s[k] == x,
        forall|j: int| 0 <= j < k ==> s[j] != x,
    ensures
        find(s, seq![x]) == Some(k),
{
    lemma_find_from(s, seq![x], 0);
    assert(s.subrange(k, k + 1) =~= seq![x]);
    assert(matches_at(s, seq![x], k));
    match find(s, seq![x]) {
        Some(m) => {
            if m < k {
                assert(s.subrange(m, m + 1)[0] == s[m]);
            } else if m > k {
                assert(!matches_at(s, seq![x], k));
            }
        },
        None => {},
    }
}

/// A scheduler file marks its current scheduler in brackets: for a text
/// `a [b] c` whose part `a` holds no `[` and `b` no `]`, the current
/// scheduler is `b`; a text with no `[` marks none, and gives `none`.
pub proof fn law_io_sched(a: Seq<char>, b: Seq<char>, c: Seq<char>)
    ensures
        !a.contains('[') && !b.contains(']') ==> io_sched_of(a + seq!['['] + b + seq![']'] + c) == b,
        !a.contains('[') ==> io_sched_of(a) == "none"@,
{
    reveal_strlit("[");
    reveal_strlit("]");
    assert("["@ =~= seq!['[']);
    assert("]"@ =~= seq![']']);
    if !a.contains('[') {
        lemma_find_from(a, seq!['['], 0);
        match find(a, seq!['[']) {
            Some(m) => {
                assert(a.subrange(m, m + 1)[0] == a[m]);
                assert(a.contains(a[m]));
            },
            None => {},
        }
        if !b.contains(']') {
            let s = a + seq!['['] + b + seq![']'] + c;
            let k = a.len() as int;
            assert forall|j: int| 0 <= j < k implies s[j] != '[' by {
                assert(s[j] == a[j]);
                assert(a.contains(a[j]));
            }
            assert(s[k] == '[');
            lemma_first_char(s, '[', k);
            let r = s.skip(k);
            let e = (b.len() + 1) as int;
            assert forall|j: int| 0 <= j < e implies r[j] != ']' by {
                if j > 0 {
                    assert(r[j] == b[j - 1]);
                    assert(b.contains(b[j - 1]));
                }
            }
            assert(r[e] == ']');
            lemma_first_char(r, ']', e);
            assert(s.subrange(k + 1, k + e) =~= b);
        }
    }
}

/// The current I/O scheduler that a block queue's `scheduler` file marks.
pub fn default_io_scheduler(content: &str) -> (res: String)
    ensures
        res@ == io_sched_of(content@),
{
    match bracket_chars(chars_of(content).as_slice()) {
        Some(v) => string_of(v.as_slice()),
        None => string_of(chars_of("none").as_slice()),
    }
}

/// A resolution word: exactly one `x`, every other character a digit.
pub open spec fn is_resolution(w: Seq<char>) -> bool {
    exists|k: int|
        0 <= k < w.len() && w[k] == 'x' && forall|i: int| 0 <= i < w.len() && i != k ==> is_digit(#[trigger] w[i])
}

/// The first resolution word among `ws`.
pub open spec fn first_resolution(ws: Seq<Seq<char>>) -> Option<Seq<char>>
    decreases ws.len(),
{
    if ws.len() == 0 {
        None
    } else if is_resolution(ws[0]) {
        Some(ws[0])
    } else {
        first_resolution(ws.drop_first())
    }
}

fn is_resolution_chars(w: &[char]) -> (b: bool)
    ensures
        b == is_resolution(w@),
{
    let mut xpos: Option<usize> = None;
    let mut k: usize = 0;
    while k < w.len()
        invariant
            k <= w.len(),
            xpos matches Some(p) ==> p < k && w@[p as int] == 'x' && forall|i: int|
                0 <= i < k && i != p ==> is_digit(#[trigger] w@[i]),
            xpos is None ==> forall|i: int| 0 <= i < k ==> is_digit(#[trigger] w@[i]),
        decreases w.len() - k,
    {
        let c = w[k];
        if c == 'x' {
            match xpos {
                Some(p) => {
                    proof {
                        if is_resolution(w@) {
                            let q = choose|q: int|
                                0 <= q < w@.len() && w@[q] == 'x' && forall|i: int|
                                    0 <= i < w@.len() && i != q ==> is_digit(#[trigger] w@[i]);
                            if q == p {
                                assert(is_digit(w@[k as int]));
                            } else {
                                assert(is_digit(w@[p as int]));
                            }
                        }
                    }
                    return false;
                },
                None => {
                    xpos = Some(k);
                },
            }
        } else if !is_digit_exec(c) {
            proof {
                if is_resolution(w@) {
                    let q = choose|q: int|
                        0 <= q < w@.len() && w@[q] == 'x' && forall|i: int|
                            0 <= i < w@.len() && i != q ==> is_digit(#[trigger] w@[i]);
                    assert(q != k);
                    assert(is_digit(w@[k as int]));
                }
            }
            return false;
        }
        k = k + 1;
    }
    match xpos {
        Some(p) => true,
        None => {
            proof {
                if is_resolution(w@) {
                    let q = choose|q: int|
                        0 <= q < w@.len() && w@[q] == 'x' && forall|i: int|
                            0 <= i < w@.len() && i != q ==> is_digit(#[trigger] w@[i]);
                    assert(is_digit(w@[q]));
                }
            }
            false
        },
    }
}

/// The physical resolution that `wm size` prints: its first word with
/// exactly one `x` between digits.
pub fn detect_resolution(wm_output: &str) -> (r: Option<String>)
    ensures
        r matches Some(s) ==> first_resolution(words(wm_output@)) == Some(s@),
        r is None ==> first_resolution(words(wm_output@)) is None,
{
    let ws = words_of(chars_of(wm_output).as_slice());
    let ghost wv = views(ws@);
    let mut k: usize = 0;
    assert(wv.skip(0) == wv);
    while k < ws.len()
        invariant
            k <= ws.len(),
            wv == views(ws@),
            wv == words(wm_output@),
            first_resolution(wv) == first_resolution(wv.skip(k as int)),
        decreases ws.len() - k,
    {
        assert(wv.skip(k as int)[0] == ws@[k as int]@);
        assert(wv.skip(k as int).drop_first() == wv.skip(k + 1));
        if is_resolution_chars(ws[k].as_slice()) {
            return Some(string_of(ws[k].as_slice()));
        }
        k = k + 1;
    }
    assert(wv.skip(ws.len() as int).len() == 0);
    None
}

/// The package a line of `cmd package list packages` names: what follows
/// its first `:`.
pub open spec fn listed_package(line: Seq<char>) -> Option<Seq<char>> {
    match find(line, ":"@) {
        Some(p) => Some(line.skip(p + 1)),
        None => None,
    }
}

/// The packages that the lines of a package listing name, in order.
pub open spec fn listed_packages(ls: Seq<Seq<char>>) -> Seq<Seq<char>>
    decreases ls.len(),
{
    if ls.len() == 0 {
        seq![]
    } else {
        listed_packages(ls.drop_last()) + match listed_package(ls.last()) {
            Some(p) => seq![p],
            None => seq![],
        }
    }
}

/// The packages of a package listing, to compile ahead of time.
pub fn jit_packages(listing: &str) -> (res: Vec<String>)
    ensures
        strings_view(res@) == listed_packages(lines(listing@)),
{
    proof {
        reveal_strlit(":");
    }
    let ls = lines_of(chars_of(listing).as_slice());
    let ghost lv = views(ls@);
    let mut out: Vec<String> = Vec::new();
    let mut k: usize = 0;
    while k < ls.len()
        invariant
            k <= ls.len(),
            lv == views(ls@),
            lv == lines(listing@),
            strings_view(out@) == listed_packages(lv.take(k as int)),
        decreases ls.len() - k,
    {
        let line = ls[k].as_slice();
        assert(lv[k as int] == line@);
        assert(lv.take(k + 1).drop_last() == lv.take(k as int));
        let ghost o = strings_view(out@);
        match find_chars(line, chars_of(":").as_slice(), 0) {
            Some(p) => {
                proof {
                    reveal_strlit(":");
                    lemma_find_from(line@, ":"@, 0);
                    assert(matches_at(line@, ":"@, p as int));
                    assert(":"@.len() == 1);
                    assert(p + 1 <= line@.len());
                }
                let n = line.len();
                let pkg = slice_chars(line, p + 1, n);
                assert(pkg@ == line@.skip(p + 1));
                out.push(string_of(pkg.as_slice()));
                assert(strings_view(out@) =~= o.push(pkg@));
            },
            None => {},
        }
        k = k + 1;
    }
    assert(lv.take(ls.len() as int) == lv);
    out
}

/// The refresh rate that a vsync period in ns gives, rounded to the nearest
/// integer, when it is a plausible display rate (30 to 240 Hz).
pub open spec fn rate_of(line: Seq<char>) -> Option<i64> {
    match parse_i64(trim(line)) {
        Some(p) => if p > 0 {
            let r = (1_000_000_000 + p / 2) / (p as int);
            if 30 <= r <= 240 { Some(r as i64) } else { None }
        } else {
            None
        },
        None => None,
    }
}

/// The refresh rate sample that an output of `dumpsys SurfaceFlinger
/// --latency` gives, through its first line.
pub open spec fn refresh_sample_of(out: Seq<char>) -> Option<i64> {
    if lines(out).len() > 0 { rate_of(lines(out)[0]) } else { None }
}

/// The refresh rate sample of an output of `dumpsys SurfaceFlinger --latency`.
pub fn refresh_rate_sample(out: &str) -> (r: Option<i64>)
    ensures
        r == refresh_sample_of(out@),
{
    let ls = lines_of(chars_of(out).as_slice());
    if ls.len() == 0 {
        return None;
    }
    assert(views(ls@)[0] == ls@[0]@);
    let t = trim_chars(ls[0].as_slice());
    match parse_i64_chars(t.as_slice()) {
        Some(p) => {
            if p > 0 {
                let r = (1_000_000_000 + p / 2) / p;
                if 30 <= r && r <= 240 {
                    Some(r)
                } else {
                    None
                }
            } else {
                None
            }
        },
        None => None,
    }
}

/// The median of the samples in ascending order: the middle one, the mean
/// of the two middle ones (rounded toward zero) for an even count, 60 when
/// there are none.
pub open spec fn median_of(samples: Seq<i64>) -> int {
    let t = samples.sort_by(leq_i64());
    let n = t.len() as int;
    if n == 0 {
        60
    } else if n % 2 == 1 {
        t[n / 2] as int
    } else {
        let s = t[n / 2 - 1] + t[n / 2];
        if s >= 0 { s / 2 } else { -((-s) / 2) }
    }
}

/// The two middle samples of an even count can be added without overflow.
pub open spec fn median_fits(samples: Seq<i64>) -> bool {
    let t = samples.sort_by(leq_i64());
    let n = t.len() as int;
    n > 0 && n % 2 == 0 ==> i64::MIN <= t[n / 2 - 1] + t[n / 2] <= i64::MAX
}

/// The refresh rate that the samples give: their median, 60 without samples.
pub fn median_refresh(samples: &[i64]) -> (r: i64)
    requires
        median_fits(samples@),
    ensures
        r == median_of(samples@),
{
    let t = sorted_copy(samples);
    let n = t.len();
    if n == 0 {
        60
    } else if n % 2 == 1 {
        t[n / 2]
    } else {
        let s = t[n / 2 - 1] + t[n / 2];
        if s >= 0 {
            s / 2
        } else {
            -((-(s as i128)) / 2) as i64
        }
    }
}

/// The governors to fall back on, in order of preference, when the kernel
/// boots with `performance`.
pub open spec fn fallback_govs() -> Seq<Seq<char>> {
    seq![
        "scx"@, "schedhorizon"@, "walt"@, "sched_pixel"@, "sugov_ext"@, "uag"@, "schedplus"@,
        "energy_step"@, "ondemand"@, "schedutil"@, "interactive"@, "conservative"@, "powersave"@,
    ]
}

/// The first of `govs` that the list of available governors mentions.
pub open spec fn first_listed(avail: Seq<char>, govs: Seq<Seq<char>>) -> Option<Seq<char>>
    decreases govs.len(),
{
    if govs.len() == 0 {
        None
    } else if contains(avail, govs[0]) {
        Some(govs[0])
    } else {
        first_listed(avail, govs.drop_first())
    }
}

/// The governor to use in place of a boot governor of `performance`: when
/// no custom default is set and the available governors can be read, the
/// first fallback governor they mention.
pub open spec fn fallback_of(detected: Seq<char>, custom: Seq<char>, avail: Option<Seq<char>>) -> Option<Seq<char>> {
    if detected == "performance"@ && custom.len() == 0 {
        match avail {
            Some(a) => first_listed(a, fallback_govs()),
            None => None,
        }
    } else {
        None
    }
}

fn fallback_list() -> (res: Vec<String>)
    ensures
        strings_view(res@) == fallback_govs(),
{
    let mut v: Vec<String> = Vec::new();
    v.push(string_of(chars_of("scx").as_slice()));
    v.push(string_of(chars_of("schedhorizon").as_slice()));
    v.push(string_of(chars_of("walt").as_slice()));
    v.push(string_of(chars_of("sched_pixel").as_slice()));
    v.push(string_of(chars_of("sugov_ext").as_slice()));
    v.push(string_of(chars_of("uag").as_slice()));
    v.push(string_of(chars_of("schedplus").as_slice()));
    v.push(string_of(chars_of("energy_step").as_slice()));
    v.push(string_of(chars_of("ondemand").as_slice()));
    v.push(string_of(chars_of("schedutil").as_slice()));
    v.push(string_of(chars_of("interactive").as_slice()));
    v.push(string_of(chars_of("conservative").as_slice()));
    v.push(string_of(chars_of("powersave").as_slice()));
    assert(strings_view(v@) =~= fallback_govs());
    v
}

/// The governor to fall back on when the CPU boots with `performance`:
/// `detected` is the boot governor of cpu0, `custom` the custom default
/// property, `avail` the list of available governors when it can be read.
pub fn fallback_governor(detected: &str, custom: &str, avail: Option<&str>) -> (r: Option<String>)
    ensures
        r matches Some(g) ==> fallback_of(detected@, custom@, crate::freq::opt_view(avail)) == Some(g@),
        r is None ==> fallback_of(detected@, custom@, crate::freq::opt_view(avail)) is None,
{
    if !(chars_eq(chars_of(detected).as_slice(), chars_of("performance").as_slice()) && custom.is_empty()) {
        return None;
    }
    let a = match avail {
        Some(a) => a,
        None => {
            return None;
        },
    };
    let av = chars_of(a);
    let govs = fallback_list();
    let ghost gv = strings_view(govs@);
    let mut k: usize = 0;
    assert(gv.skip(0) == gv);
    while k < govs.len()
        invariant
            k <= govs.len(),
            gv == strings_view(govs@),
            gv == fallback_govs(),
            av@ == a@,
            detected@ == "performance"@,
            custom@.len() == 0,
            crate::freq::opt_view(avail) == Some(a@),
            first_listed(a@, gv) == first_listed(a@, gv.skip(k as int)),
        decreases govs.len() - k,
    {
        let g = chars_of(govs[k].as_str());
        assert(gv.skip(k as int)[0] == govs@[k as int]@);
        assert(gv.skip(k as int).drop_first() == gv.skip(k + 1));
        if contains_chars(av.as_slice(), g.as_slice()) {
            return Some(string_of(g.as_slice()));
        }
        k = k + 1;
    }
    assert(gv.skip(govs.len() as int).len() == 0);
    None
}

/// A configured value with defaults: the custom value when it is set, else
/// the recorded default when it is set, else `fallback`.
pub open spec fn chosen(custom: Seq<char>, default: Seq<char>, fallback: Seq<char>) -> Seq<char> {
    if custom.len() > 0 {
        custom
    } else if default.len() > 0 {
        default
    } else {
        fallback
    }
}

/// The custom value when it is set, else the recorded default when it is
/// set, else `fallback`.
pub fn choose_setting(custom: &str, default: &str, fallback: &str) -> (res: String)
    ensures
        res@ == chosen(custom@, default@, fallback@),
{
    let s = if !custom.is_empty() {
        custom
    } else if !default.is_empty() {
        default
    } else {
        fallback
    };
    string_of(chars_of(s).as_slice())
}

/// The number a property holds, 0 when it holds none.
pub open spec fn prop_int(s: Seq<char>) -> i64 {
    match parse_i64(s) {
        Some(v) => v,
        None => 0,
    }
}

/// The number a property holds, 0 when it holds none.
pub fn prop_int_exec(s: &str) -> (v: i64)
    ensures
        v == prop_int(s@),
{
    match parse_i64_chars(chars_of(s).as_slice()) {
        Some(v) => v,
        None => 0,
    }
}

} // verus!
