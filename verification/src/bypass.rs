//! Bypass charging: the kernel switches that feed the device from the
//! charger without charging the battery, how a switch is found, turned on
//! with retries, and turned off.
use vstd::prelude::*;
use crate::plan::{push_write, write_of, writes_view, wv, Step, StepView, SysWrite, WriteMode};
use crate::text::{chars_eq, chars_of, concat_str, string_of, trim, trim_chars};

verus! {

/// What a bypass charging key stands for: the switch file of a method, or
/// the value that turns it on (`_ON`) or off (`_OFF`); empty for an unknown
/// key.
pub open spec fn env_value(key: Seq<char>) -> Seq<char> {
    if key == "MTK_BYPASS_CHARGER"@ {
        "/sys/devices/platform/charger/bypass_charger"@
    } else if key == "MTK_BYPASS_CHARGER_ON"@ {
        "1"@
    } else if key == "MTK_BYPASS_CHARGER_OFF"@ {
        "0"@
    } else if key == "MTK_CURRENT_CMD"@ {
        "/proc/mtk_battery_cmd/current_cmd"@
    } else if key == "MTK_CURRENT_CMD_ON"@ {
        "0 1"@
    } else if key == "MTK_CURRENT_CMD_OFF"@ {
        "0 0"@
    } else if key == "TRAN_AICHG"@ {
        "/sys/devices/platform/charger/tran_aichg_disable_charger"@
    } else if key == "TRAN_AICHG_ON"@ {
        "1"@
    } else if key == "TRAN_AICHG_OFF"@ {
        "0"@
    } else if key == "MTK_DISABLE_CHARGER"@ {
        "/sys/devices/platform/mt-battery/disable_charger"@
    } else if key == "MTK_DISABLE_CHARGER_ON"@ {
        "1"@
    } else if key == "MTK_DISABLE_CHARGER_OFF"@ {
        "0"@
    } else {
        seq![]
    }
}

fn lit(s: &str) -> (r: String)
    ensures
        r@ == s@,
{
    string_of(chars_of(s).as_slice())
}

fn key_is(key: &[char], name: &str) -> (b: bool)
    ensures
        b == (key@ == name@),
{
    chars_eq(key, chars_of(name).as_slice())
}

/// What a bypass charging key stands for.
pub fn eval_env(key: &str) -> (res: String)
    ensures
        res@ == env_value(key@),
{
    let k = chars_of(key);
    let k = k.as_slice();
    if key_is(k, "MTK_BYPASS_CHARGER") {
        lit("/sys/devices/platform/charger/bypass_charger")
    } else if key_is(k, "MTK_BYPASS_CHARGER_ON") {
        lit("1")
    } else if key_is(k, "MTK_BYPASS_CHARGER_OFF") {
        lit("0")
    } else if key_is(k, "MTK_CURRENT_CMD") {
        lit("/proc/mtk_battery_cmd/current_cmd")
    } else if key_is(k, "MTK_CURRENT_CMD_ON") {
        lit("0 1")
    } else if key_is(k, "MTK_CURRENT_CMD_OFF") {
        lit("0 0")
    } else if key_is(k, "TRAN_AICHG") {
        lit("/sys/devices/platform/charger/tran_aichg_disable_charger")
    } else if key_is(k, "TRAN_AICHG_ON") {
        lit("1")
    } else if key_is(k, "TRAN_AICHG_OFF") {
        lit("0")
    } else if key_is(k, "MTK_DISABLE_CHARGER") {
        lit("/sys/devices/platform/mt-battery/disable_charger")
    } else if key_is(k, "MTK_DISABLE_CHARGER_ON") {
        lit("1")
    } else if key_is(k, "MTK_DISABLE_CHARGER_OFF") {
        lit("0")
    } else {
        String::new()
    }
}

/// The bypass methods, in the order they are tried: a name and its switch
/// file.
pub open spec fn candidates() -> Seq<(Seq<char>, Seq<char>)> {
    seq![
        ("MTK_BYPASS_CHARGER"@, "/sys/devices/platform/charger/bypass_charger"@),
        ("MTK_CURRENT_CMD"@, "/proc/mtk_battery_cmd/current_cmd"@),
        ("TRAN_AICHG"@, "/sys/devices/platform/charger/tran_aichg_disable_charger"@),
        ("MTK_DISABLE_CHARGER"@, "/sys/devices/platform/mt-battery/disable_charger"@),
    ]
}

/// The bypass methods, in the order they are tried: a name and its switch
/// file.
pub fn bypass_candidates() -> (res: Vec<(String, String)>)
    ensures
        res@.map_values(|c: (String, String)| (c.0@, c.1@)) == candidates(),
{
    let mut v: Vec<(String, String)> = Vec::new();
    v.push((lit("MTK_BYPASS_CHARGER"), lit("/sys/devices/platform/charger/bypass_charger")));
    v.push((lit("MTK_CURRENT_CMD"), lit("/proc/mtk_battery_cmd/current_cmd")));
    v.push((lit("TRAN_AICHG"), lit("/sys/devices/platform/charger/tran_aichg_disable_charger")));
    v.push((lit("MTK_DISABLE_CHARGER"), lit("/sys/devices/platform/mt-battery/disable_charger")));
    assert(v@.map_values(|c: (String, String)| (c.0@, c.1@)) =~= candidates());
    v
}

/// Each bypass method that is probed names the switch file that its key
/// stands for, and has values to turn it on and off.
pub proof fn law_candidates_match_env(i: int)
    requires
        0 <= i < candidates().len(),
    ensures
        env_value(candidates()[i].0) == candidates()[i].1,
        env_value(candidates()[i].0 + "_ON"@).len() > 0,
        env_value(candidates()[i].0 + "_OFF"@).len() > 0,
{
    reveal_strlit("MTK_BYPASS_CHARGER");
    reveal_strlit("MTK_BYPASS_CHARGER_ON");
    reveal_strlit("MTK_BYPASS_CHARGER_OFF");
    reveal_strlit("MTK_CURRENT_CMD");
    reveal_strlit("MTK_CURRENT_CMD_ON");
    reveal_strlit("MTK_CURRENT_CMD_OFF");
    reveal_strlit("TRAN_AICHG");
    reveal_strlit("TRAN_AICHG_ON");
    reveal_strlit("TRAN_AICHG_OFF");
    reveal_strlit("MTK_DISABLE_CHARGER");
    reveal_strlit("MTK_DISABLE_CHARGER_ON");
    reveal_strlit("MTK_DISABLE_CHARGER_OFF");
    reveal_strlit("_ON");
    reveal_strlit("_OFF");
    reveal_strlit("1");
    reveal_strlit("0");
    reveal_strlit("0 1");
    reveal_strlit("0 0");
    assert("MTK_CURRENT_CMD_ON"@[4] != "MTK_BYPASS_CHARGER"@[4]);
    assert("MTK_DISABLE_CHARGER"@[4] != "MTK_CURRENT_CMD_OFF"@[4]);
    assert("MTK_DISABLE_CHARGER_ON"@[4] != "MTK_BYPASS_CHARGER_OFF"@[4]);
    let c = candidates();
    if i == 0 {
        assert(c[0].0 + "_ON"@ =~= "MTK_BYPASS_CHARGER_ON"@);
        assert(c[0].0 + "_OFF"@ =~= "MTK_BYPASS_CHARGER_OFF"@);
        assert(env_value(c[0].0) == c[0].1);
        assert(env_value("MTK_BYPASS_CHARGER_ON"@) == "1"@);
        assert(env_value("MTK_BYPASS_CHARGER_OFF"@) == "0"@);
    } else if i == 1 {
        assert(c[1].0 + "_ON"@ =~= "MTK_CURRENT_CMD_ON"@);
        assert(c[1].0 + "_OFF"@ =~= "MTK_CURRENT_CMD_OFF"@);
        assert(c[1].0 != "MTK_BYPASS_CHARGER"@);
        assert(env_value(c[1].0) == c[1].1);
        assert(env_value("MTK_CURRENT_CMD_ON"@) == "0 1"@);
        assert(env_value("MTK_CURRENT_CMD_OFF"@) == "0 0"@);
    } else if i == 2 {
        assert(c[2].0 + "_ON"@ =~= "TRAN_AICHG_ON"@);
        assert(c[2].0 + "_OFF"@ =~= "TRAN_AICHG_OFF"@);
    } else {
        assert(c[3].0 + "_ON"@ =~= "MTK_DISABLE_CHARGER_ON"@);
        assert(c[3].0 + "_OFF"@ =~= "MTK_DISABLE_CHARGER_OFF"@);
    }
}

/// Each bypass method stands for its own switch file and its own on and
/// off values: `MTK_BYPASS_CHARGER` writes `1` to turn bypass on and `0` to
/// turn it off, `MTK_CURRENT_CMD` `0 1` and `0 0`, `TRAN_AICHG` `1` and `0`,
/// `MTK_DISABLE_CHARGER` `1` and `0`; an unknown key stands for nothing.
pub proof fn law_bypass_values()
    ensures
        env_value("MTK_BYPASS_CHARGER"@) == "/sys/devices/platform/charger/bypass_charger"@,
        env_value("MTK_BYPASS_CHARGER_ON"@) == "1"@,
        env_value("MTK_BYPASS_CHARGER_OFF"@) == "0"@,
        env_value("MTK_CURRENT_CMD"@) == "/proc/mtk_battery_cmd/current_cmd"@,
        env_value("MTK_CURRENT_CMD_ON"@) == "0 1"@,
        env_value("MTK_CURRENT_CMD_OFF"@) == "0 0"@,
        env_value("TRAN_AICHG"@) == "/sys/devices/platform/charger/tran_aichg_disable_charger"@,
        env_value("TRAN_AICHG_ON"@) == "1"@,
        env_value("TRAN_AICHG_OFF"@) == "0"@,
        env_value("MTK_DISABLE_CHARGER"@) == "/sys/devices/platform/mt-battery/disable_charger"@,
        env_value("MTK_DISABLE_CHARGER_ON"@) == "1"@,
        env_value("MTK_DISABLE_CHARGER_OFF"@) == "0"@,
        env_value("UNSUPPORTED"@).len() == 0,
        env_value(seq![]).len() == 0,
{
    reveal_strlit("MTK_BYPASS_CHARGER");
    reveal_strlit("MTK_BYPASS_CHARGER_ON");
    reveal_strlit("MTK_BYPASS_CHARGER_OFF");
    reveal_strlit("MTK_CURRENT_CMD");
    reveal_strlit("MTK_CURRENT_CMD_ON");
    reveal_strlit("MTK_CURRENT_CMD_OFF");
    reveal_strlit("TRAN_AICHG");
    reveal_strlit("TRAN_AICHG_ON");
    reveal_strlit("TRAN_AICHG_OFF");
    reveal_strlit("MTK_DISABLE_CHARGER");
    reveal_strlit("MTK_DISABLE_CHARGER_ON");
    reveal_strlit("MTK_DISABLE_CHARGER_OFF");
    reveal_strlit("UNSUPPORTED");
    assert("MTK_BYPASS_CHARGER_ON"@.len() != "MTK_BYPASS_CHARGER"@.len());
    assert("MTK_BYPASS_CHARGER_OFF"@.len() != "MTK_BYPASS_CHARGER"@.len());
    assert("MTK_BYPASS_CHARGER_OFF"@.len() != "MTK_BYPASS_CHARGER_ON"@.len());
    assert("MTK_CURRENT_CMD"@.len() != "MTK_BYPASS_CHARGER"@.len());
    assert("MTK_CURRENT_CMD"@.len() != "MTK_BYPASS_CHARGER_ON"@.len());
    assert("MTK_CURRENT_CMD"@.len() != "MTK_BYPASS_CHARGER_OFF"@.len());
    assert("MTK_CURRENT_CMD_ON"@[4] != "MTK_BYPASS_CHARGER"@[4]);
    assert("MTK_CURRENT_CMD_ON"@.len() != "MTK_BYPASS_CHARGER_ON"@.len());
    assert("MTK_CURRENT_CMD_ON"@.len() != "MTK_BYPASS_CHARGER_OFF"@.len());
    assert("MTK_CURRENT_CMD_ON"@.len() != "MTK_CURRENT_CMD"@.len());
    assert("MTK_CURRENT_CMD_OFF"@.len() != "MTK_BYPASS_CHARGER"@.len());
    assert("MTK_CURRENT_CMD_OFF"@.len() != "MTK_BYPASS_CHARGER_ON"@.len());
    assert("MTK_CURRENT_CMD_OFF"@.len() != "MTK_BYPASS_CHARGER_OFF"@.len());
    assert("MTK_CURRENT_CMD_OFF"@.len() != "MTK_CURRENT_CMD"@.len());
    assert("MTK_CURRENT_CMD_OFF"@.len() != "MTK_CURRENT_CMD_ON"@.len());
    assert("TRAN_AICHG"@.len() != "MTK_BYPASS_CHARGER"@.len());
    assert("TRAN_AICHG"@.len() != "MTK_BYPASS_CHARGER_ON"@.len());
    assert("TRAN_AICHG"@.len() != "MTK_BYPASS_CHARGER_OFF"@.len());
    assert("TRAN_AICHG"@.len() != "MTK_CURRENT_CMD"@.len());
    assert("TRAN_AICHG"@.len() != "MTK_CURRENT_CMD_ON"@.len());
    assert("TRAN_AICHG"@.len() != "MTK_CURRENT_CMD_OFF"@.len());
    assert("TRAN_AICHG_ON"@.len() != "MTK_BYPASS_CHARGER"@.len());
    assert("TRAN_AICHG_ON"@.len() != "MTK_BYPASS_CHARGER_ON"@.len());
    assert("TRAN_AICHG_ON"@.len() != "MTK_BYPASS_CHARGER_OFF"@.len());
    assert("TRAN_AICHG_ON"@.len() != "MTK_CURRENT_CMD"@.len());
    assert("TRAN_AICHG_ON"@.len() != "MTK_CURRENT_CMD_ON"@.len());
    assert("TRAN_AICHG_ON"@.len() != "MTK_CURRENT_CMD_OFF"@.len());
    assert("TRAN_AICHG_ON"@.len() != "TRAN_AICHG"@.len());
    assert("TRAN_AICHG_OFF"@.len() != "MTK_BYPASS_CHARGER"@.len());
    assert("TRAN_AICHG_OFF"@.len() != "MTK_BYPASS_CHARGER_ON"@.len());
    assert("TRAN_AICHG_OFF"@.len() != "MTK_BYPASS_CHARGER_OFF"@.len());
    assert("TRAN_AICHG_OFF"@.len() != "MTK_CURRENT_CMD"@.len());
    assert("TRAN_AICHG_OFF"@.len() != "MTK_CURRENT_CMD_ON"@.len());
    assert("TRAN_AICHG_OFF"@.len() != "MTK_CURRENT_CMD_OFF"@.len());
    assert("TRAN_AICHG_OFF"@.len() != "TRAN_AICHG"@.len());
    assert("TRAN_AICHG_OFF"@.len() != "TRAN_AICHG_ON"@.len());
    assert("MTK_DISABLE_CHARGER"@.len() != "MTK_BYPASS_CHARGER"@.len());
    assert("MTK_DISABLE_CHARGER"@.len() != "MTK_BYPASS_CHARGER_ON"@.len());
    assert("MTK_DISABLE_CHARGER"@.len() != "MTK_BYPASS_CHARGER_OFF"@.len());
    assert("MTK_DISABLE_CHARGER"@.len() != "MTK_CURRENT_CMD"@.len());
    assert("MTK_DISABLE_CHARGER"@.len() != "MTK_CURRENT_CMD_ON"@.len());
    assert("MTK_DISABLE_CHARGER"@[4] != "MTK_CURRENT_CMD_OFF"@[4]);
    assert("MTK_DISABLE_CHARGER"@.len() != "TRAN_AICHG"@.len());
    assert("MTK_DISABLE_CHARGER"@.len() != "TRAN_AICHG_ON"@.len());
    assert("MTK_DISABLE_CHARGER"@.len() != "TRAN_AICHG_OFF"@.len());
    assert("MTK_DISABLE_CHARGER_ON"@.len() != "MTK_BYPASS_CHARGER"@.len());
    assert("MTK_DISABLE_CHARGER_ON"@.len() != "MTK_BYPASS_CHARGER_ON"@.len());
    assert("MTK_DISABLE_CHARGER_ON"@[4] != "MTK_BYPASS_CHARGER_OFF"@[4]);
    assert("MTK_DISABLE_CHARGER_ON"@.len() != "MTK_CURRENT_CMD"@.len());
    assert("MTK_DISABLE_CHARGER_ON"@.len() != "MTK_CURRENT_CMD_ON"@.len());
    assert("MTK_DISABLE_CHARGER_ON"@.len() != "MTK_CURRENT_CMD_OFF"@.len());
    assert("MTK_DISABLE_CHARGER_ON"@.len() != "TRAN_AICHG"@.len());
    assert("MTK_DISABLE_CHARGER_ON"@.len() != "TRAN_AICHG_ON"@.len());
    assert("MTK_DISABLE_CHARGER_ON"@.len() != "TRAN_AICHG_OFF"@.len());
    assert("MTK_DISABLE_CHARGER_ON"@.len() != "MTK_DISABLE_CHARGER"@.len());
    assert("MTK_DISABLE_CHARGER_OFF"@.len() != "MTK_BYPASS_CHARGER"@.len());
    assert("MTK_DISABLE_CHARGER_OFF"@.len() != "MTK_BYPASS_CHARGER_ON"@.len());
    assert("MTK_DISABLE_CHARGER_OFF"@.len() != "MTK_BYPASS_CHARGER_OFF"@.len());
    assert("MTK_DISABLE_CHARGER_OFF"@.len() != "MTK_CURRENT_CMD"@.len());
    assert("MTK_DISABLE_CHARGER_OFF"@.len() != "MTK_CURRENT_CMD_ON"@.len());
    assert("MTK_DISABLE_CHARGER_OFF"@.len() != "MTK_CURRENT_CMD_OFF"@.len());
    assert("MTK_DISABLE_CHARGER_OFF"@.len() != "TRAN_AICHG"@.len());
    assert("MTK_DISABLE_CHARGER_OFF"@.len() != "TRAN_AICHG_ON"@.len());
    assert("MTK_DISABLE_CHARGER_OFF"@.len() != "TRAN_AICHG_OFF"@.len());
    assert("MTK_DISABLE_CHARGER_OFF"@.len() != "MTK_DISABLE_CHARGER"@.len());
    assert("MTK_DISABLE_CHARGER_OFF"@.len() != "MTK_DISABLE_CHARGER_ON"@.len());
    assert("UNSUPPORTED"@.len() != "MTK_BYPASS_CHARGER"@.len());
    assert("UNSUPPORTED"@.len() != "MTK_BYPASS_CHARGER_ON"@.len());
    assert("UNSUPPORTED"@.len() != "MTK_BYPASS_CHARGER_OFF"@.len());
    assert("UNSUPPORTED"@.len() != "MTK_CURRENT_CMD"@.len());
    assert("UNSUPPORTED"@.len() != "MTK_CURRENT_CMD_ON"@.len());
    assert("UNSUPPORTED"@.len() != "MTK_CURRENT_CMD_OFF"@.len());
    assert("UNSUPPORTED"@.len() != "TRAN_AICHG"@.len());
    assert("UNSUPPORTED"@.len() != "TRAN_AICHG_ON"@.len());
    assert("UNSUPPORTED"@.len() != "TRAN_AICHG_OFF"@.len());
    assert("UNSUPPORTED"@.len() != "MTK_DISABLE_CHARGER"@.len());
    assert("UNSUPPORTED"@.len() != "MTK_DISABLE_CHARGER_ON"@.len());
    assert("UNSUPPORTED"@.len() != "MTK_DISABLE_CHARGER_OFF"@.len());
}

/// The most attempts that turning bypass charging on makes.
pub open spec fn max_tries() -> u32 {
    5
}

/// Turning bypass charging on makes five attempts at most: `observe` ends
/// in failure after the fifth that fails.
pub proof fn law_five_attempts()
    ensures
        max_tries() == 5,
{
}

/// One attempt at turning bypass charging on, under way.
pub struct BypassAttempt {
    /// The switch file.
    pub path: String,
    /// The value that turns the switch on.
    pub onval: String,
    /// The attempts made before this one.
    pub tries: u32,
}

/// Where turning bypass charging on stands.
pub enum Bypass {
    /// Finished: whether bypass charging is on (or not needed).
    Done(bool),
    /// Another attempt is to be made.
    Attempt(BypassAttempt),
}

/// Starts turning bypass charging on with the method the property names:
/// nothing to do while the device does not charge; no attempt when the
/// method is unknown.
pub fn enable_bypass(charging: bool, bypasspath: &str) -> (r: Bypass)
    ensures
        !charging ==> r == Bypass::Done(true),
        charging && (env_value(bypasspath@).len() == 0 || env_value(bypasspath@ + "_ON"@).len() == 0)
            ==> r == Bypass::Done(false),
        charging && env_value(bypasspath@).len() > 0 && env_value(bypasspath@ + "_ON"@).len() > 0 ==> (
        r matches Bypass::Attempt(a) && a.path@ == env_value(bypasspath@) && a.onval@ == env_value(
            bypasspath@ + "_ON"@,
        ) && a.tries == 0),
{
    if !charging {
        return Bypass::Done(true);
    }
    let val_key = concat_str(bypasspath, "_ON");
    let path = eval_env(bypasspath);
    let onval = eval_env(val_key.as_str());
    if path.as_str().is_empty() || onval.as_str().is_empty() {
        return Bypass::Done(false);
    }
    Bypass::Attempt(BypassAttempt { path, onval, tries: 0 })
}

impl BypassAttempt {
    /// The write of this attempt: the on value to the switch, locked.
    pub fn write(&self) -> (w: SysWrite)
        ensures
            w@ == wv(self.onval@, self.path@, WriteMode::Locked),
    {
        write_of(lit(self.onval.as_str()), lit(self.path.as_str()), WriteMode::Locked)
    }

    /// What follows an attempt, from the switch file's text read back and the
    /// charging current: on when the switch holds the on value and at most
    /// 10 mA flow; else another attempt, up to five in all.
    pub fn observe(self, switch_text: &str, cur_ma: i32) -> (r: Bypass)
        requires
            self.tries < max_tries(),
        ensures
            trim(switch_text@) == self.onval@ && cur_ma <= 10 ==> r == Bypass::Done(true),
            !(trim(switch_text@) == self.onval@ && cur_ma <= 10) && self.tries + 1 >= max_tries() ==> r
                == Bypass::Done(false),
            !(trim(switch_text@) == self.onval@ && cur_ma <= 10) && self.tries + 1 < max_tries() ==> (
            r matches Bypass::Attempt(a) && a.path@ == self.path@ && a.onval@ == self.onval@ && a.tries
                == self.tries + 1 && a.tries < max_tries()),
    {
        let t = trim_chars(chars_of(switch_text).as_slice());
        if chars_eq(t.as_slice(), chars_of(self.onval.as_str()).as_slice()) && cur_ma <= 10 {
            return Bypass::Done(true);
        }
        if self.tries + 1 >= 5 {
            return Bypass::Done(false);
        }
        Bypass::Attempt(BypassAttempt { path: self.path, onval: self.onval, tries: self.tries + 1 })
    }
}

/// Where probing for a bypass method starts.
pub enum Probe {
    /// Nothing to probe: whether bypass charging is usable.
    Done(bool),
    /// The methods are to be probed.
    Run,
}

/// Starts the search for a bypass method: nothing to do while the device
/// does not charge or once a method is recorded (a property that is not
/// empty and not `UNSUPPORTED`).
pub fn check_bypass(charging: bool, bypasspath: &str) -> (r: Probe)
    ensures
        r == (if !charging || (bypasspath@.len() > 0 && bypasspath@ != "UNSUPPORTED"@) {
            Probe::Done(true)
        } else {
            Probe::Run
        }),
{
    if !charging {
        return Probe::Done(true);
    }
    if !bypasspath.is_empty() && !chars_eq(chars_of(bypasspath).as_slice(), chars_of("UNSUPPORTED").as_slice()) {
        return Probe::Done(true);
    }
    Probe::Run
}

/// The two writes that test a method: its on value, then its off value, to
/// its switch, locked.
pub fn bypass_probe_writes(name: &str, path: &str) -> (res: (SysWrite, SysWrite))
    ensures
        res.0@ == wv(env_value(name@ + "_ON"@), path@, WriteMode::Locked),
        res.1@ == wv(env_value(name@ + "_OFF"@), path@, WriteMode::Locked),
{
    let on = eval_env(concat_str(name, "_ON").as_str());
    let off = eval_env(concat_str(name, "_OFF").as_str());
    (write_of(on, lit(path), WriteMode::Locked), write_of(off, lit(path), WriteMode::Locked))
}

/// A method works when less than 10 mA flow while it is on.
pub fn bypass_effective(cur_ma: i32) -> (b: bool)
    ensures
        b == (cur_ma < 10),
{
    cur_ma < 10
}

/// What probing for a bypass method does next.
pub enum ProbeAction {
    /// Test the method with this index among `bypass_candidates`: the first
    /// write (its on value) to its switch, then the charging current is
    /// read, then the second write (its off value); the current goes to
    /// `probe_result`.
    Test(usize, SysWrite, SysWrite),
    /// Probing is over: the step that records its outcome in the bypass
    /// path property, and whether a method works.
    Finish(Step, bool),
}

/// The first method, from index `from` on, whose switch file exists.
pub open spec fn next_present(present: Seq<bool>, from: int) -> Option<int>
    decreases present.len() - from,
{
    if from < 0 || from >= present.len() {
        None
    } else if present[from] {
        Some(from)
    } else {
        next_present(present, from + 1)
    }
}

/// The property that records the bypass method.
pub open spec fn bypass_prop() -> Seq<char> {
    "persist.sys.azenithconf.bypasspath"@
}

/// The next action of the probe from index `from` on: the test of the next
/// method whose switch exists (the methods in between skipped), or, with
/// none left, `UNSUPPORTED` recorded and no method working.
pub open spec fn probe_from_ok(present: Seq<bool>, from: int, r: ProbeAction) -> bool {
    match next_present(present, from) {
        Some(i) => r matches ProbeAction::Test(k, on, off) && k == i && on@ == wv(
            env_value(candidates()[i].0 + "_ON"@),
            candidates()[i].1,
            WriteMode::Locked,
        ) && off@ == wv(env_value(candidates()[i].0 + "_OFF"@), candidates()[i].1, WriteMode::Locked),
        None => r matches ProbeAction::Finish(s, ok) && s@ == StepView::SetProp(bypass_prop(), "UNSUPPORTED"@)
            && !ok,
    }
}

fn probe_from(present: &[bool], from: usize) -> (r: ProbeAction)
    requires
        present@.len() == candidates().len(),
        from <= present@.len(),
    ensures
        probe_from_ok(present@, from as int, r),
{
    let cs = bypass_candidates();
    let ghost cv = cs@.map_values(|c: (String, String)| (c.0@, c.1@));
    let mut i = from;
    while i < present.len()
        invariant
            from <= i <= present@.len(),
            present@.len() == candidates().len(),
            cs@.len() == candidates().len(),
            cv == cs@.map_values(|c: (String, String)| (c.0@, c.1@)),
            cv == candidates(),
            next_present(present@, from as int) == next_present(present@, i as int),
        decreases present.len() - i,
    {
        if present[i] {
            assert(cv[i as int] == (cs@[i as int].0@, cs@[i as int].1@));
            let (on, off) = bypass_probe_writes(cs[i].0.as_str(), cs[i].1.as_str());
            return ProbeAction::Test(i, on, off);
        }
        i = i + 1;
    }
    ProbeAction::Finish(Step::SetProp(lit("persist.sys.azenithconf.bypasspath"), lit("UNSUPPORTED")), false)
}

/// The first action of a probe, `present` telling for each method of
/// `bypass_candidates` whether its switch file exists: the test of the first
/// method whose switch exists, or, with none, `UNSUPPORTED` recorded.
pub fn probe_start(present: &[bool]) -> (r: ProbeAction)
    requires
        present@.len() == candidates().len(),
    ensures
        probe_from_ok(present@, 0, r),
{
    probe_from(present, 0)
}

/// What follows the test of method `k`, from the charging current read
/// while it was on: under 10 mA, the method is recorded and works, and no
/// later method is tested; otherwise the probe goes on with the next method
/// whose switch exists, or ends with `UNSUPPORTED`.
pub fn probe_result(present: &[bool], k: usize, cur_ma: i32) -> (r: ProbeAction)
    requires
        present@.len() == candidates().len(),
        k < present@.len(),
    ensures
        cur_ma < 10 ==> (r matches ProbeAction::Finish(s, ok) && ok && s@ == StepView::SetProp(
            bypass_prop(),
            candidates()[k as int].0,
        )),
        cur_ma >= 10 ==> probe_from_ok(present@, k + 1, r),
{
    if bypass_effective(cur_ma) {
        let cs = bypass_candidates();
        let ghost cv = cs@.map_values(|c: (String, String)| (c.0@, c.1@));
        assert(cv[k as int] == (cs@[k as int].0@, cs@[k as int].1@));
        ProbeAction::Finish(Step::SetProp(lit("persist.sys.azenithconf.bypasspath"), lit(cs[k].0.as_str())), true)
    } else {
        probe_from(present, k + 1)
    }
}

/// Turns bypass charging off with the method the property names: its off
/// value to its switch, locked; nothing for an unknown method.
pub fn disable_bypass(bypasspath: &str) -> (res: Vec<SysWrite>)
    ensures
        writes_view(res@) == (if env_value(bypasspath@).len() > 0 && env_value(bypasspath@ + "_OFF"@).len() > 0 {
            seq![wv(env_value(bypasspath@ + "_OFF"@), env_value(bypasspath@), WriteMode::Locked)]
        } else {
            seq![]
        }),
{
    let mut plan: Vec<SysWrite> = Vec::new();
    let path = eval_env(bypasspath);
    let offval = eval_env(concat_str(bypasspath, "_OFF").as_str());
    if !path.as_str().is_empty() && !offval.as_str().is_empty() {
        push_write(&mut plan, write_of(offval, path, WriteMode::Locked));
    }
    assert(writes_view(plan@) =~= (if env_value(bypasspath@).len() > 0 && env_value(bypasspath@ + "_OFF"@).len() > 0 {
        seq![wv(env_value(bypasspath@ + "_OFF"@), env_value(bypasspath@), WriteMode::Locked)]
    } else {
        seq![]
    }));
    plan
}

} // verus!
