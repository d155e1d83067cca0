//! Frequency bounds of devfreq devices and of Qualcomm CPU bus DCVS nodes,
//! picked from the device's own `available_frequencies` table.
use vstd::prelude::*;
use crate::freq::{freq_table, max_text, mid_text, min_text, opt_view, which_maxfreq, which_midfreq, which_minfreq};
use crate::num::fmt_int;
use crate::plan::{push_write, write_of, writes_view, wv, SysWrite, WriteMode, WriteView};
use crate::text::concat_str;

verus! {

/// Which frequency of a table a bound takes.
#[derive(Clone, Copy, Debug, PartialEq, Eq, Structural)]
pub enum Pick {
    Max,
    Mid,
    Min,
}

/// The text of the picked frequency of a table.
pub open spec fn pick_text(content: Seq<char>, pick: Pick) -> Seq<char> {
    match pick {
        Pick::Max => max_text(content),
        Pick::Mid => mid_text(content),
        Pick::Min => min_text(content),
    }
}

/// The text of the picked frequency of a table.
pub fn pick_freq(content: &str, pick: Pick) -> (res: String)
    ensures
        res@ == pick_text(content@, pick),
{
    match pick {
        Pick::Max => which_maxfreq(content),
        Pick::Mid => which_midfreq(content),
        Pick::Min => which_minfreq(content),
    }
}

/// Two writes under the directory `path`: nothing when its frequency table
/// does not exist, else first the `first` pick to `path` + `first_file`, then
/// the `second` pick to `path` + `second_file`.
pub open spec fn pair_plan(
    path: Seq<char>,
    avail: Option<Seq<char>>,
    first_file: Seq<char>,
    first: Pick,
    second_file: Seq<char>,
    second: Pick,
    mode: WriteMode,
) -> Seq<WriteView> {
    match avail {
        None => seq![],
        Some(c) => seq![
            wv(pick_text(c, first), path + first_file, mode),
            wv(pick_text(c, second), path + second_file, mode),
        ],
    }
}

fn pair_writes(
    path: &str,
    avail: Option<&str>,
    first_file: &str,
    first: Pick,
    second_file: &str,
    second: Pick,
    mode: WriteMode,
) -> (res: Vec<SysWrite>)
    ensures
        writes_view(res@) == pair_plan(path@, opt_view(avail), first_file@, first, second_file@, second, mode),
{
    let mut plan: Vec<SysWrite> = Vec::new();
    if let Some(c) = avail {
        let a = pick_freq(c, first);
        let b = pick_freq(c, second);
        push_write(&mut plan, write_of(a, concat_str(path, first_file), mode));
        push_write(&mut plan, write_of(b, concat_str(path, second_file), mode));
    }
    assert(writes_view(plan@) =~= pair_plan(path@, opt_view(avail), first_file@, first, second_file@, second, mode));
    plan
}

/// Pins a devfreq device at its highest frequency: the highest frequency of
/// its table to `max_freq` and to `min_freq`, locked. `avail` is the text of
/// `path/available_frequencies` when that file exists.
pub fn devfreq_max_perf(path: &str, avail: Option<&str>) -> (res: Vec<SysWrite>)
    ensures
        writes_view(res@) == pair_plan(path@, opt_view(avail), "/max_freq"@, Pick::Max, "/min_freq"@, Pick::Max, WriteMode::Locked),
{
    pair_writes(path, avail, "/max_freq", Pick::Max, "/min_freq", Pick::Max, WriteMode::Locked)
}

/// Bounds a devfreq device between its middle and highest frequencies,
/// locked.
pub fn devfreq_mid_perf(path: &str, avail: Option<&str>) -> (res: Vec<SysWrite>)
    ensures
        writes_view(res@) == pair_plan(path@, opt_view(avail), "/max_freq"@, Pick::Max, "/min_freq"@, Pick::Mid, WriteMode::Locked),
{
    pair_writes(path, avail, "/max_freq", Pick::Max, "/min_freq", Pick::Mid, WriteMode::Locked)
}

/// Opens a devfreq device to its whole range, left writable.
pub fn devfreq_unlock(path: &str, avail: Option<&str>) -> (res: Vec<SysWrite>)
    ensures
        writes_view(res@) == pair_plan(path@, opt_view(avail), "/max_freq"@, Pick::Max, "/min_freq"@, Pick::Min, WriteMode::Unlocked),
{
    pair_writes(path, avail, "/max_freq", Pick::Max, "/min_freq", Pick::Min, WriteMode::Unlocked)
}

/// Pins a devfreq device at its lowest frequency: `min_freq` first, then
/// `max_freq`, locked.
pub fn devfreq_min_perf(path: &str, avail: Option<&str>) -> (res: Vec<SysWrite>)
    ensures
        writes_view(res@) == pair_plan(path@, opt_view(avail), "/min_freq"@, Pick::Min, "/max_freq"@, Pick::Min, WriteMode::Locked),
{
    pair_writes(path, avail, "/min_freq", Pick::Min, "/max_freq", Pick::Min, WriteMode::Locked)
}

/// Pins a Qualcomm CPU bus DCVS node at its highest frequency, through its
/// hardware bounds `hw_max_freq` and `hw_min_freq`, locked.
pub fn qcom_cpudcvs_max_perf(path: &str, avail: Option<&str>) -> (res: Vec<SysWrite>)
    ensures
        writes_view(res@) == pair_plan(path@, opt_view(avail), "/hw_max_freq"@, Pick::Max, "/hw_min_freq"@, Pick::Max, WriteMode::Locked),
{
    pair_writes(path, avail, "/hw_max_freq", Pick::Max, "/hw_min_freq", Pick::Max, WriteMode::Locked)
}

/// Bounds a Qualcomm CPU bus DCVS node between its middle and highest
/// frequencies, locked.
pub fn qcom_cpudcvs_mid_perf(path: &str, avail: Option<&str>) -> (res: Vec<SysWrite>)
    ensures
        writes_view(res@) == pair_plan(path@, opt_view(avail), "/hw_max_freq"@, Pick::Max, "/hw_min_freq"@, Pick::Mid, WriteMode::Locked),
{
    pair_writes(path, avail, "/hw_max_freq", Pick::Max, "/hw_min_freq", Pick::Mid, WriteMode::Locked)
}

/// Opens a Qualcomm CPU bus DCVS node to its whole range, left writable.
pub fn qcom_cpudcvs_unlock(path: &str, avail: Option<&str>) -> (res: Vec<SysWrite>)
    ensures
        writes_view(res@) == pair_plan(path@, opt_view(avail), "/hw_max_freq"@, Pick::Max, "/hw_min_freq"@, Pick::Min, WriteMode::Unlocked),
{
    pair_writes(path, avail, "/hw_max_freq", Pick::Max, "/hw_min_freq", Pick::Min, WriteMode::Unlocked)
}

/// Pins a Qualcomm CPU bus DCVS node at its lowest frequency, locked.
pub fn qcom_cpudcvs_min_perf(path: &str, avail: Option<&str>) -> (res: Vec<SysWrite>)
    ensures
        writes_view(res@) == pair_plan(path@, opt_view(avail), "/hw_min_freq"@, Pick::Min, "/hw_max_freq"@, Pick::Min, WriteMode::Locked),
{
    pair_writes(path, avail, "/hw_min_freq", Pick::Min, "/hw_max_freq", Pick::Min, WriteMode::Locked)
}

/// Which of the four devfreq settings a profile applies to a device.
#[derive(Clone, Copy, Debug, PartialEq, Eq, Structural)]
pub enum DevfreqLevel {
    Max,
    Mid,
    Unlock,
    Min,
}

/// The writes of a devfreq setting on the device at `path`, whose frequency
/// table text is `avail` when the table exists.
pub open spec fn devfreq_plan(path: Seq<char>, avail: Option<Seq<char>>, level: DevfreqLevel) -> Seq<WriteView> {
    match level {
        DevfreqLevel::Max => pair_plan(path, avail, "/max_freq"@, Pick::Max, "/min_freq"@, Pick::Max, WriteMode::Locked),
        DevfreqLevel::Mid => pair_plan(path, avail, "/max_freq"@, Pick::Max, "/min_freq"@, Pick::Mid, WriteMode::Locked),
        DevfreqLevel::Unlock => pair_plan(path, avail, "/max_freq"@, Pick::Max, "/min_freq"@, Pick::Min, WriteMode::Unlocked),
        DevfreqLevel::Min => pair_plan(path, avail, "/min_freq"@, Pick::Min, "/max_freq"@, Pick::Min, WriteMode::Locked),
    }
}

/// Applies a devfreq setting to one device.
pub fn devfreq_apply(path: &str, avail: Option<&str>, level: DevfreqLevel) -> (res: Vec<SysWrite>)
    ensures
        writes_view(res@) == devfreq_plan(path@, opt_view(avail), level),
{
    match level {
        DevfreqLevel::Max => devfreq_max_perf(path, avail),
        DevfreqLevel::Mid => devfreq_mid_perf(path, avail),
        DevfreqLevel::Unlock => devfreq_unlock(path, avail),
        DevfreqLevel::Min => devfreq_min_perf(path, avail),
    }
}

/// On a device whose table lists frequencies (ascending: `t`), each
/// setting writes two bounds: `Max` the highest frequency to `max_freq`
/// then `min_freq`; `Mid` the highest to `max_freq` and the middle one (at
/// index half the count) to `min_freq`; `Unlock` the highest to `max_freq`
/// and the lowest to `min_freq`, left writable; `Min` the lowest to
/// `min_freq` then `max_freq`. Without a table, nothing is written.
pub proof fn law_devfreq_levels(path: Seq<char>, avail: Option<Seq<char>>, level: DevfreqLevel)
    ensures
        avail is None ==> devfreq_plan(path, avail, level).len() == 0,
        avail is Some ==> devfreq_plan(path, avail, level).len() == 2,
        avail is Some && freq_table(avail->0).len() > 0 ==> ({
            let t = freq_table(avail->0);
            let w = devfreq_plan(path, avail, level);
            let hi = fmt_int(t.last() as int);
            let lo = fmt_int(t[0] as int);
            let mid = fmt_int(t[(t.len() / 2) as int] as int);
            match level {
                DevfreqLevel::Max => w[0] == wv(hi, path + "/max_freq"@, WriteMode::Locked) && w[1] == wv(
                    hi,
                    path + "/min_freq"@,
                    WriteMode::Locked,
                ),
                DevfreqLevel::Mid => w[0] == wv(hi, path + "/max_freq"@, WriteMode::Locked) && w[1] == wv(
                    mid,
                    path + "/min_freq"@,
                    WriteMode::Locked,
                ),
                DevfreqLevel::Unlock => w[0] == wv(hi, path + "/max_freq"@, WriteMode::Unlocked) && w[1] == wv(
                    lo,
                    path + "/min_freq"@,
                    WriteMode::Unlocked,
                ),
                DevfreqLevel::Min => w[0] == wv(lo, path + "/min_freq"@, WriteMode::Locked) && w[1] == wv(
                    lo,
                    path + "/max_freq"@,
                    WriteMode::Locked,
                ),
            }
        }),
{
}

} // verus!
