//! Reading what the system reports: window dumps, kernel status files and
//! command output, cut into the values the tuning acts on.
use vstd::prelude::*;
use crate::num::{is_digit, is_digit_exec, parse_i64, parse_i64_chars};
use crate::plan::{push_write, write_of, writes_view, wv, SysWrite, WriteMode, WriteView};
use crate::text::{
    chars_of, contains, contains_chars, contains_seq, find, find_chars, is_whitespace, is_ws,
    concat_str, lemma_find_from, lines, lines_of, matches_at, slice_chars, string_of, strings_view, views,
};

verus! {

/// A character that ends a package name in a window dump line.
pub open spec fn is_pkg_stop(c: char) -> bool {
    is_ws(c) || c == '}'
}

/// The length of the leading run of `s` without a stop character.
pub open spec fn pkg_len(s: Seq<char>) -> nat
    decreases s.len(),
{
    if s.len() == 0 || is_pkg_stop(s[0]) {
        0
    } else {
        1 + pkg_len(s.drop_first())
    }
}

/// The package named in a window dump line: after the first `A=`, past the
/// first `:` that follows, up to the first whitespace or `}`.
pub open spec fn pkg_of(line: Seq<char>) -> Option<Seq<char>> {
    match find(line, "A="@) {
        None => None,
        Some(pos) => {
            let rest = line.skip(pos + 2);
            match find(rest, ":"@) {
                None => None,
                Some(c) => {
                    let after = rest.skip(c + 1);
                    Some(after.take(pkg_len(after) as int))
                },
            }
        },
    }
}

proof fn lemma_pkg_len_bound(s: Seq<char>)
    ensures
        pkg_len(s) <= s.len(),
    decreases s.len(),
{
    if s.len() > 0 && !is_pkg_stop(s[0]) {
        lemma_pkg_len_bound(s.drop_first());
    }
}

proof fn lemma_pkg_len(s: Seq<char>, k: int)
    requires
        0 <= k <= pkg_len(s),
    ensures
        pkg_len(s) == k + pkg_len(s.skip(k)),
        pkg_len(s) <= s.len(),
    decreases k,
{
    lemma_pkg_len_bound(s);
    if k > 0 {
        lemma_pkg_len(s.drop_first(), k - 1);
        assert(s.drop_first().skip(k - 1) == s.skip(k));
    } else {
        assert(s.skip(0) == s);
    }
}

fn pkg_of_chars(line: &[char]) -> (r: Option<Vec<char>>)
    ensures
        r matches Some(v) ==> pkg_of(line@) == Some(v@),
        r is None ==> pkg_of(line@) is None,
{
    let a_eq = chars_of("A=");
    let colon = chars_of(":");
    proof {
        reveal_strlit("A=");
        reveal_strlit(":");
    }
    match find_chars(line, a_eq.as_slice(), 0) {
        None => None,
        Some(pos) => {
            proof {
                lemma_find_from(line@, "A="@, 0);
                assert(matches_at(line@, "A="@, pos as int));
                assert("A="@.len() == 2);
                assert(a_eq@ == "A="@);
                assert(pos + 2 <= line@.len());
            }
            let n = line.len();
            let rest = slice_chars(line, pos + 2, n);
            assert(rest@ == line@.skip(pos + 2));
            match find_chars(rest.as_slice(), colon.as_slice(), 0) {
                None => None,
                Some(c) => {
                    proof {
                        lemma_find_from(rest@, ":"@, 0);
                        assert(matches_at(rest@, ":"@, c as int));
                        assert(":"@.len() == 1);
                    }
                    let after = slice_chars(rest.as_slice(), c + 1, rest.len());
                    assert(after@ == rest@.skip(c + 1));
                    let mut k: usize = 0;
                    proof {
                        lemma_pkg_len(after@, 0);
                    }
                    while k < after.len() && !(is_whitespace(after[k]) || after[k] == '}')
                        invariant
                            k <= after.len(),
                            k <= pkg_len(after@),
                        decreases after.len() - k,
                    {
                        proof {
                            lemma_pkg_len(after@, k as int);
                            assert(after@.skip(k as int)[0] == after@[k as int]);
                            assert(after@.skip(k as int).drop_first() == after@.skip(k + 1));
                        }
                        k = k + 1;
                    }
                    proof {
                        lemma_pkg_len(after@, k as int);
                        if k < after.len() {
                            assert(after@.skip(k as int)[0] == after@[k as int]);
                        }
                        assert(pkg_len(after@.skip(k as int)) == 0);
                    }
                    let v = slice_chars(after.as_slice(), 0, k);
                    assert(v@ == after@.take(k as int));
                    Some(v)
                },
            }
        },
    }
}

/// The package named in a line of `dumpsys window displays`.
pub fn extract_pkg(line: &str) -> (r: Option<String>)
    ensures
        r matches Some(s) ==> pkg_of(line@) == Some(s@),
        r is None ==> pkg_of(line@) is None,
{
    let v = chars_of(line);
    match pkg_of_chars(v.as_slice()) {
        Some(p) => Some(string_of(p.as_slice())),
        None => None,
    }
}

/// The package of a task line of the window dump, with whether it shows:
/// `Some((p, true))` for a visible task, `Some((p, false))` for an invisible
/// one, `None` for a line that is no task line, names no package, or says
/// neither.
pub open spec fn task_of(line: Seq<char>) -> Option<(Seq<char>, bool)> {
    if contains(line, "Task{"@) {
        match pkg_of(line) {
            Some(p) => {
                if contains(line, "visible=true"@) {
                    Some((p, true))
                } else if contains(line, "visible=false"@) {
                    Some((p, false))
                } else {
                    None
                }
            },
            None => None,
        }
    } else {
        None
    }
}

/// `p` is the package of a task line of `ls` that shows (`vis`) or not.
pub open spec fn has_task(ls: Seq<Seq<char>>, p: Seq<char>, vis: bool) -> bool {
    exists|i: int| 0 <= i < ls.len() && #[trigger] task_of(ls[i]) == Some((p, vis))
}

/// A package that must never be stopped.
pub open spec fn is_protected(p: Seq<char>) -> bool {
    contains(p, "com.android.systemui"@) || contains(p, "com.android.settings"@) || contains(p, "android"@)
        || contains(p, "system"@)
}

/// A package to stop: it has an invisible task and no visible one, and it
/// is not protected.
pub open spec fn to_stop(dump: Seq<char>, p: Seq<char>) -> bool {
    has_task(lines(dump), p, false) && !has_task(lines(dump), p, true) && !is_protected(p)
}

/// Clearing background apps never stops a package with a visible task, nor
/// the system UI, the settings, or any package whose name holds `android` or
/// `system`; each package it stops has an invisible task in the dump.
pub proof fn law_stop_spares(dump: Seq<char>, p: Seq<char>)
    ensures
        (exists|i: int| 0 <= i < lines(dump).len() && #[trigger] task_of(lines(dump)[i]) == Some((p, true)))
            ==> !to_stop(dump, p),
        contains(p, "com.android.systemui"@) || contains(p, "com.android.settings"@) || contains(p, "android"@)
            || contains(p, "system"@) ==> !to_stop(dump, p),
        to_stop(dump, p) ==> exists|i: int|
            0 <= i < lines(dump).len() && #[trigger] task_of(lines(dump)[i]) == Some((p, false)),
{
}

fn task_of_chars(line: &[char]) -> (r: Option<(Vec<char>, bool)>)
    ensures
        r matches Some((v, b)) ==> task_of(line@) == Some((v@, b)),
        r is None ==> task_of(line@) is None,
{
    if !contains_chars(line, chars_of("Task{").as_slice()) {
        return None;
    }
    match pkg_of_chars(line) {
        Some(p) => {
            if contains_chars(line, chars_of("visible=true").as_slice()) {
                Some((p, true))
            } else if contains_chars(line, chars_of("visible=false").as_slice()) {
                Some((p, false))
            } else {
                None
            }
        },
        None => None,
    }
}

fn is_protected_chars(p: &[char]) -> (b: bool)
    ensures
        b == is_protected(p@),
{
    contains_chars(p, chars_of("com.android.systemui").as_slice()) || contains_chars(
        p,
        chars_of("com.android.settings").as_slice(),
    ) || contains_chars(p, chars_of("android").as_slice()) || contains_chars(p, chars_of("system").as_slice())
}

proof fn lemma_has_task_step(lv: Seq<Seq<char>>, k: int, p: Seq<char>, b: bool)
    requires
        0 <= k < lv.len(),
    ensures
        has_task(lv.take(k + 1), p, b) <==> (has_task(lv.take(k), p, b) || task_of(lv[k]) == Some((p, b))),
{
    let a = lv.take(k);
    let c = lv.take(k + 1);
    if has_task(c, p, b) {
        let i = choose|i: int| 0 <= i < c.len() && #[trigger] task_of(c[i]) == Some((p, b));
        if i < k {
            assert(a[i] == c[i]);
            assert(task_of(a[i]) == Some((p, b)));
        } else {
            assert(c[i] == lv[k]);
        }
    }
    if has_task(a, p, b) {
        let i = choose|i: int| 0 <= i < a.len() && #[trigger] task_of(a[i]) == Some((p, b));
        assert(c[i] == a[i]);
        assert(task_of(c[i]) == Some((p, b)));
    }
    if task_of(lv[k]) == Some((p, b)) {
        assert(c[k] == lv[k]);
        assert(task_of(c[k]) == Some((p, b)));
    }
}

proof fn lemma_push_contains(s: Seq<Seq<char>>, x: Seq<char>, q: Seq<char>)
    ensures
        s.push(x).contains(q) <==> (s.contains(q) || q == x),
{
    let t = s.push(x);
    if t.contains(q) {
        let i = choose|i: int| 0 <= i < t.len() && t[i] == q;
        if i < s.len() {
            assert(s[i] == q);
        }
    }
    if s.contains(q) {
        let i = choose|i: int| 0 <= i < s.len() && s[i] == q;
        assert(t[i] == q);
    }
    if q == x {
        assert(t[s.len() as int] == q);
    }
}

/// The background packages to force-stop, from the output of
/// `dumpsys window displays`: each package that has an invisible task and no
/// visible one and is not a system package, once each, in the order of
/// their first invisible task.
pub fn clear_background_apps(dump: &str) -> (res: Vec<String>)
    ensures
        forall|p: Seq<char>| to_stop(dump@, p) <==> strings_view(res@).contains(p),
        forall|i: int, j: int| 0 <= i < j < res@.len() ==> res@[i]@ != res@[j]@,
{
    let ls = lines_of(chars_of(dump).as_slice());
    let ghost lv = views(ls@);
    let mut visible: Vec<Vec<char>> = Vec::new();
    let mut invisible: Vec<Vec<char>> = Vec::new();
    let mut k: usize = 0;
    while k < ls.len()
        invariant
            k <= ls.len(),
            lv == views(ls@),
            lv == lines(dump@),
            forall|p: Seq<char>| #[trigger] views(visible@).contains(p) <==> has_task(lv.take(k as int), p, true),
            forall|p: Seq<char>| #[trigger] views(invisible@).contains(p) <==> has_task(lv.take(k as int), p, false),
        decreases ls.len() - k,
    {
        let ghost vis0 = views(visible@);
        let ghost inv0 = views(invisible@);
        let r = task_of_chars(ls[k].as_slice());
        assert(lv[k as int] == ls@[k as int]@);
        match r {
            Some((p, true)) => {
                let ghost pv = p@;
                visible.push(p);
                assert(views(visible@) =~= vis0.push(pv));
                assert forall|q: Seq<char>| #[trigger] views(visible@).contains(q) <==> has_task(lv.take(k + 1), q, true) by {
                    lemma_push_contains(vis0, pv, q);
                    lemma_has_task_step(lv, k as int, q, true);
                }
                assert forall|q: Seq<char>| #[trigger] views(invisible@).contains(q) <==> has_task(lv.take(k + 1), q, false) by {
                    lemma_has_task_step(lv, k as int, q, false);
                }
            },
            Some((p, false)) => {
                let ghost pv = p@;
                invisible.push(p);
                assert(views(invisible@) =~= inv0.push(pv));
                assert forall|q: Seq<char>| #[trigger] views(invisible@).contains(q) <==> has_task(lv.take(k + 1), q, false) by {
                    lemma_push_contains(inv0, pv, q);
                    lemma_has_task_step(lv, k as int, q, false);
                }
                assert forall|q: Seq<char>| #[trigger] views(visible@).contains(q) <==> has_task(lv.take(k + 1), q, true) by {
                    lemma_has_task_step(lv, k as int, q, true);
                }
            },
            None => {
                assert forall|q: Seq<char>| #[trigger] views(invisible@).contains(q) <==> has_task(lv.take(k + 1), q, false) by {
                    lemma_has_task_step(lv, k as int, q, false);
                }
                assert forall|q: Seq<char>| #[trigger] views(visible@).contains(q) <==> has_task(lv.take(k + 1), q, true) by {
                    lemma_has_task_step(lv, k as int, q, true);
                }
            },
        }
        k = k + 1;
    }
    assert(lv.take(ls.len() as int) == lv);
    let mut res: Vec<String> = Vec::new();
    let mut chosen: Vec<Vec<char>> = Vec::new();
    let ghost iv = views(invisible@);
    let mut j: usize = 0;
    while j < invisible.len()
        invariant
            j <= invisible.len(),
            lv == lines(dump@),
            iv == views(invisible@),
            forall|p: Seq<char>| #[trigger] views(visible@).contains(p) <==> has_task(lv, p, true),
            forall|p: Seq<char>| #[trigger] iv.contains(p) <==> has_task(lv, p, false),
            strings_view(res@) == views(chosen@),
            forall|p: Seq<char>| #[trigger] views(chosen@).contains(p) <==> (iv.take(j as int).contains(p)
                && !has_task(lv, p, true) && !is_protected(p)),
            forall|a: int, b: int| 0 <= a < b < chosen@.len() ==> views(chosen@)[a] != views(chosen@)[b],
        decreases invisible.len() - j,
    {
        let ghost c0 = views(chosen@);
        let ghost inv_j = iv.take(j as int);
        let ghost inv_j1 = iv.take(j + 1);
        let p = &invisible[j];
        let ghost pv = p@;
        assert(iv[j as int] == pv);
        assert(inv_j1 =~= inv_j.push(pv));
        if !contains_seq(&visible, p.as_slice()) && !is_protected_chars(p.as_slice()) && !contains_seq(
            &chosen,
            p.as_slice(),
        ) {
            let ghost r0 = res@;
            let s = string_of(p.as_slice());
            res.push(s);
            chosen.push(slice_chars(p.as_slice(), 0, p.len()));
            assert(p@.subrange(0, p@.len() as int) == p@);
            assert(views(chosen@) =~= c0.push(pv));
            assert(strings_view(res@) =~= strings_view(r0).push(pv));
            assert forall|q: Seq<char>| #[trigger] views(chosen@).contains(q) <==> (inv_j1.contains(q)
                && !has_task(lv, q, true) && !is_protected(q)) by {
                lemma_push_contains(c0, pv, q);
                lemma_push_contains(inv_j, pv, q);
            }
            assert forall|a: int, b: int| 0 <= a < b < chosen@.len() implies views(chosen@)[a] != views(chosen@)[b] by {
                if b == c0.len() {
                    assert(c0[a] == views(chosen@)[a]);
                    assert(c0.contains(c0[a]));
                }
            }
        } else {
            assert forall|q: Seq<char>| #[trigger] views(chosen@).contains(q) <==> (inv_j1.contains(q)
                && !has_task(lv, q, true) && !is_protected(q)) by {
                lemma_push_contains(inv_j, pv, q);
            }
        }
        j = j + 1;
    }
    assert(iv.take(invisible.len() as int) == iv);
    assert forall|i: int, j: int| 0 <= i < j < res@.len() implies res@[i]@ != res@[j]@ by {
        assert(strings_view(res@)[i] == views(chosen@)[i]);
        assert(strings_view(res@)[j] == views(chosen@)[j]);
    }
    res
}


/// The text between the first `[` of `s` and the first `]` after it.
pub open spec fn bracket_of(s: Seq<char>) -> Option<Seq<char>> {
    match find(s, "["@) {
        None => None,
        Some(st) => match find(s.skip(st), "]"@) {
            None => None,
            Some(e) => Some(s.subrange(st + 1, st + e)),
        },
    }
}

/// The text between the first `[` of `s` and the first `]` after it.
pub fn bracket_chars(s: &[char]) -> (r: Option<Vec<char>>)
    ensures
        r matches Some(v) ==> bracket_of(s@) == Some(v@),
        r is None ==> bracket_of(s@) is None,
{
    proof {
        reveal_strlit("[");
        reveal_strlit("]");
    }
    let n = s.len();
    match find_chars(s, chars_of("[").as_slice(), 0) {
        None => None,
        Some(st) => {
            proof {
                lemma_find_from(s@, "["@, 0);
                assert(matches_at(s@, "["@, st as int));
                assert(s@.subrange(st as int, st + 1) == "["@);
                assert("["@[0] == '[');
                assert(s@.subrange(st as int, st + 1)[0] == s@[st as int]);
                assert(s@[st as int] == '[');
            }
            let rest = slice_chars(s, st, n);
            assert(rest@ == s@.skip(st as int));
            match find_chars(rest.as_slice(), chars_of("]").as_slice(), 0) {
                None => None,
                Some(e) => {
                    proof {
                        lemma_find_from(rest@, "]"@, 0);
                        assert(matches_at(rest@, "]"@, e as int));
                        assert(rest@.subrange(e as int, e + 1) == "]"@);
                        assert("]"@[0] == ']');
                        assert(rest@.subrange(e as int, e + 1)[0] == rest@[e as int]);
                        assert(rest@[e as int] == ']');
                        assert(e >= 1);
                    }
                    Some(slice_chars(s, st + 1, st + e))
                },
            }
        },
    }
}

/// The PPM policy table of MediaTek kernels.
pub open spec fn ppm_status_path() -> Seq<char> {
    "/proc/ppm/policy_status"@
}

/// A line of the PPM policy table that names a limiting policy.
pub open spec fn is_limit_line(line: Seq<char>, user_limit: bool) -> bool {
    contains(line, "FORCE_LIMIT"@) || contains(line, "PWR_THRO"@) || contains(line, "THERMAL"@) || (user_limit
        && contains(line, "USER_LIMIT"@))
}

/// The writes that one line of the PPM policy table calls for: its index
/// with the limit switch when it is a limiting policy, then its index with
/// the boost switch when it is the boost policy (and a boost switch is
/// given).
pub open spec fn ppm_line_plan(
    line: Seq<char>,
    limit_v: Seq<char>,
    boost_v: Option<Seq<char>>,
    user_limit: bool,
) -> Seq<WriteView> {
    (if is_limit_line(line, user_limit) && bracket_of(line) is Some {
        seq![wv(bracket_of(line)->0 + " "@ + limit_v, ppm_status_path(), WriteMode::Locked)]
    } else {
        seq![]
    }) + (match boost_v {
        Some(b) => if contains(line, "SYS_BOOST"@) && bracket_of(line) is Some {
            seq![wv(bracket_of(line)->0 + " "@ + b, ppm_status_path(), WriteMode::Locked)]
        } else {
            seq![]
        },
        None => seq![],
    })
}

/// The writes that the lines of the PPM policy table call for, in order.
pub open spec fn ppm_lines_plan(
    ls: Seq<Seq<char>>,
    limit_v: Seq<char>,
    boost_v: Option<Seq<char>>,
    user_limit: bool,
) -> Seq<WriteView>
    decreases ls.len(),
{
    if ls.len() == 0 {
        seq![]
    } else {
        ppm_lines_plan(ls.drop_last(), limit_v, boost_v, user_limit) + ppm_line_plan(
            ls.last(),
            limit_v,
            boost_v,
            user_limit,
        )
    }
}

fn push_index_write(plan: &mut Vec<SysWrite>, idx: &[char], v: &str)
    ensures
        writes_view(final(plan)@) == writes_view(old(plan)@).push(
            wv(idx@ + " "@ + v@, ppm_status_path(), WriteMode::Locked),
        ),
{
    let a = string_of(idx);
    let b = concat_str(a.as_str(), " ");
    let c = concat_str(b.as_str(), v);
    let path = string_of(chars_of("/proc/ppm/policy_status").as_slice());
    push_write(plan, write_of(c, path, WriteMode::Locked));
}

/// Switches the policies of the PPM policy table: each limiting policy (with
/// `USER_LIMIT` among them when `user_limit`) to `limit_v`, and, when
/// `boost_v` is given, the `SYS_BOOST` policy to it. `status` is the text
/// of the table when it exists and can be read.
pub fn ppm_policy_writes(status: Option<&str>, limit_v: &str, boost_v: Option<&str>, user_limit: bool) -> (res: Vec<SysWrite>)
    ensures
        writes_view(res@) == (match status {
            Some(st) => ppm_lines_plan(lines(st@), limit_v@, crate::freq::opt_view(boost_v), user_limit),
            None => seq![],
        }),
{
    let mut plan: Vec<SysWrite> = Vec::new();
    let content = match status {
        Some(c) => c,
        None => {
            return plan;
        },
    };
    let ls = lines_of(chars_of(content).as_slice());
    let ghost lv = views(ls@);
    let ghost bv = crate::freq::opt_view(boost_v);
    let mut k: usize = 0;
    while k < ls.len()
        invariant
            k <= ls.len(),
            lv == views(ls@),
            lv == lines(content@),
            bv == crate::freq::opt_view(boost_v),
            writes_view(plan@) == ppm_lines_plan(lv.take(k as int), limit_v@, bv, user_limit),
        decreases ls.len() - k,
    {
        let line = ls[k].as_slice();
        assert(lv[k as int] == line@);
        let ghost before = writes_view(plan@);
        let limit = contains_chars(line, chars_of("FORCE_LIMIT").as_slice()) || contains_chars(
            line,
            chars_of("PWR_THRO").as_slice(),
        ) || contains_chars(line, chars_of("THERMAL").as_slice()) || (user_limit && contains_chars(
            line,
            chars_of("USER_LIMIT").as_slice(),
        ));
        if limit {
            if let Some(idx) = bracket_chars(line) {
                push_index_write(&mut plan, idx.as_slice(), limit_v);
            }
        }
        if let Some(b) = boost_v {
            if contains_chars(line, chars_of("SYS_BOOST").as_slice()) {
                if let Some(idx) = bracket_chars(line) {
                    push_index_write(&mut plan, idx.as_slice(), b);
                }
            }
        }
        assert(writes_view(plan@) =~= before + ppm_line_plan(line@, limit_v@, bv, user_limit));
        assert(lv.take(k + 1).drop_last() == lv.take(k as int));
        k = k + 1;
    }
    assert(lv.take(ls.len() as int) == lv);
    plan
}


/// The length of the leading run of decimal digits of `s`.
pub open spec fn digit_len(s: Seq<char>) -> nat
    decreases s.len(),
{
    if s.len() == 0 || !is_digit(s[0]) {
        0
    } else {
        1 + digit_len(s.drop_first())
    }
}

proof fn lemma_digit_len_bound(s: Seq<char>)
    ensures
        digit_len(s) <= s.len(),
    decreases s.len(),
{
    if s.len() > 0 && is_digit(s[0]) {
        lemma_digit_len_bound(s.drop_first());
    }
}

proof fn lemma_digit_len(s: Seq<char>, k: int)
    requires
        0 <= k <= digit_len(s),
    ensures
        digit_len(s) == k + digit_len(s.skip(k)),
        digit_len(s) <= s.len(),
    decreases k,
{
    lemma_digit_len_bound(s);
    if k > 0 {
        lemma_digit_len(s.drop_first(), k - 1);
        assert(s.drop_first().skip(k - 1) == s.skip(k));
    } else {
        assert(s.skip(0) == s);
    }
}

/// The leading decimal digits of `s`.
pub fn leading_digits(s: &[char]) -> (res: Vec<char>)
    ensures
        res@ == s@.take(digit_len(s@) as int),
{
    let mut k: usize = 0;
    proof {
        lemma_digit_len(s@, 0);
    }
    while k < s.len() && is_digit_exec(s[k])
        invariant
            k <= s.len(),
            k <= digit_len(s@),
        decreases s.len() - k,
    {
        proof {
            lemma_digit_len(s@, k as int);
            assert(s@.skip(k as int)[0] == s@[k as int]);
            assert(s@.skip(k as int).drop_first() == s@.skip(k + 1));
        }
        k = k + 1;
    }
    proof {
        lemma_digit_len(s@, k as int);
        if k < s.len() {
            assert(s@.skip(k as int)[0] == s@[k as int]);
        }
        assert(digit_len(s@.skip(k as int)) == 0);
    }
    let v = slice_chars(s, 0, k);
    assert(v@ == s@.take(k as int));
    v
}

/// The frequency a line of the GPU OPP table names: the digits right after
/// its first `freq = `, when they form an `i64`.
pub open spec fn opp_value(line: Seq<char>) -> Option<i64> {
    match find(line, "freq = "@) {
        None => None,
        Some(pos) => {
            let rest = line.skip(pos + 7);
            parse_i64(rest.take(digit_len(rest) as int))
        },
    }
}

/// The frequencies that the lines of the GPU OPP table name, in order.
pub open spec fn opp_values(ls: Seq<Seq<char>>) -> Seq<i64>
    decreases ls.len(),
{
    if ls.len() == 0 {
        seq![]
    } else {
        opp_values(ls.drop_last()) + match opp_value(ls.last()) {
            Some(v) => seq![v],
            None => seq![],
        }
    }
}

fn opp_value_chars(line: &[char]) -> (r: Option<i64>)
    ensures
        r == opp_value(line@),
{
    proof {
        reveal_strlit("freq = ");
    }
    match find_chars(line, chars_of("freq = ").as_slice(), 0) {
        None => None,
        Some(pos) => {
            proof {
                lemma_find_from(line@, "freq = "@, 0);
                assert(matches_at(line@, "freq = "@, pos as int));
            }
            let n = line.len();
            let rest = slice_chars(line, pos + 7, n);
            assert(rest@ == line@.skip(pos + 7));
            let d = leading_digits(rest.as_slice());
            parse_i64_chars(d.as_slice())
        },
    }
}

/// The highest frequency of the GPU OPP table of MediaTek kernels
/// (`/proc/gpufreq/gpufreq_opp_dump`), `None` when no line names one.
pub fn gpu_opp_max(dump: &str) -> (r: Option<i64>)
    ensures
        r is None <==> opp_values(lines(dump@)).len() == 0,
        r matches Some(m) ==> opp_values(lines(dump@)).contains(m) && forall|i: int|
            0 <= i < opp_values(lines(dump@)).len() ==> #[trigger] opp_values(lines(dump@))[i] <= m,
{
    let ls = lines_of(chars_of(dump).as_slice());
    let ghost lv = views(ls@);
    let mut best: Option<i64> = None;
    let mut k: usize = 0;
    while k < ls.len()
        invariant
            k <= ls.len(),
            lv == views(ls@),
            lv == lines(dump@),
            best is None <==> opp_values(lv.take(k as int)).len() == 0,
            best matches Some(m) ==> opp_values(lv.take(k as int)).contains(m) && forall|i: int|
                0 <= i < opp_values(lv.take(k as int)).len() ==> #[trigger] opp_values(lv.take(k as int))[i] <= m,
        decreases ls.len() - k,
    {
        assert(lv[k as int] == ls@[k as int]@);
        assert(lv.take(k + 1).drop_last() == lv.take(k as int));
        let ghost prev = opp_values(lv.take(k as int));
        match opp_value_chars(ls[k].as_slice()) {
            Some(v) => {
                let ghost cur = opp_values(lv.take(k + 1));
                assert(cur == prev.push(v));
                match best {
                    Some(m) => {
                        if v > m {
                            best = Some(v);
                            assert(cur[prev.len() as int] == v);
                        } else {
                            proof {
                                let j = choose|j: int| 0 <= j < prev.len() && prev[j] == m;
                                assert(cur[j] == m);
                            }
                        }
                    },
                    None => {
                        best = Some(v);
                        assert(cur[prev.len() as int] == v);
                    },
                }
            },
            None => {
                assert(opp_values(lv.take(k + 1)) == prev);
            },
        }
        k = k + 1;
    }
    assert(lv.take(ls.len() as int) == lv);
    best
}

} // verus!
