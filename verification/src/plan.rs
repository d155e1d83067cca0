//! The actions that the tuning takes on the device, as values: the library
//! decides them, the program around it performs them.
use vstd::prelude::*;

verus! {

/// How a value is written to a kernel file.
#[derive(Clone, Copy, Debug, PartialEq, Eq, Structural)]
pub enum WriteMode {
    /// Made writable, written, then made read-only; skipped when the file
    /// does not exist.
    Locked,
    /// Made writable and written, left writable; skipped when the file does
    /// not exist.
    Unlocked,
    /// Made writable, written, then made read-only, only when the path is a
    /// regular file; nothing is reported either way.
    Plain,
}

/// One value to write to one kernel file.
#[derive(Debug, PartialEq, Eq)]
pub struct SysWrite {
    pub value: String,
    pub path: String,
    pub mode: WriteMode,
}

/// The content of a `SysWrite`.
pub struct WriteView {
    pub value: Seq<char>,
    pub path: Seq<char>,
    pub mode: WriteMode,
}

impl View for SysWrite {
    type V = WriteView;

    open spec fn view(&self) -> WriteView {
        WriteView { value: self.value@, path: self.path@, mode: self.mode }
    }
}

/// The contents of a list of writes.
pub open spec fn writes_view(v: Seq<SysWrite>) -> Seq<WriteView> {
    v.map_values(|w: SysWrite| w@)
}

/// A write, as a value.
pub open spec fn wv(value: Seq<char>, path: Seq<char>, mode: WriteMode) -> WriteView {
    WriteView { value, path, mode }
}

/// A write of `value` to `path`.
pub fn write_of(value: String, path: String, mode: WriteMode) -> (w: SysWrite)
    ensures
        w@ == wv(value@, path@, mode),
{
    SysWrite { value, path, mode }
}

/// Appends a write to a plan.
pub fn push_write(plan: &mut Vec<SysWrite>, w: SysWrite)
    ensures
        writes_view(final(plan)@) == writes_view(old(plan)@).push(w@),
{
    let ghost before = plan@;
    plan.push(w);
    assert(writes_view(plan@) =~= writes_view(before).push(w@));
}

/// A locked write, as a value.
pub open spec fn lw(value: Seq<char>, path: Seq<char>) -> WriteView {
    wv(value, path, WriteMode::Locked)
}

/// Appends a locked write of `value` to `path`.
pub fn push_locked(plan: &mut Vec<SysWrite>, value: &str, path: &str)
    ensures
        writes_view(final(plan)@) == writes_view(old(plan)@).push(lw(value@, path@)),
{
    let v = crate::text::string_of(crate::text::chars_of(value).as_slice());
    let p = crate::text::string_of(crate::text::chars_of(path).as_slice());
    push_write(plan, write_of(v, p, WriteMode::Locked));
}

/// Appends a locked write of `value` to `dir` followed by `file`.
pub fn push_locked_in(plan: &mut Vec<SysWrite>, value: &str, dir: &str, file: &str)
    ensures
        writes_view(final(plan)@) == writes_view(old(plan)@).push(lw(value@, dir@ + file@)),
{
    let v = crate::text::string_of(crate::text::chars_of(value).as_slice());
    let p = crate::text::concat_str(dir, file);
    push_write(plan, write_of(v, p, WriteMode::Locked));
}

/// The locked writes of `value` to each of `dirs` followed by `file`.
pub open spec fn each_in(dirs: Seq<Seq<char>>, value: Seq<char>, file: Seq<char>) -> Seq<WriteView>
    decreases dirs.len(),
{
    if dirs.len() == 0 {
        seq![]
    } else {
        each_in(dirs.drop_last(), value, file).push(lw(value, dirs.last() + file))
    }
}

/// The writes of `each_in` are one per directory, in order, each the value
/// to its directory followed by `file`.
pub proof fn lemma_each_in(dirs: Seq<Seq<char>>, value: Seq<char>, file: Seq<char>)
    ensures
        each_in(dirs, value, file).len() == dirs.len(),
        forall|j: int| 0 <= j < dirs.len() ==> #[trigger] each_in(dirs, value, file)[j] == lw(value, dirs[j] + file),
    decreases dirs.len(),
{
    if dirs.len() > 0 {
        let prev = dirs.drop_last();
        lemma_each_in(prev, value, file);
        assert forall|j: int| 0 <= j < dirs.len() implies #[trigger] each_in(dirs, value, file)[j] == lw(
            value,
            dirs[j] + file,
        ) by {
            if j < dirs.len() - 1 {
                assert(prev[j] == dirs[j]);
            }
        }
    }
}

/// Appends the locked writes of `value` to each of `dirs` followed by `file`.
pub fn push_each_in(plan: &mut Vec<SysWrite>, dirs: &[String], value: &str, file: &str)
    ensures
        writes_view(final(plan)@) == writes_view(old(plan)@) + each_in(crate::text::strings_view(dirs@), value@, file@),
{
    let ghost before = writes_view(plan@);
    let ghost dv = crate::text::strings_view(dirs@);
    let mut k: usize = 0;
    while k < dirs.len()
        invariant
            k <= dirs.len(),
            dv == crate::text::strings_view(dirs@),
            writes_view(plan@) == before + each_in(dv.take(k as int), value@, file@),
        decreases dirs.len() - k,
    {
        push_locked_in(plan, value, dirs[k].as_str(), file);
        assert(dv.take(k + 1).drop_last() == dv.take(k as int));
        assert(dv[k as int] == dirs@[k as int]@);
        k = k + 1;
    }
    assert(dv.take(dirs.len() as int) == dv);
}

/// One action of a plan: a file write, a change of a file's permissions, a
/// system property, or a command.
#[derive(Debug, PartialEq, Eq)]
pub enum Step {
    /// A value written to a kernel file.
    Write(SysWrite),
    /// The file made read-only, without being written.
    Lock(String),
    /// Every permission of the file taken away.
    Seal(String),
    /// A system property set to a value.
    SetProp(String, String),
    /// A command run to its end, its outcome ignored: the program, then its
    /// arguments.
    Run(Vec<String>),
    /// A command started and left running: the program, then its arguments.
    Spawn(Vec<String>),
}

/// The content of a `Step`.
pub enum StepView {
    Write(WriteView),
    Lock(Seq<char>),
    Seal(Seq<char>),
    SetProp(Seq<char>, Seq<char>),
    Run(Seq<Seq<char>>),
    Spawn(Seq<Seq<char>>),
}

impl View for Step {
    type V = StepView;

    open spec fn view(&self) -> StepView {
        match self {
            Step::Write(w) => StepView::Write(w@),
            Step::Lock(p) => StepView::Lock(p@),
            Step::Seal(p) => StepView::Seal(p@),
            Step::SetProp(n, v) => StepView::SetProp(n@, v@),
            Step::Run(a) => StepView::Run(crate::text::strings_view(a@)),
            Step::Spawn(a) => StepView::Spawn(crate::text::strings_view(a@)),
        }
    }
}

/// The contents of a list of steps.
pub open spec fn steps_view(v: Seq<Step>) -> Seq<StepView> {
    v.map_values(|s: Step| s@)
}

/// Writes, as steps.
pub open spec fn as_steps(ws: Seq<WriteView>) -> Seq<StepView> {
    ws.map_values(|w: WriteView| StepView::Write(w))
}

/// Appends a step to a plan.
pub fn push_step(plan: &mut Vec<Step>, s: Step)
    ensures
        steps_view(final(plan)@) == steps_view(old(plan)@).push(s@),
{
    let ghost before = plan@;
    plan.push(s);
    assert(steps_view(plan@) =~= steps_view(before).push(s@));
}

/// Appends writes to a plan, in order.
pub fn push_writes(plan: &mut Vec<Step>, ws: Vec<SysWrite>)
    ensures
        steps_view(final(plan)@) == steps_view(old(plan)@) + as_steps(writes_view(ws@)),
{
    let ghost before = steps_view(plan@);
    let ghost wv0 = writes_view(ws@);
    let mut ws = ws;
    let mut rest: Vec<SysWrite> = Vec::new();
    // Take the writes from the back, then replay them in order.
    while ws.len() > 0
        invariant
            steps_view(plan@) == before,
            writes_view(ws@) + writes_view(rest@).reverse() == wv0,
        decreases ws.len(),
    {
        let ghost w0 = ws@;
        let ghost r0 = rest@;
        let w = ws.pop().unwrap();
        rest.push(w);
        assert(writes_view(w0) =~= writes_view(ws@).push(w@));
        assert(writes_view(rest@) =~= writes_view(r0).push(w@));
        assert(writes_view(rest@).reverse() =~= seq![w@] + writes_view(r0).reverse());
        assert(writes_view(ws@) + writes_view(rest@).reverse() =~= writes_view(w0) + writes_view(r0).reverse());
    }
    assert(writes_view(rest@).reverse() =~= wv0);
    while rest.len() > 0
        invariant
            steps_view(plan@) + as_steps(writes_view(rest@).reverse()) == before + as_steps(wv0),
        decreases rest.len(),
    {
        let ghost r0 = rest@;
        let ghost p0 = steps_view(plan@);
        let w = rest.pop().unwrap();
        let ghost wv = w@;
        plan.push(Step::Write(w));
        assert(writes_view(r0) =~= writes_view(rest@).push(wv));
        assert(writes_view(r0).reverse() =~= seq![wv] + writes_view(rest@).reverse());
        assert(steps_view(plan@) =~= p0.push(StepView::Write(wv)));
        assert(as_steps(writes_view(r0).reverse()) =~= seq![StepView::Write(wv)] + as_steps(writes_view(rest@).reverse()));
        assert(steps_view(plan@) + as_steps(writes_view(rest@).reverse()) =~= p0 + as_steps(writes_view(r0).reverse()));
    }
    assert(writes_view(rest@).reverse() =~= Seq::<WriteView>::empty());
    assert(steps_view(plan@) =~= before + as_steps(wv0));
}

/// Appends a locked write of `value` to `path`, as a step.
pub fn push_locked_step(plan: &mut Vec<Step>, value: &str, path: &str)
    ensures
        steps_view(final(plan)@) == steps_view(old(plan)@).push(StepView::Write(lw(value@, path@))),
{
    let v = crate::text::string_of(crate::text::chars_of(value).as_slice());
    let p = crate::text::string_of(crate::text::chars_of(path).as_slice());
    push_step(plan, Step::Write(write_of(v, p, WriteMode::Locked)));
}

/// Appends a step that sets a system property.
pub fn push_setprop(plan: &mut Vec<Step>, name: &str, value: &str)
    ensures
        steps_view(final(plan)@) == steps_view(old(plan)@).push(StepView::SetProp(name@, value@)),
{
    let n = crate::text::string_of(crate::text::chars_of(name).as_slice());
    let v = crate::text::string_of(crate::text::chars_of(value).as_slice());
    push_step(plan, Step::SetProp(n, v));
}

/// A list of words, as owned strings.
pub fn args_of(words: &[&str]) -> (res: Vec<String>)
    ensures
        crate::text::strings_view(res@) == words@.map_values(|w: &str| w@),
{
    let mut res: Vec<String> = Vec::new();
    let mut k: usize = 0;
    while k < words.len()
        invariant
            k <= words.len(),
            crate::text::strings_view(res@) == words@.take(k as int).map_values(|w: &str| w@),
        decreases words.len() - k,
    {
        let ghost r0 = res@;
        let w = crate::text::string_of(crate::text::chars_of(words[k]).as_slice());
        res.push(w);
        assert(crate::text::strings_view(res@) =~= crate::text::strings_view(r0).push(words@[k as int]@));
        assert(words@.take(k + 1).map_values(|w: &str| w@) =~= words@.take(k as int).map_values(|w: &str| w@).push(
            words@[k as int]@,
        ));
        k = k + 1;
    }
    assert(words@.take(words.len() as int) == words@);
    res
}

/// Pairs of a path and a value, by content.
pub open spec fn pairs_view(ps: Seq<(&str, &str)>) -> Seq<(Seq<char>, Seq<char>)> {
    ps.map_values(|p: (&str, &str)| (p.0@, p.1@))
}

/// The locked writes of each value to its path, in order.
pub open spec fn fixed_writes(ps: Seq<(Seq<char>, Seq<char>)>) -> Seq<WriteView> {
    ps.map_values(|p: (Seq<char>, Seq<char>)| lw(p.1, p.0))
}

/// Appends the locked writes of each value to its path, in order.
pub fn push_fixed(plan: &mut Vec<SysWrite>, ps: &[(&str, &str)])
    ensures
        writes_view(final(plan)@) == writes_view(old(plan)@) + fixed_writes(pairs_view(ps@)),
{
    let ghost before = writes_view(plan@);
    let ghost pv = pairs_view(ps@);
    let mut k: usize = 0;
    while k < ps.len()
        invariant
            k <= ps.len(),
            pv == pairs_view(ps@),
            writes_view(plan@) == before + fixed_writes(pv.take(k as int)),
        decreases ps.len() - k,
    {
        let (path, value) = ps[k];
        push_locked(plan, value, path);
        assert(fixed_writes(pv.take(k + 1)) =~= fixed_writes(pv.take(k as int)).push(lw(value@, path@)));
        k = k + 1;
    }
    assert(pv.take(ps.len() as int) == pv);
}

} // verus!
