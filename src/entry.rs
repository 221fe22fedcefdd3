//! The child's bring-up: the ordered steps it takes inside the new
//! namespaces before it runs the target, and the codes it reports a failed
//! step with.
use crate::config::{root_path, Config, SecurityPolicy};
use crate::report::{encode_failure, failure_frame};
use crate::filesystem::{mounts_view, MountNamespacedFs, MountRequest, MountStep, MountView};
use vstd::prelude::*;

verus! {

/// Which phase of a mount step a mount belongs to.
#[derive(Debug, Clone, Copy, PartialEq, Eq, Structural)]
pub enum MountPhase {
    Loading,
    Loaded,
}

/// One step of the child's bring-up.
#[derive(Debug, Clone)]
pub enum EntryStep {
    /// Close the write end of the ready pipe and the read end of the report pipe.
    CloseParentEnds,
    /// Block on the ready pipe until it reaches end of file.
    AwaitGate,
    SetHostname { name: String },
    /// Make every mount below `/` private, so no mount made here reaches
    /// the host.
    MakeMountsPrivate,
    /// Create the new root directory and its parents.
    CreateRoot { path: String },
    /// A mount asked for by mount step number `step`, in `phase`.
    Mount { step: usize, phase: MountPhase, request: MountRequest },
    /// Pivot into `new_root`, detach the old root, change to `/`.
    PivotRoot { new_root: String },
    /// Open `path` and put it over descriptor `fd`.
    Redirect { fd: i32, path: String },
    SetGid { gid: u32 },
    SetUid { uid: u32 },
    DropCapabilities { keep: u64 },
    SetNoNewPrivs,
    LoadSeccomp { allowed: Vec<u32> },
    /// Write the zero status byte to the report pipe.
    ReportReady,
    /// Replace the process image with the target.
    Exec { path: String, args: Vec<String> },
}

/// The model of a step.
pub enum StepView {
    CloseParentEnds,
    AwaitGate,
    SetHostname { name: Seq<char> },
    MakeMountsPrivate,
    CreateRoot { path: Seq<char> },
    Mount { step: usize, phase: MountPhase, request: MountView },
    PivotRoot { new_root: Seq<char> },
    Redirect { fd: i32, path: Seq<char> },
    SetGid { gid: u32 },
    SetUid { uid: u32 },
    DropCapabilities { keep: u64 },
    SetNoNewPrivs,
    LoadSeccomp { allowed: Seq<u32> },
    ReportReady,
    Exec { path: Seq<char>, args: Seq<Seq<char>> },
}

pub open spec fn strings_view(v: Seq<String>) -> Seq<Seq<char>> {
    v.map_values(|s: String| s@)
}

impl EntryStep {
    pub open spec fn view(&self) -> StepView {
        match self {
            EntryStep::CloseParentEnds => StepView::CloseParentEnds,
            EntryStep::AwaitGate => StepView::AwaitGate,
            EntryStep::SetHostname { name } => StepView::SetHostname { name: name@ },
            EntryStep::MakeMountsPrivate => StepView::MakeMountsPrivate,
            EntryStep::CreateRoot { path } => StepView::CreateRoot { path: path@ },
            EntryStep::Mount { step, phase, request } => StepView::Mount {
                step: *step,
                phase: *phase,
                request: request@,
            },
            EntryStep::PivotRoot { new_root } => StepView::PivotRoot { new_root: new_root@ },
            EntryStep::Redirect { fd, path } => StepView::Redirect { fd: *fd, path: path@ },
            EntryStep::SetGid { gid } => StepView::SetGid { gid: *gid },
            EntryStep::SetUid { uid } => StepView::SetUid { uid: *uid },
            EntryStep::DropCapabilities { keep } => StepView::DropCapabilities { keep: *keep },
            EntryStep::SetNoNewPrivs => StepView::SetNoNewPrivs,
            EntryStep::LoadSeccomp { allowed } => StepView::LoadSeccomp { allowed: allowed@ },
            EntryStep::ReportReady => StepView::ReportReady,
            EntryStep::Exec { path, args } => StepView::Exec {
                path: path@,
                args: strings_view(args@),
            },
        }
    }
}

pub open spec fn steps_view(v: Seq<EntryStep>) -> Seq<StepView> {
    v.map_values(|s: EntryStep| s@)
}

/// The mounts of one step's phase, tagged with the step's number.
pub open spec fn tag_mounts(i: usize, phase: MountPhase, ms: Seq<MountView>) -> Seq<StepView> {
    ms.map_values(|m: MountView| StepView::Mount { step: i, phase, request: m })
}

/// The `loading` mounts of steps `0..n`, in order.
pub open spec fn loading_mounts(fs: Seq<MountStep>, base: Seq<char>, n: nat) -> Seq<StepView>
    decreases n,
{
    if n == 0 {
        seq![]
    } else {
        loading_mounts(fs, base, (n - 1) as nat) + tag_mounts(
            (n - 1) as usize,
            MountPhase::Loading,
            fs[n - 1].loading_spec(base),
        )
    }
}

/// The `loaded` mounts of steps `0..n`, in order.
pub open spec fn loaded_mounts(fs: Seq<MountStep>, n: nat) -> Seq<StepView>
    decreases n,
{
    if n == 0 {
        seq![]
    } else {
        loaded_mounts(fs, (n - 1) as nat) + tag_mounts(
            (n - 1) as usize,
            MountPhase::Loaded,
            fs[n - 1].loaded_spec(),
        )
    }
}

pub open spec fn redirect_spec(fd: i32, path: Option<String>) -> Seq<StepView> {
    match path {
        Some(p) => seq![StepView::Redirect { fd, path: p@ }],
        None => seq![],
    }
}

/// What a capability policy applies; other policies apply nothing here.
pub open spec fn cap_part(p: SecurityPolicy) -> Seq<StepView> {
    match p {
        SecurityPolicy::Capability(c) => seq![StepView::DropCapabilities { keep: c.keep }],
        SecurityPolicy::Seccomp(_) => seq![],
    }
}

/// What a syscall-filter policy applies: no-new-privs, then the filter. An
/// empty allowlist loads no filter, since one that denies every syscall
/// would stop the target at its own `exec`.
pub open spec fn filter_part(p: SecurityPolicy) -> Seq<StepView> {
    match p {
        SecurityPolicy::Capability(_) => seq![],
        SecurityPolicy::Seccomp(s) => if s.allowed@.len() == 0 {
            seq![]
        } else {
            seq![StepView::SetNoNewPrivs, StepView::LoadSeccomp { allowed: s.allowed@ }]
        },
    }
}

pub open spec fn part(p: SecurityPolicy, caps: bool) -> Seq<StepView> {
    if caps {
        cap_part(p)
    } else {
        filter_part(p)
    }
}

/// The capability steps (`caps`) or the filter steps of policies `0..n`,
/// in list order.
pub open spec fn parts(ps: Seq<SecurityPolicy>, n: nat, caps: bool) -> Seq<StepView>
    decreases n,
{
    if n == 0 {
        seq![]
    } else {
        parts(ps, (n - 1) as nat, caps) + part(ps[n - 1], caps)
    }
}

/// The security steps: every capability drop, then every syscall filter,
/// so that dropping capabilities never meets a filter already in place.
pub open spec fn security_steps(ps: Seq<SecurityPolicy>) -> Seq<StepView> {
    parts(ps, ps.len(), true) + parts(ps, ps.len(), false)
}

/// The steps up to and including the creation of the new root.
pub open spec fn setup_steps(c: Config) -> Seq<StepView> {
    seq![
        StepView::CloseParentEnds,
        StepView::AwaitGate,
        StepView::SetHostname { name: c.hostname@ },
        StepView::MakeMountsPrivate,
        StepView::CreateRoot { path: root_path(c.working_path@, c.uid) },
    ]
}

pub open spec fn stdio_steps(c: Config) -> Seq<StepView> {
    redirect_spec(0, c.stdin) + redirect_spec(1, c.stdout) + redirect_spec(2, c.stderr)
}

pub open spec fn identity_steps(c: Config) -> Seq<StepView> {
    seq![StepView::SetGid { gid: c.inner_gid }, StepView::SetUid { uid: c.inner_uid }]
}

pub open spec fn final_steps(c: Config) -> Seq<StepView> {
    seq![
        StepView::ReportReady,
        StepView::Exec { path: c.target_executable@, args: strings_view(c.args@) },
    ]
}

/// The whole bring-up of the child for configuration `c`.
pub open spec fn entry_plan_spec(c: Config) -> Seq<StepView> {
    let root = root_path(c.working_path@, c.uid);
    setup_steps(c) + loading_mounts(c.fs@, root, c.fs@.len()) + seq![
        StepView::PivotRoot { new_root: root },
    ] + loaded_mounts(c.fs@, c.fs@.len()) + stdio_steps(c) + identity_steps(c)
        + security_steps(c.security_policies@) + final_steps(c)
}

fn push_tagged(out: &mut Vec<EntryStep>, i: usize, phase: MountPhase, ms: Vec<MountRequest>)
    ensures
        steps_view(final(out)@) == steps_view(old(out)@) + tag_mounts(i, phase, mounts_view(ms@)),
{
    let ghost start = out@;
    let ghost all = ms@;
    let mut ms = ms;
    let ghost mut k: int = 0;
    while ms.len() > 0
        invariant
            0 <= k <= all.len(),
            ms@ == all.subrange(k as int, all.len() as int),
            steps_view(out@) == steps_view(start) + tag_mounts(
                i,
                phase,
                mounts_view(all.subrange(0, k as int)),
            ),
        decreases ms@.len(),
    {
        let request = ms.remove(0);
        let ghost before = out@;
        out.push(EntryStep::Mount { step: i, phase, request });
        proof {
            assert(all.subrange(0, k + 1) =~= all.subrange(0, k as int).push(all[k as int]));
            assert(steps_view(out@) =~= steps_view(before).push(out@.last()@));
            assert(mounts_view(all.subrange(0, k + 1)) =~= mounts_view(all.subrange(0, k as int)).push(all[k as int]@));
            assert(tag_mounts(i, phase, mounts_view(all.subrange(0, k + 1))) =~= tag_mounts(i, phase, mounts_view(all.subrange(0, k as int))).push(StepView::Mount { step: i, phase, request: all[k as int]@ }));
        }
        proof {
            k = k + 1;
            assert(ms@ =~= all.subrange(k as int, all.len() as int));
        }
    }
    proof {
        assert(all.subrange(0, all.len() as int) =~= all);
    }
}

fn copy_u32s(v: &Vec<u32>) -> (r: Vec<u32>)
    ensures
        r@ == v@,
{
    let mut r: Vec<u32> = Vec::new();
    let mut i: usize = 0;
    while i < v.len()
        invariant
            0 <= i <= v@.len(),
            r@ == v@.subrange(0, i as int),
        decreases v@.len() - i,
    {
        r.push(v[i]);
        i = i + 1;
        proof {
            assert(r@ =~= v@.subrange(0, i as int));
        }
    }
    proof {
        assert(v@.subrange(0, v@.len() as int) =~= v@);
    }
    r
}

fn copy_strings(v: &Vec<String>) -> (r: Vec<String>)
    ensures
        strings_view(r@) == strings_view(v@),
{
    let mut r: Vec<String> = Vec::new();
    let mut i: usize = 0;
    while i < v.len()
        invariant
            0 <= i <= v@.len(),
            r@.len() == i,
            forall|k: int| 0 <= k < i ==> r@[k]@ == v@[k]@,
        decreases v@.len() - i,
    {
        r.push(v[i].clone());
        i = i + 1;
    }
    proof {
        assert(strings_view(r@) =~= strings_view(v@));
    }
    r
}

fn push_redirect(out: &mut Vec<EntryStep>, fd: i32, path: &Option<String>)
    ensures
        steps_view(final(out)@) == steps_view(old(out)@) + redirect_spec(fd, *path),
{
    let ghost before = out@;
    if let Some(p) = path {
        out.push(EntryStep::Redirect { fd, path: p.clone() });
    }
    proof {
        assert(steps_view(out@) =~= steps_view(before) + redirect_spec(fd, *path));
    }
}

fn push_part(out: &mut Vec<EntryStep>, p: &SecurityPolicy, caps: bool)
    ensures
        steps_view(final(out)@) == steps_view(old(out)@) + part(*p, caps),
{
    let ghost before = out@;
    match p {
        SecurityPolicy::Capability(c) => {
            if caps {
                out.push(EntryStep::DropCapabilities { keep: c.keep });
            }
        },
        SecurityPolicy::Seccomp(s) => {
            if !caps && s.allowed.len() > 0 {
                out.push(EntryStep::SetNoNewPrivs);
                out.push(EntryStep::LoadSeccomp { allowed: copy_u32s(&s.allowed) });
            }
        },
    }
    proof {
        assert(steps_view(out@) =~= steps_view(before) + part(*p, caps));
    }
}

fn push_parts(out: &mut Vec<EntryStep>, ps: &Vec<SecurityPolicy>, caps: bool)
    ensures
        steps_view(final(out)@) == steps_view(old(out)@) + parts(ps@, ps@.len(), caps),
{
    let ghost head = steps_view(out@);
    let mut k: usize = 0;
    while k < ps.len()
        invariant
            0 <= k <= ps@.len(),
            steps_view(out@) == head + parts(ps@, k as nat, caps),
        decreases ps@.len() - k,
    {
        push_part(out, &ps[k], caps);
        k = k + 1;
        proof {
            assert(head + parts(ps@, k as nat, caps) =~= head + parts(ps@, (k - 1) as nat, caps)
                + part(ps@[k - 1], caps));
        }
    }
}

fn push_one(out: &mut Vec<EntryStep>, s: EntryStep)
    ensures
        steps_view(final(out)@) == steps_view(old(out)@).push(s@),
{
    let ghost before = out@;
    out.push(s);
    proof {
        assert(steps_view(out@) =~= steps_view(before).push(s@));
    }
}

/// The steps the child takes for `config`, in the order it takes them.
pub fn entry_plan(config: &Config) -> (r: Vec<EntryStep>)
    ensures
        steps_view(r@) == entry_plan_spec(*config),
{
    let root = config.root_dir();
    let mut out: Vec<EntryStep> = Vec::new();
    push_one(&mut out, EntryStep::CloseParentEnds);
    push_one(&mut out, EntryStep::AwaitGate);
    push_one(&mut out, EntryStep::SetHostname { name: config.hostname.clone() });
    push_one(&mut out, EntryStep::MakeMountsPrivate);
    push_one(&mut out, EntryStep::CreateRoot { path: root.clone() });
    proof {
        assert(steps_view(out@) =~= setup_steps(*config));
    }
    let ghost fs = config.fs@;
    let mut i: usize = 0;
    while i < config.fs.len()
        invariant
            0 <= i <= fs.len(),
            fs == config.fs@,
            root@ == root_path(config.working_path@, config.uid),
            steps_view(out@) == setup_steps(*config) + loading_mounts(fs, root@, i as nat),
        decreases fs.len() - i,
    {
        let ms = config.fs[i].loading(&root);
        push_tagged(&mut out, i, MountPhase::Loading, ms);
        i = i + 1;
        proof {
            assert(setup_steps(*config) + loading_mounts(fs, root@, i as nat) =~= setup_steps(*config)
                + loading_mounts(fs, root@, (i - 1) as nat) + tag_mounts(
                (i - 1) as usize,
                MountPhase::Loading,
                fs[i - 1].loading_spec(root@),
            ));
        }
    }
    push_one(&mut out, EntryStep::PivotRoot { new_root: root.clone() });
    let ghost head = steps_view(out@);
    let mut j: usize = 0;
    while j < config.fs.len()
        invariant
            0 <= j <= fs.len(),
            fs == config.fs@,
            steps_view(out@) == head + loaded_mounts(fs, j as nat),
        decreases fs.len() - j,
    {
        let ms = config.fs[j].loaded();
        push_tagged(&mut out, j, MountPhase::Loaded, ms);
        j = j + 1;
        proof {
            assert(head + loaded_mounts(fs, j as nat) =~= head + loaded_mounts(fs, (j - 1) as nat)
                + tag_mounts((j - 1) as usize, MountPhase::Loaded, fs[j - 1].loaded_spec()));
        }
    }
    let ghost mid = steps_view(out@);
    push_redirect(&mut out, 0, &config.stdin);
    push_redirect(&mut out, 1, &config.stdout);
    push_redirect(&mut out, 2, &config.stderr);
    push_one(&mut out, EntryStep::SetGid { gid: config.inner_gid });
    push_one(&mut out, EntryStep::SetUid { uid: config.inner_uid });
    proof {
        assert(steps_view(out@) =~= mid + stdio_steps(*config) + identity_steps(*config));
    }
    let ghost head2 = steps_view(out@);
    push_parts(&mut out, &config.security_policies, true);
    push_parts(&mut out, &config.security_policies, false);
    proof {
        assert(steps_view(out@) =~= head2 + security_steps(config.security_policies@));
    }
    let ghost head3 = steps_view(out@);
    push_one(&mut out, EntryStep::ReportReady);
    push_one(
        &mut out,
        EntryStep::Exec {
            path: config.target_executable.clone(),
            args: copy_strings(&config.args),
        },
    );
    proof {
        assert(steps_view(out@) =~= head3 + final_steps(*config));
        assert(steps_view(out@) =~= entry_plan_spec(*config));
    }
    out
}

pub open spec fn is_mount(s: StepView) -> bool {
    s is Mount
}

/// Whether `s` is a mount of `phase` asked for by step `i`.
pub open spec fn is_mount_of(s: StepView, phase: MountPhase, i: usize) -> bool {
    s matches StepView::Mount { step, phase: ph, .. } && step == i && ph == phase
}

/// Every element is a mount of `phase` from a step below `n`, and their
/// step numbers never decrease.
pub open spec fn phase_run(s: Seq<StepView>, phase: MountPhase, n: nat) -> bool {
    &&& forall|p: int|
        0 <= p < s.len() ==> (#[trigger] s[p] matches StepView::Mount { step, phase: ph, .. }
            && ph == phase && step < n)
    &&& forall|p: int, q: int|
        0 <= p < q < s.len() ==> (#[trigger] s[p] matches StepView::Mount { step: a, .. } && (
        #[trigger] s[q] matches StepView::Mount { step: b, .. } && a <= b))
}

proof fn lemma_tag_run(i: usize, phase: MountPhase, ms: Seq<MountView>)
    ensures
        phase_run(tag_mounts(i, phase, ms), phase, i as nat + 1),
        forall|p: int|
            0 <= p < ms.len() ==> is_mount_of(#[trigger] tag_mounts(i, phase, ms)[p], phase, i),
{
}

proof fn lemma_run_concat(a: Seq<StepView>, b: Seq<StepView>, phase: MountPhase, n: nat, i: usize)
    requires
        phase_run(a, phase, n),
        n <= i,
        forall|p: int| 0 <= p < b.len() ==> is_mount_of(#[trigger] b[p], phase, i),
    ensures
        phase_run(a + b, phase, i as nat + 1),
{
    let s = a + b;
    assert forall|p: int, q: int| 0 <= p < q < s.len() implies (#[trigger] s[p] matches StepView::Mount {
        step: x,
        ..
    } && (#[trigger] s[q] matches StepView::Mount { step: y, .. } && x <= y)) by {
        if q < a.len() {
        } else if p < a.len() {
            assert(s[q] == b[q - a.len()]);
            assert(is_mount_of(b[q - a.len()], phase, i));
            assert(a[p] matches StepView::Mount { .. });
        } else {
            assert(is_mount_of(b[p - a.len()], phase, i));
            assert(is_mount_of(b[q - a.len()], phase, i));
        }
    }
    assert forall|p: int| 0 <= p < s.len() implies (#[trigger] s[p] matches StepView::Mount {
        step,
        phase: ph,
        ..
    } && ph == phase && step < i as nat + 1) by {
        if p >= a.len() {
            assert(is_mount_of(b[p - a.len()], phase, i));
        }
    }
}

proof fn lemma_loading_run(fs: Seq<MountStep>, base: Seq<char>, n: nat)
    requires
        n <= fs.len() <= usize::MAX,
    ensures
        phase_run(loading_mounts(fs, base, n), MountPhase::Loading, n),
    decreases n,
{
    if n > 0 {
        let i = (n - 1) as usize;
        lemma_loading_run(fs, base, (n - 1) as nat);
        lemma_tag_run(i, MountPhase::Loading, fs[n - 1].loading_spec(base));
        lemma_run_concat(
            loading_mounts(fs, base, (n - 1) as nat),
            tag_mounts(i, MountPhase::Loading, fs[n - 1].loading_spec(base)),
            MountPhase::Loading,
            (n - 1) as nat,
            i,
        );
    }
}

proof fn lemma_loaded_run(fs: Seq<MountStep>, n: nat)
    requires
        n <= fs.len() <= usize::MAX,
    ensures
        phase_run(loaded_mounts(fs, n), MountPhase::Loaded, n),
    decreases n,
{
    if n > 0 {
        let i = (n - 1) as usize;
        lemma_loaded_run(fs, (n - 1) as nat);
        lemma_tag_run(i, MountPhase::Loaded, fs[n - 1].loaded_spec());
        lemma_run_concat(
            loaded_mounts(fs, (n - 1) as nat),
            tag_mounts(i, MountPhase::Loaded, fs[n - 1].loaded_spec()),
            MountPhase::Loaded,
            (n - 1) as nat,
            i,
        );
    }
}

pub open spec fn is_security(s: StepView) -> bool {
    s is DropCapabilities || s is SetNoNewPrivs || s is LoadSeccomp
}

proof fn lemma_parts_shape(ps: Seq<SecurityPolicy>, n: nat, caps: bool)
    requires
        n <= ps.len(),
    ensures
        forall|p: int|
            0 <= p < parts(ps, n, caps).len() ==> (caps ==> #[trigger] parts(ps, n, caps)[p] is DropCapabilities) && (!caps
                ==> (parts(ps, n, caps)[p] is SetNoNewPrivs || parts(ps, n, caps)[p] is LoadSeccomp)),
        forall|p: int|
            0 <= p < parts(ps, n, caps).len() && #[trigger] parts(ps, n, caps)[p] is LoadSeccomp ==> p >= 1
                && parts(ps, n, caps)[p - 1] is SetNoNewPrivs,
    decreases n,
{
    if n > 0 {
        lemma_parts_shape(ps, (n - 1) as nat, caps);
        let a = parts(ps, (n - 1) as nat, caps);
        let t = part(ps[n - 1], caps);
        assert(parts(ps, n, caps) == a + t);
        assert forall|p: int| a.len() <= p < a.len() + t.len() implies (caps ==> #[trigger] (a + t)[p] is DropCapabilities) && (!caps ==> ((a + t)[p] is SetNoNewPrivs || (a + t)[p] is LoadSeccomp)) && ((a + t)[p] is LoadSeccomp ==> p >= 1 && (a + t)[p - 1] is SetNoNewPrivs) by {
            assert((a + t)[p] == t[p - a.len()]);
            if p - a.len() == 1 {
                assert((a + t)[p - 1] == t[0]);
            }
        }
    }
}

proof fn lemma_stdio_redirects(c: Config)
    ensures
        forall|p: int| 0 <= p < stdio_steps(c).len() ==> #[trigger] stdio_steps(c)[p] is Redirect,
{
    let x = redirect_spec(0, c.stdin);
    let y = redirect_spec(1, c.stdout);
    let z = redirect_spec(2, c.stderr);
    assert forall|p: int| 0 <= p < stdio_steps(c).len() implies #[trigger] stdio_steps(c)[p] is Redirect by {
        if p < x.len() {
            assert(stdio_steps(c)[p] == x[p]);
        } else if p < x.len() + y.len() {
            assert(stdio_steps(c)[p] == y[p - x.len()]);
        } else {
            assert(stdio_steps(c)[p] == z[p - x.len() - y.len()]);
        }
    }
}

/// Where each part of the plan starts: `loading` mounts from `a`, the pivot
/// at `b`, `loaded` mounts up to `d`, the inner group at `g`, readiness at
/// the next to last step and the target at the last.
pub open spec fn plan_marks(c: Config) -> (int, int, int, int) {
    let root = root_path(c.working_path@, c.uid);
    let a = setup_steps(c).len() as int;
    let b = a + loading_mounts(c.fs@, root, c.fs@.len()).len();
    let d = b + 1 + loaded_mounts(c.fs@, c.fs@.len()).len();
    let g = d + stdio_steps(c).len();
    (a, b, d, g)
}

/// Mount ordering and phase ordering in the child's bring-up. Mounts of
/// one phase run in the order their steps were inserted; every `loading`
/// mount runs before the pivot into the new root and every `loaded` mount
/// after it; the inner group and user are adopted after the last mount and
/// before any security policy; the target runs last, right after the zero
/// status byte, and nowhere else.
pub proof fn lemma_entry_order(c: Config)
    requires
        c.fs@.len() <= usize::MAX,
    ensures
        ({
            let plan = entry_plan_spec(c);
            let (a, b, d, g) = plan_marks(c);
            let root = root_path(c.working_path@, c.uid);
            &&& forall|p: int, q: int, i: usize, j: usize, ph: MountPhase|
                0 <= p < plan.len() && 0 <= q < plan.len() && #[trigger] is_mount_of(plan[p], ph, i)
                    && #[trigger] is_mount_of(plan[q], ph, j) && i < j ==> p < q
            &&& forall|p: int, i: usize|
                0 <= p < plan.len() && #[trigger] is_mount_of(plan[p], MountPhase::Loading, i) ==> a
                    <= p < b
            &&& plan[b] == StepView::PivotRoot { new_root: root }
            &&& forall|p: int, i: usize|
                0 <= p < plan.len() && #[trigger] is_mount_of(plan[p], MountPhase::Loaded, i) ==> b
                    < p < d
            &&& d <= g
            &&& plan[g] == StepView::SetGid { gid: c.inner_gid }
            &&& plan[g + 1] == StepView::SetUid { uid: c.inner_uid }
            &&& forall|p: int| g <= p < plan.len() ==> !is_mount(#[trigger] plan[p])
            &&& g + 1 < plan.len() - 2
            &&& plan[plan.len() - 2] == StepView::ReportReady
            &&& plan[plan.len() - 1] == StepView::Exec {
                path: c.target_executable@,
                args: strings_view(c.args@),
            }
            &&& forall|p: int| 0 <= p < plan.len() - 1 ==> !(#[trigger] plan[p] is Exec)
        }),
{
    let plan = entry_plan_spec(c);
    let (a, b, d, g) = plan_marks(c);
    let root = root_path(c.working_path@, c.uid);
    let n = c.fs@.len();
    let lo = loading_mounts(c.fs@, root, n);
    let ld = loaded_mounts(c.fs@, n);
    let ps = c.security_policies@;
    let sec = security_steps(ps);
    let cs = parts(ps, ps.len(), true);
    let fl = parts(ps, ps.len(), false);
    lemma_loading_run(c.fs@, root, n);
    lemma_loaded_run(c.fs@, n);
    lemma_parts_shape(ps, ps.len(), true);
    lemma_parts_shape(ps, ps.len(), false);
    assert forall|p: int| 0 <= p < sec.len() implies #[trigger] is_security(sec[p]) by {
        if p < cs.len() {
            assert(sec[p] == cs[p]);
        } else {
            assert(sec[p] == fl[p - cs.len()]);
        }
    }
    let tail = stdio_steps(c) + identity_steps(c) + sec + final_steps(c);
    assert(plan =~= setup_steps(c) + lo + seq![StepView::PivotRoot { new_root: root }] + ld + tail);
    assert forall|p: int| 0 <= p < plan.len() implies (p < a ==> !is_mount(#[trigger] plan[p]))
        && (a <= p < b ==> plan[p] == lo[p - a]) && (b < p < d ==> plan[p] == ld[p - b - 1]) && (d
        <= p ==> plan[p] == tail[p - d]) by {}
    assert forall|p: int| 0 <= p < tail.len() implies !is_mount(#[trigger] tail[p]) && (p < tail.len()
        - 1 ==> !(tail[p] is Exec)) by {
        let s1 = stdio_steps(c).len() as int;
        if p >= s1 + 2 && p < s1 + 2 + sec.len() {
            assert(tail[p] == sec[p - s1 - 2]);
            assert(is_security(sec[p - s1 - 2]));
        }
    }
    assert forall|p: int, q: int, i: usize, j: usize, ph: MountPhase|
        0 <= p < plan.len() && 0 <= q < plan.len() && #[trigger] is_mount_of(plan[p], ph, i)
            && #[trigger] is_mount_of(plan[q], ph, j) && i < j implies p < q by {
        if q < p {
            if a <= q && p < b {
                assert(lo[q - a] matches StepView::Mount { .. });
            } else if b < q && p < d {
                assert(ld[q - b - 1] matches StepView::Mount { .. });
            } else {
                if p < a || q < a || p >= d || q >= d {
                    if d <= p {
                        assert(!is_mount(tail[p - d]));
                    }
                    if d <= q {
                        assert(!is_mount(tail[q - d]));
                    }
                } else if p == b || q == b {
                } else if q < b {
                    assert(is_mount_of(lo[q - a], MountPhase::Loading, j));
                    assert(is_mount_of(ld[p - b - 1], MountPhase::Loaded, i));
                } else {
                    assert(is_mount_of(ld[q - b - 1], MountPhase::Loaded, j));
                    assert(is_mount_of(lo[p - a], MountPhase::Loading, i));
                }
            }
        }
    }
    assert forall|p: int, i: usize|
        0 <= p < plan.len() && #[trigger] is_mount_of(plan[p], MountPhase::Loading, i) implies a <= p
        < b by {
        if d <= p {
            assert(!is_mount(tail[p - d]));
        } else if b < p {
            assert(is_mount_of(ld[p - b - 1], MountPhase::Loaded, 0));
        }
    }
    assert forall|p: int, i: usize|
        0 <= p < plan.len() && #[trigger] is_mount_of(plan[p], MountPhase::Loaded, i) implies b < p
        < d by {
        if d <= p {
            assert(!is_mount(tail[p - d]));
        } else if a <= p && p < b {
            assert(is_mount_of(lo[p - a], MountPhase::Loading, 0));
        }
    }
    assert forall|p: int| g <= p < plan.len() implies !is_mount(#[trigger] plan[p]) by {
        assert(!is_mount(tail[p - d]));
    }
    assert forall|p: int| 0 <= p < plan.len() - 1 implies !(#[trigger] plan[p] is Exec) by {
        if d <= p {
            assert(!(tail[p - d] is Exec));
        } else if a <= p && p < b {
            assert(lo[p - a] matches StepView::Mount { .. });
        } else if b < p {
            assert(ld[p - b - 1] matches StepView::Mount { .. });
        }
    }
}

/// Security ordering in the child's bring-up: every capability drop comes
/// before every syscall filter, each filter is loaded right after
/// no-new-privs is set, and all of them come after the inner user is
/// adopted and before readiness is reported.
pub proof fn lemma_security_order(c: Config)
    requires
        c.fs@.len() <= usize::MAX,
    ensures
        ({
            let plan = entry_plan_spec(c);
            let (a, b, d, g) = plan_marks(c);
            &&& forall|p: int, q: int|
                0 <= p < plan.len() && 0 <= q < plan.len() && #[trigger] plan[p] is DropCapabilities
                    && #[trigger] plan[q] is LoadSeccomp ==> p < q
            &&& forall|q: int|
                0 <= q < plan.len() && #[trigger] plan[q] is LoadSeccomp ==> q >= 1 && plan[q
                    - 1] is SetNoNewPrivs
            &&& forall|p: int|
                0 <= p < plan.len() && #[trigger] is_security(plan[p]) ==> g + 1 < p < plan.len() - 2
        }),
{
    let plan = entry_plan_spec(c);
    let (a, b, d, g) = plan_marks(c);
    let root = root_path(c.working_path@, c.uid);
    let n = c.fs@.len();
    let lo = loading_mounts(c.fs@, root, n);
    let ld = loaded_mounts(c.fs@, n);
    let ps = c.security_policies@;
    let cs = parts(ps, ps.len(), true);
    let fl = parts(ps, ps.len(), false);
    lemma_loading_run(c.fs@, root, n);
    lemma_loaded_run(c.fs@, n);
    lemma_parts_shape(ps, ps.len(), true);
    lemma_parts_shape(ps, ps.len(), false);
    lemma_stdio_redirects(c);
    let x = setup_steps(c) + lo + seq![StepView::PivotRoot { new_root: root }] + ld + stdio_steps(c)
        + identity_steps(c);
    assert(plan =~= x + cs + fl + final_steps(c));
    assert(x.len() == g + 2);
    assert forall|p: int| 0 <= p < x.len() implies !is_security(#[trigger] x[p]) by {
        if a <= p < b {
            assert(x[p] == lo[p - a]);
        } else if b < p < d {
            assert(x[p] == ld[p - b - 1]);
        } else if d <= p < g {
            assert(x[p] == stdio_steps(c)[p - d]);
        }
    }
    let k = x.len() + cs.len();
    assert forall|p: int| 0 <= p < plan.len() implies (p < x.len() ==> plan[p] == x[p]) && (x.len() <= p
        < k ==> #[trigger] plan[p] == cs[p - x.len()]) && (k <= p < k + fl.len() ==> plan[p] == fl[p
        - k]) && (k + fl.len() <= p ==> plan[p] == final_steps(c)[p - k - fl.len()]) by {}
    assert forall|p: int| 0 <= p < plan.len() && #[trigger] is_security(plan[p]) implies x.len() <= p < k
        + fl.len() by {
        if p < x.len() {
            assert(!is_security(x[p]));
        }
    }
    assert forall|p: int| 0 <= p < plan.len() && #[trigger] plan[p] is DropCapabilities implies x.len()
        <= p < k by {
        if p < x.len() {
            assert(!is_security(x[p]));
        } else if k <= p < k + fl.len() {
            assert(fl[p - k] is SetNoNewPrivs || fl[p - k] is LoadSeccomp);
        }
    }
    assert forall|q: int| 0 <= q < plan.len() && #[trigger] plan[q] is LoadSeccomp implies k <= q < k
        + fl.len() && q >= 1 && plan[q - 1] is SetNoNewPrivs by {
        if q < x.len() {
            assert(!is_security(x[q]));
        } else if q < k {
            assert(cs[q - x.len()] is DropCapabilities);
        } else if q < k + fl.len() {
            assert(fl[q - k] is LoadSeccomp);
            assert(plan[q - 1] == fl[q - k - 1]);
        }
    }
}

/// With no mount step the child still pivots, into `<workspace>/root`,
/// right after creating it.
pub proof fn lemma_empty_fs_pivots(c: Config)
    requires
        c.fs@.len() == 0,
    ensures
        entry_plan_spec(c)[4] == (StepView::CreateRoot { path: root_path(c.working_path@, c.uid) }),
        entry_plan_spec(c)[5] == (StepView::PivotRoot { new_root: root_path(c.working_path@, c.uid) }),
{
    assert(loading_mounts(c.fs@, root_path(c.working_path@, c.uid), 0) =~= Seq::<StepView>::empty());
}

/// The part of the bring-up a failed step belongs to.
#[derive(Debug, Clone, Copy, PartialEq, Eq, Structural)]
pub enum EntryStage {
    /// Pipes, gate, hostname and the new root directory.
    Setup,
    MountLoading,
    Pivot,
    MountLoaded,
    Stdio,
    SetId,
    Security,
    Exec,
}

/// The status byte that reports a failure in `s`.
pub open spec fn stage_code_spec(s: EntryStage) -> u8 {
    match s {
        EntryStage::Setup => 1,
        EntryStage::MountLoading => 2,
        EntryStage::Pivot => 3,
        EntryStage::MountLoaded => 4,
        EntryStage::Stdio => 5,
        EntryStage::SetId => 6,
        EntryStage::Security => 7,
        EntryStage::Exec => 8,
    }
}

/// The stage a status byte reports, if any.
pub open spec fn stage_of_code_spec(code: u8) -> Option<EntryStage> {
    if code == 1 {
        Some(EntryStage::Setup)
    } else if code == 2 {
        Some(EntryStage::MountLoading)
    } else if code == 3 {
        Some(EntryStage::Pivot)
    } else if code == 4 {
        Some(EntryStage::MountLoaded)
    } else if code == 5 {
        Some(EntryStage::Stdio)
    } else if code == 6 {
        Some(EntryStage::SetId)
    } else if code == 7 {
        Some(EntryStage::Security)
    } else if code == 8 {
        Some(EntryStage::Exec)
    } else {
        None
    }
}

/// The stage a step belongs to.
pub open spec fn step_stage_spec(s: StepView) -> EntryStage {
    match s {
        StepView::Mount { phase: MountPhase::Loading, .. } => EntryStage::MountLoading,
        StepView::Mount { phase: MountPhase::Loaded, .. } => EntryStage::MountLoaded,
        StepView::PivotRoot { .. } => EntryStage::Pivot,
        StepView::Redirect { .. } => EntryStage::Stdio,
        StepView::SetGid { .. } | StepView::SetUid { .. } => EntryStage::SetId,
        StepView::DropCapabilities { .. } | StepView::SetNoNewPrivs | StepView::LoadSeccomp {
            ..
        } => EntryStage::Security,
        StepView::ReportReady | StepView::Exec { .. } => EntryStage::Exec,
        _ => EntryStage::Setup,
    }
}

impl EntryStage {
    /// The status byte that reports a failure in this stage; never zero.
    pub fn code(&self) -> (r: u8)
        ensures
            r == stage_code_spec(*self),
            r != 0,
    {
        match self {
            EntryStage::Setup => 1,
            EntryStage::MountLoading => 2,
            EntryStage::Pivot => 3,
            EntryStage::MountLoaded => 4,
            EntryStage::Stdio => 5,
            EntryStage::SetId => 6,
            EntryStage::Security => 7,
            EntryStage::Exec => 8,
        }
    }

    /// The stage that status byte `code` reports, or `None` for a byte no
    /// stage uses.
    pub fn from_code(code: u8) -> (r: Option<EntryStage>)
        ensures
            r == stage_of_code_spec(code),
    {
        if code == 1 {
            Some(EntryStage::Setup)
        } else if code == 2 {
            Some(EntryStage::MountLoading)
        } else if code == 3 {
            Some(EntryStage::Pivot)
        } else if code == 4 {
            Some(EntryStage::MountLoaded)
        } else if code == 5 {
            Some(EntryStage::Stdio)
        } else if code == 6 {
            Some(EntryStage::SetId)
        } else if code == 7 {
            Some(EntryStage::Security)
        } else if code == 8 {
            Some(EntryStage::Exec)
        } else {
            None
        }
    }
}

impl EntryStep {
    /// The stage this step belongs to.
    pub fn stage(&self) -> (r: EntryStage)
        ensures
            r == step_stage_spec(self@),
    {
        match self {
            EntryStep::Mount { phase: MountPhase::Loading, .. } => EntryStage::MountLoading,
            EntryStep::Mount { phase: MountPhase::Loaded, .. } => EntryStage::MountLoaded,
            EntryStep::PivotRoot { .. } => EntryStage::Pivot,
            EntryStep::Redirect { .. } => EntryStage::Stdio,
            EntryStep::SetGid { .. } | EntryStep::SetUid { .. } => EntryStage::SetId,
            EntryStep::DropCapabilities { .. } | EntryStep::SetNoNewPrivs
            | EntryStep::LoadSeccomp { .. } => EntryStage::Security,
            EntryStep::ReportReady | EntryStep::Exec { .. } => EntryStage::Exec,
            _ => EntryStage::Setup,
        }
    }

    /// The frame the child writes when this step failed with `message`.
    pub fn failure_report(&self, message: &Vec<u8>) -> (r: Vec<u8>)
        ensures
            r@ == failure_frame(stage_code_spec(step_stage_spec(self@)), message@),
    {
        let code = self.stage().code();
        encode_failure(code, message)
    }
}

/// Whether the child reports a failure of step `s`: not of the readiness
/// report (the pipe it would use is what failed), nor of the exec (the
/// zero status byte has already gone out).
pub open spec fn reports_failure(s: StepView) -> bool {
    !(s is ReportReady || s is Exec)
}

impl EntryStep {
    /// What the child writes when this step fails with `message`, before it
    /// exits; `None` where nothing can be reported.
    pub fn on_failure(&self, message: &Vec<u8>) -> (r: Option<Vec<u8>>)
        ensures
            r.is_some() == reports_failure(self@),
            r matches Some(f) ==> f@ == failure_frame(
                stage_code_spec(step_stage_spec(self@)),
                message@,
            ),
    {
        match self {
            EntryStep::ReportReady | EntryStep::Exec { .. } => None,
            _ => Some(self.failure_report(message)),
        }
    }
}

/// Every stage has its own status byte, which decodes back to it.
pub proof fn lemma_stage_codes(s: EntryStage, t: EntryStage)
    ensures
        stage_code_spec(s) != 0,
        stage_of_code_spec(stage_code_spec(s)) == Some(s),
        s != t ==> stage_code_spec(s) != stage_code_spec(t),
{
}

} // verus!
