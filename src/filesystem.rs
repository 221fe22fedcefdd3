//! Mount steps: pluggable actions on the container's future root.
//!
//! A step does not mount anything itself: each phase returns the mounts it
//! asks for, in order, and the child performs them. `loading` runs before
//! the root pivot with the new root's host path; `loaded` runs after it.
use vstd::prelude::*;
use vstd::string::*;

verus! {

/// Flags of one mount call.
#[derive(Debug, Clone, Copy, PartialEq, Eq, Structural)]
pub struct MountFlags {
    pub bind: bool,
    pub recursive: bool,
    pub remount: bool,
    pub read_only: bool,
}

/// One mount call: `mount(source, target, fstype, flags)`.
#[derive(Debug, Clone)]
pub struct MountRequest {
    pub source: Option<String>,
    pub target: String,
    pub fstype: Option<String>,
    pub flags: MountFlags,
}

/// The model of a mount call.
pub struct MountView {
    pub source: Option<Seq<char>>,
    pub target: Seq<char>,
    pub fstype: Option<Seq<char>>,
    pub flags: MountFlags,
}

pub open spec fn opt_view(s: Option<String>) -> Option<Seq<char>> {
    match s {
        Some(t) => Some(t@),
        None => None,
    }
}

impl MountRequest {
    pub open spec fn view(&self) -> MountView {
        MountView {
            source: opt_view(self.source),
            target: self.target@,
            fstype: opt_view(self.fstype),
            flags: self.flags,
        }
    }
}

pub open spec fn mounts_view(v: Seq<MountRequest>) -> Seq<MountView> {
    v.map_values(|r: MountRequest| r@)
}

pub open spec fn no_flags() -> MountFlags {
    MountFlags { bind: false, recursive: false, remount: false, read_only: false }
}

pub open spec fn rec_bind_flags() -> MountFlags {
    MountFlags { bind: true, recursive: true, remount: false, read_only: false }
}

pub open spec fn ro_remount_flags() -> MountFlags {
    MountFlags { bind: true, recursive: false, remount: true, read_only: true }
}

/// A virtual filesystem of type `fs` mounted at `target`.
pub open spec fn virtual_mount(fs: Seq<char>, target: Seq<char>) -> MountView {
    MountView { source: Some(fs), target, fstype: Some(fs), flags: no_flags() }
}

/// A recursive bind of `source` onto `target`.
pub open spec fn rec_bind(source: Seq<char>, target: Seq<char>) -> MountView {
    MountView { source: Some(source), target, fstype: None, flags: rec_bind_flags() }
}

/// Remounting the bind at `target` read-only.
pub open spec fn ro_remount(target: Seq<char>) -> MountView {
    MountView { source: None, target, fstype: None, flags: ro_remount_flags() }
}

/// `inner` placed under `base`.
pub open spec fn join_path(base: Seq<char>, inner: Seq<char>) -> Seq<char> {
    base + seq!['/'] + inner
}

/// A mount step. Both phases default to asking for nothing.
pub trait MountNamespacedFs {
    /// The mounts asked for before the pivot, given the new root's path.
    spec fn loading_spec(&self, base: Seq<char>) -> Seq<MountView>;

    /// The mounts asked for after the pivot.
    spec fn loaded_spec(&self) -> Seq<MountView>;

    fn loading(&self, base: &String) -> (r: Vec<MountRequest>)
        ensures
            mounts_view(r@) == self.loading_spec(base@),
    ;

    fn loaded(&self) -> (r: Vec<MountRequest>)
        ensures
            mounts_view(r@) == self.loaded_spec(),
    ;
}

fn virtual_request(fs: &str, target: &str) -> (r: MountRequest)
    ensures
        r@ == virtual_mount(fs@, target@),
{
    MountRequest {
        source: Some(String::from_str(fs)),
        target: String::from_str(target),
        fstype: Some(String::from_str(fs)),
        flags: MountFlags { bind: false, recursive: false, remount: false, read_only: false },
    }
}

fn rec_bind_request(source: &String, target: &String) -> (r: MountRequest)
    ensures
        r@ == rec_bind(source@, target@),
{
    MountRequest {
        source: Some(source.clone()),
        target: target.clone(),
        fstype: None,
        flags: MountFlags { bind: true, recursive: true, remount: false, read_only: false },
    }
}

fn ro_remount_request(target: &String) -> (r: MountRequest)
    ensures
        r@ == ro_remount(target@),
{
    MountRequest {
        source: None,
        target: target.clone(),
        fstype: None,
        flags: MountFlags { bind: true, recursive: false, remount: true, read_only: true },
    }
}

/// `inner` placed under `base`.
pub fn join(base: &String, inner: &String) -> (r: String)
    ensures
        r@ == join_path(base@, inner@),
{
    let r = base.clone().concat("/").concat(inner.as_str());
    proof {
        reveal_strlit("/");
    }
    r
}

/// A `tmpfs` at `/tmp`, after the pivot.
#[derive(Debug, Clone, Copy)]
pub struct MountTmpFs;

impl MountNamespacedFs for MountTmpFs {
    open spec fn loading_spec(&self, base: Seq<char>) -> Seq<MountView> {
        seq![]
    }

    open spec fn loaded_spec(&self) -> Seq<MountView> {
        seq![virtual_mount("tmpfs"@, "/tmp"@)]
    }

    fn loading(&self, base: &String) -> (r: Vec<MountRequest>) {
        let r: Vec<MountRequest> = Vec::new();
        proof {
            assert(mounts_view(r@) =~= seq![]);
        }
        r
    }

    fn loaded(&self) -> (r: Vec<MountRequest>) {
        let mut r: Vec<MountRequest> = Vec::new();
        r.push(virtual_request("tmpfs", "/tmp"));
        proof {
            assert(mounts_view(r@) =~= self.loaded_spec());
        }
        r
    }
}

/// A `proc` filesystem at `/proc`, after the pivot; the PID namespace is
/// new, so the host's `/proc` would be wrong.
#[derive(Debug, Clone, Copy)]
pub struct MountProcFs;

impl MountNamespacedFs for MountProcFs {
    open spec fn loading_spec(&self, base: Seq<char>) -> Seq<MountView> {
        seq![]
    }

    open spec fn loaded_spec(&self) -> Seq<MountView> {
        seq![virtual_mount("proc"@, "/proc"@)]
    }

    fn loading(&self, base: &String) -> (r: Vec<MountRequest>) {
        let r: Vec<MountRequest> = Vec::new();
        proof {
            assert(mounts_view(r@) =~= seq![]);
        }
        r
    }

    fn loaded(&self) -> (r: Vec<MountRequest>) {
        let mut r: Vec<MountRequest> = Vec::new();
        r.push(virtual_request("proc", "/proc"));
        proof {
            assert(mounts_view(r@) =~= self.loaded_spec());
        }
        r
    }
}

/// A host directory bound recursively as the base of the new root.
#[derive(Debug, Clone)]
pub struct MountBindFs {
    pub source: String,
}

impl MountBindFs {
    pub fn from(source: String) -> (r: Self)
        ensures
            r.source@ == source@,
    {
        MountBindFs { source }
    }
}

impl MountNamespacedFs for MountBindFs {
    open spec fn loading_spec(&self, base: Seq<char>) -> Seq<MountView> {
        seq![rec_bind(self.source@, base)]
    }

    open spec fn loaded_spec(&self) -> Seq<MountView> {
        seq![]
    }

    fn loading(&self, base: &String) -> (r: Vec<MountRequest>) {
        let mut r: Vec<MountRequest> = Vec::new();
        r.push(rec_bind_request(&self.source, base));
        proof {
            assert(mounts_view(r@) =~= self.loading_spec(base@));
        }
        r
    }

    fn loaded(&self) -> (r: Vec<MountRequest>) {
        let r: Vec<MountRequest> = Vec::new();
        proof {
            assert(mounts_view(r@) =~= seq![]);
        }
        r
    }
}

/// A host image directory bound recursively as the base of the new root,
/// then remounted read-only.
#[derive(Debug, Clone)]
pub struct MountReadOnlyBindFs {
    pub source: String,
}

impl MountReadOnlyBindFs {
    pub fn from(source: String) -> (r: Self)
        ensures
            r.source@ == source@,
    {
        MountReadOnlyBindFs { source }
    }
}

impl MountNamespacedFs for MountReadOnlyBindFs {
    open spec fn loading_spec(&self, base: Seq<char>) -> Seq<MountView> {
        seq![rec_bind(self.source@, base), ro_remount(base)]
    }

    open spec fn loaded_spec(&self) -> Seq<MountView> {
        seq![]
    }

    fn loading(&self, base: &String) -> (r: Vec<MountRequest>) {
        let mut r: Vec<MountRequest> = Vec::new();
        r.push(rec_bind_request(&self.source, base));
        r.push(ro_remount_request(base));
        proof {
            assert(mounts_view(r@) =~= self.loading_spec(base@));
        }
        r
    }

    fn loaded(&self) -> (r: Vec<MountRequest>) {
        let r: Vec<MountRequest> = Vec::new();
        proof {
            assert(mounts_view(r@) =~= seq![]);
        }
        r
    }
}

/// The two mounts that bind `host` read-only at `inner` under `base`.
pub open spec fn extra_bind(base: Seq<char>, host: Seq<char>, inner: Seq<char>) -> Seq<MountView> {
    seq![rec_bind(host, join_path(base, inner)), ro_remount(join_path(base, inner))]
}

/// The mounts for the binds `binds[0..n]`, in order.
pub open spec fn extra_binds(base: Seq<char>, binds: Seq<(String, String)>, n: nat) -> Seq<
    MountView,
>
    decreases n,
{
    if n == 0 {
        seq![]
    } else {
        extra_binds(base, binds, (n - 1) as nat) + extra_bind(
            base,
            binds[n - 1].0@,
            binds[n - 1].1@,
        )
    }
}

/// A set of host directories, each bound read-only at a path inside the
/// container. Host paths are only reachable before the pivot.
#[derive(Debug, Clone)]
pub struct MountExtraFs {
    pub binds: Vec<(String, String)>,
}

impl MountExtraFs {
    pub fn new() -> (r: Self)
        ensures
            r.binds@.len() == 0,
    {
        MountExtraFs { binds: Vec::new() }
    }

    /// Adds a bind of `host` at `inner` (a path inside the container).
    pub fn add(&mut self, host: String, inner: String)
        ensures
            final(self).binds@ == old(self).binds@.push((host, inner)),
    {
        self.binds.push((host, inner));
    }
}

impl MountNamespacedFs for MountExtraFs {
    open spec fn loading_spec(&self, base: Seq<char>) -> Seq<MountView> {
        extra_binds(base, self.binds@, self.binds@.len())
    }

    open spec fn loaded_spec(&self) -> Seq<MountView> {
        seq![]
    }

    fn loading(&self, base: &String) -> (r: Vec<MountRequest>) {
        let mut r: Vec<MountRequest> = Vec::new();
        let mut i: usize = 0;
        while i < self.binds.len()
            invariant
                0 <= i <= self.binds@.len(),
                mounts_view(r@) == extra_binds(base@, self.binds@, i as nat),
            decreases self.binds@.len() - i,
        {
            let target = join(base, &self.binds[i].1);
            let ghost before = r@;
            r.push(rec_bind_request(&self.binds[i].0, &target));
            r.push(ro_remount_request(&target));
            proof {
                assert(r@ =~= before.push(r@[before.len() as int]).push(
                    r@[before.len() as int + 1],
                ));
                assert(mounts_view(r@) =~= mounts_view(before) + extra_bind(
                    base@,
                    self.binds@[i as int].0@,
                    self.binds@[i as int].1@,
                ));
            }
            i = i + 1;
        }
        r
    }

    fn loaded(&self) -> (r: Vec<MountRequest>) {
        let r: Vec<MountRequest> = Vec::new();
        proof {
            assert(mounts_view(r@) =~= seq![]);
        }
        r
    }
}

} // verus!

verus! {

/// The mount steps a configuration can list.
#[derive(Debug, Clone)]
pub enum MountStep {
    TmpFs(MountTmpFs),
    ProcFs(MountProcFs),
    Bind(MountBindFs),
    ReadOnlyBind(MountReadOnlyBindFs),
    Extra(MountExtraFs),
}

impl MountNamespacedFs for MountStep {
    open spec fn loading_spec(&self, base: Seq<char>) -> Seq<MountView> {
        match self {
            MountStep::TmpFs(m) => m.loading_spec(base),
            MountStep::ProcFs(m) => m.loading_spec(base),
            MountStep::Bind(m) => m.loading_spec(base),
            MountStep::ReadOnlyBind(m) => m.loading_spec(base),
            MountStep::Extra(m) => m.loading_spec(base),
        }
    }

    open spec fn loaded_spec(&self) -> Seq<MountView> {
        match self {
            MountStep::TmpFs(m) => m.loaded_spec(),
            MountStep::ProcFs(m) => m.loaded_spec(),
            MountStep::Bind(m) => m.loaded_spec(),
            MountStep::ReadOnlyBind(m) => m.loaded_spec(),
            MountStep::Extra(m) => m.loaded_spec(),
        }
    }

    fn loading(&self, base: &String) -> (r: Vec<MountRequest>) {
        match self {
            MountStep::TmpFs(m) => m.loading(base),
            MountStep::ProcFs(m) => m.loading(base),
            MountStep::Bind(m) => m.loading(base),
            MountStep::ReadOnlyBind(m) => m.loading(base),
            MountStep::Extra(m) => m.loading(base),
        }
    }

    fn loaded(&self) -> (r: Vec<MountRequest>) {
        match self {
            MountStep::TmpFs(m) => m.loaded(),
            MountStep::ProcFs(m) => m.loaded(),
            MountStep::Bind(m) => m.loaded(),
            MountStep::ReadOnlyBind(m) => m.loaded(),
            MountStep::Extra(m) => m.loaded(),
        }
    }
}

} // verus!
