use ssandbox::config::{CapabilityPolicy, Config, SeccompPolicy, SecurityPolicy};
use ssandbox::entry::{entry_plan, EntryStage, EntryStep, MountPhase};
use ssandbox::filesystem::{MountProcFs, MountReadOnlyBindFs, MountStep, MountTmpFs};
use ssandbox::report::{decode_frame, ReportFrame};

fn base() -> Config {
    let mut c = Config::default();
    c.uid = 11;
    c.working_path = "/ws".to_string();
    c.hostname = "sbx".to_string();
    c
}

#[test]
fn empty_fs_still_pivots() {
    let c = base();
    let plan = entry_plan(&c);
    assert!(matches!(&plan[0], EntryStep::CloseParentEnds));
    assert!(matches!(&plan[1], EntryStep::AwaitGate));
    assert!(matches!(&plan[2], EntryStep::SetHostname { name } if name == "sbx"));
    assert!(matches!(&plan[3], EntryStep::MakeMountsPrivate));
    assert!(matches!(&plan[4], EntryStep::CreateRoot { path } if path == "/ws/11/root"));
    assert!(matches!(&plan[5], EntryStep::PivotRoot { new_root } if new_root == "/ws/11/root"));
    assert!(matches!(&plan[6], EntryStep::SetGid { gid: 0 }));
    assert!(matches!(&plan[7], EntryStep::SetUid { uid: 0 }));
    assert!(matches!(&plan[8], EntryStep::DropCapabilities { keep: 0 }));
    assert!(matches!(&plan[9], EntryStep::ReportReady));
    assert!(matches!(&plan[10], EntryStep::Exec { path, args } if path == "/bin/sh" && args.is_empty()));
    assert_eq!(plan.len(), 11);
}

#[test]
fn seccomp_sets_no_new_privs_before_loading() {
    let mut c = base();
    c.security_policies = vec![
        SecurityPolicy::Capability(CapabilityPolicy { keep: 0 }),
        SecurityPolicy::Seccomp(SeccompPolicy { allowed: vec![0, 1, 60] }),
    ];
    let plan = entry_plan(&c);
    assert!(matches!(&plan[8], EntryStep::DropCapabilities { keep: 0 }));
    assert!(matches!(&plan[9], EntryStep::SetNoNewPrivs));
    assert!(matches!(&plan[10], EntryStep::LoadSeccomp { allowed } if allowed == &vec![0, 1, 60]));
    assert!(matches!(&plan[11], EntryStep::ReportReady));
}

#[test]
fn capabilities_drop_before_any_filter() {
    let mut c = base();
    c.security_policies = vec![
        SecurityPolicy::Seccomp(SeccompPolicy { allowed: vec![59] }),
        SecurityPolicy::Capability(CapabilityPolicy { keep: 1 }),
        SecurityPolicy::Seccomp(SeccompPolicy { allowed: vec![60] }),
        SecurityPolicy::Capability(CapabilityPolicy { keep: 2 }),
    ];
    let plan = entry_plan(&c);
    assert!(matches!(&plan[8], EntryStep::DropCapabilities { keep: 1 }));
    assert!(matches!(&plan[9], EntryStep::DropCapabilities { keep: 2 }));
    assert!(matches!(&plan[10], EntryStep::SetNoNewPrivs));
    assert!(matches!(&plan[11], EntryStep::LoadSeccomp { allowed } if allowed == &vec![59]));
    assert!(matches!(&plan[12], EntryStep::SetNoNewPrivs));
    assert!(matches!(&plan[13], EntryStep::LoadSeccomp { allowed } if allowed == &vec![60]));
    assert!(matches!(&plan[14], EntryStep::ReportReady));
}

#[test]
fn failures_reported_except_readiness_and_exec() {
    let msg = b"EACCES".to_vec();
    let f = EntryStep::SetGid { gid: 3 }.on_failure(&msg).expect("reported");
    assert_eq!(decode_frame(&f), Ok(ReportFrame::Failure { code: 6, payload: msg.clone() }));
    assert!(EntryStep::ReportReady.on_failure(&msg).is_none());
    let exec = EntryStep::Exec { path: "/bin/true".to_string(), args: Vec::new() };
    assert!(exec.on_failure(&msg).is_none());
    assert!(EntryStep::MakeMountsPrivate.on_failure(&msg).is_some());
}

#[test]
fn read_only_root_plan_orders_mounts() {
    let mut c = base();
    c.fs.push(MountStep::ReadOnlyBind(MountReadOnlyBindFs::from("/images/alpine".to_string())));
    c.fs.push(MountStep::TmpFs(MountTmpFs));
    c.fs.push(MountStep::ProcFs(MountProcFs));
    c.target_executable = "/bin/sh".to_string();
    c.args = vec!["-c".to_string(), "touch /marker; echo $?".to_string()];
    c.stdout = Some("/tmp/out".to_string());
    c.inner_uid = 1000;
    c.inner_gid = 1000;
    c.security_policies = vec![SecurityPolicy::Capability(CapabilityPolicy { keep: 0 })];
    let plan = entry_plan(&c);
    assert!(matches!(&plan[5], EntryStep::Mount { step: 0, phase: MountPhase::Loading, request }
        if request.source.as_deref() == Some("/images/alpine") && request.target == "/ws/11/root"));
    assert!(matches!(&plan[6], EntryStep::Mount { step: 0, phase: MountPhase::Loading, request }
        if request.flags.read_only && request.flags.remount));
    assert!(matches!(&plan[7], EntryStep::PivotRoot { .. }));
    assert!(matches!(&plan[8], EntryStep::Mount { step: 1, phase: MountPhase::Loaded, request } if request.target == "/tmp"));
    assert!(matches!(&plan[9], EntryStep::Mount { step: 2, phase: MountPhase::Loaded, request } if request.target == "/proc"));
    assert!(matches!(&plan[10], EntryStep::Redirect { fd: 1, path } if path == "/tmp/out"));
    assert!(matches!(&plan[11], EntryStep::SetGid { gid: 1000 }));
    assert!(matches!(&plan[12], EntryStep::SetUid { uid: 1000 }));
    assert!(matches!(&plan[13], EntryStep::DropCapabilities { keep: 0 }));
    assert!(matches!(&plan[14], EntryStep::ReportReady));
    assert!(matches!(&plan[15], EntryStep::Exec { args, .. } if args.len() == 2 && args[1] == "touch /marker; echo $?"));
    assert_eq!(plan.len(), 16);
}

#[test]
fn stage_codes_round_trip() {
    let all = [
        EntryStage::Setup,
        EntryStage::MountLoading,
        EntryStage::Pivot,
        EntryStage::MountLoaded,
        EntryStage::Stdio,
        EntryStage::SetId,
        EntryStage::Security,
        EntryStage::Exec,
    ];
    for (i, s) in all.iter().enumerate() {
        assert_eq!(s.code(), (i + 1) as u8);
        assert_eq!(EntryStage::from_code(s.code()), Some(*s));
    }
    assert_eq!(EntryStage::from_code(0), None);
    assert_eq!(EntryStage::from_code(9), None);
}

#[test]
fn failed_step_reports_its_stage() {
    let step = EntryStep::PivotRoot { new_root: "/ws/11/root".to_string() };
    assert_eq!(step.stage(), EntryStage::Pivot);
    let frame = step.failure_report(&b"EINVAL".to_vec());
    assert_eq!(decode_frame(&frame), Ok(ReportFrame::Failure { code: 3, payload: b"EINVAL".to_vec() }));
    assert_eq!(EntryStep::SetUid { uid: 1 }.stage(), EntryStage::SetId);
    assert_eq!(EntryStep::SetNoNewPrivs.stage(), EntryStage::Security);
    assert_eq!(EntryStep::AwaitGate.stage(), EntryStage::Setup);
}
