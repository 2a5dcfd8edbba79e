use jailer::env::ArgValues;
use jailer::env::Env;
use jailer::env::FsView;
use jailer::plan::JailAction;
use jailer::plan::pid_file_contents;
use jailer::plan::pid_file_path;

fn strings(v: Vec<&str>) -> Vec<String> {
    v.into_iter().map(String::from).collect()
}

fn args_and_fs() -> (ArgValues, FsView) {
    let args = ArgValues {
        id: Some("bd65600d-8669-4903-8a14-af88203add38".to_string()),
        exec_file: Some("/tmp/pseudo_firecracker_exec_file".to_string()),
        uid: Some("1001".to_string()),
        gid: Some("1002".to_string()),
        chroot_base_dir: Some("/srv/jailer".to_string()),
        netns: Some("zzzns".to_string()),
        daemonize: true,
        new_pid_ns: true,
        parent_cgroup: None,
        cgroup_version: Some("1".to_string()),
        cgroups: strings(vec!["cpu.shares=2", "cpuset.mems=0"]),
        resource_limits: strings(vec!["no-file=1024"]),
        macvtaps: strings(vec!["vtap0"]),
        extra_args: strings(vec!["--api-sock", "/run/api.sock"]),
    };
    let fs = FsView {
        exec_file_canonical: Ok("/tmp/pseudo_firecracker_exec_file".to_string()),
        exec_file_is_file: true,
        chroot_base_canonical: Ok("/srv/jailer".to_string()),
        chroot_base_is_dir: true,
    };
    (args, fs)
}

#[test]
fn test_run_plan_order() {
    let (args, fs) = args_and_fs();
    let env = Env::new(&args, &fs, 0, 0).unwrap();
    let plan = env.run_plan();

    let expected = vec![
        JailAction::CopyExecToChroot {
            source: "/tmp/pseudo_firecracker_exec_file".to_string(),
            dest: "/srv/jailer/pseudo_firecracker_exec_file/bd65600d-8669-4903-8a14-af88203add38/root/pseudo_firecracker_exec_file".to_string(),
        },
        JailAction::InstallResourceLimits { limits: *env.resource_limits() },
        JailAction::WriteCgroup { file: "cpu.shares".to_string(), value: "2".to_string() },
        JailAction::WriteCgroup { file: "cpuset.mems".to_string(), value: "0".to_string() },
        JailAction::AttachCgroup { file: "cpu.shares".to_string(), value: "2".to_string() },
        JailAction::AttachCgroup { file: "cpuset.mems".to_string(), value: "0".to_string() },
        JailAction::SetNetNs { path: "zzzns".to_string() },
        JailAction::UnshareMountNs,
        JailAction::MountRootSlave,
        JailAction::UmountSys,
        JailAction::MountSysFs,
        JailAction::ResolveMacVTap { name: "vtap0".to_string() },
        JailAction::OpenDevNull,
        JailAction::Chroot {
            dir: "/srv/jailer/pseudo_firecracker_exec_file/bd65600d-8669-4903-8a14-af88203add38/root".to_string(),
        },
        JailAction::SetupJailedFolder { path: "/".to_string() },
        JailAction::SetupJailedFolder { path: "/dev".to_string() },
        JailAction::SetupJailedFolder { path: "/dev/net".to_string() },
        JailAction::SetupJailedFolder { path: "/run".to_string() },
        JailAction::MknodDev {
            path: "/dev/net/tun".to_string(),
            major: 10,
            minor: 200,
            fatal: true,
        },
        JailAction::MknodDev { path: "/dev/kvm".to_string(), major: 10, minor: 232, fatal: true },
        JailAction::MknodDev {
            path: "/dev/urandom".to_string(),
            major: 1,
            minor: 9,
            fatal: false,
        },
        JailAction::MknodMacVTap {
            name: "vtap0".to_string(),
            path: "/dev/net/vtap0".to_string(),
        },
        JailAction::Daemonize,
        JailAction::ExecIntoNewPidNs {
            exec_file: "/pseudo_firecracker_exec_file".to_string(),
            pid_file: "/pseudo_firecracker_exec_file.pid".to_string(),
        },
    ];
    assert_eq!(plan, expected);
}

#[test]
fn test_run_plan_minimal() {
    // Without netns, daemonization, a new PID namespace, cgroups or
    // MACVTAPs, only the unconditional steps remain, exec last.
    let (args, fs) = args_and_fs();
    let args = ArgValues {
        netns: None,
        daemonize: false,
        new_pid_ns: false,
        cgroups: vec![],
        macvtaps: vec![],
        extra_args: vec![],
        ..args
    };
    let env = Env::new(&args, &fs, 0, 0).unwrap();
    let plan = env.run_plan();
    assert_eq!(plan.len(), 11);
    assert!(matches!(plan[0], JailAction::CopyExecToChroot { .. }));
    assert!(matches!(plan[1], JailAction::InstallResourceLimits { .. }));
    assert!(matches!(plan[2], JailAction::Chroot { .. }));
    assert!(matches!(&plan[10], JailAction::Exec { exec_file } if exec_file == "/pseudo_firecracker_exec_file"));
}

#[test]
fn test_exec_args() {
    let (args, fs) = args_and_fs();
    let env = Env::new(&args, &fs, 111, 222).unwrap();
    let v = env.exec_args(0, 333);
    let expected = vec![
        "--id".to_string(),
        "bd65600d-8669-4903-8a14-af88203add38".to_string(),
        "--start-time-us".to_string(),
        "111".to_string(),
        "--start-time-cpu-us".to_string(),
        "0".to_string(),
        "--parent-cpu-time-us".to_string(),
        "333".to_string(),
        "--api-sock".to_string(),
        "/run/api.sock".to_string(),
    ];
    assert_eq!(v, expected);
}

#[test]
fn test_pid_file() {
    // With a new PID namespace and child PID 1, the parent writes "1" into
    // the file named after the exec file.
    assert_eq!(pid_file_path("file"), "file.pid");
    assert_eq!(pid_file_contents(1), "1");
    assert_eq!(pid_file_path("/pseudo_firecracker_exec_file"),
        "/pseudo_firecracker_exec_file.pid");
    assert_eq!(pid_file_contents(4294), "4294");
}
