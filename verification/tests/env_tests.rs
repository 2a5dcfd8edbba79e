use jailer::env::ArgValues;
use jailer::env::Env;
use jailer::env::FsView;
use jailer::env::ResourceLimits;
use jailer::env::validate_exec_file;
use jailer::env::validate_instance_id;
use jailer::error::Error;
use jailer::error::InstanceIdError;

const PSEUDO_EXEC_FILE_PATH: &str = "/tmp/pseudo_firecracker_exec_file";

fn strings(v: Vec<&str>) -> Vec<String> {
    v.into_iter().map(String::from).collect()
}

fn good_arg_vals() -> ArgValues {
    ArgValues {
        id: Some("bd65600d-8669-4903-8a14-af88203add38".to_string()),
        exec_file: Some(PSEUDO_EXEC_FILE_PATH.to_string()),
        uid: Some("1001".to_string()),
        gid: Some("1002".to_string()),
        chroot_base_dir: Some("/".to_string()),
        netns: Some("zzzns".to_string()),
        daemonize: true,
        new_pid_ns: true,
        parent_cgroup: None,
        cgroup_version: Some("1".to_string()),
        cgroups: strings(vec!["cpu.shares=2", "cpuset.mems=0"]),
        resource_limits: strings(vec!["no-file=1024", "fsize=1048575"]),
        macvtaps: vec![],
        extra_args: vec![],
    }
}

fn good_fs_view() -> FsView {
    FsView {
        exec_file_canonical: Ok(PSEUDO_EXEC_FILE_PATH.to_string()),
        exec_file_is_file: true,
        chroot_base_canonical: Ok("/".to_string()),
        chroot_base_is_dir: true,
    }
}

#[test]
fn test_new_env() {
    let good_arg_vals = good_arg_vals();
    let good_env = Env::new(&good_arg_vals, &good_fs_view(), 0, 0)
        .expect("This new environment should be created successfully.");

    assert_eq!(
        good_env.chroot_dir(),
        "/pseudo_firecracker_exec_file/bd65600d-8669-4903-8a14-af88203add38/root"
    );
    assert_eq!(format!("{}", good_env.gid()), "1002");
    assert_eq!(format!("{}", good_env.uid()), "1001");
    assert_eq!(good_env.netns(), &Some("zzzns".to_string()));
    assert!(good_env.daemonize());
    assert!(good_env.new_pid_ns());

    let another_good_arg_vals = ArgValues {
        netns: None,
        daemonize: false,
        new_pid_ns: false,
        ..good_arg_vals.clone()
    };
    let another_good_env = Env::new(&another_good_arg_vals, &good_fs_view(), 0, 0)
        .expect("This another new environment should be created successfully.");
    assert!(!another_good_env.daemonize());
    assert!(!another_good_env.new_pid_ns());

    let base_invalid_arg_vals = ArgValues { daemonize: true, ..another_good_arg_vals.clone() };

    let invalid_cgroup_arg_vals =
        ArgValues { cgroups: strings(vec!["zzz"]), ..base_invalid_arg_vals.clone() };
    assert!(Env::new(&invalid_cgroup_arg_vals, &good_fs_view(), 0, 0).is_err());

    let invalid_res_limit_arg_vals =
        ArgValues { resource_limits: strings(vec!["zzz"]), ..base_invalid_arg_vals.clone() };
    assert!(Env::new(&invalid_res_limit_arg_vals, &good_fs_view(), 0, 0).is_err());

    let invalid_id_arg_vals =
        ArgValues { id: Some("/ad./sa12".to_string()), ..base_invalid_arg_vals.clone() };
    assert!(Env::new(&invalid_id_arg_vals, &good_fs_view(), 0, 0).is_err());

    // A path that does not exist fails canonicalization; the builder turns
    // that report into the canonicalize error.
    let inexistent_exec_file_arg_vals = ArgValues {
        exec_file: Some("/this!/file!/should!/not!/exist!/".to_string()),
        ..base_invalid_arg_vals.clone()
    };
    let inexistent_fs = FsView {
        exec_file_canonical: Err("No such file or directory (os error 2)".to_string()),
        exec_file_is_file: false,
        ..good_fs_view()
    };
    assert!(Env::new(&inexistent_exec_file_arg_vals, &inexistent_fs, 0, 0).is_err());

    let invalid_uid_arg_vals =
        ArgValues { uid: Some("zzz".to_string()), ..base_invalid_arg_vals.clone() };
    assert!(Env::new(&invalid_uid_arg_vals, &good_fs_view(), 0, 0).is_err());

    let invalid_gid_arg_vals =
        ArgValues { gid: Some("zzz".to_string()), ..base_invalid_arg_vals.clone() };
    assert!(Env::new(&invalid_gid_arg_vals, &good_fs_view(), 0, 0).is_err());

    let invalid_parent_cg_vals = ArgValues {
        parent_cgroup: Some("/root".to_string()),
        ..base_invalid_arg_vals.clone()
    };
    assert!(Env::new(&invalid_parent_cg_vals, &good_fs_view(), 0, 0).is_err());

    let invalid_controller_pt = ArgValues {
        cgroups: strings(vec!["../file_name=1", "./root=1", "/home=1"]),
        ..another_good_arg_vals.clone()
    };
    assert!(Env::new(&invalid_controller_pt, &good_fs_view(), 0, 0).is_err());

    let invalid_format = ArgValues {
        cgroups: strings(vec!["./root/", "../root"]),
        ..another_good_arg_vals.clone()
    };
    assert!(Env::new(&invalid_format, &good_fs_view(), 0, 0).is_err());

    let macvtap_args =
        ArgValues { macvtaps: strings(vec!["vtap1", "vtap0"]), ..good_arg_vals.clone() };
    assert!(Env::new(&macvtap_args, &good_fs_view(), 0, 0).is_ok());
}

#[test]
fn test_cgroups_parsing() {
    let good_arg_vals = good_arg_vals();

    // Cases that should fail

    // Check string without "." (no controller)
    let invalid_cgroup_arg_vals =
        ArgValues { cgroups: strings(vec!["cpusetcpus=2"]), ..good_arg_vals.clone() };
    assert!(Env::new(&invalid_cgroup_arg_vals, &good_fs_view(), 0, 0).is_err());

    // Check empty string
    let invalid_cgroup_arg_vals =
        ArgValues { cgroups: strings(vec![""]), ..good_arg_vals.clone() };
    assert!(Env::new(&invalid_cgroup_arg_vals, &good_fs_view(), 0, 0).is_err());

    // Check valid file empty value
    let invalid_cgroup_arg_vals =
        ArgValues { cgroups: strings(vec!["cpuset.cpus="]), ..good_arg_vals.clone() };
    assert!(Env::new(&invalid_cgroup_arg_vals, &good_fs_view(), 0, 0).is_err());

    // Check valid file no value
    let invalid_cgroup_arg_vals =
        ArgValues { cgroups: strings(vec!["cpuset.cpus"]), ..good_arg_vals.clone() };
    assert!(Env::new(&invalid_cgroup_arg_vals, &good_fs_view(), 0, 0).is_err());

    // Cases that should succeed

    // Check value with special characters (',', '.', '-')
    let valid_cgroup_arg_vals =
        ArgValues { cgroups: strings(vec!["cpuset.cpus=2-4,5.3"]), ..good_arg_vals.clone() };
    assert!(Env::new(&valid_cgroup_arg_vals, &good_fs_view(), 0, 0).is_ok());

    // Check valid case
    let valid_cgroup_arg_vals =
        ArgValues { cgroups: strings(vec!["cpuset.cpus=2"]), ..good_arg_vals.clone() };
    assert!(Env::new(&valid_cgroup_arg_vals, &good_fs_view(), 0, 0).is_ok());

    // Check file with multiple "."
    let valid_cgroup_arg_vals =
        ArgValues { cgroups: strings(vec!["memory.swap.high=2"]), ..good_arg_vals.clone() };
    assert!(Env::new(&valid_cgroup_arg_vals, &good_fs_view(), 0, 0).is_ok());
}

#[test]
fn test_parse_resource_limits() {
    let mut resource_limits = ResourceLimits::default();

    // Check invalid formats
    let invalid_formats = ["", "foo"];
    for format in invalid_formats.iter() {
        let arg = vec![format.to_string()];
        assert_eq!(
            format!("{:?}", Env::parse_resource_limits(&mut resource_limits, &arg).err().unwrap()),
            format!("{:?}", Error::ResLimitFormat(format.to_string()))
        );
    }

    // Check invalid resource arguments
    let invalid_resources = ["foo", "", " "];
    for res in invalid_resources.iter() {
        let arg = format!("{}=2", res);
        assert_eq!(
            format!(
                "{:?}",
                Env::parse_resource_limits(&mut resource_limits, &vec![arg]).err().unwrap()
            ),
            format!("{:?}", Error::ResLimitArgument(res.to_string()))
        );
    }

    // Check invalid limit values
    let invalid_values = ["foo", "2.3", "2-3", " "];
    for val in invalid_values.iter() {
        let arg = format!("fsize={}", val);
        assert_eq!(
            format!(
                "{:?}",
                Env::parse_resource_limits(&mut resource_limits, &vec![arg]).err().unwrap()
            ),
            format!(
                "{:?}",
                Error::ResLimitValue(val.to_string(), "invalid digit found in string".to_string())
            )
        );
    }

    // Check valid cases
    let resources = ["fsize", "no-file"];
    for resource in resources.iter() {
        let arg = vec![resource.to_string() + "=4098"];
        Env::parse_resource_limits(&mut resource_limits, &arg).unwrap();
    }
    assert_eq!(resource_limits.file_size, Some(4098));
    assert_eq!(resource_limits.no_file, Some(4098));
}

#[test]
fn test_validate_instance_id() {
    assert!(validate_instance_id("bd65600d-8669-4903-8a14-af88203add38").is_ok());
    assert_eq!(
        validate_instance_id("/ad./sa12").unwrap_err(),
        Error::InvalidInstanceId(InstanceIdError::InvalidChar('/', 0))
    );
    assert_eq!(
        validate_instance_id("").unwrap_err(),
        Error::InvalidInstanceId(InstanceIdError::InvalidLen(0))
    );
    let long = "a".repeat(65);
    assert_eq!(
        validate_instance_id(&long).unwrap_err(),
        Error::InvalidInstanceId(InstanceIdError::InvalidLen(65))
    );
    assert!(validate_instance_id(&"a".repeat(64)).is_ok());
}

#[test]
fn test_env_error_values() {
    let good = good_arg_vals();

    // A missing mandatory argument is reported by name.
    let missing_id = ArgValues { id: None, ..good.clone() };
    assert_eq!(
        Env::new(&missing_id, &good_fs_view(), 0, 0).unwrap_err(),
        Error::ArgumentParsing("missing required argument: id".to_string())
    );

    // The canonicalize failure carries the path as given and the OS detail.
    let fs = FsView {
        exec_file_canonical: Err("No such file or directory (os error 2)".to_string()),
        ..good_fs_view()
    };
    assert_eq!(
        Env::new(&good, &fs, 0, 0).unwrap_err(),
        Error::Canonicalize(
            PSEUDO_EXEC_FILE_PATH.to_string(),
            "No such file or directory (os error 2)".to_string()
        )
    );

    // A canonical path that is not a regular file is rejected.
    let fs = FsView { exec_file_is_file: false, ..good_fs_view() };
    assert_eq!(
        Env::new(&good, &fs, 0, 0).unwrap_err(),
        Error::NotAFile(PSEUDO_EXEC_FILE_PATH.to_string())
    );

    // A basename without "firecracker" is rejected with the basename.
    let fs = FsView {
        exec_file_canonical: Ok("/tmp/foobarbaz".to_string()),
        ..good_fs_view()
    };
    assert_eq!(
        Env::new(&good, &fs, 0, 0).unwrap_err(),
        Error::ExecFileName("foobarbaz".to_string())
    );

    // The chroot base must be a directory.
    let fs = FsView { chroot_base_is_dir: false, ..good_fs_view() };
    assert_eq!(Env::new(&good, &fs, 0, 0).unwrap_err(), Error::NotADirectory("/".to_string()));

    // Bad uid and gid carry the rejected string.
    let bad_uid = ArgValues { uid: Some("zzz".to_string()), ..good.clone() };
    assert_eq!(
        Env::new(&bad_uid, &good_fs_view(), 0, 0).unwrap_err(),
        Error::Uid("zzz".to_string())
    );
    let bad_gid = ArgValues { gid: Some("18446744073709551616".to_string()), ..good.clone() };
    assert_eq!(
        Env::new(&bad_gid, &good_fs_view(), 0, 0).unwrap_err(),
        Error::Gid("18446744073709551616".to_string())
    );

    // An absolute parent cgroup is rejected.
    let bad_parent = ArgValues { parent_cgroup: Some("/root".to_string()), ..good.clone() };
    assert_eq!(
        Env::new(&bad_parent, &good_fs_view(), 0, 0).unwrap_err(),
        Error::CgroupInvalidParentPath
    );

    // A cgroup version that does not parse carries the string; one that
    // parses but is unknown carries the rendered number.
    let bad_ver = ArgValues { cgroup_version: Some("x".to_string()), ..good.clone() };
    assert_eq!(
        Env::new(&bad_ver, &good_fs_view(), 0, 0).unwrap_err(),
        Error::CgroupInvalidVersion("x".to_string())
    );
    let unknown_ver = ArgValues { cgroup_version: Some("3".to_string()), ..good.clone() };
    assert_eq!(
        Env::new(&unknown_ver, &good_fs_view(), 0, 0).unwrap_err(),
        Error::CgroupInvalidVersion("3".to_string())
    );

    // The cgroup format error carries the whole argument; a file without a
    // "." carries the file alone.
    let bad_cg = ArgValues { cgroups: strings(vec!["cpuset.cpus="]), ..good.clone() };
    assert_eq!(
        Env::new(&bad_cg, &good_fs_view(), 0, 0).unwrap_err(),
        Error::CgroupFormat("cpuset.cpus=".to_string())
    );
    let no_dot = ArgValues { cgroups: strings(vec!["cpusetcpus=2"]), ..good.clone() };
    assert_eq!(
        Env::new(&no_dot, &good_fs_view(), 0, 0).unwrap_err(),
        Error::CgroupInvalidFile("cpusetcpus".to_string())
    );
    let bad_file = ArgValues { cgroups: strings(vec!["../file_name=1"]), ..good.clone() };
    assert_eq!(
        Env::new(&bad_file, &good_fs_view(), 0, 0).unwrap_err(),
        Error::CgroupInvalidFile("../file_name=1".to_string())
    );
}

#[test]
fn test_env_fields() {
    let env = Env::new(&good_arg_vals(), &good_fs_view(), 7, 9).unwrap();
    assert_eq!(env.id(), "bd65600d-8669-4903-8a14-af88203add38");
    assert_eq!(env.exec_file_path(), PSEUDO_EXEC_FILE_PATH);
    assert_eq!(env.exec_file_name(), "pseudo_firecracker_exec_file");
    assert_eq!(env.start_time_us(), 7);
    assert_eq!(env.start_time_cpu_us(), 9);
    assert_eq!(env.cgroup_version(), 1);
    let cgroups = env.cgroups();
    assert_eq!(cgroups.len(), 2);
    assert_eq!(cgroups[0].file, "cpu.shares");
    assert_eq!(cgroups[0].value, "2");
    assert_eq!(cgroups[1].file, "cpuset.mems");
    assert_eq!(cgroups[1].value, "0");
    let limits = env.resource_limits();
    assert_eq!(limits.no_file, Some(1024));
    assert_eq!(limits.file_size, Some(1048575));
}

#[test]
fn test_validate_exec_file() {
    // Success case
    assert!(validate_exec_file(
        PSEUDO_EXEC_FILE_PATH,
        &Ok(PSEUDO_EXEC_FILE_PATH.to_string()),
        true
    )
    .is_ok());

    // Error case 1: canonicalization failed (no such file)
    assert_eq!(
        format!(
            "{}",
            validate_exec_file(
                PSEUDO_EXEC_FILE_PATH,
                &Err("No such file or directory (os error 2)".to_string()),
                false
            )
            .unwrap_err()
            .message()
        ),
        format!(
            "Failed to canonicalize path {}: No such file or directory (os error 2)",
            PSEUDO_EXEC_FILE_PATH
        )
    );

    // Error case 2: Not a file
    assert_eq!(
        format!(
            "{}",
            validate_exec_file(
                "/tmp/firecracker_test_dir",
                &Ok("/tmp/firecracker_test_dir".to_string()),
                false
            )
            .unwrap_err()
            .message()
        ),
        "/tmp/firecracker_test_dir is not a file"
    );

    // Error case 3: Filename without "firecracker"
    assert_eq!(
        format!(
            "{}",
            validate_exec_file(
                "/tmp/firecracker_test_dir/foobarbaz",
                &Ok("/tmp/firecracker_test_dir/foobarbaz".to_string()),
                true
            )
            .unwrap_err()
            .message()
        ),
        "Invalid filename. The filename of `--exec-file` option must contain \"firecracker\": foobarbaz"
    );
}
