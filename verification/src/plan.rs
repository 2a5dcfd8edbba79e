//! The ordered sequence of privileged steps that prepares the jail.
//!
//! The plan decides, the binary performs: `run_plan` lays out every step of
//! one run in the exact order the pipeline demands — exec copy, resource
//! limits, every cgroup written before any is attached, the network
//! namespace joined (and `/sys` remounted) before MACVTAP resolution,
//! `/dev/null` opened before the chroot, the chroot before folders and
//! device nodes, daemonization after the device nodes, exec last.  The
//! binary walks the sequence and performs each step, stopping at the first
//! failure; only the `/dev/urandom` node is marked best-effort.

use vstd::prelude::*;

use crate::env::Env;
use crate::env::ResourceLimits;
use crate::num::spec_decimal;
use crate::num::u64_to_string;
use crate::paths::path_join;
use crate::paths::spec_path_join;

verus! {

/// The permission bits of the jail's folders.
pub const FOLDER_PERMISSIONS: u32 = 0o700;

/// Major and minor of `/dev/net/tun`.
pub const DEV_NET_TUN_MAJOR: u32 = 10;

pub const DEV_NET_TUN_MINOR: u32 = 200;

/// Major and minor of `/dev/kvm`.
pub const DEV_KVM_MAJOR: u32 = 10;

pub const DEV_KVM_MINOR: u32 = 232;

/// Major and minor of `/dev/urandom`.
pub const DEV_URANDOM_MAJOR: u32 = 1;

pub const DEV_URANDOM_MINOR: u32 = 9;

/// One privileged step of the pipeline.  Each carries the plain values the
/// step needs; uid and gid come from the plan itself.
#[derive(Debug, Clone, PartialEq, Eq)]
pub enum JailAction {
    /// Copy the exec file to its place under the chroot, permission bits
    /// preserved.
    CopyExecToChroot { source: String, dest: String },
    /// Install the resource limits.
    InstallResourceLimits { limits: ResourceLimits },
    /// Write one cgroup value.  Every write precedes every attach.
    WriteCgroup { file: String, value: String },
    /// Attach the current PID to one cgroup.
    AttachCgroup { file: String, value: String },
    /// Join the network namespace behind the path.
    SetNetNs { path: String },
    /// Detach from the parent's mount namespace.
    UnshareMountNs,
    /// Remount `/` with slave, recursive propagation.
    MountRootSlave,
    /// Detach the `/sys` of the old namespace.
    UmountSys,
    /// Mount a fresh sysfs at `/sys` for the joined namespace.
    MountSysFs,
    /// Resolve the MACVTAP interface by name (after the namespace join).
    ResolveMacVTap { name: String },
    /// Open `/dev/null` and keep the descriptor across the chroot.
    OpenDevNull,
    /// Enter the jail: every later path is relative to it.
    Chroot { dir: String },
    /// Create the folder, set its permission bits, chown it to (uid, gid).
    SetupJailedFolder { path: String },
    /// Create a character device node (mode `S_IFCHR | 0o600`) and chown it;
    /// a failure of a non-fatal node is only warned about.
    MknodDev { path: String, major: u32, minor: u32, fatal: bool },
    /// Create the device node of a resolved MACVTAP with its host major and
    /// minor.
    MknodMacVTap { name: String, path: String },
    /// Daemonize: `setsid`, then `dup2` the `/dev/null` descriptor onto
    /// stdin, stdout and stderr.
    Daemonize,
    /// Clone into a new PID namespace; the child execs the file, the parent
    /// writes the child PID into the pid file and exits.
    ExecIntoNewPidNs { exec_file: String, pid_file: String },
    /// Replace the process image with the exec file.
    Exec { exec_file: String },
}

/// The mathematical content of one step.
pub enum JailActionV {
    CopyExecToChroot { source: Seq<char>, dest: Seq<char> },
    InstallResourceLimits { limits: ResourceLimits },
    WriteCgroup { file: Seq<char>, value: Seq<char> },
    AttachCgroup { file: Seq<char>, value: Seq<char> },
    SetNetNs { path: Seq<char> },
    UnshareMountNs,
    MountRootSlave,
    UmountSys,
    MountSysFs,
    ResolveMacVTap { name: Seq<char> },
    OpenDevNull,
    Chroot { dir: Seq<char> },
    SetupJailedFolder { path: Seq<char> },
    MknodDev { path: Seq<char>, major: u32, minor: u32, fatal: bool },
    MknodMacVTap { name: Seq<char>, path: Seq<char> },
    Daemonize,
    ExecIntoNewPidNs { exec_file: Seq<char>, pid_file: Seq<char> },
    Exec { exec_file: Seq<char> },
}

impl View for JailAction {
    type V = JailActionV;

    open spec fn view(&self) -> JailActionV {
        match self {
            JailAction::CopyExecToChroot { source, dest } => JailActionV::CopyExecToChroot {
                source: source@,
                dest: dest@,
            },
            JailAction::InstallResourceLimits { limits } => JailActionV::InstallResourceLimits {
                limits: *limits,
            },
            JailAction::WriteCgroup { file, value } => JailActionV::WriteCgroup {
                file: file@,
                value: value@,
            },
            JailAction::AttachCgroup { file, value } => JailActionV::AttachCgroup {
                file: file@,
                value: value@,
            },
            JailAction::SetNetNs { path } => JailActionV::SetNetNs { path: path@ },
            JailAction::UnshareMountNs => JailActionV::UnshareMountNs,
            JailAction::MountRootSlave => JailActionV::MountRootSlave,
            JailAction::UmountSys => JailActionV::UmountSys,
            JailAction::MountSysFs => JailActionV::MountSysFs,
            JailAction::ResolveMacVTap { name } => JailActionV::ResolveMacVTap { name: name@ },
            JailAction::OpenDevNull => JailActionV::OpenDevNull,
            JailAction::Chroot { dir } => JailActionV::Chroot { dir: dir@ },
            JailAction::SetupJailedFolder { path } => JailActionV::SetupJailedFolder {
                path: path@,
            },
            JailAction::MknodDev { path, major, minor, fatal } => JailActionV::MknodDev {
                path: path@,
                major: *major,
                minor: *minor,
                fatal: *fatal,
            },
            JailAction::MknodMacVTap { name, path } => JailActionV::MknodMacVTap {
                name: name@,
                path: path@,
            },
            JailAction::Daemonize => JailActionV::Daemonize,
            JailAction::ExecIntoNewPidNs { exec_file, pid_file } => JailActionV::ExecIntoNewPidNs {
                exec_file: exec_file@,
                pid_file: pid_file@,
            },
            JailAction::Exec { exec_file } => JailActionV::Exec { exec_file: exec_file@ },
        }
    }
}

impl DeepView for JailAction {
    type V = JailActionV;

    open spec fn deep_view(&self) -> JailActionV {
        self.view()
    }
}

/// The exec file's path as the jailed process sees it: directly under the
/// new root.
pub open spec fn spec_chroot_exec_file(v: crate::env::EnvV) -> Seq<char> {
    spec_path_join("/"@, v.exec_file_name)
}

/// The steps taken before the chroot: copy the exec file, install resource
/// limits, write every cgroup, attach every cgroup, join the network
/// namespace (when one was given), resolve every MACVTAP, and open
/// `/dev/null` (when daemonizing).
pub open spec fn spec_plan_before_chroot(v: crate::env::EnvV) -> Seq<JailActionV> {
    seq![
        JailActionV::CopyExecToChroot {
            source: v.exec_file_path,
            dest: spec_path_join(v.chroot_dir, v.exec_file_name),
        },
        JailActionV::InstallResourceLimits { limits: v.resource_limits },
    ] + Seq::new(
        v.cgroups.len(),
        |i: int| JailActionV::WriteCgroup { file: v.cgroups[i].0, value: v.cgroups[i].1 },
    ) + Seq::new(
        v.cgroups.len(),
        |i: int| JailActionV::AttachCgroup { file: v.cgroups[i].0, value: v.cgroups[i].1 },
    ) + (if v.netns is Some {
        seq![
            JailActionV::SetNetNs { path: v.netns->0 },
            JailActionV::UnshareMountNs,
            JailActionV::MountRootSlave,
            JailActionV::UmountSys,
            JailActionV::MountSysFs,
        ]
    } else {
        Seq::empty()
    }) + Seq::new(v.macvtaps.len(), |i: int| JailActionV::ResolveMacVTap { name: v.macvtaps[i] })
        + (if v.daemonize {
        seq![JailActionV::OpenDevNull]
    } else {
        Seq::empty()
    })
}

/// The steps taken from the chroot on: enter the jail, set up the folders,
/// create the device nodes (`/dev/urandom` best-effort), create each
/// MACVTAP node, daemonize (when requested), and exec — in a new PID
/// namespace when requested.
pub open spec fn spec_plan_from_chroot(v: crate::env::EnvV) -> Seq<JailActionV> {
    seq![
        JailActionV::Chroot { dir: v.chroot_dir },
        JailActionV::SetupJailedFolder { path: "/"@ },
        JailActionV::SetupJailedFolder { path: "/dev"@ },
        JailActionV::SetupJailedFolder { path: "/dev/net"@ },
        JailActionV::SetupJailedFolder { path: "/run"@ },
        JailActionV::MknodDev {
            path: "/dev/net/tun"@,
            major: DEV_NET_TUN_MAJOR,
            minor: DEV_NET_TUN_MINOR,
            fatal: true,
        },
        JailActionV::MknodDev {
            path: "/dev/kvm"@,
            major: DEV_KVM_MAJOR,
            minor: DEV_KVM_MINOR,
            fatal: true,
        },
        JailActionV::MknodDev {
            path: "/dev/urandom"@,
            major: DEV_URANDOM_MAJOR,
            minor: DEV_URANDOM_MINOR,
            fatal: false,
        },
    ] + Seq::new(
        v.macvtaps.len(),
        |i: int| JailActionV::MknodMacVTap {
            name: v.macvtaps[i],
            path: spec_path_join("/dev/net"@, v.macvtaps[i]),
        },
    ) + (if v.daemonize {
        seq![JailActionV::Daemonize]
    } else {
        Seq::empty()
    }) + (if v.new_pid_ns {
        seq![
            JailActionV::ExecIntoNewPidNs {
                exec_file: spec_chroot_exec_file(v),
                pid_file: spec_chroot_exec_file(v) + ".pid"@,
            },
        ]
    } else {
        seq![JailActionV::Exec { exec_file: spec_chroot_exec_file(v) }]
    })
}

/// Every step of one run, in order.
pub open spec fn spec_run_plan(v: crate::env::EnvV) -> Seq<JailActionV> {
    spec_plan_before_chroot(v) + spec_plan_from_chroot(v)
}

impl Env {
    /// The ordered steps of this plan's run.
    #[verifier::rlimit(60)]
    pub fn run_plan(&self) -> (r: Vec<JailAction>)
        ensures
            r.deep_view() == spec_run_plan(self@),
    {
        let ghost plan = spec_run_plan(self@);
        let mut out: Vec<JailAction> = Vec::new();
        out.push(
            JailAction::CopyExecToChroot {
                source: self.exec_file_path().to_owned(),
                dest: path_join(self.chroot_dir(), self.exec_file_name()),
            },
        );
        out.push(JailAction::InstallResourceLimits { limits: *self.resource_limits() });
        proof {
            assert(out.deep_view() =~= plan.take(out@.len() as int));
        }
        let cgroups = self.cgroups();
        let n_cg = cgroups.len();
        let mut i: usize = 0;
        while i < n_cg
            invariant
                i <= n_cg,
                n_cg == self@.cgroups.len(),
                cgroups@.len() == n_cg,
                forall|j: int|
                    0 <= j < n_cg ==> (#[trigger] cgroups@[j].file@, cgroups@[j].value@)
                        == self@.cgroups[j],
                plan == spec_run_plan(self@),
                out@.len() == 2 + i,
                out.deep_view() == plan.take(out@.len() as int),
            decreases n_cg - i,
        {
            out.push(
                JailAction::WriteCgroup {
                    file: cgroups[i].file.clone(),
                    value: cgroups[i].value.clone(),
                },
            );
            proof {
                assert(out.deep_view() =~= plan.take(out@.len() as int));
            }
            i = i + 1;
        }
        let mut i: usize = 0;
        while i < n_cg
            invariant
                i <= n_cg,
                n_cg == self@.cgroups.len(),
                cgroups@.len() == n_cg,
                forall|j: int|
                    0 <= j < n_cg ==> (#[trigger] cgroups@[j].file@, cgroups@[j].value@)
                        == self@.cgroups[j],
                plan == spec_run_plan(self@),
                out@.len() == 2 + n_cg + i,
                out.deep_view() == plan.take(out@.len() as int),
            decreases n_cg - i,
        {
            out.push(
                JailAction::AttachCgroup {
                    file: cgroups[i].file.clone(),
                    value: cgroups[i].value.clone(),
                },
            );
            proof {
                assert(out.deep_view() =~= plan.take(out@.len() as int));
            }
            i = i + 1;
        }
        match self.netns() {
            Some(path) => {
                out.push(JailAction::SetNetNs { path: path.clone() });
                out.push(JailAction::UnshareMountNs);
                out.push(JailAction::MountRootSlave);
                out.push(JailAction::UmountSys);
                out.push(JailAction::MountSysFs);
            },
            None => (),
        }
        proof {
            assert(out.deep_view() =~= plan.take(out@.len() as int));
        }
        let ghost net_len: int = if self@.netns is Some {
            5
        } else {
            0
        };
        let macvtaps = self.macvtaps();
        let n_mv = macvtaps.len();
        let mut i: usize = 0;
        while i < n_mv
            invariant
                i <= n_mv,
                n_mv == self@.macvtaps.len(),
                macvtaps@.len() == n_mv,
                macvtaps.deep_view() == self@.macvtaps,
                plan == spec_run_plan(self@),
                net_len == (if self@.netns is Some {
                    5int
                } else {
                    0int
                }),
                out@.len() == 2 + 2 * n_cg + net_len + i,
                n_cg == self@.cgroups.len(),
                out.deep_view() == plan.take(out@.len() as int),
            decreases n_mv - i,
        {
            out.push(JailAction::ResolveMacVTap { name: macvtaps[i].clone() });
            proof {
                assert(macvtaps@[i as int]@ == self@.macvtaps[i as int]);
                assert(out.deep_view() =~= plan.take(out@.len() as int));
            }
            i = i + 1;
        }
        if self.daemonize() {
            out.push(JailAction::OpenDevNull);
        }
        proof {
            assert(out.deep_view() =~= plan.take(out@.len() as int));
            assert(out@.len() == spec_plan_before_chroot(self@).len());
        }
        out.push(JailAction::Chroot { dir: self.chroot_dir().to_owned() });
        out.push(JailAction::SetupJailedFolder { path: "/".to_owned() });
        out.push(JailAction::SetupJailedFolder { path: "/dev".to_owned() });
        out.push(JailAction::SetupJailedFolder { path: "/dev/net".to_owned() });
        out.push(JailAction::SetupJailedFolder { path: "/run".to_owned() });
        out.push(
            JailAction::MknodDev {
                path: "/dev/net/tun".to_owned(),
                major: DEV_NET_TUN_MAJOR,
                minor: DEV_NET_TUN_MINOR,
                fatal: true,
            },
        );
        out.push(
            JailAction::MknodDev {
                path: "/dev/kvm".to_owned(),
                major: DEV_KVM_MAJOR,
                minor: DEV_KVM_MINOR,
                fatal: true,
            },
        );
        out.push(
            JailAction::MknodDev {
                path: "/dev/urandom".to_owned(),
                major: DEV_URANDOM_MAJOR,
                minor: DEV_URANDOM_MINOR,
                fatal: false,
            },
        );
        proof {
            assert(out.deep_view() =~= plan.take(out@.len() as int));
        }
        let mut i: usize = 0;
        while i < n_mv
            invariant
                i <= n_mv,
                n_mv == self@.macvtaps.len(),
                macvtaps@.len() == n_mv,
                macvtaps.deep_view() == self@.macvtaps,
                plan == spec_run_plan(self@),
                out@.len() == spec_plan_before_chroot(self@).len() + 8 + i,
                out.deep_view() == plan.take(out@.len() as int),
            decreases n_mv - i,
        {
            out.push(
                JailAction::MknodMacVTap {
                    name: macvtaps[i].clone(),
                    path: path_join("/dev/net", macvtaps[i].as_str()),
                },
            );
            proof {
                assert(macvtaps@[i as int]@ == self@.macvtaps[i as int]);
                assert(out.deep_view() =~= plan.take(out@.len() as int));
            }
            i = i + 1;
        }
        if self.daemonize() {
            out.push(JailAction::Daemonize);
        }
        proof {
            assert(out.deep_view() =~= plan.take(out@.len() as int));
        }
        let chroot_exec_file = path_join("/", self.exec_file_name());
        if self.new_pid_ns() {
            let pid_file = pid_file_path(chroot_exec_file.as_str());
            out.push(JailAction::ExecIntoNewPidNs { exec_file: chroot_exec_file, pid_file });
        } else {
            out.push(JailAction::Exec { exec_file: chroot_exec_file });
        }
        proof {
            assert(out.deep_view() =~= plan.take(out@.len() as int));
            assert(out@.len() == plan.len());
            assert(plan.take(plan.len() as int) =~= plan);
        }
        out
    }

    /// The argument vector the exec file is invoked with: the id, the two
    /// start times, the jailer's own CPU time, then the extra arguments
    /// verbatim.  The CPU times are passed in because the caller measures
    /// them at exec time.
    pub fn exec_args(&self, start_time_cpu_us: u64, jailer_cpu_time_us: u64) -> (r: Vec<String>)
        ensures
            r.deep_view() == seq![
                "--id"@,
                self@.id,
                "--start-time-us"@,
                spec_decimal(self@.start_time_us as nat),
                "--start-time-cpu-us"@,
                spec_decimal(start_time_cpu_us as nat),
                "--parent-cpu-time-us"@,
                spec_decimal(jailer_cpu_time_us as nat),
            ] + self@.extra_args,
    {
        let ghost full = seq![
            "--id"@,
            self@.id,
            "--start-time-us"@,
            spec_decimal(self@.start_time_us as nat),
            "--start-time-cpu-us"@,
            spec_decimal(start_time_cpu_us as nat),
            "--parent-cpu-time-us"@,
            spec_decimal(jailer_cpu_time_us as nat),
        ] + self@.extra_args;
        let mut r: Vec<String> = Vec::new();
        r.push("--id".to_owned());
        r.push(self.id().to_owned());
        r.push("--start-time-us".to_owned());
        r.push(u64_to_string(self.start_time_us()));
        r.push("--start-time-cpu-us".to_owned());
        r.push(u64_to_string(start_time_cpu_us));
        r.push("--parent-cpu-time-us".to_owned());
        r.push(u64_to_string(jailer_cpu_time_us));
        proof {
            assert(r.deep_view() =~= full.take(r@.len() as int));
        }
        let extra = self.extra_args();
        let n = extra.len();
        let mut i: usize = 0;
        while i < n
            invariant
                i <= n,
                n == self@.extra_args.len(),
                extra@.len() == n,
                extra.deep_view() == self@.extra_args,
                full == seq![
                    "--id"@,
                    self@.id,
                    "--start-time-us"@,
                    spec_decimal(self@.start_time_us as nat),
                    "--start-time-cpu-us"@,
                    spec_decimal(start_time_cpu_us as nat),
                    "--parent-cpu-time-us"@,
                    spec_decimal(jailer_cpu_time_us as nat),
                ] + self@.extra_args,
                r@.len() == 8 + i,
                r.deep_view() == full.take(r@.len() as int),
            decreases n - i,
        {
            r.push(extra[i].clone());
            proof {
                assert(extra@[i as int]@ == self@.extra_args[i as int]);
                assert(r.deep_view() =~= full.take(r@.len() as int));
            }
            i = i + 1;
        }
        proof {
            assert(r.deep_view() =~= full);
        }
        r
    }
}

/// The path of the file the parent writes the child PID into: the exec
/// file's path with `.pid` appended.
pub fn pid_file_path(chroot_exec_file: &str) -> (r: String)
    ensures
        r@ == chroot_exec_file@ + ".pid"@,
{
    let mut r = chroot_exec_file.to_owned();
    r.append(".pid");
    r
}

/// What the parent writes into the pid file: the child PID in decimal.
pub fn pid_file_contents(pid: i32) -> (r: String)
    requires
        pid >= 0,
    ensures
        r@ == spec_decimal(pid as nat),
{
    u64_to_string(pid as u64)
}

} // verus!
