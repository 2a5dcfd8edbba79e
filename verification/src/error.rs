//! The jailer's closed error taxonomy.
//!
//! Every failure of the pipeline is one variant, carrying the contextual
//! path or the operating-system error text as plain strings.  `message`
//! renders the human-readable `"<action>: <detail>"` line; paths are spliced
//! in plainly, without quoting decorations.

use vstd::prelude::*;

use crate::num::spec_decimal;
use crate::num::u64_to_string;

verus! {

/// Why an instance identifier was rejected.
#[derive(Debug, Clone, PartialEq, Eq)]
pub enum InstanceIdError {
    /// The identifier is empty or longer than the allowed maximum.
    InvalidLen(usize),
    /// A character is neither alphanumeric (ASCII) nor `-`; carries the
    /// character and its position.
    InvalidChar(char, usize),
}

/// Why a byte slice could not be read as a NUL-terminated C string.
#[derive(Debug, Clone, PartialEq, Eq)]
pub enum NulIssue {
    /// The final byte is not NUL.
    NotNulTerminated,
    /// A NUL byte sits before the final position; carries that position.
    InteriorNul(usize),
}

/// Every failure the jailer can report.  Validation failures are produced by
/// this library; the variants carrying an operating-system error detail are
/// filled in by the binary that performs the syscalls.
#[derive(Debug, Clone, PartialEq, Eq)]
pub enum Error {
    ArgumentParsing(String),
    Canonicalize(String, String),
    CgroupInvalidFile(String),
    CgroupFormat(String),
    CgroupInvalidVersion(String),
    CgroupInvalidParentPath,
    ChangeFileOwner(String, String),
    ChdirNewRoot(String),
    Chmod(String, String),
    Clone(String),
    CloseNetNsFd(String),
    CloseDevNullFd(String),
    Copy(String, String, String),
    CreateDir(String, String),
    CStringParsing,
    Dup2(String),
    Exec(String),
    ExecFileName(String),
    ExtractFileName(String),
    FileOpen(String, String),
    FromBytesWithNul(NulIssue),
    Gid(String),
    InvalidInstanceId(InstanceIdError),
    MacVTapByName(String, String),
    MacVTapMknod(String, String),
    MkdirOldRoot(String),
    MknodDev(String, String),
    MountBind(String),
    MountSysfs(String),
    NotAFile(String),
    NotADirectory(String),
    OpenDevNull(String),
    PivotRoot(String),
    ReadToString(String, String),
    ResLimitArgument(String),
    ResLimitFormat(String),
    ResLimitValue(String, String),
    RmOldRootDir(String),
    SetCurrentDir(String),
    SetNetNs(String),
    Setrlimit(String),
    SetSid(String),
    Uid(String),
    UmountOldRoot(String),
    UmountSysfs(String),
    Write(String, String),
}

pub type Result<T> = core::result::Result<T, Error>;

/// The rendered description of an instance-identifier failure.
pub open spec fn spec_instance_id_message(e: InstanceIdError) -> Seq<char> {
    match e {
        InstanceIdError::InvalidLen(n) => "invalid len ("@ + spec_decimal(n as nat) + ")"@,
        InstanceIdError::InvalidChar(c, p) => "invalid char ("@.push(c) + ") at position "@
            + spec_decimal(p as nat),
    }
}

/// The rendered description of a C-string decoding failure, as std's
/// `FromBytesWithNulError` words it.
pub open spec fn spec_nul_issue_message(e: NulIssue) -> Seq<char> {
    match e {
        NulIssue::NotNulTerminated => "data provided is not nul terminated"@,
        NulIssue::InteriorNul(p) => "data provided contains an interior nul byte at byte pos "@
            + spec_decimal(p as nat),
    }
}

/// The rendered message of each failure.
pub open spec fn spec_message(e: Error) -> Seq<char> {
    match e {
        Error::ArgumentParsing(s) => "Failed to parse arguments: "@ + s@,
        Error::Canonicalize(p, d) => "Failed to canonicalize path "@ + p@ + ": "@ + d@,
        Error::CgroupInvalidFile(s) => "Cgroup invalid file: "@ + s@,
        Error::CgroupFormat(s) => "Invalid format for cgroups: "@ + s@,
        Error::CgroupInvalidVersion(s) => s@ + " is an invalid cgroup version specifier"@,
        Error::CgroupInvalidParentPath => "Parent cgroup path is invalid. Path should not be absolute or contain '..' or '.'"@,
        Error::ChangeFileOwner(p, d) => "Failed to change owner for "@ + p@ + ": "@ + d@,
        Error::ChdirNewRoot(d) => "Failed to chdir into chroot directory: "@ + d@,
        Error::Chmod(p, d) => "Failed to change permissions on "@ + p@ + ": "@ + d@,
        Error::Clone(d) => "Failed cloning into a new child process: "@ + d@,
        Error::CloseNetNsFd(d) => "Failed to close netns fd: "@ + d@,
        Error::CloseDevNullFd(d) => "Failed to close /dev/null fd: "@ + d@,
        Error::Copy(f, p, d) => "Failed to copy "@ + f@ + " to "@ + p@ + ": "@ + d@,
        Error::CreateDir(p, d) => "Failed to create directory "@ + p@ + ": "@ + d@,
        Error::CStringParsing => "Encountered interior \\0 while parsing a string"@,
        Error::Dup2(d) => "Failed to duplicate fd: "@ + d@,
        Error::Exec(d) => "Failed to exec into Firecracker: "@ + d@,
        Error::ExecFileName(n) => "Invalid filename. The filename of `--exec-file` option must contain \"firecracker\": "@
            + n@,
        Error::ExtractFileName(p) => "Failed to extract filename from path "@ + p@,
        Error::FileOpen(p, d) => "Failed to open file "@ + p@ + ": "@ + d@,
        Error::FromBytesWithNul(e) => "Failed to decode string from byte array: "@
            + spec_nul_issue_message(e),
        Error::Gid(s) => "Invalid gid: "@ + s@,
        Error::InvalidInstanceId(e) => "Invalid instance ID: "@ + spec_instance_id_message(e),
        Error::MacVTapByName(n, d) => "Failed to resolve macvtap interface "@ + n@ + ": "@ + d@,
        Error::MacVTapMknod(p, d) => "Failed to create "@ + p@
            + " via mknod inside the jail: "@ + d@,
        Error::MkdirOldRoot(d) => "Failed to create the jail root directory before pivoting root: "@
            + d@,
        Error::MknodDev(p, d) => "Failed to create "@ + p@ + " via mknod inside the jail: "@ + d@,
        Error::MountBind(d) => "Failed to bind mount the jail root directory: "@ + d@,
        Error::MountSysfs(d) => "Failed to mount sysfs for network namespace: "@ + d@,
        Error::NotAFile(p) => p@ + " is not a file"@,
        Error::NotADirectory(p) => p@ + " is not a directory"@,
        Error::OpenDevNull(d) => "Failed to open /dev/null: "@ + d@,
        Error::PivotRoot(d) => "Failed to pivot root: "@ + d@,
        Error::ReadToString(p, d) => "Failed to read file "@ + p@ + " into a string: "@ + d@,
        Error::ResLimitArgument(s) => "Invalid resource argument: "@ + s@,
        Error::ResLimitFormat(s) => "Invalid format for resources limits: "@ + s@,
        Error::ResLimitValue(s, d) => "Invalid limit value for resource: "@ + s@ + ": "@ + d@,
        Error::RmOldRootDir(d) => "Failed to remove old jail root directory: "@ + d@,
        Error::SetCurrentDir(d) => "Failed to change current directory: "@ + d@,
        Error::SetNetNs(d) => "Failed to join network namespace: netns: "@ + d@,
        Error::Setrlimit(s) => "Failed to set limit for resource: "@ + s@,
        Error::SetSid(d) => "Failed to daemonize: setsid: "@ + d@,
        Error::Uid(s) => "Invalid uid: "@ + s@,
        Error::UmountOldRoot(d) => "Failed to unmount the old jail root: "@ + d@,
        Error::UmountSysfs(d) => "Failed to unmount sysfs for network namespace: "@ + d@,
        Error::Write(p, d) => "Failed to write to "@ + p@ + ": "@ + d@,
    }
}

/// Relies on std's `String::push`: appends exactly the given character.
#[verifier::external_body]
fn push_char(s: &mut String, c: char)
    ensures
        final(s)@ == old(s)@.push(c),
{
    s.push(c);
}

fn concat2(a: &str, b: &str) -> (r: String)
    ensures
        r@ == a@ + b@,
{
    let mut r = a.to_owned();
    r.append(b);
    r
}

fn concat3(a: &str, b: &str, c: &str) -> (r: String)
    ensures
        r@ == a@ + b@ + c@,
{
    let mut r = a.to_owned();
    r.append(b);
    r.append(c);
    proof {
        assert(r@ =~= a@ + b@ + c@);
    }
    r
}

fn concat4(a: &str, b: &str, c: &str, d: &str) -> (r: String)
    ensures
        r@ == a@ + b@ + c@ + d@,
{
    let mut r = a.to_owned();
    r.append(b);
    r.append(c);
    r.append(d);
    proof {
        assert(r@ =~= a@ + b@ + c@ + d@);
    }
    r
}

fn concat6(a: &str, b: &str, c: &str, d: &str, e: &str, f: &str) -> (r: String)
    ensures
        r@ == a@ + b@ + c@ + d@ + e@ + f@,
{
    let mut r = a.to_owned();
    r.append(b);
    r.append(c);
    r.append(d);
    r.append(e);
    r.append(f);
    proof {
        assert(r@ =~= a@ + b@ + c@ + d@ + e@ + f@);
    }
    r
}

impl InstanceIdError {
    /// The rendered description of the failure.
    pub fn message(&self) -> (r: String)
        ensures
            r@ == spec_instance_id_message(*self),
    {
        match self {
            InstanceIdError::InvalidLen(n) => {
                let digits = u64_to_string(*n as u64);
                concat3("invalid len (", digits.as_str(), ")")
            },
            InstanceIdError::InvalidChar(c, p) => {
                let mut r = "invalid char (".to_owned();
                push_char(&mut r, *c);
                r.append(") at position ");
                let digits = u64_to_string(*p as u64);
                r.append(digits.as_str());
                proof {
                    assert(r@ =~= spec_instance_id_message(*self));
                }
                r
            },
        }
    }
}

impl NulIssue {
    /// The rendered description of the failure, as std words it.
    pub fn message(&self) -> (r: String)
        ensures
            r@ == spec_nul_issue_message(*self),
    {
        match self {
            NulIssue::NotNulTerminated => "data provided is not nul terminated".to_owned(),
            NulIssue::InteriorNul(p) => {
                let digits = u64_to_string(*p as u64);
                concat2("data provided contains an interior nul byte at byte pos ", digits.as_str())
            },
        }
    }
}

impl Error {
    /// The human-readable message of the failure, in the uniform
    /// `"<action>: <detail>"` shape.
    pub fn message(&self) -> (r: String)
        ensures
            r@ == spec_message(*self),
    {
        match self {
            Error::ArgumentParsing(s) => concat2("Failed to parse arguments: ", s.as_str()),
            Error::Canonicalize(p, d) => concat4(
                "Failed to canonicalize path ",
                p.as_str(),
                ": ",
                d.as_str(),
            ),
            Error::CgroupInvalidFile(s) => concat2("Cgroup invalid file: ", s.as_str()),
            Error::CgroupFormat(s) => concat2("Invalid format for cgroups: ", s.as_str()),
            Error::CgroupInvalidVersion(s) => concat2(
                s.as_str(),
                " is an invalid cgroup version specifier",
            ),
            Error::CgroupInvalidParentPath => ("Parent cgroup path is invalid. Path should not be absolute or contain '..' or '.'").to_owned(),
            Error::ChangeFileOwner(p, d) => concat4(
                "Failed to change owner for ",
                p.as_str(),
                ": ",
                d.as_str(),
            ),
            Error::ChdirNewRoot(d) => concat2(
                "Failed to chdir into chroot directory: ",
                d.as_str(),
            ),
            Error::Chmod(p, d) => concat4(
                "Failed to change permissions on ",
                p.as_str(),
                ": ",
                d.as_str(),
            ),
            Error::Clone(d) => concat2("Failed cloning into a new child process: ", d.as_str()),
            Error::CloseNetNsFd(d) => concat2("Failed to close netns fd: ", d.as_str()),
            Error::CloseDevNullFd(d) => concat2("Failed to close /dev/null fd: ", d.as_str()),
            Error::Copy(f, p, d) => concat6(
                "Failed to copy ",
                f.as_str(),
                " to ",
                p.as_str(),
                ": ",
                d.as_str(),
            ),
            Error::CreateDir(p, d) => concat4(
                "Failed to create directory ",
                p.as_str(),
                ": ",
                d.as_str(),
            ),
            Error::CStringParsing => ("Encountered interior \\0 while parsing a string").to_owned(),
            Error::Dup2(d) => concat2("Failed to duplicate fd: ", d.as_str()),
            Error::Exec(d) => concat2("Failed to exec into Firecracker: ", d.as_str()),
            Error::ExecFileName(n) => concat2(
                "Invalid filename. The filename of `--exec-file` option must contain \"firecracker\": ",
                n.as_str(),
            ),
            Error::ExtractFileName(p) => concat2(
                "Failed to extract filename from path ",
                p.as_str(),
            ),
            Error::FileOpen(p, d) => concat4("Failed to open file ", p.as_str(), ": ", d.as_str()),
            Error::FromBytesWithNul(e) => {
                let detail = e.message();
                concat2("Failed to decode string from byte array: ", detail.as_str())
            },
            Error::Gid(s) => concat2("Invalid gid: ", s.as_str()),
            Error::InvalidInstanceId(e) => {
                let detail = e.message();
                concat2("Invalid instance ID: ", detail.as_str())
            },
            Error::MacVTapByName(n, d) => concat4(
                "Failed to resolve macvtap interface ",
                n.as_str(),
                ": ",
                d.as_str(),
            ),
            Error::MacVTapMknod(p, d) => concat4(
                "Failed to create ",
                p.as_str(),
                " via mknod inside the jail: ",
                d.as_str(),
            ),
            Error::MkdirOldRoot(d) => concat2(
                "Failed to create the jail root directory before pivoting root: ",
                d.as_str(),
            ),
            Error::MknodDev(p, d) => concat4(
                "Failed to create ",
                p.as_str(),
                " via mknod inside the jail: ",
                d.as_str(),
            ),
            Error::MountBind(d) => concat2(
                "Failed to bind mount the jail root directory: ",
                d.as_str(),
            ),
            Error::MountSysfs(d) => concat2(
                "Failed to mount sysfs for network namespace: ",
                d.as_str(),
            ),
            Error::NotAFile(p) => concat2(p.as_str(), " is not a file"),
            Error::NotADirectory(p) => concat2(p.as_str(), " is not a directory"),
            Error::OpenDevNull(d) => concat2("Failed to open /dev/null: ", d.as_str()),
            Error::PivotRoot(d) => concat2("Failed to pivot root: ", d.as_str()),
            Error::ReadToString(p, d) => concat4(
                "Failed to read file ",
                p.as_str(),
                " into a string: ",
                d.as_str(),
            ),
            Error::ResLimitArgument(s) => concat2("Invalid resource argument: ", s.as_str()),
            Error::ResLimitFormat(s) => concat2(
                "Invalid format for resources limits: ",
                s.as_str(),
            ),
            Error::ResLimitValue(s, d) => concat4(
                "Invalid limit value for resource: ",
                s.as_str(),
                ": ",
                d.as_str(),
            ),
            Error::RmOldRootDir(d) => concat2(
                "Failed to remove old jail root directory: ",
                d.as_str(),
            ),
            Error::SetCurrentDir(d) => concat2("Failed to change current directory: ", d.as_str()),
            Error::SetNetNs(d) => concat2(
                "Failed to join network namespace: netns: ",
                d.as_str(),
            ),
            Error::Setrlimit(s) => concat2("Failed to set limit for resource: ", s.as_str()),
            Error::SetSid(d) => concat2("Failed to daemonize: setsid: ", d.as_str()),
            Error::Uid(s) => concat2("Invalid uid: ", s.as_str()),
            Error::UmountOldRoot(d) => concat2("Failed to unmount the old jail root: ", d.as_str()),
            Error::UmountSysfs(d) => concat2(
                "Failed to unmount sysfs for network namespace: ",
                d.as_str(),
            ),
            Error::Write(p, d) => concat4("Failed to write to ", p.as_str(), ": ", d.as_str()),
        }
    }
}

} // verus!
