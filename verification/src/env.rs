//! The execution plan: validating the jailer's command-line values into an
//! immutable `Env`.
//!
//! The binary parses the command line and probes the filesystem (the two
//! canonicalized paths and their kinds), then hands everything here as plain
//! values.  `Env::new` performs every validation the plan needs, in a fixed
//! order, and returns either the plan or the first failure.

use vstd::prelude::*;

use crate::error::Error;
use crate::error::InstanceIdError;
use crate::num::parse_u32;
use crate::num::parse_u64;
use crate::num::parse_u8;
use crate::num::spec_decimal;
use crate::num::spec_parse_uint;
use crate::num::spec_parse_uint_error_message;
use crate::num::u64_to_string;
use crate::paths::contains_seq;
use crate::paths::find_char;
use crate::paths::first_char_idx;
use crate::paths::forbidden_component;
use crate::paths::has_forbidden_component;
use crate::paths::spec_file_name;
use crate::paths::spec_path_join;
use crate::paths::str_contains;
use crate::paths::str_eq;
use crate::paths::file_name;
use crate::paths::path_join;

verus! {

/// The resource-limit values the plan installs before exec: the maximum
/// size of created files and the maximum file-descriptor number, each only
/// when the command line set it.
#[derive(Debug, Clone, Copy, PartialEq, Eq)]
pub struct ResourceLimits {
    pub file_size: Option<u64>,
    pub no_file: Option<u64>,
}

impl Default for ResourceLimits {
    /// No limit is set until an argument sets it.
    fn default() -> (r: Self)
        ensures
            r == (ResourceLimits { file_size: None, no_file: None }),
    {
        ResourceLimits { file_size: None, no_file: None }
    }
}

impl ResourceLimits {
    /// Set the maximum size of files the jailed process creates.
    pub fn set_file_size(&mut self, v: u64)
        ensures
            *final(self) == (ResourceLimits { file_size: Some(v), ..*old(self) }),
    {
        self.file_size = Some(v);
    }

    /// Set the bound on file-descriptor numbers of the jailed process.
    pub fn set_no_file(&mut self, v: u64)
        ensures
            *final(self) == (ResourceLimits { no_file: Some(v), ..*old(self) }),
    {
        self.no_file = Some(v);
    }
}

/// The resource name of a `--resource-limit` argument: what stands before
/// the first `=`.
pub open spec fn spec_reslimit_name(arg: Seq<char>) -> Seq<char> {
    arg.take(first_char_idx(arg, '='))
}

/// The value of a `--resource-limit` argument: what follows the first `=`.
pub open spec fn spec_reslimit_value(arg: Seq<char>) -> Seq<char> {
    arg.subrange(first_char_idx(arg, '=') + 1, arg.len() as int)
}

/// A `--resource-limit` argument is accepted when it has an `=`, its value
/// parses as a `u64`, and its name is one of the known resources.
pub open spec fn spec_reslimit_arg_ok(arg: Seq<char>) -> bool {
    &&& first_char_idx(arg, '=') < arg.len()
    &&& spec_parse_uint(spec_reslimit_value(arg), u64::MAX as nat) is Ok
    &&& (spec_reslimit_name(arg) == "fsize"@ || spec_reslimit_name(arg) == "no-file"@)
}

/// The error a rejected `--resource-limit` argument yields: a missing `=` is
/// a format error, then a value that does not parse, then an unknown name.
pub open spec fn spec_reslimit_arg_err(arg: Seq<char>, e: Error) -> bool {
    if first_char_idx(arg, '=') == arg.len() {
        e matches Error::ResLimitFormat(m) && m@ == arg
    } else if spec_parse_uint(spec_reslimit_value(arg), u64::MAX as nat) is Err {
        e matches Error::ResLimitValue(v, d) && v@ == spec_reslimit_value(arg) && d@
            == spec_parse_uint_error_message(
            spec_parse_uint(spec_reslimit_value(arg), u64::MAX as nat)->Err_0,
        )
    } else if spec_reslimit_name(arg) != "fsize"@ && spec_reslimit_name(arg) != "no-file"@ {
        e matches Error::ResLimitArgument(n) && n@ == spec_reslimit_name(arg)
    } else {
        false
    }
}

/// What an accepted `--resource-limit` argument sets.
pub open spec fn spec_reslimit_apply(acc: ResourceLimits, arg: Seq<char>) -> ResourceLimits {
    let v = spec_parse_uint(spec_reslimit_value(arg), u64::MAX as nat)->Ok_0 as u64;
    if spec_reslimit_name(arg) == "fsize"@ {
        ResourceLimits { file_size: Some(v), ..acc }
    } else {
        ResourceLimits { no_file: Some(v), ..acc }
    }
}

/// The limits after applying a list of accepted arguments in order.
pub open spec fn spec_reslimits_value(init: ResourceLimits, list: Seq<Seq<char>>) -> ResourceLimits
    decreases list.len(),
{
    if list.len() == 0 {
        init
    } else {
        spec_reslimits_value(spec_reslimit_apply(init, list[0]), list.drop_first())
    }
}

/// The position of the first rejected argument, or the length when all are
/// accepted.
pub open spec fn spec_reslimits_fail_at(list: Seq<Seq<char>>) -> int
    decreases list.len(),
{
    if list.len() == 0 {
        0
    } else if !spec_reslimit_arg_ok(list[0]) {
        0
    } else {
        1 + spec_reslimits_fail_at(list.drop_first())
    }
}

proof fn lemma_reslimits_fail_at(list: Seq<Seq<char>>, i: int)
    requires
        0 <= i <= list.len(),
        forall|j: int| 0 <= j < i ==> spec_reslimit_arg_ok(#[trigger] list[j]),
        i < list.len() ==> !spec_reslimit_arg_ok(list[i]),
    ensures
        spec_reslimits_fail_at(list) == i,
    decreases list.len(),
{
    if list.len() == 0 {
    } else if !spec_reslimit_arg_ok(list[0]) {
    } else {
        lemma_reslimits_fail_at(list.drop_first(), i - 1);
    }
}

proof fn lemma_reslimits_value_push(init: ResourceLimits, list: Seq<Seq<char>>, arg: Seq<char>)
    ensures
        spec_reslimits_value(init, list.push(arg)) == spec_reslimit_apply(
            spec_reslimits_value(init, list),
            arg,
        ),
    decreases list.len(),
{
    if list.len() == 0 {
        assert(list.push(arg).drop_first() =~= list);
        assert(list.push(arg)[0] == arg);
        assert(spec_reslimits_value(init, list.push(arg)) == spec_reslimits_value(
            spec_reslimit_apply(init, arg),
            list,
        ));
    } else {
        assert(list.push(arg).drop_first() =~= list.drop_first().push(arg));
        assert(list.push(arg)[0] == list[0]);
        lemma_reslimits_value_push(spec_reslimit_apply(init, list[0]), list.drop_first(), arg);
        assert(spec_reslimits_value(init, list.push(arg)) == spec_reslimits_value(
            spec_reslimit_apply(init, list[0]),
            list.drop_first().push(arg),
        ));
        assert(spec_reslimits_value(init, list) == spec_reslimits_value(
            spec_reslimit_apply(init, list[0]),
            list.drop_first(),
        ));
    }
}

/// One validated `--cgroup` argument: the cgroup file to write and the
/// value to write into it.
#[derive(Debug, Clone, PartialEq, Eq)]
pub struct CgroupSpec {
    pub file: String,
    pub value: String,
}

/// The cgroup file of a `--cgroup` argument: what stands before the first
/// `=`.
pub open spec fn spec_cgroup_file(arg: Seq<char>) -> Seq<char> {
    arg.take(first_char_idx(arg, '='))
}

/// The value of a `--cgroup` argument: what follows the first `=`.
pub open spec fn spec_cgroup_value(arg: Seq<char>) -> Seq<char> {
    arg.subrange(first_char_idx(arg, '=') + 1, arg.len() as int)
}

/// A `--cgroup` argument is well-formed when it holds exactly one `=` and a
/// non-empty value.
pub open spec fn spec_cgroup_format_ok(arg: Seq<char>) -> bool {
    &&& first_char_idx(arg, '=') < arg.len()
    &&& spec_cgroup_value(arg).len() > 0
    &&& first_char_idx(spec_cgroup_value(arg), '=') == spec_cgroup_value(arg).len()
}

/// A `--cgroup` argument is accepted when it is well-formed, its file names
/// no forbidden path component, and the file has a `<controller>.<property>`
/// shape (at least one `.`).
pub open spec fn spec_cgroup_arg_ok(arg: Seq<char>) -> bool {
    &&& spec_cgroup_format_ok(arg)
    &&& !has_forbidden_component(spec_cgroup_file(arg))
    &&& first_char_idx(spec_cgroup_file(arg), '.') < spec_cgroup_file(arg).len()
}

/// The error a rejected `--cgroup` argument yields: a malformed argument is
/// a format error (carrying the whole argument), then a forbidden path
/// component (carrying the whole argument), then a file without a `.`
/// (carrying the file).
pub open spec fn spec_cgroup_arg_err(arg: Seq<char>, e: Error) -> bool {
    if !spec_cgroup_format_ok(arg) {
        e matches Error::CgroupFormat(m) && m@ == arg
    } else if has_forbidden_component(spec_cgroup_file(arg)) {
        e matches Error::CgroupInvalidFile(m) && m@ == arg
    } else if first_char_idx(spec_cgroup_file(arg), '.') == spec_cgroup_file(arg).len() {
        e matches Error::CgroupInvalidFile(m) && m@ == spec_cgroup_file(arg)
    } else {
        false
    }
}

/// The (file, value) pairs of a list of accepted `--cgroup` arguments.
pub open spec fn spec_cgroup_values(list: Seq<Seq<char>>) -> Seq<(Seq<char>, Seq<char>)>
    decreases list.len(),
{
    if list.len() == 0 {
        Seq::empty()
    } else {
        seq![(spec_cgroup_file(list[0]), spec_cgroup_value(list[0]))] + spec_cgroup_values(
            list.drop_first(),
        )
    }
}

/// The position of the first rejected argument, or the length when all are
/// accepted.
pub open spec fn spec_cgroups_fail_at(list: Seq<Seq<char>>) -> int
    decreases list.len(),
{
    if list.len() == 0 {
        0
    } else if !spec_cgroup_arg_ok(list[0]) {
        0
    } else {
        1 + spec_cgroups_fail_at(list.drop_first())
    }
}

proof fn lemma_cgroups_fail_at(list: Seq<Seq<char>>, i: int)
    requires
        0 <= i <= list.len(),
        forall|j: int| 0 <= j < i ==> spec_cgroup_arg_ok(#[trigger] list[j]),
        i < list.len() ==> !spec_cgroup_arg_ok(list[i]),
    ensures
        spec_cgroups_fail_at(list) == i,
    decreases list.len(),
{
    if list.len() == 0 {
    } else if !spec_cgroup_arg_ok(list[0]) {
    } else {
        lemma_cgroups_fail_at(list.drop_first(), i - 1);
    }
}

proof fn lemma_cgroup_values_take(list: Seq<Seq<char>>, i: int)
    requires
        0 <= i < list.len(),
    ensures
        spec_cgroup_values(list.take(i + 1)) == spec_cgroup_values(list.take(i)).push(
            (spec_cgroup_file(list[i]), spec_cgroup_value(list[i])),
        ),
    decreases i,
{
    if i == 0 {
        assert(list.take(1)[0] == list[0]);
        assert(list.take(1).drop_first() =~= Seq::<Seq<char>>::empty());
        assert(list.take(0) =~= Seq::<Seq<char>>::empty());
        assert(spec_cgroup_values(list.take(1)) =~= spec_cgroup_values(list.take(0)).push(
            (spec_cgroup_file(list[0]), spec_cgroup_value(list[0])),
        ));
    } else {
        lemma_cgroup_values_take(list.drop_first(), i - 1);
        assert(list.take(i + 1)[0] == list[0]);
        assert(list.take(i)[0] == list[0]);
        assert(list.take(i + 1).drop_first() =~= list.drop_first().take(i));
        assert(list.take(i).drop_first() =~= list.drop_first().take(i - 1));
        assert(list.drop_first()[i - 1] == list[i]);
        assert(spec_cgroup_values(list.take(i + 1)) =~= spec_cgroup_values(list.take(i)).push(
            (spec_cgroup_file(list[i]), spec_cgroup_value(list[i])),
        ));
    }
}

/// Validate every `--cgroup` argument, in order, into (file, value) pairs.
/// Rejection reports the first failing argument.
pub fn parse_cgroup_args(args: &Vec<String>) -> (r: Result<Vec<CgroupSpec>, Error>)
    ensures
        r is Ok <==> spec_cgroups_fail_at(args.deep_view()) == args.deep_view().len(),
        r matches Ok(v) ==> {
            &&& v@.len() == spec_cgroup_values(args.deep_view()).len()
            &&& forall|j: int|
                0 <= j < v@.len() ==> (#[trigger] v@[j].file@, v@[j].value@)
                    == spec_cgroup_values(args.deep_view())[j]
        },
        r matches Err(e) ==> {
            let list = args.deep_view();
            &&& spec_cgroups_fail_at(list) < list.len()
            &&& spec_cgroup_arg_err(list[spec_cgroups_fail_at(list)], e)
        },
{
    let ghost list = args.deep_view();
    let mut out: Vec<CgroupSpec> = Vec::new();
    let n = args.len();
    let mut i: usize = 0;
    while i < n
        invariant
            i <= n,
            n == args@.len(),
            list == args.deep_view(),
            forall|j: int| 0 <= j < i ==> spec_cgroup_arg_ok(#[trigger] list[j]),
            out@.len() == spec_cgroup_values(list.take(i as int)).len(),
            forall|j: int|
                0 <= j < out@.len() ==> (#[trigger] out@[j].file@, out@[j].value@)
                    == spec_cgroup_values(list.take(i as int))[j],
        decreases n - i,
    {
        proof {
            assert(list[i as int] == args@[i as int]@);
        }
        let arg = &args[i];
        let len = arg.as_str().unicode_len();
        let eq = find_char(arg.as_str(), '=');
        if eq == len {
            proof {
                lemma_cgroups_fail_at(list, i as int);
            }
            return Err(Error::CgroupFormat(arg.clone()));
        }
        let value = arg.as_str().substring_char(eq + 1, len).to_owned();
        proof {
            assert(value@ == spec_cgroup_value(list[i as int]));
        }
        let vlen = value.as_str().unicode_len();
        if vlen == 0 || find_char(value.as_str(), '=') < vlen {
            proof {
                lemma_cgroups_fail_at(list, i as int);
            }
            return Err(Error::CgroupFormat(arg.clone()));
        }
        let file = arg.as_str().substring_char(0, eq).to_owned();
        proof {
            assert(file@ == spec_cgroup_file(list[i as int]));
        }
        if forbidden_component(file.as_str()) {
            proof {
                lemma_cgroups_fail_at(list, i as int);
            }
            return Err(Error::CgroupInvalidFile(arg.clone()));
        }
        let flen = file.as_str().unicode_len();
        if find_char(file.as_str(), '.') == flen {
            proof {
                lemma_cgroups_fail_at(list, i as int);
            }
            return Err(Error::CgroupInvalidFile(file));
        }
        out.push(CgroupSpec { file, value });
        proof {
            lemma_cgroup_values_take(list, i as int);
        }
        i = i + 1;
    }
    proof {
        assert(list.take(n as int) =~= list);
        lemma_cgroups_fail_at(list, n as int);
    }
    Ok(out)
}


/// The longest accepted instance identifier.
pub const MAX_INSTANCE_ID_LEN: usize = 64;

/// A character an instance identifier may hold: ASCII alphanumeric or `-`.
pub open spec fn valid_id_char(c: char) -> bool {
    ||| 48 <= c as u32 && c as u32 <= 57
    ||| 65 <= c as u32 && c as u32 <= 90
    ||| 97 <= c as u32 && c as u32 <= 122
    ||| c == '-'
}

/// The position of the first character an identifier may not hold, or the
/// length when every character is accepted.
pub open spec fn first_bad_id_char(s: Seq<char>) -> int
    decreases s.len(),
{
    if s.len() == 0 {
        0
    } else if !valid_id_char(s[0]) {
        0
    } else {
        1 + first_bad_id_char(s.drop_first())
    }
}

/// An instance identifier is accepted when it is 1 to 64 characters long and
/// every character is ASCII alphanumeric or `-`.
pub open spec fn spec_instance_id_ok(s: Seq<char>) -> bool {
    1 <= s.len() <= MAX_INSTANCE_ID_LEN && first_bad_id_char(s) == s.len()
}

/// Why a rejected identifier was rejected: its length, or else its first bad
/// character and that character's position.
pub open spec fn spec_instance_id_error(s: Seq<char>) -> InstanceIdError {
    if s.len() < 1 || s.len() > MAX_INSTANCE_ID_LEN {
        InstanceIdError::InvalidLen(s.len() as usize)
    } else {
        InstanceIdError::InvalidChar(s[first_bad_id_char(s)], first_bad_id_char(s) as usize)
    }
}

proof fn lemma_first_bad_id_char(s: Seq<char>, i: int)
    requires
        0 <= i <= s.len(),
        forall|k: int| 0 <= k < i ==> valid_id_char(#[trigger] s[k]),
        i < s.len() ==> !valid_id_char(s[i]),
    ensures
        first_bad_id_char(s) == i,
    decreases s.len(),
{
    if s.len() == 0 {
    } else if !valid_id_char(s[0]) {
    } else {
        lemma_first_bad_id_char(s.drop_first(), i - 1);
    }
}

/// Check an instance identifier: 1 to 64 characters, each ASCII alphanumeric
/// or `-`.
pub fn validate_instance_id(id: &str) -> (r: Result<(), Error>)
    ensures
        r is Ok <==> spec_instance_id_ok(id@),
        r matches Err(e) ==> e == Error::InvalidInstanceId(spec_instance_id_error(id@)),
{
    let len = id.unicode_len();
    if len < 1 || len > MAX_INSTANCE_ID_LEN {
        return Err(Error::InvalidInstanceId(InstanceIdError::InvalidLen(len)));
    }
    let mut i: usize = 0;
    while i < len
        invariant
            i <= len,
            1 <= len <= MAX_INSTANCE_ID_LEN,
            len == id@.len(),
            forall|k: int| 0 <= k < i ==> valid_id_char(#[trigger] id@[k]),
        decreases len - i,
    {
        let c = id.get_char(i);
        let u = c as u32;
        if !((48 <= u && u <= 57) || (65 <= u && u <= 90) || (97 <= u && u <= 122) || u == 45) {
            proof {
                vstd::utf8::char_u32_cast(c, c as u32);
                vstd::utf8::char_u32_cast('-', 45u32);
                lemma_first_bad_id_char(id@, i as int);
            }
            return Err(Error::InvalidInstanceId(InstanceIdError::InvalidChar(c, i)));
        }
        proof {
            vstd::utf8::char_u32_cast(c, c as u32);
            vstd::utf8::char_u32_cast('-', 45u32);
        }
        i = i + 1;
    }
    proof {
        lemma_first_bad_id_char(id@, len as int);
    }
    Ok(())
}

/// Validate the exec file from what the filesystem said of it: the
/// canonicalized path (or the error canonicalization produced), and whether
/// that path is a regular file.  Accepted exactly when canonicalization
/// succeeded on a regular file whose basename contains `firecracker`; the
/// result is the canonical path and that basename.
pub fn validate_exec_file(
    exec_file: &str,
    canonical: &Result<String, String>,
    is_file: bool,
) -> (r: Result<(String, String), Error>)
    ensures
        r is Ok <==> {
            &&& canonical is Ok
            &&& is_file
            &&& spec_file_name(canonical->Ok_0@) is Some
            &&& contains_seq(spec_file_name(canonical->Ok_0@)->0, "firecracker"@)
        },
        r matches Ok(p) ==> p.0@ == canonical->Ok_0@ && Some(p.1@) == spec_file_name(
            canonical->Ok_0@,
        ),
        r matches Err(e) ==> {
            if canonical is Err {
                e matches Error::Canonicalize(p, d) && p@ == exec_file@ && d@
                    == canonical->Err_0@
            } else if !is_file {
                e matches Error::NotAFile(p) && p@ == canonical->Ok_0@
            } else if spec_file_name(canonical->Ok_0@) is None {
                e matches Error::ExtractFileName(p) && p@ == canonical->Ok_0@
            } else {
                e matches Error::ExecFileName(n) && Some(n@) == spec_file_name(canonical->Ok_0@)
            }
        },
{
    let exec_file_path = match canonical {
        Ok(p) => p,
        Err(d) => {
            return Err(Error::Canonicalize(exec_file.to_owned(), d.clone()));
        },
    };
    if !is_file {
        return Err(Error::NotAFile(exec_file_path.clone()));
    }
    let exec_file_name = match file_name(exec_file_path.as_str()) {
        Some(n) => n,
        None => {
            return Err(Error::ExtractFileName(exec_file_path.clone()));
        },
    };
    if !str_contains(exec_file_name.as_str(), "firecracker") {
        return Err(Error::ExecFileName(exec_file_name));
    }
    Ok((exec_file_path.clone(), exec_file_name))
}

/// The command-line values of one jailer invocation, as plain values: each
/// single-valued argument when it was given, each flag, and the repeatable
/// arguments in order.  `extra_args` is the tail after `--`, forwarded to
/// the child verbatim.
#[derive(Debug, Clone, PartialEq, Eq)]
pub struct ArgValues {
    pub id: Option<String>,
    pub exec_file: Option<String>,
    pub uid: Option<String>,
    pub gid: Option<String>,
    pub chroot_base_dir: Option<String>,
    pub netns: Option<String>,
    pub daemonize: bool,
    pub new_pid_ns: bool,
    pub parent_cgroup: Option<String>,
    pub cgroup_version: Option<String>,
    pub cgroups: Vec<String>,
    pub resource_limits: Vec<String>,
    pub macvtaps: Vec<String>,
    pub extra_args: Vec<String>,
}

/// What the filesystem says of the two paths the arguments name: each path
/// canonicalized (or the error text canonicalization produced), and whether
/// the canonical path is a regular file, respectively a directory.
#[derive(Debug, PartialEq, Eq)]
pub struct FsView {
    pub exec_file_canonical: Result<String, String>,
    pub exec_file_is_file: bool,
    pub chroot_base_canonical: Result<String, String>,
    pub chroot_base_is_dir: bool,
}

/// The mathematical content of a built plan.
pub struct EnvV {
    pub id: Seq<char>,
    pub exec_file_path: Seq<char>,
    pub exec_file_name: Seq<char>,
    pub chroot_dir: Seq<char>,
    pub uid: u32,
    pub gid: u32,
    pub netns: Option<Seq<char>>,
    pub daemonize: bool,
    pub new_pid_ns: bool,
    pub start_time_us: u64,
    pub start_time_cpu_us: u64,
    pub jailer_cpu_time_us: u64,
    pub extra_args: Seq<Seq<char>>,
    pub cgroups: Seq<(Seq<char>, Seq<char>)>,
    pub cgroup_version: u8,
    pub resource_limits: ResourceLimits,
    pub macvtaps: Seq<Seq<char>>,
}

/// The immutable execution plan: every validated value one run of the
/// jailer needs, constructed once by `new` and then only read.
#[derive(Debug)]
pub struct Env {
    id: String,
    exec_file_path: String,
    exec_file_name: String,
    chroot_dir: String,
    uid: u32,
    gid: u32,
    netns: Option<String>,
    daemonize: bool,
    new_pid_ns: bool,
    start_time_us: u64,
    start_time_cpu_us: u64,
    jailer_cpu_time_us: u64,
    extra_args: Vec<String>,
    cgroups: Vec<CgroupSpec>,
    cgroup_version: u8,
    resource_limits: ResourceLimits,
    macvtaps: Vec<String>,
}

impl View for Env {
    type V = EnvV;

    closed spec fn view(&self) -> EnvV {
        EnvV {
            id: self.id@,
            exec_file_path: self.exec_file_path@,
            exec_file_name: self.exec_file_name@,
            chroot_dir: self.chroot_dir@,
            uid: self.uid,
            gid: self.gid,
            netns: if self.netns is Some {
                Some(self.netns->0@)
            } else {
                None
            },
            daemonize: self.daemonize,
            new_pid_ns: self.new_pid_ns,
            start_time_us: self.start_time_us,
            start_time_cpu_us: self.start_time_cpu_us,
            jailer_cpu_time_us: self.jailer_cpu_time_us,
            extra_args: self.extra_args.deep_view(),
            cgroups: Seq::new(
                self.cgroups@.len(),
                |i: int| (self.cgroups@[i].file@, self.cgroups@[i].value@),
            ),
            cgroup_version: self.cgroup_version,
            resource_limits: self.resource_limits,
            macvtaps: self.macvtaps.deep_view(),
        }
    }
}

fn clone_string_vec(v: &Vec<String>) -> (r: Vec<String>)
    ensures
        r.deep_view() == v.deep_view(),
{
    let mut r: Vec<String> = Vec::new();
    let n = v.len();
    let mut i: usize = 0;
    while i < n
        invariant
            i <= n,
            n == v@.len(),
            r@.len() == i,
            forall|j: int| 0 <= j < i ==> #[trigger] r@[j]@ == v@[j]@,
        decreases n - i,
    {
        r.push(v[i].clone());
        i = i + 1;
    }
    proof {
        assert(r.deep_view() =~~= v.deep_view());
    }
    r
}


/// The basename of the canonicalized exec file.
pub open spec fn spec_exec_name(fs: FsView) -> Seq<char> {
    spec_file_name(fs.exec_file_canonical->Ok_0@)->0
}

/// The parent cgroup path: the argument when given, else the exec file's
/// basename.
pub open spec fn spec_parent_cgroup(args: ArgValues, fs: FsView) -> Seq<char> {
    if args.parent_cgroup is Some {
        args.parent_cgroup->0@
    } else {
        spec_exec_name(fs)
    }
}

/// Construction succeeds exactly when every validation passes: the id, the
/// exec file (canonical, regular, basename holding `firecracker`), the
/// chroot base (canonical directory), uid and gid, the parent cgroup path,
/// the cgroup version, and every `--cgroup` and `--resource-limit` argument.
pub open spec fn spec_new_ok(args: ArgValues, fs: FsView) -> bool {
    &&& args.id is Some
    &&& spec_instance_id_ok(args.id->0@)
    &&& args.exec_file is Some
    &&& fs.exec_file_canonical is Ok
    &&& fs.exec_file_is_file
    &&& spec_file_name(fs.exec_file_canonical->Ok_0@) is Some
    &&& contains_seq(spec_exec_name(fs), "firecracker"@)
    &&& args.chroot_base_dir is Some
    &&& fs.chroot_base_canonical is Ok
    &&& fs.chroot_base_is_dir
    &&& args.uid is Some
    &&& spec_parse_uint(args.uid->0@, u32::MAX as nat) is Ok
    &&& args.gid is Some
    &&& spec_parse_uint(args.gid->0@, u32::MAX as nat) is Ok
    &&& !has_forbidden_component(spec_parent_cgroup(args, fs))
    &&& args.cgroup_version is Some
    &&& spec_parse_uint(args.cgroup_version->0@, u8::MAX as nat) is Ok
    &&& (args.cgroups@.len() > 0 ==> {
        let ver = spec_parse_uint(args.cgroup_version->0@, u8::MAX as nat)->Ok_0;
        ver == 1 || ver == 2
    })
    &&& spec_cgroups_fail_at(args.cgroups.deep_view()) == args.cgroups@.len()
    &&& spec_reslimits_fail_at(args.resource_limits.deep_view()) == args.resource_limits@.len()
}

/// The error a failed construction yields: the first failing validation in
/// the fixed order decides.
pub open spec fn spec_new_error(args: ArgValues, fs: FsView, e: Error) -> bool {
    if args.id is None {
        e matches Error::ArgumentParsing(m) && m@ == "missing required argument: id"@
    } else if !spec_instance_id_ok(args.id->0@) {
        e == Error::InvalidInstanceId(spec_instance_id_error(args.id->0@))
    } else if args.exec_file is None {
        e matches Error::ArgumentParsing(m) && m@ == "missing required argument: exec-file"@
    } else if fs.exec_file_canonical is Err {
        e matches Error::Canonicalize(p, d) && p@ == args.exec_file->0@ && d@
            == fs.exec_file_canonical->Err_0@
    } else if !fs.exec_file_is_file {
        e matches Error::NotAFile(p) && p@ == fs.exec_file_canonical->Ok_0@
    } else if spec_file_name(fs.exec_file_canonical->Ok_0@) is None {
        e matches Error::ExtractFileName(p) && p@ == fs.exec_file_canonical->Ok_0@
    } else if !contains_seq(spec_exec_name(fs), "firecracker"@) {
        e matches Error::ExecFileName(n) && n@ == spec_exec_name(fs)
    } else if args.chroot_base_dir is None {
        e matches Error::ArgumentParsing(m) && m@ == "missing required argument: chroot-base-dir"@
    } else if fs.chroot_base_canonical is Err {
        e matches Error::Canonicalize(p, d) && p@ == args.chroot_base_dir->0@ && d@
            == fs.chroot_base_canonical->Err_0@
    } else if !fs.chroot_base_is_dir {
        e matches Error::NotADirectory(p) && p@ == fs.chroot_base_canonical->Ok_0@
    } else if args.uid is None {
        e matches Error::ArgumentParsing(m) && m@ == "missing required argument: uid"@
    } else if spec_parse_uint(args.uid->0@, u32::MAX as nat) is Err {
        e matches Error::Uid(m) && m@ == args.uid->0@
    } else if args.gid is None {
        e matches Error::ArgumentParsing(m) && m@ == "missing required argument: gid"@
    } else if spec_parse_uint(args.gid->0@, u32::MAX as nat) is Err {
        e matches Error::Gid(m) && m@ == args.gid->0@
    } else if has_forbidden_component(spec_parent_cgroup(args, fs)) {
        e == Error::CgroupInvalidParentPath
    } else if args.cgroup_version is None {
        e matches Error::ArgumentParsing(m) && m@
            == "missing required argument: cgroup-version"@
    } else if spec_parse_uint(args.cgroup_version->0@, u8::MAX as nat) is Err {
        e matches Error::CgroupInvalidVersion(m) && m@ == args.cgroup_version->0@
    } else if args.cgroups@.len() > 0 && spec_parse_uint(args.cgroup_version->0@, u8::MAX as nat)->Ok_0
        != 1 && spec_parse_uint(args.cgroup_version->0@, u8::MAX as nat)->Ok_0 != 2 {
        e matches Error::CgroupInvalidVersion(m) && m@ == spec_decimal(
            spec_parse_uint(args.cgroup_version->0@, u8::MAX as nat)->Ok_0,
        )
    } else if spec_cgroups_fail_at(args.cgroups.deep_view()) < args.cgroups@.len() {
        spec_cgroup_arg_err(
            args.cgroups.deep_view()[spec_cgroups_fail_at(args.cgroups.deep_view())],
            e,
        )
    } else if spec_reslimits_fail_at(args.resource_limits.deep_view())
        < args.resource_limits@.len() {
        spec_reslimit_arg_err(
            args.resource_limits.deep_view()[spec_reslimits_fail_at(
                args.resource_limits.deep_view(),
            )],
            e,
        )
    } else {
        false
    }
}

/// The content of a successfully built plan, field by field.
pub open spec fn spec_env_built(
    v: EnvV,
    args: ArgValues,
    fs: FsView,
    start_time_us: u64,
    start_time_cpu_us: u64,
) -> bool {
    &&& v.id == args.id->0@
    &&& v.exec_file_path == fs.exec_file_canonical->Ok_0@
    &&& v.exec_file_name == spec_exec_name(fs)
    &&& v.chroot_dir == spec_path_join(
        spec_path_join(
            spec_path_join(fs.chroot_base_canonical->Ok_0@, spec_exec_name(fs)),
            args.id->0@,
        ),
        "root"@,
    )
    &&& v.uid as nat == spec_parse_uint(args.uid->0@, u32::MAX as nat)->Ok_0
    &&& v.gid as nat == spec_parse_uint(args.gid->0@, u32::MAX as nat)->Ok_0
    &&& v.netns == (if args.netns is Some {
        Some(args.netns->0@)
    } else {
        None::<Seq<char>>
    })
    &&& v.daemonize == args.daemonize
    &&& v.new_pid_ns == args.new_pid_ns
    &&& v.start_time_us == start_time_us
    &&& v.start_time_cpu_us == start_time_cpu_us
    &&& v.jailer_cpu_time_us == 0
    &&& v.extra_args == args.extra_args.deep_view()
    &&& v.cgroups == spec_cgroup_values(args.cgroups.deep_view())
    &&& v.cgroup_version as nat == spec_parse_uint(args.cgroup_version->0@, u8::MAX as nat)->Ok_0
    &&& v.resource_limits == spec_reslimits_value(
        ResourceLimits { file_size: None, no_file: None },
        args.resource_limits.deep_view(),
    )
    &&& v.macvtaps == args.macvtaps.deep_view()
}

impl Env {
    /// Build the execution plan from the command-line values and what the
    /// filesystem said of the paths they name.  Every validation happens
    /// here, in a fixed order; the first failure is returned.
    pub fn new(
        args: &ArgValues,
        fs: &FsView,
        start_time_us: u64,
        start_time_cpu_us: u64,
    ) -> (r: Result<Env, Error>)
        ensures
            r is Ok <==> spec_new_ok(*args, *fs),
            r matches Ok(env) ==> spec_env_built(env@, *args, *fs, start_time_us, start_time_cpu_us),
            r matches Err(e) ==> spec_new_error(*args, *fs, e),
    {
        let id = match &args.id {
            Some(s) => s,
            None => {
                return Err(Error::ArgumentParsing("missing required argument: id".to_owned()));
            },
        };
        match validate_instance_id(id.as_str()) {
            Ok(()) => (),
            Err(e) => {
                return Err(e);
            },
        }
        let exec_file = match &args.exec_file {
            Some(s) => s,
            None => {
                return Err(
                    Error::ArgumentParsing("missing required argument: exec-file".to_owned()),
                );
            },
        };
        let (exec_file_path, exec_file_name) = match validate_exec_file(
            exec_file.as_str(),
            &fs.exec_file_canonical,
            fs.exec_file_is_file,
        ) {
            Ok(p) => p,
            Err(e) => {
                return Err(e);
            },
        };
        let chroot_base = match &args.chroot_base_dir {
            Some(s) => s,
            None => {
                return Err(
                    Error::ArgumentParsing("missing required argument: chroot-base-dir".to_owned()),
                );
            },
        };
        let chroot_base_canonical = match &fs.chroot_base_canonical {
            Ok(p) => p,
            Err(d) => {
                return Err(Error::Canonicalize(chroot_base.clone(), d.clone()));
            },
        };
        if !fs.chroot_base_is_dir {
            return Err(Error::NotADirectory(chroot_base_canonical.clone()));
        }
        let with_name = path_join(chroot_base_canonical.as_str(), exec_file_name.as_str());
        let with_id = path_join(with_name.as_str(), id.as_str());
        let chroot_dir = path_join(with_id.as_str(), "root");
        let uid_str = match &args.uid {
            Some(s) => s,
            None => {
                return Err(Error::ArgumentParsing("missing required argument: uid".to_owned()));
            },
        };
        let uid = match parse_u32(uid_str.as_str()) {
            Ok(v) => v,
            Err(_) => {
                return Err(Error::Uid(uid_str.clone()));
            },
        };
        let gid_str = match &args.gid {
            Some(s) => s,
            None => {
                return Err(Error::ArgumentParsing("missing required argument: gid".to_owned()));
            },
        };
        let gid = match parse_u32(gid_str.as_str()) {
            Ok(v) => v,
            Err(_) => {
                return Err(Error::Gid(gid_str.clone()));
            },
        };
        let netns = match &args.netns {
            Some(s) => Some(s.clone()),
            None => None,
        };
        let parent_cgroup = match &args.parent_cgroup {
            Some(s) => s.clone(),
            None => exec_file_name.clone(),
        };
        if forbidden_component(parent_cgroup.as_str()) {
            return Err(Error::CgroupInvalidParentPath);
        }
        let ver_str = match &args.cgroup_version {
            Some(s) => s,
            None => {
                return Err(
                    Error::ArgumentParsing("missing required argument: cgroup-version".to_owned()),
                );
            },
        };
        let cgroup_version = match parse_u8(ver_str.as_str()) {
            Ok(v) => v,
            Err(_) => {
                return Err(Error::CgroupInvalidVersion(ver_str.clone()));
            },
        };
        if args.cgroups.len() > 0 && cgroup_version != 1 && cgroup_version != 2 {
            return Err(Error::CgroupInvalidVersion(u64_to_string(cgroup_version as u64)));
        }
        let cgroups = match parse_cgroup_args(&args.cgroups) {
            Ok(v) => v,
            Err(e) => {
                return Err(e);
            },
        };
        let mut resource_limits = ResourceLimits::default();
        match Env::parse_resource_limits(&mut resource_limits, &args.resource_limits) {
            Ok(()) => (),
            Err(e) => {
                return Err(e);
            },
        }
        let env = Env {
            id: id.clone(),
            exec_file_path,
            exec_file_name,
            chroot_dir,
            uid,
            gid,
            netns,
            daemonize: args.daemonize,
            new_pid_ns: args.new_pid_ns,
            start_time_us,
            start_time_cpu_us,
            jailer_cpu_time_us: 0,
            extra_args: clone_string_vec(&args.extra_args),
            cgroups,
            cgroup_version,
            resource_limits,
            macvtaps: clone_string_vec(&args.macvtaps),
        };
        proof {
            assert(env@.cgroups =~= spec_cgroup_values(args.cgroups.deep_view()));
        }
        Ok(env)
    }

    /// Apply each `--resource-limit` argument, in order, to the limits.
    /// Rejection reports the first failing argument; the arguments before it
    /// have been applied.
    pub fn parse_resource_limits(
        resource_limits: &mut ResourceLimits,
        args: &Vec<String>,
    ) -> (r: Result<(), Error>)
        ensures
            r is Ok <==> spec_reslimits_fail_at(args.deep_view()) == args.deep_view().len(),
            r is Ok ==> *final(resource_limits) == spec_reslimits_value(
                *old(resource_limits),
                args.deep_view(),
            ),
            r matches Err(e) ==> {
                let list = args.deep_view();
                let i = spec_reslimits_fail_at(list);
                &&& i < list.len()
                &&& spec_reslimit_arg_err(list[i], e)
                &&& *final(resource_limits) == spec_reslimits_value(
                    *old(resource_limits),
                    list.take(i),
                )
            },
    {
        let ghost list = args.deep_view();
        let ghost init = *resource_limits;
        let n = args.len();
        let mut i: usize = 0;
        while i < n
            invariant
                i <= n,
                n == args@.len(),
                list == args.deep_view(),
                init == *old(resource_limits),
                forall|j: int| 0 <= j < i ==> spec_reslimit_arg_ok(#[trigger] list[j]),
                *resource_limits == spec_reslimits_value(init, list.take(i as int)),
            decreases n - i,
        {
            proof {
                assert(list[i as int] == args@[i as int]@);
            }
            let arg = &args[i];
            let len = arg.as_str().unicode_len();
            let eq = find_char(arg.as_str(), '=');
            if eq == len {
                proof {
                    lemma_reslimits_fail_at(list, i as int);
                }
                return Err(Error::ResLimitFormat(arg.clone()));
            }
            let name = arg.as_str().substring_char(0, eq).to_owned();
            let value = arg.as_str().substring_char(eq + 1, len).to_owned();
            proof {
                assert(name@ == spec_reslimit_name(list[i as int]));
                assert(value@ == spec_reslimit_value(list[i as int]));
            }
            let limit = match parse_u64(value.as_str()) {
                Ok(v) => v,
                Err(pe) => {
                    proof {
                        lemma_reslimits_fail_at(list, i as int);
                    }
                    let detail = pe.message();
                    return Err(Error::ResLimitValue(value, detail));
                },
            };
            if str_eq(name.as_str(), "fsize") {
                resource_limits.set_file_size(limit);
            } else if str_eq(name.as_str(), "no-file") {
                resource_limits.set_no_file(limit);
            } else {
                proof {
                    lemma_reslimits_fail_at(list, i as int);
                }
                return Err(Error::ResLimitArgument(name));
            }
            proof {
                assert(list.take(i + 1).drop_last() =~= list.take(i as int));
                lemma_reslimits_value_push(init, list.take(i as int), list[i as int]);
                assert(list.take(i + 1) =~= list.take(i as int).push(list[i as int]));
            }
            i = i + 1;
        }
        proof {
            assert(list.take(n as int) =~= list);
            lemma_reslimits_fail_at(list, n as int);
        }
        Ok(())
    }

    /// The jail's root directory:
    /// `<canonical chroot base>/<exec basename>/<id>/root`.
    pub fn chroot_dir(&self) -> (r: &str)
        ensures
            r@ == self@.chroot_dir,
    {
        self.chroot_dir.as_str()
    }

    /// The group the jailed process runs as.
    pub fn gid(&self) -> (r: u32)
        ensures
            r == self@.gid,
    {
        self.gid
    }

    /// The user the jailed process runs as.
    pub fn uid(&self) -> (r: u32)
        ensures
            r == self@.uid,
    {
        self.uid
    }

    /// The instance identifier.
    pub fn id(&self) -> (r: &str)
        ensures
            r@ == self@.id,
    {
        self.id.as_str()
    }

    /// The canonical path of the exec file on the host.
    pub fn exec_file_path(&self) -> (r: &str)
        ensures
            r@ == self@.exec_file_path,
    {
        self.exec_file_path.as_str()
    }

    /// The exec file's basename.
    pub fn exec_file_name(&self) -> (r: &str)
        ensures
            r@ == self@.exec_file_name,
    {
        self.exec_file_name.as_str()
    }

    /// The network-namespace path to join, when one was given.
    pub fn netns(&self) -> (r: &Option<String>)
        ensures
            r is Some <==> self@.netns is Some,
            r matches Some(s) ==> self@.netns == Some(s@),
    {
        &self.netns
    }

    /// Whether stdio is redirected to `/dev/null` before exec.
    pub fn daemonize(&self) -> (r: bool)
        ensures
            r == self@.daemonize,
    {
        self.daemonize
    }

    /// Whether the exec happens in a new PID namespace.
    pub fn new_pid_ns(&self) -> (r: bool)
        ensures
            r == self@.new_pid_ns,
    {
        self.new_pid_ns
    }

    /// The validated `--cgroup` pairs, in argument order.
    pub fn cgroups(&self) -> (r: &Vec<CgroupSpec>)
        ensures
            r@.len() == self@.cgroups.len(),
            forall|j: int|
                0 <= j < r@.len() ==> (#[trigger] r@[j].file@, r@[j].value@) == self@.cgroups[j],
    {
        &self.cgroups
    }

    /// The cgroup hierarchy version the command line selected.
    pub fn cgroup_version(&self) -> (r: u8)
        ensures
            r == self@.cgroup_version,
    {
        self.cgroup_version
    }

    /// The resource limits to install.
    pub fn resource_limits(&self) -> (r: &ResourceLimits)
        ensures
            *r == self@.resource_limits,
    {
        &self.resource_limits
    }

    /// The MACVTAP interface names to expose inside the jail, in order.
    pub fn macvtaps(&self) -> (r: &Vec<String>)
        ensures
            r.deep_view() == self@.macvtaps,
    {
        &self.macvtaps
    }

    /// The arguments after `--`, forwarded to the child verbatim.
    pub fn extra_args(&self) -> (r: &Vec<String>)
        ensures
            r.deep_view() == self@.extra_args,
    {
        &self.extra_args
    }

    /// The wall-clock start time handed in at construction, in microseconds.
    pub fn start_time_us(&self) -> (r: u64)
        ensures
            r == self@.start_time_us,
    {
        self.start_time_us
    }

    /// The process CPU start time handed in at construction, in microseconds.
    pub fn start_time_cpu_us(&self) -> (r: u64)
        ensures
            r == self@.start_time_cpu_us,
    {
        self.start_time_cpu_us
    }
}


proof fn lemma_cgroups_fail_at_le(list: Seq<Seq<char>>, i: int)
    requires
        0 <= i < list.len(),
        !spec_cgroup_arg_ok(list[i]),
    ensures
        spec_cgroups_fail_at(list) <= i,
    decreases list.len(),
{
    if !spec_cgroup_arg_ok(list[0]) {
    } else {
        lemma_cgroups_fail_at_le(list.drop_first(), i - 1);
    }
}

/// No plan is built over a forbidden path: when the parent-cgroup path, or
/// the file of any `--cgroup` argument, holds a `.` or `..` component or an
/// absolute root, construction fails.
pub proof fn lemma_forbidden_cgroup_paths_rejected(args: ArgValues, fs: FsView, i: int)
    requires
        has_forbidden_component(spec_parent_cgroup(args, fs)) || (0 <= i < args.cgroups@.len()
            && has_forbidden_component(spec_cgroup_file(args.cgroups.deep_view()[i]))),
    ensures
        !spec_new_ok(args, fs),
{
    if has_forbidden_component(spec_parent_cgroup(args, fs)) {
    } else {
        let list = args.cgroups.deep_view();
        assert(!spec_cgroup_arg_ok(list[i]));
        lemma_cgroups_fail_at_le(list, i);
    }
}

} // verus!
