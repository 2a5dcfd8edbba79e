//! The TAP/MACVTAP device handle's name handling.
//!
//! A TAP handle pairs a raw file descriptor with the interface name the
//! kernel settled on, stored as a 16-byte NUL-padded buffer.  Opening the
//! device node and issuing the ioctls is the binary's work; this module
//! verifies the name rules: a requested name must be strictly shorter than
//! the buffer, the stored buffer is NUL-padded to exactly the buffer length,
//! and reading the name back takes what stands before the first NUL.

use vstd::prelude::*;

use vstd::utf8::decode_utf8;
use vstd::utf8::encode_utf8;
use vstd::utf8::valid_utf8;

use crate::paths::bytes_to_string;

verus! {

/// The kernel's bound on interface names, terminator included.
pub const IFACE_NAME_MAX_LEN: usize = 16;

/// The `IFF_TAP` interface flag: a layer-2 TAP device.
pub const IFF_TAP: u32 = 0x0002;

/// The `IFF_NO_PI` interface flag: no packet-information prefix.
pub const IFF_NO_PI: u32 = 0x1000;

/// The `IFF_VNET_HDR` interface flag: frames carry a virtio-net header.
pub const IFF_VNET_HDR: u32 = 0x4000;

/// Every failure of acquiring or configuring a TAP handle.  The variants
/// carrying an integer hold the operating-system errno the binary observed.
#[derive(Debug, Clone, PartialEq, Eq)]
pub enum Error {
    /// Unable to create the tap interface.
    CreateTap(i32),
    /// The interface name does not fit the 16-byte buffer.
    InvalidIfname,
    /// The device node is not a character device.
    InvalidTapDevType,
    /// An ioctl on the handle failed.
    IoctlError(i32),
    /// The interface's device node could not be opened.
    OpenTapDev(i32),
    /// `/dev/net/tun` could not be opened.
    OpenTun(i32),
    /// The interface's device node could not be stat'ed.
    StatTapDev(i32),
}

pub type Result<T> = core::result::Result<T, Error>;

/// The name's bytes padded with NUL to the full buffer length.
pub open spec fn spec_terminated_if_name(name: Seq<char>) -> Seq<u8> {
    encode_utf8(name) + Seq::new((16 - encode_utf8(name).len()) as nat, |i: int| 0u8)
}

/// The 16-byte NUL-padded buffer holding `if_name`, as `TUNSETIFF` takes it.
/// Rejected exactly when the name's bytes fill or exceed the buffer.
pub fn build_terminated_if_name(if_name: &str) -> (r: Result<Vec<u8>>)
    ensures
        r matches Ok(v) ==> {
            &&& encode_utf8(if_name@).len() < 16
            &&& v@.len() == 16
            &&& v@ == spec_terminated_if_name(if_name@)
        },
        r matches Err(e) ==> e == Error::InvalidIfname && encode_utf8(if_name@).len() >= 16,
{
    let mut bytes = name_bytes(if_name);
    if bytes.len() >= IFACE_NAME_MAX_LEN {
        return Err(Error::InvalidIfname);
    }
    let ghost name_len = bytes@.len();
    while bytes.len() < IFACE_NAME_MAX_LEN
        invariant
            name_len <= bytes@.len() <= 16,
            bytes@ == encode_utf8(if_name@) + Seq::new(
                (bytes@.len() - name_len) as nat,
                |i: int| 0u8,
            ),
        decreases 16 - bytes@.len(),
    {
        bytes.push(0);
        proof {
            assert(bytes@ =~= encode_utf8(if_name@) + Seq::new(
                (bytes@.len() - name_len) as nat,
                |i: int| 0u8,
            ));
        }
    }
    proof {
        assert(bytes@ =~= spec_terminated_if_name(if_name@));
    }
    Ok(bytes)
}

fn name_bytes(s: &str) -> (r: Vec<u8>)
    ensures
        r@ == encode_utf8(s@),
{
    s.as_bytes_vec()
}

/// The position of the first NUL byte, or the length when there is none.
pub open spec fn first_nul(bytes: Seq<u8>) -> int
    decreases bytes.len(),
{
    if bytes.len() == 0 {
        0
    } else if bytes[0] == 0u8 {
        0
    } else {
        1 + first_nul(bytes.drop_first())
    }
}

proof fn lemma_first_nul(bytes: Seq<u8>, i: int)
    requires
        0 <= i <= bytes.len(),
        forall|k: int| 0 <= k < i ==> bytes[k] != 0u8,
        i < bytes.len() ==> bytes[i] == 0u8,
    ensures
        first_nul(bytes) == i,
    decreases bytes.len(),
{
    if bytes.len() == 0 {
    } else if bytes[0] == 0u8 {
    } else {
        lemma_first_nul(bytes.drop_first(), i - 1);
    }
}

/// The name held by a NUL-padded buffer: the bytes before the first NUL,
/// decoded as UTF-8, or empty when they do not decode.
pub open spec fn spec_if_name_str(bytes: Seq<u8>) -> Seq<char> {
    let prefix = bytes.take(first_nul(bytes));
    if valid_utf8(prefix) {
        decode_utf8(prefix)
    } else {
        Seq::empty()
    }
}


/// A name accepted for the buffer survives the round trip: padding it with
/// NUL to the buffer length and reading the buffer back yields the name,
/// whenever the name holds no NUL character.
pub proof fn lemma_tap_name_round_trip(name: Seq<char>)
    requires
        !name.contains('\0'),
        encode_utf8(name).len() < 16,
    ensures
        spec_if_name_str(spec_terminated_if_name(name)) == name,
{
    broadcast use vstd::utf8::encode_utf8_valid_utf8;
    broadcast use vstd::utf8::encode_utf8_decode_utf8;

    let enc = encode_utf8(name);
    let buf = spec_terminated_if_name(name);
    crate::paths::lemma_encode_utf8_nul(name);
    assert forall|k: int| 0 <= k < enc.len() implies buf[k] != 0u8 by {
        if buf[k] == 0u8 {
            assert(enc[k] == 0u8);
            assert(enc.contains(0u8));
        }
    }
    assert(buf[enc.len() as int] == 0u8);
    lemma_first_nul(buf, enc.len() as int);
    assert(buf.take(first_nul(buf)) =~= enc);
}

/// Handle for a network tap interface: the raw descriptor of the opened
/// device node, and the interface name the kernel canonicalized, NUL-padded.
/// The binary that opened the descriptor owns and eventually closes it.
#[derive(Debug)]
pub struct Tap {
    fd: i32,
    if_name: Vec<u8>,
}

impl Tap {
    /// The descriptor the handle was built over.
    pub closed spec fn spec_fd(&self) -> i32 {
        self.fd
    }

    /// The stored NUL-padded name buffer.
    pub closed spec fn spec_if_name(&self) -> Seq<u8> {
        self.if_name@
    }

    /// A handle for a device opened under a requested name (the MACVTAP
    /// path): the stored buffer is the NUL-padded name.  Rejected exactly
    /// when the name does not fit the buffer.
    pub fn new_named(fd: i32, if_name: &str) -> (r: Result<Tap>)
        ensures
            r matches Ok(t) ==> {
                &&& t.spec_fd() == fd
                &&& encode_utf8(if_name@).len() < 16
                &&& t.spec_if_name() == spec_terminated_if_name(if_name@)
            },
            r matches Err(e) ==> e == Error::InvalidIfname && encode_utf8(if_name@).len() >= 16,
    {
        let bytes = build_terminated_if_name(if_name)?;
        Ok(Tap { fd, if_name: bytes })
    }

    /// A handle whose name buffer the kernel filled in (the `TUNSETIFF`
    /// path): the buffer is the full 16 bytes of the request structure and
    /// is stored as returned.
    pub fn from_kernel(fd: i32, if_name: Vec<u8>) -> (r: Tap)
        requires
            if_name@.len() == 16,
        ensures
            r.spec_fd() == fd,
            r.spec_if_name() == if_name@,
    {
        Tap { fd, if_name }
    }

    /// The raw descriptor of the device node.
    pub fn as_raw_fd(&self) -> (r: i32)
        ensures
            r == self.spec_fd(),
    {
        self.fd
    }

    /// The stored NUL-padded name buffer.
    pub fn if_name_bytes(&self) -> (r: &Vec<u8>)
        ensures
            r@ == self.spec_if_name(),
    {
        &self.if_name
    }

    /// The interface name: what stands before the first NUL of the buffer.
    pub fn if_name_as_str(&self) -> (r: String)
        ensures
            r@ == spec_if_name_str(self.spec_if_name()),
    {
        let n = self.if_name.len();
        let mut i: usize = 0;
        while i < n && self.if_name[i] != 0
            invariant
                i <= n,
                n == self.if_name@.len(),
                forall|k: int| 0 <= k < i ==> self.if_name@[k] != 0u8,
            decreases n - i,
        {
            i = i + 1;
        }
        proof {
            lemma_first_nul(self.if_name@, i as int);
        }
        let mut prefix: Vec<u8> = Vec::new();
        let mut k: usize = 0;
        while k < i
            invariant
                k <= i <= n,
                n == self.if_name@.len(),
                prefix@ == self.if_name@.take(k as int),
            decreases i - k,
        {
            prefix.push(self.if_name[k]);
            proof {
                assert(prefix@ =~= self.if_name@.take(k + 1));
            }
            k = k + 1;
        }
        match bytes_to_string(&prefix) {
            Some(s) => s,
            None => {
                proof {
                    reveal_strlit("");
                    assert(""@ =~= Seq::<char>::empty());
                }
                "".to_owned()
            },
        }
    }
}

} // verus!
