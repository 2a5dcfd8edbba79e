//! A verified core for a Linux process jailer.
//!
//! The library validates the jailer's command-line values into an immutable
//! execution plan, lays out the ordered sequence of privileged steps that
//! prepare the jail (cgroups, namespaces, chroot, device nodes, exec), and
//! models the TAP/MACVTAP interface-name handling.  Everything that touches
//! the kernel (syscalls, ioctls, file I/O) lives in the surrounding binary,
//! which feeds this library plain values and interprets the plan it returns.

pub mod env;
pub mod error;
pub mod num;
pub mod paths;
pub mod plan;
pub mod tap;
