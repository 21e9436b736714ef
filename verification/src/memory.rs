//! Plain values that cross the boundary to the host: addresses, value kinds,
//! timelines, and the status words that a scan or a copy hands back.

use vstd::prelude::*;

verus! {

/// An address in the observed process.
#[derive(Debug, Copy, Clone, PartialEq, Eq, Structural)]
pub struct Address(pub u64);

/// The primitive type that a pointer path leads to.
#[derive(Debug, Copy, Clone, PartialEq, Eq, Structural)]
pub enum PointerKind {
    U8,
    U16,
    U32,
    U64,
    I8,
    I16,
    I32,
    I64,
    F32,
    F64,
    String,
}

/// Which of the two retained snapshots a read refers to.
#[derive(Debug, Copy, Clone, PartialEq, Eq, Structural)]
pub enum State {
    Old,
    Current,
}

/// A record type whose values can be materialised as a (current, old) pair.
pub trait ASLState: Sized {
    fn get() -> (Self, Self);
}

impl PointerKind {
    /// The number by which the host knows this kind.
    pub open spec fn spec_code(self) -> u8 {
        match self {
            PointerKind::U8 => 0,
            PointerKind::U16 => 1,
            PointerKind::U32 => 2,
            PointerKind::U64 => 3,
            PointerKind::I8 => 4,
            PointerKind::I16 => 5,
            PointerKind::I32 => 6,
            PointerKind::I64 => 7,
            PointerKind::F32 => 8,
            PointerKind::F64 => 9,
            PointerKind::String => 10,
        }
    }

    /// The number by which the host knows this kind.
    pub fn code(self) -> (c: u8)
        ensures
            c == self.spec_code(),
    {
        match self {
            PointerKind::U8 => 0,
            PointerKind::U16 => 1,
            PointerKind::U32 => 2,
            PointerKind::U64 => 3,
            PointerKind::I8 => 4,
            PointerKind::I16 => 5,
            PointerKind::I32 => 6,
            PointerKind::I64 => 7,
            PointerKind::F32 => 8,
            PointerKind::F64 => 9,
            PointerKind::String => 10,
        }
    }
}

impl State {
    /// The number by which the host knows this timeline.
    pub open spec fn spec_code(self) -> u8 {
        match self {
            State::Old => 0,
            State::Current => 1,
        }
    }

    /// The number by which the host knows this timeline.
    pub fn code(self) -> (c: u8)
        ensures
            c == self.spec_code(),
    {
        match self {
            State::Old => 0,
            State::Current => 1,
        }
    }
}

/// What a signature scan found, given the raw address the host returned:
/// the host reports "no match" as address zero.
pub open spec fn spec_scan_signature(raw: Address) -> Option<Address> {
    if raw.0 == 0 {
        None
    } else {
        Some(raw)
    }
}

/// Decodes the raw address that the host's signature scan returned.
pub fn scan_signature(raw: Address) -> (found: Option<Address>)
    ensures
        found == spec_scan_signature(raw),
{
    if raw.0 == 0 {
        None
    } else {
        Some(raw)
    }
}

/// Decodes the status byte of a byte copy: zero means that nothing was copied.
pub fn read_into_buf(status: u8) -> (r: Result<(), ()>)
    ensures
        r == (if status != 0 { Ok::<(), ()>(()) } else { Err::<(), ()>(()) }),
{
    if status != 0 {
        Ok(())
    } else {
        Err(())
    }
}

/// Pairs the status byte of a byte copy with the value that the copy filled:
/// the value counts only where the copy succeeded.
pub fn read_val<T>(status: u8, val: T) -> (r: Result<T, ()>)
    ensures
        r == (if status != 0 { Ok::<T, ()>(val) } else { Err::<T, ()>(()) }),
{
    if status != 0 {
        Ok(val)
    } else {
        Err(())
    }
}

/// Whether the diagnostic sink must be installed now. The sink is installed
/// once: the first call sets the flag and answers `true`, every later call
/// leaves it set and answers `false`.
pub fn init_log(installed: &mut bool) -> (install: bool)
    ensures
        *final(installed),
        install == !*old(installed),
{
    let install = !*installed;
    *installed = true;
    install
}

} // verus!
