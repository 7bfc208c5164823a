//! Sizes in bytes and the binary unit in which each is shown.

use vstd::prelude::*;

verus! {

/// 2^10 bytes.
pub const KILOBYTE: u64 = 1024;

/// 2^20 bytes.
pub const MEGABYTE: u64 = 1_048_576;

/// 2^30 bytes.
pub const GIGABYTE: u64 = 1_073_741_824;

/// 2^40 bytes, above which sizes are shown in the largest unit.
pub const PETABYTE: u64 = 1_099_511_627_776;

/// A size in bytes.
pub struct Bytes(pub usize);

/// The unit in which a size is shown.
#[derive(Clone, Copy, Debug, PartialEq, Eq, Structural)]
pub enum ByteUnit {
    /// The size is zero and is shown as a bare `0`.
    Zero,
    Bytes,
    KiB,
    MiB,
    GiB,
    PiB,
}

impl ByteUnit {
    /// How many bytes one of this unit holds.
    pub open spec fn scale(self) -> int {
        match self {
            ByteUnit::Zero => 1,
            ByteUnit::Bytes => 1,
            ByteUnit::KiB => KILOBYTE as int,
            ByteUnit::MiB => MEGABYTE as int,
            ByteUnit::GiB => GIGABYTE as int,
            ByteUnit::PiB => PETABYTE as int,
        }
    }

    /// How many bytes one of this unit holds.
    pub fn divisor(self) -> (d: u64)
        ensures
            d == self.scale(),
            d >= 1,
    {
        match self {
            ByteUnit::Zero => 1,
            ByteUnit::Bytes => 1,
            ByteUnit::KiB => KILOBYTE,
            ByteUnit::MiB => MEGABYTE,
            ByteUnit::GiB => GIGABYTE,
            ByteUnit::PiB => PETABYTE,
        }
    }

    /// The suffix that follows the number, with its leading space.
    pub fn suffix(self) -> (s: &'static str)
        ensures
            s@ == match self {
                ByteUnit::Zero => ""@,
                ByteUnit::Bytes => " bytes"@,
                ByteUnit::KiB => " KiB"@,
                ByteUnit::MiB => " MiB"@,
                ByteUnit::GiB => " GiB"@,
                ByteUnit::PiB => " PiB"@,
            },
    {
        match self {
            ByteUnit::Zero => "",
            ByteUnit::Bytes => " bytes",
            ByteUnit::KiB => " KiB",
            ByteUnit::MiB => " MiB",
            ByteUnit::GiB => " GiB",
            ByteUnit::PiB => " PiB",
        }
    }
}

/// The unit for a size of `n` bytes: the largest whose threshold `n` reaches.
pub open spec fn unit_of(n: int) -> ByteUnit {
    if n == 0 {
        ByteUnit::Zero
    } else if n < KILOBYTE {
        ByteUnit::Bytes
    } else if n < MEGABYTE {
        ByteUnit::KiB
    } else if n < GIGABYTE {
        ByteUnit::MiB
    } else if n < PETABYTE {
        ByteUnit::GiB
    } else {
        ByteUnit::PiB
    }
}

impl Bytes {
    /// The unit in which this size is shown.
    pub fn unit(&self) -> (u: ByteUnit)
        ensures
            u == unit_of(self.0 as int),
            u.scale() <= self.0 || self.0 == 0,
    {
        let n: u64 = self.0 as u64;
        if n == 0 {
            ByteUnit::Zero
        } else if n < KILOBYTE {
            ByteUnit::Bytes
        } else if n < MEGABYTE {
            ByteUnit::KiB
        } else if n < GIGABYTE {
            ByteUnit::MiB
        } else if n < PETABYTE {
            ByteUnit::GiB
        } else {
            ByteUnit::PiB
        }
    }
}

} // verus!
