//! Network traffic information and the units it is displayed in.

use vstd::prelude::*;
use vstd::arithmetic::div_mod::lemma_div_is_ordered;
use vstd::arithmetic::mul::lemma_mul_inequality;

verus! {

/// One binary kilobyte.
pub const KIB: u64 = 1024;

/// One binary megabyte.
pub const MIB: u64 = 1048576;

/// One binary gigabyte.
pub const GIB: u64 = 1073741824;

/// One binary terabyte.
pub const TIB: u64 = 1099511627776;

/// Network traffic at one instant: cumulative byte counters and the
/// throughput, in whole bytes per second, computed against the previous
/// instant (zero when there is none).
#[derive(Clone, Copy, Debug, PartialEq, Eq, Structural)]
pub struct NetworkInfo {
    /// Bytes per second received.
    pub download_speed: u64,
    /// Bytes per second transmitted.
    pub upload_speed: u64,
    /// Total bytes received since the counters started.
    pub total_received: u64,
    /// Total bytes transmitted since the counters started.
    pub total_transmitted: u64,
}

/// The unit a byte count or byte rate is displayed in.
#[derive(Clone, Copy, Debug, PartialEq, Eq, Structural)]
pub enum ByteUnit {
    B,
    KB,
    MB,
    GB,
    TB,
}

/// How many bytes one step of the unit holds.
pub open spec fn unit_divisor(u: ByteUnit) -> u64 {
    match u {
        ByteUnit::B => 1,
        ByteUnit::KB => KIB,
        ByteUnit::MB => MIB,
        ByteUnit::GB => GIB,
        ByteUnit::TB => TIB,
    }
}

/// The unit a speed is displayed in: the largest of B, KB, MB and GB whose
/// divisor the value reaches.
pub open spec fn speed_unit_of(bytes_per_sec: u64) -> ByteUnit {
    if bytes_per_sec >= GIB {
        ByteUnit::GB
    } else if bytes_per_sec >= MIB {
        ByteUnit::MB
    } else if bytes_per_sec >= KIB {
        ByteUnit::KB
    } else {
        ByteUnit::B
    }
}

/// The unit a byte total is displayed in: as for speeds, with TB above GB.
pub open spec fn byte_unit_of(bytes: u64) -> ByteUnit {
    if bytes >= TIB {
        ByteUnit::TB
    } else if bytes >= GIB {
        ByteUnit::GB
    } else if bytes >= MIB {
        ByteUnit::MB
    } else if bytes >= KIB {
        ByteUnit::KB
    } else {
        ByteUnit::B
    }
}

/// A value scaled to hundredths of the given unit, rounded down: two fixed
/// decimal places for display.
pub open spec fn scaled_hundredths(bytes: u64, u: ByteUnit) -> int {
    bytes * 100 / (unit_divisor(u) as int)
}

fn scale_to_hundredths(bytes: u64, div: u64) -> (r: u64)
    requires
        1 <= div,
        bytes * 100 / (div as int) <= u64::MAX,
    ensures
        r == bytes * 100 / (div as int),
{
    let wide: u128 = (bytes as u128) * 100 / (div as u128);
    wide as u64
}

proof fn lemma_scale_fits(bytes: u64, div: u64)
    requires
        KIB <= div,
    ensures
        bytes * 100 / (div as int) <= u64::MAX,
{
    lemma_mul_inequality(bytes as int, u64::MAX as int, 100);
    lemma_div_is_ordered(bytes * 100, u64::MAX * 100, div as int);
    lemma_div_is_ordered(u64::MAX * 100, u64::MAX * 1024, div as int);
    vstd::arithmetic::div_mod::lemma_div_is_ordered_by_denominator(
        u64::MAX * 1024,
        1024,
        div as int,
    );
    vstd::arithmetic::div_mod::lemma_div_multiples_vanish(u64::MAX as int, 1024);
}

impl NetworkInfo {
    /// Put together the traffic record from its four values.
    pub fn new(download_speed: u64, upload_speed: u64, total_received: u64, total_transmitted: u64) -> (r: Self)
        ensures
            r == (NetworkInfo { download_speed, upload_speed, total_received, total_transmitted }),
    {
        NetworkInfo { download_speed, upload_speed, total_received, total_transmitted }
    }

    /// Scale a speed for display: the value in hundredths of the chosen
    /// unit (two fixed decimal places) and the unit, the largest of B/s,
    /// KB/s, MB/s and GB/s that the speed reaches.
    pub fn format_speed(bytes_per_sec: u64) -> (r: (u64, ByteUnit))
        ensures
            r.1 == speed_unit_of(bytes_per_sec),
            r.0 == scaled_hundredths(bytes_per_sec, r.1),
    {
        if bytes_per_sec >= GIB {
            proof {
                lemma_scale_fits(bytes_per_sec, GIB);
            }
            (scale_to_hundredths(bytes_per_sec, GIB), ByteUnit::GB)
        } else if bytes_per_sec >= MIB {
            proof {
                lemma_scale_fits(bytes_per_sec, MIB);
            }
            (scale_to_hundredths(bytes_per_sec, MIB), ByteUnit::MB)
        } else if bytes_per_sec >= KIB {
            proof {
                lemma_scale_fits(bytes_per_sec, KIB);
            }
            (scale_to_hundredths(bytes_per_sec, KIB), ByteUnit::KB)
        } else {
            (scale_to_hundredths(bytes_per_sec, 1), ByteUnit::B)
        }
    }

    /// Scale a byte total for display, as `format_speed` does for speeds,
    /// with TB available above GB.
    pub fn format_bytes(bytes: u64) -> (r: (u64, ByteUnit))
        ensures
            r.1 == byte_unit_of(bytes),
            r.0 == scaled_hundredths(bytes, r.1),
    {
        if bytes >= TIB {
            proof {
                lemma_scale_fits(bytes, TIB);
            }
            (scale_to_hundredths(bytes, TIB), ByteUnit::TB)
        } else if bytes >= GIB {
            proof {
                lemma_scale_fits(bytes, GIB);
            }
            (scale_to_hundredths(bytes, GIB), ByteUnit::GB)
        } else if bytes >= MIB {
            proof {
                lemma_scale_fits(bytes, MIB);
            }
            (scale_to_hundredths(bytes, MIB), ByteUnit::MB)
        } else if bytes >= KIB {
            proof {
                lemma_scale_fits(bytes, KIB);
            }
            (scale_to_hundredths(bytes, KIB), ByteUnit::KB)
        } else {
            (scale_to_hundredths(bytes, 1), ByteUnit::B)
        }
    }
}

} // verus!
