//! The units in which sizes and durations are shown. The number itself is
//! shown with two decimals, which is floating point and done by the caller:
//! it divides by the scale chosen here.
use vstd::prelude::*;

verus! {

/// The scale and unit for a size of `bytes` bytes: bytes up to one
/// kibibyte, then the largest binary unit not above the size, up to
/// tebibytes.
pub open spec fn size_scale_spec(bytes: int) -> (int, Seq<char>) {
    if bytes <= 0x400 {
        (1, "B"@)
    } else if bytes < 0x10_0000 {
        (0x400, "KB"@)
    } else if bytes < 0x4000_0000 {
        (0x10_0000, "MB"@)
    } else if bytes < 0x100_0000_0000 {
        (0x4000_0000, "GB"@)
    } else {
        (0x100_0000_0000, "TB"@)
    }
}

/// The scale and unit for a duration of `nanoseconds`: the largest of
/// nanoseconds, microseconds, milliseconds and seconds not above it.
pub open spec fn time_scale_spec(nanoseconds: int) -> (int, Seq<char>) {
    if nanoseconds < 1_000 {
        (1, "ns"@)
    } else if nanoseconds < 1_000_000 {
        (1_000, "µs"@)
    } else if nanoseconds < 1_000_000_000 {
        (1_000_000, "ms"@)
    } else {
        (1_000_000_000, "s"@)
    }
}

/// The divisor and unit in which `bytes` is shown.
pub fn size_scale(bytes: u64) -> (r: (u64, &'static str))
    ensures
        (r.0 as int, r.1@) == size_scale_spec(bytes as int),
{
    if bytes <= 0x400 {
        (1, "B")
    } else if bytes < 0x10_0000 {
        (0x400, "KB")
    } else if bytes < 0x4000_0000 {
        (0x10_0000, "MB")
    } else if bytes < 0x100_0000_0000 {
        (0x4000_0000, "GB")
    } else {
        (0x100_0000_0000, "TB")
    }
}

/// The divisor and unit in which a duration of `nanoseconds` is shown.
pub fn time_scale(nanoseconds: u128) -> (r: (u64, &'static str))
    ensures
        (r.0 as int, r.1@) == time_scale_spec(nanoseconds as int),
{
    if nanoseconds < 1_000 {
        (1, "ns")
    } else if nanoseconds < 1_000_000 {
        (1_000, "µs")
    } else if nanoseconds < 1_000_000_000 {
        (1_000_000, "ms")
    } else {
        (1_000_000_000, "s")
    }
}

} // verus!
