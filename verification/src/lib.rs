//! A safe bridge around a native media library's C-ABI logging facility.
//!
//! The native library keeps a numeric severity threshold, a set of
//! behaviour flags for its built-in formatter, and a single global log
//! callback.  This crate models that state with plain values and proves
//! the logic around it: the three-way severity conversion, bit-exact
//! flag round-trips, and the registration state machine for the one
//! global callback slot.

use vstd::prelude::*;

pub mod adapter;
pub mod bridge;
pub mod callback;
pub mod flag;
pub mod level;

pub use flag::Flags;
pub use level::FilterLevel;
pub use level::Level;
pub use level::LevelError;

verus! {

/// The native library's own logging configuration: the numeric severity
/// threshold and the behaviour flags of its default formatter.  The
/// native library is the canonical owner of this state; this type is the
/// bridge's value-level picture of it, and the accessors below are the
/// only operations that touch it.
pub struct NativeLog {
    /// The active numeric severity threshold.
    pub level: i32,
    /// The active behaviour flag bits, kept bit-for-bit.
    pub flags: i32,
}

/// The native configuration after the threshold is set to `value`.
pub open spec fn spec_set_level(n: NativeLog, value: Level) -> NativeLog {
    NativeLog { level: level::native_of(value) as i32, ..n }
}

/// The native configuration after the flag bits are set to `value`.
pub open spec fn spec_set_flags(n: NativeLog, value: Flags) -> NativeLog {
    NativeLog { flags: value.spec_bits(), ..n }
}

/// The flag bits read back from the native configuration.
pub open spec fn spec_get_flags(n: NativeLog) -> Flags {
    Flags::from_bits_spec(n.flags)
}

impl NativeLog {
    /// The configuration the native library starts with: an
    /// informational threshold and no flags set.
    pub fn new() -> (n: NativeLog)
        ensures
            level::level_of_native(n.level as int) == Some(Level::Info),
            n.flags == 0,
    {
        NativeLog { level: level::NATIVE_INFO, flags: 0 }
    }
}

/// Sets the native numeric severity threshold from a severity.
pub fn set_level(native: &mut NativeLog, value: Level)
    ensures
        *final(native) == spec_set_level(*old(native), value),
{
    native.level = value.to_native();
}

/// Reads the native numeric severity threshold back as a severity; a
/// stored value outside the defined scale is reported as `LevelError`
/// so a caller can detect misconfiguration.
pub fn get_level(native: &NativeLog) -> (r: Result<Level, LevelError>)
    ensures
        r matches Ok(l) ==> level::level_of_native(native.level as int) == Some(l),
        r is Err <==> level::level_of_native(native.level as int) is None,
        r matches Err(e) ==> e == LevelError,
{
    Level::from_native(native.level)
}

/// Sets the native behaviour flags, bit-for-bit.
pub fn set_flags(native: &mut NativeLog, value: Flags)
    ensures
        *final(native) == spec_set_flags(*old(native), value),
{
    native.flags = value.bits();
}

/// Reads the native behaviour flags back, bit-for-bit — bits this
/// binding does not document included.
pub fn get_flags(native: &NativeLog) -> (r: Flags)
    ensures
        r == spec_get_flags(*native),
{
    Flags::from_bits(native.flags)
}

/// Law: setting the flags to an arbitrary bit pattern and reading them
/// back yields the identical pattern, unknown bits preserved.
pub proof fn lemma_flags_round_trip(n: NativeLog, value: Flags)
    ensures
        spec_get_flags(spec_set_flags(n, value)) == value,
{
    flag::lemma_from_bits_of_bits(value);
}

/// Law: setting the threshold from a severity and reading it back
/// yields that severity; the accessor pair cannot fail on a value the
/// scale defines.
pub proof fn lemma_level_round_trip(n: NativeLog, value: Level)
    ensures
        level::level_of_native(spec_set_level(n, value).level as int) == Some(value),
{
    level::lemma_native_round_trip(value);
}

} // verus!
