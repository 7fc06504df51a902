use crate::error::CoreError;
use vstd::prelude::*;

verus! {

/// Raw value the runtime returns for a format it does not recognise.
pub const MOC_VERSION_UNKNOWN: u32 = 0;

/// Raw value of the 3.0 format.
pub const MOC_VERSION_30: u32 = 1;

/// Raw value of the 3.3 format.
pub const MOC_VERSION_33: u32 = 2;

/// Raw value of the 4.0 format.
pub const MOC_VERSION_40: u32 = 3;

/// Format version of a compiled model.
#[derive(Clone, Copy, Debug, PartialEq, Eq, Structural)]
pub enum MocVersion {
    Unknown,
    Version30,
    Version33,
    Version40,
}

/// The version a raw native value stands for, if any.
pub open spec fn decode_version(raw: u32) -> Option<MocVersion> {
    if raw == MOC_VERSION_UNKNOWN {
        Some(MocVersion::Unknown)
    } else if raw == MOC_VERSION_30 {
        Some(MocVersion::Version30)
    } else if raw == MOC_VERSION_33 {
        Some(MocVersion::Version33)
    } else if raw == MOC_VERSION_40 {
        Some(MocVersion::Version40)
    } else {
        None
    }
}

/// The raw native value of a version.
pub open spec fn encode_version(v: MocVersion) -> u32 {
    match v {
        MocVersion::Unknown => MOC_VERSION_UNKNOWN,
        MocVersion::Version30 => MOC_VERSION_30,
        MocVersion::Version33 => MOC_VERSION_33,
        MocVersion::Version40 => MOC_VERSION_40,
    }
}

impl MocVersion {
    /// Decodes a raw native version; `None` for a value outside the known set,
    /// which the runtime should never return.
    pub fn from_raw(raw: u32) -> (r: Option<MocVersion>)
        ensures
            r == decode_version(raw),
    {
        if raw == MOC_VERSION_UNKNOWN {
            Some(MocVersion::Unknown)
        } else if raw == MOC_VERSION_30 {
            Some(MocVersion::Version30)
        } else if raw == MOC_VERSION_33 {
            Some(MocVersion::Version33)
        } else if raw == MOC_VERSION_40 {
            Some(MocVersion::Version40)
        } else {
            None
        }
    }

    /// The raw native value of this version.
    pub fn to_raw(&self) -> (r: u32)
        ensures
            r == encode_version(*self),
    {
        match self {
            MocVersion::Unknown => MOC_VERSION_UNKNOWN,
            MocVersion::Version30 => MOC_VERSION_30,
            MocVersion::Version33 => MOC_VERSION_33,
            MocVersion::Version40 => MOC_VERSION_40,
        }
    }

    /// Whether the runtime recognised the format.
    pub fn is_known(&self) -> (r: bool)
        ensures
            r <==> *self != MocVersion::Unknown,
    {
        !matches!(self, MocVersion::Unknown)
    }
}

/// Passes a recognised version on, and reports the unknown one as an error
/// the caller may act upon.
pub fn check_supported(v: MocVersion) -> (r: Result<MocVersion, CoreError>)
    ensures
        v == MocVersion::Unknown ==> r == Err::<MocVersion, CoreError>(CoreError::UnsupportedVersion),
        v != MocVersion::Unknown ==> r == Ok::<MocVersion, CoreError>(v),
{
    if v.is_known() {
        Ok(v)
    } else {
        Err(CoreError::UnsupportedVersion)
    }
}

/// Decoding the raw value of a version gives that version back, and every
/// recognised raw value is the encoding of what it decodes to.
pub proof fn lemma_version_round_trip(v: MocVersion, raw: u32)
    ensures
        decode_version(encode_version(v)) == Some(v),
        decode_version(raw) matches Some(w) ==> encode_version(w) == raw,
{
}

/// A raw value of one of the named formats never decodes to the unknown
/// version, so such a model always passes `check_supported`.
pub proof fn lemma_known_raw_is_supported(raw: u32)
    requires
        raw == MOC_VERSION_30 || raw == MOC_VERSION_33 || raw == MOC_VERSION_40,
    ensures
        decode_version(raw) matches Some(v) && v != MocVersion::Unknown,
{
}

} // verus!
