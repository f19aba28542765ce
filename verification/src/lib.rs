//! Typed, verified core of an access-token query library.
//!
//! The library models the security-token subsystem of the operating system:
//! access-rights masks, security identifiers and their binary layout, the
//! typed decoders for token information buffers, and the decision logic of
//! the two-phase buffer-size negotiation that drives every query. The OS
//! calls themselves (opening a token, filling a buffer, closing a handle)
//! are made by a thin platform layer outside this crate, which feeds their
//! raw outcomes to the verified functions here.

use vstd::prelude::*;

pub mod information;
pub mod level;
pub mod policy;
pub mod security;

pub use level::TokenAccessLevel;

use information::TokenInformation;

verus! {

/// An OS-reported failure code, surfaced to callers unchanged.
#[derive(Clone, Copy, PartialEq, Eq, Structural, Debug)]
pub struct OsError {
    pub code: u32,
}

/// Expected control signal of the size probe: the destination buffer was too
/// small and the required size was reported.
pub const ERROR_INSUFFICIENT_BUFFER: u32 = 122;

/// Expected control signal of the size probe: the supplied length was wrong
/// and the required size was reported.
pub const ERROR_BAD_LENGTH: u32 = 24;

/// What the two-phase negotiation must do after the zero-length size probe.
#[derive(Clone, Copy, PartialEq, Eq, Structural, Debug)]
pub enum ProbeStep {
    /// The probe succeeded outright: this information kind does not exist
    /// for this token, the query answers with no value.
    Absent,
    /// The probe failed with an expected size signal: retry with a buffer of
    /// exactly this many bytes.
    Fetch(u32),
    /// The probe failed with a genuine error: surface it to the caller.
    Abort(OsError),
}

/// The decision rule of the size probe: success means the information kind
/// is absent, the two size-signal codes mean retry with the reported size,
/// and every other code is a genuine failure.
pub open spec fn spec_interpret_probe(succeeded: bool, error_code: u32, bytes_needed: u32) -> ProbeStep {
    if succeeded {
        ProbeStep::Absent
    } else if error_code == ERROR_INSUFFICIENT_BUFFER || error_code == ERROR_BAD_LENGTH {
        ProbeStep::Fetch(bytes_needed)
    } else {
        ProbeStep::Abort(OsError { code: error_code })
    }
}

/// Classifies the outcome of the zero-length size probe. `succeeded` is the
/// probe call's success flag, `error_code` the code reported on failure, and
/// `bytes_needed` the size the probe reported as required.
pub fn interpret_probe(succeeded: bool, error_code: u32, bytes_needed: u32) -> (r: ProbeStep)
    ensures
        r == spec_interpret_probe(succeeded, error_code, bytes_needed),
{
    if succeeded {
        ProbeStep::Absent
    } else if error_code == ERROR_INSUFFICIENT_BUFFER || error_code == ERROR_BAD_LENGTH {
        ProbeStep::Fetch(bytes_needed)
    } else {
        ProbeStep::Abort(OsError { code: error_code })
    }
}

/// Finishes a query after the buffer-fill call. A failed fill is always
/// surfaced as the OS error it reported — the size was just authoritatively
/// negotiated, so there is no further retry — and a successful fill hands
/// the buffer to the kind's decoder, whose relation pins the result.
pub fn finish_query<T: TokenInformation>(fill_succeeded: bool, error_code: u32, buf: &[u8]) -> (r:
    Result<Option<T::Output>, OsError>)
    ensures
        match r {
            Ok(v) => fill_succeeded && T::decode_rel(buf@, v),
            Err(e) => !fill_succeeded && e == (OsError { code: error_code }),
        },
{
    if fill_succeeded {
        Ok(T::from_buf(buf))
    } else {
        Err(OsError { code: error_code })
    }
}

/// Owner of a raw OS token handle value. The type is deliberately neither
/// `Clone` nor `Copy`: the only way to take the handle out is `release`,
/// which consumes the owner, so the handle can leave at most once.
pub struct AccessToken {
    handle: u64,
}

impl View for AccessToken {
    type V = u64;

    closed spec fn view(&self) -> u64 {
        self.handle
    }
}

impl AccessToken {
    /// Wraps a raw handle value reported by the OS.
    pub fn from_raw_handle(handle: u64) -> (t: Self)
        ensures
            t@ == handle,
    {
        AccessToken { handle }
    }

    /// Reads the handle value without giving up ownership.
    pub fn raw_handle(&self) -> (h: u64)
        ensures
            h == self@,
    {
        self.handle
    }

    /// Surrenders the handle to the caller, consuming the owner. Because
    /// `AccessToken` cannot be duplicated, a handle is surrendered at most
    /// once; the platform layer closes it exactly then.
    pub fn release(self) -> (h: u64)
        ensures
            h == self@,
    {
        self.handle
    }
}

} // verus!
