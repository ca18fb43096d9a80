use vstd::prelude::*;

verus! {

/// The HMAC hash function used to sign the time counter.
#[derive(Clone, Copy, Debug, PartialEq, Eq, Structural)]
pub enum HashAlgorithm {
    Sha1,
    Sha256,
    Sha512,
}

/// The TOTP parameters, passed to the engine as one immutable value.
#[derive(Clone, Copy, Debug, PartialEq, Eq, Structural)]
pub struct TotpConfig {
    pub algorithm: HashAlgorithm,
    /// Number of digits of a code.
    pub digits: usize,
    /// Adjacent time steps tolerated when a code is verified.
    pub skew: u8,
    /// Length of a time step, in seconds.
    pub period: u64,
}

/// Digits of a code in the standard configuration.
pub const STANDARD_DIGITS: usize = 6;

/// Time step of the standard configuration, in seconds.
pub const STANDARD_PERIOD: u64 = 30;

impl TotpConfig {
    /// A configuration that codes can be generated with: RFC 6238 allows 6 to
    /// 8 digits, and a time step must be at least one second.
    pub open spec fn wf(&self) -> bool {
        &&& 6 <= self.digits <= 8
        &&& self.period > 0
    }

    /// HMAC-SHA1, 6 digits, a skew of one step, 30-second steps.
    pub fn standard() -> (r: TotpConfig)
        ensures
            r == (TotpConfig {
                algorithm: HashAlgorithm::Sha1,
                digits: 6,
                skew: 1,
                period: 30,
            }),
            r.wf(),
    {
        TotpConfig {
            algorithm: HashAlgorithm::Sha1,
            digits: STANDARD_DIGITS,
            skew: 1,
            period: STANDARD_PERIOD,
        }
    }
}

} // verus!
