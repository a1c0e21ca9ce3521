//! The one-time-password application's code generation: a fixed
//! configuration (HMAC-SHA-1, six digits, 30-second steps) over an account
//! secret, answering the six-digit code for a moment in time. Drawing the
//! code stays with the surrounding application.

use vstd::prelude::*;

verus! {

/// The six-digit code that the fixed configuration (HMAC-SHA-1, six
/// digits, 30-second steps) yields for a secret at a moment in time. It is
/// a function of the two alone; the name stands in for a whole HMAC
/// computation that no short statement could pin down.
pub uninterp spec fn spec_totp_token(secret: Seq<u8>, time: u64) -> Seq<char>;

/// Relies on `totp_rs::Totp::generate`, built through `totp_rs::Builder`
/// with its defaults (SHA-1, six digits, 30-second steps): with a secret of
/// at least 16 bytes the build succeeds, and the token is six characters
/// determined by the secret and the time alone.
#[verifier::external_body]
fn totp_token_at(secret: &Vec<u8>, time: u64) -> (r: String)
    requires
        secret@.len() >= 16,
    ensures
        r@ == spec_totp_token(secret@, time),
        r@.len() == 6,
{
    let totp = totp_rs::Builder::new().with_secret(secret.as_slice()).build().unwrap();
    totp.generate(time).to_string()
}

/// The one-time-password application: the account secret it shows codes
/// for.
pub struct Otp {
    pub secret: Vec<u8>,
}

impl Otp {
    /// The secret is long enough for the generator: at least 128 bits.
    pub open spec fn wf(self) -> bool {
        self.secret@.len() >= 16
    }

    /// A code generator over the given account secret (at least 128 bits,
    /// as the generator demands).
    pub fn new(secret: Vec<u8>) -> (o: Otp)
        requires
            secret@.len() >= 16,
        ensures
            o.secret == secret,
            o.wf(),
    {
        Otp { secret }
    }

    /// The six-digit code shown at `time` (seconds since the Unix epoch).
    pub fn token(&self, time: u64) -> (r: String)
        requires
            self.wf(),
        ensures
            r@ == spec_totp_token(self.secret@, time),
            r@.len() == 6,
    {
        totp_token_at(&self.secret, time)
    }
}

} // verus!
