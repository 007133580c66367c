//! The authentication guard in front of the state engine: a static-key
//! comparison in constant time, and a single-use challenge-response guard.
//!
//! Either design sits strictly before any transition is attempted; a request
//! that fails here never reaches the engine.

use vstd::prelude::*;

verus! {

/// Why an inbound transition request was rejected at the guard.
#[derive(Clone, Copy, Debug, PartialEq, Eq, Structural)]
pub enum AuthError {
    /// The supplied credential is missing or does not match.
    Unauthorized,
    /// A challenge-response token arrived while no challenge was live.
    NoChallengePending,
}

/// Compares two byte strings for equality, touching every byte of equal-length
/// inputs so that the comparison's duration does not narrow down the secret.
pub fn constant_time_eq(a: &Vec<u8>, b: &Vec<u8>) -> (equal: bool)
    ensures
        equal == (a@ == b@),
{
    if a.len() != b.len() {
        return false;
    }
    let n = a.len();
    let mut diff: u8 = 0;
    let mut i: usize = 0;
    while i < n
        invariant
            n == a@.len(),
            a@.len() == b@.len(),
            i <= n,
            (diff == 0) <==> (forall|j: int| 0 <= j < i ==> a@[j] == b@[j]),
        decreases n - i,
    {
        let x = a[i];
        let y = b[i];
        let d = x ^ y;
        proof {
            assert((d == 0) == (x == y)) by (bit_vector)
                requires
                    d == (x ^ y),
            ;
            assert(((diff | d) == 0) == (diff == 0 && d == 0)) by (bit_vector);
        }
        diff = diff | d;
        i = i + 1;
    }
    if diff == 0 {
        proof {
            assert(a@ =~= b@);
        }
        true
    } else {
        false
    }
}

/// The static-key design: a request is authorized exactly when it carries a
/// key equal to the configured one. A missing key never authorizes.
pub fn is_api_key_valid(provided: Option<&Vec<u8>>, api_key: &Vec<u8>) -> (valid: bool)
    ensures
        valid == (provided matches Some(p) && p@ == api_key@),
{
    match provided {
        Some(p) => constant_time_eq(p, api_key),
        None => false,
    }
}

/// What one validation attempt does to the guard: whatever the outcome, the
/// stored token is cleared, so no token is ever accepted twice. With no live
/// challenge the attempt fails distinctly; with one, it succeeds exactly when
/// the provided token equals the expected one.
pub open spec fn spec_validate(pending: Option<Seq<u8>>, provided: Seq<u8>) -> (Option<
    Seq<u8>,
>, Result<(), AuthError>) {
    match pending {
        None => (None, Err(AuthError::NoChallengePending)),
        Some(expected) => (
            None,
            if provided == expected {
                Ok(())
            } else {
                Err(AuthError::Unauthorized)
            },
        ),
    }
}

/// The challenge-response design: at most one live challenge at a time. The
/// deployment derives the expected token from a fresh random nonce (an HMAC
/// under the shared secret) and stores it here; the guard owns its single
/// use.
pub struct ChallengeGuard {
    pending: Option<Vec<u8>>,
}

impl ChallengeGuard {
    /// The token the guard currently expects, if a challenge is live.
    pub closed spec fn pending_token(&self) -> Option<Seq<u8>> {
        match self.pending {
            Some(ref t) => Some(t@),
            None => None,
        }
    }

    /// A fresh guard with no challenge outstanding.
    pub fn new() -> (guard: ChallengeGuard)
        ensures
            guard.pending_token() == None::<Seq<u8>>,
    {
        ChallengeGuard { pending: None }
    }

    /// Installs the expected token for a newly issued challenge. A challenge
    /// still live at this point is superseded.
    pub fn issue_challenge(&mut self, expected_token: Vec<u8>)
        ensures
            final(self).pending_token() == Some(expected_token@),
    {
        self.pending = Some(expected_token);
    }

    /// Validates a provided token against the live challenge and consumes
    /// the challenge whatever the outcome; see [`spec_validate`].
    pub fn validate(&mut self, provided: &Vec<u8>) -> (result: Result<(), AuthError>)
        ensures
            final(self).pending_token() == spec_validate(
                old(self).pending_token(),
                provided@,
            ).0,
            result == spec_validate(old(self).pending_token(), provided@).1,
    {
        let pending = self.pending.take();
        match pending {
            None => Err(AuthError::NoChallengePending),
            Some(expected) => {
                if constant_time_eq(&expected, provided) {
                    Ok(())
                } else {
                    Err(AuthError::Unauthorized)
                }
            },
        }
    }
}

/// A challenge, once validated, cannot be reused: whatever tokens are
/// offered, a second validation attempt after any first one fails for want
/// of a pending challenge.
pub proof fn lemma_challenge_single_use(
    pending: Option<Seq<u8>>,
    first: Seq<u8>,
    second: Seq<u8>,
)
    ensures
        spec_validate(spec_validate(pending, first).0, second).1 == Err::<(), AuthError>(
            AuthError::NoChallengePending,
        ),
{
}

} // verus!
