//! Credential Validator: checks a presented auth token against the set of
//! tokens the service trusts.  Stateless; the comparison is structured so
//! that its running time does not depend on how many leading bytes of the
//! presented token match a trusted token.

use vstd::prelude::*;

verus! {

/// Outcome of credential validation.
#[derive(Clone, Copy, PartialEq, Eq, Structural, Debug)]
pub enum AuthOutcome {
    Authorized,
    Rejected,
}

/// The process-wide set of trusted credentials, fixed at startup and never
/// mutated afterwards.
pub struct TrustedTokens {
    pub tokens: Vec<Vec<u8>>,
}

impl View for TrustedTokens {
    type V = Seq<Seq<u8>>;

    open spec fn view(&self) -> Seq<Seq<u8>> {
        self.tokens.deep_view()
    }
}

impl TrustedTokens {
    /// Builds the trusted set from the configured token list.
    pub fn new(tokens: Vec<Vec<u8>>) -> (r: TrustedTokens)
        ensures
            r@ == tokens.deep_view(),
    {
        TrustedTokens { tokens }
    }
}

/// A presented token is valid exactly when it is non-empty and equal to one
/// of the trusted tokens.  Empty or missing tokens are always rejected.
pub open spec fn token_valid(trusted: Seq<Seq<u8>>, token: Seq<u8>) -> bool {
    token.len() > 0 && trusted.contains(token)
}

/// Byte-slice equality that inspects every byte of equal-length inputs,
/// accumulating the difference bitwise instead of exiting at the first
/// mismatch, so the time taken is not correlated with the length of the
/// matching prefix.
fn ct_eq(a: &[u8], b: &[u8]) -> (r: bool)
    ensures
        r == (a@ == b@),
{
    if a.len() != b.len() {
        return false;
    }
    let n: usize = a.len();
    let mut diff: u8 = 0;
    for i in 0..n
        invariant
            a@.len() == n,
            b@.len() == n,
            (diff == 0) <==> (forall|j: int| 0 <= j < i ==> a@[j] == b@[j]),
    {
        let ai = a[i];
        let bi = b[i];
        proof {
            assert(((diff | (ai ^ bi)) == 0) == (diff == 0 && ai == bi)) by (bit_vector);
        }
        diff = diff | (ai ^ bi);
    }
    if diff == 0 {
        proof {
            assert(a@ =~= b@);
        }
        true
    } else {
        false
    }
}

/// Credential Validator contract: `Authorized` exactly when the presented
/// token is non-empty and belongs to the trusted set.  Every trusted token
/// is compared against the presented one; there is no early exit on a match,
/// so timing does not reveal which (or whether a) trusted token matched.
pub fn validate(token: &Vec<u8>, trusted: &TrustedTokens) -> (r: AuthOutcome)
    ensures
        (r == AuthOutcome::Authorized) <==> token_valid(trusted@, token@),
        (r == AuthOutcome::Rejected) <==> !token_valid(trusted@, token@),
{
    let mut found = false;
    let n: usize = trusted.tokens.len();
    for i in 0..n
        invariant
            n == trusted.tokens.len(),
            trusted@.len() == n,
            found <==> (exists|j: int| 0 <= j < i && trusted@[j] == token@),
    {
        proof {
            assert(trusted@[i as int] == trusted.tokens[i as int]@);
        }
        let eq = ct_eq(trusted.tokens[i].as_slice(), token.as_slice());
        found = found || eq;
    }
    if found && token.len() > 0 {
        AuthOutcome::Authorized
    } else {
        AuthOutcome::Rejected
    }
}

} // verus!
