//! The attestation result: the parsed evidence claims of one peer, handed
//! from the TLS handshake layer to the application layer.

use vstd::prelude::*;

verus! {

/// One evidence claim: a claim name paired with its serialized value.
#[derive(Debug)]
pub struct Claim {
    pub name: String,
    pub value: String,
}

impl View for Claim {
    type V = (Seq<char>, Seq<char>);

    open spec fn view(&self) -> (Seq<char>, Seq<char>) {
        (self.name@, self.value@)
    }
}

impl Clone for Claim {
    fn clone(&self) -> (r: Self)
        ensures
            r == *self,
    {
        Claim { name: self.name.clone(), value: self.value.clone() }
    }
}

/// The claim mapping of a sequence of claims, in order.
pub open spec fn claims_view(claims: Seq<Claim>) -> Seq<(Seq<char>, Seq<char>)> {
    claims.map_values(|c: Claim| c@)
}

/// The parsed evidence claims captured during one verification. Immutable
/// once constructed; carries no behavior of its own.
#[derive(Debug)]
pub struct AttestationResult {
    claims: Vec<Claim>,
}

impl View for AttestationResult {
    type V = Seq<(Seq<char>, Seq<char>)>;

    closed spec fn view(&self) -> Seq<(Seq<char>, Seq<char>)> {
        claims_view(self.claims@)
    }
}

impl AttestationResult {
    /// Parses raw claims into an attestation result; the stored claim mapping
    /// is exactly the claims that were handed in, in order.
    pub fn from_claims(claims: Vec<Claim>) -> (r: Self)
        ensures
            r@ == claims_view(claims@),
    {
        AttestationResult { claims }
    }

    /// The captured claims, for inspection by the application layer.
    pub fn claims(&self) -> (r: &Vec<Claim>)
        ensures
            claims_view(r@) == self@,
    {
        &self.claims
    }
}

impl Clone for AttestationResult {
    fn clone(&self) -> (r: Self)
        ensures
            r@ == self@,
    {
        let claims = self.claims.clone();
        proof {
            assert forall|i: int| 0 <= i < claims@.len() implies claims@[i] == self.claims@[i] by {
                assert(cloned::<Claim>(self.claims@[i], claims@[i]));
            }
            assert(claims@ =~= self.claims@);
        }
        AttestationResult { claims }
    }
}

} // verus!
