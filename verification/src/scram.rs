//! What a session keeps between the two round trips of SCRAM.
//!
//! The session frames, it does not compute. Between the client's first and
//! final messages it must remember two things, the `client-first-bare` and
//! the `server-first`, because the `AuthMessage` of RFC 5802 §3 is their
//! concatenation with the `client-final` stripped of its proof. What does not
//! fit is refused, never truncated.

use vstd::prelude::*;

use crate::octets::{ajouter, copier};

verus! {

/// What a `client-first-bare` may occupy.
pub const BARE_MAX: usize = 256;

/// What a `server-first` may occupy.
pub const FIRST_MAX: usize = 256;

/// The two messages that must be kept to conclude, in fixed buffers: a
/// session lives per connection, and a peer that has not authenticated must
/// not be able to make one grow. The state is a plain value, copied as such.
#[derive(Debug, Clone, Copy)]
pub struct EtatScram {
    bare: [u8; BARE_MAX],
    bare_len: usize,
    first: [u8; FIRST_MAX],
    first_len: usize,
}

/// `source` at the start of a fixed buffer, zeros after it.
fn remplir(source: &[u8]) -> (r: [u8; 256])
    requires
        source@.len() <= 256,
    ensures
        r@.len() == 256,
        r@.subrange(0, source@.len() as int) == source@,
{
    let mut r = [0u8; 256];
    let mut i: usize = 0;
    while i < source.len()
        invariant
            i <= source@.len(),
            source@.len() <= 256,
            r@.len() == 256,
            forall|j: int| 0 <= j < i ==> r@[j] == source@[j],
        decreases source@.len() - i,
    {
        r[i] = source[i];
        i = i + 1;
    }
    assert(r@.subrange(0, source@.len() as int) =~= source@);
    r
}

impl EtatScram {
    /// What is held fits in the buffers.
    #[verifier::type_invariant]
    spec fn tient(self) -> bool {
        self.bare_len <= BARE_MAX && self.first_len <= FIRST_MAX
    }

    /// The `client-first-bare` kept.
    pub closed spec fn spec_bare(self) -> Seq<u8> {
        self.bare@.subrange(0, self.bare_len as int)
    }

    /// The `server-first` kept.
    pub closed spec fn spec_first(self) -> Seq<u8> {
        self.first@.subrange(0, self.first_len as int)
    }

    /// Keeps both messages, or refuses when they do not fit.
    ///
    /// Refuse rather than truncate: a truncated `AuthMessage` would give a
    /// wrong proof, and the peer would read "invalid password" for an account
    /// name that is too long.
    pub fn neuf(bare: &[u8], first: &[u8]) -> (r: Option<Self>)
        ensures
            r.is_some() <==> (bare@.len() <= BARE_MAX && first@.len() <= FIRST_MAX),
            r matches Some(e) ==> e.spec_bare() == bare@ && e.spec_first() == first@,
    {
        if bare.len() > BARE_MAX || first.len() > FIRST_MAX {
            return None;
        }
        Some(EtatScram { bare: remplir(bare), bare_len: bare.len(), first: remplir(first), first_len: first.len() })
    }

    /// The `client-first-bare` kept.
    pub fn bare(&self) -> (r: &[u8])
        ensures
            r@ == self.spec_bare(),
            r@.len() <= BARE_MAX,
    {
        proof { use_type_invariant(self); }
        vstd::slice::slice_subrange(self.bare.as_slice(), 0, self.bare_len)
    }

    /// The `server-first` kept.
    pub fn first(&self) -> (r: &[u8])
        ensures
            r@ == self.spec_first(),
            r@.len() <= FIRST_MAX,
    {
        proof { use_type_invariant(self); }
        vstd::slice::slice_subrange(self.first.as_slice(), 0, self.first_len)
    }
}

/// What the policy of a test bench knows how to do with SCRAM.
#[derive(Debug, Clone, Copy, PartialEq, Eq, Structural)]
pub enum AvecScram {
    /// It does not serve it: the case of a server without a store.
    Aucun,
    /// It conducts it from end to end.
    Complet,
    /// It starts it and cannot conclude it.
    SansConclure,
}

/// The `AuthMessage` of RFC 5802 §3, as bytes.
pub open spec fn spec_auth_message(bare: Seq<u8>, first: Seq<u8>, sans_preuve: Seq<u8>) -> Seq<u8> {
    bare + seq![44u8] + first + seq![44u8] + sans_preuve
}

/// The `AuthMessage` of RFC 5802 §3: the three messages, commas included.
pub fn auth_message(bare: &[u8], first: &[u8], sans_preuve: &[u8]) -> (r: Vec<u8>)
    ensures
        r@ == spec_auth_message(bare@, first@, sans_preuve@),
{
    let mut message = copier(bare);
    message.push(44u8);
    ajouter(&mut message, first);
    message.push(44u8);
    ajouter(&mut message, sans_preuve);
    message
}

} // verus!
