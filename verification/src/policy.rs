//! The decisions a session does not take itself.

use vstd::prelude::*;

use crate::smtp::commande::Path;

verus! {

/// What a server decides about a recipient.
#[derive(Debug, Clone, Copy, PartialEq, Eq, Structural)]
pub enum RecipientVerdict {
    /// Accepted.
    Accept,
    /// Refused for good: the mailbox does not exist, or accepts nothing.
    RejectPermanent,
    /// Refused for now: trying again later makes sense.
    RejectTemporary,
    /// This server does not relay to this recipient.
    RelayDenied,
}

/// Credentials as the peer sent them: neither normalised nor checked as
/// UTF-8.
#[derive(Debug, Clone, PartialEq, Eq)]
pub struct Credentials {
    /// The identity to act as; empty when the peer gave none.
    pub authorization_identity: Vec<u8>,
    /// The identity whose secret is presented.
    pub authentication_identity: Vec<u8>,
    /// The secret.
    pub password: Vec<u8>,
}

/// What [`Authenticator::scram_first`] returns.
#[derive(Debug, Clone, Copy, PartialEq, Eq, Structural)]
pub struct ScramFirst {
    /// How many bytes of `server-first` were written.
    pub ecrits: usize,
    /// Where the `client-first-bare` starts in the `client-first` received.
    pub debut_bare: usize,
}

/// Whether `r` is an answer that `authenticate` of `auth` may give to these
/// credentials: what its contract, or that of the default it keeps, allows.
/// The decision being pure, an authenticator that states it admits one
/// answer; the default admits only `false`.
pub open spec fn reponse_possible<A: Authenticator>(auth: A, credentials: Credentials, r: bool) -> bool {
    call_ensures(A::authenticate, (&auth, &credentials), r)
}

/// Who checks credentials.
///
/// Separate from [`Policy`]: POP3 authenticates and relays nothing.
pub trait Authenticator {
    /// Do these credentials open a session?
    ///
    /// The default refuses: a default that refuses cannot open any door. The
    /// comparison must be constant-time, and the decision pure.
    fn authenticate(&self, credentials: &Credentials) -> (r: bool)
        default_ensures
            !r,
    {
        false
    }

    /// The account name that this identity designates, written at the start
    /// of `sortie`; returns how many bytes were written.
    ///
    /// The default copies the identity, as far as `sortie` holds it.
    fn canonical_login(&self, identity: &[u8], sortie: &mut Vec<u8>) -> (r: usize)
        default_ensures
            r == if identity@.len() < old(sortie)@.len() { identity@.len() } else { old(sortie)@.len() },
            final(sortie)@.len() == old(sortie)@.len(),
            final(sortie)@.take(r as int) == identity@.take(r as int),
            final(sortie)@.skip(r as int) == old(sortie)@.skip(r as int),
    {
        copier_le_nom(identity, sortie)
    }

    /// The first answer of SCRAM: the `server-first` of RFC 5802 §3, written
    /// in `sortie`. `None` means that SCRAM is not served here, or that the
    /// message is malformed; the default does not serve SCRAM.
    fn scram_first(&self, client_first: &[u8], sortie: &mut Vec<u8>) -> (r: Option<ScramFirst>)
        default_ensures
            r.is_none(),
    {
        None
    }

    /// The conclusion: checks the proof and writes the `server-final`.
    /// Returns how many bytes were written when the proof holds; the default
    /// does not serve SCRAM.
    fn scram_final(
        &self,
        bare: &[u8],
        first: &[u8],
        client_final: &[u8],
        sortie: &mut Vec<u8>,
    ) -> (r: Option<usize>)
        default_ensures
            r.is_none(),
    {
        None
    }
}

/// A shared reference checks credentials as its target does: a loop that
/// serves a thousand connections holds ONE table of accounts.
impl<'a, T: Authenticator> Authenticator for &'a T {
    fn authenticate(&self, credentials: &Credentials) -> (r: bool)
        ensures
            reponse_possible(**self, *credentials, r),
    {
        (**self).authenticate(credentials)
    }

    fn canonical_login(&self, identity: &[u8], sortie: &mut Vec<u8>) -> (r: usize) {
        (**self).canonical_login(identity, sortie)
    }

    fn scram_first(&self, client_first: &[u8], sortie: &mut Vec<u8>) -> (r: Option<ScramFirst>) {
        (**self).scram_first(client_first, sortie)
    }

    fn scram_final(
        &self,
        bare: &[u8],
        first: &[u8],
        client_final: &[u8],
        sortie: &mut Vec<u8>,
    ) -> (r: Option<usize>) {
        (**self).scram_final(bare, first, client_final, sortie)
    }
}

/// A shared reference authenticates as its target does: whatever answer
/// it gives is one its target may give. So a reference to an authenticator
/// that keeps the default refuses everyone, as its target does.
pub proof fn loi_la_reference_authentifie_comme_sa_cible<T: Authenticator>(cible: T, credentials: Credentials, r: bool)
    requires
        reponse_possible(&cible, credentials, r),
    ensures
        reponse_possible(cible, credentials, r),
{
}

/// Who decides about recipients.
///
/// A server that accepted any recipient would be an open relay. The session
/// does not take that decision, having neither a table of domains nor
/// accounts, and so does not invent it: it cannot be built without a policy,
/// which makes the open relay inexpressible rather than improbable.
///
/// The decision must be pure and immediate: no directory, no database, no
/// DNS. A decision that waits is one a peer can make wait.
pub trait Policy: Authenticator {
    /// The verdicts this policy may give of a recipient. A policy that
    /// states none admits every verdict; one that states its decision
    /// (which must be pure: a function of the path and of `submitter`
    /// alone) admits exactly that verdict.
    open spec fn verdict_possible(&self, forward_path: Path, submitter: bool, verdict: RecipientVerdict) -> bool {
        true
    }

    /// Is this recipient acceptable?
    ///
    /// Called once per `RCPT TO:`, with a path the grammar has already
    /// accepted. `submitter` is `true` when the session has authenticated:
    /// that alone allows a policy to accept a recipient that is not local,
    /// and the policy, shared by every connection, cannot guess it.
    fn accepts_recipient(&self, forward_path: &Path, submitter: bool) -> (r: RecipientVerdict)
        ensures
            self.verdict_possible(*forward_path, submitter, r),
    ;
}

/// A shared reference is a policy: a loop that serves a thousand
/// connections has ONE table of domains.
impl<'a, T: Policy> Policy for &'a T {
    open spec fn verdict_possible(&self, forward_path: Path, submitter: bool, verdict: RecipientVerdict) -> bool {
        (**self).verdict_possible(forward_path, submitter, verdict)
    }

    fn accepts_recipient(&self, forward_path: &Path, submitter: bool) -> (r: RecipientVerdict) {
        (**self).accepts_recipient(forward_path, submitter)
    }
}

/// Copies `identity` at the start of `sortie`, as far as it holds.
pub fn copier_le_nom(identity: &[u8], sortie: &mut Vec<u8>) -> (r: usize)
    ensures
        r == if identity@.len() < old(sortie)@.len() { identity@.len() } else { old(sortie)@.len() },
        final(sortie)@.len() == old(sortie)@.len(),
        final(sortie)@.take(r as int) == identity@.take(r as int),
        final(sortie)@.skip(r as int) == old(sortie)@.skip(r as int),
{
    let longueur = if identity.len() < sortie.len() { identity.len() } else { sortie.len() };
    let mut i: usize = 0;
    while i < longueur
        invariant
            i <= longueur,
            longueur <= identity@.len(),
            sortie@.len() == old(sortie)@.len(),
            longueur <= sortie@.len(),
            forall|j: int| 0 <= j < i ==> sortie@[j] == identity@[j],
            forall|j: int| i <= j < sortie@.len() ==> sortie@[j] == old(sortie)@[j],
        decreases longueur - i,
    {
        sortie.set(i, identity[i]);
        i = i + 1;
    }
    assert(sortie@.take(longueur as int) =~= identity@.take(longueur as int));
    assert(sortie@.skip(longueur as int) =~= old(sortie)@.skip(longueur as int));
    longueur
}

} // verus!
