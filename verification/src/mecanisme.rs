//! Under which SASL mechanism a peer authenticated.

use vstd::prelude::*;

verus! {

/// The mechanism under which a peer authenticated.
///
/// It only exists after a success: a refused attempt leaves none.
#[derive(Debug, Clone, Copy, PartialEq, Eq, Structural)]
pub enum Mecanisme {
    /// `PLAIN` (RFC 4616): the password travels through the tunnel as is.
    Plain,
    /// The POP3 `USER`/`PASS` pair (RFC 1939 §7).
    UserPass,
    /// The IMAP `LOGIN` command (RFC 9051 §6.2.3), which is not SASL.
    Login,
    /// `SCRAM-SHA-256` (RFC 7677): a proof, the password stays with the client.
    ScramSha256,
    /// `SCRAM-SHA-256-PLUS` (RFC 5802 §6, RFC 9266): the same proof, bound to
    /// the TLS channel that carries it.
    ScramSha256Plus,
}

impl Mecanisme {
    /// The name of the mechanism as its RFC writes it.
    pub open spec fn spec_nom(self) -> Seq<char> {
        match self {
            Mecanisme::Plain => "PLAIN"@,
            Mecanisme::Login => "LOGIN"@,
            Mecanisme::UserPass => "USER/PASS"@,
            Mecanisme::ScramSha256 => "SCRAM-SHA-256"@,
            Mecanisme::ScramSha256Plus => "SCRAM-SHA-256-PLUS"@,
        }
    }

    /// Its name as the RFC writes it: the one that goes to the log.
    pub fn nom(self) -> (r: &'static str)
        ensures
            r@ == self.spec_nom(),
    {
        match self {
            Mecanisme::Plain => "PLAIN",
            Mecanisme::Login => "LOGIN",
            Mecanisme::UserPass => "USER/PASS",
            Mecanisme::ScramSha256 => "SCRAM-SHA-256",
            Mecanisme::ScramSha256Plus => "SCRAM-SHA-256-PLUS",
        }
    }

    /// The SCRAM mechanism that matches a proof bound, or not, to the channel.
    pub fn scram(liee: bool) -> (r: Self)
        ensures
            liee ==> r == Mecanisme::ScramSha256Plus,
            !liee ==> r == Mecanisme::ScramSha256,
    {
        if liee {
            Mecanisme::ScramSha256Plus
        } else {
            Mecanisme::ScramSha256
        }
    }
}

} // verus!
