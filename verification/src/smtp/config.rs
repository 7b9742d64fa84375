//! What a session is told once, when it opens.

use vstd::prelude::*;

use super::Error;

verus! {

/// The longest domain name (RFC 1035 §2.3.4).
pub const DOMAIN_MAX: usize = 255;

/// What the caller has declared it can conduct.
///
/// Nothing is announced that the caller has not declared: the default offers
/// neither `STARTTLS` nor `AUTH`, because it is the only default that does
/// not lie.
#[derive(Debug, Clone, Copy, PartialEq, Eq, Structural)]
pub struct Capabilities {
    /// The caller conducts the TLS handshake.
    pub starttls: bool,
    /// The caller checks credentials. `AUTH` is still only served under
    /// encryption, and that is not a setting.
    pub auth: bool,
    /// The caller can send delivery status notifications (RFC 3461).
    pub dsn: bool,
}

impl Default for Capabilities {
    fn default() -> (r: Capabilities)
        ensures
            r == (Capabilities { starttls: false, auth: false, dsn: false }),
    {
        Capabilities { starttls: false, auth: false, dsn: false }
    }
}

/// What the session does of the envelope sender (RFC 7208).
#[derive(Debug, Clone, Copy, PartialEq, Eq, Structural)]
pub enum SenderPolicy {
    /// Nothing: the sender is not checked.
    Ignore,
    /// The sender is checked and the verdict kept, but nothing is refused.
    Observe,
    /// The sender is checked, and a `fail` is refused.
    Enforce,
}

impl Default for SenderPolicy {
    fn default() -> (r: SenderPolicy)
        ensures
            r == SenderPolicy::Ignore,
    {
        SenderPolicy::Ignore
    }
}

/// The configuration of a session.
#[derive(Debug, Clone, PartialEq, Eq)]
pub struct Config {
    domain: Vec<u8>,
    max_recipients: usize,
    max_message_octets: u64,
    capabilities: Capabilities,
    sender_policy: SenderPolicy,
}

impl Config {
    /// The domain of this server, as it names itself.
    pub closed spec fn spec_domain(self) -> Seq<u8> {
        self.domain@
    }

    /// How many recipients a transaction accepts.
    pub closed spec fn spec_max_recipients(self) -> usize {
        self.max_recipients
    }

    /// How large a message may be.
    pub closed spec fn spec_max_message_octets(self) -> u64 {
        self.max_message_octets
    }

    /// What the caller conducts.
    pub closed spec fn spec_capabilities(self) -> Capabilities {
        self.capabilities
    }

    /// What is done of the envelope sender.
    pub closed spec fn spec_sender_policy(self) -> SenderPolicy {
        self.sender_policy
    }

    /// A configuration, if the domain can name a server: neither empty nor
    /// longer than a domain name can be.
    ///
    /// Nothing is offered (see [`Capabilities`]) and the sender is not
    /// checked until said otherwise.
    pub fn new(domain: &[u8], max_recipients: usize, max_message_octets: u64) -> (r: Result<Config, Error>)
        ensures
            r.is_ok() <==> 1 <= domain@.len() <= DOMAIN_MAX,
            r.is_err() ==> r == Err::<Config, Error>(Error::InvalidConfig),
            r matches Ok(c) ==> {
                &&& c.spec_domain() == domain@
                &&& c.spec_max_recipients() == max_recipients
                &&& c.spec_max_message_octets() == max_message_octets
                &&& c.spec_capabilities() == (Capabilities { starttls: false, auth: false, dsn: false })
                &&& c.spec_sender_policy() == SenderPolicy::Ignore
            },
    {
        if domain.len() == 0 || domain.len() > DOMAIN_MAX {
            return Err(Error::InvalidConfig);
        }
        Ok(Config {
            domain: crate::octets::copier(domain),
            max_recipients,
            max_message_octets,
            capabilities: Capabilities { starttls: false, auth: false, dsn: false },
            sender_policy: SenderPolicy::Ignore,
        })
    }

    /// The same configuration, with these capabilities.
    pub fn with_capabilities(self, capabilities: Capabilities) -> (r: Config)
        ensures
            r.spec_domain() == self.spec_domain(),
            r.spec_max_recipients() == self.spec_max_recipients(),
            r.spec_max_message_octets() == self.spec_max_message_octets(),
            r.spec_capabilities() == capabilities,
            r.spec_sender_policy() == self.spec_sender_policy(),
    {
        Config { capabilities, ..self }
    }

    /// The same configuration, with this sender policy.
    pub fn with_sender_policy(self, sender_policy: SenderPolicy) -> (r: Config)
        ensures
            r.spec_domain() == self.spec_domain(),
            r.spec_max_recipients() == self.spec_max_recipients(),
            r.spec_max_message_octets() == self.spec_max_message_octets(),
            r.spec_capabilities() == self.spec_capabilities(),
            r.spec_sender_policy() == sender_policy,
    {
        Config { sender_policy, ..self }
    }

    /// The domain of this server.
    pub fn domain(&self) -> (r: &[u8])
        ensures
            r@ == self.spec_domain(),
    {
        self.domain.as_slice()
    }

    /// How many recipients a transaction accepts.
    pub fn max_recipients(&self) -> (r: usize)
        ensures
            r == self.spec_max_recipients(),
    {
        self.max_recipients
    }

    /// How large a message may be.
    pub fn max_message_octets(&self) -> (r: u64)
        ensures
            r == self.spec_max_message_octets(),
    {
        self.max_message_octets
    }

    /// What the caller conducts.
    pub fn capabilities(&self) -> (r: Capabilities)
        ensures
            r == self.spec_capabilities(),
    {
        self.capabilities
    }

    /// What is done of the envelope sender.
    pub fn sender_policy(&self) -> (r: SenderPolicy)
        ensures
            r == self.spec_sender_policy(),
    {
        self.sender_policy
    }
}

} // verus!
