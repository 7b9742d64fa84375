//! Server-side mail session state machines, free of input and output.
//!
//! A session receives one parsed command at a time, decides, and hands back
//! what must be answered and what its caller must do next. It never waits,
//! never reads a file and never touches the network: the caller parses the
//! lines, encodes the replies and performs the actions.

pub mod digits;
pub mod mecanisme;
pub mod octets;
pub mod policy;
pub mod pop3;
pub mod recipients;
pub mod sauts;
pub mod smtp;
pub mod scram;
pub mod tampon;

pub use mecanisme::Mecanisme;
pub use policy::{Authenticator, Credentials, Policy, RecipientVerdict};
pub use recipients::{ARENA_OCTETS, Notify, RECIPIENTS_MAX, Rapport, Recipients};
pub use smtp::config::{Capabilities, Config, SenderPolicy};
pub use smtp::etat::{Action, DataOutcome, HOPS_MAX, Reponse, SenderVerdict, Turn};
pub use smtp::{Error, SenderIdentity, SmtpSession};
