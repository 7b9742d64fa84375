# ams-session

Server-side state machines for SMTP and POP3 sessions, with the SASL and
SCRAM bookkeeping they share, written in Verus and proved against their
contracts.

A session takes one parsed command (or one event of the data phase) at a
time, decides, and hands back the reply to send and the action its caller
must take. It performs no input or output.

## Layout

- `src/` — the verified library.
  - `smtp.rs`, `smtp/` — the SMTP session: its commands (`commande.rs`), its
    configuration (`config.rs`), the states and transitions as spec functions
    (`etat.rs`), the replies and their enhanced status codes (`reponse.rs`),
    and the laws that hold of every run (`lois.rs`).
  - `pop3.rs`, `pop3/` — the POP3 session, the dot-stuffing of a message body
    (`emission.rs`) and its laws (`lois.rs`).
  - `recipients.rs` — the bounded list of accepted recipients with their
    delivery-status requests.
  - `policy.rs` — the traits through which the owner of the server
    authenticates clients and accepts recipients.
  - `sauts.rs` — the count of `Received:` fields at the head of a message.
  - `scram.rs`, `mecanisme.rs` — the SASL mechanisms offered and the SCRAM
    exchange state.
  - `tampon.rs`, `digits.rs`, `octets.rs` — bounded buffers, decimal
    numbers and byte helpers.
- `tests/` — the tests, run against the compiled library.
- `app/` — the glue to the protocol crates of the project: command-line
  grammars, reply encoders, data receivers, SASL decoding and header writers.
