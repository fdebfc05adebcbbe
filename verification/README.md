# codext_pool

The client side of an account pool. A process leases the credentials for its
model requests from a pool service, tells the service what it used, and keeps a
session alive through errors until its user ends it.

All decisions are verified with Verus; the specifications are over plain
mathematical values (`Seq<char>`, options, records).

- `src/lease.rs`: asking the pool for an account, settling its answer, giving the
  account back, installing the pool at startup
- `src/ledger.rs`: what each session used, on which account, with which model;
  the account in hand; a refusal that the pool has not been told of
- `src/status.rs`: whether the pool is out of accounts, and the one announcement
- `src/config.rs`: address, key, device id and wanted account, from the
  environment and a stored file
- `src/auth.rs`, `src/personal_access_token.rs`: the two kinds of credentials
- `src/error.rs`, `src/retry.rs`: classifying failed requests, waiting, and what is
  said of it
- `src/compaction.rs`: going on locally when a remote compaction failed
- `src/clock.rs`, `src/http.rs`, `src/text.rs`: readings of the clock, HTTP answers,
  text
- `src/laws/`: properties that span several operations
- `app/`: the state of a process, files, the network, logging and waiting

The clock (std and chrono) and shared handles (std) are trusted; each trusted
function says in its comment what is taken on trust.
