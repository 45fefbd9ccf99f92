# kaspa_ng

The decision logic of the Kaspa NG wallet interface, written in Verus with
its contracts proved.

The pages of the wallet are state machines here: each page has a `State`,
the choices and texts it keeps, an `Event` for what happens on it, and a
`handle` (or `step`) method whose contract says, over a plain-value view,
which page and values follow and what the application is asked to do
(leave, open a module, ask the wallet for something). Laws that span
several steps (secrets wiped on leaving, requests made once, invariants
kept) are proof functions beside each machine.

## Layout

- `src/network.rs`: networks, network types and ids, address prefixes, the
  transaction rate from the consensus parameters, network pressure decisions.
- `src/notifications.rs`: user notifications and the notification list.
- `src/metrics.rs`: graph ranges, durations and the settings-store decision
  of the metrics page.
- `src/request.rs`: payment request URIs and their QR cache keys.
- `src/wallet_create.rs`, `src/wallet_open.rs`, `src/account_create.rs`,
  `src/wallet_secret.rs`, `src/export.rs`, `src/scanner.rs`, `src/import.rs`:
  the wallet pages.
- `src/account_manager.rs`, `src/send.rs`: the account page and its send
  panel (estimation, secrets, submission).
- `src/account.rs`, `src/descriptor.rs`, `src/transaction.rs`, `src/node.rs`,
  `src/overview.rs`, `src/settings.rs`: account kinds, descriptor lines,
  transaction list lines, peers, overview links, daemon argument messages
  and the apply/cancel decision of the node settings.
- `src/text.rs`: digits, trimming, splitting and joining of texts.
- `app/`: the serde form of the network, conversions to the Kaspa crates'
  types, and the floating-point parts (amounts in KAS, network pressure
  averages, graph grid spacing).
