# loom

Loom governs managed coding tasks for a host agent: it opens a candidate
task from the host's semantic judgments, starts it on explicit approval with
a scope snapshot, a risk baseline and an execution authorization, reissues
that authorization when the scope or the host's capabilities change, asks
the user before risky actions, reviews the worker's result and hands back a
result contract. The host talks to it through a local HTTP bridge whose
requests are signed with per-session credentials.

Layout:

- `src/` — the verified library (Verus). `model` holds the records and
  their abstract views; `risk` and `approval` assess risk and issue
  authorizations; `harness` holds each flow's decisions as functions from the
  records found to the records to store and the messages to send; `store`
  holds queue selection and acknowledgement rules; `bridge` holds credential
  issuance, request authentication and query parsing; `text` and `paths`
  are the text and path helpers these rest on. Public `law_*` proof
  functions state the properties that span several calls.
- `tests/` — tests of the library on concrete values.
- `app/` — the server around it: SQLite storage, the HTTP routes, the serde
  forms of the records and `main`.
