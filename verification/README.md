# session_sharing_protocol

The message model of the session-sharing protocol between a sharing client, viewing
clients and the server, with its decision logic verified by Verus.

- `src/` is the verified library. `common/` holds the types shared by both sides
  (identifiers, participants and roles, presence, input, ordered terminal events,
  the universal developer input context, semantic-session negotiation and
  active-session snapshots); `sharer.rs` and `viewer.rs` hold the messages of each side.
  Every function states what it returns in its contract, and the properties that span
  functions stand as proof functions beside them (downgrading roles for clients without
  `Full`, merging input-context updates, accepting negotiated content and snapshot
  restore instructions).
- `src/common/ids.rs` and `src/common/byte_count.rs` hold the calls into the `uuid` and
  `byte-unit` crates, each behind a small trusted wrapper whose contract says what the
  crate documents.
- `app/` is the JSON wire encoding: a twin of every message type with the serde derives
  and attributes of the wire format, `From` conversions in both directions, and
  `from_json` / `to_json` on the four message enums.
- `tests/` runs the library on concrete values.
