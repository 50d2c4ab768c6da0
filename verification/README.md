# ornament_tree

The verified core of a small web service: each account owns a tree of
messages, kept as a SHA-256 Merkle tree (`rs_merkle`) whose leaves are the
account hash followed by the hash of every message. Writing a message needs a
transcript showing that the writer and the account follow each other.

- `src/utils/transcript.rs` reads the transcript: the screen name and the
  mutual-follow statement, each with a contract that states the text pattern.
- `src/utils/hexcode.rs`, `src/utils/hash.rs` hex text of hashes.
- `src/utils/digest.rs`, `src/utils/merkle.rs` the SHA-256 and Merkle tree calls,
  with the contracts that the proofs rest on.
- `src/routes/` the decisions of each route: what is refused and how, which
  leaves the tree has, and what is stored and answered.
- `app/` the HTTP server, the database and the file store, which call the
  library for every decision.
