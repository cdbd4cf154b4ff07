# tordial_gs_manifold

A hash-chained substrate ledger and the decision core of a homeostatic
economic actor, verified with Verus.

- `src/mesh.rs`: records, blocks, their canonical JSON, proof-of-work sealing
  (least sealing nonce), the ledger (`SubstrateMeshBus`) with synchronisation,
  appending and integrity checking, and the laws that keep a chain intact.
- `src/text.rs`: decimal and hexadecimal digits and JSON string escaping.
- `src/digest.rs`: SHA-256 through the `sha2` crate.
- `src/actor.rs`: the actor's counters, bounded decision ledger, update queue,
  the jiggle-step rules and the pacing of an autonomous session.
- `src/combiner.rs`: the combiner's first-in first-out update queue.
- `src/guard.rs`: the extraction guard, the propagation gate, its audit count
  and the metric trace signature.

Floating-point quantities never enter `src/`: a float of a ledger record is
held as its JSON number text, a float of the actor as its bit pattern.
`app/` holds the floating-point dynamics, file storage, the clock, the C
boundary and the Python bindings.
