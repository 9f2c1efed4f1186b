# netgene

The NetGene node platform's logic, verified with Verus.

- `src/` is the library: gene identities, keys and tokens; the kernel's
  agents, memory, registry, intent parsing, dispatch plans and Paillier
  arithmetic; governance votes; passkey challenges; the builder; the
  Kubernetes resource and its reconciliation. Every function has a
  contract that Verus proves. Calls into outside crates (ring, sha3,
  base64, chrono, uuid, rand, zeroize) and into std's clock sit behind
  small trusted wrappers whose contracts say what those crates document.
  Where a result depends on the clock or on chance, a function that takes
  that value as an argument (`*_at`, `*_with`) states the exact result.
- `tests/` runs the library on concrete values.
- `app/` is the command-line program: argument handling, files, HTTP to
  the language model, the async kernel runtime and the mesh network, and
  the floating-point parts (rewards, telemetry, neural and eBPF samples).
