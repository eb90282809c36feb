# mu_online

Verified core of a MU Online client: the world (map) catalogue, the QUIC
wire protocol (channels, envelopes, frame codec), the byte-packed game
server packets, player settings, and the rules of the runtime scene
(terrain tiling and batching, grass placement, map effect budgets, camera
tour, debug toggles, the Death Stab effect timeline, render pools and scene
statistics).

- `src/` — the library, written in Verus: every function carries a
  contract, and the laws that relate functions are proved lemmas.
- `tests/` — unit and scenario tests run against the compiled library.
- `app/` — ordinary Rust around the library: serde/postcard/YAML/JSON
  forms of its types, file and environment access, and the float geometry
  of the renderer.
