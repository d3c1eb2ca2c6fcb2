# ScreenLink

A zero-config software KVM for the local network: move the cursor off the edge
of one computer's screen and it continues on the next one, with the keyboard
and clipboard following. Devices find each other over mDNS, pair once by
comparing a six-digit code, and talk over TLS 1.3 (control) and an
authenticated, replay-protected UDP channel (input and screen mirroring).

## Layout

- `src/` — the verified library. Its functions state their behaviour in
  `requires`/`ensures` and are proved, except the small `external_body`
  wrappers that call the outside crates (`sha2`, `hex`, `chacha20poly1305`,
  `rcgen`, `image`, `arboard`) and one std call (`String::from_utf8_lossy`),
  whose contracts are trusted; a few functions have nothing to state
  (`set_dpi_aware`, `WinInjector::new`):
  - `protocol`, `framing` — wire types and length-prefixed frames;
  - `pairing`, `trust`, `security` — comparison codes, the trust store,
    certificate fingerprints and the pinning policy;
  - `replay`, `realtime`, `crypto` — the anti-replay window and the sealed
    UDP packet format over ChaCha20-Poly1305;
  - `session` — the per-connection state machine (hello, pairing, the
    authenticated control loop), returning the actions to perform;
  - `edge`, `hostinput`, `hotkey` — edge crossing with hysteresis, the host's
    input decisions, the snap-home chord and cursor parking;
  - `keymap_win`, `winhooks`, `enigo_map`, `rdev_map`, `input` — how portable
    events map to and from each platform's input layer;
  - `discovery`, `clipboard`, `loopback` — the peer list, the self-test
    diagnosis, clipboard echo suppression and the loopback verdict;
  - `video` — the pipeline seams, a test-pattern source, the JPEG codec's
    pixel work and chunked frame transport;
  - `config`, `bytes`, `error` — settings, byte helpers, errors.
- `app/` — the program around the library: sockets, TLS, threads, input
  injection through `enigo`, files, and the loop that drives the session state
  machine. There is no GUI, and no global input capture backend: this build
  can be controlled from another device but cannot act as the host (starting
  host capture reports an error).
- `tests/` — tests of the library's public API.

Run `screenlink --loopback` for a one-machine demo: two in-process peers pair
over localhost and one drives the other's input.
