# ram_core

The core of a Roblox account manager, written in Verus: the account roster,
the encrypted storage of `.ROBLOSECURITY` cookies (an AES-256-GCM file
backend and the OS credential store), and the decisions behind the user
interface's appearance system.

## Layout

- `src/` — the verified library.
  - `models.rs`: accounts, the account store, presets and other records.
  - `crypto.rs`: key derivation, store and cookie encryption, backend
    fallback when reading a cookie, and migration between backends.
  - `primitives.rs`: the calls into SHA-256, AES-GCM, the OS random source,
    Base64, UTF-8 decoding and the credential store, with the contracts that
    are trusted rather than proved.
  - `image_codec.rs`: the calls into the `image` crate (decoding, resizing,
    reading animation frames), trusted rather than proved.
  - `appearance.rs`, `background.rs`, `overlay.rs`, `settings.rs`, `neko.rs`:
    themes, image decoding with format sniffing, scaling and the frame
    budget, the corner overlay's state, the settings panel's decisions, and
    the image source rules.
  - `audio.rs`: when to open the audio device and which commands keep the
    rain player in step with the settings.
  - `error.rs`, `text.rs`: the error type and small string helpers.
- `tests/` — tests of the library on concrete values.
- `app/` — the unverified side: files, JSON, HTTP, egui drawing and audio.
