# muiply

The core of Muiply, a desktop media player built on libmpv, as a Verus
library: the play queue and its navigation, the shuffle, nearby subtitle
discovery, the library's scan decisions and shared SQL, playlist ordering,
settings validation, and the orders and event decisions of the player.
Every function in `src/` with a body Verus reads is verified against its
contract; the public proof functions state the laws the library keeps. A
few small trusted wrappers, each marked `#[verifier::external_body]`, call
sha2, hex and the standard library (collecting characters, lowercasing, path parts, the
clock); their contracts are believed, not proved.

- `src/` — the verified library (`kuyruk`, `altyazi`, `kutuphane`,
  `tekilleme`, `calma_listesi`, `ayarlar`, `oynatici`, `mpv_komut`,
  `denetim`, `acilis`, `metin`, `hata`, `zaman`).
- `tests/` — tests of the library on concrete values.
- `app/` — the desktop shell around it: the Tauri window layer and
  commands, the SQLite database, the mpv engine and its event loop, the
  native video surface. It carries out what the library decides.
