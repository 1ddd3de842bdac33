//! Muiply's core: the play queue, subtitle discovery, argument filtering,
//! the library's scan decisions and shared SQL, playlist ordering, the
//! rules behind the player's settings, and what the player and its
//! controls do on each event.

pub mod acilis;
pub mod altyazi;
pub mod ayarlar;
pub mod calma_listesi;
pub mod denetim;
pub mod hata;
pub mod kuyruk;
pub mod kutuphane;
pub mod metin;
pub mod mpv_komut;
pub mod oynatici;
pub mod tekilleme;
pub mod zaman;
