//! Orders for the player engine, decided here and carried out by the
//! caller that owns the engine.

use vstd::prelude::*;

use crate::hata::Hata;

verus! {

/// One order for mpv: a command with its arguments, or a property to set.
pub enum MpvKomutu {
    Komut { ad: String, argumanlar: Vec<String> },
    AyarBayrak { ad: String, bayrak: bool },
    AyarSayi { ad: String, sayi: i64 },
    AyarMetin { ad: String, metin: String },
}

/// An [`MpvKomutu`] as plain values.
pub enum KomutGorunumu {
    Komut { ad: Seq<char>, argumanlar: Seq<Seq<char>> },
    AyarBayrak { ad: Seq<char>, bayrak: bool },
    AyarSayi { ad: Seq<char>, sayi: i64 },
    AyarMetin { ad: Seq<char>, metin: Seq<char> },
}

impl View for MpvKomutu {
    type V = KomutGorunumu;

    open spec fn view(&self) -> KomutGorunumu {
        match self {
            MpvKomutu::Komut { ad, argumanlar } => KomutGorunumu::Komut {
                ad: ad@,
                argumanlar: argumanlar@.map_values(|a: String| a@),
            },
            MpvKomutu::AyarBayrak { ad, bayrak } => KomutGorunumu::AyarBayrak { ad: ad@, bayrak: *bayrak },
            MpvKomutu::AyarSayi { ad, sayi } => KomutGorunumu::AyarSayi { ad: ad@, sayi: *sayi },
            MpvKomutu::AyarMetin { ad, metin } => KomutGorunumu::AyarMetin { ad: ad@, metin: metin@ },
        }
    }
}

pub open spec fn komut_gorunumu(ad: Seq<char>, argumanlar: Seq<Seq<char>>) -> KomutGorunumu {
    KomutGorunumu::Komut { ad, argumanlar }
}

fn metin(s: &str) -> (r: String)
    ensures
        r@ == s@,
{
    s.to_owned()
}

impl MpvKomutu {
    /// The command `ad` with the two arguments `a` and `b`.
    pub fn iki_argumanli(ad: &str, a: &str, b: &str) -> (r: MpvKomutu)
        ensures
            r@ == komut_gorunumu(ad@, seq![a@, b@]),
    {
        let mut argumanlar: Vec<String> = Vec::new();
        argumanlar.push(metin(a));
        argumanlar.push(metin(b));
        let r = MpvKomutu::Komut { ad: metin(ad), argumanlar };
        assert(argumanlar@.map_values(|x: String| x@) =~= seq![a@, b@]);
        r
    }
}

/// The top of the volume slider. mpv goes past 100 by amplifying, and the
/// sound distorts.
pub const SES_UST: i64 = 100;

/// Sets the volume, held to `0..=100`.
pub fn ses_ayarla(ses: i64) -> (r: MpvKomutu)
    ensures
        r@ == (KomutGorunumu::AyarSayi {
            ad: "volume"@,
            sayi: if ses < 0 {
                0
            } else if ses > SES_UST {
                SES_UST
            } else {
                ses
            },
        }),
{
    let deger = if ses < 0 {
        0
    } else if ses > SES_UST {
        SES_UST
    } else {
        ses
    };
    MpvKomutu::AyarSayi { ad: metin("volume"), sayi: deger }
}

/// Selects a subtitle track, or turns subtitles off with `None`. mpv's word
/// for "off" is the text `no`: track numbers start at 1 and `0` is not "no
/// track".
pub fn altyazi_izi_sec(iz: Option<i64>) -> (r: MpvKomutu)
    ensures
        match iz {
            Some(id) => r@ == (KomutGorunumu::AyarSayi { ad: "sid"@, sayi: id }),
            None => r@ == (KomutGorunumu::AyarMetin { ad: "sid"@, metin: "no"@ }),
        },
{
    match iz {
        Some(id) => MpvKomutu::AyarSayi { ad: metin("sid"), sayi: id },
        None => MpvKomutu::AyarMetin { ad: metin("sid"), metin: metin("no") },
    }
}

/// Sets the `pause` property: `false` plays, `true` pauses.
pub fn duraklatma(duraklat: bool) -> (r: MpvKomutu)
    ensures
        r@ == (KomutGorunumu::AyarBayrak { ad: "pause"@, bayrak: duraklat }),
{
    MpvKomutu::AyarBayrak { ad: metin("pause"), bayrak: duraklat }
}

/// Toggles between playing and paused.
pub fn duraklat_degistir() -> (r: MpvKomutu)
    ensures
        r@ == komut_gorunumu("cycle"@, seq!["pause"@]),
{
    let mut argumanlar: Vec<String> = Vec::new();
    argumanlar.push(metin("pause"));
    assert(argumanlar@.map_values(|x: String| x@) =~= seq!["pause"@]);
    MpvKomutu::Komut { ad: metin("cycle"), argumanlar }
}

/// Mutes or unmutes.
pub fn sessiz_ayarla(sessiz: bool) -> (r: MpvKomutu)
    ensures
        r@ == (KomutGorunumu::AyarBayrak { ad: "mute"@, bayrak: sessiz }),
{
    MpvKomutu::AyarBayrak { ad: metin("mute"), bayrak: sessiz }
}

/// Ends playback; mpv unloads the file.
pub fn dur() -> (r: MpvKomutu)
    ensures
        r@ == komut_gorunumu("stop"@, Seq::<Seq<char>>::empty()),
{
    let argumanlar: Vec<String> = Vec::new();
    assert(argumanlar@.map_values(|x: String| x@) =~= Seq::<Seq<char>>::empty());
    MpvKomutu::Komut { ad: metin("stop"), argumanlar }
}

/// The start of the error for a file that is not there.
pub const BULUNAMADI: &'static str = "dosya bulunamadı: ";

/// The orders that open a file and start it: load it in place of the
/// current one, then unpause (the previous file may have ended paused).
///
/// Whether `yol` names a file is asked first, by the caller that can look
/// at the disk: mpv accepts `loadfile` for a missing file and then ends it
/// silently with an error, leaving the user at an empty scene with no word
/// of why.
pub fn ac_komutlari(dosya_var: bool, yol: &str) -> (r: Result<Vec<MpvKomutu>, Hata>)
    ensures
        dosya_var ==> (r matches Ok(v) && v@.len() == 2
            && v@[0]@ == komut_gorunumu("loadfile"@, seq![yol@, "replace"@])
            && v@[1]@ == (KomutGorunumu::AyarBayrak { ad: "pause"@, bayrak: false })),
        !dosya_var ==> (r matches Err(e) && e@ == BULUNAMADI@ + yol@),
{
    if !dosya_var {
        return Err(Hata::onekli(BULUNAMADI, yol));
    }
    let mut v: Vec<MpvKomutu> = Vec::new();
    v.push(MpvKomutu::iki_argumanli("loadfile", yol, "replace"));
    v.push(duraklatma(false));
    Ok(v)
}

} // verus!
