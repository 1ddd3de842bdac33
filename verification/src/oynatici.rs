//! Decisions of the player that do not need the engine itself: which kind
//! a loaded file is, how a text field read from mpv is kept, what the tray
//! tip says.

use vstd::prelude::*;

use crate::hata::Hata;
use crate::kutuphane::{ondalik, secenek_gorunumu, tamsayi_metni};
use crate::metin::{ekle, esit, kirp, kirpilmis, metin_yap};

verus! {

/// An audio, video or subtitle track.
pub struct Track {
    pub id: i64,
    /// `"video"` · `"audio"` · `"sub"`
    pub kind: String,
    pub title: Option<String>,
    pub lang: Option<String>,
    pub selected: bool,
    /// Whether it came from a file next to the video rather than from
    /// inside it.
    pub external: bool,
    pub codec: Option<String>,
}

impl Clone for Track {
    fn clone(&self) -> (r: Self)
        ensures
            r == *self,
    {
        Track {
            id: self.id,
            kind: self.kind.clone(),
            title: match &self.title {
                Some(t) => Some(t.clone()),
                None => None,
            },
            lang: match &self.lang {
                Some(t) => Some(t.clone()),
                None => None,
            },
            selected: self.selected,
            external: self.external,
            codec: match &self.codec {
                Some(t) => Some(t.clone()),
                None => None,
            },
        }
    }
}

/// An audio output mpv knows.
pub struct AudioDevice {
    /// The name written to the `audio-device` property.
    pub name: String,
    /// The name shown to the user; the `name` when mpv gives none.
    pub description: String,
}

/// A text field read from mpv: an empty or blank value counts as absent
/// (mpv may answer a missing field with an empty string), and so does a
/// failed read.
pub fn metin_alan(okunan: Result<String, Hata>) -> (r: Option<String>)
    ensures
        match okunan {
            Ok(s) => if kirpilmis(s@).len() > 0 {
                r matches Some(t) && t@ == s@
            } else {
                r is None
            },
            Err(_) => r is None,
        },
{
    match okunan {
        Ok(s) => {
            if kirp(s.as_str()).is_empty() {
                None
            } else {
                Some(s)
            }
        },
        Err(_) => None,
    }
}

/// An audio device from what was read of its name and description. A
/// device whose name could not be read is left out; a missing or blank
/// description shows the name.
pub fn aygit(name: Result<String, Hata>, description: Result<String, Hata>) -> (r: Option<AudioDevice>)
    ensures
        r is Some <==> name is Ok,
        r matches Some(a) ==> {
            &&& a.name@ == name->Ok_0@
            &&& a.description@ == match description {
                Ok(d) => if kirpilmis(d@).len() > 0 {
                    d@
                } else {
                    name->Ok_0@
                },
                Err(_) => name->Ok_0@,
            }
        },
{
    let name = match name {
        Ok(n) => n,
        Err(_) => {
            return None;
        },
    };
    let description = match metin_alan(description) {
        Some(d) => d,
        None => name.clone(),
    };
    Some(AudioDevice { name, description })
}

/// Whether some track is a video track.
pub open spec fn video_izi_var(izler: Seq<Track>) -> bool {
    exists|i: int| 0 <= i < izler.len() && izler[i].kind@ == "video"@
}

/// Whether a loaded file is `video` or `audio`. A video track is not enough:
/// an MP3 with cover art reports one, and then `albumart` is set and the
/// scene shows the cover.
pub fn tur_belirle(kapak: bool, izler: &Vec<Track>) -> (r: String)
    ensures
        r@ == if video_izi_var(izler@) && !kapak {
            "video"@
        } else {
            "audio"@
        },
{
    let mut var = false;
    let mut i: usize = 0;
    while i < izler.len()
        invariant
            i <= izler.len(),
            var == exists|k: int| 0 <= k < i && izler@[k].kind@ == "video"@,
        decreases izler.len() - i,
    {
        if esit(izler[i].kind.as_str(), "video") {
            var = true;
        }
        i += 1;
    }
    if var && !kapak {
        "video".to_owned()
    } else {
        "audio".to_owned()
    }
}

/// The tray tip: the application's name, followed by what is playing when
/// that has a non-blank title.
pub fn tepsi_ipucu(baslik: Option<&str>) -> (r: String)
    ensures
        r@ == match baslik {
            Some(b) => if kirpilmis(b@).len() > 0 {
                "Muiply — "@ + b@
            } else {
                "Muiply"@
            },
            None => "Muiply"@,
        },
{
    if let Some(b) = baslik {
        if !kirp(b).is_empty() {
            let mut v: Vec<char> = Vec::new();
            ekle(&mut v, "Muiply — ");
            ekle(&mut v, b);
            assert(Seq::<char>::empty() + "Muiply — "@ + b@ =~= "Muiply — "@ + b@);
            return metin_yap(&v);
        }
    }
    "Muiply".to_owned()
}

/// What `Path::file_name` yields for a path given as text: its last
/// component, `None` when the path ends in `..` or is a root.
pub uninterp spec fn dosya_ismi_spec(yol: Seq<char>) -> Option<Seq<char>>;

/// `Path::file_name`, on a path given as text. The standard library defines
/// the name by the path's components, with the separators of the platform
/// the program was built for; the contract names the result. The name is a
/// slice of valid text, so its lossy conversion is exact.
#[verifier::external_body]
fn dosya_ismi(yol: &str) -> (r: Option<String>)
    ensures
        secenek_gorunumu(r) == dosya_ismi_spec(yol@),
{
    std::path::Path::new(yol).file_name().map(|a| a.to_string_lossy().into_owned())
}

/// The file's name with its extension, or the whole path when it has no
/// file name.
pub open spec fn dosya_adi_spec(yol: Seq<char>) -> Seq<char> {
    match dosya_ismi_spec(yol) {
        Some(a) => a,
        None => yol,
    }
}

/// The file's name with its extension, or the whole path when it has no
/// file name.
pub fn dosya_adi(yol: &str) -> (r: String)
    ensures
        r@ == dosya_adi_spec(yol@),
{
    match dosya_ismi(yol) {
        Some(a) => a,
        None => yol.to_owned(),
    }
}

/// The title of a file that has just loaded: mpv's `media-title` when it
/// read and is not blank, the file's name otherwise.
pub fn yuklenen_baslik(medya_basligi: Result<String, Hata>, yol: &str) -> (r: String)
    ensures
        r@ == match medya_basligi {
            Ok(t) => if kirpilmis(t@).len() > 0 {
                t@
            } else {
                dosya_adi_spec(yol@)
            },
            Err(_) => dosya_adi_spec(yol@),
        },
{
    match metin_alan(medya_basligi) {
        Some(t) => t,
        None => dosya_adi(yol),
    }
}

/// Why mpv stopped playing a file.
#[derive(Clone, Copy, PartialEq, Eq, Structural)]
pub enum BitisSebebi {
    /// It played to the end.
    Eof,
    /// It was stopped, also by `loadfile replace`.
    Stop,
    Quit,
    Error,
    /// mpv follows a redirect; the file has not ended.
    Redirect,
}

/// What the end of a file leads to.
pub struct Bitis {
    /// The reason sent to the interface: `eof`, `stop`, `quit` or `error`.
    pub etiket: String,
    /// Whether the cached position goes back to zero (everything but a
    /// played-out file).
    pub konumu_sifirla: bool,
    /// Whether the file played to the end: its resume record is cleared
    /// and the queue moves on. Only then; a `loadfile replace` also ends a
    /// file, with the reason `stop`.
    pub sona_erdi: bool,
}

pub open spec fn sebep_etiketi(sebep: BitisSebebi) -> Seq<char> {
    match sebep {
        BitisSebebi::Eof => "eof"@,
        BitisSebebi::Stop => "stop"@,
        BitisSebebi::Quit => "quit"@,
        BitisSebebi::Error => "error"@,
        BitisSebebi::Redirect => "redirect"@,
    }
}

/// The decision on an end-of-file event; `None` for a redirect, which is
/// no end at all.
pub fn bitis_karari(sebep: BitisSebebi) -> (r: Option<Bitis>)
    ensures
        r is None <==> sebep == BitisSebebi::Redirect,
        r matches Some(b) ==> {
            &&& b.etiket@ == sebep_etiketi(sebep)
            &&& b.konumu_sifirla == (sebep != BitisSebebi::Eof)
            &&& b.sona_erdi == (sebep == BitisSebebi::Eof)
        },
{
    let etiket = match sebep {
        BitisSebebi::Eof => "eof",
        BitisSebebi::Stop => "stop",
        BitisSebebi::Quit => "quit",
        BitisSebebi::Error => "error",
        BitisSebebi::Redirect => {
            return None;
        },
    };
    proof {
        reveal_strlit("eof");
        reveal_strlit("stop");
        reveal_strlit("quit");
        reveal_strlit("error");
    }
    let sona_erdi = sebep == BitisSebebi::Eof;
    Some(Bitis { etiket: etiket.to_owned(), konumu_sifirla: !sona_erdi, sona_erdi })
}

/// How often, in milliseconds, the position goes to the interface: it
/// redraws no faster, so more events would only cross the bridge for
/// nothing.
pub const KONUM_ARALIGI_MS: u64 = 100;

/// How often, in milliseconds, the resume position is written to disk.
pub const KONUM_KAYDETME_MS: u64 = 5000;

/// What a new playback position leads to.
pub struct KonumKarari {
    /// Send it to the interface.
    pub yayinla: bool,
    /// Also write it as the file's resume position.
    pub kaydet: bool,
}

/// The decision on a position event, from the milliseconds since the last
/// position sent and since the last one written. A position that is not
/// sent is not written either.
pub fn konum_karari(son_yayindan_ms: u64, son_kayittan_ms: u64) -> (r: KonumKarari)
    ensures
        r.yayinla == (son_yayindan_ms >= KONUM_ARALIGI_MS),
        r.kaydet == (son_yayindan_ms >= KONUM_ARALIGI_MS && son_kayittan_ms >= KONUM_KAYDETME_MS),
{
    let yayinla = son_yayindan_ms >= KONUM_ARALIGI_MS;
    KonumKarari { yayinla, kaydet: yayinla && son_kayittan_ms >= KONUM_KAYDETME_MS }
}

/// The first word of a script message meant for the interface.
pub const ISTEK_ONEKI: &'static str = "muiply";

/// The action of a script message: `script-message muiply <action>` gives
/// `<action>`; other messages, and one without an action, give nothing.
pub fn istek_eylemi(parcalar: &Vec<String>) -> (r: Option<String>)
    ensures
        secenek_gorunumu(r) == if parcalar@.len() >= 2 && parcalar@[0]@ == "muiply"@ {
            Some(parcalar@[1]@)
        } else {
            None::<Seq<char>>
        },
{
    if parcalar.len() >= 2 && esit(parcalar[0].as_str(), ISTEK_ONEKI) {
        Some(parcalar[1].clone())
    } else {
        None
    }
}

/// The name of field `alan` of entry `i` of one of mpv's list properties
/// (`track-list`, `audio-device-list`).
pub fn liste_alani(liste: &str, i: i64, alan: &str) -> (r: String)
    ensures
        r@ == liste@ + "/"@ + ondalik(i as int) + "/"@ + alan@,
{
    let mut v: Vec<char> = Vec::new();
    ekle(&mut v, liste);
    ekle(&mut v, "/");
    let n = tamsayi_metni(i);
    ekle(&mut v, n.as_str());
    ekle(&mut v, "/");
    ekle(&mut v, alan);
    assert(v@ =~= liste@ + "/"@ + ondalik(i as int) + "/"@ + alan@);
    metin_yap(&v)
}

/// A flag read from mpv; a failed read counts as `false`.
pub open spec fn bayrak_ya_da_yok(okunan: Result<bool, Hata>) -> bool {
    match okunan {
        Ok(b) => b,
        Err(_) => false,
    }
}

/// A text field read from mpv as a plain value: blank or unread is absent.
pub open spec fn alan_gorunumu(okunan: Result<String, Hata>) -> Option<Seq<char>> {
    match okunan {
        Ok(s) => if kirpilmis(s@).len() > 0 {
            Some(s@)
        } else {
            None
        },
        Err(_) => None,
    }
}

/// One entry of the track list from what was read of its fields. An entry
/// whose type or id could not be read is left out: mpv may change the list
/// while a file loads, and a half-read entry would only show as an unknown
/// track.
pub fn iz_kur(
    tur: Result<String, Hata>,
    id: Result<i64, Hata>,
    baslik: Result<String, Hata>,
    dil: Result<String, Hata>,
    secili: Result<bool, Hata>,
    dis: Result<bool, Hata>,
    codec: Result<String, Hata>,
) -> (r: Option<Track>)
    ensures
        r is Some <==> (tur is Ok && id is Ok),
        r matches Some(t) ==> {
            &&& t.kind@ == tur->Ok_0@
            &&& t.id == id->Ok_0
            &&& secenek_gorunumu(t.title) == alan_gorunumu(baslik)
            &&& secenek_gorunumu(t.lang) == alan_gorunumu(dil)
            &&& secenek_gorunumu(t.codec) == alan_gorunumu(codec)
            &&& t.selected == bayrak_ya_da_yok(secili)
            &&& t.external == bayrak_ya_da_yok(dis)
        },
{
    let kind = match tur {
        Ok(k) => k,
        Err(_) => {
            return None;
        },
    };
    let id = match id {
        Ok(i) => i,
        Err(_) => {
            return None;
        },
    };
    let selected = match secili {
        Ok(b) => b,
        Err(_) => false,
    };
    let external = match dis {
        Ok(b) => b,
        Err(_) => false,
    };
    Some(Track {
        id,
        kind,
        title: metin_alan(baslik),
        lang: metin_alan(dil),
        selected,
        external,
        codec: metin_alan(codec),
    })
}

/// Whether a track is a subtitle track.
pub open spec fn altyazi_izi(t: Track) -> bool {
    t.kind@ == "sub"@
}

/// The subtitle tracks of a track list, in their order.
pub fn altyazi_izleri(izler: &Vec<Track>) -> (r: Vec<Track>)
    ensures
        r@ == izler@.filter(|t: Track| altyazi_izi(t)),
{
    let mut r: Vec<Track> = Vec::new();
    let mut i: usize = 0;
    while i < izler.len()
        invariant
            i <= izler.len(),
            r@ == izler@.take(i as int).filter(|t: Track| altyazi_izi(t)),
        decreases izler.len() - i,
    {
        let t = izler[i].clone();
        proof {
            assert(izler@.take(i + 1) =~= izler@.take(i as int).push(t));
            izler@.take(i as int).lemma_filter_push(t, |t: Track| altyazi_izi(t));
        }
        if esit(t.kind.as_str(), "sub") {
            r.push(t);
        }
        i += 1;
    }
    assert(izler@.take(i as int) =~= izler@);
    r
}

} // verus!
