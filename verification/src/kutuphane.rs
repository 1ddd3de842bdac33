//! The library: which files count as media, record identities, and the
//! pieces of SQL that the queries share.

use vstd::prelude::*;

use crate::metin::{
    ekle, esit, karakterler, kirp, kirpilmis, metin_yap, once_mi, sozluk_once, sozluk_once_gecisli,
    sozluk_once_uclu, sozluk_once_yansimasiz,
};
use crate::tekilleme::{
    ilk_aday, ilk_yol, kaynaktan, yollari_kapsar, yolu_var,
    eklemeyle_genisler, kapsar_bulunanla, kaynaktan_genisler, tekilleme_basi, tekilleme_sonu,
};

pub use crate::zaman::simdi;

verus! {

// ---------------------------------------------------------------------------
// Media types.
// ---------------------------------------------------------------------------

/// The video extensions that are scanned: the subset of what libmpv opens
/// that users count as films. The same list is registered with the operating
/// system as the file types Muiply opens.
pub const VIDEO_UZANTILARI: [&'static str; 14] = [
    "mp4", "mkv", "avi", "mov", "webm", "flv", "ts", "m2ts", "wmv", "3gp", "ogv", "m4v", "mpg",
    "mpeg",
];

/// The audio extensions that are scanned.
pub const SES_UZANTILARI: [&'static str; 12] = [
    "mp3", "flac", "aac", "ogg", "opus", "wav", "m4a", "wma", "ape", "alac", "aiff", "mka",
];

/// The video extensions that are scanned (lowercase).
pub open spec fn video_uzantisi(u: Seq<char>) -> bool {
    ||| u == "mp4"@ ||| u == "mkv"@ ||| u == "avi"@ ||| u == "mov"@ ||| u == "webm"@
    ||| u == "flv"@ ||| u == "ts"@ ||| u == "m2ts"@ ||| u == "wmv"@ ||| u == "3gp"@
    ||| u == "ogv"@ ||| u == "m4v"@ ||| u == "mpg"@ ||| u == "mpeg"@
}

/// The audio extensions that are scanned (lowercase).
pub open spec fn ses_uzantisi(u: Seq<char>) -> bool {
    ||| u == "mp3"@ ||| u == "flac"@ ||| u == "aac"@ ||| u == "ogg"@ ||| u == "opus"@
    ||| u == "wav"@ ||| u == "m4a"@ ||| u == "wma"@ ||| u == "ape"@ ||| u == "alac"@
    ||| u == "aiff"@ ||| u == "mka"@
}

/// The video extensions are exactly the ones listed in [`VIDEO_UZANTILARI`].
pub proof fn video_uzantilari_listedekiler(u: Seq<char>)
    ensures
        forall|i: int| 0 <= i < 14 ==> video_uzantisi(#[trigger] VIDEO_UZANTILARI@[i]@),
        video_uzantisi(u) <==> exists|i: int| 0 <= i < 14 && u == #[trigger] VIDEO_UZANTILARI@[i]@,
{
    let l = VIDEO_UZANTILARI@;
    assert(l[0] == "mp4");
    assert(l[1] == "mkv");
    assert(l[2] == "avi");
    assert(l[3] == "mov");
    assert(l[4] == "webm");
    assert(l[5] == "flv");
    assert(l[6] == "ts");
    assert(l[7] == "m2ts");
    assert(l[8] == "wmv");
    assert(l[9] == "3gp");
    assert(l[10] == "ogv");
    assert(l[11] == "m4v");
    assert(l[12] == "mpg");
    assert(l[13] == "mpeg");
    if video_uzantisi(u) {
        if u == "mp4"@ {
            assert(u == l[0]@);
        } else if u == "mkv"@ {
            assert(u == l[1]@);
        } else if u == "avi"@ {
            assert(u == l[2]@);
        } else if u == "mov"@ {
            assert(u == l[3]@);
        } else if u == "webm"@ {
            assert(u == l[4]@);
        } else if u == "flv"@ {
            assert(u == l[5]@);
        } else if u == "ts"@ {
            assert(u == l[6]@);
        } else if u == "m2ts"@ {
            assert(u == l[7]@);
        } else if u == "wmv"@ {
            assert(u == l[8]@);
        } else if u == "3gp"@ {
            assert(u == l[9]@);
        } else if u == "ogv"@ {
            assert(u == l[10]@);
        } else if u == "m4v"@ {
            assert(u == l[11]@);
        } else if u == "mpg"@ {
            assert(u == l[12]@);
        } else {
            assert(u == l[13]@);
        }
    }
}

/// The audio extensions are exactly the ones listed in [`SES_UZANTILARI`].
pub proof fn ses_uzantilari_listedekiler(u: Seq<char>)
    ensures
        forall|i: int| 0 <= i < 12 ==> ses_uzantisi(#[trigger] SES_UZANTILARI@[i]@),
        ses_uzantisi(u) <==> exists|i: int| 0 <= i < 12 && u == #[trigger] SES_UZANTILARI@[i]@,
{
    let l = SES_UZANTILARI@;
    assert(l[0] == "mp3");
    assert(l[1] == "flac");
    assert(l[2] == "aac");
    assert(l[3] == "ogg");
    assert(l[4] == "opus");
    assert(l[5] == "wav");
    assert(l[6] == "m4a");
    assert(l[7] == "wma");
    assert(l[8] == "ape");
    assert(l[9] == "alac");
    assert(l[10] == "aiff");
    assert(l[11] == "mka");
    if ses_uzantisi(u) {
        if u == "mp3"@ {
            assert(u == l[0]@);
        } else if u == "flac"@ {
            assert(u == l[1]@);
        } else if u == "aac"@ {
            assert(u == l[2]@);
        } else if u == "ogg"@ {
            assert(u == l[3]@);
        } else if u == "opus"@ {
            assert(u == l[4]@);
        } else if u == "wav"@ {
            assert(u == l[5]@);
        } else if u == "m4a"@ {
            assert(u == l[6]@);
        } else if u == "wma"@ {
            assert(u == l[7]@);
        } else if u == "ape"@ {
            assert(u == l[8]@);
        } else if u == "alac"@ {
            assert(u == l[9]@);
        } else if u == "aiff"@ {
            assert(u == l[10]@);
        } else {
            assert(u == l[11]@);
        }
    }
}

pub fn video_uzantisi_mi(u: &str) -> (r: bool)
    ensures
        r == video_uzantisi(u@),
{
    esit(u, "mp4") || esit(u, "mkv") || esit(u, "avi") || esit(u, "mov") || esit(u, "webm")
        || esit(u, "flv") || esit(u, "ts") || esit(u, "m2ts") || esit(u, "wmv") || esit(u, "3gp")
        || esit(u, "ogv") || esit(u, "m4v") || esit(u, "mpg") || esit(u, "mpeg")
}

pub fn ses_uzantisi_mi(u: &str) -> (r: bool)
    ensures
        r == ses_uzantisi(u@),
{
    esit(u, "mp3") || esit(u, "flac") || esit(u, "aac") || esit(u, "ogg") || esit(u, "opus")
        || esit(u, "wav") || esit(u, "m4a") || esit(u, "wma") || esit(u, "ape") || esit(u, "alac")
        || esit(u, "aiff") || esit(u, "mka")
}

/// ASCII letters lowercased, everything else as it is.
pub open spec fn ascii_kucuk(c: char) -> char {
    if 'A' <= c && c <= 'Z' {
        ((c as u32) + 32) as char
    } else {
        c
    }
}

pub open spec fn ascii_kucuk_metin(s: Seq<char>) -> Seq<char> {
    s.map_values(|c: char| ascii_kucuk(c))
}

fn ascii_kucult(s: &str) -> (r: String)
    ensures
        r@ == ascii_kucuk_metin(s@),
{
    let k = karakterler(s);
    let mut v: Vec<char> = Vec::new();
    let mut i: usize = 0;
    while i < k.len()
        invariant
            i <= k.len(),
            v@ == ascii_kucuk_metin(k@.take(i as int)),
        decreases k.len() - i,
    {
        let c = k[i];
        let d = if 'A' <= c && c <= 'Z' {
            let kod: u32 = (c as u32) + 32;
            assert(kod <= 0x7f);
            (kod as u8) as char
        } else {
            c
        };
        v.push(d);
        i += 1;
        assert(v@ =~= ascii_kucuk_metin(k@.take(i as int)));
    }
    assert(k@.take(i as int) =~= k@);
    metin_yap(&v)
}

/// The media type of an extension (compared without regard to ASCII case):
/// `video`, `audio`, or `None` for an extension that is not scanned.
pub open spec fn tur_spec(uzanti: Seq<char>) -> Option<Seq<char>> {
    let u = ascii_kucuk_metin(uzanti);
    if video_uzantisi(u) {
        Some("video"@)
    } else if ses_uzantisi(u) {
        Some("audio"@)
    } else {
        None
    }
}

pub fn tur(uzanti: &str) -> (r: Option<&'static str>)
    ensures
        match r {
            Some(t) => tur_spec(uzanti@) == Some(t@),
            None => tur_spec(uzanti@) is None,
        },
{
    let u = ascii_kucult(uzanti);
    if video_uzantisi_mi(u.as_str()) {
        let t = "video";
        proof {
            reveal_strlit("video");
        }
        Some(t)
    } else if ses_uzantisi_mi(u.as_str()) {
        let t = "audio";
        proof {
            reveal_strlit("audio");
        }
        Some(t)
    } else {
        None
    }
}

/// No extension is both a video and an audio extension, so [`tur`] never
/// has to choose between the two lists.
#[verifier::rlimit(50)]
pub proof fn iki_liste_kesismiyor(u: Seq<char>)
    ensures
        !(video_uzantisi(u) && ses_uzantisi(u)),
{
    reveal_strlit("mp4");
    reveal_strlit("mkv");
    reveal_strlit("avi");
    reveal_strlit("mov");
    reveal_strlit("webm");
    reveal_strlit("flv");
    reveal_strlit("ts");
    reveal_strlit("m2ts");
    reveal_strlit("wmv");
    reveal_strlit("3gp");
    reveal_strlit("ogv");
    reveal_strlit("m4v");
    reveal_strlit("mpg");
    reveal_strlit("mpeg");
    reveal_strlit("mp3");
    reveal_strlit("flac");
    reveal_strlit("aac");
    reveal_strlit("ogg");
    reveal_strlit("opus");
    reveal_strlit("wav");
    reveal_strlit("m4a");
    reveal_strlit("wma");
    reveal_strlit("ape");
    reveal_strlit("alac");
    reveal_strlit("aiff");
    reveal_strlit("mka");
    assert("mp4"@[2] != "mp3"@[2]);
    assert("mp4"@[0] != "aac"@[0]);
    assert("mp4"@[0] != "ogg"@[0]);
    assert("mp4"@[0] != "wav"@[0]);
    assert("mp4"@[1] != "m4a"@[1]);
    assert("mp4"@[0] != "wma"@[0]);
    assert("mp4"@[0] != "ape"@[0]);
    assert("mp4"@[1] != "mka"@[1]);
    assert("mkv"@[1] != "mp3"@[1]);
    assert("mkv"@[0] != "aac"@[0]);
    assert("mkv"@[0] != "ogg"@[0]);
    assert("mkv"@[0] != "wav"@[0]);
    assert("mkv"@[1] != "m4a"@[1]);
    assert("mkv"@[0] != "wma"@[0]);
    assert("mkv"@[0] != "ape"@[0]);
    assert("mkv"@[2] != "mka"@[2]);
    assert("avi"@[0] != "mp3"@[0]);
    assert("avi"@[1] != "aac"@[1]);
    assert("avi"@[0] != "ogg"@[0]);
    assert("avi"@[0] != "wav"@[0]);
    assert("avi"@[0] != "m4a"@[0]);
    assert("avi"@[0] != "wma"@[0]);
    assert("avi"@[1] != "ape"@[1]);
    assert("avi"@[0] != "mka"@[0]);
    assert("mov"@[1] != "mp3"@[1]);
    assert("mov"@[0] != "aac"@[0]);
    assert("mov"@[0] != "ogg"@[0]);
    assert("mov"@[0] != "wav"@[0]);
    assert("mov"@[1] != "m4a"@[1]);
    assert("mov"@[0] != "wma"@[0]);
    assert("mov"@[0] != "ape"@[0]);
    assert("mov"@[1] != "mka"@[1]);
    assert("webm"@[0] != "flac"@[0]);
    assert("webm"@[0] != "opus"@[0]);
    assert("webm"@[0] != "alac"@[0]);
    assert("webm"@[0] != "aiff"@[0]);
    assert("flv"@[0] != "mp3"@[0]);
    assert("flv"@[0] != "aac"@[0]);
    assert("flv"@[0] != "ogg"@[0]);
    assert("flv"@[0] != "wav"@[0]);
    assert("flv"@[0] != "m4a"@[0]);
    assert("flv"@[0] != "wma"@[0]);
    assert("flv"@[0] != "ape"@[0]);
    assert("flv"@[0] != "mka"@[0]);
    assert("m2ts"@[0] != "flac"@[0]);
    assert("m2ts"@[0] != "opus"@[0]);
    assert("m2ts"@[0] != "alac"@[0]);
    assert("m2ts"@[0] != "aiff"@[0]);
    assert("wmv"@[0] != "mp3"@[0]);
    assert("wmv"@[0] != "aac"@[0]);
    assert("wmv"@[0] != "ogg"@[0]);
    assert("wmv"@[1] != "wav"@[1]);
    assert("wmv"@[0] != "m4a"@[0]);
    assert("wmv"@[2] != "wma"@[2]);
    assert("wmv"@[0] != "ape"@[0]);
    assert("wmv"@[0] != "mka"@[0]);
    assert("3gp"@[0] != "mp3"@[0]);
    assert("3gp"@[0] != "aac"@[0]);
    assert("3gp"@[0] != "ogg"@[0]);
    assert("3gp"@[0] != "wav"@[0]);
    assert("3gp"@[0] != "m4a"@[0]);
    assert("3gp"@[0] != "wma"@[0]);
    assert("3gp"@[0] != "ape"@[0]);
    assert("3gp"@[0] != "mka"@[0]);
    assert("ogv"@[0] != "mp3"@[0]);
    assert("ogv"@[0] != "aac"@[0]);
    assert("ogv"@[2] != "ogg"@[2]);
    assert("ogv"@[0] != "wav"@[0]);
    assert("ogv"@[0] != "m4a"@[0]);
    assert("ogv"@[0] != "wma"@[0]);
    assert("ogv"@[0] != "ape"@[0]);
    assert("ogv"@[0] != "mka"@[0]);
    assert("m4v"@[1] != "mp3"@[1]);
    assert("m4v"@[0] != "aac"@[0]);
    assert("m4v"@[0] != "ogg"@[0]);
    assert("m4v"@[0] != "wav"@[0]);
    assert("m4v"@[2] != "m4a"@[2]);
    assert("m4v"@[0] != "wma"@[0]);
    assert("m4v"@[0] != "ape"@[0]);
    assert("m4v"@[1] != "mka"@[1]);
    assert("mpg"@[2] != "mp3"@[2]);
    assert("mpg"@[0] != "aac"@[0]);
    assert("mpg"@[0] != "ogg"@[0]);
    assert("mpg"@[0] != "wav"@[0]);
    assert("mpg"@[1] != "m4a"@[1]);
    assert("mpg"@[0] != "wma"@[0]);
    assert("mpg"@[0] != "ape"@[0]);
    assert("mpg"@[1] != "mka"@[1]);
    assert("mpeg"@[0] != "flac"@[0]);
    assert("mpeg"@[0] != "opus"@[0]);
    assert("mpeg"@[0] != "alac"@[0]);
    assert("mpeg"@[0] != "aiff"@[0]);
    assert("flv"@.len() != "flac"@.len());
    assert("flv"@.len() != "opus"@.len());
    assert("flv"@.len() != "alac"@.len());
    assert("flv"@.len() != "aiff"@.len());
    assert(!ses_uzantisi("mp4"@));
    assert(!ses_uzantisi("mkv"@));
    assert(!ses_uzantisi("avi"@));
    assert(!ses_uzantisi("mov"@));
    assert(!ses_uzantisi("webm"@));
    assert(!ses_uzantisi("flv"@));
    assert(!ses_uzantisi("ts"@));
    assert(!ses_uzantisi("m2ts"@));
    assert(!ses_uzantisi("wmv"@));
    assert(!ses_uzantisi("3gp"@));
    assert(!ses_uzantisi("ogv"@));
    assert(!ses_uzantisi("m4v"@));
    assert(!ses_uzantisi("mpg"@));
    assert(!ses_uzantisi("mpeg"@));
}

/// The filter of the media list. There is no search here: the interface
/// filters as the user types.
pub struct MediaFilter {
    /// `"video"` · `"audio"` · absent for both.
    pub media_type: Option<String>,
    /// `"title"` · `"added"` · `"played"` · `"duration"`; `added` by default.
    pub sort: Option<String>,
    pub limit: Option<i64>,
}

impl Default for MediaFilter {
    fn default() -> (r: Self)
        ensures
            r.media_type is None,
            r.sort is None,
            r.limit is None,
    {
        MediaFilter { media_type: None, sort: None, limit: None }
    }
}

// ---------------------------------------------------------------------------
// Record identity: the first 16 bytes of the path's SHA-256, in hex.
// ---------------------------------------------------------------------------

/// What `sha2::Sha256::digest` yields for some bytes.
pub uninterp spec fn sha256(veri: Seq<u8>) -> Seq<u8>;

/// `sha2::Sha256::digest`: the SHA-256 digest of `veri`. The contract names
/// the result and states that it is 32 bytes long, which the output type
/// fixes.
#[verifier::external_body]
fn sha256_ozet(veri: &[u8]) -> (r: Vec<u8>)
    ensures
        r@ == sha256(veri@),
        r@.len() == 32,
{
    <sha2::Sha256 as sha2::Digest>::digest(veri).to_vec()
}

/// The lowercase hexadecimal digit of a value below 16.
pub open spec fn hex_hane(n: int) -> char {
    if n < 10 {
        (48 + n) as char
    } else {
        (87 + n) as char
    }
}

/// Bytes as lowercase hexadecimal text, two digits per byte, high digit
/// first.
pub open spec fn hex_metni(b: Seq<u8>) -> Seq<char>
    decreases b.len(),
{
    if b.len() == 0 {
        Seq::<char>::empty()
    } else {
        hex_metni(b.drop_last()) + seq![hex_hane((b.last() / 16) as int), hex_hane((b.last() % 16) as int)]
    }
}

/// `hex::encode`: the crate documents the result as the bytes written in
/// lowercase hexadecimal, two characters per byte.
#[verifier::external_body]
fn hex_kodla(veri: &[u8]) -> (r: String)
    ensures
        r@ == hex_metni(veri@),
{
    hex::encode(veri)
}

/// A record's identity, derived from its path: two copies of one file are
/// two records.
pub fn kimlik(yol: &str) -> (r: String)
    ensures
        r@ == hex_metni(sha256(vstd::utf8::encode_utf8(yol@)).take(16)),
{
    let ozet = sha256_ozet(yol.as_bytes());
    let mut ilk: Vec<u8> = Vec::new();
    let mut i: usize = 0;
    while i < 16
        invariant
            i <= 16,
            ozet@.len() == 32,
            ilk@ == ozet@.take(i as int),
        decreases 16 - i,
    {
        ilk.push(ozet[i]);
        i += 1;
        assert(ilk@ =~= ozet@.take(i as int));
    }
    hex_kodla(ilk.as_slice())
}

// ---------------------------------------------------------------------------
// "Is this path under that folder" for SQL LIKE.
// ---------------------------------------------------------------------------

/// Whether `c` means something in a LIKE pattern (with `\` as the escape).
pub open spec fn like_ozel(c: char) -> bool {
    c == '\\' || c == '%' || c == '_'
}

/// `s` with every LIKE-special character preceded by `\`.
pub open spec fn like_kacir_spec(s: Seq<char>) -> Seq<char>
    decreases s.len(),
{
    if s.len() == 0 {
        Seq::<char>::empty()
    } else if like_ozel(s.last()) {
        like_kacir_spec(s.drop_last()) + seq!['\\', s.last()]
    } else {
        like_kacir_spec(s.drop_last()).push(s.last())
    }
}

/// Escapes the characters that mean something in a LIKE pattern. `%` and
/// `_` are valid in file names: unescaped, `C:\Muzik_2024` would also match
/// `C:\MuzikX2024`.
pub fn like_kacir(metin: &str) -> (r: String)
    ensures
        r@ == like_kacir_spec(metin@),
{
    let k = karakterler(metin);
    let mut v: Vec<char> = Vec::new();
    let mut i: usize = 0;
    while i < k.len()
        invariant
            i <= k.len(),
            v@ == like_kacir_spec(k@.take(i as int)),
        decreases k.len() - i,
    {
        proof {
            assert(k@.take(i + 1).drop_last() =~= k@.take(i as int));
        }
        let c = k[i];
        if c == '\\' || c == '%' || c == '_' {
            v.push('\\');
        }
        v.push(c);
        i += 1;
        assert(v@ =~= like_kacir_spec(k@.take(i as int)));
    }
    assert(k@.take(i as int) =~= k@);
    metin_yap(&v)
}

/// The text a LIKE pattern stands for when it has no wildcard: every `\`
/// takes the next character literally; `None` when an unescaped `%` or `_`
/// remains, or the pattern ends in a lone `\`.
pub open spec fn duz_desen(p: Seq<char>) -> Option<Seq<char>>
    decreases p.len(),
{
    if p.len() == 0 {
        Some(Seq::<char>::empty())
    } else if p[0] == '\\' {
        if p.len() >= 2 {
            match duz_desen(p.skip(2)) {
                Some(t) => Some(seq![p[1]] + t),
                None => None,
            }
        } else {
            None
        }
    } else if p[0] == '%' || p[0] == '_' {
        None
    } else {
        match duz_desen(p.skip(1)) {
            Some(t) => Some(seq![p[0]] + t),
            None => None,
        }
    }
}

proof fn kacirilmis_onek(s: Seq<char>, q: Seq<char>)
    ensures
        duz_desen(like_kacir_spec(s) + q) == match duz_desen(q) {
            Some(t) => Some(s + t),
            None => None::<Seq<char>>,
        },
    decreases s.len(),
{
    if s.len() == 0 {
        assert(like_kacir_spec(s) + q =~= q);
        assert(s + Seq::<char>::empty() =~= s);
        match duz_desen(q) {
            Some(t) => assert(s + t =~= t),
            None => {},
        }
    } else {
        let c = s.last();
        let on = s.drop_last();
        let parca = if like_ozel(c) {
            seq!['\\', c]
        } else {
            seq![c]
        };
        assert(like_kacir_spec(s) == like_kacir_spec(on) + parca);
        assert(like_kacir_spec(s) + q =~= like_kacir_spec(on) + (parca + q));
        kacirilmis_onek(on, parca + q);
        let pq = parca + q;
        if like_ozel(c) {
            assert(pq.skip(2) =~= q);
        } else {
            assert(pq.skip(1) =~= q);
        }
        match duz_desen(q) {
            Some(t) => {
                assert(duz_desen(pq) == Some(seq![c] + t));
                assert(on + (seq![c] + t) =~= s + t);
            },
            None => {},
        }
    }
}

/// Escaping makes a pattern with no wildcard left that stands for the text
/// itself: an `_` or `%` in a folder's name matches only itself.
pub proof fn kacirilan_duz_kalir(s: Seq<char>)
    ensures
        duz_desen(like_kacir_spec(s)) == Some(s),
{
    kacirilmis_onek(s, Seq::<char>::empty());
    assert(like_kacir_spec(s) + Seq::<char>::empty() =~= like_kacir_spec(s));
    assert(s + Seq::<char>::empty() =~= s);
}

/// `s` without its trailing `/` and `\` characters.
pub open spec fn sondaki_ayraclar_kirpilmis(s: Seq<char>) -> Seq<char>
    decreases s.len(),
{
    if s.len() > 0 && (s.last() == '/' || s.last() == '\\') {
        sondaki_ayraclar_kirpilmis(s.drop_last())
    } else {
        s
    }
}

/// The two LIKE patterns that match paths under `kok`: with a `\`
/// separator and with a `/` separator.
pub open spec fn alt_yol_desenleri_spec(kok: Seq<char>) -> (Seq<char>, Seq<char>) {
    let govde = like_kacir_spec(sondaki_ayraclar_kirpilmis(kok));
    (govde + seq!['\\', '\\', '%'], govde + seq!['/', '%'])
}

/// The patterns for "under this folder". The separator is part of the
/// pattern: `C:\Videos%` alone would also match the sibling `C:\Videos2`.
/// The root's own trailing separators are dropped first, so a drive root
/// like `C:\` works too.
pub fn alt_yol_desenleri(kok: &str) -> (r: (String, String))
    ensures
        (r.0@, r.1@) == alt_yol_desenleri_spec(kok@),
{
    let k = karakterler(kok);
    let mut n: usize = k.len();
    assert(k@.take(n as int) =~= k@);
    while n > 0 && (k[n - 1] == '/' || k[n - 1] == '\\')
        invariant
            n <= k.len(),
            sondaki_ayraclar_kirpilmis(k@) == sondaki_ayraclar_kirpilmis(k@.take(n as int)),
        decreases n,
    {
        assert(k@.take(n as int).drop_last() =~= k@.take(n - 1));
        n -= 1;
    }
    let mut temiz: Vec<char> = Vec::new();
    let mut i: usize = 0;
    while i < n
        invariant
            n <= k.len(),
            i <= n,
            temiz@ == k@.take(i as int),
        decreases n - i,
    {
        temiz.push(k[i]);
        i += 1;
        assert(temiz@ =~= k@.take(i as int));
    }
    proof {
        assert(k@.take(k.len() as int) =~= k@);
    }
    let govde = like_kacir(metin_yap(&temiz).as_str());
    let mut ters = karakterler(govde.as_str());
    ters.push('\\');
    ters.push('\\');
    ters.push('%');
    let mut duz = karakterler(govde.as_str());
    duz.push('/');
    duz.push('%');
    proof {
        assert(ters@ =~= like_kacir_spec(sondaki_ayraclar_kirpilmis(kok@)) + seq!['\\', '\\', '%']);
        assert(duz@ =~= like_kacir_spec(sondaki_ayraclar_kirpilmis(kok@)) + seq!['/', '%']);
    }
    (metin_yap(&ters), metin_yap(&duz))
}

// ---------------------------------------------------------------------------
// The column list of the queries that produce media records.
// ---------------------------------------------------------------------------

/// The column order of every query that reads a media record: one list,
/// because the record is read by position.
pub const SUTUNLAR: &'static str = "id, path, title, artist, album, duration, width, height, size, media_type, extension, thumbnail, added_at, last_played, play_count, last_position";

/// The number of columns in [`SUTUNLAR`]: the first index a query that adds
/// its own column after the media columns reads it from.
pub const SUTUN_SAYISI: usize = 16;

/// "Under this folder", with the two patterns of [`alt_yol_desenleri`] as
/// `?1` and `?2`.
pub const ALT_YOL_KOSULU: &'static str = "(path LIKE ?1 ESCAPE '\\' OR path LIKE ?2 ESCAPE '\\')";

/// `s` cut at every `c`, as `str::split` does: always at least one piece,
/// and an empty piece between two neighbouring separators.
pub open spec fn parcala(s: Seq<char>, c: char) -> Seq<Seq<char>>
    decreases s.len(),
{
    if s.len() == 0 {
        seq![Seq::<char>::empty()]
    } else {
        let p = parcala(s.drop_last(), c);
        if s.last() == c {
            p.push(Seq::<char>::empty())
        } else {
            p.update(p.len() - 1, p.last().push(s.last()))
        }
    }
}

proof fn parcala_bos_degil(s: Seq<char>, c: char)
    ensures
        parcala(s, c).len() >= 1,
    decreases s.len(),
{
    if s.len() > 0 {
        parcala_bos_degil(s.drop_last(), c);
    }
}

/// The pieces joined with `ayirac` between them.
pub open spec fn birlestir(p: Seq<Seq<char>>, ayirac: Seq<char>) -> Seq<char>
    decreases p.len(),
{
    if p.len() == 0 {
        Seq::<char>::empty()
    } else if p.len() == 1 {
        p[0]
    } else {
        birlestir(p.drop_last(), ayirac) + ayirac + p.last()
    }
}

/// A column name qualified by a table name.
pub open spec fn nitelikli(onek: Seq<char>, parca: Seq<char>) -> Seq<char> {
    onek + "."@ + kirpilmis(parca)
}

fn parcalara_ayir(s: &Vec<char>, c: char) -> (r: Vec<Vec<char>>)
    ensures
        r@.len() == parcala(s@, c).len(),
        forall|i: int| 0 <= i < r@.len() ==> #[trigger] r@[i]@ == parcala(s@, c)[i],
{
    let mut r: Vec<Vec<char>> = Vec::new();
    let mut cur: Vec<char> = Vec::new();
    let mut i: usize = 0;
    while i < s.len()
        invariant
            i <= s.len(),
            r@.len() + 1 == parcala(s@.take(i as int), c).len(),
            forall|k: int| 0 <= k < r@.len() ==> #[trigger] r@[k]@ == parcala(s@.take(i as int), c)[k],
            cur@ == parcala(s@.take(i as int), c).last(),
        decreases s.len() - i,
    {
        proof {
            assert(s@.take(i + 1).drop_last() =~= s@.take(i as int));
            parcala_bos_degil(s@.take(i as int), c);
        }
        if s[i] == c {
            let bitti = cur;
            r.push(bitti);
            cur = Vec::new();
        } else {
            cur.push(s[i]);
        }
        i += 1;
    }
    proof {
        assert(s@.take(i as int) =~= s@);
    }
    r.push(cur);
    r
}

/// The media columns qualified by a table name: `m.id, m.path, ...`, for
/// queries with a join, where `media` and another table share column names.
pub fn sutunlar(onek: &str) -> (r: String)
    ensures
        r@ == birlestir(parcala(SUTUNLAR@, ',').map_values(|p: Seq<char>| nitelikli(onek@, p)), ", "@),
{
    let parcalar = parcalara_ayir(&karakterler(SUTUNLAR), ',');
    let ghost hedef = parcala(SUTUNLAR@, ',').map_values(|p: Seq<char>| nitelikli(onek@, p));
    let mut v: Vec<char> = Vec::new();
    let mut i: usize = 0;
    while i < parcalar.len()
        invariant
            i <= parcalar.len(),
            parcalar@.len() == parcala(SUTUNLAR@, ',').len(),
            forall|k: int| 0 <= k < parcalar@.len() ==> #[trigger] parcalar@[k]@ == parcala(SUTUNLAR@, ',')[k],
            hedef == parcala(SUTUNLAR@, ',').map_values(|p: Seq<char>| nitelikli(onek@, p)),
            v@ == birlestir(hedef.take(i as int), ", "@),
        decreases parcalar.len() - i,
    {
        proof {
            assert(hedef.take(i + 1).drop_last() =~= hedef.take(i as int));
        }
        let parca = metin_yap(&parcalar[i]);
        let temiz = kirp(parca.as_str());
        if i > 0 {
            ekle(&mut v, ", ");
        }
        ekle(&mut v, onek);
        ekle(&mut v, ".");
        ekle(&mut v, temiz);
        proof {
            assert(hedef.take(i + 1).last() == nitelikli(onek@, parcala(SUTUNLAR@, ',')[i as int]));
            if i == 0 {
                assert(v@ =~= birlestir(hedef.take(1), ", "@));
            } else {
                assert(v@ =~= birlestir(hedef.take(i + 1), ", "@));
            }
        }
        i += 1;
    }
    proof {
        assert(hedef.take(i as int) =~= hedef);
    }
    metin_yap(&v)
}

// ---------------------------------------------------------------------------
// The media list query.
// ---------------------------------------------------------------------------

/// The decimal digits of a natural number.
pub open spec fn rakamlar(n: nat) -> Seq<char>
    decreases n,
{
    if n < 10 {
        seq![(48 + n) as char]
    } else {
        rakamlar(n / 10).push((48 + n % 10) as char)
    }
}

/// An integer in decimal, with a leading `-` when negative.
pub open spec fn ondalik(n: int) -> Seq<char> {
    if n < 0 {
        seq!['-'] + rakamlar((-n) as nat)
    } else {
        rakamlar(n as nat)
    }
}

/// The decimal digit for a value below 10.
fn rakam(d: u64) -> (c: char)
    requires
        d < 10,
    ensures
        c == (48 + d) as char,
{
    let b: u8 = 48u8 + (d as u8);
    b as char
}

/// An integer in decimal, with a `-` before negative values and no
/// leading zeros, as `i64`'s `to_string` writes it.
pub(crate) fn tamsayi_metni(n: i64) -> (r: String)
    ensures
        r@ == ondalik(n as int),
{
    let buyukluk: u64 = if n < 0 {
        ((-(n + 1)) as u64) + 1
    } else {
        n as u64
    };
    assert(n < 0 ==> buyukluk == -n);
    assert(n >= 0 ==> buyukluk == n);
    let mut kalan: u64 = buyukluk;
    let mut ters: Vec<char> = Vec::new();
    while kalan >= 10
        invariant
            rakamlar(buyukluk as nat) == rakamlar(kalan as nat) + ters@.reverse(),
        decreases kalan,
    {
        let c = rakam(kalan % 10);
        let ghost eski = ters@;
        ters.push(c);
        proof {
            assert(ters@.reverse() =~= seq![c] + eski.reverse());
            assert(rakamlar(kalan as nat) == rakamlar((kalan / 10) as nat).push(c));
            assert(rakamlar((kalan / 10) as nat).push(c) + eski.reverse() =~= rakamlar(
                (kalan / 10) as nat,
            ) + (seq![c] + eski.reverse()));
        }
        kalan = kalan / 10;
    }
    let mut v: Vec<char> = Vec::new();
    if n < 0 {
        v.push('-');
    }
    v.push(rakam(kalan));
    let ghost bas = v@;
    assert(bas == (if n < 0 { seq!['-'] } else { Seq::<char>::empty() }) + rakamlar(kalan as nat));
    let mut j: usize = ters.len();
    while j > 0
        invariant
            j <= ters.len(),
            v@ == bas + ters@.reverse().take(ters.len() - j),
        decreases j,
    {
        let ghost k = ters.len() - j;
        v.push(ters[j - 1]);
        j -= 1;
        proof {
            assert(ters@.reverse()[k] == ters@[j as int]);
            assert(ters@.reverse().take(k + 1) =~= ters@.reverse().take(k).push(ters@[j as int]));
        }
    }
    proof {
        assert(ters@.reverse().take(ters.len() as int) =~= ters@.reverse());
        if n < 0 {
            assert(v@ =~= seq!['-'] + (rakamlar(kalan as nat) + ters@.reverse()));
        } else {
            assert(v@ =~= rakamlar(kalan as nat) + ters@.reverse());
        }
    }
    metin_yap(&v)
}

/// The `ORDER BY` of a sort key. The key comes from the interface and is
/// written into the SQL, so only known keys are used; anything else sorts
/// by date added.
pub open spec fn siralama_spec(sort: Option<Seq<char>>) -> Seq<char> {
    match sort {
        Some(s) => if s == "title"@ {
            "title COLLATE NOCASE ASC"@
        } else if s == "duration"@ {
            "duration DESC"@
        } else if s == "played"@ {
            "last_played DESC NULLS LAST, added_at DESC"@
        } else {
            "added_at DESC"@
        },
        None => "added_at DESC"@,
    }
}

/// The media type the list is limited to: only `video` and `audio` count.
pub open spec fn tur_suzgeci(t: Option<Seq<char>>) -> Option<Seq<char>> {
    match t {
        Some(s) => if s == "video"@ || s == "audio"@ {
            Some(s)
        } else {
            None
        },
        None => None,
    }
}

pub open spec fn secenek_gorunumu(o: Option<String>) -> Option<Seq<char>> {
    match o {
        Some(s) => Some(s@),
        None => None,
    }
}

/// The query of the media list and its one parameter (the media type, when
/// the list is limited to one). Without a limit every record is returned
/// (`LIMIT -1`).
pub open spec fn medya_sorgusu_spec(f: MediaFilter) -> (Seq<char>, Option<Seq<char>>) {
    let tur = tur_suzgeci(secenek_gorunumu(f.media_type));
    let kosul = if tur is Some {
        "WHERE media_type = ?1"@
    } else {
        ""@
    };
    let limit = match f.limit {
        Some(l) => l as int,
        None => -1,
    };
    (
        "SELECT "@ + SUTUNLAR@ + " FROM media "@ + kosul + " ORDER BY "@ + siralama_spec(
            secenek_gorunumu(f.sort),
        ) + " LIMIT "@ + ondalik(limit),
        tur,
    )
}

/// Whether `parca` occurs in `metin`.
pub open spec fn icerir(metin: Seq<char>, parca: Seq<char>) -> bool {
    exists|i: int| 0 <= i && i + parca.len() <= metin.len() && #[trigger] metin.subrange(i, i + parca.len()) == parca
}

/// The type filter keeps exactly the two media types: asking for `video`
/// or `audio` puts the condition `WHERE media_type = ?1` in the query with
/// that type as its parameter; anything else, or no type, lists every
/// record without a parameter.
pub proof fn tur_suzgeci_iki_turu_tutar(f: MediaFilter)
    ensures
        (f.media_type matches Some(t) && (t@ == "video"@ || t@ == "audio"@)) ==> {
            &&& medya_sorgusu_spec(f).1 == Some(f.media_type->0@)
            &&& icerir(medya_sorgusu_spec(f).0, "WHERE media_type = ?1"@)
        },
        !(f.media_type matches Some(t) && (t@ == "video"@ || t@ == "audio"@)) ==> medya_sorgusu_spec(f).1
            is None,
{
    if f.media_type matches Some(t) && (t@ == "video"@ || t@ == "audio"@) {
        let on = "SELECT "@ + SUTUNLAR@ + " FROM media "@;
        let kosul = "WHERE media_type = ?1"@;
        let q = medya_sorgusu_spec(f).0;
        assert(q.subrange(on.len() as int, (on.len() + kosul.len()) as int) =~= kosul);
    }
}

fn siralama(sort: &Option<String>) -> (r: &'static str)
    ensures
        r@ == siralama_spec(secenek_gorunumu(*sort)),
{
    match sort {
        Some(s) => if esit(s.as_str(), "title") {
            "title COLLATE NOCASE ASC"
        } else if esit(s.as_str(), "duration") {
            "duration DESC"
        } else if esit(s.as_str(), "played") {
            "last_played DESC NULLS LAST, added_at DESC"
        } else {
            "added_at DESC"
        },
        None => "added_at DESC",
    }
}

pub fn medya_sorgusu(f: &MediaFilter) -> (r: (String, Option<String>))
    ensures
        (r.0@, secenek_gorunumu(r.1)) == medya_sorgusu_spec(*f),
{
    let tur: Option<String> = match &f.media_type {
        Some(t) => if esit(t.as_str(), "video") || esit(t.as_str(), "audio") {
            Some(t.clone())
        } else {
            None
        },
        None => None,
    };
    let limit: i64 = match f.limit {
        Some(l) => l,
        None => -1,
    };
    let mut v: Vec<char> = Vec::new();
    ekle(&mut v, "SELECT ");
    ekle(&mut v, SUTUNLAR);
    ekle(&mut v, " FROM media ");
    if tur.is_some() {
        ekle(&mut v, "WHERE media_type = ?1");
    } else {
        ekle(&mut v, "");
    }
    ekle(&mut v, " ORDER BY ");
    ekle(&mut v, siralama(&f.sort));
    ekle(&mut v, " LIMIT ");
    let l = tamsayi_metni(limit);
    ekle(&mut v, l.as_str());
    proof {
        let hedef = medya_sorgusu_spec(*f).0;
        assert(v@ =~= hedef);
    }
    (metin_yap(&v), tur)
}

// ---------------------------------------------------------------------------
// Titles of scanned files.
// ---------------------------------------------------------------------------

/// What `Path::file_stem` yields for a path: the file name without its
/// final extension.
pub uninterp spec fn dosya_koku_spec(yol: Seq<char>) -> Option<Seq<char>>;

/// `Path::file_stem`, on a path given as text. The standard library
/// defines the stem by the path's components (the file name without its
/// last extension, `None` when the path has no file name); the contract
/// names the result. The stem is a slice of valid text, so its lossy
/// conversion is exact.
#[verifier::external_body]
pub(crate) fn dosya_koku(yol: &str) -> (r: Option<String>)
    ensures
        secenek_gorunumu(r) == dosya_koku_spec(yol@),
{
    std::path::Path::new(yol).file_stem().map(|a| a.to_string_lossy().into_owned())
}

/// The file's name without its extension, or the whole path when it has no
/// file name.
pub fn dosya_adi(yol: &str) -> (r: String)
    ensures
        r@ == match dosya_koku_spec(yol@) {
            Some(k) => k,
            None => yol@,
        },
{
    match dosya_koku(yol) {
        Some(k) => k,
        None => yol.to_owned(),
    }
}

/// The title of a scanned file. For video the file name wins
/// ("Film.2019.1080p.mkv" is the name the user knows the file by, the
/// container's title tag is often empty or junk); for audio the tag wins
/// when there is one ("01.mp3" says nothing).
pub fn baslik(medya_turu: &str, etiket: Option<&str>, yol: &str) -> (r: String)
    ensures
        r@ == if medya_turu@ == "audio"@ && etiket is Some {
            etiket->0@
        } else {
            match dosya_koku_spec(yol@) {
                Some(k) => k,
                None => yol@,
            }
        },
{
    if esit(medya_turu, "audio") {
        if let Some(e) = etiket {
            return e.to_owned();
        }
    }
    dosya_adi(yol)
}

/// The quality, out of 100, of the JPEG frames kept as thumbnails.
pub const KALITE: i64 = 75;

/// The record that waits for a thumbnail when a file starts playing: a
/// video record without one. Audio gets none (the cover art is the
/// picture), nor does a file outside the library.
pub fn bekleyen_kare(kimlik: String, kucukresim: Option<String>, medya_turu: &str) -> (r: Option<String>)
    ensures
        secenek_gorunumu(r) == if kucukresim is None && medya_turu@ == "video"@ {
            Some(kimlik@)
        } else {
            None::<Seq<char>>
        },
{
    if kucukresim.is_none() && esit(medya_turu, "video") {
        Some(kimlik)
    } else {
        None
    }
}

/// The file name of a record's thumbnail: its identity and `.jpg`.
pub fn kare_dosyasi(kimlik: &str) -> (r: String)
    ensures
        r@ == kimlik@ + ".jpg"@,
{
    let mut v: Vec<char> = Vec::new();
    ekle(&mut v, kimlik);
    ekle(&mut v, ".jpg");
    assert(Seq::<char>::empty() + kimlik@ + ".jpg"@ =~= kimlik@ + ".jpg"@);
    metin_yap(&v)
}

// ---------------------------------------------------------------------------
// Scanning.
// ---------------------------------------------------------------------------

/// A media file found under a watched folder.
pub struct Aday {
    pub yol: String,
    /// When the file last changed (Unix seconds, 0 when unknown).
    pub mtime: i64,
    pub boyut: i64,
    /// The extension, lowercase.
    pub uzanti: String,
}

/// Strictly ordered by path: in particular no path occurs twice.
pub open spec fn yola_gore_tekil(s: Seq<Aday>) -> bool {
    forall|i: int, j: int| 0 <= i < j < s.len() ==> sozluk_once(s[i].yol@, s[j].yol@)
}

proof fn ekleme_sirali(eski: Seq<Aday>, p: int, x: Aday)
    requires
        yola_gore_tekil(eski),
        0 <= p <= eski.len(),
        forall|q: int| 0 <= q < p ==> sozluk_once(#[trigger] eski[q].yol@, x.yol@),
        p < eski.len() ==> sozluk_once(x.yol@, eski[p].yol@),
    ensures
        yola_gore_tekil(eski.insert(p, x)),
{
    let r = eski.insert(p, x);
    assert forall|a: int, b: int| 0 <= a < b < r.len() implies sozluk_once(r[a].yol@, r[b].yol@) by {
        if b < p {
            assert(r[a] == eski[a] && r[b] == eski[b]);
        } else if b == p {
            assert(r[a] == eski[a]);
        } else if a == p {
            assert(r[b] == eski[b - 1]);
            if b - 1 > p {
                assert(sozluk_once(eski[p].yol@, eski[b - 1].yol@));
                sozluk_once_gecisli(x.yol@, eski[p].yol@, eski[b - 1].yol@);
            }
        } else if a < p {
            assert(r[a] == eski[a] && r[b] == eski[b - 1]);
            assert(sozluk_once(eski[a].yol@, x.yol@));
            if b - 1 == p {
                sozluk_once_gecisli(eski[a].yol@, x.yol@, eski[p].yol@);
            } else {
                assert(sozluk_once(eski[a].yol@, eski[b - 1].yol@));
            }
        } else {
            assert(r[a] == eski[a - 1] && r[b] == eski[b - 1]);
        }
    }
}

/// A candidate that was inserted had a path no earlier candidate had: all
/// their paths were already in the list, and the list with it is strictly
/// ordered.
proof fn yeni_yol_ilk(eski: Seq<Aday>, p: int, kaynak: Seq<Aday>, j: int)
    requires
        0 <= p <= eski.len(),
        0 <= j < kaynak.len(),
        yollari_kapsar(eski, kaynak, j),
        yola_gore_tekil(eski.insert(p, kaynak[j])),
    ensures
        ilk_yol(kaynak, j),
{
    let r = eski.insert(p, kaynak[j]);
    assert forall|m: int| 0 <= m < j implies kaynak[m].yol@ != #[trigger] kaynak[j].yol@ by {
        if kaynak[m].yol@ == kaynak[j].yol@ {
            assert(yolu_var(eski, kaynak[m].yol@));
            let i = choose|i: int| 0 <= i < eski.len() && eski[i].yol@ == kaynak[m].yol@;
            sozluk_once_yansimasiz(kaynak[j].yol@);
            if i < p {
                assert(r[i] == eski[i]);
                assert(sozluk_once(r[i].yol@, r[p].yol@));
            } else {
                assert(r[i + 1] == eski[i]);
                assert(sozluk_once(r[p].yol@, r[i + 1].yol@));
            }
        }
    }
}

/// Places one candidate into the ordered list: `Ok(p)` when it was
/// inserted at `p`, `Err(i)` when entry `i` already has its path.
fn tekil_yerlestir(r: &mut Vec<Aday>, yollar: &mut Vec<Vec<char>>, x: Aday) -> (sonuc: Result<usize, usize>)
    requires
        old(yollar).len() == old(r).len(),
        forall|k: int| 0 <= k < old(r).len() ==> #[trigger] old(yollar)@[k]@ == old(r)@[k].yol@,
        yola_gore_tekil(old(r)@),
    ensures
        final(yollar).len() == final(r).len(),
        forall|k: int| 0 <= k < final(r).len() ==> #[trigger] final(yollar)@[k]@ == final(r)@[k].yol@,
        yola_gore_tekil(final(r)@),
        match sonuc {
            Ok(p) => p <= old(r)@.len() && final(r)@ == old(r)@.insert(p as int, x),
            Err(i) => i < old(r)@.len() && final(r)@ == old(r)@ && old(r)@[i as int].yol@ == x.yol@,
        },
{
    let xy = karakterler(x.yol.as_str());
    let mut p: usize = 0;
    let mut durdu = false;
    while p < r.len() && !durdu
        invariant
            p <= r.len(),
            yollar.len() == r.len(),
            xy@ == x.yol@,
            forall|k: int| 0 <= k < r.len() ==> #[trigger] yollar@[k]@ == r@[k].yol@,
            forall|q: int| 0 <= q < p ==> sozluk_once(#[trigger] r@[q].yol@, xy@),
            durdu ==> p < r.len() && !sozluk_once(r@[p as int].yol@, xy@),
        decreases r.len() - p, if durdu { 0int } else { 1int },
    {
        if once_mi(&yollar[p], &xy) {
            p += 1;
        } else {
            durdu = true;
        }
    }
    if durdu && esit(x.yol.as_str(), r[p].yol.as_str()) {
        return Err(p);
    }
    proof {
        if durdu {
            if !sozluk_once(xy@, r@[p as int].yol@) {
                sozluk_once_uclu(xy@, r@[p as int].yol@);
            }
        }
        ekleme_sirali(r@, p as int, x);
    }
    r.insert(p, x);
    yollar.insert(p, xy);
    Ok(p)
}

/// Puts the candidates of all roots in path order, once each.
///
/// Nested roots (both `C:\\A` and `C:\\A\\B` watched) bring the same file
/// twice; measuring it twice is the scan's most expensive step done for
/// nothing, and it would inflate the progress total. Of candidates with the
/// same path the first one is kept.
pub fn adaylari_tekille(adaylar: Vec<Aday>) -> (r: Vec<Aday>)
    ensures
        yola_gore_tekil(r@),
        forall|i: int| 0 <= i < r@.len() ==> ilk_aday(adaylar@, #[trigger] r@[i]),
        forall|k: int| #![trigger adaylar@[k]] 0 <= k < adaylar@.len() ==> yolu_var(r@, adaylar@[k].yol@),
{
    let mut r: Vec<Aday> = Vec::new();
    let mut yollar: Vec<Vec<char>> = Vec::new();
    let mut j: usize = 0;
    proof {
        tekilleme_basi(adaylar@);
    }
    while j < adaylar.len()
        invariant
            j <= adaylar.len(),
            yollar.len() == r.len(),
            forall|k: int| 0 <= k < r.len() ==> #[trigger] yollar@[k]@ == r@[k].yol@,
            yola_gore_tekil(r@),
            kaynaktan(r@, adaylar@, j as int),
            yollari_kapsar(r@, adaylar@, j as int),
        decreases adaylar.len() - j,
    {
        let x = Aday {
            yol: adaylar[j].yol.clone(),
            mtime: adaylar[j].mtime,
            boyut: adaylar[j].boyut,
            uzanti: adaylar[j].uzanti.clone(),
        };
        let ghost eski = r@;
        let sonuc = tekil_yerlestir(&mut r, &mut yollar, x);
        proof {
            match sonuc {
                Ok(p) => {
                    yeni_yol_ilk(eski, p as int, adaylar@, j as int);
                    eklemeyle_genisler(eski, p as int, adaylar@, j as int);
                },
                Err(i) => {
                    kaynaktan_genisler(r@, adaylar@, j as int);
                    kapsar_bulunanla(r@, adaylar@, j as int, i as int);
                },
            }
        }
        j += 1;
    }
    proof {
        tekilleme_sonu(r@, adaylar@);
    }
    r
}

/// What a scan does with a file: skip it when its recorded change time is
/// the current one (it has not changed, so it is not opened), measure and
/// add it when it has no record, measure and update it otherwise.
#[derive(Clone, Copy, PartialEq, Eq, Structural)]
pub enum TaramaKarari {
    Atla,
    Ekle,
    Guncelle,
}

pub fn tarama_karari(kayitli: Option<i64>, mtime: i64) -> (r: TaramaKarari)
    ensures
        r == match kayitli {
            Some(m) => if m == mtime {
                TaramaKarari::Atla
            } else {
                TaramaKarari::Guncelle
            },
            None => TaramaKarari::Ekle,
        },
{
    match kayitli {
        Some(m) => if m == mtime {
            TaramaKarari::Atla
        } else {
            TaramaKarari::Guncelle
        },
        None => TaramaKarari::Ekle,
    }
}

/// How many files pass between progress events; every file would mean
/// hundreds of events a second for unchanged files.
pub const ADIM: usize = 5;

/// Whether a progress event goes out after the file at index `i`: every
/// [`ADIM`] files and after the last one.
pub fn ilerleme_zamani(i: usize, toplam: usize) -> (r: bool)
    requires
        i < toplam,
    ensures
        r == ((i + 1) % (ADIM as int) == 0 || i + 1 == toplam),
{
    (i + 1) % ADIM == 0 || i + 1 == toplam
}

/// How many scanned records are written in one transaction.
pub const YIGIN: usize = 64;

/// The length of the recently played list the interface may ask for: at
/// least one, at most two hundred.
pub fn son_calinan_siniri(limit: i64) -> (r: i64)
    ensures
        r == if limit < 1 {
            1
        } else if limit > 200 {
            200
        } else {
            limit
        },
{
    if limit < 1 {
        1
    } else if limit > 200 {
        200
    } else {
        limit
    }
}

} // verus!
