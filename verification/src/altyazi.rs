//! Subtitles found next to a video file.
//!
//! Rule: in the same folder, files whose name STARTS with the video's name
//! (ignoring case), followed by a dot or by nothing, and whose extension is
//! a subtitle extension. `film.mkv` gets `film.srt`, `film.tr.srt`,
//! `film.en.ass`; it does not get `film2.srt`.
//!
//! Reading the folder is the caller's part; this module decides which of
//! the entries are subtitles, what they are called and in which order they
//! are offered.

use vstd::multiset::Multiset;
use vstd::prelude::*;

use crate::hata::Hata;
use crate::metin::{
    ekle, esit, harf_kucult, karakterler, kucuk_harf, kucuk_metin, metin_kucult, metin_yap, once_mi,
    sozluk_once, sozluk_once_gecisli, sozluk_once_uclu, sozluk_once_yansimasiz,
};
use crate::kutuphane::{dosya_koku, dosya_koku_spec, secenek_gorunumu};
use crate::mpv_komut::MpvKomutu;

verus! {

/// A subtitle found next to a video file.
pub struct NearbySubtitle {
    pub path: String,
    /// The name shown in the interface: `film.tr.srt` → `tr · srt`, else the
    /// file name.
    pub label: String,
    pub lang: Option<String>,
}

/// A [`NearbySubtitle`] as plain character sequences.
pub struct AltyaziGorunumu {
    pub path: Seq<char>,
    pub label: Seq<char>,
    pub lang: Option<Seq<char>>,
}

impl View for NearbySubtitle {
    type V = AltyaziGorunumu;

    open spec fn view(&self) -> AltyaziGorunumu {
        AltyaziGorunumu {
            path: self.path@,
            label: self.label@,
            lang: match self.lang {
                Some(l) => Some(l@),
                None => None,
            },
        }
    }
}

/// One entry of the video's folder, as the caller read it.
pub struct DizinGirdisi {
    /// The entry's full path.
    pub yol: String,
    /// Whether the entry is a regular file.
    pub dosya_mi: bool,
    /// The file's extension as written, if it has one.
    pub uzanti: Option<String>,
    /// The file's name without its extension, if it has one.
    pub ad_kok: Option<String>,
}

/// What `Path::extension` yields for a path given as text: what follows
/// the last dot of the file name; `None` when the name has no dot, or its
/// only dot is the leading one (`.srt`).
pub uninterp spec fn uzanti_spec(yol: Seq<char>) -> Option<Seq<char>>;

/// `Path::extension`, on a path given as text. The standard library
/// defines the extension by the path's components, with the separators of
/// the platform the program was built for; the contract names the result.
/// The extension is a slice of valid text, so its lossy conversion is
/// exact.
#[verifier::external_body]
fn uzanti_al(yol: &str) -> (r: Option<String>)
    ensures
        secenek_gorunumu(r) == uzanti_spec(yol@),
{
    std::path::Path::new(yol).extension().map(|u| u.to_string_lossy().into_owned())
}

/// An entry of the video's folder from its path and whether it is a
/// regular file: its extension and its name without the extension, as
/// `Path` reads them.
pub fn dizin_girdisi(yol: String, dosya_mi: bool) -> (r: DizinGirdisi)
    ensures
        r.yol@ == yol@,
        r.dosya_mi == dosya_mi,
        secenek_gorunumu(r.uzanti) == uzanti_spec(yol@),
        secenek_gorunumu(r.ad_kok) == dosya_koku_spec(yol@),
{
    let uzanti = uzanti_al(yol.as_str());
    let ad_kok = dosya_koku(yol.as_str());
    DizinGirdisi { yol, dosya_mi, uzanti, ad_kok }
}

/// The video's name without its extension, the stem the subtitles' names
/// start with; `None` when the path has no file name.
pub fn video_koku(yol: &str) -> (r: Option<String>)
    ensures
        secenek_gorunumu(r) == dosya_koku_spec(yol@),
{
    dosya_koku(yol)
}

/// The subtitle extensions searched for. VobSub's `idx`/`sub` pair is named
/// by its `.idx`: given it, mpv loads both.
pub const ALTYAZI_UZANTILARI: [&'static str; 6] = ["srt", "ass", "ssa", "vtt", "sub", "idx"];

/// The extensions searched for. `idx` stands for the VobSub pair: given the
/// `.idx`, mpv loads the `.sub` with it.
pub open spec fn altyazi_uzantisi(u: Seq<char>) -> bool {
    ||| u == "srt"@
    ||| u == "ass"@
    ||| u == "ssa"@
    ||| u == "vtt"@
    ||| u == "sub"@
    ||| u == "idx"@
}

/// The subtitle extensions are exactly the ones listed in
/// [`ALTYAZI_UZANTILARI`]: each listed extension is one, and nothing else
/// is.
pub proof fn altyazi_uzantilari_listedekiler(u: Seq<char>)
    ensures
        forall|i: int| 0 <= i < 6 ==> altyazi_uzantisi(#[trigger] ALTYAZI_UZANTILARI@[i]@),
        altyazi_uzantisi(u) <==> exists|i: int| 0 <= i < 6 && u == #[trigger] ALTYAZI_UZANTILARI@[i]@,
{
    let l = ALTYAZI_UZANTILARI@;
    assert(l[0] == "srt");
    assert(l[1] == "ass");
    assert(l[2] == "ssa");
    assert(l[3] == "vtt");
    assert(l[4] == "sub");
    assert(l[5] == "idx");
    if altyazi_uzantisi(u) {
        if u == "srt"@ {
            assert(u == l[0]@);
        } else if u == "ass"@ {
            assert(u == l[1]@);
        } else if u == "ssa"@ {
            assert(u == l[2]@);
        } else if u == "vtt"@ {
            assert(u == l[3]@);
        } else if u == "sub"@ {
            assert(u == l[4]@);
        } else {
            assert(u == l[5]@);
        }
    }
}

pub fn altyazi_uzantisi_mi(u: &str) -> (r: bool)
    ensures
        r == altyazi_uzantisi(u@),
{
    esit(u, "srt") || esit(u, "ass") || esit(u, "ssa") || esit(u, "vtt") || esit(u, "sub")
        || esit(u, "idx")
}

/// Two characters are the same letter when they are equal or lowercase to
/// the same characters.
pub open spec fn ayni_harf_spec(a: char, b: char) -> bool {
    a == b || kucuk_harf(a) == kucuk_harf(b)
}

/// Whether two characters are the capital and small form of one letter.
///
/// Unicode's lowercase mapping pairs Ö/ö, Ç/ç, Ş/ş, Ğ/ğ, Ü/ü; it does not
/// pair `İ` with `i`, and for file names that is the safe answer.
pub fn ayni_harf(a: char, b: char) -> (r: bool)
    ensures
        r == ayni_harf_spec(a, b),
{
    if a == b {
        return true;
    }
    let x = harf_kucult(a);
    let y = harf_kucult(b);
    if x.len() != y.len() {
        return false;
    }
    let mut i: usize = 0;
    while i < x.len()
        invariant
            x@ == kucuk_harf(a),
            y@ == kucuk_harf(b),
            x.len() == y.len(),
            i <= x.len(),
            forall|k: int| 0 <= k < i ==> x@[k] == y@[k],
        decreases x.len() - i,
    {
        if x[i] != y[i] {
            return false;
        }
        i += 1;
    }
    assert(x@ =~= y@);
    true
}

/// What is left of `ad` after `onek`, compared letter by letter without
/// regard to case.
pub open spec fn onek_kirp_spec(ad: Seq<char>, onek: Seq<char>) -> Option<Seq<char>> {
    if onek.len() <= ad.len() && forall|i: int| 0 <= i < onek.len() ==> ayni_harf_spec(ad[i], onek[i]) {
        Some(ad.skip(onek.len() as int))
    } else {
        None
    }
}

/// Cuts `onek` off the start of `ad`, ignoring case; `None` when `ad` does
/// not start with it.
///
/// The walk is character by character: lowercasing the two strings whole
/// could change their lengths (`'İ'` lowercases to two characters) and put
/// the cut in the wrong place.
pub fn onek_kirp(ad: &str, onek: &str) -> (r: Option<String>)
    ensures
        match r {
            Some(s) => onek_kirp_spec(ad@, onek@) == Some(s@),
            None => onek_kirp_spec(ad@, onek@) is None,
        },
{
    let a = karakterler(ad);
    let o = karakterler(onek);
    if o.len() > a.len() {
        return None;
    }
    let mut i: usize = 0;
    while i < o.len()
        invariant
            a@ == ad@,
            o@ == onek@,
            o.len() <= a.len(),
            i <= o.len(),
            forall|k: int| 0 <= k < i ==> ayni_harf_spec(a@[k], o@[k]),
        decreases o.len() - i,
    {
        if !ayni_harf(a[i], o[i]) {
            return None;
        }
        i += 1;
    }
    let mut kalan: Vec<char> = Vec::new();
    let mut j: usize = o.len();
    while j < a.len()
        invariant
            a@ == ad@,
            o.len() <= j <= a.len(),
            kalan@ == a@.subrange(o.len() as int, j as int),
        decreases a.len() - j,
    {
        kalan.push(a[j]);
        j += 1;
        assert(kalan@ =~= a@.subrange(o.len() as int, j as int));
    }
    assert(kalan@ =~= a@.skip(o.len() as int));
    Some(metin_yap(&kalan))
}

/// The suffix after the video's name: empty when the names are the same,
/// the part after the dot when a dot follows, `None` otherwise.
pub open spec fn eslesme_eki_spec(ad_kok: Seq<char>, video_kok: Seq<char>) -> Option<Seq<char>> {
    match onek_kirp_spec(ad_kok, video_kok) {
        None => None,
        Some(k) => if k.len() == 0 {
            Some(Seq::<char>::empty())
        } else if k[0] == '.' {
            Some(k.skip(1))
        } else {
            None
        },
    }
}

/// The rule of nearby subtitles: a file whose name is the video's name
/// (letter by letter, without regard to case) matches with no suffix, and
/// one whose name goes on with a dot matches with what follows the dot.
pub proof fn ada_uyan_eslesir(ad_kok: Seq<char>, video_kok: Seq<char>, ek: Seq<char>)
    requires
        ad_kok.len() == video_kok.len(),
        forall|i: int| 0 <= i < ad_kok.len() ==> ayni_harf_spec(#[trigger] ad_kok[i], video_kok[i]),
    ensures
        eslesme_eki_spec(ad_kok, video_kok) == Some(Seq::<char>::empty()),
        eslesme_eki_spec(ad_kok + seq!['.'] + ek, video_kok) == Some(ek),
{
    assert(ad_kok.skip(video_kok.len() as int) =~= Seq::<char>::empty());
    let uzun = ad_kok + seq!['.'] + ek;
    assert forall|i: int| 0 <= i < video_kok.len() implies ayni_harf_spec(#[trigger] uzun[i], video_kok[i]) by {
        assert(uzun[i] == ad_kok[i]);
    }
    let kalan = uzun.skip(video_kok.len() as int);
    assert(kalan =~= seq!['.'] + ek);
    assert(kalan.skip(1) =~= ek);
}

/// A name that goes on after the video's name with anything but a dot does
/// not match: `Bolum10.srt` is not a subtitle of `Bolum1.mkv`.
pub proof fn noktasiz_devam_eslesmez(ad_kok: Seq<char>, video_kok: Seq<char>, c: char, devam: Seq<char>)
    requires
        ad_kok.len() == video_kok.len(),
        c != '.',
    ensures
        eslesme_eki_spec(ad_kok + seq![c] + devam, video_kok) is None,
{
    let uzun = ad_kok + seq![c] + devam;
    if onek_kirp_spec(uzun, video_kok) is Some {
        let kalan = uzun.skip(video_kok.len() as int);
        assert(kalan[0] == c);
    }
}

/// `film` + `film.tr` → `tr`; `film` + `film` → `""`; `film` + `film2` →
/// `None`. Case is ignored; the suffix keeps its own spelling.
pub fn eslesme_eki(ad_kok: &str, video_kok: &str) -> (r: Option<String>)
    ensures
        match r {
            Some(s) => eslesme_eki_spec(ad_kok@, video_kok@) == Some(s@),
            None => eslesme_eki_spec(ad_kok@, video_kok@) is None,
        },
{
    let kalan = match onek_kirp(ad_kok, video_kok) {
        Some(k) => k,
        None => return None,
    };
    let k = karakterler(kalan.as_str());
    if k.len() == 0 {
        return Some(String::new());
    }
    if k[0] != '.' {
        return None;
    }
    let mut ek: Vec<char> = Vec::new();
    let mut j: usize = 1;
    while j < k.len()
        invariant
            1 <= j <= k.len(),
            ek@ == k@.subrange(1, j as int),
        decreases k.len() - j,
    {
        ek.push(k[j]);
        j += 1;
        assert(ek@ =~= k@.subrange(1, j as int));
    }
    assert(ek@ =~= k@.skip(1));
    Some(metin_yap(&ek))
}

/// The part of `s` before its first dot (all of `s` when it has none).
pub open spec fn nokta_oncesi(s: Seq<char>) -> Seq<char>
    decreases s.len(),
{
    if s.len() == 0 {
        s
    } else if s[0] == '.' {
        Seq::<char>::empty()
    } else {
        seq![s[0]] + nokta_oncesi(s.drop_first())
    }
}

pub open spec fn ascii_harf(c: char) -> bool {
    ('a' <= c && c <= 'z') || ('A' <= c && c <= 'Z')
}

/// Whether `c` lowercases to a single ASCII letter: the ASCII letters, and
/// the few signs (such as the Kelvin sign) whose lowercase is one.
pub open spec fn ascii_harfe_kuculur(c: char) -> bool {
    kucuk_harf(c).len() == 1 && ascii_harf(kucuk_harf(c)[0])
}

/// The language code in a suffix: its first dot-separated part, as the
/// user wrote it on the file, when that is two or three characters that
/// each lowercase to an ASCII letter.
pub open spec fn dil_kodu_spec(ek: Seq<char>) -> Option<Seq<char>> {
    let ilk = nokta_oncesi(ek);
    if 2 <= ilk.len() <= 3 && forall|i: int| 0 <= i < ilk.len() ==> ascii_harfe_kuculur(#[trigger] ilk[i]) {
        Some(ilk)
    } else {
        None
    }
}

fn nokta_oncesi_al(s: &Vec<char>) -> (r: Vec<char>)
    ensures
        r@ == nokta_oncesi(s@),
{
    let mut r: Vec<char> = Vec::new();
    let mut i: usize = 0;
    assert(s@.skip(0) =~= s@);
    assert(Seq::<char>::empty() + nokta_oncesi(s@) =~= nokta_oncesi(s@));
    while i < s.len()
        invariant
            i <= s.len(),
            nokta_oncesi(s@) == r@ + nokta_oncesi(s@.skip(i as int)),
        decreases s.len() - i,
    {
        assert(s@.skip(i as int)[0] == s@[i as int]);
        if s[i] == '.' {
            assert(nokta_oncesi(s@.skip(i as int)) == Seq::<char>::empty());
            assert(r@ + Seq::<char>::empty() =~= r@);
            return r;
        }
        assert(s@.skip(i as int).drop_first() =~= s@.skip(i + 1));
        assert(r@ + nokta_oncesi(s@.skip(i as int)) =~= r@.push(s@[i as int]) + nokta_oncesi(
            s@.skip(i + 1),
        ));
        r.push(s[i]);
        i += 1;
    }
    assert(s@.skip(i as int) =~= Seq::<char>::empty());
    assert(r@ + Seq::<char>::empty() =~= r@);
    r
}

/// `tr`, `en`, `tur`; `forced` or `sdh` are not languages. The code keeps
/// the spelling written on the file: `Film.EN.srt` gives `EN`.
pub fn dil_kodu(ek: &str) -> (r: Option<String>)
    ensures
        match r {
            Some(s) => dil_kodu_spec(ek@) == Some(s@),
            None => dil_kodu_spec(ek@) is None,
        },
{
    let k = nokta_oncesi_al(&karakterler(ek));
    if k.len() < 2 || k.len() > 3 {
        return None;
    }
    let mut i: usize = 0;
    while i < k.len()
        invariant
            k@ == nokta_oncesi(ek@),
            2 <= k.len() <= 3,
            i <= k.len(),
            forall|j: int| 0 <= j < i ==> ascii_harfe_kuculur(#[trigger] k@[j]),
        decreases k.len() - i,
    {
        let kucuk = harf_kucult(k[i]);
        if kucuk.len() != 1 {
            return None;
        }
        let c = kucuk[0];
        if !(('a' <= c && c <= 'z') || ('A' <= c && c <= 'Z')) {
            return None;
        }
        i += 1;
    }
    Some(metin_yap(&k))
}

/// The label: `tr · srt` when there is a suffix, the file name otherwise.
pub open spec fn etiket_spec(ek: Seq<char>, uzanti: Seq<char>, ad_kok: Seq<char>) -> Seq<char> {
    if ek.len() == 0 {
        ad_kok + "."@ + uzanti
    } else {
        ek + " · "@ + uzanti
    }
}

pub fn etiket(ek: &str, uzanti: &str, ad_kok: &str) -> (r: String)
    ensures
        r@ == etiket_spec(ek@, uzanti@, ad_kok@),
{
    let mut v: Vec<char> = Vec::new();
    if ek.is_empty() {
        ekle(&mut v, ad_kok);
        ekle(&mut v, ".");
    } else {
        ekle(&mut v, ek);
        ekle(&mut v, " · ");
    }
    ekle(&mut v, uzanti);
    assert(Seq::<char>::empty() + ad_kok@ + "."@ + uzanti@ =~= ad_kok@ + "."@ + uzanti@);
    assert(Seq::<char>::empty() + ek@ + " · "@ + uzanti@ =~= ek@ + " · "@ + uzanti@);
    metin_yap(&v)
}

/// The subtitle an entry of the folder stands for, if it is one.
pub open spec fn girdi_altyazisi(video_kok: Seq<char>, g: DizinGirdisi) -> Option<AltyaziGorunumu> {
    if !g.dosya_mi {
        None
    } else {
        match g.uzanti {
            None => None,
            Some(u) => {
                let uk = kucuk_metin(u@);
                if !altyazi_uzantisi(uk) {
                    None
                } else {
                    match g.ad_kok {
                        None => None,
                        Some(k) => match eslesme_eki_spec(k@, video_kok) {
                            None => None,
                            Some(ek) => Some(
                                AltyaziGorunumu {
                                    path: g.yol@,
                                    label: etiket_spec(ek, uk, k@),
                                    lang: dil_kodu_spec(ek),
                                },
                            ),
                        },
                    }
                }
            },
        }
    }
}

/// The subtitles among the entries, in the entries' order.
pub open spec fn secilenler(video_kok: Seq<char>, g: Seq<DizinGirdisi>) -> Seq<AltyaziGorunumu>
    decreases g.len(),
{
    if g.len() == 0 {
        Seq::<AltyaziGorunumu>::empty()
    } else {
        let onceki = secilenler(video_kok, g.drop_last());
        match girdi_altyazisi(video_kok, g.last()) {
            Some(a) => onceki.push(a),
            None => onceki,
        }
    }
}

/// Ordered by path: no entry comes before one placed ahead of it.
pub open spec fn yola_gore_sirali(s: Seq<AltyaziGorunumu>) -> bool {
    forall|i: int, j: int| 0 <= i < j < s.len() ==> !sozluk_once(s[j].path, s[i].path)
}

proof fn gorunum_ekle(v: Seq<NearbySubtitle>, p: int, x: NearbySubtitle)
    requires
        0 <= p <= v.len(),
    ensures
        v.insert(p, x).map_values(|n: NearbySubtitle| n@) =~= v.map_values(|n: NearbySubtitle| n@).insert(
            p,
            x@,
        ),
{
}

/// Orders the subtitles by path, keeping equal paths in their given order.
fn yola_gore_sirala(girdi: Vec<NearbySubtitle>) -> (r: Vec<NearbySubtitle>)
    ensures
        yola_gore_sirali(r@.map_values(|n: NearbySubtitle| n@)),
        r@.map_values(|n: NearbySubtitle| n@).to_multiset() =~= girdi@.map_values(
            |n: NearbySubtitle| n@,
        ).to_multiset(),
{
    broadcast use vstd::seq_lib::group_to_multiset_ensures;
    let mut r: Vec<NearbySubtitle> = Vec::new();
    let mut yollar: Vec<Vec<char>> = Vec::new();
    let mut girdi = girdi;
    let ghost ilk = girdi@.map_values(|n: NearbySubtitle| n@);
    let ghost alinan: Seq<AltyaziGorunumu> = Seq::empty();
    while girdi.len() > 0
        invariant
            yollar.len() == r.len(),
            forall|k: int| 0 <= k < r.len() ==> #[trigger] yollar@[k]@ == r@[k].path@,
            yola_gore_sirali(r@.map_values(|n: NearbySubtitle| n@)),
            ilk =~= alinan + girdi@.map_values(|n: NearbySubtitle| n@),
            r@.map_values(|n: NearbySubtitle| n@).to_multiset() =~= alinan.to_multiset(),
        decreases girdi.len(),
    {
        let x = girdi.remove(0);
        let xy = karakterler(x.path.as_str());
        let ghost rv = r@.map_values(|n: NearbySubtitle| n@);
        let mut p: usize = 0;
        let mut bulundu = false;
        while p < r.len() && !bulundu
            invariant
                p <= r.len(),
                yollar.len() == r.len(),
                xy@ == x.path@,
                forall|k: int| 0 <= k < r.len() ==> #[trigger] yollar@[k]@ == r@[k].path@,
                forall|q: int| 0 <= q < p ==> !sozluk_once(xy@, #[trigger] r@[q].path@),
                bulundu ==> p < r.len() && sozluk_once(xy@, r@[p as int].path@),
            decreases r.len() - p, if bulundu { 0int } else { 1int },
        {
            if once_mi(&xy, &yollar[p]) {
                bulundu = true;
            } else {
                p += 1;
            }
        }
        proof {
            gorunum_ekle(r@, p as int, x);
            let yeni = rv.insert(p as int, x@);
            assert forall|i: int, j: int| 0 <= i < j < yeni.len() implies !sozluk_once(
                yeni[j].path,
                yeni[i].path,
            ) by {
                if j < p {
                    assert(yeni[i] == rv[i] && yeni[j] == rv[j]);
                } else if j == p {
                    assert(yeni[j] == x@);
                    assert(yeni[i] == rv[i]);
                    assert(r@[i].path@ == rv[i].path);
                    assert(!sozluk_once(xy@, r@[i].path@));
                } else if i == p {
                    assert(yeni[i] == x@);
                    assert(yeni[j] == rv[j - 1]);
                    assert(p < r.len());
                    assert(bulundu);
                    assert(sozluk_once(xy@, r@[p as int].path@));
                    assert(r@[p as int].path@ == rv[p as int].path);
                    if sozluk_once(rv[j - 1].path, x@.path) {
                        sozluk_once_gecisli(rv[j - 1].path, x@.path, rv[p as int].path);
                        if j - 1 > p {
                            assert(!sozluk_once(rv[j - 1].path, rv[p as int].path));
                        } else {
                            sozluk_once_yansimasiz(rv[p as int].path);
                        }
                    }
                } else if i < p {
                    assert(yeni[i] == rv[i] && yeni[j] == rv[j - 1]);
                } else {
                    assert(yeni[i] == rv[i - 1] && yeni[j] == rv[j - 1]);
                }
            }
            assert(alinan.push(x@) + girdi@.map_values(|n: NearbySubtitle| n@) =~= ilk);
            vstd::seq_lib::to_multiset_insert(rv, p as int, x@);
            vstd::seq_lib::to_multiset_build(alinan, x@);
        }
        let y = xy;
        r.insert(p, x);
        yollar.insert(p, y);
        proof {
            alinan = alinan.push(x@);
            assert(forall|k: int| 0 <= k < r.len() ==> #[trigger] yollar@[k]@ == r@[k].path@);
        }
    }
    proof {
        assert(alinan =~= ilk);
    }
    r
}

/// No two entries of a folder listing share a path, as in any real listing.
pub open spec fn yollar_farkli(g: Seq<DizinGirdisi>) -> bool {
    forall|i: int, j: int| 0 <= i < j < g.len() ==> g[i].yol@ != g[j].yol@
}

/// The paths of a listing, in its order.
pub open spec fn girdi_yollari(g: Seq<DizinGirdisi>) -> Seq<Seq<char>> {
    g.map_values(|x: DizinGirdisi| x.yol@)
}

/// A regular file named after the video (letter by letter, without regard
/// to case) whose lowercase extension is one of [`ALTYAZI_UZANTILARI`] is
/// selected, shown by its file name, with no language.
pub proof fn ada_uyan_listedeki_dosya_secilir(video_kok: Seq<char>, g: DizinGirdisi, i: int)
    requires
        g.dosya_mi,
        0 <= i < 6,
        g.uzanti matches Some(u) && kucuk_metin(u@) == ALTYAZI_UZANTILARI@[i]@,
        g.ad_kok matches Some(k) && k@.len() == video_kok.len() && forall|m: int|
            0 <= m < video_kok.len() ==> ayni_harf_spec(#[trigger] k@[m], video_kok[m]),
    ensures
        girdi_altyazisi(video_kok, g) == Some(
            AltyaziGorunumu {
                path: g.yol@,
                label: g.ad_kok->0@ + "."@ + ALTYAZI_UZANTILARI@[i]@,
                lang: None,
            },
        ),
{
    altyazi_uzantilari_listedekiler(ALTYAZI_UZANTILARI@[i]@);
    ada_uyan_eslesir(g.ad_kok->0@, video_kok, Seq::<char>::empty());
    assert(dil_kodu_spec(Seq::<char>::empty()) is None) by {
        assert(nokta_oncesi(Seq::<char>::empty()).len() == 0);
    }
}

/// Strictly ordered by path: each entry's path comes before the next one's,
/// so no path occurs twice.
pub open spec fn yola_gore_kesin_sirali(s: Seq<AltyaziGorunumu>) -> bool {
    forall|i: int, j: int| 0 <= i < j < s.len() ==> sozluk_once(s[i].path, s[j].path)
}

/// What one entry adds to the selection, as a multiset.
spec fn secilen_ek(video_kok: Seq<char>, x: DizinGirdisi) -> Multiset<AltyaziGorunumu> {
    match girdi_altyazisi(video_kok, x) {
        Some(a) => Multiset::singleton(a),
        None => Multiset::empty(),
    }
}

/// The selection's paths are paths of the listing, and no two of them are
/// equal when the listing's are not.
proof fn secilenler_yollari(video_kok: Seq<char>, g: Seq<DizinGirdisi>)
    requires
        yollar_farkli(g),
    ensures
        forall|i: int| 0 <= i < secilenler(video_kok, g).len()
            ==> girdi_yollari(g).contains(#[trigger] secilenler(video_kok, g)[i].path),
        forall|i: int, j: int| 0 <= i < j < secilenler(video_kok, g).len()
            ==> secilenler(video_kok, g)[i].path != secilenler(video_kok, g)[j].path,
    decreases g.len(),
{
    if g.len() > 0 {
        let h = g.drop_last();
        let son = g.last();
        assert(yollar_farkli(h)) by {
            assert forall|i: int, j: int| 0 <= i < j < h.len() implies h[i].yol@ != h[j].yol@ by {
                assert(h[i] == g[i] && h[j] == g[j]);
            }
        }
        secilenler_yollari(video_kok, h);
        let onceki = secilenler(video_kok, h);
        let yh = girdi_yollari(h);
        let yg = girdi_yollari(g);
        assert(yg =~= yh.push(son.yol@));
        assert forall|i: int| 0 <= i < onceki.len() implies yg.contains(#[trigger] onceki[i].path) by {
            let k = choose|k: int| 0 <= k < yh.len() && yh[k] == onceki[i].path;
            assert(yg[k] == yh[k]);
        }
        match girdi_altyazisi(video_kok, son) {
            Some(a) => {
                assert(a.path == son.yol@);
                assert(!yh.contains(son.yol@)) by {
                    if yh.contains(son.yol@) {
                        let k = choose|k: int| 0 <= k < yh.len() && yh[k] == son.yol@;
                        assert(g[k].yol@ == g[g.len() - 1].yol@);
                    }
                }
                let t = onceki.push(a);
                assert(secilenler(video_kok, g) == t);
                assert forall|i: int| 0 <= i < t.len() implies yg.contains(#[trigger] t[i].path) by {
                    if i < onceki.len() {
                        assert(t[i] == onceki[i]);
                    } else {
                        assert(yg[g.len() - 1] == t[i].path);
                    }
                }
                assert forall|i: int, j: int| 0 <= i < j < t.len() implies t[i].path != t[j].path by {
                    assert(t[i] == onceki[i]);
                    if j < onceki.len() {
                        assert(t[j] == onceki[j]);
                    } else {
                        assert(yh.contains(onceki[i].path));
                    }
                }
            },
            None => {
                assert(secilenler(video_kok, g) == onceki);
            },
        }
    }
}

/// Taking entry `i` out of the listing takes its part out of the selection.
proof fn secilenler_cikar(video_kok: Seq<char>, b: Seq<DizinGirdisi>, i: int)
    requires
        0 <= i < b.len(),
    ensures
        secilenler(video_kok, b).to_multiset() =~= secilenler(video_kok, b.remove(i)).to_multiset().add(
            secilen_ek(video_kok, b[i]),
        ),
    decreases b.len(),
{
    broadcast use vstd::seq_lib::group_to_multiset_ensures;
    broadcast use vstd::multiset::group_multiset_axioms;

    let h = b.drop_last();
    if i == b.len() - 1 {
        assert(b.remove(i) =~= h);
        match girdi_altyazisi(video_kok, b.last()) {
            Some(a) => {
                assert(secilenler(video_kok, b) == secilenler(video_kok, h).push(a));
                assert(secilenler(video_kok, h).to_multiset().insert(a) =~= secilenler(
                    video_kok,
                    h,
                ).to_multiset().add(Multiset::singleton(a)));
            },
            None => {
                assert(secilenler(video_kok, h).to_multiset().add(Multiset::empty()) =~= secilenler(
                    video_kok,
                    h,
                ).to_multiset());
            },
        }
    } else {
        secilenler_cikar(video_kok, h, i);
        let br = b.remove(i);
        assert(br.drop_last() =~= h.remove(i));
        assert(br.last() == b.last());
        assert(h[i] == b[i]);
        let ek = secilen_ek(video_kok, b[i]);
        let alt = secilenler(video_kok, h.remove(i)).to_multiset();
        match girdi_altyazisi(video_kok, b.last()) {
            Some(a) => {
                assert(secilenler(video_kok, b) == secilenler(video_kok, h).push(a));
                assert(secilenler(video_kok, br) == secilenler(video_kok, h.remove(i)).push(a));
                assert(alt.add(ek).insert(a) =~= alt.insert(a).add(ek));
            },
            None => {
                assert(secilenler(video_kok, b) == secilenler(video_kok, h));
                assert(secilenler(video_kok, br) == secilenler(video_kok, h.remove(i)));
            },
        }
    }
}

/// Listings with the same entries, in any order, select the same subtitles.
proof fn secilenler_siradan_bagimsiz(video_kok: Seq<char>, a: Seq<DizinGirdisi>, b: Seq<DizinGirdisi>)
    requires
        a.to_multiset() == b.to_multiset(),
    ensures
        secilenler(video_kok, a).to_multiset() == secilenler(video_kok, b).to_multiset(),
    decreases a.len(),
{
    broadcast use vstd::seq_lib::group_to_multiset_ensures;
    broadcast use vstd::multiset::group_multiset_axioms;

    assert(a.to_multiset().len() == a.len());
    assert(b.to_multiset().len() == b.len());
    if a.len() == 0 {
        assert(b.len() == 0);
        assert(a =~= b);
    } else {
        let x = a.last();
        assert(a.contains(x)) by {
            assert(a[a.len() - 1] == x);
        }
        assert(a.to_multiset().count(x) > 0);
        assert(b.to_multiset().count(x) > 0);
        assert(b.contains(x));
        let i = choose|i: int| 0 <= i < b.len() && b[i] == x;
        let a2 = a.remove(a.len() - 1);
        let b2 = b.remove(i);
        assert(a2.to_multiset() == a.to_multiset().remove(x));
        assert(b2.to_multiset() == b.to_multiset().remove(x));
        secilenler_siradan_bagimsiz(video_kok, a2, b2);
        secilenler_cikar(video_kok, a, a.len() - 1);
        secilenler_cikar(video_kok, b, i);
    }
}

/// Two strictly ordered sequences with the same elements are equal.
proof fn kesin_sirali_tek(s: Seq<AltyaziGorunumu>, t: Seq<AltyaziGorunumu>)
    requires
        yola_gore_kesin_sirali(s),
        yola_gore_kesin_sirali(t),
        forall|x: AltyaziGorunumu| s.contains(x) <==> t.contains(x),
    ensures
        s == t,
    decreases s.len(),
{
    if s.len() == 0 {
        if t.len() > 0 {
            assert(t.contains(t[0]));
        }
        assert(s =~= t);
    } else if t.len() == 0 {
        assert(s.contains(s[0]));
    } else {
        assert(s.contains(s[0]));
        assert(t.contains(t[0]));
        let j = choose|j: int| 0 <= j < t.len() && t[j] == s[0];
        let i = choose|i: int| 0 <= i < s.len() && s[i] == t[0];
        if j > 0 {
            assert(sozluk_once(t[0].path, t[j].path));
            sozluk_once_yansimasiz(s[0].path);
            if i > 0 {
                assert(sozluk_once(s[0].path, s[i].path));
                sozluk_once_gecisli(s[0].path, s[i].path, s[0].path);
            }
        }
        assert(t[0] == s[0]);
        let s2 = s.drop_first();
        let t2 = t.drop_first();
        assert forall|x: AltyaziGorunumu| s2.contains(x) <==> t2.contains(x) by {
            if s2.contains(x) {
                let k = choose|k: int| 0 <= k < s2.len() && s2[k] == x;
                assert(s[k + 1] == x);
                assert(sozluk_once(s[0].path, s[k + 1].path));
                sozluk_once_yansimasiz(s[0].path);
                assert(s.contains(x));
                let m = choose|m: int| 0 <= m < t.len() && t[m] == x;
                assert(m != 0);
                assert(t2[m - 1] == x);
            }
            if t2.contains(x) {
                let k = choose|k: int| 0 <= k < t2.len() && t2[k] == x;
                assert(t[k + 1] == x);
                assert(sozluk_once(t[0].path, t[k + 1].path));
                sozluk_once_yansimasiz(t[0].path);
                assert(t.contains(x));
                let m = choose|m: int| 0 <= m < s.len() && s[m] == x;
                assert(m != 0);
                assert(s2[m - 1] == x);
            }
        }
        assert(yola_gore_kesin_sirali(s2)) by {
            assert forall|a: int, c: int| 0 <= a < c < s2.len() implies sozluk_once(s2[a].path, s2[c].path) by {
                assert(s2[a] == s[a + 1] && s2[c] == s[c + 1]);
            }
        }
        assert(yola_gore_kesin_sirali(t2)) by {
            assert forall|a: int, c: int| 0 <= a < c < t2.len() implies sozluk_once(t2[a].path, t2[c].path) by {
                assert(t2[a] == t[a + 1] && t2[c] == t[c + 1]);
            }
        }
        kesin_sirali_tek(s2, t2);
        assert(s =~= t) by {
            assert forall|k: int| 0 <= k < s.len() implies s[k] == t[k] by {
                if k > 0 {
                    assert(s[k] == s2[k - 1] && t[k] == t2[k - 1]);
                }
            }
        }
    }
}

/// A path-ordered result holding exactly the selection of a listing whose
/// paths differ is strictly ordered.
proof fn secim_kesin_sirali(video_kok: Seq<char>, g: Seq<DizinGirdisi>, r: Seq<AltyaziGorunumu>)
    requires
        yollar_farkli(g),
        yola_gore_sirali(r),
        r.to_multiset() == secilenler(video_kok, g).to_multiset(),
    ensures
        yola_gore_kesin_sirali(r),
{
    broadcast use vstd::seq_lib::group_to_multiset_ensures;

    let sec = secilenler(video_kok, g);
    secilenler_yollari(video_kok, g);
    assert(sec.no_duplicates()) by {
        assert forall|i: int, j: int| 0 <= i < sec.len() && 0 <= j < sec.len() && i != j implies sec[i] != sec[j] by {
            if i < j {
                assert(sec[i].path != sec[j].path);
            } else {
                assert(sec[j].path != sec[i].path);
            }
        }
    }
    sec.lemma_multiset_has_no_duplicates();
    r.lemma_multiset_has_no_duplicates_conv();
    assert forall|i: int, j: int| 0 <= i < j < r.len() implies sozluk_once(r[i].path, r[j].path) by {
        assert(r.to_multiset().count(r[i]) > 0);
        assert(r.to_multiset().count(r[j]) > 0);
        assert(sec.contains(r[i]));
        assert(sec.contains(r[j]));
        let p = choose|p: int| 0 <= p < sec.len() && sec[p] == r[i];
        let q = choose|q: int| 0 <= q < sec.len() && sec[q] == r[j];
        assert(r[i] != r[j]);
        assert(p != q);
        if p < q {
            assert(sec[p].path != sec[q].path);
        } else {
            assert(sec[q].path != sec[p].path);
        }
        assert(!sozluk_once(r[j].path, r[i].path));
        if !sozluk_once(r[i].path, r[j].path) {
            sozluk_once_uclu(r[i].path, r[j].path);
        }
    }
}

/// The subtitles found do not depend on the order in which the folder lists
/// its files: for two listings of the same files (no path twice), every
/// pair of results that [`altyazilari_sec`] may give — path-ordered, holding
/// exactly the selection — is one and the same list, strictly ordered by
/// path.
pub proof fn liste_sirasindan_bagimsiz(
    video_kok: Seq<char>,
    a: Seq<DizinGirdisi>,
    b: Seq<DizinGirdisi>,
    ra: Seq<AltyaziGorunumu>,
    rb: Seq<AltyaziGorunumu>,
)
    requires
        a.to_multiset() == b.to_multiset(),
        yollar_farkli(a),
        yola_gore_sirali(ra),
        ra.to_multiset() == secilenler(video_kok, a).to_multiset(),
        yola_gore_sirali(rb),
        rb.to_multiset() == secilenler(video_kok, b).to_multiset(),
    ensures
        ra == rb,
        yola_gore_kesin_sirali(ra),
{
    broadcast use vstd::seq_lib::group_to_multiset_ensures;

    secilenler_siradan_bagimsiz(video_kok, a, b);
    secim_kesin_sirali(video_kok, a, ra);
    secim_kesin_sirali(video_kok, a, rb);
    assert forall|x: AltyaziGorunumu| ra.contains(x) <==> rb.contains(x) by {
        assert(ra.contains(x) <==> ra.to_multiset().count(x) > 0);
        assert(rb.contains(x) <==> rb.to_multiset().count(x) > 0);
    }
    kesin_sirali_tek(ra, rb);
}

/// Which entries of the video's folder are its subtitles, ordered by path.
///
/// The order must be stable: the first subtitle is selected automatically,
/// and a folder listing's order differs from system to system.
pub fn altyazilari_sec(video_kok: &str, girdiler: &Vec<DizinGirdisi>) -> (r: Vec<NearbySubtitle>)
    ensures
        yola_gore_sirali(r@.map_values(|n: NearbySubtitle| n@)),
        yollar_farkli(girdiler@) ==> yola_gore_kesin_sirali(r@.map_values(|n: NearbySubtitle| n@)),
        r@.map_values(|n: NearbySubtitle| n@).to_multiset() =~= secilenler(
            video_kok@,
            girdiler@,
        ).to_multiset(),
{
    let mut bulunan: Vec<NearbySubtitle> = Vec::new();
    let mut i: usize = 0;
    while i < girdiler.len()
        invariant
            i <= girdiler.len(),
            bulunan@.map_values(|n: NearbySubtitle| n@) =~= secilenler(
                video_kok@,
                girdiler@.take(i as int),
            ),
        decreases girdiler.len() - i,
    {
        proof {
            assert(girdiler@.take(i + 1).drop_last() =~= girdiler@.take(i as int));
            assert(girdiler@.take(i + 1).last() == girdiler@[i as int]);
        }
        let g = &girdiler[i];
        if g.dosya_mi {
            if let Some(u) = &g.uzanti {
                let uzanti = metin_kucult(u.as_str());
                if altyazi_uzantisi_mi(uzanti.as_str()) {
                    if let Some(ad_kok) = &g.ad_kok {
                        if let Some(ek) = eslesme_eki(ad_kok.as_str(), video_kok) {
                            let yeni = NearbySubtitle {
                                path: g.yol.clone(),
                                label: etiket(ek.as_str(), uzanti.as_str(), ad_kok.as_str()),
                                lang: dil_kodu(ek.as_str()),
                            };
                            proof {
                                assert(bulunan@.push(yeni).map_values(|n: NearbySubtitle| n@)
                                    =~= bulunan@.map_values(|n: NearbySubtitle| n@).push(yeni@));
                            }
                            bulunan.push(yeni);
                        }
                    }
                }
            }
        }
        i += 1;
    }
    proof {
        assert(girdiler@.take(i as int) =~= girdiler@);
    }
    let r = yola_gore_sirala(bulunan);
    proof {
        if yollar_farkli(girdiler@) {
            secim_kesin_sirali(video_kok@, girdiler@, r@.map_values(|n: NearbySubtitle| n@));
        }
    }
    r
}

/// The commands that load the found subtitles into the player: `sub-add`
/// with the `auto` flag for each, in order. `auto` adds a subtitle without
/// selecting it when one is already selected; the first one added is
/// selected, so the order decides which language comes up.
pub fn otomatik_yukle(altyazilar: &Vec<NearbySubtitle>) -> (r: Vec<MpvKomutu>)
    ensures
        r@.len() == altyazilar@.len(),
        forall|i: int| 0 <= i < r@.len() ==> #[trigger] r@[i]@ == crate::mpv_komut::komut_gorunumu(
            "sub-add"@,
            seq![altyazilar@[i].path@, "auto"@],
        ),
{
    let mut r: Vec<MpvKomutu> = Vec::new();
    let mut i: usize = 0;
    while i < altyazilar.len()
        invariant
            i <= altyazilar.len(),
            r@.len() == i,
            forall|k: int| 0 <= k < i ==> #[trigger] r@[k]@ == crate::mpv_komut::komut_gorunumu(
                "sub-add"@,
                seq![altyazilar@[k].path@, "auto"@],
            ),
        decreases altyazilar.len() - i,
    {
        let k = MpvKomutu::iki_argumanli("sub-add", altyazilar[i].path.as_str(), "auto");
        r.push(k);
        i += 1;
    }
    r
}

/// A subtitle file the user picked: `sub-add` with `select`, so it shows at
/// once. A path that is not an existing file is refused with an error that
/// names it.
pub fn elle_ekle(dosya_var: bool, yol: &str) -> (r: Result<MpvKomutu, Hata>)
    ensures
        dosya_var ==> (r matches Ok(k) && k@ == crate::mpv_komut::komut_gorunumu(
            "sub-add"@,
            seq![yol@, "select"@],
        )),
        !dosya_var ==> (r matches Err(h) && h@ == "altyazı dosyası bulunamadı: "@ + yol@),
{
    if !dosya_var {
        return Err(Hata::onekli("altyazı dosyası bulunamadı: ", yol));
    }
    Ok(MpvKomutu::iki_argumanli("sub-add", yol, "select"))
}

} // verus!
