//! The queue: what is playing now and what plays next.
//!
//! Navigation decisions are pure functions ([`sonraki`], [`onceki`],
//! [`karistir`]); [`Kuyruk`] keeps the list, the current index and the
//! navigation order, and every operation keeps the order a permutation of
//! the list's indices.

use vstd::prelude::*;

use crate::kutuphane::{dosya_adi, dosya_koku_spec, hex_metni, kimlik, sha256};
use crate::metin::esit;
use crate::zaman::tohum;

verus! {

/// One entry of the queue: the subset of a library record that playback
/// needs.
///
/// `duration_bits` is the duration in seconds as the bit pattern of an
/// IEEE-754 double; the queue carries it to the interface and never reads it.
pub struct QueueItem {
    pub id: String,
    pub path: String,
    pub title: String,
    pub duration_bits: u64,
    pub media_type: String,
}

impl Clone for QueueItem {
    fn clone(&self) -> (r: Self)
        ensures
            r == *self,
    {
        QueueItem {
            id: self.id.clone(),
            path: self.path.clone(),
            title: self.title.clone(),
            duration_bits: self.duration_bits,
            media_type: self.media_type.clone(),
        }
    }
}

/// The queue entry of a file the library has no record of: its identity
/// from its path, its name without extension as the title, no known
/// length (the bits of `0.0`), and counted as video.
pub fn yoldan_oge(yol: &str) -> (r: QueueItem)
    ensures
        r.id@ == hex_metni(sha256(vstd::utf8::encode_utf8(yol@)).take(16)),
        r.path@ == yol@,
        r.title@ == match dosya_koku_spec(yol@) {
            Some(k) => k,
            None => yol@,
        },
        r.duration_bits == 0,
        r.media_type@ == "video"@,
{
    proof {
        reveal_strlit("video");
    }
    QueueItem {
        id: kimlik(yol),
        path: yol.to_owned(),
        title: dosya_adi(yol),
        duration_bits: 0,
        media_type: "video".to_owned(),
    }
}

/// What happens at the end of the list.
#[derive(Debug, Clone, Copy, PartialEq, Eq, Structural)]
pub enum Repeat {
    /// Stops when the list ends.
    Off,
    /// Wraps around to the start.
    All,
    /// Repeats the same file.
    One,
}

impl Default for Repeat {
    fn default() -> (r: Self)
        ensures
            r == Repeat::Off,
    {
        Repeat::Off
    }
}

/// The picture of the queue handed to the interface.
pub struct QueueSnapshot {
    pub items: Vec<QueueItem>,
    pub current_index: Option<usize>,
    pub repeat: Repeat,
    pub shuffle: bool,
}

// ---------------------------------------------------------------------------
// Navigation, as pure functions.
// ---------------------------------------------------------------------------

/// The first index at which `x` occurs in `s`.
pub open spec fn ilk_konum(s: Seq<usize>, x: usize) -> Option<int> {
    if exists|k: int| 0 <= k < s.len() && s[k] == x {
        Some(
            choose|k: int|
                0 <= k < s.len() && s[k] == x && forall|m: int| 0 <= m < k ==> s[m] != x,
        )
    } else {
        None
    }
}

/// The next index to play, over the navigation order `sira`.
///
/// With `otomatik` (the file ended by itself) and [`Repeat::One`] the same
/// file plays again; a user's "next" moves on even then.
pub open spec fn sonraki_spec(
    sira: Seq<usize>,
    simdiki: Option<usize>,
    repeat: Repeat,
    otomatik: bool,
) -> Option<usize> {
    if sira.len() == 0 {
        None
    } else if otomatik && repeat == Repeat::One {
        simdiki
    } else {
        match simdiki {
            None => Some(sira[0]),
            Some(s) => match ilk_konum(sira, s) {
                None => Some(sira[0]),
                Some(k) => if k + 1 < sira.len() {
                    Some(sira[k + 1])
                } else if repeat != Repeat::Off {
                    Some(sira[0])
                } else {
                    None
                },
            },
        }
    }
}

/// The previous index to play; at the start it wraps only when repeat is on.
pub open spec fn onceki_spec(sira: Seq<usize>, simdiki: Option<usize>, repeat: Repeat) -> Option<
    usize,
> {
    if sira.len() == 0 {
        None
    } else {
        match simdiki {
            None => Some(sira[0]),
            Some(s) => match ilk_konum(sira, s) {
                None => Some(sira[0]),
                Some(k) => if k > 0 {
                    Some(sira[k - 1])
                } else if repeat != Repeat::Off {
                    Some(sira[sira.len() - 1])
                } else {
                    None
                },
            },
        }
    }
}

/// The first index whose value is at least `v`.
pub open spec fn ilk_buyuk_esit(s: Seq<usize>, v: usize) -> Option<int> {
    if exists|k: int| 0 <= k < s.len() && s[k] >= v {
        Some(
            choose|k: int|
                0 <= k < s.len() && s[k] >= v && forall|m: int| 0 <= m < k ==> s[m] < v,
        )
    } else {
        None
    }
}

/// Where the requested start lands in a filtered queue: the first kept entry
/// at or after it, else the last kept entry (0 when nothing was kept).
pub open spec fn baslangici_esle_spec(bulunan: Seq<usize>, istenen: usize) -> int {
    match ilk_buyuk_esit(bulunan, istenen) {
        Some(k) => k,
        None => if bulunan.len() == 0 {
            0
        } else {
            bulunan.len() - 1
        },
    }
}

/// One step of the xorshift64 generator.
pub open spec fn xorshift(d: u64) -> u64 {
    let a = d ^ (d << 13u64);
    let b = a ^ (a >> 7u64);
    b ^ (b << 17u64)
}

/// Fisher-Yates from index `i` down to 1, drawing from `durum`.
pub open spec fn karistir_dongu(s: Seq<usize>, durum: u64, i: int) -> Seq<usize>
    decreases i,
{
    if i < 1 {
        s
    } else {
        let d = xorshift(durum);
        let j = (d % ((i + 1) as u64)) as int;
        karistir_dongu(s.update(i, s[j]).update(j, s[i]), d, i - 1)
    }
}

/// The identity order `0, 1, ..., n - 1`.
pub open spec fn duz_sira(n: nat) -> Seq<usize> {
    Seq::new(n, |k: int| k as usize)
}

/// The order that [`karistir`] produces for `n` items and a seed.
pub open spec fn karistir_spec(n: nat, tohum: u64) -> Seq<usize> {
    karistir_dongu(duz_sira(n), tohum | 1u64, n - 1)
}

/// `s` is a permutation of `0..n`.
pub open spec fn permutasyon(s: Seq<usize>, n: nat) -> bool {
    &&& s.len() == n
    &&& forall|k: int| 0 <= k < n ==> #[trigger] s[k] < n
    &&& forall|a: int, b: int| 0 <= a < b < n ==> s[a] != s[b]
    &&& forall|v: usize| v < n ==> #[trigger] s.contains(v)
}

fn konum_bul(sira: &[usize], x: usize) -> (r: Option<usize>)
    ensures
        match r {
            Some(k) => ilk_konum(sira@, x) == Some(k as int) && k < sira@.len(),
            None => ilk_konum(sira@, x) is None,
        },
{
    let mut i: usize = 0;
    while i < sira.len()
        invariant
            i <= sira@.len(),
            forall|m: int| 0 <= m < i ==> sira@[m] != x,
        decreases sira@.len() - i,
    {
        if sira[i] == x {
            proof {
                let s = sira@;
                assert(0 <= i < s.len() && s[i as int] == x && forall|m: int|
                    0 <= m < i ==> s[m] != x);
                let c = choose|k: int|
                    0 <= k < s.len() && s[k] == x && forall|m: int| 0 <= m < k ==> s[m] != x;
                if c < i {
                    assert(s[c] != x);
                } else if c > i {
                    assert(s[i as int] != x);
                }
            }
            return Some(i);
        }
        i += 1;
    }
    None
}

/// The index of the entry to play next.
pub fn sonraki(sira: &[usize], simdiki: Option<usize>, repeat: Repeat, otomatik: bool) -> (r: Option<
    usize,
>)
    ensures
        r == sonraki_spec(sira@, simdiki, repeat, otomatik),
{
    if sira.len() == 0 {
        return None;
    }
    if otomatik && repeat == Repeat::One {
        return simdiki;
    }
    let simdiki = match simdiki {
        None => return Some(sira[0]),
        Some(s) => s,
    };
    let konum = match konum_bul(sira, simdiki) {
        None => return Some(sira[0]),
        Some(k) => k,
    };
    if konum + 1 < sira.len() {
        Some(sira[konum + 1])
    } else if repeat != Repeat::Off {
        Some(sira[0])
    } else {
        None
    }
}

/// The index of the entry before the current one.
pub fn onceki(sira: &[usize], simdiki: Option<usize>, repeat: Repeat) -> (r: Option<usize>)
    ensures
        r == onceki_spec(sira@, simdiki, repeat),
{
    if sira.len() == 0 {
        return None;
    }
    let simdiki = match simdiki {
        None => return Some(sira[0]),
        Some(s) => s,
    };
    let konum = match konum_bul(sira, simdiki) {
        None => return Some(sira[0]),
        Some(k) => k,
    };
    if konum > 0 {
        Some(sira[konum - 1])
    } else if repeat != Repeat::Off {
        Some(sira[sira.len() - 1])
    } else {
        None
    }
}

/// Maps the index the interface asked for onto the queue that was built
/// from the records that still exist.
///
/// `bulunan` holds, in increasing order, the index each kept record had in
/// the interface's list.
pub fn baslangici_esle(bulunan: &[usize], istenen: usize) -> (r: usize)
    ensures
        r == baslangici_esle_spec(bulunan@, istenen),
{
    let mut i: usize = 0;
    while i < bulunan.len()
        invariant
            i <= bulunan@.len(),
            forall|m: int| 0 <= m < i ==> bulunan@[m] < istenen,
        decreases bulunan@.len() - i,
    {
        if bulunan[i] >= istenen {
            proof {
                let s = bulunan@;
                assert(0 <= i < s.len() && s[i as int] >= istenen && forall|m: int|
                    0 <= m < i ==> s[m] < istenen);
                let c = choose|k: int|
                    0 <= k < s.len() && s[k] >= istenen && forall|m: int|
                        0 <= m < k ==> s[m] < istenen;
                if c < i {
                    assert(s[c] < istenen);
                } else if c > i {
                    assert(s[i as int] < istenen);
                }
            }
            return i;
        }
        i += 1;
    }
    bulunan.len().saturating_sub(1)
}

fn duz_sira_uret(n: usize) -> (r: Vec<usize>)
    ensures
        r@ == duz_sira(n as nat),
{
    let mut r: Vec<usize> = Vec::new();
    let mut k: usize = 0;
    while k < n
        invariant
            k <= n,
            r@ == duz_sira(k as nat),
        decreases n - k,
    {
        r.push(k);
        k += 1;
        assert(r@ =~= duz_sira(k as nat));
    }
    r
}

proof fn duz_sira_permutasyon(n: nat)
    requires
        n <= usize::MAX,
    ensures
        permutasyon(duz_sira(n), n),
{
    let s = duz_sira(n);
    assert forall|k: int| 0 <= k < n implies #[trigger] s[k] == k as usize by {}
    assert forall|v: usize| v < n implies #[trigger] s.contains(v) by {
        assert(s[v as int] == v);
    }
}

/// Exchanging two positions keeps a permutation a permutation.
proof fn takas_permutasyon(s: Seq<usize>, n: nat, i: int, j: int)
    requires
        permutasyon(s, n),
        0 <= i < n,
        0 <= j < n,
    ensures
        permutasyon(s.update(i, s[j]).update(j, s[i]), n),
{
    let t = s.update(i, s[j]).update(j, s[i]);
    assert forall|a: int, b: int| 0 <= a < b < n implies t[a] != t[b] by {
        let pa = if a == j {
            i
        } else if a == i {
            j
        } else {
            a
        };
        let pb = if b == j {
            i
        } else if b == i {
            j
        } else {
            b
        };
        assert(t[a] == s[pa]);
        assert(t[b] == s[pb]);
        if pa < pb {
            assert(s[pa] != s[pb]);
        } else {
            assert(s[pb] != s[pa]);
        }
    }
    assert forall|v: usize| v < n implies #[trigger] t.contains(v) by {
        assert(s.contains(v));
        let k = choose|k: int| 0 <= k < s.len() && s[k] == v;
        if k == i {
            assert(t[j] == v);
        } else if k == j {
            assert(t[i] == v);
        } else {
            assert(t[k] == v);
        }
    }
}

/// Each draw of the shuffle exchanges two positions: the step for index
/// `i` draws `j` from the generator, after which position `i` holds what
/// stood at `j`, position `j` what stood at `i`, and every other position
/// what it held; the remaining steps run from there with the next state.
pub proof fn karistirma_adimi_takas(s: Seq<usize>, durum: u64, i: int, t: Seq<usize>)
    requires
        1 <= i < s.len(),
        i < u64::MAX,
        t.len() == s.len(),
        t[i] == s[(xorshift(durum) % ((i + 1) as u64)) as int],
        t[(xorshift(durum) % ((i + 1) as u64)) as int] == s[i],
        forall|k: int|
            0 <= k < s.len() && k != i && k != (xorshift(durum) % ((i + 1) as u64)) as int
                ==> #[trigger] t[k] == s[k],
    ensures
        karistir_dongu(s, durum, i) == karistir_dongu(t, xorshift(durum), i - 1),
{
    let j = (xorshift(durum) % ((i + 1) as u64)) as int;
    assert(0 <= j <= i);
    assert(t =~= s.update(i, s[j]).update(j, s[i]));
}

/// The steps after the one for index `i` only touch positions up to `i`.
proof fn karistirma_ustu_sabit(s: Seq<usize>, durum: u64, i: int)
    requires
        i < s.len(),
        i < u64::MAX,
    ensures
        karistir_dongu(s, durum, i).len() == s.len(),
        forall|k: int| i < k < s.len() ==> #[trigger] karistir_dongu(s, durum, i)[k] == s[k],
    decreases i,
{
    if i >= 1 {
        let d = xorshift(durum);
        let j = (d % ((i + 1) as u64)) as int;
        assert(0 <= j <= i);
        let t = s.update(i, s[j]).update(j, s[i]);
        karistirma_ustu_sabit(t, d, i - 1);
        assert forall|k: int| i < k < s.len() implies #[trigger] karistir_dongu(s, durum, i)[k] == s[k] by {
            assert(karistir_dongu(t, d, i - 1)[k] == t[k]);
        }
    }
}

/// The last position of a shuffled order holds the index of the first
/// draw: for `n` entries and a seed, `xorshift(seed | 1) % n`. Later draws
/// never move it again.
pub proof fn karistirma_son_konum(n: nat, tohum: u64)
    requires
        1 <= n <= usize::MAX,
    ensures
        karistir_spec(n, tohum).len() == n,
        karistir_spec(n, tohum)[n - 1] == xorshift(tohum | 1u64) % (n as u64),
{
    let s = duz_sira(n);
    let d0 = tohum | 1u64;
    if n == 1 {
        assert(karistir_spec(n, tohum) == s);
        assert(s[0] == 0);
        assert(xorshift(d0) % 1u64 == 0u64);
    } else {
        let i = n - 1;
        let d = xorshift(d0);
        let j = (d % ((i + 1) as u64)) as int;
        assert(0 <= j <= i);
        let t = s.update(i, s[j]).update(j, s[i]);
        assert(karistir_spec(n, tohum) == karistir_dongu(t, d, i - 1));
        karistirma_ustu_sabit(t, d, i - 1);
        assert(karistir_dongu(t, d, i - 1)[i] == t[i]);
        assert(t[i] == s[j]);
        assert(j <= usize::MAX);
        assert(s[j] == j as usize);
    }
}

/// A permutation of `0..n` drawn by Fisher-Yates from an xorshift64
/// generator seeded with `tohum` (a zero seed is made odd so the generator
/// never sticks at zero).
pub fn karistir(n: usize, tohum: u64) -> (r: Vec<usize>)
    ensures
        r@ == karistir_spec(n as nat, tohum),
        permutasyon(r@, n as nat),
{
    let mut sira = duz_sira_uret(n);
    let mut durum: u64 = tohum | 1;
    proof {
        duz_sira_permutasyon(n as nat);
    }
    let mut i: usize = if n == 0 {
        0
    } else {
        n - 1
    };
    while i >= 1
        invariant
            i < n || (n == 0 && i == 0),
            permutasyon(sira@, n as nat),
            karistir_dongu(sira@, durum, i as int) == karistir_spec(n as nat, tohum),
        decreases i,
    {
        durum = durum ^ (durum << 13u64);
        durum = durum ^ (durum >> 7u64);
        durum = durum ^ (durum << 17u64);
        let bolen: u64 = i as u64 + 1;
        let j = (durum % bolen) as usize;
        proof {
            takas_permutasyon(sira@, n as nat, i as int, j as int);
        }
        let a = sira[i];
        let b = sira[j];
        sira.set(i, b);
        sira.set(j, a);
        i -= 1;
    }
    sira
}

// ---------------------------------------------------------------------------
// The queue itself.
// ---------------------------------------------------------------------------

/// The abstract state of a [`Kuyruk`].
pub struct KuyrukGorunumu {
    pub ogeler: Seq<QueueItem>,
    pub simdiki: Option<usize>,
    pub repeat: Repeat,
    pub shuffle: bool,
    pub sira: Seq<usize>,
}

/// What every queue keeps: the navigation order is a permutation of the
/// list's indices (the identity one when shuffle is off) and the current
/// index, when there is one, points into the list.
pub open spec fn duzgun(g: KuyrukGorunumu) -> bool {
    &&& permutasyon(g.sira, g.ogeler.len())
    &&& (g.simdiki matches Some(i) ==> i < g.ogeler.len())
    &&& (!g.shuffle ==> g.sira == duz_sira(g.ogeler.len()))
}

/// The order a queue takes after its order is rebuilt: the identity when
/// shuffle is off; when it is on, a permutation that starts with the
/// current entry.
pub open spec fn yeni_sira_uygun(
    sira: Seq<usize>,
    n: nat,
    shuffle: bool,
    simdiki: Option<usize>,
) -> bool {
    &&& permutasyon(sira, n)
    &&& (!shuffle ==> sira == duz_sira(n))
    &&& (shuffle && simdiki is Some ==> sira.len() > 0 && sira[0] == simdiki->0)
}

pub struct Kuyruk {
    ogeler: Vec<QueueItem>,
    simdiki: Option<usize>,
    repeat: Repeat,
    shuffle: bool,
    sira: Vec<usize>,
}

impl View for Kuyruk {
    type V = KuyrukGorunumu;

    closed spec fn view(&self) -> KuyrukGorunumu {
        KuyrukGorunumu {
            ogeler: self.ogeler@,
            simdiki: self.simdiki,
            repeat: self.repeat,
            shuffle: self.shuffle,
            sira: self.sira@,
        }
    }
}

/// `s` with the first occurrence of `x` swapped to the front; unchanged
/// when `x` does not occur.
pub open spec fn one_al(s: Seq<usize>, x: usize) -> Seq<usize> {
    match ilk_konum(s, x) {
        Some(k) => s.update(0, s[k]).update(k, s[0]),
        None => s,
    }
}

/// The navigation order for `n` entries and a seed: the identity when
/// shuffle is off; when it is on, the Fisher-Yates order of [`karistir`]
/// for that seed, with the current entry swapped to the front.
pub open spec fn sira_spec(n: nat, shuffle: bool, simdiki: Option<usize>, tohum: u64) -> Seq<usize> {
    if !shuffle {
        duz_sira(n)
    } else {
        match simdiki {
            Some(x) => one_al(karistir_spec(n, tohum), x),
            None => karistir_spec(n, tohum),
        }
    }
}

/// The order for `n` entries from a given seed: identity, or shuffled with
/// the current entry moved to the front so that turning shuffle on never
/// plays it again.
pub fn sira_kur_tohumla(n: usize, shuffle: bool, simdiki: Option<usize>, tohum: u64) -> (r: Vec<usize>)
    requires
        simdiki matches Some(i) ==> i < n,
    ensures
        r@ == sira_spec(n as nat, shuffle, simdiki, tohum),
        yeni_sira_uygun(r@, n as nat, shuffle, simdiki),
{
    if !shuffle {
        let r = duz_sira_uret(n);
        proof {
            duz_sira_permutasyon(n as nat);
        }
        return r;
    }
    let mut sira = karistir(n, tohum);
    if let Some(s) = simdiki {
        proof {
            assert(sira@.contains(s));
        }
        match konum_bul(sira.as_slice(), s) {
            Some(k) => {
                proof {
                    takas_permutasyon(sira@, n as nat, 0, k as int);
                }
                let a = sira[0];
                let b = sira[k];
                sira.set(0, b);
                sira.set(k, a);
            },
            None => {
                proof {
                    let w = choose|k: int| 0 <= k < sira@.len() && sira@[k] == s;
                    assert(sira@[w] == s);
                }
            },
        }
    }
    sira
}

/// The order for `n` entries, shuffled (when on) with a seed drawn from the
/// clock.
fn sira_kur(n: usize, shuffle: bool, simdiki: Option<usize>) -> (r: Vec<usize>)
    requires
        simdiki matches Some(i) ==> i < n,
    ensures
        yeni_sira_uygun(r@, n as nat, shuffle, simdiki),
        exists|t: u64| r@ == #[trigger] sira_spec(n as nat, shuffle, simdiki, t),
{
    sira_kur_tohumla(n, shuffle, simdiki, tohum())
}

impl Kuyruk {
    #[verifier::type_invariant]
    closed spec fn tutarli(self) -> bool {
        duzgun(self@)
    }

    /// An empty queue: nothing playing, repeat off, shuffle off.
    pub fn new() -> (r: Self)
        ensures
            r@.ogeler.len() == 0,
            r@.simdiki is None,
            r@.repeat == Repeat::Off,
            !r@.shuffle,
            r@.sira.len() == 0,
            duzgun(r@),
    {
        proof {
            duz_sira_permutasyon(0);
            assert(Seq::<usize>::empty() =~= duz_sira(0));
        }
        let r = Kuyruk {
            ogeler: Vec::new(),
            simdiki: None,
            repeat: Repeat::Off,
            shuffle: false,
            sira: Vec::new(),
        };
        assert(r@.sira =~= duz_sira(0));
        r
    }

    fn ogeleri_kopyala(&self) -> (r: Vec<QueueItem>)
        ensures
            r@ == self@.ogeler,
    {
        let mut r: Vec<QueueItem> = Vec::new();
        let mut i: usize = 0;
        while i < self.ogeler.len()
            invariant
                i <= self.ogeler@.len(),
                r@ == self.ogeler@.take(i as int),
            decreases self.ogeler@.len() - i,
        {
            r.push(self.ogeler[i].clone());
            i += 1;
            assert(r@ =~= self.ogeler@.take(i as int));
        }
        assert(self.ogeler@.take(i as int) =~= self.ogeler@);
        r
    }

    /// A copy of the queue for the interface.
    pub fn anlik(&self) -> (r: QueueSnapshot)
        ensures
            r.items@ == self@.ogeler,
            r.current_index == self@.simdiki,
            r.repeat == self@.repeat,
            r.shuffle == self@.shuffle,
    {
        QueueSnapshot {
            items: self.ogeleri_kopyala(),
            current_index: self.simdiki,
            repeat: self.repeat,
            shuffle: self.shuffle,
        }
    }

    /// Replaces the list; nothing is playing afterwards (a new queue is a
    /// new session) and the order is rebuilt.
    pub fn yerlestir(&mut self, ogeler: Vec<QueueItem>)
        ensures
            final(self)@.ogeler == ogeler@,
            final(self)@.simdiki is None,
            final(self)@.repeat == old(self)@.repeat,
            final(self)@.shuffle == old(self)@.shuffle,
            yeni_sira_uygun(final(self)@.sira, ogeler@.len(), old(self)@.shuffle, None),
            exists|t: u64| final(self)@.sira == #[trigger] sira_spec(ogeler@.len(), old(self)@.shuffle, None, t),
            duzgun(final(self)@),
    {
        let sira = sira_kur(ogeler.len(), self.shuffle, None);
        *self = Kuyruk { ogeler, simdiki: None, repeat: self.repeat, shuffle: self.shuffle, sira };
    }

    /// The entries, in list order.
    pub fn ogeler(&self) -> (r: &[QueueItem])
        ensures
            r@ == self@.ogeler,
    {
        self.ogeler.as_slice()
    }

    /// The entry that is playing, if any.
    pub fn simdiki(&self) -> (r: Option<&QueueItem>)
        ensures
            match self@.simdiki {
                Some(i) => r == Some(&self@.ogeler[i as int]),
                None => r is None,
            },
    {
        proof {
            use_type_invariant(self);
        }
        match self.simdiki {
            Some(i) => Some(&self.ogeler[i]),
            None => None,
        }
    }

    /// Makes `indeks` the playing entry and hands it back; an index outside
    /// the list changes nothing.
    pub fn sec(&mut self, indeks: usize) -> (r: Option<QueueItem>)
        ensures
            indeks < old(self)@.ogeler.len() ==> r == Some(old(self)@.ogeler[indeks as int])
                && final(self)@ == (KuyrukGorunumu { simdiki: Some(indeks), ..old(self)@ }),
            indeks >= old(self)@.ogeler.len() ==> r is None && final(self)@ == old(self)@,
    {
        proof {
            use_type_invariant(&*self);
        }
        if indeks >= self.ogeler.len() {
            return None;
        }
        let oge = self.ogeler[indeks].clone();
        self.simdiki = Some(indeks);
        Some(oge)
    }

    /// Marks the first entry with this path as playing, or nothing when no
    /// entry has it.
    pub fn yolu_isaretle(&mut self, yol: &str)
        ensures
            final(self)@ == (KuyrukGorunumu {
                simdiki: match yol_konumu(old(self)@.ogeler, yol@) {
                    Some(k) => Some(k as usize),
                    None => None,
                },
                ..old(self)@
            }),
    {
        proof {
            use_type_invariant(&*self);
        }
        let mut i: usize = 0;
        while i < self.ogeler.len()
            invariant
                self@ == old(self)@,
                duzgun(self@),
                i <= self.ogeler@.len(),
                forall|m: int| 0 <= m < i ==> self.ogeler@[m].path@ != yol@,
            decreases self.ogeler@.len() - i,
        {
            if esit(self.ogeler[i].path.as_str(), yol) {
                proof {
                    let s = self.ogeler@;
                    let c = choose|k: int|
                        0 <= k < s.len() && s[k].path@ == yol@ && forall|m: int|
                            0 <= m < k ==> s[m].path@ != yol@;
                    assert(0 <= i < s.len() && s[i as int].path@ == yol@);
                    if c < i {
                        assert(s[c].path@ != yol@);
                    } else if c > i {
                        assert(s[i as int].path@ != yol@);
                    }
                }
                self.simdiki = Some(i);
                return;
            }
            i += 1;
        }
        self.simdiki = None;
    }

    /// Moves on in the navigation order and plays that entry; `None` when
    /// the list has ended (the state is then unchanged).
    pub fn ilerle(&mut self, otomatik: bool) -> (r: Option<QueueItem>)
        ensures
            ({
                let h = sonraki_spec(old(self)@.sira, old(self)@.simdiki, old(self)@.repeat, otomatik);
                match h {
                    Some(k) => k < old(self)@.ogeler.len() && r == Some(old(self)@.ogeler[k as int])
                        && final(self)@ == (KuyrukGorunumu { simdiki: Some(k), ..old(self)@ }),
                    None => r is None && final(self)@ == old(self)@,
                }
            }),
    {
        proof {
            use_type_invariant(&*self);
        }
        let hedef = sonraki(self.sira.as_slice(), self.simdiki, self.repeat, otomatik);
        match hedef {
            Some(k) => {
                proof {
                    gezinme_listede(self.sira@, self.ogeler@.len(), self.simdiki, self.repeat, otomatik);
                }
                self.sec(k)
            },
            None => None,
        }
    }

    /// Steps back in the navigation order and plays that entry; `None` at
    /// the start with repeat off (the state is then unchanged).
    pub fn gerile(&mut self) -> (r: Option<QueueItem>)
        ensures
            ({
                let h = onceki_spec(old(self)@.sira, old(self)@.simdiki, old(self)@.repeat);
                match h {
                    Some(k) => k < old(self)@.ogeler.len() && r == Some(old(self)@.ogeler[k as int])
                        && final(self)@ == (KuyrukGorunumu { simdiki: Some(k), ..old(self)@ }),
                    None => r is None && final(self)@ == old(self)@,
                }
            }),
    {
        proof {
            use_type_invariant(&*self);
        }
        let hedef = onceki(self.sira.as_slice(), self.simdiki, self.repeat);
        match hedef {
            Some(k) => {
                proof {
                    geri_gezinme_listede(self.sira@, self.ogeler@.len(), self.simdiki, self.repeat);
                }
                self.sec(k)
            },
            None => None,
        }
    }

    pub fn repeat_ayarla(&mut self, r: Repeat)
        ensures
            final(self)@ == (KuyrukGorunumu { repeat: r, ..old(self)@ }),
    {
        proof {
            use_type_invariant(&*self);
        }
        self.repeat = r;
    }

    /// Turns shuffle on or off and rebuilds the order; the list itself keeps
    /// its order.
    pub fn shuffle_ayarla(&mut self, acik: bool)
        ensures
            final(self)@.ogeler == old(self)@.ogeler,
            final(self)@.simdiki == old(self)@.simdiki,
            final(self)@.repeat == old(self)@.repeat,
            final(self)@.shuffle == acik,
            yeni_sira_uygun(final(self)@.sira, old(self)@.ogeler.len(), acik, old(self)@.simdiki),
            exists|t: u64| final(self)@.sira == #[trigger] sira_spec(
                old(self)@.ogeler.len(),
                acik,
                old(self)@.simdiki,
                t,
            ),
            duzgun(final(self)@),
    {
        proof {
            use_type_invariant(&*self);
        }
        let sira = sira_kur(self.ogeler.len(), acik, self.simdiki);
        let ogeler = self.ogeleri_kopyala();
        *self = Kuyruk { ogeler, simdiki: self.simdiki, repeat: self.repeat, shuffle: acik, sira };
    }
    /// Lines the queue up with a single file the user opened (drag and
    /// drop, "Open file", a click in the grid): when the file is in the
    /// queue the queue stays and the file becomes the playing entry;
    /// otherwise the queue is cut down to that one file, so that when it ends
    /// nothing unrelated starts.
    pub fn dosyaya_hizala(&mut self, oge: QueueItem)
        ensures
            yol_konumu(old(self)@.ogeler, oge.path@) is Some ==> final(self)@ == (KuyrukGorunumu {
                simdiki: Some(yol_konumu(old(self)@.ogeler, oge.path@)->0 as usize),
                ..old(self)@
            }),
            yol_konumu(old(self)@.ogeler, oge.path@) is None ==> final(self)@.ogeler == seq![oge]
                && final(self)@.simdiki == Some(0usize) && final(self)@.repeat == old(self)@.repeat
                && final(self)@.shuffle == old(self)@.shuffle,
            final(self)@.simdiki matches Some(k) && k < final(self)@.ogeler.len()
                && final(self)@.ogeler[k as int].path@ == oge.path@,
            duzgun(final(self)@),
    {
        proof {
            use_type_invariant(&*self);
        }
        let mut var = false;
        let mut i: usize = 0;
        while i < self.ogeler.len()
            invariant
                self@ == old(self)@,
                i <= self.ogeler@.len(),
                var == exists|k: int| 0 <= k < i && self.ogeler@[k].path@ == oge.path@,
            decreases self.ogeler@.len() - i,
        {
            if esit(self.ogeler[i].path.as_str(), oge.path.as_str()) {
                var = true;
            }
            i += 1;
        }
        if !var {
            proof {
                if yol_konumu(self@.ogeler, oge.path@) is Some {
                    let c = choose|k: int| 0 <= k < self@.ogeler.len() && self@.ogeler[k].path@ == oge.path@;
                    assert(self.ogeler@[c].path@ == oge.path@);
                }
            }
            let mut tek: Vec<QueueItem> = Vec::new();
            tek.push(oge.clone());
            self.yerlestir(tek);
            proof {
                use_type_invariant(&*self);
                let s = self@.ogeler;
                assert(s[0].path@ == oge.path@);
                yol_konumu_ilk(s, oge.path@, 0);
            }
        } else {
            proof {
                let s = self@.ogeler;
                let k = choose|k: int| 0 <= k < s.len() && s[k].path@ == oge.path@;
                yol_konumu_ilk(s, oge.path@, k);
            }
        }
        self.yolu_isaretle(oge.path.as_str());
        proof {
            use_type_invariant(&*self);
        }
    }
}

/// When some entry has the path, [`yol_konumu`] names a first such entry.
proof fn yol_konumu_ilk(s: Seq<QueueItem>, yol: Seq<char>, k: int)
    requires
        0 <= k < s.len(),
        s[k].path@ == yol,
    ensures
        yol_konumu(s, yol) matches Some(j) && 0 <= j < s.len() && s[j].path@ == yol,
    decreases k,
{
    if exists|m: int| 0 <= m < k && s[m].path@ == yol {
        let m = choose|m: int| 0 <= m < k && s[m].path@ == yol;
        yol_konumu_ilk(s, yol, m);
    } else {
        assert(0 <= k < s.len() && s[k].path@ == yol && forall|m: int| 0 <= m < k ==> s[m].path@ != yol);
    }
}


impl Default for Kuyruk {
    fn default() -> (r: Self)
        ensures
            r@.ogeler.len() == 0,
            r@.simdiki is None,
            r@.repeat == Repeat::Off,
            !r@.shuffle,
            r@.sira.len() == 0,
    {
        Kuyruk::new()
    }
}

/// The first entry whose path is `yol`.
pub open spec fn yol_konumu(s: Seq<QueueItem>, yol: Seq<char>) -> Option<int> {
    if exists|k: int| 0 <= k < s.len() && s[k].path@ == yol {
        Some(
            choose|k: int|
                0 <= k < s.len() && s[k].path@ == yol && forall|m: int|
                    0 <= m < k ==> s[m].path@ != yol,
        )
    } else {
        None
    }
}

/// Whatever [`sonraki_spec`] picks on a well-formed queue is an entry of it.
proof fn gezinme_listede(sira: Seq<usize>, n: nat, simdiki: Option<usize>, repeat: Repeat, otomatik: bool)
    requires
        permutasyon(sira, n),
        simdiki matches Some(i) ==> i < n,
    ensures
        sonraki_spec(sira, simdiki, repeat, otomatik) matches Some(k) ==> k < n,
{
    if let Some(s) = simdiki {
        if let Some(k) = ilk_konum(sira, s) {
            if sira.len() > 0 {
                let c = choose|k: int|
                    0 <= k < sira.len() && sira[k] == s && forall|m: int| 0 <= m < k ==> sira[m] != s;
                assert(0 <= c < sira.len());
            }
        }
    }
}

proof fn geri_gezinme_listede(sira: Seq<usize>, n: nat, simdiki: Option<usize>, repeat: Repeat)
    requires
        permutasyon(sira, n),
    ensures
        onceki_spec(sira, simdiki, repeat) matches Some(k) ==> k < n,
{
    if let Some(s) = simdiki {
        if let Some(k) = ilk_konum(sira, s) {
            if sira.len() > 0 {
                let c = choose|k: int|
                    0 <= k < sira.len() && sira[k] == s && forall|m: int| 0 <= m < k ==> sira[m] != s;
                assert(0 <= c < sira.len());
            }
        }
    }
}


// ---------------------------------------------------------------------------
// Laws of navigation.
// ---------------------------------------------------------------------------

proof fn ilk_konum_tekil(s: Seq<usize>, k: int)
    requires
        0 <= k < s.len(),
        forall|a: int, b: int| 0 <= a < b < s.len() ==> s[a] != s[b],
    ensures
        ilk_konum(s, s[k]) == Some(k),
{
    let x = s[k];
    assert(0 <= k < s.len() && s[k] == x && forall|m: int| 0 <= m < k ==> s[m] != x);
    let c = choose|j: int| 0 <= j < s.len() && s[j] == x && forall|m: int| 0 <= m < j ==> s[m] != x;
    if c < k {
        assert(s[c] != s[k]);
    } else if c > k {
        assert(s[k] != x);
    }
}

/// Stepping forward and then back returns to the same entry, whenever the
/// forward step did not wrap around: over an order without repeated
/// entries, [`onceki`] undoes [`sonraki`].
pub proof fn ileri_geri_ayni_yer(sira: Seq<usize>, k: int, repeat: Repeat)
    requires
        0 <= k,
        k + 1 < sira.len(),
        forall|a: int, b: int| 0 <= a < b < sira.len() ==> sira[a] != sira[b],
    ensures
        sonraki_spec(sira, Some(sira[k]), repeat, false) == Some(sira[k + 1]),
        onceki_spec(sira, Some(sira[k + 1]), repeat) == Some(sira[k]),
{
    ilk_konum_tekil(sira, k);
    ilk_konum_tekil(sira, k + 1);
}

/// What "next" gives from the entry at position `k` of an order without
/// repeated entries, whether the file ended by itself or the user asked:
/// the same entry again only when a file ended by itself under repeat-one;
/// otherwise the following entry of the order, and at the end of the order
/// its first entry with repeat on, nothing with repeat off.
pub proof fn sonraki_sirayi_izler(sira: Seq<usize>, k: int, repeat: Repeat, otomatik: bool)
    requires
        0 <= k < sira.len(),
        forall|a: int, b: int| 0 <= a < b < sira.len() ==> sira[a] != sira[b],
    ensures
        otomatik && repeat == Repeat::One ==> sonraki_spec(sira, Some(sira[k]), repeat, otomatik)
            == Some(sira[k]),
        !(otomatik && repeat == Repeat::One) && k + 1 < sira.len() ==> sonraki_spec(
            sira,
            Some(sira[k]),
            repeat,
            otomatik,
        ) == Some(sira[k + 1]),
        !(otomatik && repeat == Repeat::One) && k + 1 == sira.len() && repeat != Repeat::Off
            ==> sonraki_spec(sira, Some(sira[k]), repeat, otomatik) == Some(sira[0]),
        k + 1 == sira.len() && repeat == Repeat::Off ==> sonraki_spec(sira, Some(sira[k]), repeat, otomatik)
            is None,
        sonraki_spec(sira, None, repeat, otomatik) == if otomatik && repeat == Repeat::One {
            None
        } else {
            Some(sira[0])
        },
{
    ilk_konum_tekil(sira, k);
}

/// What "previous" gives from the entry at position `k` of an order
/// without repeated entries: the entry before it; at the start of the order
/// its last entry with repeat on, nothing with repeat off. With nothing
/// playing it is the first entry.
pub proof fn onceki_sirayi_izler(sira: Seq<usize>, k: int, repeat: Repeat)
    requires
        0 <= k < sira.len(),
        forall|a: int, b: int| 0 <= a < b < sira.len() ==> sira[a] != sira[b],
    ensures
        k > 0 ==> onceki_spec(sira, Some(sira[k]), repeat) == Some(sira[k - 1]),
        k == 0 && repeat != Repeat::Off ==> onceki_spec(sira, Some(sira[k]), repeat) == Some(
            sira[sira.len() - 1],
        ),
        k == 0 && repeat == Repeat::Off ==> onceki_spec(sira, Some(sira[k]), repeat) is None,
        onceki_spec(sira, None, repeat) == Some(sira[0]),
{
    ilk_konum_tekil(sira, k);
}

/// With repeat on, navigation never runs out: on a non-empty order both
/// directions always name an entry.
pub proof fn tekrar_acikken_gezinme_bitmez(
    sira: Seq<usize>,
    simdiki: Option<usize>,
    repeat: Repeat,
    otomatik: bool,
)
    requires
        sira.len() > 0,
        repeat != Repeat::Off,
        otomatik && repeat == Repeat::One ==> simdiki is Some,
    ensures
        sonraki_spec(sira, simdiki, repeat, otomatik) is Some,
        onceki_spec(sira, simdiki, repeat) is Some,
{
}

/// With repeat off, the last entry of the order has no successor and the
/// first has no predecessor.
pub proof fn tekrar_kapaliyken_uclarda_durur(sira: Seq<usize>, otomatik: bool)
    requires
        sira.len() > 0,
        forall|a: int, b: int| 0 <= a < b < sira.len() ==> sira[a] != sira[b],
    ensures
        sonraki_spec(sira, Some(sira[sira.len() - 1]), Repeat::Off, otomatik) is None,
        onceki_spec(sira, Some(sira[0]), Repeat::Off) is None,
{
    ilk_konum_tekil(sira, sira.len() - 1);
    ilk_konum_tekil(sira, 0);
}

/// When no record was lost (the kept indices are `0..n`), the requested
/// start is used as it is.
pub proof fn kayip_yoksa_baslangic_degismez(n: nat, istenen: usize)
    requires
        istenen < n,
        n <= usize::MAX,
    ensures
        baslangici_esle_spec(duz_sira(n), istenen) == istenen,
{
    let s = duz_sira(n);
    assert(s[istenen as int] == istenen);
    assert(0 <= istenen < s.len() && s[istenen as int] >= istenen && forall|m: int|
        0 <= m < istenen ==> s[m] < istenen);
    let c = choose|k: int| 0 <= k < s.len() && s[k] >= istenen && forall|m: int| 0 <= m < k ==> s[m] < istenen;
    if c < istenen {
        assert(s[c] == c);
    } else if c > istenen {
        assert(s[istenen as int] < istenen);
    }
}

proof fn en_kucuk_buyuk_esit(s: Seq<usize>, v: usize, k: int)
    requires
        0 <= k < s.len(),
        s[k] >= v,
    ensures
        exists|j: int| 0 <= j < s.len() && s[j] >= v && forall|m: int| 0 <= m < j ==> s[m] < v,
    decreases k,
{
    if exists|m: int| 0 <= m < k && s[m] >= v {
        let m = choose|m: int| 0 <= m < k && s[m] >= v;
        en_kucuk_buyuk_esit(s, v, m);
    } else {
        assert(0 <= k < s.len() && s[k] >= v && forall|m: int| 0 <= m < k ==> s[m] < v);
    }
}

/// The mapped start always points into a non-empty queue.
pub proof fn baslangic_kuyrukta(bulunan: Seq<usize>, istenen: usize)
    requires
        bulunan.len() > 0,
    ensures
        0 <= baslangici_esle_spec(bulunan, istenen) < bulunan.len(),
{
    if exists|k: int| 0 <= k < bulunan.len() && bulunan[k] >= istenen {
        let k = choose|k: int| 0 <= k < bulunan.len() && bulunan[k] >= istenen;
        en_kucuk_buyuk_esit(bulunan, istenen, k);
    }
}

/// `s` is strictly increasing.
pub open spec fn artan(s: Seq<usize>) -> bool {
    forall|a: int, b: int| 0 <= a < b < s.len() ==> s[a] < s[b]
}

/// The entry the user clicked is the one that plays: when the clicked
/// record still exists, the mapped start points at exactly that record.
pub proof fn tiklanan_kayit_calar(bulunan: Seq<usize>, k: int)
    requires
        artan(bulunan),
        0 <= k < bulunan.len(),
    ensures
        baslangici_esle_spec(bulunan, bulunan[k]) == k,
{
    let v = bulunan[k];
    assert(0 <= k < bulunan.len() && bulunan[k] >= v && forall|m: int| 0 <= m < k ==> bulunan[m] < v);
    let c = choose|j: int| 0 <= j < bulunan.len() && bulunan[j] >= v && forall|m: int| 0 <= m < j ==> bulunan[m] < v;
    if c < k {
        assert(bulunan[c] < bulunan[k]);
    } else if c > k {
        assert(bulunan[k] < v);
    }
}

/// A queue built from the records that were found: the found entries in
/// order, and for each the index it had in the list the interface sent.
pub open spec fn bulunanlar(s: Seq<Option<QueueItem>>) -> Seq<QueueItem>
    decreases s.len(),
{
    if s.len() == 0 {
        Seq::<QueueItem>::empty()
    } else {
        let onceki = bulunanlar(s.drop_last());
        match s.last() {
            Some(o) => onceki.push(o),
            None => onceki,
        }
    }
}

pub open spec fn bulunan_indeksler(s: Seq<Option<QueueItem>>) -> Seq<usize>
    decreases s.len(),
{
    if s.len() == 0 {
        Seq::<usize>::empty()
    } else {
        let onceki = bulunan_indeksler(s.drop_last());
        match s.last() {
            Some(_) => onceki.push((s.len() - 1) as usize),
            None => onceki,
        }
    }
}

proof fn bulunan_indeksler_ozellik(s: Seq<Option<QueueItem>>)
    requires
        s.len() <= usize::MAX,
    ensures
        artan(bulunan_indeksler(s)),
        bulunan_indeksler(s).len() == bulunanlar(s).len(),
        forall|k: int| 0 <= k < bulunan_indeksler(s).len() ==> #[trigger] bulunan_indeksler(s)[k] < s.len()
            && s[bulunan_indeksler(s)[k] as int] == Some(bulunanlar(s)[k]),
    decreases s.len(),
{
    if s.len() > 0 {
        bulunan_indeksler_ozellik(s.drop_last());
    }
}

/// Builds the queue for a list the interface sent, from the records that
/// still exist (`None` for one that was removed meanwhile), and maps the
/// clicked index onto it. Nothing found is an error.
pub fn kuyruk_kur(kayitlar: Vec<Option<QueueItem>>, istenen: Option<usize>) -> (r: Result<(Vec<QueueItem>, usize), crate::hata::Hata>)
    ensures
        bulunanlar(kayitlar@).len() == 0 ==> (r matches Err(h) && h@ == "çalınacak kayıt bulunamadı"@),
        bulunanlar(kayitlar@).len() > 0 ==> (r matches Ok((ogeler, baslangic)) && ogeler@ == bulunanlar(kayitlar@)
            && baslangic == baslangici_esle_spec(
                bulunan_indeksler(kayitlar@),
                match istenen {
                    Some(i) => i,
                    None => 0,
                },
            )),
{
    let mut ogeler: Vec<QueueItem> = Vec::new();
    let mut bulunan: Vec<usize> = Vec::new();
    let mut i: usize = 0;
    while i < kayitlar.len()
        invariant
            i <= kayitlar.len(),
            ogeler@ == bulunanlar(kayitlar@.take(i as int)),
            bulunan@ == bulunan_indeksler(kayitlar@.take(i as int)),
        decreases kayitlar.len() - i,
    {
        proof {
            assert(kayitlar@.take(i + 1).drop_last() =~= kayitlar@.take(i as int));
        }
        if let Some(o) = &kayitlar[i] {
            ogeler.push(o.clone());
            bulunan.push(i);
        }
        i += 1;
    }
    proof {
        assert(kayitlar@.take(i as int) =~= kayitlar@);
    }
    if ogeler.len() == 0 {
        return Err(crate::hata::Hata::yeni("çalınacak kayıt bulunamadı".to_owned()));
    }
    let istenen = match istenen {
        Some(i) => i,
        None => 0,
    };
    let baslangic = baslangici_esle(bulunan.as_slice(), istenen);
    Ok((ogeler, baslangic))
}

/// When the clicked record still exists, the queue starts at it.
pub proof fn kurulan_kuyruk_tiklanandan_baslar(kayitlar: Seq<Option<QueueItem>>, istenen: usize)
    requires
        kayitlar.len() <= usize::MAX,
        istenen < kayitlar.len(),
        kayitlar[istenen as int] is Some,
    ensures
        ({
            let k = baslangici_esle_spec(bulunan_indeksler(kayitlar), istenen);
            0 <= k < bulunanlar(kayitlar).len() && Some(bulunanlar(kayitlar)[k]) == kayitlar[istenen as int]
        }),
    decreases kayitlar.len(),
{
    let b = bulunan_indeksler(kayitlar);
    bulunan_indeksler_ozellik(kayitlar);
    // The clicked index is among the found ones.
    bulunan_indeks_icinde(kayitlar, istenen);
    let k = choose|k: int| 0 <= k < b.len() && b[k] == istenen;
    tiklanan_kayit_calar(b, k);
    assert(b[k] < kayitlar.len());
}

proof fn bulunan_indeks_icinde(s: Seq<Option<QueueItem>>, i: usize)
    requires
        s.len() <= usize::MAX,
        i < s.len(),
        s[i as int] is Some,
    ensures
        exists|k: int| 0 <= k < bulunan_indeksler(s).len() && bulunan_indeksler(s)[k] == i,
    decreases s.len(),
{
    let b = bulunan_indeksler(s);
    if i == s.len() - 1 {
        assert(b[b.len() - 1] == i);
    } else {
        bulunan_indeks_icinde(s.drop_last(), i);
        let k = choose|k: int| 0 <= k < bulunan_indeksler(s.drop_last()).len() && bulunan_indeksler(s.drop_last())[k] == i;
        assert(b[k] == i);
    }
}

} // verus!
