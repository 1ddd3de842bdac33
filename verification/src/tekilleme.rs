//! What the scan's de-duplication of candidates keeps: every entry kept is
//! one of the candidates, and every candidate's path is kept.

use vstd::prelude::*;

use crate::kutuphane::Aday;

verus! {

/// No candidate before `k` has candidate `k`'s path.
pub open spec fn ilk_yol(kaynak: Seq<Aday>, k: int) -> bool {
    forall|m: int| 0 <= m < k ==> kaynak[m].yol@ != #[trigger] kaynak[k].yol@
}

/// One of the first `j` candidates is `x`, and it is the first candidate
/// with its path.
pub open spec fn ilklerinde(kaynak: Seq<Aday>, j: int, x: Aday) -> bool {
    exists|k: int| 0 <= k < j && kaynak[k] == x && ilk_yol(kaynak, k)
}

/// `x` is a candidate, and the first one with its path.
pub open spec fn ilk_aday(kaynak: Seq<Aday>, x: Aday) -> bool {
    ilklerinde(kaynak, kaynak.len() as int, x)
}

/// Some entry of `r` has the path `y`.
pub open spec fn yolu_var(r: Seq<Aday>, y: Seq<char>) -> bool {
    exists|i: int| 0 <= i < r.len() && r[i].yol@ == y
}

/// Every entry of `r` is one of the first `j` candidates.
pub open spec fn kaynaktan(r: Seq<Aday>, kaynak: Seq<Aday>, j: int) -> bool {
    forall|i: int| 0 <= i < r.len() ==> ilklerinde(kaynak, j, #[trigger] r[i])
}

/// The path of each of the first `j` candidates occurs in `r`.
pub open spec fn yollari_kapsar(r: Seq<Aday>, kaynak: Seq<Aday>, j: int) -> bool {
    forall|k: int| #![trigger kaynak[k]] 0 <= k < j ==> yolu_var(r, kaynak[k].yol@)
}

/// Nothing is kept before the first candidate is looked at.
pub(crate) proof fn tekilleme_basi(kaynak: Seq<Aday>)
    ensures
        kaynaktan(Seq::empty(), kaynak, 0),
        yollari_kapsar(Seq::empty(), kaynak, 0),
{
}

/// Looking at one candidate more keeps every entry a candidate.
pub(crate) proof fn kaynaktan_genisler(r: Seq<Aday>, kaynak: Seq<Aday>, j: int)
    requires
        kaynaktan(r, kaynak, j),
    ensures
        kaynaktan(r, kaynak, j + 1),
{
    assert forall|m: int| 0 <= m < r.len() implies ilklerinde(kaynak, j + 1, #[trigger] r[m]) by {
        assert(ilklerinde(kaynak, j, r[m]));
        let k = choose|k: int| 0 <= k < j && kaynak[k] == r[m] && ilk_yol(kaynak, k);
        assert(kaynak[k] == r[m]);
    }
}

/// A candidate whose path entry `i` already has is covered without an
/// insertion.
pub(crate) proof fn kapsar_bulunanla(r: Seq<Aday>, kaynak: Seq<Aday>, j: int, i: int)
    requires
        0 <= j < kaynak.len(),
        0 <= i < r.len(),
        r[i].yol@ == kaynak[j].yol@,
        yollari_kapsar(r, kaynak, j),
    ensures
        yollari_kapsar(r, kaynak, j + 1),
{
    assert forall|k: int| 0 <= k < j + 1 implies yolu_var(r, #[trigger] kaynak[k].yol@) by {
        if k == j {
            assert(r[i].yol@ == kaynak[k].yol@);
        }
    }
}

/// Inserting candidate `j` keeps both properties for one candidate more.
pub(crate) proof fn eklemeyle_genisler(eski: Seq<Aday>, p: int, kaynak: Seq<Aday>, j: int)
    requires
        0 <= p <= eski.len(),
        0 <= j < kaynak.len(),
        kaynaktan(eski, kaynak, j),
        yollari_kapsar(eski, kaynak, j),
        ilk_yol(kaynak, j),
    ensures
        kaynaktan(eski.insert(p, kaynak[j]), kaynak, j + 1),
        yollari_kapsar(eski.insert(p, kaynak[j]), kaynak, j + 1),
{
    let r = eski.insert(p, kaynak[j]);
    assert forall|m: int| 0 <= m < r.len() implies ilklerinde(kaynak, j + 1, #[trigger] r[m]) by {
        if m < p {
            assert(r[m] == eski[m]);
            assert(ilklerinde(kaynak, j, eski[m]));
            let k = choose|k: int| 0 <= k < j && kaynak[k] == eski[m] && ilk_yol(kaynak, k);
            assert(kaynak[k] == r[m]);
        } else if m == p {
            assert(kaynak[j] == r[m]);
        } else {
            assert(r[m] == eski[m - 1]);
            assert(ilklerinde(kaynak, j, eski[m - 1]));
            let k = choose|k: int| 0 <= k < j && kaynak[k] == eski[m - 1] && ilk_yol(kaynak, k);
            assert(kaynak[k] == r[m]);
        }
    }
    assert forall|k: int| 0 <= k < j + 1 implies yolu_var(r, #[trigger] kaynak[k].yol@) by {
        if k == j {
            assert(r[p].yol@ == kaynak[k].yol@);
        } else {
            assert(yolu_var(eski, kaynak[k].yol@));
            let i = choose|i: int| 0 <= i < eski.len() && eski[i].yol@ == kaynak[k].yol@;
            if i < p {
                assert(r[i] == eski[i]);
            } else {
                assert(r[i + 1] == eski[i]);
            }
        }
    }
}

/// Once every candidate has been looked at, each entry kept is the first
/// candidate with its path.
pub(crate) proof fn tekilleme_sonu(r: Seq<Aday>, kaynak: Seq<Aday>)
    requires
        kaynaktan(r, kaynak, kaynak.len() as int),
    ensures
        forall|i: int| 0 <= i < r.len() ==> ilk_aday(kaynak, #[trigger] r[i]),
{
}

} // verus!
