//! Playlists: kept in the database, edited by the user. The queue is a copy
//! taken when a playlist is played, so editing a list never changes what is
//! playing.
//!
//! The database work is the caller's; this module decides names, checks and
//! the new order after a drag.

use vstd::prelude::*;

use crate::hata::Hata;
use crate::metin::{kirp, kirpilmis};

verus! {

pub struct Playlist {
    pub id: i64,
    pub name: String,
    pub created_at: i64,
    pub updated_at: i64,
    /// How many entries the list holds.
    pub count: i64,
}

/// A playlist's name: trimmed, and refused when nothing is left.
pub fn ad_dogrula(ad: &str) -> (r: Result<String, Hata>)
    ensures
        kirpilmis(ad@).len() == 0 ==> (r matches Err(h) && h@ == "çalma listesinin adı boş olamaz"@),
        kirpilmis(ad@).len() > 0 ==> (r matches Ok(s) && s@ == kirpilmis(ad@)),
{
    let ad = kirp(ad);
    if ad.is_empty() {
        return Err(Hata::yeni("çalma listesinin adı boş olamaz".to_owned()));
    }
    Ok(ad.to_owned())
}

/// Removing an entry by its row identity deleted `silinen` rows: none means
/// the row is not in this list (already removed, or of another list), and
/// that is an error rather than a silent success.
pub fn silme_sonucu(silinen: usize) -> (r: Result<(), Hata>)
    ensures
        silinen == 0 ==> (r matches Err(h) && h@ == "bu öğe listede bulunamadı"@),
        silinen > 0 ==> r is Ok,
{
    if silinen == 0 {
        return Err(Hata::yeni("bu öğe listede bulunamadı".to_owned()));
    }
    Ok(())
}

/// The order after moving the entry at `nereden` to `nereye`; a target past
/// the end puts it last.
pub open spec fn tasinmis(s: Seq<i64>, nereden: int, nereye: int) -> Seq<i64> {
    let kalan = s.remove(nereden);
    let hedef = if nereye < kalan.len() {
        nereye
    } else {
        kalan.len() as int
    };
    kalan.insert(hedef, s[nereden])
}

/// The new order of a list's rows after a drag, or an error when there is
/// no entry at `nereden`. The positions are then written from scratch, so
/// no intermediate order ever reaches the database.
pub fn yeni_sira(kimlikler: Vec<i64>, nereden: usize, nereye: usize) -> (r: Result<Vec<i64>, Hata>)
    ensures
        nereden >= kimlikler@.len() ==> (r matches Err(h) && h@ == "taşınacak öğe listede yok"@),
        nereden < kimlikler@.len() ==> (r matches Ok(v) && v@ == tasinmis(
            kimlikler@,
            nereden as int,
            nereye as int,
        )),
{
    let mut kimlikler = kimlikler;
    if nereden >= kimlikler.len() {
        return Err(Hata::yeni("taşınacak öğe listede yok".to_owned()));
    }
    let tasinan = kimlikler.remove(nereden);
    let hedef = if nereye < kimlikler.len() {
        nereye
    } else {
        kimlikler.len()
    };
    kimlikler.insert(hedef, tasinan);
    Ok(kimlikler)
}

/// Moving an entry keeps every entry and only moves the one: the new order
/// holds the same rows, and the moved row stands at the target (or last).
pub proof fn tasima_satirlari_korur(s: Seq<i64>, nereden: int, nereye: int)
    requires
        0 <= nereden < s.len(),
        0 <= nereye,
    ensures
        tasinmis(s, nereden, nereye).len() == s.len(),
        tasinmis(s, nereden, nereye).to_multiset() == s.to_multiset(),
        tasinmis(s, nereden, nereye)[if nereye < s.len() - 1 {
            nereye
        } else {
            s.len() - 1
        }] == s[nereden],
{
    broadcast use vstd::seq_lib::group_to_multiset_ensures;
    let kalan = s.remove(nereden);
    let hedef = if nereye < kalan.len() {
        nereye
    } else {
        kalan.len() as int
    };
    vstd::seq_lib::to_multiset_remove(s, nereden);
    vstd::seq_lib::to_multiset_insert(kalan, hedef, s[nereden]);
    assert(s.to_multiset().remove(s[nereden]).insert(s[nereden]) =~= s.to_multiset());
}

/// The entries of a playlist that is to play, or an error when it has
/// none.
pub fn calinacaklar<T>(ogeler: Vec<T>) -> (r: Result<Vec<T>, Hata>)
    ensures
        ogeler@.len() == 0 ==> (r matches Err(h) && h@ == "bu çalma listesi boş"@),
        ogeler@.len() > 0 ==> (r matches Ok(v) && v@ == ogeler@),
{
    if ogeler.len() == 0 {
        Err(Hata::yeni("bu çalma listesi boş".to_owned()))
    } else {
        Ok(ogeler)
    }
}

} // verus!
