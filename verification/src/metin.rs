//! Small text helpers that work on strings as sequences of characters.

use vstd::prelude::*;
use vstd::string::StrSliceExecFns;

verus! {

/// The characters of `s`, in order.
pub fn karakterler(s: &str) -> (r: Vec<char>)
    ensures
        r@ == s@,
{
    broadcast use vstd::string::axiom_spec_iter;
    let mut r: Vec<char> = Vec::new();
    for c in it: s.chars()
        invariant
            r@ == it.seq().take(it.index()),
            it.seq() == s@,
    {
        r.push(c);
    }
    r
}

/// A string made of the characters of `v`, in order.
///
/// Trusted: `String`'s `FromIterator<&char>`; the standard library
/// documents that collecting characters appends each one in turn.
#[verifier::external_body]
pub(crate) fn metin_yap(v: &Vec<char>) -> (r: String)
    ensures
        r@ == v@,
{
    v.iter().collect()
}

/// Whether two strings hold the same characters.
pub fn esit(a: &str, b: &str) -> (r: bool)
    ensures
        r == (a@ == b@),
{
    let x = karakterler(a);
    let y = karakterler(b);
    if x.len() != y.len() {
        return false;
    }
    let mut i: usize = 0;
    while i < x.len()
        invariant
            x@ == a@,
            y@ == b@,
            x.len() == y.len(),
            i <= x.len(),
            forall|k: int| 0 <= k < i ==> x@[k] == y@[k],
        decreases x.len() - i,
    {
        if x[i] != y[i] {
            return false;
        }
        i += 1;
    }
    assert(a@ =~= b@);
    true
}

/// What `char::to_lowercase` yields for `c`: Unicode's lowercase mapping,
/// one or more characters.
pub uninterp spec fn kucuk_harf(c: char) -> Seq<char>;

/// What `str::to_lowercase` yields for a string.
pub uninterp spec fn kucuk_metin(s: Seq<char>) -> Seq<char>;

/// `char::to_lowercase`, collected: the lowercase mapping of `c`. The
/// standard library defines it by the Unicode tables; the contract names
/// the result.
#[verifier::external_body]
pub(crate) fn harf_kucult(c: char) -> (r: Vec<char>)
    ensures
        r@ == kucuk_harf(c),
{
    c.to_lowercase().collect()
}

/// `str::to_lowercase`: the lowercase form of the whole string. The
/// standard library defines it by the Unicode tables (with the Greek final
/// sigma rule); the contract names the result.
#[verifier::external_body]
pub(crate) fn metin_kucult(s: &str) -> (r: String)
    ensures
        r@ == kucuk_metin(s@),
{
    s.to_lowercase()
}

/// Whether `c` is white space: Unicode's `White_Space` property, by which
/// `str::trim` and `char::is_whitespace` go.
pub open spec fn bosluk(c: char) -> bool {
    ||| '\u{9}' <= c <= '\u{d}'
    ||| c == ' '
    ||| c == '\u{85}'
    ||| c == '\u{a0}'
    ||| c == '\u{1680}'
    ||| '\u{2000}' <= c <= '\u{200a}'
    ||| c == '\u{2028}'
    ||| c == '\u{2029}'
    ||| c == '\u{202f}'
    ||| c == '\u{205f}'
    ||| c == '\u{3000}'
}

/// `s` without its leading white space.
pub open spec fn bastan_kirpilmis(s: Seq<char>) -> Seq<char>
    decreases s.len(),
{
    if s.len() > 0 && bosluk(s[0]) {
        bastan_kirpilmis(s.drop_first())
    } else {
        s
    }
}

/// `s` without its trailing white space.
pub open spec fn sondan_kirpilmis(s: Seq<char>) -> Seq<char>
    decreases s.len(),
{
    if s.len() > 0 && bosluk(s.last()) {
        sondan_kirpilmis(s.drop_last())
    } else {
        s
    }
}

/// `s` without leading and trailing white space, as `str::trim` gives it.
pub open spec fn kirpilmis(s: Seq<char>) -> Seq<char> {
    sondan_kirpilmis(bastan_kirpilmis(s))
}

/// Whether `c` is white space.
pub fn bosluk_mu(c: char) -> (r: bool)
    ensures
        r == bosluk(c),
{
    ('\u{9}' <= c && c <= '\u{d}') || c == ' ' || c == '\u{85}' || c == '\u{a0}' || c == '\u{1680}'
        || ('\u{2000}' <= c && c <= '\u{200a}') || c == '\u{2028}' || c == '\u{2029}'
        || c == '\u{202f}' || c == '\u{205f}' || c == '\u{3000}'
}

/// The string without leading and trailing white space.
pub(crate) fn kirp(s: &str) -> (r: &str)
    ensures
        r@ == kirpilmis(s@),
{
    let k = karakterler(s);
    let n = k.len();
    let mut i: usize = 0;
    assert(s@.subrange(0, n as int) =~= s@);
    while i < n && bosluk_mu(k[i])
        invariant
            i <= n,
            n == k@.len(),
            k@ == s@,
            bastan_kirpilmis(s@) == bastan_kirpilmis(s@.subrange(i as int, n as int)),
        decreases n - i,
    {
        proof {
            let alt = s@.subrange(i as int, n as int);
            assert(alt[0] == k@[i as int]);
            assert(alt.drop_first() =~= s@.subrange(i + 1, n as int));
        }
        i += 1;
    }
    proof {
        let alt = s@.subrange(i as int, n as int);
        if i < n {
            assert(alt[0] == k@[i as int]);
        } else {
            assert(alt =~= Seq::<char>::empty());
        }
        assert(bastan_kirpilmis(s@) == alt);
    }
    let mut j: usize = n;
    while j > i && bosluk_mu(k[j - 1])
        invariant
            i <= j <= n,
            n == k@.len(),
            k@ == s@,
            kirpilmis(s@) == sondan_kirpilmis(s@.subrange(i as int, j as int)),
        decreases j,
    {
        proof {
            let alt = s@.subrange(i as int, j as int);
            assert(alt.last() == k@[j - 1]);
            assert(alt.drop_last() =~= s@.subrange(i as int, j - 1));
        }
        j -= 1;
    }
    proof {
        let alt = s@.subrange(i as int, j as int);
        if j > i {
            assert(alt.last() == k@[j - 1]);
        } else {
            assert(alt =~= Seq::<char>::empty());
        }
    }
    s.substring_char(i, j)
}

/// Appends the characters of `s` to `v`.
pub fn ekle(v: &mut Vec<char>, s: &str)
    ensures
        final(v)@ == old(v)@ + s@,
{
    let mut k = karakterler(s);
    v.append(&mut k);
}

/// `a` comes strictly before `b`, character by character.
pub open spec fn sozluk_once(a: Seq<char>, b: Seq<char>) -> bool
    decreases a.len(),
{
    if a.len() == 0 {
        b.len() > 0
    } else if b.len() == 0 {
        false
    } else if a[0] != b[0] {
        a[0] < b[0]
    } else {
        sozluk_once(a.drop_first(), b.drop_first())
    }
}

pub proof fn sozluk_once_gecisli(a: Seq<char>, b: Seq<char>, c: Seq<char>)
    requires
        sozluk_once(a, b),
        sozluk_once(b, c),
    ensures
        sozluk_once(a, c),
    decreases a.len(),
{
    if a.len() > 0 && b.len() > 0 && c.len() > 0 && a[0] == b[0] && b[0] == c[0] {
        sozluk_once_gecisli(a.drop_first(), b.drop_first(), c.drop_first());
    }
}

pub proof fn sozluk_once_yansimasiz(a: Seq<char>)
    ensures
        !sozluk_once(a, a),
    decreases a.len(),
{
    if a.len() > 0 {
        sozluk_once_yansimasiz(a.drop_first());
    }
}

/// Two texts neither of which comes before the other are equal.
pub proof fn sozluk_once_uclu(a: Seq<char>, b: Seq<char>)
    requires
        !sozluk_once(a, b),
        !sozluk_once(b, a),
    ensures
        a == b,
    decreases a.len(),
{
    if a.len() > 0 && b.len() > 0 {
        if a[0] == b[0] {
            sozluk_once_uclu(a.drop_first(), b.drop_first());
            assert(a =~= seq![a[0]] + a.drop_first());
            assert(b =~= seq![b[0]] + b.drop_first());
        } else {
            assert(a[0] != b[0]);
        }
    } else {
        assert(a =~= b);
    }
}

pub fn once_mi(a: &Vec<char>, b: &Vec<char>) -> (r: bool)
    ensures
        r == sozluk_once(a@, b@),
{
    let mut i: usize = 0;
    assert(a@.skip(0) =~= a@);
    assert(b@.skip(0) =~= b@);
    while i < a.len() && i < b.len()
        invariant
            i <= a.len(),
            i <= b.len(),
            sozluk_once(a@, b@) == sozluk_once(a@.skip(i as int), b@.skip(i as int)),
        decreases a.len() - i,
    {
        if a[i] != b[i] {
            return a[i] < b[i];
        }
        assert(a@.skip(i as int).drop_first() =~= a@.skip(i + 1));
        assert(b@.skip(i as int).drop_first() =~= b@.skip(i + 1));
        i += 1;
    }
    i < b.len()
}

} // verus!
