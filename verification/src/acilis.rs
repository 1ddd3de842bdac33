//! File paths that reach the application from outside: the command line
//! and a second launch while Muiply is already open.

use vstd::prelude::*;

use crate::metin::karakterler;

verus! {

/// An argument is a path unless it is empty or starts with `-` (WebView2,
/// GTK and the development runner add flags of their own).
pub open spec fn dosya_argumani(a: Seq<char>) -> bool {
    a.len() > 0 && a[0] != '-'
}

/// The arguments of `s` that are paths, in order.
pub open spec fn yol_argumanlari(s: Seq<String>) -> Seq<String>
    decreases s.len(),
{
    if s.len() == 0 {
        Seq::<String>::empty()
    } else {
        let onceki = yol_argumanlari(s.drop_last());
        if dosya_argumani(s.last()@) {
            onceki.push(s.last())
        } else {
            onceki
        }
    }
}

/// The arguments after the program's own path.
pub open spec fn program_sonrasi(argv: Seq<String>) -> Seq<String> {
    if argv.len() == 0 {
        argv
    } else {
        argv.skip(1)
    }
}

proof fn yol_argumanlari_ozellik(s: Seq<String>)
    ensures
        forall|k: int| 0 <= k < yol_argumanlari(s).len() ==> {
            &&& (#[trigger] yol_argumanlari(s)[k])@.len() > 0
            &&& yol_argumanlari(s)[k]@[0] != '-'
            &&& s.contains(yol_argumanlari(s)[k])
        },
        forall|i: int| 0 <= i < s.len() && (#[trigger] s[i])@.len() > 0 && s[i]@[0] != '-'
            ==> yol_argumanlari(s).contains(s[i]),
    decreases s.len(),
{
    if s.len() > 0 {
        let h = s.drop_last();
        yol_argumanlari_ozellik(h);
        let r0 = yol_argumanlari(h);
        let r = yol_argumanlari(s);
        assert forall|k: int| 0 <= k < r.len() implies {
            &&& (#[trigger] r[k])@.len() > 0
            &&& r[k]@[0] != '-'
            &&& s.contains(r[k])
        } by {
            if k < r0.len() {
                assert(r[k] == r0[k]);
                let m = choose|m: int| 0 <= m < h.len() && h[m] == r0[k];
                assert(s[m] == h[m]);
            } else {
                assert(r[k] == s.last());
                assert(s[s.len() - 1] == s.last());
            }
        }
        assert forall|i: int| 0 <= i < s.len() && (#[trigger] s[i])@.len() > 0 && s[i]@[0] != '-'
            implies r.contains(s[i]) by {
            if i < h.len() {
                assert(h[i] == s[i]);
                assert(r0.contains(s[i]));
                let m = choose|m: int| 0 <= m < r0.len() && r0[m] == s[i];
                assert(r[m] == r0[m]);
            } else {
                assert(r[r.len() - 1] == s[i]);
            }
        }
    }
}

/// What the command-line filter keeps: every argument after the program's
/// own path that is non-empty and does not start with `-`, and nothing
/// else. In particular a single such path after the program is all that
/// is kept.
pub proof fn dosya_argumanlari_yollari_tutar(argv: Seq<String>)
    ensures
        forall|k: int| 0 <= k < yol_argumanlari(program_sonrasi(argv)).len() ==> {
            &&& (#[trigger] yol_argumanlari(program_sonrasi(argv))[k])@.len() > 0
            &&& yol_argumanlari(program_sonrasi(argv))[k]@[0] != '-'
            &&& exists|i: int| 1 <= i < argv.len() && #[trigger] argv[i] == yol_argumanlari(program_sonrasi(argv))[k]
        },
        forall|i: int| 1 <= i < argv.len() && (#[trigger] argv[i])@.len() > 0 && argv[i]@[0] != '-'
            ==> yol_argumanlari(program_sonrasi(argv)).contains(argv[i]),
        argv.len() == 2 && argv[1]@.len() > 0 && argv[1]@[0] != '-' ==> yol_argumanlari(
            program_sonrasi(argv),
        ) == seq![argv[1]],
{
    let s = program_sonrasi(argv);
    yol_argumanlari_ozellik(s);
    let r = yol_argumanlari(s);
    if argv.len() > 0 {
        assert forall|k: int| 0 <= k < r.len() implies exists|i: int| 1 <= i < argv.len() && argv[i] == #[trigger] r[k] by {
            assert(s.contains(r[k]));
            let m = choose|m: int| 0 <= m < s.len() && s[m] == r[k];
            assert(argv[m + 1] == s[m]);
        }
        assert forall|i: int| 1 <= i < argv.len() && (#[trigger] argv[i])@.len() > 0 && argv[i]@[0] != '-'
            implies r.contains(argv[i]) by {
            assert(s[i - 1] == argv[i]);
        }
    }
    if argv.len() == 2 && argv[1]@.len() > 0 && argv[1]@[0] != '-' {
        assert(s =~= seq![argv[1]]);
        assert(s.drop_last() =~= Seq::<String>::empty());
        assert(yol_argumanlari(s.drop_last()) == Seq::<String>::empty());
        assert(s.last() == argv[1]);
        assert(dosya_argumani(s.last()@));
        assert(r == Seq::<String>::empty().push(argv[1]));
        assert(r =~= seq![argv[1]]);
    }
}

/// Filters the file paths out of a command line.
///
/// The first argument (the program's own path) is skipped, and so is every
/// argument that is empty or starts with `-`. Whether a path exists is not
/// looked at here.
pub fn dosya_argumanlari(argv: Vec<String>) -> (r: Vec<String>)
    ensures
        r@ == yol_argumanlari(program_sonrasi(argv@)),
{
    let mut r: Vec<String> = Vec::new();
    if argv.len() == 0 {
        return r;
    }
    let mut i: usize = 1;
    while i < argv.len()
        invariant
            1 <= i <= argv.len(),
            r@ == yol_argumanlari(argv@.subrange(1, i as int)),
        decreases argv.len() - i,
    {
        proof {
            assert(argv@.subrange(1, i + 1).drop_last() =~= argv@.subrange(1, i as int));
        }
        let a = karakterler(argv[i].as_str());
        if a.len() > 0 && a[0] != '-' {
            r.push(argv[i].clone());
        }
        i += 1;
    }
    assert(argv@.subrange(1, i as int) =~= argv@.skip(1));
    r
}

/// What a path dropped on the window, or given on the command line, turned
/// out to be when the file system was asked.
#[derive(Clone, Copy, PartialEq, Eq, Structural)]
pub enum YolTuru {
    Klasor,
    Dosya,
    /// Neither: missing, or something else.
    Yok,
}

/// The paths of one kind, in their order.
pub open spec fn turdekiler(s: Seq<(String, YolTuru)>, t: YolTuru) -> Seq<String>
    decreases s.len(),
{
    if s.len() == 0 {
        Seq::<String>::empty()
    } else {
        let onceki = turdekiler(s.drop_last(), t);
        if s.last().1 == t {
            onceki.push(s.last().0)
        } else {
            onceki
        }
    }
}

/// Sorts dropped paths into folders (they join the library) and files (they
/// go into the queue and the first one plays). A mixed drop does both. The
/// extension is not looked at: someone who dropped a file meant to open it.
pub fn yollari_ayir(yollar: Vec<(String, YolTuru)>) -> (r: (Vec<String>, Vec<String>))
    ensures
        r.0@ == turdekiler(yollar@, YolTuru::Klasor),
        r.1@ == turdekiler(yollar@, YolTuru::Dosya),
{
    let mut klasorler: Vec<String> = Vec::new();
    let mut dosyalar: Vec<String> = Vec::new();
    let mut i: usize = 0;
    while i < yollar.len()
        invariant
            i <= yollar.len(),
            klasorler@ == turdekiler(yollar@.take(i as int), YolTuru::Klasor),
            dosyalar@ == turdekiler(yollar@.take(i as int), YolTuru::Dosya),
        decreases yollar.len() - i,
    {
        proof {
            assert(yollar@.take(i + 1).drop_last() =~= yollar@.take(i as int));
        }
        let (yol, tur) = (&yollar[i].0, yollar[i].1);
        match tur {
            YolTuru::Klasor => klasorler.push(yol.clone()),
            YolTuru::Dosya => dosyalar.push(yol.clone()),
            YolTuru::Yok => {},
        }
        i += 1;
    }
    proof {
        assert(yollar@.take(i as int) =~= yollar@);
    }
    (klasorler, dosyalar)
}

} // verus!
