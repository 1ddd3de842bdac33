//! The one error type: a sentence the user can read.

use vstd::prelude::*;

use crate::metin::{ekle, metin_yap};

verus! {

/// An error, carried as the Turkish sentence shown to the user.
pub struct Hata {
    mesaj: String,
}

/// The library's results.
pub type Sonuc<T> = Result<T, Hata>;

impl View for Hata {
    type V = Seq<char>;

    closed spec fn view(&self) -> Seq<char> {
        self.mesaj@
    }
}

impl Hata {
    pub fn yeni(mesaj: String) -> (r: Hata)
        ensures
            r@ == mesaj@,
    {
        Hata { mesaj }
    }

    /// The sentence, as text.
    pub fn mesaj(&self) -> (r: String)
        ensures
            r@ == self@,
    {
        self.mesaj.clone()
    }

    /// An error whose sentence is `onek` followed by `ayrinti`.
    pub fn onekli(onek: &str, ayrinti: &str) -> (r: Hata)
        ensures
            r@ == onek@ + ayrinti@,
    {
        let mut v: Vec<char> = Vec::new();
        ekle(&mut v, onek);
        ekle(&mut v, ayrinti);
        assert(Seq::<char>::empty() + onek@ + ayrinti@ =~= onek@ + ayrinti@);
        Hata { mesaj: metin_yap(&v) }
    }
}

impl From<String> for Hata {
    fn from(m: String) -> (r: Hata) {
        Hata { mesaj: m }
    }
}

impl vstd::std_specs::convert::FromSpecImpl<String> for Hata {
    open spec fn obeys_from_spec() -> bool {
        true
    }

    closed spec fn from_spec(v: String) -> Hata {
        Hata { mesaj: v }
    }
}

} // verus!
