//! The rules behind the user's settings: which values are kept and which
//! fall back to a known one.
//!
//! Reading never fails: a damaged or missing value falls back to its
//! default, because a hand-edited row should not keep the player from
//! opening.

use vstd::prelude::*;

use crate::metin::{esit, kirp, kirpilmis};

verus! {

/// The `hwdec` choices the interface offers: "you decide", "do your best",
/// "do not try".
pub open spec fn hwdec_secenegi(s: Seq<char>) -> bool {
    s == "auto-safe"@ || s == "auto"@ || s == "no"@
}

/// The `hwdec` choices, as a list.
pub const HWDEC_SECENEKLERI: [&'static str; 3] = ["auto-safe", "auto", "no"];

/// The accepted `hwdec` values are exactly the ones listed in [`HWDEC_SECENEKLERI`].
pub proof fn hwdec_secenekleri_listedekiler(u: Seq<char>)
    ensures
        forall|i: int| 0 <= i < 3 ==> hwdec_secenegi(#[trigger] HWDEC_SECENEKLERI@[i]@),
        hwdec_secenegi(u) <==> exists|i: int| 0 <= i < 3 && u == #[trigger] HWDEC_SECENEKLERI@[i]@,
{
    let l = HWDEC_SECENEKLERI@;
    assert(l[0] == "auto-safe");
    assert(l[1] == "auto");
    assert(l[2] == "no");
    if hwdec_secenegi(u) {
        if u == "auto-safe"@ {
            assert(u == l[0]@);
        } else if u == "auto"@ {
            assert(u == l[1]@);
        } else {
            assert(u == l[2]@);
        }
    }
}

/// The default `hwdec`, the same one the engine starts with.
pub const HWDEC_VARSAYILAN: &'static str = "auto-safe";

/// The system's default audio output; mpv's `audio-device` uses the same
/// word.
pub const SES_AYGITI_OTOMATIK: &'static str = "auto";

/// The keys of the stored settings.
pub const A_HWDEC: &'static str = "hwdec";
pub const A_SES_AYGITI: &'static str = "audio_device";
pub const A_HIZ: &'static str = "default_rate";
pub const A_DEVAM: &'static str = "resume";
pub const A_MEDYA_TUSLARI: &'static str = "media_keys";

/// A known `hwdec` is kept; anything else becomes the default.
pub fn hwdec_duzelt(hwdec: &str) -> (r: String)
    ensures
        r@ == if hwdec_secenegi(hwdec@) {
            hwdec@
        } else {
            "auto-safe"@
        },
{
    if esit(hwdec, "auto-safe") || esit(hwdec, "auto") || esit(hwdec, "no") {
        hwdec.to_owned()
    } else {
        HWDEC_VARSAYILAN.to_owned()
    }
}

/// An audio device that is empty or only white space becomes the system
/// default.
pub fn ses_aygiti_duzelt(aygit: &str) -> (r: String)
    ensures
        r@ == if kirpilmis(aygit@).len() == 0 {
            "auto"@
        } else {
            aygit@
        },
{
    if kirp(aygit).is_empty() {
        SES_AYGITI_OTOMATIK.to_owned()
    } else {
        aygit.to_owned()
    }
}

/// A stored flag: `"1"` is on, any other stored text is off, and a missing
/// key takes the default. A damaged value is off rather than the default,
/// because the row itself exists.
pub fn bayrak_oku(deger: Option<&str>, varsayilan: bool) -> (r: bool)
    ensures
        r == match deger {
            Some(d) => d@ == "1"@,
            None => varsayilan,
        },
{
    match deger {
        Some(d) => esit(d, "1"),
        None => varsayilan,
    }
}

/// How a flag is stored.
pub fn bayrak_yaz(b: bool) -> (r: &'static str)
    ensures
        r@ == if b {
            "1"@
        } else {
            "0"@
        },
{
    if b {
        "1"
    } else {
        "0"
    }
}

/// Writing a flag and reading it back gives the same flag: what
/// [`bayrak_yaz`] stores, [`bayrak_oku`] reads as the same value.
pub proof fn bayrak_gidis_donus(b: bool)
    ensures
        (if b {
            "1"@
        } else {
            "0"@
        } == "1"@) == b,
{
    reveal_strlit("1");
    reveal_strlit("0");
    assert("0"@[0] != "1"@[0]);
}

/// Correcting twice changes nothing more than correcting once.
pub proof fn hwdec_duzeltme_kararli(s: Seq<char>)
    ensures
        ({
            let d = if hwdec_secenegi(s) {
                s
            } else {
                "auto-safe"@
            };
            hwdec_secenegi(d)
        }),
{
}

} // verus!
