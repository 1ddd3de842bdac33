//! The controls that work without the interface: the tray menu, the
//! keyboard's media keys and the windows' close buttons. The tray and the
//! keys come down to the same few actions, decided once here.

use vstd::prelude::*;

use crate::metin::esit;

verus! {

/// The player window's label.
pub const OYNATICI: &'static str = "oynatici";

/// The library window's label.
pub const KUTUPHANE: &'static str = "kutuphane";

/// The ids of the tray menu's entries; the menu event carries the id as
/// text, so a typo would silently do nothing.
pub const M_DEGISTIR: &'static str = "tepsi-degistir";
pub const M_ONCEKI: &'static str = "tepsi-onceki";
pub const M_SONRAKI: &'static str = "tepsi-sonraki";
pub const M_GOSTER: &'static str = "tepsi-goster";
pub const M_CIKIS: &'static str = "tepsi-cikis";

/// What a control asks for.
#[derive(Clone, Copy, PartialEq, Eq, Structural)]
pub enum Eylem {
    /// Play or pause.
    DuraklatDegistir,
    /// The previous entry of the queue.
    Onceki,
    /// The next entry of the queue, as if the user asked for it.
    Sonraki,
    /// Bring the player window forward.
    PencereyiGoster,
    /// Write the resume position, then leave the application.
    Cikis,
    /// End playback and clear the scene.
    Dur,
}

/// The action of a tray menu entry; an unknown id asks for nothing.
pub fn menu_eylemi(id: &str) -> (r: Option<Eylem>)
    ensures
        r == if id@ == M_DEGISTIR@ {
            Some(Eylem::DuraklatDegistir)
        } else if id@ == M_ONCEKI@ {
            Some(Eylem::Onceki)
        } else if id@ == M_SONRAKI@ {
            Some(Eylem::Sonraki)
        } else if id@ == M_GOSTER@ {
            Some(Eylem::PencereyiGoster)
        } else if id@ == M_CIKIS@ {
            Some(Eylem::Cikis)
        } else {
            None
        },
{
    if esit(id, M_DEGISTIR) {
        Some(Eylem::DuraklatDegistir)
    } else if esit(id, M_ONCEKI) {
        Some(Eylem::Onceki)
    } else if esit(id, M_SONRAKI) {
        Some(Eylem::Sonraki)
    } else if esit(id, M_GOSTER) {
        Some(Eylem::PencereyiGoster)
    } else if esit(id, M_CIKIS) {
        Some(Eylem::Cikis)
    } else {
        None
    }
}

/// The media keys that are listened to, pressed without modifiers.
#[derive(Clone, Copy, PartialEq, Eq, Structural)]
pub enum MedyaTusu {
    OynatDuraklat,
    Sonraki,
    Onceki,
    Dur,
}

/// The action of a media key.
pub fn tus_eylemi(tus: MedyaTusu) -> (r: Eylem)
    ensures
        r == match tus {
            MedyaTusu::OynatDuraklat => Eylem::DuraklatDegistir,
            MedyaTusu::Sonraki => Eylem::Sonraki,
            MedyaTusu::Onceki => Eylem::Onceki,
            MedyaTusu::Dur => Eylem::Dur,
        },
{
    match tus {
        MedyaTusu::OynatDuraklat => Eylem::DuraklatDegistir,
        MedyaTusu::Sonraki => Eylem::Sonraki,
        MedyaTusu::Onceki => Eylem::Onceki,
        MedyaTusu::Dur => Eylem::Dur,
    }
}

/// Whether closing the window `kapanan` ends the application: it does when
/// no other window is visible. A closed window is only hidden (a destroyed
/// player window would take mpv's drawing surface with it), and an
/// application that goes on running behind the user's back once its last
/// window is gone is not what closing means.
pub fn kapaninca_cik(kapanan: &str, oynatici_gorunur: bool, kutuphane_gorunur: bool) -> (r: bool)
    ensures
        r == !((kapanan@ != OYNATICI@ && oynatici_gorunur) || (kapanan@ != KUTUPHANE@ && kutuphane_gorunur)),
{
    let baska_oynatici = !esit(kapanan, OYNATICI) && oynatici_gorunur;
    let baska_kutuphane = !esit(kapanan, KUTUPHANE) && kutuphane_gorunur;
    !(baska_oynatici || baska_kutuphane)
}

} // verus!
