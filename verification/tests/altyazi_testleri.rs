use muiply::altyazi::{
    altyazilari_sec, dil_kodu, dizin_girdisi, video_koku, elle_ekle, eslesme_eki, etiket, otomatik_yukle, DizinGirdisi,
    ALTYAZI_UZANTILARI,
};
use muiply::mpv_komut::MpvKomutu;

#[test]
fn eslesme_noktadan_sonrasini_alir() {
    assert_eq!(eslesme_eki("film", "film"), Some(String::new()));
    assert_eq!(eslesme_eki("film.tr", "film"), Some("tr".into()));
    assert_eq!(eslesme_eki("film.tr.forced", "film"), Some("tr.forced".into()));
}

#[test]
fn buyuk_kucuk_harf_ayirmiyor() {
    assert_eq!(eslesme_eki("Film.tr", "film"), Some("tr".into()));
    assert_eq!(eslesme_eki("film.EN", "FILM"), Some("EN".into()));
    assert_eq!(eslesme_eki("BOLUM1.Tur.Forced", "bolum1"), Some("Tur.Forced".into()));
    assert_eq!(eslesme_eki("FILM2", "film"), None);
}

#[test]
fn turkce_harflerde_de_ayrim_yok() {
    assert_eq!(eslesme_eki("çıkış.tr", "Çıkış"), Some("tr".into()));
    assert_eq!(eslesme_eki("GÖLGE.en", "gölge"), Some("en".into()));
    assert_eq!(eslesme_eki("şuğüm", "ŞUĞÜM"), Some(String::new()));
}

#[test]
fn nokta_i_ile_duz_i_karistirilmiyor() {
    assert_eq!(eslesme_eki("islem.tr", "İslem"), None);
    assert_eq!(eslesme_eki("İslem.tr", "İslem"), Some("tr".into()));
}

#[test]
fn baska_filmin_altyazisi_eslesmez() {
    assert_eq!(eslesme_eki("Bolum10", "Bolum1"), None);
    assert_eq!(eslesme_eki("film2", "film"), None);
}

#[test]
fn dil_kodu_yalniz_harf_ve_iki_uc_karakter() {
    assert_eq!(dil_kodu("tr"), Some("tr".into()));
    assert_eq!(dil_kodu("tur.forced"), Some("tur".into()));
    assert_eq!(dil_kodu("forced"), None);
    assert_eq!(dil_kodu("2"), None);
    assert_eq!(dil_kodu(""), None);
}

#[test]
fn dil_kodu_dosyadaki_yazimla_kalir() {
    assert_eq!(dil_kodu("EN.sdh"), Some("EN".into()));
    assert_eq!(dil_kodu("t1"), None);
}

#[test]
fn etiket_eksizken_dosya_adini_gosterir() {
    assert_eq!(etiket("", "srt", "film"), "film.srt");
    assert_eq!(etiket("tr", "srt", "film.tr"), "tr · srt");
}

fn girdi(yol: &str, uzanti: Option<&str>, ad_kok: Option<&str>, dosya_mi: bool) -> DizinGirdisi {
    DizinGirdisi {
        yol: yol.to_string(),
        dosya_mi,
        uzanti: uzanti.map(|s| s.to_string()),
        ad_kok: ad_kok.map(|s| s.to_string()),
    }
}

#[test]
fn klasor_girdilerinden_altyazilar_secilir_ve_siralanir() {
    let girdiler = vec![
        girdi("/k/deneme filmi.tr.srt", Some("srt"), Some("deneme filmi.tr"), true),
        girdi("/k/Deneme Filmi.mkv", Some("mkv"), Some("Deneme Filmi"), true),
        girdi("/k/Deneme Filmi.en.ASS", Some("ASS"), Some("Deneme Filmi.en"), true),
        girdi("/k/Deneme Filmi 2.tr.srt", Some("srt"), Some("Deneme Filmi 2.tr"), true),
        girdi("/k/Deneme Filmi.txt", Some("txt"), Some("Deneme Filmi"), true),
        girdi("/k/Deneme Filmi.srt", Some("srt"), Some("Deneme Filmi"), false),
        girdi("/k/Deneme Filmi", None, Some("Deneme Filmi"), true),
    ];
    let bulunan = altyazilari_sec("Deneme Filmi", &girdiler);
    let yollar: Vec<&str> = bulunan.iter().map(|a| a.path.as_str()).collect();
    assert_eq!(yollar, vec!["/k/Deneme Filmi.en.ASS", "/k/deneme filmi.tr.srt"]);
    let diller: Vec<Option<String>> = bulunan.iter().map(|a| a.lang.clone()).collect();
    assert_eq!(diller, vec![Some("en".to_string()), Some("tr".to_string())]);
    assert_eq!(bulunan[0].label, "en · ass");
    assert_eq!(bulunan[1].label, "tr · srt");
}

#[test]
fn tam_eslesen_altyazi_dosya_adiyla_gorunur() {
    let girdiler = vec![girdi("/k/film.srt", Some("srt"), Some("film"), true)];
    let bulunan = altyazilari_sec("film", &girdiler);
    assert_eq!(bulunan.len(), 1);
    assert_eq!(bulunan[0].label, "film.srt");
    assert_eq!(bulunan[0].lang, None);
}

#[test]
fn uzanti_listesi() {
    assert_eq!(ALTYAZI_UZANTILARI, ["srt", "ass", "ssa", "vtt", "sub", "idx"]);
}

#[test]
fn otomatik_yukleme_her_altyazi_icin_sub_add_auto() {
    let girdiler = vec![
        girdi("/k/f.tr.srt", Some("srt"), Some("f.tr"), true),
        girdi("/k/f.en.srt", Some("srt"), Some("f.en"), true),
    ];
    let bulunan = altyazilari_sec("f", &girdiler);
    let komutlar = otomatik_yukle(&bulunan);
    assert_eq!(komutlar.len(), 2);
    match &komutlar[0] {
        MpvKomutu::Komut { ad, argumanlar } => {
            assert_eq!(ad, "sub-add");
            assert_eq!(argumanlar, &vec!["/k/f.en.srt".to_string(), "auto".to_string()]);
        }
        _ => panic!("sub-add bekleniyordu"),
    }
}

#[test]
fn elle_eklenen_altyazi_secilir_yoksa_hata() {
    match elle_ekle(true, "/k/a.srt") {
        Ok(MpvKomutu::Komut { ad, argumanlar }) => {
            assert_eq!(ad, "sub-add");
            assert_eq!(argumanlar, vec!["/k/a.srt".to_string(), "select".to_string()]);
        }
        _ => panic!("komut bekleniyordu"),
    }
    match elle_ekle(false, "/k/yok.srt") {
        Err(h) => assert_eq!(h.mesaj(), "altyazı dosyası bulunamadı: /k/yok.srt"),
        Ok(_) => panic!("hata bekleniyordu"),
    }
}

#[test]
fn ek_dosyadaki_yazimla_etikette_ve_dilde_kalir() {
    let girdiler = vec![
        girdi("/d/Film.mkv", Some("mkv"), Some("Film"), true),
        girdi("/d/Film.EN.srt", Some("srt"), Some("Film.EN"), true),
    ];
    let bulunan = altyazilari_sec("Film", &girdiler);
    assert_eq!(bulunan.len(), 1);
    assert_eq!(bulunan[0].path, "/d/Film.EN.srt");
    assert_eq!(bulunan[0].label, "EN · srt");
    assert_eq!(bulunan[0].lang, Some("EN".to_string()));
}

#[test]
fn klasorun_verdigi_sira_sonucu_degistirmez() {
    let mut girdiler = vec![
        girdi("/k/b.tr.srt", Some("srt"), Some("b.tr"), true),
        girdi("/k/b.srt", Some("srt"), Some("b"), true),
        girdi("/k/b.mkv", Some("mkv"), Some("b"), true),
        girdi("/k/b.en.vtt", Some("vtt"), Some("b.en"), true),
    ];
    let ilk: Vec<String> = altyazilari_sec("b", &girdiler).iter().map(|a| a.path.clone()).collect();
    girdiler.reverse();
    let ters: Vec<String> = altyazilari_sec("b", &girdiler).iter().map(|a| a.path.clone()).collect();
    assert_eq!(ilk, ters);
    assert_eq!(ilk, vec!["/k/b.en.vtt", "/k/b.srt", "/k/b.tr.srt"]);
}

#[test]
fn dizin_girdisinin_uzantisi_ve_koku() {
    let g = dizin_girdisi("/k/Film.tr.srt".to_string(), true);
    assert_eq!(g.yol, "/k/Film.tr.srt");
    assert!(g.dosya_mi);
    assert_eq!(g.uzanti, Some("srt".to_string()));
    assert_eq!(g.ad_kok, Some("Film.tr".to_string()));
    let d = dizin_girdisi("/k/klasor".to_string(), false);
    assert_eq!(d.uzanti, None);
    assert_eq!(d.ad_kok, Some("klasor".to_string()));
    assert_eq!(video_koku("/k/Film.mkv"), Some("Film".to_string()));
    assert_eq!(video_koku("/"), None);
}

#[test]
fn kucuk_hali_ascii_harf_olan_isaretler_dil_sayilir() {
    // The Kelvin sign lowercases to `k`; the code keeps it as written.
    assert_eq!(dil_kodu("\u{212A}\u{212A}"), Some("\u{212A}\u{212A}".to_string()));
    assert_eq!(dil_kodu("T\u{212A}.forced"), Some("T\u{212A}".to_string()));
    // `İ` lowercases to two characters, one of them not ASCII.
    assert_eq!(dil_kodu("İT"), None);
    assert_eq!(dil_kodu("çe"), None);
}
