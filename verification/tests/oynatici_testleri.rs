use muiply::denetim::{
    kapaninca_cik, menu_eylemi, tus_eylemi, Eylem, MedyaTusu, KUTUPHANE, M_CIKIS, M_DEGISTIR,
    M_GOSTER, M_ONCEKI, M_SONRAKI, OYNATICI,
};
use muiply::hata::Hata;
use muiply::mpv_komut::{
    ac_komutlari, altyazi_izi_sec, dur, duraklat_degistir, duraklatma, sessiz_ayarla, ses_ayarla,
    MpvKomutu,
};
use muiply::oynatici::{
    altyazi_izleri, aygit, bitis_karari, dosya_adi, istek_eylemi, iz_kur, konum_karari, liste_alani, metin_alan,
    tepsi_ipucu, tur_belirle, yuklenen_baslik, BitisSebebi, Track,
};

fn yaz(k: &MpvKomutu) -> String {
    match k {
        MpvKomutu::Komut { ad, argumanlar } => format!("{} {}", ad, argumanlar.join(" ")),
        MpvKomutu::AyarBayrak { ad, bayrak } => format!("{}={}", ad, bayrak),
        MpvKomutu::AyarSayi { ad, sayi } => format!("{}={}", ad, sayi),
        MpvKomutu::AyarMetin { ad, metin } => format!("{}='{}'", ad, metin),
    }
}

fn hata() -> Hata {
    Hata::yeni("okunamadı".to_string())
}

fn iz(kind: &str) -> Track {
    Track {
        id: 1,
        kind: kind.to_string(),
        title: None,
        lang: None,
        selected: false,
        external: false,
        codec: None,
    }
}

#[test]
fn ses_sinirlar_icinde_tutuluyor() {
    assert_eq!(yaz(&ses_ayarla(-5)), "volume=0");
    assert_eq!(yaz(&ses_ayarla(40)), "volume=40");
    assert_eq!(yaz(&ses_ayarla(130)), "volume=100");
}

#[test]
fn altyazi_kapatmak_no_yaziyor() {
    assert_eq!(yaz(&altyazi_izi_sec(None)), "sid='no'");
    assert_eq!(yaz(&altyazi_izi_sec(Some(2))), "sid=2");
}

#[test]
fn oynatma_komutlari() {
    assert_eq!(yaz(&duraklatma(true)), "pause=true");
    assert_eq!(yaz(&duraklatma(false)), "pause=false");
    assert_eq!(yaz(&duraklat_degistir()), "cycle pause");
    assert_eq!(yaz(&sessiz_ayarla(true)), "mute=true");
    assert_eq!(yaz(&dur()), "stop ");
}

#[test]
fn var_olan_dosya_aciliyor_ve_calisiyor() {
    let v = ac_komutlari(true, "D:\\film.mkv").ok().unwrap();
    let yazili: Vec<String> = v.iter().map(yaz).collect();
    assert_eq!(yazili, vec!["loadfile D:\\film.mkv replace".to_string(), "pause=false".to_string()]);
}

#[test]
fn olmayan_dosya_acilmiyor() {
    let h = ac_komutlari(false, "D:\\yok.mkv").err().unwrap();
    assert_eq!(h.mesaj(), "dosya bulunamadı: D:\\yok.mkv");
}

#[test]
fn bos_metin_alani_yok_sayiliyor() {
    assert_eq!(metin_alan(Ok("  ".to_string())), None);
    assert_eq!(metin_alan(Ok(String::new())), None);
    assert_eq!(metin_alan(Ok("eng".to_string())), Some("eng".to_string()));
    assert_eq!(metin_alan(Err(hata())), None);
}

#[test]
fn aygit_aciklamasiz_adini_gosterir() {
    let a = aygit(Ok("wasapi/x".to_string()), Ok(" ".to_string())).unwrap();
    assert_eq!((a.name.as_str(), a.description.as_str()), ("wasapi/x", "wasapi/x"));
    let b = aygit(Ok("wasapi/x".to_string()), Ok("Hoparlör".to_string())).unwrap();
    assert_eq!(b.description, "Hoparlör");
    let c = aygit(Ok("auto".to_string()), Err(hata())).unwrap();
    assert_eq!(c.description, "auto");
    assert!(aygit(Err(hata()), Ok("Hoparlör".to_string())).is_none());
}

#[test]
fn kapakli_mp3_ses_sayiliyor() {
    assert_eq!(tur_belirle(false, &vec![iz("audio"), iz("video")]), "video");
    assert_eq!(tur_belirle(true, &vec![iz("audio"), iz("video")]), "audio");
    assert_eq!(tur_belirle(false, &vec![iz("audio"), iz("sub")]), "audio");
    assert_eq!(tur_belirle(false, &vec![]), "audio");
}

#[test]
fn tepsi_ipucu_basligi_sona_ekler() {
    assert_eq!(tepsi_ipucu(Some("Film")), "Muiply — Film");
    assert_eq!(tepsi_ipucu(Some("  ")), "Muiply");
    assert_eq!(tepsi_ipucu(None), "Muiply");
}

#[test]
fn yuklenen_dosyanin_basligi() {
    assert_eq!(yuklenen_baslik(Ok("Başlık".to_string()), "/f/a.mkv"), "Başlık");
    assert_eq!(yuklenen_baslik(Ok(" ".to_string()), "/f/a.mkv"), "a.mkv");
    assert_eq!(yuklenen_baslik(Err(hata()), "/f/a.mkv"), "a.mkv");
    assert_eq!(dosya_adi("/f/b.tar.gz"), "b.tar.gz");
    assert_eq!(dosya_adi("/"), "/");
}

#[test]
fn yalniz_gercek_bitis_kuyrugu_ilerletir() {
    let eof = bitis_karari(BitisSebebi::Eof).unwrap();
    assert_eq!((eof.etiket.as_str(), eof.konumu_sifirla, eof.sona_erdi), ("eof", false, true));
    let stop = bitis_karari(BitisSebebi::Stop).unwrap();
    assert_eq!((stop.etiket.as_str(), stop.konumu_sifirla, stop.sona_erdi), ("stop", true, false));
    assert_eq!(bitis_karari(BitisSebebi::Quit).unwrap().etiket, "quit");
    assert_eq!(bitis_karari(BitisSebebi::Error).unwrap().etiket, "error");
    assert!(bitis_karari(BitisSebebi::Redirect).is_none());
}

#[test]
fn konum_seyrek_yayinlaniyor_daha_seyrek_yaziliyor() {
    let k = konum_karari(50, 10_000);
    assert!(!k.yayinla && !k.kaydet);
    let k = konum_karari(100, 4_999);
    assert!(k.yayinla && !k.kaydet);
    let k = konum_karari(250, 5_000);
    assert!(k.yayinla && k.kaydet);
}

#[test]
fn betik_mesaji_eyleme_donusuyor() {
    let p = |v: &[&str]| v.iter().map(|s| s.to_string()).collect::<Vec<String>>();
    assert_eq!(istek_eylemi(&p(&["muiply", "sonraki"])), Some("sonraki".to_string()));
    assert_eq!(istek_eylemi(&p(&["muiply"])), None);
    assert_eq!(istek_eylemi(&p(&["baska", "sonraki"])), None);
    assert_eq!(istek_eylemi(&p(&[])), None);
}

#[test]
fn iz_listesi_alan_adlari() {
    assert_eq!(liste_alani("track-list", 3, "type"), "track-list/3/type");
    assert_eq!(liste_alani("audio-device-list", 0, "name"), "audio-device-list/0/name");
    assert_eq!(liste_alani("track-list", 12, "id"), "track-list/12/id");
}

#[test]
fn yarim_okunan_iz_atlaniyor() {
    let t = iz_kur(
        Ok("sub".to_string()),
        Ok(4),
        Ok("".to_string()),
        Ok("tur".to_string()),
        Err(hata()),
        Ok(true),
        Err(hata()),
    )
    .unwrap();
    assert_eq!((t.id, t.kind.as_str(), t.title, t.lang.as_deref(), t.selected, t.external, t.codec), (4, "sub", None, Some("tur"), false, true, None));
    assert!(iz_kur(Err(hata()), Ok(1), Err(hata()), Err(hata()), Err(hata()), Err(hata()), Err(hata())).is_none());
    assert!(iz_kur(Ok("audio".to_string()), Err(hata()), Err(hata()), Err(hata()), Err(hata()), Err(hata()), Err(hata())).is_none());
}

#[test]
fn tepsi_menusu_eylemleri() {
    assert!(menu_eylemi(M_DEGISTIR) == Some(Eylem::DuraklatDegistir));
    assert!(menu_eylemi(M_ONCEKI) == Some(Eylem::Onceki));
    assert!(menu_eylemi(M_SONRAKI) == Some(Eylem::Sonraki));
    assert!(menu_eylemi(M_GOSTER) == Some(Eylem::PencereyiGoster));
    assert!(menu_eylemi(M_CIKIS) == Some(Eylem::Cikis));
    assert!(menu_eylemi("tepsi-bilinmeyen") == None);
}

#[test]
fn medya_tuslari_eylemleri() {
    assert!(tus_eylemi(MedyaTusu::OynatDuraklat) == Eylem::DuraklatDegistir);
    assert!(tus_eylemi(MedyaTusu::Sonraki) == Eylem::Sonraki);
    assert!(tus_eylemi(MedyaTusu::Onceki) == Eylem::Onceki);
    assert!(tus_eylemi(MedyaTusu::Dur) == Eylem::Dur);
}

#[test]
fn son_gorunen_pencere_kapaninca_cikiliyor() {
    assert!(kapaninca_cik(OYNATICI, true, false));
    assert!(!kapaninca_cik(OYNATICI, true, true));
    assert!(!kapaninca_cik(KUTUPHANE, true, true));
    assert!(kapaninca_cik(KUTUPHANE, false, true));
    assert!(kapaninca_cik(OYNATICI, false, false));
}

#[test]
fn altyazi_izleri_suzuluyor() {
    let izler = vec![iz("video"), iz("sub"), iz("audio"), iz("sub")];
    let alt = altyazi_izleri(&izler);
    assert_eq!(alt.len(), 2);
    assert!(alt.iter().all(|t| t.kind == "sub"));
    assert!(altyazi_izleri(&vec![iz("audio")]).is_empty());
}

#[test]
fn alan_adinda_tamsayi_ondalik_yaziliyor() {
    assert_eq!(liste_alani("l", 0, "a"), "l/0/a");
    assert_eq!(liste_alani("l", -7, "a"), "l/-7/a");
    assert_eq!(liste_alani("l", 1234567890, "a"), "l/1234567890/a");
    assert_eq!(liste_alani("l", i64::MIN, "a"), format!("l/{}/a", i64::MIN));
    assert_eq!(liste_alani("l", i64::MAX, "a"), format!("l/{}/a", i64::MAX));
}

#[test]
fn unicode_bosluklari_da_kirpiliyor() {
    assert_eq!(metin_alan(Ok("\u{3000}\t\n\u{a0}".to_string())), None);
    assert_eq!(metin_alan(Ok(" \u{2003}x\u{85}".to_string())), Some(" \u{2003}x\u{85}".to_string()));
    assert_eq!(tepsi_ipucu(Some("\u{2028}")), "Muiply");
}
