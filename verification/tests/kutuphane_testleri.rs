use muiply::kutuphane::{
    adaylari_tekille, bekleyen_kare, son_calinan_siniri, YIGIN, ilerleme_zamani, kare_dosyasi, tarama_karari, Aday, TaramaKarari, ADIM, KALITE,
    alt_yol_desenleri, baslik, dosya_adi, kimlik, like_kacir, medya_sorgusu, sutunlar, tur,
    MediaFilter, SES_UZANTILARI, SUTUNLAR, SUTUN_SAYISI, VIDEO_UZANTILARI,
};

#[test]
fn iki_liste_kesismiyor() {
    for u in VIDEO_UZANTILARI {
        assert!(!SES_UZANTILARI.contains(&u), "`{u}` hem video hem ses listesinde");
    }
}

#[test]
fn tur_uzantidan_bulunur() {
    assert_eq!(tur("mkv"), Some("video"));
    assert_eq!(tur("MKV"), Some("video"));
    assert_eq!(tur("Flac"), Some("audio"));
    assert_eq!(tur("bin"), None);
    for u in VIDEO_UZANTILARI {
        assert_eq!(tur(u), Some("video"));
    }
    for u in SES_UZANTILARI {
        assert_eq!(tur(u), Some("audio"));
    }
}

#[test]
fn kimlik_sha256_ilk_on_alti_bayt() {
    // SHA-256("abc") = ba7816bf8f01cfea414140de5dae2223b00361a396177a9cb410ff61f20015ad
    assert_eq!(kimlik("abc"), "ba7816bf8f01cfea414140de5dae2223");
    assert_eq!(kimlik("abc").len(), 32);
    assert_ne!(kimlik("/a/film.mkv"), kimlik("/b/film.mkv"));
}

#[test]
fn like_ozel_karakterleri_kaciriliyor() {
    assert_eq!(like_kacir(r"C:\Muzik_2024"), r"C:\\Muzik\_2024");
    assert_eq!(like_kacir("C:%20"), r"C:\%20");
    assert_eq!(like_kacir("duz"), "duz");
}

#[test]
fn alt_yol_desenleri_ayraci_iceriyor() {
    assert_eq!(
        alt_yol_desenleri(r"C:\Videos"),
        (r"C:\\Videos\\%".to_string(), r"C:\\Videos/%".to_string())
    );
    // A trailing separator and a drive root.
    assert_eq!(alt_yol_desenleri(r"C:\Videos\"), alt_yol_desenleri(r"C:\Videos"));
    assert_eq!(alt_yol_desenleri(r"D:\"), (r"D:\\%".to_string(), "D:/%".to_string()));
    assert_eq!(
        alt_yol_desenleri("/home/ilker/Videolar/"),
        (r"/home/ilker/Videolar\\%".to_string(), "/home/ilker/Videolar/%".to_string())
    );
}

#[test]
fn sutunlar_tabloyla_niteleniyor() {
    let s = sutunlar("m");
    assert!(s.starts_with("m.id, m.path, m.title"));
    assert!(s.ends_with("m.play_count, m.last_position"));
    assert_eq!(s.split(", ").count(), SUTUN_SAYISI);
    assert_eq!(SUTUNLAR.split(',').count(), SUTUN_SAYISI);
}

#[test]
fn medya_sorgusu_suzgece_gore_kuruluyor() {
    let (sql, tur) = medya_sorgusu(&MediaFilter::default());
    assert_eq!(sql, format!("SELECT {SUTUNLAR} FROM media  ORDER BY added_at DESC LIMIT -1"));
    assert_eq!(tur, None);

    let f = MediaFilter {
        media_type: Some("audio".into()),
        sort: Some("title".into()),
        limit: Some(20),
    };
    let (sql, tur) = medya_sorgusu(&f);
    assert_eq!(
        sql,
        format!(
            "SELECT {SUTUNLAR} FROM media WHERE media_type = ?1 ORDER BY title COLLATE NOCASE ASC LIMIT 20"
        )
    );
    assert_eq!(tur, Some("audio".to_string()));

    // Unknown keys fall back instead of reaching the SQL.
    let f = MediaFilter {
        media_type: Some("x; DROP TABLE media".into()),
        sort: Some("x; DROP TABLE media".into()),
        limit: None,
    };
    let (sql, tur) = medya_sorgusu(&f);
    assert!(sql.ends_with("FROM media  ORDER BY added_at DESC LIMIT -1"));
    assert_eq!(tur, None);

    let f = MediaFilter { media_type: None, sort: Some("played".into()), limit: Some(5) };
    assert!(medya_sorgusu(&f).0.ends_with("ORDER BY last_played DESC NULLS LAST, added_at DESC LIMIT 5"));
}

#[test]
fn baslik_videoda_dosya_adi_seste_etiket() {
    assert_eq!(dosya_adi("/v/Film.2019.1080p.mkv"), "Film.2019.1080p");
    assert_eq!(baslik("video", Some("çöp"), "/v/Film.mkv"), "Film");
    assert_eq!(baslik("audio", Some("Şarkı"), "/m/01.mp3"), "Şarkı");
    assert_eq!(baslik("audio", None, "/m/01.mp3"), "01");
}

fn aday(yol: &str, mtime: i64) -> Aday {
    Aday { yol: yol.to_string(), mtime, boyut: 10, uzanti: "mkv".to_string() }
}

#[test]
fn ic_ice_koklerden_gelen_dosya_bir_kez_olculur() {
    let adaylar = vec![
        aday("/v/b.mkv", 1),
        aday("/v/a.mkv", 2),
        aday("/v/alt/c.mkv", 3),
        aday("/v/alt/c.mkv", 4),
        aday("/v/a.mkv", 5),
    ];
    let r = adaylari_tekille(adaylar);
    let yollar: Vec<(&str, i64)> = r.iter().map(|a| (a.yol.as_str(), a.mtime)).collect();
    // Path order, and of a repeated path the first candidate.
    assert_eq!(yollar, vec![("/v/a.mkv", 2), ("/v/alt/c.mkv", 3), ("/v/b.mkv", 1)]);
}

#[test]
fn tekillemede_bos_ve_tek_liste() {
    assert!(adaylari_tekille(vec![]).is_empty());
    let r = adaylari_tekille(vec![aday("/x.mp3", 7)]);
    assert_eq!(r.len(), 1);
    assert_eq!(r[0].yol, "/x.mp3");
}

#[test]
fn degismemis_dosya_atlaniyor() {
    assert!(tarama_karari(Some(5), 5) == TaramaKarari::Atla);
    assert!(tarama_karari(Some(5), 6) == TaramaKarari::Guncelle);
    assert!(tarama_karari(None, 6) == TaramaKarari::Ekle);
}

#[test]
fn ilerleme_her_adimda_ve_sonda() {
    assert_eq!(ADIM, 5);
    let anlar: Vec<usize> = (0..12).filter(|&i| ilerleme_zamani(i, 12)).collect();
    assert_eq!(anlar, vec![4, 9, 11]);
    assert!(ilerleme_zamani(0, 1));
}

#[test]
fn kucuk_resmi_olmayan_video_bekler() {
    assert_eq!(bekleyen_kare("k1".to_string(), None, "video"), Some("k1".to_string()));
    assert_eq!(bekleyen_kare("k1".to_string(), Some("/t/k1.jpg".to_string()), "video"), None);
    assert_eq!(bekleyen_kare("k1".to_string(), None, "audio"), None);
}

#[test]
fn kare_dosyasinin_adi() {
    assert_eq!(kare_dosyasi("0a1b"), "0a1b.jpg");
    assert_eq!(KALITE, 75);
}

#[test]
fn son_calinanlar_siniri() {
    assert_eq!(son_calinan_siniri(0), 1);
    assert_eq!(son_calinan_siniri(-7), 1);
    assert_eq!(son_calinan_siniri(20), 20);
    assert_eq!(son_calinan_siniri(5000), 200);
    assert_eq!(YIGIN, 64);
}
