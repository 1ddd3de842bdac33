use muiply::kutuphane::kimlik;
use muiply::kuyruk::{
    baslangici_esle, karistir, kuyruk_kur, sira_kur_tohumla, onceki, sonraki, yoldan_oge, Kuyruk, QueueItem, Repeat,
};

fn duz(n: usize) -> Vec<usize> {
    (0..n).collect()
}

#[test]
fn bos_kuyrukta_gezinme_yok() {
    assert_eq!(sonraki(&[], None, Repeat::All, false), None);
    assert_eq!(onceki(&[], None, Repeat::All), None);
}

#[test]
fn hicbiri_calmiyorken_bastan_baslar() {
    assert_eq!(sonraki(&duz(3), None, Repeat::Off, false), Some(0));
    assert_eq!(onceki(&duz(3), None, Repeat::Off), Some(0));
}

#[test]
fn tekrar_kapaliyken_sonda_durur() {
    assert_eq!(sonraki(&duz(3), Some(2), Repeat::Off, true), None);
    assert_eq!(onceki(&duz(3), Some(0), Repeat::Off), None);
}

#[test]
fn tekrar_hepsi_basa_sarar() {
    assert_eq!(sonraki(&duz(3), Some(2), Repeat::All, true), Some(0));
    assert_eq!(onceki(&duz(3), Some(0), Repeat::All), Some(2));
}

#[test]
fn tekrar_tek_yalniz_otomatik_geciste_ayni_dosya() {
    assert_eq!(sonraki(&duz(3), Some(1), Repeat::One, true), Some(1));
    assert_eq!(sonraki(&duz(3), Some(1), Repeat::One, false), Some(2));
    assert_eq!(sonraki(&duz(3), Some(2), Repeat::One, false), Some(0));
}

#[test]
fn karisik_sirada_liste_sirasi_degil_gezinme_sirasi_izleniyor() {
    let sira = vec![2, 0, 1];
    assert_eq!(sonraki(&sira, Some(2), Repeat::Off, false), Some(0));
    assert_eq!(sonraki(&sira, Some(0), Repeat::Off, false), Some(1));
    assert_eq!(sonraki(&sira, Some(1), Repeat::Off, false), None);
    assert_eq!(onceki(&sira, Some(0), Repeat::Off), Some(2));
}

#[test]
fn kuyrukta_olmayan_oge_kuyrugun_basina_dusuyor() {
    assert_eq!(sonraki(&duz(3), Some(99), Repeat::Off, false), Some(0));
}

#[test]
fn hicbiri_kaybolmamissa_indeks_degismiyor() {
    assert_eq!(baslangici_esle(&duz(5), 0), 0);
    assert_eq!(baslangici_esle(&duz(5), 3), 3);
}

#[test]
fn onceki_kayitlar_kaybolunca_indeks_kayiyor() {
    let bulunan = vec![1, 3, 4];
    assert_eq!(baslangici_esle(&bulunan, 3), 1);
    assert_eq!(baslangici_esle(&bulunan, 4), 2);
    assert_eq!(baslangici_esle(&bulunan, 1), 0);
}

#[test]
fn tiklanan_kayit_silinmisse_sonraki_calar() {
    assert_eq!(baslangici_esle(&[0, 1, 3], 2), 2);
    assert_eq!(baslangici_esle(&[2, 3], 0), 0);
}

#[test]
fn sondan_sonra_bir_sey_kalmamissa_sonuncu() {
    assert_eq!(baslangici_esle(&[0, 1], 7), 1);
    assert_eq!(baslangici_esle(&[], 3), 0);
}

#[test]
fn karistirma_permutasyon_uretir() {
    for tohum in [1u64, 42, 0xdeadbeef, 0x2dd4bf] {
        let mut s = karistir(50, tohum);
        s.sort_unstable();
        assert_eq!(s, duz(50), "tohum {tohum} permütasyon üretmedi");
    }
}

#[test]
fn karistirma_sifir_tohumda_da_calisir() {
    let mut s = karistir(20, 0);
    s.sort_unstable();
    assert_eq!(s, duz(20));
}

#[test]
fn tek_ogeli_ve_bos_karistirma() {
    assert_eq!(karistir(0, 7), Vec::<usize>::new());
    assert_eq!(karistir(1, 7), vec![0]);
}

fn oge(i: usize) -> QueueItem {
    QueueItem {
        id: format!("k{i}"),
        path: format!("/x/{i}.mp3"),
        title: format!("{i}"),
        duration_bits: 1.0f64.to_bits(),
        media_type: "audio".into(),
    }
}

#[test]
fn karisik_acilinca_calan_oge_basa_gelir() {
    let mut k = Kuyruk::default();
    k.yerlestir((0..8).map(oge).collect());
    k.sec(5);
    k.shuffle_ayarla(true);

    // The playing entry comes first in the navigation order, so the next
    // step from it is the order's second entry, and stepping back from it
    // wraps to nothing with repeat off.
    assert_eq!(k.simdiki().map(|o| o.path.clone()), Some("/x/5.mp3".to_string()));
    assert!(k.gerile().is_none());
    let mut gorulen = vec![5usize];
    while let Some(o) = k.ilerle(false) {
        let i: usize = o.title.parse().unwrap();
        gorulen.push(i);
    }
    gorulen.sort_unstable();
    assert_eq!(gorulen, duz(8));
}

#[test]
fn karistirma_ayni_tohumda_ayni_sirayi_verir() {
    assert_eq!(karistir(30, 12345), karistir(30, 12345));
    // One xorshift step from seed 1 drives the last swap: a fixed, known
    // permutation of three.
    let s = karistir(3, 1);
    let mut d = s.clone();
    d.sort_unstable();
    assert_eq!(d, duz(3));
}

#[test]
fn yeni_kuyrukta_calan_yok_ve_ayarlar_korunur() {
    let mut k = Kuyruk::default();
    k.repeat_ayarla(Repeat::All);
    k.yerlestir((0..3).map(oge).collect());
    let a = k.anlik();
    assert_eq!(a.items.len(), 3);
    assert_eq!(a.current_index, None);
    assert_eq!(a.repeat, Repeat::All);
    assert!(!a.shuffle);
    assert_eq!(k.ilerle(false).map(|o| o.path), Some("/x/0.mp3".to_string()));
    assert_eq!(k.ilerle(false).map(|o| o.path), Some("/x/1.mp3".to_string()));
    assert_eq!(k.ilerle(false).map(|o| o.path), Some("/x/2.mp3".to_string()));
    // Repeat all wraps.
    assert_eq!(k.ilerle(false).map(|o| o.path), Some("/x/0.mp3".to_string()));
    assert_eq!(k.gerile().map(|o| o.path), Some("/x/2.mp3".to_string()));
}

#[test]
fn tek_tekrarinda_dosya_bitince_ayni_dosya() {
    let mut k = Kuyruk::default();
    k.yerlestir((0..3).map(oge).collect());
    k.repeat_ayarla(Repeat::One);
    k.sec(1);
    assert_eq!(k.ilerle(true).map(|o| o.path), Some("/x/1.mp3".to_string()));
    assert_eq!(k.ilerle(false).map(|o| o.path), Some("/x/2.mp3".to_string()));
}

#[test]
fn kuyrukta_olmayan_secim_degistirmez() {
    let mut k = Kuyruk::default();
    k.yerlestir((0..2).map(oge).collect());
    assert!(k.sec(2).is_none());
    assert_eq!(k.anlik().current_index, None);
    assert_eq!(k.sec(1).map(|o| o.path), Some("/x/1.mp3".to_string()));
    assert_eq!(k.anlik().current_index, Some(1));
}

#[test]
fn yol_isaretleme_ilk_eslesmeyi_secer() {
    let mut k = Kuyruk::default();
    k.yerlestir(vec![oge(0), oge(1), oge(1)]);
    k.yolu_isaretle("/x/1.mp3");
    assert_eq!(k.anlik().current_index, Some(1));
    k.yolu_isaretle("/x/yok.mp3");
    assert_eq!(k.anlik().current_index, None);
}

#[test]
fn acilan_dosya_kuyruktaysa_kuyruk_kalir() {
    let mut k = Kuyruk::default();
    k.yerlestir((0..4).map(oge).collect());
    k.dosyaya_hizala(oge(2));
    assert_eq!(k.ogeler().len(), 4);
    assert_eq!(k.anlik().current_index, Some(2));
    // A file from outside the queue replaces it.
    k.dosyaya_hizala(oge(9));
    assert_eq!(k.ogeler().len(), 1);
    assert_eq!(k.simdiki().map(|o| o.path.clone()), Some("/x/9.mp3".to_string()));
    // Nothing follows it.
    assert!(k.ilerle(false).is_none());
}

#[test]
fn karisik_kapatilinca_liste_sirasina_doner() {
    let mut k = Kuyruk::default();
    k.yerlestir((0..5).map(oge).collect());
    k.shuffle_ayarla(true);
    k.shuffle_ayarla(false);
    k.sec(0);
    let mut yollar = Vec::new();
    while let Some(o) = k.ilerle(false) {
        yollar.push(o.path);
    }
    assert_eq!(yollar, vec!["/x/1.mp3", "/x/2.mp3", "/x/3.mp3", "/x/4.mp3"]);
}

#[test]
fn kuyruk_bulunan_kayitlardan_kuruluyor() {
    let kayitlar = vec![Some(oge(0)), None, Some(oge(2)), Some(oge(3))];
    let (ogeler, baslangic) = kuyruk_kur(kayitlar, Some(2)).ok().unwrap();
    let yollar: Vec<String> = ogeler.iter().map(|o| o.path.clone()).collect();
    assert_eq!(yollar, vec!["/x/0.mp3", "/x/2.mp3", "/x/3.mp3"]);
    assert_eq!(baslangic, 1);
}

#[test]
fn silinmis_tiklanan_yerine_sonraki_baslar() {
    let kayitlar = vec![Some(oge(0)), None, Some(oge(2))];
    let (_, baslangic) = kuyruk_kur(kayitlar, Some(1)).ok().unwrap();
    assert_eq!(baslangic, 1);
    let (_, bas) = kuyruk_kur(vec![Some(oge(0))], None).ok().unwrap();
    assert_eq!(bas, 0);
}

#[test]
fn hicbir_kayit_kalmamissa_hata() {
    let h = kuyruk_kur(vec![None, None], Some(0)).err().unwrap();
    assert_eq!(h.mesaj(), "çalınacak kayıt bulunamadı");
    assert!(kuyruk_kur(vec![], None).is_err());
}

#[test]
fn kutuphanede_olmayan_dosyanin_ogesi() {
    let o = yoldan_oge("/muzik/parca.flac");
    assert_eq!(o.id, kimlik("/muzik/parca.flac"));
    assert_eq!(o.path, "/muzik/parca.flac");
    assert_eq!(o.title, "parca");
    assert_eq!(o.duration_bits, 0.0f64.to_bits());
    assert_eq!(o.media_type, "video");
}

#[test]
fn sira_tohumdan_belirli_olarak_kuruluyor() {
    assert_eq!(sira_kur_tohumla(4, false, Some(2), 99), duz(4));
    assert_eq!(sira_kur_tohumla(6, true, None, 12345), karistir(6, 12345));
    for tohum in [1u64, 7, 12345, u64::MAX] {
        let karisik = karistir(9, tohum);
        let k = karisik.iter().position(|&x| x == 4).unwrap();
        let mut beklenen = karisik.clone();
        beklenen.swap(0, k);
        assert_eq!(sira_kur_tohumla(9, true, Some(4), tohum), beklenen);
    }
    assert_eq!(sira_kur_tohumla(0, true, None, 5), Vec::<usize>::new());
}
