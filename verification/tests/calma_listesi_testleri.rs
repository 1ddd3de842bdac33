use muiply::calma_listesi::{ad_dogrula, calinacaklar, silme_sonucu, yeni_sira};

#[test]
fn bos_ad_reddediliyor() {
    assert_eq!(ad_dogrula("   ").err().map(|h| h.mesaj()), Some("çalma listesinin adı boş olamaz".to_string()));
    assert!(ad_dogrula("").is_err());
}

#[test]
fn ad_kirpiliyor() {
    assert_eq!(ad_dogrula("  Yol  ").ok(), Some("Yol".to_string()));
}

#[test]
fn hic_silinmediyse_hata() {
    assert_eq!(silme_sonucu(0).err().map(|h| h.mesaj()), Some("bu öğe listede bulunamadı".to_string()));
    assert!(silme_sonucu(1).is_ok());
}

#[test]
fn tasima_ileri_ve_geri() {
    assert_eq!(yeni_sira(vec![10, 20, 30, 40], 0, 2).ok(), Some(vec![20, 30, 10, 40]));
    assert_eq!(yeni_sira(vec![10, 20, 30, 40], 3, 0).ok(), Some(vec![40, 10, 20, 30]));
    assert_eq!(yeni_sira(vec![10, 20, 30], 1, 1).ok(), Some(vec![10, 20, 30]));
}

#[test]
fn hedef_sondan_buyukse_sona_gider() {
    assert_eq!(yeni_sira(vec![10, 20, 30], 0, 99).ok(), Some(vec![20, 30, 10]));
}

#[test]
fn olmayan_oge_tasinamaz() {
    assert_eq!(yeni_sira(vec![10, 20], 2, 0).err().map(|h| h.mesaj()), Some("taşınacak öğe listede yok".to_string()));
    assert!(yeni_sira(vec![], 0, 0).is_err());
}

#[test]
fn tasima_satirlari_korur_ornek() {
    let mut v = yeni_sira(vec![5, 6, 7, 8, 9], 1, 3).ok().unwrap();
    v.sort();
    assert_eq!(v, vec![5, 6, 7, 8, 9]);
}

#[test]
fn bos_liste_calinamaz() {
    assert_eq!(calinacaklar(Vec::<i64>::new()).err().map(|h| h.mesaj()), Some("bu çalma listesi boş".to_string()));
    assert_eq!(calinacaklar(vec![3, 1]).ok(), Some(vec![3, 1]));
}
