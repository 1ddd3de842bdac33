use muiply::hata::Hata;

#[test]
fn hata_cumlesini_tasir() {
    assert_eq!(Hata::yeni("kuyruk hazır değil".to_string()).mesaj(), "kuyruk hazır değil");
    assert_eq!(Hata::from("x".to_string()).mesaj(), "x");
}

#[test]
fn onekli_hata_birlesir() {
    assert_eq!(Hata::onekli("dosya bulunamadı: ", "/a.mkv").mesaj(), "dosya bulunamadı: /a.mkv");
    assert_eq!(Hata::onekli("", "").mesaj(), "");
}
