use muiply::ayarlar::{
    bayrak_oku, bayrak_yaz, hwdec_duzelt, ses_aygiti_duzelt, HWDEC_SECENEKLERI, HWDEC_VARSAYILAN,
    SES_AYGITI_OTOMATIK,
};

#[test]
fn taninmayan_hwdec_varsayilana_dusuyor() {
    assert_eq!(hwdec_duzelt("d3d11va-copy"), "auto-safe");
}

#[test]
fn bilinen_hwdec_korunuyor() {
    for s in HWDEC_SECENEKLERI {
        assert_eq!(hwdec_duzelt(s), s);
    }
}

#[test]
fn bos_ses_aygiti_otomatige_donuyor() {
    assert_eq!(ses_aygiti_duzelt("   "), SES_AYGITI_OTOMATIK);
    assert_eq!(ses_aygiti_duzelt(""), "auto");
}

#[test]
fn dolu_ses_aygiti_oldugu_gibi_kalir() {
    assert_eq!(ses_aygiti_duzelt("wasapi/hoparlor"), "wasapi/hoparlor");
    assert_eq!(ses_aygiti_duzelt(" x "), " x ");
}

#[test]
fn hwdec_varsayilani_seceneklerden() {
    assert_eq!(HWDEC_VARSAYILAN, "auto-safe");
    assert!(HWDEC_SECENEKLERI.contains(&HWDEC_VARSAYILAN));
    assert_eq!(hwdec_duzelt(""), HWDEC_VARSAYILAN);
    assert_eq!(hwdec_duzelt("AUTO"), HWDEC_VARSAYILAN);
}

#[test]
fn bayrak_yalniz_bir_ise_acik() {
    assert!(bayrak_oku(Some("1"), false));
    assert!(!bayrak_oku(Some("0"), true));
    assert!(!bayrak_oku(Some("belki"), true));
    assert!(!bayrak_oku(Some(" 1"), true));
    assert!(bayrak_oku(None, true));
    assert!(!bayrak_oku(None, false));
}

#[test]
fn bayrak_yazilip_okununca_ayni() {
    for b in [true, false] {
        assert_eq!(bayrak_oku(Some(bayrak_yaz(b)), !b), b);
    }
    assert_eq!(bayrak_yaz(true), "1");
    assert_eq!(bayrak_yaz(false), "0");
}
