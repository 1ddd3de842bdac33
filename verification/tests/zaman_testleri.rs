use muiply::zaman::{tohum_degeri, unix_saniyesi, YEDEK_TOHUM};

#[test]
fn saat_okumasindan_unix_zamani() {
    assert_eq!(unix_saniyesi(Some(1_700_000_000)), 1_700_000_000);
    assert_eq!(unix_saniyesi(None), 0);
    assert_eq!(tohum_degeri(Some((1u128 << 64) + 5)), 5);
    assert_eq!(tohum_degeri(Some(42)), 42);
    assert_eq!(tohum_degeri(None), YEDEK_TOHUM);
    assert_eq!(YEDEK_TOHUM, 0x2dd4bf);
}
