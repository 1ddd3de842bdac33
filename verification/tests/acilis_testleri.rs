use muiply::acilis::{dosya_argumanlari, yollari_ayir, YolTuru};

fn dizi(ogeler: &[&str]) -> Vec<String> {
    ogeler.iter().map(|s| s.to_string()).collect()
}

#[test]
fn program_yolu_atlaniyor() {
    let cikan = dosya_argumanlari(dizi(&[r"C:\Muiply\muiply.exe", r"D:\film.mkv"]));
    assert_eq!(cikan, vec![r"D:\film.mkv".to_string()]);
}

#[test]
fn argumansiz_acilis_bos_donuyor() {
    assert!(dosya_argumanlari(dizi(&["muiply.exe"])).is_empty());
    assert!(dosya_argumanlari(Vec::<String>::new()).is_empty());
}

#[test]
fn bayraklar_atiliyor() {
    let cikan = dosya_argumanlari(dizi(&["muiply.exe", "--no-sandbox", r"D:\film.mkv", "-v", ""]));
    assert_eq!(cikan, vec![r"D:\film.mkv".to_string()]);
}

#[test]
fn bosluklu_yol_tek_parca_kaliyor() {
    let yol = r"D:\Filmler\Kill Bill Vol. 1.mkv";
    assert_eq!(dosya_argumanlari(dizi(&["muiply.exe", yol])), vec![yol.to_string()]);
}

#[test]
fn birden_cok_dosya_sirasini_koruyor() {
    let cikan = dosya_argumanlari(dizi(&["muiply.exe", "a.mp3", "b.mp3", "c.mp3"]));
    assert_eq!(cikan, dizi(&["a.mp3", "b.mp3", "c.mp3"]));
}

#[test]
fn karisik_birakma_klasor_ve_dosyayi_ayirir() {
    let (klasorler, dosyalar) = yollari_ayir(vec![
        ("/m/a.mkv".to_string(), YolTuru::Dosya),
        ("/m/Muzik".to_string(), YolTuru::Klasor),
        ("/m/yok.mkv".to_string(), YolTuru::Yok),
        ("/m/b.mp3".to_string(), YolTuru::Dosya),
    ]);
    assert_eq!(klasorler, dizi(&["/m/Muzik"]));
    assert_eq!(dosyalar, dizi(&["/m/a.mkv", "/m/b.mp3"]));
}
