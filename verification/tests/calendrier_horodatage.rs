use calorimetre::calendrier::{annee_bissextile, date_depuis_jours, nombre_jours_mois, DateCivile, LIMITE_JOURS};
use calorimetre::horodatage::{
    date_formatee, duree_formatee, est_representable, horodatage_local, texte_horodatage,
    DECALAGE_SECONDES,
};
use calorimetre::texte::{commence_par_texte, contient_texte, decimal_texte};

fn date(annee: u32, mois: u32, jour: u32) -> DateCivile {
    DateCivile { annee, mois, jour }
}

#[test]
fn epoque_est_le_premier_janvier_1970() {
    assert_eq!(date_depuis_jours(0), date(1970, 1, 1));
}

#[test]
fn dates_de_fin_de_mois_et_d_annee() {
    assert_eq!(date_depuis_jours(30), date(1970, 1, 31));
    assert_eq!(date_depuis_jours(31), date(1970, 2, 1));
    assert_eq!(date_depuis_jours(364), date(1970, 12, 31));
    assert_eq!(date_depuis_jours(365), date(1971, 1, 1));
    assert_eq!(date_depuis_jours(10956), date(1999, 12, 31));
}

#[test]
fn jours_bissextiles() {
    assert_eq!(date_depuis_jours(789), date(1972, 2, 29));
    assert_eq!(date_depuis_jours(11016), date(2000, 2, 29));
    assert_eq!(date_depuis_jours(11017), date(2000, 3, 1));
    // 2100 n'est pas bissextile : le lendemain du 28 février est le 1er mars.
    assert_eq!(date_depuis_jours(47541), date(2100, 3, 1));
    assert_eq!(date_depuis_jours(47540), date(2100, 2, 28));
    assert_eq!(date_depuis_jours(2932896), date(9999, 12, 31));
}

#[test]
fn regle_bissextile() {
    assert!(annee_bissextile(1972));
    assert!(annee_bissextile(2000));
    assert!(!annee_bissextile(1900));
    assert!(!annee_bissextile(2100));
    assert!(!annee_bissextile(2023));
    assert_eq!(nombre_jours_mois(2024, 2), 29);
    assert_eq!(nombre_jours_mois(2023, 2), 28);
    assert_eq!(nombre_jours_mois(2023, 4), 30);
    assert_eq!(nombre_jours_mois(2023, 12), 31);
}

#[test]
fn chaque_jour_a_une_date_suivant_la_precedente() {
    // Sur quatre siècles, deux jours consécutifs donnent deux dates
    // consécutives du calendrier.
    let mut precedente = date_depuis_jours(0);
    for jours in 1..146_097u64 {
        let d = date_depuis_jours(jours);
        let attendue = if precedente.jour < nombre_jours_mois(precedente.annee, precedente.mois) as u32 {
            date(precedente.annee, precedente.mois, precedente.jour + 1)
        } else if precedente.mois < 12 {
            date(precedente.annee, precedente.mois + 1, 1)
        } else {
            date(precedente.annee + 1, 1, 1)
        };
        assert_eq!(d, attendue);
        precedente = d;
    }
}

#[test]
fn limite_des_annees() {
    assert_eq!(LIMITE_JOURS, 784351576777);
}

#[test]
fn horodatage_a_l_epoque() {
    let h = horodatage_local(0);
    assert_eq!(h.date, date(1970, 1, 1));
    assert_eq!(h.heure, 2);
    assert_eq!(h.minute, 0);
    assert_eq!(texte_horodatage(&h), "01/01/1970 -- 02:00");
}

#[test]
fn horodatage_avec_changement_de_jour() {
    // 1 700 000 000 s = 14/11/2023 22:13:20 UTC, soit 00:13 le lendemain en UTC+2.
    assert_eq!(date_formatee(Some(1_700_000_000)), "15/11/2023 -- 00:13");
    assert_eq!(date_formatee(Some(1_000_000_000)), "09/09/2001 -- 03:46");
}

#[test]
fn date_de_repli_sans_horloge() {
    assert_eq!(date_formatee(None), "03/06/2026 -- 14:34");
}

#[test]
fn instants_representables() {
    assert_eq!(DECALAGE_SECONDES, 7200);
    assert!(est_representable(0));
    assert!(est_representable(LIMITE_JOURS * 86400 - 7200 - 1));
    assert!(!est_representable(LIMITE_JOURS * 86400 - 7200));
    assert!(!est_representable(u64::MAX));
}

#[test]
fn durees_affichees() {
    assert_eq!(duree_formatee(0), "00:00:00");
    assert_eq!(duree_formatee(59), "00:00:59");
    assert_eq!(duree_formatee(3661), "01:01:01");
    assert_eq!(duree_formatee(86399), "23:59:59");
    assert_eq!(duree_formatee(360_000), "100:00:00");
}

#[test]
fn duree_recomposee() {
    for s in [0u64, 1, 59, 60, 3599, 3600, 3661, 86399, 123456] {
        let t = duree_formatee(s);
        let parties: Vec<u64> = t.split(':').map(|p| p.parse().unwrap()).collect();
        assert_eq!(parties.len(), 3);
        assert_eq!(parties[0] * 3600 + parties[1] * 60 + parties[2], s);
        assert!(parties[1] < 60 && parties[2] < 60);
    }
}

#[test]
fn ecriture_decimale() {
    assert_eq!(decimal_texte(0), "0");
    assert_eq!(decimal_texte(7), "7");
    assert_eq!(decimal_texte(10), "10");
    assert_eq!(decimal_texte(1234567890), "1234567890");
    assert_eq!(decimal_texte(u64::MAX), u64::MAX.to_string());
}

#[test]
fn ecriture_decimale_relue() {
    for n in [0u64, 5, 42, 100, 99999, 18446744073709551615] {
        assert_eq!(decimal_texte(n).parse::<u64>().unwrap(), n);
    }
}

#[test]
fn recherche_de_motif() {
    assert!(contient_texte("/dev/ttyACM0", "ttyACM"));
    assert!(contient_texte("ttyACM", "ttyACM"));
    assert!(contient_texte("abc", ""));
    assert!(!contient_texte("/dev/ttyS0", "ttyACM"));
    assert!(!contient_texte("tty", "ttyACM"));
    assert!(contient_texte("été arduino", "arduino"));
    assert!(commence_par_texte("✅ ok", "✅"));
    assert!(!commence_par_texte("❌ non", "✅"));
    assert!(commence_par_texte("Succès !", "Succès"));
    assert!(!commence_par_texte("Suc", "Succès"));
}
