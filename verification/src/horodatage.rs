//! Horodatage du rapport exporté et affichage du temps écoulé.
use vstd::prelude::*;

use crate::calendrier::{
    date_depuis_jours, date_valide, jours_depuis_epoque, DateCivile, LIMITE_JOURS,
};
use crate::texte::{
    decimal, deux_chiffres, ecrire_decimal, ecrire_deux_chiffres, lemme_decimal_relu,
    lemme_deux_chiffres_relu, valeur_decimale,
};

verus! {

/// Décalage de l'heure locale sur le temps universel, en secondes (UTC+2).
pub const DECALAGE_SECONDES: u64 = 7200;

/// Texte affiché quand l'horloge du système précède l'époque Unix.
pub open spec fn date_de_repli() -> Seq<char> {
    "03/06/2026 -- 14:34"@
}

/// Une date civile et une heure de la journée, à la minute près.
#[derive(Clone, Copy, Debug, PartialEq, Eq, Structural)]
pub struct Horodatage {
    pub date: DateCivile,
    pub heure: u32,
    pub minute: u32,
}

/// L'instant local correspondant à `secondes` secondes écoulées depuis
/// l'époque Unix (temps universel).
pub open spec fn est_horodatage_de(h: Horodatage, secondes: int) -> bool {
    let locales = secondes + DECALAGE_SECONDES;
    &&& date_valide(h.date)
    &&& jours_depuis_epoque(h.date) == locales / 86400
    &&& h.heure == (locales / 3600) % 24
    &&& h.minute == (locales / 60) % 60
}

/// L'instant est représentable : l'addition du décalage ne déborde pas et
/// l'année tient dans un `i32`.
pub open spec fn secondes_representables(secondes: int) -> bool {
    &&& 0 <= secondes <= u64::MAX - DECALAGE_SECONDES
    &&& (secondes + DECALAGE_SECONDES) / 86400 < LIMITE_JOURS
}

/// Texte `JJ/MM/AAAA -- HH:MM` d'un horodatage.
pub open spec fn texte_horodatage_spec(h: Horodatage) -> Seq<char> {
    deux_chiffres(h.date.jour as nat) + "/"@ + deux_chiffres(h.date.mois as nat) + "/"@ + decimal(
        h.date.annee as nat,
    ) + " -- "@ + deux_chiffres(h.heure as nat) + ":"@ + deux_chiffres(h.minute as nat)
}

/// Texte `HH:MM:SS` d'une durée en secondes (les heures peuvent dépasser 99).
pub open spec fn texte_duree_spec(secondes: nat) -> Seq<char> {
    deux_chiffres(secondes / 3600) + ":"@ + deux_chiffres((secondes % 3600) / 60) + ":"@
        + deux_chiffres(secondes % 60)
}

/// Vrai si un instant est représentable.
pub fn est_representable(secondes: u64) -> (b: bool)
    ensures
        b == secondes_representables(secondes as int),
{
    secondes <= u64::MAX - DECALAGE_SECONDES && (secondes + DECALAGE_SECONDES) / 86400
        < LIMITE_JOURS
}

/// Décompose un instant (secondes depuis l'époque, temps universel) en date
/// et heure locales.
pub fn horodatage_local(secondes: u64) -> (h: Horodatage)
    requires
        secondes_representables(secondes as int),
    ensures
        est_horodatage_de(h, secondes as int),
        h.heure < 24,
        h.minute < 60,
{
    let total_secondes = secondes + DECALAGE_SECONDES;
    let minutes_totales = total_secondes / 60;
    let heures_totales = minutes_totales / 60;
    let heure = heures_totales % 24;
    let minute = minutes_totales % 60;
    let jours = heures_totales / 24;
    assert(heures_totales == total_secondes / 3600);
    assert(jours == total_secondes / 86400);
    let date = date_depuis_jours(jours);
    Horodatage { date, heure: heure as u32, minute: minute as u32 }
}

/// Écrit un horodatage sous la forme `JJ/MM/AAAA -- HH:MM`.
pub fn texte_horodatage(h: &Horodatage) -> (s: String)
    ensures
        s@ == texte_horodatage_spec(*h),
{
    let mut s = String::new();
    ecrire_deux_chiffres(&mut s, h.date.jour as u64);
    s.append("/");
    ecrire_deux_chiffres(&mut s, h.date.mois as u64);
    s.append("/");
    ecrire_decimal(&mut s, h.date.annee as u64);
    s.append(" -- ");
    ecrire_deux_chiffres(&mut s, h.heure as u64);
    s.append(":");
    ecrire_deux_chiffres(&mut s, h.minute as u64);
    assert(s@ =~= texte_horodatage_spec(*h));
    s
}

/// Date et heure locales du rapport, à partir des secondes écoulées depuis
/// l'époque Unix ; `None` quand l'horloge du système précède l'époque.
pub fn date_formatee(secondes: Option<u64>) -> (s: String)
    requires
        secondes matches Some(n) ==> secondes_representables(n as int),
    ensures
        secondes is None ==> s@ == date_de_repli(),
        secondes matches Some(n) ==> exists|h: Horodatage|
            est_horodatage_de(h, n as int) && s@ == texte_horodatage_spec(h),
{
    match secondes {
        Some(n) => {
            let h = horodatage_local(n);
            texte_horodatage(&h)
        },
        None => String::from_str("03/06/2026 -- 14:34"),
    }
}

/// Écrit une durée sous la forme `HH:MM:SS`.
pub fn duree_formatee(secondes: u64) -> (s: String)
    ensures
        s@ == texte_duree_spec(secondes as nat),
{
    let heures = secondes / 3600;
    let minutes = (secondes % 3600) / 60;
    let reste = secondes % 60;
    let mut s = String::new();
    ecrire_deux_chiffres(&mut s, heures);
    s.append(":");
    ecrire_deux_chiffres(&mut s, minutes);
    s.append(":");
    ecrire_deux_chiffres(&mut s, reste);
    assert(s@ =~= texte_duree_spec(secondes as nat));
    s
}

/// Les heures, minutes et secondes affichées recomposent la durée, et les
/// minutes et secondes restent sous 60.
pub proof fn lemme_duree_recomposee(secondes: nat)
    ensures
        (secondes / 3600) * 3600 + ((secondes % 3600) / 60) * 60 + secondes % 60 == secondes,
        (secondes % 3600) / 60 < 60,
        secondes % 60 < 60,
{
}

/// Le texte d'une durée se relit : les heures (deux chiffres au moins) jusqu'au
/// premier `:`, puis les minutes et les secondes sur deux chiffres chacune,
/// qui restent sous 60 et recomposent la durée.
pub proof fn lemme_texte_duree_relu(secondes: nat)
    ensures
        ({
            let t = texte_duree_spec(secondes);
            let n = t.len() as int;
            let h = valeur_decimale(t.subrange(0, n - 6));
            let m = valeur_decimale(t.subrange(n - 5, n - 3));
            let s = valeur_decimale(t.subrange(n - 2, n));
            &&& n >= 8
            &&& t[n - 6] == ':'
            &&& t[n - 3] == ':'
            &&& m < 60
            &&& s < 60
            &&& h * 3600 + m * 60 + s == secondes
        }),
{
    reveal_strlit(":");
    let hh = deux_chiffres(secondes / 3600);
    let mm = deux_chiffres((secondes % 3600) / 60);
    let ss = deux_chiffres(secondes % 60);
    lemme_deux_chiffres_relu(secondes / 3600);
    lemme_deux_chiffres_relu((secondes % 3600) / 60);
    lemme_deux_chiffres_relu(secondes % 60);
    lemme_decimal_relu(secondes / 3600);
    let t = texte_duree_spec(secondes);
    let n = t.len() as int;
    assert(t =~= hh + ":"@ + mm + ":"@ + ss);
    if secondes / 3600 >= 10 {
        lemme_decimal_relu(secondes / 3600 / 10);
        assert(decimal(secondes / 3600).len() == decimal(secondes / 3600 / 10).len() + 1);
    }
    assert(hh.len() >= 2);
    assert(mm.len() == 2 && ss.len() == 2 && ":"@.len() == 1);
    assert(t.subrange(0, n - 6) =~= hh);
    assert(t.subrange(n - 5, n - 3) =~= mm);
    assert(t.subrange(n - 2, n) =~= ss);
}

/// L'horodatage d'un instant en donne le jour, l'heure (de 0 à 23) et la
/// minute locales : l'instant local tombe dans la minute désignée.
pub proof fn lemme_horodatage_encadre(h: Horodatage, secondes: int)
    requires
        est_horodatage_de(h, secondes),
        secondes >= 0,
    ensures
        h.heure < 24,
        h.minute < 60,
        86400 * jours_depuis_epoque(h.date) + 3600 * h.heure + 60 * h.minute <= secondes
            + DECALAGE_SECONDES,
        secondes + DECALAGE_SECONDES < 86400 * jours_depuis_epoque(h.date) + 3600 * h.heure + 60
            * h.minute + 60,
{
}

/// Le texte d'un horodatage se relit : `JJ/MM/` en tête, l'année jusqu'à
/// ` -- `, puis l'heure sur deux chiffres, `:` et la minute sur deux chiffres.
pub proof fn lemme_texte_horodatage_relu(h: Horodatage)
    requires
        date_valide(h.date),
        h.heure < 24,
        h.minute < 60,
    ensures
        ({
            let t = texte_horodatage_spec(h);
            let n = t.len() as int;
            &&& n >= 16
            &&& valeur_decimale(t.subrange(0, 2)) == h.date.jour
            &&& t[2] == '/'
            &&& valeur_decimale(t.subrange(3, 5)) == h.date.mois
            &&& t[5] == '/'
            &&& valeur_decimale(t.subrange(6, n - 9)) == h.date.annee
            &&& t.subrange(n - 9, n - 5) == seq![' ', '-', '-', ' ']
            &&& valeur_decimale(t.subrange(n - 5, n - 3)) == h.heure
            &&& t[n - 3] == ':'
            &&& valeur_decimale(t.subrange(n - 2, n)) == h.minute
        }),
{
    reveal_strlit("/");
    reveal_strlit(" -- ");
    reveal_strlit(":");
    let j = deux_chiffres(h.date.jour as nat);
    let m = deux_chiffres(h.date.mois as nat);
    let a = decimal(h.date.annee as nat);
    let hh = deux_chiffres(h.heure as nat);
    let mm = deux_chiffres(h.minute as nat);
    lemme_deux_chiffres_relu(h.date.jour as nat);
    lemme_deux_chiffres_relu(h.date.mois as nat);
    lemme_deux_chiffres_relu(h.heure as nat);
    lemme_deux_chiffres_relu(h.minute as nat);
    lemme_decimal_relu(h.date.annee as nat);
    let t = texte_horodatage_spec(h);
    let n = t.len() as int;
    assert(t =~= j + "/"@ + m + "/"@ + a + " -- "@ + hh + ":"@ + mm);
    assert(h.date.jour <= 31);
    assert(j.len() == 2 && m.len() == 2 && hh.len() == 2 && mm.len() == 2);
    assert("/"@.len() == 1 && " -- "@.len() == 4 && ":"@.len() == 1);
    assert(n == 15 + a.len());
    assert(t.subrange(0, 2) =~= j);
    assert(t.subrange(3, 5) =~= m);
    assert(t.subrange(6, n - 9) =~= a);
    assert(t.subrange(n - 9, n - 5) =~= seq![' ', '-', '-', ' ']);
    assert(t.subrange(n - 5, n - 3) =~= hh);
    assert(t.subrange(n - 2, n) =~= mm);
}

/// Deux horodatages d'un même instant sont identiques : le texte du rapport
/// est entièrement déterminé par l'instant.
pub proof fn lemme_horodatage_unique(h1: Horodatage, h2: Horodatage, secondes: int)
    requires
        est_horodatage_de(h1, secondes),
        est_horodatage_de(h2, secondes),
    ensures
        h1 == h2,
{
    crate::calendrier::lemme_date_unique(h1.date, h2.date);
}

} // verus!
