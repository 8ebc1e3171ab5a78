//! Calendrier grégorien compté en jours depuis le 1er janvier 1970.
//!
//! Un nombre de jours écoulés depuis l'époque Unix est converti en date civile
//! (année, mois, jour). La conversion est caractérisée par la fonction inverse
//! `jours_depuis_epoque` : la date rendue est valide et ramène au même compte
//! de jours, et deux dates valides distinctes ne tombent jamais le même jour.
use vstd::prelude::*;

verus! {

/// Une année est bissextile si elle est divisible par 4 sans l'être par 100,
/// ou si elle est divisible par 400.
pub open spec fn est_bissextile(annee: int) -> bool {
    (annee % 4 == 0 && annee % 100 != 0) || annee % 400 == 0
}

/// Nombre de jours de l'année donnée.
pub open spec fn jours_dans_annee(annee: int) -> int {
    if est_bissextile(annee) {
        366
    } else {
        365
    }
}

/// Nombre de jours du mois `mois` (1 = janvier, 12 = décembre) de l'année donnée.
pub open spec fn jours_dans_mois(annee: int, mois: int) -> int {
    if mois == 2 {
        if est_bissextile(annee) {
            29
        } else {
            28
        }
    } else if mois == 4 || mois == 6 || mois == 9 || mois == 11 {
        30
    } else {
        31
    }
}

/// Nombre d'années bissextiles parmi les années 1 à `n` (pour `n >= 0`).
pub open spec fn bissextiles_jusqua(n: int) -> int {
    n / 4 - n / 100 + n / 400
}

/// Nombre de jours entre le 1er janvier 1970 et le 1er janvier de `annee`
/// (pour `annee >= 1970`).
pub open spec fn jours_avant_annee(annee: int) -> int {
    365 * (annee - 1970) + bissextiles_jusqua(annee - 1) - bissextiles_jusqua(1969)
}

/// Nombre de jours entre le 1er janvier et le premier jour du mois `mois`.
pub open spec fn jours_avant_mois(annee: int, mois: int) -> int
    decreases mois,
{
    if mois <= 1 {
        0
    } else {
        jours_avant_mois(annee, mois - 1) + jours_dans_mois(annee, mois - 1)
    }
}

/// Une date civile.
#[derive(Clone, Copy, Debug, PartialEq, Eq, Structural)]
pub struct DateCivile {
    pub annee: u32,
    pub mois: u32,
    pub jour: u32,
}

/// La date existe dans le calendrier et ne précède pas l'époque.
pub open spec fn date_valide(d: DateCivile) -> bool {
    &&& d.annee >= 1970
    &&& 1 <= d.mois <= 12
    &&& 1 <= d.jour <= jours_dans_mois(d.annee as int, d.mois as int)
}

/// Nombre de jours écoulés entre le 1er janvier 1970 et la date `d`.
pub open spec fn jours_depuis_epoque(d: DateCivile) -> int {
    jours_avant_annee(d.annee as int) + jours_avant_mois(d.annee as int, d.mois as int) + d.jour - 1
}

/// Premier compte de jours dont l'année ne tient plus dans un `i32` :
/// le 1er janvier de l'année 2^31.
pub const LIMITE_JOURS: u64 = 784351576777u64;

pub proof fn lemme_limite_jours()
    ensures
        LIMITE_JOURS == jours_avant_annee(0x8000_0000),
{
}

proof fn lemme_saut_bissextiles(a: int)
    requires
        a >= 1,
    ensures
        bissextiles_jusqua(a) - bissextiles_jusqua(a - 1) == (if est_bissextile(a) {
            1int
        } else {
            0int
        }),
{
}

/// Passer d'une année à la suivante ajoute exactement les jours de l'année.
pub proof fn lemme_annee_suivante(annee: int)
    requires
        annee >= 1970,
    ensures
        jours_avant_annee(annee + 1) == jours_avant_annee(annee) + jours_dans_annee(annee),
{
    lemme_saut_bissextiles(annee);
}

/// Le 1er janvier d'une année postérieure tombe au moins une année plus tard.
pub proof fn lemme_annees_croissantes(a: int, b: int)
    requires
        1970 <= a < b,
    ensures
        jours_avant_annee(a + 1) <= jours_avant_annee(b),
    decreases b - a,
{
    lemme_annee_suivante(a);
    if b > a + 1 {
        lemme_annees_croissantes(a, b - 1);
        lemme_annee_suivante(b - 1);
    }
}

/// Les mois d'une année en couvrent exactement les jours.
pub proof fn lemme_douze_mois(annee: int)
    ensures
        jours_avant_mois(annee, 13) == jours_dans_annee(annee),
{
    reveal_with_fuel(jours_avant_mois, 13);
}

/// Règle grégorienne : une année est bissextile quand elle est divisible
/// par 4, sauf les siècles, qui ne le sont que s'ils sont divisibles par 400.
pub proof fn lemme_regle_bissextile(annee: int)
    ensures
        est_bissextile(annee) <==> (annee % 4 == 0 && (annee % 100 == 0 ==> annee % 400 == 0)),
        jours_dans_annee(annee) == 365 + (if est_bissextile(annee) { 1int } else { 0int }),
{
}

/// Longueur des mois : 31 jours en janvier, mars, mai, juillet, août,
/// octobre et décembre ; 30 en avril, juin, septembre et novembre ; 28 en
/// février, 29 les années bissextiles.
pub proof fn lemme_longueur_des_mois(annee: int, mois: int)
    requires
        1 <= mois <= 12,
    ensures
        jours_dans_mois(annee, mois) == seq![
            31int,
            if est_bissextile(annee) { 29int } else { 28int },
            31int,
            30int,
            31int,
            30int,
            31int,
            31int,
            30int,
            31int,
            30int,
            31int,
        ][mois - 1],
{
}

/// Quantième du premier jour de chaque mois : 0 pour janvier, 31 pour
/// février, 59 pour mars (un de plus les années bissextiles), …, 181 pour
/// juillet, …, 334 pour décembre.
pub proof fn lemme_debut_des_mois(annee: int, mois: int)
    requires
        1 <= mois <= 12,
    ensures
        jours_avant_mois(annee, mois) == seq![
            0int,
            31int,
            59int,
            90int,
            120int,
            151int,
            181int,
            212int,
            243int,
            273int,
            304int,
            334int,
        ][mois - 1] + (if mois > 2 && est_bissextile(annee) { 1int } else { 0int }),
{
    reveal_with_fuel(jours_avant_mois, 13);
}

/// Une date est valide exactement quand son mois existe et que son jour
/// tient dans la longueur grégorienne du mois ; son rang depuis l'époque est
/// le rang du 1er janvier de son année, plus le quantième du premier jour du
/// mois, plus le jour moins un.
pub proof fn lemme_date_calendaire(d: DateCivile)
    requires
        d.annee >= 1970,
        1 <= d.mois <= 12,
    ensures
        date_valide(d) <==> 1 <= d.jour <= seq![
            31int,
            if est_bissextile(d.annee as int) { 29int } else { 28int },
            31int,
            30int,
            31int,
            30int,
            31int,
            31int,
            30int,
            31int,
            30int,
            31int,
        ][d.mois - 1],
        jours_depuis_epoque(d) == jours_avant_annee(d.annee as int) + seq![
            0int,
            31int,
            59int,
            90int,
            120int,
            151int,
            181int,
            212int,
            243int,
            273int,
            304int,
            334int,
        ][d.mois - 1] + (if d.mois > 2 && est_bissextile(d.annee as int) { 1int } else { 0int })
            + d.jour - 1,
        jours_avant_annee(1970) == 0,
{
    lemme_longueur_des_mois(d.annee as int, d.mois as int);
    lemme_debut_des_mois(d.annee as int, d.mois as int);
}

/// Le premier jour d'un mois postérieur tombe au moins un mois plus tard.
proof fn lemme_mois_croissants(annee: int, m1: int, m2: int)
    requires
        1 <= m1 < m2,
    ensures
        jours_avant_mois(annee, m1 + 1) <= jours_avant_mois(annee, m2),
    decreases m2 - m1,
{
    if m2 > m1 + 1 {
        lemme_mois_croissants(annee, m1, m2 - 1);
    }
}

proof fn lemme_mois_positifs(annee: int, mois: int)
    ensures
        jours_avant_mois(annee, mois) >= 0,
    decreases mois,
{
    if mois > 1 {
        lemme_mois_positifs(annee, mois - 1);
    }
}

/// Une date valide tombe dans son année et dans son mois.
proof fn lemme_encadrement(d: DateCivile)
    requires
        date_valide(d),
    ensures
        jours_avant_annee(d.annee as int) <= jours_depuis_epoque(d),
        jours_depuis_epoque(d) < jours_avant_annee(d.annee as int + 1),
        jours_avant_mois(d.annee as int, d.mois as int) <= jours_depuis_epoque(d) - jours_avant_annee(d.annee as int),
        jours_depuis_epoque(d) - jours_avant_annee(d.annee as int) < jours_avant_mois(d.annee as int, d.mois as int + 1),
{
    let a = d.annee as int;
    lemme_annee_suivante(a);
    lemme_douze_mois(a);
    lemme_mois_positifs(a, d.mois as int);
    if d.mois < 12 {
        lemme_mois_croissants(a, d.mois as int, 13);
    }
}

/// Deux dates valides qui tombent le même jour sont la même date.
pub proof fn lemme_date_unique(d1: DateCivile, d2: DateCivile)
    requires
        date_valide(d1),
        date_valide(d2),
        jours_depuis_epoque(d1) == jours_depuis_epoque(d2),
    ensures
        d1 == d2,
{
    lemme_encadrement(d1);
    lemme_encadrement(d2);
    if d1.annee < d2.annee {
        lemme_annees_croissantes(d1.annee as int, d2.annee as int);
    } else if d2.annee < d1.annee {
        lemme_annees_croissantes(d2.annee as int, d1.annee as int);
    }
    assert(d1.annee == d2.annee);
    if d1.mois < d2.mois {
        lemme_mois_croissants(d1.annee as int, d1.mois as int, d2.mois as int);
    } else if d2.mois < d1.mois {
        lemme_mois_croissants(d1.annee as int, d2.mois as int, d1.mois as int);
    }
}

/// Vrai si l'année est bissextile.
pub fn annee_bissextile(annee: u32) -> (b: bool)
    ensures
        b == est_bissextile(annee as int),
{
    (annee % 4 == 0 && annee % 100 != 0) || annee % 400 == 0
}

/// Nombre de jours du mois donné.
pub fn nombre_jours_mois(annee: u32, mois: u32) -> (n: u64)
    ensures
        n == jours_dans_mois(annee as int, mois as int),
{
    if mois == 2 {
        if annee_bissextile(annee) {
            29
        } else {
            28
        }
    } else if mois == 4 || mois == 6 || mois == 9 || mois == 11 {
        30
    } else {
        31
    }
}

/// Convertit un nombre de jours écoulés depuis le 1er janvier 1970 en date civile.
///
/// L'année est comptée dans un `i32` : au-delà de l'année 2^31 - 1 le calcul
/// déborderait, d'où la borne `LIMITE_JOURS`.
pub fn date_depuis_jours(jours: u64) -> (d: DateCivile)
    requires
        jours < LIMITE_JOURS,
    ensures
        date_valide(d),
        jours_depuis_epoque(d) == jours,
        d.annee <= i32::MAX,
{
    proof {
        lemme_limite_jours();
    }
    let mut annee: u32 = 1970;
    let mut reste: u64 = jours;
    loop
        invariant
            1970 <= annee <= i32::MAX,
            jours < jours_avant_annee(0x8000_0000),
            reste as int == jours - jours_avant_annee(annee as int),
        ensures
            1970 <= annee <= i32::MAX,
            reste as int == jours - jours_avant_annee(annee as int),
            reste < jours_dans_annee(annee as int),
        decreases reste,
    {
        let jours_annee: u64 = if annee_bissextile(annee) {
            366
        } else {
            365
        };
        if reste < jours_annee {
            break;
        }
        proof {
            lemme_annee_suivante(annee as int);
        }
        assert(annee < i32::MAX) by {
            if annee == i32::MAX {
                assert(jours >= jours_avant_annee(annee + 1));
            }
        }
        reste = reste - jours_annee;
        annee = annee + 1;
    }
    proof {
        lemme_douze_mois(annee as int);
    }
    let mut mois: u32 = 1;
    loop
        invariant
            1 <= mois <= 12,
            1970 <= annee <= i32::MAX,
            reste as int + jours_avant_mois(annee as int, mois as int) == jours - jours_avant_annee(
                annee as int,
            ),
            jours - jours_avant_annee(annee as int) < jours_avant_mois(annee as int, 13),
        ensures
            1 <= mois <= 12,
            reste as int + jours_avant_mois(annee as int, mois as int) == jours - jours_avant_annee(
                annee as int,
            ),
            reste < jours_dans_mois(annee as int, mois as int),
        decreases 12 - mois,
    {
        let jours_mois = nombre_jours_mois(annee, mois);
        if reste < jours_mois {
            break;
        }
        if mois == 12 {
            assert(false);
        }
        reste = reste - jours_mois;
        mois = mois + 1;
    }
    DateCivile { annee, mois, jour: (reste + 1) as u32 }
}

} // verus!
