//! Écriture décimale des entiers et recherche de motifs dans un texte.
use vstd::prelude::*;

verus! {

/// Le caractère du chiffre décimal `d` (0 à 9).
pub open spec fn chiffre(d: int) -> char {
    if d == 0 {
        '0'
    } else if d == 1 {
        '1'
    } else if d == 2 {
        '2'
    } else if d == 3 {
        '3'
    } else if d == 4 {
        '4'
    } else if d == 5 {
        '5'
    } else if d == 6 {
        '6'
    } else if d == 7 {
        '7'
    } else if d == 8 {
        '8'
    } else {
        '9'
    }
}

/// Vrai si `c` est un chiffre décimal.
pub open spec fn est_chiffre(c: char) -> bool {
    '0' <= c <= '9'
}

/// Écriture décimale de `n`, sans zéro de tête (comme `{}`).
pub open spec fn decimal(n: nat) -> Seq<char>
    decreases n,
{
    if n < 10 {
        seq![chiffre(n as int)]
    } else {
        decimal(n / 10).push(chiffre((n % 10) as int))
    }
}

/// Écriture décimale de `n` complétée à gauche par des zéros jusqu'à deux
/// caractères (comme `{:02}`).
pub open spec fn deux_chiffres(n: nat) -> Seq<char> {
    if n < 10 {
        seq!['0', chiffre(n as int)]
    } else {
        decimal(n)
    }
}

/// Valeur du nombre écrit en décimal par la suite de chiffres `s`.
pub open spec fn valeur_decimale(s: Seq<char>) -> int
    decreases s.len(),
{
    if s.len() == 0 {
        0
    } else {
        valeur_decimale(s.drop_last()) * 10 + (s.last() as int - 48)
    }
}

/// Vrai si `motif` apparaît dans `texte` à partir de la position `i`.
pub open spec fn apparait_en(texte: Seq<char>, motif: Seq<char>, i: int) -> bool {
    0 <= i && i + motif.len() <= texte.len() && texte.subrange(i, i + motif.len()) == motif
}

/// Vrai si `motif` apparaît quelque part dans `texte` (comme `str::contains`).
pub open spec fn contient(texte: Seq<char>, motif: Seq<char>) -> bool {
    exists|i: int| apparait_en(texte, motif, i)
}

/// Vrai si `texte` commence par `prefixe` (comme `str::starts_with`).
pub open spec fn commence_par(texte: Seq<char>, prefixe: Seq<char>) -> bool {
    apparait_en(texte, prefixe, 0)
}

/// Le chiffre `d` a pour code `48 + d`.
pub proof fn lemme_code_chiffre(d: int)
    requires
        0 <= d < 10,
    ensures
        chiffre(d) as int == 48 + d,
        est_chiffre(chiffre(d)),
{
}

/// L'écriture décimale n'est faite que de chiffres, ne commence par un zéro
/// que pour zéro lui-même, et se relit en la valeur écrite.
pub proof fn lemme_decimal_relu(n: nat)
    ensures
        valeur_decimale(decimal(n)) == n,
        decimal(n).len() >= 1,
        forall|i: int| 0 <= i < decimal(n).len() ==> #[trigger] est_chiffre(decimal(n)[i]),
        n > 0 ==> decimal(n)[0] != '0',
    decreases n,
{
    lemme_code_chiffre((n % 10) as int);
    if n < 10 {
        assert(decimal(n).drop_last() =~= Seq::<char>::empty());
        assert(valeur_decimale(Seq::<char>::empty()) == 0);
        assert(valeur_decimale(decimal(n)) == n);
    } else {
        lemme_decimal_relu(n / 10);
        let s = decimal(n);
        assert(s.drop_last() =~= decimal(n / 10));
        assert(s.last() == chiffre((n % 10) as int));
        assert(valeur_decimale(s) == valeur_decimale(decimal(n / 10)) * 10 + (n % 10));
        assert forall|i: int| 0 <= i < s.len() implies #[trigger] est_chiffre(s[i]) by {
            if i < s.len() - 1 {
                assert(s[i] == decimal(n / 10)[i]);
            }
        }
    }
}

/// Deux nombres distincts ont des écritures décimales distinctes.
pub proof fn lemme_decimal_injective(a: nat, b: nat)
    requires
        decimal(a) == decimal(b),
    ensures
        a == b,
{
    lemme_decimal_relu(a);
    lemme_decimal_relu(b);
}

/// L'écriture sur deux caractères se relit elle aussi en la valeur écrite.
pub proof fn lemme_deux_chiffres_relu(n: nat)
    ensures
        valeur_decimale(deux_chiffres(n)) == n,
        n < 100 ==> deux_chiffres(n).len() == 2,
        forall|i: int| 0 <= i < deux_chiffres(n).len() ==> #[trigger] est_chiffre(deux_chiffres(n)[i]),
{
    lemme_decimal_relu(n);
    if n < 10 {
        lemme_code_chiffre(n as int);
        lemme_code_chiffre(0);
        let s = deux_chiffres(n);
        assert(s.drop_last() =~= seq!['0']);
        assert(seq!['0'].drop_last() =~= Seq::<char>::empty());
        assert(valeur_decimale(Seq::<char>::empty()) == 0);
        assert(valeur_decimale(seq!['0']) == 0);
    } else if n < 100 {
        assert(decimal(n / 10) == seq![chiffre((n / 10) as int)]);
    }
}

/// Un motif est contenu dans un texte exactement quand le texte s'écrit
/// comme un début, le motif, puis une fin.
pub proof fn lemme_contient(texte: Seq<char>, motif: Seq<char>, avant: Seq<char>, apres: Seq<char>)
    ensures
        contient(avant + motif + apres, motif),
        contient(texte, motif) ==> exists|a: Seq<char>, b: Seq<char>| texte == a + motif + b,
        contient(texte, motif) ==> motif.len() <= texte.len(),
{
    let t = avant + motif + apres;
    assert(t.subrange(avant.len() as int, (avant.len() + motif.len()) as int) =~= motif);
    assert(apparait_en(t, motif, avant.len() as int));
    if contient(texte, motif) {
        let i = choose|i: int| apparait_en(texte, motif, i);
        let a = texte.subrange(0, i);
        let b = texte.subrange(i + motif.len(), texte.len() as int);
        assert(texte =~= a + motif + b);
    }
}

/// Un texte commence par un préfixe exactement quand il s'écrit comme le
/// préfixe suivi d'une fin.
pub proof fn lemme_commence_par(texte: Seq<char>, prefixe: Seq<char>, apres: Seq<char>)
    ensures
        commence_par(prefixe + apres, prefixe),
        commence_par(texte, prefixe) ==> texte == prefixe + texte.subrange(
            prefixe.len() as int,
            texte.len() as int,
        ),
{
    assert((prefixe + apres).subrange(0, prefixe.len() as int) =~= prefixe);
    if commence_par(texte, prefixe) {
        assert(texte =~= prefixe + texte.subrange(prefixe.len() as int, texte.len() as int));
    }
}

/// Le texte d'un chiffre décimal.
fn texte_chiffre(d: u64) -> (s: &'static str)
    requires
        d < 10,
    ensures
        s@ == seq![chiffre(d as int)],
{
    proof {
        reveal_strlit("0");
        reveal_strlit("1");
        reveal_strlit("2");
        reveal_strlit("3");
        reveal_strlit("4");
        reveal_strlit("5");
        reveal_strlit("6");
        reveal_strlit("7");
        reveal_strlit("8");
        reveal_strlit("9");
    }
    let s = match d {
        0 => "0",
        1 => "1",
        2 => "2",
        3 => "3",
        4 => "4",
        5 => "5",
        6 => "6",
        7 => "7",
        8 => "8",
        _ => "9",
    };
    assert(s@ =~= seq![chiffre(d as int)]);
    s
}

/// Ajoute l'écriture décimale de `n` au bout de `sortie`.
pub fn ecrire_decimal(sortie: &mut String, n: u64)
    ensures
        final(sortie)@ == old(sortie)@ + decimal(n as nat),
    decreases n,
{
    if n >= 10 {
        ecrire_decimal(sortie, n / 10);
    }
    sortie.append(texte_chiffre(n % 10));
    assert(final(sortie)@ =~= old(sortie)@ + decimal(n as nat));
}

/// Ajoute l'écriture de `n` sur au moins deux caractères au bout de `sortie`.
pub fn ecrire_deux_chiffres(sortie: &mut String, n: u64)
    ensures
        final(sortie)@ == old(sortie)@ + deux_chiffres(n as nat),
{
    if n < 10 {
        sortie.append(texte_chiffre(0));
    }
    ecrire_decimal(sortie, n);
    assert(final(sortie)@ =~= old(sortie)@ + deux_chiffres(n as nat));
}

/// L'écriture décimale de `n`.
pub fn decimal_texte(n: u64) -> (s: String)
    ensures
        s@ == decimal(n as nat),
{
    let mut s = String::new();
    ecrire_decimal(&mut s, n);
    assert(s@ =~= decimal(n as nat));
    s
}

/// Les caractères d'un texte, un par case.
pub fn caracteres(texte: &str) -> (v: Vec<char>)
    ensures
        v@ == texte@,
{
    let n = texte.unicode_len();
    let mut v: Vec<char> = Vec::new();
    let mut i: usize = 0;
    while i < n
        invariant
            n == texte@.len(),
            i <= n,
            v@ == texte@.subrange(0, i as int),
        decreases n - i,
    {
        v.push(texte.get_char(i));
        i = i + 1;
        assert(v@ =~= texte@.subrange(0, i as int));
    }
    assert(v@ =~= texte@);
    v
}

/// Vrai si `motif` apparaît dans `texte` à la position `debut`.
fn apparait_a(texte: &Vec<char>, motif: &Vec<char>, debut: usize) -> (b: bool)
    requires
        debut + motif@.len() <= texte@.len(),
    ensures
        b == apparait_en(texte@, motif@, debut as int),
{
    let m = motif.len();
    let mut j: usize = 0;
    while j < m
        invariant
            m == motif@.len(),
            debut + m <= texte.len(),
            j <= m,
            forall|k: int| 0 <= k < j ==> texte@[debut + k] == motif@[k],
        decreases m - j,
    {
        if texte[debut + j] != motif[j] {
            assert(texte@.subrange(debut as int, debut + m)[j as int] != motif@[j as int]);
            return false;
        }
        j = j + 1;
    }
    assert(texte@.subrange(debut as int, debut + m) =~= motif@);
    true
}

/// Vrai si `motif` apparaît quelque part dans `texte`.
pub fn contient_texte(texte: &str, motif: &str) -> (b: bool)
    ensures
        b == contient(texte@, motif@),
{
    let t = caracteres(texte);
    let m = caracteres(motif);
    if m.len() > t.len() {
        return false;
    }
    let fin = t.len() - m.len();
    let mut i: usize = 0;
    loop
        invariant
            t@ == texte@,
            m@ == motif@,
            fin == t@.len() - m@.len(),
            i <= fin,
            forall|k: int| 0 <= k < i ==> !apparait_en(texte@, motif@, k),
        decreases fin - i,
    {
        if apparait_a(&t, &m, i) {
            return true;
        }
        if i == fin {
            assert forall|k: int| !apparait_en(texte@, motif@, k) by {
                if k > fin {
                    assert(!(k + motif@.len() <= texte@.len()));
                }
            }
            return false;
        }
        i = i + 1;
    }
}

/// Vrai si `texte` commence par `prefixe`.
pub fn commence_par_texte(texte: &str, prefixe: &str) -> (b: bool)
    ensures
        b == commence_par(texte@, prefixe@),
{
    let t = caracteres(texte);
    let p = caracteres(prefixe);
    if p.len() > t.len() {
        return false;
    }
    apparait_a(&t, &p, 0)
}

} // verus!
