//! Décisions de la boucle de lecture du port série.
//!
//! La carte envoie une ligne par mesure (l'écart de température, en texte).
//! La boucle lit les lignes jusqu'à ce que l'arrêt soit demandé et ne garde
//! qu'une mesure par seconde au plus : une ligne n'est gardée que si une
//! seconde au moins s'est écoulée depuis l'instant, relevé juste après son
//! stockage, de la mesure gardée précédente (ou depuis le début). Ici se
//! trouvent les décisions ; la lecture du port, l'horloge et le calcul de la
//! température restent à l'appelant, qui exécute l'action rendue et fournit
//! l'événement suivant.
use vstd::prelude::*;

verus! {

/// Débit de la liaison série, en bauds.
pub const DEBIT_BAUDS: u32 = 9600;

/// Délai d'attente d'une lecture sur le port, en millisecondes.
pub const DELAI_LECTURE_MS: u64 = 1500;

/// Attente après l'ouverture du port, le temps que la carte redémarre, en secondes.
pub const ATTENTE_REDEMARRAGE_S: u64 = 2;

/// Octet envoyé à la carte pour allumer la DEL verte et lancer l'envoi des mesures.
pub const SIGNAL_DEMARRAGE: u8 = 0x31;

/// Octet envoyé à la carte pour éteindre la DEL verte à l'arrêt.
pub const SIGNAL_ARRET: u8 = 0x30;

/// Écart minimal entre deux mesures enregistrées, en nanosecondes (une seconde).
pub const INTERVALLE_NS: u64 = 1_000_000_000;

/// Ce que la boucle apprend à chaque tour.
#[derive(Debug, PartialEq, Eq)]
pub enum Evenement {
    /// L'arrêt de l'acquisition a été demandé.
    ArretDemande,
    /// La lecture d'une ligne a échoué (délai dépassé, erreur du port).
    LectureEchouee,
    /// Une ligne a été lue ; `instant_ns` (nanosecondes depuis le début de
    /// l'acquisition) est relevé au moment de décider s'il faut la garder, et
    /// `mesure_lisible` dit si le texte, débarrassé des blancs qui
    /// l'entourent, est un nombre.
    Ligne { texte: String, mesure_lisible: bool, instant_ns: u64 },
    /// La mesure gardée vient d'être stockée ; l'horloge, relevée juste
    /// après, marque `instant_ns`.
    PointStocke { instant_ns: u64 },
}

/// Ce que la boucle doit faire ensuite.
#[derive(Clone, Copy, Debug, PartialEq, Eq, Structural)]
pub enum Action {
    /// Stocker la mesure de la ligne lue à `instant_ns`, puis relever
    /// l'horloge et le signaler par `Evenement::PointStocke`.
    Enregistrer { instant_ns: u64 },
    /// Ne rien enregistrer et lire la ligne suivante.
    Ignorer,
    /// Envoyer `SIGNAL_ARRET` à la carte et quitter la boucle.
    Eteindre,
}

/// L'état de la boucle : l'instant relevé après le stockage de la dernière
/// mesure (ou au début de l'acquisition), si une mesure gardée attend son
/// stockage, et si la boucle tourne encore.
#[derive(Clone, Copy, Debug, PartialEq, Eq, Structural)]
pub struct Echantillonneur {
    pub dernier_ns: u64,
    pub en_attente: bool,
    pub actif: bool,
}

/// Temps écoulé depuis la dernière mesure stockée, nul si l'horloge semble reculer.
pub open spec fn ecoule(s: Echantillonneur, instant_ns: u64) -> int {
    if instant_ns >= s.dernier_ns {
        instant_ns - s.dernier_ns
    } else {
        0
    }
}

/// Un tour de boucle : le nouvel état et l'action à mener.
pub open spec fn transition(s: Echantillonneur, e: Evenement) -> (Echantillonneur, Action) {
    if !s.actif {
        (s, Action::Ignorer)
    } else {
        match e {
            Evenement::ArretDemande => (Echantillonneur { actif: false, ..s }, Action::Eteindre),
            Evenement::PointStocke { instant_ns } => {
                if s.en_attente {
                    (Echantillonneur { dernier_ns: instant_ns, en_attente: false, ..s }, Action::Ignorer)
                } else {
                    (s, Action::Ignorer)
                }
            },
            Evenement::LectureEchouee => (s, Action::Ignorer),
            Evenement::Ligne { texte, mesure_lisible, instant_ns } => {
                if s.en_attente || texte@.len() == 0 || !mesure_lisible || ecoule(s, instant_ns)
                    < INTERVALLE_NS {
                    (s, Action::Ignorer)
                } else {
                    (Echantillonneur { en_attente: true, ..s }, Action::Enregistrer { instant_ns })
                }
            },
        }
    }
}

/// L'état final et les instants des mesures gardées après une suite
/// d'événements.
pub open spec fn executer(s: Echantillonneur, evenements: Seq<Evenement>) -> (
    Echantillonneur,
    Seq<u64>,
)
    decreases evenements.len(),
{
    if evenements.len() == 0 {
        (s, Seq::empty())
    } else {
        let (s1, a) = transition(s, evenements[0]);
        let (fin, suite) = executer(s1, evenements.drop_first());
        match a {
            Action::Enregistrer { instant_ns } => (fin, seq![instant_ns] + suite),
            _ => (fin, suite),
        }
    }
}

/// L'instant que porte un événement, s'il en porte un.
pub open spec fn instant_de(e: Evenement) -> Option<u64> {
    match e {
        Evenement::Ligne { instant_ns, .. } => Some(instant_ns),
        Evenement::PointStocke { instant_ns } => Some(instant_ns),
        _ => None,
    }
}

/// Les instants relevés au fil des événements ne reculent jamais (horloge
/// monotone) et ne précèdent pas `borne`.
pub open spec fn horloge_monotone(evenements: Seq<Evenement>, borne: int) -> bool {
    &&& forall|i: int|
        0 <= i < evenements.len() && #[trigger] instant_de(evenements[i]) is Some ==> instant_de(
            evenements[i],
        )->0 >= borne
    &&& forall|i: int, j: int|
        0 <= i < j < evenements.len() && #[trigger] instant_de(evenements[i]) is Some
            && #[trigger] instant_de(evenements[j]) is Some ==> instant_de(evenements[i])->0
            <= instant_de(evenements[j])->0
}

impl Echantillonneur {
    /// L'état au début de l'acquisition : l'horloge relevée au départ,
    /// `debut_ns`, compte comme le stockage de la dernière mesure, si bien que
    /// la première n'est gardée qu'une seconde après.
    pub fn demarrer(debut_ns: u64) -> (s: Echantillonneur)
        ensures
            s.dernier_ns == debut_ns,
            !s.en_attente,
            s.actif,
    {
        Echantillonneur { dernier_ns: debut_ns, en_attente: false, actif: true }
    }

    /// Traite un événement et rend l'action à mener.
    pub fn etape(&mut self, evenement: &Evenement) -> (a: Action)
        ensures
            (*final(self), a) == transition(*old(self), *evenement),
    {
        if !self.actif {
            return Action::Ignorer;
        }
        match evenement {
            Evenement::ArretDemande => {
                self.actif = false;
                Action::Eteindre
            },
            Evenement::PointStocke { instant_ns } => {
                if self.en_attente {
                    self.dernier_ns = *instant_ns;
                    self.en_attente = false;
                }
                Action::Ignorer
            },
            Evenement::LectureEchouee => Action::Ignorer,
            Evenement::Ligne { texte, mesure_lisible, instant_ns } => {
                let ecoule = if *instant_ns >= self.dernier_ns {
                    *instant_ns - self.dernier_ns
                } else {
                    0
                };
                if self.en_attente || texte.as_str().is_empty() || !*mesure_lisible || ecoule
                    < INTERVALLE_NS {
                    Action::Ignorer
                } else {
                    self.en_attente = true;
                    Action::Enregistrer { instant_ns: *instant_ns }
                }
            },
        }
    }
}

/// Avec une horloge monotone, deux mesures gardées l'une après l'autre sont
/// espacées d'au moins une seconde, et chacune arrive au moins une seconde
/// après la borne inférieure des instants (le départ, ou le dernier stockage).
pub proof fn lemme_mesures_espacees(s: Echantillonneur, evenements: Seq<Evenement>, borne: int)
    requires
        horloge_monotone(evenements, borne),
        !s.en_attente ==> borne <= s.dernier_ns,
    ensures
        ({
            let instants = executer(s, evenements).1;
            &&& forall|i: int| 0 <= i < instants.len() ==> instants[i] >= borne + INTERVALLE_NS
            &&& forall|i: int|
                0 <= i < instants.len() - 1 ==> instants[i] + INTERVALLE_NS <= #[trigger] instants[i + 1]
        }),
    decreases evenements.len(),
{
    if evenements.len() > 0 {
        let e0 = evenements[0];
        let reste = evenements.drop_first();
        let (s1, a) = transition(s, e0);
        assert forall|i: int|
            0 <= i < reste.len() && #[trigger] instant_de(reste[i]) is Some implies instant_de(
                reste[i],
            )->0 >= borne by {
            assert(reste[i] == evenements[i + 1]);
        }
        assert forall|i: int, j: int|
            0 <= i < j < reste.len() && #[trigger] instant_de(reste[i]) is Some
                && #[trigger] instant_de(reste[j]) is Some implies instant_de(reste[i])->0
            <= instant_de(reste[j])->0 by {
            assert(reste[i] == evenements[i + 1]);
            assert(reste[j] == evenements[j + 1]);
        }
        let suite = executer(s1, reste).1;
        let instants = executer(s, evenements).1;
        match a {
            Action::Enregistrer { instant_ns } => {
                assert(instant_de(e0) == Some(instant_ns));
                assert forall|i: int|
                    0 <= i < reste.len() && #[trigger] instant_de(reste[i]) is Some implies instant_de(
                        reste[i],
                    )->0 >= instant_ns by {
                    assert(reste[i] == evenements[i + 1]);
                    assert(instant_de(evenements[0]) is Some);
                }
                lemme_mesures_espacees(s1, reste, instant_ns as int);
                assert(instants == seq![instant_ns] + suite);
                assert forall|i: int|
                    0 <= i < instants.len() - 1 implies instants[i] + INTERVALLE_NS
                    <= #[trigger] instants[i + 1] by {
                    assert(instants[i + 1] == suite[i]);
                    if i > 0 {
                        assert(instants[i] == suite[i - 1]);
                        assert(suite[i - 1] + INTERVALLE_NS <= suite[(i - 1) + 1]);
                    }
                }
            },
            _ => {
                if s.en_attente && s1.actif && !s1.en_attente {
                    assert(instant_de(e0) is Some);
                }
                lemme_mesures_espacees(s1, reste, borne);
                assert(instants == suite);
            },
        }
    }
}

/// Une ligne est gardée exactement quand la boucle tourne, qu'aucune mesure
/// n'attend son stockage, que la ligne n'est pas vide, que son texte est un
/// nombre (quel qu'il soit, négatif compris) et qu'une seconde au moins s'est
/// écoulée depuis le dernier stockage ; la ligne gardée est datée de sa
/// lecture et met la boucle en attente du stockage. Sinon l'état ne change pas.
pub proof fn lemme_ligne_gardee(s: Echantillonneur, texte: String, mesure_lisible: bool, instant_ns: u64)
    ensures
        ({
            let (s1, a) = transition(
                s,
                Evenement::Ligne { texte, mesure_lisible, instant_ns },
            );
            let gardee = s.actif && !s.en_attente && texte@.len() > 0 && mesure_lisible
                && instant_ns >= s.dernier_ns + INTERVALLE_NS;
            &&& gardee ==> (a == (Action::Enregistrer { instant_ns })) && s1.en_attente
                && s1.dernier_ns == s.dernier_ns && s1.actif
            &&& !gardee ==> (a == Action::Ignorer) && (s1 == s)
        }),
{
}

/// Le stockage d'une mesure gardée fixe l'origine de la seconde suivante à
/// l'instant relevé et rend la boucle de nouveau prête à garder une ligne.
pub proof fn lemme_point_stocke(s: Echantillonneur, instant_ns: u64)
    requires
        s.actif,
        s.en_attente,
    ensures
        ({
            let (s1, a) = transition(s, Evenement::PointStocke { instant_ns });
            &&& s1.dernier_ns == instant_ns
            &&& !s1.en_attente
            &&& s1.actif
            &&& a == Action::Ignorer
        }),
{
}

/// Une lecture échouée ne change rien ; un stockage signalé sans mesure en
/// attente non plus ; une boucle arrêtée ignore tout.
pub proof fn lemme_evenements_sans_effet(s: Echantillonneur, e: Evenement)
    ensures
        transition(s, Evenement::LectureEchouee) == (s, Action::Ignorer),
        !s.en_attente ==> (e matches Evenement::PointStocke { .. } ==> transition(s, e) == (
            s,
            Action::Ignorer,
        )),
        !s.actif ==> transition(s, e) == (s, Action::Ignorer),
{
}

/// Une fois la boucle arrêtée, plus aucune mesure n'est gardée.
pub proof fn lemme_rien_apres_arret(s: Echantillonneur, evenements: Seq<Evenement>)
    requires
        !s.actif,
    ensures
        executer(s, evenements).1.len() == 0,
        executer(s, evenements).0 == s,
    decreases evenements.len(),
{
    if evenements.len() > 0 {
        lemme_rien_apres_arret(s, evenements.drop_first());
    }
}

/// Une demande d'arrêt éteint la carte et arrête la boucle.
pub proof fn lemme_arret(s: Echantillonneur)
    requires
        s.actif,
    ensures
        transition(s, Evenement::ArretDemande).1 == Action::Eteindre,
        !transition(s, Evenement::ArretDemande).0.actif,
{
}

} // verus!
