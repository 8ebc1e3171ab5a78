//! État affiché par l'interface : saisies, acquisition en cours, temps
//! écoulé, dernière température et messages de statut.
use vstd::prelude::*;

use crate::horodatage::{duree_formatee, texte_duree_spec};
use crate::texte::{commence_par, commence_par_texte};

verus! {

/// Comment s'est terminée une demande d'exportation du rapport.
#[derive(Clone, Copy, Debug, PartialEq, Eq, Structural)]
pub enum IssueExport {
    /// Aucune mesure n'a été enregistrée.
    AucuneDonnee,
    /// Le fichier du rapport n'a pas pu être créé.
    CreationImpossible,
    /// Le fichier a été créé mais l'écriture a échoué.
    EcritureEchouee,
    /// Le rapport a été écrit.
    Reussie,
}

/// Le message de statut d'une exportation.
pub open spec fn message_export_spec(issue: IssueExport) -> Seq<char> {
    match issue {
        IssueExport::AucuneDonnee => "Erreur : Aucune donnée à exporter !"@,
        IssueExport::CreationImpossible => "Impossible de créer le fichier."@,
        IssueExport::EcritureEchouee => "Erreur lors de l'écriture du fichier."@,
        IssueExport::Reussie => "Succès ! Fichier exporté sous 'export_calorimetre.html'"@,
    }
}

/// Le message de statut d'une détection de port.
pub open spec fn message_detection_spec(resultat: Option<Seq<char>>) -> Seq<char> {
    match resultat {
        Some(port) => "✅ Arduino détecté sur : "@ + port,
        None => "❌ Aucun Arduino détecté. Vérifiez le branchement USB."@,
    }
}

/// L'état affiché par l'interface.
pub struct EtatCalori {
    /// Température de base saisie, en °C.
    pub t0_saisie: String,
    /// Nom du port série à ouvrir.
    pub port_nom: String,
    /// Une acquisition est en cours.
    pub en_cours: bool,
    /// Temps écoulé depuis le lancement, `HH:MM:SS`.
    pub temps_ecoule: String,
    /// Dernière température mesurée.
    pub temperature_actuelle: String,
    /// Résultat de la dernière exportation (vide avant la première).
    pub statut_export: String,
    /// Résultat de la dernière détection de port (vide avant la première).
    pub statut_port: String,
}

/// Le message de statut d'une exportation.
pub fn message_export(issue: IssueExport) -> (s: String)
    ensures
        s@ == message_export_spec(issue),
{
    match issue {
        IssueExport::AucuneDonnee => String::from_str("Erreur : Aucune donnée à exporter !"),
        IssueExport::CreationImpossible => String::from_str("Impossible de créer le fichier."),
        IssueExport::EcritureEchouee => String::from_str("Erreur lors de l'écriture du fichier."),
        IssueExport::Reussie => String::from_str(
            "Succès ! Fichier exporté sous 'export_calorimetre.html'",
        ),
    }
}

/// Le message de statut d'une détection de port.
pub fn message_detection(resultat: &Option<String>) -> (s: String)
    ensures
        s@ == message_detection_spec(
            match resultat {
                Some(p) => Some(p@),
                None => None,
            },
        ),
{
    match resultat {
        Some(port) => {
            let mut s = String::from_str("✅ Arduino détecté sur : ");
            s.append(port.as_str());
            s
        },
        None => String::from_str("❌ Aucun Arduino détecté. Vérifiez le branchement USB."),
    }
}

impl Default for EtatCalori {
    fn default() -> (e: EtatCalori)
        ensures
            e.t0_saisie@ == "20.0"@,
            e.port_nom@ == "/dev/ttyACM0"@,
            !e.en_cours,
            e.temps_ecoule@ == "00:00:00"@,
            e.temperature_actuelle@ == "N/A"@,
            e.statut_export@ == Seq::<char>::empty(),
            e.statut_port@ == Seq::<char>::empty(),
    {
        EtatCalori {
            t0_saisie: String::from_str("20.0"),
            port_nom: String::from_str("/dev/ttyACM0"),
            en_cours: false,
            temps_ecoule: String::from_str("00:00:00"),
            temperature_actuelle: String::from_str("N/A"),
            statut_export: String::new(),
            statut_port: String::new(),
        }
    }
}

impl EtatCalori {
    /// Passe à l'état « acquisition en cours » et efface le statut d'export.
    pub fn demarrer_acquisition(&mut self)
        ensures
            final(self).en_cours,
            final(self).statut_export@ == Seq::<char>::empty(),
            final(self).t0_saisie == old(self).t0_saisie,
            final(self).port_nom == old(self).port_nom,
            final(self).temps_ecoule == old(self).temps_ecoule,
            final(self).temperature_actuelle == old(self).temperature_actuelle,
            final(self).statut_port == old(self).statut_port,
    {
        self.en_cours = true;
        self.statut_export = String::new();
    }

    /// Quitte l'état « acquisition en cours » ; le reste est conservé.
    pub fn arreter_acquisition(&mut self)
        ensures
            !final(self).en_cours,
            final(self).t0_saisie == old(self).t0_saisie,
            final(self).port_nom == old(self).port_nom,
            final(self).temps_ecoule == old(self).temps_ecoule,
            final(self).temperature_actuelle == old(self).temperature_actuelle,
            final(self).statut_export == old(self).statut_export,
            final(self).statut_port == old(self).statut_port,
    {
        self.en_cours = false;
    }

    /// Prend acte d'une détection de port : le statut la décrit et, si un
    /// Arduino a été trouvé, son port devient le port à ouvrir.
    pub fn noter_detection(&mut self, resultat: Option<String>)
        ensures
            final(self).statut_port@ == message_detection_spec(
                match resultat {
                    Some(p) => Some(p@),
                    None => None,
                },
            ),
            final(self).port_nom@ == (match resultat {
                Some(p) => p@,
                None => old(self).port_nom@,
            }),
            final(self).t0_saisie == old(self).t0_saisie,
            final(self).en_cours == old(self).en_cours,
            final(self).temps_ecoule == old(self).temps_ecoule,
            final(self).temperature_actuelle == old(self).temperature_actuelle,
            final(self).statut_export == old(self).statut_export,
    {
        self.statut_port = message_detection(&resultat);
        match resultat {
            Some(port) => {
                self.port_nom = port;
            },
            None => {},
        }
    }

    /// Prend acte de l'issue d'une exportation.
    pub fn noter_export(&mut self, issue: IssueExport)
        ensures
            final(self).statut_export@ == message_export_spec(issue),
            final(self).t0_saisie == old(self).t0_saisie,
            final(self).port_nom == old(self).port_nom,
            final(self).en_cours == old(self).en_cours,
            final(self).temps_ecoule == old(self).temps_ecoule,
            final(self).temperature_actuelle == old(self).temperature_actuelle,
            final(self).statut_port == old(self).statut_port,
    {
        self.statut_export = message_export(issue);
    }

    /// Rafraîchit l'affichage pendant une acquisition : le temps écoulé
    /// (en secondes, s'il est connu) et la dernière température (déjà écrite
    /// en degrés, s'il y a une mesure). Hors acquisition rien ne change.
    pub fn actualiser(&mut self, secondes_ecoulees: Option<u64>, derniere_temperature: Option<String>)
        ensures
            final(self).temps_ecoule@ == (if old(self).en_cours && secondes_ecoulees is Some {
                texte_duree_spec(secondes_ecoulees->0 as nat)
            } else {
                old(self).temps_ecoule@
            }),
            final(self).temperature_actuelle@ == (match derniere_temperature {
                Some(t) if old(self).en_cours => t@ + " °C"@,
                _ => old(self).temperature_actuelle@,
            }),
            final(self).t0_saisie == old(self).t0_saisie,
            final(self).port_nom == old(self).port_nom,
            final(self).en_cours == old(self).en_cours,
            final(self).statut_export == old(self).statut_export,
            final(self).statut_port == old(self).statut_port,
    {
        if self.en_cours {
            match secondes_ecoulees {
                Some(secondes) => {
                    self.temps_ecoule = duree_formatee(secondes);
                },
                None => {},
            }
            match derniere_temperature {
                Some(t) => {
                    let mut texte = t;
                    texte.append(" °C");
                    self.temperature_actuelle = texte;
                },
                None => {},
            }
        }
    }

    /// Vrai s'il y a un statut de détection à afficher.
    pub fn montrer_statut_port(&self) -> (b: bool)
        ensures
            b == (self.statut_port@.len() > 0),
    {
        !self.statut_port.as_str().is_empty()
    }

    /// Vrai si le statut de détection annonce un succès (affiché en vert,
    /// sinon en rouge).
    pub fn statut_port_reussi(&self) -> (b: bool)
        ensures
            b == commence_par(self.statut_port@, "✅"@),
    {
        commence_par_texte(self.statut_port.as_str(), "✅")
    }

    /// Vrai s'il y a un statut d'exportation à afficher.
    pub fn montrer_statut_export(&self) -> (b: bool)
        ensures
            b == (self.statut_export@.len() > 0),
    {
        !self.statut_export.as_str().is_empty()
    }

    /// Vrai si le statut d'exportation annonce un succès (affiché en vert,
    /// sinon en rouge).
    pub fn statut_export_reussi(&self) -> (b: bool)
        ensures
            b == commence_par(self.statut_export@, "Succès"@),
    {
        commence_par_texte(self.statut_export.as_str(), "Succès")
    }
}

/// Une détection réussie s'affiche comme un succès, une détection vaine
/// comme un échec.
pub proof fn lemme_couleur_detection(resultat: Option<Seq<char>>)
    ensures
        commence_par(message_detection_spec(resultat), "✅"@) <==> resultat is Some,
        message_detection_spec(resultat).len() > 0,
{
    reveal_strlit("✅");
    reveal_strlit("✅ Arduino détecté sur : ");
    reveal_strlit("❌ Aucun Arduino détecté. Vérifiez le branchement USB.");
    let m = message_detection_spec(resultat);
    match resultat {
        Some(p) => {
            assert(m.subrange(0, 1) =~= "✅"@);
        },
        None => {
            assert(m[0] != '✅');
            assert(m.subrange(0, 1)[0] != "✅"@[0]);
        },
    }
}

/// Seule une exportation réussie s'affiche comme un succès.
pub proof fn lemme_couleur_export(issue: IssueExport)
    ensures
        commence_par(message_export_spec(issue), "Succès"@) <==> issue == IssueExport::Reussie,
        message_export_spec(issue).len() > 0,
{
    reveal_strlit("Succès");
    reveal_strlit("Erreur : Aucune donnée à exporter !");
    reveal_strlit("Impossible de créer le fichier.");
    reveal_strlit("Erreur lors de l'écriture du fichier.");
    reveal_strlit("Succès ! Fichier exporté sous 'export_calorimetre.html'");
    let m = message_export_spec(issue);
    match issue {
        IssueExport::Reussie => {
            assert(m.subrange(0, 6) =~= "Succès"@);
        },
        _ => {
            assert(m.len() >= 6);
            assert(m.subrange(0, 6)[0] != "Succès"@[0]);
        },
    }
}

} // verus!
