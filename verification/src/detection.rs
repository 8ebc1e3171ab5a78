//! Reconnaissance du port série d'un Arduino parmi les ports du système.
//!
//! Un port est retenu si son nom est celui d'un adaptateur série USB
//! (`ttyACM`, `ttyUSB`, `usbmodem`, `usbserial`), ou si c'est un port USB
//! dont le fabricant ou le produit mentionne « arduino » (sans tenir compte
//! de la casse) ou dont l'identifiant de vendeur est celui d'Arduino.
use vstd::prelude::*;

use crate::texte::{contient, contient_texte};

verus! {

/// Identifiant de vendeur USB d'Arduino LLC.
pub const VID_ARDUINO_LLC: u16 = 0x2341;

/// Identifiant de vendeur USB d'Arduino (www.arduino.cc).
pub const VID_ARDUINO_CC: u16 = 0x2A03;

/// Ce qu'un port USB dit de lui-même.
#[derive(Debug, PartialEq, Eq)]
pub struct InfoUsb {
    pub vid: u16,
    pub fabricant: Option<String>,
    pub produit: Option<String>,
}

/// Un port série du système : son nom et, pour un port USB, ses informations.
#[derive(Debug, PartialEq, Eq)]
pub struct InfoPort {
    pub nom: String,
    pub usb: Option<InfoUsb>,
}

/// Le texte converti en minuscules selon Unicode (`str::to_lowercase`).
pub uninterp spec fn minuscules(s: Seq<char>) -> Seq<char>;

/// Appelle `str::to_lowercase` de la bibliothèque standard, qui rend le texte
/// en minuscules au sens de la propriété Unicode « Lowercase ». Le contrat
/// affirme seulement que le résultat est fonction du texte seul ; la table de
/// conversion n'est pas écrite ici.
#[verifier::external_body]
fn en_minuscules(s: &str) -> (r: String)
    ensures
        r@ == minuscules(s@),
{
    s.to_lowercase()
}

/// Le texte d'une information facultative, vide quand elle manque.
pub open spec fn texte_ou_vide(o: Option<String>) -> Seq<char> {
    match o {
        Some(s) => s@,
        None => Seq::empty(),
    }
}

/// Le nom du port est celui d'un adaptateur série USB (Linux, macOS).
pub open spec fn nom_evoque_arduino(nom: Seq<char>) -> bool {
    ||| contient(nom, "ttyACM"@)
    ||| contient(nom, "ttyUSB"@)
    ||| contient(nom, "usbmodem"@)
    ||| contient(nom, "usbserial"@)
}

/// Les informations USB désignent un Arduino.
pub open spec fn usb_evoque_arduino(u: InfoUsb) -> bool {
    ||| contient(minuscules(texte_ou_vide(u.fabricant)), "arduino"@)
    ||| contient(minuscules(texte_ou_vide(u.produit)), "arduino"@)
    ||| u.vid == VID_ARDUINO_LLC
    ||| u.vid == VID_ARDUINO_CC
}

/// Le port est celui d'un Arduino.
pub open spec fn est_port_arduino(p: InfoPort) -> bool {
    nom_evoque_arduino(p.nom@) || (p.usb matches Some(u) && usb_evoque_arduino(u))
}

/// Un port dont le nom contient `ttyACM`, `ttyUSB`, `usbmodem` ou `usbserial`
/// est celui d'un Arduino, quelles que soient ses informations USB ; sinon,
/// c'en est un exactement quand il est USB et que son fabricant ou son
/// produit, mis en minuscules, contient « arduino », ou que son vendeur est
/// 0x2341 ou 0x2A03.
pub proof fn lemme_port_arduino(p: InfoPort)
    ensures
        contient(p.nom@, "ttyACM"@) ==> est_port_arduino(p),
        contient(p.nom@, "ttyUSB"@) ==> est_port_arduino(p),
        contient(p.nom@, "usbmodem"@) ==> est_port_arduino(p),
        contient(p.nom@, "usbserial"@) ==> est_port_arduino(p),
        !contient(p.nom@, "ttyACM"@) && !contient(p.nom@, "ttyUSB"@) && !contient(
            p.nom@,
            "usbmodem"@,
        ) && !contient(p.nom@, "usbserial"@) ==> (est_port_arduino(p) <==> match p.usb {
            Some(u) => {
                ||| contient(minuscules(texte_ou_vide(u.fabricant)), "arduino"@)
                ||| contient(minuscules(texte_ou_vide(u.produit)), "arduino"@)
                ||| u.vid == 0x2341
                ||| u.vid == 0x2A03
            },
            None => false,
        }),
{
}

/// Une information absente compte comme un texte vide, une information
/// présente pour son texte.
pub proof fn lemme_texte_ou_vide(o: Option<String>)
    ensures
        o is None ==> texte_ou_vide(o).len() == 0,
        o matches Some(t) ==> texte_ou_vide(o) == t@,
{
}

/// Le texte d'une information facultative, vide quand elle manque.
fn texte_facultatif(o: &Option<String>) -> (s: &str)
    ensures
        s@ == texte_ou_vide(*o),
{
    match o {
        Some(t) => t.as_str(),
        None => {
            proof {
                reveal_strlit("");
            }
            ""
        },
    }
}

/// Vrai si le nom du port est celui d'un adaptateur série USB.
pub fn nom_de_port_arduino(nom: &str) -> (b: bool)
    ensures
        b == nom_evoque_arduino(nom@),
{
    contient_texte(nom, "ttyACM") || contient_texte(nom, "ttyUSB") || contient_texte(
        nom,
        "usbmodem",
    ) || contient_texte(nom, "usbserial")
}

/// Vrai si les informations USB désignent un Arduino.
pub fn usb_d_arduino(u: &InfoUsb) -> (b: bool)
    ensures
        b == usb_evoque_arduino(*u),
{
    let fabricant = en_minuscules(texte_facultatif(&u.fabricant));
    let produit = en_minuscules(texte_facultatif(&u.produit));
    contient_texte(fabricant.as_str(), "arduino") || contient_texte(produit.as_str(), "arduino")
        || u.vid == VID_ARDUINO_LLC || u.vid == VID_ARDUINO_CC
}

/// Vrai si le port est celui d'un Arduino.
pub fn port_d_arduino(p: &InfoPort) -> (b: bool)
    ensures
        b == est_port_arduino(*p),
{
    if nom_de_port_arduino(p.nom.as_str()) {
        return true;
    }
    match &p.usb {
        Some(u) => usb_d_arduino(u),
        None => false,
    }
}

/// Le nom du premier port de la liste qui soit celui d'un Arduino, ou `None`
/// s'il n'y en a aucun.
pub fn detecter_port_arduino(ports: &Vec<InfoPort>) -> (r: Option<String>)
    ensures
        r is None <==> forall|i: int| 0 <= i < ports@.len() ==> !est_port_arduino(#[trigger] ports@[i]),
        r matches Some(nom) ==> exists|i: int|
            0 <= i < ports@.len() && est_port_arduino(#[trigger] ports@[i]) && nom@ == ports@[i].nom@
                && forall|j: int| 0 <= j < i ==> !est_port_arduino(#[trigger] ports@[j]),
{
    let mut i: usize = 0;
    while i < ports.len()
        invariant
            i <= ports@.len(),
            forall|j: int| 0 <= j < i ==> !est_port_arduino(#[trigger] ports@[j]),
        decreases ports@.len() - i,
    {
        if port_d_arduino(&ports[i]) {
            let nom = ports[i].nom.clone();
            assert(est_port_arduino(ports@[i as int]));
            return Some(nom);
        }
        i = i + 1;
    }
    None
}

} // verus!
