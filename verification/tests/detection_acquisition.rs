use calorimetre::acquisition::{
    Action, Echantillonneur, Evenement, INTERVALLE_NS, SIGNAL_ARRET, SIGNAL_DEMARRAGE,
};
use calorimetre::detection::{detecter_port_arduino, port_d_arduino, InfoPort, InfoUsb};

fn port(nom: &str) -> InfoPort {
    InfoPort { nom: nom.to_string(), usb: None }
}

fn port_usb(nom: &str, vid: u16, fabricant: Option<&str>, produit: Option<&str>) -> InfoPort {
    InfoPort {
        nom: nom.to_string(),
        usb: Some(InfoUsb {
            vid,
            fabricant: fabricant.map(|s| s.to_string()),
            produit: produit.map(|s| s.to_string()),
        }),
    }
}

#[test]
fn aucun_port() {
    assert_eq!(detecter_port_arduino(&vec![]), None);
}

#[test]
fn ports_sans_arduino() {
    let ports = vec![
        port("/dev/ttyS0"),
        port("COM1"),
        port_usb("COM4", 0x1234, Some("FTDI"), Some("FT232R USB UART")),
    ];
    assert_eq!(detecter_port_arduino(&ports), None);
}

#[test]
fn reconnaissance_par_le_nom() {
    assert!(port_d_arduino(&port("/dev/ttyACM0")));
    assert!(port_d_arduino(&port("/dev/ttyUSB1")));
    assert!(port_d_arduino(&port("/dev/cu.usbmodem14101")));
    assert!(port_d_arduino(&port("/dev/cu.usbserial-1420")));
    assert!(!port_d_arduino(&port("/dev/ttyS3")));
}

#[test]
fn reconnaissance_par_le_fabricant_sans_casse() {
    // Le nom seul ne suffit pas : c'est le fabricant, en majuscules, qui désigne l'Arduino.
    assert!(port_d_arduino(&port_usb("COM3", 0x1111, Some("ARDUINO LLC"), None)));
    assert!(port_d_arduino(&port_usb("COM3", 0x1111, None, Some("Genuine Arduino Uno"))));
    assert!(!port_d_arduino(&port_usb("COM3", 0x1111, Some("ARDU INO"), Some("Uno"))));
}

#[test]
fn reconnaissance_par_l_identifiant_de_vendeur() {
    assert!(port_d_arduino(&port_usb("COM5", 0x2341, None, None)));
    assert!(port_d_arduino(&port_usb("COM6", 0x2A03, None, None)));
    assert!(!port_d_arduino(&port_usb("COM7", 0x2340, None, None)));
}

#[test]
fn premier_port_retenu() {
    let ports = vec![
        port("/dev/ttyS0"),
        port_usb("COM9", 0x2341, None, None),
        port("/dev/ttyACM0"),
    ];
    assert_eq!(detecter_port_arduino(&ports), Some("COM9".to_string()));
}

#[test]
fn signaux_de_la_carte() {
    assert_eq!(SIGNAL_DEMARRAGE, b'1');
    assert_eq!(SIGNAL_ARRET, b'0');
}

fn ligne(texte: &str, lisible: bool, instant_ns: u64) -> Evenement {
    Evenement::Ligne { texte: texte.to_string(), mesure_lisible: lisible, instant_ns }
}

fn stocke(instant_ns: u64) -> Evenement {
    Evenement::PointStocke { instant_ns }
}

#[test]
fn premiere_mesure_apres_une_seconde() {
    let mut e = Echantillonneur::demarrer(0);
    assert_eq!(e.etape(&ligne("0.12\r\n", true, 999_999_999)), Action::Ignorer);
    assert_eq!(
        e.etape(&ligne("0.12\r\n", true, 1_000_000_000)),
        Action::Enregistrer { instant_ns: 1_000_000_000 }
    );
    assert!(e.en_attente);
    assert_eq!(e.dernier_ns, 0);
    assert_eq!(e.etape(&stocke(1_000_000_500)), Action::Ignorer);
    assert!(!e.en_attente);
    assert_eq!(e.dernier_ns, 1_000_000_500);
}

#[test]
fn depart_releve_a_l_ouverture() {
    let mut e = Echantillonneur::demarrer(250);
    assert_eq!(e.etape(&ligne("1", true, 1_000_000_000)), Action::Ignorer);
    assert_eq!(
        e.etape(&ligne("1", true, 1_000_000_250)),
        Action::Enregistrer { instant_ns: 1_000_000_250 }
    );
}

#[test]
fn la_seconde_compte_depuis_le_stockage() {
    // La ligne suivante est lue une seconde après la décision, mais un peu
    // moins d'une seconde après le relevé qui suit le stockage : elle est ignorée.
    let mut e = Echantillonneur::demarrer(0);
    assert_eq!(e.etape(&ligne("1", true, 2_000_000_000)), Action::Enregistrer { instant_ns: 2_000_000_000 });
    assert_eq!(e.etape(&stocke(2_000_000_010)), Action::Ignorer);
    assert_eq!(e.etape(&ligne("1", true, 3_000_000_000)), Action::Ignorer);
    assert_eq!(e.etape(&ligne("1", true, 3_000_000_010)), Action::Enregistrer { instant_ns: 3_000_000_010 });
}

#[test]
fn lignes_inutilisables_ignorees() {
    let mut e = Echantillonneur::demarrer(0);
    assert_eq!(e.etape(&Evenement::LectureEchouee), Action::Ignorer);
    assert_eq!(e.etape(&ligne("", false, 5_000_000_000)), Action::Ignorer);
    assert_eq!(e.etape(&ligne("erreur\n", false, 5_000_000_000)), Action::Ignorer);
    assert_eq!(e.etape(&stocke(5_000_000_000)), Action::Ignorer);
    assert_eq!(e.dernier_ns, 0);
    assert!(e.actif);
}

#[test]
fn une_mesure_par_seconde_au_plus() {
    let mut e = Echantillonneur::demarrer(0);
    let mut gardes = Vec::new();
    for k in 0..50u64 {
        let instant = k * 300_000_000;
        if let Action::Enregistrer { instant_ns } = e.etape(&ligne("1.5", true, instant)) {
            gardes.push(instant_ns);
            e.etape(&stocke(instant + 1_000));
        }
    }
    assert_eq!(gardes, vec![1_200_000_000, 2_400_000_000, 3_600_000_000, 4_800_000_000, 6_000_000_000, 7_200_000_000, 8_400_000_000, 9_600_000_000, 10_800_000_000, 12_000_000_000, 13_200_000_000, 14_400_000_000]);
    for paire in gardes.windows(2) {
        assert!(paire[1] - paire[0] >= INTERVALLE_NS);
    }
}

#[test]
fn horloge_qui_recule() {
    let mut e = Echantillonneur::demarrer(0);
    assert_eq!(e.etape(&ligne("1", true, 3_000_000_000)), Action::Enregistrer { instant_ns: 3_000_000_000 });
    e.etape(&stocke(3_000_000_000));
    assert_eq!(e.etape(&ligne("1", true, 1_000_000_000)), Action::Ignorer);
}

#[test]
fn arret_definitif() {
    let mut e = Echantillonneur::demarrer(0);
    assert_eq!(e.etape(&Evenement::ArretDemande), Action::Eteindre);
    assert!(!e.actif);
    assert_eq!(e.etape(&ligne("2.0", true, 10_000_000_000)), Action::Ignorer);
    assert_eq!(e.etape(&Evenement::ArretDemande), Action::Ignorer);
    assert_eq!(e.dernier_ns, 0);
}
