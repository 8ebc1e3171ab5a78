use calorimetre::etat::{message_export, EtatCalori, IssueExport};
use calorimetre::rapport::{document_html, ChampsRapport, NOM_FICHIER_EXPORT};

#[test]
fn etat_initial() {
    let e = EtatCalori::default();
    assert_eq!(e.t0_saisie, "20.0");
    assert_eq!(e.port_nom, "/dev/ttyACM0");
    assert!(!e.en_cours);
    assert_eq!(e.temps_ecoule, "00:00:00");
    assert_eq!(e.temperature_actuelle, "N/A");
    assert_eq!(e.statut_export, "");
    assert_eq!(e.statut_port, "");
    assert!(!e.montrer_statut_port());
    assert!(!e.montrer_statut_export());
}

#[test]
fn detection_reussie() {
    let mut e = EtatCalori::default();
    e.noter_detection(Some("/dev/ttyUSB0".to_string()));
    assert_eq!(e.statut_port, "✅ Arduino détecté sur : /dev/ttyUSB0");
    assert_eq!(e.port_nom, "/dev/ttyUSB0");
    assert!(e.montrer_statut_port());
    assert!(e.statut_port_reussi());
}

#[test]
fn detection_vaine() {
    let mut e = EtatCalori::default();
    e.port_nom = "COM3".to_string();
    e.noter_detection(None);
    assert_eq!(e.statut_port, "❌ Aucun Arduino détecté. Vérifiez le branchement USB.");
    assert_eq!(e.port_nom, "COM3");
    assert!(e.montrer_statut_port());
    assert!(!e.statut_port_reussi());
}

#[test]
fn messages_d_export() {
    assert_eq!(message_export(IssueExport::AucuneDonnee), "Erreur : Aucune donnée à exporter !");
    assert_eq!(message_export(IssueExport::CreationImpossible), "Impossible de créer le fichier.");
    assert_eq!(message_export(IssueExport::EcritureEchouee), "Erreur lors de l'écriture du fichier.");
    assert_eq!(
        message_export(IssueExport::Reussie),
        format!("Succès ! Fichier exporté sous '{}'", NOM_FICHIER_EXPORT)
    );
}

#[test]
fn couleur_des_statuts_d_export() {
    let mut e = EtatCalori::default();
    for (issue, succes) in [
        (IssueExport::AucuneDonnee, false),
        (IssueExport::CreationImpossible, false),
        (IssueExport::EcritureEchouee, false),
        (IssueExport::Reussie, true),
    ] {
        e.noter_export(issue);
        assert!(e.montrer_statut_export());
        assert_eq!(e.statut_export_reussi(), succes);
    }
}

#[test]
fn lancement_et_arret() {
    let mut e = EtatCalori::default();
    e.noter_export(IssueExport::Reussie);
    e.demarrer_acquisition();
    assert!(e.en_cours);
    assert_eq!(e.statut_export, "");
    e.arreter_acquisition();
    assert!(!e.en_cours);
    assert_eq!(e.statut_export, "");
}

#[test]
fn affichage_pendant_l_acquisition() {
    let mut e = EtatCalori::default();
    e.actualiser(Some(75), Some("21.5000".to_string()));
    assert_eq!(e.temps_ecoule, "00:00:00");
    assert_eq!(e.temperature_actuelle, "N/A");
    e.demarrer_acquisition();
    e.actualiser(Some(3725), None);
    assert_eq!(e.temps_ecoule, "01:02:05");
    assert_eq!(e.temperature_actuelle, "N/A");
    e.actualiser(None, Some("21.5000".to_string()));
    assert_eq!(e.temps_ecoule, "01:02:05");
    assert_eq!(e.temperature_actuelle, "21.5000 °C");
}

#[test]
fn nom_du_fichier() {
    assert_eq!(NOM_FICHIER_EXPORT, "export_calorimetre.html");
}

#[test]
fn document_du_rapport() {
    let width = 1000.0;
    let height = 500.0;
    let t0_val: f32 = 20.0;
    let max_y: f64 = 25.5;
    let min_y: f64 = 19.75;
    let min_x: f64 = -0.5;
    let max_x: f64 = 10.5;
    let points_str = "0.0000,500.0000 1000.0000,0.0000 ".to_string();
    let attendu = format!(
                r#"<!DOCTYPE html>
<html lang="fr">
<head>
    <meta charset="UTF-8">
    <title>Export Données Calorimètre</title>
    <style>
        body {{ font-family: Arial, sans-serif; margin: 20px; background-color: #f4f4f9; color: #333; }}
        .container {{ max-width: 1100px; margin: 0 auto; background: white; padding: 20px; border-radius: 8px; box-shadow: 0 4px 8px rgba(0,0,0,0.1); }}
        h1 {{ color: #2c3e50; text-align: center; margin-top: 0; }}
        .meta {{ margin-bottom: 20px; font-size: 14px; color: #555; text-align: center; line-height: 1.5; }}
        .btn-print {{ display: block; width: 150px; margin: 10px auto 20px auto; padding: 10px; background-color: #3498db; color: white; text-align: center; border: none; border-radius: 5px; cursor: pointer; font-weight: bold; }}
        .btn-print:hover {{ background-color: #2980b9; }}
        svg {{ width: 100%; height: auto; border: 1px solid #ddd; background-color: #fafafa; }}
        .grid {{ stroke: #e0e0e0; stroke-width: 1; stroke-dasharray: 4; }}
        .axis {{ stroke: #333; stroke-width: 2; }}
        .curve {{ fill: none; stroke: #e74c3c; stroke-width: 3; stroke-linecap: round; stroke-linejoin: round; }}
        .axis-text {{ font-size: 12px; fill: #333; font-family: sans-serif; }}
        @media print {{
            @page {{ size: landscape; margin: 1cm; }}
            body {{ margin: 0; padding: 0; background: white; }}
            .container {{ max-width: 100%; width: 100%; padding: 0; box-shadow: none; border-radius: 0; }}
            h1 {{ font-size: 20px; margin-bottom: 5px; color: #000; }}
            .meta {{ font-size: 12px; margin-bottom: 15px; color: #333; }}
            .btn-print {{ display: none; }}
            svg {{ width: 100%; height: auto; max-height: 70vh; border: 1px solid #333; background: white; page-break-inside: avoid; }}
        }}
    </style>
</head>
<body>
    <div class="container">
        <h1>Rapport de Mesure - Calorimétrie</h1>
        <div class="meta">
            Fichier généré le : {date_gen}<br>
            Nombre de points : {nb_points} | Température de base (T0) : {t0} °C
        </div>

        <button class="btn-print" onclick="window.print()">Imprimer la courbe</button>

        <svg viewBox="0 0 {width} {height}">
            <line x1="0" y1="{y_quart1}" x2="{width}" y2="{y_quart1}" class="grid" />
            <line x1="0" y1="{y_milieu}" x2="{width}" y2="{y_milieu}" class="grid" />
            <line x1="0" y1="{y_quart3}" x2="{width}" y2="{y_quart3}" class="grid" />
            <line x1="0" y1="{height}" x2="{width}" y2="{height}" class="axis" />
            <line x1="0" y1="0" x2="0" y2="{height}" class="axis" />
            <text x="10" y="20" class="axis-text">{max_y:.4} °C (Max)</text>
            <text x="10" y="{y_milieu_text}" class="axis-text">{moy_y:.4} °C</text>
            <text x="10" y="{height_minus_10}" class="axis-text">{min_y:.4} °C (Min)</text>
            <text x="5" y="{height_minus_25}" class="axis-text">{min_x:.1} s</text>
            <text x="{width_minus_80}" y="{height_minus_25}" class="axis-text">{max_x:.1} s</text>
            <polyline points="{points}" class="curve" />
        </svg>
    </div>
</body>
</html>"#,
                date_gen = "09/09/2001 -- 03:46",
                nb_points = 3usize,
                t0 = t0_val,
                width = width,
                height = height,
                y_quart1 = height * 0.25,
                y_milieu = height * 0.5,
                y_quart3 = height * 0.75,
                y_milieu_text = (height * 0.5) - 5.0,
                height_minus_10 = height - 10.0,
                height_minus_25 = height - 25.0,
                width_minus_80 = width - 80.0,
                max_y = max_y,
                min_y = min_y,
                moy_y = (max_y + min_y) / 2.0,
                min_x = min_x,
                max_x = max_x,
                points = points_str
            );

    let champs = ChampsRapport {
        date: "09/09/2001 -- 03:46".to_string(),
        nb_points: 3,
        t0: format!("{}", t0_val),
        max_y: format!("{:.4}", max_y),
        moy_y: format!("{:.4}", (max_y + min_y) / 2.0),
        min_y: format!("{:.4}", min_y),
        min_x: format!("{:.1}", min_x),
        max_x: format!("{:.1}", max_x),
        points: points_str.clone(),
    };
    assert_eq!(document_html(&champs), attendu);
}
