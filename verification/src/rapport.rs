//! Rapport de mesure exporté en HTML, avec la courbe tracée en SVG.
//!
//! Le document est un gabarit fixe dans lequel s'insèrent la date de
//! génération, le nombre de points, la température de base, les bornes du
//! graphique et la liste des points de la courbe, ces textes étant fournis
//! déjà écrits.
use vstd::prelude::*;

use crate::texte::{decimal, ecrire_decimal, est_chiffre, lemme_decimal_relu, valeur_decimale};

verus! {

/// Nom du fichier du rapport exporté.
pub const NOM_FICHIER_EXPORT: &'static str = "export_calorimetre.html";

/// Début du document, jusqu'à la date de génération.
pub const HTML_DEBUT: &'static str = "<!DOCTYPE html>
<html lang=\"fr\">
<head>
    <meta charset=\"UTF-8\">
    <title>Export Données Calorimètre</title>
    <style>
        body { font-family: Arial, sans-serif; margin: 20px; background-color: #f4f4f9; color: #333; }
        .container { max-width: 1100px; margin: 0 auto; background: white; padding: 20px; border-radius: 8px; box-shadow: 0 4px 8px rgba(0,0,0,0.1); }
        h1 { color: #2c3e50; text-align: center; margin-top: 0; }
        .meta { margin-bottom: 20px; font-size: 14px; color: #555; text-align: center; line-height: 1.5; }
        .btn-print { display: block; width: 150px; margin: 10px auto 20px auto; padding: 10px; background-color: #3498db; color: white; text-align: center; border: none; border-radius: 5px; cursor: pointer; font-weight: bold; }
        .btn-print:hover { background-color: #2980b9; }
        svg { width: 100%; height: auto; border: 1px solid #ddd; background-color: #fafafa; }
        .grid { stroke: #e0e0e0; stroke-width: 1; stroke-dasharray: 4; }
        .axis { stroke: #333; stroke-width: 2; }
        .curve { fill: none; stroke: #e74c3c; stroke-width: 3; stroke-linecap: round; stroke-linejoin: round; }
        .axis-text { font-size: 12px; fill: #333; font-family: sans-serif; }
        @media print {
            @page { size: landscape; margin: 1cm; }
            body { margin: 0; padding: 0; background: white; }
            .container { max-width: 100%; width: 100%; padding: 0; box-shadow: none; border-radius: 0; }
            h1 { font-size: 20px; margin-bottom: 5px; color: #000; }
            .meta { font-size: 12px; margin-bottom: 15px; color: #333; }
            .btn-print { display: none; }
            svg { width: 100%; height: auto; max-height: 70vh; border: 1px solid #333; background: white; page-break-inside: avoid; }
        }
    </style>
</head>
<body>
    <div class=\"container\">
        <h1>Rapport de Mesure - Calorimétrie</h1>
        <div class=\"meta\">
            Fichier généré le : ";

/// Entre la date et le nombre de points.
pub const HTML_APRES_DATE: &'static str = "<br>
            Nombre de points : ";

/// Entre le nombre de points et la température de base.
pub const HTML_APRES_NB_POINTS: &'static str = " | Température de base (T0) : ";

/// Entre la température de base et le maximum des températures (tracé SVG).
pub const HTML_APRES_T0: &'static str = " °C
        </div>

        <button class=\"btn-print\" onclick=\"window.print()\">Imprimer la courbe</button>

        <svg viewBox=\"0 0 1000 500\">
            <line x1=\"0\" y1=\"125\" x2=\"1000\" y2=\"125\" class=\"grid\" />
            <line x1=\"0\" y1=\"250\" x2=\"1000\" y2=\"250\" class=\"grid\" />
            <line x1=\"0\" y1=\"375\" x2=\"1000\" y2=\"375\" class=\"grid\" />
            <line x1=\"0\" y1=\"500\" x2=\"1000\" y2=\"500\" class=\"axis\" />
            <line x1=\"0\" y1=\"0\" x2=\"0\" y2=\"500\" class=\"axis\" />
            <text x=\"10\" y=\"20\" class=\"axis-text\">";

/// Entre le maximum et la moyenne des températures extrêmes.
pub const HTML_APRES_MAX_Y: &'static str = " °C (Max)</text>
            <text x=\"10\" y=\"245\" class=\"axis-text\">";

/// Entre la moyenne et le minimum des températures.
pub const HTML_APRES_MOY_Y: &'static str = " °C</text>
            <text x=\"10\" y=\"490\" class=\"axis-text\">";

/// Entre le minimum des températures et le premier instant.
pub const HTML_APRES_MIN_Y: &'static str = " °C (Min)</text>
            <text x=\"5\" y=\"475\" class=\"axis-text\">";

/// Entre le premier et le dernier instant.
pub const HTML_APRES_MIN_X: &'static str = " s</text>
            <text x=\"920\" y=\"475\" class=\"axis-text\">";

/// Entre le dernier instant et les points de la courbe.
pub const HTML_APRES_MAX_X: &'static str = " s</text>
            <polyline points=\"";

/// Fin du document.
pub const HTML_FIN: &'static str = "\" class=\"curve\" />
        </svg>
    </div>
</body>
</html>";

/// Les textes variables du rapport.
#[derive(Debug, PartialEq, Eq)]
pub struct ChampsRapport {
    /// Date de génération (`JJ/MM/AAAA -- HH:MM`).
    pub date: String,
    /// Nombre de points mesurés.
    pub nb_points: u64,
    /// Température de base T0, en °C.
    pub t0: String,
    /// Haut du graphique, en °C.
    pub max_y: String,
    /// Milieu du graphique, en °C.
    pub moy_y: String,
    /// Bas du graphique, en °C.
    pub min_y: String,
    /// Bord gauche du graphique, en secondes.
    pub min_x: String,
    /// Bord droit du graphique, en secondes.
    pub max_x: String,
    /// Points de la courbe, `x,y` séparés par des espaces.
    pub points: String,
}

/// Le document HTML du rapport.
pub open spec fn document_html_spec(c: ChampsRapport) -> Seq<char> {
    HTML_DEBUT@ + c.date@ + HTML_APRES_DATE@ + decimal(c.nb_points as nat) + HTML_APRES_NB_POINTS@
        + c.t0@ + HTML_APRES_T0@ + c.max_y@ + HTML_APRES_MAX_Y@ + c.moy_y@ + HTML_APRES_MOY_Y@
        + c.min_y@ + HTML_APRES_MIN_Y@ + c.min_x@ + HTML_APRES_MIN_X@ + c.max_x@ + HTML_APRES_MAX_X@
        + c.points@ + HTML_FIN@
}

/// Le nombre de points écrit dans le rapport, entre la date et la
/// température de base, est une suite de chiffres sans zéro de tête qui se
/// relit en le nombre de points ; le document commence par son en-tête suivi
/// de la date, et se termine par les points de la courbe et la fin du gabarit.
pub proof fn lemme_rapport_relu(c: ChampsRapport)
    ensures
        exists|n: Seq<char>, suite: Seq<char>|
            {
                &&& document_html_spec(c) == HTML_DEBUT@ + c.date@ + HTML_APRES_DATE@ + n
                    + HTML_APRES_NB_POINTS@ + suite
                &&& n.len() >= 1
                &&& forall|i: int| 0 <= i < n.len() ==> #[trigger] est_chiffre(n[i])
                &&& valeur_decimale(n) == c.nb_points
                &&& n.len() > 1 ==> n[0] != '0'
                &&& suite.len() >= c.points@.len() + HTML_FIN@.len()
                &&& suite.subrange(
                    suite.len() - c.points@.len() - HTML_FIN@.len(),
                    suite.len() as int,
                ) == c.points@ + HTML_FIN@
            },
{
    let n = decimal(c.nb_points as nat);
    lemme_decimal_relu(c.nb_points as nat);
    let suite = c.t0@ + HTML_APRES_T0@ + c.max_y@ + HTML_APRES_MAX_Y@ + c.moy_y@ + HTML_APRES_MOY_Y@
        + c.min_y@ + HTML_APRES_MIN_Y@ + c.min_x@ + HTML_APRES_MIN_X@ + c.max_x@ + HTML_APRES_MAX_X@
        + c.points@ + HTML_FIN@;
    assert(document_html_spec(c) =~= HTML_DEBUT@ + c.date@ + HTML_APRES_DATE@ + n
        + HTML_APRES_NB_POINTS@ + suite);
    assert(suite.subrange(
        suite.len() - c.points@.len() - HTML_FIN@.len(),
        suite.len() as int,
    ) =~= c.points@ + HTML_FIN@);
}

/// Écrit le document HTML du rapport.
pub fn document_html(c: &ChampsRapport) -> (s: String)
    ensures
        s@ == document_html_spec(*c),
{
    let mut s = String::new();
    s.append(HTML_DEBUT);
    s.append(c.date.as_str());
    s.append(HTML_APRES_DATE);
    ecrire_decimal(&mut s, c.nb_points);
    s.append(HTML_APRES_NB_POINTS);
    s.append(c.t0.as_str());
    s.append(HTML_APRES_T0);
    s.append(c.max_y.as_str());
    s.append(HTML_APRES_MAX_Y);
    s.append(c.moy_y.as_str());
    s.append(HTML_APRES_MOY_Y);
    s.append(c.min_y.as_str());
    s.append(HTML_APRES_MIN_Y);
    s.append(c.min_x.as_str());
    s.append(HTML_APRES_MIN_X);
    s.append(c.max_x.as_str());
    s.append(HTML_APRES_MAX_X);
    s.append(c.points.as_str());
    s.append(HTML_FIN);
    assert(s@ =~= document_html_spec(*c));
    s
}

} // verus!
