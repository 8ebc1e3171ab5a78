# calorimetre

Logique d'un calorimètre en solution dont la sonde est lue par un Arduino sur
un port série, vérifiée avec Verus.

- `src/` : la bibliothèque vérifiée — calendrier et horodatage du rapport,
  écriture décimale, reconnaissance du port de l'Arduino, décisions de la
  boucle d'acquisition (une mesure par seconde au plus), gabarit du rapport
  HTML et état affiché par l'interface.
- `tests/` : essais sur valeurs concrètes.
- `app/` : l'interface graphique (egui/eframe), le port série, le fil de
  lecture, les calculs en flottants du tracé et l'écriture du fichier.
