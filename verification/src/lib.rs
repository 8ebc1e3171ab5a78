//! Logique d'un calorimètre en solution piloté par un Arduino.
pub mod calendrier;
pub mod texte;
pub mod horodatage;
pub mod detection;
pub mod acquisition;
pub mod rapport;
pub mod etat;
