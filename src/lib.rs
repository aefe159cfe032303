pub mod commandes;
pub mod configuration;
pub mod consommateur;
pub mod erreur;
pub mod evenement;
pub mod livraison;
pub mod pilote;
pub mod sonde;
pub mod superviseur;
