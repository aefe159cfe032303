use ecoute_notifications::commandes::{commande_abonnement, identifiant_sql, litteral_sql};
use ecoute_notifications::configuration::{ConfigurationBdd, IdentiteClient};
use ecoute_notifications::erreur::ErreurLectureNotifications;
use ecoute_notifications::sonde::identite_serveur;

#[test]
fn identifiant_avec_guillemet() {
    assert_eq!(identifiant_sql("mes_notifications"), "\"mes_notifications\"");
    assert_eq!(identifiant_sql("a\"b"), "\"a\"\"b\"");
    assert_eq!(identifiant_sql(""), "\"\"");
}

#[test]
fn litteral_avec_apostrophes() {
    assert_eq!(litteral_sql("l'été"), "'l''été'");
    assert_eq!(litteral_sql("''"), "''''''");
    assert_eq!(litteral_sql("simple"), "'simple'");
}

#[test]
fn commande_d_abonnement() {
    let contenus = vec![
        "ma_premiere_notification".to_string(),
        "ma_seconde_notification".to_string(),
    ];
    assert_eq!(
        commande_abonnement("mes_notifications", &contenus),
        "LISTEN \"mes_notifications\"; NOTIFY \"mes_notifications\", 'ma_premiere_notification'; NOTIFY \"mes_notifications\", 'ma_seconde_notification';"
    );
    assert_eq!(commande_abonnement("c", &Vec::new()), "LISTEN \"c\";");
}

#[test]
fn identite_du_serveur() {
    assert_eq!(
        identite_serveur("PostgreSQL 14.2", "demo"),
        "PostgreSQL 14.2. Base de données : 'demo'"
    );
    assert_eq!(identite_serveur("", ""), ". Base de données : ''");
}

#[test]
fn configuration_par_defaut() {
    let c = ConfigurationBdd::par_defaut("ecoute".to_string());
    assert_eq!(c.adresse, "localhost");
    assert_eq!(c.port, 5432);
    assert_eq!(c.utilisateur, "postgres");
    assert_eq!(c.mot_de_passe.as_deref(), Some("******"));
    assert_eq!(c.base_de_donnees, "postgres");
    assert_eq!(c.application, "ecoute");
    assert_eq!(c.certificat_serveur, "./certificats/serveur.crt");
    assert_eq!(c.certificat_client.as_deref(), Some("./certificats/client.pfx"));
    assert_eq!(c.certificat_client_clef, None);
    assert_eq!(
        c.identite_client(),
        IdentiteClient::Pkcs12 {
            archive: "./certificats/client.pfx".to_string(),
            mot_de_passe: "******".to_string(),
        }
    );
}

#[test]
fn identite_client_selon_la_configuration() {
    let mut c = ConfigurationBdd::par_defaut("ecoute".to_string());
    c.certificat_client = Some("client.crt".to_string());
    c.certificat_client_clef = Some("client.key".to_string());
    assert_eq!(
        c.identite_client(),
        IdentiteClient::Pkcs8 { certificat: "client.crt".to_string(), clef: "client.key".to_string() }
    );
    c.certificat_client_clef = None;
    c.mot_de_passe_certificat_client = None;
    assert_eq!(
        c.identite_client(),
        IdentiteClient::Pkcs12 { archive: "client.crt".to_string(), mot_de_passe: String::new() }
    );
    c.certificat_client = None;
    assert_eq!(c.identite_client(), IdentiteClient::Aucune);
}

#[test]
fn erreur_de_lecture() {
    let e = ErreurLectureNotifications::nouvelle("erreur".to_string());
    assert_eq!(e.description(), "erreur");
    assert_eq!(e.message(), "erreur");
}
