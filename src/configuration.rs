use vstd::prelude::*;

verus! {

/// How to reach the database and which TLS material to present.
#[derive(Clone, Debug)]
pub struct ConfigurationBdd {
    pub adresse: String,
    pub port: u16,
    pub utilisateur: String,
    pub mot_de_passe: Option<String>,
    pub base_de_donnees: String,
    pub application: String,
    /// Path of the certificate of the authority that signed the server's.
    pub certificat_serveur: String,
    /// Path of the client certificate, or of the PKCS#12 archive when no key
    /// path is given.
    pub certificat_client: Option<String>,
    /// Path of the PKCS#8 private key of the client certificate.
    pub certificat_client_clef: Option<String>,
    /// Passphrase of the PKCS#12 archive.
    pub mot_de_passe_certificat_client: Option<String>,
}

/// The client identity to present during the TLS handshake, as paths and
/// passphrase to load.
#[derive(Clone, Debug, PartialEq, Eq)]
pub enum IdentiteClient {
    Aucune,
    Pkcs8 { certificat: String, clef: String },
    Pkcs12 { archive: String, mot_de_passe: String },
}

pub open spec fn option_vue(o: Option<String>) -> Option<Seq<char>> {
    match o {
        Some(s) => Some(s@),
        None => None,
    }
}

/// The identity that a configuration asks for: none without a client
/// certificate; a certificate and its key when a key path is given; else a
/// PKCS#12 archive, whose passphrase is empty when none is given.
pub open spec fn identite_attendue(c: ConfigurationBdd, r: IdentiteClient) -> bool {
    match c.certificat_client {
        None => r == IdentiteClient::Aucune,
        Some(cert) => match c.certificat_client_clef {
            Some(k) => match r {
                IdentiteClient::Pkcs8 { certificat, clef } => certificat@ == cert@ && clef@ == k@,
                _ => false,
            },
            None => match r {
                IdentiteClient::Pkcs12 { archive, mot_de_passe } => {
                    &&& archive@ == cert@
                    &&& mot_de_passe@ == match c.mot_de_passe_certificat_client {
                        Some(p) => p@,
                        None => Seq::<char>::empty(),
                    }
                },
                _ => false,
            },
        },
    }
}

impl ConfigurationBdd {
    /// The example configuration, for the program of the given name.
    pub fn par_defaut(application: String) -> (r: ConfigurationBdd)
        ensures
            r.adresse@ == "localhost"@,
            r.port == 5432,
            r.utilisateur@ == "postgres"@,
            option_vue(r.mot_de_passe) == Some("******"@),
            r.base_de_donnees@ == "postgres"@,
            r.application@ == application@,
            r.certificat_serveur@ == "./certificats/serveur.crt"@,
            option_vue(r.certificat_client) == Some("./certificats/client.pfx"@),
            r.certificat_client_clef is None,
            option_vue(r.mot_de_passe_certificat_client) == Some("******"@),
    {
        ConfigurationBdd {
            adresse: String::from_str("localhost"),
            port: 5432,
            utilisateur: String::from_str("postgres"),
            mot_de_passe: Some(String::from_str("******")),
            base_de_donnees: String::from_str("postgres"),
            application,
            certificat_serveur: String::from_str("./certificats/serveur.crt"),
            certificat_client: Some(String::from_str("./certificats/client.pfx")),
            certificat_client_clef: None,
            mot_de_passe_certificat_client: Some(String::from_str("******")),
        }
    }

    /// The client identity that this configuration asks for.
    pub fn identite_client(&self) -> (r: IdentiteClient)
        ensures
            identite_attendue(*self, r),
    {
        match &self.certificat_client {
            None => IdentiteClient::Aucune,
            Some(cert) => match &self.certificat_client_clef {
                Some(k) => IdentiteClient::Pkcs8 { certificat: cert.clone(), clef: k.clone() },
                None => {
                    let mot_de_passe = match &self.mot_de_passe_certificat_client {
                        Some(p) => p.clone(),
                        None => String::new(),
                    };
                    IdentiteClient::Pkcs12 { archive: cert.clone(), mot_de_passe }
                },
            },
        }
    }
}

} // verus!
