use ecoute_notifications::consommateur::{Consommateur, IssueVidage, Reception};
use ecoute_notifications::evenement::{Element, EvenementBrut, Lecture, Notification};
use ecoute_notifications::pilote::{decision_pilote, ActionPilote};
use ecoute_notifications::sonde::identite_serveur;
use ecoute_notifications::superviseur::{
    choisir_pause, Action, EvenementSuperviseur, Pause, Phase, Superviseur,
};

fn reprise(operationnel: bool) -> EvenementSuperviseur {
    EvenementSuperviseur::Reprise { operationnel }
}

#[test]
fn abonnement_en_echec_sonde_reussie_delai_court() {
    let mut s = Superviseur::nouveau();
    assert_eq!(s.traiter(reprise(true)), Action::Connecter);
    assert_eq!(s.traiter(EvenementSuperviseur::ConnexionReussie), Action::Abonner);
    assert_eq!(
        s.traiter(EvenementSuperviseur::AbonnementTermine { reussi: false }),
        Action::SonderEtVider
    );
    assert_eq!(
        s.traiter(EvenementSuperviseur::VidageTermine {
            sonde_reussie: true,
            issue: IssueVidage::CanalFerme,
        }),
        Action::AttendrePilote
    );
    assert_eq!(s.traiter(EvenementSuperviseur::PiloteTermine), Action::Patienter(Pause::Courte));
    assert_eq!(s.phase, Phase::EnPause);
    assert_eq!(Pause::Courte.secondes(), 30);
}

#[test]
fn abonnement_et_sonde_en_echec_delai_long() {
    assert_eq!(choisir_pause(false, false, IssueVidage::Normale), Pause::Longue);
    assert_eq!(choisir_pause(true, false, IssueVidage::Echec), Pause::Courte);
    assert_eq!(choisir_pause(true, true, IssueVidage::Normale), Pause::Courte);
    assert_eq!(choisir_pause(true, true, IssueVidage::Echec), Pause::Longue);
    assert_eq!(Pause::Longue.secondes(), 60);
}

#[test]
fn scenario_complet_canal_ferme() {
    let mut s = Superviseur::nouveau();
    assert_eq!(s.traiter(reprise(true)), Action::Connecter);
    assert_eq!(s.traiter(EvenementSuperviseur::ConnexionReussie), Action::Abonner);
    assert_eq!(
        s.traiter(EvenementSuperviseur::AbonnementTermine { reussi: true }),
        Action::SonderEtVider
    );

    let ns: Vec<Notification> = (1..=3)
        .map(|i| Notification::nouvelle("c".to_string(), format!("n{}", i), 40 + i))
        .collect();
    let mut lectures: Vec<Lecture> = ns
        .iter()
        .map(|n| Lecture::Evenement(EvenementBrut::Notification(n.clone())))
        .collect();
    lectures.push(Lecture::Fin);
    let mut canal: Vec<Element> = Vec::new();
    for lecture in lectures {
        match decision_pilote(lecture) {
            ActionPilote::Transmettre(e) => canal.push(e),
            ActionPilote::TransmettreEtTerminer(e) => {
                canal.push(e);
                break;
            }
            ActionPilote::Terminer => break,
        }
    }
    let mut c = Consommateur::nouveau();
    let mut elements = canal.into_iter();
    while c.poursuivre(true) {
        match elements.next() {
            Some(e) => c.recevoir(Reception::Element(e)),
            None => c.recevoir(Reception::CanalFerme),
        }
    }
    let identite = identite_serveur("PostgreSQL 14.2", "demo");
    assert_eq!(identite, "PostgreSQL 14.2. Base de données : 'demo'");
    assert_eq!(c.tampon(), &ns);
    let issue = c.issue().unwrap();
    assert_eq!(issue, IssueVidage::CanalFerme);

    assert_eq!(
        s.traiter(EvenementSuperviseur::VidageTermine { sonde_reussie: true, issue }),
        Action::AttendrePilote
    );
    assert_eq!(s.traiter(EvenementSuperviseur::PiloteTermine), Action::Patienter(Pause::Longue));
    assert_eq!(s.traiter(reprise(true)), Action::Connecter);
}

#[test]
fn deux_echecs_de_connexion_puis_succes() {
    let mut s = Superviseur::nouveau();
    let mut pauses_longues = 0;
    let mut echecs_restants = 2;
    let mut action = s.traiter(reprise(true));
    loop {
        match action {
            Action::Connecter => {
                if echecs_restants > 0 {
                    echecs_restants -= 1;
                    action = s.traiter(EvenementSuperviseur::ConnexionEchouee);
                } else {
                    action = s.traiter(EvenementSuperviseur::ConnexionReussie);
                }
            }
            Action::Patienter(Pause::Longue) => {
                pauses_longues += 1;
                action = s.traiter(reprise(true));
            }
            Action::Abonner => break,
            autre => panic!("action inattendue : {:?}", autre),
        }
    }
    assert_eq!(pauses_longues, 2);
    assert_eq!(s.phase, Phase::Abonnement);
}

#[test]
fn arret_entre_deux_iterations() {
    let mut s = Superviseur::nouveau();
    assert_eq!(s.traiter(reprise(false)), Action::Arreter);
    assert_eq!(s.phase, Phase::Arrete);
    assert_eq!(s.traiter(reprise(true)), Action::Arreter);
    assert_eq!(s.traiter(EvenementSuperviseur::ConnexionReussie), Action::Arreter);
}

#[test]
fn arret_vu_par_le_consommateur() {
    let mut s = Superviseur::nouveau();
    s.traiter(reprise(true));
    s.traiter(EvenementSuperviseur::ConnexionReussie);
    s.traiter(EvenementSuperviseur::AbonnementTermine { reussi: true });
    assert_eq!(
        s.traiter(EvenementSuperviseur::VidageTermine {
            sonde_reussie: true,
            issue: IssueVidage::Arret,
        }),
        Action::AttendrePilote
    );
    assert_eq!(s.traiter(EvenementSuperviseur::PiloteTermine), Action::Arreter);
    assert_eq!(s.phase, Phase::Arrete);
}

#[test]
fn evenement_inattendu_repete_l_action() {
    let mut s = Superviseur::nouveau();
    assert_eq!(s.traiter(EvenementSuperviseur::PiloteTermine), Action::Reprendre);
    assert_eq!(s.traiter(reprise(true)), Action::Connecter);
    assert_eq!(
        s.traiter(EvenementSuperviseur::AbonnementTermine { reussi: true }),
        Action::Connecter
    );
    assert_eq!(s.phase, Phase::Connexion);
    assert_eq!(s.traiter(EvenementSuperviseur::ConnexionEchouee), Action::Patienter(Pause::Longue));
    assert_eq!(s.traiter(EvenementSuperviseur::ConnexionReussie), Action::Patienter(Pause::Longue));
}
