use vstd::prelude::*;

use crate::consommateur::IssueVidage;

verus! {

/// Seconds of the inter-iteration delay that follows a promising iteration.
pub const DELAI_COURT_SECONDES: u64 = 30;

/// Seconds of the backoff that follows a failed iteration.
pub const DELAI_LONG_SECONDES: u64 = 60;

/// Seconds of one bounded wait of the consumer on the hand-off channel.
pub const ATTENTE_RECEPTION_SECONDES: u64 = 5;

/// Seconds granted to the driver to report its completion at teardown.
pub const ATTENTE_PILOTE_SECONDES: u64 = 30;

/// The delay that separates two iterations of the supervisor.
#[derive(Clone, Copy, Debug, PartialEq, Eq, Structural)]
pub enum Pause {
    /// The short inter-iteration delay.
    Courte,
    /// The long backoff after a failure.
    Longue,
}

pub open spec fn duree_pause(p: Pause) -> u64 {
    match p {
        Pause::Courte => DELAI_COURT_SECONDES,
        Pause::Longue => DELAI_LONG_SECONDES,
    }
}

impl Pause {
    /// The length of the delay, in seconds.
    pub fn secondes(&self) -> (r: u64)
        ensures
            r == duree_pause(*self),
    {
        match self {
            Pause::Courte => DELAI_COURT_SECONDES,
            Pause::Longue => DELAI_LONG_SECONDES,
        }
    }
}

/// Where the supervisor stands in the life of the current session.
#[derive(Clone, Copy, Debug, PartialEq, Eq, Structural)]
pub enum Phase {
    /// No session yet; waiting for the first reading of the shutdown flag.
    Deconnecte,
    /// Waiting for the connection factory.
    Connexion,
    /// The driver runs; waiting for the subscribe command.
    Abonnement,
    /// Waiting for the health probe and the consumer.
    Vidage,
    /// Waiting for the driver to report its completion.
    FinPilote,
    /// The session is gone; waiting for the delay to pass.
    EnPause,
    /// The shutdown flag was seen: nothing more is done.
    Arrete,
}

/// What the supervisor asks of the code that runs it.
#[derive(Clone, Copy, Debug, PartialEq, Eq, Structural)]
pub enum Action {
    /// Read the shutdown flag and report it.
    Reprendre,
    /// Call the connection factory.
    Connecter,
    /// Spawn the driver over the new session, then issue the subscribe command.
    Abonner,
    /// Run the health probe and the consumer.
    SonderEtVider,
    /// Wait, bounded, for the driver's completion and drop the session.
    AttendrePilote,
    /// Sleep for the delay, then read the shutdown flag and report it.
    Patienter(Pause),
    /// Stop.
    Arreter,
}

/// What the code that runs the supervisor reports back.
#[derive(Clone, Copy, Debug, PartialEq, Eq, Structural)]
pub enum EvenementSuperviseur {
    Reprise { operationnel: bool },
    ConnexionReussie,
    ConnexionEchouee,
    AbonnementTermine { reussi: bool },
    VidageTermine { sonde_reussie: bool, issue: IssueVidage },
    PiloteTermine,
}

/// The state of the connection supervisor.
#[derive(Clone, Copy, Debug, PartialEq, Eq, Structural)]
pub struct Superviseur {
    pub phase: Phase,
    /// Whether the subscribe command of the current iteration succeeded.
    pub abonnement_reussi: bool,
    /// The delay chosen for the end of the current iteration.
    pub pause: Pause,
    /// Whether the consumer of the current iteration saw the shutdown flag.
    pub arret: bool,
}

/// The delay after an iteration whose session was opened. A subscribe failure
/// together with a probe failure counts as a connection failure; one of them
/// alone leaves a promising session and the short delay. With both
/// successful, a drain ended by an error or by the loss of the channel calls
/// for the long backoff.
pub open spec fn pause_apres(abonnement_reussi: bool, sonde_reussie: bool, issue: IssueVidage) -> Pause {
    if abonnement_reussi != sonde_reussie {
        Pause::Courte
    } else if !abonnement_reussi {
        Pause::Longue
    } else {
        match issue {
            IssueVidage::Echec | IssueVidage::CanalFerme => Pause::Longue,
            IssueVidage::Normale | IssueVidage::Arret => Pause::Courte,
        }
    }
}

/// The action that a phase waits on; repeated when an event comes that the
/// phase does not expect.
pub open spec fn action_attendue(s: Superviseur) -> Action {
    match s.phase {
        Phase::Deconnecte => Action::Reprendre,
        Phase::Connexion => Action::Connecter,
        Phase::Abonnement => Action::Abonner,
        Phase::Vidage => Action::SonderEtVider,
        Phase::FinPilote => Action::AttendrePilote,
        Phase::EnPause => Action::Patienter(s.pause),
        Phase::Arrete => Action::Arreter,
    }
}

/// One step of the supervisor: its next state and the action it asks for.
pub open spec fn transition(s: Superviseur, ev: EvenementSuperviseur) -> (Superviseur, Action) {
    match ev {
        EvenementSuperviseur::Reprise { operationnel } => {
            if s.phase == Phase::Deconnecte || s.phase == Phase::EnPause {
                if operationnel {
                    (
                        Superviseur { phase: Phase::Connexion, abonnement_reussi: false, arret: false, ..s },
                        Action::Connecter,
                    )
                } else {
                    (Superviseur { phase: Phase::Arrete, ..s }, Action::Arreter)
                }
            } else {
                (s, action_attendue(s))
            }
        },
        EvenementSuperviseur::ConnexionReussie => {
            if s.phase == Phase::Connexion {
                (Superviseur { phase: Phase::Abonnement, ..s }, Action::Abonner)
            } else {
                (s, action_attendue(s))
            }
        },
        EvenementSuperviseur::ConnexionEchouee => {
            if s.phase == Phase::Connexion {
                (
                    Superviseur { phase: Phase::EnPause, pause: Pause::Longue, ..s },
                    Action::Patienter(Pause::Longue),
                )
            } else {
                (s, action_attendue(s))
            }
        },
        EvenementSuperviseur::AbonnementTermine { reussi } => {
            if s.phase == Phase::Abonnement {
                (
                    Superviseur { phase: Phase::Vidage, abonnement_reussi: reussi, ..s },
                    Action::SonderEtVider,
                )
            } else {
                (s, action_attendue(s))
            }
        },
        EvenementSuperviseur::VidageTermine { sonde_reussie, issue } => {
            if s.phase == Phase::Vidage {
                (
                    Superviseur {
                        phase: Phase::FinPilote,
                        pause: pause_apres(s.abonnement_reussi, sonde_reussie, issue),
                        arret: issue == IssueVidage::Arret,
                        ..s
                    },
                    Action::AttendrePilote,
                )
            } else {
                (s, action_attendue(s))
            }
        },
        EvenementSuperviseur::PiloteTermine => {
            if s.phase == Phase::FinPilote {
                if s.arret {
                    (Superviseur { phase: Phase::Arrete, ..s }, Action::Arreter)
                } else {
                    (Superviseur { phase: Phase::EnPause, ..s }, Action::Patienter(s.pause))
                }
            } else {
                (s, action_attendue(s))
            }
        },
    }
}

/// A subscribe failure beside a working health probe ends the iteration on
/// the short delay, not on the long backoff, whatever earlier iterations did
/// and however the drain ended short of a shutdown.
pub proof fn loi_abonnement_seul_en_echec(s: Superviseur, issue: IssueVidage)
    requires
        s.phase == Phase::Deconnecte || s.phase == Phase::EnPause,
        issue != IssueVidage::Arret,
    ensures
        ({
            let (s1, a1) = transition(s, EvenementSuperviseur::Reprise { operationnel: true });
            let (s2, a2) = transition(s1, EvenementSuperviseur::ConnexionReussie);
            let (s3, a3) = transition(s2, EvenementSuperviseur::AbonnementTermine { reussi: false });
            let (s4, a4) = transition(
                s3,
                EvenementSuperviseur::VidageTermine { sonde_reussie: true, issue },
            );
            let (s5, a5) = transition(s4, EvenementSuperviseur::PiloteTermine);
            &&& a1 == Action::Connecter
            &&& a2 == Action::Abonner
            &&& a3 == Action::SonderEtVider
            &&& a4 == Action::AttendrePilote
            &&& a5 == Action::Patienter(Pause::Courte)
            &&& s5.phase == Phase::EnPause
        }),
{
}

/// Once the supervisor has seen the shutdown flag it stays stopped: every
/// later event leaves it as it is and asks it to stop.
pub proof fn loi_arret_definitif(s: Superviseur, ev: EvenementSuperviseur)
    requires
        s.phase == Phase::Arrete,
    ensures
        transition(s, ev) == (s, Action::Arreter),
{
}

/// A shutdown flag read at the boundary of an iteration stops the supervisor
/// before any new connection is attempted.
pub proof fn loi_arret_entre_iterations(s: Superviseur)
    requires
        s.phase == Phase::Deconnecte || s.phase == Phase::EnPause,
    ensures
        transition(s, EvenementSuperviseur::Reprise { operationnel: false }).1 == Action::Arreter,
        transition(s, EvenementSuperviseur::Reprise { operationnel: false }).0.phase == Phase::Arrete,
{
}

impl Superviseur {
    /// A supervisor before its first iteration.
    pub fn nouveau() -> (r: Superviseur)
        ensures
            r.phase == Phase::Deconnecte,
            !r.abonnement_reussi,
            !r.arret,
    {
        Superviseur {
            phase: Phase::Deconnecte,
            abonnement_reussi: false,
            pause: Pause::Courte,
            arret: false,
        }
    }

    fn attendue(&self) -> (r: Action)
        ensures
            r == action_attendue(*self),
    {
        match self.phase {
            Phase::Deconnecte => Action::Reprendre,
            Phase::Connexion => Action::Connecter,
            Phase::Abonnement => Action::Abonner,
            Phase::Vidage => Action::SonderEtVider,
            Phase::FinPilote => Action::AttendrePilote,
            Phase::EnPause => Action::Patienter(self.pause),
            Phase::Arrete => Action::Arreter,
        }
    }

    /// Takes in what the last action gave and says what to do next.
    pub fn traiter(&mut self, ev: EvenementSuperviseur) -> (r: Action)
        ensures
            (*final(self), r) == transition(*old(self), ev),
    {
        match ev {
            EvenementSuperviseur::Reprise { operationnel } => {
                if self.phase == Phase::Deconnecte || self.phase == Phase::EnPause {
                    if operationnel {
                        self.phase = Phase::Connexion;
                        self.abonnement_reussi = false;
                        self.arret = false;
                        Action::Connecter
                    } else {
                        self.phase = Phase::Arrete;
                        Action::Arreter
                    }
                } else {
                    self.attendue()
                }
            },
            EvenementSuperviseur::ConnexionReussie => {
                if self.phase == Phase::Connexion {
                    self.phase = Phase::Abonnement;
                    Action::Abonner
                } else {
                    self.attendue()
                }
            },
            EvenementSuperviseur::ConnexionEchouee => {
                if self.phase == Phase::Connexion {
                    self.phase = Phase::EnPause;
                    self.pause = Pause::Longue;
                    Action::Patienter(Pause::Longue)
                } else {
                    self.attendue()
                }
            },
            EvenementSuperviseur::AbonnementTermine { reussi } => {
                if self.phase == Phase::Abonnement {
                    self.phase = Phase::Vidage;
                    self.abonnement_reussi = reussi;
                    Action::SonderEtVider
                } else {
                    self.attendue()
                }
            },
            EvenementSuperviseur::VidageTermine { sonde_reussie, issue } => {
                if self.phase == Phase::Vidage {
                    self.phase = Phase::FinPilote;
                    self.pause = choisir_pause(self.abonnement_reussi, sonde_reussie, issue);
                    self.arret = issue == IssueVidage::Arret;
                    Action::AttendrePilote
                } else {
                    self.attendue()
                }
            },
            EvenementSuperviseur::PiloteTermine => {
                if self.phase == Phase::FinPilote {
                    if self.arret {
                        self.phase = Phase::Arrete;
                        Action::Arreter
                    } else {
                        self.phase = Phase::EnPause;
                        Action::Patienter(self.pause)
                    }
                } else {
                    self.attendue()
                }
            },
        }
    }
}

/// Chooses the delay after an iteration whose session was opened.
pub fn choisir_pause(abonnement_reussi: bool, sonde_reussie: bool, issue: IssueVidage) -> (r: Pause)
    ensures
        r == pause_apres(abonnement_reussi, sonde_reussie, issue),
{
    if abonnement_reussi != sonde_reussie {
        Pause::Courte
    } else if !abonnement_reussi {
        Pause::Longue
    } else {
        match issue {
            IssueVidage::Echec | IssueVidage::CanalFerme => Pause::Longue,
            IssueVidage::Normale | IssueVidage::Arret => Pause::Courte,
        }
    }
}

} // verus!
