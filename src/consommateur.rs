use vstd::prelude::*;

use crate::erreur::ErreurLectureNotifications;
use crate::evenement::{Element, EvenementBrut, Notification};

verus! {

/// What one bounded wait on the hand-off channel gives.
#[derive(Clone, Debug, PartialEq, Eq)]
pub enum Reception {
    Element(Element),
    /// The wait ended with nothing received.
    DelaiExpire,
    /// The driver is gone and nothing more will ever arrive.
    CanalFerme,
}

/// How a drain of the hand-off channel ended.
#[derive(Clone, Copy, Debug, PartialEq, Eq, Structural)]
pub enum IssueVidage {
    /// A benign event other than a notification ended the iteration.
    Normale,
    /// The driver forwarded a protocol error.
    Echec,
    /// The channel was closed.
    CanalFerme,
    /// The shutdown flag was seen.
    Arret,
}

/// The consumer's state: the notifications accepted so far, in arrival order,
/// and how the drain ended, once it has.
pub struct EtatVidage {
    pub tampon: Seq<Notification>,
    pub issue: Option<IssueVidage>,
}

/// The effect of one item received while the drain goes on.
pub open spec fn apres_reception(e: EtatVidage, r: Reception) -> EtatVidage {
    match r {
        Reception::Element(Element::Evenement(EvenementBrut::Notification(n))) => EtatVidage {
            tampon: e.tampon.push(n),
            issue: None,
        },
        Reception::Element(Element::Evenement(_)) => EtatVidage {
            tampon: e.tampon,
            issue: Some(IssueVidage::Normale),
        },
        Reception::Element(Element::ErreurProtocole(_)) => EtatVidage {
            tampon: e.tampon,
            issue: Some(IssueVidage::Echec),
        },
        Reception::DelaiExpire => e,
        Reception::CanalFerme => EtatVidage { tampon: e.tampon, issue: Some(IssueVidage::CanalFerme) },
    }
}

/// The effect of reading the shutdown flag at the head of the drain loop.
pub open spec fn apres_controle(e: EtatVidage, operationnel: bool) -> EtatVidage {
    if e.issue is None && !operationnel {
        EtatVidage { tampon: e.tampon, issue: Some(IssueVidage::Arret) }
    } else {
        e
    }
}

/// One turn of the drain loop: read the flag, then, while the drain goes on,
/// wait for one item.
pub open spec fn tour_vidage(e: EtatVidage, operationnel: bool, r: Reception) -> EtatVidage {
    let c = apres_controle(e, operationnel);
    if c.issue is None {
        apres_reception(c, r)
    } else {
        c
    }
}

/// The state after successive turns of the drain loop, each given by the flag
/// read and the item received.
pub open spec fn vidage(e: EtatVidage, tours: Seq<(bool, Reception)>) -> EtatVidage
    decreases tours.len(),
{
    if tours.len() == 0 {
        e
    } else {
        vidage(tour_vidage(e, tours[0].0, tours[0].1), tours.drop_first())
    }
}

/// A shutdown raised while the consumer waits on an empty channel ends the
/// drain at the next check of the flag, after that one bounded wait and
/// whatever the channel would give next: no further item is needed, and the
/// buffer is kept as it was.
pub proof fn loi_arret_pendant_attente(e: EtatVidage, suivante: Reception)
    requires
        e.issue is None,
    ensures
        vidage(e, seq![(true, Reception::DelaiExpire), (false, suivante)]) == (EtatVidage {
            tampon: e.tampon,
            issue: Some(IssueVidage::Arret),
        }),
{
    let tours = seq![(true, Reception::DelaiExpire), (false, suivante)];
    assert(tours.drop_first() =~= seq![(false, suivante)]);
    assert(tours.drop_first().drop_first() =~= Seq::<(bool, Reception)>::empty());
    reveal_with_fuel(vidage, 3);
}

/// The notification consumer: drains the hand-off channel of one iteration.
pub struct Consommateur {
    tampon: Vec<Notification>,
    issue: Option<IssueVidage>,
}

impl View for Consommateur {
    type V = EtatVidage;

    closed spec fn view(&self) -> EtatVidage {
        EtatVidage { tampon: self.tampon@, issue: self.issue }
    }
}

impl Consommateur {
    /// A consumer with an empty buffer, at the start of an iteration.
    pub fn nouveau() -> (r: Consommateur)
        ensures
            r@.tampon == Seq::<Notification>::empty(),
            r@.issue is None,
    {
        Consommateur { tampon: Vec::new(), issue: None }
    }

    /// Reads the shutdown flag at the head of the loop; tells whether to wait
    /// for another item.
    pub fn poursuivre(&mut self, operationnel: bool) -> (r: bool)
        ensures
            final(self)@ == apres_controle(old(self)@, operationnel),
            r == (final(self)@.issue is None),
    {
        if self.issue.is_none() && !operationnel {
            self.issue = Some(IssueVidage::Arret);
        }
        self.issue.is_none()
    }

    /// Classifies what one bounded wait gave.
    pub fn recevoir(&mut self, r: Reception)
        requires
            old(self)@.issue is None,
        ensures
            final(self)@ == apres_reception(old(self)@, r),
    {
        match r {
            Reception::Element(Element::Evenement(EvenementBrut::Notification(n))) => {
                self.tampon.push(n);
            },
            Reception::Element(Element::Evenement(_)) => {
                self.issue = Some(IssueVidage::Normale);
            },
            Reception::Element(Element::ErreurProtocole(_)) => {
                self.issue = Some(IssueVidage::Echec);
            },
            Reception::DelaiExpire => {},
            Reception::CanalFerme => {
                self.issue = Some(IssueVidage::CanalFerme);
            },
        }
    }

    /// How the drain ended, if it has.
    pub fn issue(&self) -> (r: Option<IssueVidage>)
        ensures
            r == self@.issue,
    {
        self.issue
    }

    /// The notifications accepted so far, in arrival order.
    pub fn tampon(&self) -> (r: &Vec<Notification>)
        ensures
            r@ == self@.tampon,
    {
        &self.tampon
    }

    /// The result of the drain as the supervisor reports it: an error exactly
    /// when the driver forwarded a protocol error.
    pub fn resultat(&self) -> (r: Result<(), ErreurLectureNotifications>)
        ensures
            r is Err <==> self@.issue == Some(IssueVidage::Echec),
            r matches Err(e) ==> e@ == "erreur de protocole"@,
    {
        match self.issue {
            Some(IssueVidage::Echec) => Err(
                ErreurLectureNotifications::nouvelle(String::from_str("erreur de protocole")),
            ),
            _ => Ok(()),
        }
    }

    /// Hands the buffer back, whatever the outcome.
    pub fn vers_tampon(self) -> (r: Vec<Notification>)
        ensures
            r@ == self@.tampon,
    {
        self.tampon
    }
}

} // verus!
