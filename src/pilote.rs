use vstd::prelude::*;

use crate::evenement::{Element, Lecture};

verus! {

/// What the connection driver does with one poll of the raw event source.
#[derive(Clone, Debug, PartialEq, Eq)]
pub enum ActionPilote {
    /// Send the item on the hand-off channel and poll again.
    Transmettre(Element),
    /// Send the item on the hand-off channel, then stop.
    TransmettreEtTerminer(Element),
    /// Stop without sending anything: the source is exhausted.
    Terminer,
}

/// The driver forwards every event unmodified, forwards a protocol error as
/// the last item, and stops when the source ends.
pub open spec fn action_pilote(lecture: Lecture) -> ActionPilote {
    match lecture {
        Lecture::Evenement(e) => ActionPilote::Transmettre(Element::Evenement(e)),
        Lecture::ErreurProtocole(m) => ActionPilote::TransmettreEtTerminer(
            Element::ErreurProtocole(m),
        ),
        Lecture::Fin => ActionPilote::Terminer,
    }
}

/// The items that the driver sends, in order, for the successive polls of a
/// source, when the hand-off channel accepts each of them.
pub open spec fn elements_transmis(lectures: Seq<Lecture>) -> Seq<Element>
    decreases lectures.len(),
{
    if lectures.len() == 0 {
        seq![]
    } else {
        match action_pilote(lectures[0]) {
            ActionPilote::Transmettre(e) => seq![e] + elements_transmis(lectures.drop_first()),
            ActionPilote::TransmettreEtTerminer(e) => seq![e],
            ActionPilote::Terminer => seq![],
        }
    }
}

/// Decides what the driver does with what it has just read from the source.
pub fn decision_pilote(lecture: Lecture) -> (r: ActionPilote)
    ensures
        r == action_pilote(lecture),
{
    match lecture {
        Lecture::Evenement(e) => ActionPilote::Transmettre(Element::Evenement(e)),
        Lecture::ErreurProtocole(m) => ActionPilote::TransmettreEtTerminer(
            Element::ErreurProtocole(m),
        ),
        Lecture::Fin => ActionPilote::Terminer,
    }
}

} // verus!
