use vstd::prelude::*;

verus! {

/// A notification that the server pushed on a channel the session listens to.
#[derive(Clone, Debug, PartialEq, Eq)]
pub struct Notification {
    pub canal: String,
    pub contenu: String,
    pub id_emetteur: i32,
}

/// An asynchronous event of the server's protocol.
#[derive(Clone, Debug, PartialEq, Eq)]
pub enum EvenementBrut {
    Notification(Notification),
    Avis,
    Autre,
}

/// What one poll of the raw event source gives.
#[derive(Clone, Debug, PartialEq, Eq)]
pub enum Lecture {
    Evenement(EvenementBrut),
    ErreurProtocole(String),
    Fin,
}

/// An item of the hand-off channel between the driver and the consumer.
#[derive(Clone, Debug, PartialEq, Eq)]
pub enum Element {
    Evenement(EvenementBrut),
    ErreurProtocole(String),
}

impl Notification {
    pub fn nouvelle(canal: String, contenu: String, id_emetteur: i32) -> (r: Notification)
        ensures
            r.canal == canal,
            r.contenu == contenu,
            r.id_emetteur == id_emetteur,
    {
        Notification { canal, contenu, id_emetteur }
    }
}

} // verus!
