use vstd::prelude::*;

verus! {

/// The error that ends the reading of notifications.
#[derive(Clone, Debug)]
pub struct ErreurLectureNotifications {
    details: String,
}

impl View for ErreurLectureNotifications {
    type V = Seq<char>;

    closed spec fn view(&self) -> Seq<char> {
        self.details@
    }
}

impl ErreurLectureNotifications {
    pub fn nouvelle(details: String) -> (r: ErreurLectureNotifications)
        ensures
            r@ == details@,
    {
        ErreurLectureNotifications { details }
    }

    /// The details of the error.
    pub fn description(&self) -> (r: &str)
        ensures
            r@ == self@,
    {
        self.details.as_str()
    }

    /// The text that the error displays.
    pub fn message(&self) -> (r: String)
        ensures
            r@ == self@,
    {
        self.details.clone()
    }
}

} // verus!
