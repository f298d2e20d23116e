use vstd::prelude::*;

use crate::message::Message;

verus! {

/// A directive handed back to the hosting framework by a shell callback,
/// telling it what side effect to perform next.
///
/// In this application no callback ever schedules deferred work, so the only
/// directive is `NoWork`.
#[derive(Clone, Copy, Debug, PartialEq, Eq, Structural)]
pub enum Effect {
    NoWork,
}

/// The application state: an empty record with no fields and no invariants.
#[derive(Clone, Copy, Debug, PartialEq, Eq, Structural)]
pub struct Levent {}

impl Levent {
    /// Initialization: given no configuration input, produce the empty state
    /// and issue no background work.
    pub fn new(_flags: ()) -> (r: (Levent, Effect))
        ensures
            r.0 == (Levent {}),
            r.1 == Effect::NoWork,
    {
        (Levent {}, Effect::NoWork)
    }

    /// The window title: always exactly the string `levent`.
    pub fn title(&self) -> (r: String)
        ensures
            r@ == "levent"@,
    {
        String::from_str("levent")
    }

    /// The update step: given an event, hand back a directive and leave the
    /// state as it was.
    ///
    /// `Message` is uninhabited, so no caller can ever construct an argument
    /// for this function: the one match arm can never run.
    pub fn update(&mut self, message: Message) -> (r: Effect)
        ensures
            *final(self) == *old(self),
            r == Effect::NoWork,
    {
        match message {
            Message::Never(_) => Effect::NoWork,
        }
    }

    /// The rendered view: a single static text node, always exactly the
    /// string `aaaa`, whatever the state holds.
    pub fn view(&self) -> (r: String)
        ensures
            r@ == "aaaa"@,
    {
        String::from_str("aaaa")
    }
}

} // verus!
