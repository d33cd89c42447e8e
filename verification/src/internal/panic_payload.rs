use vstd::prelude::*;

verus! {

/// The payload of a caught panic, with the message it carries.
///
/// The payload is kept as it was caught, to be handed back to whoever wants
/// to resume the panic. The message is read from it when it is caught: a
/// panic payload is almost always a `String` (a panic with formatting
/// arguments) or a `&'static str` (a panic with a literal); any other
/// payload has no message.
pub struct PanicPayload<B> {
    repr: B,
    msg: Option<String>,
}

impl<B> PanicPayload<B> {
    /// The payload as it was caught.
    pub closed spec fn payload(&self) -> B {
        self.repr
    }

    /// The panic message, if the payload carried one.
    pub closed spec fn message(&self) -> Option<Seq<char>> {
        match self.msg {
            Some(m) => Some(m@),
            None => None,
        }
    }

    pub fn new(panic_payload: B, msg: Option<String>) -> (p: Self)
        ensures
            p.payload() == panic_payload,
            p.message() == (match msg {
                Some(m) => Some(m@),
                None => None::<Seq<char>>,
            }),
    {
        PanicPayload { repr: panic_payload, msg }
    }

    /// The panic message, if the payload carried one.
    pub fn as_str(&self) -> (r: Option<&str>)
        ensures
            r is Some == self.message() is Some,
            r is Some ==> r->Some_0@ == self.message()->Some_0,
    {
        match &self.msg {
            Some(m) => Some(m.as_str()),
            None => None,
        }
    }

    /// The payload as it was caught, for resuming the panic.
    pub fn into_inner(self) -> (b: B)
        ensures
            b == self.payload(),
    {
        self.repr
    }
}

} // verus!
