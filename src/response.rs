use vstd::prelude::*;

verus! {

/// What a foreign call hands back through its callback.
#[derive(Debug, Clone, PartialEq, Eq)]
pub enum LibwakuResponse {
    Success(Option<String>),
    Failure(String),
    /// The engine returned without ever invoking the callback.
    MissingCallback,
}

/// The errors the node operations report.
#[derive(Debug, Clone, PartialEq, Eq)]
pub enum WakuError {
    /// A relay operation was asked of a node configured without relay.
    RelayDisabled,
    /// The engine reported a failure; its message is kept verbatim.
    Engine(String),
    /// The engine returned without invoking the callback.
    MissingCallback,
    /// A payload could not be read as the expected value.
    Decode(String),
}

/// The text a failure event carries for an error.
pub open spec fn error_text(e: WakuError) -> Seq<char> {
    match e {
        WakuError::RelayDisabled => RELAY_DISABLED@,
        WakuError::Engine(m) => m@,
        WakuError::MissingCallback => MISSING_CALLBACK@,
        WakuError::Decode(m) => m@,
    }
}

pub const RELAY_DISABLED: &'static str =
    "Relay is disabled. Restart the waku node with Relay enabled to use this function.";

pub const MISSING_CALLBACK: &'static str = "callback is required";

impl WakuError {
    /// The error as a message.
    pub fn message(&self) -> (r: String)
        ensures
            r@ == error_text(*self),
    {
        match self {
            WakuError::RelayDisabled => String::from_str(RELAY_DISABLED),
            WakuError::Engine(m) => m.clone(),
            WakuError::MissingCallback => String::from_str(MISSING_CALLBACK),
            WakuError::Decode(m) => m.clone(),
        }
    }
}

/// The payload text of a success: an absent payload reads as empty.
pub open spec fn payload_text(p: Option<String>) -> Seq<char> {
    match p {
        Some(s) => s@,
        None => Seq::empty(),
    }
}

/// The outcome of a call that returns no value.
pub fn handle_no_response(r: LibwakuResponse) -> (out: Result<(), WakuError>)
    ensures
        match r {
            LibwakuResponse::Success(_) => out == Ok::<(), WakuError>(()),
            LibwakuResponse::Failure(m) => out == Err::<(), WakuError>(WakuError::Engine(m)),
            LibwakuResponse::MissingCallback => out == Err::<(), WakuError>(
                WakuError::MissingCallback,
            ),
        },
{
    match r {
        LibwakuResponse::Success(_) => Ok(()),
        LibwakuResponse::Failure(m) => Err(WakuError::Engine(m)),
        LibwakuResponse::MissingCallback => Err(WakuError::MissingCallback),
    }
}

/// The outcome of a call that returns text, as a sequence of characters.
pub open spec fn text_outcome(r: LibwakuResponse) -> Result<Seq<char>, WakuError> {
    match r {
        LibwakuResponse::Success(p) => Ok(payload_text(p)),
        LibwakuResponse::Failure(m) => Err(WakuError::Engine(m)),
        LibwakuResponse::MissingCallback => Err(WakuError::MissingCallback),
    }
}

/// The outcome of a call that returns text.
pub fn handle_response(r: LibwakuResponse) -> (out: Result<String, WakuError>)
    ensures
        match text_outcome(r) {
            Ok(t) => out.is_ok() && out.unwrap()@ == t,
            Err(e) => out == Err::<String, WakuError>(e),
        },
{
    match r {
        LibwakuResponse::Success(p) => match p {
            Some(s) => Ok(s),
            None => Ok(String::new()),
        },
        LibwakuResponse::Failure(m) => Err(WakuError::Engine(m)),
        LibwakuResponse::MissingCallback => Err(WakuError::MissingCallback),
    }
}

/// What a bridged call reads from its cell once the engine is done with it.
pub open spec fn cell_outcome(slot: Option<LibwakuResponse>) -> LibwakuResponse {
    match slot {
        Some(x) => x,
        None => LibwakuResponse::MissingCallback,
    }
}

/// The response a fresh cell holds after the callback ran with each of `calls`.
pub open spec fn after_callbacks(calls: Seq<LibwakuResponse>) -> Option<LibwakuResponse> {
    if calls.len() == 0 {
        None
    } else {
        Some(calls[0])
    }
}

/// A bridged call whose callback ran once with a success yields its payload,
/// once with a failure yields that failure's message, and not at all yields
/// the missing-callback error; further runs of the callback change nothing.
pub proof fn bridged_call_outcome(payload: Option<String>, message: String, later: Seq<LibwakuResponse>)
    ensures
        text_outcome(cell_outcome(after_callbacks(seq![LibwakuResponse::Success(payload)] + later)))
            == Ok::<Seq<char>, WakuError>(payload_text(payload)),
        text_outcome(cell_outcome(after_callbacks(seq![LibwakuResponse::Failure(message)] + later)))
            == Err::<Seq<char>, WakuError>(WakuError::Engine(message)),
        text_outcome(cell_outcome(after_callbacks(Seq::empty()))) == Err::<Seq<char>, WakuError>(
            WakuError::MissingCallback,
        ),
{
}

/// The single-use cell a bridged call completes: the first response is kept,
/// later ones are ignored.
pub struct ResponseCell {
    slot: Option<LibwakuResponse>,
    deliveries: Ghost<Seq<LibwakuResponse>>,
}

impl View for ResponseCell {
    type V = Option<LibwakuResponse>;

    closed spec fn view(&self) -> Option<LibwakuResponse> {
        self.slot
    }
}

impl ResponseCell {
    /// Every response delivered to the cell, in order.
    pub closed spec fn deliveries(&self) -> Seq<LibwakuResponse> {
        self.deliveries@
    }

    /// The cell holds the first of the responses delivered to it.
    pub closed spec fn wf(&self) -> bool {
        self.slot == after_callbacks(self.deliveries@)
    }

    pub fn new() -> (r: ResponseCell)
        ensures
            r.wf(),
            r.deliveries() == Seq::<LibwakuResponse>::empty(),
            r@ == None::<LibwakuResponse>,
    {
        ResponseCell { slot: None, deliveries: Ghost(Seq::empty()) }
    }

    /// Whether a response has arrived.
    pub fn is_complete(&self) -> (r: bool)
        ensures
            r == self@.is_some(),
    {
        self.slot.is_some()
    }

    /// Records a response unless one is already there; says whether it was kept.
    pub fn complete(&mut self, r: LibwakuResponse) -> (kept: bool)
        requires
            old(self).wf(),
        ensures
            final(self).wf(),
            final(self).deliveries() == old(self).deliveries().push(r),
            kept == old(self)@.is_none(),
            final(self)@ == if kept { Some(r) } else { old(self)@ },
    {
        let ghost before = self.deliveries@;
        proof {
            assert(before.push(r)[0] == if before.len() == 0 { r } else { before[0] });
        }
        self.deliveries = Ghost(before.push(r));
        if self.slot.is_none() {
            self.slot = Some(r);
            true
        } else {
            false
        }
    }

    /// The response the cell holds; an empty cell means the callback never ran.
    pub fn outcome(self) -> (r: LibwakuResponse)
        requires
            self.wf(),
        ensures
            r == cell_outcome(self@),
            r == cell_outcome(after_callbacks(self.deliveries())),
    {
        match self.slot {
            Some(x) => x,
            None => LibwakuResponse::MissingCallback,
        }
    }
}

/// The event that the event feed carries when registering its callback failed.
pub fn registration_event(registered: Result<(), WakuError>) -> (r: Option<LibwakuResponse>)
    ensures
        match registered {
            Ok(_) => r.is_none(),
            Err(e) => r.is_some() && (match r.unwrap() {
                LibwakuResponse::Failure(m) => m@ == error_text(e),
                _ => false,
            }),
        },
{
    match registered {
        Ok(_) => None,
        Err(e) => Some(LibwakuResponse::Failure(e.message())),
    }
}

} // verus!
