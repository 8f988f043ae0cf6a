use vstd::prelude::*;

verus! {

/// Why a session stops abnormally. Every one of these ends the process.
#[derive(Clone, Copy, Debug, PartialEq, Eq, Structural)]
pub enum Fatal {
    /// A record arrived from the broker without a payload.
    MissingPayload,
    /// Reading from the subscription failed.
    ReceiveFailed,
    /// The broker did not accept a published record.
    PublishFailed,
}

/// The text reported for each way a session can fail.
pub open spec fn fatal_message(f: Fatal) -> Seq<char> {
    match f {
        Fatal::MissingPayload => "missing payload"@,
        Fatal::ReceiveFailed => "failed to read message"@,
        Fatal::PublishFailed => "failed to produce"@,
    }
}

impl Fatal {
    /// A human-readable description of the failure.
    pub fn message(&self) -> (r: &'static str)
        ensures
            r@ == fatal_message(*self),
    {
        match self {
            Fatal::MissingPayload => "missing payload",
            Fatal::ReceiveFailed => "failed to read message",
            Fatal::PublishFailed => "failed to produce",
        }
    }
}

/// Something that happened while the session waited.
pub enum Event {
    /// A line was read from the terminal, without its line ending.
    Line(String),
    /// The terminal input ended (or could no longer be read).
    InputEnded,
    /// A record arrived on the subscribed topic, with its payload if it has one.
    Record(Option<Vec<u8>>),
    /// Receiving from the subscribed topic failed.
    ReceiveFailed,
    /// Publishing the last line failed.
    PublishFailed,
}

/// A record to publish: no key, no headers.
pub struct OutboundRecord {
    pub topic: String,
    pub payload: String,
}

/// What the session asks its driver to do next.
pub enum Action {
    /// Publish the record and wait for the broker's acknowledgment.
    Publish(OutboundRecord),
    /// Write these bytes to standard output.
    Print(Vec<u8>),
    /// Stop normally.
    Exit,
    /// Stop with an error.
    Fail(Fatal),
}

/// Mathematical form of an [`Event`].
pub enum EventView {
    Line(Seq<char>),
    InputEnded,
    Record(Option<Seq<u8>>),
    ReceiveFailed,
    PublishFailed,
}

/// Mathematical form of an [`Action`].
pub enum ActionView {
    Publish { topic: Seq<char>, payload: Seq<char> },
    Print(Seq<u8>),
    Exit,
    Fail(Fatal),
}

impl View for Event {
    type V = EventView;

    open spec fn view(&self) -> EventView {
        match self {
            Event::Line(l) => EventView::Line(l@),
            Event::InputEnded => EventView::InputEnded,
            Event::Record(Some(p)) => EventView::Record(Some(p@)),
            Event::Record(None) => EventView::Record(None),
            Event::ReceiveFailed => EventView::ReceiveFailed,
            Event::PublishFailed => EventView::PublishFailed,
        }
    }
}

impl View for Action {
    type V = ActionView;

    open spec fn view(&self) -> ActionView {
        match self {
            Action::Publish(r) => ActionView::Publish { topic: r.topic@, payload: r.payload@ },
            Action::Print(b) => ActionView::Print(b@),
            Action::Exit => ActionView::Exit,
            Action::Fail(f) => ActionView::Fail(*f),
        }
    }
}

/// The topic that every terminal line is published to.
pub open spec fn chat_topic() -> Seq<char> {
    "chat"@
}

/// The byte that ends each printed payload.
pub open spec fn newline() -> u8 {
    10u8
}

/// How the session answers one event.
pub open spec fn reaction(e: EventView) -> ActionView {
    match e {
        EventView::Line(l) => ActionView::Publish { topic: chat_topic(), payload: l },
        EventView::InputEnded => ActionView::Exit,
        EventView::Record(Some(p)) => ActionView::Print(p.push(newline())),
        EventView::Record(None) => ActionView::Fail(Fatal::MissingPayload),
        EventView::ReceiveFailed => ActionView::Fail(Fatal::ReceiveFailed),
        EventView::PublishFailed => ActionView::Fail(Fatal::PublishFailed),
    }
}

/// An action after which the session handles no more events.
pub open spec fn is_final(a: ActionView) -> bool {
    a is Exit || a is Fail
}

/// The actions of a session that meets `events` in order: one per event,
/// up to and including the first action that ends the session.
pub open spec fn session_actions(events: Seq<EventView>) -> Seq<ActionView>
    decreases events.len(),
{
    if events.len() == 0 {
        seq![]
    } else {
        let a = reaction(events[0]);
        if is_final(a) {
            seq![a]
        } else {
            seq![a] + session_actions(events.drop_first())
        }
    }
}

/// Printed once when the program starts.
pub fn banner() -> (r: &'static str)
    ensures
        r@ == "Initializing crust chat.\n"@,
{
    "Initializing crust chat.\n"
}

/// Printed before each wait for the next event.
pub fn prompt() -> (r: &'static str)
    ensures
        r@ == "> "@,
{
    "> "
}

/// The events of a terminal that yields `lines` and then ends.
pub open spec fn line_events(lines: Seq<Seq<char>>) -> Seq<EventView> {
    lines.map_values(|l: Seq<char>| EventView::Line(l)).push(EventView::InputEnded)
}

/// Each of `lines` published once to the chat topic, in order, unchanged.
pub open spec fn publications(lines: Seq<Seq<char>>) -> Seq<ActionView> {
    lines.map_values(|l: Seq<char>| ActionView::Publish { topic: chat_topic(), payload: l })
}

/// Every terminal line up to the end of input is published exactly once, in
/// input order and unchanged, and then the session exits normally.
pub proof fn lemma_lines_published_in_order(lines: Seq<Seq<char>>)
    ensures
        session_actions(line_events(lines)) == publications(lines).push(ActionView::Exit),
    decreases lines.len(),
{
    let events = line_events(lines);
    if lines.len() == 0 {
        assert(events =~= seq![EventView::InputEnded]);
        assert(session_actions(events.drop_first()) =~= seq![]);
        assert(publications(lines).push(ActionView::Exit) =~= seq![ActionView::Exit]);
    } else {
        let rest = lines.drop_first();
        lemma_lines_published_in_order(rest);
        assert(events.drop_first() =~= line_events(rest));
        assert(events[0] == EventView::Line(lines[0]));
        assert(publications(lines).push(ActionView::Exit) =~= seq![
            ActionView::Publish { topic: chat_topic(), payload: lines[0] },
        ] + publications(rest).push(ActionView::Exit));
    }
}

/// A record that arrives with a payload has exactly that payload written out,
/// followed by one newline, and the session goes on.
pub proof fn lemma_payload_printed_verbatim(payload: Seq<u8>)
    ensures
        reaction(EventView::Record(Some(payload))) == ActionView::Print(payload + seq![newline()]),
        !is_final(reaction(EventView::Record(Some(payload)))),
{
    assert(payload.push(newline()) =~= payload + seq![newline()]);
}

/// The interactive session: it handles one event at a time until one of them
/// ends it.
pub struct Session {
    running: bool,
}

impl Session {
    /// Whether the session still handles events.
    pub closed spec fn spec_running(&self) -> bool {
        self.running
    }

    pub fn new() -> (r: Session)
        ensures
            r.spec_running(),
    {
        Session { running: true }
    }

    pub fn is_running(&self) -> (r: bool)
        ensures
            r == self.spec_running(),
    {
        self.running
    }

    /// Handles one event and says what to do about it; after `Exit` or `Fail`
    /// the session has stopped.
    pub fn step(&mut self, event: Event) -> (a: Action)
        requires
            old(self).spec_running(),
        ensures
            a@ == reaction(event@),
            final(self).spec_running() == !is_final(a@),
    {
        let a = match event {
            Event::Line(line) => Action::Publish(
                OutboundRecord { topic: String::from_str("chat"), payload: line },
            ),
            Event::InputEnded => Action::Exit,
            Event::Record(Some(payload)) => {
                let mut out = payload;
                out.push(10u8);
                Action::Print(out)
            },
            Event::Record(None) => Action::Fail(Fatal::MissingPayload),
            Event::ReceiveFailed => Action::Fail(Fatal::ReceiveFailed),
            Event::PublishFailed => Action::Fail(Fatal::PublishFailed),
        };
        self.running = match a {
            Action::Exit => false,
            Action::Fail(_) => false,
            _ => true,
        };
        a
    }
}

} // verus!
