//! The per-session state machine: handshake, relaying of inbound text, and a
//! terminal transition that reports `disconnected` exactly once.
use vstd::prelude::*;

verus! {

/// Where a session stands.
#[derive(Debug, Clone, Copy, PartialEq, Eq, Structural)]
pub enum Phase {
    /// The protocol upgrade is under way.
    Handshaking,
    /// The sink is installed and inbound frames are being relayed.
    Relaying,
    /// The session ended after a successful handshake.
    Closed,
    /// The handshake failed.
    Failed,
}

/// A connection status reported to the UI layer.
#[derive(Debug, Clone, Copy, PartialEq, Eq, Structural)]
pub enum Status {
    Connected,
    Disconnected,
}

/// The name under which a status is reported to the UI layer.
pub open spec fn status_name(s: Status) -> Seq<char> {
    match s {
        Status::Connected => "connected"@,
        Status::Disconnected => "disconnected"@,
    }
}

impl Status {
    /// The name under which this status is reported to the UI layer.
    pub fn name(&self) -> (r: &'static str)
        ensures
            r@ == status_name(*self),
    {
        match self {
            Status::Connected => "connected",
            Status::Disconnected => "disconnected",
        }
    }
}

/// An inbound frame, as far as the relay tells frames apart.
#[derive(Debug, PartialEq, Eq)]
pub enum Frame {
    /// A text frame and its payload.
    Text(String),
    /// A close frame.
    Close,
    /// Any other frame (binary, ping, pong): ignored.
    Other,
}

/// What the runtime reports to a session.
#[derive(Debug, PartialEq, Eq)]
pub enum Event {
    HandshakeSucceeded,
    HandshakeFailed,
    /// The next inbound frame.
    Received(Frame),
    /// Reading the next frame failed.
    ReadFailed,
    /// The inbound stream ended.
    StreamEnded,
    /// Handing an inbound payload to the UI layer failed.
    ForwardFailed,
}

/// What the runtime must do for a session.
#[derive(Debug, PartialEq, Eq)]
pub enum Action {
    /// Put this session's outbound sink into the connection slot.
    InstallSink,
    /// Report a status to the UI layer.
    EmitStatus(Status),
    /// Hand an inbound text payload to the UI layer.
    Forward(String),
    /// Clear the connection slot if this session still holds it.
    ReleaseSink,
}

/// Whether an event ends the relaying of a session.
pub open spec fn ends_relaying(e: Event) -> bool {
    ||| e matches Event::Received(Frame::Close)
    ||| e is ReadFailed
    ||| e is StreamEnded
    ||| e is ForwardFailed
}

/// Whether a phase is terminal.
pub open spec fn is_terminal(p: Phase) -> bool {
    p is Closed || p is Failed
}

/// The phase a session moves to on an event.
pub open spec fn next_phase(p: Phase, e: Event) -> Phase {
    match p {
        Phase::Handshaking => match e {
            Event::HandshakeSucceeded => Phase::Relaying,
            Event::HandshakeFailed => Phase::Failed,
            _ => Phase::Handshaking,
        },
        Phase::Relaying => if ends_relaying(e) {
            Phase::Closed
        } else {
            Phase::Relaying
        },
        _ => p,
    }
}

/// The actions a session asks for on an event.
pub open spec fn actions_of(p: Phase, e: Event) -> Seq<Action> {
    match p {
        Phase::Handshaking => match e {
            Event::HandshakeSucceeded => seq![Action::InstallSink, Action::EmitStatus(Status::Connected)],
            Event::HandshakeFailed => seq![Action::EmitStatus(Status::Disconnected)],
            _ => seq![],
        },
        Phase::Relaying => match e {
            Event::Received(Frame::Text(t)) => seq![Action::Forward(t)],
            _ => if ends_relaying(e) {
                seq![Action::ReleaseSink, Action::EmitStatus(Status::Disconnected)]
            } else {
                seq![]
            },
        },
        _ => seq![],
    }
}

/// The phase reached from `p` after the events `es`, in order.
pub open spec fn run_phase(p: Phase, es: Seq<Event>) -> Phase
    decreases es.len(),
{
    if es.len() == 0 {
        p
    } else {
        run_phase(next_phase(p, es[0]), es.drop_first())
    }
}

/// All actions asked for from `p` over the events `es`, in order.
pub open spec fn run_actions(p: Phase, es: Seq<Event>) -> Seq<Action>
    decreases es.len(),
{
    if es.len() == 0 {
        seq![]
    } else {
        actions_of(p, es[0]) + run_actions(next_phase(p, es[0]), es.drop_first())
    }
}

/// The statuses reported by a sequence of actions, in order.
pub open spec fn statuses(acts: Seq<Action>) -> Seq<Status>
    decreases acts.len(),
{
    if acts.len() == 0 {
        seq![]
    } else {
        (match acts[0] {
            Action::EmitStatus(s) => seq![s],
            _ => seq![],
        }) + statuses(acts.drop_first())
    }
}

/// The payloads forwarded by a sequence of actions, in order.
pub open spec fn forwarded(acts: Seq<Action>) -> Seq<String>
    decreases acts.len(),
{
    if acts.len() == 0 {
        seq![]
    } else {
        (match acts[0] {
            Action::Forward(t) => seq![t],
            _ => seq![],
        }) + forwarded(acts.drop_first())
    }
}

/// The payloads of the text frames among `es` that come before the first
/// event that ends relaying.
pub open spec fn texts_before_end(es: Seq<Event>) -> Seq<String>
    decreases es.len(),
{
    if es.len() == 0 {
        seq![]
    } else if ends_relaying(es[0]) {
        seq![]
    } else {
        (match es[0] {
            Event::Received(Frame::Text(t)) => seq![t],
            _ => seq![],
        }) + texts_before_end(es.drop_first())
    }
}

/// How many times `s` occurs in `log`.
pub open spec fn count_status(log: Seq<Status>, s: Status) -> nat
    decreases log.len(),
{
    if log.len() == 0 {
        0
    } else {
        (if log[0] == s { 1nat } else { 0nat }) + count_status(log.drop_first(), s)
    }
}

/// The statuses reported on the way from phase `p` to phase `q`.
pub open spec fn statuses_between(p: Phase, q: Phase) -> Seq<Status> {
    match (p, q) {
        (Phase::Handshaking, Phase::Relaying) => seq![Status::Connected],
        (Phase::Handshaking, Phase::Closed) => seq![Status::Connected, Status::Disconnected],
        (Phase::Handshaking, Phase::Failed) => seq![Status::Disconnected],
        (Phase::Relaying, Phase::Closed) => seq![Status::Disconnected],
        _ => seq![],
    }
}

/// Whether phase `q` can follow phase `p`.
pub open spec fn reaches(p: Phase, q: Phase) -> bool {
    match p {
        Phase::Handshaking => true,
        Phase::Relaying => q is Relaying || q is Closed,
        _ => q == p,
    }
}

proof fn lemma_statuses_concat(a: Seq<Action>, b: Seq<Action>)
    ensures
        statuses(a + b) == statuses(a) + statuses(b),
    decreases a.len(),
{
    if a.len() == 0 {
        assert(a + b =~= b);
    } else {
        assert((a + b).drop_first() =~= a.drop_first() + b);
        lemma_statuses_concat(a.drop_first(), b);
        assert(statuses(a + b) =~= statuses(a) + statuses(b));
    }
}

proof fn lemma_forwarded_concat(a: Seq<Action>, b: Seq<Action>)
    ensures
        forwarded(a + b) == forwarded(a) + forwarded(b),
    decreases a.len(),
{
    if a.len() == 0 {
        assert(a + b =~= b);
    } else {
        assert((a + b).drop_first() =~= a.drop_first() + b);
        lemma_forwarded_concat(a.drop_first(), b);
        assert(forwarded(a + b) =~= forwarded(a) + forwarded(b));
    }
}

proof fn lemma_step_statuses(p: Phase, e: Event)
    ensures
        statuses(actions_of(p, e)) == statuses_between(p, next_phase(p, e)),
        reaches(p, next_phase(p, e)),
{
    reveal_with_fuel(statuses, 3);
    let acts = actions_of(p, e);
    if acts.len() == 2 {
        assert(acts.drop_first().drop_first() =~= Seq::<Action>::empty());
    }
    if acts.len() == 1 {
        assert(acts.drop_first() =~= Seq::<Action>::empty());
    }
    assert(statuses(actions_of(p, e)) =~= statuses_between(p, next_phase(p, e)));
}

/// The statuses a session reports from phase `p` are fixed by where it
/// starts and where it ends up: a session passes through each status at most once.
pub proof fn lemma_statuses_follow_phases(p: Phase, es: Seq<Event>)
    ensures
        reaches(p, run_phase(p, es)),
        statuses(run_actions(p, es)) == statuses_between(p, run_phase(p, es)),
    decreases es.len(),
{
    if es.len() == 0 {
        assert(statuses(run_actions(p, es)) =~= statuses_between(p, p));
    } else {
        let q = next_phase(p, es[0]);
        lemma_step_statuses(p, es[0]);
        lemma_statuses_follow_phases(q, es.drop_first());
        lemma_statuses_concat(actions_of(p, es[0]), run_actions(q, es.drop_first()));
        let r = run_phase(q, es.drop_first());
        assert(statuses_between(p, q) + statuses_between(q, r) =~= statuses_between(p, r));
    }
}

/// Whatever events a session sees (a read error followed by a failed
/// forward, a close frame, the end of the stream), it reports `disconnected`
/// exactly once if it reached a terminal phase and never otherwise, and
/// `connected` at most once.
pub proof fn lemma_disconnected_exactly_once(es: Seq<Event>)
    ensures
        count_status(statuses(run_actions(Phase::Handshaking, es)), Status::Disconnected)
            == (if is_terminal(run_phase(Phase::Handshaking, es)) { 1nat } else { 0nat }),
        count_status(statuses(run_actions(Phase::Handshaking, es)), Status::Connected) <= 1,
{
    reveal_with_fuel(count_status, 3);
    lemma_statuses_follow_phases(Phase::Handshaking, es);
    let log = statuses(run_actions(Phase::Handshaking, es));
    if log.len() == 2 {
        assert(log.drop_first().drop_first() =~= Seq::<Status>::empty());
    }
    if log.len() == 1 {
        assert(log.drop_first() =~= Seq::<Status>::empty());
    }
}

/// A session whose handshake fails reports `disconnected` once and never
/// `connected`.
pub proof fn lemma_failed_handshake(es: Seq<Event>)
    requires
        run_phase(Phase::Handshaking, es) is Failed,
    ensures
        statuses(run_actions(Phase::Handshaking, es)) == seq![Status::Disconnected],
{
    lemma_statuses_follow_phases(Phase::Handshaking, es);
}

/// The statuses reported by sessions handled one after another.
pub open spec fn serial_log(sessions: Seq<Seq<Event>>) -> Seq<Status>
    decreases sessions.len(),
{
    if sessions.len() == 0 {
        seq![]
    } else {
        serial_log(sessions.drop_last()) + statuses(run_actions(Phase::Handshaking, sessions.last()))
    }
}

/// The two statuses that the `i`-th of a run of serial sessions contributes to their log.
pub open spec fn pair_at(log: Seq<Status>, i: int) -> Seq<Status> {
    log.subrange(2 * i, 2 * i + 2)
}

/// Sessions that each complete a handshake and then end, handled one after
/// another, report `connected` then `disconnected` for each, in the order
/// of their handshakes.
pub proof fn lemma_serial_sessions(sessions: Seq<Seq<Event>>)
    requires
        forall|i: int| 0 <= i < sessions.len() ==> run_phase(Phase::Handshaking, #[trigger] sessions[i]) is Closed,
    ensures
        serial_log(sessions).len() == 2 * sessions.len(),
        forall|i: int| 0 <= i < sessions.len() ==>
            #[trigger] pair_at(serial_log(sessions), i) == seq![Status::Connected, Status::Disconnected],
    decreases sessions.len(),
{
    if sessions.len() > 0 {
        let init = sessions.drop_last();
        assert forall|i: int| 0 <= i < init.len() implies run_phase(Phase::Handshaking, #[trigger] init[i]) is Closed by {
            assert(init[i] == sessions[i]);
        }
        lemma_serial_sessions(init);
        lemma_statuses_follow_phases(Phase::Handshaking, sessions.last());
        let prev = serial_log(init);
        let log = serial_log(sessions);
        let n = sessions.len() as int;
        assert(log == prev + seq![Status::Connected, Status::Disconnected]);
        assert forall|i: int| 0 <= i < n implies
            #[trigger] pair_at(log, i) == seq![Status::Connected, Status::Disconnected] by {
            if i < n - 1 {
                assert(pair_at(prev, i) == seq![Status::Connected, Status::Disconnected]);
                assert(log.subrange(2 * i, 2 * i + 2) =~= prev.subrange(2 * i, 2 * i + 2));
            } else {
                assert(log.subrange(2 * i, 2 * i + 2) =~= seq![Status::Connected, Status::Disconnected]);
            }
        }
    }
}

/// While relaying, a session forwards the payloads of the text frames it
/// receives, each once and in the order received, up to the event that ends it.
pub proof fn lemma_forwarded_in_order(es: Seq<Event>)
    ensures
        forwarded(run_actions(Phase::Relaying, es)) == texts_before_end(es),
    decreases es.len(),
{
    reveal_with_fuel(forwarded, 3);
    if es.len() > 0 {
        let e = es[0];
        let acts = actions_of(Phase::Relaying, e);
        let q = next_phase(Phase::Relaying, e);
        lemma_forwarded_concat(acts, run_actions(q, es.drop_first()));
        if acts.len() == 2 {
            assert(acts.drop_first().drop_first() =~= Seq::<Action>::empty());
        }
        if acts.len() == 1 {
            assert(acts.drop_first() =~= Seq::<Action>::empty());
        }
        if ends_relaying(e) {
            lemma_closed_is_quiet(es.drop_first());
            assert(forwarded(run_actions(Phase::Relaying, es)) =~= texts_before_end(es));
        } else {
            lemma_forwarded_in_order(es.drop_first());
            assert(forwarded(run_actions(Phase::Relaying, es)) =~= texts_before_end(es));
        }
    }
}

/// A session that has closed asks for nothing more, whatever it is told.
pub proof fn lemma_closed_is_quiet(es: Seq<Event>)
    ensures
        run_actions(Phase::Closed, es) == Seq::<Action>::empty(),
        run_phase(Phase::Closed, es) == Phase::Closed,
    decreases es.len(),
{
    if es.len() > 0 {
        lemma_closed_is_quiet(es.drop_first());
        assert(run_actions(Phase::Closed, es) =~= Seq::<Action>::empty());
    }
}

/// One session, from accept to its terminal phase.
pub struct Session {
    id: u64,
    phase: Phase,
    disconnected_emitted: bool,
}

impl Session {
    /// The identifier the session was created with.
    pub closed spec fn spec_id(&self) -> u64 {
        self.id
    }

    /// The phase the session is in.
    pub closed spec fn spec_phase(&self) -> Phase {
        self.phase
    }

    /// The at-most-once guard on `disconnected` is set exactly in the terminal phases.
    pub closed spec fn wf(&self) -> bool {
        self.disconnected_emitted == is_terminal(self.phase)
    }

    /// A session for a freshly accepted connection, about to shake hands.
    pub fn new(id: u64) -> (r: Self)
        ensures
            r.wf(),
            r.spec_id() == id,
            r.spec_phase() == Phase::Handshaking,
    {
        Session { id, phase: Phase::Handshaking, disconnected_emitted: false }
    }

    pub fn id(&self) -> (r: u64)
        ensures
            r == self.spec_id(),
    {
        self.id
    }

    pub fn phase(&self) -> (r: Phase)
        ensures
            r == self.spec_phase(),
    {
        self.phase
    }

    /// Whether the session has reached a terminal phase and its task may end.
    pub fn is_finished(&self) -> (r: bool)
        ensures
            r == is_terminal(self.spec_phase()),
    {
        match self.phase {
            Phase::Closed | Phase::Failed => true,
            _ => false,
        }
    }

    /// The terminal step: reports `disconnected` unless it was reported already.
    fn close(&mut self, release: bool, terminal: Phase) -> (acts: Vec<Action>)
        requires
            is_terminal(terminal),
            old(self).wf(),
        ensures
            final(self).id == old(self).id,
            final(self).disconnected_emitted,
            old(self).disconnected_emitted ==> *final(self) == *old(self) && acts@ == Seq::<Action>::empty(),
            !old(self).disconnected_emitted ==> final(self).phase == terminal && acts@ == (if release {
                seq![Action::ReleaseSink, Action::EmitStatus(Status::Disconnected)]
            } else {
                seq![Action::EmitStatus(Status::Disconnected)]
            }),
    {
        let mut acts: Vec<Action> = Vec::new();
        if self.disconnected_emitted {
            return acts;
        }
        if release {
            acts.push(Action::ReleaseSink);
        }
        acts.push(Action::EmitStatus(Status::Disconnected));
        self.disconnected_emitted = true;
        self.phase = terminal;
        acts
    }

    /// Advances the session on one event and returns what the runtime must do,
    /// in order.
    pub fn step(&mut self, event: Event) -> (acts: Vec<Action>)
        requires
            old(self).wf(),
        ensures
            final(self).wf(),
            final(self).spec_id() == old(self).spec_id(),
            final(self).spec_phase() == next_phase(old(self).spec_phase(), event),
            acts@ == actions_of(old(self).spec_phase(), event),
    {
        match self.phase {
            Phase::Handshaking => match event {
                Event::HandshakeSucceeded => {
                    self.phase = Phase::Relaying;
                    let mut acts: Vec<Action> = Vec::new();
                    acts.push(Action::InstallSink);
                    acts.push(Action::EmitStatus(Status::Connected));
                    acts
                },
                Event::HandshakeFailed => self.close(false, Phase::Failed),
                _ => Vec::new(),
            },
            Phase::Relaying => match event {
                Event::Received(Frame::Text(t)) => {
                    let mut acts: Vec<Action> = Vec::new();
                    acts.push(Action::Forward(t));
                    acts
                },
                Event::Received(Frame::Other) => Vec::new(),
                Event::HandshakeSucceeded | Event::HandshakeFailed => Vec::new(),
                _ => self.close(true, Phase::Closed),
            },
            _ => Vec::new(),
        }
    }
}

} // verus!
