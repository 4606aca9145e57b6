//! The decisions of one upload request, as a state machine.
//!
//! The caller performs each `Action` (pull the next part or chunk from the
//! multipart decoder, create a file, write a chunk, respond) and hands the
//! outcome back as an `Event`. The ghost `files` map records what the
//! request's successful file operations have left in the root directory.
use vstd::prelude::*;
use crate::naming::{declared_view, is_plain_component, resolve_filename, resolves_to};

verus! {

/// Why a request was given up.
#[derive(Clone, Copy, Debug, PartialEq, Eq, Structural)]
pub enum Failure {
    /// A part without content-disposition metadata.
    MalformedRequest,
    /// Creating or writing a file failed.
    Io,
    /// The multipart framing could not be decoded.
    Decode,
}

/// Where the request stands.
#[derive(Clone, Copy, Debug, PartialEq, Eq, Structural)]
pub enum Phase {
    /// Waiting for the decoder's next part.
    AwaitingPart,
    /// The current part's file is being created.
    Opening,
    /// Waiting for the current part's next chunk.
    Streaming,
    /// A chunk of the current part is being written.
    Writing,
    /// Every part was stored.
    Complete,
    /// The request was given up.
    Failed(Failure),
}

/// What happened since the last action.
pub enum Event {
    /// The decoder gave the next part.
    PartArrived { has_disposition: bool, filename: Option<String> },
    /// The decoder has no more parts.
    NoMoreParts,
    /// Creating the current part's file succeeded or failed.
    CreateDone { ok: bool },
    /// The decoder gave the current part's next chunk.
    ChunkArrived(Vec<u8>),
    /// The current part has no more chunks.
    PartEnded,
    /// Writing the last chunk succeeded or failed.
    WriteDone { ok: bool },
    /// The decoder reported malformed framing or an interrupted stream.
    DecodeFailed,
}

/// What the caller is to do next.
pub enum Action {
    /// Pull the next part from the decoder.
    PullPart,
    /// Create (or truncate) the file of this name in the root directory.
    Create(String),
    /// Pull the current part's next chunk.
    PullChunk,
    /// Append these bytes to the current part's file.
    Write(Vec<u8>),
    /// Answer the request with this HTTP status and an empty body.
    Respond(u16),
}

/// Mathematical form of an event; a part carries its resolved name.
pub enum EventModel {
    Part { has_disposition: bool, name: Seq<char> },
    NoMoreParts,
    CreateDone(bool),
    Chunk(Seq<u8>),
    PartEnded,
    WriteDone(bool),
    DecodeFailed,
}

/// Mathematical form of an action.
pub enum ActionModel {
    PullPart,
    Create(Seq<char>),
    PullChunk,
    Write(Seq<u8>),
    Respond(u16),
}

/// Mathematical form of a session.
pub struct SessionModel {
    pub phase: Phase,
    /// Name of the current part's file.
    pub name: Seq<char>,
    /// The chunk being written.
    pub pending: Seq<u8>,
    /// Contents of the files that this request has written, by name.
    pub files: Map<Seq<char>, Seq<u8>>,
}

/// HTTP status that reports a failure.
pub open spec fn failure_status(f: Failure) -> u16 {
    match f {
        Failure::MalformedRequest => 400,
        Failure::Io => 500,
        Failure::Decode => 400,
    }
}

/// HTTP status that reports a failure.
pub fn status_of(f: Failure) -> (r: u16)
    ensures
        r == failure_status(f),
{
    match f {
        Failure::MalformedRequest => 400,
        Failure::Io => 500,
        Failure::Decode => 400,
    }
}

/// The session with another phase.
pub open spec fn with_phase(s: SessionModel, p: Phase) -> SessionModel {
    SessionModel { phase: p, name: s.name, pending: s.pending, files: s.files }
}

/// Giving up the request, and the response that reports why.
pub open spec fn fail(s: SessionModel, f: Failure) -> (SessionModel, ActionModel) {
    (with_phase(s, Phase::Failed(f)), ActionModel::Respond(failure_status(f)))
}

/// The events that a phase waits for.
pub open spec fn accepts(p: Phase, e: EventModel) -> bool {
    match p {
        Phase::AwaitingPart => e is Part || e is NoMoreParts || e is DecodeFailed,
        Phase::Opening => e is CreateDone,
        Phase::Streaming => e is Chunk || e is PartEnded || e is DecodeFailed,
        Phase::Writing => e is WriteDone,
        _ => false,
    }
}

/// One transition: the next session and the action to perform.
pub open spec fn next(s: SessionModel, e: EventModel) -> (SessionModel, ActionModel) {
    match e {
        EventModel::Part { has_disposition, name } => if has_disposition {
            (
                SessionModel { phase: Phase::Opening, name, pending: s.pending, files: s.files },
                ActionModel::Create(name),
            )
        } else {
            fail(s, Failure::MalformedRequest)
        },
        EventModel::NoMoreParts => (with_phase(s, Phase::Complete), ActionModel::Respond(200)),
        EventModel::CreateDone(ok) => if ok {
            (
                SessionModel {
                    phase: Phase::Streaming,
                    name: s.name,
                    pending: s.pending,
                    files: s.files.insert(s.name, Seq::empty()),
                },
                ActionModel::PullChunk,
            )
        } else {
            fail(s, Failure::Io)
        },
        EventModel::Chunk(b) => (
            SessionModel { phase: Phase::Writing, name: s.name, pending: b, files: s.files },
            ActionModel::Write(b),
        ),
        EventModel::PartEnded => (with_phase(s, Phase::AwaitingPart), ActionModel::PullPart),
        EventModel::WriteDone(ok) => if ok {
            (
                SessionModel {
                    phase: Phase::Streaming,
                    name: s.name,
                    pending: s.pending,
                    files: s.files.insert(s.name, s.files[s.name] + s.pending),
                },
                ActionModel::PullChunk,
            )
        } else {
            fail(s, Failure::Io)
        },
        EventModel::DecodeFailed => fail(s, Failure::Decode),
    }
}

/// The session after a sequence of events.
pub open spec fn run(s: SessionModel, evs: Seq<EventModel>) -> SessionModel
    decreases evs.len(),
{
    if evs.len() == 0 {
        s
    } else {
        run(next(s, evs[0]).0, evs.drop_first())
    }
}

/// The bytes of a sequence of chunks, one after another.
pub open spec fn flatten(chunks: Seq<Seq<u8>>) -> Seq<u8>
    decreases chunks.len(),
{
    if chunks.len() == 0 {
        Seq::empty()
    } else {
        chunks[0] + flatten(chunks.drop_first())
    }
}

/// Each chunk arrives and is written successfully.
pub open spec fn chunk_events(chunks: Seq<Seq<u8>>) -> Seq<EventModel>
    decreases chunks.len(),
{
    if chunks.len() == 0 {
        Seq::empty()
    } else {
        seq![EventModel::Chunk(chunks[0]), EventModel::WriteDone(true)] + chunk_events(
            chunks.drop_first(),
        )
    }
}

/// A part with metadata that resolves to `name`, whose file is created and
/// whose chunks are all written.
pub open spec fn part_events(name: Seq<char>, chunks: Seq<Seq<u8>>) -> Seq<EventModel> {
    seq![EventModel::Part { has_disposition: true, name }, EventModel::CreateDone(true)]
        + chunk_events(chunks) + seq![EventModel::PartEnded]
}

proof fn lemma_run_concat(s: SessionModel, a: Seq<EventModel>, b: Seq<EventModel>)
    ensures
        run(s, a + b) == run(run(s, a), b),
    decreases a.len(),
{
    if a.len() > 0 {
        assert((a + b).drop_first() =~= a.drop_first() + b);
        lemma_run_concat(next(s, a[0]).0, a.drop_first(), b);
    } else {
        assert(a + b =~= b);
    }
}

proof fn lemma_run_one(s: SessionModel, a: EventModel)
    ensures
        run(s, seq![a]) == next(s, a).0,
{
    let e = seq![a];
    assert(e.drop_first() =~= Seq::<EventModel>::empty());
    assert(run(next(s, a).0, e.drop_first()) == next(s, a).0);
}

proof fn lemma_run_two(s: SessionModel, a: EventModel, b: EventModel)
    ensures
        run(s, seq![a, b]) == next(next(s, a).0, b).0,
{
    let e = seq![a, b];
    assert(e.drop_first() =~= seq![b]);
    lemma_run_one(next(s, a).0, b);
}

proof fn lemma_run_chunks(s: SessionModel, chunks: Seq<Seq<u8>>)
    requires
        s.phase == Phase::Streaming,
        s.files.contains_key(s.name),
    ensures
        run(s, chunk_events(chunks)).phase == Phase::Streaming,
        run(s, chunk_events(chunks)).name == s.name,
        run(s, chunk_events(chunks)).files == s.files.insert(s.name, s.files[s.name] + flatten(chunks)),
    decreases chunks.len(),
{
    if chunks.len() == 0 {
        assert(s.files[s.name] + flatten(chunks) =~= s.files[s.name]);
        assert(s.files.insert(s.name, s.files[s.name]) =~= s.files);
    } else {
        let evs = chunk_events(chunks);
        let two = seq![EventModel::Chunk(chunks[0]), EventModel::WriteDone(true)];
        lemma_run_concat(s, two, chunk_events(chunks.drop_first()));
        let s1 = next(s, two[0]).0;
        let s2 = next(s1, two[1]).0;
        lemma_run_two(s, two[0], two[1]);
        assert(run(s, two) == s2);
        lemma_run_chunks(s2, chunks.drop_first());
        assert(s.files[s.name] + chunks[0] + flatten(chunks.drop_first()) =~= s.files[s.name]
            + flatten(chunks));
        assert(s2.files.insert(s.name, s2.files[s.name] + flatten(chunks.drop_first())) =~= s.files.insert(
            s.name,
            s.files[s.name] + flatten(chunks),
        ));
    }
}

/// A stored part: after a part whose chunks are all written, the request waits
/// for its next part, and the part's file holds exactly the concatenated bytes
/// of its chunks, whatever was there before; the other files are untouched.
pub proof fn lemma_part_stored(s: SessionModel, name: Seq<char>, chunks: Seq<Seq<u8>>)
    requires
        s.phase == Phase::AwaitingPart,
    ensures
        run(s, part_events(name, chunks)).phase == Phase::AwaitingPart,
        run(s, part_events(name, chunks)).files == s.files.insert(name, flatten(chunks)),
{
    let head = seq![EventModel::Part { has_disposition: true, name }, EventModel::CreateDone(true)];
    let tail = seq![EventModel::PartEnded];
    lemma_run_concat(s, head + chunk_events(chunks), tail);
    lemma_run_concat(s, head, chunk_events(chunks));
    let s1 = next(s, head[0]).0;
    let s2 = next(s1, head[1]).0;
    lemma_run_two(s, head[0], head[1]);
    assert(run(s, head) == s2);
    lemma_run_chunks(s2, chunks);
    let s3 = run(s2, chunk_events(chunks));
    lemma_run_one(s3, EventModel::PartEnded);
    assert(Seq::<u8>::empty() + flatten(chunks) =~= flatten(chunks));
    assert(s2.files.insert(name, flatten(chunks)) =~= s.files.insert(name, flatten(chunks)));
}

proof fn lemma_flatten_one(b: Seq<u8>)
    ensures
        flatten(seq![b]) == b,
{
    let c = seq![b];
    assert(c.drop_first() =~= Seq::<Seq<u8>>::empty());
    assert(flatten(c.drop_first()) == Seq::<u8>::empty());
    assert(b + Seq::<u8>::empty() =~= b);
}

/// Round trip: a request that stores the bytes `b` under `name` and then
/// runs out of parts completes with status 200, and the file `name` holds
/// exactly `b`, for every `b`, the empty one included.
pub proof fn lemma_round_trip(s: SessionModel, name: Seq<char>, b: Seq<u8>)
    requires
        s.phase == Phase::AwaitingPart,
    ensures
        ({
            let t = run(s, part_events(name, seq![b]));
            &&& next(t, EventModel::NoMoreParts).1 == ActionModel::Respond(200)
            &&& next(t, EventModel::NoMoreParts).0.phase == Phase::Complete
            &&& next(t, EventModel::NoMoreParts).0.files[name] == b
        }),
{
    lemma_part_stored(s, name, seq![b]);
    lemma_flatten_one(b);
}

/// Overwrite: storing `b1` and then `b2` under the same name leaves only `b2`
/// in that file.
pub proof fn lemma_overwrite(s: SessionModel, name: Seq<char>, b1: Seq<u8>, b2: Seq<u8>)
    requires
        s.phase == Phase::AwaitingPart,
    ensures
        run(s, part_events(name, seq![b1]) + part_events(name, seq![b2])).files[name] == b2,
{
    lemma_run_concat(s, part_events(name, seq![b1]), part_events(name, seq![b2]));
    lemma_part_stored(s, name, seq![b1]);
    let t = run(s, part_events(name, seq![b1]));
    lemma_part_stored(t, name, seq![b2]);
    lemma_flatten_one(b2);
}

/// Chunking does not matter: two deliveries of the same bytes in different
/// chunks leave the same files and the same session.
pub proof fn lemma_chunking_irrelevant(
    s: SessionModel,
    name: Seq<char>,
    c1: Seq<Seq<u8>>,
    c2: Seq<Seq<u8>>,
)
    requires
        s.phase == Phase::AwaitingPart,
        flatten(c1) == flatten(c2),
    ensures
        run(s, part_events(name, c1)).phase == run(s, part_events(name, c2)).phase,
        run(s, part_events(name, c1)).files == run(s, part_events(name, c2)).files,
{
    lemma_part_stored(s, name, c1);
    lemma_part_stored(s, name, c2);
}

/// Truncation on failure: when the write of the second chunk fails, the
/// request fails with status 500 and the file keeps the first chunk alone.
pub proof fn lemma_failed_write_truncates(
    s: SessionModel,
    name: Seq<char>,
    c1: Seq<u8>,
    c2: Seq<u8>,
)
    requires
        s.phase == Phase::AwaitingPart,
    ensures
        ({
            let evs = seq![
                EventModel::Part { has_disposition: true, name },
                EventModel::CreateDone(true),
                EventModel::Chunk(c1),
                EventModel::WriteDone(true),
                EventModel::Chunk(c2),
            ];
            let t = run(s, evs);
            &&& next(t, EventModel::WriteDone(false)).1 == ActionModel::Respond(500)
            &&& next(t, EventModel::WriteDone(false)).0.phase == Phase::Failed(Failure::Io)
            &&& next(t, EventModel::WriteDone(false)).0.files[name] == c1
        }),
{
    let evs = seq![
        EventModel::Part { has_disposition: true, name },
        EventModel::CreateDone(true),
        EventModel::Chunk(c1),
        EventModel::WriteDone(true),
        EventModel::Chunk(c2),
    ];
    let s1 = next(s, evs[0]).0;
    let s2 = next(s1, evs[1]).0;
    let s3 = next(s2, evs[2]).0;
    let s4 = next(s3, evs[3]).0;
    let s5 = next(s4, evs[4]).0;
    let e1 = evs.drop_first();
    let e2 = e1.drop_first();
    let e3 = e2.drop_first();
    let e4 = e3.drop_first();
    let e5 = e4.drop_first();
    assert(e1[0] == evs[1] && e2[0] == evs[2] && e3[0] == evs[3] && e4[0] == evs[4]);
    assert(e5.len() == 0);
    assert(run(s5, e5) == s5);
    assert(run(s4, e4) == s5);
    assert(run(s3, e3) == s5);
    assert(run(s2, e2) == s5);
    assert(run(s1, e1) == s5);
    assert(run(s, evs) == s5);
    assert(Seq::<u8>::empty() + c1 =~= c1);
}

/// A part without content-disposition metadata ends the request with status
/// 400 and creates no file.
pub proof fn lemma_missing_disposition(s: SessionModel, name: Seq<char>)
    ensures
        next(s, EventModel::Part { has_disposition: false, name }).1 == ActionModel::Respond(400),
        next(s, EventModel::Part { has_disposition: false, name }).0.files == s.files,
        next(s, EventModel::Part { has_disposition: false, name }).0.phase == Phase::Failed(
            Failure::MalformedRequest,
        ),
{
}

impl View for Action {
    type V = ActionModel;

    open spec fn view(&self) -> ActionModel {
        match self {
            Action::PullPart => ActionModel::PullPart,
            Action::Create(n) => ActionModel::Create(n@),
            Action::PullChunk => ActionModel::PullChunk,
            Action::Write(b) => ActionModel::Write(b@),
            Action::Respond(c) => ActionModel::Respond(*c),
        }
    }
}

/// The model of an event, where `name` is the name that a part resolved to.
pub open spec fn event_model(e: Event, name: Seq<char>) -> EventModel {
    match e {
        Event::PartArrived { has_disposition, filename } => EventModel::Part { has_disposition, name },
        Event::NoMoreParts => EventModel::NoMoreParts,
        Event::CreateDone { ok } => EventModel::CreateDone(ok),
        Event::ChunkArrived(b) => EventModel::Chunk(b@),
        Event::PartEnded => EventModel::PartEnded,
        Event::WriteDone { ok } => EventModel::WriteDone(ok),
        Event::DecodeFailed => EventModel::DecodeFailed,
    }
}

/// One upload request in progress.
pub struct UploadSession {
    phase: Phase,
    name: String,
    pending: Ghost<Seq<u8>>,
    files: Ghost<Map<Seq<char>, Seq<u8>>>,
}

impl View for UploadSession {
    type V = SessionModel;

    closed spec fn view(&self) -> SessionModel {
        SessionModel { phase: self.phase, name: self.name@, pending: self.pending@, files: self.files@ }
    }
}

impl UploadSession {
    /// A request that waits for its first part and has written nothing.
    pub fn new() -> (r: UploadSession)
        ensures
            r@.phase == Phase::AwaitingPart,
            r@.files == Map::<Seq<char>, Seq<u8>>::empty(),
    {
        UploadSession {
            phase: Phase::AwaitingPart,
            name: String::new(),
            pending: Ghost(Seq::empty()),
            files: Ghost(Map::empty()),
        }
    }

    /// Where the request stands.
    pub fn phase(&self) -> (r: Phase)
        ensures
            r == self@.phase,
    {
        self.phase
    }

    /// Whether the request has ended, with a response or a failure.
    pub fn is_finished(&self) -> (r: bool)
        ensures
            r == (self@.phase is Complete || self@.phase is Failed),
    {
        match self.phase {
            Phase::Complete | Phase::Failed(_) => true,
            _ => false,
        }
    }

    /// Whether the current phase waits for this event.
    pub fn accepts(&self, e: &Event) -> (r: bool)
        ensures
            r == accepts(self@.phase, event_model(*e, Seq::empty())),
    {
        match self.phase {
            Phase::AwaitingPart => match e {
                Event::PartArrived { .. } | Event::NoMoreParts | Event::DecodeFailed => true,
                _ => false,
            },
            Phase::Opening => match e {
                Event::CreateDone { .. } => true,
                _ => false,
            },
            Phase::Streaming => match e {
                Event::ChunkArrived(_) | Event::PartEnded | Event::DecodeFailed => true,
                _ => false,
            },
            Phase::Writing => match e {
                Event::WriteDone { .. } => true,
                _ => false,
            },
            _ => false,
        }
    }

    /// Takes in what happened and decides the next action. A part with
    /// content-disposition metadata gets a resolved name, which is a plain
    /// entry of the root directory.
    pub fn step(&mut self, e: Event) -> (r: Action)
        requires
            accepts(old(self)@.phase, event_model(e, Seq::empty())),
        ensures
            (final(self)@, r@) == next(old(self)@, event_model(e, final(self)@.name)),
            match e {
                Event::PartArrived { has_disposition, filename } => has_disposition ==> (
                    resolves_to(declared_view(&filename), final(self)@.name)
                    && is_plain_component(final(self)@.name)),
                _ => true,
            },
    {
        match e {
            Event::PartArrived { has_disposition, filename } => {
                if has_disposition {
                    let n = resolve_filename(&filename);
                    self.name = n.clone();
                    self.phase = Phase::Opening;
                    Action::Create(n)
                } else {
                    self.phase = Phase::Failed(Failure::MalformedRequest);
                    Action::Respond(status_of(Failure::MalformedRequest))
                }
            },
            Event::NoMoreParts => {
                self.phase = Phase::Complete;
                Action::Respond(200)
            },
            Event::CreateDone { ok } => {
                if ok {
                    self.files = Ghost(self.files@.insert(self.name@, Seq::empty()));
                    self.phase = Phase::Streaming;
                    Action::PullChunk
                } else {
                    self.phase = Phase::Failed(Failure::Io);
                    Action::Respond(status_of(Failure::Io))
                }
            },
            Event::ChunkArrived(b) => {
                self.pending = Ghost(b@);
                self.phase = Phase::Writing;
                Action::Write(b)
            },
            Event::PartEnded => {
                self.phase = Phase::AwaitingPart;
                Action::PullPart
            },
            Event::WriteDone { ok } => {
                if ok {
                    self.files = Ghost(self.files@.insert(self.name@, self.files@[self.name@] + self.pending@));
                    self.phase = Phase::Streaming;
                    Action::PullChunk
                } else {
                    self.phase = Phase::Failed(Failure::Io);
                    Action::Respond(status_of(Failure::Io))
                }
            },
            Event::DecodeFailed => {
                self.phase = Phase::Failed(Failure::Decode);
                Action::Respond(status_of(Failure::Decode))
            },
        }
    }
}

} // verus!
