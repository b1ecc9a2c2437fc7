//! A track that is read while it is still arriving.
//!
//! A decoder wants to read and to seek, so the obvious thing is to fetch the
//! whole track first, but then playback only starts once the last byte has
//! landed. Instead the bytes fetched so far are kept in memory and a read past
//! the write head waits until the downloader catches up.
//!
//! Everything fetched is retained, which is what makes seeking work. What is
//! here is the buffer and the rules of both ends; the lock round the buffer and
//! the waiting belong to whoever runs the two ends on two threads. A rule that
//! cannot answer yet says so ([`ReadStep::Blocked`], [`Wait::Blocked`]), and is
//! asked again once the buffer has changed.
use vstd::prelude::*;
use vstd::string::*;

use crate::text::{decimal, write_decimal};

verus! {

/// Ceiling on what one track may buffer, in bytes. Tracks are a few megabytes,
/// so this is a runaway guard rather than an expected size.
pub const MAX_BYTES: usize = 100663296;

/// How much to read from the network at a time, in bytes.
pub const CHUNK: usize = 32768;

/// How long a read may wait for the downloader before giving up, in seconds.
///
/// The decoder is pulled from the audio device's callback thread: blocking
/// there is what a dropout sounds like, so a stalled download ends the track
/// rather than wedging playback.
pub const READ_TIMEOUT_SECONDS: u64 = 10;

/// The same, in nanoseconds.
pub const READ_TIMEOUT_NANOS: u64 = 10_000_000_000;

/// Said when a read has waited that long.
pub const STALLED: &'static str = "the track stopped arriving";

/// Said when the other end of a stream is gone without having closed it.
pub const OTHER_END_GONE: &'static str = "the download thread panicked";

/// What both ends of a stream share.
#[derive(Debug)]
pub struct Shared {
    /// Everything that has arrived.
    pub bytes: Vec<u8>,
    /// Total length, where the server declared one.
    pub byte_len: Option<u64>,
    /// The body ended, successfully or not.
    pub finished: bool,
    /// Why it ended early, if it did.
    pub failure: Option<String>,
    /// The reader went away, so there is no point fetching more.
    pub abandoned: bool,
}

/// [`Shared`] as the rules see it.
#[verifier::ext_equal]
pub struct Stream {
    pub bytes: Seq<u8>,
    pub byte_len: Option<u64>,
    pub finished: bool,
    pub failure: Option<Seq<char>>,
    pub abandoned: bool,
}

impl View for Shared {
    type V = Stream;

    open spec fn view(&self) -> Stream {
        Stream {
            bytes: self.bytes@,
            byte_len: self.byte_len,
            finished: self.finished,
            failure: match self.failure {
                Some(failure) => Some(failure@),
                None => None,
            },
            abandoned: self.abandoned,
        }
    }
}

impl Stream {
    /// Whether the buffer is within its ceiling. It always is: it starts out
    /// empty and only the writer adds to it.
    pub open spec fn bounded(self) -> bool {
        self.bytes.len() <= MAX_BYTES
    }

    /// A stream of which nothing has arrived.
    pub open spec fn opened(byte_len: Option<u64>) -> Stream {
        Stream { bytes: seq![], byte_len, finished: false, failure: None, abandoned: false }
    }

    /// The stream once its body has ended. The first failure is the one that is
    /// kept.
    pub open spec fn ended(self, failure: Option<Seq<char>>) -> Stream {
        Stream {
            finished: true,
            failure: if self.failure is None {
                failure
            } else {
                self.failure
            },
            ..self
        }
    }

    /// The stream once its reader has gone.
    pub open spec fn left(self) -> Stream {
        Stream { abandoned: true, ..self }
    }

    /// The stream with more of the body at its end.
    pub open spec fn grown(self, chunk: Seq<u8>) -> Stream {
        Stream { bytes: self.bytes + chunk, ..self }
    }
}

/// What the network handed over.
pub enum Arrival {
    /// A piece of the body. An empty one is the body's end.
    Chunk(Vec<u8>),
    /// Nothing, and nothing is wrong.
    Interrupted,
    /// The transfer failed.
    Failed(String),
}

/// What the writer does next.
#[derive(Clone, Copy, Debug, PartialEq, Eq, Structural)]
pub enum PumpStep {
    /// Fetch more.
    Continue,
    /// Stop: the body has ended, or nobody wants the rest.
    Stop,
}

/// What a read comes to.
pub enum ReadStep {
    /// Bytes to hand to the decoder.
    Bytes(Vec<u8>),
    /// The track is over.
    End,
    /// The download failed, with this to say.
    Failed(String),
    /// Nothing to hand over yet: wait for the buffer to change, for at most this
    /// many nanoseconds, and ask again.
    Blocked(u64),
    /// The read has waited as long as it may: the track ends here.
    Stalled,
}

/// What waiting for a number of bytes comes to.
pub enum Wait {
    /// They are there, or the body ended first.
    Ready,
    /// The download failed, with this to say.
    Failed(String),
    /// Not yet: wait for the buffer to change and ask again.
    Blocked,
}

/// Where to move the cursor to.
#[derive(Clone, Copy, Debug, PartialEq, Eq, Structural)]
pub enum SeekFrom {
    Start(u64),
    Current(i64),
    End(i64),
}

/// Why the cursor could not be moved.
#[derive(Clone, Copy, Debug, PartialEq, Eq, Structural)]
pub enum SeekError {
    /// The end is not known yet.
    UnknownLength,
    /// The target lies before the start.
    BeforeStart,
}

impl SeekError {
    /// What is said of it.
    pub open spec fn text(self) -> Seq<char> {
        match self {
            SeekError::UnknownLength => "cannot seek from the end of a stream of unknown length"@,
            SeekError::BeforeStart => "cannot seek before the start of the stream"@,
        }
    }

    /// What is said of it.
    pub fn message(self) -> (r: &'static str)
        ensures
            r@ == self.text(),
    {
        match self {
            SeekError::UnknownLength => "cannot seek from the end of a stream of unknown length",
            SeekError::BeforeStart => "cannot seek before the start of the stream",
        }
    }
}

/// The reading half, handed to the decoder.
#[derive(Debug)]
pub struct StreamingRead {
    /// Where the next read starts.
    pub position: u64,
}

/// The writing half, which pumps the body into the buffer.
#[derive(Debug)]
pub struct StreamingWrite {}

/// What an over-long track fails with.
pub open spec fn too_large() -> Seq<char> {
    "the track is larger than "@ + decimal(MAX_BYTES as nat) + " bytes"@
}

/// What one arrival makes of a stream.
pub open spec fn pumped(stream: Stream, arrival: Arrival) -> (Stream, PumpStep) {
    match arrival {
        Arrival::Chunk(chunk) => if chunk@.len() == 0 {
            (stream.ended(None), PumpStep::Stop)
        } else if stream.abandoned {
            (stream, PumpStep::Stop)
        } else if stream.bytes.len() + chunk@.len() > MAX_BYTES {
            (stream.ended(Some(too_large())), PumpStep::Stop)
        } else {
            (stream.grown(chunk@), PumpStep::Continue)
        },
        Arrival::Interrupted => (stream, PumpStep::Continue),
        Arrival::Failed(failure) => (stream.ended(Some(failure@)), PumpStep::Stop),
    }
}

/// How many bytes a read with this much room hands over.
pub open spec fn readable(stream: Stream, position: int, room: int) -> int {
    if position >= stream.bytes.len() {
        0
    } else if room < stream.bytes.len() - position {
        room
    } else {
        stream.bytes.len() - position
    }
}

/// Whether a read that has waited for `waited` nanoseconds is answered with
/// this. What has been buffered is handed over before a failure is reported, and
/// a failure before the end. A read that has to wait may do so for what is left
/// of its time, and no longer.
pub open spec fn read_answers(
    stream: Stream,
    position: int,
    room: int,
    waited: int,
    step: ReadStep,
) -> bool {
    let take = readable(stream, position, room);
    if room == 0 {
        step matches ReadStep::Bytes(bytes) && bytes@.len() == 0
    } else if take > 0 {
        step matches ReadStep::Bytes(bytes) && bytes@ == stream.bytes.subrange(
            position,
            position + take,
        )
    } else if stream.failure is Some {
        step matches ReadStep::Failed(message) && message@ == stream.failure->0
    } else if stream.finished {
        step is End
    } else if waited < READ_TIMEOUT_NANOS {
        step == ReadStep::Blocked((READ_TIMEOUT_NANOS - waited) as u64)
    } else {
        step is Stalled
    }
}

/// Whether waiting for `bytes` bytes is answered with this.
pub open spec fn wait_answers(stream: Stream, bytes: int, wait: Wait) -> bool {
    if stream.failure is Some {
        wait matches Wait::Failed(message) && message@ == stream.failure->0
    } else if stream.finished || stream.bytes.len() >= bytes {
        wait is Ready
    } else {
        wait is Blocked
    }
}

/// An unsigned number reread as a signed one of the same width.
pub open spec fn reread(n: u64) -> int {
    if n <= i64::MAX {
        n as int
    } else {
        n - u64::MAX - 1
    }
}

/// Where the end of a stream is, if that is known: where the server said it
/// would be, and otherwise where it turned out to be.
pub open spec fn known_end(stream: Stream) -> Option<int> {
    match stream.byte_len {
        Some(len) => Some(reread(len)),
        None => if stream.finished {
            Some(stream.bytes.len() as int)
        } else {
            None
        },
    }
}

/// The position a seek asks for, if the end it may need is known.
pub open spec fn seek_target(stream: Stream, position: u64, from: SeekFrom) -> Option<int> {
    match from {
        SeekFrom::Start(offset) => Some(reread(offset)),
        SeekFrom::Current(offset) => Some(position + offset),
        SeekFrom::End(offset) => match known_end(stream) {
            Some(end) => Some(end + offset),
            None => None,
        },
    }
}

/// Opens a stream: what both ends share, and the two ends.
pub fn channel(byte_len: Option<u64>) -> (r: (Shared, StreamingRead, StreamingWrite))
    ensures
        r.0@ == Stream::opened(byte_len),
        r.1.position == 0,
{
    (
        Shared { bytes: Vec::new(), byte_len, finished: false, failure: None, abandoned: false },
        StreamingRead { position: 0 },
        StreamingWrite {  },
    )
}

impl Shared {
    /// Marks the body as ended. A failure that is known already is kept.
    pub fn finish(&mut self, failure: Option<String>)
        ensures
            final(self)@ == old(self)@.ended(
                match failure {
                    Some(failure) => Some(failure@),
                    None => None,
                },
            ),
    {
        self.finished = true;
        if self.failure.is_none() {
            self.failure = failure;
        }
    }
}

impl StreamingRead {
    /// Whether the cursor is one that seeking and reading can reach.
    pub open spec fn valid(&self) -> bool {
        self.position <= i64::MAX
    }

    /// Total length, if the server declared one.
    pub fn byte_len(&self, shared: &Shared) -> (r: Option<u64>)
        ensures
            r == shared@.byte_len,
    {
        shared.byte_len
    }

    /// How much has been buffered so far.
    pub fn buffered(&self, shared: &Shared) -> (r: usize)
        ensures
            r == shared@.bytes.len(),
    {
        shared.bytes.len()
    }

    /// Whether `bytes` have been buffered, or the body ended first.
    ///
    /// Asked before handing the reader to the player so playback opens with a
    /// cushion instead of stuttering on the first frames.
    pub fn wait_for(&self, shared: &Shared, bytes: usize) -> (r: Wait)
        ensures
            wait_answers(shared@, bytes as int, r),
    {
        match &shared.failure {
            Some(failure) => Wait::Failed(failure.clone()),
            None => if shared.finished || shared.bytes.len() >= bytes {
                Wait::Ready
            } else {
                Wait::Blocked
            },
        }
    }

    /// Reads up to `room` bytes from the cursor on, and moves it past them.
    /// `waited` is how long this read has waited since it began, in nanoseconds,
    /// however often the buffer has changed meanwhile.
    pub fn read(&mut self, shared: &Shared, room: usize, waited: u64) -> (r: ReadStep)
        requires
            old(self).valid(),
            shared@.bounded(),
        ensures
            read_answers(shared@, old(self).position as int, room as int, waited as int, r),
            final(self).position == old(self).position + readable(
                shared@,
                old(self).position as int,
                room as int,
            ),
            final(self).valid(),
    {
        if room == 0 {
            return ReadStep::Bytes(Vec::new());
        }
        let available: u64 = shared.bytes.len() as u64;
        if self.position < available {
            let start: usize = self.position as usize;
            let left: usize = shared.bytes.len() - start;
            let take: usize = if room < left {
                room
            } else {
                left
            };
            let mut out: Vec<u8> = Vec::new();
            let mut index: usize = 0;
            while index < take
                invariant
                    index <= take,
                    start + take <= shared.bytes@.len() <= MAX_BYTES,
                    out@ == shared.bytes@.subrange(start as int, start + index),
                decreases take - index,
            {
                out.push(shared.bytes[start + index]);
                index = index + 1;
                proof {
                    assert(out@ =~= shared.bytes@.subrange(start as int, start + index));
                }
            }
            self.position = self.position + take as u64;
            return ReadStep::Bytes(out);
        }
        match &shared.failure {
            Some(failure) => ReadStep::Failed(failure.clone()),
            // Caught up with the write head: either that is the end of the
            // track, or the downloader has more on the way.
            None => if shared.finished {
                ReadStep::End
            } else if waited < READ_TIMEOUT_NANOS {
                ReadStep::Blocked(READ_TIMEOUT_NANOS - waited)
            } else {
                ReadStep::Stalled
            },
        }
    }

    /// Moves the cursor. A read past the write head is what waits, so any
    /// position from the start on is accepted. Seeking relative to the end
    /// needs the length, which is only known where the server declared it or
    /// once the body has ended.
    pub fn seek(&mut self, shared: &Shared, from: SeekFrom) -> (r: Result<u64, SeekError>)
        requires
            old(self).valid(),
            shared@.bounded(),
            seek_target(shared@, old(self).position, from) matches Some(target) ==> i64::MIN
                <= target <= i64::MAX,
        ensures
            match seek_target(shared@, old(self).position, from) {
                None => r == Err::<u64, SeekError>(SeekError::UnknownLength),
                Some(target) => if target < 0 {
                    r == Err::<u64, SeekError>(SeekError::BeforeStart)
                } else {
                    r == Ok::<u64, SeekError>(target as u64)
                },
            },
            final(self).position == match r {
                Ok(position) => position,
                Err(_) => old(self).position,
            },
            final(self).valid(),
    {
        let target: i64 = match from {
            SeekFrom::Start(offset) => as_signed(offset),
            SeekFrom::Current(offset) => self.position as i64 + offset,
            SeekFrom::End(offset) => {
                let end: i64 = match shared.byte_len {
                    Some(len) => as_signed(len),
                    None => if shared.finished {
                        shared.bytes.len() as i64
                    } else {
                        return Err(SeekError::UnknownLength);
                    },
                };
                end + offset
            },
        };
        if target < 0 {
            return Err(SeekError::BeforeStart);
        }
        self.position = target as u64;
        Ok(self.position)
    }

    /// Gives up the reading half, so that its download stops.
    pub fn close(self, shared: &mut Shared)
        ensures
            final(shared)@ == old(shared)@.left(),
    {
        shared.abandoned = true;
    }
}

/// Rereads an unsigned number as a signed one of the same width.
fn as_signed(n: u64) -> (r: i64)
    ensures
        r == reread(n),
{
    if n <= 0x7fff_ffff_ffff_ffff {
        n as i64
    } else {
        -((u64::MAX - n) as i64) - 1
    }
}

impl StreamingWrite {
    /// Takes in what the network handed over, and says whether to fetch more.
    /// It stops once the reader has gone, so skipping a track stops its
    /// download.
    pub fn pump(&self, shared: &mut Shared, arrival: Arrival) -> (r: PumpStep)
        requires
            old(shared)@.bounded(),
        ensures
            (final(shared)@, r) == pumped(old(shared)@, arrival),
            final(shared)@.bounded(),
    {
        match arrival {
            Arrival::Chunk(chunk) => {
                if chunk.len() == 0 {
                    shared.finish(None);
                    return PumpStep::Stop;
                }
                if shared.abandoned {
                    return PumpStep::Stop;
                }
                if chunk.len() > MAX_BYTES - shared.bytes.len() {
                    let mut failure = "the track is larger than ".to_owned();
                    failure.append(write_decimal(MAX_BYTES as u64).as_str());
                    failure.append(" bytes");
                    shared.finish(Some(failure));
                    return PumpStep::Stop;
                }
                let mut chunk = chunk;
                shared.bytes.append(&mut chunk);
                PumpStep::Continue
            },
            Arrival::Interrupted => PumpStep::Continue,
            Arrival::Failed(failure) => {
                shared.finish(Some(failure));
                PumpStep::Stop
            },
        }
    }

    /// Gives up the writing half. A reader must not be left waiting for more
    /// than will ever come.
    pub fn close(self, shared: &mut Shared)
        ensures
            final(shared)@ == old(shared)@.ended(None),
    {
        shared.finish(None);
    }
}

/// Something that happens to a stream: the network hands something over, or
/// the decoder reads.
pub enum Event {
    Arrived(Arrival),
    Read(nat),
}

/// A stream with its reader, and what has come in and gone out.
#[verifier::ext_equal]
pub struct Session {
    pub stream: Stream,
    pub position: int,
    /// Every piece of the body the writer was told to go on after, in turn.
    pub fetched: Seq<u8>,
    /// Every byte the decoder was handed, in turn.
    pub decoded: Seq<u8>,
}

impl Session {
    /// A session of which nothing has happened yet.
    pub open spec fn opened(byte_len: Option<u64>) -> Session {
        Session {
            stream: Stream::opened(byte_len),
            position: 0,
            fetched: seq![],
            decoded: seq![],
        }
    }

    /// The session after one event.
    pub open spec fn step(self, event: Event) -> Session {
        match event {
            Event::Arrived(arrival) => {
                let (stream, next) = pumped(self.stream, arrival);
                let piece = match arrival {
                    Arrival::Chunk(chunk) if next is Continue => chunk@,
                    _ => seq![],
                };
                Session { stream, fetched: self.fetched + piece, ..self }
            },
            Event::Read(room) => {
                let take = readable(self.stream, self.position, room as int);
                Session {
                    position: self.position + take,
                    decoded: self.decoded + self.stream.bytes.subrange(
                        self.position,
                        self.position + take,
                    ),
                    ..self
                }
            },
        }
    }

    /// The session after a run of events.
    pub open spec fn run(self, events: Seq<Event>) -> Session
        decreases events.len(),
    {
        if events.len() == 0 {
            self
        } else {
            self.run(events.drop_last()).step(events.last())
        }
    }
}

/// However arrivals and reads interleave, the decoder is handed the body as it
/// was fetched: in order, without a gap and without a repeat. Everything
/// fetched is retained, and never passes the ceiling.
pub proof fn reads_give_back_what_arrived(byte_len: Option<u64>, events: Seq<Event>)
    ensures
        ({
            let session = Session::opened(byte_len).run(events);
            &&& session.stream.bytes == session.fetched
            &&& 0 <= session.position <= session.fetched.len()
            &&& session.decoded == session.fetched.take(session.position)
            &&& session.stream.bounded()
        }),
    decreases events.len(),
{
    if events.len() == 0 {
        assert(Seq::<u8>::empty().take(0) =~= Seq::<u8>::empty());
    } else {
        reads_give_back_what_arrived(byte_len, events.drop_last());
        let before = Session::opened(byte_len).run(events.drop_last());
        let after = before.step(events.last());
        assert(after.stream.bytes =~= after.fetched);
        assert(after.decoded =~= after.fetched.take(after.position));
    }
}

/// The stream after a run of arrivals.
pub open spec fn arrived(stream: Stream, arrivals: Seq<Arrival>) -> Stream
    decreases arrivals.len(),
{
    if arrivals.len() == 0 {
        stream
    } else {
        pumped(arrived(stream, arrivals.drop_last()), arrivals.last()).0
    }
}

/// Everything fetched is retained: whatever arrives later, what has arrived
/// stays where it is, and only more comes after it.
pub proof fn what_arrived_stays(stream: Stream, arrivals: Seq<Arrival>)
    ensures
        stream.bytes.is_prefix_of(arrived(stream, arrivals).bytes),
    decreases arrivals.len(),
{
    if arrivals.len() > 0 {
        what_arrived_stays(stream, arrivals.drop_last());
        let before = arrived(stream, arrivals.drop_last());
        let after = arrived(stream, arrivals);
        assert(before.bytes.is_prefix_of(after.bytes));
        assert(stream.bytes =~= after.bytes.take(stream.bytes.len() as int));
    }
}

/// A read that could be answered in full is answered the same whatever arrives
/// later, so a decoder that rewinds reads the bytes it read before.
pub proof fn rereading_gives_the_same_bytes(
    stream: Stream,
    arrival: Arrival,
    position: int,
    room: int,
)
    requires
        0 <= position,
        0 <= room,
        position + room <= stream.bytes.len(),
    ensures
        readable(pumped(stream, arrival).0, position, room) == readable(stream, position, room),
        pumped(stream, arrival).0.bytes.subrange(position, position + room)
            == stream.bytes.subrange(position, position + room),
{
    assert(pumped(stream, arrival).0.bytes.subrange(position, position + room)
        =~= stream.bytes.subrange(position, position + room));
}

/// Once a body has ended, however it did, neither a read nor a wait is left
/// blocked, and no arrival makes it unended.
pub proof fn an_ended_stream_never_blocks(
    stream: Stream,
    failure: Option<Seq<char>>,
    arrival: Arrival,
    position: int,
    room: int,
    waited: int,
    step: ReadStep,
    wait: Wait,
)
    requires
        read_answers(stream.ended(failure), position, room, waited, step),
        wait_answers(stream.ended(failure), room, wait),
    ensures
        !(step is Blocked),
        !(step is Stalled),
        !(wait is Blocked),
        pumped(stream.ended(failure), arrival).0.finished,
{
}

/// How long a run of waits was in all.
pub open spec fn total(waits: Seq<nat>) -> nat
    decreases waits.len(),
{
    if waits.len() == 0 {
        0
    } else {
        total(waits.drop_last()) + waits.last()
    }
}

/// Whether a read was told to wait before each of these waits, and no wait was
/// longer than it was told.
pub open spec fn waits_as_told(waits: Seq<nat>) -> bool
    decreases waits.len(),
{
    waits.len() > 0 ==> {
        &&& waits_as_told(waits.drop_last())
        &&& total(waits.drop_last()) < READ_TIMEOUT_NANOS
        &&& waits.last() <= READ_TIMEOUT_NANOS - total(waits.drop_last())
    }
}

/// A read waits at most ten seconds in all, however often the buffer changes
/// without a byte for it. After that it ends: where still nothing has arrived
/// for it, the track has stalled, and the cursor has not moved.
pub proof fn a_read_waits_ten_seconds_at_most(
    waits: Seq<nat>,
    stream: Stream,
    position: int,
    room: int,
    step: ReadStep,
)
    requires
        waits_as_told(waits),
        read_answers(stream, position, room, total(waits) as int, step),
    ensures
        total(waits) <= READ_TIMEOUT_NANOS,
        READ_TIMEOUT_NANOS == READ_TIMEOUT_SECONDS * 1_000_000_000,
        step matches ReadStep::Blocked(left) ==> left > 0 && total(waits) + left
            == READ_TIMEOUT_NANOS,
        total(waits) == READ_TIMEOUT_NANOS ==> !(step is Blocked),
        total(waits) == READ_TIMEOUT_NANOS && room > 0 && position >= stream.bytes.len()
            && stream.failure is None && !stream.finished ==> step is Stalled && readable(
            stream,
            position,
            room,
        ) == 0,
{
}

/// Once the reader has gone, the next piece of the body stops the download and
/// is not kept.
pub proof fn an_abandoned_stream_fetches_no_more(stream: Stream, arrival: Arrival)
    requires
        arrival is Chunk,
    ensures
        pumped(stream.left(), arrival).1 is Stop,
        pumped(stream.left(), arrival).0.bytes == stream.bytes,
{
}

/// The first failure is the one that is reported: neither a later one nor an
/// orderly end replaces it.
pub proof fn the_first_failure_stands(
    stream: Stream,
    later: Option<Seq<char>>,
    arrival: Arrival,
)
    requires
        stream.failure is Some,
    ensures
        stream.ended(later).failure == stream.failure,
        pumped(stream, arrival).0.failure == stream.failure,
{
}

/// A stream starts empty and going, and only what happens to it changes: more of
/// the body goes behind what is there, a reader that leaves is all that leaves,
/// and an end is an end, with the reason it was given unless it had one.
pub proof fn a_stream_changes_as_it_is_told(
    stream: Stream,
    byte_len: Option<u64>,
    chunk: Seq<u8>,
    failure: Option<Seq<char>>,
)
    ensures
        ({
            let fresh = Stream::opened(byte_len);
            &&& fresh.bytes.len() == 0
            &&& fresh.byte_len == byte_len
            &&& !fresh.finished
            &&& fresh.failure is None
            &&& !fresh.abandoned
        }),
        ({
            let later = stream.grown(chunk);
            &&& later.bytes.len() == stream.bytes.len() + chunk.len()
            &&& later.bytes.take(stream.bytes.len() as int) == stream.bytes
            &&& later.bytes.skip(stream.bytes.len() as int) == chunk
            &&& later == (Stream { bytes: later.bytes, ..stream })
        }),
        stream.left().abandoned,
        stream.left() == (Stream { abandoned: true, ..stream }),
        ({
            let later = stream.ended(failure);
            &&& later.finished
            &&& stream.failure is Some ==> later.failure == stream.failure
            &&& stream.failure is None ==> later.failure == failure
            &&& later == (Stream { finished: true, failure: later.failure, ..stream })
        }),
        stream.bounded() <==> stream.bytes.len() <= 96 * 1024 * 1024,
{
    assert(stream.grown(chunk).bytes.take(stream.bytes.len() as int) =~= stream.bytes);
    assert(stream.grown(chunk).bytes.skip(stream.bytes.len() as int) =~= chunk);
}

/// What arrives is kept while somebody reads and there is room, byte for byte and
/// behind what is there, and more is fetched then. An empty piece ends the body.
/// A piece that would pass the ceiling fails it, as a failed transfer does. An
/// interruption is nothing.
pub proof fn what_arrives_is_kept(stream: Stream, arrival: Arrival)
    ensures
        ({
            let (later, next) = pumped(stream, arrival);
            &&& arrival matches Arrival::Chunk(chunk) ==> {
                let fits = stream.bytes.len() + chunk@.len() <= 96 * 1024 * 1024;
                &&& chunk@.len() == 0 ==> next is Stop && later.finished && later.bytes
                    == stream.bytes && later.failure == stream.failure
                &&& chunk@.len() > 0 && stream.abandoned ==> next is Stop && later == stream
                &&& chunk@.len() > 0 && !stream.abandoned && fits ==> next is Continue
                    && later.bytes == stream.bytes + chunk@ && later.finished == stream.finished
                    && later.failure == stream.failure
                &&& chunk@.len() > 0 && !stream.abandoned && !fits ==> next is Stop
                    && later.finished && later.failure is Some && later.bytes == stream.bytes
            }
            &&& arrival is Interrupted ==> next is Continue && later == stream
            &&& arrival matches Arrival::Failed(reason) ==> {
                &&& next is Stop
                &&& later.finished
                &&& later.bytes == stream.bytes
                &&& stream.failure is None ==> later.failure == Some(reason@)
                &&& stream.failure is Some ==> later.failure == stream.failure
            }
            &&& later.byte_len == stream.byte_len
            &&& later.abandoned == stream.abandoned
        }),
{
}

/// A read hands over what is buffered from the cursor on, as much as there is
/// room for and no more than there is, in order and from the byte the cursor is
/// at. Only where there is none does it fail, end or wait: it fails with the
/// reason the body failed with, ends where the body has ended, and otherwise
/// waits for what is left of its ten seconds or gives up.
pub proof fn a_read_hands_over_what_is_there(
    stream: Stream,
    position: int,
    room: int,
    waited: int,
    step: ReadStep,
)
    requires
        0 <= position,
        0 <= room,
        0 <= waited,
        read_answers(stream, position, room, waited, step),
    ensures
        ({
            let take = readable(stream, position, room);
            let there = position < stream.bytes.len();
            &&& 0 <= take <= room
            &&& there ==> position + take <= stream.bytes.len()
            &&& there ==> take == room || position + take == stream.bytes.len()
            &&& !there ==> take == 0
            &&& step is Bytes <==> room == 0 || there
            &&& step matches ReadStep::Bytes(bytes) ==> {
                &&& bytes@.len() == take
                &&& forall|i: int| 0 <= i < take ==> bytes@[i] == stream.bytes[position + i]
            }
            &&& step is Failed <==> room > 0 && !there && stream.failure is Some
            &&& step matches ReadStep::Failed(reason) ==> Some(reason@) == stream.failure
            &&& step is End <==> room > 0 && !there && stream.failure is None && stream.finished
            &&& step is Blocked <==> room > 0 && !there && stream.failure is None
                && !stream.finished && waited < 10_000_000_000
            &&& step matches ReadStep::Blocked(left) ==> left == 10_000_000_000 - waited
            &&& step is Stalled <==> room > 0 && !there && stream.failure is None
                && !stream.finished && waited >= 10_000_000_000
        }),
{
}

/// Waiting for bytes is over when they are there or the body has ended, and
/// fails with the reason the body failed with, which comes first.
pub proof fn a_wait_is_over_when_it_can_be(stream: Stream, bytes: int, wait: Wait)
    requires
        wait_answers(stream, bytes, wait),
    ensures
        wait is Failed <==> stream.failure is Some,
        wait matches Wait::Failed(reason) ==> Some(reason@) == stream.failure,
        wait is Ready <==> stream.failure is None && (stream.finished || stream.bytes.len()
            >= bytes),
        wait is Blocked <==> stream.failure is None && !stream.finished && stream.bytes.len()
            < bytes,
{
}

/// Seeks say where the cursor goes: so many bytes from the start, from where it
/// is, or from the end, which is where the server said or where the body turned
/// out to end. An offset from where a seek led is worth as much as one to
/// there.
pub proof fn seeks_say_where_the_cursor_goes(
    stream: Stream,
    position: u64,
    start: u64,
    offset: i64,
)
    ensures
        start <= i64::MAX ==> seek_target(stream, position, SeekFrom::Start(start)) == Some(
            start as int,
        ),
        start > i64::MAX ==> (seek_target(stream, position, SeekFrom::Start(start)) matches Some(
            target,
        ) && target < 0),
        seek_target(stream, position, SeekFrom::Current(offset)) == Some(position + offset),
        stream.byte_len matches Some(len) ==> (len <= i64::MAX ==> seek_target(
            stream,
            position,
            SeekFrom::End(offset),
        ) == Some(len + offset)),
        stream.byte_len is None && stream.finished ==> seek_target(
            stream,
            position,
            SeekFrom::End(offset),
        ) == Some(stream.bytes.len() + offset),
        stream.byte_len is None && !stream.finished ==> seek_target(
            stream,
            position,
            SeekFrom::End(offset),
        ) is None,
        seek_target(stream, start, SeekFrom::Current(0)) == Some(start as int),
{
}

/// A number too large for a signed one wraps round to a negative one, the same
/// distance from where it is and 2^64 below; any other stays.
pub proof fn large_numbers_wrap_round(n: u64)
    ensures
        -0x8000_0000_0000_0000 <= reread(n) < 0x8000_0000_0000_0000,
        reread(n) == n || reread(n) + 0x1_0000_0000_0000_0000 == n,
{
}

/// What is said of a refused seek says which of the two it is, and an over-long
/// track is told its ceiling.
pub proof fn refusals_are_told_apart()
    ensures
        SeekError::UnknownLength.text()
            == "cannot seek from the end of a stream of unknown length"@,
        SeekError::BeforeStart.text() == "cannot seek before the start of the stream"@,
        too_large() == "the track is larger than "@ + decimal(100663296) + " bytes"@,
{
}

/// What both ends share is seen as it is.
pub proof fn a_stream_is_seen_as_it_is(shared: Shared)
    ensures
        shared@.bytes == shared.bytes@,
        shared@.byte_len == shared.byte_len,
        shared@.finished == shared.finished,
        shared@.failure is Some <==> shared.failure is Some,
        shared.failure matches Some(reason) ==> shared@.failure == Some(reason@),
        shared@.abandoned == shared.abandoned,
{
}

} // verus!
