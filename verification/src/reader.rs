//! The loop that feeds a session with frames.
//!
//! Each turn of the loop tries to complete a frame from the bytes of a pipe and hands it to the
//! session; where no frame was completed, the pattern is handed to the session instead. The
//! caller performs one [`ReaderAction`] after another, and reports how each went as a
//! [`ReaderEvent`]; [`FrameReader::step`] decides what comes next.

use vstd::prelude::*;

use crate::frame::BUFFER_SIZE;

verus! {

/// Pause after the pipe was lost, in milliseconds.
pub const BACK_OFF_MILLIS: u64 = 100;

/// Pause after a turn without a frame from the pipe, in milliseconds.
pub const PATTERN_PAUSE_MILLIS: u64 = 33;

/// Pause after a turn with a frame from the pipe, in milliseconds.
pub const FRAME_PAUSE_MILLIS: u64 = 10;

/// How an action of the loop went.
#[derive(Debug, PartialEq, Eq)]
pub enum ReaderEvent<B> {
    /// Whether the loop was asked to stop.
    Exit(bool),
    /// The pipe was opened.
    PipeOpened,
    /// The pipe could not be opened.
    PipeUnavailable,
    /// These bytes were read; none if the writer disconnected.
    Bytes(B),
    /// There is nothing to read yet.
    WouldBlock,
    /// Reading failed.
    ReadFailed,
    /// The pause after the pipe was lost is over.
    BackedOff,
    /// The session was handed the frame.
    FrameStored,
    /// The session was handed the pattern.
    PatternStored,
    /// The pause at the end of the turn is over.
    Paused,
}

/// What the loop does next.
#[derive(Debug, PartialEq, Eq)]
pub enum ReaderAction<B> {
    /// Find out whether the loop was asked to stop.
    CheckExit,
    /// Leave the loop.
    Stop,
    /// Open the pipe, without blocking.
    OpenPipe,
    /// Read at most `len` bytes from the pipe.
    ReadPipe {
        /// Bytes that the frame still needs.
        len: usize,
    },
    /// Close the pipe, then pause this long.
    BackOff {
        /// Length of the pause.
        millis: u64,
    },
    /// Hand this frame to the session.
    StoreFrame(B),
    /// Hand the pattern to the session.
    StorePattern,
    /// Pause this long, at the end of the turn.
    Pause {
        /// Length of the pause.
        millis: u64,
    },
}

impl View for ReaderEvent<Vec<u8>> {
    type V = ReaderEvent<Seq<u8>>;

    open spec fn view(&self) -> ReaderEvent<Seq<u8>> {
        match *self {
            ReaderEvent::Exit(stop) => ReaderEvent::Exit(stop),
            ReaderEvent::PipeOpened => ReaderEvent::PipeOpened,
            ReaderEvent::PipeUnavailable => ReaderEvent::PipeUnavailable,
            ReaderEvent::Bytes(bytes) => ReaderEvent::Bytes(bytes@),
            ReaderEvent::WouldBlock => ReaderEvent::WouldBlock,
            ReaderEvent::ReadFailed => ReaderEvent::ReadFailed,
            ReaderEvent::BackedOff => ReaderEvent::BackedOff,
            ReaderEvent::FrameStored => ReaderEvent::FrameStored,
            ReaderEvent::PatternStored => ReaderEvent::PatternStored,
            ReaderEvent::Paused => ReaderEvent::Paused,
        }
    }
}

impl View for ReaderAction<Vec<u8>> {
    type V = ReaderAction<Seq<u8>>;

    open spec fn view(&self) -> ReaderAction<Seq<u8>> {
        match *self {
            ReaderAction::CheckExit => ReaderAction::CheckExit,
            ReaderAction::Stop => ReaderAction::Stop,
            ReaderAction::OpenPipe => ReaderAction::OpenPipe,
            ReaderAction::ReadPipe { len } => ReaderAction::ReadPipe { len },
            ReaderAction::BackOff { millis } => ReaderAction::BackOff { millis },
            ReaderAction::StoreFrame(frame) => ReaderAction::StoreFrame(frame@),
            ReaderAction::StorePattern => ReaderAction::StorePattern,
            ReaderAction::Pause { millis } => ReaderAction::Pause { millis },
        }
    }
}

/// State of the loop.
pub struct FrameReader {
    has_pipe: bool,
    pipe_open: bool,
    read_buffer: Vec<u8>,
}

/// What the loop remembers.
#[verifier::ext_equal]
pub struct ReaderView {
    /// Is there a pipe to read from?
    pub has_pipe: bool,
    /// Is the pipe open?
    pub pipe_open: bool,
    /// The bytes of the frame that is being read.
    pub partial: Seq<u8>,
}

impl View for FrameReader {
    type V = ReaderView;

    closed spec fn view(&self) -> ReaderView {
        ReaderView {
            has_pipe: self.has_pipe,
            pipe_open: self.pipe_open,
            partial: self.read_buffer@,
        }
    }
}

impl ReaderView {
    /// The loop before its first turn.
    pub open spec fn started(has_pipe: bool) -> ReaderView {
        ReaderView { has_pipe, pipe_open: false, partial: Seq::empty() }
    }

    /// What holds throughout the loop: the frame being read is not complete, and without an open
    /// pipe nothing is being read.
    pub open spec fn wf(self) -> bool {
        &&& self.partial.len() < BUFFER_SIZE
        &&& self.pipe_open ==> self.has_pipe
        &&& !self.pipe_open ==> self.partial.len() == 0
    }

    /// Whether `event` can come now: the pipe is opened only if there is one and it is not open,
    /// and read only if it is open, no further than the end of the frame.
    pub open spec fn admits(self, event: ReaderEvent<Seq<u8>>) -> bool {
        match event {
            ReaderEvent::PipeOpened => self.has_pipe && !self.pipe_open,
            ReaderEvent::Bytes(bytes) => self.pipe_open && self.partial.len() + bytes.len()
                <= BUFFER_SIZE,
            ReaderEvent::WouldBlock => self.pipe_open,
            ReaderEvent::ReadFailed => self.pipe_open,
            _ => true,
        }
    }

    /// The loop without its pipe, and without the frame that was being read.
    pub open spec fn pipe_lost(self) -> ReaderView {
        ReaderView { pipe_open: false, partial: Seq::empty(), ..self }
    }

    /// The action that reads on.
    pub open spec fn read_on(self) -> ReaderAction<Seq<u8>> {
        ReaderAction::ReadPipe { len: (BUFFER_SIZE - self.partial.len()) as usize }
    }

    /// What the loop remembers after `event`.
    pub open spec fn after(self, event: ReaderEvent<Seq<u8>>) -> ReaderView {
        match event {
            ReaderEvent::PipeOpened => ReaderView {
                pipe_open: true,
                partial: Seq::empty(),
                ..self
            },
            ReaderEvent::ReadFailed => self.pipe_lost(),
            ReaderEvent::Bytes(bytes) => if bytes.len() == 0 {
                self.pipe_lost()
            } else if self.partial.len() + bytes.len() == BUFFER_SIZE {
                ReaderView { partial: Seq::empty(), ..self }
            } else {
                ReaderView { partial: self.partial + bytes, ..self }
            },
            _ => self,
        }
    }

    /// What the loop does after `event`.
    pub open spec fn action_after(self, event: ReaderEvent<Seq<u8>>) -> ReaderAction<Seq<u8>> {
        match event {
            ReaderEvent::Exit(stop) => if stop {
                ReaderAction::Stop
            } else if !self.has_pipe {
                ReaderAction::StorePattern
            } else if !self.pipe_open {
                ReaderAction::OpenPipe
            } else {
                self.read_on()
            },
            ReaderEvent::PipeOpened => self.after(event).read_on(),
            ReaderEvent::PipeUnavailable => ReaderAction::StorePattern,
            ReaderEvent::Bytes(bytes) => if bytes.len() == 0 {
                ReaderAction::BackOff { millis: BACK_OFF_MILLIS }
            } else if self.partial.len() + bytes.len() == BUFFER_SIZE {
                ReaderAction::StoreFrame(self.partial + bytes)
            } else {
                ReaderAction::StorePattern
            },
            ReaderEvent::WouldBlock => ReaderAction::StorePattern,
            ReaderEvent::ReadFailed => ReaderAction::BackOff { millis: BACK_OFF_MILLIS },
            ReaderEvent::BackedOff => ReaderAction::StorePattern,
            ReaderEvent::FrameStored => ReaderAction::Pause { millis: FRAME_PAUSE_MILLIS },
            ReaderEvent::PatternStored => ReaderAction::Pause { millis: PATTERN_PAUSE_MILLIS },
            ReaderEvent::Paused => ReaderAction::CheckExit,
        }
    }
}

impl FrameReader {
    /// Starts the loop; its first action is to find out whether it was asked to stop.
    pub fn new(has_pipe: bool) -> (reader: FrameReader)
        ensures
            reader@ == ReaderView::started(has_pipe),
            reader@.wf(),
    {
        let reader = FrameReader { has_pipe, pipe_open: false, read_buffer: Vec::new() };
        assert(reader@ =~= ReaderView::started(has_pipe));
        reader
    }

    /// Reads on until the frame is complete.
    fn read_pipe(&self) -> (action: ReaderAction<Vec<u8>>)
        requires
            self@.wf(),
        ensures
            action@ == self@.read_on(),
    {
        ReaderAction::ReadPipe { len: BUFFER_SIZE as usize - self.read_buffer.len() }
    }

    /// Gives up the pipe and the frame that was being read.
    fn lose_pipe(&mut self) -> (action: ReaderAction<Vec<u8>>)
        ensures
            final(self)@ == old(self)@.pipe_lost(),
            action == (ReaderAction::<Vec<u8>>::BackOff { millis: BACK_OFF_MILLIS }),
    {
        self.pipe_open = false;
        self.read_buffer.clear();
        assert(self@ =~= old(self)@.pipe_lost());
        ReaderAction::BackOff { millis: BACK_OFF_MILLIS }
    }

    /// Decides what the loop does after `event`.
    pub fn step(&mut self, event: ReaderEvent<Vec<u8>>) -> (action: ReaderAction<Vec<u8>>)
        requires
            old(self)@.wf(),
            old(self)@.admits(event@),
        ensures
            final(self)@ == old(self)@.after(event@),
            action@ == old(self)@.action_after(event@),
            final(self)@.wf(),
    {
        let ghost before = self@;
        match event {
            ReaderEvent::Exit(stop) => {
                if stop {
                    ReaderAction::Stop
                } else if !self.has_pipe {
                    ReaderAction::StorePattern
                } else if !self.pipe_open {
                    ReaderAction::OpenPipe
                } else {
                    self.read_pipe()
                }
            },
            ReaderEvent::PipeOpened => {
                self.pipe_open = true;
                self.read_buffer.clear();
                assert(self@ =~= before.after(event@));
                self.read_pipe()
            },
            ReaderEvent::PipeUnavailable => ReaderAction::StorePattern,
            ReaderEvent::Bytes(bytes) => {
                if bytes.len() == 0 {
                    self.lose_pipe()
                } else {
                    let mut bytes: Vec<u8> = bytes;
                    self.read_buffer.append(&mut bytes);
                    if self.read_buffer.len() == BUFFER_SIZE as usize {
                        let mut frame: Vec<u8> = Vec::new();
                        std::mem::swap(&mut frame, &mut self.read_buffer);
                        assert(self@ =~= before.after(event@));
                        ReaderAction::StoreFrame(frame)
                    } else {
                        assert(self@ =~= before.after(event@));
                        ReaderAction::StorePattern
                    }
                }
            },
            ReaderEvent::WouldBlock => ReaderAction::StorePattern,
            ReaderEvent::ReadFailed => self.lose_pipe(),
            ReaderEvent::BackedOff => ReaderAction::StorePattern,
            ReaderEvent::FrameStored => ReaderAction::Pause { millis: FRAME_PAUSE_MILLIS },
            ReaderEvent::PatternStored => ReaderAction::Pause { millis: PATTERN_PAUSE_MILLIS },
            ReaderEvent::Paused => ReaderAction::CheckExit,
        }
    }
}

/// Whether `event` reports how `action` went.
pub open spec fn answers(action: ReaderAction<Seq<u8>>, event: ReaderEvent<Seq<u8>>) -> bool {
    match action {
        ReaderAction::CheckExit => event is Exit,
        ReaderAction::Stop => false,
        ReaderAction::OpenPipe => event is PipeOpened || event is PipeUnavailable,
        ReaderAction::ReadPipe { len } => match event {
            ReaderEvent::Bytes(bytes) => bytes.len() <= len,
            _ => event is WouldBlock || event is ReadFailed,
        },
        ReaderAction::BackOff { millis } => event is BackedOff,
        ReaderAction::StoreFrame(frame) => event is FrameStored,
        ReaderAction::StorePattern => event is PatternStored,
        ReaderAction::Pause { millis } => event is Paused,
    }
}

/// Whether the loop can be waiting to hear how `action` went.
pub open spec fn pending(reader: ReaderView, action: ReaderAction<Seq<u8>>) -> bool {
    match action {
        ReaderAction::OpenPipe => reader.has_pipe && !reader.pipe_open,
        ReaderAction::ReadPipe { len } => reader.pipe_open && len == BUFFER_SIZE
            - reader.partial.len(),
        _ => true,
    }
}

/// How far an action is from the start of a turn.
pub open spec fn stage(action: ReaderAction<Seq<u8>>) -> int {
    match action {
        ReaderAction::CheckExit => 0,
        ReaderAction::OpenPipe => 1,
        ReaderAction::ReadPipe { len } => 2,
        ReaderAction::BackOff { millis } => 3,
        ReaderAction::StoreFrame(frame) => 4,
        ReaderAction::StorePattern => 4,
        ReaderAction::Pause { millis } => 5,
        ReaderAction::Stop => 6,
    }
}

/// A caller that reports how each action went never breaks the loop: the report is admitted, the
/// next action can be performed, and a read always asks for at least one byte, so that reading
/// none means that the writer disconnected.
pub proof fn lemma_reports_are_admitted(
    reader: ReaderView,
    action: ReaderAction<Seq<u8>>,
    event: ReaderEvent<Seq<u8>>,
)
    requires
        reader.wf(),
        pending(reader, action),
        answers(action, event),
    ensures
        reader.admits(event),
        reader.after(event).wf(),
        pending(reader.after(event), reader.action_after(event)),
        reader.action_after(event) matches ReaderAction::ReadPipe { len } ==> 0 < len
            <= BUFFER_SIZE,
{
}

/// A turn of the loop moves forward only, and hands the session exactly one frame or pattern
/// between finding out whether to stop and pausing.
pub proof fn lemma_turn_stores_once(
    reader: ReaderView,
    action: ReaderAction<Seq<u8>>,
    event: ReaderEvent<Seq<u8>>,
)
    requires
        answers(action, event),
    ensures
        action is Pause ==> reader.action_after(event) is CheckExit,
        !(action is Pause) ==> stage(action) < stage(reader.action_after(event)),
        event != ReaderEvent::<Seq<u8>>::Exit(true) && stage(action) < 4 ==> stage(
            reader.action_after(event),
        ) <= 4,
        reader.action_after(event) is Stop <==> event == ReaderEvent::<Seq<u8>>::Exit(true),
{
}

/// Whether each event is admitted when its turn comes.
pub open spec fn all_admitted(reader: ReaderView, events: Seq<ReaderEvent<Seq<u8>>>) -> bool
    decreases events.len(),
{
    events.len() == 0 || (all_admitted(reader, events.drop_last()) && after_all(
        reader,
        events.drop_last(),
    ).admits(events.last()))
}

/// What the loop remembers after a series of events.
pub open spec fn after_all(reader: ReaderView, events: Seq<ReaderEvent<Seq<u8>>>) -> ReaderView
    decreases events.len(),
{
    if events.len() == 0 {
        reader
    } else {
        after_all(reader, events.drop_last()).after(events.last())
    }
}

/// The frames that were completed in a series of events.
pub open spec fn completed_frames(
    reader: ReaderView,
    events: Seq<ReaderEvent<Seq<u8>>>,
) -> Seq<Seq<u8>>
    decreases events.len(),
{
    if events.len() == 0 {
        Seq::empty()
    } else {
        let frames = completed_frames(reader, events.drop_last());
        match after_all(reader, events.drop_last()).action_after(events.last()) {
            ReaderAction::StoreFrame(frame) => frames.push(frame),
            _ => frames,
        }
    }
}

/// The bytes that were read in a series of events.
pub open spec fn bytes_read(events: Seq<ReaderEvent<Seq<u8>>>) -> Seq<u8>
    decreases events.len(),
{
    if events.len() == 0 {
        Seq::empty()
    } else {
        match events.last() {
            ReaderEvent::Bytes(bytes) => bytes_read(events.drop_last()) + bytes,
            _ => bytes_read(events.drop_last()),
        }
    }
}

/// The frames one after the other.
pub open spec fn joined(frames: Seq<Seq<u8>>) -> Seq<u8>
    decreases frames.len(),
{
    if frames.len() == 0 {
        Seq::empty()
    } else {
        joined(frames.drop_last()) + frames.last()
    }
}

/// Whether the pipe stays open through `event`.
pub open spec fn keeps_pipe(event: ReaderEvent<Seq<u8>>) -> bool {
    match event {
        ReaderEvent::PipeOpened => false,
        ReaderEvent::ReadFailed => false,
        ReaderEvent::Bytes(bytes) => bytes.len() > 0,
        _ => true,
    }
}

/// While the pipe stays open, the completed frames cut the bytes of the pipe into pieces of the
/// size of a frame, in order and without a gap, however the reads happened to split them; what
/// is left over is the start of the next frame.
pub proof fn lemma_frames_cut_the_stream(reader: ReaderView, events: Seq<ReaderEvent<Seq<u8>>>)
    requires
        reader.wf(),
        all_admitted(reader, events),
        forall|i: int| 0 <= i < events.len() ==> keeps_pipe(#[trigger] events[i]),
    ensures
        after_all(reader, events).wf(),
        joined(completed_frames(reader, events)) + after_all(reader, events).partial
            == reader.partial + bytes_read(events),
        forall|k: int|
            0 <= k < completed_frames(reader, events).len() ==> (#[trigger] completed_frames(
                reader,
                events,
            )[k]).len() == BUFFER_SIZE,
    decreases events.len(),
{
    if events.len() == 0 {
        assert(joined(completed_frames(reader, events)) + reader.partial =~= reader.partial
            + bytes_read(events));
    } else {
        let prefix = events.drop_last();
        let event = events.last();
        assert(keeps_pipe(events[events.len() - 1]));
        assert forall|i: int| 0 <= i < prefix.len() implies keeps_pipe(#[trigger] prefix[i]) by {
            assert(prefix[i] == events[i]);
        }
        lemma_frames_cut_the_stream(reader, prefix);
        let state = after_all(reader, prefix);
        let frames = completed_frames(reader, prefix);
        match event {
            ReaderEvent::Bytes(bytes) => {
                if state.partial.len() + bytes.len() == BUFFER_SIZE {
                    let all = frames.push(state.partial + bytes);
                    assert(all.drop_last() =~= frames);
                    assert(joined(all) =~= joined(frames) + (state.partial + bytes));
                    assert(joined(all) + Seq::<u8>::empty() =~= (joined(frames) + state.partial)
                        + bytes);
                } else {
                    assert(joined(frames) + (state.partial + bytes) =~= (joined(frames)
                        + state.partial) + bytes);
                }
                assert((reader.partial + bytes_read(prefix)) + bytes =~= reader.partial + (
                bytes_read(prefix) + bytes));
            },
            _ => {},
        }
    }
}

/// When the pipe is lost, the frame that was being read is forgotten: the first frame from the
/// pipe opened next starts with its first byte.
pub proof fn lemma_lost_pipe_leaves_nothing(reader: ReaderView, event: ReaderEvent<Seq<u8>>)
    requires
        event is PipeOpened || event is ReadFailed || event == ReaderEvent::Bytes(
            Seq::<u8>::empty(),
        ),
    ensures
        reader.after(event).partial == Seq::<u8>::empty(),
        reader.after(event).pipe_open <==> event is PipeOpened,
{
}

} // verus!
