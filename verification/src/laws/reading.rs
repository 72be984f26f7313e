//! How frames are put together from the bytes of a pipe.

use vstd::prelude::*;

use crate::reader::{FrameReader, ReaderAction, ReaderEvent};

verus! {

/// Whether a loop that remembers this is a proper one: less than a frame was read, and only an open
/// pipe is read from.
pub open spec fn is_proper(reader: &FrameReader) -> bool {
    &&& reader@.partial.len() < 460_800
    &&& reader@.pipe_open ==> reader@.has_pipe
    &&& reader@.partial.len() > 0 ==> reader@.pipe_open
}

/// Whether `event` can be how `action` went.
pub open spec fn reports_on(
    event: ReaderEvent<Vec<u8>>,
    action: ReaderAction<Vec<u8>>,
) -> bool {
    match event {
        ReaderEvent::Exit(stop) => action is CheckExit,
        ReaderEvent::PipeOpened => action is OpenPipe,
        ReaderEvent::PipeUnavailable => action is OpenPipe,
        ReaderEvent::Bytes(bytes) => action matches ReaderAction::ReadPipe { len } && bytes@.len()
            <= len,
        ReaderEvent::WouldBlock => action is ReadPipe,
        ReaderEvent::ReadFailed => action is ReadPipe,
        ReaderEvent::BackedOff => action is BackOff,
        ReaderEvent::FrameStored => action is StoreFrame,
        ReaderEvent::PatternStored => action is StorePattern,
        ReaderEvent::Paused => action is Pause,
    }
}

/// A loop starts without an open pipe and without a byte of a frame.
pub proof fn lemma_loop_starts_with_nothing(has_pipe: bool, reader: FrameReader)
    requires
        call_ensures(FrameReader::new, (has_pipe,), reader),
    ensures
        is_proper(&reader),
        reader@.has_pipe == has_pipe,
        !reader@.pipe_open,
        reader@.partial.len() == 0,
{
}

/// The loop makes progress in every turn: told not to stop, it reads from the open pipe exactly the
/// bytes that the frame still needs, however many that are; it opens the pipe if there is one that
/// is not open; and without a pipe it stores the pattern. It stops if and only if it is told to.
/// None of this changes what it remembers.
pub proof fn lemma_turn_goes_for_the_missing_bytes(
    reader: &mut FrameReader,
    stop: bool,
    action: ReaderAction<Vec<u8>>,
)
    requires
        is_proper(old(reader)),
        call_ensures(FrameReader::step, (reader, ReaderEvent::Exit(stop)), action),
    ensures
        final(reader)@ == old(reader)@,
        action is Stop <==> stop,
        !stop && old(reader)@.pipe_open ==> (action matches ReaderAction::ReadPipe { len } && len
            + old(reader)@.partial.len() == 460_800),
        !stop && old(reader)@.has_pipe && !old(reader)@.pipe_open ==> action is OpenPipe,
        !stop && !old(reader)@.has_pipe ==> action is StorePattern,
{
    assert(action@ == old(reader)@.action_after(ReaderEvent::<Seq<u8>>::Exit(stop)));
}

/// A pipe that was opened is read from at once, for a whole frame. One that could not be opened is
/// left alone for this turn, which stores the pattern.
pub proof fn lemma_opened_pipe_is_read(
    reader: &mut FrameReader,
    event: ReaderEvent<Vec<u8>>,
    action: ReaderAction<Vec<u8>>,
)
    requires
        is_proper(old(reader)),
        old(reader)@.has_pipe && !old(reader)@.pipe_open,
        event is PipeOpened || event is PipeUnavailable,
        call_ensures(FrameReader::step, (reader, event), action),
    ensures
        final(reader)@.has_pipe,
        final(reader)@.partial.len() == 0,
        final(reader)@.pipe_open <==> event is PipeOpened,
        event is PipeOpened ==> (action matches ReaderAction::ReadPipe { len } && len == 460_800),
        event is PipeUnavailable ==> action is StorePattern,
{
    assert(action@ == old(reader)@.action_after(event@));
    assert(final(reader)@ == old(reader)@.after(event@));
}

/// No byte that was read is lost or invented. The bytes that a frame had before and those just
/// read are together the frame that is handed on, if they make a whole one, and otherwise the
/// frame that is being read; in that case the turn stores the pattern.
pub proof fn lemma_read_bytes_are_kept(
    reader: &mut FrameReader,
    bytes: Vec<u8>,
    action: ReaderAction<Vec<u8>>,
)
    requires
        is_proper(old(reader)),
        old(reader)@.pipe_open,
        0 < bytes@.len() <= 460_800 - old(reader)@.partial.len(),
        call_ensures(FrameReader::step, (reader, ReaderEvent::Bytes(bytes)), action),
    ensures
        final(reader)@.has_pipe,
        final(reader)@.pipe_open,
        match action {
            ReaderAction::StoreFrame(frame) => {
                &&& frame@.len() == 460_800
                &&& frame@ == old(reader)@.partial + bytes@
                &&& final(reader)@.partial.len() == 0
            },
            ReaderAction::StorePattern => {
                &&& final(reader)@.partial.len() < 460_800
                &&& final(reader)@.partial == old(reader)@.partial + bytes@
            },
            _ => false,
        },
{
    let event = ReaderEvent::Bytes(bytes);
    assert(action@ == old(reader)@.action_after(event@));
    assert(final(reader)@ == old(reader)@.after(event@));
}

/// A pipe whose writer disconnected, or that could not be read, is closed with a pause of 100
/// milliseconds, and the frame that was being read is forgotten.
pub proof fn lemma_broken_pipe_is_closed(
    reader: &mut FrameReader,
    event: ReaderEvent<Vec<u8>>,
    action: ReaderAction<Vec<u8>>,
)
    requires
        is_proper(old(reader)),
        old(reader)@.pipe_open,
        event is ReadFailed || (event matches ReaderEvent::Bytes(bytes) && bytes@.len() == 0),
        call_ensures(FrameReader::step, (reader, event), action),
    ensures
        action matches ReaderAction::BackOff { millis } && millis == 100,
        final(reader)@.has_pipe,
        !final(reader)@.pipe_open,
        final(reader)@.partial.len() == 0,
{
    assert(action@ == old(reader)@.action_after(event@));
    assert(final(reader)@ == old(reader)@.after(event@));
}

/// The rest of a turn: where the pipe has nothing yet or is not there, and after the pause for a
/// broken pipe, the pattern is stored; after the pattern the loop pauses for 33 milliseconds and
/// after a frame for 10; then it finds out whether to stop. None of this changes what the loop
/// remembers, so that a frame that was begun is read on in the next turn.
pub proof fn lemma_turn_ends(
    reader: &mut FrameReader,
    event: ReaderEvent<Vec<u8>>,
    action: ReaderAction<Vec<u8>>,
)
    requires
        is_proper(old(reader)),
        event is WouldBlock ==> old(reader)@.pipe_open,
        event is WouldBlock || event is PipeUnavailable || event is BackedOff
            || event is PatternStored || event is FrameStored || event is Paused,
        call_ensures(FrameReader::step, (reader, event), action),
    ensures
        final(reader)@ == old(reader)@,
        event is WouldBlock || event is PipeUnavailable || event is BackedOff
            ==> action is StorePattern,
        event is PatternStored ==> (action matches ReaderAction::Pause { millis } && millis == 33),
        event is FrameStored ==> (action matches ReaderAction::Pause { millis } && millis == 10),
        event is Paused ==> action is CheckExit,
{
    assert(action@ == old(reader)@.action_after(event@));
    assert(final(reader)@ == old(reader)@.after(event@));
}

/// A caller that does what it is asked for and says how it went can go on for ever: after any
/// report the loop is a proper one again, and it takes every report on the action it then asks for.
pub proof fn lemma_reports_can_be_made(
    reader: &mut FrameReader,
    event: ReaderEvent<Vec<u8>>,
    action: ReaderAction<Vec<u8>>,
    next: &mut FrameReader,
    report: ReaderEvent<Vec<u8>>,
)
    requires
        is_proper(old(reader)),
        event is PipeOpened ==> old(reader)@.has_pipe && !old(reader)@.pipe_open,
        event is WouldBlock || event is ReadFailed ==> old(reader)@.pipe_open,
        event matches ReaderEvent::Bytes(bytes) ==> old(reader)@.pipe_open && bytes@.len()
            + old(reader)@.partial.len() <= 460_800,
        call_ensures(FrameReader::step, (reader, event), action),
        *old(next) == *final(reader),
        reports_on(report, action),
    ensures
        is_proper(final(reader)),
        final(reader)@.has_pipe == old(reader)@.has_pipe,
        call_requires(FrameReader::step, (next, report)),
        report is PipeOpened ==> old(next)@.has_pipe && !old(next)@.pipe_open,
        report is WouldBlock || report is ReadFailed ==> old(next)@.pipe_open,
        report matches ReaderEvent::Bytes(bytes) ==> old(next)@.pipe_open && bytes@.len()
            + old(next)@.partial.len() <= 460_800,
{
    assert(action@ == old(reader)@.action_after(event@));
    assert(final(reader)@ == old(reader)@.after(event@));
}

/// The first report, on whether to stop, can be made to every proper loop.
pub proof fn lemma_first_report_can_be_made(reader: &mut FrameReader, stop: bool)
    requires
        is_proper(old(reader)),
    ensures
        call_requires(FrameReader::step, (reader, ReaderEvent::Exit(stop))),
{
    assert(old(reader)@.wf());
}

/// The bytes that were read in the first `n` of these events, one after the other.
pub open spec fn read_in(events: Seq<ReaderEvent<Vec<u8>>>, n: int) -> Seq<u8>
    decreases n,
{
    if n <= 0 {
        Seq::empty()
    } else {
        match events[n - 1] {
            ReaderEvent::Bytes(bytes) => read_in(events, n - 1) + bytes@,
            _ => read_in(events, n - 1),
        }
    }
}

/// The bytes of the frames handed on in the first `n` of these actions, one after the other.
pub open spec fn handed_on_in(actions: Seq<ReaderAction<Vec<u8>>>, n: int) -> Seq<u8>
    decreases n,
{
    if n <= 0 {
        Seq::empty()
    } else {
        match actions[n - 1] {
            ReaderAction::StoreFrame(frame) => handed_on_in(actions, n - 1) + frame@,
            _ => handed_on_in(actions, n - 1),
        }
    }
}

/// Whether the pipe stays open through `event`.
pub open spec fn leaves_pipe_open(event: ReaderEvent<Vec<u8>>) -> bool {
    match event {
        ReaderEvent::PipeOpened => false,
        ReaderEvent::PipeUnavailable => false,
        ReaderEvent::ReadFailed => false,
        ReaderEvent::BackedOff => false,
        ReaderEvent::Bytes(bytes) => bytes@.len() > 0,
        _ => true,
    }
}

/// As long as the pipe stays open, whatever the reads happen to bring, the frames handed on are the
/// bytes of the pipe in order and without a gap, and all of them but for less than a frame: after
/// `n` calls the bytes read make up the frames handed on and the frame being read.
pub proof fn lemma_stream_becomes_frames(
    readers: Seq<&mut FrameReader>,
    events: Seq<ReaderEvent<Vec<u8>>>,
    actions: Seq<ReaderAction<Vec<u8>>>,
    n: int,
)
    requires
        0 < n <= readers.len() == events.len() == actions.len(),
        is_proper(&*readers[0]),
        readers[0]@.pipe_open,
        readers[0]@.partial.len() == 0,
        forall|k: int|
            0 <= k < n ==> #[trigger] call_ensures(
                FrameReader::step,
                (readers[k], events[k]),
                actions[k],
            ),
        forall|k: int|
            0 <= k < n - 1 ==> *(#[trigger] readers[k + 1]) == *final(readers[k]),
        forall|k: int| 0 <= k < n ==> leaves_pipe_open(#[trigger] events[k]),
        forall|k: int|
            0 <= k < n ==> (#[trigger] events[k] matches ReaderEvent::Bytes(bytes) ==> bytes@.len()
                + readers[k]@.partial.len() <= 460_800),
    ensures
        ({
            let last = *final(readers[n - 1]);
            &&& is_proper(&last)
            &&& last@.pipe_open
            &&& handed_on_in(actions, n) + last@.partial == read_in(events, n)
            &&& handed_on_in(actions, n).len() == read_in(events, n).len() / 460_800 * 460_800
        }),
    decreases n,
{
    let reader = readers[n - 1];
    let event = events[n - 1];
    let action = actions[n - 1];
    assert(call_ensures(FrameReader::step, (readers[n - 1], events[n - 1]), actions[n - 1]));
    assert(leaves_pipe_open(events[n - 1]));
    if n > 1 {
        lemma_stream_becomes_frames(readers, events, actions, n - 1);
        assert(*readers[(n - 2) + 1] == *final(readers[n - 2]));
    } else {
        assert(handed_on_in(actions, 0) + reader@.partial =~= read_in(events, 0));
    }
    let handed_on = handed_on_in(actions, n - 1);
    let partial = reader@.partial;
    assert(handed_on + partial == read_in(events, n - 1));
    match event {
        ReaderEvent::Bytes(bytes) => {
            lemma_read_bytes_are_kept(reader, bytes, action);
            match action {
                ReaderAction::StoreFrame(frame) => {
                    assert((handed_on + frame@) + final(reader)@.partial =~= (handed_on + partial)
                        + bytes@);
                },
                _ => {
                    assert(handed_on + (partial + bytes@) =~= (handed_on + partial) + bytes@);
                },
            }
        },
        ReaderEvent::Exit(stop) => {
            lemma_turn_goes_for_the_missing_bytes(reader, stop, action);
        },
        _ => {
            lemma_turn_ends(reader, event, action);
        },
    }
}

} // verus!
