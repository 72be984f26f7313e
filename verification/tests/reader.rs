use emulated_camera::frame::BUFFER_SIZE;
use emulated_camera::reader::{FrameReader, ReaderAction, ReaderEvent};

const FRAME: usize = BUFFER_SIZE as usize;

fn open_reader() -> FrameReader {
    let mut reader = FrameReader::new(true);
    assert_eq!(reader.step(ReaderEvent::Exit(false)), ReaderAction::OpenPipe);
    assert_eq!(
        reader.step(ReaderEvent::PipeOpened),
        ReaderAction::ReadPipe { len: FRAME }
    );
    reader
}

#[test]
fn without_a_pipe_only_the_pattern_is_stored() {
    let mut reader = FrameReader::new(false);
    for _ in 0..3 {
        assert_eq!(reader.step(ReaderEvent::Exit(false)), ReaderAction::StorePattern);
        assert_eq!(
            reader.step(ReaderEvent::PatternStored),
            ReaderAction::Pause { millis: 33 }
        );
        assert_eq!(reader.step(ReaderEvent::Paused), ReaderAction::CheckExit);
    }
    assert_eq!(reader.step(ReaderEvent::Exit(true)), ReaderAction::Stop);
}

#[test]
fn unavailable_pipe_falls_back_to_the_pattern() {
    let mut reader = FrameReader::new(true);
    assert_eq!(reader.step(ReaderEvent::Exit(false)), ReaderAction::OpenPipe);
    assert_eq!(reader.step(ReaderEvent::PipeUnavailable), ReaderAction::StorePattern);
    // It is tried again in the next turn.
    assert_eq!(reader.step(ReaderEvent::Exit(false)), ReaderAction::OpenPipe);
}

#[test]
fn frame_is_put_together_from_partial_reads() {
    let mut reader = open_reader();
    assert_eq!(
        reader.step(ReaderEvent::Bytes(vec![1; 1000])),
        ReaderAction::StorePattern
    );
    assert_eq!(
        reader.step(ReaderEvent::Exit(false)),
        ReaderAction::ReadPipe { len: FRAME - 1000 }
    );
    assert_eq!(reader.step(ReaderEvent::WouldBlock), ReaderAction::StorePattern);
    assert_eq!(
        reader.step(ReaderEvent::Exit(false)),
        ReaderAction::ReadPipe { len: FRAME - 1000 }
    );
    let mut expected = vec![1u8; 1000];
    expected.extend(vec![2u8; FRAME - 1000]);
    assert_eq!(
        reader.step(ReaderEvent::Bytes(vec![2; FRAME - 1000])),
        ReaderAction::StoreFrame(expected)
    );
    assert_eq!(
        reader.step(ReaderEvent::FrameStored),
        ReaderAction::Pause { millis: 10 }
    );
    // The next frame starts from nothing, on the same pipe.
    assert_eq!(
        reader.step(ReaderEvent::Exit(false)),
        ReaderAction::ReadPipe { len: FRAME }
    );
}

#[test]
fn end_of_pipe_drops_the_partial_frame() {
    let mut reader = open_reader();
    assert_eq!(
        reader.step(ReaderEvent::Bytes(vec![1; 10])),
        ReaderAction::StorePattern
    );
    assert_eq!(
        reader.step(ReaderEvent::Bytes(vec![])),
        ReaderAction::BackOff { millis: 100 }
    );
    assert_eq!(reader.step(ReaderEvent::BackedOff), ReaderAction::StorePattern);
    assert_eq!(reader.step(ReaderEvent::Exit(false)), ReaderAction::OpenPipe);
    assert_eq!(
        reader.step(ReaderEvent::PipeOpened),
        ReaderAction::ReadPipe { len: FRAME }
    );
}

#[test]
fn failed_read_drops_the_pipe() {
    let mut reader = open_reader();
    assert_eq!(
        reader.step(ReaderEvent::ReadFailed),
        ReaderAction::BackOff { millis: 100 }
    );
    assert_eq!(reader.step(ReaderEvent::Exit(false)), ReaderAction::OpenPipe);
}

#[test]
fn frames_cut_the_stream_without_a_gap() {
    let stream: Vec<u8> = (0..2 * FRAME + 77).map(|i| (i % 251) as u8).collect();
    let mut reader = open_reader();
    let mut frames = Vec::new();
    let mut position = 0;
    while position < stream.len() {
        let len = match reader.step(ReaderEvent::Exit(false)) {
            ReaderAction::ReadPipe { len } => len,
            other => panic!("{:?}", other),
        };
        let n = len.min(99_991).min(stream.len() - position);
        let bytes = stream[position..position + n].to_vec();
        position += n;
        if let ReaderAction::StoreFrame(frame) = reader.step(ReaderEvent::Bytes(bytes)) {
            frames.extend(frame);
        }
    }
    assert_eq!(frames, stream[..2 * FRAME]);
}
