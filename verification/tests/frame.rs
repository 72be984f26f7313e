use emulated_camera::frame::{FrameError, BUFFER_SIZE, HEIGHT, PIXELFORMAT, WIDTH};
use emulated_camera::session::EmulatedCameraSession;

fn pattern(iteration: u64) -> Vec<u8> {
    let mut frame = Vec::new();
    EmulatedCameraSession::<()>::write_yuv420_pattern(iteration, &mut frame).unwrap();
    frame
}

#[test]
fn test_write_yuv420_pattern_size() {
    let mut buffer = Vec::new();
    let result = EmulatedCameraSession::<()>::write_yuv420_pattern(0, &mut buffer);
    assert!(result.is_ok());
    // Verify output size matches exactly 1.5 bytes per pixel (YUV420p)
    let expected_size = (WIDTH * HEIGHT * 3 / 2) as usize;
    assert_eq!(buffer.len(), expected_size);
}

#[test]
fn test_read_and_write_yuv_frame() {
    let frame_size = (WIDTH * HEIGHT * 3 / 2) as usize;
    let dummy_input = vec![0x55u8; frame_size];
    let mut source = dummy_input.as_slice();
    let mut sink = Vec::new();

    let result = EmulatedCameraSession::<()>::read_and_write_yuv_frame(&mut source, &mut sink);
    assert!(result.is_ok());
    assert_eq!(sink, dummy_input);
}

#[test]
fn pattern_bytes_follow_the_formulas() {
    let w = 640usize;
    let h = 480usize;
    let (uw, uh) = (w / 2, h / 2);
    let iteration = 7usize;
    let frame = pattern(iteration as u64);
    let u = w * h;
    let v = u + uw * uh;
    for y in 0..h {
        for x in 0..w {
            assert_eq!(frame[y * w + x] as usize, (x + y + iteration * 4) % 256);
        }
    }
    for y in 0..uh {
        for x in 0..uw {
            assert_eq!(frame[u + y * uw + x] as usize, (x * 8 + iteration * 2) % 256);
            assert_eq!(frame[v + y * uw + x] as usize, (y * 8 + iteration * 3) % 256);
        }
    }
}

#[test]
fn pattern_has_known_bytes() {
    let frame = pattern(1);
    assert_eq!(frame[0], 4);
    assert_eq!(frame[641], 6);
    assert_eq!(frame[640 * 480], 2);
    assert_eq!(frame[640 * 480 + 1], 10);
    assert_eq!(frame[640 * 480 + 320 * 240], 3);
    assert_eq!(frame[640 * 480 + 320 * 240 + 320], 11);
}

#[test]
fn pattern_repeats_every_256_iterations() {
    assert_eq!(pattern(5), pattern(261));
    assert_ne!(pattern(5), pattern(6));
    // 2^64 - 1 is 255 modulo 256.
    assert_eq!(pattern(u64::MAX), pattern(255));
}

#[test]
fn pattern_is_appended() {
    let mut sink = vec![1, 2, 3];
    EmulatedCameraSession::<()>::write_yuv420_pattern(0, &mut sink).unwrap();
    assert_eq!(sink.len(), 3 + BUFFER_SIZE as usize);
    assert_eq!(&sink[..5], &[1, 2, 3, 0, 1]);
}

#[test]
fn short_source_gives_no_frame() {
    let input = vec![9u8; BUFFER_SIZE as usize - 1];
    let mut source = input.as_slice();
    let mut sink = vec![7u8];
    assert_eq!(
        EmulatedCameraSession::<()>::read_and_write_yuv_frame(&mut source, &mut sink),
        Err(FrameError::UnexpectedEof)
    );
    assert_eq!(sink, vec![7u8]);
    assert!(source.is_empty());
}

#[test]
fn long_source_keeps_the_rest() {
    let mut input = vec![9u8; BUFFER_SIZE as usize];
    input.extend_from_slice(&[1, 2, 3]);
    let mut source = input.as_slice();
    let mut sink = Vec::new();
    assert_eq!(
        EmulatedCameraSession::<()>::read_and_write_yuv_frame(&mut source, &mut sink),
        Ok(())
    );
    assert_eq!(sink.len(), BUFFER_SIZE as usize);
    assert_eq!(source, &[1, 2, 3]);
}

#[test]
fn pixelformat_is_yu12() {
    assert_eq!(PIXELFORMAT.to_le_bytes(), *b"YU12");
    assert_eq!(BUFFER_SIZE, WIDTH * HEIGHT * 3 / 2);
}
