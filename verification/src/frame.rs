//! Frame geometry, the test pattern, and copying one frame.

use vstd::prelude::*;

use crate::session::EmulatedCameraSession;

verus! {

/// Frames per second.
pub const FRAME_RATE: u32 = 30;

/// Width of a frame in pixels.
pub const WIDTH: u32 = 640;

/// Height of a frame in pixels.
pub const HEIGHT: u32 = 480;

/// Width of a chroma plane: half the width of a frame.
pub const CHROMA_WIDTH: u32 = 320;

/// Height of a chroma plane: half the height of a frame.
pub const CHROMA_HEIGHT: u32 = 240;

/// Bytes per line of the luma plane.
pub const BYTES_PER_LINE: u32 = WIDTH;

/// Fourcc of the pixel format: the bytes of `YU12`, lowest first.
pub const PIXELFORMAT: u32 = 0x3231_5559;

/// Bytes per frame: one luma byte per pixel, and two chroma bytes for every four pixels.
pub const BUFFER_SIZE: u32 = 460_800;

/// Why a frame could not be copied.
#[derive(Debug, Clone, Copy, PartialEq, Eq, Structural)]
pub enum FrameError {
    /// The source ended before a whole frame was read.
    UnexpectedEof,
}

/// Luma of the pattern at column `x` and row `y`.
pub open spec fn pattern_luma(iteration: int, x: int, y: int) -> u8 {
    ((x + y + iteration * 4) % 256) as u8
}

/// First chroma byte of the pattern at column `x` of the chroma plane.
pub open spec fn pattern_u(iteration: int, x: int) -> u8 {
    ((x * 8 + iteration * 2) % 256) as u8
}

/// Second chroma byte of the pattern at row `y` of the chroma plane.
pub open spec fn pattern_v(iteration: int, y: int) -> u8 {
    ((y * 8 + iteration * 3) % 256) as u8
}

/// Luma plane of the pattern, row by row.
pub open spec fn luma_plane(iteration: int) -> Seq<u8> {
    Seq::new(
        (WIDTH * HEIGHT) as nat,
        |i: int| pattern_luma(iteration, i % (WIDTH as int), i / (WIDTH as int)),
    )
}

/// First chroma plane of the pattern, row by row: half the width and half the height.
pub open spec fn u_plane(iteration: int) -> Seq<u8> {
    Seq::new(
        (CHROMA_WIDTH * CHROMA_HEIGHT) as nat,
        |i: int| pattern_u(iteration, i % (CHROMA_WIDTH as int)),
    )
}

/// Second chroma plane of the pattern, row by row: half the width and half the height.
pub open spec fn v_plane(iteration: int) -> Seq<u8> {
    Seq::new(
        (CHROMA_WIDTH * CHROMA_HEIGHT) as nat,
        |i: int| pattern_v(iteration, i / (CHROMA_WIDTH as int)),
    )
}

/// The pattern frame of an iteration: the luma plane, then the two chroma planes.
pub open spec fn yuv420_pattern(iteration: int) -> Seq<u8> {
    luma_plane(iteration) + u_plane(iteration) + v_plane(iteration)
}

/// Appends the luma plane of the pattern.
fn write_luma(iteration: u64, sink: &mut Vec<u8>)
    ensures
        final(sink)@ == old(sink)@ + luma_plane(iteration as int),
{
    let ghost before = sink@;
    let phase: u32 = (iteration % 256) as u32 * 4;
    let mut y: u32 = 0;
    while y < HEIGHT
        invariant
            y <= HEIGHT,
            phase == (iteration % 256) * 4,
            sink@ == before + luma_plane(iteration as int).take(y * WIDTH),
        decreases HEIGHT - y,
    {
        let mut x: u32 = 0;
        while x < WIDTH
            invariant
                y < HEIGHT,
                x <= WIDTH,
                phase == (iteration % 256) * 4,
                sink@ == before + luma_plane(iteration as int).take(y * WIDTH + x),
            decreases WIDTH - x,
        {
            let value: u8 = ((x + y + phase) % 256) as u8;
            sink.push(value);
            proof {
                let i = y * WIDTH + x;
                assert(i % (WIDTH as int) == x && i / (WIDTH as int) == y);
                assert(value == luma_plane(iteration as int)[i]);
                assert(luma_plane(iteration as int).take(i).push(value) =~= luma_plane(
                    iteration as int,
                ).take(i + 1));
            }
            x += 1;
        }
        y += 1;
    }
    assert(luma_plane(iteration as int).take((WIDTH * HEIGHT) as int) =~= luma_plane(
        iteration as int,
    ));
}

/// Appends the first chroma plane of the pattern.
fn write_u(iteration: u64, sink: &mut Vec<u8>)
    ensures
        final(sink)@ == old(sink)@ + u_plane(iteration as int),
{
    let ghost before = sink@;
    let phase: u32 = (iteration % 256) as u32 * 2;
    let mut y: u32 = 0;
    while y < CHROMA_HEIGHT
        invariant
            y <= CHROMA_HEIGHT,
            phase == (iteration % 256) * 2,
            sink@ == before + u_plane(iteration as int).take(y * CHROMA_WIDTH),
        decreases CHROMA_HEIGHT - y,
    {
        let mut x: u32 = 0;
        while x < CHROMA_WIDTH
            invariant
                y < CHROMA_HEIGHT,
                x <= CHROMA_WIDTH,
                phase == (iteration % 256) * 2,
                sink@ == before + u_plane(iteration as int).take(y * CHROMA_WIDTH + x),
            decreases CHROMA_WIDTH - x,
        {
            let value: u8 = ((x * 8 + phase) % 256) as u8;
            sink.push(value);
            proof {
                let i = y * CHROMA_WIDTH + x;
                assert(i % (CHROMA_WIDTH as int) == x);
                assert(value == u_plane(iteration as int)[i]);
                assert(u_plane(iteration as int).take(i).push(value) =~= u_plane(
                    iteration as int,
                ).take(i + 1));
            }
            x += 1;
        }
        y += 1;
    }
    assert(u_plane(iteration as int).take((CHROMA_WIDTH * CHROMA_HEIGHT) as int) =~= u_plane(
        iteration as int,
    ));
}

/// Appends the second chroma plane of the pattern.
fn write_v(iteration: u64, sink: &mut Vec<u8>)
    ensures
        final(sink)@ == old(sink)@ + v_plane(iteration as int),
{
    let ghost before = sink@;
    let phase: u32 = (iteration % 256) as u32 * 3;
    let mut y: u32 = 0;
    while y < CHROMA_HEIGHT
        invariant
            y <= CHROMA_HEIGHT,
            phase == (iteration % 256) * 3,
            sink@ == before + v_plane(iteration as int).take(y * CHROMA_WIDTH),
        decreases CHROMA_HEIGHT - y,
    {
        let mut x: u32 = 0;
        while x < CHROMA_WIDTH
            invariant
                y < CHROMA_HEIGHT,
                x <= CHROMA_WIDTH,
                phase == (iteration % 256) * 3,
                sink@ == before + v_plane(iteration as int).take(y * CHROMA_WIDTH + x),
            decreases CHROMA_WIDTH - x,
        {
            let value: u8 = ((y * 8 + phase) % 256) as u8;
            sink.push(value);
            proof {
                let i = y * CHROMA_WIDTH + x;
                assert(i / (CHROMA_WIDTH as int) == y);
                assert(value == v_plane(iteration as int)[i]);
                assert(v_plane(iteration as int).take(i).push(value) =~= v_plane(
                    iteration as int,
                ).take(i + 1));
            }
            x += 1;
        }
        y += 1;
    }
    assert(v_plane(iteration as int).take((CHROMA_WIDTH * CHROMA_HEIGHT) as int) =~= v_plane(
        iteration as int,
    ));
}

impl<F> EmulatedCameraSession<F> {
    /// Appends the pattern frame of `iteration` to `sink`.
    pub fn write_yuv420_pattern(iteration: u64, sink: &mut Vec<u8>) -> (r: Result<(), FrameError>)
        ensures
            r == Ok::<(), FrameError>(()),
            final(sink)@ == old(sink)@ + yuv420_pattern(iteration as int),
    {
        let ghost before = sink@;
        write_luma(iteration, sink);
        write_u(iteration, sink);
        write_v(iteration, sink);
        assert(sink@ =~= before + yuv420_pattern(iteration as int));
        Ok(())
    }

    /// Moves one frame from the front of `source` to the end of `sink`.
    ///
    /// A source that holds less than a frame is used up, and nothing is written.
    pub fn read_and_write_yuv_frame(source: &mut &[u8], sink: &mut Vec<u8>) -> (r: Result<
        (),
        FrameError,
    >)
        ensures
            old(source)@.len() >= BUFFER_SIZE ==> {
                &&& r == Ok::<(), FrameError>(())
                &&& final(sink)@ == old(sink)@ + old(source)@.take(BUFFER_SIZE as int)
                &&& final(source)@ == old(source)@.skip(BUFFER_SIZE as int)
            },
            old(source)@.len() < BUFFER_SIZE ==> {
                &&& r == Err::<(), FrameError>(FrameError::UnexpectedEof)
                &&& final(sink)@ == old(sink)@
                &&& final(source)@ == Seq::<u8>::empty()
            },
    {
        let available: &[u8] = *source;
        let frame_size: usize = BUFFER_SIZE as usize;
        if available.len() < frame_size {
            let (_read, rest) = available.split_at(available.len());
            *source = rest;
            return Err(FrameError::UnexpectedEof);
        }
        let (frame, rest) = available.split_at(frame_size);
        *source = rest;
        sink.extend_from_slice(frame);
        Ok(())
    }
}

/// A pattern frame takes exactly the size of a buffer: one and a half bytes per pixel.
pub proof fn lemma_pattern_fills_buffer(iteration: int)
    ensures
        yuv420_pattern(iteration).len() == BUFFER_SIZE,
        2 * yuv420_pattern(iteration).len() == 3 * (WIDTH * HEIGHT),
{
}

/// The pattern repeats every 256 iterations.
pub proof fn lemma_pattern_repeats(iteration: int)
    ensures
        yuv420_pattern(iteration + 256) == yuv420_pattern(iteration),
{
    assert forall|x: int, y: int| #[trigger]
        pattern_luma(iteration + 256, x, y) == pattern_luma(iteration, x, y) by {
        vstd::arithmetic::div_mod::lemma_mod_multiples_vanish(4, x + y + iteration * 4, 256);
    }
    assert forall|x: int| #[trigger] pattern_u(iteration + 256, x) == pattern_u(iteration, x) by {
        vstd::arithmetic::div_mod::lemma_mod_multiples_vanish(2, x * 8 + iteration * 2, 256);
    }
    assert forall|y: int| #[trigger] pattern_v(iteration + 256, y) == pattern_v(iteration, y) by {
        vstd::arithmetic::div_mod::lemma_mod_multiples_vanish(3, y * 8 + iteration * 3, 256);
    }
    assert(luma_plane(iteration + 256) =~= luma_plane(iteration));
    assert(u_plane(iteration + 256) =~= u_plane(iteration));
    assert(v_plane(iteration + 256) =~= v_plane(iteration));
}

/// The pixel format is the fourcc `YU12`, its first character in the lowest byte.
pub proof fn lemma_pixelformat_is_yu12()
    ensures
        PIXELFORMAT == 'Y' as int + 0x100 * ('U' as int) + 0x1_0000 * ('1' as int) + 0x100_0000 * (
        '2' as int),
{
}

} // verus!
