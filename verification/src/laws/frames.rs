//! What pattern frames hold, and how frames are copied.

use vstd::prelude::*;

use crate::frame::{luma_plane, u_plane, v_plane, yuv420_pattern, FrameError};
use crate::session::EmulatedCameraSession;

verus! {

/// Writing the pattern never fails, keeps what the sink holds, and appends 640 by 480 luma bytes
/// and then two planes of 320 by 240 chroma bytes. In iteration `n` the luma byte at column `x` and
/// row `y` is `x + y + 4 n`, the first chroma byte there is `8 x + 2 n`, and the second one is
/// `8 y + 3 n`, each modulo 256.
pub proof fn lemma_pattern_bytes<F>(
    iteration: u64,
    sink: &mut Vec<u8>,
    r: Result<(), FrameError>,
    x: int,
    y: int,
)
    requires
        call_ensures(EmulatedCameraSession::<F>::write_yuv420_pattern, (iteration, sink), r),
    ensures
        r == Ok::<(), FrameError>(()),
        final(sink)@.len() == old(sink)@.len() + 460_800,
        final(sink)@.take(old(sink)@.len() as int) == old(sink)@,
        0 <= x < 640 && 0 <= y < 480 ==> final(sink)@[old(sink)@.len() + y * 640 + x] == (x + y + 4
            * iteration) % 256,
        0 <= x < 320 && 0 <= y < 240 ==> final(sink)@[old(sink)@.len() + 307_200 + y * 320 + x] == (
        8 * x + 2 * iteration) % 256,
        0 <= x < 320 && 0 <= y < 240 ==> final(sink)@[old(sink)@.len() + 384_000 + y * 320 + x] == (
        8 * y + 3 * iteration) % 256,
{
    let n = old(sink)@.len();
    assert(final(sink)@.take(n as int) =~= old(sink)@);
    let luma = luma_plane(iteration as int);
    let u = u_plane(iteration as int);
    let v = v_plane(iteration as int);
    assert(yuv420_pattern(iteration as int) == luma + u + v);
    if 0 <= x < 640 && 0 <= y < 480 {
        let i = y * 640 + x;
        assert(i % 640 == x && i / 640 == y);
        assert(final(sink)@[n + i] == luma[i]);
    }
    if 0 <= x < 320 && 0 <= y < 240 {
        let i = y * 320 + x;
        assert(i % 320 == x && i / 320 == y);
        assert(final(sink)@[n + 307_200 + i] == u[i]);
        assert(final(sink)@[n + 384_000 + i] == v[i]);
    }
}

/// The byte of a pattern frame at position `i`, with the iteration scaled by how fast its plane
/// moves.
proof fn lemma_pattern_byte_at<F>(
    iteration: u64,
    sink: &mut Vec<u8>,
    r: Result<(), FrameError>,
    i: int,
)
    requires
        call_ensures(EmulatedCameraSession::<F>::write_yuv420_pattern, (iteration, sink), r),
        0 <= i < 460_800,
    ensures
        final(sink)@.len() == old(sink)@.len() + 460_800,
        final(sink)@[old(sink)@.len() + i] == (pattern_start(i) + pattern_speed(i)
            * iteration) % 256,
{
    if i < 307_200 {
        lemma_pattern_bytes::<F>(iteration, sink, r, i % 640, i / 640);
    } else if i < 384_000 {
        lemma_pattern_bytes::<F>(iteration, sink, r, (i - 307_200) % 320, (i - 307_200) / 320);
    } else {
        lemma_pattern_bytes::<F>(iteration, sink, r, (i - 384_000) % 320, (i - 384_000) / 320);
    }
}

/// The byte at position `i` of the first pattern frame, before it is reduced modulo 256.
spec fn pattern_start(i: int) -> int {
    if i < 307_200 {
        i % 640 + i / 640
    } else if i < 384_000 {
        8 * ((i - 307_200) % 320)
    } else {
        8 * ((i - 384_000) / 320)
    }
}

/// By how much the byte at position `i` grows from one pattern frame to the next.
spec fn pattern_speed(i: int) -> int {
    if i < 307_200 {
        4
    } else if i < 384_000 {
        2
    } else {
        3
    }
}

/// Growing by `k` commutes with reducing modulo 256.
proof fn lemma_grow(v: int, k: int)
    ensures
        (v % 256 + k) % 256 == (v + k) % 256,
{
}

/// Whole turns of 256 vanish.
proof fn lemma_whole_turns(v: int, k: int)
    ensures
        (v + 256 * k) % 256 == v % 256,
{
    vstd::arithmetic::div_mod::lemma_mod_multiples_vanish(k, v, 256);
}

/// The pattern moves: from one iteration to the next every luma byte grows by 4, every byte of the
/// first chroma plane by 2 and every byte of the second by 3, modulo 256, whatever the sinks held.
pub proof fn lemma_pattern_moves<F>(
    iteration: u64,
    one: &mut Vec<u8>,
    one_r: Result<(), FrameError>,
    next: &mut Vec<u8>,
    next_r: Result<(), FrameError>,
    i: int,
)
    requires
        iteration < u64::MAX,
        call_ensures(EmulatedCameraSession::<F>::write_yuv420_pattern, (iteration, one), one_r),
        call_ensures(
            EmulatedCameraSession::<F>::write_yuv420_pattern,
            ((iteration + 1) as u64, next),
            next_r,
        ),
        0 <= i < 460_800,
    ensures
        ({
            let before = final(one)@[old(one)@.len() + i];
            let after = final(next)@[old(next)@.len() + i];
            after == (before + (if i < 307_200 {
                4int
            } else if i < 384_000 {
                2int
            } else {
                3int
            })) % 256
        }),
{
    lemma_pattern_byte_at::<F>(iteration, one, one_r, i);
    lemma_pattern_byte_at::<F>((iteration + 1) as u64, next, next_r, i);
    let speed = pattern_speed(i);
    assert(speed * (iteration + 1) == speed * iteration + speed) by (nonlinear_arith);
    lemma_grow(pattern_start(i) + speed * iteration, speed);
}

/// Patterns of iterations that are 256 apart are the same; any two iterations less than 64 apart
/// have different patterns.
pub proof fn lemma_pattern_period<F>(
    iteration: u64,
    later: u64,
    one: &mut Vec<u8>,
    one_r: Result<(), FrameError>,
    other: &mut Vec<u8>,
    other_r: Result<(), FrameError>,
)
    requires
        call_ensures(EmulatedCameraSession::<F>::write_yuv420_pattern, (iteration, one), one_r),
        call_ensures(EmulatedCameraSession::<F>::write_yuv420_pattern, (later, other), other_r),
    ensures
        later == iteration + 256 ==> final(one)@.skip(old(one)@.len() as int)
            == final(other)@.skip(old(other)@.len() as int),
        iteration < later < iteration + 64 ==> final(one)@.skip(old(one)@.len() as int)
            != final(other)@.skip(old(other)@.len() as int),
{
    let a = final(one)@.skip(old(one)@.len() as int);
    let b = final(other)@.skip(old(other)@.len() as int);
    lemma_pattern_byte_at::<F>(iteration, one, one_r, 0);
    lemma_pattern_byte_at::<F>(later, other, other_r, 0);
    if iteration < later < iteration + 64 {
        assert(a[0] == (4 * iteration) % 256);
        assert(b[0] == (4 * later) % 256);
    }
    if later == iteration + 256 {
        assert forall|i: int| 0 <= i < 460_800 implies a[i] == b[i] by {
            lemma_pattern_byte_at::<F>(iteration, one, one_r, i);
            lemma_pattern_byte_at::<F>(later, other, other_r, i);
            let speed = pattern_speed(i);
            lemma_whole_turns(pattern_start(i) + speed * iteration, speed);
            assert(speed * later == speed * iteration + 256 * speed) by (nonlinear_arith)
                requires
                    later == iteration + 256,
            ;
        }
        assert(a =~= b);
    }
}

/// Copying a frame loses no byte and invents none: it moves the first 460800 bytes of the source to
/// the end of the sink. From a source with fewer bytes nothing is written, and the source is used
/// up.
pub proof fn lemma_copying_moves_one_frame<F>(
    source: &mut &[u8],
    sink: &mut Vec<u8>,
    r: Result<(), FrameError>,
)
    requires
        call_ensures(EmulatedCameraSession::<F>::read_and_write_yuv_frame, (source, sink), r),
    ensures
        r is Ok <==> old(source)@.len() >= 460_800,
        r is Ok ==> final(sink)@.len() == old(sink)@.len() + 460_800,
        r is Ok ==> final(sink)@ + final(source)@ == old(sink)@ + old(source)@,
        r is Err ==> r->Err_0 == FrameError::UnexpectedEof,
        r is Err ==> final(sink)@ == old(sink)@ && final(source)@.len() == 0,
{
    if old(source)@.len() >= 460_800 {
        assert(final(sink)@ + final(source)@ =~= old(sink)@ + old(source)@);
    }
}

} // verus!
