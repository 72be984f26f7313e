# emulated_camera

An emulated single-planar V4L2 capture camera for virtio-media, used for testing the Android camera
stack. It offers one pixel format (`YU12`), one frame size (640x480) and one frame rate (30 frames
per second), a read-only lens-facing control, and `MMAP` buffers. Frames come from a named pipe, and
from a moving test pattern while the pipe has none.

* `src/`: the library, verified with Verus. It holds what the camera decides: how each ioctl is
  answered, how buffers move between guest and camera, what a frame holds, and how frames are put
  together from the bytes of the pipe. Where outside work is needed in the middle of a request, the
  library says what to do and a second call takes the outcome: `reqbufs` and `finish_reqbufs`,
  `do_mmap` and `finish_mmap`, `begin_frame` and `finish_frame`, and `FrameReader::step` for the
  reader loop.
* `tests/`: tests of the library.
* `app/`: the virtio-media device around the library: memory files, guest mappings, the event queue,
  the pipe and the reader thread. It needs `virtio-media` and `v4l2r`, whose build generates bindings
  with libclang.

## What is proved

Each function states its result for every input that it admits. Three of them have a precondition:
`FrameReader::step` and `finish_reqbufs` take reports on what was asked for, and `pad_name` takes
ASCII text of at most 32 characters. Beyond that, public proof functions state what holds across
calls, among them: only one session has buffers at a time; no buffer is queued twice;
frames fill buffers in the order in which they were queued and are numbered one after the other;
every buffer that was granted can be mapped and queued; and the frames read from the pipe cut its
bytes into pieces without a gap.

The only unproved facts are the values of four error codes, which `src/errno.rs` reads from `libc`.
