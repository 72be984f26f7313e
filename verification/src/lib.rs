//! The decisions of an emulated single-planar V4L2 capture camera for virtio-media.
//!
//! The camera offers one pixel format (`YU12`), one frame size and one frame rate, a read-only
//! lens-facing control, and `MMAP` buffers only. This crate holds what the camera decides: how
//! each ioctl is answered, how buffers move between the guest and the camera, what a frame
//! holds, and how frames are put together from the bytes of a pipe. File descriptors, guest
//! mappings, threads and the event queue belong to the caller, which performs what the
//! functions here ask for and hands the outcome back.
//!
//! * [`v4l2`]: the plain values exchanged with the guest.
//! * [`errno`]: the error codes handed to the guest.
//! * [`lens`]: which way the camera faces.
//! * [`frame`]: frame geometry, the test pattern, copying one frame.
//! * [`buffer`]: one buffer and its state.
//! * [`session`]: the buffers of one session and the frames delivered through them.
//! * [`reader`]: the loop that feeds a session with frames.
//! * [`camera`]: buffer, streaming and session requests of the guest.
//! * [`formats`]: format, frame rate and input requests of the guest.
//! * [`controls`]: control and event requests of the guest.
//! * [`laws`]: what a caller can rely on, said of the calls themselves.

pub mod buffer;
pub mod camera;
pub mod controls;
pub mod errno;
pub mod formats;
pub mod frame;
pub mod laws;
pub mod lens;
pub mod reader;
pub mod session;
pub mod v4l2;
