//! What a caller can rely on, said of the calls themselves.
//!
//! Each law takes the arguments and the result of one or more calls of the library, and says how
//! they relate, in plain numbers and over the fields that a caller can see. An argument that a call
//! changes stands for both of its values, the one before and the one after.
//!
//! * [`frames`]: what pattern frames hold, and how frames are copied.
//! * [`buffers`]: what becomes of a buffer.
//! * [`delivery`]: how buffers are queued, filled and handed out.
//! * [`requests`]: how sessions get, map and lose their buffers.
//! * [`reading`]: how frames are put together from the bytes of a pipe.
//! * [`formats`]: formats, frame rate and inputs.
//! * [`controls`]: controls, events and lens facings.

pub mod buffers;
pub mod controls;
pub mod delivery;
pub mod formats;
pub mod frames;
pub mod reading;
pub mod requests;
