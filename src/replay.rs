//! The replay recorder: a switch and a byte buffer that holds, end to end,
//! the JSON encoding of every frame recorded while the switch is on.
//!
//! Frames sit in the buffer with nothing between them. A recorder that is
//! off does nothing on `record`, so that a caller may record every frame it
//! handles at no cost. Callers that share one recorder between threads put it
//! behind a lock, which keeps each frame's bytes together.
use vstd::prelude::*;
use crate::json::{encode_value, json_encoding};

verus! {

/// The bytes that recording one frame adds to an enabled recorder: its
/// encoding, or nothing where it cannot be encoded.
pub open spec fn frame_bytes(frame: serde_json::Value) -> Seq<u8> {
    match json_encoding(frame) {
        Some(bytes) => bytes,
        None => Seq::empty(),
    }
}

/// The buffer after one frame is recorded on a recorder in the given state.
pub open spec fn recorded(enabled: bool, buffer: Seq<u8>, frame: serde_json::Value) -> Seq<u8> {
    if enabled {
        buffer + frame_bytes(frame)
    } else {
        buffer
    }
}

/// The buffer after the frames are recorded one after another.
pub open spec fn recorded_all(enabled: bool, buffer: Seq<u8>, frames: Seq<serde_json::Value>) -> Seq<u8>
    decreases frames.len(),
{
    if frames.len() == 0 {
        buffer
    } else {
        recorded(enabled, recorded_all(enabled, buffer, frames.drop_last()), frames.last())
    }
}

/// The encodings of the frames, end to end.
pub open spec fn concat_frames(frames: Seq<serde_json::Value>) -> Seq<u8>
    decreases frames.len(),
{
    if frames.len() == 0 {
        Seq::empty()
    } else {
        concat_frames(frames.drop_last()) + frame_bytes(frames.last())
    }
}

/// A recorder that is off keeps its buffer as it was, however many frames
/// are recorded on it; one that starts empty stays empty.
pub proof fn disabled_recorder_keeps_buffer(buffer: Seq<u8>, frames: Seq<serde_json::Value>)
    ensures
        recorded_all(false, buffer, frames) == buffer,
    decreases frames.len(),
{
    if frames.len() > 0 {
        disabled_recorder_keeps_buffer(buffer, frames.drop_last());
    }
}

/// On a recorder that is on, recording `f1` and then `f2` appends the
/// encoding of `f1` and then that of `f2`, with nothing between them.
pub proof fn enabled_recorder_appends_in_order(buffer: Seq<u8>, f1: serde_json::Value, f2: serde_json::Value)
    ensures
        recorded(true, recorded(true, buffer, f1), f2) == buffer + frame_bytes(f1) + frame_bytes(f2),
{
}

/// On a recorder that is on, recording a run of frames appends their
/// encodings end to end, in the order in which they were recorded.
pub proof fn enabled_recorder_concatenates(buffer: Seq<u8>, frames: Seq<serde_json::Value>)
    ensures
        recorded_all(true, buffer, frames) == buffer + concat_frames(frames),
    decreases frames.len(),
{
    if frames.len() > 0 {
        enabled_recorder_concatenates(buffer, frames.drop_last());
        assert(buffer + concat_frames(frames.drop_last()) + frame_bytes(frames.last())
            =~= buffer + concat_frames(frames));
    } else {
        assert(buffer + concat_frames(frames) =~= buffer);
    }
}

pub struct Replay {
    enabled: bool,
    bufsize: usize,
    buffer: Vec<u8>,
}

impl Replay {
    /// Whether recording is on.
    pub closed spec fn spec_enabled(&self) -> bool {
        self.enabled
    }

    /// The bytes recorded so far.
    pub closed spec fn spec_buffer(&self) -> Seq<u8> {
        self.buffer@
    }

    /// The capacity that the buffer was first given.
    pub closed spec fn spec_bufsize(&self) -> usize {
        self.bufsize
    }

    /// A recorder that is off, with an empty buffer of the given capacity.
    pub fn disabled(bufsize: usize) -> (r: Replay)
        ensures
            !r.spec_enabled(),
            r.spec_buffer() == Seq::<u8>::empty(),
            r.spec_bufsize() == bufsize,
    {
        Replay { enabled: false, bufsize: bufsize, buffer: Vec::with_capacity(bufsize) }
    }

    /// A recorder that is on, with an empty buffer of the given capacity.
    pub fn enabled(bufsize: usize) -> (r: Replay)
        ensures
            r.spec_enabled(),
            r.spec_buffer() == Seq::<u8>::empty(),
            r.spec_bufsize() == bufsize,
    {
        Replay { enabled: true, bufsize: bufsize, buffer: Vec::with_capacity(bufsize) }
    }

    /// Turns recording on or off; what was recorded stays.
    pub fn set_enabled(&mut self, on: bool)
        ensures
            final(self).spec_enabled() == on,
            final(self).spec_buffer() == old(self).spec_buffer(),
            final(self).spec_bufsize() == old(self).spec_bufsize(),
    {
        self.enabled = on;
    }

    pub fn is_enabled(&self) -> (r: bool)
        ensures
            r == self.spec_enabled(),
    {
        self.enabled
    }

    pub fn bufsize(&self) -> (r: usize)
        ensures
            r == self.spec_bufsize(),
    {
        self.bufsize
    }

    /// The bytes recorded so far.
    pub fn buffer(&self) -> (r: &[u8])
        ensures
            r@ == self.spec_buffer(),
    {
        self.buffer.as_slice()
    }

    /// Appends the encoding of `frame` to the buffer when recording is on.
    /// A frame that cannot be encoded adds nothing.
    pub fn record(&mut self, frame: &serde_json::Value)
        ensures
            final(self).spec_buffer() == recorded(old(self).spec_enabled(), old(self).spec_buffer(), *frame),
            final(self).spec_enabled() == old(self).spec_enabled(),
            final(self).spec_bufsize() == old(self).spec_bufsize(),
    {
        if self.enabled {
            let encoded = encode_value(frame);
            self.append_encoded(encoded);
        }
    }

    /// Appends what an encoding of a frame gave: its bytes, or nothing where
    /// it failed. The switch is not consulted.
    pub fn append_encoded(&mut self, encoded: Result<Vec<u8>, serde_json::Error>)
        ensures
            final(self).spec_buffer() == old(self).spec_buffer() + match encoded {
                Ok(bytes) => bytes@,
                Err(_) => Seq::<u8>::empty(),
            },
            final(self).spec_enabled() == old(self).spec_enabled(),
            final(self).spec_bufsize() == old(self).spec_bufsize(),
    {
        match encoded {
            Ok(bytes) => {
                let mut bytes = bytes;
                self.buffer.append(&mut bytes);
            },
            Err(_) => {},
        }
    }
}

} // verus!
