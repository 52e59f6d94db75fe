//! The audio capture component: a bounded sample buffer behind the
//! platform's input device.
//!
//! The device itself is an external collaborator that delivers raw chunks;
//! this module decides everything about them. A capture holds the device
//! exclusively: starting while one is running is refused, and every way
//! out of a capture — finishing, cancelling — releases the buffer
//! deterministically. The duration bound is enforced as a byte ceiling by
//! silent truncation, never as an error.

use vstd::prelude::*;

verus! {

/// Mathematical model of an [`AudioRecorder`].
pub ghost struct RecorderModel {
    /// Whether a capture is running and the input device is held.
    pub capturing: bool,
    /// The bytes captured so far.
    pub buffer: Seq<u8>,
    /// The byte ceiling of the running capture.
    pub max_bytes: int,
}

/// What remains of `chunk` after silent truncation to `room` bytes.
pub open spec fn truncated(chunk: Seq<u8>, room: int) -> Seq<u8> {
    if chunk.len() <= room {
        chunk
    } else if room >= 0 {
        chunk.take(room)
    } else {
        Seq::empty()
    }
}

/// Captures one bounded audio sample at a time from the input device.
pub struct AudioRecorder {
    capturing: bool,
    buffer: Vec<u8>,
    max_bytes: usize,
}

impl View for AudioRecorder {
    type V = RecorderModel;

    closed spec fn view(&self) -> RecorderModel {
        RecorderModel {
            capturing: self.capturing,
            buffer: self.buffer@,
            max_bytes: self.max_bytes as int,
        }
    }
}

impl AudioRecorder {
    /// Well-formedness: a running capture never exceeds its ceiling, and
    /// outside a capture the buffer is empty.
    pub open spec fn wf(&self) -> bool {
        &&& self@.capturing ==> self@.buffer.len() <= self@.max_bytes
        &&& !self@.capturing ==> self@.buffer.len() == 0
    }

    /// An idle recorder holding no device and no bytes.
    pub fn new() -> (r: AudioRecorder)
        ensures
            !r@.capturing,
            r@.buffer == Seq::<u8>::empty(),
            r.wf(),
    {
        let r = AudioRecorder { capturing: false, buffer: Vec::new(), max_bytes: 0 };
        proof {
            assert(r@.buffer =~= Seq::<u8>::empty());
        }
        r
    }

    /// Whether a capture is running (and the input device is held).
    pub fn is_capturing(&self) -> (r: bool)
        ensures
            r == self@.capturing,
    {
        self.capturing
    }

    /// Begins a capture bounded to `max_bytes`. Refused — the recorder
    /// left untouched — while another capture is running: the device is
    /// held exclusively.
    pub fn start_capture(&mut self, max_bytes: usize) -> (accepted: bool)
        requires
            old(self).wf(),
        ensures
            final(self).wf(),
            accepted == !old(self)@.capturing,
            !old(self)@.capturing ==> final(self)@ == (RecorderModel {
                capturing: true,
                buffer: Seq::<u8>::empty(),
                max_bytes: max_bytes as int,
            }),
            old(self)@.capturing ==> final(self)@ == old(self)@,
    {
        if self.capturing {
            false
        } else {
            self.max_bytes = max_bytes;
            self.capturing = true;
            proof {
                assert(self@.buffer =~= Seq::<u8>::empty());
            }
            true
        }
    }

    /// Folds one chunk from the device into the running capture,
    /// silently truncating at the byte ceiling.
    pub fn push_chunk(&mut self, chunk: &Vec<u8>)
        requires
            old(self).wf(),
            old(self)@.capturing,
        ensures
            final(self).wf(),
            final(self)@.capturing,
            final(self)@.max_bytes == old(self)@.max_bytes,
            final(self)@.buffer == old(self)@.buffer + truncated(
                chunk@,
                old(self)@.max_bytes - old(self)@.buffer.len(),
            ),
    {
        let ghost pre = self@;
        let n = chunk.len();
        let mut i: usize = 0;
        while i < n && self.buffer.len() < self.max_bytes
            invariant
                n == chunk@.len(),
                i <= n,
                self@.capturing == pre.capturing,
                self@.max_bytes == pre.max_bytes,
                self@.buffer == pre.buffer + chunk@.take(i as int),
                self@.buffer.len() <= self@.max_bytes,
                i <= pre.max_bytes - pre.buffer.len(),
            decreases n - i,
        {
            proof {
                let ghost so_far = pre.buffer + chunk@.take(i as int);
                assert(chunk@.take(i + 1) =~= chunk@.take(i as int).push(chunk@[i as int]));
                assert(pre.buffer + chunk@.take(i + 1) =~= so_far.push(chunk@[i as int]));
            }
            self.buffer.push(chunk[i]);
            i += 1;
        }
        proof {
            let room = pre.max_bytes - pre.buffer.len();
            if i < n {
                assert(self@.buffer.len() == self@.max_bytes);
                assert(i == room);
            } else {
                assert(chunk@.take(n as int) =~= chunk@);
            }
            assert(self@.buffer =~= pre.buffer + truncated(chunk@, room));
        }
    }

    /// Cancels the running capture: the device is released and every
    /// captured byte is discarded. A no-op when idle.
    pub fn cancel(&mut self)
        requires
            old(self).wf(),
        ensures
            final(self).wf(),
            final(self)@ == (RecorderModel {
                capturing: false,
                buffer: Seq::<u8>::empty(),
                max_bytes: old(self)@.max_bytes,
            }),
    {
        self.capturing = false;
        self.buffer.clear();
        proof {
            assert(self@.buffer =~= Seq::<u8>::empty());
        }
    }

    /// Ends the running capture, releasing the device and handing the
    /// captured sample out.
    pub fn finish(&mut self) -> (sample: Vec<u8>)
        requires
            old(self).wf(),
            old(self)@.capturing,
        ensures
            final(self).wf(),
            !final(self)@.capturing,
            final(self)@.buffer == Seq::<u8>::empty(),
            sample@ == old(self)@.buffer,
            sample@.len() <= old(self)@.max_bytes,
    {
        self.capturing = false;
        let mut sample: Vec<u8> = Vec::new();
        core::mem::swap(&mut sample, &mut self.buffer);
        proof {
            assert(self@.buffer =~= Seq::<u8>::empty());
        }
        sample
    }
}

} // verus!
