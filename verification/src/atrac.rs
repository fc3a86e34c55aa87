//! ATRAC3 decoding handles, read from the decoder's replies.
use vstd::prelude::*;
use crate::error::{NativeError, NativeResult, native_error, native_result, reply_error};

verus! {

/// What decoding one frame gave.
#[derive(Clone, Copy, Debug, PartialEq, Eq, Structural)]
pub struct AtracDecodeInfo {
    /// Samples decoded.
    pub sample_count: usize,
    /// Frames left to decode (as the decoder reports them).
    pub remaining: usize,
    /// Whether this was the last frame.
    pub is_end: bool,
}

/// An ATRAC3 decoder identifier.
pub struct AtracHandle(i32);

/// Where the decoder wants more stream data: the destination address, the
/// bytes it can take and the stream offset to read them from.
#[derive(Clone, Copy, Debug, PartialEq, Eq, Structural)]
pub struct StreamRequest {
    pub destination: usize,
    pub len: usize,
    pub source_position: usize,
}

impl AtracHandle {
    /// The decoder's identifier.
    pub closed spec fn id(&self) -> i32 {
        self.0
    }

    /// The decoder the kernel created for a buffer (`reply`, its identifier),
    /// or the error it reported.
    pub fn new(reply: i32) -> (r: NativeResult<AtracHandle>)
        ensures
            reply >= 0 ==> (r matches Ok(h) && h.id() == reply),
            reply < 0 ==> reply_error(r, reply),
    {
        match native_result(reply) {
            Ok(id) => Ok(AtracHandle(id as i32)),
            Err(e) => Err(e),
        }
    }

    /// The decoder's identifier.
    pub fn handle_id(&self) -> (i: i32)
        ensures
            i == self.id(),
    {
        self.0
    }

    /// What a decode call gave, once it reported success (`status`): its
    /// sample count, its remaining frames and whether the end flag is 1.
    pub fn decode(&self, status: i32, sample_count: i32, is_end: i32, remaining: i32) -> (r: NativeResult<AtracDecodeInfo>)
        ensures
            status < 0 ==> reply_error(r, status),
            status >= 0 ==> r == Ok::<AtracDecodeInfo, NativeError>(AtracDecodeInfo {
                sample_count: sample_count as usize,
                remaining: remaining as usize,
                is_end: is_end == 1,
            }),
    {
        match native_error(status) {
            Ok(()) => Ok(AtracDecodeInfo {
                sample_count: #[verifier::truncate] (sample_count as usize),
                remaining: #[verifier::truncate] (remaining as usize),
                is_end: is_end == 1,
            }),
            Err(e) => Err(e),
        }
    }

    /// The frames left to decode: `None` when the whole stream is in memory
    /// (the decoder reports -1).
    pub fn remaining_frames(&self, status: i32, remaining_frames: i32) -> (r: NativeResult<Option<usize>>)
        ensures
            status < 0 ==> reply_error(r, status),
            status >= 0 && remaining_frames == -1 ==> r == Ok::<Option<usize>, NativeError>(None),
            status >= 0 && remaining_frames != -1 ==> r == Ok::<Option<usize>, NativeError>(
                Some(remaining_frames as usize),
            ),
    {
        match native_error(status) {
            Ok(()) => {
                if remaining_frames == -1 {
                    Ok(None)
                } else {
                    Ok(Some(#[verifier::truncate] (remaining_frames as usize)))
                }
            },
            Err(e) => Err(e),
        }
    }

    /// Where to put more stream data: `None` when the decoder gave no
    /// destination (a null address).
    pub fn start_data_add(&self, status: i32, destination: usize, to_write: usize, source_position: usize) -> (r: NativeResult<Option<StreamRequest>>)
        ensures
            status < 0 ==> reply_error(r, status),
            status >= 0 && destination == 0 ==> r == Ok::<Option<StreamRequest>, NativeError>(None),
            status >= 0 && destination != 0 ==> r == Ok::<Option<StreamRequest>, NativeError>(
                Some(StreamRequest { destination, len: to_write, source_position }),
            ),
    {
        match native_result(status) {
            Ok(_) => {
                if destination != 0 {
                    Ok(Some(StreamRequest { destination, len: to_write, source_position }))
                } else {
                    Ok(None)
                }
            },
            Err(e) => Err(e),
        }
    }

    /// The bitrate, once the decoder reported success.
    pub fn bitrate(&self, status: i32, bitrate: i32) -> (r: NativeResult<u32>)
        ensures
            status < 0 ==> reply_error(r, status),
            status >= 0 ==> r == Ok::<u32, NativeError>(bitrate as u32),
    {
        match native_error(status) {
            Ok(()) => Ok(#[verifier::truncate] (bitrate as u32)),
            Err(e) => Err(e),
        }
    }

    /// The loop count to ask for: the given one, or -1 for endless.
    pub fn loop_argument(loops: Option<u32>) -> (n: i32)
        ensures
            n == match loops {
                Some(l) => l as i32,
                None => -1i32,
            },
    {
        match loops {
            Some(l) => #[verifier::truncate] (l as i32),
            None => -1,
        }
    }

    /// The sample count of the next frame, once the decoder reported success.
    pub fn next_sample_count(&self, status: i32, sample_count: i32) -> (r: NativeResult<usize>)
        ensures
            status < 0 ==> reply_error(r, status),
            status >= 0 ==> r == Ok::<usize, NativeError>(sample_count as usize),
    {
        match native_error(status) {
            Ok(()) => Ok(#[verifier::truncate] (sample_count as usize)),
            Err(e) => Err(e),
        }
    }

    /// The largest sample count of a frame, once the decoder reported
    /// success.
    pub fn max_sample_count(&self, status: i32, sample_count: i32) -> (r: NativeResult<usize>)
        ensures
            status < 0 ==> reply_error(r, status),
            status >= 0 ==> r == Ok::<usize, NativeError>(sample_count as usize),
    {
        match native_error(status) {
            Ok(()) => Ok(#[verifier::truncate] (sample_count as usize)),
            Err(e) => Err(e),
        }
    }
}

} // verus!
