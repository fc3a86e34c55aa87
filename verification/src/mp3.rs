//! MP3 decoding handles, read from the decoder's replies.
use vstd::prelude::*;
use crate::error::{NativeError, NativeResult, native_error, native_result, reply_error};

verus! {

/// The arguments of reserving an MP3 decoder: the stream's byte range, the
/// stream buffer and the sample buffer (addresses and sizes in bytes).
#[derive(Clone, Copy, Debug, PartialEq, Eq, Structural)]
pub struct Mp3InitArg {
    pub mp3_stream_start: u32,
    pub mp3_stream_end: u32,
    pub mp3_buf: usize,
    pub mp3_buf_size: i32,
    pub pcm_buf: usize,
    pub pcm_buf_size: i32,
    pub unk1: i32,
    pub unk2: i32,
}

/// An MP3 decoder handle.
pub struct Mp3Handle(i32);

impl Mp3Handle {
    /// The handle's identifier.
    pub closed spec fn id(&self) -> i32 {
        self.0
    }

    /// The reservation arguments for a stream `[stream_start, stream_end)`,
    /// a stream buffer of `mp3_buf_len` bytes and a sample buffer of
    /// `pcm_buf_len` 16-bit samples.
    pub fn reserve_arguments(
        stream_start: usize,
        stream_end: usize,
        mp3_buf: usize,
        mp3_buf_len: usize,
        pcm_buf: usize,
        pcm_buf_len: usize,
    ) -> (a: Mp3InitArg)
        requires
            pcm_buf_len * 2 <= usize::MAX,
        ensures
            a == (Mp3InitArg {
                mp3_stream_start: stream_start as u32,
                mp3_stream_end: stream_end as u32,
                mp3_buf,
                mp3_buf_size: mp3_buf_len as i32,
                pcm_buf,
                pcm_buf_size: (pcm_buf_len * 2) as i32,
                unk1: 0,
                unk2: 0,
            }),
    {
        Mp3InitArg {
            mp3_stream_start: #[verifier::truncate] (stream_start as u32),
            mp3_stream_end: #[verifier::truncate] (stream_end as u32),
            mp3_buf,
            mp3_buf_size: #[verifier::truncate] (mp3_buf_len as i32),
            pcm_buf,
            pcm_buf_size: #[verifier::truncate] ((pcm_buf_len * 2) as i32),
            unk1: 0,
            unk2: 0,
        }
    }

    /// The decoder the kernel reserved (`reply`, its identifier), or the
    /// error it reported.
    pub fn reserve(reply: i32) -> (r: NativeResult<Mp3Handle>)
        ensures
            reply >= 0 ==> (r matches Ok(h) && h.id() == reply),
            reply < 0 ==> reply_error(r, reply),
    {
        match native_result(reply) {
            Ok(id) => Ok(Mp3Handle(id as i32)),
            Err(e) => Err(e),
        }
    }

    /// The handle's identifier.
    pub fn handle_id(&self) -> (i: i32)
        ensures
            i == self.id(),
    {
        self.0
    }

    /// The decoded samples: `reply` of them at `destination`.
    pub fn decode(&self, reply: i32, destination: usize) -> (r: NativeResult<(usize, usize)>)
        ensures
            reply < 0 ==> reply_error(r, reply),
            reply >= 0 ==> r == Ok::<(usize, usize), NativeError>((destination, reply as usize)),
    {
        match native_result(reply) {
            Ok(n) => Ok((destination, n as usize)),
            Err(e) => Err(e),
        }
    }

    /// Where to put more stream data (its address, past `source_position`,
    /// and its length): `None` when the decoder gave no destination.
    pub fn start_data_add(&self, status: i32, destination: usize, to_write: i32, source_position: i32) -> (r: NativeResult<Option<(usize, usize)>>)
        requires
            status >= 0 && destination != 0 ==> 0 <= destination + source_position <= usize::MAX,
        ensures
            status < 0 ==> reply_error(r, status),
            status >= 0 && destination == 0 ==> r == Ok::<Option<(usize, usize)>, NativeError>(None),
            status >= 0 && destination != 0 ==> r == Ok::<Option<(usize, usize)>, NativeError>(
                Some(((destination + source_position) as usize, to_write as usize)),
            ),
    {
        match native_result(status) {
            Ok(_) => {
                if destination != 0 {
                    let start: usize = if source_position >= 0 {
                        destination + source_position as usize
                    } else {
                        destination - (0 - source_position as i64) as usize
                    };
                    Ok(Some((start, #[verifier::truncate] (to_write as usize))))
                } else {
                    Ok(None)
                }
            },
            Err(e) => Err(e),
        }
    }

    /// The kernel accepted the added stream data (`reply`), or reported an
    /// error.
    pub fn notify_data_add(&self, reply: i32) -> (r: NativeResult<()>)
        ensures
            reply < 0 ==> reply_error(r, reply),
            reply >= 0 ==> r is Ok,
    {
        match native_result(reply) {
            Ok(_) => Ok(()),
            Err(e) => Err(e),
        }
    }

    /// Whether the decoder needs more stream data: a reply of 1.
    pub fn is_data_needed(&self, reply: i32) -> (r: NativeResult<bool>)
        ensures
            reply < 0 ==> reply_error(r, reply),
            reply >= 0 ==> r == Ok::<bool, NativeError>(reply == 1),
    {
        match native_result(reply) {
            Ok(i) => Ok(i == 1),
            Err(e) => Err(e),
        }
    }

    /// The loop count to ask for: the given one, or -1 for endless.
    pub fn loop_argument(loops: Option<usize>) -> (n: i32)
        ensures
            n == match loops {
                Some(l) => l as i32,
                None => -1i32,
            },
    {
        match loops {
            Some(l) => #[verifier::truncate] (l as i32),
            None => -1,
        }
    }

    /// The loop count, as the decoder reports it (`reply`).
    pub fn loops(&self, reply: i32) -> (r: NativeResult<usize>)
        ensures
            reply < 0 ==> reply_error(r, reply),
            reply >= 0 ==> r == Ok::<usize, NativeError>(reply as usize),
    {
        self.count(reply)
    }

    /// The samples decoded so far, as the decoder reports it (`reply`).
    pub fn decoded_samples(&self, reply: i32) -> (r: NativeResult<usize>)
        ensures
            reply < 0 ==> reply_error(r, reply),
            reply >= 0 ==> r == Ok::<usize, NativeError>(reply as usize),
    {
        self.count(reply)
    }

    /// The largest number of samples one decode gives, as the decoder reports it (`reply`).
    pub fn max_sample_count(&self, reply: i32) -> (r: NativeResult<usize>)
        ensures
            reply < 0 ==> reply_error(r, reply),
            reply >= 0 ==> r == Ok::<usize, NativeError>(reply as usize),
    {
        self.count(reply)
    }

    /// The sampling rate, as the decoder reports it (`reply`).
    pub fn sample_rate(&self, reply: i32) -> (r: NativeResult<usize>)
        ensures
            reply < 0 ==> reply_error(r, reply),
            reply >= 0 ==> r == Ok::<usize, NativeError>(reply as usize),
    {
        self.count(reply)
    }

    /// The bit rate, as the decoder reports it (`reply`).
    pub fn bit_rate(&self, reply: i32) -> (r: NativeResult<usize>)
        ensures
            reply < 0 ==> reply_error(r, reply),
            reply >= 0 ==> r == Ok::<usize, NativeError>(reply as usize),
    {
        self.count(reply)
    }

    /// The number of channels, as the decoder reports it (`reply`).
    pub fn channel_count(&self, reply: i32) -> (r: NativeResult<usize>)
        ensures
            reply < 0 ==> reply_error(r, reply),
            reply >= 0 ==> r == Ok::<usize, NativeError>(reply as usize),
    {
        self.count(reply)
    }

    /// A count the decoder reports (loops, decoded samples, largest output,
    /// sampling rate, bit rate, channels).
    pub fn count(&self, reply: i32) -> (r: NativeResult<usize>)
        ensures
            reply < 0 ==> reply_error(r, reply),
            reply >= 0 ==> r == Ok::<usize, NativeError>(reply as usize),
    {
        match native_result(reply) {
            Ok(i) => Ok(i as usize),
            Err(e) => Err(e),
        }
    }
}

} // verus!
