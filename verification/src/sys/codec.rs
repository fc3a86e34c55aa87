//! Audio codec control blocks.
use vstd::prelude::*;

verus! {

/// The audio codecs.
#[derive(Clone, Copy, Debug, PartialEq, Eq, Structural)]
pub enum AudioCodec {
    At3Plus,
    At3,
    Mp3,
    Aac,
}

impl AudioCodec {
    /// The codec's number.
    pub open spec fn raw(self) -> i32 {
        match self {
            AudioCodec::At3Plus => 0x1000,
            AudioCodec::At3 => 0x1001,
            AudioCodec::Mp3 => 0x1002,
            AudioCodec::Aac => 0x1003,
        }
    }

    /// The codec's number.
    pub fn value(self) -> (v: i32)
        ensures
            v == self.raw(),
    {
        match self {
            AudioCodec::At3Plus => 0x1000,
            AudioCodec::At3 => 0x1001,
            AudioCodec::Mp3 => 0x1002,
            AudioCodec::Aac => 0x1003,
        }
    }
}

/// The control block of a codec instance (128 bytes); buffers are given by
/// their addresses.
#[derive(Clone, Copy, Debug)]
pub struct SceAudiocodecCodec {
    pub unk_init: i32,
    pub unk4: i32,
    pub error: i32,
    /// presumably in ME memory?
    pub edram_address: i32,
    /// 0x102400 for Atrac3+
    pub needed_memory: i32,
    pub inited: i32,
    /// Before decoding, set this to the start of the raw frame
    pub input_buffer: usize,
    pub input_bytes_read: i32,
    /// This is where the decoded data is written
    pub output_buffer: usize,
    pub output_samples_written: i32,
    /// This is probably a union with different fields for different codecs
    pub codec_specific: [u32; 2],
    /// Atrac3 (non-+) related. Zero with Atrac3+
    pub unk48: i32,
    pub unk52: i32,
    pub mp3_9999: i32,
    /// gets the value 3
    pub mp3_3: i32,
    /// Atrac3+ size related
    pub unk64: i32,
    pub mp3_9: i32,
    pub mp3_0: i32,
    pub unk76: i32,
    pub unk80: i32,
    pub mp3_1_first: i32,
    pub unk88: i32,
    pub unk92: i32,
    pub mp3_1: i32,
    pub unk100: i32,
    pub alloc_mem: u32,
    /// Make sure the size is 128
    pub padding: [u8; 20],
}

/// The ATRAC3 stream buffers: where to write next and how much, for the
/// first and the second buffer (write positions by address).
#[derive(Clone, Copy, Debug)]
pub struct Atrac3BufferInfo {
    pub puc_write_position_first_buf: usize,
    pub ui_writable_len_first_buf: usize,
    pub ui_min_write_len_first_buf: usize,
    pub ui_read_position_first_buf: usize,
    pub puc_write_position_second_buf: usize,
    pub ui_writable_len_second_buf: usize,
    pub ui_min_write_len_second_buf: usize,
    pub ui_read_position_second_buf: usize,
}

} // verus!
