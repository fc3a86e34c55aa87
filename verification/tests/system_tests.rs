use psp_apis::atrac::{AtracDecodeInfo, AtracHandle, StreamRequest};
use psp_apis::audio::{AudioChannel, AudioError, AudioFormat, Volume, align_sample_count};
use psp_apis::error::{NativeError, NativeFacility, native_error, native_result};
use psp_apis::fs::{Directory, File, FsError, remove_dir};
use psp_apis::kernel::{InterruptCtrlState, MemoryBlock, ModuleUid, interrupt_enabled, stop_unload_self_module};
use psp_apis::mp3::{Mp3Handle, Mp3InitArg};

const AUDIO_ERROR: i32 = 0x8026_0001u32 as i32;
const CRITICAL_AUDIO_ERROR: i32 = 0xc026_0001u32 as i32;

#[test]
fn native_errors_are_negative_codes() {
    assert!(NativeError::try_from_code(0).is_err());
    assert!(NativeError::try_from_code(5).is_err());
    let e = NativeError::try_from_code(AUDIO_ERROR).unwrap();
    assert_eq!(e.inner(), AUDIO_ERROR);
    assert_eq!(e.facility(), NativeFacility::Audio);
    assert!(!e.is_critical());
    let c = NativeError::try_from_code(CRITICAL_AUDIO_ERROR).unwrap();
    assert!(c.is_critical());
    assert_eq!(c.facility(), NativeFacility::Audio);
}

#[test]
fn facility_codes_round_trip() {
    assert_eq!(NativeFacility::Kernel.code(), 0x02);
    assert_eq!(NativeFacility::try_from_code(0x67), Ok(NativeFacility::Mp3));
    assert_eq!(NativeFacility::try_from_code(0x70), Err(()));
    assert_eq!(NativeFacility::try_from_code(NativeFacility::Atrac.code()), Ok(NativeFacility::Atrac));
}

#[test]
fn native_results_split_on_sign() {
    assert_eq!(native_result(7).ok(), Some(7));
    assert_eq!(native_result(-1).err().map(|e| e.inner()), Some(-1));
    assert!(native_error(0).is_ok());
    assert_eq!(native_error(AUDIO_ERROR).err().map(|e| e.inner()), Some(AUDIO_ERROR));
}

#[test]
fn audio_channels_from_replies() {
    let c = AudioChannel::reserve(1024, AudioFormat::Stereo, 3).unwrap();
    assert_eq!(c.id(), 3);
    assert_eq!(c.sample_count(), 1024);
    assert_eq!(c.sample_buffer_size(), 4096);
    assert!(c.check_buffer(&vec![0i16; 1024]).is_ok());
    assert!(matches!(c.check_buffer(&vec![0i16; 1023]), Err(AudioError::SampleBufferTooSmall)));
    let e = AudioChannel::reserve(1024, AudioFormat::Mono, AUDIO_ERROR).err().unwrap();
    assert_eq!(e.inner(), AUDIO_ERROR);
    let mut c = c;
    assert!(c.set_sample_count(64, -5).is_err());
    assert_eq!(c.sample_count(), 1024);
    assert!(c.set_sample_count(64, 0).is_ok());
    assert_eq!(c.sample_count(), 64);
}

#[test]
fn sample_counts_align_to_64() {
    assert_eq!(align_sample_count(1), 64);
    assert_eq!(align_sample_count(64), 64);
    assert_eq!(align_sample_count(65), 128);
}

#[test]
fn volumes() {
    assert_eq!(Volume::Stereo(100, 200).mono(), 150);
    assert_eq!(Volume::Mono(7).stereo(), (7, 7));
}

#[test]
fn kernel_objects_from_replies() {
    assert!(InterruptCtrlState(0).interrupts_suspended(0));
    assert!(!InterruptCtrlState(0).interrupts_suspended(1));
    assert!(interrupt_enabled(1));
    assert!(!interrupt_enabled(0));
    assert_eq!(MemoryBlock::alloc_from_partition(42).unwrap().uid(), 42);
    assert!(MemoryBlock::alloc_from_partition(-3).is_err());
    assert_eq!(MemoryBlock::address_argument(None), 0);
    assert_eq!(MemoryBlock::address_argument(Some(0x0880_0000)), 0x0880_0000);
    let m = ModuleUid::load(9).unwrap();
    assert_eq!(m.uid(), 9);
    assert_eq!(m.start(0, 17).unwrap(), 17);
    assert!(m.start(-2, 17).is_err());
    assert_eq!(stop_unload_self_module(0, 4).unwrap(), 4);
}

#[test]
fn atrac_replies() {
    let h = AtracHandle::new(5).unwrap();
    assert_eq!(h.handle_id(), 5);
    assert!(AtracHandle::new(-1).is_err());
    assert_eq!(
        h.decode(0, 2048, 1, 10).unwrap(),
        AtracDecodeInfo { sample_count: 2048, remaining: 10, is_end: true }
    );
    assert!(!h.decode(0, 2048, 0, 10).unwrap().is_end);
    assert!(h.decode(AUDIO_ERROR, 0, 0, 0).is_err());
    assert_eq!(h.remaining_frames(0, -1).unwrap(), None);
    assert_eq!(h.remaining_frames(0, 3).unwrap(), Some(3));
    assert_eq!(h.start_data_add(0, 0, 10, 20).unwrap(), None);
    assert_eq!(
        h.start_data_add(0, 0x0900_0000, 10, 20).unwrap(),
        Some(StreamRequest { destination: 0x0900_0000, len: 10, source_position: 20 })
    );
    assert_eq!(AtracHandle::loop_argument(None), -1);
    assert_eq!(AtracHandle::loop_argument(Some(2)), 2);
    assert_eq!(h.bitrate(0, 128).unwrap(), 128);
    assert_eq!(h.next_sample_count(0, 1024).unwrap(), 1024);
    assert_eq!(h.max_sample_count(0, 2048).unwrap(), 2048);
}

#[test]
fn mp3_replies() {
    let a = Mp3Handle::reserve_arguments(0, 1000, 0x100, 8192, 0x4000, 4608);
    assert_eq!(
        a,
        Mp3InitArg {
            mp3_stream_start: 0,
            mp3_stream_end: 1000,
            mp3_buf: 0x100,
            mp3_buf_size: 8192,
            pcm_buf: 0x4000,
            pcm_buf_size: 9216,
            unk1: 0,
            unk2: 0,
        }
    );
    let h = Mp3Handle::reserve(1).unwrap();
    assert_eq!(h.handle_id(), 1);
    assert_eq!(h.decode(1152, 0x5000).unwrap(), (0x5000, 1152));
    assert_eq!(h.start_data_add(0, 0x1000, 512, 16).unwrap(), Some((0x1010, 512)));
    assert_eq!(h.start_data_add(0, 0, 512, 16).unwrap(), None);
    assert_eq!(h.is_data_needed(1).unwrap(), true);
    assert_eq!(h.is_data_needed(0).unwrap(), false);
    assert_eq!(h.count(44100).unwrap(), 44100);
    assert!(h.count(-7).is_err());
    assert_eq!(Mp3Handle::loop_argument(None), -1);
    assert!(h.notify_data_add(3).is_ok());
}

#[test]
fn file_transfers_must_move_every_byte() {
    let f = File::open(3).unwrap();
    assert_eq!(f.uid(), 3);
    assert!(File::open(-1).is_err());
    assert_eq!(f.write(16, 16).unwrap(), 16);
    assert!(matches!(f.write(16, 15), Err(FsError::UnexpectedBytesWritten)));
    assert!(matches!(f.write(16, -1), Err(FsError::UnexpectedBytesWritten)));
    assert!(f.write_async(4, 4).is_ok());
    assert_eq!(f.wait_async(0, 99).unwrap(), 99);
    assert_eq!(f.device_type(0x10).unwrap(), 0x10);
}

#[test]
fn directories_report_their_end() {
    let d = Directory::open(8).unwrap();
    assert_eq!(d.read(1).unwrap(), false);
    assert_eq!(d.read(0).unwrap(), true);
    assert!(matches!(d.read(-4), Err(FsError::Native(_))));
    assert_eq!(remove_dir(0), Some(()));
    assert_eq!(remove_dir(1), None);
    let e: FsError = NativeError::try_from_code(-9).unwrap().into();
    assert!(matches!(e, FsError::Native(n) if n.inner() == -9));
}

#[test]
fn audio_output_arguments() {
    let c = AudioChannel::reserve(64, AudioFormat::Stereo, 0).unwrap();
    let buf = vec![0i16; 64];
    assert_eq!(c.output(&Volume::Stereo(100, 300), &buf).unwrap(), 200);
    assert_eq!(c.output(&Volume::Mono(0x7fff), &buf).unwrap(), 0x7fff);
    // Panned output takes the right level first.
    assert_eq!(c.output_stereo(&Volume::Stereo(100, 300), &buf).unwrap(), (300, 100));
    assert_eq!(c.output_stereo(&Volume::Mono(5), &buf).unwrap(), (5, 5));
    assert!(matches!(c.output_stereo(&Volume::Mono(5), &buf[..63]), Err(AudioError::SampleBufferTooSmall)));
}

#[test]
fn mp3_counts_and_file_reads() {
    let h = Mp3Handle::reserve(0).unwrap();
    assert_eq!(h.sample_rate(44100).unwrap(), 44100);
    assert_eq!(h.channel_count(2).unwrap(), 2);
    assert_eq!(h.bit_rate(128).unwrap(), 128);
    assert_eq!(h.loops(0).unwrap(), 0);
    assert_eq!(h.decoded_samples(1152).unwrap(), 1152);
    assert_eq!(h.max_sample_count(1152).unwrap(), 1152);
    assert!(h.sample_rate(-1).is_err());
    let mut f = File::open(4).unwrap();
    assert_eq!(f.read(8, 8).unwrap(), 8);
    assert!(matches!(f.read(8, 7), Err(FsError::UnexpectedBytesWritten)));
    assert!(f.read_async(8, 8).is_ok());
}
