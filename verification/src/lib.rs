//! Verified core of a PlayStation Portable support library: native error
//! codes, colors, GE display-list command encoding, vertex layouts, VRAM
//! allocation, textures, audio channel bookkeeping, controller input and the
//! asset converters' file formats.

pub mod error;
pub mod gfx;
pub mod sys;
pub mod audio;
pub mod input;
pub mod ptr;
pub mod kernel;
pub mod atrac;
pub mod mp3;
pub mod fs;
pub mod display;
pub mod convert;
