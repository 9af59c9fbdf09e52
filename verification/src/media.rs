//! Media service for screen mirroring and remote control: video and audio
//! frame generation and processing, codecs, input dispatch, mirroring
//! sessions and the platform abstraction layer.

pub mod error;
pub mod codec;
pub mod video;
pub mod audio;
pub mod input;
pub mod session;
pub mod platform;
pub mod platform_android;
pub mod platform_windows;
