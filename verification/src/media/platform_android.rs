//! Android screen capture and input injection. Away from Android, the
//! capturer produces gradient frames, permission is never granted and
//! injection stays disabled.

use vstd::prelude::*;
use crate::clock::unix_time_ms;
use crate::media::error::MediaError;
use crate::media::platform::{InputInjector, ScreenCapturer};
use crate::media::video::{gradient, gradient_bytes};
use crate::protocol::{KeyEvent, PixelFormat, TouchEvent, VideoFrame};

verus! {

/// Android screen capturer.
#[derive(Debug)]
pub struct AndroidScreenCapturer {
    running: bool,
    frame_counter: u64,
    width: u32,
    height: u32,
}

impl AndroidScreenCapturer {
    pub closed spec fn spec_running(&self) -> bool {
        self.running
    }

    pub closed spec fn frames_captured(&self) -> u64 {
        self.frame_counter
    }

    pub closed spec fn spec_width(&self) -> u32 {
        self.width
    }

    pub closed spec fn spec_height(&self) -> u32 {
        self.height
    }

    pub fn new(width: u32, height: u32) -> (r: Self)
        ensures
            !r.spec_running(),
            r.frames_captured() == 0,
            r.spec_width() == width,
            r.spec_height() == height,
    {
        AndroidScreenCapturer { running: false, frame_counter: 0, width, height }
    }

    /// Asks for screen capture permission; never granted away from Android.
    pub fn request_permission(&self) -> (r: bool)
        ensures
            !r,
    {
        false
    }
}

impl ScreenCapturer for AndroidScreenCapturer {
    /// The frame number has room and the frame's size fits in memory.
    open spec fn can_capture(&self) -> bool {
        self.frames_captured() < u64::MAX && self.spec_width() * self.spec_height() * 4
            <= usize::MAX
    }

    /// The next RGBA frame, a gradient shifted by the frame number; fails
    /// while stopped.
    fn capture_frame(&mut self) -> (r: Result<VideoFrame, MediaError>)
        ensures
            r is Ok <==> old(self).spec_running(),
            r matches Err(e) ==> e is NotInitialized && *final(self) == *old(self),
            final(self).spec_running() == old(self).spec_running(),
            final(self).spec_width() == old(self).spec_width(),
            final(self).spec_height() == old(self).spec_height(),
            r matches Ok(f) ==> final(self).frames_captured() == old(self).frames_captured() + 1
                && f.sequence_id == final(self).frames_captured() && f.width == old(self).spec_width()
                && f.height == old(self).spec_height() && f.pixel_format == PixelFormat::Rgba8888
                && f.is_keyframe == (final(self).frames_captured() % 30 == 1) && f.data@ == gradient(
                (old(self).spec_width() * old(self).spec_height() * 4) as nat,
                (final(self).frames_captured() % 256) as int,
            ),
    {
        if !self.running {
            return Err(MediaError::NotInitialized);
        }
        self.frame_counter = self.frame_counter + 1;
        let width = self.width as usize;
        let height = self.height as usize;
        let frame_size = width * height * 4;
        let data = gradient_bytes(frame_size, (self.frame_counter % 256) as u8);
        Ok(VideoFrame {
            sequence_id: self.frame_counter,
            timestamp_ms: unix_time_ms(),
            width: self.width,
            height: self.height,
            pixel_format: PixelFormat::Rgba8888,
            is_keyframe: self.frame_counter % 30 == 1,
            data,
        })
    }

    fn is_running(&self) -> (r: bool)
        ensures
            r == self.spec_running(),
    {
        self.running
    }

    /// Starts capturing; the frame numbers start over.
    fn start(&mut self) -> (r: Result<(), MediaError>)
        ensures
            r is Ok,
            final(self).spec_running(),
            final(self).frames_captured() == 0,
            final(self).spec_width() == old(self).spec_width(),
            final(self).spec_height() == old(self).spec_height(),
    {
        self.running = true;
        self.frame_counter = 0;
        Ok(())
    }

    fn stop(&mut self) -> (r: Result<(), MediaError>)
        ensures
            r is Ok,
            !final(self).spec_running(),
            final(self).frames_captured() == old(self).frames_captured(),
            final(self).spec_width() == old(self).spec_width(),
            final(self).spec_height() == old(self).spec_height(),
    {
        self.running = false;
        Ok(())
    }
}

/// Android input injector.
#[derive(Debug, Default)]
pub struct AndroidInputInjector {
    injected_touch_count: u64,
    injected_key_count: u64,
    enabled: bool,
}

impl AndroidInputInjector {
    pub closed spec fn spec_enabled(&self) -> bool {
        self.enabled
    }

    pub closed spec fn spec_touch_count(&self) -> u64 {
        self.injected_touch_count
    }

    pub closed spec fn spec_key_count(&self) -> u64 {
        self.injected_key_count
    }

    pub fn new() -> (r: Self)
        ensures
            !r.spec_enabled(),
            r.spec_touch_count() == 0,
            r.spec_key_count() == 0,
    {
        AndroidInputInjector { injected_touch_count: 0, injected_key_count: 0, enabled: false }
    }

    /// Asks to enable injection; never granted away from Android.
    pub fn enable(&self) -> (r: bool)
        ensures
            !r,
    {
        false
    }

    pub fn disable(&mut self)
        ensures
            !final(self).spec_enabled(),
            final(self).spec_touch_count() == old(self).spec_touch_count(),
            final(self).spec_key_count() == old(self).spec_key_count(),
    {
        self.enabled = false;
    }

    pub fn is_enabled(&self) -> (r: bool)
        ensures
            r == self.spec_enabled(),
    {
        self.enabled
    }

    pub fn injected_touch_count(&self) -> (r: u64)
        ensures
            r == self.spec_touch_count(),
    {
        self.injected_touch_count
    }

    pub fn injected_key_count(&self) -> (r: u64)
        ensures
            r == self.spec_key_count(),
    {
        self.injected_key_count
    }
}

impl InputInjector for AndroidInputInjector {
    /// While disabled nothing is counted; while enabled both counters have
    /// room for one more.
    open spec fn can_inject(&self) -> bool {
        !self.spec_enabled() || (self.spec_touch_count() < u64::MAX && self.spec_key_count() < u64::MAX)
    }

    /// Counts the touch event; fails while injection is disabled.
    fn inject_touch(&mut self, event: &TouchEvent) -> (r: Result<(), MediaError>)
        ensures
            r is Ok <==> old(self).spec_enabled(),
            r matches Err(e) ==> e is NotInitialized,
            final(self).spec_enabled() == old(self).spec_enabled(),
            final(self).spec_touch_count() == old(self).spec_touch_count() + if r is Ok {
                1int
            } else {
                0int
            },
            final(self).spec_key_count() == old(self).spec_key_count(),
    {
        if !self.enabled {
            return Err(MediaError::NotInitialized);
        }
        self.injected_touch_count = self.injected_touch_count + 1;
        Ok(())
    }

    /// Counts the key event; fails while injection is disabled.
    fn inject_key(&mut self, event: &KeyEvent) -> (r: Result<(), MediaError>)
        ensures
            r is Ok <==> old(self).spec_enabled(),
            r matches Err(e) ==> e is NotInitialized,
            final(self).spec_enabled() == old(self).spec_enabled(),
            final(self).spec_key_count() == old(self).spec_key_count() + if r is Ok {
                1int
            } else {
                0int
            },
            final(self).spec_touch_count() == old(self).spec_touch_count(),
    {
        if !self.enabled {
            return Err(MediaError::NotInitialized);
        }
        self.injected_key_count = self.injected_key_count + 1;
        Ok(())
    }
}

} // verus!
