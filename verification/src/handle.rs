use vstd::prelude::*;
use crate::input::{ask_joypad_button, joypad_answer_is_pressed, joypad_query, InputQuery, JoypadButton};

verus! {

/// What a frame's handle holds, as plain values.
pub ghost struct RuntimeHandleView {
    pub upload_video_frame_already_called: bool,
    pub audio_samples_uploaded: usize,
    pub video_width: u32,
    pub video_height: u32,
    pub video_frame_bytes_per_pixel: u32,
}

impl RuntimeHandleView {
    /// The bytes that one whole video frame takes.
    pub open spec fn frame_bytes(self) -> int {
        self.video_width * self.video_height * self.video_frame_bytes_per_pixel
    }

    /// The bytes that one line of a video frame takes.
    pub open spec fn line_bytes(self) -> int {
        self.video_width * self.video_frame_bytes_per_pixel
    }

    /// Whether a video frame of `len` bytes may be uploaded: none was
    /// uploaded yet, and it holds a whole frame.
    pub open spec fn accepts_video_frame(self, len: int) -> bool {
        !self.upload_video_frame_already_called && len >= self.frame_bytes()
    }

    /// Whether `len` audio values may be uploaded: they pair up into stereo
    /// samples of left and right, and the count of samples still fits the
    /// counter.
    pub open spec fn accepts_audio_frame(self, len: int) -> bool {
        len % 2 == 0 && self.audio_samples_uploaded + len / 2 <= usize::MAX
    }
}

/// What the frontend's video callback is handed along with the frame: its
/// width and height in pixels and the bytes from one line to the next.
#[derive(Clone, Copy, Debug, PartialEq, Eq, Structural)]
pub struct VideoRefresh {
    pub width: u32,
    pub height: u32,
    pub bytes_per_line: u64,
}

/// The account of one frame: whether its video was uploaded and how many
/// stereo samples of audio were, against the frame size that was agreed on.
#[derive(Debug)]
pub struct RuntimeHandle {
    upload_video_frame_already_called: bool,
    audio_samples_uploaded: usize,
    video_width: u32,
    video_height: u32,
    video_frame_bytes_per_pixel: u32,
}

impl View for RuntimeHandle {
    type V = RuntimeHandleView;

    closed spec fn view(&self) -> RuntimeHandleView {
        RuntimeHandleView {
            upload_video_frame_already_called: self.upload_video_frame_already_called,
            audio_samples_uploaded: self.audio_samples_uploaded,
            video_width: self.video_width,
            video_height: self.video_height,
            video_frame_bytes_per_pixel: self.video_frame_bytes_per_pixel,
        }
    }
}

impl RuntimeHandle {
    /// The account at the start of a frame: nothing uploaded yet.
    pub fn new(video_width: u32, video_height: u32, video_frame_bytes_per_pixel: u32) -> (handle:
        RuntimeHandle)
        ensures
            handle@ == (RuntimeHandleView {
                upload_video_frame_already_called: false,
                audio_samples_uploaded: 0,
                video_width,
                video_height,
                video_frame_bytes_per_pixel,
            }),
    {
        RuntimeHandle {
            upload_video_frame_already_called: false,
            audio_samples_uploaded: 0,
            video_width,
            video_height,
            video_frame_bytes_per_pixel,
        }
    }

    /// Says whether `data` may be uploaded as this frame's video.
    pub fn can_upload_video_frame(&self, data: &[u8]) -> (accepted: bool)
        ensures
            accepted == self@.accepts_video_frame(data@.len() as int),
    {
        let width: u128 = self.video_width as u128;
        let height: u128 = self.video_height as u128;
        let depth: u128 = self.video_frame_bytes_per_pixel as u128;
        assert(width * height * depth <= 0xffff_ffff * 0xffff_ffff * 0xffff_ffff
            && width * height <= 0xffff_ffff * 0xffff_ffff) by (nonlinear_arith)
            requires
                0 <= width <= 0xffff_ffff,
                0 <= height <= 0xffff_ffff,
                0 <= depth <= 0xffff_ffff,
        ;
        let needed: u128 = width * height * depth;
        !self.upload_video_frame_already_called && data.len() as u128 >= needed
    }

    /// Takes note that this frame's video was uploaded, and says what the
    /// frontend is handed along with `data`.
    pub fn upload_video_frame(&mut self, data: &[u8]) -> (refresh: VideoRefresh)
        requires
            old(self)@.accepts_video_frame(data@.len() as int),
        ensures
            final(self)@ == (RuntimeHandleView {
                upload_video_frame_already_called: true,
                ..old(self)@
            }),
            refresh.width == old(self)@.video_width,
            refresh.height == old(self)@.video_height,
            refresh.bytes_per_line == old(self)@.line_bytes(),
    {
        self.upload_video_frame_already_called = true;
        let width: u64 = self.video_width as u64;
        let depth: u64 = self.video_frame_bytes_per_pixel as u64;
        assert(width * depth <= 0xffff_ffff * 0xffff_ffff) by (nonlinear_arith)
            requires
                0 <= width <= 0xffff_ffff,
                0 <= depth <= 0xffff_ffff,
        ;
        VideoRefresh {
            width: self.video_width,
            height: self.video_height,
            bytes_per_line: width * depth,
        }
    }

    /// Says whether `data` may be uploaded as audio of this frame.
    pub fn can_upload_audio_frame(&self, data: &[i16]) -> (accepted: bool)
        ensures
            accepted == self@.accepts_audio_frame(data@.len() as int),
    {
        data.len() % 2 == 0 && data.len() / 2 <= usize::MAX - self.audio_samples_uploaded
    }

    /// Counts the stereo samples of `data`, each a value for the left and
    /// one for the right, among those uploaded in this frame, and says how
    /// many of them the frontend is handed.
    pub fn upload_audio_frame(&mut self, data: &[i16]) -> (frames: usize)
        requires
            old(self)@.accepts_audio_frame(data@.len() as int),
        ensures
            final(self)@ == (RuntimeHandleView {
                audio_samples_uploaded: (old(self)@.audio_samples_uploaded + data@.len() / 2) as usize,
                ..old(self)@
            }),
            frames == data@.len() / 2,
    {
        let frames: usize = data.len() / 2;
        self.audio_samples_uploaded = self.audio_samples_uploaded + frames;
        frames
    }

    /// Puts the question of whether `button` is held down on the joypad at
    /// `port`.
    pub fn joypad_button_query(&self, port: u32, button: JoypadButton) -> (query: InputQuery)
        ensures
            query == joypad_query(port, button),
    {
        ask_joypad_button(port, button)
    }

    /// Reads the frontend's answer to such a question: the button is held
    /// down where the answer is 1, and only there.
    pub fn is_joypad_button_pressed(&self, answer: i16) -> (pressed: bool)
        ensures
            pressed == (answer == 1),
    {
        joypad_answer_is_pressed(answer)
    }

    /// Whether this frame's video was uploaded.
    pub fn video_frame_uploaded(&self) -> (uploaded: bool)
        ensures
            uploaded == self@.upload_video_frame_already_called,
    {
        self.upload_video_frame_already_called
    }

    /// How many stereo samples of audio were uploaded in this frame.
    pub fn audio_samples_uploaded(&self) -> (count: usize)
        ensures
            count == self@.audio_samples_uploaded,
    {
        self.audio_samples_uploaded
    }
}

/// Within one frame a second video frame is never accepted, whatever its
/// length.
pub proof fn lemma_second_video_frame_is_refused(handle: RuntimeHandleView, first: int, second: int)
    requires
        handle.accepts_video_frame(first),
    ensures
        !(RuntimeHandleView {
            upload_video_frame_already_called: true,
            ..handle
        }).accepts_video_frame(second),
{
}

/// A first video frame is accepted exactly from the length of a whole frame
/// on: that length is accepted, and one byte less is not.
pub proof fn lemma_whole_frame_is_the_least_accepted(handle: RuntimeHandleView)
    requires
        !handle.upload_video_frame_already_called,
    ensures
        handle.accepts_video_frame(handle.frame_bytes()),
        !handle.accepts_video_frame(handle.frame_bytes() - 1),
{
}

} // verus!
