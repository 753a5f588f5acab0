use vstd::prelude::*;

verus! {

/// A rate or proportion as a fraction of two whole numbers. With a
/// denominator of 0 it stands for no number at all.
#[derive(Clone, Copy, Debug, PartialEq, Eq, Structural)]
pub struct Ratio {
    pub numerator: u32,
    pub denominator: u32,
}

impl Ratio {
    /// Whether the fraction stands for a number.
    pub open spec fn is_number(self) -> bool {
        self.denominator != 0
    }

    /// Whether the fraction is a number greater than `whole`.
    pub open spec fn is_above(self, whole: u32) -> bool {
        self.denominator != 0 && self.numerator > whole * self.denominator
    }

    /// The fraction `numerator / denominator`.
    pub fn new(numerator: u32, denominator: u32) -> (ratio: Ratio)
        ensures
            ratio == (Ratio { numerator, denominator }),
    {
        Ratio { numerator, denominator }
    }

    /// The whole number `value`.
    pub fn whole(value: u32) -> (ratio: Ratio)
        ensures
            ratio == (Ratio { numerator: value, denominator: 1 }),
    {
        Ratio { numerator: value, denominator: 1 }
    }

    /// Says whether the fraction is a number greater than `whole`.
    pub fn exceeds(self, whole: u32) -> (above: bool)
        ensures
            above == self.is_above(whole),
    {
        assert(whole * self.denominator <= 0xffff_ffff * 0xffff_ffff) by (nonlinear_arith)
            requires
                0 <= whole <= 0xffff_ffff,
                0 <= self.denominator <= 0xffff_ffff,
        ;
        let left: u64 = self.numerator as u64;
        let right: u64 = (whole as u64) * (self.denominator as u64);
        self.denominator != 0 && left > right
    }
}

/// How the pixels of a video frame are laid out.
#[allow(non_camel_case_types)]
#[derive(Clone, Copy, Debug, PartialEq, Eq, Structural)]
pub enum PixelFormat {
    /// 16 bits a pixel: one unused bit, then five bits each of red, green
    /// and blue.
    ARGB1555,
    /// 32 bits a pixel: eight unused bits, then eight bits each of red,
    /// green and blue.
    ARGB8888,
    /// 16 bits a pixel: five bits of red, six of green, five of blue.
    RGB565,
}

impl PixelFormat {
    /// The bytes that one pixel takes.
    pub open spec fn spec_bytes_per_pixel(self) -> u32 {
        match self {
            PixelFormat::ARGB1555 => 2,
            PixelFormat::RGB565 => 2,
            PixelFormat::ARGB8888 => 4,
        }
    }

    /// The bytes that one pixel takes.
    pub fn bytes_per_pixel(self) -> (bytes: u32)
        ensures
            bytes == self.spec_bytes_per_pixel(),
    {
        match self {
            PixelFormat::ARGB1555 => 2,
            PixelFormat::RGB565 => 2,
            PixelFormat::ARGB8888 => 4,
        }
    }
}

/// The television standard that a game's timing follows.
#[derive(Clone, Copy, Debug, PartialEq, Eq, Structural)]
pub enum Region {
    NTSC,
    PAL,
}

/// The number by which the frontend knows a region.
pub open spec fn region_number(region: Region) -> u32 {
    match region {
        Region::NTSC => 0,
        Region::PAL => 1,
    }
}

/// `libretro_sys::Region::to_uint`, which gives the number that the
/// variant was declared with: 0 for NTSC, 1 for PAL.
#[verifier::external_body]
fn region_to_uint(region: Region) -> (number: u32)
    ensures
        number == region_number(region),
{
    match region {
        Region::NTSC => libretro_sys::Region::NTSC.to_uint(),
        Region::PAL => libretro_sys::Region::PAL.to_uint(),
    }
}

impl Region {
    /// The number by which the frontend knows this region.
    pub fn to_uint(self) -> (number: u32)
        ensures
            number == region_number(self),
    {
        region_to_uint(self)
    }
}

/// The frame rate above which a game without a stated region counts as NTSC.
pub const NTSC_THRESHOLD: u32 = 59;

/// What an audio and video description holds, as plain values.
pub ghost struct AudioVideoInfoView {
    pub width: u32,
    pub height: u32,
    pub max_width: u32,
    pub max_height: u32,
    pub frames_per_second: Ratio,
    pub audio_sample_rate: Ratio,
    pub aspect_ratio: Option<Ratio>,
    pub pixel_format: PixelFormat,
    pub game_region: Option<Region>,
}

impl AudioVideoInfoView {
    /// The largest frame is no smaller than the current one.
    pub open spec fn wf(self) -> bool {
        self.max_width >= self.width && self.max_height >= self.height
    }

    /// The description before anything was set.
    pub open spec fn initial() -> AudioVideoInfoView {
        AudioVideoInfoView {
            width: 0,
            height: 0,
            max_width: 0,
            max_height: 0,
            frames_per_second: Ratio { numerator: 0, denominator: 1 },
            audio_sample_rate: Ratio { numerator: 0, denominator: 1 },
            aspect_ratio: None,
            pixel_format: PixelFormat::RGB565,
            game_region: None,
        }
    }

    /// The description after the current frame's size, the frame rate and the
    /// pixel format were set.
    pub open spec fn video(
        self,
        width: u32,
        height: u32,
        frames_per_second: Ratio,
        pixel_format: PixelFormat,
    ) -> AudioVideoInfoView {
        AudioVideoInfoView {
            width,
            height,
            max_width: larger(self.max_width, width),
            max_height: larger(self.max_height, height),
            frames_per_second,
            pixel_format,
            ..self
        }
    }

    /// The description after the largest frame was raised.
    pub open spec fn max_video_size(self, max_width: u32, max_height: u32) -> AudioVideoInfoView {
        AudioVideoInfoView {
            max_width: larger(self.max_width, max_width),
            max_height: larger(self.max_height, max_height),
            ..self
        }
    }

    /// The description after each size of `sizes` was offered, in turn, as
    /// the largest frame.
    pub open spec fn max_video_sizes(self, sizes: Seq<(u32, u32)>) -> AudioVideoInfoView
        decreases sizes.len(),
    {
        if sizes.len() == 0 {
            self
        } else {
            self.max_video_sizes(sizes.drop_last()).max_video_size(sizes.last().0, sizes.last().1)
        }
    }

    /// The stereo samples of audio owed for one frame, twice the sample rate
    /// over the frame rate, as a fraction: its numerator.
    pub open spec fn required_numerator(self) -> int {
        2 * self.audio_sample_rate.numerator * self.frames_per_second.denominator
    }

    /// The denominator of that fraction.
    pub open spec fn required_denominator(self) -> int {
        self.audio_sample_rate.denominator * self.frames_per_second.numerator
    }

    /// Whether that fraction is a number: both rates are numbers and the
    /// frame rate is not 0.
    pub open spec fn requirement_is_number(self) -> bool {
        &&& self.audio_sample_rate.denominator != 0
        &&& self.frames_per_second.denominator != 0
        &&& self.frames_per_second.numerator != 0
    }

    /// The whole samples owed for one frame: the fraction rounded down.
    pub open spec fn required_samples(self) -> int
        recommends
            self.requirement_is_number(),
    {
        self.required_numerator() / self.required_denominator()
    }

    /// Whether `total` samples are at least what is owed for one frame.
    pub open spec fn budget_met(self, total: int) -> bool {
        &&& self.requirement_is_number()
        &&& total * self.required_denominator() >= self.required_numerator()
    }

    /// The stated region; without one, NTSC where the frame rate is above
    /// the threshold and PAL where it is not.
    pub open spec fn infer_game_region(self) -> Region {
        match self.game_region {
            Some(region) => region,
            None => if self.frames_per_second.is_above(NTSC_THRESHOLD) {
                Region::NTSC
            } else {
                Region::PAL
            },
        }
    }
}

/// The larger of two numbers.
pub open spec fn larger(a: u32, b: u32) -> u32 {
    if a >= b {
        a
    } else {
        b
    }
}

/// The size and timing of a game's video, and the rate of its audio.
#[derive(Clone, Copy, Debug)]
pub struct AudioVideoInfo {
    width: u32,
    height: u32,
    max_width: u32,
    max_height: u32,
    frames_per_second: Ratio,
    audio_sample_rate: Ratio,
    aspect_ratio: Option<Ratio>,
    pixel_format: PixelFormat,
    game_region: Option<Region>,
}

impl View for AudioVideoInfo {
    type V = AudioVideoInfoView;

    closed spec fn view(&self) -> AudioVideoInfoView {
        AudioVideoInfoView {
            width: self.width,
            height: self.height,
            max_width: self.max_width,
            max_height: self.max_height,
            frames_per_second: self.frames_per_second,
            audio_sample_rate: self.audio_sample_rate,
            aspect_ratio: self.aspect_ratio,
            pixel_format: self.pixel_format,
            game_region: self.game_region,
        }
    }
}

/// What the frontend is told of a game's video and audio.
#[derive(Clone, Copy, Debug, PartialEq, Eq, Structural)]
pub struct SystemAvInfo {
    pub base_width: u32,
    pub base_height: u32,
    pub max_width: u32,
    pub max_height: u32,
    /// 0 where the frontend is to work it out from the frame's size.
    pub aspect_ratio: Ratio,
    pub fps: Ratio,
    pub sample_rate: Ratio,
}

impl AudioVideoInfo {
    /// An empty description: no size, no rates, RGB565, no stated region.
    pub fn new() -> (info: AudioVideoInfo)
        ensures
            info@ == AudioVideoInfoView::initial(),
            info@.wf(),
    {
        AudioVideoInfo {
            width: 0,
            height: 0,
            max_width: 0,
            max_height: 0,
            frames_per_second: Ratio { numerator: 0, denominator: 1 },
            audio_sample_rate: Ratio { numerator: 0, denominator: 1 },
            aspect_ratio: None,
            pixel_format: PixelFormat::RGB565,
            game_region: None,
        }
    }

    /// Sets the current frame's size, the frame rate and the pixel format,
    /// and raises the largest frame to the current one where it was smaller.
    pub fn video(
        self,
        width: u32,
        height: u32,
        frames_per_second: Ratio,
        pixel_format: PixelFormat,
    ) -> (info: AudioVideoInfo)
        ensures
            info@ == self@.video(width, height, frames_per_second, pixel_format),
            info@.wf(),
    {
        let mut info = self;
        info.width = width;
        info.height = height;
        info.max_width = if info.max_width >= width { info.max_width } else { width };
        info.max_height = if info.max_height >= height { info.max_height } else { height };
        info.frames_per_second = frames_per_second;
        info.pixel_format = pixel_format;
        info
    }

    /// Raises the largest frame to the given size where it was smaller.
    pub fn max_video_size(self, max_width: u32, max_height: u32) -> (info: AudioVideoInfo)
        ensures
            info@ == self@.max_video_size(max_width, max_height),
            self@.wf() ==> info@.wf(),
    {
        let mut info = self;
        info.max_width = if info.max_width >= max_width { info.max_width } else { max_width };
        info.max_height = if info.max_height >= max_height { info.max_height } else { max_height };
        info
    }

    /// States the proportion of width to height in which frames are shown.
    pub fn aspect_ratio(self, aspect_ratio: Ratio) -> (info: AudioVideoInfo)
        ensures
            info@ == (AudioVideoInfoView { aspect_ratio: Some(aspect_ratio), ..self@ }),
    {
        let mut info = self;
        info.aspect_ratio = Some(aspect_ratio);
        info
    }

    /// Sets the audio's sample rate.
    pub fn audio(self, sample_rate: Ratio) -> (info: AudioVideoInfo)
        ensures
            info@ == (AudioVideoInfoView { audio_sample_rate: sample_rate, ..self@ }),
    {
        let mut info = self;
        info.audio_sample_rate = sample_rate;
        info
    }

    /// States the game's region, which then no longer follows the frame rate.
    pub fn region(self, game_region: Region) -> (info: AudioVideoInfo)
        ensures
            info@ == (AudioVideoInfoView { game_region: Some(game_region), ..self@ }),
    {
        let mut info = self;
        info.game_region = Some(game_region);
        info
    }

    /// The game's region: the stated one, else the one that the frame rate
    /// points to.
    pub fn infer_game_region(&self) -> (region: Region)
        ensures
            region == self@.infer_game_region(),
    {
        match self.game_region {
            Some(region) => region,
            None => if self.frames_per_second.exceeds(NTSC_THRESHOLD) {
                Region::NTSC
            } else {
                Region::PAL
            },
        }
    }

    /// Settles one frame's audio: with `total` samples at hand, gives what
    /// is left of them once the frame's whole samples are taken off, or
    /// nothing where they do not cover what the frame is owed.
    pub fn audio_budget(&self, total: usize) -> (surplus: Option<usize>)
        ensures
            surplus.is_some() == self@.budget_met(total as int),
            surplus.is_some() ==> surplus.unwrap() == total - self@.required_samples(),
    {
        let rate_n: u128 = self.audio_sample_rate.numerator as u128;
        let rate_d: u128 = self.audio_sample_rate.denominator as u128;
        let fps_n: u128 = self.frames_per_second.numerator as u128;
        let fps_d: u128 = self.frames_per_second.denominator as u128;
        if rate_d == 0 || fps_d == 0 || fps_n == 0 {
            return None;
        }
        assert(2 * rate_n * fps_d <= 2 * 0xffff_ffff * 0xffff_ffff) by (nonlinear_arith)
            requires
                0 <= rate_n <= 0xffff_ffff,
                0 <= fps_d <= 0xffff_ffff,
        ;
        assert(0 < rate_d * fps_n <= 0xffff_ffff * 0xffff_ffff) by (nonlinear_arith)
            requires
                0 < rate_d <= 0xffff_ffff,
                0 < fps_n <= 0xffff_ffff,
        ;
        let owed_n: u128 = 2 * rate_n * fps_d;
        let owed_d: u128 = rate_d * fps_n;
        assert(total * owed_d <= 0xffff_ffff_ffff_ffff * (0xffff_ffff * 0xffff_ffff))
            by (nonlinear_arith)
            requires
                0 <= total <= 0xffff_ffff_ffff_ffff,
                0 <= owed_d <= 0xffff_ffff * 0xffff_ffff,
        ;
        let have: u128 = (total as u128) * owed_d;
        if have < owed_n {
            return None;
        }
        let owed: u128 = owed_n / owed_d;
        proof {
            vstd::arithmetic::div_mod::lemma_div_is_ordered(
                owed_n as int,
                have as int,
                owed_d as int,
            );
            vstd::arithmetic::div_mod::lemma_div_multiples_vanish(total as int, owed_d as int);
            assert(have as int == owed_d as int * total as int) by (nonlinear_arith)
                requires
                    have as int == total as int * owed_d as int,
            ;
        }
        Some(total - (owed as usize))
    }

    /// The pixel format of the frames.
    pub fn pixel_format(&self) -> (format: PixelFormat)
        ensures
            format == self@.pixel_format,
    {
        self.pixel_format
    }

    /// The current frame's width.
    pub fn width(&self) -> (width: u32)
        ensures
            width == self@.width,
    {
        self.width
    }

    /// The current frame's height.
    pub fn height(&self) -> (height: u32)
        ensures
            height == self@.height,
    {
        self.height
    }

    /// What the frontend is told: the sizes and rates as they stand, and an
    /// aspect ratio of 0 where none was stated.
    pub fn system_av_info(&self) -> (told: SystemAvInfo)
        ensures
            told == (SystemAvInfo {
                base_width: self@.width,
                base_height: self@.height,
                max_width: self@.max_width,
                max_height: self@.max_height,
                aspect_ratio: match self@.aspect_ratio {
                    Some(ratio) => ratio,
                    None => Ratio { numerator: 0, denominator: 1 },
                },
                fps: self@.frames_per_second,
                sample_rate: self@.audio_sample_rate,
            }),
    {
        SystemAvInfo {
            base_width: self.width,
            base_height: self.height,
            max_width: self.max_width,
            max_height: self.max_height,
            aspect_ratio: match self.aspect_ratio {
                Some(ratio) => ratio,
                None => Ratio { numerator: 0, denominator: 1 },
            },
            fps: self.frames_per_second,
            sample_rate: self.audio_sample_rate,
        }
    }
}

/// However often the largest frame is raised after the current frame's size
/// was set, it stays no smaller than the current frame.
pub proof fn lemma_max_size_covers_base(
    start: AudioVideoInfoView,
    width: u32,
    height: u32,
    frames_per_second: Ratio,
    pixel_format: PixelFormat,
    sizes: Seq<(u32, u32)>,
)
    ensures
        start.video(width, height, frames_per_second, pixel_format).max_video_sizes(sizes).wf(),
        start.video(width, height, frames_per_second, pixel_format).max_video_sizes(sizes).width
            == width,
        start.video(width, height, frames_per_second, pixel_format).max_video_sizes(sizes).height
            == height,
    decreases sizes.len(),
{
    if sizes.len() > 0 {
        lemma_max_size_covers_base(
            start,
            width,
            height,
            frames_per_second,
            pixel_format,
            sizes.drop_last(),
        );
    }
}

/// A stated region is the game's region, whatever the frame rate.
pub proof fn lemma_stated_region_wins(info: AudioVideoInfoView, region: Region)
    requires
        info.game_region == Some(region),
    ensures
        info.infer_game_region() == region,
{
}

/// Samples that cover what a frame is owed still cover it when there are
/// more of them.
pub proof fn lemma_more_samples_keep_the_budget(info: AudioVideoInfoView, total: int, more: int)
    requires
        info.budget_met(total),
        more >= total,
    ensures
        info.budget_met(more),
{
    let owed_d = info.required_denominator();
    assert(owed_d >= 0) by (nonlinear_arith)
        requires
            owed_d == info.audio_sample_rate.denominator * info.frames_per_second.numerator,
    ;
    assert(more * owed_d >= total * owed_d) by (nonlinear_arith)
        requires
            more >= total,
            owed_d >= 0,
    ;
}

/// What is carried over from a frame whose budget was met is never
/// negative: the whole samples owed are no more than the samples at hand.
pub proof fn lemma_budget_covers_whole_samples(info: AudioVideoInfoView, total: int)
    requires
        info.budget_met(total),
    ensures
        0 <= info.required_samples() <= total,
{
    let owed_n = info.required_numerator();
    let owed_d = info.required_denominator();
    assert(owed_d > 0 && owed_n >= 0) by (nonlinear_arith)
        requires
            owed_d == info.audio_sample_rate.denominator * info.frames_per_second.numerator,
            owed_n == 2 * info.audio_sample_rate.numerator * info.frames_per_second.denominator,
            info.audio_sample_rate.denominator > 0,
            info.frames_per_second.numerator > 0,
    ;
    vstd::arithmetic::div_mod::lemma_div_is_ordered(owed_n, total * owed_d, owed_d);
    vstd::arithmetic::div_mod::lemma_div_multiples_vanish(total, owed_d);
    assert(total * owed_d == owed_d * total) by (nonlinear_arith);
    vstd::arithmetic::div_mod::lemma_div_pos_is_pos(owed_n, owed_d);
}

} // verus!
