use vstd::prelude::*;
use crate::av_info::{region_number, AudioVideoInfo, AudioVideoInfoView, Ratio, SystemAvInfo};
use crate::core_info::{CoreInfo, SystemInfo};
use crate::game_data::LoadGameResult;
use crate::handle::{RuntimeHandle, RuntimeHandleView};
use crate::memory::{memory_kind, memory_size, MemoryKind};

verus! {

/// What the adapter holds, as plain values.
pub ghost struct RetroView {
    pub video_refresh_callback: bool,
    pub audio_sample_callback: bool,
    pub audio_sample_batch_callback: bool,
    pub input_poll_callback: bool,
    pub input_state_callback: bool,
    pub is_game_loaded: bool,
    pub av_info: AudioVideoInfoView,
    pub total_audio_samples_uploaded: usize,
}

impl RetroView {
    /// The adapter before the frontend told it anything.
    pub open spec fn initial() -> RetroView {
        RetroView {
            video_refresh_callback: false,
            audio_sample_callback: false,
            audio_sample_batch_callback: false,
            input_poll_callback: false,
            input_state_callback: false,
            is_game_loaded: false,
            av_info: AudioVideoInfoView::initial(),
            total_audio_samples_uploaded: 0,
        }
    }

    /// Whether the frontend has registered every callback that a frame
    /// needs.
    pub open spec fn ready_to_run(self) -> bool {
        &&& self.video_refresh_callback
        &&& self.input_state_callback
        &&& self.audio_sample_batch_callback
        &&& self.input_poll_callback
    }

    /// The account that a frame starts with.
    pub open spec fn frame_handle(self) -> RuntimeHandleView {
        RuntimeHandleView {
            upload_video_frame_already_called: false,
            audio_samples_uploaded: 0,
            video_width: self.av_info.width,
            video_height: self.av_info.height,
            video_frame_bytes_per_pixel: self.av_info.pixel_format.spec_bytes_per_pixel(),
        }
    }

    /// The samples at hand when a frame ends: those carried over from the
    /// frames before and those uploaded in this one.
    pub open spec fn samples_at_hand(self, handle: RuntimeHandleView) -> int {
        self.total_audio_samples_uploaded + handle.audio_samples_uploaded
    }

    /// Whether a frame with this account has met its audio budget.
    pub open spec fn frame_accepted(self, handle: RuntimeHandleView) -> bool {
        &&& self.samples_at_hand(handle) <= usize::MAX
        &&& self.av_info.budget_met(self.samples_at_hand(handle))
    }
}

/// The adapter between a frontend and a core: which callbacks the frontend
/// has registered, whether a game is loaded and how its video and audio are
/// described, and the stereo samples of audio carried from one frame to the
/// next.
#[derive(Debug)]
pub struct Retro {
    video_refresh_callback: bool,
    audio_sample_callback: bool,
    audio_sample_batch_callback: bool,
    input_poll_callback: bool,
    input_state_callback: bool,
    is_game_loaded: bool,
    av_info: AudioVideoInfo,
    total_audio_samples_uploaded: usize,
}

impl View for Retro {
    type V = RetroView;

    closed spec fn view(&self) -> RetroView {
        RetroView {
            video_refresh_callback: self.video_refresh_callback,
            audio_sample_callback: self.audio_sample_callback,
            audio_sample_batch_callback: self.audio_sample_batch_callback,
            input_poll_callback: self.input_poll_callback,
            input_state_callback: self.input_state_callback,
            is_game_loaded: self.is_game_loaded,
            av_info: self.av_info@,
            total_audio_samples_uploaded: self.total_audio_samples_uploaded,
        }
    }
}

/// A new adapter: no callback registered, no game loaded, nothing carried.
pub fn construct() -> (retro: Retro)
    ensures
        retro@ == RetroView::initial(),
{
    Retro::new()
}

impl Retro {
    fn new() -> (retro: Retro)
        ensures
            retro@ == RetroView::initial(),
    {
        Retro {
            video_refresh_callback: false,
            audio_sample_callback: false,
            audio_sample_batch_callback: false,
            input_poll_callback: false,
            input_state_callback: false,
            is_game_loaded: false,
            av_info: AudioVideoInfo::new(),
            total_audio_samples_uploaded: 0,
        }
    }

    /// What the frontend is told of a core, before or after an adapter was
    /// made for it.
    pub fn on_get_system_info(info: &CoreInfo) -> (told: SystemInfo)
        ensures
            told.library_name@ == info@.library_name,
            told.library_version@ == info@.library_version,
            told.valid_extensions@ == info@.supported_romfile_extensions,
            told.need_fullpath == info@.require_path_when_loading_roms,
            told.block_extract == !info@.allow_frontend_to_extract_archives,
    {
        info.system_info()
    }

    /// Registers the video callback, or clears it where the frontend sent
    /// none.
    pub fn on_set_video_refresh(&mut self, registered: bool)
        ensures
            final(self)@ == (RetroView { video_refresh_callback: registered, ..old(self)@ }),
    {
        self.video_refresh_callback = registered;
    }

    /// Registers the callback for single audio samples, or clears it.
    pub fn on_set_audio_sample(&mut self, registered: bool)
        ensures
            final(self)@ == (RetroView { audio_sample_callback: registered, ..old(self)@ }),
    {
        self.audio_sample_callback = registered;
    }

    /// Registers the callback for batches of audio samples, or clears it.
    pub fn on_set_audio_sample_batch(&mut self, registered: bool)
        ensures
            final(self)@ == (RetroView { audio_sample_batch_callback: registered, ..old(self)@ }),
    {
        self.audio_sample_batch_callback = registered;
    }

    /// Registers the callback that polls the input, or clears it.
    pub fn on_set_input_poll(&mut self, registered: bool)
        ensures
            final(self)@ == (RetroView { input_poll_callback: registered, ..old(self)@ }),
    {
        self.input_poll_callback = registered;
    }

    /// Registers the callback that reads the input, or clears it.
    pub fn on_set_input_state(&mut self, registered: bool)
        ensures
            final(self)@ == (RetroView { input_state_callback: registered, ..old(self)@ }),
    {
        self.input_state_callback = registered;
    }

    /// What the frontend is told of the loaded game's video and audio.
    pub fn on_get_system_av_info(&self) -> (told: SystemAvInfo)
        ensures
            told == (SystemAvInfo {
                base_width: self@.av_info.width,
                base_height: self@.av_info.height,
                max_width: self@.av_info.max_width,
                max_height: self@.av_info.max_height,
                aspect_ratio: match self@.av_info.aspect_ratio {
                    Some(ratio) => ratio,
                    None => Ratio { numerator: 0, denominator: 1 },
                },
                fps: self@.av_info.frames_per_second,
                sample_rate: self@.av_info.audio_sample_rate,
            }),
    {
        self.av_info.system_av_info()
    }

    /// The frontend says which device sits at a port: nothing follows.
    pub fn on_set_controller_port_device(&mut self, port: u32, device: u32)
        ensures
            final(self)@ == old(self)@,
    {
    }

    /// The description of the loaded game's video and audio.
    pub fn av_info(&self) -> (av_info: AudioVideoInfo)
        ensures
            av_info@ == self@.av_info,
    {
        self.av_info
    }

    /// The stereo samples of audio carried over from the frames before.
    pub fn total_audio_samples_uploaded(&self) -> (count: usize)
        ensures
            count == self@.total_audio_samples_uploaded,
    {
        self.total_audio_samples_uploaded
    }

    /// Whether a game is loaded.
    pub fn is_game_loaded(&self) -> (loaded: bool)
        ensures
            loaded == self@.is_game_loaded,
    {
        self.is_game_loaded
    }

    /// Takes the core's answer to a game. On success the adapter keeps the
    /// description and counts the game as loaded; on failure it stays as it
    /// was. Says whether the game is loaded.
    pub fn on_load_game(&mut self, result: LoadGameResult<'_>) -> (loaded: bool)
        requires
            !old(self)@.is_game_loaded,
        ensures
            match result {
                LoadGameResult::Success(av_info) => loaded && final(self)@ == (RetroView {
                    av_info: av_info@,
                    is_game_loaded: true,
                    ..old(self)@
                }),
                LoadGameResult::Failed(_) => !loaded && final(self)@ == old(self)@,
            },
    {
        match result {
            LoadGameResult::Success(av_info) => {
                self.av_info = av_info;
                self.is_game_loaded = true;
                true
            },
            LoadGameResult::Failed(_) => false,
        }
    }

    /// Loading a game from several files is not offered: fails, and the
    /// adapter stays as it was.
    pub fn on_load_game_special(&mut self, game_type: u32, num_info: usize) -> (loaded: bool)
        ensures
            !loaded,
            final(self)@ == old(self)@,
    {
        false
    }

    /// Says whether the frontend has registered every callback that a frame
    /// needs.
    pub fn ready_to_run(&self) -> (ready: bool)
        ensures
            ready == self@.ready_to_run(),
    {
        self.video_refresh_callback && self.input_state_callback
            && self.audio_sample_batch_callback && self.input_poll_callback
    }

    /// Opens a frame's account, for the frame size and pixel format of the
    /// loaded game.
    pub fn frame_handle(&self) -> (handle: RuntimeHandle)
        requires
            self@.ready_to_run(),
        ensures
            handle@ == self@.frame_handle(),
    {
        RuntimeHandle::new(
            self.av_info.width(),
            self.av_info.height(),
            self.av_info.pixel_format().bytes_per_pixel(),
        )
    }

    /// Says whether the frame with this account has met its audio budget.
    pub fn frame_accepted(&self, handle: &RuntimeHandle) -> (accepted: bool)
        ensures
            accepted == self@.frame_accepted(handle@),
    {
        let uploaded = handle.audio_samples_uploaded();
        if uploaded > usize::MAX - self.total_audio_samples_uploaded {
            return false;
        }
        self.av_info.audio_budget(self.total_audio_samples_uploaded + uploaded).is_some()
    }

    /// Closes a frame's account: of the samples at hand, those beyond the
    /// frame's whole requirement are carried to the next frame.
    pub fn on_run(&mut self, handle: &RuntimeHandle)
        requires
            old(self)@.frame_accepted(handle@),
        ensures
            final(self)@ == (RetroView {
                total_audio_samples_uploaded: (old(self)@.samples_at_hand(handle@) - old(
                    self,
                )@.av_info.required_samples()) as usize,
                ..old(self)@
            }),
            final(self)@.total_audio_samples_uploaded + old(self)@.av_info.required_samples()
                == old(self)@.samples_at_hand(handle@),
    {
        let total = self.total_audio_samples_uploaded + handle.audio_samples_uploaded();
        match self.av_info.audio_budget(total) {
            Some(surplus) => {
                self.total_audio_samples_uploaded = surplus;
            },
            None => vstd::pervasive::unreached(),
        }
    }

    /// The size of a saved state: there is none, so 0.
    pub fn on_serialize_size(&mut self) -> (size: usize)
        ensures
            size == 0,
            final(self)@ == old(self)@,
    {
        0
    }

    /// Saving the state is not offered: fails.
    pub fn on_serialize(&mut self, size: usize) -> (done: bool)
        ensures
            !done,
            final(self)@ == old(self)@,
    {
        false
    }

    /// Restoring a state is not offered: fails.
    pub fn on_unserialize(&mut self, size: usize) -> (done: bool)
        ensures
            !done,
            final(self)@ == old(self)@,
    {
        false
    }

    /// The frontend takes all cheats back: nothing follows.
    pub fn on_cheat_reset(&mut self)
        ensures
            final(self)@ == old(self)@,
    {
    }

    /// The frontend sets a cheat: nothing follows.
    pub fn on_cheat_set(&mut self, index: u32, is_enabled: bool, code: &str)
        ensures
            final(self)@ == old(self)@,
    {
    }

    /// Ends the loaded game. Says whether the core is to be told: it is
    /// where a game was loaded, and without one nothing changes.
    pub fn on_unload_game(&mut self) -> (tell_core: bool)
        ensures
            tell_core == old(self)@.is_game_loaded,
            final(self)@ == (RetroView { is_game_loaded: false, ..old(self)@ }),
    {
        let tell_core = self.is_game_loaded;
        self.is_game_loaded = false;
        tell_core
    }

    /// The loaded game's region, as the number by which the frontend knows
    /// it.
    pub fn on_get_region(&self) -> (number: u32)
        ensures
            number == region_number(self@.av_info.infer_game_region()),
    {
        self.av_info.infer_game_region().to_uint()
    }

    /// The kind of memory that the frontend means by `id`.
    pub fn memory_data(&self, id: u32) -> (kind: MemoryKind)
        requires
            memory_kind(id).is_some(),
        ensures
            Some(kind) == memory_kind(id),
    {
        match MemoryKind::from_id(id) {
            Some(kind) => kind,
            None => vstd::pervasive::unreached(),
        }
    }

    /// The size that the frontend is told of a kind of memory: that of the
    /// region which the core lays open, and 0 where it lays none open.
    pub fn on_get_memory_size(&self, region: Option<&[u8]>) -> (size: usize)
        ensures
            size == memory_size(
                match region {
                    Some(bytes) => Some(bytes@),
                    None => None,
                },
            ),
    {
        match region {
            Some(bytes) => bytes.len(),
            None => 0,
        }
    }
}

} // verus!
