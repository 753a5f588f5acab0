use libretro_backend::{AudioVideoInfo, PixelFormat, Ratio, Region};

#[test]
fn new_description_is_empty() {
    let told = AudioVideoInfo::new().system_av_info();
    assert_eq!(told.base_width, 0);
    assert_eq!(told.base_height, 0);
    assert_eq!(told.max_width, 0);
    assert_eq!(told.max_height, 0);
    assert_eq!(told.aspect_ratio, Ratio::whole(0));
    assert_eq!(told.fps, Ratio::whole(0));
    assert_eq!(told.sample_rate, Ratio::whole(0));
    assert_eq!(AudioVideoInfo::new().pixel_format(), PixelFormat::RGB565);
    assert_eq!(AudioVideoInfo::new().infer_game_region(), Region::PAL);
}

#[test]
fn video_sets_base_and_raises_max() {
    let info = AudioVideoInfo::new().video(320, 240, Ratio::whole(60), PixelFormat::ARGB8888);
    let told = info.system_av_info();
    assert_eq!((told.base_width, told.base_height), (320, 240));
    assert_eq!((told.max_width, told.max_height), (320, 240));
    assert_eq!(told.fps, Ratio::new(60, 1));
    assert_eq!(info.pixel_format(), PixelFormat::ARGB8888);
    assert_eq!(info.width(), 320);
    assert_eq!(info.height(), 240);
}

#[test]
fn max_never_falls_below_base() {
    let info = AudioVideoInfo::new()
        .max_video_size(100, 500)
        .video(320, 240, Ratio::whole(60), PixelFormat::RGB565)
        .max_video_size(10, 10);
    let told = info.system_av_info();
    assert_eq!((told.base_width, told.base_height), (320, 240));
    assert_eq!((told.max_width, told.max_height), (320, 500));
    let told = info
        .video(640, 480, Ratio::whole(60), PixelFormat::RGB565)
        .video(16, 16, Ratio::whole(60), PixelFormat::RGB565)
        .max_video_size(700, 1)
        .system_av_info();
    assert_eq!((told.base_width, told.base_height), (16, 16));
    assert_eq!((told.max_width, told.max_height), (700, 500));
}

#[test]
fn aspect_ratio_defaults_to_zero() {
    let info = AudioVideoInfo::new().video(320, 240, Ratio::whole(60), PixelFormat::RGB565);
    assert_eq!(info.system_av_info().aspect_ratio, Ratio::new(0, 1));
    let info = info.aspect_ratio(Ratio::new(4, 3));
    assert_eq!(info.system_av_info().aspect_ratio, Ratio::new(4, 3));
}

#[test]
fn audio_sets_sample_rate() {
    let info = AudioVideoInfo::new().audio(Ratio::whole(44100));
    assert_eq!(info.system_av_info().sample_rate, Ratio::new(44100, 1));
}

#[test]
fn region_follows_frame_rate() {
    let at = |fps: Ratio| {
        AudioVideoInfo::new().video(320, 240, fps, PixelFormat::RGB565).infer_game_region()
    };
    assert_eq!(at(Ratio::whole(60)), Region::NTSC);
    assert_eq!(at(Ratio::whole(50)), Region::PAL);
    assert_eq!(at(Ratio::new(60000, 1001)), Region::NTSC);
    assert_eq!(at(Ratio::whole(59)), Region::PAL);
    assert_eq!(at(Ratio::new(59001, 1000)), Region::NTSC);
    assert_eq!(at(Ratio::new(60, 0)), Region::PAL);
    assert_eq!(at(Ratio::new(4294967295, 4294967295)), Region::PAL);
    assert_eq!(at(Ratio::new(4294967295, 72796056)), Region::PAL);
    assert_eq!(at(Ratio::new(4294967295, 72796055)), Region::NTSC);
}

#[test]
fn stated_region_wins() {
    let info = AudioVideoInfo::new()
        .video(320, 240, Ratio::whole(60), PixelFormat::RGB565)
        .region(Region::PAL);
    assert_eq!(info.infer_game_region(), Region::PAL);
    let info = AudioVideoInfo::new()
        .video(320, 240, Ratio::whole(50), PixelFormat::RGB565)
        .region(Region::NTSC);
    assert_eq!(info.infer_game_region(), Region::NTSC);
}

#[test]
fn region_numbers_are_the_frontends() {
    assert_eq!(Region::NTSC.to_uint(), 0);
    assert_eq!(Region::PAL.to_uint(), 1);
    assert_eq!(Region::NTSC.to_uint(), libretro_sys::Region::NTSC.to_uint());
    assert_eq!(Region::PAL.to_uint(), libretro_sys::Region::PAL.to_uint());
}

#[test]
fn bytes_per_pixel_by_format() {
    assert_eq!(PixelFormat::ARGB1555.bytes_per_pixel(), 2);
    assert_eq!(PixelFormat::RGB565.bytes_per_pixel(), 2);
    assert_eq!(PixelFormat::ARGB8888.bytes_per_pixel(), 4);
}

#[test]
fn ratio_exceeds_whole() {
    assert!(Ratio::new(119, 2).exceeds(59));
    assert!(!Ratio::new(118, 2).exceeds(59));
    assert!(!Ratio::new(1, 0).exceeds(0));
    assert!(Ratio::new(1, 1).exceeds(0));
}

#[test]
fn audio_budget_takes_whole_samples_off() {
    let info = AudioVideoInfo::new()
        .video(320, 240, Ratio::whole(60), PixelFormat::RGB565)
        .audio(Ratio::whole(48000));
    assert_eq!(info.audio_budget(1600), Some(0));
    assert_eq!(info.audio_budget(1599), None);
    assert_eq!(info.audio_budget(800), None);
    assert_eq!(info.audio_budget(1700), Some(100));
    assert_eq!(info.audio_budget(0), None);
}

#[test]
fn audio_budget_rounds_fraction_down() {
    // 2 * 44100 / (60000 / 1001) = 1471.47
    let info = AudioVideoInfo::new()
        .video(320, 240, Ratio::new(60000, 1001), PixelFormat::RGB565)
        .audio(Ratio::whole(44100));
    assert_eq!(info.audio_budget(1471), None);
    assert_eq!(info.audio_budget(1472), Some(1));
    assert_eq!(info.audio_budget(2000), Some(529));
}

#[test]
fn audio_budget_without_a_frame_rate_is_never_met() {
    let info = AudioVideoInfo::new().audio(Ratio::whole(48000));
    assert_eq!(info.audio_budget(usize::MAX), None);
    assert_eq!(AudioVideoInfo::new().audio_budget(0), None);
    let info = AudioVideoInfo::new()
        .video(1, 1, Ratio::new(60, 0), PixelFormat::RGB565)
        .audio(Ratio::whole(48000));
    assert_eq!(info.audio_budget(usize::MAX), None);
    let info = AudioVideoInfo::new()
        .video(1, 1, Ratio::whole(60), PixelFormat::RGB565)
        .audio(Ratio::new(48000, 0));
    assert_eq!(info.audio_budget(usize::MAX), None);
}

#[test]
fn silent_game_owes_no_samples() {
    let info = AudioVideoInfo::new().video(1, 1, Ratio::whole(60), PixelFormat::RGB565);
    assert_eq!(info.audio_budget(0), Some(0));
    assert_eq!(info.audio_budget(7), Some(7));
}

#[test]
fn audio_budget_at_the_limits() {
    let info = AudioVideoInfo::new()
        .video(1, 1, Ratio::new(4294967295, 1), PixelFormat::RGB565)
        .audio(Ratio::new(1, 4294967295));
    assert_eq!(info.audio_budget(usize::MAX), Some(usize::MAX));
    assert_eq!(info.audio_budget(0), None);
    assert_eq!(info.audio_budget(1), Some(1));
    let info = AudioVideoInfo::new()
        .video(1, 1, Ratio::new(1, 4294967295), PixelFormat::RGB565)
        .audio(Ratio::new(4294967295, 1));
    assert_eq!(info.audio_budget(1000), None);
}
