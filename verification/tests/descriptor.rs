use libretro_backend::core_info::{names_archive, normalize_extension};
use libretro_backend::CoreInfo;

#[test]
fn new_descriptor_is_bare() {
    let info = CoreInfo::new("sample", "1.2.3");
    assert_eq!(info.library_name(), "sample");
    assert_eq!(info.library_version(), "1.2.3");
    assert_eq!(info.valid_extensions(), b"");
    assert_eq!(info.extension_count(), 0);
    assert!(!info.need_fullpath());
    assert!(!info.block_extract());
}

#[test]
fn extensions_keep_insertion_order() {
    let info = CoreInfo::new("sample", "1")
        .supports_roms_with_extension("nes")
        .supports_roms_with_extension("bin")
        .supports_roms_with_extension("a26");
    assert_eq!(info.extension_count(), 3);
    assert_eq!(info.extension(0), b"nes");
    assert_eq!(info.extension(1), b"bin");
    assert_eq!(info.extension(2), b"a26");
    assert_eq!(info.valid_extensions(), b"nes|bin|a26");
}

#[test]
fn one_leading_dot_is_stripped() {
    let info = CoreInfo::new("sample", "1")
        .supports_roms_with_extension(".nes")
        .supports_roms_with_extension("..bin")
        .supports_roms_with_extension("tar.gz");
    assert_eq!(info.extension(0), b"nes");
    assert_eq!(info.extension(1), b".bin");
    assert_eq!(info.extension(2), b"tar.gz");
    assert_eq!(info.valid_extensions(), b"nes|.bin|tar.gz");
}

#[test]
fn extensions_are_lower_cased() {
    let info = CoreInfo::new("sample", "1").supports_roms_with_extension(".NeS");
    assert_eq!(info.extension(0), b"nes");
    assert_eq!(normalize_extension(b"@AZ[`az{"), b"@az[`az{".to_vec());
    assert_eq!(normalize_extension("\u{c9}".as_bytes()), "\u{c9}".as_bytes().to_vec());
}

#[test]
fn duplicates_are_kept() {
    let info = CoreInfo::new("sample", "1")
        .supports_roms_with_extension("nes")
        .supports_roms_with_extension("nes");
    assert_eq!(info.extension_count(), 2);
    assert_eq!(info.valid_extensions(), b"nes|nes");
}

#[test]
fn empty_extension_adds_no_separator_at_the_front() {
    let info = CoreInfo::new("sample", "1")
        .supports_roms_with_extension("")
        .supports_roms_with_extension("nes")
        .supports_roms_with_extension(".");
    assert_eq!(info.extension_count(), 3);
    assert_eq!(info.extension(0), b"");
    assert_eq!(info.valid_extensions(), b"nes|");
}

#[test]
fn archive_extension_blocks_extraction() {
    let info = CoreInfo::new("sample", "1").supports_roms_with_extension("zip");
    assert!(info.block_extract());
}

#[test]
fn archive_block_stays_after_other_extensions() {
    let info = CoreInfo::new("sample", "1")
        .supports_roms_with_extension("nes")
        .supports_roms_with_extension("zip")
        .supports_roms_with_extension("bin")
        .supports_roms_with_extension("rom");
    assert!(info.block_extract());
    assert_eq!(info.valid_extensions(), b"nes|zip|bin|rom");
}

#[test]
fn plain_extensions_do_not_block_extraction() {
    let info = CoreInfo::new("sample", "1")
        .supports_roms_with_extension("nes")
        .supports_roms_with_extension("zipx")
        .supports_roms_with_extension("g");
    assert!(!info.block_extract());
}

#[test]
fn every_archive_name_is_known() {
    let names = [
        "gz", "xz", "zip", "rar", "7z", "tar", "tgz", "txz", "bz2", "tar.gz", "tar.bz2", "tar.xz",
    ];
    for name in names {
        assert!(names_archive(name.as_bytes()));
        let info = CoreInfo::new("sample", "1").supports_roms_with_extension(name);
        assert!(info.block_extract());
    }
    for name in ["", "z", "zi", "tar.", "tar.zip", "bz", "7zz", "nes", "ZIP"] {
        assert!(!names_archive(name.as_bytes()));
    }
}

#[test]
fn archive_name_counts_after_normalizing() {
    let info = CoreInfo::new("sample", "1").supports_roms_with_extension(".ZIP");
    assert!(info.block_extract());
    assert_eq!(info.valid_extensions(), b"zip");
}

#[test]
fn path_requirement_is_set() {
    let info = CoreInfo::new("sample", "1")
        .supports_roms_with_extension("nes")
        .requires_path_when_loading_roms();
    assert!(info.need_fullpath());
    assert!(!info.block_extract());
    assert_eq!(info.valid_extensions(), b"nes");
    assert_eq!(info.library_name(), "sample");
}

#[test]
fn frontend_is_told_what_the_descriptor_holds() {
    let info = CoreInfo::new("sample", "1.2.3")
        .supports_roms_with_extension(".NES")
        .supports_roms_with_extension("zip")
        .requires_path_when_loading_roms();
    let told = libretro_backend::Retro::on_get_system_info(&info);
    assert_eq!(told.library_name, "sample");
    assert_eq!(told.library_version, "1.2.3");
    assert_eq!(told.valid_extensions, b"nes|zip".to_vec());
    assert!(told.need_fullpath);
    assert!(told.block_extract);
    let told = CoreInfo::new("other", "0").system_info();
    assert_eq!(told.library_name, "other");
    assert_eq!(told.valid_extensions, Vec::<u8>::new());
    assert!(!told.need_fullpath);
    assert!(!told.block_extract);
}
