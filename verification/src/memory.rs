use vstd::prelude::*;

verus! {

/// The kinds of memory that a core may lay open to the frontend.
#[derive(Clone, Copy, Debug, PartialEq, Eq, Structural)]
pub enum MemoryKind {
    SaveRam,
    Rtc,
    SystemRam,
    VideoRam,
}

/// The kind of memory that the frontend means by a number, if any.
pub open spec fn memory_kind(id: u32) -> Option<MemoryKind> {
    if id == 0 {
        Some(MemoryKind::SaveRam)
    } else if id == 1 {
        Some(MemoryKind::Rtc)
    } else if id == 2 {
        Some(MemoryKind::SystemRam)
    } else if id == 3 {
        Some(MemoryKind::VideoRam)
    } else {
        None
    }
}

/// `libretro_sys::MEMORY_SAVE_RAM`, the constant 0.
#[verifier::external_body]
fn memory_save_ram() -> (id: u32)
    ensures
        id == 0,
{
    libretro_sys::MEMORY_SAVE_RAM
}

/// `libretro_sys::MEMORY_RTC`, the constant 1.
#[verifier::external_body]
fn memory_rtc() -> (id: u32)
    ensures
        id == 1,
{
    libretro_sys::MEMORY_RTC
}

/// `libretro_sys::MEMORY_SYSTEM_RAM`, the constant 2.
#[verifier::external_body]
fn memory_system_ram() -> (id: u32)
    ensures
        id == 2,
{
    libretro_sys::MEMORY_SYSTEM_RAM
}

/// `libretro_sys::MEMORY_VIDEO_RAM`, the constant 3.
#[verifier::external_body]
fn memory_video_ram() -> (id: u32)
    ensures
        id == 3,
{
    libretro_sys::MEMORY_VIDEO_RAM
}

impl MemoryKind {
    /// The kind of memory that the frontend means by `id`, if any.
    pub fn from_id(id: u32) -> (kind: Option<MemoryKind>)
        ensures
            kind == memory_kind(id),
    {
        if id == memory_save_ram() {
            Some(MemoryKind::SaveRam)
        } else if id == memory_rtc() {
            Some(MemoryKind::Rtc)
        } else if id == memory_system_ram() {
            Some(MemoryKind::SystemRam)
        } else if id == memory_video_ram() {
            Some(MemoryKind::VideoRam)
        } else {
            None
        }
    }
}

/// The size that the frontend is told of a kind of memory: that of the
/// region which the core lays open, and 0 where it lays none open.
pub open spec fn memory_size(region: Option<Seq<u8>>) -> nat {
    match region {
        Some(bytes) => bytes.len(),
        None => 0,
    }
}

} // verus!
