//! The rules by which a frontend drives an emulation core, frame by frame:
//! what a core says of itself, how a game's video and audio are described,
//! what may be uploaded within one frame, and what the adapter between the
//! two keeps from one call to the next.

pub mod av_info;
pub mod core_info;
pub mod environment;
pub mod game_data;
pub mod handle;
pub mod input;
pub mod memory;
pub mod retro;

pub use av_info::{AudioVideoInfo, PixelFormat, Ratio, Region, SystemAvInfo};
pub use core_info::{CoreInfo, SystemInfo};
pub use game_data::{GameData, LoadGameResult};
pub use handle::{RuntimeHandle, VideoRefresh};
pub use input::{InputQuery, JoypadButton};
pub use memory::MemoryKind;
pub use retro::{construct, Retro};
