use vstd::prelude::*;

verus! {

/// The buttons of a joypad.
#[derive(Copy, Clone, PartialEq, Eq, PartialOrd, Ord, Hash, Debug)]
pub enum JoypadButton {
    A,
    B,
    X,
    Y,
    Select,
    Start,
    Up,
    Down,
    Left,
    Right,
    L1,
    L2,
    L3,
    R1,
    R2,
    R3,
}

/// The number by which the frontend knows a joypad's button.
pub open spec fn joypad_button_id(button: JoypadButton) -> u32 {
    match button {
        JoypadButton::B => 0,
        JoypadButton::Y => 1,
        JoypadButton::Select => 2,
        JoypadButton::Start => 3,
        JoypadButton::Up => 4,
        JoypadButton::Down => 5,
        JoypadButton::Left => 6,
        JoypadButton::Right => 7,
        JoypadButton::A => 8,
        JoypadButton::X => 9,
        JoypadButton::L1 => 10,
        JoypadButton::R1 => 11,
        JoypadButton::L2 => 12,
        JoypadButton::R2 => 13,
        JoypadButton::L3 => 14,
        JoypadButton::R3 => 15,
    }
}

/// The number by which the frontend knows the joypad among its devices.
pub open spec fn joypad_device() -> u32 {
    1
}

/// What the frontend is asked about one button: the port, the kind of
/// device, the device's index and the button's number.
#[derive(Clone, Copy, Debug, PartialEq, Eq, Structural)]
pub struct InputQuery {
    pub port: u32,
    pub device: u32,
    pub index: u32,
    pub id: u32,
}

/// The question of whether `button` is held down on the joypad at `port`.
pub open spec fn joypad_query(port: u32, button: JoypadButton) -> InputQuery {
    InputQuery { port, device: joypad_device(), index: 0, id: joypad_button_id(button) }
}

/// `libretro_sys::DEVICE_JOYPAD`, the constant 1.
#[verifier::external_body]
fn device_joypad() -> (device: u32)
    ensures
        device == 1,
{
    libretro_sys::DEVICE_JOYPAD
}

/// `libretro_sys::DEVICE_ID_JOYPAD_B`, the constant 0.
#[verifier::external_body]
fn device_id_joypad_b() -> (id: u32)
    ensures
        id == 0,
{
    libretro_sys::DEVICE_ID_JOYPAD_B
}

/// `libretro_sys::DEVICE_ID_JOYPAD_Y`, the constant 1.
#[verifier::external_body]
fn device_id_joypad_y() -> (id: u32)
    ensures
        id == 1,
{
    libretro_sys::DEVICE_ID_JOYPAD_Y
}

/// `libretro_sys::DEVICE_ID_JOYPAD_SELECT`, the constant 2.
#[verifier::external_body]
fn device_id_joypad_select() -> (id: u32)
    ensures
        id == 2,
{
    libretro_sys::DEVICE_ID_JOYPAD_SELECT
}

/// `libretro_sys::DEVICE_ID_JOYPAD_START`, the constant 3.
#[verifier::external_body]
fn device_id_joypad_start() -> (id: u32)
    ensures
        id == 3,
{
    libretro_sys::DEVICE_ID_JOYPAD_START
}

/// `libretro_sys::DEVICE_ID_JOYPAD_UP`, the constant 4.
#[verifier::external_body]
fn device_id_joypad_up() -> (id: u32)
    ensures
        id == 4,
{
    libretro_sys::DEVICE_ID_JOYPAD_UP
}

/// `libretro_sys::DEVICE_ID_JOYPAD_DOWN`, the constant 5.
#[verifier::external_body]
fn device_id_joypad_down() -> (id: u32)
    ensures
        id == 5,
{
    libretro_sys::DEVICE_ID_JOYPAD_DOWN
}

/// `libretro_sys::DEVICE_ID_JOYPAD_LEFT`, the constant 6.
#[verifier::external_body]
fn device_id_joypad_left() -> (id: u32)
    ensures
        id == 6,
{
    libretro_sys::DEVICE_ID_JOYPAD_LEFT
}

/// `libretro_sys::DEVICE_ID_JOYPAD_RIGHT`, the constant 7.
#[verifier::external_body]
fn device_id_joypad_right() -> (id: u32)
    ensures
        id == 7,
{
    libretro_sys::DEVICE_ID_JOYPAD_RIGHT
}

/// `libretro_sys::DEVICE_ID_JOYPAD_A`, the constant 8.
#[verifier::external_body]
fn device_id_joypad_a() -> (id: u32)
    ensures
        id == 8,
{
    libretro_sys::DEVICE_ID_JOYPAD_A
}

/// `libretro_sys::DEVICE_ID_JOYPAD_X`, the constant 9.
#[verifier::external_body]
fn device_id_joypad_x() -> (id: u32)
    ensures
        id == 9,
{
    libretro_sys::DEVICE_ID_JOYPAD_X
}

/// `libretro_sys::DEVICE_ID_JOYPAD_L`, the constant 10.
#[verifier::external_body]
fn device_id_joypad_l() -> (id: u32)
    ensures
        id == 10,
{
    libretro_sys::DEVICE_ID_JOYPAD_L
}

/// `libretro_sys::DEVICE_ID_JOYPAD_R`, the constant 11.
#[verifier::external_body]
fn device_id_joypad_r() -> (id: u32)
    ensures
        id == 11,
{
    libretro_sys::DEVICE_ID_JOYPAD_R
}

/// `libretro_sys::DEVICE_ID_JOYPAD_L2`, the constant 12.
#[verifier::external_body]
fn device_id_joypad_l2() -> (id: u32)
    ensures
        id == 12,
{
    libretro_sys::DEVICE_ID_JOYPAD_L2
}

/// `libretro_sys::DEVICE_ID_JOYPAD_R2`, the constant 13.
#[verifier::external_body]
fn device_id_joypad_r2() -> (id: u32)
    ensures
        id == 13,
{
    libretro_sys::DEVICE_ID_JOYPAD_R2
}

/// `libretro_sys::DEVICE_ID_JOYPAD_L3`, the constant 14.
#[verifier::external_body]
fn device_id_joypad_l3() -> (id: u32)
    ensures
        id == 14,
{
    libretro_sys::DEVICE_ID_JOYPAD_L3
}

/// `libretro_sys::DEVICE_ID_JOYPAD_R3`, the constant 15.
#[verifier::external_body]
fn device_id_joypad_r3() -> (id: u32)
    ensures
        id == 15,
{
    libretro_sys::DEVICE_ID_JOYPAD_R3
}

impl JoypadButton {
    /// The number by which the frontend knows this button.
    pub fn device_id(self) -> (id: u32)
        ensures
            id == joypad_button_id(self),
    {
        match self {
            JoypadButton::A => device_id_joypad_a(),
            JoypadButton::B => device_id_joypad_b(),
            JoypadButton::X => device_id_joypad_x(),
            JoypadButton::Y => device_id_joypad_y(),
            JoypadButton::Start => device_id_joypad_start(),
            JoypadButton::Select => device_id_joypad_select(),
            JoypadButton::Left => device_id_joypad_left(),
            JoypadButton::Right => device_id_joypad_right(),
            JoypadButton::Up => device_id_joypad_up(),
            JoypadButton::Down => device_id_joypad_down(),
            JoypadButton::L1 => device_id_joypad_l(),
            JoypadButton::L2 => device_id_joypad_l2(),
            JoypadButton::L3 => device_id_joypad_l3(),
            JoypadButton::R1 => device_id_joypad_r(),
            JoypadButton::R2 => device_id_joypad_r2(),
            JoypadButton::R3 => device_id_joypad_r3(),
        }
    }
}

/// Puts the question of whether `button` is held down on the joypad at `port`.
pub fn ask_joypad_button(port: u32, button: JoypadButton) -> (query: InputQuery)
    ensures
        query == joypad_query(port, button),
{
    InputQuery { port, device: device_joypad(), index: 0, id: button.device_id() }
}

/// Reads the frontend's answer to such a question: the button is held down
/// where the answer is 1, and only there.
pub fn joypad_answer_is_pressed(answer: i16) -> (pressed: bool)
    ensures
        pressed == (answer == 1),
{
    answer == 1
}

} // verus!
