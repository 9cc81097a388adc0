//! The options that a session is opened with. They are handed through to
//! the native layer as they stand; nothing in this crate reads the knobs.
use vstd::prelude::*;
use crate::scalar::Real;

verus! {

/// How the devices of a session are found.
#[derive(Copy, Clone, Debug, PartialEq, Eq, Structural)]
pub enum tools_backend {
    /// One device, named by its path.
    BACKEND_DEVICE,
    /// Every device of a seat, enumerated by udev.
    BACKEND_UDEV,
}

/// Which buttons a tap with one, two and three fingers stands for.
#[derive(Copy, Clone, Debug, PartialEq, Eq, Structural)]
pub enum TapButtonMap {
    /// Left, right, middle.
    Lrm,
    /// Left, middle, right.
    Lmr,
}

/// How a touchpad without buttons tells its clicks apart.
#[derive(Copy, Clone, Debug, PartialEq, Eq, Structural)]
pub enum ClickMethod {
    Unset,
    ButtonAreas,
    Clickfinger,
}

/// What a device scrolls with.
#[derive(Copy, Clone, Debug, PartialEq, Eq, Structural)]
pub enum ScrollMethod {
    NoScroll,
    TwoFinger,
    Edge,
    OnButtonDown,
}

/// The pointer acceleration profile.
#[derive(Copy, Clone, Debug, PartialEq, Eq, Structural)]
pub enum AccelProfile {
    Unset,
    Flat,
    Adaptive,
}

/// The options block. Of the numeric knobs `-1` means "leave as the device
/// has it"; 0 and 1 switch the behaviour off and on.
#[derive(Clone, Debug)]
pub struct tools_options {
    pub backend: tools_backend,
    /// The device's path, where the backend is `BACKEND_DEVICE`.
    pub device: Option<String>,
    /// The seat's name, where the backend is `BACKEND_UDEV`.
    pub seat: String,
    pub grab: i32,
    pub verbose: i32,
    pub tapping: i32,
    pub drag: i32,
    pub drag_lock: i32,
    pub natural_scroll: i32,
    pub left_handed: i32,
    pub middlebutton: i32,
    pub click_method: ClickMethod,
    pub scroll_method: ScrollMethod,
    pub tap_map: TapButtonMap,
    pub scroll_button: i32,
    pub speed: Real,
    pub dwt: i32,
    pub profile: AccelProfile,
}

/// The options block together with a token for the caller's own data, which
/// the native layer hands back untouched; 0 stands for none.
#[derive(Clone, Debug)]
pub struct tools_context {
    pub options: tools_options,
    pub user_data: usize,
}

/// The options that a session has when nothing was asked for: the udev
/// backend on seat `seat0`, no grab, no verbosity, every knob left as the
/// device has it, no click or scroll method, speed zero and no profile.
pub fn default_options() -> (r: tools_context)
    ensures
        r.options.backend == tools_backend::BACKEND_UDEV,
        r.options.device is None,
        r.options.seat@ == "seat0"@,
        r.options.grab == 0,
        r.options.verbose == 0,
        r.options.tapping == -1,
        r.options.tap_map == TapButtonMap::Lrm,
        r.options.drag == -1,
        r.options.drag_lock == -1,
        r.options.natural_scroll == -1,
        r.options.left_handed == -1,
        r.options.middlebutton == -1,
        r.options.dwt == -1,
        r.options.click_method == ClickMethod::Unset,
        r.options.scroll_method == ScrollMethod::NoScroll,
        r.options.scroll_button == -1,
        r.options.speed.bits == 0,
        r.options.profile == AccelProfile::Unset,
        r.user_data == 0,
{
    let default_options = tools_options {
        backend: tools_backend::BACKEND_UDEV,
        device: None,
        seat: "seat0".to_string(),
        grab: 0,
        verbose: 0,
        tapping: -1,
        tap_map: TapButtonMap::Lrm,
        drag: -1,
        drag_lock: -1,
        natural_scroll: -1,
        left_handed: -1,
        middlebutton: -1,
        dwt: -1,
        click_method: ClickMethod::Unset,
        scroll_method: ScrollMethod::NoScroll,
        scroll_button: -1,
        speed: Real::zero(),
        profile: AccelProfile::Unset,
    };
    tools_context { options: default_options, user_data: 0 }
}

} // verus!
