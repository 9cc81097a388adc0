//! The typed events that the stream yields, and the device they came from.
use vstd::prelude::*;
use crate::scalar::Real;

verus! {

/// Whether a key or button went down or came up.
#[derive(Debug, Hash, PartialEq, Eq, Clone, Copy, Structural)]
pub enum State {
    Pressed,
    Released,
}

/// What produced a scroll event.
#[derive(Copy, Clone, Debug, PartialEq, Eq, Structural)]
pub enum Source {
    Wheel,
    Finger,
    Continuous,
    WheelTilt,
}

/// A key or button code with its state.
#[derive(Clone, Copy, Debug, PartialEq, Eq, Structural)]
pub struct Button {
    pub state: State,
    pub key: u32,
}

/// A pair of coordinates: a relative movement, or a position in the device's
/// own coordinate space.
#[derive(Clone, Copy, Debug, PartialEq, Eq, Structural)]
pub struct Motion {
    pub x: Real,
    pub y: Real,
}

/// One event, by kind, with the fields that mean something for that kind.
#[derive(Clone, Copy, Debug, PartialEq, Eq)]
pub enum EventType {
    DeviceAdded,
    DeviceRemoved,
    KeyboardInput(Button),
    PointerMove(Motion),
    PointerMoveAbsolute(Motion),
    PointerButton(Button),
    /// A scroll event. A direction that the event does not report is absent,
    /// which is not the same as a reported delta of zero.
    PointerAxis { source: Source, vertical: Option<Real>, horizontal: Option<Real> },
    TouchDown(Motion),
    TouchMotion(Motion),
    TouchUp,
    TouchCancel,
    TouchFrame,
    GestureSwipeBegin { fingers: u8 },
    GestureSwipeUpdate {
        fingers: u8,
        dx: Real,
        dy: Real,
        dx_unaccelerated: Real,
        dy_unaccelerated: Real,
    },
    GestureSwipeEnd { fingers: u8, cancelled: bool },
    GesturePinchBegin { fingers: u8 },
    GesturePinchUpdate {
        fingers: u8,
        dx: Real,
        dy: Real,
        dx_unaccelerated: Real,
        dy_unaccelerated: Real,
        scale: Real,
        angle_delta: Real,
    },
    GesturePinchEnd { fingers: u8, cancelled: bool },
    TabletAxis,
    TabletProximity,
    TabletTip,
    TabletButton,
    TabletpadButton,
    TabletpadRing,
    TabletpadStrip,
    SwitchToggle,
    /// A kind that the native layer reported and this crate does not know.
    Unknown,
}

/// What a [`Device`] holds, as mathematical text.
pub struct DeviceView {
    pub name: Seq<char>,
    pub physical_seat: Seq<char>,
    pub logical_seat: Seq<char>,
}

/// The device behind an event: its name and the two names of its seat, as
/// they were when the event was decoded.
#[derive(Clone, Debug, PartialEq, Eq)]
pub struct Device {
    name: String,
    physical_seat: String,
    logical_seat: String,
}

impl View for Device {
    type V = DeviceView;

    closed spec fn view(&self) -> DeviceView {
        DeviceView {
            name: self.name@,
            physical_seat: self.physical_seat@,
            logical_seat: self.logical_seat@,
        }
    }
}

impl Device {
    /// A device record with the given three names.
    pub fn new(name: String, physical_seat: String, logical_seat: String) -> (r: Device)
        ensures
            r@.name == name@,
            r@.physical_seat == physical_seat@,
            r@.logical_seat == logical_seat@,
    {
        Device { name, physical_seat, logical_seat }
    }

    pub fn name(&self) -> (r: &str)
        ensures
            r@ == self@.name,
    {
        self.name.as_str()
    }

    pub fn physical_seat(&self) -> (r: &str)
        ensures
            r@ == self@.physical_seat,
    {
        self.physical_seat.as_str()
    }

    pub fn logical_seat(&self) -> (r: &str)
        ensures
            r@ == self@.logical_seat,
    {
        self.logical_seat.as_str()
    }
}

/// What an [`Event`] holds, with its device as mathematical text.
pub struct EventView {
    pub device: DeviceView,
    pub event_type: EventType,
    pub time_usec: u64,
}

/// One decoded event. It owns all that it holds: nothing in it refers back to
/// the native event that it was decoded from.
#[derive(Clone, Debug, PartialEq, Eq)]
pub struct Event {
    device: Device,
    event_type: EventType,
    time_usec: u64,
}

impl View for Event {
    type V = EventView;

    closed spec fn view(&self) -> EventView {
        EventView { device: self.device@, event_type: self.event_type, time_usec: self.time_usec }
    }
}

impl Event {
    /// An event of the given kind from the given device, stamped with the
    /// given time in microseconds.
    pub fn new(device: Device, event_type: EventType, time_usec: u64) -> (r: Event)
        ensures
            r@.device == device@,
            r@.event_type == event_type,
            r@.time_usec == time_usec,
    {
        Event { device, event_type, time_usec }
    }

    pub fn event_type(&self) -> (r: EventType)
        ensures
            r == self@.event_type,
    {
        self.event_type
    }

    pub fn device(&self) -> (r: &Device)
        ensures
            r@ == self@.device,
    {
        &self.device
    }

    /// The event's time in milliseconds: its microseconds divided by 1000,
    /// rounded down.
    pub fn time(&self) -> (r: u64)
        ensures
            r == self@.time_usec / 1000,
    {
        self.time_usec() / 1000
    }

    /// The event's time in microseconds. Keyboard and pointer events carry
    /// the time that the native layer gave them; every other event has 0.
    pub fn time_usec(&self) -> (r: u64)
        ensures
            r == self@.time_usec,
    {
        self.time_usec
    }
}

} // verus!
