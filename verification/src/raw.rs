//! The native layer's side of an event: its kind tag and the values that its
//! accessors report.
use vstd::prelude::*;
use crate::events::{Source, State};
use crate::protocol::{Axis, Field};
use crate::scalar::Real;
use crate::text::{decode_text, text_of};

verus! {

/// The kind tag of a native event.
#[derive(Clone, Copy, Debug, PartialEq, Eq, Hash, Structural)]
pub enum EventKind {
    /// The tag that says "no event". A pending event never has it; one that
    /// does shows that the native layer broke its own protocol.
    NoEvent,
    DeviceAdded,
    DeviceRemoved,
    KeyboardKey,
    PointerMotion,
    PointerMotionAbsolute,
    PointerButton,
    PointerAxis,
    TouchDown,
    TouchUp,
    TouchMotion,
    TouchCancel,
    TouchFrame,
    TabletToolAxis,
    TabletToolProximity,
    TabletToolTip,
    TabletToolButton,
    TabletPadButton,
    TabletPadRing,
    TabletPadStrip,
    GestureSwipeBegin,
    GestureSwipeUpdate,
    GestureSwipeEnd,
    GesturePinchBegin,
    GesturePinchUpdate,
    GesturePinchEnd,
    SwitchToggle,
    /// Any tag besides those above.
    Unknown,
}

/// One pending native event, as the values that were read from it: its kind
/// tag and what each native accessor returned. A field that was not read for
/// this event's kind keeps the value that [`LibInputEvent::new_from`] gave it
/// and takes no part in decoding.
///
/// The record cannot be copied: it is handed to the decoder once and is used
/// up there.
#[derive(Debug)]
pub struct LibInputEvent {
    pub kind: EventKind,
    /// The kernel's name for the device.
    pub sysname: Vec<u8>,
    pub device_name: Vec<u8>,
    pub physical_seat: Vec<u8>,
    pub logical_seat: Vec<u8>,
    /// The time of a keyboard or pointer event, in microseconds.
    pub time_usec: u64,
    pub key: u32,
    pub key_state: State,
    pub dx: Real,
    pub dy: Real,
    pub absolute_x: Real,
    pub absolute_y: Real,
    pub button: u32,
    pub button_state: State,
    pub axis_source: Source,
    /// What the presence query said of the vertical scroll axis: zero when
    /// the event does not report it.
    pub has_vertical: i32,
    /// The vertical delta, read only where the event reports one.
    pub vertical: Real,
    /// The same for the horizontal scroll axis.
    pub has_horizontal: i32,
    pub horizontal: Real,
    pub touch_x: Real,
    pub touch_y: Real,
    pub finger_count: i32,
    pub gesture_dx: Real,
    pub gesture_dy: Real,
    pub gesture_dx_unaccelerated: Real,
    pub gesture_dy_unaccelerated: Real,
    pub scale: Real,
    pub angle_delta: Real,
    /// Non-zero when the gesture was cancelled.
    pub cancelled: i32,
}

/// True of a record of the given kind in which nothing has been read yet:
/// every text is empty, every number zero, every state `Released` and the
/// scroll source `Wheel`.
pub open spec fn is_blank(raw: LibInputEvent, kind: EventKind) -> bool {
    &&& raw.kind == kind
    &&& raw.sysname@ == Seq::<u8>::empty()
    &&& raw.device_name@ == Seq::<u8>::empty()
    &&& raw.physical_seat@ == Seq::<u8>::empty()
    &&& raw.logical_seat@ == Seq::<u8>::empty()
    &&& raw.time_usec == 0
    &&& raw.key == 0
    &&& raw.key_state == State::Released
    &&& raw.dx.bits == 0 && raw.dy.bits == 0
    &&& raw.absolute_x.bits == 0 && raw.absolute_y.bits == 0
    &&& raw.button == 0
    &&& raw.button_state == State::Released
    &&& raw.axis_source == Source::Wheel
    &&& raw.has_vertical == 0 && raw.vertical.bits == 0
    &&& raw.has_horizontal == 0 && raw.horizontal.bits == 0
    &&& raw.touch_x.bits == 0 && raw.touch_y.bits == 0
    &&& raw.finger_count == 0
    &&& raw.gesture_dx.bits == 0 && raw.gesture_dy.bits == 0
    &&& raw.gesture_dx_unaccelerated.bits == 0 && raw.gesture_dy_unaccelerated.bits == 0
    &&& raw.scale.bits == 0 && raw.angle_delta.bits == 0
    &&& raw.cancelled == 0
}

/// What one native accessor returned.
#[derive(Clone, Copy, Debug, PartialEq, Eq)]
pub enum Reading {
    /// A key or button code.
    Code(u32),
    /// The state of a key or button.
    State(State),
    /// A time in microseconds.
    Time(u64),
    /// A coordinate, a delta, a scale or an angle.
    Real(Real),
    /// The source of a scroll event.
    Source(Source),
    /// A native integer: a presence or cancelled flag, or a finger count.
    Int(i32),
}

/// Whether a field is still to be read, given what the record holds
/// already. The value of a scroll direction is wanted only if the presence
/// query, which the plan puts before it, did not say zero; every other field
/// is always wanted.
pub open spec fn wanted(raw: LibInputEvent, field: Field) -> bool {
    match field {
        Field::AxisValue(Axis::Vertical) => raw.has_vertical != 0,
        Field::AxisValue(Axis::Horizontal) => raw.has_horizontal != 0,
        _ => true,
    }
}

/// The record after a reading was put in the place of its field. A reading
/// of another type than the field's changes nothing.
pub open spec fn stored(raw: LibInputEvent, field: Field, reading: Reading) -> LibInputEvent {
    match (field, reading) {
        (Field::Key, Reading::Code(v)) => LibInputEvent { key: v, ..raw },
        (Field::KeyState, Reading::State(v)) => LibInputEvent { key_state: v, ..raw },
        (Field::KeyTime, Reading::Time(v)) => LibInputEvent { time_usec: v, ..raw },
        (Field::PointerTime, Reading::Time(v)) => LibInputEvent { time_usec: v, ..raw },
        (Field::Dx, Reading::Real(v)) => LibInputEvent { dx: v, ..raw },
        (Field::Dy, Reading::Real(v)) => LibInputEvent { dy: v, ..raw },
        (Field::AbsoluteX, Reading::Real(v)) => LibInputEvent { absolute_x: v, ..raw },
        (Field::AbsoluteY, Reading::Real(v)) => LibInputEvent { absolute_y: v, ..raw },
        (Field::Button, Reading::Code(v)) => LibInputEvent { button: v, ..raw },
        (Field::ButtonState, Reading::State(v)) => LibInputEvent { button_state: v, ..raw },
        (Field::AxisSource, Reading::Source(v)) => LibInputEvent { axis_source: v, ..raw },
        (Field::HasAxis(Axis::Vertical), Reading::Int(v)) => LibInputEvent {
            has_vertical: v,
            ..raw
        },
        (Field::HasAxis(Axis::Horizontal), Reading::Int(v)) => LibInputEvent {
            has_horizontal: v,
            ..raw
        },
        (Field::AxisValue(Axis::Vertical), Reading::Real(v)) => LibInputEvent {
            vertical: v,
            ..raw
        },
        (Field::AxisValue(Axis::Horizontal), Reading::Real(v)) => LibInputEvent {
            horizontal: v,
            ..raw
        },
        (Field::TouchX, Reading::Real(v)) => LibInputEvent { touch_x: v, ..raw },
        (Field::TouchY, Reading::Real(v)) => LibInputEvent { touch_y: v, ..raw },
        (Field::Fingers, Reading::Int(v)) => LibInputEvent { finger_count: v, ..raw },
        (Field::GestureDx, Reading::Real(v)) => LibInputEvent { gesture_dx: v, ..raw },
        (Field::GestureDy, Reading::Real(v)) => LibInputEvent { gesture_dy: v, ..raw },
        (Field::GestureDxUnaccelerated, Reading::Real(v)) => LibInputEvent {
            gesture_dx_unaccelerated: v,
            ..raw
        },
        (Field::GestureDyUnaccelerated, Reading::Real(v)) => LibInputEvent {
            gesture_dy_unaccelerated: v,
            ..raw
        },
        (Field::Scale, Reading::Real(v)) => LibInputEvent { scale: v, ..raw },
        (Field::AngleDelta, Reading::Real(v)) => LibInputEvent { angle_delta: v, ..raw },
        (Field::Cancelled, Reading::Int(v)) => LibInputEvent { cancelled: v, ..raw },
        _ => raw,
    }
}

/// The line that names an event's kind.
pub open spec fn label_of(kind: EventKind) -> Seq<char> {
    match kind {
        EventKind::DeviceAdded => "Add device"@,
        EventKind::DeviceRemoved => "Remove device"@,
        EventKind::KeyboardKey => "Keyboard key"@,
        EventKind::PointerMotion => "Pointer motion"@,
        EventKind::PointerMotionAbsolute => "Pointer motion absolute"@,
        EventKind::PointerButton => "Pointer button"@,
        EventKind::PointerAxis => "Pointer axis"@,
        _ => "Not implemented."@,
    }
}

impl LibInputEvent {
    /// The blank record of the given kind.
    pub fn new_from(kind: EventKind) -> (r: LibInputEvent)
        ensures
            is_blank(r, kind),
    {
        LibInputEvent {
            kind,
            sysname: Vec::new(),
            device_name: Vec::new(),
            physical_seat: Vec::new(),
            logical_seat: Vec::new(),
            time_usec: 0,
            key: 0,
            key_state: State::Released,
            dx: Real::zero(),
            dy: Real::zero(),
            absolute_x: Real::zero(),
            absolute_y: Real::zero(),
            button: 0,
            button_state: State::Released,
            axis_source: Source::Wheel,
            has_vertical: 0,
            vertical: Real::zero(),
            has_horizontal: 0,
            horizontal: Real::zero(),
            touch_x: Real::zero(),
            touch_y: Real::zero(),
            finger_count: 0,
            gesture_dx: Real::zero(),
            gesture_dy: Real::zero(),
            gesture_dx_unaccelerated: Real::zero(),
            gesture_dy_unaccelerated: Real::zero(),
            scale: Real::zero(),
            angle_delta: Real::zero(),
            cancelled: 0,
        }
    }

    /// Whether the given field is still to be read. Only the value of a
    /// scroll direction can be unwanted: when the presence query said that
    /// the event does not report the direction.
    pub fn wants(&self, field: Field) -> (r: bool)
        ensures
            r == wanted(*self, field),
    {
        match field {
            Field::AxisValue(Axis::Vertical) => self.has_vertical != 0,
            Field::AxisValue(Axis::Horizontal) => self.has_horizontal != 0,
            _ => true,
        }
    }

    /// Puts what was read for a field into the record. A reading of another
    /// type than the field's is dropped.
    pub fn store(&mut self, field: Field, reading: Reading)
        ensures
            *final(self) == stored(*old(self), field, reading),
    {
        match (field, reading) {
            (Field::Key, Reading::Code(v)) => self.key = v,
            (Field::KeyState, Reading::State(v)) => self.key_state = v,
            (Field::KeyTime, Reading::Time(v)) => self.time_usec = v,
            (Field::PointerTime, Reading::Time(v)) => self.time_usec = v,
            (Field::Dx, Reading::Real(v)) => self.dx = v,
            (Field::Dy, Reading::Real(v)) => self.dy = v,
            (Field::AbsoluteX, Reading::Real(v)) => self.absolute_x = v,
            (Field::AbsoluteY, Reading::Real(v)) => self.absolute_y = v,
            (Field::Button, Reading::Code(v)) => self.button = v,
            (Field::ButtonState, Reading::State(v)) => self.button_state = v,
            (Field::AxisSource, Reading::Source(v)) => self.axis_source = v,
            (Field::HasAxis(Axis::Vertical), Reading::Int(v)) => self.has_vertical = v,
            (Field::HasAxis(Axis::Horizontal), Reading::Int(v)) => self.has_horizontal = v,
            (Field::AxisValue(Axis::Vertical), Reading::Real(v)) => self.vertical = v,
            (Field::AxisValue(Axis::Horizontal), Reading::Real(v)) => self.horizontal = v,
            (Field::TouchX, Reading::Real(v)) => self.touch_x = v,
            (Field::TouchY, Reading::Real(v)) => self.touch_y = v,
            (Field::Fingers, Reading::Int(v)) => self.finger_count = v,
            (Field::GestureDx, Reading::Real(v)) => self.gesture_dx = v,
            (Field::GestureDy, Reading::Real(v)) => self.gesture_dy = v,
            (Field::GestureDxUnaccelerated, Reading::Real(v)) => self.gesture_dx_unaccelerated = v,
            (Field::GestureDyUnaccelerated, Reading::Real(v)) => self.gesture_dy_unaccelerated = v,
            (Field::Scale, Reading::Real(v)) => self.scale = v,
            (Field::AngleDelta, Reading::Real(v)) => self.angle_delta = v,
            (Field::Cancelled, Reading::Int(v)) => self.cancelled = v,
            _ => {},
        }
    }

    /// True when the record carries the "no event" tag, which no pending
    /// event may have.
    pub fn violates_protocol(&self) -> (r: bool)
        ensures
            r == (self.kind == EventKind::NoEvent),
    {
        match self.kind {
            EventKind::NoEvent => true,
            _ => false,
        }
    }

    /// The header line of the event: the kernel's name for its device, as
    /// text.
    pub fn print_header(&self) -> (r: String)
        ensures
            r@ == text_of(self.sysname@),
    {
        decode_text(self.sysname.clone())
    }

    /// The line that names the event's kind. The "no event" tag has no line:
    /// it is not an event.
    pub fn print(&self) -> (r: &'static str)
        requires
            self.kind != EventKind::NoEvent,
        ensures
            r@ == label_of(self.kind),
    {
        match self.kind {
            EventKind::DeviceAdded => "Add device",
            EventKind::DeviceRemoved => "Remove device",
            EventKind::KeyboardKey => "Keyboard key",
            EventKind::PointerMotion => "Pointer motion",
            EventKind::PointerMotionAbsolute => "Pointer motion absolute",
            EventKind::PointerButton => "Pointer button",
            EventKind::PointerAxis => "Pointer axis",
            _ => "Not implemented.",
        }
    }
}

} // verus!
