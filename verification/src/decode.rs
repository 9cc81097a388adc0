//! From a native event's readings to a typed event.
use vstd::prelude::*;
use crate::events::{Button, Device, DeviceView, Event, EventType, EventView, Motion};
use crate::protocol::{fields_of, Axis, Field};
use crate::raw::{EventKind, LibInputEvent};
use crate::scalar::Real;
use crate::text::{decode_text, text_of};

verus! {

/// The delta of a scroll direction: absent when the presence query said
/// zero, and otherwise the value that was read, a zero included.
pub open spec fn axis_of(has_axis: i32, value: Real) -> Option<Real> {
    if has_axis != 0 {
        Some(value)
    } else {
        None
    }
}

/// A native finger count as a small number: a negative count is 0 and one
/// above 255 is 255.
pub open spec fn fingers_of(count: i32) -> u8 {
    if count < 0 {
        0u8
    } else if count > 255 {
        255u8
    } else {
        count as u8
    }
}

/// The device that a native event names, each name decoded as text.
pub open spec fn device_of(raw: LibInputEvent) -> DeviceView {
    DeviceView {
        name: text_of(raw.device_name@),
        physical_seat: text_of(raw.physical_seat@),
        logical_seat: text_of(raw.logical_seat@),
    }
}

/// The typed payload of a native event. Tablet and switch events keep their
/// kind and carry nothing more; the unknown kind is `Unknown`. The "no
/// event" tag, which stands for no event at all, is listed with it only so
/// that the function is total.
pub open spec fn event_type_of(raw: LibInputEvent) -> EventType {
    match raw.kind {
        EventKind::NoEvent => EventType::Unknown,
        EventKind::DeviceAdded => EventType::DeviceAdded,
        EventKind::DeviceRemoved => EventType::DeviceRemoved,
        EventKind::KeyboardKey => EventType::KeyboardInput(
            Button { state: raw.key_state, key: raw.key },
        ),
        EventKind::PointerMotion => EventType::PointerMove(Motion { x: raw.dx, y: raw.dy }),
        EventKind::PointerMotionAbsolute => EventType::PointerMoveAbsolute(
            Motion { x: raw.absolute_x, y: raw.absolute_y },
        ),
        EventKind::PointerButton => EventType::PointerButton(
            Button { state: raw.button_state, key: raw.button },
        ),
        EventKind::PointerAxis => EventType::PointerAxis {
            source: raw.axis_source,
            vertical: axis_of(raw.has_vertical, raw.vertical),
            horizontal: axis_of(raw.has_horizontal, raw.horizontal),
        },
        EventKind::TouchDown => EventType::TouchDown(Motion { x: raw.touch_x, y: raw.touch_y }),
        EventKind::TouchMotion => EventType::TouchMotion(
            Motion { x: raw.touch_x, y: raw.touch_y },
        ),
        EventKind::TouchUp => EventType::TouchUp,
        EventKind::TouchCancel => EventType::TouchCancel,
        EventKind::TouchFrame => EventType::TouchFrame,
        EventKind::GestureSwipeBegin => EventType::GestureSwipeBegin {
            fingers: fingers_of(raw.finger_count),
        },
        EventKind::GestureSwipeUpdate => EventType::GestureSwipeUpdate {
            fingers: fingers_of(raw.finger_count),
            dx: raw.gesture_dx,
            dy: raw.gesture_dy,
            dx_unaccelerated: raw.gesture_dx_unaccelerated,
            dy_unaccelerated: raw.gesture_dy_unaccelerated,
        },
        EventKind::GestureSwipeEnd => EventType::GestureSwipeEnd {
            fingers: fingers_of(raw.finger_count),
            cancelled: raw.cancelled != 0,
        },
        EventKind::GesturePinchBegin => EventType::GesturePinchBegin {
            fingers: fingers_of(raw.finger_count),
        },
        EventKind::GesturePinchUpdate => EventType::GesturePinchUpdate {
            fingers: fingers_of(raw.finger_count),
            dx: raw.gesture_dx,
            dy: raw.gesture_dy,
            dx_unaccelerated: raw.gesture_dx_unaccelerated,
            dy_unaccelerated: raw.gesture_dy_unaccelerated,
            scale: raw.scale,
            angle_delta: raw.angle_delta,
        },
        EventKind::GesturePinchEnd => EventType::GesturePinchEnd {
            fingers: fingers_of(raw.finger_count),
            cancelled: raw.cancelled != 0,
        },
        EventKind::TabletToolAxis => EventType::TabletAxis,
        EventKind::TabletToolProximity => EventType::TabletProximity,
        EventKind::TabletToolTip => EventType::TabletTip,
        EventKind::TabletToolButton => EventType::TabletButton,
        EventKind::TabletPadButton => EventType::TabletpadButton,
        EventKind::TabletPadRing => EventType::TabletpadRing,
        EventKind::TabletPadStrip => EventType::TabletpadStrip,
        EventKind::SwitchToggle => EventType::SwitchToggle,
        EventKind::Unknown => EventType::Unknown,
    }
}

/// True of the kinds whose events carry a time: the keyboard and pointer
/// events.
pub open spec fn is_timed(kind: EventKind) -> bool {
    kind == EventKind::KeyboardKey || kind == EventKind::PointerMotion || kind
        == EventKind::PointerMotionAbsolute || kind == EventKind::PointerButton || kind
        == EventKind::PointerAxis
}

/// The time of a native event in microseconds: the time that was read for a
/// keyboard or pointer event, and 0 for every other.
pub open spec fn time_of(raw: LibInputEvent) -> u64 {
    if is_timed(raw.kind) {
        raw.time_usec
    } else {
        0
    }
}

/// The event that a native event decodes to.
pub open spec fn decoded(raw: LibInputEvent) -> EventView {
    EventView { device: device_of(raw), event_type: event_type_of(raw), time_usec: time_of(raw) }
}

/// True when two native events report the same for the given field. For
/// the presence of a scroll direction and for the cancelled flag that is:
/// both zero or both not. For the value of a scroll direction: the same
/// value where both report the direction; where one does not, its value was
/// never read and nothing is asked of it.
pub open spec fn same_reading(field: Field, a: LibInputEvent, b: LibInputEvent) -> bool {
    match field {
        Field::Key => a.key == b.key,
        Field::KeyState => a.key_state == b.key_state,
        Field::KeyTime | Field::PointerTime => a.time_usec == b.time_usec,
        Field::Dx => a.dx == b.dx,
        Field::Dy => a.dy == b.dy,
        Field::AbsoluteX => a.absolute_x == b.absolute_x,
        Field::AbsoluteY => a.absolute_y == b.absolute_y,
        Field::Button => a.button == b.button,
        Field::ButtonState => a.button_state == b.button_state,
        Field::AxisSource => a.axis_source == b.axis_source,
        Field::HasAxis(Axis::Vertical) => (a.has_vertical != 0) == (b.has_vertical != 0),
        Field::HasAxis(Axis::Horizontal) => (a.has_horizontal != 0) == (b.has_horizontal != 0),
        Field::AxisValue(Axis::Vertical) => a.has_vertical != 0 && b.has_vertical != 0
            ==> a.vertical == b.vertical,
        Field::AxisValue(Axis::Horizontal) => a.has_horizontal != 0 && b.has_horizontal != 0
            ==> a.horizontal == b.horizontal,
        Field::TouchX => a.touch_x == b.touch_x,
        Field::TouchY => a.touch_y == b.touch_y,
        Field::Fingers => a.finger_count == b.finger_count,
        Field::GestureDx => a.gesture_dx == b.gesture_dx,
        Field::GestureDy => a.gesture_dy == b.gesture_dy,
        Field::GestureDxUnaccelerated => a.gesture_dx_unaccelerated
            == b.gesture_dx_unaccelerated,
        Field::GestureDyUnaccelerated => a.gesture_dy_unaccelerated
            == b.gesture_dy_unaccelerated,
        Field::Scale => a.scale == b.scale,
        Field::AngleDelta => a.angle_delta == b.angle_delta,
        Field::Cancelled => (a.cancelled != 0) == (b.cancelled != 0),
    }
}

/// True when two native events are of one kind, name the same device, and
/// report the same for every field that is read for that kind. What they
/// hold for any other field does not count.
pub open spec fn same_readings(a: LibInputEvent, b: LibInputEvent) -> bool {
    &&& a.kind == b.kind
    &&& a.device_name@ == b.device_name@
    &&& a.physical_seat@ == b.physical_seat@
    &&& a.logical_seat@ == b.logical_seat@
    &&& forall|k: int|
        0 <= k < fields_of(a.kind).len() ==> same_reading(#[trigger] fields_of(a.kind)[k], a, b)
}

/// Decoding depends on what was read and on nothing else: two native events
/// with the same readings decode to equal events. In particular an event
/// holds nothing of a field that the plan for its kind does not read, and so
/// nothing that would have to be fetched after the release.
pub proof fn lemma_same_readings_same_event(a: LibInputEvent, b: LibInputEvent)
    requires
        same_readings(a, b),
    ensures
        decoded(a) == decoded(b),
{
    let wanted = fields_of(a.kind);
    if wanted.len() > 0 {
        assert(same_reading(wanted[0], a, b));
    }
    if wanted.len() > 1 {
        assert(same_reading(wanted[1], a, b));
    }
    if wanted.len() > 2 {
        assert(same_reading(wanted[2], a, b));
    }
    if wanted.len() > 3 {
        assert(same_reading(wanted[3], a, b));
    }
    if wanted.len() > 4 {
        assert(same_reading(wanted[4], a, b));
    }
    if wanted.len() > 5 {
        assert(same_reading(wanted[5], a, b));
    }
    if wanted.len() > 6 {
        assert(same_reading(wanted[6], a, b));
    }
}

/// A scroll direction that the native event does not report decodes to an
/// absent delta, and one that it reports decodes to the value read, so that
/// a reported zero stays a zero and is never taken for absence.
pub proof fn lemma_absent_axis_is_not_zero(raw: LibInputEvent)
    requires
        raw.kind == EventKind::PointerAxis,
    ensures
        event_type_of(raw) matches EventType::PointerAxis { source, vertical, horizontal } && {
            &&& source == raw.axis_source
            &&& raw.has_vertical == 0 ==> vertical is None
            &&& raw.has_vertical != 0 ==> vertical == Some(raw.vertical)
            &&& raw.has_horizontal == 0 ==> horizontal is None
            &&& raw.has_horizontal != 0 ==> horizontal == Some(raw.horizontal)
        },
{
}

/// An event of a kind that this crate knows never decodes to `Unknown`, and
/// the unknown kind always does: the tablet and switch kinds stay apart.
pub proof fn lemma_known_kinds_stay_known(raw: LibInputEvent)
    requires
        raw.kind != EventKind::NoEvent,
    ensures
        event_type_of(raw) is Unknown <==> raw.kind == EventKind::Unknown,
{
}

/// The delta of one scroll direction from its presence flag and value.
fn axis(has_axis: i32, value: Real) -> (r: Option<Real>)
    ensures
        r == axis_of(has_axis, value),
{
    if has_axis != 0 {
        Some(value)
    } else {
        None
    }
}

/// A native finger count, clamped into `0..=255`.
fn fingers(count: i32) -> (r: u8)
    ensures
        r == fingers_of(count),
{
    if count < 0 {
        0
    } else if count > 255 {
        255
    } else {
        count as u8
    }
}

impl Device {
    /// The device that a native event names. A name whose bytes are not
    /// UTF-8 becomes the replacement marker.
    pub fn from(event: &LibInputEvent) -> (r: Device)
        ensures
            r@ == device_of(*event),
    {
        let name = decode_text(event.device_name.clone());
        let physical_seat = decode_text(event.physical_seat.clone());
        let logical_seat = decode_text(event.logical_seat.clone());
        Device::new(name, physical_seat, logical_seat)
    }
}

impl Event {
    /// Decodes a native event. The record is used up: the event that comes
    /// back owns every value in it.
    ///
    /// The record must not carry the "no event" tag.
    pub fn from(raw: LibInputEvent) -> (r: Event)
        requires
            raw.kind != EventKind::NoEvent,
        ensures
            r@ == decoded(raw),
    {
        let device = Device::from(&raw);
        let mut time_usec: u64 = 0;
        let event_type = match raw.kind {
            EventKind::NoEvent => EventType::Unknown,
            EventKind::DeviceAdded => EventType::DeviceAdded,
            EventKind::DeviceRemoved => EventType::DeviceRemoved,
            EventKind::KeyboardKey => {
                time_usec = raw.time_usec;
                EventType::KeyboardInput(Button { state: raw.key_state, key: raw.key })
            },
            EventKind::PointerMotion => {
                time_usec = raw.time_usec;
                EventType::PointerMove(Motion { x: raw.dx, y: raw.dy })
            },
            EventKind::PointerMotionAbsolute => {
                time_usec = raw.time_usec;
                EventType::PointerMoveAbsolute(Motion { x: raw.absolute_x, y: raw.absolute_y })
            },
            EventKind::PointerButton => {
                time_usec = raw.time_usec;
                EventType::PointerButton(Button { state: raw.button_state, key: raw.button })
            },
            EventKind::PointerAxis => {
                time_usec = raw.time_usec;
                let vertical = axis(raw.has_vertical, raw.vertical);
                let horizontal = axis(raw.has_horizontal, raw.horizontal);
                EventType::PointerAxis { source: raw.axis_source, vertical, horizontal }
            },
            EventKind::TouchDown => EventType::TouchDown(
                Motion { x: raw.touch_x, y: raw.touch_y },
            ),
            EventKind::TouchMotion => EventType::TouchMotion(
                Motion { x: raw.touch_x, y: raw.touch_y },
            ),
            EventKind::TouchUp => EventType::TouchUp,
            EventKind::TouchCancel => EventType::TouchCancel,
            EventKind::TouchFrame => EventType::TouchFrame,
            EventKind::GestureSwipeBegin => EventType::GestureSwipeBegin {
                fingers: fingers(raw.finger_count),
            },
            EventKind::GestureSwipeUpdate => EventType::GestureSwipeUpdate {
                fingers: fingers(raw.finger_count),
                dx: raw.gesture_dx,
                dy: raw.gesture_dy,
                dx_unaccelerated: raw.gesture_dx_unaccelerated,
                dy_unaccelerated: raw.gesture_dy_unaccelerated,
            },
            EventKind::GestureSwipeEnd => EventType::GestureSwipeEnd {
                fingers: fingers(raw.finger_count),
                cancelled: raw.cancelled != 0,
            },
            EventKind::GesturePinchBegin => EventType::GesturePinchBegin {
                fingers: fingers(raw.finger_count),
            },
            EventKind::GesturePinchUpdate => EventType::GesturePinchUpdate {
                fingers: fingers(raw.finger_count),
                dx: raw.gesture_dx,
                dy: raw.gesture_dy,
                dx_unaccelerated: raw.gesture_dx_unaccelerated,
                dy_unaccelerated: raw.gesture_dy_unaccelerated,
                scale: raw.scale,
                angle_delta: raw.angle_delta,
            },
            EventKind::GesturePinchEnd => EventType::GesturePinchEnd {
                fingers: fingers(raw.finger_count),
                cancelled: raw.cancelled != 0,
            },
            EventKind::TabletToolAxis => EventType::TabletAxis,
            EventKind::TabletToolProximity => EventType::TabletProximity,
            EventKind::TabletToolTip => EventType::TabletTip,
            EventKind::TabletToolButton => EventType::TabletButton,
            EventKind::TabletPadButton => EventType::TabletpadButton,
            EventKind::TabletPadRing => EventType::TabletpadRing,
            EventKind::TabletPadStrip => EventType::TabletpadStrip,
            EventKind::SwitchToggle => EventType::SwitchToggle,
            EventKind::Unknown => EventType::Unknown,
        };
        Event::new(device, event_type, time_usec)
    }
}

} // verus!
