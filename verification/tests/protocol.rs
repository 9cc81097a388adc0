use libinput::events::{Button, Event, EventType, Source, State};
use libinput::protocol::{facet, fields, plan, Axis, Facet, Field, Step};
use libinput::raw::{EventKind, LibInputEvent, Reading};
use libinput::scalar::Real;

const ALL_KINDS: [EventKind; 28] = [
    EventKind::NoEvent,
    EventKind::DeviceAdded,
    EventKind::DeviceRemoved,
    EventKind::KeyboardKey,
    EventKind::PointerMotion,
    EventKind::PointerMotionAbsolute,
    EventKind::PointerButton,
    EventKind::PointerAxis,
    EventKind::TouchDown,
    EventKind::TouchUp,
    EventKind::TouchMotion,
    EventKind::TouchCancel,
    EventKind::TouchFrame,
    EventKind::TabletToolAxis,
    EventKind::TabletToolProximity,
    EventKind::TabletToolTip,
    EventKind::TabletToolButton,
    EventKind::TabletPadButton,
    EventKind::TabletPadRing,
    EventKind::TabletPadStrip,
    EventKind::GestureSwipeBegin,
    EventKind::GestureSwipeUpdate,
    EventKind::GestureSwipeEnd,
    EventKind::GesturePinchBegin,
    EventKind::GesturePinchUpdate,
    EventKind::GesturePinchEnd,
    EventKind::SwitchToggle,
    EventKind::Unknown,
];

/// A native event that counts what is done to it.
struct MockEvent {
    kind: EventKind,
    key: u32,
    key_state: State,
    time_usec: u64,
    source: Source,
    vertical: Option<f64>,
    horizontal: Option<f64>,
    narrowed: Option<Facet>,
    lookups: u32,
    releases: u32,
    value_reads_of_absent_axes: u32,
    touched_after_release: u32,
}

impl MockEvent {
    fn new(kind: EventKind) -> MockEvent {
        MockEvent {
            kind,
            key: 0,
            key_state: State::Released,
            time_usec: 0,
            source: Source::Wheel,
            vertical: None,
            horizontal: None,
            narrowed: None,
            lookups: 0,
            releases: 0,
            value_reads_of_absent_axes: 0,
            touched_after_release: 0,
        }
    }

    fn axis(&self, axis: Axis) -> Option<f64> {
        match axis {
            Axis::Vertical => self.vertical,
            Axis::Horizontal => self.horizontal,
        }
    }

    /// What the accessor of a field returns.
    fn answer(&mut self, field: Field) -> Option<Reading> {
        match field {
            Field::Key => Some(Reading::Code(self.key)),
            Field::KeyState => Some(Reading::State(self.key_state)),
            Field::KeyTime | Field::PointerTime => Some(Reading::Time(self.time_usec)),
            Field::AxisSource => Some(Reading::Source(self.source)),
            Field::HasAxis(axis) => Some(Reading::Int(self.axis(axis).is_some() as i32)),
            Field::AxisValue(axis) => match self.axis(axis) {
                Some(v) => Some(Reading::Real(Real::from_bits(v.to_bits()))),
                None => {
                    self.value_reads_of_absent_axes += 1;
                    Some(Reading::Real(Real::zero()))
                }
            },
            _ => None,
        }
    }

    /// Carries out the plan of the event's kind, as a holder of a native
    /// handle would, and hands back what was read.
    fn read(&mut self) -> LibInputEvent {
        let mut raw = LibInputEvent::new_from(self.kind);
        for step in plan(self.kind) {
            if self.releases > 0 {
                self.touched_after_release += 1;
            }
            match step {
                Step::Device => {
                    self.lookups += 1;
                    raw.device_name = b"mock".to_vec();
                    raw.physical_seat = b"seat0".to_vec();
                    raw.logical_seat = b"default".to_vec();
                }
                Step::Narrow(to) => {
                    assert_eq!(self.narrowed, None);
                    self.narrowed = Some(to);
                }
                Step::Read(field) => {
                    assert_eq!(self.narrowed, Some(facet(field)));
                    if raw.wants(field) {
                        if let Some(reading) = self.answer(field) {
                            raw.store(field, reading);
                        }
                    }
                }
                Step::Release => self.releases += 1,
            }
        }
        raw
    }
}

#[test]
fn every_kind_is_released_exactly_once_and_last() {
    for kind in ALL_KINDS {
        let steps = plan(kind);
        let count = steps.iter().filter(|s| **s == Step::Release).count();
        assert_eq!(count, 1, "{:?}", kind);
        assert_eq!(steps.last(), Some(&Step::Release), "{:?}", kind);
        let mut mock = MockEvent::new(kind);
        let _ = mock.read();
        assert_eq!(mock.releases, 1, "{:?}", kind);
        assert_eq!(mock.touched_after_release, 0, "{:?}", kind);
    }
}

#[test]
fn unknown_kind_is_released_too() {
    assert_eq!(plan(EventKind::Unknown), vec![Step::Device, Step::Release]);
    let mut mock = MockEvent::new(EventKind::Unknown);
    let raw = mock.read();
    assert_eq!(mock.releases, 1);
    assert_eq!(mock.lookups, 1);
    assert_eq!(Event::from(raw).event_type(), EventType::Unknown);
}

#[test]
fn device_is_looked_up_once_and_first() {
    for kind in ALL_KINDS {
        let steps = plan(kind);
        assert_eq!(steps[0], Step::Device, "{:?}", kind);
        let count = steps.iter().filter(|s| **s == Step::Device).count();
        assert_eq!(count, 1, "{:?}", kind);
    }
}

#[test]
fn reads_come_after_the_narrowing_to_their_facet() {
    for kind in ALL_KINDS {
        let steps = plan(kind);
        let wanted = fields(kind);
        assert_eq!(steps.len(), if wanted.is_empty() { 2 } else { wanted.len() + 3 });
        let narrowings = steps.iter().filter(|s| matches!(s, Step::Narrow(_))).count();
        assert_eq!(narrowings, if wanted.is_empty() { 0 } else { 1 }, "{:?}", kind);
        for (k, field) in wanted.iter().enumerate() {
            assert_eq!(steps[1], Step::Narrow(facet(*field)), "{:?}", kind);
            assert_eq!(steps[k + 2], Step::Read(*field), "{:?}", kind);
        }
    }
}

#[test]
fn keyboard_plan() {
    assert_eq!(
        plan(EventKind::KeyboardKey),
        vec![
            Step::Device,
            Step::Narrow(Facet::Keyboard),
            Step::Read(Field::Key),
            Step::Read(Field::KeyState),
            Step::Read(Field::KeyTime),
            Step::Release,
        ]
    );
}

#[test]
fn pointer_axis_plan() {
    assert_eq!(
        plan(EventKind::PointerAxis),
        vec![
            Step::Device,
            Step::Narrow(Facet::Pointer),
            Step::Read(Field::AxisSource),
            Step::Read(Field::HasAxis(Axis::Vertical)),
            Step::Read(Field::AxisValue(Axis::Vertical)),
            Step::Read(Field::HasAxis(Axis::Horizontal)),
            Step::Read(Field::AxisValue(Axis::Horizontal)),
            Step::Read(Field::PointerTime),
            Step::Release,
        ]
    );
}

#[test]
fn fields_by_kind() {
    assert_eq!(fields(EventKind::PointerMotion), vec![Field::Dx, Field::Dy, Field::PointerTime]);
    assert_eq!(
        fields(EventKind::PointerMotionAbsolute),
        vec![Field::AbsoluteX, Field::AbsoluteY, Field::PointerTime]
    );
    assert_eq!(
        fields(EventKind::PointerButton),
        vec![Field::Button, Field::ButtonState, Field::PointerTime]
    );
    assert_eq!(fields(EventKind::TouchDown), vec![Field::TouchX, Field::TouchY]);
    assert_eq!(fields(EventKind::TouchMotion), vec![Field::TouchX, Field::TouchY]);
    assert_eq!(fields(EventKind::GestureSwipeBegin), vec![Field::Fingers]);
    assert_eq!(fields(EventKind::GesturePinchBegin), vec![Field::Fingers]);
    assert_eq!(
        fields(EventKind::GestureSwipeUpdate),
        vec![
            Field::Fingers,
            Field::GestureDx,
            Field::GestureDy,
            Field::GestureDxUnaccelerated,
            Field::GestureDyUnaccelerated,
        ]
    );
    assert_eq!(
        fields(EventKind::GesturePinchUpdate),
        vec![
            Field::Fingers,
            Field::GestureDx,
            Field::GestureDy,
            Field::GestureDxUnaccelerated,
            Field::GestureDyUnaccelerated,
            Field::Scale,
            Field::AngleDelta,
        ]
    );
    assert_eq!(fields(EventKind::GestureSwipeEnd), vec![Field::Fingers, Field::Cancelled]);
    assert_eq!(fields(EventKind::GesturePinchEnd), vec![Field::Fingers, Field::Cancelled]);
    assert!(fields(EventKind::TouchUp).is_empty());
    assert!(fields(EventKind::TabletToolAxis).is_empty());
    assert!(fields(EventKind::NoEvent).is_empty());
}

#[test]
fn facets_of_fields() {
    assert_eq!(facet(Field::Key), Facet::Keyboard);
    assert_eq!(facet(Field::KeyTime), Facet::Keyboard);
    assert_eq!(facet(Field::PointerTime), Facet::Pointer);
    assert_eq!(facet(Field::HasAxis(Axis::Horizontal)), Facet::Pointer);
    assert_eq!(facet(Field::AxisValue(Axis::Vertical)), Facet::Pointer);
    assert_eq!(facet(Field::TouchY), Facet::Touch);
    assert_eq!(facet(Field::Cancelled), Facet::Gesture);
    assert_eq!(facet(Field::Scale), Facet::Gesture);
}

#[test]
fn mock_keyboard_event_through_plan_and_decoder() {
    let mut mock = MockEvent::new(EventKind::KeyboardKey);
    mock.key = 1;
    mock.key_state = State::Pressed;
    mock.time_usec = 500000;
    let event = Event::from(mock.read());
    assert_eq!(mock.releases, 1);
    assert_eq!(
        event.event_type(),
        EventType::KeyboardInput(Button { state: State::Pressed, key: 1 })
    );
    assert_eq!(event.time_usec(), 500000);
    assert_eq!(event.time(), 500);
    assert_eq!(event.device().name(), "mock");
}

#[test]
fn mock_axis_event_through_plan_and_decoder() {
    let mut mock = MockEvent::new(EventKind::PointerAxis);
    mock.source = Source::Wheel;
    mock.vertical = Some(-1.0);
    mock.horizontal = None;
    let event = Event::from(mock.read());
    assert_eq!(mock.releases, 1);
    assert_eq!(mock.value_reads_of_absent_axes, 0);
    assert_eq!(
        event.event_type(),
        EventType::PointerAxis {
            source: Source::Wheel,
            vertical: Some(Real::from_bits((-1.0f64).to_bits())),
            horizontal: None,
        }
    );
}

#[test]
fn two_mocks_with_the_same_values_decode_alike() {
    let build = || {
        let mut mock = MockEvent::new(EventKind::PointerAxis);
        mock.source = Source::Finger;
        mock.vertical = Some(0.0);
        mock.horizontal = Some(12.5);
        mock.time_usec = 99;
        mock
    };
    let mut first = build();
    let mut second = build();
    let a = Event::from(first.read());
    let b = Event::from(second.read());
    assert_eq!(a, b);
    assert_eq!(first.releases, 1);
    assert_eq!(second.releases, 1);
}

#[test]
fn presence_is_asked_just_before_the_value() {
    for kind in ALL_KINDS {
        let steps = plan(kind);
        for (i, step) in steps.iter().enumerate() {
            if let Step::Read(Field::AxisValue(axis)) = step {
                assert!(i >= 1);
                assert_eq!(steps[i - 1], Step::Read(Field::HasAxis(*axis)), "{:?}", kind);
            }
        }
    }
}

#[test]
fn value_of_an_absent_axis_is_never_read() {
    for (vertical, horizontal) in
        [(None, None), (Some(0.0), None), (None, Some(3.0)), (Some(-1.0), Some(1.0))]
    {
        let mut mock = MockEvent::new(EventKind::PointerAxis);
        mock.vertical = vertical;
        mock.horizontal = horizontal;
        let raw = mock.read();
        assert_eq!(mock.value_reads_of_absent_axes, 0);
        assert_eq!(raw.has_vertical != 0, vertical.is_some());
        assert_eq!(raw.has_horizontal != 0, horizontal.is_some());
        let bits = |x: Option<f64>| x.map(|v| Real::from_bits(v.to_bits()));
        assert_eq!(
            Event::from(raw).event_type(),
            EventType::PointerAxis {
                source: Source::Wheel,
                vertical: bits(vertical),
                horizontal: bits(horizontal),
            }
        );
    }
}

#[test]
fn wants_everything_but_the_value_of_an_absent_axis() {
    let mut raw = LibInputEvent::new_from(EventKind::PointerAxis);
    assert!(!raw.wants(Field::AxisValue(Axis::Vertical)));
    assert!(!raw.wants(Field::AxisValue(Axis::Horizontal)));
    assert!(raw.wants(Field::HasAxis(Axis::Vertical)));
    assert!(raw.wants(Field::Key));
    assert!(raw.wants(Field::Cancelled));
    raw.store(Field::HasAxis(Axis::Vertical), Reading::Int(1));
    assert!(raw.wants(Field::AxisValue(Axis::Vertical)));
    assert!(!raw.wants(Field::AxisValue(Axis::Horizontal)));
    raw.store(Field::HasAxis(Axis::Horizontal), Reading::Int(-1));
    assert!(raw.wants(Field::AxisValue(Axis::Horizontal)));
    raw.store(Field::HasAxis(Axis::Vertical), Reading::Int(0));
    assert!(!raw.wants(Field::AxisValue(Axis::Vertical)));
}

#[test]
fn store_fills_the_place_of_its_field() {
    let num = |x: f64| Real::from_bits(x.to_bits());
    let mut raw = LibInputEvent::new_from(EventKind::Unknown);
    raw.store(Field::Key, Reading::Code(30));
    raw.store(Field::KeyState, Reading::State(State::Pressed));
    raw.store(Field::KeyTime, Reading::Time(11));
    assert_eq!((raw.key, raw.key_state, raw.time_usec), (30, State::Pressed, 11));
    raw.store(Field::PointerTime, Reading::Time(12));
    assert_eq!(raw.time_usec, 12);
    raw.store(Field::Dx, Reading::Real(num(1.0)));
    raw.store(Field::Dy, Reading::Real(num(2.0)));
    raw.store(Field::AbsoluteX, Reading::Real(num(3.0)));
    raw.store(Field::AbsoluteY, Reading::Real(num(4.0)));
    assert_eq!((raw.dx, raw.dy), (num(1.0), num(2.0)));
    assert_eq!((raw.absolute_x, raw.absolute_y), (num(3.0), num(4.0)));
    raw.store(Field::Button, Reading::Code(272));
    raw.store(Field::ButtonState, Reading::State(State::Pressed));
    assert_eq!((raw.button, raw.button_state), (272, State::Pressed));
    assert_eq!(raw.key, 30);
    raw.store(Field::AxisSource, Reading::Source(Source::Continuous));
    raw.store(Field::HasAxis(Axis::Vertical), Reading::Int(1));
    raw.store(Field::AxisValue(Axis::Vertical), Reading::Real(num(5.0)));
    raw.store(Field::HasAxis(Axis::Horizontal), Reading::Int(2));
    raw.store(Field::AxisValue(Axis::Horizontal), Reading::Real(num(6.0)));
    assert_eq!(raw.axis_source, Source::Continuous);
    assert_eq!((raw.has_vertical, raw.vertical), (1, num(5.0)));
    assert_eq!((raw.has_horizontal, raw.horizontal), (2, num(6.0)));
    raw.store(Field::TouchX, Reading::Real(num(7.0)));
    raw.store(Field::TouchY, Reading::Real(num(8.0)));
    assert_eq!((raw.touch_x, raw.touch_y), (num(7.0), num(8.0)));
    raw.store(Field::Fingers, Reading::Int(3));
    raw.store(Field::GestureDx, Reading::Real(num(9.0)));
    raw.store(Field::GestureDy, Reading::Real(num(10.0)));
    raw.store(Field::GestureDxUnaccelerated, Reading::Real(num(11.0)));
    raw.store(Field::GestureDyUnaccelerated, Reading::Real(num(12.0)));
    raw.store(Field::Scale, Reading::Real(num(13.0)));
    raw.store(Field::AngleDelta, Reading::Real(num(14.0)));
    raw.store(Field::Cancelled, Reading::Int(1));
    assert_eq!(raw.finger_count, 3);
    assert_eq!((raw.gesture_dx, raw.gesture_dy), (num(9.0), num(10.0)));
    assert_eq!(
        (raw.gesture_dx_unaccelerated, raw.gesture_dy_unaccelerated),
        (num(11.0), num(12.0))
    );
    assert_eq!((raw.scale, raw.angle_delta), (num(13.0), num(14.0)));
    assert_eq!(raw.cancelled, 1);
    assert_eq!(raw.kind, EventKind::Unknown);
    assert!(raw.device_name.is_empty());
}

#[test]
fn store_drops_a_reading_of_the_wrong_type() {
    let mut raw = LibInputEvent::new_from(EventKind::KeyboardKey);
    raw.store(Field::Key, Reading::Code(30));
    raw.store(Field::Key, Reading::Int(5));
    raw.store(Field::Key, Reading::Time(6));
    raw.store(Field::Key, Reading::Real(Real::from_bits(7)));
    assert_eq!(raw.key, 30);
    raw.store(Field::Dx, Reading::Code(1));
    raw.store(Field::Fingers, Reading::Code(1));
    raw.store(Field::KeyTime, Reading::Code(1));
    raw.store(Field::KeyState, Reading::Source(Source::Finger));
    assert_eq!(raw.dx, Real::zero());
    assert_eq!(raw.finger_count, 0);
    assert_eq!(raw.time_usec, 0);
    assert_eq!(raw.key_state, State::Released);
}
