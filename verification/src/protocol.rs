//! The order of native operations that decodes one pending event.
//!
//! A native event is read by kind: its handle is first narrowed to the facet
//! that its kind belongs to, then the accessors of that facet are called, and
//! at the very end the handle is released. [`plan`] gives that order for each
//! kind; whoever holds the handle carries the steps out as they stand.
use vstd::prelude::*;
use crate::raw::EventKind;

verus! {

/// The facet of a native event that an accessor belongs to.
#[derive(Clone, Copy, Debug, PartialEq, Eq, Structural)]
pub enum Facet {
    Keyboard,
    Pointer,
    Touch,
    Gesture,
}

/// A scroll direction.
#[derive(Clone, Copy, Debug, PartialEq, Eq, Structural)]
pub enum Axis {
    Vertical,
    Horizontal,
}

/// One value that a native accessor reports.
#[derive(Clone, Copy, Debug, PartialEq, Eq, Structural)]
pub enum Field {
    Key,
    KeyState,
    KeyTime,
    PointerTime,
    Dx,
    Dy,
    AbsoluteX,
    AbsoluteY,
    Button,
    ButtonState,
    AxisSource,
    /// Whether the event reports the given scroll direction.
    HasAxis(Axis),
    /// The delta of the given scroll direction. It is asked for only where
    /// the presence query before it said that the event reports it.
    AxisValue(Axis),
    TouchX,
    TouchY,
    Fingers,
    GestureDx,
    GestureDy,
    GestureDxUnaccelerated,
    GestureDyUnaccelerated,
    Scale,
    AngleDelta,
    Cancelled,
}

/// One native operation on a pending event.
#[derive(Clone, Copy, Debug, PartialEq, Eq, Structural)]
pub enum Step {
    /// Look up the event's device and seat and read their three names.
    Device,
    /// Narrow the handle to a facet.
    Narrow(Facet),
    /// Read one field through the facet's accessor.
    Read(Field),
    /// Release the handle. Nothing may touch it afterwards.
    Release,
}

/// The facet whose accessor reports the given field.
pub open spec fn facet_of(field: Field) -> Facet {
    match field {
        Field::Key | Field::KeyState | Field::KeyTime => Facet::Keyboard,
        Field::PointerTime
        | Field::Dx
        | Field::Dy
        | Field::AbsoluteX
        | Field::AbsoluteY
        | Field::Button
        | Field::ButtonState
        | Field::AxisSource
        | Field::HasAxis(_)
        | Field::AxisValue(_) => Facet::Pointer,
        Field::TouchX | Field::TouchY => Facet::Touch,
        Field::Fingers
        | Field::GestureDx
        | Field::GestureDy
        | Field::GestureDxUnaccelerated
        | Field::GestureDyUnaccelerated
        | Field::Scale
        | Field::AngleDelta
        | Field::Cancelled => Facet::Gesture,
    }
}

/// The fields that are read for an event of the given kind, in order. Kinds
/// that carry nothing beyond their device have none.
pub open spec fn fields_of(kind: EventKind) -> Seq<Field> {
    match kind {
        EventKind::KeyboardKey => seq![Field::Key, Field::KeyState, Field::KeyTime],
        EventKind::PointerMotion => seq![Field::Dx, Field::Dy, Field::PointerTime],
        EventKind::PointerMotionAbsolute => seq![
            Field::AbsoluteX,
            Field::AbsoluteY,
            Field::PointerTime,
        ],
        EventKind::PointerButton => seq![Field::Button, Field::ButtonState, Field::PointerTime],
        EventKind::PointerAxis => seq![
            Field::AxisSource,
            Field::HasAxis(Axis::Vertical),
            Field::AxisValue(Axis::Vertical),
            Field::HasAxis(Axis::Horizontal),
            Field::AxisValue(Axis::Horizontal),
            Field::PointerTime,
        ],
        EventKind::TouchDown | EventKind::TouchMotion => seq![Field::TouchX, Field::TouchY],
        EventKind::GestureSwipeBegin | EventKind::GesturePinchBegin => seq![Field::Fingers],
        EventKind::GestureSwipeUpdate => seq![
            Field::Fingers,
            Field::GestureDx,
            Field::GestureDy,
            Field::GestureDxUnaccelerated,
            Field::GestureDyUnaccelerated,
        ],
        EventKind::GesturePinchUpdate => seq![
            Field::Fingers,
            Field::GestureDx,
            Field::GestureDy,
            Field::GestureDxUnaccelerated,
            Field::GestureDyUnaccelerated,
            Field::Scale,
            Field::AngleDelta,
        ],
        EventKind::GestureSwipeEnd | EventKind::GesturePinchEnd => seq![
            Field::Fingers,
            Field::Cancelled,
        ],
        _ => seq![],
    }
}

/// The native operations for an event of the given kind, in order: the
/// device lookup; then, if the kind has fields, the narrowing to their facet
/// and one read for each; then the release.
pub open spec fn plan_of(kind: EventKind) -> Seq<Step> {
    let fields = fields_of(kind);
    if fields.len() == 0 {
        seq![Step::Device, Step::Release]
    } else {
        seq![Step::Device, Step::Narrow(facet_of(fields[0]))] + fields.map_values(
            |f: Field| Step::Read(f),
        ) + seq![Step::Release]
    }
}

/// How often `Release` stands in a sequence of steps.
pub open spec fn releases(steps: Seq<Step>) -> nat
    decreases steps.len(),
{
    if steps.len() == 0 {
        0
    } else {
        releases(steps.drop_last()) + if steps.last() == Step::Release {
            1nat
        } else {
            0nat
        }
    }
}

/// A sequence of steps without a `Release` counts none.
proof fn lemma_no_release(steps: Seq<Step>)
    requires
        forall|i: int| 0 <= i < steps.len() ==> steps[i] != Step::Release,
    ensures
        releases(steps) == 0,
    decreases steps.len(),
{
    if steps.len() > 0 {
        lemma_no_release(steps.drop_last());
    }
}

/// The handle of every event is released exactly once, whatever its kind,
/// the unknown kind included, and the release is the last thing done to it:
/// every other step of the plan comes before it.
pub proof fn lemma_released_exactly_once(kind: EventKind)
    ensures
        releases(plan_of(kind)) == 1,
        plan_of(kind).len() >= 2,
        plan_of(kind).last() == Step::Release,
        forall|i: int| 0 <= i < plan_of(kind).len() - 1 ==> plan_of(kind)[i] != Step::Release,
{
    let p = plan_of(kind);
    let before = p.drop_last();
    assert forall|i: int| 0 <= i < before.len() implies before[i] != Step::Release by {
        assert(before[i] == p[i]);
    }
    lemma_no_release(before);
}

/// The device is looked up once for every event, whatever its kind, and
/// before anything else is done.
pub proof fn lemma_device_resolved_once(kind: EventKind)
    ensures
        plan_of(kind)[0] == Step::Device,
        forall|i: int| 1 <= i < plan_of(kind).len() ==> plan_of(kind)[i] != Step::Device,
{
}

/// No field is read before the handle has been narrowed to the facet that
/// reports it: a plan that reads anything narrows once, as its second step,
/// and to the facet of every field that it goes on to read.
pub proof fn lemma_reads_follow_narrowing(kind: EventKind, i: int)
    requires
        0 <= i < plan_of(kind).len(),
        plan_of(kind)[i] is Read,
    ensures
        i >= 2,
        plan_of(kind)[1] == Step::Narrow(facet_of(plan_of(kind)[i]->Read_0)),
        forall|j: int|
            0 <= j < plan_of(kind).len() && j != 1 ==> !(plan_of(kind)[j] is Narrow),
{
    let wanted = fields_of(kind);
    assert(wanted.len() > 0);
    assert(plan_of(kind)[i] == Step::Read(wanted[i - 2]));
    assert forall|k: int| 0 <= k < wanted.len() implies #[trigger] facet_of(wanted[k])
        == facet_of(wanted[0]) by {}
}

/// The value of a scroll direction is never asked for blind: wherever a plan
/// reads it, the step just before is the presence query for that direction.
pub proof fn lemma_presence_is_asked_before_value(kind: EventKind, i: int, axis: Axis)
    requires
        0 <= i < plan_of(kind).len(),
        plan_of(kind)[i] == Step::Read(Field::AxisValue(axis)),
    ensures
        i >= 1,
        plan_of(kind)[i - 1] == Step::Read(Field::HasAxis(axis)),
{
    let wanted = fields_of(kind);
    assert(wanted.len() > 0);
    assert(i >= 2);
    assert(plan_of(kind)[i] == Step::Read(wanted[i - 2]));
    assert(plan_of(kind)[i - 1] == Step::Read(wanted[i - 3]));
}

/// The plan reads exactly the fields of the kind, each once and in order:
/// step `k + 2` reads field `k`.
pub proof fn lemma_plan_reads_fields(kind: EventKind, k: int)
    requires
        0 <= k < fields_of(kind).len(),
    ensures
        plan_of(kind).len() == fields_of(kind).len() + 3,
        plan_of(kind)[k + 2] == Step::Read(fields_of(kind)[k]),
{
}

/// The fields read for an event of the given kind.
pub fn fields(kind: EventKind) -> (r: Vec<Field>)
    ensures
        r@ == fields_of(kind),
{
    let mut r: Vec<Field> = Vec::new();
    match kind {
        EventKind::KeyboardKey => {
            r.push(Field::Key);
            r.push(Field::KeyState);
            r.push(Field::KeyTime);
        },
        EventKind::PointerMotion => {
            r.push(Field::Dx);
            r.push(Field::Dy);
            r.push(Field::PointerTime);
        },
        EventKind::PointerMotionAbsolute => {
            r.push(Field::AbsoluteX);
            r.push(Field::AbsoluteY);
            r.push(Field::PointerTime);
        },
        EventKind::PointerButton => {
            r.push(Field::Button);
            r.push(Field::ButtonState);
            r.push(Field::PointerTime);
        },
        EventKind::PointerAxis => {
            r.push(Field::AxisSource);
            r.push(Field::HasAxis(Axis::Vertical));
            r.push(Field::AxisValue(Axis::Vertical));
            r.push(Field::HasAxis(Axis::Horizontal));
            r.push(Field::AxisValue(Axis::Horizontal));
            r.push(Field::PointerTime);
        },
        EventKind::TouchDown | EventKind::TouchMotion => {
            r.push(Field::TouchX);
            r.push(Field::TouchY);
        },
        EventKind::GestureSwipeBegin | EventKind::GesturePinchBegin => {
            r.push(Field::Fingers);
        },
        EventKind::GestureSwipeUpdate => {
            r.push(Field::Fingers);
            r.push(Field::GestureDx);
            r.push(Field::GestureDy);
            r.push(Field::GestureDxUnaccelerated);
            r.push(Field::GestureDyUnaccelerated);
        },
        EventKind::GesturePinchUpdate => {
            r.push(Field::Fingers);
            r.push(Field::GestureDx);
            r.push(Field::GestureDy);
            r.push(Field::GestureDxUnaccelerated);
            r.push(Field::GestureDyUnaccelerated);
            r.push(Field::Scale);
            r.push(Field::AngleDelta);
        },
        EventKind::GestureSwipeEnd | EventKind::GesturePinchEnd => {
            r.push(Field::Fingers);
            r.push(Field::Cancelled);
        },
        _ => {},
    }
    assert(r@ =~= fields_of(kind));
    r
}

/// The facet whose accessor reports the given field.
pub fn facet(field: Field) -> (r: Facet)
    ensures
        r == facet_of(field),
{
    match field {
        Field::Key | Field::KeyState | Field::KeyTime => Facet::Keyboard,
        Field::PointerTime
        | Field::Dx
        | Field::Dy
        | Field::AbsoluteX
        | Field::AbsoluteY
        | Field::Button
        | Field::ButtonState
        | Field::AxisSource
        | Field::HasAxis(_)
        | Field::AxisValue(_) => Facet::Pointer,
        Field::TouchX | Field::TouchY => Facet::Touch,
        Field::Fingers
        | Field::GestureDx
        | Field::GestureDy
        | Field::GestureDxUnaccelerated
        | Field::GestureDyUnaccelerated
        | Field::Scale
        | Field::AngleDelta
        | Field::Cancelled => Facet::Gesture,
    }
}

/// The native operations that decode an event of the given kind, in the
/// order in which they are to be carried out.
pub fn plan(kind: EventKind) -> (r: Vec<Step>)
    ensures
        r@ == plan_of(kind),
{
    let wanted = fields(kind);
    let mut r: Vec<Step> = Vec::new();
    r.push(Step::Device);
    if wanted.len() > 0 {
        r.push(Step::Narrow(facet(wanted[0])));
        let mut i: usize = 0;
        while i < wanted.len()
            invariant
                i <= wanted.len(),
                wanted@ == fields_of(kind),
                r@ =~= seq![Step::Device, Step::Narrow(facet_of(wanted@[0]))] + wanted@.take(
                    i as int,
                ).map_values(|f: Field| Step::Read(f)),
            decreases wanted.len() - i,
        {
            r.push(Step::Read(wanted[i]));
            i += 1;
        }
        assert(wanted@.take(i as int) =~= wanted@);
    }
    r.push(Step::Release);
    assert(r@ =~= plan_of(kind));
    r
}

} // verus!
