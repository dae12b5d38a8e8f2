//! The fill rewrite: every attribute whose name is exactly the unqualified
//! name `fill` gets the value `currentColor`; nothing else changes.

use vstd::prelude::*;
use crate::event::{Attribute, AttributeView, Event, EventView, Name, NameView};

verus! {

/// The local name that is rewritten.
pub open spec fn fill_local_name() -> Seq<char> {
    "fill"@
}

/// The value that every rewritten attribute gets.
pub open spec fn current_color() -> Seq<char> {
    "currentColor"@
}

/// Whether `name` is the unqualified name `fill`: that local name, no
/// namespace and no prefix.
pub open spec fn is_fill(name: NameView) -> bool {
    &&& name.local_name == fill_local_name()
    &&& name.namespace is None
    &&& name.prefix is None
}

/// The attribute after the rewrite.
pub open spec fn rewritten_attribute(attribute: AttributeView) -> AttributeView {
    if is_fill(attribute.name) {
        AttributeView { name: attribute.name, value: current_color() }
    } else {
        attribute
    }
}

/// The attribute list after the rewrite: each attribute rewritten in place.
pub open spec fn rewritten_attributes(attributes: Seq<AttributeView>) -> Seq<AttributeView> {
    Seq::new(attributes.len(), |i: int| rewritten_attribute(attributes[i]))
}

/// The event after the rewrite: an opening tag gets its attributes
/// rewritten, every other event is left as it is.
pub open spec fn rewritten_event(event: EventView) -> EventView {
    match event {
        EventView::StartElement { name, attributes, namespace } => EventView::StartElement {
            name,
            attributes: rewritten_attributes(attributes),
            namespace,
        },
        other => other,
    }
}

/// Whether `name` is the unqualified name `fill`.
pub fn is_fill_name(name: &Name) -> (fill: bool)
    ensures
        fill == is_fill(name@),
{
    let wanted = "fill".to_owned();
    name.local_name == wanted && name.namespace.is_none() && name.prefix.is_none()
}

/// Rewrites one attribute in place.
pub fn rewrite_attribute(attribute: &mut Attribute)
    ensures
        final(attribute)@ == rewritten_attribute(old(attribute)@),
{
    if is_fill_name(&attribute.name) {
        attribute.value = "currentColor".to_owned();
    }
}

/// Rewrites the attributes of one element, keeping their number and order.
pub fn rewrite_attributes(attributes: &mut Vec<Attribute>)
    ensures
        final(attributes).deep_view() == rewritten_attributes(old(attributes).deep_view()),
{
    let mut i: usize = 0;
    while i < attributes.len()
        invariant
            i <= attributes.len(),
            attributes.len() == old(attributes).len(),
            forall|j: int|
                0 <= j < i ==> (#[trigger] attributes[j]).deep_view() == rewritten_attribute(
                    old(attributes)[j].deep_view(),
                ),
            forall|j: int| i <= j < attributes.len() ==> (#[trigger] attributes[j]) == old(attributes)[j],
        decreases attributes.len() - i,
    {
        rewrite_attribute(&mut attributes[i]);
        i = i + 1;
    }
    assert(attributes.deep_view() =~= rewritten_attributes(old(attributes).deep_view()));
}

/// Rewrites one event in place.
pub fn rewrite_event(event: &mut Event)
    ensures
        final(event)@ == rewritten_event(old(event)@),
{
    match event {
        Event::StartElement { attributes, .. } => {
            rewrite_attributes(attributes);
        },
        _ => {},
    }
}

/// The document after the rewrite: one event for each event, in order.
pub open spec fn rewritten_document(events: Seq<EventView>) -> Seq<EventView> {
    Seq::new(events.len(), |i: int| rewritten_event(events[i]))
}

/// Rewrites every event of a document in place.
pub fn rewrite_events(events: &mut Vec<Event>)
    ensures
        final(events).deep_view() == rewritten_document(old(events).deep_view()),
{
    let mut i: usize = 0;
    while i < events.len()
        invariant
            i <= events.len(),
            events.len() == old(events).len(),
            forall|j: int|
                0 <= j < i ==> (#[trigger] events[j]).deep_view() == rewritten_event(
                    old(events)[j].deep_view(),
                ),
            forall|j: int| i <= j < events.len() ==> (#[trigger] events[j]) == old(events)[j],
        decreases events.len() - i,
    {
        rewrite_event(&mut events[i]);
        i = i + 1;
    }
    assert(events.deep_view() =~= rewritten_document(old(events).deep_view()));
}

/// Whether every attribute of `event` that is named `fill` has the value
/// `currentColor`. An event that is no opening tag has no attributes.
pub open spec fn fills_are_current(event: EventView) -> bool {
    event matches EventView::StartElement { attributes, .. } ==> forall|i: int|
        0 <= i < attributes.len() && is_fill(#[trigger] attributes[i].name)
            ==> attributes[i].value == current_color()
}

/// Whether `event` has no attribute named `fill`.
pub open spec fn has_no_fill(event: EventView) -> bool {
    event matches EventView::StartElement { attributes, .. } ==> forall|i: int|
        0 <= i < attributes.len() ==> !is_fill(#[trigger] attributes[i].name)
}

/// The rewrite keeps the number of attributes, their order and their names:
/// only the value of an attribute can differ, and only where the name is `fill`.
pub proof fn rewrite_keeps_attribute_names(attributes: Seq<AttributeView>)
    ensures
        rewritten_attributes(attributes).len() == attributes.len(),
        forall|i: int|
            0 <= i < attributes.len() ==> (#[trigger] rewritten_attributes(attributes)[i]).name
                == attributes[i].name,
        forall|i: int|
            0 <= i < attributes.len() && !is_fill(attributes[i].name)
                ==> #[trigger] rewritten_attributes(attributes)[i] == attributes[i],
{
}

/// An attribute with the local name `fill` that belongs to a namespace, or
/// carries a prefix, is not rewritten.
pub proof fn rewrite_keeps_qualified_fill(attribute: AttributeView)
    requires
        attribute.name.namespace is Some || attribute.name.prefix is Some,
    ensures
        rewritten_attribute(attribute) == attribute,
{
}

/// After the rewrite every attribute named `fill` has the value `currentColor`.
pub proof fn rewrite_sets_every_fill(event: EventView)
    ensures
        fills_are_current(rewritten_event(event)),
{
}

/// Rewriting an event twice gives what rewriting it once gives.
pub proof fn rewrite_event_is_idempotent(event: EventView)
    ensures
        rewritten_event(rewritten_event(event)) == rewritten_event(event),
{
    if let EventView::StartElement { attributes, .. } = event {
        assert(rewritten_attributes(rewritten_attributes(attributes)) =~= rewritten_attributes(
            attributes,
        ));
    }
}

/// An event without an attribute named `fill` is left exactly as it was.
pub proof fn rewrite_keeps_event_without_fill(event: EventView)
    requires
        has_no_fill(event),
    ensures
        rewritten_event(event) == event,
{
    if let EventView::StartElement { attributes, .. } = event {
        assert(rewritten_attributes(attributes) =~= attributes);
    }
}

/// The rewrite maps events one to one: the document keeps its length, every
/// event keeps its kind, and only opening tags can differ from the input.
pub proof fn rewrite_maps_events_one_to_one(events: Seq<EventView>)
    ensures
        rewritten_document(events).len() == events.len(),
        forall|i: int|
            0 <= i < events.len() && !(events[i] is StartElement)
                ==> #[trigger] rewritten_document(events)[i] == events[i],
        forall|i: int|
            0 <= i < events.len() && events[i] is StartElement ==> {
                &&& (#[trigger] rewritten_document(events)[i]) is StartElement
                &&& rewritten_document(events)[i]->StartElement_name == events[i]->StartElement_name
                &&& rewritten_document(events)[i]->namespace == events[i]->namespace
            },
{
}

/// Rewriting a document a second time changes nothing, and after the first
/// time every attribute named `fill` in it has the value `currentColor`.
pub proof fn rewrite_document_is_idempotent(events: Seq<EventView>)
    ensures
        rewritten_document(rewritten_document(events)) == rewritten_document(events),
        forall|i: int|
            0 <= i < events.len() ==> fills_are_current(#[trigger] rewritten_document(events)[i]),
{
    assert forall|i: int| 0 <= i < events.len() implies rewritten_event(
        #[trigger] rewritten_document(events)[i],
    ) == rewritten_document(events)[i] by {
        rewrite_event_is_idempotent(events[i]);
    }
    assert(rewritten_document(rewritten_document(events)) =~= rewritten_document(events));
    assert forall|i: int| 0 <= i < events.len() implies fills_are_current(
        #[trigger] rewritten_document(events)[i],
    ) by {
        rewrite_sets_every_fill(events[i]);
    }
}

/// A document in which no attribute is named `fill` is left exactly as it
/// was: the same events, names, attributes, namespaces and text, in the same
/// order.
pub proof fn rewrite_keeps_document_without_fill(events: Seq<EventView>)
    requires
        forall|i: int| 0 <= i < events.len() ==> has_no_fill(#[trigger] events[i]),
    ensures
        rewritten_document(events) == events,
{
    assert forall|i: int| 0 <= i < events.len() implies rewritten_event(#[trigger] events[i])
        == events[i] by {
        rewrite_keeps_event_without_fill(events[i]);
    }
    assert(rewritten_document(events) =~= events);
}

} // verus!
