use vstd::prelude::*;

use crate::color_scheme::Fill;
use crate::strutil::is_id_prefix;
use crate::world::{
    idx_of_from, live, rec_of, recolor_model, spec_resolve, EntityModel, World,
};

verus! {

/// The kind of a raw UI interaction event.
#[derive(Clone, Copy, Debug, PartialEq, Eq, Structural)]
pub enum UiEventType {
    Click,
    ClickStart,
    ClickStop,
    HoverStart,
    HoverStop,
}

/// A raw UI interaction event aimed at a target entity.
#[derive(Clone, Copy, Debug, PartialEq, Eq, Structural)]
pub struct UiEvent {
    pub event_type: UiEventType,
    pub target: u64,
}

/// A per-consumer cursor into the event channel: everything before `pos`
/// has already been consumed by this reader.
#[derive(Clone, Copy, Debug, PartialEq, Eq, Structural)]
pub struct ReaderId {
    pub pos: usize,
}

/// An append-only buffer of interaction events. Consumers hold a
/// [`ReaderId`] cursor, so each event is delivered to each consumer exactly
/// once and in order.
pub struct EventChannel {
    pub events: Vec<UiEvent>,
}

impl EventChannel {
    pub fn new() -> (c: EventChannel)
        ensures
            c.events@ == Seq::<UiEvent>::empty(),
    {
        let c = EventChannel { events: Vec::new() };
        proof {
            assert(c.events@ =~= Seq::<UiEvent>::empty());
        }
        c
    }

    /// Append one event.
    pub fn single_write(&mut self, event: UiEvent)
        ensures
            final(self).events@ == old(self).events@.push(event),
    {
        self.events.push(event);
    }

    /// A fresh cursor that will see only events written from now on.
    pub fn register_reader(&self) -> (r: ReaderId)
        ensures
            r.pos == self.events@.len(),
    {
        ReaderId { pos: self.events.len() }
    }
}

/// The fill a router-relevant event sets, or `None` for event kinds the
/// router ignores.
pub open spec fn highlight_fill(t: UiEventType) -> Option<Fill> {
    match t {
        UiEventType::HoverStart => Some(Fill::BackgroundHighlighted),
        UiEventType::HoverStop => Some(Fill::Background),
        UiEventType::ClickStart => Some(Fill::Acting),
        UiEventType::ClickStop => Some(Fill::Background),
        UiEventType::Click => None,
    }
}

/// The store after routing one event: if the target resolves to a transform
/// id and the event kind recolors, every highlightable entity whose id has
/// the resolved id as an exact prefix takes the event's fill; otherwise the
/// store is unchanged (a vanished target is a normal race, not an error).
pub open spec fn route_one(es: Seq<EntityModel>, ev: UiEvent) -> Seq<EntityModel> {
    match spec_resolve(es, ev.target) {
        None => es,
        Some(tid) => match highlight_fill(ev.event_type) {
            None => es,
            Some(f) => es.map_values(|r: EntityModel| recolor_model(r, tid, f)),
        },
    }
}

/// The store after routing a whole sequence of events, in delivery order.
pub open spec fn route_events(es: Seq<EntityModel>, evs: Seq<UiEvent>) -> Seq<EntityModel>
    decreases evs.len(),
{
    if evs.len() == 0 {
        es
    } else {
        route_events(route_one(es, evs[0]), evs.drop_first())
    }
}

/// Routing one more event at the end routes the earlier events first.
pub proof fn lemma_route_events_push(es: Seq<EntityModel>, evs: Seq<UiEvent>, ev: UiEvent)
    ensures
        route_events(es, evs.push(ev)) == route_one(route_events(es, evs), ev),
    decreases evs.len(),
{
    reveal_with_fuel(route_events, 2);
    if evs.len() == 0 {
        assert(evs.push(ev)[0] == ev);
        assert(evs.push(ev).drop_first() =~= Seq::<UiEvent>::empty());
        assert(route_events(es, evs.push(ev)) == route_events(
            route_one(es, ev),
            Seq::<UiEvent>::empty(),
        ));
        assert(route_events(es, evs) == es);
    } else {
        assert(evs.push(ev)[0] == evs[0]);
        assert(evs.push(ev).drop_first() =~= evs.drop_first().push(ev));
        assert(route_events(es, evs.push(ev)) == route_events(
            route_one(es, evs[0]),
            evs.drop_first().push(ev),
        ));
        lemma_route_events_push(route_one(es, evs[0]), evs.drop_first(), ev);
        assert(route_events(es, evs) == route_events(route_one(es, evs[0]), evs.drop_first()));
    }
}

/// Routing touches fills only: ids, owners, parents, transforms, markers
/// and texts of every entity survive unchanged, as does the entity count.
pub proof fn lemma_route_one_shape(es: Seq<EntityModel>, ev: UiEvent)
    ensures
        route_one(es, ev).len() == es.len(),
        forall|i: int|
            0 <= i < es.len() ==> (#[trigger] route_one(es, ev)[i]).id == es[i].id,
        forall|i: int|
            0 <= i < es.len() ==> (#[trigger] route_one(es, ev)[i]).owner == es[i].owner,
        forall|i: int|
            0 <= i < es.len() ==> (#[trigger] route_one(es, ev)[i]).parent == es[i].parent,
        forall|i: int|
            0 <= i < es.len() ==> (#[trigger] route_one(es, ev)[i]).transform == es[i].transform,
        forall|i: int|
            0 <= i < es.len() ==> (#[trigger] route_one(es, ev)[i]).tag == es[i].tag,
        forall|i: int|
            0 <= i < es.len() ==> (#[trigger] route_one(es, ev)[i]).text == es[i].text,
        forall|i: int|
            0 <= i < es.len() ==> (#[trigger] route_one(es, ev)[i]).font_size == es[i].font_size,
{
}

/// Two stores whose entities carry the same ids position by position are
/// scanned identically.
pub proof fn lemma_idx_of_from_same_ids(
    a: Seq<EntityModel>,
    b: Seq<EntityModel>,
    e: u64,
    i: int,
)
    requires
        a.len() == b.len(),
        forall|j: int| 0 <= j < a.len() ==> (#[trigger] a[j]).id == b[j].id,
    ensures
        idx_of_from(a, e, i) == idx_of_from(b, e, i),
    decreases a.len() - i,
{
    if 0 <= i < a.len() && a[i].id != e {
        lemma_idx_of_from_same_ids(a, b, e, i + 1);
    }
}

/// Routing an event leaves every target resolvable to the same id as
/// before: recoloring never moves, renames or deletes an entity.
pub proof fn lemma_route_one_resolve(es: Seq<EntityModel>, ev: UiEvent, target: u64)
    ensures
        spec_resolve(route_one(es, ev), target) == spec_resolve(es, target),
{
    lemma_route_one_shape(es, ev);
    lemma_idx_of_from_same_ids(route_one(es, ev), es, target, 0);
    if live(es, target) {
        crate::world::lemma_live_rec(es, target);
        assert(route_one(es, ev)[idx_of_from(es, target, 0)].transform == es[idx_of_from(
            es,
            target,
            0,
        )].transform);
    }
}

/// Law: the router writes fill colors only. Across any sequence of routed
/// events the store keeps its well-formedness, and every entity that was a
/// live root stays one (and vice versa) — screens can rely on their owned
/// subtrees surviving any amount of routing.
pub proof fn lemma_route_events_preserves_structure(
    es: Seq<EntityModel>,
    evs: Seq<UiEvent>,
    next_id: u64,
    r: u64,
)
    ensures
        crate::world::wf_entities(es, next_id) ==> crate::world::wf_entities(
            route_events(es, evs),
            next_id,
        ),
        crate::world::is_live_root(route_events(es, evs), r) == crate::world::is_live_root(es, r),
    decreases evs.len(),
{
    if evs.len() == 0 {
    } else {
        let e1 = route_one(es, evs[0]);
        lemma_route_one_shape(es, evs[0]);
        lemma_idx_of_from_same_ids(e1, es, r, 0);
        if live(es, r) {
            crate::world::lemma_live_rec(es, r);
            assert(e1[idx_of_from(es, r, 0)].owner == es[idx_of_from(es, r, 0)].owner);
        }
        if crate::world::wf_entities(es, next_id) {
            assert forall|i: int|
                0 <= i < e1.len() implies (#[trigger] e1[i]).id < next_id && e1[i].owner
                <= e1[i].id by {
                assert(e1[i].id == es[i].id && e1[i].owner == es[i].owner);
                assert(es[i].id < next_id && es[i].owner <= es[i].id);
            }
            assert forall|i: int, j: int|
                0 <= i < j < e1.len() implies (#[trigger] e1[i]).id < (#[trigger] e1[j]).id by {
                assert(e1[i].id == es[i].id && e1[j].id == es[j].id);
                assert(es[i].id < es[j].id);
            }
            assert(crate::world::wf_entities(e1, next_id));
        }
        lemma_route_events_preserves_structure(e1, evs.drop_first(), next_id, r);
    }
}

/// Law: a HoverStart, HoverStop, ClickStart, ClickStop sequence aimed at
/// one widget's catch region steps every highlightable part whose id has
/// the catch id as a prefix — in particular the widget's background —
/// through exactly BackgroundHighlighted, Background, Acting, Background,
/// in that order, with no intermediate color.
pub proof fn lemma_highlight_protocol(es: Seq<EntityModel>, target: u64, k: int)
    requires
        live(es, target),
        0 <= k < es.len(),
        es[k].tag,
        is_id_prefix(rec_of(es, target).transform.id, es[k].transform.id),
    ensures
        ({
            let e1 = route_one(es, UiEvent { event_type: UiEventType::HoverStart, target });
            let e2 = route_one(e1, UiEvent { event_type: UiEventType::HoverStop, target });
            let e3 = route_one(e2, UiEvent { event_type: UiEventType::ClickStart, target });
            let e4 = route_one(e3, UiEvent { event_type: UiEventType::ClickStop, target });
            e1[k].fill == Some(Fill::BackgroundHighlighted) && e2[k].fill == Some(Fill::Background)
                && e3[k].fill == Some(Fill::Acting) && e4[k].fill == Some(Fill::Background)
        }),
{
    let tid = rec_of(es, target).transform.id;
    let ev1 = UiEvent { event_type: UiEventType::HoverStart, target };
    let ev2 = UiEvent { event_type: UiEventType::HoverStop, target };
    let ev3 = UiEvent { event_type: UiEventType::ClickStart, target };
    let ev4 = UiEvent { event_type: UiEventType::ClickStop, target };
    let e1 = route_one(es, ev1);
    let e2 = route_one(e1, ev2);
    let e3 = route_one(e2, ev3);
    let e4 = route_one(e3, ev4);
    assert(spec_resolve(es, target) == Some(tid));
    lemma_route_one_shape(es, ev1);
    lemma_route_one_resolve(es, ev1, target);
    assert(e1[k].fill == Some(Fill::BackgroundHighlighted));
    lemma_route_one_shape(e1, ev2);
    lemma_route_one_resolve(e1, ev2, target);
    assert(e2[k].fill == Some(Fill::Background));
    lemma_route_one_shape(e2, ev3);
    lemma_route_one_resolve(e2, ev3, target);
    assert(e3[k].fill == Some(Fill::Acting));
    lemma_route_one_shape(e3, ev4);
    assert(e4[k].fill == Some(Fill::Background));
}

/// The UI event router: once per frame it drains the events its cursor has
/// not seen yet and recolors highlightable widget parts according to the
/// interaction they report.
pub struct UiEventHandlerSystem {
    pub reader_id: ReaderId,
}

impl UiEventHandlerSystem {
    pub fn new(reader_id: ReaderId) -> (s: Self)
        ensures
            s.reader_id == reader_id,
    {
        UiEventHandlerSystem { reader_id }
    }

    /// Drain all events buffered since the last run and apply their
    /// recoloring, advancing this reader's cursor to the end of the
    /// channel: no event is seen twice and none are skipped.
    pub fn run(&mut self, events: &EventChannel, world: &mut World)
        requires
            old(world).wf(),
            old(self).reader_id.pos <= events.events@.len(),
        ensures
            final(world)@ == route_events(
                old(world)@,
                events.events@.skip(old(self).reader_id.pos as int),
            ),
            final(world).next_id == old(world).next_id,
            final(world).wf(),
            final(self).reader_id.pos == events.events@.len(),
    {
        let ghost es0 = world@;
        let ghost start = self.reader_id.pos as int;
        let mut i: usize = self.reader_id.pos;
        while i < events.events.len()
            invariant
                0 <= start <= i <= events.events@.len(),
                world@ == route_events(es0, events.events@.subrange(start, i as int)),
                world.wf(),
                world.next_id == old(world).next_id,
            decreases events.events@.len() - i,
        {
            let ghost prev = world@;
            let ev = events.events[i];
            let resolved = world.transform_id_of(ev.target);
            match resolved {
                Some(tid) => {
                    match ev.event_type {
                        UiEventType::HoverStart => {
                            world.recolor_prefix(tid.as_str(), Fill::BackgroundHighlighted);
                        },
                        UiEventType::HoverStop => {
                            world.recolor_prefix(tid.as_str(), Fill::Background);
                        },
                        UiEventType::ClickStart => {
                            world.recolor_prefix(tid.as_str(), Fill::Acting);
                        },
                        UiEventType::ClickStop => {
                            world.recolor_prefix(tid.as_str(), Fill::Background);
                        },
                        UiEventType::Click => {},
                    }
                },
                None => {},
            }
            proof {
                assert(world@ == route_one(prev, ev));
                let pre = events.events@.subrange(start, i as int);
                assert(events.events@.subrange(start, i as int + 1) =~= pre.push(ev));
                lemma_route_events_push(es0, pre, ev);
            }
            i = i + 1;
        }
        self.reader_id = ReaderId { pos: i };
        proof {
            assert(events.events@.subrange(start, events.events@.len() as int) =~= events.events@.skip(
                start,
            ));
        }
    }
}

} // verus!
