use vstd::prelude::*;

use crate::color_scheme::Fill;
use crate::strutil::{is_id_prefix, str_eq, str_starts_with};
use crate::ui_scheme::ButtonComp;

verus! {

/// Where a transform is anchored inside its parent region.
#[derive(Clone, Copy, Debug, PartialEq, Eq, Structural)]
pub enum Anchor {
    Middle,
    TopLeft,
    TopRight,
    BottomLeft,
    BottomRight,
}

/// Placement of one entity: a stable string id (the key the finder and the
/// event router work with), anchoring, an offset, a draw order given in
/// tenths, and a size.
pub struct UiTransform {
    pub id: String,
    pub anchor: Anchor,
    pub pivot: Anchor,
    pub x: i32,
    pub y: i32,
    pub z_tenths: u32,
    pub width: u32,
    pub height: u32,
}

/// The mathematical value of a [`UiTransform`].
pub ghost struct UiTransformModel {
    pub id: Seq<char>,
    pub anchor: Anchor,
    pub pivot: Anchor,
    pub x: i32,
    pub y: i32,
    pub z_tenths: u32,
    pub width: u32,
    pub height: u32,
}

impl View for UiTransform {
    type V = UiTransformModel;

    open spec fn view(&self) -> UiTransformModel {
        UiTransformModel {
            id: self.id@,
            anchor: self.anchor,
            pivot: self.pivot,
            x: self.x,
            y: self.y,
            z_tenths: self.z_tenths,
            width: self.width,
            height: self.height,
        }
    }
}

impl Clone for UiTransform {
    fn clone(&self) -> (r: Self)
        ensures
            r@ == self@,
    {
        UiTransform {
            id: self.id.clone(),
            anchor: self.anchor,
            pivot: self.pivot,
            x: self.x,
            y: self.y,
            z_tenths: self.z_tenths,
            width: self.width,
            height: self.height,
        }
    }
}

impl UiTransform {
    pub fn new(
        id: String,
        anchor: Anchor,
        pivot: Anchor,
        x: i32,
        y: i32,
        z_tenths: u32,
        width: u32,
        height: u32,
    ) -> (t: UiTransform)
        ensures
            t@ == (UiTransformModel { id: id@, anchor, pivot, x, y, z_tenths, width, height }),
    {
        UiTransform { id, anchor, pivot, x, y, z_tenths, width, height }
    }
}

/// One entity of the store: its id, the entity it is parented to, the screen
/// root that owns it, its transform, the optional highlightable marker, its
/// solid-color fill, and its label text with the text's font size.
pub struct EntityRec {
    pub id: u64,
    pub parent: Option<u64>,
    pub owner: u64,
    pub transform: UiTransform,
    pub tag: Option<ButtonComp>,
    pub fill: Option<Fill>,
    pub text: Option<String>,
    pub font_size: Option<u32>,
}

/// The mathematical value of an [`EntityRec`]; `tag` is whether the
/// highlightable marker is present.
pub ghost struct EntityModel {
    pub id: u64,
    pub parent: Option<u64>,
    pub owner: u64,
    pub transform: UiTransformModel,
    pub tag: bool,
    pub fill: Option<Fill>,
    pub text: Option<Seq<char>>,
    pub font_size: Option<u32>,
}

/// The view of an optional label text.
pub open spec fn text_view(t: Option<String>) -> Option<Seq<char>> {
    match t {
        Some(s) => Some(s@),
        None => None,
    }
}

impl View for EntityRec {
    type V = EntityModel;

    open spec fn view(&self) -> EntityModel {
        EntityModel {
            id: self.id,
            parent: self.parent,
            owner: self.owner,
            transform: self.transform@,
            tag: self.tag is Some,
            fill: self.fill,
            text: text_view(self.text),
            font_size: self.font_size,
        }
    }
}

impl Clone for EntityRec {
    fn clone(&self) -> (r: Self)
        ensures
            r@ == self@,
    {
        EntityRec {
            id: self.id,
            parent: self.parent,
            owner: self.owner,
            transform: self.transform.clone(),
            tag: self.tag,
            fill: self.fill,
            text: match &self.text {
                Some(t) => Some(t.clone()),
                None => None,
            },
            font_size: self.font_size,
        }
    }
}

/// The index of the entity with id `e` in `es`, or `-1` if it is not there.
pub open spec fn idx_of_from(es: Seq<EntityModel>, e: u64, i: int) -> int
    decreases es.len() - i,
{
    if i < 0 || i >= es.len() {
        -1
    } else if es[i].id == e {
        i
    } else {
        idx_of_from(es, e, i + 1)
    }
}

pub open spec fn idx_of(es: Seq<EntityModel>, e: u64) -> int {
    idx_of_from(es, e, 0)
}

/// Whether the entity with id `e` exists in `es`.
pub open spec fn live(es: Seq<EntityModel>, e: u64) -> bool {
    idx_of(es, e) >= 0
}

/// The record of the live entity with id `e`.
pub open spec fn rec_of(es: Seq<EntityModel>, e: u64) -> EntityModel {
    es[idx_of(es, e)]
}

/// The screen root that owns the live entity `e`.
pub open spec fn owner_of(es: Seq<EntityModel>, e: u64) -> u64 {
    rec_of(es, e).owner
}

/// `e` is live and is a root: it owns itself.
pub open spec fn is_live_root(es: Seq<EntityModel>, e: u64) -> bool {
    live(es, e) && owner_of(es, e) == e
}

/// The owner assigned to a fresh entity `e` parented to `parent`: the
/// parent's owner, or `e` itself when the entity starts a new subtree.
pub open spec fn spec_new_owner(es: Seq<EntityModel>, parent: Option<u64>, e: u64) -> u64 {
    match parent {
        None => e,
        Some(p) => owner_of(es, p),
    }
}

/// The first live entity (in creation order) whose transform id is `tid`,
/// scanning from position `i`.
pub open spec fn find_from(es: Seq<EntityModel>, tid: Seq<char>, i: int) -> Option<u64>
    decreases es.len() - i,
{
    if i < 0 || i >= es.len() {
        None
    } else if es[i].transform.id == tid {
        Some(es[i].id)
    } else {
        find_from(es, tid, i + 1)
    }
}

/// What the finder returns for `tid`: the first entity carrying that id.
pub open spec fn spec_find(es: Seq<EntityModel>, tid: Seq<char>) -> Option<u64> {
    find_from(es, tid, 0)
}

/// The transform id of `e`, or `None` when `e` is not live (for instance
/// because it was deleted this frame).
pub open spec fn spec_resolve(es: Seq<EntityModel>, e: u64) -> Option<Seq<char>> {
    if live(es, e) {
        Some(rec_of(es, e).transform.id)
    } else {
        None
    }
}

/// An entity after one recoloring pass for a resolved id `prefix`: a
/// highlightable entity whose own id has `prefix` as an exact prefix takes
/// the new fill, every other entity is untouched.
pub open spec fn recolor_model(r: EntityModel, prefix: Seq<char>, fill: Fill) -> EntityModel {
    if r.tag && is_id_prefix(prefix, r.transform.id) {
        EntityModel { fill: Some(fill), ..r }
    } else {
        r
    }
}

/// Well-formedness of the store: ids grow strictly in creation order (so
/// they are unique), every id is below the allocation cursor, and an owner
/// was always created no later than what it owns.
pub open spec fn wf_entities(es: Seq<EntityModel>, next_id: u64) -> bool {
    &&& forall|i: int| 0 <= i < es.len() ==> (#[trigger] es[i]).id < next_id
    &&& forall|i: int| 0 <= i < es.len() ==> (#[trigger] es[i]).owner <= es[i].id
    &&& forall|i: int, j: int|
        0 <= i < j < es.len() ==> (#[trigger] es[i]).id < (#[trigger] es[j]).id
}

/// The entity/component store: an append-only id allocator and the live
/// entity records. Screens create and delete entire owned subtrees; the
/// event router reads transforms and markers and writes fills only.
pub struct World {
    pub next_id: u64,
    pub entities: Vec<EntityRec>,
}

impl View for World {
    type V = Seq<EntityModel>;

    open spec fn view(&self) -> Seq<EntityModel> {
        self.entities@.map_values(|r: EntityRec| r@)
    }
}

impl World {
    pub open spec fn wf(&self) -> bool {
        wf_entities(self@, self.next_id)
    }

    /// An empty store.
    pub fn new() -> (w: World)
        ensures
            w@ == Seq::<EntityModel>::empty(),
            w.next_id == 0,
            w.wf(),
    {
        let w = World { next_id: 0, entities: Vec::new() };
        proof {
            assert(w@ =~= Seq::<EntityModel>::empty());
        }
        w
    }

    /// The owner of the live entity `p`.
    pub fn owner_lookup(&self, p: u64) -> (o: u64)
        requires
            live(self@, p),
        ensures
            o == owner_of(self@, p),
    {
        let ghost es = self@;
        let mut i: usize = 0;
        while i < self.entities.len()
            invariant
                es == self@,
                es.len() == self.entities@.len(),
                0 <= i <= es.len(),
                live(es, p),
                idx_of(es, p) == idx_of_from(es, p, i as int),
            decreases es.len() - i,
        {
            if self.entities[i].id == p {
                assert(idx_of(es, p) == i as int);
                return self.entities[i].owner;
            }
            i = i + 1;
        }
        proof {
            assert(idx_of_from(es, p, i as int) == -1);
            assert(false);
        }
        0
    }

    /// Create one entity. Its id is the next free one; it is owned by its
    /// parent's owner, or by itself when it has no parent and so starts a
    /// fresh screen subtree.
    pub fn create_entity(
        &mut self,
        parent: Option<u64>,
        transform: UiTransform,
        tag: Option<ButtonComp>,
        fill: Option<Fill>,
        text: Option<String>,
        font_size: Option<u32>,
    ) -> (e: u64)
        requires
            old(self).wf(),
            old(self).next_id < u64::MAX,
            parent matches Some(p) ==> live(old(self)@, p),
        ensures
            e == old(self).next_id,
            final(self).next_id == old(self).next_id + 1,
            final(self)@ == old(self)@.push(
                (EntityModel {
                    id: e,
                    parent,
                    owner: spec_new_owner(old(self)@, parent, e),
                    transform: transform@,
                    tag: tag is Some,
                    fill,
                    text: text_view(text),
                    font_size,
                }),
            ),
            final(self).wf(),
    {
        let e = self.next_id;
        let owner = match parent {
            None => e,
            Some(p) => {
                let o = self.owner_lookup(p);
                proof {
                    // the owner of a live parent is itself bounded by an id
                    // already in the store
                    lemma_idx_of_from_valid(self@, p, 0);
                    let k = idx_of(self@, p);
                    assert(self@[k].owner <= self@[k].id < self.next_id);
                }
                o
            },
        };
        let rec = EntityRec { id: e, parent, owner, transform, tag, fill, text, font_size };
        let ghost m = rec@;
        self.entities.push(rec);
        self.next_id = self.next_id + 1;
        proof {
            assert(self@ =~= old(self)@.push(m));
        }
        e
    }

    /// Delete the screen subtree rooted at `root`: the root entity and every
    /// entity it owns leave the store together.
    pub fn delete_root(&mut self, root: u64)
        requires
            old(self).wf(),
            is_live_root(old(self)@, root),
        ensures
            final(self)@ == old(self)@.filter(|r: EntityModel| r.owner != root),
            final(self).next_id == old(self).next_id,
            final(self).wf(),
    {
        let ghost es = self@;
        let mut kept: Vec<EntityRec> = Vec::new();
        let mut i: usize = 0;
        while i < self.entities.len()
            invariant
                es == self@,
                es.len() == self.entities@.len(),
                0 <= i <= es.len(),
                kept@.map_values(|r: EntityRec| r@) == es.subrange(0, i as int).filter(
                    |r: EntityModel| r.owner != root,
                ),
            decreases es.len() - i,
        {
            let ghost prev = kept@.map_values(|r: EntityRec| r@);
            let keep = self.entities[i].owner != root;
            if keep {
                let c = self.entities[i].clone();
                kept.push(c);
            }
            proof {
                reveal(Seq::filter);
                let cur = kept@.map_values(|r: EntityRec| r@);
                assert(es.subrange(0, i as int + 1).drop_last() =~= es.subrange(0, i as int));
                assert(es.subrange(0, i as int + 1).last() == es[i as int]);
                if keep {
                    assert(cur =~= prev.push(es[i as int]));
                }
                assert(cur =~= es.subrange(0, i as int + 1).filter(
                    |r: EntityModel| r.owner != root,
                ));
            }
            i = i + 1;
        }
        proof {
            assert(es.subrange(0, es.len() as int) =~= es);
        }
        self.entities = kept;
        proof {
            let pred = |r: EntityModel| r.owner != root;
            let fin = self@;
            // well-formedness survives: every kept record is a record of the
            // old store, and relative creation order is preserved
            assert forall|k: int| 0 <= k < fin.len() implies (#[trigger] fin[k]).id
                < self.next_id && fin[k].owner <= fin[k].id by {
                lemma_filter_entry_is_member(es, pred, k);
                let j = choose|j: int|
                    0 <= j < es.len() && es[j] == fin[k] && es[j].id == fin[k].id;
                assert(es[j].id < self.next_id && es[j].owner <= es[j].id);
            }
            assert forall|k1: int, k2: int| 0 <= k1 < k2 < fin.len() implies (
            #[trigger] fin[k1]).id < (#[trigger] fin[k2]).id by {
                lemma_filter_ordered(es, pred, k1, k2);
            }
        }
    }

    /// The first entity whose transform id equals `id`, in creation order.
    /// While a widget has not been built yet this returns `None`; callers
    /// simply retry on a later frame.
    pub fn find_by_id(&self, id: &str) -> (r: Option<u64>)
        ensures
            r == spec_find(self@, id@),
    {
        let ghost es = self@;
        let mut i: usize = 0;
        while i < self.entities.len()
            invariant
                es == self@,
                es.len() == self.entities@.len(),
                0 <= i <= es.len(),
                spec_find(es, id@) == find_from(es, id@, i as int),
            decreases es.len() - i,
        {
            if str_eq(self.entities[i].transform.id.as_str(), id) {
                return Some(self.entities[i].id);
            }
            i = i + 1;
        }
        None
    }

    /// The transform id of entity `e`, or `None` when `e` is not live.
    pub fn transform_id_of(&self, e: u64) -> (r: Option<String>)
        ensures
            text_view(r) == spec_resolve(self@, e),
    {
        let ghost es = self@;
        let mut i: usize = 0;
        while i < self.entities.len()
            invariant
                es == self@,
                es.len() == self.entities@.len(),
                0 <= i <= es.len(),
                idx_of(es, e) == idx_of_from(es, e, i as int),
            decreases es.len() - i,
        {
            if self.entities[i].id == e {
                assert(idx_of(es, e) == i as int);
                return Some(self.entities[i].transform.id.clone());
            }
            i = i + 1;
        }
        proof {
            assert(idx_of_from(es, e, i as int) == -1);
        }
        None
    }

    /// One recoloring pass: every highlightable entity whose id has `prefix`
    /// as an exact prefix takes `fill`; everything else is untouched.
    pub fn recolor_prefix(&mut self, prefix: &str, fill: Fill)
        requires
            old(self).wf(),
        ensures
            final(self)@ == old(self)@.map_values(
                |r: EntityModel| recolor_model(r, prefix@, fill),
            ),
            final(self).next_id == old(self).next_id,
            final(self).wf(),
    {
        let ghost es = old(self)@;
        let mut i: usize = 0;
        while i < self.entities.len()
            invariant
                self.entities@.len() == es.len(),
                self.next_id == old(self).next_id,
                0 <= i <= es.len(),
                forall|j: int|
                    0 <= j < i ==> self@[j] == recolor_model(#[trigger] es[j], prefix@, fill),
                forall|j: int| i <= j < es.len() ==> self@[j] == #[trigger] es[j],
            decreases es.len() - i,
        {
            let hit = self.entities[i].tag.is_some() && str_starts_with(
                self.entities[i].transform.id.as_str(),
                prefix,
            );
            if hit {
                let r = &self.entities[i];
                let updated = EntityRec {
                    id: r.id,
                    parent: r.parent,
                    owner: r.owner,
                    transform: r.transform.clone(),
                    tag: r.tag,
                    fill: Some(fill),
                    text: match &r.text {
                        Some(t) => Some(t.clone()),
                        None => None,
                    },
                    font_size: r.font_size,
                };
                self.entities.set(i, updated);
            }
            i = i + 1;
        }
        proof {
            assert(self@ =~= es.map_values(|r: EntityModel| recolor_model(r, prefix@, fill)));
            assert(wf_entities(self@, self.next_id));
        }
    }
}

/// A scan that did not report failure found its entity: the reported index
/// is in range and carries the id that was searched for.
pub proof fn lemma_idx_of_from_valid(es: Seq<EntityModel>, e: u64, i: int)
    requires
        0 <= i <= es.len(),
        idx_of_from(es, e, i) != -1,
    ensures
        i <= idx_of_from(es, e, i) < es.len(),
        es[idx_of_from(es, e, i)].id == e,
    decreases es.len() - i,
{
    if i < es.len() && es[i].id != e {
        lemma_idx_of_from_valid(es, e, i + 1);
    }
}

/// A scan starting at `i` stops at `k` when `k` holds the id searched for
/// and nothing before it does.
pub proof fn lemma_idx_of_from_found(es: Seq<EntityModel>, e: u64, i: int, k: int)
    requires
        0 <= i <= k < es.len(),
        es[k].id == e,
        forall|j: int| i <= j < k ==> (#[trigger] es[j]).id != e,
    ensures
        idx_of_from(es, e, i) == k,
    decreases k - i,
{
    if i < k {
        lemma_idx_of_from_found(es, e, i + 1, k);
    }
}

/// In a well-formed store ids are unique, so an entity found at index `k`
/// is found there by the scan as well.
pub proof fn lemma_idx_of_unique(es: Seq<EntityModel>, next_id: u64, e: u64, k: int)
    requires
        wf_entities(es, next_id),
        0 <= k < es.len(),
        es[k].id == e,
    ensures
        idx_of(es, e) == k,
        live(es, e),
        owner_of(es, e) == es[k].owner,
{
    assert forall|j: int| 0 <= j < k implies (#[trigger] es[j]).id != e by {
        assert(es[j].id < es[k].id);
    }
    lemma_idx_of_from_found(es, e, 0, k);
}

/// The record of a live entity carries that entity's id.
pub proof fn lemma_live_rec(es: Seq<EntityModel>, e: u64)
    requires
        live(es, e),
    ensures
        0 <= idx_of(es, e) < es.len(),
        rec_of(es, e).id == e,
{
    lemma_idx_of_from_valid(es, e, 0);
}

/// Filtering by a predicate every entry satisfies keeps everything.
pub proof fn lemma_filter_all_keep(es: Seq<EntityModel>, pred: spec_fn(EntityModel) -> bool)
    requires
        forall|i: int| 0 <= i < es.len() ==> pred(#[trigger] es[i]),
    ensures
        es.filter(pred) == es,
    decreases es.len(),
{
    reveal(Seq::filter);
    if es.len() > 0 {
        assert(forall|i: int|
            0 <= i < es.drop_last().len() ==> #[trigger] es.drop_last()[i] == es[i]);
        lemma_filter_all_keep(es.drop_last(), pred);
        assert(es.filter(pred) =~= es);
    } else {
        assert(es.filter(pred) =~= es);
    }
}

/// Filtering by a predicate no entry satisfies keeps nothing.
pub proof fn lemma_filter_none_keep(es: Seq<EntityModel>, pred: spec_fn(EntityModel) -> bool)
    requires
        forall|i: int| 0 <= i < es.len() ==> !pred(#[trigger] es[i]),
    ensures
        es.filter(pred) == Seq::<EntityModel>::empty(),
    decreases es.len(),
{
    reveal(Seq::filter);
    if es.len() > 0 {
        assert(forall|i: int|
            0 <= i < es.drop_last().len() ==> #[trigger] es.drop_last()[i] == es[i]);
        lemma_filter_none_keep(es.drop_last(), pred);
    } else {
        assert(es.filter(pred) =~= Seq::<EntityModel>::empty());
    }
}

/// Filtering keeps the relative order of what it keeps: any two entries of
/// the filtered sequence appear in the original in the same order.
pub proof fn lemma_filter_ordered(
    es: Seq<EntityModel>,
    pred: spec_fn(EntityModel) -> bool,
    k1: int,
    k2: int,
)
    requires
        forall|i: int, j: int|
            0 <= i < j < es.len() ==> (#[trigger] es[i]).id < (#[trigger] es[j]).id,
        0 <= k1 < k2 < es.filter(pred).len(),
    ensures
        es.filter(pred)[k1].id < es.filter(pred)[k2].id,
    decreases es.len(),
{
    reveal(Seq::filter);
    if es.len() > 0 {
        let prev = es.drop_last();
        if pred(es.last()) {
            if k2 < es.filter(pred).len() - 1 {
                lemma_filter_ordered(prev, pred, k1, k2);
            } else {
                // es.filter(pred)[k2] == es.last(); the k1 entry comes from prev
                lemma_filter_entry_is_member(prev, pred, k1);
                let j = choose|j: int|
                    0 <= j < prev.len() && prev[j] == prev.filter(pred)[k1] && prev[j].id
                        == prev.filter(pred)[k1].id;
                assert(es[j].id < es[es.len() - 1].id);
            }
        } else {
            lemma_filter_ordered(prev, pred, k1, k2);
        }
    }
}

/// Every entry of a filtered sequence is an entry of the original.
pub proof fn lemma_filter_entry_is_member(
    es: Seq<EntityModel>,
    pred: spec_fn(EntityModel) -> bool,
    k: int,
)
    requires
        0 <= k < es.filter(pred).len(),
    ensures
        exists|j: int|
            0 <= j < es.len() && es[j] == es.filter(pred)[k] && es[j].id == es.filter(pred)[k].id,
    decreases es.len(),
{
    reveal(Seq::filter);
    if es.len() > 0 {
        let prev = es.drop_last();
        if pred(es.last()) && k == es.filter(pred).len() - 1 {
            assert(es[es.len() - 1] == es.filter(pred)[k]);
        } else {
            lemma_filter_entry_is_member(prev, pred, k);
            let j = choose|j: int|
                0 <= j < prev.len() && prev[j] == prev.filter(pred)[k] && prev[j].id
                    == prev.filter(pred)[k].id;
            assert(es[j] == es.filter(pred)[k]);
        }
    }
}

} // verus!
