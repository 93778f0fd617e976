//! The strokes drawn during a session, in the order in which they are rendered.

use vstd::prelude::*;
use crate::model::{AnnotationTool, Color, Point};

verus! {

/// A single stroke: the path of a pen, a highlighter or an eraser.
#[derive(Debug)]
pub struct Stroke {
    pub id: String,
    pub participant_id: String,
    pub tool: AnnotationTool,
    pub color: Color,
    pub points: Vec<Point>,
    pub completed: bool,
}

pub ghost struct StrokeView {
    pub id: Seq<char>,
    pub participant_id: Seq<char>,
    pub tool: AnnotationTool,
    pub color: Color,
    pub points: Seq<Point>,
    pub completed: bool,
}

impl View for Stroke {
    type V = StrokeView;

    open spec fn view(&self) -> StrokeView {
        StrokeView {
            id: self.id@,
            participant_id: self.participant_id@,
            tool: self.tool,
            color: self.color,
            points: self.points@,
            completed: self.completed,
        }
    }
}

impl DeepView for Stroke {
    type V = StrokeView;

    open spec fn deep_view(&self) -> StrokeView {
        self.view()
    }
}

impl StrokeView {
    /// A stroke that has just been started at `start_point`.
    pub open spec fn begun(
        id: Seq<char>,
        participant_id: Seq<char>,
        tool: AnnotationTool,
        color: Color,
        start_point: Point,
    ) -> StrokeView {
        StrokeView { id, participant_id, tool, color, points: seq![start_point], completed: false }
    }

    pub open spec fn extended(self, points: Seq<Point>) -> StrokeView {
        StrokeView { points: self.points + points, ..self }
    }

    pub open spec fn finished(self) -> StrokeView {
        StrokeView { completed: true, ..self }
    }
}

impl Stroke {
    pub fn new(
        id: String,
        participant_id: String,
        tool: AnnotationTool,
        color: Color,
        start_point: Point,
    ) -> (s: Self)
        ensures
            s@ == StrokeView::begun(id@, participant_id@, tool, color, start_point),
    {
        let mut points: Vec<Point> = Vec::new();
        points.push(start_point);
        assert(points@ =~= seq![start_point]);
        Stroke { id, participant_id, tool, color, points, completed: false }
    }

    /// Appends points to the stroke.
    pub fn add_points(&mut self, points: &[Point])
        ensures
            final(self)@ == old(self)@.extended(points@),
    {
        let mut i: usize = 0;
        while i < points.len()
            invariant
                i <= points.len(),
                self.points@ == old(self).points@ + points@.take(i as int),
                self.id == old(self).id,
                self.participant_id == old(self).participant_id,
                self.tool == old(self).tool,
                self.color == old(self).color,
                self.completed == old(self).completed,
            decreases points.len() - i,
        {
            self.points.push(points[i]);
            assert(points@.take(i + 1) =~= points@.take(i as int).push(points@[i as int]));
            i = i + 1;
        }
        assert(points@.take(i as int) =~= points@);
    }

    /// Marks the stroke as completed.
    pub fn complete(&mut self)
        ensures
            final(self)@ == old(self)@.finished(),
    {
        self.completed = true;
    }
}

/// Accepts every id but `id`.
pub open spec fn other_than(id: Seq<char>) -> spec_fn(Seq<char>) -> bool {
    |x: Seq<char>| x != id
}

/// The store as a map from id to stroke, with the ids in render order.
pub ghost struct StoreView {
    pub strokes: Map<Seq<char>, StrokeView>,
    pub order: Seq<Seq<char>>,
}

impl StoreView {
    /// The map and the render order hold the same ids, the render order
    /// holds each of them once, and each stroke is filed under its own id.
    pub open spec fn wf(self) -> bool {
        &&& self.strokes.dom().finite()
        &&& self.order.no_duplicates()
        &&& forall|k: int|
            0 <= k < self.order.len() ==> self.strokes.contains_key(#[trigger] self.order[k])
        &&& forall|id: Seq<char>| #[trigger]
            self.strokes.contains_key(id) ==> self.order.contains(id)
        &&& forall|id: Seq<char>| #[trigger]
            self.strokes.contains_key(id) ==> self.strokes[id].id == id
    }

    pub open spec fn empty() -> StoreView {
        StoreView { strokes: Map::empty(), order: Seq::empty() }
    }

    /// The store after `stroke` was started: a stroke of that id is gone
    /// from the store and from the render order, and the new stroke is filed
    /// under its id and comes last in the render order.
    pub open spec fn started(self, stroke: StrokeView) -> StoreView {
        StoreView {
            strokes: self.strokes.insert(stroke.id, stroke),
            order: self.order.filter(other_than(stroke.id)).push(stroke.id),
        }
    }

    /// The store after `points` were added to the stroke `id`; the store
    /// itself where it holds no such stroke.
    pub open spec fn updated(self, id: Seq<char>, points: Seq<Point>) -> StoreView {
        if self.strokes.contains_key(id) {
            StoreView { strokes: self.strokes.insert(id, self.strokes[id].extended(points)), ..self }
        } else {
            self
        }
    }

    /// The store after the stroke `id` was completed; the store itself where
    /// it holds no such stroke.
    pub open spec fn completed(self, id: Seq<char>) -> StoreView {
        if self.strokes.contains_key(id) {
            StoreView { strokes: self.strokes.insert(id, self.strokes[id].finished()), ..self }
        } else {
            self
        }
    }

    /// The store without the stroke `id`.
    pub open spec fn deleted(self, id: Seq<char>) -> StoreView {
        StoreView { strokes: self.strokes.remove(id), order: self.order.filter(other_than(id)) }
    }

    /// Whether the stroke `id` is not one of `participant_id`.
    pub open spec fn not_by(self, participant_id: Seq<char>) -> spec_fn(Seq<char>) -> bool {
        |id: Seq<char>|
            !(self.strokes.contains_key(id) && self.strokes[id].participant_id == participant_id)
    }

    /// The store without the strokes of `participant_id`.
    pub open spec fn without_participant(self, participant_id: Seq<char>) -> StoreView {
        StoreView {
            strokes: Map::new(
                |id: Seq<char>|
                    self.strokes.contains_key(id) && self.strokes[id].participant_id
                        != participant_id,
                |id: Seq<char>| self.strokes[id],
            ),
            order: self.order.filter(self.not_by(participant_id)),
        }
    }

    /// The strokes in render order.
    pub open spec fn rendered(self) -> Seq<StrokeView> {
        Seq::new(self.order.len(), |k: int| self.strokes[self.order[k]])
    }
}

/// In-memory annotation store.
pub struct AnnotationStore {
    strokes: Vec<Stroke>,
    /// Ids in render order, oldest first.
    stroke_order: Vec<String>,
}

spec fn distinct(strokes: Seq<Stroke>) -> bool {
    forall|i: int, j: int|
        0 <= i < j < strokes.len() ==> (#[trigger] strokes[i]).id@ != (#[trigger] strokes[j]).id@
}

spec fn holds(strokes: Seq<Stroke>, id: Seq<char>) -> bool {
    exists|i: int| 0 <= i < strokes.len() && (#[trigger] strokes[i]).id@ == id
}

spec fn place(strokes: Seq<Stroke>, id: Seq<char>) -> int {
    choose|i: int| 0 <= i < strokes.len() && (#[trigger] strokes[i]).id@ == id
}

spec fn stroke_map(strokes: Seq<Stroke>) -> Map<Seq<char>, StrokeView> {
    Map::new(|id: Seq<char>| holds(strokes, id), |id: Seq<char>| strokes[place(strokes, id)]@)
}

spec fn texts(items: Seq<String>) -> Seq<Seq<char>> {
    Seq::new(items.len(), |k: int| items[k]@)
}

/// `map` holds exactly the strokes of `strokes`, each under its id.
spec fn represents(strokes: Seq<Stroke>, map: Map<Seq<char>, StrokeView>) -> bool {
    &&& forall|i: int|
        0 <= i < strokes.len() ==> map.contains_key((#[trigger] strokes[i]).id@)
            && map[strokes[i].id@] == strokes[i]@
    &&& forall|id: Seq<char>| #[trigger] map.contains_key(id) ==> holds(strokes, id)
}

spec fn consistent(strokes: Seq<Stroke>, order: Seq<String>) -> bool {
    &&& distinct(strokes)
    &&& texts(order).no_duplicates()
    &&& forall|k: int| 0 <= k < order.len() ==> holds(strokes, (#[trigger] order[k])@)
    &&& forall|i: int|
        0 <= i < strokes.len() ==> texts(order).contains((#[trigger] strokes[i]).id@)
}

proof fn lemma_stroke_map(strokes: Seq<Stroke>)
    requires
        distinct(strokes),
    ensures
        represents(strokes, stroke_map(strokes)),
{
    let map = stroke_map(strokes);
    assert forall|i: int| 0 <= i < strokes.len() implies map.contains_key(
        (#[trigger] strokes[i]).id@,
    ) && map[strokes[i].id@] == strokes[i]@ by {
        assert(holds(strokes, strokes[i].id@));
        let j = place(strokes, strokes[i].id@);
        assert(strokes[j].id@ == strokes[i].id@);
        if j < i {
            assert(strokes[j].id@ != strokes[i].id@);
        } else if i < j {
            assert(strokes[i].id@ != strokes[j].id@);
        }
    }
}

proof fn lemma_represented_once(
    strokes: Seq<Stroke>,
    a: Map<Seq<char>, StrokeView>,
    b: Map<Seq<char>, StrokeView>,
)
    requires
        represents(strokes, a),
        represents(strokes, b),
    ensures
        a == b,
{
    assert forall|id: Seq<char>| a.contains_key(id) implies b.contains_key(id) && a[id] == b[id] by {
        let i = place(strokes, id);
        assert(strokes[i].id@ == id);
    }
    assert forall|id: Seq<char>| b.contains_key(id) implies a.contains_key(id) by {
        let i = place(strokes, id);
        assert(strokes[i].id@ == id);
    }
    assert(a =~= b);
}

/// The map of `strokes` is `map`, given that `map` holds exactly its strokes.
proof fn lemma_map_is(strokes: Seq<Stroke>, map: Map<Seq<char>, StrokeView>)
    requires
        distinct(strokes),
        represents(strokes, map),
    ensures
        stroke_map(strokes) == map,
{
    lemma_stroke_map(strokes);
    lemma_represented_once(strokes, stroke_map(strokes), map);
}

proof fn lemma_replace(strokes: Seq<Stroke>, i: int, stroke: Stroke)
    requires
        distinct(strokes),
        0 <= i < strokes.len(),
        strokes[i].id@ == stroke.id@,
    ensures
        distinct(strokes.update(i, stroke)),
        stroke_map(strokes.update(i, stroke)) == stroke_map(strokes).insert(stroke.id@, stroke@),
        forall|id: Seq<char>| holds(strokes, id) <==> holds(strokes.update(i, stroke), id),
{
    let after = strokes.update(i, stroke);
    let map = stroke_map(strokes).insert(stroke.id@, stroke@);
    lemma_stroke_map(strokes);
    assert forall|a: int, b: int| 0 <= a < b < after.len() implies (#[trigger] after[a]).id@ != (
    #[trigger] after[b]).id@ by {
        assert(strokes[a].id@ != strokes[b].id@);
    }
    assert forall|id: Seq<char>| holds(strokes, id) <==> holds(after, id) by {
        if holds(strokes, id) {
            let k = place(strokes, id);
            assert(after[k].id@ == id);
        }
        if holds(after, id) {
            let k = place(after, id);
            assert(strokes[k].id@ == id);
        }
    }
    assert forall|k: int| 0 <= k < after.len() implies map.contains_key((#[trigger] after[k]).id@)
        && map[after[k].id@] == after[k]@ by {
        if k != i {
            assert(after[k] == strokes[k]);
            if k < i {
                assert(strokes[k].id@ != strokes[i].id@);
            } else {
                assert(strokes[i].id@ != strokes[k].id@);
            }
        }
    }
    assert forall|id: Seq<char>| #[trigger] map.contains_key(id) implies holds(after, id) by {
        if id == stroke.id@ {
            assert(after[i].id@ == id);
        } else {
            assert(holds(strokes, id));
        }
    }
    lemma_map_is(after, map);
}

proof fn lemma_append(strokes: Seq<Stroke>, stroke: Stroke)
    requires
        distinct(strokes),
        !holds(strokes, stroke.id@),
    ensures
        distinct(strokes.push(stroke)),
        stroke_map(strokes.push(stroke)) == stroke_map(strokes).insert(stroke.id@, stroke@),
        forall|id: Seq<char>|
            holds(strokes.push(stroke), id) <==> (holds(strokes, id) || id == stroke.id@),
{
    let after = strokes.push(stroke);
    let map = stroke_map(strokes).insert(stroke.id@, stroke@);
    lemma_stroke_map(strokes);
    assert forall|a: int, b: int| 0 <= a < b < after.len() implies (#[trigger] after[a]).id@ != (
    #[trigger] after[b]).id@ by {
        if b < strokes.len() {
            assert(strokes[a].id@ != strokes[b].id@);
        } else {
            assert(strokes[a].id@ != stroke.id@);
        }
    }
    assert forall|id: Seq<char>| holds(after, id) <==> (holds(strokes, id) || id
        == stroke.id@) by {
        if holds(strokes, id) {
            let k = place(strokes, id);
            assert(after[k].id@ == id);
        }
        if id == stroke.id@ {
            assert(after[strokes.len() as int].id@ == id);
        }
        if holds(after, id) {
            let k = place(after, id);
            if k < strokes.len() {
                assert(strokes[k].id@ == id);
            }
        }
    }
    assert forall|k: int| 0 <= k < after.len() implies map.contains_key((#[trigger] after[k]).id@)
        && map[after[k].id@] == after[k]@ by {
        if k < strokes.len() {
            assert(after[k] == strokes[k]);
            assert(strokes[k].id@ != stroke.id@);
        }
    }
    assert forall|id: Seq<char>| #[trigger] map.contains_key(id) implies holds(after, id) by {}
    lemma_map_is(after, map);
}

proof fn lemma_remove(strokes: Seq<Stroke>, i: int)
    requires
        distinct(strokes),
        0 <= i < strokes.len(),
    ensures
        distinct(strokes.remove(i)),
        stroke_map(strokes.remove(i)) == stroke_map(strokes).remove(strokes[i].id@),
        forall|id: Seq<char>|
            holds(strokes.remove(i), id) <==> (holds(strokes, id) && id != strokes[i].id@),
{
    let after = strokes.remove(i);
    let gone = strokes[i].id@;
    let map = stroke_map(strokes).remove(gone);
    lemma_stroke_map(strokes);
    assert forall|k: int| 0 <= k < after.len() implies after[k] == strokes[if k < i {
        k
    } else {
        k + 1
    }] by {}
    assert forall|a: int, b: int| 0 <= a < b < after.len() implies (#[trigger] after[a]).id@ != (
    #[trigger] after[b]).id@ by {
        let a0 = if a < i {
            a
        } else {
            a + 1
        };
        let b0 = if b < i {
            b
        } else {
            b + 1
        };
        assert(strokes[a0].id@ != strokes[b0].id@);
    }
    assert forall|id: Seq<char>| holds(after, id) <==> (holds(strokes, id) && id != gone) by {
        if holds(strokes, id) && id != gone {
            let k = place(strokes, id);
            let k1 = if k < i {
                k
            } else {
                k - 1
            };
            assert(after[k1].id@ == id);
        }
        if holds(after, id) {
            let k = place(after, id);
            let k0 = if k < i {
                k
            } else {
                k + 1
            };
            assert(strokes[k0].id@ == id);
            if k0 < i {
                assert(strokes[k0].id@ != strokes[i].id@);
            } else {
                assert(strokes[i].id@ != strokes[k0].id@);
            }
        }
    }
    assert forall|k: int| 0 <= k < after.len() implies map.contains_key((#[trigger] after[k]).id@)
        && map[after[k].id@] == after[k]@ by {
        let k0 = if k < i {
            k
        } else {
            k + 1
        };
        assert(after[k] == strokes[k0]);
        assert(holds(after, after[k].id@));
    }
    assert forall|id: Seq<char>| #[trigger] map.contains_key(id) implies holds(after, id) by {}
    lemma_map_is(after, map);
}

/// A store whose strokes and order agree has a well-formed view.
proof fn lemma_wf(strokes: Seq<Stroke>, order: Seq<String>)
    requires
        consistent(strokes, order),
    ensures
        (StoreView { strokes: stroke_map(strokes), order: texts(order) }).wf(),
        stroke_map(strokes).dom().len() == strokes.len(),
        order.len() == strokes.len(),
{
    let ids = Seq::new(strokes.len(), |i: int| strokes[i].id@);
    let map = stroke_map(strokes);
    lemma_stroke_map(strokes);
    assert(ids.no_duplicates()) by {
        assert forall|i: int, j: int| 0 <= i < ids.len() && 0 <= j < ids.len() && i != j implies ids[i]
            != ids[j] by {
            if i < j {
                assert(strokes[i].id@ != strokes[j].id@);
            } else {
                assert(strokes[j].id@ != strokes[i].id@);
            }
        }
    }
    assert(map.dom() =~= ids.to_set()) by {
        assert forall|id: Seq<char>| map.dom().contains(id) <==> ids.to_set().contains(id) by {
            if map.dom().contains(id) {
                let i = place(strokes, id);
                assert(ids[i] == id);
            }
            if ids.to_set().contains(id) {
                let i = choose|i: int| 0 <= i < ids.len() && ids[i] == id;
                assert(strokes[i].id@ == id);
            }
        }
    }
    ids.unique_seq_to_set();
    vstd::seq_lib::seq_to_set_is_finite(ids);
    let view = StoreView { strokes: map, order: texts(order) };
    assert forall|k: int| 0 <= k < view.order.len() implies view.strokes.contains_key(
        #[trigger] view.order[k],
    ) by {
        assert(holds(strokes, order[k]@));
    }
    assert forall|id: Seq<char>| #[trigger] view.strokes.contains_key(id) implies view.order.contains(
        id,
    ) && view.strokes[id].id == id by {
        let i = place(strokes, id);
        assert(strokes[i].id@ == id);
        assert(texts(order).contains(strokes[i].id@));
    }
    assert(texts(order).to_set() =~= map.dom()) by {
        assert forall|id: Seq<char>| texts(order).to_set().contains(id) <==> map.dom().contains(
            id,
        ) by {
            if texts(order).to_set().contains(id) {
                let k = choose|k: int| 0 <= k < texts(order).len() && texts(order)[k] == id;
                assert(view.strokes.contains_key(view.order[k]));
            }
        }
    }
    texts(order).unique_seq_to_set();
}

/// Filtering a sequence without duplicates leaves none.
pub proof fn lemma_filter_keeps_distinct<A>(s: Seq<A>, pred: spec_fn(A) -> bool)
    requires
        s.no_duplicates(),
    ensures
        s.filter(pred).no_duplicates(),
    decreases s.len(),
{
    reveal(Seq::filter);
    if s.len() > 0 {
        let front = s.drop_last();
        lemma_filter_keeps_distinct(front, pred);
        if pred(s.last()) {
            let kept = front.filter(pred);
            let after = kept.push(s.last());
            assert forall|i: int, j: int|
                0 <= i < after.len() && 0 <= j < after.len() && i != j implies after[i]
                != after[j] by {
                if i < kept.len() && j < kept.len() {
                } else {
                    let k = if i < kept.len() {
                        i
                    } else {
                        j
                    };
                    assert(kept.contains(kept[k]));
                    front.lemma_filter_contains_rev(pred, kept[k]);
                    let m = choose|m: int| 0 <= m < front.len() && front[m] == kept[k];
                    assert(s[m] != s[s.len() - 1]);
                }
            }
        }
    }
}

impl View for AnnotationStore {
    type V = StoreView;

    closed spec fn view(&self) -> StoreView {
        StoreView { strokes: stroke_map(self.strokes@), order: texts(self.stroke_order@) }
    }
}

/// The first place in `strokes` of the stroke `key`.
fn position(strokes: &Vec<Stroke>, key: &String) -> (r: Option<usize>)
    ensures
        match r {
            Some(i) => i < strokes.len() && strokes[i as int].id@ == key@,
            None => !holds(strokes@, key@),
        },
{
    let mut i: usize = 0;
    while i < strokes.len()
        invariant
            i <= strokes.len(),
            forall|j: int| 0 <= j < i ==> (#[trigger] strokes[j]).id@ != key@,
        decreases strokes.len() - i,
    {
        if strokes[i].id == *key {
            return Some(i);
        }
        i = i + 1;
    }
    None
}

/// The ids of `order` that are not `key`, in their order.
fn order_without(order: &Vec<String>, key: &String) -> (kept: Vec<String>)
    ensures
        texts(kept@) == texts(order@).filter(other_than(key@)),
{
    let mut kept: Vec<String> = Vec::new();
    let mut k: usize = 0;
    assert(texts(order@).take(0) =~= Seq::<Seq<char>>::empty());
    proof {
        reveal(Seq::filter);
    }
    assert(texts(kept@) =~= texts(order@).take(0).filter(other_than(key@)));
    while k < order.len()
        invariant
            k <= order.len(),
            texts(kept@) == texts(order@).take(k as int).filter(other_than(key@)),
        decreases order.len() - k,
    {
        let ghost seen = texts(order@).take(k as int);
        proof {
            seen.lemma_filter_push(order[k as int]@, other_than(key@));
            assert(texts(order@).take(k + 1) =~= seen.push(order[k as int]@));
        }
        if order[k] != *key {
            let ghost before = texts(kept@);
            kept.push(order[k].clone());
            assert(texts(kept@) =~= before.push(order[k as int]@));
        }
        k = k + 1;
    }
    assert(texts(order@).take(k as int) =~= texts(order@));
    kept
}

/// Accepts the strokes that are not of `participant_id`.
spec fn by_other(participant_id: Seq<char>) -> spec_fn(Stroke) -> bool {
    |stroke: Stroke| stroke.participant_id@ != participant_id
}

/// Filtering keeps ids distinct.
proof fn lemma_filter_distinct(strokes: Seq<Stroke>, pred: spec_fn(Stroke) -> bool)
    requires
        distinct(strokes),
    ensures
        distinct(strokes.filter(pred)),
    decreases strokes.len(),
{
    reveal(Seq::filter);
    if strokes.len() > 0 {
        let front = strokes.drop_last();
        let kept = front.filter(pred);
        assert forall|i: int, j: int| 0 <= i < j < front.len() implies (#[trigger] front[i]).id@ != (
        #[trigger] front[j]).id@ by {
            assert(strokes[i].id@ != strokes[j].id@);
        }
        lemma_filter_distinct(front, pred);
        if pred(strokes.last()) {
            let after = kept.push(strokes.last());
            assert forall|a: int, b: int| 0 <= a < b < after.len() implies (#[trigger] after[a]).id@
                != (#[trigger] after[b]).id@ by {
                if b < kept.len() {
                    assert(kept[a].id@ != kept[b].id@);
                } else {
                    assert(kept.contains(kept[a]));
                    front.lemma_filter_contains_rev(pred, kept[a]);
                    let i = choose|i: int| 0 <= i < front.len() && front[i] == kept[a];
                    assert(strokes[i].id@ != strokes[strokes.len() - 1].id@);
                }
            }
        }
    }
}

/// What is left of `strokes` once those of `participant_id` are gone: the
/// other strokes, each still there once.
proof fn lemma_retained(strokes: Seq<Stroke>, participant_id: Seq<char>)
    requires
        distinct(strokes),
    ensures
        distinct(strokes.filter(by_other(participant_id))),
        forall|stroke: Stroke| #[trigger]
            strokes.filter(by_other(participant_id)).contains(stroke) <==> strokes.contains(stroke)
                && stroke.participant_id@ != participant_id,
{
    let pred = by_other(participant_id);
    let kept = strokes.filter(pred);
    lemma_filter_distinct(strokes, pred);
    assert forall|stroke: Stroke| #[trigger] kept.contains(stroke) <==> strokes.contains(stroke)
        && stroke.participant_id@ != participant_id by {
        if kept.contains(stroke) {
            strokes.lemma_filter_contains_rev(pred, stroke);
            let j = choose|j: int| 0 <= j < kept.len() && kept[j] == stroke;
            strokes.lemma_filter_pred(pred, j);
        }
        if strokes.contains(stroke) && stroke.participant_id@ != participant_id {
            let i = choose|i: int| 0 <= i < strokes.len() && strokes[i] == stroke;
            strokes.lemma_filter_contains(pred, i);
        }
    }
}

/// Drops the strokes of `owner` from `strokes`; the others keep their order.
fn retain_not_by(strokes: &mut Vec<Stroke>, owner: &String)
    ensures
        final(strokes)@ == old(strokes)@.filter(by_other(owner@)),
{
    let ghost before = strokes@;
    let ghost pred = by_other(owner@);
    let mut reversed: Vec<Stroke> = Vec::new();
    while strokes.len() > 0
        invariant
            strokes@ == before.take(strokes.len() as int),
            strokes.len() + reversed.len() == before.len(),
            forall|j: int|
                0 <= j < reversed.len() ==> reversed[j] == before[before.len() - 1 - j],
        decreases strokes.len(),
    {
        let ghost n = strokes.len() - 1;
        let stroke = strokes.pop().unwrap();
        assert(strokes@ =~= before.take(n));
        reversed.push(stroke);
    }
    proof {
        reveal(Seq::filter);
        assert(strokes@ =~= before.take(0).filter(pred));
    }
    while reversed.len() > 0
        invariant
            reversed.len() <= before.len(),
            pred == by_other(owner@),
            forall|j: int|
                0 <= j < reversed.len() ==> reversed[j] == before[before.len() - 1 - j],
            strokes@ == before.take(before.len() - reversed.len()).filter(pred),
        decreases reversed.len(),
    {
        let ghost done = before.len() - reversed.len();
        let ghost was = strokes@;
        let stroke = reversed.pop().unwrap();
        proof {
            assert(stroke == before[done]);
            before.take(done).lemma_filter_push(stroke, pred);
            assert(before.take(done + 1) =~= before.take(done).push(stroke));
        }
        if stroke.participant_id != *owner {
            strokes.push(stroke);
        }
    }
    assert(before.take(before.len() as int) =~= before);
}

impl AnnotationStore {
    /// The strokes have distinct ids, and the render order holds exactly
    /// those ids.
    pub closed spec fn wf(&self) -> bool {
        consistent(self.strokes@, self.stroke_order@)
    }

    /// An empty store.
    pub fn new() -> (s: Self)
        ensures
            s.wf(),
            s@ == StoreView::empty(),
            s@.wf(),
    {
        let s = AnnotationStore { strokes: Vec::new(), stroke_order: Vec::new() };
        proof {
            lemma_wf(s.strokes@, s.stroke_order@);
            assert(s@.strokes =~= Map::empty());
            assert(s@.order =~= Seq::empty());
        }
        s
    }

    /// Starts a stroke and appends it to the render order. A stroke of the
    /// same id is replaced: it leaves the store and its place in the order.
    pub fn start_stroke(
        &mut self,
        stroke_id: &str,
        participant_id: &str,
        tool: AnnotationTool,
        color: Color,
        start_point: Point,
    )
        requires
            old(self).wf(),
        ensures
            final(self).wf(),
            final(self)@ == old(self)@.started(
                StrokeView::begun(stroke_id@, participant_id@, tool, color, start_point),
            ),
            final(self)@.wf(),
    {
        self.delete_stroke(stroke_id);
        let key: String = stroke_id.to_owned();
        let stroke = Stroke::new(
            stroke_id.to_owned(),
            participant_id.to_owned(),
            tool,
            color,
            start_point,
        );
        let ghost before = self.strokes@;
        let ghost order_before = self.stroke_order@;
        proof {
            lemma_stroke_map(before);
            if holds(before, stroke_id@) {
                let i = place(before, stroke_id@);
                assert(stroke_map(before).contains_key(before[i].id@));
            }
            lemma_append(before, stroke);
        }
        self.strokes.push(stroke);
        self.stroke_order.push(key);
        proof {
            assert(texts(self.stroke_order@) =~= texts(order_before).push(stroke_id@));
            assert(texts(self.stroke_order@).last() == stroke_id@);
            assert forall|k: int| 0 <= k < order_before.len() implies texts(order_before)[k]
                != stroke_id@ by {
                assert(holds(before, order_before[k]@));
            }
            assert forall|k: int| 0 <= k < self.stroke_order.len() implies holds(
                self.strokes@,
                (#[trigger] self.stroke_order[k])@,
            ) by {
                if k < order_before.len() {
                    assert(holds(before, order_before[k]@));
                }
            }
            assert forall|i: int| 0 <= i < self.strokes.len() implies texts(
                self.stroke_order@,
            ).contains((#[trigger] self.strokes[i]).id@) by {
                let id = self.strokes[i].id@;
                assert(holds(self.strokes@, id));
                if id == stroke_id@ {
                    assert(texts(self.stroke_order@)[order_before.len() as int] == id);
                } else {
                    assert(holds(before, id));
                    let j = place(before, id);
                    assert(texts(order_before).contains(before[j].id@));
                    let k = choose|k: int|
                        0 <= k < texts(order_before).len() && texts(order_before)[k] == id;
                    assert(texts(self.stroke_order@)[k] == id);
                }
            }
            lemma_wf(self.strokes@, self.stroke_order@);
            assert(old(self)@.strokes.remove(stroke_id@).insert(stroke_id@, stroke@)
                =~= old(self)@.strokes.insert(stroke_id@, stroke@));
        }
    }

    /// Adds points to a stroke. Does nothing where the store holds no stroke
    /// of that id.
    pub fn update_stroke(&mut self, stroke_id: &str, points: &[Point])
        requires
            old(self).wf(),
        ensures
            final(self).wf(),
            final(self)@ == old(self)@.updated(stroke_id@, points@),
            final(self)@.wf(),
    {
        proof {
            lemma_stroke_map(self.strokes@);
        }
        let key: String = stroke_id.to_owned();
        let ghost before = self.strokes@;
        match position(&self.strokes, &key) {
            Some(i) => {
                let mut stroke = self.strokes.remove(i);
                stroke.add_points(points);
                self.strokes.insert(i, stroke);
                proof {
                    assert(self.strokes@ =~= before.update(i as int, stroke));
                    lemma_replace(before, i as int, stroke);
                    assert(holds(before, stroke_id@));
                }
            },
            None => {},
        }
        proof {
            lemma_wf(self.strokes@, self.stroke_order@);
        }
    }

    /// Marks a stroke as completed. Does nothing where the store holds no
    /// stroke of that id.
    pub fn complete_stroke(&mut self, stroke_id: &str)
        requires
            old(self).wf(),
        ensures
            final(self).wf(),
            final(self)@ == old(self)@.completed(stroke_id@),
            final(self)@.wf(),
    {
        proof {
            lemma_stroke_map(self.strokes@);
        }
        let key: String = stroke_id.to_owned();
        let ghost before = self.strokes@;
        match position(&self.strokes, &key) {
            Some(i) => {
                let mut stroke = self.strokes.remove(i);
                stroke.complete();
                self.strokes.insert(i, stroke);
                proof {
                    assert(self.strokes@ =~= before.update(i as int, stroke));
                    lemma_replace(before, i as int, stroke);
                    assert(holds(before, stroke_id@));
                }
            },
            None => {},
        }
        proof {
            lemma_wf(self.strokes@, self.stroke_order@);
        }
    }

    /// Removes a stroke from the store and from the render order.
    pub fn delete_stroke(&mut self, stroke_id: &str)
        requires
            old(self).wf(),
        ensures
            final(self).wf(),
            final(self)@ == old(self)@.deleted(stroke_id@),
            final(self)@.wf(),
    {
        proof {
            lemma_stroke_map(self.strokes@);
        }
        let key: String = stroke_id.to_owned();
        let ghost before = self.strokes@;
        let ghost order_before = self.stroke_order@;
        let kept = order_without(&self.stroke_order, &key);
        match position(&self.strokes, &key) {
            Some(i) => {
                let _gone = self.strokes.remove(i);
                proof {
                    lemma_remove(before, i as int);
                }
            },
            None => {
                proof {
                    assert(stroke_map(before).remove(stroke_id@) =~= stroke_map(before));
                }
            },
        }
        self.stroke_order = kept;
        proof {
            let pred = other_than(stroke_id@);
            assert forall|id: Seq<char>| holds(self.strokes@, id) <==> (holds(before, id) && id
                != stroke_id@) by {}
            assert forall|k: int| 0 <= k < self.stroke_order.len() implies holds(
                self.strokes@,
                (#[trigger] self.stroke_order[k])@,
            ) by {
                let id = texts(self.stroke_order@)[k];
                texts(order_before).lemma_filter_contains_rev(pred, id);
                texts(order_before).lemma_filter_pred(pred, k);
                let j = choose|j: int|
                    0 <= j < texts(order_before).len() && texts(order_before)[j] == id;
                assert(holds(before, order_before[j]@));
            }
            assert forall|i: int| 0 <= i < self.strokes.len() implies texts(
                self.stroke_order@,
            ).contains((#[trigger] self.strokes[i]).id@) by {
                let id = self.strokes[i].id@;
                assert(holds(self.strokes@, id));
                let j = place(before, id);
                assert(texts(order_before).contains(before[j].id@));
                let k = choose|k: int|
                    0 <= k < texts(order_before).len() && texts(order_before)[k] == id;
                texts(order_before).lemma_filter_contains(pred, k);
            }
            lemma_filter_keeps_distinct(texts(order_before), pred);
            lemma_wf(self.strokes@, self.stroke_order@);
        }
    }

    /// Removes every stroke.
    pub fn clear_all(&mut self)
        ensures
            final(self).wf(),
            final(self)@ == StoreView::empty(),
            final(self)@.wf(),
    {
        self.strokes.clear();
        self.stroke_order.clear();
        proof {
            lemma_wf(self.strokes@, self.stroke_order@);
            assert(self@.strokes =~= Map::empty());
            assert(self@.order =~= Seq::empty());
        }
    }

    /// The number of strokes in the store.
    pub fn len(&self) -> (n: usize)
        requires
            self.wf(),
        ensures
            n == self@.strokes.dom().len(),
            n == self@.order.len(),
            self@.wf(),
    {
        proof {
            lemma_wf(self.strokes@, self.stroke_order@);
        }
        self.strokes.len()
    }

    /// Whether the store holds no stroke.
    pub fn is_empty(&self) -> (b: bool)
        requires
            self.wf(),
        ensures
            b <==> self@.strokes.dom().len() == 0,
            b <==> self@.strokes == Map::<Seq<char>, StrokeView>::empty(),
            self@.wf(),
    {
        proof {
            lemma_wf(self.strokes@, self.stroke_order@);
            if self.strokes.len() == 0 {
                assert(self@.strokes =~= Map::empty());
            } else {
                assert(holds(self.strokes@, self.strokes[0].id@));
            }
        }
        self.strokes.len() == 0
    }

    /// The stroke of the given id.
    pub fn get(&self, stroke_id: &str) -> (r: Option<&Stroke>)
        requires
            self.wf(),
        ensures
            r is Some <==> self@.strokes.contains_key(stroke_id@),
            r matches Some(stroke) ==> stroke@ == self@.strokes[stroke_id@],
            self@.wf(),
    {
        proof {
            lemma_stroke_map(self.strokes@);
            lemma_wf(self.strokes@, self.stroke_order@);
        }
        let key: String = stroke_id.to_owned();
        match position(&self.strokes, &key) {
            Some(i) => Some(&self.strokes[i]),
            None => None,
        }
    }

    /// All strokes in render order.
    pub fn strokes(&self) -> (r: Vec<&Stroke>)
        requires
            self.wf(),
        ensures
            r.len() == self@.order.len(),
            forall|k: int| 0 <= k < r.len() ==> (#[trigger] r[k])@ == self@.rendered()[k],
            self@.wf(),
    {
        proof {
            lemma_stroke_map(self.strokes@);
            lemma_wf(self.strokes@, self.stroke_order@);
        }
        let mut out: Vec<&Stroke> = Vec::new();
        let mut k: usize = 0;
        while k < self.stroke_order.len()
            invariant
                k <= self.stroke_order.len(),
                out.len() == k,
                consistent(self.strokes@, self.stroke_order@),
                represents(self.strokes@, stroke_map(self.strokes@)),
                forall|j: int|
                    0 <= j < k ==> (#[trigger] out[j])@ == stroke_map(self.strokes@)[self.stroke_order[j]@],
            decreases self.stroke_order.len() - k,
        {
            proof {
                assert(holds(self.strokes@, self.stroke_order[k as int]@));
            }
            match position(&self.strokes, &self.stroke_order[k]) {
                Some(i) => {
                    out.push(&self.strokes[i]);
                },
                None => {},
            }
            k = k + 1;
        }
        out
    }

    /// Removes every stroke of the given participant, and no other.
    pub fn delete_by_participant(&mut self, participant_id: &str)
        requires
            old(self).wf(),
        ensures
            final(self).wf(),
            final(self)@ == old(self)@.without_participant(participant_id@),
            final(self)@.wf(),
    {
        proof {
            lemma_stroke_map(self.strokes@);
        }
        let owner: String = participant_id.to_owned();
        let ghost before = self.strokes@;
        let ghost order_before = self.stroke_order@;
        let ghost view_before = self@;
        let ghost pred = view_before.not_by(participant_id@);
        // The render order first, while every id still finds its stroke.
        let mut kept_order: Vec<String> = Vec::new();
        let mut k: usize = 0;
        proof {
            reveal(Seq::filter);
            assert(texts(order_before).take(0) =~= Seq::<Seq<char>>::empty());
            assert(texts(kept_order@) =~= texts(order_before).take(0).filter(pred));
        }
        while k < self.stroke_order.len()
            invariant
                k <= self.stroke_order.len(),
                self.strokes@ == before,
                self.stroke_order@ == order_before,
                owner@ == participant_id@,
                consistent(before, order_before),
                represents(before, stroke_map(before)),
                view_before.strokes == stroke_map(before),
                pred == view_before.not_by(participant_id@),
                texts(kept_order@) == texts(order_before).take(k as int).filter(pred),
            decreases self.stroke_order.len() - k,
        {
            let ghost seen = texts(order_before).take(k as int);
            proof {
                seen.lemma_filter_push(order_before[k as int]@, pred);
                assert(texts(order_before).take(k + 1) =~= seen.push(order_before[k as int]@));
                assert(holds(before, order_before[k as int]@));
            }
            match position(&self.strokes, &self.stroke_order[k]) {
                Some(i) => {
                    if self.strokes[i].participant_id != owner {
                        let ghost was = texts(kept_order@);
                        kept_order.push(self.stroke_order[k].clone());
                        assert(texts(kept_order@) =~= was.push(order_before[k as int]@));
                    }
                },
                None => {},
            }
            k = k + 1;
        }
        assert(texts(order_before).take(k as int) =~= texts(order_before));
        // Then the strokes themselves.
        retain_not_by(&mut self.strokes, &owner);
        self.stroke_order = kept_order;
        proof {
            let after = self.strokes@;
            let expected = view_before.without_participant(participant_id@);
            lemma_retained(before, participant_id@);
            assert forall|i: int| 0 <= i < after.len() implies expected.strokes.contains_key(
                (#[trigger] after[i]).id@,
            ) && expected.strokes[after[i].id@] == after[i]@ by {
                assert(after.contains(after[i]));
                let i0 = choose|i0: int| 0 <= i0 < before.len() && before[i0] == after[i];
                assert(stroke_map(before)[before[i0].id@] == before[i0]@);
            }
            assert forall|id: Seq<char>| #[trigger]
                expected.strokes.contains_key(id) implies holds(after, id) by {
                let i0 = place(before, id);
                assert(stroke_map(before)[before[i0].id@] == before[i0]@);
                assert(before.contains(before[i0]));
                assert(before[i0].participant_id@ != participant_id@);
                assert(after.contains(before[i0]));
                let j = choose|j: int| 0 <= j < after.len() && after[j] == before[i0];
                assert(after[j].id@ == id);
            }
            lemma_map_is(after, expected.strokes);
            assert forall|k: int| 0 <= k < self.stroke_order.len() implies holds(
                after,
                (#[trigger] self.stroke_order[k])@,
            ) by {
                let id = texts(self.stroke_order@)[k];
                texts(order_before).lemma_filter_contains_rev(pred, id);
                texts(order_before).lemma_filter_pred(pred, k);
                let j = choose|j: int|
                    0 <= j < texts(order_before).len() && texts(order_before)[j] == id;
                assert(holds(before, order_before[j]@));
                assert(expected.strokes.contains_key(id));
            }
            assert forall|i: int| 0 <= i < after.len() implies texts(self.stroke_order@).contains(
                (#[trigger] after[i]).id@,
            ) by {
                let id = after[i].id@;
                assert(expected.strokes.contains_key(id));
                let j = place(before, id);
                assert(texts(order_before).contains(before[j].id@));
                let k = choose|k: int|
                    0 <= k < texts(order_before).len() && texts(order_before)[k] == id;
                texts(order_before).lemma_filter_contains(pred, k);
            }
            lemma_filter_keeps_distinct(texts(order_before), pred);
            lemma_wf(self.strokes@, self.stroke_order@);
        }
    }
}

impl Default for AnnotationStore {
    fn default() -> (s: Self)
        ensures
            s.wf(),
            s@ == StoreView::empty(),
    {
        AnnotationStore::new()
    }
}

} // verus!
