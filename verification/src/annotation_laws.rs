//! What holds of the annotation store after any sequence of operations.

use vstd::prelude::*;
use crate::annotation::{lemma_filter_keeps_distinct, other_than, StoreView, StrokeView};
use crate::model::{AnnotationTool, Color, Point};

verus! {

/// One operation on the store.
pub ghost enum StoreOp {
    Start {
        id: Seq<char>,
        participant_id: Seq<char>,
        tool: AnnotationTool,
        color: Color,
        start_point: Point,
    },
    Update { id: Seq<char>, points: Seq<Point> },
    Complete { id: Seq<char> },
    Delete { id: Seq<char> },
    ClearAll,
    DeleteByParticipant { participant_id: Seq<char> },
}

impl StoreView {
    /// The store after one operation.
    pub open spec fn after_op(self, op: StoreOp) -> StoreView {
        match op {
            StoreOp::Start { id, participant_id, tool, color, start_point } => self.started(
                StrokeView::begun(id, participant_id, tool, color, start_point),
            ),
            StoreOp::Update { id, points } => self.updated(id, points),
            StoreOp::Complete { id } => self.completed(id),
            StoreOp::Delete { id } => self.deleted(id),
            StoreOp::ClearAll => StoreView::empty(),
            StoreOp::DeleteByParticipant { participant_id } => self.without_participant(
                participant_id,
            ),
        }
    }

    /// The store after a sequence of operations.
    pub open spec fn after_ops(self, ops: Seq<StoreOp>) -> StoreView
        decreases ops.len(),
    {
        if ops.len() == 0 {
            self
        } else {
            self.after_ops(ops.drop_last()).after_op(ops.last())
        }
    }
}

/// The participant who last started a stroke under `id`.
pub open spec fn latest_author(ops: Seq<StoreOp>, id: Seq<char>) -> Seq<char>
    decreases ops.len(),
{
    if ops.len() == 0 {
        Seq::empty()
    } else {
        match ops.last() {
            StoreOp::Start { id: started, participant_id, .. } => if started == id {
                participant_id
            } else {
                latest_author(ops.drop_last(), id)
            },
            _ => latest_author(ops.drop_last(), id),
        }
    }
}

/// Accepts the ids whose stroke was last started by someone other than
/// `participant_id`.
pub open spec fn started_by_other(ops: Seq<StoreOp>, participant_id: Seq<char>) -> spec_fn(
    Seq<char>,
) -> bool {
    |id: Seq<char>| latest_author(ops, id) != participant_id
}

/// The ids in the order in which their strokes were started, less those that
/// were deleted afterwards: kept by hand, without a store. Starting a stroke
/// under an id that is in use deletes the stroke that had it.
pub open spec fn insertions_less_deletions(ops: Seq<StoreOp>) -> Seq<Seq<char>>
    decreases ops.len(),
{
    if ops.len() == 0 {
        Seq::empty()
    } else {
        let earlier = insertions_less_deletions(ops.drop_last());
        match ops.last() {
            StoreOp::Start { id, .. } => earlier.filter(other_than(id)).push(id),
            StoreOp::Delete { id } => earlier.filter(other_than(id)),
            StoreOp::ClearAll => Seq::empty(),
            StoreOp::DeleteByParticipant { participant_id } => earlier.filter(
                started_by_other(ops.drop_last(), participant_id),
            ),
            _ => earlier,
        }
    }
}

proof fn lemma_filter_agree<A>(s: Seq<A>, p: spec_fn(A) -> bool, q: spec_fn(A) -> bool)
    requires
        forall|i: int| 0 <= i < s.len() ==> p(#[trigger] s[i]) == q(s[i]),
    ensures
        s.filter(p) == s.filter(q),
    decreases s.len(),
{
    reveal(Seq::filter);
    if s.len() > 0 {
        let front = s.drop_last();
        assert forall|i: int| 0 <= i < front.len() implies p(#[trigger] front[i]) == q(front[i]) by {
            assert(front[i] == s[i]);
        }
        lemma_filter_agree(front, p, q);
    }
}

/// Every operation keeps the store well formed: the map and the render
/// order go on holding the same ids.
pub proof fn lemma_op_keeps_wf(store: StoreView, op: StoreOp)
    requires
        store.wf(),
    ensures
        store.after_op(op).wf(),
{
    let after = store.after_op(op);
    match op {
        StoreOp::Start { id, participant_id, tool, color, start_point } => {
            let pred = other_than(id);
            let kept = store.order.filter(pred);
            lemma_filter_keeps_distinct(store.order, pred);
            assert forall|k: int| 0 <= k < kept.len() implies kept[k] != id
                && store.strokes.contains_key(kept[k]) by {
                store.order.lemma_filter_pred(pred, k);
                assert(kept.contains(kept[k]));
                store.order.lemma_filter_contains_rev(pred, kept[k]);
            }
            assert forall|k: int| 0 <= k < after.order.len() implies after.strokes.contains_key(
                #[trigger] after.order[k],
            ) by {}
            assert forall|x: Seq<char>| #[trigger]
                after.strokes.contains_key(x) implies after.order.contains(x) by {
                if x == id {
                    assert(after.order[kept.len() as int] == x);
                } else {
                    assert(store.order.contains(x));
                    let k = choose|k: int| 0 <= k < store.order.len() && store.order[k] == x;
                    store.order.lemma_filter_contains(pred, k);
                    let j = choose|j: int| 0 <= j < kept.len() && kept[j] == x;
                    assert(after.order[j] == x);
                }
            }
        },
        StoreOp::Update { id, points } => {},
        StoreOp::Complete { id } => {},
        StoreOp::Delete { id } => {
            let pred = other_than(id);
            lemma_filter_keeps_distinct(store.order, pred);
            assert forall|k: int| 0 <= k < after.order.len() implies after.strokes.contains_key(
                #[trigger] after.order[k],
            ) by {
                store.order.lemma_filter_pred(pred, k);
                assert(after.order.contains(after.order[k]));
                store.order.lemma_filter_contains_rev(pred, after.order[k]);
            }
            assert forall|x: Seq<char>| #[trigger]
                after.strokes.contains_key(x) implies after.order.contains(x) by {
                assert(store.order.contains(x));
                let k = choose|k: int| 0 <= k < store.order.len() && store.order[k] == x;
                store.order.lemma_filter_contains(pred, k);
            }
        },
        StoreOp::ClearAll => {},
        StoreOp::DeleteByParticipant { participant_id } => {
            let pred = store.not_by(participant_id);
            lemma_filter_keeps_distinct(store.order, pred);
            assert(after.strokes.dom().subset_of(store.strokes.dom()));
            vstd::set_lib::lemma_len_subset(after.strokes.dom(), store.strokes.dom());
            assert forall|k: int| 0 <= k < after.order.len() implies after.strokes.contains_key(
                #[trigger] after.order[k],
            ) by {
                store.order.lemma_filter_pred(pred, k);
                assert(after.order.contains(after.order[k]));
                store.order.lemma_filter_contains_rev(pred, after.order[k]);
            }
            assert forall|x: Seq<char>| #[trigger]
                after.strokes.contains_key(x) implies after.order.contains(x) by {
                assert(store.order.contains(x));
                let k = choose|k: int| 0 <= k < store.order.len() && store.order[k] == x;
                store.order.lemma_filter_contains(pred, k);
            }
        },
    }
}

/// After any sequence of operations on an empty store, the render order is
/// the order in which the strokes were started, less the deletions; and each
/// stroke in the store belongs to the participant who last started it.
pub proof fn lemma_render_order_is_insertion_order(ops: Seq<StoreOp>)
    ensures
        StoreView::empty().after_ops(ops).wf(),
        StoreView::empty().after_ops(ops).order == insertions_less_deletions(ops),
        forall|id: Seq<char>| #[trigger]
            StoreView::empty().after_ops(ops).strokes.contains_key(id)
                ==> StoreView::empty().after_ops(ops).strokes[id].participant_id == latest_author(
                ops,
                id,
            ),
    decreases ops.len(),
{
    if ops.len() > 0 {
        let front = ops.drop_last();
        let before = StoreView::empty().after_ops(front);
        lemma_render_order_is_insertion_order(front);
        lemma_op_keeps_wf(before, ops.last());
        match ops.last() {
            StoreOp::DeleteByParticipant { participant_id } => {
                lemma_filter_agree(
                    before.order,
                    before.not_by(participant_id),
                    started_by_other(front, participant_id),
                );
            },
            _ => {},
        }
    }
}

/// Deleting by participant removes exactly the strokes of that participant:
/// every other stroke stays as it was, and none of that participant is left.
pub proof fn lemma_delete_by_participant_is_exact(store: StoreView, participant_id: Seq<char>)
    requires
        store.wf(),
    ensures
        forall|id: Seq<char>| #[trigger]
            store.without_participant(participant_id).strokes.contains_key(id) <==> (
            store.strokes.contains_key(id) && store.strokes[id].participant_id != participant_id),
        forall|id: Seq<char>| #[trigger]
            store.without_participant(participant_id).strokes.contains_key(id)
                ==> store.without_participant(participant_id).strokes[id] == store.strokes[id],
        forall|k: int|
            0 <= k < store.without_participant(participant_id).order.len() ==> (
            #[trigger] store.without_participant(participant_id).rendered()[k]).participant_id
                != participant_id,
{
    let after = store.without_participant(participant_id);
    let pred = store.not_by(participant_id);
    assert forall|k: int| 0 <= k < after.order.len() implies (
    #[trigger] after.rendered()[k]).participant_id != participant_id by {
        store.order.lemma_filter_pred(pred, k);
        assert(after.order.contains(after.order[k]));
        store.order.lemma_filter_contains_rev(pred, after.order[k]);
    }
}

/// Updating or completing a stroke never changes which ids the store holds;
/// for an id that the store does not hold, it changes nothing at all.
pub proof fn lemma_update_keeps_size(store: StoreView, id: Seq<char>, points: Seq<Point>)
    ensures
        store.updated(id, points).strokes.dom() == store.strokes.dom(),
        store.updated(id, points).order == store.order,
        store.completed(id).strokes.dom() == store.strokes.dom(),
        !store.strokes.contains_key(id) ==> store.updated(id, points) == store,
        !store.strokes.contains_key(id) ==> store.completed(id) == store,
{
    assert(store.updated(id, points).strokes.dom() =~= store.strokes.dom());
    assert(store.completed(id).strokes.dom() =~= store.strokes.dom());
}

/// Accepts the strokes of `participant_id`.
pub open spec fn by_author(participant_id: Seq<char>) -> spec_fn(StrokeView) -> bool {
    |stroke: StrokeView| stroke.participant_id == participant_id
}

/// Accepts the strokes that are not of `participant_id`.
pub open spec fn by_others(participant_id: Seq<char>) -> spec_fn(StrokeView) -> bool {
    |stroke: StrokeView| stroke.participant_id != participant_id
}

/// The stroke filed under an id.
pub open spec fn filed(strokes: Map<Seq<char>, StrokeView>) -> spec_fn(Seq<char>) -> StrokeView {
    |id: Seq<char>| strokes[id]
}

proof fn lemma_filter_through_lookup(
    ids: Seq<Seq<char>>,
    strokes: Map<Seq<char>, StrokeView>,
    on_ids: spec_fn(Seq<char>) -> bool,
    on_strokes: spec_fn(StrokeView) -> bool,
)
    requires
        forall|k: int| 0 <= k < ids.len() ==> on_ids(#[trigger] ids[k]) == on_strokes(strokes[ids[k]]),
    ensures
        ids.filter(on_ids).map_values(filed(strokes)) == ids.map_values(filed(strokes)).filter(
            on_strokes,
        ),
    decreases ids.len(),
{
    reveal(Seq::filter);
    let f = filed(strokes);
    if ids.len() > 0 {
        let front = ids.drop_last();
        let last = ids.last();
        assert forall|k: int| 0 <= k < front.len() implies on_ids(#[trigger] front[k])
            == on_strokes(strokes[front[k]]) by {
            assert(front[k] == ids[k]);
        }
        lemma_filter_through_lookup(front, strokes, on_ids, on_strokes);
        assert(ids.map_values(f) =~= front.map_values(f).push(f(last)));
        front.map_values(f).lemma_filter_push(f(last), on_strokes);
        assert(on_ids(ids[ids.len() - 1]) == on_strokes(strokes[last]));
        if on_ids(last) {
            assert(front.filter(on_ids).push(last).map_values(f) =~= front.filter(
                on_ids,
            ).map_values(f).push(f(last)));
        }
    } else {
        assert(ids.filter(on_ids).map_values(f) =~= ids.map_values(f).filter(on_strokes));
    }
}

proof fn lemma_filter_splits<A>(s: Seq<A>, p: spec_fn(A) -> bool, q: spec_fn(A) -> bool)
    requires
        forall|k: int| 0 <= k < s.len() ==> p(#[trigger] s[k]) != q(s[k]),
    ensures
        s.filter(p).len() + s.filter(q).len() == s.len(),
    decreases s.len(),
{
    reveal(Seq::filter);
    if s.len() > 0 {
        let front = s.drop_last();
        assert forall|k: int| 0 <= k < front.len() implies p(#[trigger] front[k]) != q(front[k]) by {
            assert(front[k] == s[k]);
        }
        lemma_filter_splits(front, p, q);
        assert(p(s[s.len() - 1]) != q(s[s.len() - 1]));
    }
}

/// A well-formed store holds as many strokes as it renders: each id stands
/// once in the render order.
pub proof fn lemma_size_is_render_length(store: StoreView)
    requires
        store.wf(),
    ensures
        store.strokes.dom().len() == store.order.len(),
        store.rendered().len() == store.order.len(),
{
    assert(store.order.to_set() =~= store.strokes.dom()) by {
        assert forall|id: Seq<char>| store.order.to_set().contains(id)
            <==> store.strokes.dom().contains(id) by {
            if store.order.to_set().contains(id) {
                let k = choose|k: int| 0 <= k < store.order.len() && store.order[k] == id;
                assert(store.strokes.contains_key(store.order[k]));
            }
            if store.strokes.contains_key(id) {
                assert(store.order.contains(id));
            }
        }
    }
    store.order.unique_seq_to_set();
}

/// Deleting by participant leaves the strokes of the others as they were
/// and in their order, and the store is smaller by the number of strokes of
/// that participant.
pub proof fn lemma_delete_by_participant_keeps_the_rest(
    store: StoreView,
    participant_id: Seq<char>,
)
    requires
        store.wf(),
    ensures
        store.without_participant(participant_id).rendered() == store.rendered().filter(
            by_others(participant_id),
        ),
        store.without_participant(participant_id).strokes.dom().len() == store.strokes.dom().len()
            - store.rendered().filter(by_author(participant_id)).len(),
{
    let after = store.without_participant(participant_id);
    let pred = store.not_by(participant_id);
    let f = filed(store.strokes);
    lemma_op_keeps_wf(store, StoreOp::DeleteByParticipant { participant_id });
    lemma_size_is_render_length(store);
    lemma_size_is_render_length(after);
    assert(store.rendered() =~= store.order.map_values(f));
    lemma_filter_through_lookup(store.order, store.strokes, pred, by_others(participant_id));
    assert(after.rendered() =~= after.order.map_values(f)) by {
        assert forall|k: int| 0 <= k < after.order.len() implies after.strokes[after.order[k]]
            == store.strokes[after.order[k]] by {
            assert(after.strokes.contains_key(after.order[k]));
        }
    }
    lemma_filter_splits(
        store.rendered(),
        by_others(participant_id),
        by_author(participant_id),
    );
}

} // verus!
