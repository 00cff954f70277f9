//! An abstract model of what the synthesized DDL does to the database.
//!
//! The database schema is modelled as the set of generated object names that
//! exist: each track table contributes its tracking table, trigger function
//! and trigger, and every generated statement either tears those three down
//! (each guarded by `IF EXISTS`, so absent objects are ignored) or drops and
//! recreates them. The laws below state the round-trip guarantees of the
//! teardown/create statement families and the fold semantics of draining the
//! operation queue front to back, one transaction per operation.

use vstd::prelude::*;

use crate::tracktable::TrackTableView;
use crate::tracktable::spec_func_name;
use crate::tracktable::spec_table_name;
use crate::tracktable::spec_trigger_name;
use crate::workspace::OperationView;

verus! {

/// The schema after the teardown batch of `t` ran: none of `t`'s generated
/// objects remain; nothing else is touched.
pub open spec fn apply_teardown(s: Set<Seq<char>>, t: TrackTableView) -> Set<Seq<char>> {
    s.remove(spec_table_name(t.name)).remove(spec_func_name(t.name)).remove(
        spec_trigger_name(t.name),
    )
}

/// The schema after the create (or recreate) statements of `t` ran: the old
/// objects are dropped and all three are created anew.
pub open spec fn apply_create(s: Set<Seq<char>>, t: TrackTableView) -> Set<Seq<char>> {
    apply_teardown(s, t).insert(spec_table_name(t.name)).insert(spec_func_name(t.name)).insert(
        spec_trigger_name(t.name),
    )
}

/// The schema after one queued operation's transaction committed. Create and
/// Update both drop and recreate (shapes are never altered in place); Delete
/// tears down.
pub open spec fn apply_op(s: Set<Seq<char>>, op: OperationView) -> Set<Seq<char>> {
    match op {
        OperationView::Create(t) => apply_create(s, t),
        OperationView::Update(t) => apply_create(s, t),
        OperationView::Delete(t) => apply_teardown(s, t),
    }
}

/// The schema after a queue of operations was drained front to back.
pub open spec fn apply_ops(s: Set<Seq<char>>, ops: Seq<OperationView>) -> Set<Seq<char>>
    decreases ops.len(),
{
    if ops.len() == 0 {
        s
    } else {
        apply_ops(apply_op(s, ops[0]), ops.drop_first())
    }
}

/// No generated object of `t` exists in the schema.
pub open spec fn no_trace(s: Set<Seq<char>>, t: TrackTableView) -> bool {
    &&& !s.contains(spec_table_name(t.name))
    &&& !s.contains(spec_func_name(t.name))
    &&& !s.contains(spec_trigger_name(t.name))
}

/// Teardown leaves no trace of `t`'s generated objects, whatever the schema
/// held before — in particular whether or not `t` was ever created.
pub proof fn lemma_teardown_leaves_no_trace(s: Set<Seq<char>>, t: TrackTableView)
    ensures
        no_trace(apply_teardown(s, t), t),
{
}

/// Create followed by teardown restores exactly what teardown alone would
/// leave: the round trip deposits nothing.
pub proof fn lemma_teardown_after_create(s: Set<Seq<char>>, t: TrackTableView)
    ensures
        apply_teardown(apply_create(s, t), t) == apply_teardown(s, t),
{
    assert(apply_teardown(apply_create(s, t), t) =~= apply_teardown(s, t));
}

/// Teardown is idempotent: running the drop batch a second time is a no-op.
pub proof fn lemma_teardown_idempotent(s: Set<Seq<char>>, t: TrackTableView)
    ensures
        apply_teardown(apply_teardown(s, t), t) == apply_teardown(s, t),
{
    assert(apply_teardown(apply_teardown(s, t), t) =~= apply_teardown(s, t));
}

/// Draining a queue is the composition of draining its parts in order: the
/// operations enqueued first act on the schema first.
pub proof fn lemma_apply_ops_append(s: Set<Seq<char>>, a: Seq<OperationView>, b: Seq<OperationView>)
    ensures
        apply_ops(s, a + b) == apply_ops(apply_ops(s, a), b),
    decreases a.len(),
{
    if a.len() == 0 {
        assert(a + b =~= b);
    } else {
        assert((a + b)[0] == a[0]);
        assert((a + b).drop_first() =~= a.drop_first() + b);
        lemma_apply_ops_append(apply_op(s, a[0]), a.drop_first(), b);
    }
}

/// A queue that creates, reshapes and finally deletes the same definition
/// leaves no trace of its generated objects, whatever the schema held before.
pub proof fn lemma_create_update_delete(s: Set<Seq<char>>, t: TrackTableView)
    ensures
        no_trace(
            apply_ops(
                s,
                seq![OperationView::Create(t), OperationView::Update(t), OperationView::Delete(t)],
            ),
            t,
        ),
{
    let ops = seq![
        OperationView::Create(t),
        OperationView::Update(t),
        OperationView::Delete(t),
    ];
    let rest1 = ops.drop_first();
    let rest2 = rest1.drop_first();
    let rest3 = rest2.drop_first();
    assert(ops[0] == OperationView::Create(t));
    assert(rest1[0] == OperationView::Update(t));
    assert(rest2[0] == OperationView::Delete(t));
    assert(rest3 =~= Seq::<OperationView>::empty());
    let s1 = apply_op(s, ops[0]);
    let s2 = apply_op(s1, rest1[0]);
    let s3 = apply_op(s2, rest2[0]);
    assert(apply_ops(s, ops) == apply_ops(s1, rest1));
    assert(apply_ops(s1, rest1) == apply_ops(s2, rest2));
    assert(apply_ops(s2, rest2) == apply_ops(s3, rest3));
    assert(apply_ops(s3, rest3) == s3);
    assert(s3 == apply_teardown(s2, t));
    lemma_teardown_leaves_no_trace(s2, t);
}

} // verus!
