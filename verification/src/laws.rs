use vstd::prelude::*;
use crate::model::{
    add_effect, at_most_one_default, clear_defaults, no_default, set_default_effect, sole_default,
    KeyRow,
};

verus! {

/// One step over the key table, as the repository's operations change it:
/// an add under a fresh id, a default toggle, or a row deletion.
pub ghost enum KeyOp {
    Add { id: i64, name: Seq<char>, path: Seq<char>, is_default: bool, ts: Seq<char> },
    SetDefault { id: i64 },
    Delete { id: i64 },
}

/// The table after one repository step.
pub open spec fn apply_key_op(m: Map<i64, KeyRow>, op: KeyOp) -> Map<i64, KeyRow> {
    match op {
        KeyOp::Add { id, name, path, is_default, ts } => add_effect(
            m,
            id,
            name,
            path,
            is_default,
            ts,
        ),
        KeyOp::SetDefault { id } => set_default_effect(m, id),
        KeyOp::Delete { id } => m.remove(id),
    }
}

/// The table after a sequence of repository steps, first step first.
pub open spec fn apply_key_ops(m: Map<i64, KeyRow>, ops: Seq<KeyOp>) -> Map<i64, KeyRow>
    decreases ops.len(),
{
    if ops.len() == 0 {
        m
    } else {
        apply_key_ops(apply_key_op(m, ops[0]), ops.drop_first())
    }
}

/// Law: clearing the default flag leaves no row marked default and keeps
/// every row in place.
pub proof fn lemma_clear_defaults_no_default(m: Map<i64, KeyRow>)
    ensures
        no_default(clear_defaults(m)),
        clear_defaults(m).dom() == m.dom(),
{
    assert(clear_defaults(m).dom() =~= m.dom());
}

/// Law: marking a stored id as the default leaves exactly that id marked.
pub proof fn lemma_set_default_sole(m: Map<i64, KeyRow>, id: i64)
    requires
        m.dom().contains(id),
    ensures
        sole_default(set_default_effect(m, id), id),
{
    lemma_clear_defaults_no_default(m);
    let out = set_default_effect(m, id);
    assert forall|j: i64| out.dom().contains(j) && (#[trigger] out[j]).is_default implies j
        == id by {
        if j != id {
            assert(out[j] == clear_defaults(m)[j]);
        }
    }
}

/// Law: one repository step keeps the single-default invariant; an add that
/// asks for the default, or a default toggle on a stored id, leaves the new
/// row as the sole default.
pub proof fn lemma_step_single_default(m: Map<i64, KeyRow>, op: KeyOp)
    requires
        at_most_one_default(m),
    ensures
        at_most_one_default(apply_key_op(m, op)),
        op matches KeyOp::Add { id, is_default, .. } ==> (is_default ==> sole_default(
            apply_key_op(m, op),
            id,
        )),
        op matches KeyOp::SetDefault { id } ==> (m.dom().contains(id) ==> sole_default(
            apply_key_op(m, op),
            id,
        )),
{
    let out = apply_key_op(m, op);
    match op {
        KeyOp::Add { id, name, path, is_default, ts } => {
            if is_default {
                lemma_clear_defaults_no_default(m);
                assert forall|j: i64| out.dom().contains(j) && (#[trigger] out[j]).is_default
                    implies j == id by {
                    if j != id {
                        assert(out[j] == clear_defaults(m)[j]);
                    }
                }
            } else {
                assert forall|i: i64, j: i64|
                    out.dom().contains(i) && out.dom().contains(j) && (#[trigger] out[i]).is_default
                        && (#[trigger] out[j]).is_default implies i == j by {
                    assert(i != id && j != id ==> out[i] == m[i] && out[j] == m[j]);
                }
            }
        },
        KeyOp::SetDefault { id } => {
            lemma_clear_defaults_no_default(m);
            if m.dom().contains(id) {
                lemma_set_default_sole(m, id);
            }
        },
        KeyOp::Delete { id } => {
            assert forall|i: i64, j: i64|
                out.dom().contains(i) && out.dom().contains(j) && (#[trigger] out[i]).is_default
                    && (#[trigger] out[j]).is_default implies i == j by {
                assert(out[i] == m[i] && out[j] == m[j]);
            }
        },
    }
}

/// Law: over any sequence of add, default-toggle and delete steps, a table
/// with at most one default key keeps at most one default key; in
/// particular, right after a toggle on a stored id exactly one row is
/// marked, by `lemma_step_single_default`.
pub proof fn lemma_ops_single_default(m: Map<i64, KeyRow>, ops: Seq<KeyOp>)
    requires
        at_most_one_default(m),
    ensures
        at_most_one_default(apply_key_ops(m, ops)),
    decreases ops.len(),
{
    if ops.len() > 0 {
        lemma_step_single_default(m, ops[0]);
        lemma_ops_single_default(apply_key_op(m, ops[0]), ops.drop_first());
    }
}

/// Law: a delete step removes the row outright — the id is gone from the
/// table and every other row stays untouched — and the table's new state
/// does not depend on what later happens to the key file. `delete_ssh_key`
/// hands the stored path out only after this step, so a file removal that
/// fails afterwards leaves an orphaned file with no record, never a record
/// with no row.
pub proof fn lemma_delete_removes_row_first(m: Map<i64, KeyRow>, id: i64)
    ensures
        !apply_key_op(m, KeyOp::Delete { id }).dom().contains(id),
        forall|j: i64|
            j != id && m.dom().contains(j) ==> apply_key_op(m, KeyOp::Delete { id }).dom().contains(
                j,
            ) && apply_key_op(m, KeyOp::Delete { id })[j] == m[j],
        at_most_one_default(m) ==> at_most_one_default(apply_key_op(m, KeyOp::Delete { id })),
{
    if at_most_one_default(m) {
        lemma_step_single_default(m, KeyOp::Delete { id });
    }
}

/// Law: whatever sequence of steps a table with at most one default has
/// been through, a default toggle on an id stored at that point leaves
/// exactly that id marked as the default.
pub proof fn lemma_ops_then_set_default(m: Map<i64, KeyRow>, ops: Seq<KeyOp>, id: i64)
    requires
        at_most_one_default(m),
        apply_key_ops(m, ops).dom().contains(id),
    ensures
        sole_default(apply_key_op(apply_key_ops(m, ops), KeyOp::SetDefault { id }), id),
{
    lemma_ops_single_default(m, ops);
    lemma_set_default_sole(apply_key_ops(m, ops), id);
}

} // verus!
