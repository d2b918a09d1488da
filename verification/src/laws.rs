//! Laws of the editor, stated over the model and proved once and for all.

use vstd::prelude::*;

verus! {

use crate::editor::initial_view;
use crate::editor::insert_step;
use crate::editor::inserted;
use crate::editor::left_step;
use crate::editor::right_step;
use crate::editor::submit_step;
use crate::editor::EditorView;

/// The state after a sequence of insertions, one per character of `cs`.
pub open spec fn insert_all(v: EditorView, cs: Seq<char>) -> EditorView
    decreases cs.len(),
{
    if cs.len() == 0 {
        v
    } else {
        insert_all(insert_step(v, cs[0]), cs.drop_first())
    }
}

/// Law: when the cursor sits at the end of the text, a sequence of `insert`
/// calls grows the character count by the number of inserts and leaves the
/// cursor equal to the character count; mode and history are untouched.
pub proof fn lemma_insert_all_counts(v: EditorView, cs: Seq<char>)
    requires
        v.cursor == v.text.len(),
    ensures
        insert_all(v, cs).text.len() == v.text.len() + cs.len(),
        insert_all(v, cs).cursor == insert_all(v, cs).text.len(),
        insert_all(v, cs).mode == v.mode,
        insert_all(v, cs).history == v.history,
    decreases cs.len(),
{
    if cs.len() > 0 {
        let v1 = insert_step(v, cs[0]);
        assert(v1.text.len() == v.text.len() + 1);
        lemma_insert_all_counts(v1, cs.drop_first());
    }
}

/// Law: starting from the empty buffer, after any sequence of `insert` calls
/// the character count of the text equals the number of inserts, and the
/// cursor equals the character count.
pub proof fn lemma_inserts_from_empty(cs: Seq<char>)
    ensures
        insert_all(initial_view(), cs).text.len() == cs.len(),
        insert_all(initial_view(), cs).cursor == cs.len(),
{
    lemma_insert_all_counts(initial_view(), cs);
}

/// Law: moving left then right restores the cursor, and moving right then
/// left does too, except at the respective boundary, where the inverse
/// operation is the identity.
pub proof fn lemma_move_left_right_inverse(v: EditorView)
    requires
        v.cursor <= v.text.len(),
    ensures
        v.cursor > 0 ==> right_step(left_step(v)) == v,
        v.cursor == 0 ==> left_step(v) == v,
        v.cursor < v.text.len() ==> left_step(right_step(v)) == v,
        v.cursor == v.text.len() ==> right_step(v) == v,
{
    if v.cursor > 0 {
        assert(right_step(left_step(v)) =~= v);
    }
    if v.cursor == 0 {
        assert(left_step(v) =~= v);
    }
    if v.cursor < v.text.len() {
        assert(left_step(right_step(v)) =~= v);
    }
    if v.cursor == v.text.len() {
        assert(right_step(v) =~= v);
    }
}

/// Law: inserting any character at any cursor position increases the
/// character count by exactly one and leaves the relative order of all other
/// characters unchanged, whatever their byte widths.
pub proof fn lemma_insert_preserves_order(text: Seq<char>, cursor: nat, c: char)
    requires
        cursor <= text.len(),
    ensures
        inserted(text, cursor, c).len() == text.len() + 1,
        inserted(text, cursor, c)[cursor as int] == c,
        forall|i: int| 0 <= i < cursor ==> inserted(text, cursor, c)[i] == text[i],
        forall|i: int|
            cursor <= i < text.len() ==> inserted(text, cursor, c)[i + 1] == text[i],
{
}

/// Law: submitting an empty buffer appends an empty line to the history and
/// leaves the cursor at 0.
pub proof fn lemma_submit_empty(v: EditorView)
    requires
        v.text.len() == 0,
    ensures
        submit_step(v).history == v.history.push(Seq::<char>::empty()),
        submit_step(v).cursor == 0,
{
    assert(v.text =~= Seq::<char>::empty());
}

} // verus!
