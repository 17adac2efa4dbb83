//! Laws of the engine, stated over the spec-level model that the exec
//! operations are proved against.

use vstd::prelude::*;

use crate::editor::backspace_spec;
use crate::editor::cursor_in_bounds;
use crate::editor::insert_spec;
use crate::editor::move_column_spec;
use crate::editor::spliced;
use crate::editor::without_char_before;

verus! {

/// Boundary idempotence: at the very first character position of the
/// buffer, a move one column left changes nothing; just past the last
/// character of the last line, a move one column right changes nothing.
pub proof fn lemma_move_column_boundary_idempotent(text: Seq<Seq<char>>)
    requires
        text.len() > 0,
    ensures
        move_column_spec(text, 0, 0, -1) == (0int, 0int),
        move_column_spec(text, text.len() - 1, text[text.len() - 1].len() as int, 1) == (
            text.len() - 1,
            text[text.len() - 1].len() as int,
        ),
{
}

/// Column zero is inside every line the cursor can address, so a jump to
/// the start of the line keeps the cursor invariant.
pub proof fn lemma_move_to_line_start_in_bounds(text: Seq<Seq<char>>, line: int, position: int)
    requires
        cursor_in_bounds(text, line, position),
    ensures
        cursor_in_bounds(text, line, 0),
{
}

/// The state after applying the insertions in `inputs`, in order, each at
/// the cursor the previous one left behind.
pub open spec fn apply_inserts(
    state: (Seq<Seq<char>>, int, int),
    inputs: Seq<Seq<char>>,
) -> (Seq<Seq<char>>, int, int)
    decreases inputs.len(),
{
    if inputs.len() == 0 {
        state
    } else {
        apply_inserts(insert_spec(state.0, state.1, state.2, inputs[0]), inputs.drop_first())
    }
}

/// The state after `count` backspaces, each at the cursor the previous one
/// left behind.
pub open spec fn apply_backspaces(state: (Seq<Seq<char>>, int, int), count: nat) -> (
    Seq<Seq<char>>,
    int,
    int,
)
    decreases count,
{
    if count == 0 {
        state
    } else {
        apply_backspaces(backspace_spec(state.0, state.1, state.2), (count - 1) as nat)
    }
}

/// One backspace exactly undoes one single-character insertion.
pub proof fn lemma_backspace_undoes_insert(
    text: Seq<Seq<char>>,
    line: int,
    position: int,
    input: Seq<char>,
)
    requires
        cursor_in_bounds(text, line, position),
        input.len() == 1,
    ensures
        ({
            let (t, l, p) = insert_spec(text, line, position, input);
            backspace_spec(t, l, p) == (text, line, position)
        }),
{
    let (t, l, p) = insert_spec(text, line, position, input);
    let new_line = spliced(text[line], position, input);
    let removed = without_char_before(new_line, p);
    assert(removed =~= text[line]);
    assert(backspace_spec(t, l, p).0 =~= text);
}

/// Peeling the last backspace off a run of `count + 1` backspaces.
proof fn lemma_apply_backspaces_unfold_last(state: (Seq<Seq<char>>, int, int), count: nat)
    ensures
        apply_backspaces(state, count + 1) == ({
            let s = apply_backspaces(state, count);
            backspace_spec(s.0, s.1, s.2)
        }),
    decreases count,
{
    let stepped = backspace_spec(state.0, state.1, state.2);
    assert(apply_backspaces(state, count + 1) == apply_backspaces(stepped, count));
    if count > 0 {
        lemma_apply_backspaces_unfold_last(stepped, (count - 1) as nat);
        assert(apply_backspaces(state, count) == apply_backspaces(stepped, (count - 1) as nat));
    }
}

/// The total number of characters the insertions in `inputs` add.
pub open spec fn total_len(inputs: Seq<Seq<char>>) -> nat
    decreases inputs.len(),
{
    if inputs.len() == 0 {
        0
    } else {
        inputs[0].len() + total_len(inputs.drop_first())
    }
}

/// One backspace right after an insertion takes back exactly the last
/// character inserted.
proof fn lemma_backspace_drops_last_inserted(
    text: Seq<Seq<char>>,
    line: int,
    position: int,
    input: Seq<char>,
)
    requires
        cursor_in_bounds(text, line, position),
        input.len() >= 1,
    ensures
        ({
            let s = insert_spec(text, line, position, input);
            backspace_spec(s.0, s.1, s.2) == insert_spec(text, line, position, input.drop_last())
        }),
{
    let s = insert_spec(text, line, position, input);
    let full = spliced(text[line], position, input);
    let shorter = spliced(text[line], position, input.drop_last());
    assert(without_char_before(full, position + input.len()) =~= shorter);
    assert(backspace_spec(s.0, s.1, s.2).0 =~= text.update(line, shorter));
}

/// As many backspaces as an insertion added characters take the whole
/// insertion back.
pub proof fn lemma_backspaces_undo_insert(
    text: Seq<Seq<char>>,
    line: int,
    position: int,
    input: Seq<char>,
)
    requires
        cursor_in_bounds(text, line, position),
    ensures
        ({
            let s = insert_spec(text, line, position, input);
            apply_backspaces(s, input.len()) == (text, line, position)
        }),
    decreases input.len(),
{
    let s = insert_spec(text, line, position, input);
    if input.len() == 0 {
        assert(spliced(text[line], position, input) =~= text[line]);
        assert(s.0 =~= text);
    } else {
        lemma_backspace_drops_last_inserted(text, line, position, input);
        lemma_backspaces_undo_insert(text, line, position, input.drop_last());
        assert(apply_backspaces(s, input.len()) == apply_backspaces(
            backspace_spec(s.0, s.1, s.2),
            (input.len() - 1) as nat,
        ));
    }
}

/// A run of `count + extra` backspaces is the run of the first `count`
/// followed by the remaining `extra`.
proof fn lemma_apply_backspaces_additive(
    state: (Seq<Seq<char>>, int, int),
    count: nat,
    extra: nat,
)
    ensures
        apply_backspaces(state, count + extra) == apply_backspaces(
            apply_backspaces(state, count),
            extra,
        ),
    decreases count,
{
    if count > 0 {
        let stepped = backspace_spec(state.0, state.1, state.2);
        lemma_apply_backspaces_additive(stepped, (count - 1) as nat, extra);
        assert(apply_backspaces(state, count + extra) == apply_backspaces(
            stepped,
            ((count + extra) - 1) as nat,
        ));
        assert(apply_backspaces(state, count) == apply_backspaces(stepped, (count - 1) as nat));
    }
}

/// Round trip in full generality: from any valid state, a run of
/// insertions followed by as many backspaces as characters were inserted
/// restores the buffer and the cursor exactly.
pub proof fn lemma_inserts_then_backspaces_round_trip(
    text: Seq<Seq<char>>,
    line: int,
    position: int,
    inputs: Seq<Seq<char>>,
)
    requires
        cursor_in_bounds(text, line, position),
    ensures
        apply_backspaces(apply_inserts((text, line, position), inputs), total_len(inputs)) == (
            text,
            line,
            position,
        ),
    decreases inputs.len(),
{
    if inputs.len() > 0 {
        let s1 = insert_spec(text, line, position, inputs[0]);
        let rest = inputs.drop_first();
        lemma_inserts_then_backspaces_round_trip(s1.0, s1.1, s1.2, rest);
        lemma_apply_backspaces_additive(
            apply_inserts(s1, rest),
            total_len(rest),
            inputs[0].len(),
        );
        lemma_backspaces_undo_insert(text, line, position, inputs[0]);
    }
}

/// Round trip: from any valid state, a run of single-character insertions
/// followed by just as many backspaces restores the buffer and the cursor
/// exactly.
pub proof fn lemma_insert_backspace_round_trip(
    text: Seq<Seq<char>>,
    line: int,
    position: int,
    inputs: Seq<Seq<char>>,
)
    requires
        cursor_in_bounds(text, line, position),
        forall|i: int| 0 <= i < inputs.len() ==> (#[trigger] inputs[i]).len() == 1,
    ensures
        apply_backspaces(apply_inserts((text, line, position), inputs), inputs.len()) == (
            text,
            line,
            position,
        ),
    decreases inputs.len(),
{
    if inputs.len() > 0 {
        let s1 = insert_spec(text, line, position, inputs[0]);
        let rest = inputs.drop_first();
        assert(forall|i: int| 0 <= i < rest.len() ==> (#[trigger] rest[i]).len() == 1);
        lemma_insert_backspace_round_trip(s1.0, s1.1, s1.2, rest);
        lemma_apply_backspaces_unfold_last(apply_inserts(s1, rest), rest.len());
        lemma_backspace_undoes_insert(text, line, position, inputs[0]);
    }
}

} // verus!
