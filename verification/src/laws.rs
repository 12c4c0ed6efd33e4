//! What holds of the editor whatever keys are pressed.

use crate::cycle::after_event;
use crate::cycle::next_action;
use crate::cycle::run_frames;
use crate::cycle::run_reads;
use crate::cycle::run_state;
use crate::cycle::ActionView;
use crate::cycle::EventView;
use crate::editor::banner;
use crate::editor::frame_text;
use crate::editor::last_column;
use crate::editor::last_row;
use crate::editor::moved;
use crate::editor::welcome_line;
use crate::editor::welcome_message;
use crate::editor::within;
use crate::editor::EditorState;
use crate::editor::Position;
use crate::key::Key;
use crate::terminal::Size;
use vstd::prelude::*;

verus! {

/// Where the cursor stands after all of `keys`, pressed in order.
pub open spec fn moved_all(position: Position, size: Size, keys: Seq<Key>) -> Position
    decreases keys.len(),
{
    if keys.len() == 0 {
        position
    } else {
        moved_all(moved(position, size, keys.first()), size, keys.drop_first())
    }
}

/// The state after all of `keys`, pressed in order.
pub open spec fn after_keys(state: EditorState, keys: Seq<Key>) -> EditorState
    decreases keys.len(),
{
    if keys.len() == 0 {
        state
    } else {
        after_keys(state.after_key(keys.first()), keys.drop_first())
    }
}

/// A cursor inside the viewport stays inside it whichever key is pressed: in
/// a viewport that has cells at all, its column stays below the width and its
/// row below the height.
pub proof fn lemma_move_stays_within(position: Position, size: Size, key: Key)
    requires
        within(position, size),
    ensures
        within(moved(position, size, key), size),
        size.width >= 1 ==> moved(position, size, key).x < size.width,
        size.height >= 1 ==> moved(position, size, key).y < size.height,
{
}

/// A cursor inside the viewport stays inside it over any sequence of keys,
/// however long and however often a key is repeated.
pub proof fn lemma_moves_stay_within(position: Position, size: Size, keys: Seq<Key>)
    requires
        within(position, size),
    ensures
        within(moved_all(position, size, keys), size),
        size.width >= 1 ==> moved_all(position, size, keys).x < size.width,
        size.height >= 1 ==> moved_all(position, size, keys).y < size.height,
    decreases keys.len(),
{
    if keys.len() > 0 {
        lemma_move_stays_within(position, size, keys.first());
        lemma_moves_stay_within(moved(position, size, keys.first()), size, keys.drop_first());
    }
}

/// An editor whose cursor is inside the viewport keeps it there over any
/// sequence of keys, and the viewport itself never changes.
pub proof fn lemma_keys_keep_cursor_within(state: EditorState, keys: Seq<Key>)
    requires
        state.wf(),
    ensures
        after_keys(state, keys).wf(),
        after_keys(state, keys).size == state.size,
    decreases keys.len(),
{
    if keys.len() > 0 {
        lemma_move_stays_within(state.cursor_position, state.size, keys.first());
        lemma_keys_keep_cursor_within(state.after_key(keys.first()), keys.drop_first());
    }
}

/// `Home` puts the cursor in the first column and `End`, pressed after it,
/// in the last one, wherever the cursor stood before. Neither changes the
/// row.
pub proof fn lemma_home_then_end(position: Position, size: Size)
    ensures
        moved(position, size, Key::Home) == (Position { x: 0, y: position.y }),
        moved(moved(position, size, Key::Home), size, Key::End) == (Position {
            x: last_column(size),
            y: position.y,
        }),
        size.width >= 1 ==> moved(moved(position, size, Key::Home), size, Key::End).x
            == size.width - 1,
{
}

/// `PageUp` puts the cursor in the first row and `PageDown`, pressed after
/// it, in the last one, wherever the cursor stood before. Neither changes
/// the column.
pub proof fn lemma_page_up_then_page_down(position: Position, size: Size)
    ensures
        moved(position, size, Key::PageUp) == (Position { x: position.x, y: 0 }),
        moved(moved(position, size, Key::PageUp), size, Key::PageDown) == (Position {
            x: position.x,
            y: last_row(size),
        }),
        size.height >= 1 ==> moved(moved(position, size, Key::PageUp), size, Key::PageDown).y
            == size.height - 1,
{
}

/// The welcome message never takes more cells than the viewport is wide, is
/// the start of the uncut welcome line, and begins with a tilde wherever the
/// viewport has a column at all. Where the banner alone is as long as the
/// viewport is wide, or longer, the message fills the width exactly.
pub proof fn lemma_welcome_message_fits(width: nat, version: Seq<char>)
    ensures
        welcome_message(width, version).len() <= width,
        welcome_message(width, version).is_prefix_of(welcome_line(width, version)),
        welcome_line(width, version).len() <= width ==> welcome_message(width, version)
            == welcome_line(width, version),
        width >= 1 ==> welcome_message(width, version)[0] == '~',
        banner(version).len() >= width ==> welcome_message(width, version).len() == width,
{
}

/// A key that neither moves the cursor nor quits changes nothing, and the
/// cycle answers it with exactly one render of the unchanged state.
pub proof fn lemma_unrecognized_key_changes_nothing(
    state: EditorState,
    key: Key,
    version: Seq<char>,
)
    requires
        !key.is_navigation(),
        !key.is_quit(),
    ensures
        state.after_key(key) == state,
        after_event(state, EventView::KeyPressed(key)) == state,
        next_action(state, EventView::KeyPressed(key), version) == if state.should_quit {
            ActionView::Finish(frame_text(state, version))
        } else {
            ActionView::Draw(frame_text(state, version))
        },
{
}

/// `Ctrl('q')` makes the editor quit at once and moves nothing; the cycle
/// answers it with the closing frame, after which no key is read.
pub proof fn lemma_quit_key_finishes(state: EditorState, version: Seq<char>)
    ensures
        state.after_key(Key::Ctrl('q')) == (EditorState { should_quit: true, ..state }),
        next_action(
            after_event(state, EventView::KeyPressed(Key::Ctrl('q'))),
            EventView::KeyPressed(Key::Ctrl('q')),
            version,
        ) == ActionView::Finish(frame_text(EditorState { should_quit: true, ..state }, version)),
{
}

/// No key but `Ctrl('q')` makes a running editor quit.
pub proof fn lemma_only_quit_key_quits(state: EditorState, key: Key)
    requires
        !state.should_quit,
    ensures
        state.after_key(key).should_quit <==> key == Key::Ctrl('q'),
{
}

/// A running editor that finds its first `Ctrl('q')` at index `at` of the
/// keys reads that key and none after it, and writes exactly one more frame,
/// the closing one: `at + 2` frames in all. It stops where the keys before
/// the `Ctrl('q')` have left the cursor.
pub proof fn lemma_quit_ends_run(state: EditorState, keys: Seq<Key>, version: Seq<char>, at: int)
    requires
        !state.should_quit,
        0 <= at < keys.len(),
        keys[at] == Key::Ctrl('q'),
        forall|i: int| 0 <= i < at ==> keys[i] != Key::Ctrl('q'),
    ensures
        run_reads(state, keys) == at + 1,
        run_frames(state, keys, version).len() == at + 2,
        run_state(state, keys) == (EditorState {
            should_quit: true,
            ..after_keys(state, keys.take(at))
        }),
        run_frames(state, keys, version).last() == frame_text(run_state(state, keys), version),
    decreases at,
{
    let next = state.after_key(keys.first());
    let rest = keys.drop_first();
    if at == 0 {
        assert(keys.take(0) =~= Seq::<Key>::empty());
        assert(run_reads(next, rest) == 0);
        assert(run_state(next, rest) == next);
        assert(run_frames(next, rest, version) == seq![frame_text(next, version)]);
    } else {
        assert forall|i: int| 0 <= i < at - 1 implies rest[i] != Key::Ctrl('q') by {
            assert(rest[i] == keys[i + 1]);
        }
        lemma_quit_ends_run(next, rest, version, at - 1);
        assert(keys.take(at).drop_first() =~= rest.take(at - 1));
    }
}

/// While no `Ctrl('q')` is among the keys, a running editor reads them all
/// and writes one frame more than there are keys; it is still running
/// afterwards.
pub proof fn lemma_run_without_quit(state: EditorState, keys: Seq<Key>, version: Seq<char>)
    requires
        !state.should_quit,
        forall|i: int| 0 <= i < keys.len() ==> keys[i] != Key::Ctrl('q'),
    ensures
        run_reads(state, keys) == keys.len(),
        run_frames(state, keys, version).len() == keys.len() + 1,
        run_state(state, keys) == after_keys(state, keys),
        !run_state(state, keys).should_quit,
    decreases keys.len(),
{
    if keys.len() > 0 {
        let rest = keys.drop_first();
        assert forall|i: int| 0 <= i < rest.len() implies rest[i] != Key::Ctrl('q') by {
            assert(rest[i] == keys[i + 1]);
        }
        lemma_run_without_quit(state.after_key(keys.first()), rest, version);
    }
}

} // verus!
