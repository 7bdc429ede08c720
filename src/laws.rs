use vstd::prelude::*;
use crate::buffer::{can_insert_char, char_inserted, char_removed};
use crate::command::Action;
use crate::editor::{
    TextEditor, char_deleted, cur_line_len, line_deleted, moved_up, on_line, same_cursor, undone,
};

verus! {

/// Inserting a character into an existing line and then removing the
/// character at the same position gives back the lines as they were.
pub proof fn insert_then_remove_restores(lines: Seq<Seq<char>>, x: int, y: int, c: char)
    requires
        0 <= y < lines.len(),
        can_insert_char(lines, x, y),
    ensures
        char_removed(char_inserted(lines, x, y, c), x, y) == lines,
{
    let grown = char_inserted(lines, x, y, c);
    assert(grown[y].remove(x) =~= lines[y]);
    assert(char_removed(grown, x, y) =~= lines);
}

/// Removing a character and then inserting it again where it stood gives
/// back the lines as they were.
pub proof fn remove_then_insert_restores(lines: Seq<Seq<char>>, x: int, y: int)
    requires
        0 <= y < lines.len(),
        0 <= x < lines[y].len(),
    ensures
        char_inserted(char_removed(lines, x, y), x, y, lines[y][x]) == lines,
{
    let shrunk = char_removed(lines, x, y);
    assert(shrunk[y].insert(x, lines[y][x]) =~= lines[y]);
    assert(char_inserted(shrunk, x, y, lines[y][x]) =~= lines);
}

/// Popping what was just pushed gives back the stack and the item.
pub proof fn lemma_push_then_pop<T>(s: Seq<T>, x: T)
    ensures
        s.push(x).drop_last() == s,
        s.push(x).last() == x,
{
    assert(s.push(x).drop_last() =~= s);
}

/// Deleting the character under the cursor and then undoing once restores
/// the buffer, the cursor and the undo stack.
pub proof fn delete_char_then_undo_restores(a: TextEditor, b: TextEditor, c: TextEditor)
    requires
        on_line(a),
        (a.cx as int) < cur_line_len(a),
        char_deleted(a, b),
        undone(b, c),
    ensures
        c.buffer@ == a.buffer@,
        c.undo@ == a.undo@,
        same_cursor(a, c),
{
    let y = a.cy as int + a.sv as int;
    let entry = Action::InsertChar(a.cx, y as usize, a.buffer@[y][a.cx as int]);
    assert(b.undo@ == a.undo@.push(entry));
    a.buffer.lemma_len_fits();
    lemma_push_then_pop(a.undo@, entry);
    remove_then_insert_restores(a.buffer@, a.cx as int, y);
}

/// Deleting the line under the cursor and then undoing once restores the
/// buffer, the cursor and the undo stack.
pub proof fn delete_line_then_undo_restores(a: TextEditor, b: TextEditor, c: TextEditor)
    requires
        on_line(a),
        line_deleted(a, b),
        undone(b, c),
    ensures
        c.buffer@ == a.buffer@,
        c.undo@ == a.undo@,
        same_cursor(a, c),
{
    let y = a.cy as int + a.sv as int;
    assert(a.buffer@.remove(y).insert(y, a.buffer@[y]) =~= a.buffer@);
}

/// Undo with nothing to undo changes neither the buffer, the cursor nor the
/// undo stack.
pub proof fn undo_on_empty_stack_changes_nothing(a: TextEditor, b: TextEditor)
    requires
        a.undo@.len() == 0,
        undone(a, b),
    ensures
        b.buffer@ == a.buffer@,
        b.undo@ == a.undo@,
        same_cursor(a, b),
{
}

/// Moving up on the top row scrolls the view up a line and keeps the row;
/// with the first line already on the top row it changes nothing.
pub proof fn move_up_on_top_row(a: TextEditor, b: TextEditor)
    requires
        a.cy == 0,
        moved_up(a, b),
    ensures
        a.sv > 0 ==> b.sv == a.sv - 1 && b.cy == 0,
        a.sv == 0 ==> same_cursor(a, b) && b.buffer@ == a.buffer@,
{
}

} // verus!
