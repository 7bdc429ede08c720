use vstd::prelude::*;

verus! {

/// Inserting `c` at column `x` of line `y` is possible when the line exists
/// and the column lies within it, or when `y` is one past the last line and
/// the column is zero (the buffer then grows by one line).
pub open spec fn can_insert_char(lines: Seq<Seq<char>>, x: int, y: int) -> bool {
    (0 <= y < lines.len() && 0 <= x <= lines[y].len()) || (y == lines.len() && x == 0)
}

/// The lines after inserting `c` at column `x` of line `y`; unchanged where
/// the position is out of range.
pub open spec fn char_inserted(lines: Seq<Seq<char>>, x: int, y: int, c: char) -> Seq<Seq<char>> {
    if 0 <= y < lines.len() && 0 <= x <= lines[y].len() {
        lines.update(y, lines[y].insert(x, c))
    } else if y == lines.len() && x == 0 {
        lines.push(seq![c])
    } else {
        lines
    }
}

/// The lines after removing the character at column `x` of line `y`;
/// unchanged where there is no such character.
pub open spec fn char_removed(lines: Seq<Seq<char>>, x: int, y: int) -> Seq<Seq<char>> {
    if 0 <= y < lines.len() && 0 <= x < lines[y].len() {
        lines.update(y, lines[y].remove(x))
    } else {
        lines
    }
}

/// The lines after inserting `content` as line `index`; unchanged where
/// `index` lies past the end.
pub open spec fn line_inserted(lines: Seq<Seq<char>>, index: int, content: Seq<char>) -> Seq<Seq<char>> {
    if 0 <= index <= lines.len() {
        lines.insert(index, content)
    } else {
        lines
    }
}

/// The lines after removing line `index`; unchanged where there is no such line.
pub open spec fn line_removed(lines: Seq<Seq<char>>, index: int) -> Seq<Seq<char>> {
    if 0 <= index < lines.len() {
        lines.remove(index)
    } else {
        lines
    }
}

/// The character view of a sequence of executable lines.
pub open spec fn lines_view(lines: Seq<Vec<char>>) -> Seq<Seq<char>> {
    lines.map_values(|l: Vec<char>| l@)
}

/// The text split at each line feed: one piece more than there are line
/// feeds, the last piece being what follows the last line feed.
pub open spec fn pieces(t: Seq<char>) -> Seq<Seq<char>>
    decreases t.len(),
{
    if t.len() == 0 {
        seq![Seq::<char>::empty()]
    } else {
        let p = pieces(t.drop_last());
        if t.last() == '\n' {
            p.push(Seq::<char>::empty())
        } else {
            p.update(p.len() - 1, p.last().push(t.last()))
        }
    }
}

/// A line that a line feed ended, without the carriage return before it.
pub open spec fn strip_cr(l: Seq<char>) -> Seq<char> {
    if l.len() > 0 && l.last() == '\r' {
        l.drop_last()
    } else {
        l
    }
}

/// The lines of a text: the pieces between line feeds, each without a
/// carriage return before its line feed, and without an empty last piece
/// (the final line ending is optional).
pub open spec fn text_lines(t: Seq<char>) -> Seq<Seq<char>> {
    let p = pieces(t);
    let ended = p.drop_last().map_values(|l: Seq<char>| strip_cr(l));
    if p.last().len() == 0 {
        ended
    } else {
        ended.push(p.last())
    }
}

/// Splits a text into its lines (see `text_lines`).
pub fn split_lines(text: &Vec<char>) -> (r: Vec<Vec<char>>)
    ensures
        lines_view(r@) == text_lines(text@),
{
    let mut out: Vec<Vec<char>> = Vec::new();
    let mut cur: Vec<char> = Vec::new();
    let mut i: usize = 0;
    while i < text.len()
        invariant
            i <= text@.len(),
            pieces(text@.take(i as int)).len() >= 1,
            lines_view(out@) == pieces(text@.take(i as int)).drop_last().map_values(
                |l: Seq<char>| strip_cr(l),
            ),
            cur@ == pieces(text@.take(i as int)).last(),
        decreases text@.len() - i,
    {
        let c = text[i];
        assert(text@.take(i as int + 1).drop_last() =~= text@.take(i as int));
        assert(text@.take(i as int + 1).last() == c);
        let ghost p = pieces(text@.take(i as int));
        if c == '\n' {
            let n = cur.len();
            if n > 0 && cur[n - 1] == '\r' {
                cur.pop();
            }
            assert(cur@ == strip_cr(p.last()));
            out.push(cur);
            cur = Vec::new();
            assert(p.push(Seq::<char>::empty()).drop_last() =~= p);
            assert(lines_view(out@) =~= p.drop_last().map_values(|l: Seq<char>| strip_cr(l)).push(
                strip_cr(p.last()),
            ));
            assert(p.drop_last().map_values(|l: Seq<char>| strip_cr(l)).push(strip_cr(p.last()))
                =~= p.map_values(|l: Seq<char>| strip_cr(l)));
        } else {
            cur.push(c);
            assert(p.update(p.len() - 1, p.last().push(c)).drop_last() =~= p.drop_last());
        }
        i = i + 1;
    }
    assert(text@.take(text@.len() as int) =~= text@);
    if cur.len() > 0 {
        out.push(cur);
        assert(lines_view(out@) =~= text_lines(text@));
    }
    out
}

/// The document being edited: a name and an ordered sequence of lines, each
/// line a sequence of characters addressed by column.
pub struct Buffer {
    file: String,
    lines: Vec<Vec<char>>,
}

impl View for Buffer {
    type V = Seq<Seq<char>>;

    closed spec fn view(&self) -> Seq<Seq<char>> {
        lines_view(self.lines@)
    }
}

fn copy_line(line: &Vec<char>) -> (r: Vec<char>)
    ensures
        r@ == line@,
{
    let r = line.clone();
    assert(r@ =~= line@);
    r
}

impl Buffer {
    /// The name of the document.
    pub closed spec fn file_view(&self) -> Seq<char> {
        self.file@
    }

    /// A buffer named `file` that holds `lines`.
    pub fn new(file: String, lines: Vec<Vec<char>>) -> (r: Buffer)
        ensures
            r@ == lines_view(lines@),
            r.file_view() == file@,
    {
        Buffer { file, lines }
    }

    /// The number of lines fits in a `usize`.
    pub proof fn lemma_len_fits(&self)
        ensures
            self@.len() <= usize::MAX,
    {
        assert(self@.len() == self.lines.len());
    }

    /// The name of the document.
    pub fn file(&self) -> (r: &String)
        ensures
            r@ == self.file_view(),
    {
        &self.file
    }

    /// The number of lines.
    pub fn line_count(&self) -> (r: usize)
        ensures
            r == self@.len(),
    {
        self.lines.len()
    }

    /// The length of line `index`, or zero where there is no such line.
    pub fn line_len(&self, index: usize) -> (r: usize)
        ensures
            r == if index < self@.len() { self@[index as int].len() } else { 0 },
    {
        if index < self.lines.len() {
            self.lines[index].len()
        } else {
            0
        }
    }

    /// A copy of line `line`, or `None` where there is no such line.
    pub fn get(&self, line: usize) -> (r: Option<Vec<char>>)
        ensures
            r is None <==> line >= self@.len(),
            r matches Some(v) ==> v@ == self@[line as int],
    {
        if line < self.lines.len() {
            Some(copy_line(&self.lines[line]))
        } else {
            None
        }
    }

    /// The character at column `x` of line `y`, if there is one.
    pub fn char_at(&self, x: usize, y: usize) -> (r: Option<char>)
        ensures
            r is None <==> !(y < self@.len() && x < self@[y as int].len()),
            r matches Some(c) ==> c == self@[y as int][x as int],
    {
        if y < self.lines.len() && x < self.lines[y].len() {
            Some(self.lines[y][x])
        } else {
            None
        }
    }

    /// Inserts `c` at column `x` of line `y`, shifting the rest of the line
    /// right. Where `y` is one past the last line the buffer first grows by
    /// one empty line. Any other position leaves the buffer as it is.
    pub fn insert(&mut self, x: u16, y: usize, c: char)
        ensures
            final(self)@ == char_inserted(old(self)@, x as int, y as int, c),
            final(self).file_view() == old(self).file_view(),
    {
        if y < self.lines.len() && (x as usize) <= self.lines[y].len() {
            let mut line = self.lines.remove(y);
            line.insert(x as usize, c);
            self.lines.insert(y, line);
            assert(self@ =~= char_inserted(old(self)@, x as int, y as int, c));
        } else if y == self.lines.len() && x == 0 {
            let mut line: Vec<char> = Vec::new();
            line.push(c);
            self.lines.push(line);
            assert(self@ =~= char_inserted(old(self)@, x as int, y as int, c));
        }
    }

    /// Inserts `content` as line `index`, shifting the following lines down;
    /// an index past the end leaves the buffer as it is.
    pub fn insert_line(&mut self, index: usize, content: Vec<char>)
        ensures
            final(self)@ == line_inserted(old(self)@, index as int, content@),
            final(self).file_view() == old(self).file_view(),
    {
        if index <= self.lines.len() {
            self.lines.insert(index, content);
            assert(self@ =~= line_inserted(old(self)@, index as int, content@));
        }
    }

    /// Removes the character at column `x` of line `y`, where there is one.
    pub fn remove(&mut self, x: u16, y: usize)
        ensures
            final(self)@ == char_removed(old(self)@, x as int, y as int),
            final(self).file_view() == old(self).file_view(),
    {
        if y < self.lines.len() && (x as usize) < self.lines[y].len() {
            let mut line = self.lines.remove(y);
            line.remove(x as usize);
            self.lines.insert(y, line);
            assert(self@ =~= char_removed(old(self)@, x as int, y as int));
        }
    }

    /// Removes line `y` and returns it, where there is such a line.
    pub fn remove_line(&mut self, y: usize) -> (r: Option<Vec<char>>)
        ensures
            final(self)@ == line_removed(old(self)@, y as int),
            final(self).file_view() == old(self).file_view(),
            r is None <==> y >= old(self)@.len(),
            r matches Some(v) ==> v@ == old(self)@[y as int],
    {
        if y < self.lines.len() {
            let line = self.lines.remove(y);
            assert(self@ =~= line_removed(old(self)@, y as int));
            Some(line)
        } else {
            None
        }
    }
}

} // verus!
