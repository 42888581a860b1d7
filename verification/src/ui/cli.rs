use vstd::prelude::*;

verus! {

/// Whether `c` has the Unicode `White_Space` property, as `char::is_whitespace` decides it:
/// the controls from tab to carriage return, the space, the next-line control, the no-break
/// space, the Ogham space mark, the spaces from en quad to hair space, the line and
/// paragraph separators, the narrow no-break space, the medium mathematical space and the
/// ideographic space.
pub open spec fn char_is_whitespace(c: char) -> bool {
    let n = c as u32;
    ||| 0x9 <= n <= 0xd
    ||| n == 0x20
    ||| n == 0x85
    ||| n == 0xa0
    ||| n == 0x1680
    ||| 0x2000 <= n <= 0x200a
    ||| n == 0x2028
    ||| n == 0x2029
    ||| n == 0x202f
    ||| n == 0x205f
    ||| n == 0x3000
}

/// Whether `c` is whitespace (see `char_is_whitespace`).
fn is_whitespace(c: char) -> (r: bool)
    ensures
        r == char_is_whitespace(c),
{
    let n = c as u32;
    (0x9 <= n && n <= 0xd) || n == 0x20 || n == 0x85 || n == 0xa0 || n == 0x1680 || (0x2000 <= n && n <= 0x200a)
        || n == 0x2028 || n == 0x2029 || n == 0x202f || n == 0x205f || n == 0x3000
}

/// A rectangle of terminal cells.
pub struct Rect {
    pub x: usize,
    pub y: usize,
    pub w: usize,
    pub h: usize,
}

/// An editable input line with a cursor.
#[derive(Debug, Default)]
pub struct Prompt {
    pub buffer: Vec<char>,
    pub cursor: usize,
}

/// The character the cursor stands on; past the end of the line, a line feed.
pub open spec fn char_at(buffer: Seq<char>, i: int) -> char {
    if 0 <= i < buffer.len() {
        buffer[i]
    } else {
        '\n'
    }
}

/// Moving left from `c` while the character under the cursor is (`ws`) or is not (`!ws`)
/// whitespace, never past the start of the line.
pub open spec fn skip_left(buffer: Seq<char>, c: int, ws: bool) -> int
    decreases c,
{
    if c > 0 && char_is_whitespace(char_at(buffer, c)) == ws {
        skip_left(buffer, c - 1, ws)
    } else {
        c
    }
}

/// Moving right from `c` while the character under the cursor is (`ws`) or is not (`!ws`)
/// whitespace, never past the end of the line.
pub open spec fn skip_right(buffer: Seq<char>, c: int, ws: bool) -> int
    decreases buffer.len() - c,
{
    if c < buffer.len() && char_is_whitespace(char_at(buffer, c)) == ws {
        skip_right(buffer, c + 1, ws)
    } else {
        c
    }
}

/// Where inserting starts: the cursor, pulled back to the end of the line.
pub open spec fn insertion_point(p: Prompt) -> int {
    if p.cursor <= p.buffer@.len() {
        p.cursor as int
    } else {
        p.buffer@.len() as int
    }
}

proof fn lemma_skip_left_bounds(buffer: Seq<char>, c: int, ws: bool)
    requires
        c >= 0,
    ensures
        0 <= skip_left(buffer, c, ws) <= c,
    decreases c,
{
    if c > 0 && char_is_whitespace(char_at(buffer, c)) == ws {
        lemma_skip_left_bounds(buffer, c - 1, ws);
    }
}

proof fn lemma_skip_right_bounds(buffer: Seq<char>, c: int, ws: bool)
    ensures
        c <= skip_right(buffer, c, ws),
        c <= buffer.len() ==> skip_right(buffer, c, ws) <= buffer.len(),
    decreases buffer.len() - c,
{
    if c < buffer.len() && char_is_whitespace(char_at(buffer, c)) == ws {
        lemma_skip_right_bounds(buffer, c + 1, ws);
    }
}

impl Prompt {
    /// Inserts `x` at the cursor (pulled back to the end of the line) and moves past it.
    pub fn insert(&mut self, x: char)
        requires
            old(self).buffer@.len() < usize::MAX,
        ensures
            inserted(*old(self), *final(self), x),
    {
        if self.cursor > self.buffer.len() {
            self.cursor = self.buffer.len()
        }
        self.buffer.insert(self.cursor, x);
        self.cursor += 1;
    }

    /// Inserts the characters of `text` at the cursor, one after another.
    pub fn insert_str(&mut self, text: &str)
        requires
            old(self).buffer@.len() + text@.len() < usize::MAX,
        ensures
            text@.len() == 0 ==> final(self).buffer@ == old(self).buffer@ && final(self).cursor
                == old(self).cursor,
            text@.len() > 0 ==> {
                &&& final(self).buffer@ == old(self).buffer@.subrange(0, insertion_point(*old(self)))
                    + text@ + old(self).buffer@.subrange(
                    insertion_point(*old(self)),
                    old(self).buffer@.len() as int,
                )
                &&& final(self).cursor == insertion_point(*old(self)) + text@.len()
            },
    {
        let ghost start = insertion_point(*self);
        let ghost orig = self.buffer@;
        let ghost orig_cursor = self.cursor;
        for x in it: text.chars()
            invariant
                it.index() <= text@.len(),
                it.seq() == text@,
                orig.len() + text@.len() < usize::MAX,
                0 <= start <= orig.len(),
                start == (if orig_cursor <= orig.len() { orig_cursor as int } else { orig.len() as int }),
                it.index() == 0 ==> self.buffer@ == orig && self.cursor == orig_cursor,
                it.index() > 0 ==> {
                    &&& self.buffer@ == orig.subrange(0, start) + text@.subrange(0, it.index() as int)
                        + orig.subrange(start, orig.len() as int)
                    &&& self.cursor == start + it.index()
                },
        {
            let ghost before = self.buffer@;
            let ghost k = it.index();
            assert(x == text@[k]);
            assert(insertion_point(*self) == start + k);
            self.insert(x);
            assert(self.buffer@ == before.insert(start + k, x));
            assert(self.buffer@ =~= orig.subrange(0, start) + text@.subrange(0, k + 1)
                + orig.subrange(start, orig.len() as int));
        }
        proof {
            if text@.len() > 0 {
                assert(text@.subrange(0, text@.len() as int) =~= text@);
            }
        }
    }

    /// Moves the cursor one character to the left, unless it is at the start.
    pub fn left_char(&mut self)
        ensures
            final(self).buffer@ == old(self).buffer@,
            final(self).cursor == if old(self).cursor > 0 {
                (old(self).cursor - 1) as usize
            } else {
                0
            },
    {
        if self.cursor > 0 {
            self.cursor -= 1;
        }
    }

    /// Moves the cursor one character to the right, unless it is at (or past) the end.
    pub fn right_char(&mut self)
        ensures
            final(self).buffer@ == old(self).buffer@,
            final(self).cursor == if old(self).cursor < old(self).buffer@.len() {
                (old(self).cursor + 1) as usize
            } else {
                old(self).cursor
            },
    {
        if self.cursor < self.buffer.len() {
            self.cursor += 1;
        }
    }

    /// The character under the cursor; a line feed past the end of the line.
    pub fn at_cursor(&self) -> (r: char)
        ensures
            r == char_at(self.buffer@, self.cursor as int),
    {
        if self.cursor < self.buffer.len() {
            self.buffer[self.cursor]
        } else {
            '\n'
        }
    }

    /// Moves the cursor left over whitespace, then over the word before it.
    pub fn left_word(&mut self)
        ensures
            final(self).buffer@ == old(self).buffer@,
            final(self).cursor == skip_left(
                old(self).buffer@,
                skip_left(old(self).buffer@, old(self).cursor as int, true),
                false,
            ),
    {
        let ghost c0 = self.cursor as int;
        while self.cursor > 0 && is_whitespace(self.at_cursor())
            invariant
                self.buffer@ == old(self).buffer@,
                c0 == old(self).cursor,
                skip_left(self.buffer@, self.cursor as int, true) == skip_left(self.buffer@, c0, true),
            decreases self.cursor,
        {
            self.cursor -= 1;
        }
        let ghost c1 = self.cursor as int;
        while self.cursor > 0 && !is_whitespace(self.at_cursor())
            invariant
                self.buffer@ == old(self).buffer@,
                c0 == old(self).cursor,
                skip_left(self.buffer@, self.cursor as int, false) == skip_left(self.buffer@, c1, false),
                c1 == skip_left(self.buffer@, c0, true),
            decreases self.cursor,
        {
            self.cursor -= 1;
        }
    }

    /// Moves the cursor right over whitespace, then over the following word.
    pub fn right_word(&mut self)
        ensures
            final(self).buffer@ == old(self).buffer@,
            final(self).cursor == skip_right(
                old(self).buffer@,
                skip_right(old(self).buffer@, old(self).cursor as int, true),
                false,
            ),
    {
        let ghost c0 = self.cursor as int;
        proof {
            lemma_skip_right_bounds(self.buffer@, c0, true);
        }
        while self.cursor < self.buffer.len() && is_whitespace(self.at_cursor())
            invariant
                self.buffer@ == old(self).buffer@,
                c0 == old(self).cursor,
                skip_right(self.buffer@, self.cursor as int, true) == skip_right(self.buffer@, c0, true),
            decreases self.buffer@.len() - self.cursor,
        {
            self.cursor += 1;
        }
        let ghost c1 = self.cursor as int;
        while self.cursor < self.buffer.len() && !is_whitespace(self.at_cursor())
            invariant
                self.buffer@ == old(self).buffer@,
                c0 == old(self).cursor,
                skip_right(self.buffer@, self.cursor as int, false) == skip_right(self.buffer@, c1, false),
                c1 == skip_right(self.buffer@, c0, true),
            decreases self.buffer@.len() - self.cursor,
        {
            self.cursor += 1;
        }
    }

    /// Deletes the character before the cursor, if there is one.
    pub fn backspace(&mut self)
        requires
            old(self).cursor <= old(self).buffer@.len(),
        ensures
            backspaced(*old(self), *final(self)),
    {
        if self.cursor > 0 {
            self.cursor -= 1;
            self.buffer.remove(self.cursor);
        }
    }

    /// The characters before the cursor.
    pub fn before_cursor(&self) -> (r: &[char])
        requires
            self.cursor <= self.buffer@.len(),
        ensures
            r@ == self.buffer@.subrange(0, self.cursor as int),
    {
        &self.buffer.as_slice()[0..self.cursor]
    }

    /// The characters from the cursor on.
    pub fn after_cursor(&self) -> (r: &[char])
        requires
            self.cursor <= self.buffer@.len(),
        ensures
            r@ == self.buffer@.subrange(self.cursor as int, self.buffer@.len() as int),
    {
        &self.buffer.as_slice()[self.cursor..self.buffer.len()]
    }

    /// Empties the line.
    pub fn clear(&mut self)
        ensures
            final(self).buffer@ == Seq::<char>::empty(),
            final(self).cursor == 0,
    {
        self.buffer.clear();
        self.cursor = 0;
    }
}


/// `after` is `before` with `x` typed: put at the cursor (or at the end, where the cursor
/// stands past it), the cursor just after it.
pub open spec fn inserted(before: Prompt, after: Prompt, x: char) -> bool {
    &&& after.buffer@ == before.buffer@.insert(insertion_point(before), x)
    &&& after.cursor == insertion_point(before) + 1
}

/// `after` is `before` after a backspace: at the start of the line nothing changes; else
/// the character left of the cursor is gone and the cursor moved one left.
pub open spec fn backspaced(before: Prompt, after: Prompt) -> bool {
    &&& before.cursor == 0 ==> after == before
    &&& before.cursor > 0 ==> {
        &&& after.cursor == before.cursor - 1
        &&& after.buffer@ == before.buffer@.remove(before.cursor - 1)
    }
}

/// Typing a character and then deleting it with backspace gives back the line and the
/// cursor.
pub proof fn law_backspace_undoes_insert(p0: Prompt, x: char, p1: Prompt, p2: Prompt)
    requires
        p0.cursor <= p0.buffer@.len(),
        inserted(p0, p1, x),
        backspaced(p1, p2),
    ensures
        p2.buffer@ == p0.buffer@,
        p2.cursor == p0.cursor,
{
    assert(p0.buffer@.insert(p0.cursor as int, x).remove(p0.cursor as int) =~= p0.buffer@);
}

} // verus!
