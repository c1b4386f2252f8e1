use vstd::prelude::*;
use crate::chars::{chars_of, copy_chars, string_of_chars};

verus! {

/// Number of newline characters in `s`.
pub open spec fn newline_count(s: Seq<char>) -> nat
    decreases s.len(),
{
    if s.len() == 0 {
        0
    } else {
        newline_count(s.drop_last()) + if s.last() == '\n' { 1nat } else { 0nat }
    }
}

/// Index of the first character of the line that contains position `k`.
pub open spec fn line_start(s: Seq<char>, k: int) -> int
    decreases k,
{
    if k <= 0 {
        0
    } else if s[k - 1] == '\n' {
        k
    } else {
        line_start(s, k - 1)
    }
}

/// Index of the newline (or end of text) that ends the line containing `k`.
pub open spec fn line_end(s: Seq<char>, k: int) -> int
    decreases s.len() - k,
{
    if k >= s.len() {
        s.len() as int
    } else if s[k] == '\n' {
        k
    } else {
        line_end(s, k + 1)
    }
}

/// Zero-based line of position `k`: the newlines before it.
pub open spec fn line_of(s: Seq<char>, k: int) -> int {
    newline_count(s.take(k)) as int
}

/// Characters between the start of `k`'s line and `k`.
pub open spec fn column_of(s: Seq<char>, k: int) -> int {
    k - line_start(s, k)
}

/// Characters on the line that contains `k`.
pub open spec fn line_length_at(s: Seq<char>, k: int) -> int {
    line_end(s, k) - line_start(s, k)
}

pub open spec fn min_int(a: int, b: int) -> int {
    if a <= b { a } else { b }
}

/// `k` lies on line `line`, at column `col` clamped to that line's length.
pub open spec fn is_position(s: Seq<char>, k: int, line: int, col: int) -> bool {
    &&& 0 <= k <= s.len()
    &&& line_of(s, k) == line
    &&& column_of(s, k) == min_int(col, line_length_at(s, k))
}

/// The position on line `line` at column `col`, clamped to the line's end.
pub open spec fn position_on_line(s: Seq<char>, line: int, col: int) -> int {
    choose|k: int| is_position(s, k, line, col)
}

/// Byte length of the UTF-8 encoding of `s`.
pub open spec fn utf8_len(s: Seq<char>) -> nat {
    vstd::utf8::encode_utf8(s).len()
}

/// `offset` is a character boundary of the UTF-8 encoding of `s`:
/// the encoded length of some prefix of its characters.
pub open spec fn is_char_boundary_of(s: Seq<char>, offset: int) -> bool {
    exists|k: int| 0 <= k <= s.len() && offset == utf8_len(#[trigger] s.take(k))
}

/// The abstract state of a text buffer: its characters, the cursor as a
/// character index, and the remembered column for vertical moves.
pub struct TextModel {
    pub text: Seq<char>,
    pub cursor: int,
    pub preferred_column: Option<int>,
}

impl TextModel {
    pub open spec fn wf(self) -> bool {
        &&& 0 <= self.cursor <= self.text.len()
        &&& (self.preferred_column matches Some(p) ==> p >= 0)
    }

    /// Fresh buffer: cursor at the end, no remembered column.
    pub open spec fn fresh(s: Seq<char>) -> TextModel {
        TextModel { text: s, cursor: s.len() as int, preferred_column: None }
    }

    pub open spec fn line(self) -> int {
        line_of(self.text, self.cursor)
    }

    pub open spec fn column(self) -> int {
        column_of(self.text, self.cursor)
    }

    /// Cursor as a byte offset into the UTF-8 encoding of the text.
    pub open spec fn byte_offset(self) -> nat {
        utf8_len(self.text.take(self.cursor))
    }

    pub open spec fn insert_char(self, c: char) -> TextModel {
        TextModel {
            text: self.text.insert(self.cursor, c),
            cursor: self.cursor + 1,
            preferred_column: None,
        }
    }

    pub open spec fn backspace(self) -> TextModel {
        if self.cursor == 0 {
            self
        } else {
            TextModel {
                text: self.text.remove(self.cursor - 1),
                cursor: self.cursor - 1,
                preferred_column: None,
            }
        }
    }

    pub open spec fn move_left(self) -> TextModel {
        if self.cursor == 0 {
            self
        } else {
            TextModel { cursor: self.cursor - 1, preferred_column: None, ..self }
        }
    }

    pub open spec fn move_right(self) -> TextModel {
        if self.cursor >= self.text.len() {
            self
        } else {
            TextModel { cursor: self.cursor + 1, preferred_column: None, ..self }
        }
    }

    /// The column that a vertical move aims for.
    pub open spec fn goal_column(self) -> int {
        match self.preferred_column {
            Some(p) => p,
            None => self.column(),
        }
    }

    pub open spec fn move_up(self) -> TextModel {
        if self.line() == 0 {
            self
        } else {
            TextModel {
                text: self.text,
                cursor: position_on_line(self.text, self.line() - 1, self.goal_column()),
                preferred_column: Some(self.goal_column()),
            }
        }
    }

    pub open spec fn move_down(self) -> TextModel {
        if self.line() >= newline_count(self.text) {
            self
        } else {
            TextModel {
                text: self.text,
                cursor: position_on_line(self.text, self.line() + 1, self.goal_column()),
                preferred_column: Some(self.goal_column()),
            }
        }
    }
}


pub proof fn lemma_newline_count_take_succ(s: Seq<char>, k: int)
    requires
        0 <= k < s.len(),
    ensures
        newline_count(s.take(k + 1)) == newline_count(s.take(k)) + if s[k] == '\n' {
            1nat
        } else {
            0nat
        },
{
    assert(s.take(k + 1).drop_last() =~= s.take(k));
}

pub proof fn lemma_take_full(s: Seq<char>)
    ensures
        s.take(s.len() as int) =~= s,
{
}

pub proof fn lemma_newline_count_monotone(s: Seq<char>, a: int, b: int)
    requires
        0 <= a <= b <= s.len(),
    ensures
        newline_count(s.take(a)) <= newline_count(s.take(b)),
    decreases b - a,
{
    if a < b {
        lemma_newline_count_take_succ(s, b - 1);
        lemma_newline_count_monotone(s, a, b - 1);
    }
}

pub proof fn lemma_line_start_bounds(s: Seq<char>, k: int)
    requires
        0 <= k <= s.len(),
    ensures
        0 <= line_start(s, k) <= k,
    decreases k,
{
    if k > 0 && s[k - 1] != '\n' {
        lemma_line_start_bounds(s, k - 1);
    }
}

pub proof fn lemma_line_end_bounds(s: Seq<char>, k: int)
    requires
        0 <= k <= s.len(),
    ensures
        k <= line_end(s, k) <= s.len(),
    decreases s.len() - k,
{
    if k < s.len() && s[k] != '\n' {
        lemma_line_end_bounds(s, k + 1);
    }
}

/// Two positions with the same number of newlines before them share a line.
pub proof fn lemma_same_line(s: Seq<char>, a: int, b: int)
    requires
        0 <= a <= b <= s.len(),
        line_of(s, a) == line_of(s, b),
    ensures
        line_start(s, a) == line_start(s, b),
        line_end(s, a) == line_end(s, b),
    decreases b - a,
{
    if a < b {
        lemma_newline_count_take_succ(s, b - 1);
        lemma_newline_count_monotone(s, a, b - 1);
        assert(s[b - 1] != '\n');
        lemma_same_line(s, a, b - 1);
    }
}

/// A line and a clamped column name at most one position.
pub proof fn lemma_position_unique(s: Seq<char>, a: int, b: int, line: int, col: int)
    requires
        is_position(s, a, line, col),
        is_position(s, b, line, col),
    ensures
        a == b,
{
    if a < b {
        lemma_same_line(s, a, b);
    } else if b < a {
        lemma_same_line(s, b, a);
    }
}

/// `position_on_line` is the position that satisfies `is_position`.
pub proof fn lemma_position_on_line(s: Seq<char>, k: int, line: int, col: int)
    requires
        is_position(s, k, line, col),
    ensures
        position_on_line(s, line, col) == k,
{
    let j = position_on_line(s, line, col);
    assert(is_position(s, j, line, col));
    lemma_position_unique(s, j, k, line, col);
}

/// From a line start `i` on line `line`, walking right finds the position
/// for any column.
proof fn lemma_position_exists_from(s: Seq<char>, i: int, start: int, line: int, col: int)
    requires
        start <= i <= s.len(),
        0 <= col,
        i - start <= col,
        line_of(s, i) == line,
        line_start(s, i) == start,
    ensures
        exists|k: int| is_position(s, k, line, col),
    decreases s.len() - i,
{
    lemma_line_end_bounds(s, i);
    if i - start == col || i == s.len() || s[i] == '\n' {
        assert(is_position(s, i, line, col));
    } else {
        lemma_newline_count_take_succ(s, i);
        lemma_position_exists_from(s, i + 1, start, line, col);
    }
}

/// Walking right from `i`, the start of line `line` is reached.
proof fn lemma_line_start_reached(s: Seq<char>, i: int, line: int, col: int)
    requires
        0 <= i <= s.len(),
        0 <= col,
        line_of(s, i) <= line <= newline_count(s),
        line_of(s, i) == line ==> line_start(s, i) == i,
    ensures
        exists|k: int| is_position(s, k, line, col),
    decreases s.len() - i,
{
    lemma_take_full(s);
    if line_of(s, i) == line {
        lemma_position_exists_from(s, i, i, line, col);
    } else {
        lemma_newline_count_take_succ(s, i);
        lemma_line_start_reached(s, i + 1, line, col);
    }
}

/// Every existing line has a position for every column.
pub proof fn lemma_position_exists(s: Seq<char>, line: int, col: int)
    requires
        0 <= line <= newline_count(s),
        0 <= col,
    ensures
        is_position(s, position_on_line(s, line, col), line, col),
{
    assert(s.take(0) =~= Seq::<char>::empty());
    lemma_line_start_reached(s, 0, line, col);
}

/// The cursor sits on its own line at its own column.
proof fn lemma_cursor_is_position(m: TextModel)
    requires
        m.wf(),
    ensures
        is_position(m.text, m.cursor, m.line(), m.column()),
        position_on_line(m.text, m.line(), m.column()) == m.cursor,
        m.line() <= newline_count(m.text),
        0 <= m.column() <= line_length_at(m.text, m.cursor),
{
    lemma_line_end_bounds(m.text, m.cursor);
    lemma_line_start_bounds(m.text, m.cursor);
    lemma_position_on_line(m.text, m.cursor, m.line(), m.column());
    lemma_take_full(m.text);
    lemma_newline_count_monotone(m.text, m.cursor, m.text.len() as int);
}

/// Every edit keeps the model well formed.
pub proof fn lemma_edits_preserve_wf(m: TextModel, c: char)
    requires
        m.wf(),
    ensures
        TextModel::fresh(m.text).wf(),
        m.insert_char(c).wf(),
        m.backspace().wf(),
        m.move_left().wf(),
        m.move_right().wf(),
        m.move_up().wf(),
        m.move_down().wf(),
{
    lemma_cursor_is_position(m);
    if m.line() > 0 {
        lemma_position_exists(m.text, m.line() - 1, m.goal_column());
    }
    if m.line() < newline_count(m.text) {
        lemma_position_exists(m.text, m.line() + 1, m.goal_column());
    }
}

/// A buffer made from `s` and read back at once gives `s`.
pub proof fn lemma_round_trip(s: Seq<char>)
    ensures
        TextModel::fresh(s).text == s,
{
}

/// Inserting a character and then deleting it restores the text and cursor.
pub proof fn lemma_insert_backspace(m: TextModel, c: char)
    requires
        m.wf(),
    ensures
        m.insert_char(c).backspace().text == m.text,
        m.insert_char(c).backspace().cursor == m.cursor,
{
    assert(m.text.insert(m.cursor, c).remove(m.cursor) =~= m.text);
}

/// In a well-formed buffer the cursor is a character boundary of the
/// text's UTF-8 encoding; with the edits keeping the model well formed,
/// this holds after any sequence of them.
pub proof fn lemma_cursor_on_char_boundary(m: TextModel)
    requires
        m.wf(),
    ensures
        is_char_boundary_of(m.text, m.byte_offset() as int),
{
    assert(0 <= m.cursor <= m.text.len() && m.byte_offset() == utf8_len(m.text.take(m.cursor)));
}

/// With no remembered column, moving down and back up returns the cursor
/// to where it was.
pub proof fn lemma_down_up(m: TextModel)
    requires
        m.wf(),
        m.preferred_column is None,
        m.line() < newline_count(m.text),
    ensures
        m.move_down().move_up().cursor == m.cursor,
{
    lemma_cursor_is_position(m);
    let c = m.column();
    lemma_position_exists(m.text, m.line() + 1, c);
}

/// With no remembered column, moving down twice and back up twice returns
/// the cursor to where it was, even across a shorter middle line.
pub proof fn lemma_sticky_column(m: TextModel)
    requires
        m.wf(),
        m.preferred_column is None,
        m.line() + 2 <= newline_count(m.text),
    ensures
        m.move_down().move_down().move_up().move_up().cursor == m.cursor,
        m.move_down().move_down().move_up().move_up().preferred_column == Some(m.column()),
{
    lemma_cursor_is_position(m);
    let c = m.column();
    lemma_position_exists(m.text, m.line() + 1, c);
    lemma_position_exists(m.text, m.line() + 2, c);
}

/// A multiline text buffer with a cursor, used while a description is edited.
///
/// The text is held twice: as characters, where edits and the cursor work
/// (the cursor is a character index, so it can never split a multi-byte
/// character), and as a string that `text` lends out. The two always agree.
pub struct DescriptionEditState {
    text_buffer: String,
    chars: Vec<char>,
    cursor: usize,
    /// Column that consecutive vertical moves aim for.
    preferred_column: Option<usize>,
}

impl View for DescriptionEditState {
    type V = TextModel;

    closed spec fn view(&self) -> TextModel {
        TextModel {
            text: self.chars@,
            cursor: self.cursor as int,
            preferred_column: match self.preferred_column {
                Some(p) => Some(p as int),
                None => None,
            },
        }
    }
}

impl DescriptionEditState {
    #[verifier::type_invariant]
    closed spec fn inv(&self) -> bool {
        &&& self.text_buffer@ == self.chars@
        &&& self.cursor <= self.chars.len()
    }

    pub fn new(initial_text: String) -> (r: Self)
        ensures
            r@ == TextModel::fresh(initial_text@),
            r@.wf(),
    {
        let chars = chars_of(initial_text.as_str());
        let cursor = chars.len();
        DescriptionEditState { text_buffer: initial_text, chars, cursor, preferred_column: None }
    }

    pub fn text(&self) -> (r: &str)
        ensures
            r@ == self@.text,
    {
        proof {
            use_type_invariant(self);
        }
        self.text_buffer.as_str()
    }

    /// Newlines before position `k`.
    fn get_line_at_offset(&self, k: usize) -> (r: usize)
        requires
            k <= self@.text.len(),
        ensures
            r == line_of(self@.text, k as int),
    {
        let mut n: usize = 0;
        let mut i: usize = 0;
        while i < k
            invariant
                i <= k <= self.chars.len(),
                n <= i,
                n == newline_count(self.chars@.take(i as int)),
            decreases k - i,
        {
            proof {
                lemma_newline_count_take_succ(self.chars@, i as int);
            }
            if self.chars[i] == '\n' {
                n = n + 1;
            }
            i = i + 1;
        }
        n
    }

    /// Characters between the start of `k`'s line and `k`.
    fn get_column_at_offset(&self, k: usize) -> (r: usize)
        requires
            k <= self@.text.len(),
        ensures
            r == column_of(self@.text, k as int),
    {
        let mut i: usize = k;
        while i > 0 && self.chars[i - 1] != '\n'
            invariant
                i <= k <= self.chars.len(),
                line_start(self.chars@, i as int) == line_start(self.chars@, k as int),
            decreases i,
        {
            i = i - 1;
        }
        k - i
    }

    fn offset_to_line_col(&self, k: usize) -> (r: (usize, usize))
        requires
            k <= self@.text.len(),
        ensures
            r.0 == line_of(self@.text, k as int),
            r.1 == column_of(self@.text, k as int),
    {
        (self.get_line_at_offset(k), self.get_column_at_offset(k))
    }

    /// Zero-based line and column of the cursor.
    pub fn cursor_position(&self) -> (r: (usize, usize))
        ensures
            r.0 == self@.line(),
            r.1 == self@.column(),
    {
        proof {
            use_type_invariant(self);
        }
        self.offset_to_line_col(self.cursor)
    }

    /// Newlines in the whole text: the index of the last line.
    fn last_line_index(&self) -> (r: usize)
        ensures
            r == newline_count(self@.text),
    {
        proof {
            lemma_take_full(self.chars@);
        }
        self.get_line_at_offset(self.chars.len())
    }

    /// The position on line `target_line` at column `target_col`, clamped to
    /// the end of that line; the end of the text when there is no such line.
    fn line_col_to_offset(&self, target_line: usize, target_col: usize) -> (r: usize)
        ensures
            target_line <= newline_count(self@.text) ==> is_position(
                self@.text,
                r as int,
                target_line as int,
                target_col as int,
            ),
            target_line > newline_count(self@.text) ==> r == self@.text.len(),
    {
        if target_line > self.last_line_index() {
            return self.chars.len();
        }
        let ghost s = self.chars@;
        let len = self.chars.len();
        proof {
            lemma_take_full(s);
        }
        let mut i: usize = 0;
        let mut line: usize = 0;
        while line < target_line
            invariant
                s == self.chars@,
                len == s.len(),
                i <= len,
                target_line <= newline_count(s),
                newline_count(s.take(len as int)) == newline_count(s),
                line <= target_line,
                line == newline_count(s.take(i as int)),
                line == target_line ==> line_start(s, i as int) == i,
            decreases len - i,
        {
            if i >= len {
                assert(false);
            }
            proof {
                lemma_newline_count_take_succ(s, i as int);
            }
            if self.chars[i] == '\n' {
                line = line + 1;
            }
            i = i + 1;
        }
        let start = i;
        let mut col: usize = 0;
        proof {
            lemma_line_end_bounds(s, i as int);
        }
        while col < target_col && i < len && self.chars[i] != '\n'
            invariant
                s == self.chars@,
                len == s.len(),
                start <= i <= len,
                col == i - start,
                line_of(s, i as int) == target_line,
                line_start(s, i as int) == start,
                line_end(s, i as int) == line_end(s, start as int),
                i <= line_end(s, i as int),
                col <= target_col,
            decreases len - i,
        {
            proof {
                lemma_newline_count_take_succ(s, i as int);
                lemma_line_end_bounds(s, i as int + 1);
            }
            i = i + 1;
            col = col + 1;
        }
        i
    }

    pub fn insert_char(&mut self, c: char)
        ensures
            final(self)@ == old(self)@.insert_char(c),
            final(self)@.wf(),
    {
        proof {
            use_type_invariant(&*self);
        }
        let mut chars = copy_chars(&self.chars);
        chars.insert(self.cursor, c);
        let n = chars.len();
        assert(self.cursor + 1 <= n);
        let text_buffer = string_of_chars(&chars);
        *self = DescriptionEditState {
            text_buffer,
            chars,
            cursor: self.cursor + 1,
            preferred_column: None,
        };
    }

    pub fn insert_newline(&mut self)
        ensures
            final(self)@ == old(self)@.insert_char('\n'),
            final(self)@.wf(),
    {
        self.insert_char('\n');
    }

    pub fn backspace(&mut self)
        ensures
            final(self)@ == old(self)@.backspace(),
            final(self)@.wf(),
    {
        proof {
            use_type_invariant(&*self);
        }
        if self.cursor > 0 {
            let mut chars = copy_chars(&self.chars);
            chars.remove(self.cursor - 1);
            let text_buffer = string_of_chars(&chars);
            *self = DescriptionEditState {
                text_buffer,
                chars,
                cursor: self.cursor - 1,
                preferred_column: None,
            };
        }
    }

    pub fn move_cursor_left(&mut self)
        ensures
            final(self)@ == old(self)@.move_left(),
            final(self)@.wf(),
    {
        proof {
            use_type_invariant(&*self);
        }
        if self.cursor > 0 {
            self.cursor = self.cursor - 1;
            self.preferred_column = None;
        }
    }

    pub fn move_cursor_right(&mut self)
        ensures
            final(self)@ == old(self)@.move_right(),
            final(self)@.wf(),
    {
        proof {
            use_type_invariant(&*self);
        }
        if self.cursor < self.chars.len() {
            self.cursor = self.cursor + 1;
            self.preferred_column = None;
        }
    }

    pub fn move_cursor_up(&mut self)
        ensures
            final(self)@ == old(self)@.move_up(),
            final(self)@.wf(),
    {
        proof {
            use_type_invariant(&*self);
        }
        let current_line = self.get_line_at_offset(self.cursor);
        if current_line == 0 {
            return;
        }
        let current_col = self.get_column_at_offset(self.cursor);
        let preferred = match self.preferred_column {
            Some(p) => p,
            None => current_col,
        };
        proof {
            lemma_newline_count_monotone(self.chars@, self.cursor as int, self.chars@.len() as int);
            lemma_take_full(self.chars@);
        }
        let k = self.line_col_to_offset(current_line - 1, preferred);
        proof {
            lemma_position_on_line(self.chars@, k as int, current_line - 1, preferred as int);
        }
        self.preferred_column = Some(preferred);
        self.cursor = k;
    }

    pub fn move_cursor_down(&mut self)
        ensures
            final(self)@ == old(self)@.move_down(),
            final(self)@.wf(),
    {
        proof {
            use_type_invariant(&*self);
        }
        let last_line = self.last_line_index();
        let current_line = self.get_line_at_offset(self.cursor);
        if current_line >= last_line {
            return;
        }
        let current_col = self.get_column_at_offset(self.cursor);
        let preferred = match self.preferred_column {
            Some(p) => p,
            None => current_col,
        };
        let k = self.line_col_to_offset(current_line + 1, preferred);
        proof {
            lemma_position_on_line(self.chars@, k as int, current_line + 1, preferred as int);
        }
        self.preferred_column = Some(preferred);
        self.cursor = k;
    }

    pub fn into_string(self) -> (r: String)
        ensures
            r@ == self@.text,
    {
        proof {
            use_type_invariant(&self);
        }
        self.text_buffer
    }
}

} // verus!
