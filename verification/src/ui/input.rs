//! A one-line text field with a cursor, edited character by character.
use vstd::prelude::*;
use vstd::string::*;
use vstd::utf8::*;
use crate::text::{lemma_encode_utf8_prefix_len, lemma_encode_utf8_take_step, utf8_width, lemma_encode_utf8_concat};

verus! {

/// Whether keystrokes edit the field or drive the interface.
#[derive(Clone, Copy, Debug, PartialEq, Eq, Structural)]
pub enum InputMode {
    Normal,
    Editing,
}

/// The text being typed and the cursor, a position counted in characters.
pub struct Input {
    pub mode: InputMode,
    pub value: String,
    /// Cursor position, in characters from the start of `value`.
    pub cx: usize,
    /// Whether the password popup shows the text masked.
    pub hidden_password: bool,
}

/// The content of a text field.
pub struct InputView {
    pub mode: InputMode,
    pub value: Seq<char>,
    pub cx: usize,
    pub hidden_password: bool,
}

impl View for Input {
    type V = InputView;

    open spec fn view(&self) -> InputView {
        InputView { mode: self.mode, value: self.value@, cx: self.cx, hidden_password: self.hidden_password }
    }
}

/// The smaller of two integers.
pub open spec fn min_int(a: int, b: int) -> int {
    if a <= b { a } else { b }
}

/// `p + 1`, stopping at `usize::MAX`.
pub open spec fn succ_sat(p: usize) -> int {
    if p == usize::MAX { p as int } else { p + 1 }
}

/// `p - 1`, stopping at zero.
pub open spec fn pred_sat(p: usize) -> int {
    if p == 0 { 0 } else { p - 1 }
}

/// The field after moving the cursor one character left (within the text).
pub open spec fn spec_move_left(v: InputView) -> InputView {
    InputView { cx: min_int(pred_sat(v.cx), v.value.len() as int) as usize, ..v }
}

/// The field after moving the cursor one character right (within the text).
pub open spec fn spec_move_right(v: InputView) -> InputView {
    InputView { cx: min_int(succ_sat(v.cx), v.value.len() as int) as usize, ..v }
}

/// The field after typing `c`: it goes in at the cursor (or at the end, for a cursor past the
/// end) and the cursor moves past it.
pub open spec fn spec_enter_char(v: InputView, c: char) -> InputView {
    InputView {
        value: v.value.insert(min_int(v.cx as int, v.value.len() as int), c),
        cx: min_int(succ_sat(v.cx), v.value.len() + 1 as int) as usize,
        ..v
    }
}

/// The field after a backspace: the character before the cursor goes and the cursor moves
/// onto its place; nothing happens with the cursor at the start.
pub open spec fn spec_delete_char(v: InputView) -> InputView {
    if v.cx == 0 {
        v
    } else {
        let s = v.value;
        let t = s.subrange(0, min_int(v.cx - 1, s.len() as int)) + s.subrange(
            min_int(v.cx as int, s.len() as int),
            s.len() as int,
        );
        InputView { value: t, cx: min_int(v.cx - 1, t.len() as int) as usize, ..v }
    }
}

/// Inserts `ch` at byte offset `idx` with std's `String::insert`.
/// Claimed: when `idx` is the byte length of the first `k` characters (a character boundary,
/// which std requires), the characters of the string become the old ones with `ch` inserted at
/// position `k`.
#[verifier::external_body]
fn string_insert(s: &mut String, idx: usize, ch: char)
    requires
        exists|k: int| 0 <= k <= old(s)@.len() && #[trigger] encode_utf8(old(s)@.take(k)).len() == idx,
    ensures
        forall|k: int|
            0 <= k <= old(s)@.len() && #[trigger] encode_utf8(old(s)@.take(k)).len() == idx
                ==> final(s)@ == old(s)@.insert(k, ch),
{
    s.insert(idx, ch)
}

/// A longer prefix encodes to strictly more bytes.
proof fn lemma_prefix_byte_len_strict(s: Seq<char>, a: int, b: int)
    requires
        0 <= a < b <= s.len(),
    ensures
        encode_utf8(s.take(a)).len() < encode_utf8(s.take(b)).len(),
{
    assert(s.take(b) =~= s.take(a) + s.subrange(a, b));
    lemma_encode_utf8_concat(s.take(a), s.subrange(a, b));
    let rest = s.subrange(a, b);
    vstd::utf8::char_is_scalar(rest[0]);
    assert(encode_scalar(rest[0] as u32).len() >= 1);
    assert(encode_utf8(rest).len() >= 1);
}

/// Two prefixes with the same encoded length are the same prefix.
proof fn lemma_prefix_byte_len_injective(s: Seq<char>, a: int, b: int)
    requires
        0 <= a <= s.len(),
        0 <= b <= s.len(),
        encode_utf8(s.take(a)).len() == encode_utf8(s.take(b)).len(),
    ensures
        a == b,
{
    if a < b {
        lemma_prefix_byte_len_strict(s, a, b);
    } else if b < a {
        lemma_prefix_byte_len_strict(s, b, a);
    }
}

impl Input {
    /// An empty field in normal mode with the cursor at the start and the text masked.
    pub fn new() -> (i: Self)
        ensures
            i.mode == InputMode::Normal,
            i.value@ == Seq::<char>::empty(),
            i.cx == 0,
            i.hidden_password,
    {
        Self { mode: InputMode::Normal, value: String::new(), cx: 0, hidden_password: true }
    }

    /// Moves the cursor one character left, keeping it within the text.
    pub fn move_cursor_left(&mut self)
        ensures
            final(self)@ == spec_move_left(old(self)@),
    {
        let cursor_moved_left = if self.cx == 0 { 0 } else { self.cx - 1 };
        self.cx = self.clamp_cursor(cursor_moved_left);
    }

    /// Moves the cursor one character right, keeping it within the text.
    pub fn move_cursor_right(&mut self)
        ensures
            final(self)@ == spec_move_right(old(self)@),
    {
        let cursor_moved_right = if self.cx == usize::MAX { usize::MAX } else { self.cx + 1 };
        self.cx = self.clamp_cursor(cursor_moved_right);
    }

    /// Inserts `new_char` at the cursor and moves the cursor past it.
    pub fn enter_char(&mut self, new_char: char)
        ensures
            final(self)@ == spec_enter_char(old(self)@, new_char),
    {
        let index = self.byte_index();
        let ghost k = min_int(self.cx as int, self.value@.len() as int);
        assert(encode_utf8(self.value@.take(k)).len() == index);
        proof {
            let s = self.value@;
            assert forall|j: int| 0 <= j <= s.len() && #[trigger] encode_utf8(s.take(j)).len() == index
                implies j == k by {
                lemma_prefix_byte_len_injective(s, j, k);
            }
        }
        string_insert(&mut self.value, index, new_char);
        self.move_cursor_right();
    }

    /// The byte offset of the cursor: the byte length of the characters before it, or the
    /// length of the whole text when the cursor stands past its end.
    fn byte_index(&self) -> (n: usize)
        ensures
            n == encode_utf8(self.value@.take(min_int(self.cx as int, self.value@.len() as int))).len(),
    {
        let ghost s = self.value@;
        let total = self.value.as_str().as_bytes().len();
        let count = self.value.as_str().unicode_len();
        let target = if self.cx < count { self.cx } else { count };
        let mut n: usize = 0;
        let mut i: usize = 0;
        assert(s.take(0) =~= Seq::<char>::empty());
        for c in it: self.value.as_str().chars()
            invariant
                s == self.value@,
                it.seq() == s,
                count == s.len(),
                target <= count,
                target == min_int(self.cx as int, s.len() as int),
                total == encode_utf8(s).len(),
                i == it.index(),
                i <= count,
                n == encode_utf8(s.take(min_int(i as int, target as int))).len(),
        {
            if i < target {
                proof {
                    lemma_encode_utf8_take_step(s, i as int);
                    lemma_encode_utf8_prefix_len(s, i + 1);
                }
                n = n + utf8_width(c);
            }
            i = i + 1;
        }
        n
    }

    /// Deletes the character before the cursor and moves the cursor onto its place; does
    /// nothing when the cursor is at the start.
    pub fn delete_char(&mut self)
        ensures
            final(self)@ == spec_delete_char(old(self)@),
    {
        let is_not_cursor_leftmost = self.cx != 0;
        if is_not_cursor_leftmost {
            let current_index = self.cx;
            let from_left_to_current_index = current_index - 1;
            let count = self.value.as_str().unicode_len();
            let before_end = if from_left_to_current_index < count { from_left_to_current_index } else { count };
            let after_start = if current_index < count { current_index } else { count };
            let mut joined = String::from_str(self.value.as_str().substring_char(0, before_end));
            joined.append(self.value.as_str().substring_char(after_start, count));
            self.value = joined;
            self.move_cursor_left();
        }
    }

    /// `new_cursor_pos`, brought within the text.
    fn clamp_cursor(&self, new_cursor_pos: usize) -> (p: usize)
        ensures
            p == min_int(new_cursor_pos as int, self.value@.len() as int),
    {
        let count = self.value.as_str().unicode_len();
        if new_cursor_pos > count { count } else { new_cursor_pos }
    }

    /// Puts the cursor back at the start.
    pub fn reset_cursor(&mut self)
        ensures
            final(self)@ == (InputView { cx: 0, ..old(self)@ }),
    {
        self.cx = 0;
    }
}

/// The cursor stands within the text (at most one past its last character).
pub open spec fn cursor_in_text(v: InputView) -> bool {
    v.cx <= v.value.len()
}

/// Every edit keeps the cursor within the text.
pub proof fn lemma_edits_keep_cursor_in_text(v: InputView, c: char)
    requires
        cursor_in_text(v),
    ensures
        cursor_in_text(spec_move_left(v)),
        cursor_in_text(spec_move_right(v)),
        cursor_in_text(spec_enter_char(v, c)),
        cursor_in_text(spec_delete_char(v)),
{
}

/// A backspace right after typing a character takes the field back to where it was, unless
/// the cursor already stands at the last position a `usize` can count.
pub proof fn lemma_delete_undoes_enter(v: InputView, c: char)
    requires
        cursor_in_text(v),
        v.cx < usize::MAX,
    ensures
        spec_delete_char(spec_enter_char(v, c)) == v,
{
    let w = spec_enter_char(v, c);
    let k = v.cx as int;
    assert(w.cx == k + 1);
    assert(w.value == v.value.insert(k, c));
    let t = w.value.subrange(0, k) + w.value.subrange(k + 1, w.value.len() as int);
    assert(t =~= v.value);
}

/// Moving the cursor right and then left returns it to where it was, unless it was already at
/// the end of the text.
pub proof fn lemma_right_then_left(v: InputView)
    requires
        v.cx < v.value.len(),
        v.value.len() <= usize::MAX,
    ensures
        spec_move_left(spec_move_right(v)) == v,
{
    assert(spec_move_right(v).cx == v.cx + 1);
}

} // verus!
