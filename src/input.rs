//! A single-line text input edited at a cursor that counts characters, not
//! bytes, so that multi-byte text stays intact.

use vstd::prelude::*;
use crate::text::push_char;

verus! {

/// The number of bytes of `c` in UTF-8.
pub open spec fn utf8_len(c: char) -> nat {
    if (c as u32) < 0x80 {
        1
    } else if (c as u32) < 0x800 {
        2
    } else if (c as u32) < 0x10000 {
        3
    } else {
        4
    }
}

/// The number of bytes of `s` in UTF-8.
pub open spec fn utf8_width(s: Seq<char>) -> nat
    decreases s.len(),
{
    if s.len() == 0 {
        0
    } else {
        utf8_width(s.drop_last()) + utf8_len(s.last())
    }
}

pub open spec fn min(a: int, b: int) -> int {
    if a <= b { a } else { b }
}

/// `n - 1`, saturating at 0.
pub open spec fn pred_sat(n: int) -> int {
    if n > 0 { n - 1 } else { 0 }
}

/// Text and cursor after typing `c`: the character goes in at the cursor
/// (at the end when the cursor is past it) and the cursor moves right.
pub open spec fn after_enter(t: Seq<char>, ci: int, c: char) -> (Seq<char>, int) {
    let p = min(ci, t.len() as int);
    let t2 = t.take(p).push(c) + t.skip(p);
    (t2, min(ci + 1, t2.len() as int))
}

/// Text and cursor after a backspace: the character left of the cursor goes
/// and the cursor moves left; nothing changes at position 0.
pub open spec fn after_delete(t: Seq<char>, ci: int) -> (Seq<char>, int) {
    if ci == 0 {
        (t, ci)
    } else {
        let t2 = t.take(min(ci - 1, t.len() as int)) + t.skip(min(ci, t.len() as int));
        (t2, min(ci - 1, t2.len() as int))
    }
}

#[derive(Debug, Clone, PartialEq, Eq)]
pub struct Input {
    pub input: String,
    pub character_index: usize,
}

/// Appends `t[from..to]` to `s`.
fn push_range(s: &mut String, t: &str, from: usize, to: usize)
    requires
        from <= to <= t@.len(),
    ensures
        final(s)@ == old(s)@ + t@.subrange(from as int, to as int),
{
    let ghost start = s@;
    let mut i: usize = from;
    while i < to
        invariant
            from <= i <= to <= t@.len(),
            s@ == start + t@.subrange(from as int, i as int),
        decreases to - i,
    {
        push_char(s, t.get_char(i));
        assert(t@.subrange(from as int, i + 1) =~= t@.subrange(from as int, i as int).push(t@[i as int]));
        i += 1;
    }
}

/// The number of bytes of `c` in UTF-8, as `char::len_utf8` gives it.
pub fn char_len_utf8(c: char) -> (r: usize)
    ensures
        r == utf8_len(c),
{
    let v = c as u32;
    if v < 0x80 {
        1
    } else if v < 0x800 {
        2
    } else if v < 0x10000 {
        3
    } else {
        4
    }
}

impl Input {
    pub fn new() -> (r: Input)
        ensures
            r.input@.len() == 0,
            r.character_index == 0,
    {
        Input { input: String::new(), character_index: 0 }
    }

    /// `new_cursor_pos`, brought down to the number of characters.
    pub fn clamp_cursor(&self, new_cursor_pos: usize) -> (r: usize)
        ensures
            r == min(new_cursor_pos as int, self.input@.len() as int),
    {
        let n = self.input.as_str().unicode_len();
        if new_cursor_pos <= n { new_cursor_pos } else { n }
    }

    pub fn move_cursor_left(&mut self)
        ensures
            final(self).input == old(self).input,
            final(self).character_index <= final(self).input@.len(),
            final(self).character_index == min(pred_sat(old(self).character_index as int), old(self).input@.len() as int),
    {
        let moved = if self.character_index > 0 { self.character_index - 1 } else { 0 };
        self.character_index = self.clamp_cursor(moved);
    }

    pub fn move_cursor_right(&mut self)
        ensures
            final(self).input == old(self).input,
            final(self).character_index <= final(self).input@.len(),
            final(self).character_index == min(old(self).character_index + 1, old(self).input@.len() as int),
    {
        let n = self.input.as_str().unicode_len();
        self.character_index = if self.character_index < n { self.character_index + 1 } else { n };
    }

    /// The byte offset of the cursor in the text; the text's byte length
    /// when the cursor is at or past its end.
    pub fn byte_index(&self) -> (r: usize)
        requires
            utf8_width(self.input@) <= usize::MAX,
        ensures
            r == utf8_width(self.input@.take(min(self.character_index as int, self.input@.len() as int))),
    {
        let s = self.input.as_str();
        let n = s.unicode_len();
        let end = if self.character_index < n { self.character_index } else { n };
        let mut i: usize = 0;
        let mut b: usize = 0;
        while i < end
            invariant
                end <= n == s@.len(),
                s@ == self.input@,
                i <= end,
                b == utf8_width(s@.take(i as int)),
                utf8_width(s@) <= usize::MAX,
            decreases end - i,
        {
            assert(s@.take(i + 1).drop_last() =~= s@.take(i as int));
            proof { lemma_width_prefix(s@, i + 1); }
            b = b + char_len_utf8(s.get_char(i));
            i += 1;
        }
        b
    }

    /// Types `new_char` at the cursor.
    pub fn enter_char(&mut self, new_char: char)
        ensures
            (final(self).input@, final(self).character_index as int)
                == after_enter(old(self).input@, old(self).character_index as int, new_char),
            final(self).character_index <= final(self).input@.len(),
    {
        let old_text = self.input.as_str();
        let n = old_text.unicode_len();
        let p = if self.character_index < n { self.character_index } else { n };
        let mut t = String::new();
        push_range(&mut t, old_text, 0, p);
        push_char(&mut t, new_char);
        push_range(&mut t, old_text, p, n);
        proof {
            let o = old(self).input@;
            assert(o.subrange(0, p as int) =~= o.take(p as int));
            assert(o.subrange(p as int, n as int) =~= o.skip(p as int));
            assert(t@ =~= o.take(p as int).push(new_char) + o.skip(p as int));
        }
        self.input = t;
        self.move_cursor_right();
    }

    /// Deletes the character left of the cursor.
    pub fn delete_char(&mut self)
        ensures
            (final(self).input@, final(self).character_index as int)
                == after_delete(old(self).input@, old(self).character_index as int),
            final(self).character_index <= final(self).input@.len(),
    {
        if self.character_index != 0 {
            let current_index = self.character_index;
            let old_text = self.input.as_str();
            let n = old_text.unicode_len();
            let before = if current_index - 1 < n { current_index - 1 } else { n };
            let after = if current_index < n { current_index } else { n };
            let mut t = String::new();
            push_range(&mut t, old_text, 0, before);
            push_range(&mut t, old_text, after, n);
            proof {
                let o = old(self).input@;
                assert(o.subrange(0, before as int) =~= o.take(before as int));
                assert(o.subrange(after as int, n as int) =~= o.skip(after as int));
                assert(t@ =~= o.take(before as int) + o.skip(after as int));
            }
            self.input = t;
            self.move_cursor_left();
        }
    }

    /// Empties the text and puts the cursor at the start.
    pub fn reset_cursor(&mut self)
        ensures
            final(self).input@.len() == 0,
            final(self).character_index == 0,
    {
        self.character_index = 0;
        self.input = String::new();
    }

    pub fn get_character_index(&self) -> (r: usize)
        ensures
            r == self.character_index,
    {
        self.character_index
    }

    pub fn set_character_index(&self) -> (r: usize)
        ensures
            r == self.character_index,
    {
        self.character_index
    }
}

proof fn lemma_width_prefix(s: Seq<char>, k: int)
    requires
        0 < k <= s.len(),
    ensures
        utf8_width(s.take(k)) == utf8_width(s.take(k - 1)) + utf8_len(s[k - 1]),
        utf8_width(s.take(k)) <= utf8_width(s),
    decreases s.len() - k,
{
    assert(s.take(k).drop_last() =~= s.take(k - 1));
    if k < s.len() {
        lemma_width_prefix(s, k + 1);
    } else {
        assert(s.take(k) =~= s);
    }
}

/// Typing a character at a cursor inside the text and then deleting it
/// gives back the text and cursor exactly, whatever the character's width.
pub proof fn lemma_enter_then_delete(t: Seq<char>, ci: int, c: char)
    requires
        0 <= ci <= t.len(),
    ensures
        after_delete(after_enter(t, ci, c).0, after_enter(t, ci, c).1) == (t, ci),
{
    let t2 = after_enter(t, ci, c).0;
    assert(t2.len() == t.len() + 1);
    assert(t2.take(ci) =~= t.take(ci));
    assert(t2.skip(ci + 1) =~= t.skip(ci));
    assert(t.take(ci) + t.skip(ci) =~= t);
}

/// Every edit leaves the cursor between 0 and the number of characters,
/// wherever it was before.
pub proof fn lemma_cursor_stays_in_text(t: Seq<char>, ci: int, c: char)
    requires
        0 <= ci,
    ensures
        0 <= after_enter(t, ci, c).1 <= after_enter(t, ci, c).0.len(),
        0 <= after_delete(t, ci).1 <= after_delete(t, ci).0.len(),
        0 <= min(pred_sat(ci), t.len() as int) <= t.len(),
        0 <= min(ci + 1, t.len() as int) <= t.len(),
{
}

} // verus!
