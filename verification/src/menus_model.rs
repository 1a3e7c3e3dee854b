//! Presentation-neutral list-menu state shared by menu domains.

use vstd::prelude::*;

verus! {

/// One step of list-menu navigation.
#[derive(Debug, Clone, Copy, PartialEq, Eq, Hash, Structural)]
pub enum ListMenuDirection {
    Up,
    Down,
}

impl ListMenuDirection {
    pub open spec fn spec_delta(self) -> int {
        match self {
            ListMenuDirection::Up => -1,
            ListMenuDirection::Down => 1,
        }
    }

    /// Cursor movement of one step: up is toward the first row.
    pub fn delta(self) -> (r: i32)
        ensures
            r == self.spec_delta(),
    {
        match self {
            ListMenuDirection::Up => -1,
            ListMenuDirection::Down => 1,
        }
    }
}

/// An ordered set of menu options with one authoritative cursor.
#[derive(Debug, Clone, PartialEq, Eq)]
pub struct ListMenuState<T> {
    pub options: Vec<T>,
    pub cursor: usize,
}

impl<T> Default for ListMenuState<T> {
    fn default() -> (r: Self)
        ensures
            r.options@.len() == 0,
            r.cursor == 0,
    {
        ListMenuState { options: Vec::new(), cursor: 0 }
    }
}

/// Cursor reached by moving `delta` rows from `cursor` in a list of `len` rows,
/// wrapping around at both ends.
pub open spec fn wrapped_cursor(cursor: int, delta: int, len: int) -> int {
    (cursor + delta) % len
}

/// The cursor always lands on a row, and moving by `delta` and then by
/// `-delta` brings it back to the row it started on.
pub proof fn law_cursor_wrap_round_trip(cursor: int, delta: int, len: int)
    requires
        0 < len,
        0 <= cursor < len,
    ensures
        0 <= wrapped_cursor(cursor, delta, len) < len,
        wrapped_cursor(wrapped_cursor(cursor, delta, len), -delta, len) == cursor,
{
    vstd::arithmetic::div_mod::lemma_mod_bound(cursor + delta, len);
    vstd::arithmetic::div_mod::lemma_add_mod_noop_right(-delta, cursor + delta, len);
    assert(-delta + (cursor + delta) == cursor);
    vstd::arithmetic::div_mod::lemma_small_mod(cursor as nat, len as nat);
}

impl<T> ListMenuState<T> {
    pub fn new(options: Vec<T>) -> (r: Self)
        ensures
            r.options@ == options@,
            r.cursor == 0,
    {
        ListMenuState { options, cursor: 0 }
    }

    pub open spec fn spec_selected_index(&self) -> Option<usize> {
        if self.options@.len() > 0 && self.cursor < self.options@.len() {
            Some(self.cursor)
        } else {
            None
        }
    }

    /// The option under the cursor, if the cursor is on a row.
    pub fn selected(&self) -> (r: Option<&T>)
        ensures
            r matches Some(t) ==> self.cursor < self.options@.len() && *t == self.options@[self.cursor as int],
            r is None <==> self.cursor >= self.options@.len(),
    {
        if self.cursor < self.options.len() {
            Some(&self.options[self.cursor])
        } else {
            None
        }
    }

    /// Move the cursor by `delta` rows with wrap-around. Returns whether it moved.
    pub fn move_cursor(&mut self, delta: i32) -> (changed: bool)
        requires
            old(self).options@.len() <= i32::MAX,
            old(self).options@.len() > 0 ==> i32::MIN <= (old(self).cursor as i32) + delta <= i32::MAX,
        ensures
            final(self).options@ == old(self).options@,
            old(self).options@.len() == 0 ==> !changed && final(self).cursor == old(self).cursor,
            old(self).options@.len() > 0 ==> {
                let next = wrapped_cursor(
                    (old(self).cursor as i32) as int,
                    delta as int,
                    old(self).options@.len() as int,
                );
                &&& changed == (next != old(self).cursor)
                &&& final(self).cursor == next
            },
    {
        if self.options.len() == 0 {
            return false;
        }
        let len = self.options.len() as i64;
        #[verifier::truncate]
        let c = (self.cursor as i32) as i64;
        let sum: i64 = c + delta as i64;
        let next: i64 = if sum >= 0 {
            sum % len
        } else {
            let m = (-sum) % len;
            if m == 0 { 0 } else { len - m }
        };
        proof {
            let ghost l = len as int;
            if sum >= 0 {
                assert(next == (sum as int) % l);
            } else {
                let ghost q = (-sum as int) / l;
                let ghost m = (-sum as int) % l;
                vstd::arithmetic::div_mod::lemma_fundamental_div_mod(-sum as int, l);
                if m == 0 {
                    assert(sum as int == (-q) * l) by (nonlinear_arith)
                        requires -sum as int == l * q + m, m == 0;
                    vstd::arithmetic::div_mod::lemma_mod_multiples_basic(-q, l);
                } else {
                    assert(sum as int == (-q - 1) * l + (l - m)) by (nonlinear_arith)
                        requires -sum as int == l * q + m;
                    vstd::arithmetic::div_mod::lemma_mod_multiples_vanish(-q - 1, l - m, l);
                    vstd::arithmetic::div_mod::lemma_small_mod((l - m) as nat, l as nat);
                }
            }
        }
        self.set_cursor(next as usize)
    }

    /// Put the cursor on row `index`. Returns false (and changes nothing) when
    /// the row does not exist or is already selected.
    pub fn set_cursor(&mut self, index: usize) -> (changed: bool)
        ensures
            final(self).options@ == old(self).options@,
            changed == (index < old(self).options@.len() && old(self).cursor != index),
            final(self).cursor == (if changed { index } else { old(self).cursor }),
    {
        if index >= self.options.len() || self.cursor == index {
            return false;
        }
        self.cursor = index;
        true
    }

    pub fn selected_index(&self) -> (r: Option<usize>)
        ensures
            r == self.spec_selected_index(),
    {
        if self.options.len() > 0 && self.cursor < self.options.len() {
            Some(self.cursor)
        } else {
            None
        }
    }
}

} // verus!
