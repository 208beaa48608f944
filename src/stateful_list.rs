//! A list with a cursor that wraps around at both ends.
use vstd::prelude::*;

verus! {

/// The items of a list and the index of the highlighted one.
#[derive(Debug, Clone)]
pub struct StatefulList<T> {
    pub selected: Option<usize>,
    pub items: Vec<T>,
}

/// The cursor after one step forward on a list of `len` items: wraps from the
/// last index to the first; nothing moves on an empty list.
pub open spec fn next_index(selected: Option<usize>, len: nat) -> Option<usize> {
    if len == 0 {
        selected
    } else {
        match selected {
            Some(i) => if i + 1 >= len {
                Some(0usize)
            } else {
                Some((i + 1) as usize)
            },
            None => Some(0usize),
        }
    }
}

/// The cursor after one step back on a list of `len` items: wraps from the
/// first index to the last; nothing moves on an empty list.
pub open spec fn previous_index(selected: Option<usize>, len: nat) -> Option<usize> {
    if len == 0 {
        selected
    } else {
        match selected {
            Some(i) => if i == 0 {
                Some((len - 1) as usize)
            } else {
                Some((i - 1) as usize)
            },
            None => Some(0usize),
        }
    }
}

/// `next_index` applied `n` times.
pub open spec fn next_times(selected: Option<usize>, len: nat, n: nat) -> Option<usize>
    decreases n,
{
    if n == 0 {
        selected
    } else {
        next_index(next_times(selected, len, (n - 1) as nat), len)
    }
}

/// `previous_index` applied `n` times.
pub open spec fn previous_times(selected: Option<usize>, len: nat, n: nat) -> Option<usize>
    decreases n,
{
    if n == 0 {
        selected
    } else {
        previous_index(previous_times(selected, len, (n - 1) as nat), len)
    }
}

impl<T> StatefulList<T> {
    /// The cursor is absent or points at an item.
    pub open spec fn wf(&self) -> bool {
        match self.selected {
            Some(i) => i < self.items@.len(),
            None => true,
        }
    }

    /// A list over `items` with the cursor on the first item, or no cursor
    /// when there are none.
    pub fn with_items(items: Vec<T>) -> (r: Self)
        ensures
            r.items@ == items@,
            r.selected == (if items@.len() > 0 {
                Some(0usize)
            } else {
                None
            }),
            r.wf(),
    {
        let selected = if items.len() > 0 {
            Some(0)
        } else {
            None
        };
        StatefulList { selected, items }
    }

    /// Moves the cursor one item forward, wrapping to the first.
    pub fn next(&mut self)
        requires
            old(self).wf(),
        ensures
            final(self).items@ == old(self).items@,
            final(self).selected == next_index(old(self).selected, old(self).items@.len()),
            final(self).wf(),
    {
        let len = self.items.len();
        if len > 0 {
            let next = match self.selected {
                Some(i) => if i >= len - 1 {
                    0
                } else {
                    i + 1
                },
                None => 0,
            };
            self.selected = Some(next);
        }
    }

    /// Moves the cursor one item back, wrapping to the last.
    pub fn previous(&mut self)
        requires
            old(self).wf(),
        ensures
            final(self).items@ == old(self).items@,
            final(self).selected == previous_index(old(self).selected, old(self).items@.len()),
            final(self).wf(),
    {
        let len = self.items.len();
        if len > 0 {
            let prev = match self.selected {
                Some(i) => if i == 0 {
                    len - 1
                } else {
                    i - 1
                },
                None => 0,
            };
            self.selected = Some(prev);
        }
    }

    /// Puts the cursor on the last item; nothing moves on an empty list.
    pub fn last(&mut self)
        requires
            old(self).wf(),
        ensures
            final(self).items@ == old(self).items@,
            final(self).selected == (if old(self).items@.len() > 0 {
                Some((old(self).items@.len() - 1) as usize)
            } else {
                old(self).selected
            }),
            final(self).wf(),
    {
        if self.items.len() > 0 {
            self.selected = Some(self.items.len() - 1);
        }
    }

    /// Puts the cursor on the first item; nothing moves on an empty list.
    pub fn first(&mut self)
        requires
            old(self).wf(),
        ensures
            final(self).items@ == old(self).items@,
            final(self).selected == (if old(self).items@.len() > 0 {
                Some(0usize)
            } else {
                old(self).selected
            }),
            final(self).wf(),
    {
        if self.items.len() > 0 {
            self.selected = Some(0);
        }
    }
}

/// From an index `i` of a list of `len` items, `k` steps forward land on
/// `(i + k) mod len`.
proof fn lemma_next_times_mod(i: usize, len: nat, k: nat)
    requires
        i < len,
        len <= usize::MAX,
    ensures
        next_times(Some(i), len, k) matches Some(j) && j as int == (i + k) % (len as int),
    decreases k,
{
    if k == 0 {
        vstd::arithmetic::div_mod::lemma_small_mod(i as nat, len);
    } else {
        lemma_next_times_mod(i, len, (k - 1) as nat);
        let j = (i + k - 1) % (len as int);
        vstd::arithmetic::div_mod::lemma_mod_bound((i + k - 1) as int, len as int);
        assert(next_times(Some(i), len, (k - 1) as nat) == Some(j as usize));
        vstd::arithmetic::div_mod::lemma_add_mod_noop((i + k - 1) as int, 1, len as int);
        assert(((i + k - 1) as int + 1) == i + k);
        if len > 1 {
            vstd::arithmetic::div_mod::lemma_small_mod(1, len);
            assert((j + 1) % (len as int) == (i + k) % (len as int));
            if j + 1 >= len {
                vstd::arithmetic::div_mod::lemma_mod_self_0(len as int);
            } else {
                vstd::arithmetic::div_mod::lemma_small_mod((j + 1) as nat, len);
            }
        } else {
            vstd::arithmetic::div_mod::lemma_mod_self_0(1);
            vstd::arithmetic::div_mod::lemma_mod_bound((i + k) as int, 1);
        }
    }
}

/// From an index `i` of a list of `len` items, `k` steps back land on
/// `(i - k) mod len`.
proof fn lemma_previous_times_mod(i: usize, len: nat, k: nat)
    requires
        i < len,
        len <= usize::MAX,
    ensures
        previous_times(Some(i), len, k) matches Some(j) && j as int == (i as int - k) % (len as int),
    decreases k,
{
    if k == 0 {
        vstd::arithmetic::div_mod::lemma_small_mod(i as nat, len);
    } else {
        lemma_previous_times_mod(i, len, (k - 1) as nat);
        let j = (i as int - (k - 1)) % (len as int);
        vstd::arithmetic::div_mod::lemma_mod_bound(i as int - (k - 1), len as int);
        assert(previous_times(Some(i), len, (k - 1) as nat) == Some(j as usize));
        vstd::arithmetic::div_mod::lemma_sub_mod_noop(i as int - (k - 1), 1, len as int);
        assert((i as int - (k - 1)) - 1 == i as int - k);
        if len > 1 {
            vstd::arithmetic::div_mod::lemma_small_mod(1, len);
            assert((j - 1) % (len as int) == (i as int - k) % (len as int));
            if j == 0 {
                vstd::arithmetic::div_mod::lemma_mod_add_multiples_vanish(-1, len as int);
                vstd::arithmetic::div_mod::lemma_small_mod((len - 1) as nat, len);
            } else {
                vstd::arithmetic::div_mod::lemma_small_mod((j - 1) as nat, len);
            }
        } else {
            vstd::arithmetic::div_mod::lemma_mod_self_0(1);
            vstd::arithmetic::div_mod::lemma_mod_bound(i as int - k, 1);
        }
    }
}

/// Stepping forward as many times as the list has items brings the cursor
/// back to the index it started from.
pub proof fn lemma_next_wraps_around(start: usize, len: nat)
    requires
        start < len,
        len <= usize::MAX,
    ensures
        next_times(Some(start), len, len) == Some(start),
{
    lemma_next_times_mod(start, len, len);
    vstd::arithmetic::div_mod::lemma_mod_add_multiples_vanish(start as int, len as int);
    vstd::arithmetic::div_mod::lemma_small_mod(start as nat, len);
}

/// Stepping back as many times as the list has items brings the cursor back
/// to the index it started from.
pub proof fn lemma_previous_wraps_around(start: usize, len: nat)
    requires
        start < len,
        len <= usize::MAX,
    ensures
        previous_times(Some(start), len, len) == Some(start),
{
    lemma_previous_times_mod(start, len, len);
    vstd::arithmetic::div_mod::lemma_mod_sub_multiples_vanish(start as int, len as int);
    vstd::arithmetic::div_mod::lemma_small_mod(start as nat, len);
}

} // verus!
