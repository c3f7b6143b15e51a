//! Fixed-capacity, insertion-ordered record of conversation turns.
use std::collections::VecDeque;
use vstd::prelude::*;

verus! {

/// The text of a sequence of entries, one per line, oldest first, with no
/// trailing newline.
pub open spec fn join_lines(entries: Seq<Seq<char>>) -> Seq<char>
    decreases entries.len(),
{
    if entries.len() == 0 {
        Seq::empty()
    } else if entries.len() == 1 {
        entries[0]
    } else {
        join_lines(entries.drop_last()) + seq!['\n'] + entries.last()
    }
}

/// The entries kept after `entry` is added to `entries` under capacity `size`:
/// the oldest one leaves first once the record is full, and a record of
/// capacity zero keeps nothing.
pub open spec fn added(entries: Seq<Seq<char>>, size: nat, entry: Seq<char>) -> Seq<Seq<char>> {
    if size == 0 {
        entries
    } else if entries.len() >= size {
        entries.drop_first().push(entry)
    } else {
        entries.push(entry)
    }
}

/// The entries that a record of capacity `size` holds after it started
/// from `entries` and then took each of `inserts` in turn.
pub open spec fn added_all(entries: Seq<Seq<char>>, size: nat, inserts: Seq<Seq<char>>) -> Seq<Seq<char>>
    decreases inserts.len(),
{
    if inserts.len() == 0 {
        entries
    } else {
        added(added_all(entries, size, inserts.drop_last()), size, inserts.last())
    }
}

/// The last `n` items of `s` (all of them if there are fewer).
pub open spec fn last_n<T>(s: Seq<T>, n: nat) -> Seq<T> {
    if s.len() <= n {
        s
    } else {
        s.subrange(s.len() - n, s.len() as int)
    }
}

/// Starting from an empty record of capacity `size`, any sequence of inserts
/// leaves exactly the last `size` of them (all of them if there are fewer),
/// in the order in which they were inserted; the text of the record is then
/// those entries joined by newlines.
pub proof fn lemma_keeps_last_inserts(size: nat, inserts: Seq<Seq<char>>)
    ensures
        added_all(Seq::empty(), size, inserts) == last_n(inserts, size),
        join_lines(added_all(Seq::empty(), size, inserts)) == join_lines(last_n(inserts, size)),
    decreases inserts.len(),
{
    if inserts.len() == 0 {
        return;
    }
    let prev = inserts.drop_last();
    let x = inserts.last();
    lemma_keeps_last_inserts(size, prev);
    let kept = last_n(prev, size);
    if size == 0 {
        assert(last_n(inserts, size) =~= Seq::<Seq<char>>::empty());
        assert(kept =~= Seq::<Seq<char>>::empty());
    } else if prev.len() < size {
        assert(kept == prev);
        assert(kept.push(x) =~= inserts);
    } else {
        assert(kept.len() == size);
        assert(kept.drop_first().push(x) =~= inserts.subrange(inserts.len() - size, inserts.len() as int));
    }
}

#[derive(Clone, Debug)]
pub struct History {
    data: VecDeque<String>,
    size: usize,
}

impl History {
    /// The entries, oldest first.
    pub closed spec fn view_entries(&self) -> Seq<Seq<char>> {
        self.data@.map_values(|s: String| s@)
    }

    /// The fixed capacity.
    pub closed spec fn capacity(&self) -> nat {
        self.size as nat
    }

    /// At most `capacity` entries are held.
    pub closed spec fn wf(&self) -> bool {
        self.data@.len() <= self.size
    }

    pub fn new(size: usize) -> (h: Self)
        ensures
            h.wf(),
            h.capacity() == size,
            h.view_entries() == Seq::<Seq<char>>::empty(),
    {
        let h = History { data: VecDeque::with_capacity(size), size };
        assert(h.view_entries() =~= Seq::<Seq<char>>::empty());
        h
    }

    pub fn add(&mut self, element: String)
        requires
            old(self).wf(),
        ensures
            final(self).wf(),
            final(self).capacity() == old(self).capacity(),
            final(self).view_entries() == added(
                old(self).view_entries(),
                old(self).capacity(),
                element@,
            ),
    {
        if self.size == 0 {
            return;
        }
        let ghost before = self.view_entries();
        if self.data.len() == self.size {
            self.data.pop_front();
        }
        self.data.push_back(element);
        assert(self.view_entries() =~= added(before, self.size as nat, element@));
    }

    /// The entries, oldest first, joined by newlines.
    pub fn string(&self) -> (s: String)
        ensures
            s@ == join_lines(self.view_entries()),
    {
        let mut s = String::new();
        let n = self.data.len();
        let mut i: usize = 0;
        while i < n
            invariant
                n == self.data@.len(),
                i <= n,
                s@ == join_lines(self.view_entries().subrange(0, i as int)),
            decreases n - i,
        {
            let ghost prefix = self.view_entries().subrange(0, i as int);
            let ghost next = self.view_entries().subrange(0, i + 1);
            assert(next.drop_last() =~= prefix);
            if i > 0 {
                proof {
                    reveal_strlit("\n");
                }
                s.append("\n");
            }
            s.append(self.data[i].as_str());
            i = i + 1;
        }
        assert(self.view_entries().subrange(0, n as int) =~= self.view_entries());
        s
    }
}

} // verus!
