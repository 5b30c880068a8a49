//! Session string interner.
//!
//! A name travels on the wire as a pool index plus an instance number and is
//! resolved to a display string through the table that issued it.  The pool
//! is append-only within a session: interning deduplicates by string
//! content, and resolution is exactly backward-compatible with whatever
//! `intern` produced earlier in the same session.

use vstd::prelude::*;

verus! {

/// An interned, instance-numbered string reference.  Equality is
/// structural, by index and instance number, never by display string.
#[derive(Debug, Clone, Copy, PartialEq, Eq, Structural)]
pub struct Name {
    pub pool_index: u32,
    pub instance_number: u32,
}

/// The append-only string pool of one decoding or encoding session.
pub struct NameTable {
    pool: Vec<String>,
}

impl NameTable {
    /// The pool contents, in insertion order.
    pub closed spec fn pool_view(self) -> Seq<Seq<char>> {
        self.pool@.map_values(|s: String| s@)
    }

    /// Whether some pool slot already holds the string `s`.
    pub open spec fn contains_string(self, s: Seq<char>) -> bool {
        exists|i: int| 0 <= i < self.pool_view().len() && self.pool_view()[i] == s
    }

    /// A fresh, empty table.
    pub fn new() -> (r: NameTable)
        ensures
            r.pool_view().len() == 0,
    {
        NameTable { pool: Vec::new() }
    }

    /// How many distinct strings the pool holds.
    pub fn len(&self) -> (r: usize)
        ensures
            r == self.pool_view().len(),
    {
        self.pool.len()
    }

    /// Interns `s`: returns the existing slot when some slot already holds
    /// the same characters, and appends a new slot otherwise.  The returned
    /// name always carries instance number zero; numbered instances are a
    /// suffix convention owned by the caller.
    pub fn intern(&mut self, s: String) -> (n: Name)
        requires
            old(self).pool_view().len() < u32::MAX,
        ensures
            n.instance_number == 0,
            n.pool_index < final(self).pool_view().len(),
            final(self).pool_view()[n.pool_index as int] == s@,
            forall|k: int| 0 <= k < n.pool_index ==> final(self).pool_view()[k] != s@,
            old(self).contains_string(s@) ==> *final(self) == *old(self),
            !old(self).contains_string(s@) ==> final(self).pool_view() == old(
                self,
            ).pool_view().push(s@),
    {
        let count = self.pool.len();
        let mut i: usize = 0;
        while i < count
            invariant
                count == self.pool_view().len(),
                count < u32::MAX,
                0 <= i <= count,
                forall|k: int| 0 <= k < i ==> self.pool_view()[k] != s@,
            decreases count - i,
        {
            if self.pool[i] == s {
                assert(self.pool_view()[i as int] == s@);
                return Name { pool_index: i as u32, instance_number: 0 };
            }
            assert(self.pool_view()[i as int] != s@);
            i = i + 1;
        }
        assert(!self.contains_string(s@));
        self.pool.push(s);
        assert(self.pool_view() =~= old(self).pool_view().push(s@));
        Name { pool_index: count as u32, instance_number: 0 }
    }

    /// Resolves a name back to the string its pool slot holds; names from
    /// another session, whose index lies outside the pool, resolve to
    /// nothing.  The instance number does not take part: two names with the
    /// same index and different instance numbers share one base string.
    pub fn resolve(&self, n: Name) -> (r: Option<&String>)
        ensures
            match r {
                Some(s) => n.pool_index < self.pool_view().len() && s@ == self.pool_view()[
                    n.pool_index as int
                ],
                None => n.pool_index >= self.pool_view().len(),
            },
    {
        if (n.pool_index as usize) < self.pool.len() {
            Some(&self.pool[n.pool_index as usize])
        } else {
            None
        }
    }
}

} // verus!
