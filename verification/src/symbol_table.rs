//! Symbol tables: a mapping from symbol name to virtual address, with
//! unique names, abstracted as a `Map<Seq<char>, u64>`; and the parsed
//! per-binary information (symbol table plus BSS region descriptor).

use vstd::prelude::*;

use crate::ascii::str_eq;

verus! {

/// The map denoted by a list of name/address entries; a later entry for the
/// same name overrides an earlier one.
pub open spec fn entries_map(s: Seq<(String, u64)>) -> Map<Seq<char>, u64>
    decreases s.len(),
{
    if s.len() == 0 {
        Map::empty()
    } else {
        entries_map(s.drop_last()).insert(s.last().0@, s.last().1)
    }
}

/// No two entries carry the same name.
pub open spec fn unique_names(s: Seq<(String, u64)>) -> bool {
    forall|i: int, j: int| 0 <= i < j < s.len() ==> s[i].0@ != s[j].0@
}

/// A name is in the map exactly when some entry carries it.
pub proof fn lemma_entries_map_domain(s: Seq<(String, u64)>, k: Seq<char>)
    ensures
        entries_map(s).contains_key(k) <==> exists|i: int| 0 <= i < s.len() && s[i].0@ == k,
    decreases s.len(),
{
    if s.len() == 0 {
    } else {
        lemma_entries_map_domain(s.drop_last(), k);
        if s.last().0@ == k {
            assert(s[s.len() - 1].0@ == k);
        } else {
            if entries_map(s).contains_key(k) {
                let i = choose|i: int| 0 <= i < s.drop_last().len() && s.drop_last()[i].0@ == k;
                assert(s[i].0@ == k);
            }
            if exists|i: int| 0 <= i < s.len() && s[i].0@ == k {
                let i = choose|i: int| 0 <= i < s.len() && s[i].0@ == k;
                assert(i < s.len() - 1);
                assert(s.drop_last()[i].0@ == k);
            }
        }
    }
}

/// With unique names, each entry gives the map's value at its name.
pub proof fn lemma_entries_map_value(s: Seq<(String, u64)>, i: int)
    requires
        unique_names(s),
        0 <= i < s.len(),
    ensures
        entries_map(s).contains_key(s[i].0@),
        entries_map(s)[s[i].0@] == s[i].1,
    decreases s.len(),
{
    if i == s.len() - 1 {
    } else {
        assert(unique_names(s.drop_last()));
        assert(s.drop_last()[i] == s[i]);
        lemma_entries_map_value(s.drop_last(), i);
        assert(s[i].0@ != s.last().0@);
    }
}

/// Replacing the entry that carries a name denotes inserting at that name.
proof fn lemma_entries_map_update(s: Seq<(String, u64)>, i: int, p: (String, u64))
    requires
        unique_names(s),
        0 <= i < s.len(),
        s[i].0@ == p.0@,
    ensures
        entries_map(s.update(i, p)) =~= entries_map(s).insert(p.0@, p.1),
    decreases s.len(),
{
    if i == s.len() - 1 {
        assert(s.update(i, p).drop_last() =~= s.drop_last());
        assert(s.update(i, p).last() == p);
    } else {
        assert(unique_names(s.drop_last()));
        assert(s.drop_last()[i] == s[i]);
        lemma_entries_map_update(s.drop_last(), i, p);
        assert(s.update(i, p).drop_last() =~= s.drop_last().update(i, p));
        assert(s.update(i, p).last() == s.last());
        assert(s[i].0@ != s.last().0@);
    }
}

/// Symbol-name to virtual-address mapping with unique names.
pub struct SymbolTable {
    entries: Vec<(String, u64)>,
}

impl View for SymbolTable {
    type V = Map<Seq<char>, u64>;

    closed spec fn view(&self) -> Map<Seq<char>, u64> {
        entries_map(self.entries@)
    }
}

impl SymbolTable {
    #[verifier::type_invariant]
    spec fn wf(self) -> bool {
        unique_names(self.entries@)
    }

    /// The empty table.
    pub fn new() -> (t: Self)
        ensures
            t@ == Map::<Seq<char>, u64>::empty(),
    {
        SymbolTable { entries: Vec::new() }
    }

    /// The address recorded for `name`, if any.
    pub fn get(&self, name: &str) -> (r: Option<u64>)
        ensures
            r == (if self@.contains_key(name@) {
                Some(self@[name@])
            } else {
                None::<u64>
            }),
    {
        proof {
            use_type_invariant(&*self);
        }
        let n = self.entries.len();
        let mut i: usize = 0;
        while i < n
            invariant
                n == self.entries@.len(),
                i <= n,
                unique_names(self.entries@),
                self@ == entries_map(self.entries@),
                forall|j: int| 0 <= j < i ==> self.entries@[j].0@ != name@,
            decreases n - i,
        {
            if str_eq(name, self.entries[i].0.as_str()) {
                proof {
                    lemma_entries_map_value(self.entries@, i as int);
                }
                return Some(self.entries[i].1);
            }
            i = i + 1;
        }
        proof {
            lemma_entries_map_domain(self.entries@, name@);
        }
        None
    }

    /// Record `address` for `name`, overriding any earlier entry.
    pub fn insert(&mut self, name: String, address: u64)
        ensures
            final(self)@ == old(self)@.insert(name@, address),
    {
        proof {
            use_type_invariant(&*self);
        }
        let mut entries: Vec<(String, u64)> = Vec::new();
        core::mem::swap(&mut entries, &mut self.entries);
        let ghost orig = entries@;
        let n = entries.len();
        let mut idx: usize = 0;
        let mut found = false;
        while idx < n && !found
            invariant
                n == entries@.len(),
                idx <= n,
                entries@ == orig,
                found ==> idx < n && entries@[idx as int].0@ == name@,
                !found ==> forall|j: int| 0 <= j < idx ==> entries@[j].0@ != name@,
            decreases n - idx, (if found { 0int } else { 1int }),
        {
            if str_eq(name.as_str(), entries[idx].0.as_str()) {
                found = true;
            } else {
                idx = idx + 1;
            }
        }
        if found {
            proof {
                lemma_entries_map_update(orig, idx as int, (name, address));
            }
            entries[idx] = (name, address);
            assert(entries@ =~= orig.update(idx as int, (name, address)));
        } else {
            entries.push((name, address));
            proof {
                assert(entries@.drop_last() =~= orig);
            }
        }
        self.entries = entries;
    }

    /// Bring in every entry of `other`; its entries win at shared names.
    pub fn extend(&mut self, other: &SymbolTable)
        ensures
            final(self)@ == old(self)@.union_prefer_right(other@),
    {
        proof {
            use_type_invariant(&*self);
            use_type_invariant(other);
        }
        let n = other.entries.len();
        let mut i: usize = 0;
        while i < n
            invariant
                n == other.entries@.len(),
                i <= n,
                other@ == entries_map(other.entries@),
                self@ == old(self)@.union_prefer_right(entries_map(other.entries@.take(i as int))),
            decreases n - i,
        {
            let name = other.entries[i].0.clone();
            let address = other.entries[i].1;
            let ghost pre = self@;
            self.insert(name, address);
            proof {
                let t1 = other.entries@.take(i + 1);
                assert(t1.drop_last() =~= other.entries@.take(i as int));
                assert(t1.last() == other.entries@[i as int]);
                assert(self@ =~= old(self)@.union_prefer_right(entries_map(t1)));
            }
            i = i + 1;
        }
        proof {
            assert(other.entries@.take(n as int) =~= other.entries@);
        }
    }

    /// Subtract `offset` from every recorded address.
    pub fn subtract_offset(&mut self, offset: u64)
        requires
            forall|k: Seq<char>| old(self)@.contains_key(k) ==> old(self)@[k] >= offset,
        ensures
            forall|k: Seq<char>|
                final(self)@.contains_key(k) <==> old(self)@.contains_key(k),
            forall|k: Seq<char>| #[trigger]
                old(self)@.contains_key(k) ==> final(self)@[k] == old(self)@[k] - offset,
    {
        proof {
            use_type_invariant(&*self);
        }
        let mut entries: Vec<(String, u64)> = Vec::new();
        core::mem::swap(&mut entries, &mut self.entries);
        let ghost orig = entries@;
        let n = entries.len();
        let mut i: usize = 0;
        while i < n
            invariant
                n == entries@.len(),
                orig.len() == n,
                i <= n,
                unique_names(orig),
                old(self)@ == entries_map(orig),
                forall|k: Seq<char>| old(self)@.contains_key(k) ==> old(self)@[k] >= offset,
                forall|j: int| 0 <= j < n ==> #[trigger] entries@[j].0@ == orig[j].0@,
                forall|j: int| i <= j < n ==> #[trigger] entries@[j] == orig[j],
                forall|j: int| 0 <= j < i ==> #[trigger] entries@[j].1 == orig[j].1 - offset,
            decreases n - i,
        {
            proof {
                lemma_entries_map_value(orig, i as int);
                assert(entries@[i as int] == orig[i as int]);
                assert(old(self)@.contains_key(orig[i as int].0@));
                assert(old(self)@[orig[i as int].0@] >= offset);
                assert(orig[i as int].1 >= offset);
            }
            let name = entries[i].0.clone();
            let address = entries[i].1;
            entries[i] = (name, address - offset);
            i = i + 1;
        }
        proof {
            assert(unique_names(entries@));
            assert forall|k: Seq<char>|
                entries_map(entries@).contains_key(k) <==> entries_map(orig).contains_key(k) by {
                lemma_entries_map_domain(entries@, k);
                lemma_entries_map_domain(orig, k);
                if entries_map(entries@).contains_key(k) {
                    let j = choose|j: int| 0 <= j < entries@.len() && entries@[j].0@ == k;
                    assert(orig[j].0@ == k);
                }
                if entries_map(orig).contains_key(k) {
                    let j = choose|j: int| 0 <= j < orig.len() && orig[j].0@ == k;
                    assert(entries@[j].0@ == k);
                }
            }
            assert forall|k: Seq<char>| #[trigger]
                entries_map(orig).contains_key(k) implies entries_map(entries@)[k] == entries_map(
                orig,
            )[k] - offset by {
                lemma_entries_map_domain(orig, k);
                let j = choose|j: int| 0 <= j < orig.len() && orig[j].0@ == k;
                lemma_entries_map_value(orig, j);
                lemma_entries_map_value(entries@, j);
            }
        }
        self.entries = entries;
    }
}

/// What a binary parser extracts from one mapped file: its symbol table and
/// the BSS region descriptor (address and size).
pub struct BinaryInfo {
    /// Symbol name to virtual address.
    pub symbols: SymbolTable,
    /// Start address of the zero-initialized data segment.
    pub bss_addr: u64,
    /// Size of the zero-initialized data segment.
    pub bss_size: u64,
}

} // verus!
