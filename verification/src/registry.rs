use vstd::prelude::*;

verus! {

/// One declared operation: a symbolic name and its stable wire code.
#[derive(Debug)]
pub struct EventEntry {
    pub name: String,
    pub code: i32,
}

/// A malformed schema artifact, detected when a registry is constructed.
/// A corrupt registry must never serve lookups, so these abort
/// construction; they can never arise from a lookup.
#[derive(Clone, Copy, PartialEq, Eq, Structural, Debug)]
pub enum SchemaViolation {
    EmptyRegistry,
    DuplicateCode,
    DuplicateName,
}

/// The codes of a sequence of entries, in declaration order.
pub open spec fn codes_of(s: Seq<EventEntry>) -> Seq<int> {
    s.map(|i: int, e: EventEntry| e.code as int)
}

/// The names of a sequence of entries, in declaration order.
pub open spec fn names_of(s: Seq<EventEntry>) -> Seq<Seq<char>> {
    s.map(|i: int, e: EventEntry| e.name@)
}

/// A schema artifact is valid when it declares at least one entry and
/// no code and no name is declared twice.
pub open spec fn entries_valid(s: Seq<EventEntry>) -> bool {
    &&& s.len() > 0
    &&& codes_of(s).no_duplicates()
    &&& names_of(s).no_duplicates()
}

/// How `codes_of` and `names_of` read a sequence of entries, element
/// by element.
proof fn lemma_entry_views(s: Seq<EventEntry>)
    ensures
        codes_of(s).len() == s.len(),
        names_of(s).len() == s.len(),
        forall|k: int| 0 <= k < s.len() ==> (#[trigger] codes_of(s)[k]) == s[k].code as int,
        forall|k: int| 0 <= k < s.len() ==> (#[trigger] names_of(s)[k]) == s[k].name@,
{
}

/// The immutable bijective table between names and codes for one event
/// domain. Fixed once constructed; safe to share between readers.
pub struct EventRegistry {
    entries: Vec<EventEntry>,
}

impl EventRegistry {
    /// The declared names, in declaration order.
    pub closed spec fn names(self) -> Seq<Seq<char>> {
        names_of(self.entries@)
    }

    /// The declared codes, in declaration order.
    pub closed spec fn codes(self) -> Seq<int> {
        codes_of(self.entries@)
    }

    /// A registry is well formed when it is non-empty and both the codes
    /// and the names are free of duplicates: the table is a bijection.
    pub open spec fn wf(self) -> bool {
        &&& self.names().len() == self.codes().len()
        &&& self.codes().len() > 0
        &&& self.codes().no_duplicates()
        &&& self.names().no_duplicates()
    }

    /// Whether some declared entry carries this code.
    pub open spec fn has_code(self, c: int) -> bool {
        exists|i: int| 0 <= i < self.codes().len() && self.codes()[i] == c
    }

    /// Whether some declared entry carries this name.
    pub open spec fn has_name(self, n: Seq<char>) -> bool {
        exists|i: int| 0 <= i < self.names().len() && self.names()[i] == n
    }

    /// The position at which a code is declared.
    pub open spec fn index_of_code(self, c: int) -> int {
        choose|i: int| 0 <= i < self.codes().len() && self.codes()[i] == c
    }

    /// What a wire code decodes to: the name declared with it, or nothing
    /// when the code is outside the declared set.
    pub open spec fn decode(self, c: int) -> Option<Seq<char>> {
        if self.has_code(c) {
            Some(self.names()[self.index_of_code(c)])
        } else {
            None
        }
    }

    /// Build a registry from the (name, code) pairs of a schema artifact,
    /// rejecting a malformed artifact. An empty artifact is reported
    /// first, then a repeated code, then a repeated name.
    pub fn from_entries(entries: Vec<EventEntry>) -> (r: Result<EventRegistry, SchemaViolation>)
        ensures
            r is Ok <==> entries_valid(entries@),
            r matches Ok(reg) ==> reg.codes() == codes_of(entries@),
            r matches Ok(reg) ==> reg.names() == names_of(entries@),
            r matches Ok(reg) ==> reg.wf(),
            r == Err::<EventRegistry, SchemaViolation>(SchemaViolation::EmptyRegistry) <==> entries@.len() == 0,
            r == Err::<EventRegistry, SchemaViolation>(SchemaViolation::DuplicateCode) <==> entries@.len() > 0
                && !codes_of(entries@).no_duplicates(),
            r == Err::<EventRegistry, SchemaViolation>(SchemaViolation::DuplicateName) <==> entries@.len() > 0
                && codes_of(entries@).no_duplicates() && !names_of(entries@).no_duplicates(),
    {
        let n = entries.len();
        if n == 0 {
            return Err(SchemaViolation::EmptyRegistry);
        }
        let mut i: usize = 0;
        while i < n
            invariant
                n == entries@.len(),
                forall|p: int, q: int|
                    0 <= p < i && p < q < n ==> (#[trigger] entries@[p]).code != (#[trigger] entries@[q]).code,
            decreases n - i,
        {
            let ci = entries[i].code;
            let mut j: usize = i + 1;
            while j < n
                invariant
                    n == entries@.len(),
                    i < n,
                    i < j,
                    ci == entries@[i as int].code,
                    forall|q: int| i < q < j ==> (#[trigger] entries@[q]).code != ci,
                    forall|p: int, q: int|
                        0 <= p < i && p < q < n ==> (#[trigger] entries@[p]).code != (#[trigger] entries@[q]).code,
                decreases n - j,
            {
                if entries[j].code == ci {
                    proof {
                        lemma_entry_views(entries@);
                        assert(codes_of(entries@)[i as int] == codes_of(entries@)[j as int]);
                        assert(!codes_of(entries@).no_duplicates());
                    }
                    return Err(SchemaViolation::DuplicateCode);
                }
                j += 1;
            }
            i += 1;
        }
        proof {
            lemma_entry_views(entries@);
            assert forall|p: int, q: int|
                0 <= p < codes_of(entries@).len() && 0 <= q < codes_of(entries@).len() && p != q
                implies codes_of(entries@)[p] != codes_of(entries@)[q] by {
                assert(codes_of(entries@)[p] == entries@[p].code as int);
                assert(codes_of(entries@)[q] == entries@[q].code as int);
            }
            assert(codes_of(entries@).no_duplicates());
        }
        let mut i: usize = 0;
        while i < n
            invariant
                n == entries@.len(),
                codes_of(entries@).no_duplicates(),
                forall|p: int, q: int|
                    0 <= p < i && p < q < n ==> (#[trigger] entries@[p]).name@ != (#[trigger] entries@[q]).name@,
            decreases n - i,
        {
            let mut j: usize = i + 1;
            while j < n
                invariant
                    n == entries@.len(),
                    codes_of(entries@).no_duplicates(),
                    i < n,
                    i < j,
                    forall|q: int| i < q < j ==> (#[trigger] entries@[q]).name@ != entries@[i as int].name@,
                    forall|p: int, q: int|
                        0 <= p < i && p < q < n ==> (#[trigger] entries@[p]).name@ != (#[trigger] entries@[q]).name@,
                decreases n - j,
            {
                if entries[j].name == entries[i].name {
                    proof {
                        lemma_entry_views(entries@);
                        assert(names_of(entries@)[i as int] == names_of(entries@)[j as int]);
                        assert(!names_of(entries@).no_duplicates());
                    }
                    return Err(SchemaViolation::DuplicateName);
                }
                j += 1;
            }
            i += 1;
        }
        proof {
            lemma_entry_views(entries@);
            assert forall|p: int, q: int|
                0 <= p < names_of(entries@).len() && 0 <= q < names_of(entries@).len() && p != q
                implies names_of(entries@)[p] != names_of(entries@)[q] by {
                assert(names_of(entries@)[p] == entries@[p].name@);
                assert(names_of(entries@)[q] == entries@[q].name@);
            }
            assert(names_of(entries@).no_duplicates());
            assert(entries_valid(entries@));
        }
        Ok(EventRegistry { entries })
    }

    /// Decode a wire code to its symbolic name. An unknown code is an
    /// ordinary "not found" outcome — it can always arrive from a peer
    /// built against another schema version — never a failure.
    pub fn event_of(&self, code: i32) -> (r: Option<String>)
        requires
            self.wf(),
        ensures
            match r {
                Some(name) => self.decode(code as int) == Some(name@),
                None => self.decode(code as int) is None,
            },
            r is Some <==> self.has_code(code as int),
    {
        let n = self.entries.len();
        let mut i: usize = 0;
        while i < n
            invariant
                self.wf(),
                n == self.entries@.len(),
                forall|k: int| 0 <= k < i ==> (#[trigger] self.entries@[k]).code != code,
            decreases n - i,
        {
            if self.entries[i].code == code {
                let name = self.entries[i].name.clone();
                proof {
                    let idx = i as int;
                    assert(self.codes()[idx] == code as int);
                    assert(self.has_code(code as int));
                    let c = self.index_of_code(code as int);
                    assert(self.codes()[c] == code as int);
                    assert(c == idx);
                    assert(name@ == self.names()[idx]);
                }
                return Some(name);
            }
            i += 1;
        }
        proof {
            assert forall|k: int| 0 <= k < self.codes().len()
                implies self.codes()[k] != code as int by {
                assert(self.codes()[k] == self.entries@[k].code as int);
            }
        }
        None
    }

    /// Encode a symbolic name as its wire code, if the name is declared.
    pub fn code_of(&self, name: &String) -> (r: Option<i32>)
        requires
            self.wf(),
        ensures
            r is Some <==> self.has_name(name@),
            r matches Some(c) ==> exists|i: int|
                0 <= i < self.codes().len() && #[trigger] self.names()[i] == name@
                    && self.codes()[i] == c as int,
    {
        let n = self.entries.len();
        let mut i: usize = 0;
        while i < n
            invariant
                self.wf(),
                n == self.entries@.len(),
                forall|k: int| 0 <= k < i ==> (#[trigger] self.entries@[k]).name@ != name@,
            decreases n - i,
        {
            if self.entries[i].name == *name {
                proof {
                    let idx = i as int;
                    assert(self.names()[idx] == name@);
                    assert(self.codes()[idx] == self.entries@[idx].code as int);
                }
                return Some(self.entries[i].code);
            }
            i += 1;
        }
        proof {
            assert forall|k: int| 0 <= k < self.names().len()
                implies self.names()[k] != name@ by {
                assert(self.names()[k] == self.entries@[k].name@);
            }
        }
        None
    }

    /// The complete list of declared names, in declaration order. In a
    /// well-formed registry the list repeats no name and has exactly one
    /// element per declared entry.
    pub fn all_events(&self) -> (r: Vec<String>)
        ensures
            r@.len() == self.names().len(),
            forall|i: int| 0 <= i < r@.len() ==> (#[trigger] r@[i])@ == self.names()[i],
            self.wf() ==> forall|i: int, j: int|
                0 <= i < j < r@.len() ==> (#[trigger] r@[i])@ != (#[trigger] r@[j])@,
    {
        let n = self.entries.len();
        let mut out: Vec<String> = Vec::new();
        let mut i: usize = 0;
        while i < n
            invariant
                n == self.entries@.len(),
                i <= n,
                out@.len() == i,
                forall|k: int| 0 <= k < i ==> (#[trigger] out@[k])@ == self.names()[k],
            decreases n - i,
        {
            proof {
                lemma_entry_views(self.entries@);
            }
            out.push(self.entries[i].name.clone());
            i += 1;
        }
        proof {
            lemma_entry_views(self.entries@);
            if self.wf() {
                assert forall|i: int, j: int| 0 <= i < j < out@.len()
                    implies out@[i]@ != out@[j]@ by {
                    assert(out@[i]@ == self.names()[i]);
                    assert(out@[j]@ == self.names()[j]);
                }
            }
        }
        out
    }

    /// The designated fallback: the first declared entry.
    pub fn default_event(&self) -> (r: String)
        requires
            self.wf(),
        ensures
            r@ == self.names()[0],
    {
        proof {
            assert(self.entries@.len() > 0);
            assert(self.names()[0] == self.entries@[0].name@);
        }
        self.entries[0].name.clone()
    }

    /// Extend the registry with one more entry. Appending succeeds exactly
    /// when both the new code and the new name are previously unused, and
    /// it leaves every previously declared entry untouched.
    pub fn append(&self, entry: EventEntry) -> (r: Result<EventRegistry, SchemaViolation>)
        requires
            self.wf(),
        ensures
            r is Ok <==> !self.has_code(entry.code as int) && !self.has_name(entry.name@),
            r matches Ok(reg) ==> reg.codes() == self.codes().push(entry.code as int),
            r matches Ok(reg) ==> reg.names() == self.names().push(entry.name@),
            r matches Ok(reg) ==> reg.wf(),
            r == Err::<EventRegistry, SchemaViolation>(SchemaViolation::DuplicateCode) <==> self.has_code(
                entry.code as int,
            ),
            r == Err::<EventRegistry, SchemaViolation>(SchemaViolation::DuplicateName) <==> !self.has_code(
                entry.code as int,
            ) && self.has_name(entry.name@),
    {
        if self.event_of(entry.code).is_some() {
            return Err(SchemaViolation::DuplicateCode);
        }
        if self.code_of(&entry.name).is_some() {
            return Err(SchemaViolation::DuplicateName);
        }
        let n = self.entries.len();
        let mut v: Vec<EventEntry> = Vec::new();
        let mut i: usize = 0;
        while i < n
            invariant
                n == self.entries@.len(),
                i <= n,
                v@.len() == i,
                forall|k: int| 0 <= k < i ==> (#[trigger] v@[k]).name@ == self.entries@[k].name@
                    && v@[k].code == self.entries@[k].code,
            decreases n - i,
        {
            let name = self.entries[i].name.clone();
            let code = self.entries[i].code;
            v.push(EventEntry { name, code });
            i += 1;
        }
        v.push(entry);
        let reg = EventRegistry { entries: v };
        proof {
            lemma_entry_views(self.entries@);
            lemma_entry_views(reg.entries@);
            assert(reg.codes() =~= self.codes().push(entry.code as int)) by {
                assert forall|k: int| 0 <= k < reg.entries@.len()
                    implies reg.codes()[k] == self.codes().push(entry.code as int)[k] by {
                    assert(reg.codes()[k] == reg.entries@[k].code as int);
                    if k < n {
                        assert(reg.entries@[k].code == self.entries@[k].code);
                        assert(self.codes()[k] == self.entries@[k].code as int);
                    }
                }
            }
            assert(reg.names() =~= self.names().push(entry.name@)) by {
                assert forall|k: int| 0 <= k < reg.entries@.len()
                    implies reg.names()[k] == self.names().push(entry.name@)[k] by {
                    assert(reg.names()[k] == reg.entries@[k].name@);
                    if k < n {
                        assert(reg.entries@[k].name@ == self.entries@[k].name@);
                        assert(self.names()[k] == self.entries@[k].name@);
                    }
                }
            }
            assert(reg.wf()) by {
                let cs = reg.codes();
                let ns = reg.names();
                assert forall|p: int, q: int|
                    0 <= p < cs.len() && 0 <= q < cs.len() && p != q implies cs[p] != cs[q] by {
                    if p < self.codes().len() && q < self.codes().len() {
                        assert(self.codes().no_duplicates());
                    } else if p == self.codes().len() {
                        assert(cs[p] == entry.code as int);
                        assert(!self.has_code(entry.code as int));
                    } else {
                        assert(cs[q] == entry.code as int);
                        assert(!self.has_code(entry.code as int));
                    }
                }
                assert forall|p: int, q: int|
                    0 <= p < ns.len() && 0 <= q < ns.len() && p != q implies ns[p] != ns[q] by {
                    if p < self.names().len() && q < self.names().len() {
                        assert(self.names().no_duplicates());
                    } else if p == self.names().len() {
                        assert(ns[p] == entry.name@);
                        assert(!self.has_name(entry.name@));
                    } else {
                        assert(ns[q] == entry.name@);
                        assert(!self.has_name(entry.name@));
                    }
                }
            }
        }
        Ok(reg)
    }
}

/// Law: a declared code decodes to exactly the name declared with it.
pub proof fn lemma_registry_round_trip(reg: EventRegistry, i: int)
    requires
        reg.wf(),
        0 <= i < reg.codes().len(),
    ensures
        reg.decode(reg.codes()[i]) == Some(reg.names()[i]),
{
    let c = reg.codes()[i];
    assert(reg.has_code(c));
    let j = reg.index_of_code(c);
    assert(reg.codes()[j] == c);
    assert(j == i) by {
        if j != i {
            assert(reg.codes().no_duplicates());
        }
    }
}

/// Law: a code outside the declared set decodes to nothing.
pub proof fn lemma_registry_unknown_code(reg: EventRegistry, c: int)
    requires
        !reg.has_code(c),
    ensures
        reg.decode(c) is None,
{
}

/// Law: appending an entry never changes the code or the name of any
/// previously declared entry.
pub proof fn lemma_append_stable(prev: EventRegistry, ext: EventRegistry, name: Seq<char>, code: int)
    requires
        ext.codes() == prev.codes().push(code),
        ext.names() == prev.names().push(name),
    ensures
        forall|i: int| 0 <= i < prev.codes().len() ==> ext.codes()[i] == prev.codes()[i],
        forall|i: int| 0 <= i < prev.names().len() ==> ext.names()[i] == prev.names()[i],
{
}

} // verus!
