//! The engine's fixed-capacity per-connection header table: slots,
//! bounded iteration, and name lookup.
//!
//! A slot whose name extracts to "absent" marks both "unused" and "end of
//! table": iteration halts there even if later slots are populated, and
//! never walks past the table capacity.  Name lookup compares ASCII
//! case-insensitively, matching HTTP's header-name equivalence, even where
//! the engine itself would compare exactly.

use vstd::prelude::*;
use crate::extract::{extract_text, spec_extract};

verus! {

/// Capacity of the engine's per-connection header table.
pub const HEADER_CAPACITY: usize = 64;

/// One slot of the table, as the engine hands it over: a possibly absent
/// name and value buffer.
pub struct Header {
    pub name: Option<Vec<u8>>,
    pub value: Option<Vec<u8>>,
}

impl Header {
    /// The slot's extracted name; absent marks the slot unused.
    pub open spec fn spec_name(&self) -> Option<Seq<char>> {
        spec_extract(self.name)
    }

    /// The slot's extracted value.
    pub open spec fn spec_value(&self) -> Option<Seq<char>> {
        spec_extract(self.value)
    }

    /// Extracts the slot's header name.
    pub fn name(&self) -> (r: Option<String>)
        ensures
            r.deep_view() == self.spec_name(),
    {
        extract_text(&self.name)
    }

    /// Extracts the slot's header value.
    pub fn value(&self) -> (r: Option<String>)
        ensures
            r.deep_view() == self.spec_value(),
    {
        extract_text(&self.value)
    }
}

/// True of a slot in use: its name extracts to some text.
pub open spec fn slot_populated(h: Header) -> bool {
    h.spec_name() is Some
}

/// The pair a populated slot yields.  A value that extracts to "absent"
/// reads as empty text, so that a populated slot always yields a pair.
pub open spec fn slot_pair(h: Header) -> (Seq<char>, Seq<char>)
    recommends
        slot_populated(h),
{
    (
        match h.spec_name() {
            Some(n) => n,
            None => Seq::<char>::empty(),
        },
        match h.spec_value() {
            Some(v) => v,
            None => Seq::<char>::empty(),
        },
    )
}

/// Number of leading populated slots.
pub open spec fn prefix_len(t: Seq<Header>) -> int
    decreases t.len(),
{
    if t.len() == 0 {
        0
    } else if !slot_populated(t[0]) {
        0
    } else {
        1 + prefix_len(t.drop_first())
    }
}

/// The slots iteration may visit: at most the table capacity.
pub open spec fn capped(t: Seq<Header>) -> Seq<Header> {
    if t.len() <= HEADER_CAPACITY {
        t
    } else {
        t.take(HEADER_CAPACITY as int)
    }
}

/// The entries a table yields: the populated prefix of the capped table, in
/// table order.
pub open spec fn table_entries(t: Seq<Header>) -> Seq<(Seq<char>, Seq<char>)> {
    Seq::new(prefix_len(capped(t)) as nat, |i: int| slot_pair(capped(t)[i]))
}

/// The populated prefix is bounded by the table, everything in it is
/// populated, and the slot after it (when in range) is not.
pub proof fn lemma_prefix_len(t: Seq<Header>)
    ensures
        0 <= prefix_len(t) <= t.len(),
        forall|i: int| 0 <= i < prefix_len(t) ==> slot_populated(t[i]),
        prefix_len(t) < t.len() ==> !slot_populated(t[prefix_len(t)]),
    decreases t.len(),
{
    if t.len() > 0 && slot_populated(t[0]) {
        lemma_prefix_len(t.drop_first());
        assert forall|i: int| 0 <= i < prefix_len(t) implies slot_populated(t[i]) by {
            if i > 0 {
                assert(t.drop_first()[i - 1] == t[i]);
            }
        }
        if prefix_len(t) < t.len() {
            assert(t.drop_first()[prefix_len(t) - 1] == t[prefix_len(t)]);
        }
    }
}

proof fn lemma_prefix_len_is(t: Seq<Header>, k: int)
    requires
        0 <= k <= t.len(),
        forall|j: int| 0 <= j < k ==> slot_populated(t[j]),
        k < t.len() ==> !slot_populated(t[k]),
    ensures
        prefix_len(t) == k,
{
    lemma_prefix_len(t);
}

/// Law: iteration never yields more pairs than the table capacity.
pub proof fn lemma_iteration_capacity(t: Seq<Header>)
    ensures
        table_entries(t).len() <= HEADER_CAPACITY,
{
    lemma_prefix_len(capped(t));
}

/// Law: a table whose first k slots (k below capacity) are populated and
/// whose next slot is unused yields exactly k pairs, in table order.
pub proof fn lemma_iteration_bounded(t: Seq<Header>, k: int)
    requires
        0 <= k < HEADER_CAPACITY,
        k < t.len(),
        forall|i: int| 0 <= i < k ==> slot_populated(t[i]),
        !slot_populated(t[k]),
    ensures
        table_entries(t).len() == k,
        forall|i: int| 0 <= i < k ==> table_entries(t)[i] == slot_pair(t[i]),
{
    assert forall|j: int| 0 <= j < k implies slot_populated(capped(t)[j]) by {
        assert(capped(t)[j] == t[j]);
    }
    assert(capped(t)[k] == t[k]);
    lemma_prefix_len_is(capped(t), k);
}

/// ASCII-lowercased character code, for header-name comparison.
pub open spec fn lower(u: u32) -> int {
    if 65 <= u <= 90 {
        u + 32
    } else {
        u as int
    }
}

/// Case-insensitive equality of header names (ASCII case only).
pub open spec fn name_eq(a: Seq<char>, b: Seq<char>) -> bool {
    a.len() == b.len() && forall|i: int| 0 <= i < a.len() ==> lower(a[i] as u32) == lower(
        b[i] as u32,
    )
}

/// First value among the entries whose name matches, case-insensitively.
pub open spec fn spec_find(es: Seq<(Seq<char>, Seq<char>)>, name: Seq<char>) -> Option<Seq<char>>
    decreases es.len(),
{
    if es.len() == 0 {
        None
    } else if name_eq(es[0].0, name) {
        Some(es[0].1)
    } else {
        spec_find(es.drop_first(), name)
    }
}

proof fn lemma_find_skip(es: Seq<(Seq<char>, Seq<char>)>, name: Seq<char>, pos: int)
    requires
        0 <= pos <= es.len(),
        forall|j: int| 0 <= j < pos ==> !name_eq(es[j].0, name),
    ensures
        spec_find(es, name) == spec_find(es.skip(pos), name),
    decreases pos,
{
    if pos > 0 {
        lemma_find_skip(es, name, pos - 1);
        assert(es.skip(pos - 1)[0] == es[pos - 1]);
        assert(es.skip(pos - 1).drop_first() =~= es.skip(pos));
    } else {
        assert(es.skip(0) =~= es);
    }
}

fn name_matches(a: &str, b: &str) -> (r: bool)
    ensures
        r == name_eq(a@, b@),
{
    let alen = a.unicode_len();
    let blen = b.unicode_len();
    if alen != blen {
        return false;
    }
    let mut i: usize = 0;
    while i < alen
        invariant
            0 <= i <= alen,
            alen == a@.len(),
            alen == b@.len(),
            forall|j: int| 0 <= j < i ==> lower(a@[j] as u32) == lower(b@[j] as u32),
        decreases alen - i,
    {
        let ca = a.get_char(i) as u32;
        let cb = b.get_char(i) as u32;
        let la = if 65 <= ca && ca <= 90 {
            ca + 32
        } else {
            ca
        };
        let lb = if 65 <= cb && cb <= 90 {
            cb + 32
        } else {
            cb
        };
        if la != lb {
            return false;
        }
        i = i + 1;
    }
    true
}

/// Read-only view over a request's header table.
pub struct Headers<'a> {
    table: &'a Vec<Header>,
}

/// Lazy, finite iteration over a header table.  The cursor only moves
/// forward; a fresh iterator must be built to re-scan.
pub struct HeaderIterator<'a> {
    table: &'a Vec<Header>,
    position: usize,
}

impl<'a> Headers<'a> {
    /// The underlying table.
    pub closed spec fn spec_table(&self) -> Seq<Header> {
        self.table@
    }

    pub(crate) fn over(table: &'a Vec<Header>) -> (h: Headers<'a>)
        ensures
            h.spec_table() == table@,
    {
        Headers { table }
    }

    /// Looks a header up by name, first match wins.  Names compare ASCII
    /// case-insensitively, matching HTTP's header-name equivalence.
    pub fn find(&self, string: &str) -> (r: Option<String>)
        ensures
            r.deep_view() == spec_find(table_entries(self.spec_table()), string@),
    {
        proof {
            lemma_prefix_len(capped(self.spec_table()));
        }
        let ghost es = table_entries(self.spec_table());
        let table: &Vec<Header> = self.table;
        let mut pos: usize = 0;
        loop
            invariant
                es == table_entries(self.spec_table()),
                table@ == self.spec_table(),
                prefix_len(capped(self.spec_table())) == es.len(),
                prefix_len(capped(self.spec_table())) < capped(self.spec_table()).len()
                    ==> !slot_populated(capped(self.spec_table())[es.len() as int]),
                forall|i: int| 0 <= i < es.len() ==> slot_populated(capped(self.spec_table())[i]),
                capped(self.spec_table()).len() <= self.spec_table().len(),
                0 <= pos <= es.len(),
                forall|j: int| 0 <= j < pos ==> !name_eq(es[j].0, string@),
            decreases es.len() - pos,
        {
            proof {
                lemma_find_skip(es, string@, pos as int);
            }
            if pos >= HEADER_CAPACITY {
                proof {
                    lemma_iteration_capacity(self.spec_table());
                    assert(es.skip(pos as int).len() == 0);
                    assert(spec_find(es.skip(pos as int), string@) is None);
                }
                return None;
            }
            if pos >= table.len() {
                proof {
                    lemma_prefix_len(capped(self.spec_table()));
                    assert(es.skip(pos as int).len() == 0);
                    assert(spec_find(es.skip(pos as int), string@) is None);
                }
                return None;
            }
            proof {
                assert(capped(self.spec_table())[pos as int] == self.spec_table()[pos as int]);
            }
            let slot = &table[pos];
            match slot.name() {
                None => {
                    proof {
                        if pos < es.len() {
                            assert(slot_populated(capped(self.spec_table())[pos as int]));
                            assert(false);
                        }
                        assert(es.skip(pos as int).len() == 0);
                        assert(spec_find(es.skip(pos as int), string@) is None);
                    }
                    return None;
                },
                Some(n) => {
                    proof {
                        if pos == es.len() {
                            assert(pos < capped(self.spec_table()).len());
                            assert(!slot_populated(capped(self.spec_table())[pos as int]));
                            assert(false);
                        }
                        assert(es.skip(pos as int)[0] == es[pos as int]);
                    }
                    if name_matches(n.as_str(), string) {
                        let value = match slot.value() {
                            Some(v) => v,
                            None => String::new(),
                        };
                        return Some(value);
                    }
                    pos = pos + 1;
                },
            }
        }
    }

    /// Whether some header of this name is present.
    pub fn has(&self, string: &str) -> (r: bool)
        ensures
            r == (spec_find(table_entries(self.spec_table()), string@) is Some),
    {
        self.find(string).is_some()
    }

    /// A fresh iterator over the table.
    pub fn iter(&self) -> (it: HeaderIterator<'a>)
        ensures
            it.wf(),
            it.spec_table() == self.spec_table(),
            it.spec_position() == 0,
    {
        HeaderIterator::new(self.table)
    }

    /// All populated pairs, in table order.
    pub fn all(&self) -> (r: Vec<(String, String)>)
        ensures
            r@.len() == table_entries(self.spec_table()).len(),
            forall|i: int|
                0 <= i < r@.len() ==> r@[i].0@ == table_entries(self.spec_table())[i].0
                    && r@[i].1@ == table_entries(self.spec_table())[i].1,
    {
        let mut it = self.iter();
        let mut out: Vec<(String, String)> = Vec::new();
        loop
            invariant
                it.wf(),
                it.spec_table() == self.spec_table(),
                it.spec_position() == out@.len(),
                out@.len() <= table_entries(self.spec_table()).len(),
                forall|i: int|
                    0 <= i < out@.len() ==> out@[i].0@ == table_entries(self.spec_table())[i].0
                        && out@[i].1@ == table_entries(self.spec_table())[i].1,
            ensures
                out@.len() == table_entries(self.spec_table()).len(),
                forall|i: int|
                    0 <= i < out@.len() ==> out@[i].0@ == table_entries(self.spec_table())[i].0
                        && out@[i].1@ == table_entries(self.spec_table())[i].1,
            decreases table_entries(self.spec_table()).len() - it.spec_position(),
        {
            match it.next() {
                Some(p) => out.push(p),
                None => { break ; },
            }
        }
        out
    }
}

impl<'a> HeaderIterator<'a> {
    /// The table being walked.
    pub closed spec fn spec_table(&self) -> Seq<Header> {
        self.table@
    }

    /// The cursor: how many pairs have been yielded.
    pub closed spec fn spec_position(&self) -> int {
        self.position as int
    }

    /// Validity: the cursor never passes the populated prefix.
    pub open spec fn wf(&self) -> bool {
        0 <= self.spec_position() <= table_entries(self.spec_table()).len()
    }

    fn new(table: &'a Vec<Header>) -> (it: HeaderIterator<'a>)
        ensures
            it.wf(),
            it.spec_table() == table@,
            it.spec_position() == 0,
    {
        HeaderIterator { table, position: 0 }
    }

    /// Yields the pair at the cursor and advances, or reports the end of the
    /// populated prefix (the first unused slot, or the table capacity).
    pub fn next(&mut self) -> (r: Option<(String, String)>)
        requires
            old(self).wf(),
        ensures
            final(self).wf(),
            final(self).spec_table() == old(self).spec_table(),
            ({
                let es = table_entries(old(self).spec_table());
                let pos = old(self).spec_position();
                if pos < es.len() {
                    &&& r matches Some(p) && p.0@ == es[pos].0 && p.1@ == es[pos].1
                    &&& final(self).spec_position() == pos + 1
                } else {
                    &&& r is None
                    &&& final(self).spec_position() == pos
                }
            }),
    {
        proof {
            lemma_prefix_len(capped(self.spec_table()));
        }
        if self.position >= HEADER_CAPACITY {
            proof {
                lemma_iteration_capacity(self.spec_table());
            }
            return None;
        }
        if self.position >= self.table.len() {
            return None;
        }
        proof {
            assert(capped(self.spec_table())[self.position as int] == self.spec_table()[self.position as int]);
        }
        let table: &Vec<Header> = self.table;
        let slot = &table[self.position];
        match slot.name() {
            None => {
                proof {
                    if self.spec_position() < table_entries(self.spec_table()).len() {
                        assert(slot_populated(capped(self.spec_table())[self.spec_position()]));
                    }
                }
                None
            },
            Some(n) => {
                proof {
                    let pos = self.spec_position();
                    let c = capped(self.spec_table());
                    if pos == table_entries(self.spec_table()).len() {
                        assert(pos < c.len());
                        assert(!slot_populated(c[pos]));
                        assert(false);
                    }
                }
                let value = match slot.value() {
                    Some(v) => v,
                    None => String::new(),
                };
                self.position = self.position + 1;
                Some((n, value))
            },
        }
    }
}

} // verus!
