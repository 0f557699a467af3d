//! The registry through which a later request finds the pending handle that an
//! earlier request created: a mapping from wormhole code to handle, in which
//! each entry is handed out at most once.

use vstd::prelude::*;

verus! {

/// The mapping that a sequence of entries with distinct keys stands for.
pub closed spec fn entries_map<H>(s: Seq<(String, H)>) -> Map<Seq<char>, H> {
    Map::new(
        |k: Seq<char>| exists|i: int| 0 <= i < s.len() && (#[trigger] s[i]).0@ == k,
        |k: Seq<char>| s[choose|i: int| 0 <= i < s.len() && (#[trigger] s[i]).0@ == k].1,
    )
}

/// No two entries share a key.
pub closed spec fn keys_distinct<H>(s: Seq<(String, H)>) -> bool {
    forall|i: int, j: int|
        0 <= i < s.len() && 0 <= j < s.len() && i != j ==> (#[trigger] s[i]).0@ != (#[trigger] s[j]).0@
}

proof fn lemma_entry_in_map<H>(s: Seq<(String, H)>, i: int)
    requires
        keys_distinct(s),
        0 <= i < s.len(),
    ensures
        entries_map(s).contains_key(s[i].0@),
        entries_map(s)[s[i].0@] == s[i].1,
{
    let k = s[i].0@;
    assert(s[i].0@ == k);
    let j = choose|j: int| 0 <= j < s.len() && (#[trigger] s[j]).0@ == k;
    assert(j == i);
}

proof fn lemma_remove_entry<H>(s: Seq<(String, H)>, i: int)
    requires
        keys_distinct(s),
        0 <= i < s.len(),
    ensures
        keys_distinct(s.remove(i)),
        entries_map(s.remove(i)) == entries_map(s).remove(s[i].0@),
{
    let t = s.remove(i);
    let k = s[i].0@;
    assert forall|a: int, b: int|
        0 <= a < t.len() && 0 <= b < t.len() && a != b implies (#[trigger] t[a]).0@ != (
        #[trigger] t[b]).0@ by {
        let a2 = if a < i { a } else { a + 1 };
        let b2 = if b < i { b } else { b + 1 };
        assert(t[a] == s[a2]);
        assert(t[b] == s[b2]);
    }
    assert forall|key: Seq<char>| #[trigger]
        entries_map(t).contains_key(key) <==> entries_map(s).remove(k).contains_key(key) by {
        if entries_map(t).contains_key(key) {
            let a = choose|a: int| 0 <= a < t.len() && (#[trigger] t[a]).0@ == key;
            let a2 = if a < i { a } else { a + 1 };
            assert(t[a] == s[a2]);
            assert(s[a2].0@ == key);
        }
        if entries_map(s).remove(k).contains_key(key) {
            let a = choose|a: int| 0 <= a < s.len() && (#[trigger] s[a]).0@ == key;
            assert(a != i);
            let a2 = if a < i { a } else { a - 1 };
            assert(t[a2] == s[a]);
            assert(t[a2].0@ == key);
        }
    }
    assert forall|key: Seq<char>| #[trigger] entries_map(t).contains_key(key) implies entries_map(
        t,
    )[key] == entries_map(s)[key] by {
        let a = choose|a: int| 0 <= a < t.len() && (#[trigger] t[a]).0@ == key;
        let a2 = if a < i { a } else { a + 1 };
        assert(t[a] == s[a2]);
        lemma_entry_in_map(s, a2);
    }
    assert(entries_map(t) =~= entries_map(s).remove(k));
}

proof fn lemma_push_entry<H>(s: Seq<(String, H)>, e: (String, H))
    requires
        keys_distinct(s),
        !entries_map(s).contains_key(e.0@),
    ensures
        keys_distinct(s.push(e)),
        entries_map(s.push(e)) == entries_map(s).insert(e.0@, e.1),
{
    let t = s.push(e);
    let n = s.len() as int;
    assert forall|a: int| 0 <= a < s.len() implies (#[trigger] s[a]).0@ != e.0@ by {
        if s[a].0@ == e.0@ {
            assert(entries_map(s).contains_key(e.0@));
        }
    }
    assert forall|a: int, b: int|
        0 <= a < t.len() && 0 <= b < t.len() && a != b implies (#[trigger] t[a]).0@ != (
        #[trigger] t[b]).0@ by {
        if a < n {
            assert(t[a] == s[a]);
        }
        if b < n {
            assert(t[b] == s[b]);
        }
    }
    assert forall|key: Seq<char>| #[trigger]
        entries_map(t).contains_key(key) <==> entries_map(s).insert(e.0@, e.1).contains_key(key) by {
        if entries_map(t).contains_key(key) && key != e.0@ {
            let a = choose|a: int| 0 <= a < t.len() && (#[trigger] t[a]).0@ == key;
            assert(a < n);
            assert(t[a] == s[a]);
        }
        if entries_map(s).contains_key(key) {
            let a = choose|a: int| 0 <= a < s.len() && (#[trigger] s[a]).0@ == key;
            assert(t[a] == s[a]);
        }
        if key == e.0@ {
            assert(t[n] == e);
        }
    }
    assert forall|key: Seq<char>| #[trigger] entries_map(t).contains_key(key) implies entries_map(
        t,
    )[key] == entries_map(s).insert(e.0@, e.1)[key] by {
        let a = choose|a: int| 0 <= a < t.len() && (#[trigger] t[a]).0@ == key;
        lemma_entry_in_map(t, a);
        if a < n {
            assert(t[a] == s[a]);
            lemma_entry_in_map(s, a);
        }
    }
    assert(entries_map(t) =~= entries_map(s).insert(e.0@, e.1));
}

/// A mapping from wormhole code to the handle registered under it.
///
/// Looking an entry up removes it, so each registered handle reaches at most
/// one consumer. Entries never expire: a handle that nobody takes stays until
/// the registry is dropped.
pub struct CodeRegistry<H> {
    entries: Vec<(String, H)>,
}

impl<H> View for CodeRegistry<H> {
    type V = Map<Seq<char>, H>;

    closed spec fn view(&self) -> Map<Seq<char>, H> {
        entries_map(self.entries@)
    }
}

impl<H> CodeRegistry<H> {
    /// The entries hold each code at most once.
    pub closed spec fn wf(&self) -> bool {
        keys_distinct(self.entries@)
    }

    /// An empty registry.
    pub fn new() -> (r: CodeRegistry<H>)
        ensures
            r.wf(),
            r@ == Map::<Seq<char>, H>::empty(),
    {
        let r = CodeRegistry { entries: Vec::new() };
        assert(r@ =~= Map::<Seq<char>, H>::empty());
        r
    }

    fn position(&self, code: &String) -> (r: Option<usize>)
        ensures
            match r {
                Some(i) => i < self.entries@.len() && self.entries@[i as int].0@ == code@,
                None => !self@.contains_key(code@),
            },
    {
        let mut i: usize = 0;
        while i < self.entries.len()
            invariant
                i <= self.entries@.len(),
                forall|j: int| 0 <= j < i ==> (#[trigger] self.entries@[j]).0@ != code@,
            decreases self.entries@.len() - i,
        {
            if self.entries[i].0 == *code {
                return Some(i);
            }
            i = i + 1;
        }
        None
    }

    /// Registers `handle` under `code`, replacing any handle registered there before.
    pub fn register(&mut self, code: String, handle: H)
        requires
            old(self).wf(),
        ensures
            final(self).wf(),
            final(self)@ == old(self)@.insert(code@, handle),
    {
        let found = self.position(&code);
        match found {
            Some(i) => {
                proof {
                    lemma_remove_entry(self.entries@, i as int);
                }
                self.entries.remove(i);
            },
            None => {},
        }
        proof {
            lemma_push_entry(self.entries@, (code, handle));
        }
        self.entries.push((code, handle));
        assert(self@ =~= old(self)@.insert(code@, handle));
    }

    /// Removes and returns the handle registered under `code`, if any.
    pub fn take(&mut self, code: &String) -> (r: Option<H>)
        requires
            old(self).wf(),
        ensures
            final(self).wf(),
            (r, final(self)@) == take_result(old(self)@, code@),
    {
        match self.position(code) {
            Some(i) => {
                proof {
                    lemma_entry_in_map(self.entries@, i as int);
                    lemma_remove_entry(self.entries@, i as int);
                }
                let (_, handle) = self.entries.remove(i);
                Some(handle)
            },
            None => None,
        }
    }
}

/// What taking `code` from a registry holding `m` returns, and what it leaves.
pub open spec fn take_result<H>(m: Map<Seq<char>, H>, code: Seq<char>) -> (Option<H>, Map<
    Seq<char>,
    H,
>) {
    if m.contains_key(code) {
        (Some(m[code]), m.remove(code))
    } else {
        (None, m)
    }
}

/// A registered handle is handed out once: of two takes of the same code in a
/// row, the first returns the handle registered under it and the second finds
/// nothing, whatever the registry held.
pub proof fn lemma_take_at_most_once<H>(m: Map<Seq<char>, H>, code: Seq<char>)
    ensures
        m.contains_key(code) ==> take_result(m, code).0 == Some(m[code]),
        take_result(take_result(m, code).1, code).0 is None,
{
}

} // verus!
