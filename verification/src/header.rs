//! The header collection of a response: an insertion-ordered mapping from
//! header name to value, with unique names.

use vstd::prelude::*;

verus! {

/// Whether some entry of `hs` has the name `n`.
pub open spec fn contains_name(hs: Seq<(Seq<u8>, Seq<u8>)>, n: Seq<u8>) -> bool {
    exists|i: int| 0 <= i < hs.len() && hs[i].0 == n
}

/// The index of the entry of `hs` named `n`.
pub open spec fn name_index(hs: Seq<(Seq<u8>, Seq<u8>)>, n: Seq<u8>) -> int {
    choose|i: int| 0 <= i < hs.len() && hs[i].0 == n
}

/// `hs` with the header `n: v` set: the entry named `n` is replaced in
/// place, or a new entry is appended.
pub open spec fn with_header(hs: Seq<(Seq<u8>, Seq<u8>)>, n: Seq<u8>, v: Seq<u8>) -> Seq<
    (Seq<u8>, Seq<u8>),
> {
    if contains_name(hs, n) {
        hs.update(name_index(hs, n), (n, v))
    } else {
        hs.push((n, v))
    }
}

/// `b` with an ASCII capital letter lowered, any other byte unchanged.
pub open spec fn ascii_lower(b: u8) -> u8 {
    if 65 <= b <= 90 {
        (b + 32) as u8
    } else {
        b
    }
}

/// Whether two names are equal up to ASCII case.
pub open spec fn name_eq_ignore_case(a: Seq<u8>, b: Seq<u8>) -> bool {
    a.len() == b.len() && forall|i: int| 0 <= i < a.len() ==> ascii_lower(a[i]) == ascii_lower(b[i])
}

/// Whether some entry of `hs` has the name `n`, up to ASCII case.
pub open spec fn contains_name_ignore_case(hs: Seq<(Seq<u8>, Seq<u8>)>, n: Seq<u8>) -> bool {
    exists|i: int| 0 <= i < hs.len() && name_eq_ignore_case(hs[i].0, n)
}

/// Whether no two entries of `hs` share a name.
pub open spec fn distinct_names(hs: Seq<(Seq<u8>, Seq<u8>)>) -> bool {
    forall|i: int, j: int| 0 <= i < j < hs.len() ==> hs[i].0 != hs[j].0
}

/// How many entries of `hs` have the name `n`.
pub open spec fn count_name(hs: Seq<(Seq<u8>, Seq<u8>)>, n: Seq<u8>) -> nat
    decreases hs.len(),
{
    if hs.len() == 0 {
        0
    } else {
        count_name(hs.drop_last(), n) + if hs.last().0 == n {
            1nat
        } else {
            0nat
        }
    }
}

/// A name that no entry bears is counted zero times.
pub proof fn lemma_count_name_zero(hs: Seq<(Seq<u8>, Seq<u8>)>, n: Seq<u8>)
    requires
        !contains_name(hs, n),
    ensures
        count_name(hs, n) == 0,
    decreases hs.len(),
{
    if hs.len() > 0 {
        assert(hs.last().0 != n) by {
            if hs.last().0 == n {
                assert(hs[hs.len() - 1].0 == n);
                assert(contains_name(hs, n));
            }
        }
        assert(!contains_name(hs.drop_last(), n)) by {
            if contains_name(hs.drop_last(), n) {
                let i: int = choose|i: int| 0 <= i < hs.drop_last().len() && hs.drop_last()[i].0 == n;
                assert(hs[i].0 == n);
                assert(contains_name(hs, n));
            }
        }
        lemma_count_name_zero(hs.drop_last(), n);
    }
}

/// Appending an entry named `n` raises the count of `n` by one.
pub proof fn lemma_count_name_push(hs: Seq<(Seq<u8>, Seq<u8>)>, n: Seq<u8>, v: Seq<u8>)
    ensures
        count_name(hs.push((n, v)), n) == count_name(hs, n) + 1,
{
    assert(hs.push((n, v)).drop_last() =~= hs);
    assert(hs.push((n, v)).last() == (n, v));
}

/// Byte-for-byte equality of two slices.
pub fn bytes_eq(a: &[u8], b: &[u8]) -> (r: bool)
    ensures
        r == (a@ == b@),
{
    if a.len() != b.len() {
        return false;
    }
    let mut i: usize = 0;
    while i < a.len()
        invariant
            i <= a@.len(),
            a@.len() == b@.len(),
            forall|j: int| 0 <= j < i ==> a@[j] == b@[j],
        decreases a@.len() - i,
    {
        if a[i] != b[i] {
            return false;
        }
        i = i + 1;
    }
    proof {
        assert(a@ =~= b@);
    }
    true
}

/// `b` with an ASCII capital letter lowered, any other byte unchanged.
fn lower_byte(b: u8) -> (r: u8)
    ensures
        r == ascii_lower(b),
{
    if 65 <= b && b <= 90 {
        b + 32
    } else {
        b
    }
}

/// Equality of two names up to ASCII case.
pub fn bytes_eq_ignore_case(a: &[u8], b: &[u8]) -> (r: bool)
    ensures
        r == name_eq_ignore_case(a@, b@),
{
    if a.len() != b.len() {
        return false;
    }
    let mut i: usize = 0;
    while i < a.len()
        invariant
            i <= a@.len(),
            a@.len() == b@.len(),
            forall|j: int| 0 <= j < i ==> ascii_lower(a@[j]) == ascii_lower(b@[j]),
        decreases a@.len() - i,
    {
        if lower_byte(a[i]) != lower_byte(b[i]) {
            return false;
        }
        i = i + 1;
    }
    true
}

/// The outgoing headers of a response, each rendered on its own wire line,
/// in insertion order.
pub struct Headers {
    entries: Vec<(Vec<u8>, Vec<u8>)>,
}

impl View for Headers {
    type V = Seq<(Seq<u8>, Seq<u8>)>;

    closed spec fn view(&self) -> Seq<(Seq<u8>, Seq<u8>)> {
        self.entries@.map_values(|e: (Vec<u8>, Vec<u8>)| (e.0@, e.1@))
    }
}

impl Headers {
    /// Names are never repeated: the collection is a mapping.
    #[verifier::type_invariant]
    spec fn inv(&self) -> bool {
        distinct_names(self@)
    }

    /// An empty header collection.
    pub fn new() -> (r: Headers)
        ensures
            r@ == Seq::<(Seq<u8>, Seq<u8>)>::empty(),
    {
        let r = Headers { entries: Vec::new() };
        proof {
            assert(r@ =~= Seq::<(Seq<u8>, Seq<u8>)>::empty());
        }
        r
    }

    /// How many headers are set.
    pub fn len(&self) -> (r: usize)
        ensures
            r == self@.len(),
    {
        self.entries.len()
    }

    /// The entry at position `i`, in insertion order.
    pub fn get(&self, i: usize) -> (r: &(Vec<u8>, Vec<u8>))
        requires
            i < self@.len(),
        ensures
            r.0@ == self@[i as int].0,
            r.1@ == self@[i as int].1,
    {
        &self.entries[i]
    }

    /// Whether a header named `name` is set.
    pub fn has(&self, name: &[u8]) -> (r: bool)
        ensures
            r == contains_name(self@, name@),
    {
        let mut i: usize = 0;
        while i < self.entries.len()
            invariant
                i <= self@.len(),
                self@.len() == self.entries@.len(),
                forall|j: int| 0 <= j < i ==> self@[j].0 != name@,
            decreases self@.len() - i,
        {
            let e = &self.entries[i];
            if bytes_eq(e.0.as_slice(), name) {
                proof {
                    assert(self@[i as int].0 == name@);
                    assert(contains_name(self@, name@));
                }
                return true;
            }
            i = i + 1;
        }
        false
    }

    /// Whether a header named `name` is set, comparing names without
    /// regard to ASCII case.
    pub fn has_ignore_ascii_case(&self, name: &[u8]) -> (r: bool)
        ensures
            r == contains_name_ignore_case(self@, name@),
    {
        let mut i: usize = 0;
        while i < self.entries.len()
            invariant
                i <= self@.len(),
                self@.len() == self.entries@.len(),
                forall|j: int| 0 <= j < i ==> !name_eq_ignore_case(self@[j].0, name@),
            decreases self@.len() - i,
        {
            let e = &self.entries[i];
            if bytes_eq_ignore_case(e.0.as_slice(), name) {
                proof {
                    assert(name_eq_ignore_case(self@[i as int].0, name@));
                    assert(contains_name_ignore_case(self@, name@));
                }
                return true;
            }
            i = i + 1;
        }
        false
    }

    /// The position of the entry named `name`, if any.
    fn find(&self, name: &[u8]) -> (r: Option<usize>)
        ensures
            match r {
                Some(i) => i < self@.len() && self@[i as int].0 == name@,
                None => !contains_name(self@, name@),
            },
    {
        let mut i: usize = 0;
        while i < self.entries.len()
            invariant
                i <= self@.len(),
                self@.len() == self.entries@.len(),
                forall|j: int| 0 <= j < i ==> self@[j].0 != name@,
            decreases self@.len() - i,
        {
            let e = &self.entries[i];
            if bytes_eq(e.0.as_slice(), name) {
                proof {
                    assert(self@[i as int].0 == name@);
                }
                return Some(i);
            }
            i = i + 1;
        }
        None
    }

    /// Sets the header `name: value`: replaces the value of an entry already
    /// named `name` in place, or appends a new entry.
    pub fn set(&mut self, name: Vec<u8>, value: Vec<u8>)
        ensures
            final(self)@ == with_header(old(self)@, name@, value@),
            distinct_names(final(self)@),
    {
        proof {
            use_type_invariant(&*self);
        }
        let ghost old_view = self@;
        let ghost old_entries = self.entries@;
        let found = self.find(name.as_slice());
        let mut entries: Vec<(Vec<u8>, Vec<u8>)> = Vec::new();
        std::mem::swap(&mut entries, &mut self.entries);
        match found {
            Some(i) => {
                let _ = entries.remove(i);
                entries.insert(i, (name, value));
                proof {
                    assert(entries@ =~= old_entries.update(i as int, entries@[i as int]));
                    let nv = entries@.map_values(|e: (Vec<u8>, Vec<u8>)| (e.0@, e.1@));
                    assert(nv =~= old_view.update(i as int, (name@, value@)));
                    assert(contains_name(old_view, name@));
                    let k = name_index(old_view, name@);
                    assert(0 <= k < old_view.len() && old_view[k].0 == name@);
                    if k != i as int {
                        assert(old_view[k].0 != old_view[i as int].0);
                        assert(false);
                    }
                    assert(nv == with_header(old_view, name@, value@));
                    assert(forall|j: int| 0 <= j < nv.len() ==> nv[j].0 == old_view[j].0);
                    assert(distinct_names(nv));
                }
                self.entries = entries;
            },
            None => {
                entries.push((name, value));
                proof {
                    let nv = entries@.map_values(|e: (Vec<u8>, Vec<u8>)| (e.0@, e.1@));
                    assert(nv =~= old_view.push((name@, value@)));
                    assert(forall|j: int| 0 <= j < old_view.len() ==> old_view[j].0 != name@);
                    assert(distinct_names(nv));
                }
                self.entries = entries;
            },
        }
    }
}

} // verus!
