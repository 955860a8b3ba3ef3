//! Host filesystem trait for virtual IEC device #10.

use vstd::prelude::*;
use vstd::slice::slice_to_vec;

verus! {

/// Abstract host filesystem (backends can be moved across threads).
pub trait HostFs: Send {
    /// List file names in the root.
    fn list(&self) -> Vec<String>;
    /// Read a file. Returns None if it doesn't exist.
    fn read(&self, name: &str) -> Option<Vec<u8>>;
    /// Write a file, creating or overwriting. Returns Err on failure.
    fn write(&mut self, name: &str, data: &[u8]) -> std::io::Result<()>;
}

/// No-op backend.
pub struct NullHostFs;

impl HostFs for NullHostFs {
    fn list(&self) -> (r: Vec<String>)
        ensures
            r@.len() == 0,
    {
        Vec::new()
    }

    fn read(&self, _name: &str) -> (r: Option<Vec<u8>>)
        ensures
            r is None,
    {
        None
    }

    fn write(&mut self, _name: &str, _data: &[u8]) -> (r: std::io::Result<()>)
        ensures
            r is Ok,
    {
        Ok(())
    }
}

/// Whether `k` is where names `a` and `b` part: they agree before `k`, and
/// there `a` has ended while `b` goes on, or `a` has the lower character.
pub open spec fn parts_at(a: Seq<char>, b: Seq<char>, k: int) -> bool {
    &&& 0 <= k <= a.len()
    &&& k <= b.len()
    &&& forall|j: int| 0 <= j < k ==> a[j] == b[j]
    &&& ((k == a.len() && k < b.len()) || (k < a.len() && k < b.len() && a[k] < b[k]))
}

/// Strict lexicographic order on names, character by character (the order
/// in which a `BTreeMap<String, _>` keeps its keys).
pub open spec fn name_before(a: Seq<char>, b: Seq<char>) -> bool {
    exists|k: int| #[trigger] parts_at(a, b, k)
}

/// The names of `es` in strictly increasing order (so none twice).
pub open spec fn sorted_names(es: Seq<(Seq<char>, Seq<u8>)>) -> bool {
    forall|i: int, j: int| 0 <= i < j < es.len() ==> name_before(#[trigger] es[i].0, #[trigger] es[j].0)
}

/// The files of an entry list, name to contents.
pub open spec fn file_map(es: Seq<(Seq<char>, Seq<u8>)>) -> Map<Seq<char>, Seq<u8>>
    decreases es.len(),
{
    if es.len() == 0 {
        Map::empty()
    } else {
        file_map(es.drop_last()).insert(es.last().0, es.last().1)
    }
}

/// No name comes before itself.
proof fn lemma_before_irreflexive(a: Seq<char>)
    ensures
        !name_before(a, a),
{
}

/// A name that does not come before another is equal to it or comes after.
proof fn lemma_before_total(a: Seq<char>, b: Seq<char>)
    ensures
        name_before(a, b) || a == b || name_before(b, a),
{
    if !name_before(a, b) && !name_before(b, a) {
        lemma_agree_upto(a, b, a.len() as int);
        lemma_agree_upto(b, a, b.len() as int);
        assert(a =~= b);
    }
}

/// Two names neither of which comes before the other agree on their first
/// `k` characters.
proof fn lemma_agree_upto(a: Seq<char>, b: Seq<char>, k: int)
    requires
        !name_before(a, b),
        !name_before(b, a),
        0 <= k <= a.len(),
    ensures
        k <= b.len(),
        forall|j: int| 0 <= j < k ==> a[j] == b[j],
    decreases k,
{
    if k > 0 {
        lemma_agree_upto(a, b, k - 1);
        let i = k - 1;
        if i == b.len() {
            assert forall|j: int| 0 <= j < i implies b[j] == a[j] by {}
            assert(parts_at(b, a, i));
        } else if a[i] < b[i] {
            assert(parts_at(a, b, i));
        } else if b[i] < a[i] {
            assert forall|j: int| 0 <= j < i implies b[j] == a[j] by {}
            assert(parts_at(b, a, i));
        }
    }
}

/// The order is transitive.
proof fn lemma_before_transitive(a: Seq<char>, b: Seq<char>, c: Seq<char>)
    requires
        name_before(a, b),
        name_before(b, c),
    ensures
        name_before(a, c),
{
    let k1 = choose|k: int| parts_at(a, b, k);
    let k2 = choose|k: int| parts_at(b, c, k);
    if k1 < k2 {
        assert(parts_at(a, c, k1));
    } else if k2 < k1 {
        assert(parts_at(a, c, k2));
    } else {
        assert(parts_at(a, c, k1));
    }
}

/// The files of a name-sorted entry list: a name is present exactly when an
/// entry has it, and that entry's contents are its file.
proof fn lemma_file_map(es: Seq<(Seq<char>, Seq<u8>)>)
    requires
        sorted_names(es),
    ensures
        forall|n: Seq<char>| #[trigger] file_map(es).contains_key(n) <==> exists|i: int| 0 <= i < es.len() && es[i].0 == n,
        forall|i: int| 0 <= i < es.len() ==> #[trigger] file_map(es)[es[i].0] == es[i].1,
    decreases es.len(),
{
    if es.len() > 0 {
        let p = es.drop_last();
        assert forall|i: int, j: int| 0 <= i < j < p.len() implies name_before(#[trigger] p[i].0, #[trigger] p[j].0) by {
            assert(es[i] == p[i] && es[j] == p[j]);
        }
        lemma_file_map(p);
        assert forall|n: Seq<char>| #[trigger] file_map(es).contains_key(n) <==> exists|i: int| 0 <= i < es.len() && es[i].0 == n by {
            if file_map(es).contains_key(n) {
                if n == es.last().0 {
                    assert(es[es.len() - 1].0 == n);
                } else {
                    assert(file_map(p).contains_key(n));
                    let i = choose|i: int| 0 <= i < p.len() && p[i].0 == n;
                    assert(es[i] == p[i]);
                }
            }
            if exists|i: int| 0 <= i < es.len() && es[i].0 == n {
                let i = choose|i: int| 0 <= i < es.len() && es[i].0 == n;
                if i < p.len() {
                    assert(es[i] == p[i]);
                    assert(file_map(p).contains_key(n));
                }
            }
        }
        assert forall|i: int| 0 <= i < es.len() implies #[trigger] file_map(es)[es[i].0] == es[i].1 by {
            if i < p.len() {
                assert(es[i] == p[i]);
                assert(name_before(es[i].0, es[es.len() - 1].0));
                lemma_before_irreflexive(es[i].0);
                assert(file_map(p)[p[i].0] == p[i].1);
            }
        }
    }
}

/// Replacing the contents of an entry replaces that file.
proof fn lemma_file_map_update(es: Seq<(Seq<char>, Seq<u8>)>, p: int, e: (Seq<char>, Seq<u8>))
    requires
        sorted_names(es),
        0 <= p < es.len(),
        es[p].0 == e.0,
    ensures
        sorted_names(es.update(p, e)),
        file_map(es.update(p, e)) == file_map(es).insert(e.0, e.1),
{
    let t = es.update(p, e);
    assert forall|i: int, j: int| 0 <= i < j < t.len() implies name_before(#[trigger] t[i].0, #[trigger] t[j].0) by {
        assert(t[i].0 == es[i].0 && t[j].0 == es[j].0);
    }
    lemma_file_map(es);
    lemma_file_map(t);
    let m = file_map(es).insert(e.0, e.1);
    assert forall|n: Seq<char>| #[trigger] file_map(t).contains_key(n) <==> m.contains_key(n) by {
        if file_map(t).contains_key(n) {
            let i = choose|i: int| 0 <= i < t.len() && t[i].0 == n;
            assert(es[i].0 == n);
        }
        if m.contains_key(n) {
            if n != e.0 {
                let i = choose|i: int| 0 <= i < es.len() && es[i].0 == n;
                assert(t[i].0 == n);
            } else {
                assert(t[p].0 == n);
            }
        }
    }
    assert forall|n: Seq<char>| #[trigger] file_map(t).contains_key(n) implies file_map(t)[n] == m[n] by {
        let i = choose|i: int| 0 <= i < t.len() && t[i].0 == n;
        if i == p {
        } else {
            assert(file_map(t)[t[i].0] == t[i].1);
            assert(file_map(es)[es[i].0] == es[i].1);
        }
    }
    assert(file_map(t) =~= m);
}

/// Inserting an entry for a new name adds that file.
proof fn lemma_file_map_insert(es: Seq<(Seq<char>, Seq<u8>)>, p: int, e: (Seq<char>, Seq<u8>))
    requires
        sorted_names(es),
        sorted_names(es.insert(p, e)),
        0 <= p <= es.len(),
    ensures
        file_map(es.insert(p, e)) == file_map(es).insert(e.0, e.1),
{
    let t = es.insert(p, e);
    lemma_file_map(es);
    lemma_file_map(t);
    let m = file_map(es).insert(e.0, e.1);
    assert forall|n: Seq<char>| #[trigger] file_map(t).contains_key(n) <==> m.contains_key(n) by {
        if file_map(t).contains_key(n) {
            let i = choose|i: int| 0 <= i < t.len() && t[i].0 == n;
            if i < p {
                assert(es[i].0 == n);
            } else if i > p {
                assert(es[i - 1].0 == n);
            }
        }
        if m.contains_key(n) {
            if n != e.0 {
                let i = choose|i: int| 0 <= i < es.len() && es[i].0 == n;
                if i < p {
                    assert(t[i].0 == n);
                } else {
                    assert(t[i + 1].0 == n);
                }
            } else {
                assert(t[p].0 == n);
            }
        }
    }
    assert forall|n: Seq<char>| #[trigger] file_map(t).contains_key(n) implies file_map(t)[n] == m[n] by {
        let i = choose|i: int| 0 <= i < t.len() && t[i].0 == n;
        assert(file_map(t)[t[i].0] == t[i].1);
        if i < p {
            assert(file_map(es)[es[i].0] == es[i].1);
            assert(name_before(t[i].0, t[p].0));
            lemma_before_irreflexive(n);
        } else if i > p {
            assert(file_map(es)[es[i - 1].0] == es[i - 1].1);
            assert(name_before(t[p].0, t[i].0));
            lemma_before_irreflexive(n);
        }
    }
    assert(file_map(t) =~= m);
}

/// A write of `name` followed by a read of it gives back what was written,
/// and leaves every other name as it was: the files after the write are the
/// files before with that one replaced (the contract of
/// `InMemoryHostFs::write`), which is what `InMemoryHostFs::read` then looks
/// up.
pub proof fn law_write_then_read(before: Map<Seq<char>, Seq<u8>>, after: Map<Seq<char>, Seq<u8>>, name: Seq<char>, data: Seq<u8>, other: Seq<char>)
    requires
        after == before.insert(name, data),
        other != name,
    ensures
        after.contains_key(name),
        after[name] == data,
        after.contains_key(other) == before.contains_key(other),
        before.contains_key(other) ==> after[other] == before[other],
{
}

/// In-memory backend (used by the web frontend): the files, kept in name
/// order.
pub struct InMemoryHostFs {
    files: Vec<(String, Vec<u8>)>,
}

impl InMemoryHostFs {
    /// The entries, name and contents, in name order.
    pub closed spec fn entries(&self) -> Seq<(Seq<char>, Seq<u8>)> {
        self.files@.map_values(|e: (String, Vec<u8>)| (e.0@, e.1@))
    }

    /// The entries are in strictly increasing name order.
    #[verifier::type_invariant]
    closed spec fn sorted(&self) -> bool {
        sorted_names(self.entries())
    }

    /// An empty filesystem.
    pub fn new() -> (r: Self)
        ensures
            r@ == Map::<Seq<char>, Seq<u8>>::empty(),
            r.names() == Seq::<Seq<char>>::empty(),
    {
        let r = InMemoryHostFs { files: Vec::new() };
        assert(r.entries() =~= Seq::empty());
        r
    }

    /// The stored names, in increasing order.
    pub closed spec fn names(&self) -> Seq<Seq<char>> {
        self.entries().map_values(|e: (Seq<char>, Seq<u8>)| e.0)
    }

    /// Position of the first entry whose name does not come before `name`.
    fn position(&self, name: &str) -> (p: usize)
        ensures
            p <= self.entries().len(),
            forall|i: int| 0 <= i < p ==> name_before(#[trigger] self.entries()[i].0, name@),
            p < self.entries().len() ==> !name_before(self.entries()[p as int].0, name@),
    {
        let mut p: usize = 0;
        while p < self.files.len()
            invariant
                p <= self.files@.len(),
                forall|i: int| 0 <= i < p ==> name_before(#[trigger] self.entries()[i].0, name@),
            decreases self.files@.len() - p,
        {
            if !name_less(self.files[p].0.as_str(), name) {
                return p;
            }
            p += 1;
        }
        p
    }
}

impl View for InMemoryHostFs {
    type V = Map<Seq<char>, Seq<u8>>;

    /// The files, name to contents.
    closed spec fn view(&self) -> Map<Seq<char>, Seq<u8>> {
        file_map(self.entries())
    }
}

/// Whether `a` comes before `b` in name order.
fn name_less(a: &str, b: &str) -> (r: bool)
    ensures
        r == name_before(a@, b@),
{
    let n = a.unicode_len();
    let m = b.unicode_len();
    let mut k: usize = 0;
    while k < n && k < m && a.get_char(k) == b.get_char(k)
        invariant
            k <= n,
            k <= m,
            n == a@.len(),
            m == b@.len(),
            forall|j: int| 0 <= j < k ==> a@[j] == b@[j],
        decreases n - k,
    {
        k += 1;
    }
    let r = if k == n {
        k < m
    } else if k == m {
        false
    } else {
        a.get_char(k) < b.get_char(k)
    };
    proof {
        if r {
            assert(parts_at(a@, b@, k as int));
        } else if name_before(a@, b@) {
            let j = choose|j: int| parts_at(a@, b@, j);
            if j < k {
            } else if j > k {
                assert(a@[k as int] == b@[k as int]);
            }
        }
    }
    r
}

impl Default for InMemoryHostFs {
    fn default() -> (r: Self)
        ensures
            r@ == Map::<Seq<char>, Seq<u8>>::empty(),
            r.names() == Seq::<Seq<char>>::empty(),
    {
        InMemoryHostFs::new()
    }
}

impl HostFs for InMemoryHostFs {
    fn list(&self) -> (r: Vec<String>)
        ensures
            r@.map_values(|s: String| s@) == self.names(),
            forall|i: int, j: int| 0 <= i < j < self.names().len() ==> name_before(#[trigger] self.names()[i], #[trigger] self.names()[j]),
            forall|n: Seq<char>| #[trigger] self@.contains_key(n) <==> self.names().contains(n),
    {
        proof {
            use_type_invariant(self);
            lemma_file_map(self.entries());
            assert forall|n: Seq<char>| #[trigger] self@.contains_key(n) <==> self.names().contains(n) by {
                if self@.contains_key(n) {
                    let i = choose|i: int| 0 <= i < self.entries().len() && self.entries()[i].0 == n;
                    assert(self.names()[i] == n);
                }
                if self.names().contains(n) {
                    let i = choose|i: int| 0 <= i < self.names().len() && self.names()[i] == n;
                    assert(self.entries()[i].0 == n);
                }
            }
        }
        let mut out: Vec<String> = Vec::new();
        let mut i: usize = 0;
        while i < self.files.len()
            invariant
                i <= self.files@.len(),
                out@.len() == i,
                forall|j: int| 0 <= j < i ==> #[trigger] out@[j]@ == self.names()[j],
            decreases self.files@.len() - i,
        {
            out.push(self.files[i].0.clone());
            i += 1;
        }
        assert(out@.map_values(|s: String| s@) =~= self.names());
        out
    }

    fn read(&self, name: &str) -> (r: Option<Vec<u8>>)
        ensures
            match r {
                Some(v) => self@.contains_key(name@) && v@ == self@[name@],
                None => !self@.contains_key(name@),
            },
    {
        proof {
            use_type_invariant(self);
            lemma_file_map(self.entries());
        }
        let p = self.position(name);
        if p < self.files.len() && !name_less(name, self.files[p].0.as_str()) {
            proof {
                lemma_before_total(self.entries()[p as int].0, name@);
            }
            let v = self.files[p].1.clone();
            assert(v@ =~= self.entries()[p as int].1);
            Some(v)
        } else {
            proof {
                if self@.contains_key(name@) {
                    let i = choose|i: int| 0 <= i < self.entries().len() && self.entries()[i].0 == name@;
                    lemma_before_irreflexive(name@);
                    if i >= p {
                        if i > p {
                            lemma_before_total(self.entries()[p as int].0, name@);
                            assert(name_before(self.entries()[p as int].0, self.entries()[i].0));
                        }
                    }
                }
            }
            None
        }
    }

    fn write(&mut self, name: &str, data: &[u8]) -> (r: std::io::Result<()>)
        ensures
            r is Ok,
            final(self)@ == old(self)@.insert(name@, data@),
    {
        proof {
            use_type_invariant(&*self);
        }
        let p = self.position(name);
        let entry = (String::from_str(name), slice_to_vec(data));
        let ghost old_es = self.entries();
        if p < self.files.len() && !name_less(name, self.files[p].0.as_str()) {
            proof {
                lemma_before_total(old_es[p as int].0, name@);
            }
            let mut files: Vec<(String, Vec<u8>)> = Vec::new();
            std::mem::swap(&mut files, &mut self.files);
            files.set(p, entry);
            proof {
                let es = files@.map_values(|e: (String, Vec<u8>)| (e.0@, e.1@));
                assert(es =~= old_es.update(p as int, (name@, data@)));
                lemma_file_map_update(old_es, p as int, (name@, data@));
            }
            self.files = files;
        } else {
            let mut files: Vec<(String, Vec<u8>)> = Vec::new();
            std::mem::swap(&mut files, &mut self.files);
            files.insert(p, entry);
            proof {
                let es = files@.map_values(|e: (String, Vec<u8>)| (e.0@, e.1@));
                assert(es =~= old_es.insert(p as int, (name@, data@)));
                if p < old_es.len() {
                    lemma_before_total(old_es[p as int].0, name@);
                }
                assert forall|i: int, j: int| 0 <= i < j < es.len() implies name_before(#[trigger] es[i].0, #[trigger] es[j].0) by {
                    if j == p {
                    } else if i == p {
                        if j > p + 1 {
                            lemma_before_transitive(name@, old_es[p as int].0, old_es[j - 1].0);
                        }
                    }
                }
                lemma_file_map_insert(old_es, p as int, (name@, data@));
            }
            self.files = files;
        }
        Ok(())
    }
}

} // verus!
