//! The best-known version of each image filename.

use vstd::prelude::*;

verus! {

/// Whether an image of `size` bytes replaces what `m` holds under `name`:
/// it does unless a version at least as large is held.
pub open spec fn offer_accepted(m: Map<Seq<char>, Seq<u8>>, name: Seq<char>, size: int) -> bool {
    !(m.contains_key(name) && m[name].len() >= size)
}

/// The table after offering `bytes` under `name`.
pub open spec fn after_offer(m: Map<Seq<char>, Seq<u8>>, name: Seq<char>, bytes: Seq<u8>) -> Map<
    Seq<char>,
    Seq<u8>,
> {
    if offer_accepted(m, name, bytes.len() as int) {
        m.insert(name, bytes)
    } else {
        m
    }
}

/// One filename with the largest contents seen under it.
pub struct ImageVersion {
    name: String,
    content: Vec<u8>,
}

/// Maps each filename to the largest image seen under it.
pub struct VersionTable {
    entries: Vec<ImageVersion>,
    contents: Ghost<Map<Seq<char>, Seq<u8>>>,
}

impl View for VersionTable {
    type V = Map<Seq<char>, Seq<u8>>;

    closed spec fn view(&self) -> Map<Seq<char>, Seq<u8>> {
        self.contents@
    }
}

impl VersionTable {
    /// Names are unique, and the entries are exactly the map's.
    pub closed spec fn wf(&self) -> bool {
        &&& forall|i: int, j: int|
            0 <= i < j < self.entries.len() ==> self.entries@[i].name@ != self.entries@[j].name@
        &&& forall|i: int|
            0 <= i < self.entries.len() ==> #[trigger] self.contents@.contains_key(self.entries@[i].name@)
                && self.contents@[self.entries@[i].name@] == self.entries@[i].content@
        &&& forall|k: Seq<char>|
            #[trigger] self.contents@.contains_key(k) ==> exists|i: int|
                0 <= i < self.entries.len() && self.entries@[i].name@ == k
    }

    /// An empty table.
    pub fn new() -> (r: VersionTable)
        ensures
            r.wf(),
            r@ == Map::<Seq<char>, Seq<u8>>::empty(),
    {
        VersionTable { entries: Vec::new(), contents: Ghost(Map::empty()) }
    }

    /// The index of the entry named `name`, if any.
    fn find(&self, name: &String) -> (r: Option<usize>)
        requires
            self.wf(),
        ensures
            match r {
                Some(i) => i < self.entries.len() && self.entries@[i as int].name@ == name@,
                None => !self@.contains_key(name@),
            },
    {
        let mut i: usize = 0;
        while i < self.entries.len()
            invariant
                i <= self.entries.len(),
                forall|j: int| 0 <= j < i ==> self.entries@[j].name@ != name@,
            decreases self.entries.len() - i,
        {
            if self.entries[i].name == *name {
                return Some(i);
            }
            i = i + 1;
        }
        None
    }

    /// The size of the version held under `name`, if any.
    pub fn stored_size(&self, name: &str) -> (r: Option<usize>)
        requires
            self.wf(),
        ensures
            match r {
                Some(n) => self@.contains_key(name@) && n == self@[name@].len(),
                None => !self@.contains_key(name@),
            },
    {
        let key = String::from_str(name);
        match self.find(&key) {
            Some(i) => {
                assert(self.contents@.contains_key(self.entries@[i as int].name@));
                Some(self.entries[i].content.len())
            },
            None => None,
        }
    }

    /// Offers `bytes` as a version of `name`: stores it, in one step, unless a
    /// version at least as large is held, and reports whether it stored it.
    pub fn offer(&mut self, name: String, bytes: Vec<u8>) -> (r: bool)
        requires
            old(self).wf(),
        ensures
            final(self).wf(),
            r == offer_accepted(old(self)@, name@, bytes@.len() as int),
            final(self)@ == after_offer(old(self)@, name@, bytes@),
    {
        match self.find(&name) {
            Some(i) => {
                assert(self.contents@.contains_key(self.entries@[i as int].name@));
                if self.entries[i].content.len() >= bytes.len() {
                    false
                } else {
                    let ghost n = name@;
                    let ghost b = bytes@;
                    self.entries[i] = ImageVersion { name, content: bytes };
                    self.contents = Ghost(self.contents@.insert(n, b));
                    assert forall|j: int| 0 <= j < self.entries.len() implies self.entries@[j].name@
                        == old(self).entries@[j].name@ by {}
                    assert forall|j: int|
                        0 <= j < self.entries.len() implies #[trigger] self.contents@.contains_key(
                        self.entries@[j].name@) && self.contents@[self.entries@[j].name@]
                        == self.entries@[j].content@ by {
                        if j != i {
                            assert(old(self).contents@.contains_key(old(self).entries@[j].name@));
                        }
                    }
                    assert forall|k: Seq<char>| #[trigger] self.contents@.contains_key(k) implies exists|j: int|
                        0 <= j < self.entries.len() && self.entries@[j].name@ == k by {
                        if k != n {
                            assert(old(self).contents@.contains_key(k));
                            let j = choose|j: int| 0 <= j < old(self).entries.len() && old(self).entries@[j].name@ == k;
                            assert(self.entries@[j].name@ == k);
                        } else {
                            assert(self.entries@[i as int].name@ == n);
                        }
                    }
                    true
                }
            },
            None => {
                let ghost n = name@;
                let ghost b = bytes@;
                self.entries.push(ImageVersion { name, content: bytes });
                self.contents = Ghost(self.contents@.insert(n, b));
                assert forall|j: int, l: int|
                    0 <= j < l < self.entries.len() implies self.entries@[j].name@ != self.entries@[l].name@ by {
                    if l == self.entries.len() - 1 {
                        assert(old(self).contents@.contains_key(old(self).entries@[j].name@));
                    }
                }
                assert forall|j: int|
                    0 <= j < self.entries.len() implies #[trigger] self.contents@.contains_key(
                    self.entries@[j].name@) && self.contents@[self.entries@[j].name@]
                    == self.entries@[j].content@ by {
                    if j < self.entries.len() - 1 {
                        assert(old(self).contents@.contains_key(old(self).entries@[j].name@));
                    }
                }
                assert forall|k: Seq<char>| #[trigger] self.contents@.contains_key(k) implies exists|j: int|
                    0 <= j < self.entries.len() && self.entries@[j].name@ == k by {
                    if k == n {
                        assert(self.entries@[self.entries.len() - 1].name@ == n);
                    } else {
                        assert(old(self).contents@.contains_key(k));
                        let j = choose|j: int| 0 <= j < old(self).entries.len() && old(self).entries@[j].name@ == k;
                        assert(self.entries@[j].name@ == k);
                    }
                }
                true
            },
        }
    }
}

/// Two versions of one filename with sizes s1 < s2, offered in either order
/// to a table that held none: the larger is stored at the end, and its offer
/// is accepted whichever came first.
pub proof fn lemma_larger_version_kept(
    m: Map<Seq<char>, Seq<u8>>,
    name: Seq<char>,
    smaller: Seq<u8>,
    larger: Seq<u8>,
)
    requires
        !m.contains_key(name),
        smaller.len() < larger.len(),
    ensures
        offer_accepted(after_offer(m, name, smaller), name, larger.len() as int),
        after_offer(after_offer(m, name, smaller), name, larger)[name] == larger,
        offer_accepted(m, name, larger.len() as int),
        after_offer(after_offer(m, name, larger), name, smaller)[name] == larger,
{
}

} // verus!
