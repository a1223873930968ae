//! The cache of downloaded image bytes, keyed by business id.

use vstd::prelude::*;

verus! {

struct CacheEntry {
    id: String,
    bytes: Vec<u8>,
}

/// Maps a business id to the encoded image bytes last downloaded for it.
///
/// Entries are created by the first successful fetch for an id and
/// overwritten by later ones; none is ever evicted.
pub struct ImageCache {
    entries: Vec<CacheEntry>,
    images: Ghost<Map<Seq<char>, Seq<u8>>>,
}

impl View for ImageCache {
    type V = Map<Seq<char>, Seq<u8>>;

    closed spec fn view(&self) -> Map<Seq<char>, Seq<u8>> {
        self.images@
    }
}

impl ImageCache {
    /// The entries have distinct ids and agree with the view.
    pub closed spec fn wf(&self) -> bool {
        &&& forall|i: int, j: int|
            0 <= i < j < self.entries@.len() ==> self.entries@[i].id@ != self.entries@[j].id@
        &&& forall|i: int|
            0 <= i < self.entries@.len() ==> {
                &&& #[trigger] self.images@.contains_key(self.entries@[i].id@)
                &&& self.images@[self.entries@[i].id@] == self.entries@[i].bytes@
            }
        &&& forall|k: Seq<char>|
            #[trigger] self.images@.contains_key(k) ==> exists|i: int|
                0 <= i < self.entries@.len() && self.entries@[i].id@ == k
    }

    /// An empty cache.
    pub fn new() -> (r: ImageCache)
        ensures
            r.wf(),
            r@ == Map::<Seq<char>, Seq<u8>>::empty(),
    {
        ImageCache { entries: Vec::new(), images: Ghost(Map::empty()) }
    }

    /// The position of the entry for `id`, if there is one.
    fn position(&self, id: &String) -> (r: Option<usize>)
        ensures
            match r {
                Some(i) => i < self.entries@.len() && self.entries@[i as int].id@ == id@,
                None => forall|i: int|
                    0 <= i < self.entries@.len() ==> self.entries@[i].id@ != id@,
            },
    {
        let mut i: usize = 0;
        while i < self.entries.len()
            invariant
                i <= self.entries@.len(),
                forall|j: int| 0 <= j < i ==> self.entries@[j].id@ != id@,
            decreases self.entries@.len() - i,
        {
            if self.entries[i].id.eq(id) {
                return Some(i);
            }
            i = i + 1;
        }
        None
    }

    /// Stores `bytes` as the image of `id`, replacing any earlier image of it.
    pub fn store(&mut self, id: &String, bytes: Vec<u8>)
        requires
            old(self).wf(),
        ensures
            final(self).wf(),
            final(self)@ == old(self)@.insert(id@, bytes@),
    {
        let ghost new_images = self.images@.insert(id@, bytes@);
        match self.position(id) {
            Some(i) => {
                let entry = CacheEntry { id: id.clone(), bytes };
                self.entries.set(i, entry);
                self.images = Ghost(new_images);
                assert forall|k: Seq<char>| #[trigger] self.images@.contains_key(k) implies exists|j: int|
                    0 <= j < self.entries@.len() && self.entries@[j].id@ == k by {
                    if k != id@ {
                        let j = choose|j: int| 0 <= j < old(self).entries@.len() && old(self).entries@[j].id@ == k;
                        assert(self.entries@[j].id@ == k);
                    } else {
                        assert(self.entries@[i as int].id@ == k);
                    }
                }
            },
            None => {
                let entry = CacheEntry { id: id.clone(), bytes };
                self.entries.push(entry);
                self.images = Ghost(new_images);
                assert forall|k: Seq<char>| #[trigger] self.images@.contains_key(k) implies exists|j: int|
                    0 <= j < self.entries@.len() && self.entries@[j].id@ == k by {
                    if k != id@ {
                        let j = choose|j: int| 0 <= j < old(self).entries@.len() && old(self).entries@[j].id@ == k;
                        assert(self.entries@[j].id@ == k);
                    } else {
                        assert(self.entries@[self.entries@.len() - 1].id@ == k);
                    }
                }
            },
        }
    }

    /// The image stored for `id`, if any.
    pub fn get(&self, id: &String) -> (r: Option<&Vec<u8>>)
        requires
            self.wf(),
        ensures
            r is None <==> !self@.contains_key(id@),
            r matches Some(b) ==> b@ == self@[id@],
    {
        match self.position(id) {
            Some(i) => Some(&self.entries[i].bytes),
            None => None,
        }
    }

    /// Whether an image is stored for `id`.
    pub fn contains(&self, id: &String) -> (r: bool)
        requires
            self.wf(),
        ensures
            r == self@.contains_key(id@),
    {
        self.get(id).is_some()
    }
}

} // verus!
