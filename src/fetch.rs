//! Dispatching one image fetch per business and accounting for completions.

use vstd::prelude::*;
use crate::business::Business;
use crate::image_cache::ImageCache;

verus! {

/// The request id that the host gives to a text: a hash of the text.
pub uninterp spec fn live_id_of(s: Seq<char>) -> u64;

/// Relies on `makepad_live_id::LiveId::from_str`: the id of a text, which
/// depends on the text alone.
#[verifier::external_body]
fn live_id(id: &String) -> (r: u64)
    ensures
        r == live_id_of(id@),
{
    makepad_live_id::LiveId::from_str(id.as_str()).0
}

/// The address from which the image of business `id` is fetched.
pub open spec fn image_url(id: Seq<char>) -> Seq<char> {
    "https://picsum.photos/seed/"@ + id + "/320/240"@
}

/// The ids of the businesses, in order.
pub open spec fn business_ids(businesses: Seq<Business>) -> Seq<Seq<char>> {
    businesses.map_values(|b: Business| b.id@)
}

/// `requests` holds one request per id of `ids`, in order.
pub open spec fn requests_match(requests: Seq<FetchRequest>, ids: Seq<Seq<char>>) -> bool {
    &&& requests.len() == ids.len()
    &&& forall|i: int|
        0 <= i < requests.len() ==> {
            &&& #[trigger] requests[i].id@ == ids[i]
            &&& requests[i].url@ == image_url(ids[i])
            &&& requests[i].token == live_id_of(ids[i])
        }
}

/// One outgoing image request, correlated with its business by `id` and `token`.
pub struct FetchRequest {
    pub id: String,
    pub url: String,
    pub token: u64,
}

/// Writes the address of the image of business `id`.
pub fn image_url_for(id: &String) -> (r: String)
    ensures
        r@ == image_url(id@),
{
    let head = String::from_str("https://picsum.photos/seed/");
    head.concat(id.as_str()).concat("/320/240")
}

/// The first position in `tokens` that holds `token`.
pub fn first_with_token(tokens: &Vec<u64>, token: u64) -> (r: Option<usize>)
    ensures
        match r {
            Some(i) => i < tokens@.len() && tokens@[i as int] == token && forall|j: int|
                0 <= j < i ==> tokens@[j] != token,
            None => forall|j: int| 0 <= j < tokens@.len() ==> tokens@[j] != token,
        },
{
    let mut i: usize = 0;
    while i < tokens.len()
        invariant
            i <= tokens@.len(),
            forall|j: int| 0 <= j < i ==> tokens@[j] != token,
        decreases tokens@.len() - i,
    {
        if tokens[i] == token {
            return Some(i);
        }
        i = i + 1;
    }
    None
}

/// The first business whose request id is `token`.
pub fn business_for_token(businesses: &Vec<Business>, token: u64) -> (r: Option<usize>)
    ensures
        match r {
            Some(i) => i < businesses@.len() && live_id_of(businesses@[i as int].id@) == token
                && forall|j: int| 0 <= j < i ==> live_id_of(businesses@[j].id@) != token,
            None => forall|j: int|
                0 <= j < businesses@.len() ==> live_id_of(businesses@[j].id@) != token,
        },
{
    let mut tokens: Vec<u64> = Vec::new();
    let mut i: usize = 0;
    while i < businesses.len()
        invariant
            i <= businesses@.len(),
            tokens@.len() == i,
            forall|j: int| 0 <= j < i ==> tokens@[j] == live_id_of(businesses@[j].id@),
        decreases businesses@.len() - i,
    {
        tokens.push(live_id(&businesses[i].id));
        i = i + 1;
    }
    let r = first_with_token(&tokens, token);
    if let Some(k) = r {
        assert(tokens@[k as int] == live_id_of(businesses@[k as int].id@));
        assert forall|j: int| 0 <= j < k implies live_id_of(businesses@[j].id@) != token by {
            assert(tokens@[j] == live_id_of(businesses@[j].id@));
        }
    } else {
        assert forall|j: int| 0 <= j < businesses@.len() implies live_id_of(businesses@[j].id@)
            != token by {
            assert(tokens@[j] == live_id_of(businesses@[j].id@));
        }
    }
    r
}

/// Whether no two businesses share an id.
pub fn ids_distinct(businesses: &Vec<Business>) -> (r: bool)
    ensures
        r == business_ids(businesses@).no_duplicates(),
{
    let ghost ids = business_ids(businesses@);
    let mut i: usize = 0;
    while i < businesses.len()
        invariant
            i <= businesses@.len(),
            ids == business_ids(businesses@),
            forall|a: int, b: int| 0 <= a < b < businesses@.len() && a < i ==> ids[a] != ids[b],
        decreases businesses@.len() - i,
    {
        let mut j: usize = i + 1;
        while j < businesses.len()
            invariant
                i < j <= businesses@.len(),
                ids == business_ids(businesses@),
                forall|a: int, b: int| 0 <= a < b < businesses@.len() && a < i ==> ids[a] != ids[b],
                forall|b: int| i < b < j ==> ids[i as int] != ids[b],
            decreases businesses@.len() - j,
        {
            assert(ids[i as int] == businesses@[i as int].id@);
            assert(ids[j as int] == businesses@[j as int].id@);
            if businesses[i].id.eq(&businesses[j].id) {
                assert(ids[i as int] == businesses@[i as int].id@);
                assert(ids[j as int] == businesses@[j as int].id@);
                return false;
            }
            j = j + 1;
        }
        i = i + 1;
    }
    true
}

/// Keeps the ids of the current refresh cycle whose fetch has not completed.
pub struct FetchDispatcher {
    pending: Vec<String>,
}

impl View for FetchDispatcher {
    type V = Set<Seq<char>>;

    closed spec fn view(&self) -> Set<Seq<char>> {
        self.pending.deep_view().to_set()
    }
}

/// What the cache holds after a fetch of `id` completed with `body`
/// (`None` for a failed fetch).
pub open spec fn cache_after(
    cache: Map<Seq<char>, Seq<u8>>,
    id: Seq<char>,
    body: Option<Seq<u8>>,
) -> Map<Seq<char>, Seq<u8>> {
    match body {
        Some(b) => cache.insert(id, b),
        None => cache,
    }
}

/// Whether the completion of `id` ends the refresh cycle: it was the last
/// fetch still pending.
pub open spec fn ends_cycle(pending: Set<Seq<char>>, id: Seq<char>) -> bool {
    pending.contains(id) && pending.remove(id) == Set::<Seq<char>>::empty()
}

proof fn lemma_remove_distinct(s: Seq<Seq<char>>, i: int)
    requires
        s.no_duplicates(),
        0 <= i < s.len(),
    ensures
        s.remove(i).no_duplicates(),
        s.remove(i).to_set() == s.to_set().remove(s[i]),
{
    let r = s.remove(i);
    assert forall|a: int, b: int| 0 <= a < b < r.len() implies r[a] != r[b] by {
        let a2 = if a < i { a } else { a + 1 };
        let b2 = if b < i { b } else { b + 1 };
        assert(r[a] == s[a2] && r[b] == s[b2]);
    }
    assert forall|x: Seq<char>| r.to_set().contains(x) <==> s.to_set().remove(s[i]).contains(x) by {
        if r.contains(x) {
            let k = choose|k: int| 0 <= k < r.len() && r[k] == x;
            let k2 = if k < i { k } else { k + 1 };
            assert(s[k2] == x);
            assert(k2 != i);
        }
        if s.contains(x) && x != s[i] {
            let k = choose|k: int| 0 <= k < s.len() && s[k] == x;
            assert(k != i);
            let k2 = if k < i { k } else { k - 1 };
            assert(r[k2] == x);
        }
    }
    assert(r.to_set() =~= s.to_set().remove(s[i]));
}

impl FetchDispatcher {
    /// The pending ids are distinct.
    pub closed spec fn wf(&self) -> bool {
        self.pending.deep_view().no_duplicates()
    }

    /// A dispatcher with nothing pending.
    pub fn new() -> (r: FetchDispatcher)
        ensures
            r.wf(),
            r@ == Set::<Seq<char>>::empty(),
    {
        let r = FetchDispatcher { pending: Vec::new() };
        assert(r.pending.deep_view().to_set() =~= Set::<Seq<char>>::empty());
        r
    }

    /// Starts a refresh cycle: one request per business, each carrying the
    /// business id, and all of them pending. Fetches of earlier cycles are
    /// no longer waited for.
    pub fn dispatch(&mut self, businesses: &Vec<Business>) -> (r: Vec<FetchRequest>)
        requires
            business_ids(businesses@).no_duplicates(),
        ensures
            final(self).wf(),
            final(self)@ == business_ids(businesses@).to_set(),
            requests_match(r@, business_ids(businesses@)),
    {
        let mut pending: Vec<String> = Vec::new();
        let mut requests: Vec<FetchRequest> = Vec::new();
        let mut i: usize = 0;
        while i < businesses.len()
            invariant
                i <= businesses@.len(),
                pending.deep_view() == business_ids(businesses@).take(i as int),
                requests@.len() == i,
                forall|k: int|
                    0 <= k < i ==> {
                        &&& #[trigger] requests@[k].id@ == businesses@[k].id@
                        &&& requests@[k].url@ == image_url(businesses@[k].id@)
                        &&& requests@[k].token == live_id_of(businesses@[k].id@)
                    },
            decreases businesses@.len() - i,
        {
            let id = &businesses[i].id;
            assert(business_ids(businesses@)[i as int] == businesses@[i as int].id@);
            let ghost prev = pending.deep_view();
            let owned = id.clone();
            assert(owned@ == businesses@[i as int].id@);
            pending.push(owned);
            assert(pending.deep_view() =~= prev.push(businesses@[i as int].id@));
            requests.push(FetchRequest { id: id.clone(), url: image_url_for(id), token: live_id(id) });
            assert(pending.deep_view() =~= business_ids(businesses@).take(i as int + 1));
            i = i + 1;
        }
        assert(business_ids(businesses@).take(i as int) =~= business_ids(businesses@));
        assert forall|k: int| 0 <= k < requests@.len() implies #[trigger] requests@[k].id@
            == business_ids(businesses@)[k] by {
            assert(business_ids(businesses@)[k] == businesses@[k].id@);
        }
        self.pending = pending;
        requests
    }

    /// Records the completion of the fetch of `id`: a successful one
    /// (`body` holds the bytes) stores its image, a failed one stores
    /// nothing. Either way `id` is no longer pending. Returns whether this
    /// completion ended the refresh cycle.
    pub fn complete(&mut self, cache: &mut ImageCache, id: &String, body: Option<Vec<u8>>) -> (r:
        bool)
        requires
            old(self).wf(),
            old(cache).wf(),
        ensures
            final(self).wf(),
            final(cache).wf(),
            final(self)@ == old(self)@.remove(id@),
            final(cache)@ == cache_after(
                old(cache)@,
                id@,
                match body {
                    Some(b) => Some(b@),
                    None => None,
                },
            ),
            r == ends_cycle(old(self)@, id@),
    {
        if let Some(bytes) = body {
            cache.store(id, bytes);
        }
        match self.position(id) {
            Some(i) => {
                let ghost before = self.pending.deep_view();
                proof {
                    lemma_remove_distinct(before, i as int);
                }
                self.pending.remove(i);
                assert(self.pending.deep_view() =~= before.remove(i as int));
                let done = self.pending.len() == 0;
                proof {
                    if !done {
                        assert(self@.contains(self.pending.deep_view()[0]));
                    } else {
                        assert(self@ =~= Set::<Seq<char>>::empty());
                    }
                }
                done
            },
            None => {
                assert(!self@.contains(id@));
                assert(self@.remove(id@) =~= self@);
                false
            },
        }
    }

    fn position(&self, id: &String) -> (r: Option<usize>)
        ensures
            match r {
                Some(i) => i < self.pending@.len() && self.pending.deep_view()[i as int] == id@,
                None => forall|j: int|
                    0 <= j < self.pending@.len() ==> self.pending.deep_view()[j] != id@,
            },
    {
        let mut i: usize = 0;
        while i < self.pending.len()
            invariant
                i <= self.pending@.len(),
                forall|j: int| 0 <= j < i ==> self.pending.deep_view()[j] != id@,
            decreases self.pending@.len() - i,
        {
            if self.pending[i].eq(id) {
                return Some(i);
            }
            i = i + 1;
        }
        None
    }

    /// The number of fetches of the current cycle still pending.
    pub fn pending_count(&self) -> (r: usize)
        requires
            self.wf(),
        ensures
            r == self@.len(),
    {
        proof {
            self.pending.deep_view().unique_seq_to_set();
        }
        self.pending.len()
    }

    /// Whether no fetch of the current cycle is pending.
    pub fn is_idle(&self) -> (r: bool)
        requires
            self.wf(),
        ensures
            r == (self@ == Set::<Seq<char>>::empty()),
    {
        proof {
            if self.pending@.len() > 0 {
                assert(self@.contains(self.pending.deep_view()[0]));
            } else {
                assert(self@ =~= Set::<Seq<char>>::empty());
            }
        }
        self.pending.len() == 0
    }
}

} // verus!
