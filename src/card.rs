//! The image state of a business card: which business is bound to it and
//! whose image its photo slot holds.

use vstd::prelude::*;
use crate::business::{Business, BusinessView};
use crate::image_cache::ImageCache;

verus! {

/// What a card shows in its photo slot.
#[derive(PartialEq, Eq, Structural, Clone, Copy, Debug)]
pub enum LoadState {
    /// No business is bound.
    Unbound,
    /// A business is bound and its image is not decoded yet: the spinner shows.
    Loading,
    /// The bound business's image is shown.
    Loaded,
}

/// The business bound to a card, and the id whose image its slot holds.
pub struct CardView {
    pub business: Option<BusinessView>,
    pub loaded: Option<Seq<char>>,
}

/// The id of the bound business, if any.
pub open spec fn bound_id(c: CardView) -> Option<Seq<char>> {
    match c.business {
        Some(b) => Some(b.id),
        None => None,
    }
}

/// The slot holds no image, or the image of the bound business.
pub open spec fn shows_only_bound(c: CardView) -> bool {
    c.loaded is None || c.loaded == bound_id(c)
}

/// The state that the card displays.
pub open spec fn card_state(c: CardView) -> LoadState {
    if c.business is None {
        LoadState::Unbound
    } else if c.loaded is Some && c.loaded == bound_id(c) {
        LoadState::Loaded
    } else {
        LoadState::Loading
    }
}

/// Whether a draw must decode the bound business's image.
pub open spec fn needs_image(c: CardView) -> bool {
    c.business is Some && c.loaded != bound_id(c)
}

/// The card after binding `b`: the slot is emptied unless `b` has the id
/// already bound.
pub open spec fn rebound(c: CardView, b: BusinessView) -> CardView {
    CardView {
        business: Some(b),
        loaded: if bound_id(c) == Some(b.id) { c.loaded } else { None },
    }
}

/// The card after the image of `id` was decoded into its slot: it counts
/// only where `id` is the bound business's.
pub open spec fn after_decode(c: CardView, id: Seq<char>) -> CardView {
    if bound_id(c) == Some(id) {
        CardView { business: c.business, loaded: Some(id) }
    } else {
        c
    }
}

/// The card after a run of decode reports, in order.
pub open spec fn after_decodes(c: CardView, ids: Seq<Seq<char>>) -> CardView
    decreases ids.len(),
{
    if ids.len() == 0 {
        c
    } else {
        after_decode(after_decodes(c, ids.drop_last()), ids.last())
    }
}

/// Something that happens to a card.
pub enum CardEvent {
    Bind(BusinessView),
    Decoded(Seq<char>),
}

/// The card after the events, in order.
pub open spec fn card_run(c: CardView, evs: Seq<CardEvent>) -> CardView
    decreases evs.len(),
{
    if evs.len() == 0 {
        c
    } else {
        let prev = card_run(c, evs.drop_last());
        match evs.last() {
            CardEvent::Bind(b) => rebound(prev, b),
            CardEvent::Decoded(id) => after_decode(prev, id),
        }
    }
}

/// A card bound to a business, tracking whose image its photo slot holds.
pub struct BusinessCard {
    business: Option<Business>,
    loaded_image_id: Option<String>,
}

impl View for BusinessCard {
    type V = CardView;

    closed spec fn view(&self) -> CardView {
        CardView {
            business: match self.business {
                Some(b) => Some(b@),
                None => None,
            },
            loaded: self.loaded_image_id.deep_view(),
        }
    }
}

impl BusinessCard {
    /// A card with no business bound.
    pub fn new() -> (r: BusinessCard)
        ensures
            r@.business is None,
            r@.loaded is None,
    {
        BusinessCard { business: None, loaded_image_id: None }
    }

    /// Binds `business` to the card. Binding another id than the one bound
    /// empties the photo slot, so that the card is loading again.
    pub fn set_business(&mut self, business: &Business)
        ensures
            final(self)@ == rebound(old(self)@, business@),
    {
        let same = match &self.business {
            Some(b) => b.id.eq(&business.id),
            None => false,
        };
        if !same {
            self.loaded_image_id = None;
        }
        self.business = Some(business.clone());
    }

    /// The bound business, if any.
    pub fn business(&self) -> (r: Option<&Business>)
        ensures
            match r {
                Some(b) => self@.business == Some(b@),
                None => self@.business is None,
            },
    {
        match &self.business {
            Some(b) => Some(b),
            None => None,
        }
    }

    /// The business that a tap on the card opens, if one is bound.
    pub fn clicked(&self) -> (r: Option<Business>)
        ensures
            match r {
                Some(b) => self@.business == Some(b@),
                None => self@.business is None,
            },
    {
        match &self.business {
            Some(b) => Some(b.clone()),
            None => None,
        }
    }

    /// The bytes that a draw is to decode: the cached image of the bound
    /// business, where the slot does not hold it yet.
    pub fn image_to_decode<'a>(&self, cache: &'a ImageCache) -> (r: Option<&'a Vec<u8>>)
        requires
            cache.wf(),
        ensures
            match r {
                Some(bytes) => needs_image(self@) && cache@.contains_key(bound_id(self@)->0)
                    && bytes@ == cache@[bound_id(self@)->0],
                None => !needs_image(self@) || !cache@.contains_key(bound_id(self@)->0),
            },
    {
        match &self.business {
            Some(b) => {
                let loaded = match &self.loaded_image_id {
                    Some(l) => l.eq(&b.id),
                    None => false,
                };
                if loaded {
                    None
                } else {
                    cache.get(&b.id)
                }
            },
            None => None,
        }
    }

    /// Records that the image of `id` was decoded into the photo slot. A
    /// report for another id than the bound one changes nothing.
    pub fn image_decoded(&mut self, id: &String)
        ensures
            final(self)@ == after_decode(old(self)@, id@),
    {
        let bound = match &self.business {
            Some(b) => b.id.eq(id),
            None => false,
        };
        if bound {
            self.loaded_image_id = Some(id.clone());
        }
    }

    /// What the card displays.
    pub fn load_state(&self) -> (r: LoadState)
        ensures
            r == card_state(self@),
    {
        match &self.business {
            None => LoadState::Unbound,
            Some(b) => match &self.loaded_image_id {
                Some(l) => if l.eq(&b.id) {
                    LoadState::Loaded
                } else {
                    LoadState::Loading
                },
                None => LoadState::Loading,
            },
        }
    }
}

/// Whatever a card goes through, its photo slot holds no image or the
/// image of the business bound to it.
pub proof fn lemma_card_shows_only_bound(c: CardView, evs: Seq<CardEvent>)
    requires
        shows_only_bound(c),
    ensures
        shows_only_bound(card_run(c, evs)),
    decreases evs.len(),
{
    if evs.len() > 0 {
        lemma_card_shows_only_bound(c, evs.drop_last());
    }
}

/// Rebinding a card from business `a` to another id: the card is loading
/// at once, and its slot never holds `a`'s image, whatever decode reports
/// come after.
pub proof fn lemma_rebind_hides_previous(
    c: CardView,
    a: Seq<char>,
    b: BusinessView,
    reports: Seq<Seq<char>>,
)
    requires
        shows_only_bound(c),
        bound_id(c) == Some(a),
        b.id != a,
    ensures
        card_state(rebound(c, b)) == LoadState::Loading,
        rebound(c, b).loaded is None,
        after_decodes(rebound(c, b), reports).loaded != Some(a),
        bound_id(after_decodes(rebound(c, b), reports)) == Some(b.id),
    decreases reports.len(),
{
    if reports.len() > 0 {
        lemma_rebind_hides_previous(c, a, b, reports.drop_last());
    }
}

} // verus!
