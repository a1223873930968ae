//! The application's own state: the current tab, whether the detail screen
//! is open, the image cache and the fetches of the current refresh cycle.

use vstd::prelude::*;
use crate::business::{lemma_mock_ids_distinct, mock_business_views, mock_businesses, mock_ids, Business};
use crate::fetch::{
    business_for_token, business_ids, cache_after, ends_cycle, live_id_of, requests_match,
    FetchDispatcher, FetchRequest,
};
use crate::image_cache::ImageCache;
use crate::screens::{
    views_of, BusinessCardAction, DetailScreenAction, MapScreenAction, SearchScreenAction, Tab,
    YelpTabBarAction,
};

verus! {

/// Which parts of the interface show, and which tab the bar highlights.
#[derive(PartialEq, Eq, Structural, Clone, Copy, Debug)]
pub struct Layout {
    pub search_visible: bool,
    pub map_visible: bool,
    pub detail_visible: bool,
    pub tab_bar_visible: bool,
    pub active_tab: Tab,
}

/// The open detail screen hides everything else; otherwise the current
/// tab's screen shows, with the tab bar.
pub open spec fn layout_of(tab: Tab, showing_detail: bool) -> Layout {
    if showing_detail {
        Layout {
            search_visible: false,
            map_visible: false,
            detail_visible: true,
            tab_bar_visible: false,
            active_tab: tab,
        }
    } else {
        Layout {
            search_visible: tab == Tab::SearchTab,
            map_visible: tab == Tab::MapTab,
            detail_visible: false,
            tab_bar_visible: true,
            active_tab: tab,
        }
    }
}

/// An action that a widget emitted.
#[derive(Clone, Debug)]
pub enum AppAction {
    TabBar(YelpTabBarAction),
    Card(BusinessCardAction),
    Detail(DetailScreenAction),
    MapScreen(MapScreenAction),
    Search(SearchScreenAction),
}

/// What the interface has to do after an action.
pub enum AppEffect {
    /// Nothing changes.
    Nothing,
    /// The layout changed: apply `App::layout`.
    Relayout,
    /// Put this business on the detail screen, then apply `App::layout`.
    ShowDetail(Business),
    /// Send these requests: a refresh cycle started.
    Fetch(Vec<FetchRequest>),
}

/// What a network response led to.
#[derive(PartialEq, Eq, Structural, Clone, Copy, Debug)]
pub struct ResponseOutcome {
    /// The response belongs to a business of the list.
    pub matched: bool,
    /// An image was stored: the cards are to be drawn again.
    pub redraw: bool,
    /// The refresh cycle ended: the refresh indicator is to be hidden.
    pub refresh_done: bool,
}

pub struct AppView {
    pub current_tab: Tab,
    pub showing_detail: bool,
    pub cache: Map<Seq<char>, Seq<u8>>,
    pub pending: Set<Seq<char>>,
}

/// The application state behind the screens.
pub struct App {
    current_tab: Tab,
    showing_detail: bool,
    images: ImageCache,
    fetches: FetchDispatcher,
}

impl View for App {
    type V = AppView;

    closed spec fn view(&self) -> AppView {
        AppView {
            current_tab: self.current_tab,
            showing_detail: self.showing_detail,
            cache: self.images@,
            pending: self.fetches@,
        }
    }
}

/// `i` is the first business of the fixed list whose request id is `token`.
pub open spec fn first_for_token(i: int, token: u64) -> bool {
    &&& 0 <= i < mock_business_views().len()
    &&& live_id_of(mock_business_views()[i].id) == token
    &&& forall|j: int| 0 <= j < i ==> live_id_of(mock_business_views()[j].id) != token
}

pub open spec fn body_view(body: Option<Vec<u8>>) -> Option<Seq<u8>> {
    match body {
        Some(b) => Some(b@),
        None => None,
    }
}

impl App {
    pub closed spec fn wf(&self) -> bool {
        self.images.wf() && self.fetches.wf()
    }

    /// On the search tab, no detail open, nothing cached or pending.
    pub fn new() -> (r: App)
        ensures
            r.wf(),
            r@ == (AppView {
                current_tab: Tab::SearchTab,
                showing_detail: false,
                cache: Map::empty(),
                pending: Set::empty(),
            }),
    {
        App {
            current_tab: Tab::SearchTab,
            showing_detail: false,
            images: ImageCache::new(),
            fetches: FetchDispatcher::new(),
        }
    }

    /// What shows now.
    pub fn layout(&self) -> (r: Layout)
        ensures
            r == layout_of(self@.current_tab, self@.showing_detail),
    {
        if self.showing_detail {
            Layout {
                search_visible: false,
                map_visible: false,
                detail_visible: true,
                tab_bar_visible: false,
                active_tab: self.current_tab,
            }
        } else {
            Layout {
                search_visible: self.current_tab == Tab::SearchTab,
                map_visible: self.current_tab == Tab::MapTab,
                detail_visible: false,
                tab_bar_visible: true,
                active_tab: self.current_tab,
            }
        }
    }

    /// The image cache, for the draws of cards and of the detail screen.
    pub fn images(&self) -> (r: &ImageCache)
        requires
            self.wf(),
        ensures
            r.wf(),
            r@ == self@.cache,
    {
        &self.images
    }

    /// The number of fetches of the current cycle still pending.
    pub fn images_pending(&self) -> (r: usize)
        requires
            self.wf(),
        ensures
            r == self@.pending.len(),
    {
        self.fetches.pending_count()
    }

    /// Goes to `tab`, closing the detail screen. Returns whether the layout
    /// changed.
    pub fn switch_tab(&mut self, tab: Tab) -> (r: bool)
        ensures
            final(self).wf() == old(self).wf(),
            final(self)@ == (AppView { current_tab: tab, showing_detail: false, ..old(self)@ }),
            r == (old(self)@.showing_detail || old(self)@.current_tab != tab),
    {
        let changed = self.showing_detail || self.current_tab != tab;
        self.showing_detail = false;
        self.current_tab = tab;
        changed
    }

    /// Opens the detail screen over everything else.
    pub fn show_detail(&mut self)
        ensures
            final(self).wf() == old(self).wf(),
            final(self)@ == (AppView { showing_detail: true, ..old(self)@ }),
    {
        self.showing_detail = true;
    }

    /// Closes the detail screen, back to the current tab.
    pub fn hide_detail(&mut self)
        ensures
            final(self).wf() == old(self).wf(),
            final(self)@ == (AppView { showing_detail: false, ..old(self)@ }),
    {
        self.showing_detail = false;
    }

    /// Starts a refresh cycle over the fixed list: one request per business.
    /// Images already cached stay until new ones overwrite them.
    pub fn request_images(&mut self) -> (r: Vec<FetchRequest>)
        requires
            old(self).wf(),
        ensures
            final(self).wf(),
            final(self)@ == (AppView {
                pending: mock_ids().to_set(),
                ..old(self)@
            }),
            requests_match(r@, mock_ids()),
    {
        let businesses = mock_businesses();
        proof {
            lemma_mock_ids_distinct();
            assert(views_of(businesses@) == mock_business_views());
            assert forall|i: int, j: int|
                0 <= i < j < business_ids(businesses@).len() implies business_ids(businesses@)[i]
                != business_ids(businesses@)[j] by {
                assert(views_of(businesses@)[i] == businesses@[i]@);
                assert(views_of(businesses@)[j] == businesses@[j]@);
            }
            assert forall|i: int| 0 <= i < mock_ids().len() implies business_ids(businesses@)[i]
                == mock_ids()[i] by {
                assert(views_of(businesses@)[i] == businesses@[i]@);
            }
            assert(business_ids(businesses@) =~= mock_ids());
        }
        self.fetches.dispatch(&businesses)
    }

    /// A network response for the request with id `token`: `body` holds the
    /// bytes of a successful fetch, `None` stands for a failed one. A
    /// response for no business of the list is ignored.
    pub fn network_response(&mut self, token: u64, body: Option<Vec<u8>>) -> (r: ResponseOutcome)
        requires
            old(self).wf(),
        ensures
            final(self).wf(),
            r.matched == exists|i: int| first_for_token(i, token),
            r.matched ==> exists|i: int|
                #![trigger mock_business_views()[i]]
                first_for_token(i, token) && final(self)@ == (AppView {
                    pending: old(self)@.pending.remove(mock_business_views()[i].id),
                    cache: cache_after(old(self)@.cache, mock_business_views()[i].id, body_view(body)),
                    ..old(self)@
                }) && r.redraw == body is Some && r.refresh_done == ends_cycle(
                    old(self)@.pending,
                    mock_business_views()[i].id,
                ),
            !r.matched ==> final(self)@ == old(self)@ && !r.redraw && !r.refresh_done,
    {
        let businesses = mock_businesses();
        proof {
            assert(views_of(businesses@) == mock_business_views());
        }
        match business_for_token(&businesses, token) {
            Some(i) => {
                proof {
                    assert(views_of(businesses@)[i as int] == businesses@[i as int]@);
                    assert forall|j: int| 0 <= j < i implies live_id_of(mock_business_views()[j].id)
                        != token by {
                        assert(views_of(businesses@)[j] == businesses@[j]@);
                    }
                    assert(first_for_token(i as int, token));
                }
                let redraw = body.is_some();
                let done = self.fetches.complete(&mut self.images, &businesses[i].id, body);
                ResponseOutcome { matched: true, redraw, refresh_done: done }
            },
            None => {
                proof {
                    assert forall|k: int| !first_for_token(k, token) by {
                        if 0 <= k < mock_business_views().len() {
                            assert(views_of(businesses@)[k] == businesses@[k]@);
                        }
                    }
                }
                ResponseOutcome { matched: false, redraw: false, refresh_done: false }
            },
        }
    }

    /// Carries out an action that a widget emitted.
    pub fn handle_action(&mut self, action: AppAction) -> (r: AppEffect)
        requires
            old(self).wf(),
        ensures
            final(self).wf(),
            match action {
                AppAction::TabBar(YelpTabBarAction::TabChanged(tab)) => {
                    &&& final(self)@ == (AppView {
                        current_tab: tab,
                        showing_detail: false,
                        ..old(self)@
                    })
                    &&& r is Relayout <==> (old(self)@.showing_detail || old(self)@.current_tab
                        != tab)
                    &&& r is Nothing <==> !(old(self)@.showing_detail || old(self)@.current_tab
                        != tab)
                },
                AppAction::Card(BusinessCardAction::Clicked(b)) => {
                    &&& final(self)@ == (AppView { showing_detail: true, ..old(self)@ })
                    &&& r matches AppEffect::ShowDetail(shown) && shown@ == b@
                },
                AppAction::Detail(DetailScreenAction::Back) => {
                    &&& final(self)@ == (AppView { showing_detail: false, ..old(self)@ })
                    &&& r is Relayout
                },
                AppAction::Detail(DetailScreenAction::Directions) => {
                    &&& final(self)@ == (AppView {
                        current_tab: Tab::MapTab,
                        showing_detail: false,
                        ..old(self)@
                    })
                    &&& r is Relayout
                },
                AppAction::MapScreen(MapScreenAction::Back) => {
                    &&& final(self)@ == (AppView {
                        current_tab: Tab::SearchTab,
                        showing_detail: false,
                        ..old(self)@
                    })
                    &&& r is Relayout <==> (old(self)@.showing_detail || old(self)@.current_tab
                        != Tab::SearchTab)
                    &&& r is Nothing <==> !(old(self)@.showing_detail || old(self)@.current_tab
                        != Tab::SearchTab)
                },
                AppAction::Search(SearchScreenAction::Refresh) => {
                    &&& final(self)@ == (AppView {
                        pending: mock_ids().to_set(),
                        ..old(self)@
                    })
                    &&& r matches AppEffect::Fetch(reqs) && requests_match(
                        reqs@,
                        mock_ids(),
                    )
                },
                _ => final(self)@ == old(self)@ && r is Nothing,
            },
    {
        match action {
            AppAction::TabBar(YelpTabBarAction::TabChanged(tab)) => {
                if self.switch_tab(tab) {
                    AppEffect::Relayout
                } else {
                    AppEffect::Nothing
                }
            },
            AppAction::Card(BusinessCardAction::Clicked(b)) => {
                self.show_detail();
                AppEffect::ShowDetail(b)
            },
            AppAction::Detail(DetailScreenAction::Back) => {
                self.hide_detail();
                AppEffect::Relayout
            },
            AppAction::Detail(DetailScreenAction::Directions) => {
                self.hide_detail();
                self.switch_tab(Tab::MapTab);
                AppEffect::Relayout
            },
            AppAction::MapScreen(MapScreenAction::Back) => {
                if self.switch_tab(Tab::SearchTab) {
                    AppEffect::Relayout
                } else {
                    AppEffect::Nothing
                }
            },
            AppAction::Search(SearchScreenAction::Refresh) => AppEffect::Fetch(self.request_images()),
            _ => AppEffect::Nothing,
        }
    }
}

} // verus!
