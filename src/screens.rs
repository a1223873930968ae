//! The state that the screens and the tab bar keep between events and draws,
//! and the decisions they take on taps and draws.

use vstd::prelude::*;
use crate::business::{mock_business_views, mock_businesses, Business, BusinessView};
use crate::fetch::{business_for_token, live_id_of};
use crate::image_cache::ImageCache;

verus! {

/// The two tabs of the tab bar.
#[derive(PartialEq, Eq, Structural, Clone, Copy, Debug)]
pub enum Tab {
    SearchTab,
    MapTab,
}

impl Default for Tab {
    fn default() -> (r: Tab)
        ensures
            r == Tab::SearchTab,
    {
        Tab::SearchTab
    }
}

/// How a tab of the tab bar is highlighted.
#[derive(PartialEq, Eq, Structural, Clone, Copy, Debug)]
pub enum TabStyle {
    Active,
    Inactive,
}

/// Actions that the tab bar emits.
#[derive(Clone, Copy, Debug)]
pub enum YelpTabBarAction {
    NoAction,
    TabChanged(Tab),
}

/// Actions that a business card emits.
#[derive(Clone, Debug)]
pub enum BusinessCardAction {
    NoAction,
    Clicked(Business),
}

/// Actions that the search screen emits.
#[derive(Clone, Copy, Debug)]
pub enum SearchScreenAction {
    NoAction,
    Refresh,
}

/// Actions that the map screen emits.
#[derive(Clone, Copy, Debug)]
pub enum MapScreenAction {
    NoAction,
    Back,
}

/// Actions that the detail screen emits.
#[derive(Clone, Copy, Debug)]
pub enum DetailScreenAction {
    NoAction,
    Back,
    Call,
    Directions,
}

pub struct TabBarView {
    pub visible: bool,
    pub current_tab: Tab,
}

/// The tab bar: whether it shows, and which tab is current.
pub struct YelpTabBar {
    visible: bool,
    current_tab: Tab,
}

impl View for YelpTabBar {
    type V = TabBarView;

    closed spec fn view(&self) -> TabBarView {
        TabBarView { visible: self.visible, current_tab: self.current_tab }
    }
}

/// The styles of the search tab and of the map tab when `current` is current.
pub open spec fn tab_styles_of(current: Tab) -> (TabStyle, TabStyle) {
    match current {
        Tab::SearchTab => (TabStyle::Active, TabStyle::Inactive),
        Tab::MapTab => (TabStyle::Inactive, TabStyle::Active),
    }
}

impl YelpTabBar {
    /// A visible tab bar on the search tab.
    pub fn new() -> (r: YelpTabBar)
        ensures
            r@ == (TabBarView { visible: true, current_tab: Tab::SearchTab }),
    {
        YelpTabBar { visible: true, current_tab: Tab::SearchTab }
    }

    /// A tap on the tab `tab`. A hidden bar ignores it; otherwise a tap on
    /// another tab than the current one makes it current and is reported.
    pub fn tab_tapped(&mut self, tab: Tab) -> (r: YelpTabBarAction)
        ensures
            old(self)@.visible && old(self)@.current_tab != tab ==> {
                &&& final(self)@ == (TabBarView { visible: true, current_tab: tab })
                &&& r == YelpTabBarAction::TabChanged(tab)
            },
            !(old(self)@.visible && old(self)@.current_tab != tab) ==> {
                &&& final(self)@ == old(self)@
                &&& r == YelpTabBarAction::NoAction
            },
    {
        if self.visible && self.current_tab != tab {
            self.current_tab = tab;
            YelpTabBarAction::TabChanged(tab)
        } else {
            YelpTabBarAction::NoAction
        }
    }

    pub fn set_visible(&mut self, visible: bool)
        ensures
            final(self)@ == (TabBarView { visible, current_tab: old(self)@.current_tab }),
    {
        self.visible = visible;
    }

    pub fn set_active_tab(&mut self, tab: Tab)
        ensures
            final(self)@ == (TabBarView { visible: old(self)@.visible, current_tab: tab }),
    {
        self.current_tab = tab;
    }

    /// Whether the bar is drawn and takes taps.
    pub fn is_visible(&self) -> (r: bool)
        ensures
            r == self@.visible,
    {
        self.visible
    }

    pub fn current_tab(&self) -> (r: Tab)
        ensures
            r == self@.current_tab,
    {
        self.current_tab
    }

    /// The styles of the search tab and of the map tab.
    pub fn tab_styles(&self) -> (r: (TabStyle, TabStyle))
        ensures
            r == tab_styles_of(self@.current_tab),
    {
        match self.current_tab {
            Tab::SearchTab => (TabStyle::Active, TabStyle::Inactive),
            Tab::MapTab => (TabStyle::Inactive, TabStyle::Active),
        }
    }
}

/// What stands at a position of the search list.
#[derive(PartialEq, Eq, Structural, Clone, Copy, Debug)]
pub enum ListItem {
    /// The pull-to-refresh row at the top.
    PullRefresh,
    /// The pull-to-refresh row while a refresh runs: nothing is drawn.
    HiddenPullRefresh,
    /// The card of the business at this index.
    Card(usize),
    /// Past the end of the list.
    Nothing,
}

pub struct SearchView {
    pub visible: bool,
    pub is_active: bool,
    pub businesses: Seq<BusinessView>,
    pub is_refreshing: bool,
    pub show_empty_state: bool,
}

/// The search screen: the list of businesses and the refresh indicator.
pub struct SearchScreen {
    visible: bool,
    is_active: bool,
    businesses: Vec<Business>,
    is_refreshing: bool,
    show_empty_state: bool,
}

pub open spec fn views_of(bs: Seq<Business>) -> Seq<BusinessView> {
    bs.map_values(|b: Business| b@)
}

impl View for SearchScreen {
    type V = SearchView;

    closed spec fn view(&self) -> SearchView {
        SearchView {
            visible: self.visible,
            is_active: self.is_active,
            businesses: views_of(self.businesses@),
            is_refreshing: self.is_refreshing,
            show_empty_state: self.show_empty_state,
        }
    }
}

/// What stands at position `item_id` of the list.
pub open spec fn list_item_of(s: SearchView, item_id: int) -> ListItem {
    if item_id == 0 {
        if s.is_refreshing {
            ListItem::HiddenPullRefresh
        } else {
            ListItem::PullRefresh
        }
    } else if item_id <= s.businesses.len() {
        ListItem::Card((item_id - 1) as usize)
    } else {
        ListItem::Nothing
    }
}

impl SearchScreen {
    /// A visible, active screen with no businesses yet.
    pub fn new() -> (r: SearchScreen)
        ensures
            r@ == (SearchView {
                visible: true,
                is_active: true,
                businesses: Seq::empty(),
                is_refreshing: false,
                show_empty_state: false,
            }),
    {
        let r = SearchScreen {
            visible: true,
            is_active: true,
            businesses: Vec::new(),
            is_refreshing: false,
            show_empty_state: false,
        };
        assert(views_of(r.businesses@) =~= Seq::<BusinessView>::empty());
        r
    }

    /// Shows or hides the screen; a hidden screen takes no events.
    pub fn set_visible(&mut self, visible: bool)
        ensures
            final(self)@ == (SearchView { visible, is_active: visible, ..old(self)@ }),
    {
        self.visible = visible;
        self.is_active = visible;
    }

    /// Whether the screen takes events.
    pub fn is_active(&self) -> (r: bool)
        ensures
            r == self@.is_active,
    {
        self.is_active
    }

    pub fn set_refreshing(&mut self, refreshing: bool)
        ensures
            final(self)@ == (SearchView { is_refreshing: refreshing, ..old(self)@ }),
    {
        self.is_refreshing = refreshing;
    }

    /// Replaces the list; from now on an empty list shows the empty state.
    pub fn set_businesses(&mut self, businesses: Vec<Business>)
        ensures
            final(self)@ == (SearchView {
                businesses: views_of(businesses@),
                show_empty_state: true,
                ..old(self)@
            }),
    {
        self.businesses = businesses;
        self.show_empty_state = true;
    }

    /// A tap on the pull-to-refresh row: an active screen that is not
    /// refreshing starts a refresh and reports it.
    pub fn pull_refresh_tapped(&mut self) -> (r: SearchScreenAction)
        ensures
            old(self)@.is_active && !old(self)@.is_refreshing ==> {
                &&& final(self)@ == (SearchView { is_refreshing: true, ..old(self)@ })
                &&& r == SearchScreenAction::Refresh
            },
            !(old(self)@.is_active && !old(self)@.is_refreshing) ==> {
                &&& final(self)@ == old(self)@
                &&& r == SearchScreenAction::NoAction
            },
    {
        if self.is_active && !self.is_refreshing {
            self.is_refreshing = true;
            SearchScreenAction::Refresh
        } else {
            SearchScreenAction::NoAction
        }
    }

    /// Readies a draw: returns whether the screen is drawn at all. A visible
    /// screen that was never given a list and has none shows the fixed list.
    pub fn prepare_draw(&mut self) -> (r: bool)
        ensures
            r == old(self)@.visible,
            r && old(self)@.businesses.len() == 0 && !old(self)@.show_empty_state ==> final(self)@
                == (SearchView { businesses: mock_business_views(), ..old(self)@ }),
            !(r && old(self)@.businesses.len() == 0 && !old(self)@.show_empty_state)
                ==> final(self)@ == old(self)@,
    {
        if !self.visible {
            return false;
        }
        if self.businesses.len() == 0 && !self.show_empty_state {
            self.businesses = mock_businesses();
        }
        true
    }

    pub fn refresh_indicator_visible(&self) -> (r: bool)
        ensures
            r == self@.is_refreshing,
    {
        self.is_refreshing
    }

    /// The empty state shows where a list was given and it is empty.
    pub fn empty_state_visible(&self) -> (r: bool)
        ensures
            r == (self@.show_empty_state && self@.businesses.len() == 0),
    {
        self.show_empty_state && self.businesses.len() == 0
    }

    /// The list shows unless the empty state does.
    pub fn list_visible(&self) -> (r: bool)
        ensures
            r == (self@.businesses.len() > 0 || !self@.show_empty_state),
    {
        self.businesses.len() > 0 || !self.show_empty_state
    }

    /// The number of rows: the pull-to-refresh row and one per business.
    pub fn item_count(&self) -> (r: usize)
        requires
            self@.businesses.len() < usize::MAX,
        ensures
            r == self@.businesses.len() + 1,
    {
        self.businesses.len() + 1
    }

    /// What stands at row `item_id`.
    pub fn list_item(&self, item_id: usize) -> (r: ListItem)
        ensures
            r == list_item_of(self@, item_id as int),
    {
        if item_id == 0 {
            if self.is_refreshing {
                ListItem::HiddenPullRefresh
            } else {
                ListItem::PullRefresh
            }
        } else if item_id <= self.businesses.len() {
            ListItem::Card(item_id - 1)
        } else {
            ListItem::Nothing
        }
    }

    /// The business at `index` of the list.
    pub fn business(&self, index: usize) -> (r: &Business)
        requires
            index < self@.businesses.len(),
        ensures
            r@ == self@.businesses[index as int],
    {
        &self.businesses[index]
    }
}

pub struct MapView {
    pub visible: bool,
    pub is_active: bool,
    pub markers_added: bool,
}

/// The map screen: whether it shows, and whether its markers were placed.
pub struct MapScreen {
    visible: bool,
    is_active: bool,
    markers_added: bool,
}

impl View for MapScreen {
    type V = MapView;

    closed spec fn view(&self) -> MapView {
        MapView { visible: self.visible, is_active: self.is_active, markers_added: self.markers_added }
    }
}

impl MapScreen {
    /// A hidden map with no markers.
    pub fn new() -> (r: MapScreen)
        ensures
            r@ == (MapView { visible: false, is_active: false, markers_added: false }),
    {
        MapScreen { visible: false, is_active: false, markers_added: false }
    }

    /// Shows or hides the screen; a hidden screen takes no events.
    pub fn set_visible(&mut self, visible: bool)
        ensures
            final(self)@ == (MapView { visible, is_active: visible, ..old(self)@ }),
    {
        self.visible = visible;
        self.is_active = visible;
    }

    /// Whether the screen takes events.
    pub fn is_active(&self) -> (r: bool)
        ensures
            r == self@.is_active,
    {
        self.is_active
    }

    /// Whether the screen is drawn.
    pub fn is_visible(&self) -> (r: bool)
        ensures
            r == self@.visible,
    {
        self.visible
    }

    /// Readies a draw: returns whether the markers are to be placed now,
    /// which is on the first draw of the visible screen only.
    pub fn take_markers(&mut self) -> (r: bool)
        ensures
            r == (old(self)@.visible && !old(self)@.markers_added),
            final(self)@ == (MapView {
                markers_added: old(self)@.markers_added || old(self)@.visible,
                ..old(self)@
            }),
    {
        if self.visible && !self.markers_added {
            self.markers_added = true;
            true
        } else {
            false
        }
    }
}

/// The business of the fixed list whose marker has id `token`: the first
/// whose request id it is.
pub fn business_for_marker(token: u64) -> (r: Option<Business>)
    ensures
        match r {
            Some(b) => exists|i: int|
                0 <= i < mock_business_views().len() && b@ == mock_business_views()[i]
                    && live_id_of(mock_business_views()[i].id) == token && forall|j: int|
                    0 <= j < i ==> live_id_of(mock_business_views()[j].id) != token,
            None => forall|j: int|
                0 <= j < mock_business_views().len() ==> live_id_of(mock_business_views()[j].id)
                    != token,
        },
{
    let businesses = mock_businesses();
    assert(views_of(businesses@) == mock_business_views());
    match business_for_token(&businesses, token) {
        Some(i) => {
            let b = businesses[i].clone();
            assert(views_of(businesses@)[i as int] == businesses@[i as int]@);
            assert forall|j: int| 0 <= j < i implies live_id_of(mock_business_views()[j].id)
                != token by {
                assert(views_of(businesses@)[j] == businesses@[j]@);
            }
            Some(b)
        },
        None => {
            assert forall|j: int| 0 <= j < mock_business_views().len() implies live_id_of(
                mock_business_views()[j].id,
            ) != token by {
                assert(views_of(businesses@)[j] == businesses@[j]@);
            }
            None
        },
    }
}

pub struct DetailView {
    pub visible: bool,
    pub is_active: bool,
    pub business: Option<BusinessView>,
    pub image_loaded: bool,
}

/// The detail screen of one business and the state of its hero image.
pub struct BusinessDetailScreen {
    visible: bool,
    is_active: bool,
    business: Option<Business>,
    image_loaded: bool,
}

impl View for BusinessDetailScreen {
    type V = DetailView;

    closed spec fn view(&self) -> DetailView {
        DetailView {
            visible: self.visible,
            is_active: self.is_active,
            business: match self.business {
                Some(b) => Some(b@),
                None => None,
            },
            image_loaded: self.image_loaded,
        }
    }
}

impl BusinessDetailScreen {
    /// A hidden screen showing no business.
    pub fn new() -> (r: BusinessDetailScreen)
        ensures
            r@ == (DetailView { visible: false, is_active: false, business: None, image_loaded: false }),
    {
        BusinessDetailScreen { visible: false, is_active: false, business: None, image_loaded: false }
    }

    /// Shows `business`; its hero image is to be loaded anew.
    pub fn set_business(&mut self, business: &Business)
        ensures
            final(self)@ == (DetailView {
                business: Some(business@),
                image_loaded: false,
                ..old(self)@
            }),
    {
        self.business = Some(business.clone());
        self.image_loaded = false;
    }

    /// Shows or hides the screen; a hidden screen takes no events.
    pub fn set_visible(&mut self, visible: bool)
        ensures
            final(self)@ == (DetailView { visible, is_active: visible, ..old(self)@ }),
    {
        self.visible = visible;
        self.is_active = visible;
    }

    /// Whether the screen takes events.
    pub fn is_active(&self) -> (r: bool)
        ensures
            r == self@.is_active,
    {
        self.is_active
    }

    /// Whether the screen is drawn.
    pub fn is_visible(&self) -> (r: bool)
        ensures
            r == self@.visible,
    {
        self.visible
    }

    /// The business shown, if any.
    pub fn business(&self) -> (r: Option<&Business>)
        ensures
            match r {
                Some(b) => self@.business == Some(b@),
                None => self@.business is None,
            },
    {
        match &self.business {
            Some(b) => Some(b),
            None => None,
        }
    }

    /// The bytes that a draw is to decode into the hero image: the cached
    /// image of the business shown, while the visible screen has none.
    pub fn image_to_decode<'a>(&self, cache: &'a ImageCache) -> (r: Option<&'a Vec<u8>>)
        requires
            cache.wf(),
        ensures
            match r {
                Some(bytes) => self@.visible && !self@.image_loaded && self@.business is Some
                    && cache@.contains_key(self@.business->0.id) && bytes@ == cache@[self@.business->0.id],
                None => !self@.visible || self@.image_loaded || self@.business is None
                    || !cache@.contains_key(self@.business->0.id),
            },
    {
        if !self.visible || self.image_loaded {
            return None;
        }
        match &self.business {
            Some(b) => cache.get(&b.id),
            None => None,
        }
    }

    /// Records that the image of `id` was decoded into the hero image; a
    /// report for another business than the one shown changes nothing.
    pub fn image_decoded(&mut self, id: &String)
        ensures
            (old(self)@.business matches Some(b) && b.id == id@) ==> final(self)@ == (DetailView {
                image_loaded: true,
                ..old(self)@
            }),
            !(old(self)@.business matches Some(b) && b.id == id@) ==> final(self)@ == old(self)@,
    {
        let shown = match &self.business {
            Some(b) => b.id.eq(id),
            None => false,
        };
        if shown {
            self.image_loaded = true;
        }
    }

    /// Whether the spinner shows over the hero image.
    pub fn spinner_visible(&self) -> (r: bool)
        ensures
            r == !self@.image_loaded,
    {
        !self.image_loaded
    }
}

} // verus!
