use yelp_core::business::mock_businesses;
use yelp_core::image_cache::ImageCache;
use yelp_core::navigation::{App, AppAction, AppEffect, Layout};
use yelp_core::screens::{
    business_for_marker, BusinessCardAction, BusinessDetailScreen, DetailScreenAction, ListItem,
    MapScreen, MapScreenAction, SearchScreen, SearchScreenAction, Tab, TabStyle, YelpTabBar,
    YelpTabBarAction,
};

#[test]
fn tab_bar_reports_only_changes() {
    let mut bar = YelpTabBar::new();
    assert_eq!(bar.tab_styles(), (TabStyle::Active, TabStyle::Inactive));
    assert!(matches!(bar.tab_tapped(Tab::SearchTab), YelpTabBarAction::NoAction));
    assert!(matches!(bar.tab_tapped(Tab::MapTab), YelpTabBarAction::TabChanged(Tab::MapTab)));
    assert_eq!(bar.current_tab(), Tab::MapTab);
    assert_eq!(bar.tab_styles(), (TabStyle::Inactive, TabStyle::Active));
    bar.set_visible(false);
    assert!(!bar.is_visible());
    assert!(matches!(bar.tab_tapped(Tab::SearchTab), YelpTabBarAction::NoAction));
    assert_eq!(bar.current_tab(), Tab::MapTab);
    bar.set_active_tab(Tab::SearchTab);
    assert_eq!(bar.current_tab(), Tab::SearchTab);
    assert_eq!(Tab::default(), Tab::SearchTab);
}

#[test]
fn search_screen_loads_fixed_list_on_first_draw() {
    let mut s = SearchScreen::new();
    assert!(s.prepare_draw());
    assert_eq!(s.item_count(), 6);
    assert_eq!(s.list_item(0), ListItem::PullRefresh);
    assert_eq!(s.list_item(1), ListItem::Card(0));
    assert_eq!(s.list_item(5), ListItem::Card(4));
    assert_eq!(s.list_item(6), ListItem::Nothing);
    assert_eq!(s.business(4).name, "La Taqueria");
    assert!(s.list_visible());
    assert!(!s.empty_state_visible());
}

#[test]
fn search_screen_empty_state() {
    let mut s = SearchScreen::new();
    s.set_businesses(Vec::new());
    assert!(s.prepare_draw());
    assert_eq!(s.item_count(), 1);
    assert!(s.empty_state_visible());
    assert!(!s.list_visible());
    s.set_businesses(mock_businesses());
    assert!(!s.empty_state_visible());
    assert!(s.list_visible());
}

#[test]
fn pull_to_refresh_starts_one_refresh() {
    let mut s = SearchScreen::new();
    assert!(matches!(s.pull_refresh_tapped(), SearchScreenAction::Refresh));
    assert!(s.refresh_indicator_visible());
    assert_eq!(s.list_item(0), ListItem::HiddenPullRefresh);
    assert!(matches!(s.pull_refresh_tapped(), SearchScreenAction::NoAction));
    s.set_refreshing(false);
    s.set_visible(false);
    assert!(!s.prepare_draw());
    assert!(matches!(s.pull_refresh_tapped(), SearchScreenAction::NoAction));
}

#[test]
fn map_places_markers_once() {
    let mut m = MapScreen::new();
    assert!(!m.take_markers());
    m.set_visible(true);
    assert!(m.is_active());
    assert!(m.take_markers());
    assert!(!m.take_markers());
    m.set_visible(false);
    assert!(!m.is_active());
}

#[test]
fn marker_tap_finds_business() {
    let token = makepad_live_id::LiveId::from_str("3").0;
    assert_eq!(business_for_marker(token).map(|b| b.name), Some("Burma Superstar".to_string()));
    assert!(business_for_marker(12345).is_none());
}

#[test]
fn detail_screen_hero_image() {
    let list = mock_businesses();
    let mut cache = ImageCache::new();
    cache.store(&"2".to_string(), vec![7, 7]);
    let mut d = BusinessDetailScreen::new();
    d.set_business(&list[1]);
    assert!(d.image_to_decode(&cache).is_none());
    d.set_visible(true);
    assert!(d.is_visible() && d.is_active());
    assert_eq!(d.image_to_decode(&cache), Some(&vec![7, 7]));
    assert!(d.spinner_visible());
    d.image_decoded(&"1".to_string());
    assert!(d.spinner_visible());
    d.image_decoded(&"2".to_string());
    assert!(!d.spinner_visible());
    assert!(d.image_to_decode(&cache).is_none());
    d.set_business(&list[1]);
    assert!(d.spinner_visible());
    assert_eq!(d.business().map(|b| b.id.clone()), Some("2".to_string()));
}

fn layout(search: bool, map: bool, detail: bool, bar: bool, tab: Tab) -> Layout {
    Layout {
        search_visible: search,
        map_visible: map,
        detail_visible: detail,
        tab_bar_visible: bar,
        active_tab: tab,
    }
}

#[test]
fn navigation_between_tabs_and_detail() {
    let mut app = App::new();
    assert_eq!(app.layout(), layout(true, false, false, true, Tab::SearchTab));
    let e = app.handle_action(AppAction::TabBar(YelpTabBarAction::TabChanged(Tab::SearchTab)));
    assert!(matches!(e, AppEffect::Nothing));
    let e = app.handle_action(AppAction::TabBar(YelpTabBarAction::TabChanged(Tab::MapTab)));
    assert!(matches!(e, AppEffect::Relayout));
    assert_eq!(app.layout(), layout(false, true, false, true, Tab::MapTab));
    let b = mock_businesses()[2].clone();
    match app.handle_action(AppAction::Card(BusinessCardAction::Clicked(b))) {
        AppEffect::ShowDetail(shown) => assert_eq!(shown.id, "3"),
        _ => panic!("expected the detail screen"),
    }
    assert_eq!(app.layout(), layout(false, false, true, false, Tab::MapTab));
    let e = app.handle_action(AppAction::Detail(DetailScreenAction::Back));
    assert!(matches!(e, AppEffect::Relayout));
    assert_eq!(app.layout(), layout(false, true, false, true, Tab::MapTab));
    let e = app.handle_action(AppAction::MapScreen(MapScreenAction::Back));
    assert!(matches!(e, AppEffect::Relayout));
    assert_eq!(app.layout(), layout(true, false, false, true, Tab::SearchTab));
}

#[test]
fn directions_open_the_map() {
    let mut app = App::new();
    app.show_detail();
    let e = app.handle_action(AppAction::Detail(DetailScreenAction::Directions));
    assert!(matches!(e, AppEffect::Relayout));
    assert_eq!(app.layout(), layout(false, true, false, true, Tab::MapTab));
    let e = app.handle_action(AppAction::Detail(DetailScreenAction::Call));
    assert!(matches!(e, AppEffect::Nothing));
    assert!(!app.switch_tab(Tab::MapTab));
    app.show_detail();
    assert!(app.switch_tab(Tab::MapTab));
    app.hide_detail();
    assert_eq!(app.layout(), layout(false, true, false, true, Tab::MapTab));
}

#[test]
fn refresh_action_dispatches_fetches() {
    let mut app = App::new();
    match app.handle_action(AppAction::Search(SearchScreenAction::Refresh)) {
        AppEffect::Fetch(reqs) => assert_eq!(reqs.len(), 5),
        _ => panic!("expected fetches"),
    }
    assert_eq!(app.images_pending(), 5);
    let e = app.handle_action(AppAction::Search(SearchScreenAction::NoAction));
    assert!(matches!(e, AppEffect::Nothing));
}
