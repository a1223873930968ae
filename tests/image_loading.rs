use makepad_live_id::LiveId;
use yelp_core::business::mock_businesses;
use yelp_core::card::{BusinessCard, LoadState};
use yelp_core::fetch::{business_for_token, first_with_token, ids_distinct, image_url_for, FetchDispatcher};
use yelp_core::image_cache::ImageCache;
use yelp_core::navigation::App;

fn token(id: &str) -> u64 {
    LiveId::from_str(id).0
}

#[test]
fn cache_is_empty_before_any_fetch_completes() {
    let mut app = App::new();
    for b in mock_businesses() {
        assert!(app.images().get(&b.id).is_none());
    }
    let requests = app.request_images();
    assert_eq!(requests.len(), 5);
    for b in mock_businesses() {
        assert!(app.images().get(&b.id).is_none());
    }
    assert_eq!(app.images_pending(), 5);
}

#[test]
fn requests_carry_id_url_and_host_token() {
    let mut app = App::new();
    let requests = app.request_images();
    for (i, r) in requests.iter().enumerate() {
        let id = (i + 1).to_string();
        assert_eq!(r.id, id);
        assert_eq!(r.url, format!("https://picsum.photos/seed/{}/320/240", id));
        assert_eq!(r.token, token(&id));
        assert_ne!(r.token, 0);
    }
    assert_eq!(image_url_for(&"abc".to_string()), "https://picsum.photos/seed/abc/320/240");
}

#[test]
fn stored_image_stays_until_overwritten() {
    let mut app = App::new();
    app.request_images();
    let out = app.network_response(token("1"), Some(vec![1, 2, 3]));
    assert!(out.matched && out.redraw && !out.refresh_done);
    assert_eq!(app.images().get(&"1".to_string()), Some(&vec![1, 2, 3]));
    app.network_response(token("2"), Some(vec![9]));
    app.network_response(token("1"), None);
    app.request_images();
    assert_eq!(app.images().get(&"1".to_string()), Some(&vec![1, 2, 3]));
    assert_eq!(app.images().get(&"2".to_string()), Some(&vec![9]));
    app.network_response(token("1"), Some(vec![4]));
    assert_eq!(app.images().get(&"1".to_string()), Some(&vec![4]));
}

#[test]
fn four_successes_and_one_failure_end_the_cycle_once() {
    let mut app = App::new();
    let requests = app.request_images();
    let ids: Vec<String> = requests.iter().map(|r| r.id.clone()).collect();
    assert_eq!(ids, vec!["1", "2", "3", "4", "5"]);
    let mut signals = 0;
    for (k, r) in requests.iter().enumerate() {
        let body = if k == 2 { None } else { Some(vec![k as u8]) };
        let out = app.network_response(r.token, body);
        assert!(out.matched);
        assert_eq!(out.redraw, k != 2);
        if out.refresh_done {
            signals += 1;
            assert_eq!(k, 4);
        }
    }
    assert_eq!(signals, 1);
    assert_eq!(app.images_pending(), 0);
    assert!(app.images().get(&"3".to_string()).is_none());
    assert_eq!(app.images().get(&"5".to_string()), Some(&vec![4]));
    let late = app.network_response(token("1"), Some(vec![7]));
    assert!(late.matched && !late.refresh_done);
    assert_eq!(app.images_pending(), 0);
}

#[test]
fn repeated_completion_does_not_end_the_cycle_early() {
    let mut app = App::new();
    app.request_images();
    for _ in 0..5 {
        assert!(!app.network_response(token("1"), None).refresh_done);
    }
    assert_eq!(app.images_pending(), 4);
    assert!(!app.network_response(token("2"), None).refresh_done);
    assert!(!app.network_response(token("3"), None).refresh_done);
    assert!(!app.network_response(token("4"), None).refresh_done);
    assert!(app.network_response(token("5"), None).refresh_done);
}

#[test]
fn unknown_response_is_ignored() {
    let mut app = App::new();
    app.request_images();
    let out = app.network_response(token("42"), Some(vec![1]));
    assert!(!out.matched && !out.redraw && !out.refresh_done);
    assert_eq!(app.images_pending(), 5);
    assert!(app.images().get(&"42".to_string()).is_none());
}

#[test]
fn dispatcher_and_cache_directly() {
    let mut cache = ImageCache::new();
    let mut d = FetchDispatcher::new();
    assert!(d.is_idle());
    let list = mock_businesses();
    assert!(ids_distinct(&list));
    let reqs = d.dispatch(&list[..2].to_vec());
    assert_eq!(reqs.len(), 2);
    assert_eq!(d.pending_count(), 2);
    assert!(!d.complete(&mut cache, &"2".to_string(), Some(vec![5])));
    assert!(!d.complete(&mut cache, &"7".to_string(), Some(vec![6])));
    assert!(cache.contains(&"7".to_string()));
    assert!(d.complete(&mut cache, &"1".to_string(), None));
    assert!(d.is_idle());
    assert!(!cache.contains(&"1".to_string()));
    cache.store(&"2".to_string(), vec![8, 8]);
    assert_eq!(cache.get(&"2".to_string()), Some(&vec![8, 8]));
}

#[test]
fn distinct_ids_check() {
    let mut list = mock_businesses();
    assert!(ids_distinct(&list));
    list[3].id = "1".to_string();
    assert!(!ids_distinct(&list));
    assert!(ids_distinct(&Vec::new()));
}

#[test]
fn token_lookup_finds_first_match() {
    assert_eq!(first_with_token(&vec![3, 5, 5], 5), Some(1));
    assert_eq!(first_with_token(&vec![3, 5, 5], 4), None);
    assert_eq!(first_with_token(&Vec::new(), 4), None);
    let list = mock_businesses();
    assert_eq!(business_for_token(&list, token("4")), Some(3));
    assert_eq!(business_for_token(&list, token("x")), None);
}

#[test]
fn card_rebinding_never_shows_previous_image() {
    let list = mock_businesses();
    let mut cache = ImageCache::new();
    cache.store(&"1".to_string(), vec![0xff, 0xd8]);
    let mut card = BusinessCard::new();
    assert_eq!(card.load_state(), LoadState::Unbound);
    assert!(card.image_to_decode(&cache).is_none());
    card.set_business(&list[0]);
    assert_eq!(card.load_state(), LoadState::Loading);
    assert_eq!(card.image_to_decode(&cache), Some(&vec![0xff, 0xd8]));
    card.image_decoded(&"1".to_string());
    assert_eq!(card.load_state(), LoadState::Loaded);
    assert!(card.image_to_decode(&cache).is_none());
    card.set_business(&list[1]);
    assert_eq!(card.load_state(), LoadState::Loading);
    assert!(card.image_to_decode(&cache).is_none());
    card.image_decoded(&"1".to_string());
    assert_eq!(card.load_state(), LoadState::Loading);
    cache.store(&"2".to_string(), vec![1]);
    assert_eq!(card.image_to_decode(&cache), Some(&vec![1]));
    card.image_decoded(&"2".to_string());
    assert_eq!(card.load_state(), LoadState::Loaded);
}

#[test]
fn card_keeps_image_when_rebound_to_same_id() {
    let list = mock_businesses();
    let mut card = BusinessCard::new();
    card.set_business(&list[0]);
    card.image_decoded(&"1".to_string());
    card.set_business(&list[0].clone());
    assert_eq!(card.load_state(), LoadState::Loaded);
    assert_eq!(card.business().map(|b| b.id.clone()), Some("1".to_string()));
    assert_eq!(card.clicked().map(|b| b.name), Some("Flour + Water".to_string()));
}

#[test]
fn failed_decode_keeps_card_loading() {
    let list = mock_businesses();
    let mut cache = ImageCache::new();
    cache.store(&"1".to_string(), vec![0]);
    let mut card = BusinessCard::new();
    card.set_business(&list[0]);
    assert!(card.image_to_decode(&cache).is_some());
    assert_eq!(card.load_state(), LoadState::Loading);
    assert!(card.image_to_decode(&cache).is_some());
}
