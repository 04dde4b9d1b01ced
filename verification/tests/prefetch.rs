use youtube_tui::item::{ChannelPlaylists, ChannelVideos, PlaylistEntry, VideoEntry};
use youtube_tui::prefetch::{
    channel_prefetch, claim_playlists_prefetch, claim_videos_prefetch, finish_playlists_prefetch,
    finish_videos_prefetch, take_playlists_prefetch, take_videos_prefetch,
};

fn page(ids: &[&str], continuation: Option<&str>) -> ChannelVideos {
    ChannelVideos {
        videos: ids
            .iter()
            .map(|id| VideoEntry { id: id.to_string(), title: format!("title {}", id) })
            .collect(),
        continuation: continuation.map(|c| c.to_string()),
    }
}

#[test]
fn store_starts_empty() {
    let store = channel_prefetch();
    assert!(store.videos.in_flight.is_none());
    assert!(store.videos.ready.is_none());
    assert!(store.playlists.in_flight.is_none());
    assert!(store.playlists.ready.is_none());
}

#[test]
fn claim_starts_one_fetch_per_page() {
    let mut store = channel_prefetch();
    let id = String::from("UC1");
    assert!(claim_videos_prefetch(&mut store, &id));
    assert_eq!(store.videos.in_flight.as_deref(), Some("UC1"));
    assert!(!claim_videos_prefetch(&mut store, &String::from("UC1")));
    // another channel page may start its own fetch
    assert!(claim_videos_prefetch(&mut store, &String::from("UC2")));
    assert_eq!(store.videos.in_flight.as_deref(), Some("UC2"));
    // playlists are independent of videos
    assert!(claim_playlists_prefetch(&mut store, &id));
}

#[test]
fn take_returns_what_was_fetched() {
    let mut store = channel_prefetch();
    let id = String::from("UC1");
    assert!(claim_videos_prefetch(&mut store, &id));
    finish_videos_prefetch(&mut store, id.clone(), Ok(page(&["a", "b"], Some("next"))));
    assert!(store.videos.in_flight.is_none());
    let got = take_videos_prefetch(&mut store, &id).expect("page waits");
    let got = got.expect("fetch succeeded");
    assert_eq!(got.videos.len(), 2);
    assert_eq!(got.videos[1].id, "b");
    assert_eq!(got.continuation.as_deref(), Some("next"));
    assert!(store.videos.ready.is_none());
    // handed out once
    assert!(take_videos_prefetch(&mut store, &id).is_none());
}

#[test]
fn take_for_other_page_keeps_the_fetched_page() {
    let mut store = channel_prefetch();
    finish_videos_prefetch(&mut store, String::from("UC1"), Ok(page(&["a"], None)));
    assert!(take_videos_prefetch(&mut store, &String::from("UC2")).is_none());
    assert_eq!(store.videos.ready.as_ref().map(|r| r.page_id.as_str()), Some("UC1"));
    assert!(take_videos_prefetch(&mut store, &String::from("UC1")).is_some());
}

#[test]
fn no_refetch_while_ready_then_refetch_after_take() {
    let mut store = channel_prefetch();
    let id = String::from("UC1");
    finish_videos_prefetch(&mut store, id.clone(), Ok(page(&["a"], None)));
    assert!(!claim_videos_prefetch(&mut store, &id));
    let _ = take_videos_prefetch(&mut store, &id);
    assert!(claim_videos_prefetch(&mut store, &id));
}

#[test]
fn failed_fetch_is_handed_out_as_error() {
    let mut store = channel_prefetch();
    let id = String::from("UC1");
    finish_playlists_prefetch(&mut store, id.clone(), Err(String::from("network down")));
    assert!(store.playlists.ready.is_some());
    match take_playlists_prefetch(&mut store, &id) {
        Some(Err(e)) => assert_eq!(e, "network down"),
        _ => panic!("expected the error"),
    }
}

#[test]
fn playlist_page_is_taken_for_its_channel_only() {
    let mut store = channel_prefetch();
    let page = ChannelPlaylists {
        playlists: vec![PlaylistEntry { id: String::from("PL1"), title: String::from("One") }],
        continuation: None,
    };
    assert!(claim_playlists_prefetch(&mut store, &String::from("UC1")));
    finish_playlists_prefetch(&mut store, String::from("UC1"), Ok(page));
    assert!(take_playlists_prefetch(&mut store, &String::from("UC2")).is_none());
    match take_playlists_prefetch(&mut store, &String::from("UC1")) {
        Some(Ok(p)) => assert_eq!(p.playlists[0].id, "PL1"),
        _ => panic!("expected the page"),
    }
    assert!(store.videos.ready.is_none());
}
