use youtube_tui::config::{KeyAction, MessageType, Provider, Settings};
use youtube_tui::display::{ChannelDisplay, Colour, PageData, RenderPlan};
use youtube_tui::effects::{Effects, PageKind, Task};
use youtube_tui::envs::{apply_envs, replace_all};
use youtube_tui::item::{ChannelPlaylists, ChannelVideos, Item, PlaylistEntry, VideoEntry};
use youtube_tui::layout::Area;
use youtube_tui::prefetch::{channel_prefetch, finish_videos_prefetch, ChannelPrefetch};

fn settings(provider: Provider) -> Settings {
    Settings {
        provider,
        invidious_instance: String::from("https://inv.example"),
        allow_unicode: true,
        display_images: false,
    }
}

fn videos(ids: &[&str], continuation: Option<&str>) -> ChannelVideos {
    ChannelVideos {
        videos: ids
            .iter()
            .map(|id| VideoEntry { id: id.to_string(), title: format!("Video {}", id) })
            .collect(),
        continuation: continuation.map(|c| c.to_string()),
    }
}

fn playlists(ids: &[&str]) -> ChannelPlaylists {
    ChannelPlaylists {
        playlists: ids
            .iter()
            .map(|id| PlaylistEntry { id: id.to_string(), title: format!("List {}", id) })
            .collect(),
        continuation: None,
    }
}

fn channel() -> Item {
    Item::FullChannel { id: String::from("UC1"), name: String::from("Some Channel") }
}

fn commands() -> Vec<(String, String)> {
    vec![
        (String::from("open in browser"), String::from("xdg-open ${url}")),
        (String::from("copy link"), String::from("wl-copy ${url}")),
        (String::from("subscribe"), String::from("sub ${id}")),
    ]
}

fn load(
    data: PageData,
    s: &Settings,
    store: &mut ChannelPrefetch,
) -> (ChannelDisplay, Effects) {
    let mut d = ChannelDisplay::new();
    let mut fx = Effects::new();
    d.load_item(&String::from("UC1"), data, s, store, &mut fx);
    (d, fx)
}

fn no_envs() -> Vec<(String, String)> {
    Vec::new()
}

fn screen() -> Area {
    Area { x: 0, y: 0, width: 100, height: 30 }
}

fn videos_page(d: &ChannelDisplay) -> &youtube_tui::listpage::ListPage {
    match d {
        ChannelDisplay::Videos(p) => p,
        _ => panic!("not a video page"),
    }
}

fn main_page(d: &ChannelDisplay) -> &youtube_tui::mainpage::MainPage {
    match d {
        ChannelDisplay::Main(p) => p,
        _ => panic!("not a main page"),
    }
}

fn shown_id(d: &ChannelDisplay) -> String {
    match d {
        ChannelDisplay::Videos(p) | ChannelDisplay::Playlists(p) => match &p.iteminfo.item {
            Some(item) => item.id_or_default(),
            None => String::new(),
        },
        _ => String::new(),
    }
}

#[test]
fn blank_page_is_not_selectable() {
    let d = ChannelDisplay::new();
    assert!(!d.selectable());
    assert!(!d.select());
    assert!(d.update_appearance(true, true).is_none());
    let mut store = channel_prefetch();
    let (d, _) = load(PageData::Videos(videos(&["a"], None)), &settings(Provider::YouTube), &mut store);
    assert!(d.selectable());
    assert!(d.select());
}

#[test]
fn new_textlist_with_map_shows_command_labels() {
    let list = ChannelDisplay::new_textlist_with_map(commands());
    assert_eq!(list.items, vec!["open in browser", "copy link", "subscribe"]);
    assert_eq!(list.selected, 0);
    assert_eq!(list.scroll, 0);
    assert!(list.height.is_none());
}

#[test]
fn loading_main_page_sets_channel_envs_invidious() {
    let mut store = channel_prefetch();
    let s = settings(Provider::Invidious);
    let (d, fx) = load(PageData::Main { channel: channel(), commands: commands() }, &s, &mut store);
    let p = main_page(&d);
    assert_eq!(p.commands.len(), 3);
    assert_eq!(p.textlist.items.len(), 3);
    assert_eq!(p.grid.columns, vec![60, 40]);
    assert_eq!(p.grid.rows, vec![100]);
    assert_eq!(
        fx.envs,
        vec![
            (String::from("url"), String::from("https://inv.example/channel/UC1")),
            (String::from("id"), String::from("UC1")),
            (String::from("name"), String::from("Some Channel")),
        ]
    );
    assert!(fx.prefetches.is_empty());
    assert!(store.videos.in_flight.is_none());
}

#[test]
fn loading_main_page_sets_channel_envs_youtube() {
    let mut store = channel_prefetch();
    let s = settings(Provider::YouTube);
    let (_, fx) = load(PageData::Main { channel: channel(), commands: commands() }, &s, &mut store);
    assert_eq!(fx.envs[0], (String::from("url"), String::from("'https://youtu.be/UC1'")));
}

#[test]
fn loading_videos_shows_first_page_and_asks_for_next() {
    let mut store = channel_prefetch();
    let mut s = settings(Provider::YouTube);
    s.display_images = true;
    s.allow_unicode = false;
    let (d, fx) = load(PageData::Videos(videos(&["v0", "v1", "v2"], Some("tok"))), &s, &mut store);
    let p = videos_page(&d);
    assert_eq!(p.entries.len(), 3);
    assert_eq!(p.textlist.items, vec!["Video v0", "Video v1", "Video v2"]);
    assert_eq!(p.textlist.selected, 0);
    assert!(p.textlist.ascii_only);
    assert_eq!(shown_id(&d), "v0");
    assert_eq!(p.continuation.as_deref(), Some("tok"));
    assert_eq!(fx.downloads.len(), 3);
    assert_eq!(fx.prefetches.len(), 1);
    assert!(matches!(fx.prefetches[0].kind, PageKind::Videos));
    assert_eq!(fx.prefetches[0].page_id, "UC1");
    assert_eq!(fx.prefetches[0].ctoken, "tok");
    assert_eq!(store.videos.in_flight.as_deref(), Some("UC1"));
    assert_eq!(
        fx.envs,
        vec![(String::from("hover-url"), String::from("https://youtube.com/watch?v=v0"))]
    );
}

#[test]
fn loading_empty_playlists_says_no_videos() {
    let mut store = channel_prefetch();
    let (d, fx) = load(PageData::Playlists(playlists(&[])), &settings(Provider::Invidious), &mut store);
    assert!(matches!(d, ChannelDisplay::Playlists(_)));
    assert_eq!(fx.envs, vec![(String::from("hover-url"), String::from("no-videos"))]);
    assert!(fx.prefetches.is_empty());
}

#[test]
fn playlist_link_uses_invidious_instance() {
    let mut store = channel_prefetch();
    let s = settings(Provider::Invidious);
    let (d, _) = load(PageData::Playlists(playlists(&["PL1", "PL2"])), &s, &mut store);
    let envs = d.inflate_item_update(&s);
    assert_eq!(
        envs,
        vec![(String::from("hover-url"), String::from("https://inv.example/playlist?list=PL1"))]
    );
    assert!(d.inflate_load(&s).is_empty());
}

#[test]
fn render_lays_out_sixty_forty() {
    let mut store = channel_prefetch();
    let s = settings(Provider::YouTube);
    let (mut d, _) = load(PageData::Videos(videos(&["v0", "v1"], None)), &s, &mut store);
    match d.render(screen(), false, false, true) {
        RenderPlan::Panes { appearance, list_area, info_area } => {
            assert_eq!((list_area.x, list_area.y, list_area.width, list_area.height), (1, 1, 58, 28));
            assert_eq!((info_area.x, info_area.y, info_area.width, info_area.height), (60, 1, 39, 28));
            assert!(matches!(appearance.selected_text, Colour::TextSpecial));
            assert!(matches!(appearance.cursor, Colour::OutlineHover));
            assert!(matches!(appearance.grid_border, Colour::OutlineSelected));
        }
        _ => panic!("expected panes"),
    }
    assert_eq!(videos_page(&d).textlist.height, Some(28));
}

#[test]
fn render_main_page_puts_list_on_the_right() {
    let mut store = channel_prefetch();
    let s = settings(Provider::YouTube);
    let (mut d, _) = load(PageData::Main { channel: channel(), commands: commands() }, &s, &mut store);
    match d.render(screen(), false, true, false) {
        RenderPlan::Panes { appearance, list_area, info_area } => {
            assert_eq!((list_area.x, list_area.width), (60, 39));
            assert_eq!((info_area.x, info_area.width), (1, 58));
            assert!(matches!(appearance.grid_border, Colour::OutlineHover));
            assert!(matches!(appearance.selected_text, Colour::TextSecondary));
            assert!(matches!(appearance.cursor, Colour::OutlineSecondary));
        }
        _ => panic!("expected panes"),
    }
    assert_eq!(main_page(&d).textlist.height, Some(28));
}

#[test]
fn render_blank_and_popup() {
    let mut d = ChannelDisplay::new();
    assert!(matches!(d.render(screen(), false, true, true), RenderPlan::Block { border: Colour::OutlineHover }));
    assert!(matches!(d.render(screen(), false, false, true), RenderPlan::Block { border: Colour::OutlineSelected }));
    assert!(matches!(d.render(screen(), false, false, false), RenderPlan::Block { border: Colour::Outline }));
    assert!(matches!(d.render(screen(), true, false, false), RenderPlan::Skip));
}

#[test]
fn key_before_first_render_moves_but_is_not_an_update() {
    let mut store = channel_prefetch();
    let s = settings(Provider::YouTube);
    let (mut d, _) = load(PageData::Videos(videos(&["v0", "v1", "v2", "v3", "v4", "v5", "v6"], None)), &s, &mut store);
    let mut fx = Effects::new();
    d.key_event(&mut store, &String::from("UC1"), &s, &no_envs(), Some(KeyAction::MoveDown), &mut fx);
    // the list does not know its height yet, so scrolling fails after the move
    assert_eq!(videos_page(&d).textlist.selected, 1);
    assert!(fx.tasks.is_empty());
    assert!(!fx.render_image);
    assert_eq!(shown_id(&d), "v0");
}

#[test]
fn key_down_after_render_updates_preview_and_link() {
    let mut store = channel_prefetch();
    let s = settings(Provider::YouTube);
    let ids = ["v0", "v1", "v2", "v3", "v4", "v5", "v6"];
    let (mut d, _) = load(PageData::Videos(videos(&ids, None)), &s, &mut store);
    d.render(screen(), false, false, true);
    let mut fx = Effects::new();
    d.key_event(&mut store, &String::from("UC1"), &s, &no_envs(), Some(KeyAction::MoveDown), &mut fx);
    assert_eq!(videos_page(&d).textlist.selected, 1);
    assert!(matches!(fx.tasks.as_slice(), [Task::RenderAll]));
    assert!(fx.render_image);
    assert_eq!(shown_id(&d), "v1");
    assert_eq!(
        fx.envs,
        vec![(String::from("hover-url"), String::from("https://youtube.com/watch?v=v1"))]
    );
    let mut fx = Effects::new();
    d.key_event(&mut store, &String::from("UC1"), &s, &no_envs(), Some(KeyAction::End), &mut fx);
    assert_eq!(videos_page(&d).textlist.selected, 6);
    d.key_event(&mut store, &String::from("UC1"), &s, &no_envs(), Some(KeyAction::MoveUp), &mut fx);
    assert_eq!(videos_page(&d).textlist.selected, 5);
    d.key_event(&mut store, &String::from("UC1"), &s, &no_envs(), Some(KeyAction::First), &mut fx);
    assert_eq!(videos_page(&d).textlist.selected, 0);
}

#[test]
fn scrolling_keeps_cursor_on_screen() {
    let mut store = channel_prefetch();
    let s = settings(Provider::YouTube);
    let ids = ["v0", "v1", "v2", "v3", "v4", "v5", "v6"];
    let (mut d, _) = load(PageData::Videos(videos(&ids, None)), &s, &mut store);
    // a list of height 5 shows three lines between its borders
    d.render(Area { x: 0, y: 0, width: 100, height: 7 }, false, false, true);
    assert_eq!(videos_page(&d).textlist.height, Some(5));
    let mut fx = Effects::new();
    for _ in 0..3 {
        d.key_event(&mut store, &String::from("UC1"), &s, &no_envs(), Some(KeyAction::MoveDown), &mut fx);
    }
    assert_eq!(videos_page(&d).textlist.selected, 3);
    assert_eq!(videos_page(&d).textlist.scroll, 1);
}

#[test]
fn playlists_ignore_first_and_end_keys() {
    let mut store = channel_prefetch();
    let s = settings(Provider::YouTube);
    let (mut d, _) = load(PageData::Playlists(playlists(&["p0", "p1", "p2"])), &s, &mut store);
    d.render(screen(), false, false, true);
    let mut fx = Effects::new();
    d.key_event(&mut store, &String::from("UC1"), &s, &no_envs(), Some(KeyAction::End), &mut fx);
    assert!(fx.tasks.is_empty());
    d.key_event(&mut store, &String::from("UC1"), &s, &no_envs(), Some(KeyAction::MoveRight), &mut fx);
    match &d {
        ChannelDisplay::Playlists(p) => assert_eq!(p.textlist.selected, 2),
        _ => panic!(),
    }
    // playlists do not set the link on keys
    assert!(fx.envs.is_empty());
    assert_eq!(shown_id(&d), "p2");
}

#[test]
fn select_opens_video_or_playlist() {
    let mut store = channel_prefetch();
    let s = settings(Provider::YouTube);
    let (mut d, _) = load(PageData::Videos(videos(&["v0", "v1"], None)), &s, &mut store);
    let mut fx = Effects::new();
    d.key_event(&mut store, &String::from("UC1"), &s, &no_envs(), Some(KeyAction::Select), &mut fx);
    assert!(matches!(fx.tasks.as_slice(), [Task::LoadVideo(id)] if id == "v0"));
    let (mut d, _) = load(PageData::Playlists(playlists(&["p0"])), &s, &mut store);
    let mut fx = Effects::new();
    d.key_event(&mut store, &String::from("UC1"), &s, &no_envs(), Some(KeyAction::Select), &mut fx);
    assert!(matches!(fx.tasks.as_slice(), [Task::LoadPlaylist(id)] if id == "p0"));
}

#[test]
fn select_on_empty_list_reports_nothing_to_select() {
    let mut store = channel_prefetch();
    let s = settings(Provider::YouTube);
    let (mut d, _) = load(PageData::Videos(videos(&[], None)), &s, &mut store);
    let mut fx = Effects::new();
    d.key_event(&mut store, &String::from("UC1"), &s, &no_envs(), Some(KeyAction::Select), &mut fx);
    assert!(fx.tasks.is_empty());
    assert_eq!(fx.message.as_deref(), Some("There is nothing to select"));
}

#[test]
fn select_on_main_page_runs_command_and_redraws() {
    let mut store = channel_prefetch();
    let s = settings(Provider::YouTube);
    let (mut d, _) = load(PageData::Main { channel: channel(), commands: commands() }, &s, &mut store);
    d.render(screen(), false, false, true);
    let mut fx = Effects::new();
    d.key_event(&mut store, &String::from("UC1"), &s, &no_envs(), Some(KeyAction::MoveDown), &mut fx);
    assert!(matches!(fx.tasks.as_slice(), [Task::RenderAll]));
    assert!(fx.render_image);
    let mut fx = Effects::new();
    let envs = vec![
        (String::from("url"), String::from("https://youtu.be/UC1")),
        (String::from("id"), String::from("UC1")),
    ];
    d.key_event(&mut store, &String::from("UC1"), &s, &envs, Some(KeyAction::Select), &mut fx);
    assert!(matches!(fx.tasks.as_slice(), [Task::Command(c), Task::RenderAll] if c == "wl-copy https://youtu.be/UC1"));
}

#[test]
fn unbound_key_changes_nothing() {
    let mut store = channel_prefetch();
    let s = settings(Provider::YouTube);
    let (mut d, _) = load(PageData::Videos(videos(&["v0", "v1"], None)), &s, &mut store);
    let mut fx = Effects::new();
    d.key_event(&mut store, &String::from("UC1"), &s, &no_envs(), None, &mut fx);
    d.key_event(&mut store, &String::from("UC1"), &s, &no_envs(), Some(KeyAction::Other), &mut fx);
    assert_eq!(videos_page(&d).textlist.selected, 0);
    assert!(fx.tasks.is_empty() && fx.envs.is_empty());
}

#[test]
fn near_end_takes_prefetched_page() {
    let mut store = channel_prefetch();
    let mut s = settings(Provider::YouTube);
    s.display_images = true;
    let id = String::from("UC1");
    let (mut d, _) = load(PageData::Videos(videos(&["v0", "v1", "v2"], Some("tok"))), &s, &mut store);
    assert!(d.near_end());
    finish_videos_prefetch(&mut store, id.clone(), Ok(videos(&["v3", "v4"], None)));
    let mut fx = Effects::new();
    d.key_event(&mut store, &id, &s, &no_envs(), None, &mut fx);
    let p = videos_page(&d);
    assert_eq!(p.entries.len(), 5);
    assert_eq!(p.textlist.items.len(), 5);
    assert_eq!(p.textlist.items[4], "Video v4");
    assert!(p.continuation.is_none());
    assert_eq!(fx.downloads.len(), 2);
    assert!(fx.prefetches.is_empty());
    assert!(store.videos.ready.is_none());
    assert!(!d.near_end());
}

#[test]
fn prefetched_page_with_continuation_asks_for_the_next() {
    let mut store = channel_prefetch();
    let s = settings(Provider::YouTube);
    let id = String::from("UC1");
    let (mut d, _) = load(PageData::Videos(videos(&["v0"], Some("tok1"))), &s, &mut store);
    finish_videos_prefetch(&mut store, id.clone(), Ok(videos(&["v1"], Some("tok2"))));
    let mut fx = Effects::new();
    let shown = d.message(&mut store, &id, &s, &MessageType::NotText, &mut fx);
    assert!(!shown);
    assert_eq!(videos_page(&d).entries.len(), 2);
    assert_eq!(fx.prefetches.len(), 1);
    assert_eq!(fx.prefetches[0].ctoken, "tok2");
    assert_eq!(store.videos.in_flight.as_deref(), Some("UC1"));
    // the link is set after a message even when nothing moved
    assert_eq!(
        fx.envs,
        vec![(String::from("hover-url"), String::from("https://youtube.com/watch?v=v0"))]
    );
}

#[test]
fn failed_prefetch_shows_error() {
    let mut store = channel_prefetch();
    let s = settings(Provider::YouTube);
    let id = String::from("UC1");
    let (mut d, _) = load(PageData::Videos(videos(&["v0"], Some("tok"))), &s, &mut store);
    finish_videos_prefetch(&mut store, id.clone(), Err(String::from("timed out")));
    let mut fx = Effects::new();
    d.key_event(&mut store, &id, &s, &no_envs(), None, &mut fx);
    assert_eq!(fx.message.as_deref(), Some("timed out"));
    assert_eq!(videos_page(&d).entries.len(), 1);
}

#[test]
fn prefetch_for_other_channel_is_not_taken() {
    let mut store = channel_prefetch();
    let s = settings(Provider::YouTube);
    let (mut d, _) = load(PageData::Videos(videos(&["v0"], Some("tok"))), &s, &mut store);
    finish_videos_prefetch(&mut store, String::from("UC9"), Ok(videos(&["x"], None)));
    let mut fx = Effects::new();
    d.key_event(&mut store, &String::from("UC1"), &s, &no_envs(), None, &mut fx);
    assert_eq!(videos_page(&d).entries.len(), 1);
    assert!(store.videos.ready.is_some());
    // UC1's fetch is no longer marked in flight once UC9's finished, so it is asked again
    assert_eq!(fx.prefetches.len(), 1);
}

#[test]
fn messages() {
    let mut store = channel_prefetch();
    let s = settings(Provider::YouTube);
    let id = String::from("UC1");
    let (mut d, _) = load(PageData::Videos(videos(&["v0", "v1", "v2"], None)), &s, &mut store);
    d.render(screen(), false, false, true);
    let mut fx = Effects::new();
    assert!(!d.message(&mut store, &id, &s, &MessageType::Absent, &mut fx));
    assert!(fx.envs.is_empty());
    assert!(d.message(&mut store, &id, &s, &MessageType::Text(String::from("scrolldown")), &mut fx));
    assert_eq!(videos_page(&d).textlist.selected, 1);
    assert!(matches!(fx.tasks.as_slice(), [Task::RenderAll]));
    assert_eq!(shown_id(&d), "v1");
    assert!(d.message(&mut store, &id, &s, &MessageType::Text(String::from("scrollup")), &mut fx));
    assert_eq!(videos_page(&d).textlist.selected, 0);
    assert!(!d.message(&mut store, &id, &s, &MessageType::Text(String::from("wobble")), &mut fx));
}

#[test]
fn mouse_clicks() {
    let mut store = channel_prefetch();
    let s = settings(Provider::YouTube);
    let (mut d, _) = load(PageData::Videos(videos(&["v0", "v1", "v2", "v3"], None)), &s, &mut store);
    d.render(screen(), false, false, true);
    let frame = Some(screen());
    let mut fx = Effects::new();
    // outside the list cell
    assert!(!d.mouse_event(frame, 70, 5, &s, &no_envs(), &mut fx));
    assert!(!d.mouse_event(None, 5, 5, &s, &no_envs(), &mut fx));
    // on the cursor box: selects
    assert!(d.mouse_event(frame, 5, 2, &s, &no_envs(), &mut fx));
    assert!(matches!(fx.tasks.as_slice(), [Task::LoadVideo(id)] if id == "v0"));
    // below the box: the box moves so that the clicked line is its text
    let mut fx = Effects::new();
    assert!(d.mouse_event(frame, 5, 5, &s, &no_envs(), &mut fx));
    assert_eq!(videos_page(&d).textlist.selected, 2);
    assert_eq!(shown_id(&d), "v2");
    assert!(fx.render_image);
    assert_eq!(
        fx.envs,
        vec![(String::from("hover-url"), String::from("https://youtube.com/watch?v=v2"))]
    );
    // above the box: the cursor goes to the clicked line
    assert!(d.mouse_event(frame, 5, 1, &s, &no_envs(), &mut fx));
    assert_eq!(videos_page(&d).textlist.selected, 0);
    // far below the end: the cursor goes to the last line
    assert!(d.mouse_event(frame, 5, 20, &s, &no_envs(), &mut fx));
    assert_eq!(videos_page(&d).textlist.selected, 3);
    let mut blank = ChannelDisplay::new();
    assert!(!blank.mouse_event(frame, 5, 5, &s, &no_envs(), &mut fx));
}

#[test]
fn mouse_on_main_page_uses_right_cell() {
    let mut store = channel_prefetch();
    let s = settings(Provider::YouTube);
    let (mut d, _) = load(PageData::Main { channel: channel(), commands: commands() }, &s, &mut store);
    d.render(screen(), false, false, true);
    let mut fx = Effects::new();
    assert!(!d.mouse_event(Some(screen()), 5, 1, &s, &no_envs(), &mut fx));
    let envs = vec![(String::from("url"), String::from("https://inv.example/channel/UC1"))];
    assert!(d.mouse_event(Some(screen()), 70, 1, &s, &envs, &mut fx));
    assert!(matches!(fx.tasks.as_slice(), [Task::Command(c)] if c == "xdg-open https://inv.example/channel/UC1"));
}

#[test]
fn preview_update_follows_cursor() {
    let mut store = channel_prefetch();
    let s = settings(Provider::YouTube);
    let (mut d, _) = load(PageData::Videos(videos(&["v0", "v1"], None)), &s, &mut store);
    if let ChannelDisplay::Videos(p) = &mut d {
        p.textlist.selected = 1;
    }
    d.update();
    assert_eq!(shown_id(&d), "v1");
}

#[test]
fn down_then_up_returns_to_the_line() {
    let mut store = channel_prefetch();
    let s = settings(Provider::YouTube);
    let (mut d, _) = load(PageData::Videos(videos(&["v0", "v1", "v2"], None)), &s, &mut store);
    d.render(screen(), false, false, true);
    let mut fx = Effects::new();
    d.key_event(&mut store, &String::from("UC1"), &s, &no_envs(), Some(KeyAction::MoveDown), &mut fx);
    d.key_event(&mut store, &String::from("UC1"), &s, &no_envs(), Some(KeyAction::MoveUp), &mut fx);
    assert_eq!(videos_page(&d).textlist.selected, 0);
    assert_eq!(shown_id(&d), "v0");
}

#[test]
fn fetch_in_flight_is_not_asked_again() {
    let mut store = channel_prefetch();
    let s = settings(Provider::YouTube);
    let id = String::from("UC1");
    let (mut d, fx) = load(PageData::Videos(videos(&["v0", "v1"], Some("tok"))), &s, &mut store);
    assert_eq!(fx.prefetches.len(), 1);
    let mut fx = Effects::new();
    d.key_event(&mut store, &id, &s, &no_envs(), None, &mut fx);
    d.key_event(&mut store, &id, &s, &no_envs(), None, &mut fx);
    assert!(fx.prefetches.is_empty());
    assert_eq!(store.videos.in_flight.as_deref(), Some("UC1"));
    assert_eq!(videos_page(&d).entries.len(), 2);
}

#[test]
fn far_from_the_end_nothing_is_fetched_or_taken() {
    let mut store = channel_prefetch();
    let s = settings(Provider::YouTube);
    let id = String::from("UC1");
    let ids = ["v0", "v1", "v2", "v3", "v4", "v5", "v6", "v7", "v8", "v9"];
    let (mut d, _) = load(PageData::Videos(videos(&ids, Some("tok"))), &s, &mut store);
    assert!(!d.near_end());
    let mut store = channel_prefetch();
    finish_videos_prefetch(&mut store, id.clone(), Ok(videos(&["x"], None)));
    let mut fx = Effects::new();
    d.key_event(&mut store, &id, &s, &no_envs(), None, &mut fx);
    assert_eq!(videos_page(&d).entries.len(), 10);
    assert!(store.videos.ready.is_some());
    assert!(fx.prefetches.is_empty() && fx.downloads.is_empty());
}

#[test]
fn taking_a_page_keeps_earlier_entries_first() {
    let mut store = channel_prefetch();
    let s = settings(Provider::YouTube);
    let id = String::from("UC1");
    let (mut d, _) = load(PageData::Videos(videos(&["v0", "v1"], Some("tok"))), &s, &mut store);
    finish_videos_prefetch(&mut store, id.clone(), Ok(videos(&["v2", "v3"], None)));
    let mut fx = Effects::new();
    d.key_event(&mut store, &id, &s, &no_envs(), None, &mut fx);
    let ids: Vec<String> = videos_page(&d).entries.iter().map(|e| e.id_or_default()).collect();
    assert_eq!(ids, vec!["v0", "v1", "v2", "v3"]);
    assert_eq!(videos_page(&d).textlist.selected, 0);
    assert_eq!(shown_id(&d), "v0");
}

#[test]
fn click_on_empty_command_list_is_refused() {
    let mut store = channel_prefetch();
    let s = settings(Provider::YouTube);
    let (mut d, _) = load(PageData::Main { channel: channel(), commands: Vec::new() }, &s, &mut store);
    d.render(screen(), false, false, true);
    let mut fx = Effects::new();
    assert!(d.mouse_event_checked(Some(screen()), 70, 1, &s, &no_envs(), &mut fx).is_none());
    assert!(fx.tasks.is_empty());
    // a click below the cursor box is handled: the cursor goes to the clicked line less two
    assert_eq!(d.mouse_event_checked(Some(screen()), 70, 6, &s, &no_envs(), &mut fx), Some(true));
    assert_eq!(main_page(&d).textlist.selected, 3);
    // outside the list
    assert_eq!(d.mouse_event_checked(Some(screen()), 5, 6, &s, &no_envs(), &mut fx), Some(false));
}

#[test]
fn apply_envs_replaces_placeholders() {
    let envs = vec![
        (String::from("url"), String::from("https://a/b")),
        (String::from("id"), String::from("x1")),
    ];
    assert_eq!(apply_envs(String::from("open ${url} ${id} ${url} ${other}"), &envs), "open https://a/b x1 https://a/b ${other}");
    assert_eq!(apply_envs(String::from("no placeholders"), &envs), "no placeholders");
    assert_eq!(apply_envs(String::from("${url}"), &Vec::new()), "${url}");
    assert_eq!(replace_all(&String::from("aaa"), &String::from("aa"), &String::from("b")), "ba");
    assert_eq!(replace_all(&String::from("héllo wörld"), &String::from("ö"), &String::from("o")), "héllo world");
}

#[test]
fn appending_to_an_empty_list_leaves_the_preview_empty() {
    let mut store = channel_prefetch();
    let s = settings(Provider::YouTube);
    let id = String::from("UC1");
    let (mut d, _) = load(PageData::Videos(videos(&[], Some("tok"))), &s, &mut store);
    assert!(!d.near_end());
    finish_videos_prefetch(&mut store, id.clone(), Ok(videos(&["v0", "v1"], None)));
    let mut fx = Effects::new();
    assert!(d.apply_prefetch(&mut store, &id, false, &mut fx));
    let p = videos_page(&d);
    assert_eq!(p.entries.len(), 2);
    assert_eq!(p.textlist.items.len(), 2);
    assert!(p.iteminfo.item.is_none());
    // a click that would move the cursor compares with the missing preview, so it is refused
    d.render(screen(), false, false, true);
    assert!(d.mouse_event_checked(Some(screen()), 5, 5, &s, &no_envs(), &mut fx).is_none());
}

#[test]
fn apply_prefetch_away_from_the_end_and_on_other_pages() {
    let mut store = channel_prefetch();
    let s = settings(Provider::YouTube);
    let id = String::from("UC1");
    let ids = ["v0", "v1", "v2", "v3", "v4", "v5", "v6", "v7", "v8", "v9"];
    let (mut d, _) = load(PageData::Videos(videos(&ids, Some("tok"))), &s, &mut store);
    assert!(!d.near_end());
    let mut fx = Effects::new();
    // nothing waits
    assert!(!d.apply_prefetch(&mut store, &id, false, &mut fx));
    finish_videos_prefetch(&mut store, id.clone(), Ok(videos(&["v10"], Some("tok2"))));
    assert!(d.apply_prefetch(&mut store, &id, false, &mut fx));
    assert_eq!(videos_page(&d).entries.len(), 11);
    assert_eq!(fx.prefetches.len(), 1);
    let mut blank = ChannelDisplay::new();
    finish_videos_prefetch(&mut store, id.clone(), Ok(videos(&["x"], None)));
    assert!(!blank.apply_prefetch(&mut store, &id, false, &mut fx));
    assert!(store.videos.ready.is_some());
    let (mut main, _) = load(PageData::Main { channel: channel(), commands: commands() }, &s, &mut store);
    assert!(!main.apply_prefetch(&mut store, &id, false, &mut fx));
    assert!(store.videos.ready.is_some());
}

#[test]
fn render_with_popup_or_blank_accepts_any_area() {
    let mut store = channel_prefetch();
    let s = settings(Provider::YouTube);
    let (mut d, _) = load(PageData::Videos(videos(&["v0"], None)), &s, &mut store);
    let tiny = Area { x: 0, y: 0, width: 0, height: 0 };
    assert!(matches!(d.render(tiny, true, false, false), RenderPlan::Skip));
    let mut blank = ChannelDisplay::new();
    assert!(matches!(blank.render(tiny, false, false, false), RenderPlan::Block { border: Colour::Outline }));
}
