use vstd::prelude::*;

verus! {

/// A video of a channel as the provider lists it.
#[derive(Clone)]
pub struct VideoEntry {
    pub id: String,
    pub title: String,
}

/// A playlist of a channel as the provider lists it.
#[derive(Clone)]
pub struct PlaylistEntry {
    pub id: String,
    pub title: String,
}

/// One page of a channel's videos, with the token of the next page if any.
#[derive(Clone)]
pub struct ChannelVideos {
    pub videos: Vec<VideoEntry>,
    pub continuation: Option<String>,
}

/// One page of a channel's playlists, with the token of the next page if any.
#[derive(Clone)]
pub struct ChannelPlaylists {
    pub playlists: Vec<PlaylistEntry>,
    pub continuation: Option<String>,
}

/// An item shown by the channel page.
#[derive(Clone)]
pub enum Item {
    MiniVideo { id: String, title: String },
    MiniPlaylist { id: String, title: String },
    FullChannel { id: String, name: String },
    Unknown { label: String },
}

impl Item {
    /// The identifier of the item, if it has one.
    pub open spec fn id_view(self) -> Option<Seq<char>> {
        match self {
            Item::MiniVideo { id, .. } => Some(id@),
            Item::MiniPlaylist { id, .. } => Some(id@),
            Item::FullChannel { id, .. } => Some(id@),
            Item::Unknown { .. } => None,
        }
    }

    /// The identifier of the item, or the empty string when it has none.
    pub open spec fn id_or_empty(self) -> Seq<char> {
        match self.id_view() {
            Some(id) => id,
            None => Seq::empty(),
        }
    }

    /// The text that a list shows for the item.
    pub open spec fn label_view(self) -> Seq<char> {
        match self {
            Item::MiniVideo { title, .. } => title@,
            Item::MiniPlaylist { title, .. } => title@,
            Item::FullChannel { name, .. } => name@,
            Item::Unknown { label } => label@,
        }
    }

    /// A copy of the item.
    pub fn duplicate(&self) -> (r: Item)
        ensures
            r == *self,
    {
        match self {
            Item::MiniVideo { id, title } => Item::MiniVideo { id: id.clone(), title: title.clone() },
            Item::MiniPlaylist { id, title } => Item::MiniPlaylist {
                id: id.clone(),
                title: title.clone(),
            },
            Item::FullChannel { id, name } => Item::FullChannel { id: id.clone(), name: name.clone() },
            Item::Unknown { label } => Item::Unknown { label: label.clone() },
        }
    }

    /// The identifier of the item, or an empty string when it has none.
    pub fn id_or_default(&self) -> (r: String)
        ensures
            r@ == self.id_or_empty(),
    {
        match self {
            Item::MiniVideo { id, .. } => id.clone(),
            Item::MiniPlaylist { id, .. } => id.clone(),
            Item::FullChannel { id, .. } => id.clone(),
            Item::Unknown { .. } => String::new(),
        }
    }

    /// Whether two items have the same identifier (two items without one count as equal).
    pub fn same_id(&self, other: &Item) -> (r: bool)
        ensures
            r == (self.id_view() == other.id_view()),
    {
        let a = match self {
            Item::MiniVideo { id, .. } => Some(id),
            Item::MiniPlaylist { id, .. } => Some(id),
            Item::FullChannel { id, .. } => Some(id),
            Item::Unknown { .. } => None,
        };
        let b = match other {
            Item::MiniVideo { id, .. } => Some(id),
            Item::MiniPlaylist { id, .. } => Some(id),
            Item::FullChannel { id, .. } => Some(id),
            Item::Unknown { .. } => None,
        };
        match (a, b) {
            (Some(x), Some(y)) => *x == *y,
            (None, None) => true,
            _ => false,
        }
    }

    /// The text that a list shows for the item.
    pub fn label(&self) -> (r: String)
        ensures
            r@ == self.label_view(),
    {
        match self {
            Item::MiniVideo { title, .. } => title.clone(),
            Item::MiniPlaylist { title, .. } => title.clone(),
            Item::FullChannel { name, .. } => name.clone(),
            Item::Unknown { label } => label.clone(),
        }
    }

    /// The list item of a video from a channel's video page.
    pub fn from_common_video(video: &VideoEntry) -> (r: Item)
        ensures
            r == (Item::MiniVideo { id: video.id, title: video.title }),
    {
        Item::MiniVideo { id: video.id.clone(), title: video.title.clone() }
    }

    /// The list item of a playlist from a channel's playlist page.
    pub fn from_common_playlist(playlist: &PlaylistEntry) -> (r: Item)
        ensures
            r == (Item::MiniPlaylist { id: playlist.id, title: playlist.title }),
    {
        Item::MiniPlaylist { id: playlist.id.clone(), title: playlist.title.clone() }
    }
}

/// The list items of a channel's videos.
pub open spec fn video_items(v: Seq<VideoEntry>) -> Seq<Item> {
    v.map_values(|e: VideoEntry| Item::MiniVideo { id: e.id, title: e.title })
}

/// The list items of a channel's playlists.
pub open spec fn playlist_items(v: Seq<PlaylistEntry>) -> Seq<Item> {
    v.map_values(|e: PlaylistEntry| Item::MiniPlaylist { id: e.id, title: e.title })
}

/// The list items of a page of videos.
pub fn items_of_videos(videos: &Vec<VideoEntry>) -> (r: Vec<Item>)
    ensures
        r@ == video_items(videos@),
{
    let mut r: Vec<Item> = Vec::new();
    let mut i: usize = 0;
    while i < videos.len()
        invariant
            i <= videos.len(),
            r@ == video_items(videos@.take(i as int)),
        decreases videos.len() - i,
    {
        r.push(Item::from_common_video(&videos[i]));
        i = i + 1;
        assert(r@ =~= video_items(videos@.take(i as int)));
    }
    assert(videos@.take(videos.len() as int) =~= videos@);
    r
}

/// The list items of a page of playlists.
pub fn items_of_playlists(playlists: &Vec<PlaylistEntry>) -> (r: Vec<Item>)
    ensures
        r@ == playlist_items(playlists@),
{
    let mut r: Vec<Item> = Vec::new();
    let mut i: usize = 0;
    while i < playlists.len()
        invariant
            i <= playlists.len(),
            r@ == playlist_items(playlists@.take(i as int)),
        decreases playlists.len() - i,
    {
        r.push(Item::from_common_playlist(&playlists[i]));
        i = i + 1;
        assert(r@ =~= playlist_items(playlists@.take(i as int)));
    }
    assert(playlists@.take(playlists.len() as int) =~= playlists@);
    r
}

/// A copy of a sequence of items.
pub fn duplicate_items(items: &Vec<Item>) -> (r: Vec<Item>)
    ensures
        r@ == items@,
{
    let mut r: Vec<Item> = Vec::new();
    let mut i: usize = 0;
    while i < items.len()
        invariant
            i <= items.len(),
            r@ == items@.take(i as int),
        decreases items.len() - i,
    {
        r.push(items[i].duplicate());
        i = i + 1;
        assert(r@ =~= items@.take(i as int));
    }
    assert(items@.take(items.len() as int) =~= items@);
    r
}

/// The labels that a list shows for a sequence of items.
pub open spec fn labels(items: Seq<Item>) -> Seq<Seq<char>> {
    items.map_values(|it: Item| it.label_view())
}

/// The views of a sequence of strings.
pub open spec fn string_views(strings: Seq<String>) -> Seq<Seq<char>> {
    strings.map_values(|s: String| s@)
}

/// The labels of the items, one string each.
pub fn item_labels(items: &Vec<Item>) -> (r: Vec<String>)
    ensures
        string_views(r@) == labels(items@),
{
    let mut r: Vec<String> = Vec::new();
    let mut i: usize = 0;
    while i < items.len()
        invariant
            i <= items.len(),
            r@.len() == i,
            string_views(r@) == labels(items@.take(i as int)),
        decreases items.len() - i,
    {
        let ghost before = r@;
        let l = items[i].label();
        r.push(l);
        i = i + 1;
        assert forall|j: int| 0 <= j < i implies #[trigger] string_views(r@)[j] == labels(
            items@.take(i as int),
        )[j] by {
            if j < i - 1 {
                assert(r@[j] == before[j]);
                assert(string_views(before)[j] == labels(items@.take(i - 1))[j]);
            }
        }
        assert(string_views(r@) =~= labels(items@.take(i as int)));
    }
    assert(items@.take(items.len() as int) == items@);
    r
}

} // verus!
