use vstd::prelude::*;
use vstd::string::*;
use crate::config::{site_base, KeyAction, Provider, Settings};
use crate::effects::{env_views, Effects, EffectsView, PageKind, Task, TaskView};
use crate::item::{duplicate_items, item_labels, labels, string_views, Item};
use crate::layout::GridLayout;
use crate::listcursor::{
    cursor_bounded, cursor_fits, fits, lemma_moves_keep_fit, lemma_settled_scroll_bound, list_limit, textlist_down, textlist_first, textlist_last, textlist_set_items, textlist_up, ListCursor,
};

verus! {

/// How close to the end of a list the cursor has to be for the next page to
/// be fetched.
pub const PREFETCH_DISTANCE: usize = 5;

/// The preview pane: the item it shows, if any.
#[derive(Clone)]
pub struct ItemInfo {
    pub item: Option<Item>,
}

impl ItemInfo {
    /// A preview of `item`.
    pub fn new(item: Option<Item>) -> (r: ItemInfo)
        ensures
            r.item == item,
    {
        ItemInfo { item }
    }
}

impl PageKind {
    /// The items that a list of this kind holds.
    pub open spec fn holds(self, item: Item) -> bool {
        match self {
            PageKind::Videos => item is MiniVideo,
            PageKind::Playlists => item is MiniPlaylist,
        }
    }

    /// The path of a link to an item of this kind, before its identifier.
    pub open spec fn link_path(self) -> Seq<char> {
        match self {
            PageKind::Videos => "/watch?v="@,
            PageKind::Playlists => "/playlist?list="@,
        }
    }

    /// The task that opens `item`.
    pub open spec fn task_for(self, item: Item) -> TaskView {
        match self {
            PageKind::Videos => TaskView::LoadVideo(item->MiniVideo_id@),
            PageKind::Playlists => TaskView::LoadPlaylist(item->MiniPlaylist_id@),
        }
    }

    /// The keys that take the cursor to the first line.
    pub open spec fn moves_first(self, action: KeyAction) -> bool {
        action is MoveLeft || (self is Videos && action is First)
    }

    /// The keys that take the cursor to the last line.
    pub open spec fn moves_last(self, action: KeyAction) -> bool {
        action is MoveRight || (self is Videos && action is End)
    }
}

/// The cursor after a scroll message: "scrollup" and "scrolldown" move it
/// one line, anything else leaves it; and whether it moved successfully.
pub open spec fn scrolled_by(c: ListCursor, text: Seq<char>) -> (ListCursor, bool) {
    if text == "scrollup"@ {
        (c.after_up(), c.up_ok())
    } else if text == "scrolldown"@ {
        (c.after_down(), c.down_ok())
    } else {
        (c, false)
    }
}

/// Moves a list cursor as a scroll message asks; says whether it moved
/// successfully.
pub fn scroll_by_message(c: &mut ListCursor, text: &String) -> (updated: bool)
    requires
        old(c).scroll + 65536 <= usize::MAX,
    ensures
        (*final(c), updated) == scrolled_by(*old(c), text@),
{
    let up = String::from_str("scrollup");
    let down = String::from_str("scrolldown");
    if *text == up {
        textlist_up(c).is_ok()
    } else if *text == down {
        textlist_down(c).is_ok()
    } else {
        false
    }
}

/// A page of the channel that lists videos or playlists.
#[derive(Clone)]
pub struct ListPage {
    pub entries: Vec<Item>,
    pub textlist: ListCursor,
    pub iteminfo: ItemInfo,
    pub grid: GridLayout,
    pub continuation: Option<String>,
}

impl ListPage {
    /// The page is consistent: it is well shaped and its cursor is on an
    /// entry whenever there are entries.
    pub open spec fn wf(self, kind: PageKind) -> bool {
        &&& self.shaped(kind)
        &&& cursor_fits(self.textlist)
    }

    /// The page is well shaped: the list shows one line per entry, every
    /// entry is of the page's kind, and positions stay far from overflow.
    pub open spec fn shaped(self, kind: PageKind) -> bool {
        &&& self.grid.wf()
        &&& self.grid.columns@.len() >= 2
        &&& self.textlist.items@.len() == self.entries@.len()
        &&& string_views(self.textlist.items@) == labels(self.entries@)
        &&& forall|i: int| 0 <= i < self.entries@.len() ==> kind.holds(#[trigger] self.entries@[i])
        &&& cursor_bounded(self.textlist)
    }

    /// The preview shows an item whenever there are entries. Loading and
    /// every move keep this; appending a fetched page to an empty list
    /// leaves the preview empty.
    pub open spec fn preview_ready(self) -> bool {
        self.entries@.len() > 0 ==> self.iteminfo.item is Some
    }

    /// The entry under the cursor.
    pub open spec fn selected_entry(self) -> Item {
        self.entries@[self.textlist.selected as int]
    }

    /// More entries can be fetched and the cursor is close to the end.
    pub open spec fn near_end_spec(self) -> bool {
        &&& self.continuation is Some
        &&& self.entries@.len() > 0
        &&& self.textlist.selected + PREFETCH_DISTANCE >= self.entries@.len()
    }

    /// The environment entry that tells commands which link the cursor is on.
    pub open spec fn hover_envs_view(self, kind: PageKind, s: Settings) -> Seq<(Seq<char>, Seq<char>)> {
        if self.textlist.items@.len() == 0 {
            seq![("hover-url"@, "no-videos"@)]
        } else {
            seq![("hover-url"@, site_base(s) + kind.link_path() + self.selected_entry().id_or_empty())]
        }
    }

    /// The page with its list cursor replaced.
    pub open spec fn with_cursor(self, c: ListCursor) -> ListPage {
        ListPage { textlist: c, ..self }
    }

    /// The page with the entry under the cursor in the preview.
    pub open spec fn showing_selected(self) -> ListPage {
        ListPage { iteminfo: ItemInfo { item: Some(self.selected_entry()) }, ..self }
    }

    /// The page once the preview follows the cursor: it changes only when
    /// the entry under the cursor has another identifier than the one shown.
    pub open spec fn refreshed_preview(self) -> ListPage {
        if self.entries@.len() > 0 && self.selected_entry().id_view()
            != self.iteminfo.item.unwrap().id_view() {
            self.showing_selected()
        } else {
            self
        }
    }

    /// The cursor after a key, and whether it moved successfully; keys
    /// other than the moves leave it.
    pub open spec fn key_moved(self, kind: PageKind, action: KeyAction) -> (ListCursor, bool) {
        let c = self.textlist;
        if action is MoveUp {
            (c.after_up(), c.up_ok())
        } else if action is MoveDown {
            (c.after_down(), c.down_ok())
        } else if kind.moves_first(action) {
            (c.after_first(), c.first_ok())
        } else if kind.moves_last(action) {
            if self.entries@.len() > 0 {
                (c.after_last(), c.last_ok())
            } else {
                (c, false)
            }
        } else {
            (c, false)
        }
    }

    /// What selecting the entry under the cursor asks for: opening it, or,
    /// on an empty list, an error message.
    pub open spec fn selection_effects(self, kind: PageKind, before: EffectsView) -> EffectsView {
        if self.entries@.len() > 0 {
            EffectsView { tasks: before.tasks.push(kind.task_for(self.selected_entry())), ..before }
        } else {
            EffectsView { message: Some("There is nothing to select"@), ..before }
        }
    }

    /// What a successful move on a non-empty list asks for: a redraw, the
    /// thumbnail, and, where `with_envs`, the link under the cursor.
    pub open spec fn shown_effects(
        self,
        kind: PageKind,
        s: Settings,
        before: EffectsView,
        with_envs: bool,
    ) -> EffectsView {
        EffectsView {
            tasks: before.tasks.push(TaskView::RenderAll),
            render_image: true,
            envs: if with_envs {
                before.envs + self.hover_envs_view(kind, s)
            } else {
                before.envs
            },
            ..before
        }
    }

    /// How a key changes the page and what it asks for: Select opens the
    /// entry under the cursor; a move that succeeds on a non-empty list
    /// redraws, shows the entry in the preview and, on a video page, sets its
    /// link; other keys leave the page as they found it.
    pub open spec fn key_applied(
        self,
        post: ListPage,
        kind: PageKind,
        action: KeyAction,
        s: Settings,
        fx: EffectsView,
        post_fx: EffectsView,
    ) -> bool {
        if action is Select {
            post == self && post_fx == self.selection_effects(kind, fx)
        } else {
            let (c, updated) = self.key_moved(kind, action);
            let moved = self.with_cursor(c);
            if updated && self.entries@.len() > 0 {
                &&& post == moved.showing_selected()
                &&& post_fx == moved.shown_effects(kind, s, fx, kind is Videos)
            } else {
                &&& post == moved
                &&& post_fx == fx
            }
        }
    }

    /// How a scroll message with text `text` changes the page, what it asks
    /// for, and whether the cursor moved successfully.
    pub open spec fn scroll_applied(
        self,
        post: ListPage,
        kind: PageKind,
        text: Seq<char>,
        s: Settings,
        fx: EffectsView,
        post_fx: EffectsView,
        updated: bool,
    ) -> bool {
        let (c, moved_ok) = scrolled_by(self.textlist, text);
        let moved = self.with_cursor(c);
        &&& updated == moved_ok
        &&& if updated && self.entries@.len() > 0 {
            &&& post == moved.showing_selected()
            &&& post_fx == moved.shown_effects(kind, s, fx, false)
        } else {
            &&& post == moved
            &&& post_fx == fx
        }
    }

    /// Whether the cursor is close enough to the end of the list for the
    /// next page to be fetched.
    pub fn near_end(&self) -> (r: bool)
        requires
            self.textlist.selected <= list_limit(),
        ensures
            r == self.near_end_spec(),
    {
        self.continuation.is_some() && !self.entries.is_empty() && self.textlist.selected
            + PREFETCH_DISTANCE >= self.entries.len()
    }

    /// Makes the preview follow the cursor.
    pub fn refresh_preview(&mut self)
        requires
            old(self).entries@.len() > 0 ==> old(self).textlist.selected < old(self).entries@.len()
                && old(self).iteminfo.item is Some,
        ensures
            *final(self) == old(self).refreshed_preview(),
    {
        if !self.entries.is_empty() {
            let sel = self.textlist.selected;
            let same = match &self.iteminfo.item {
                Some(shown) => self.entries[sel].same_id(shown),
                None => true,
            };
            if !same {
                self.iteminfo.item = Some(self.entries[sel].duplicate());
            }
        }
    }

    /// The environment entry that tells commands which link the cursor is on.
    pub fn hover_envs(&self, kind: PageKind, settings: &Settings) -> (r: Vec<(String, String)>)
        requires
            self.wf(kind),
        ensures
            env_views(r@) == self.hover_envs_view(kind, *settings),
    {
        let mut r: Vec<(String, String)> = Vec::new();
        if self.textlist.items.len() == 0 {
            r.push((String::from_str("hover-url"), String::from_str("no-videos")));
        } else {
            let base = match settings.provider {
                Provider::YouTube => String::from_str("https://youtube.com"),
                Provider::Invidious => settings.invidious_instance.clone(),
            };
            let path = match kind {
                PageKind::Videos => "/watch?v=",
                PageKind::Playlists => "/playlist?list=",
            };
            let id = self.entries[self.textlist.selected].id_or_default();
            let url = base.concat(path).concat(id.as_str());
            r.push((String::from_str("hover-url"), url));
        }
        assert(env_views(r@) =~= self.hover_envs_view(kind, *settings));
        r
    }

    /// Opens the entry under the cursor, or says that there is nothing to
    /// open.
    pub fn select_at_cursor(&self, kind: PageKind, fx: &mut Effects)
        requires
            self.wf(kind),
        ensures
            final(fx)@ == self.selection_effects(kind, old(fx)@),
    {
        if !self.entries.is_empty() {
            let item = &self.entries[self.textlist.selected];
            assert(kind.holds(self.selected_entry()));
            match kind {
                PageKind::Videos => match item {
                    Item::MiniVideo { id, .. } => fx.push_task(Task::LoadVideo(id.clone())),
                    _ => {},
                },
                PageKind::Playlists => match item {
                    Item::MiniPlaylist { id, .. } => fx.push_task(Task::LoadPlaylist(id.clone())),
                    _ => {},
                },
            }
        } else {
            fx.set_message(String::from_str("There is nothing to select"));
        }
    }

    /// Shows the entry under the cursor after a successful move: a redraw,
    /// the thumbnail, the preview, and, where `with_envs`, the link.
    fn show_selected(&mut self, kind: PageKind, settings: &Settings, with_envs: bool, fx: &mut Effects)
        requires
            old(self).wf(kind),
            old(self).entries@.len() > 0,
        ensures
            *final(self) == old(self).showing_selected(),
            final(fx)@ == old(self).shown_effects(kind, *settings, old(fx)@, with_envs),
    {
        fx.push_task(Task::RenderAll);
        fx.request_image();
        self.iteminfo.item = Some(self.entries[self.textlist.selected].duplicate());
        if with_envs {
            let envs = self.hover_envs(kind, settings);
            fx.set_envs(envs);
        }
    }

    /// Handles a key on the page.
    pub fn apply_key(&mut self, kind: PageKind, action: KeyAction, settings: &Settings, fx: &mut Effects)
        requires
            old(self).wf(kind),
        ensures
            final(self).wf(kind),
            old(self).key_applied(*final(self), kind, action, *settings, old(fx)@, final(fx)@),
    {
        proof {
            lemma_moves_keep_fit(self.textlist);
        }
        let is_videos = match kind {
            PageKind::Videos => true,
            PageKind::Playlists => false,
        };
        let updated = match action {
            KeyAction::MoveUp => textlist_up(&mut self.textlist).is_ok(),
            KeyAction::MoveDown => textlist_down(&mut self.textlist).is_ok(),
            KeyAction::MoveLeft => textlist_first(&mut self.textlist).is_ok(),
            KeyAction::First => is_videos && textlist_first(&mut self.textlist).is_ok(),
            KeyAction::MoveRight => !self.entries.is_empty() && textlist_last(&mut self.textlist).is_ok(),
            KeyAction::End => is_videos && !self.entries.is_empty() && textlist_last(
                &mut self.textlist,
            ).is_ok(),
            KeyAction::Select => {
                self.select_at_cursor(kind, fx);
                return ;
            },
            KeyAction::Other => false,
        };
        if updated && !self.entries.is_empty() {
            self.show_selected(kind, settings, is_videos, fx);
        }
    }

    /// Handles a scroll message on the page; says whether the cursor moved
    /// successfully.
    pub fn apply_scroll(&mut self, kind: PageKind, text: &String, settings: &Settings, fx: &mut Effects) -> (updated: bool)
        requires
            old(self).wf(kind),
        ensures
            final(self).wf(kind),
            old(self).scroll_applied(*final(self), kind, text@, *settings, old(fx)@, final(fx)@, updated),
    {
        proof {
            lemma_moves_keep_fit(self.textlist);
        }
        let updated = scroll_by_message(&mut self.textlist, text);
        if updated && !self.entries.is_empty() {
            self.show_selected(kind, settings, false, fx);
        }
        updated
    }

    /// The page once a fetched page of `new` entries and the given
    /// continuation was appended: the list shows every entry, its cursor
    /// stays, and it is scrolled as setting its lines scrolls it.
    pub open spec fn absorbed(self, post: ListPage, new: Seq<Item>, continuation: Option<String>) -> bool {
        &&& post.entries@ == self.entries@ + new
        &&& post.continuation == continuation
        &&& post.iteminfo == self.iteminfo
        &&& post.grid == self.grid
        &&& new.len() == 0 ==> post.textlist == self.textlist
        &&& new.len() > 0 ==> {
            &&& string_views(post.textlist.items@) == labels(post.entries@)
            &&& post.textlist.selected == self.textlist.selected
            &&& post.textlist.scroll == self.textlist.scroll_after_set_items()
            &&& post.textlist.height == self.textlist.height
            &&& post.textlist.ascii_only == self.textlist.ascii_only
        }
    }

    /// Appends the entries of a fetched page and takes its continuation; the
    /// images of the new entries are downloaded when thumbnails are shown.
    pub fn absorb(
        &mut self,
        kind: PageKind,
        new_items: Vec<Item>,
        continuation: Option<String>,
        display_images: bool,
        fx: &mut Effects,
    )
        requires
            old(self).wf(kind),
            old(self).entries@.len() + new_items@.len() <= list_limit(),
            forall|i: int| 0 <= i < new_items@.len() ==> kind.holds(#[trigger] new_items@[i]),
        ensures
            final(self).shaped(kind),
            old(self).entries@.len() > 0 ==> final(self).wf(kind),
            old(self).absorbed(*final(self), new_items@, continuation),
            final(fx)@ == (if display_images && new_items@.len() > 0 {
                EffectsView { downloads: old(fx)@.downloads + new_items@, ..old(fx)@ }
            } else {
                old(fx)@
            }),
    {
        self.continuation = continuation;
        if !new_items.is_empty() {
            if display_images {
                fx.download(duplicate_items(&new_items));
            }
            let ghost before = self.entries@;
            let mut new_items = new_items;
            let ghost added = new_items@;
            self.entries.append(&mut new_items);
            assert(self.entries@ == before + added);
            let lines = item_labels(&self.entries);
            proof {
                lemma_settled_scroll_bound(
                    self.textlist.selected as int,
                    self.textlist.scroll as int,
                    self.textlist.height,
                );
                assert(string_views(lines@).len() == lines@.len());
                assert(labels(self.entries@).len() == self.entries@.len());
            }
            textlist_set_items(&mut self.textlist, &lines);
            proof {
                assert(string_views(self.textlist.items@).len() == self.textlist.items@.len());
                assert forall|i: int| 0 <= i < self.entries@.len() implies kind.holds(
                    #[trigger] self.entries@[i],
                ) by {
                    if i >= before.len() {
                        assert(self.entries@[i] == added[i - before.len()]);
                    } else {
                        assert(self.entries@[i] == before[i]);
                    }
                }
            }
        }
    }
}


/// The preview follows the cursor: once refreshed, a consistent non-empty
/// page previews an item with the identifier of the entry under the cursor.
pub proof fn law_preview_follows_cursor(page: ListPage, kind: PageKind)
    requires
        page.wf(kind),
        page.preview_ready(),
        page.entries@.len() > 0,
    ensures
        page.refreshed_preview().iteminfo.item matches Some(shown) && shown.id_view()
            == page.selected_entry().id_view(),
{
}

/// Appending a fetched page keeps the entries that were there, in order,
/// in front of the new ones.
pub proof fn law_absorb_keeps_entries(page: ListPage, post: ListPage, new: Seq<Item>, continuation: Option<String>)
    requires
        page.absorbed(post, new, continuation),
    ensures
        post.entries@.take(page.entries@.len() as int) == page.entries@,
        post.entries@.skip(page.entries@.len() as int) == new,
{
    assert(post.entries@.take(page.entries@.len() as int) =~= page.entries@);
    assert(post.entries@.skip(page.entries@.len() as int) =~= new);
}


/// The link path of a list page's entries, spelled out.
pub open spec fn entry_link(kind: PageKind, s: Settings, id: Seq<char>) -> Seq<char> {
    (if s.provider is YouTube {
        "https://youtube.com"@
    } else {
        s.invidious_instance@
    }) + (if kind is Videos {
        "/watch?v="@
    } else {
        "/playlist?list="@
    }) + id
}

/// The link a list page publishes is that of the entry under the cursor, on
/// video and playlist pages alike: the site (YouTube or the configured
/// Invidious instance), the path of the kind, and the identifier of
/// `entries[selected]`; an empty list publishes "no-videos".
pub proof fn law_hover_link_is_entry_under_cursor(page: ListPage, kind: PageKind, s: Settings)
    requires
        page.wf(kind),
    ensures
        page.entries@.len() == 0 ==> page.hover_envs_view(kind, s) == seq![("hover-url"@, "no-videos"@)],
        page.entries@.len() > 0 ==> page.hover_envs_view(kind, s) == seq![
            ("hover-url"@, entry_link(kind, s, page.entries@[page.textlist.selected as int].id_or_empty())),
        ],
{
}

/// Selecting on a list page opens exactly the entry under the cursor: one
/// task, loading the video or playlist `entries[selected]`, is added after
/// the tasks already asked for, and nothing else changes; on an empty list
/// no task is added and the message says there is nothing to select.
pub proof fn law_select_opens_entry_under_cursor(page: ListPage, kind: PageKind, before: EffectsView)
    requires
        page.wf(kind),
    ensures
        ({
            let after = page.selection_effects(kind, before);
            let entry = page.entries@[page.textlist.selected as int];
            &&& after.render_image == before.render_image
            &&& after.envs == before.envs
            &&& after.downloads == before.downloads
            &&& after.prefetches == before.prefetches
            &&& page.entries@.len() == 0 ==> after.tasks == before.tasks && after.message == Some(
                "There is nothing to select"@,
            )
            &&& page.entries@.len() > 0 ==> {
                &&& after.message == before.message
                &&& after.tasks.len() == before.tasks.len() + 1
                &&& after.tasks.take(before.tasks.len() as int) == before.tasks
                &&& after.tasks.last() == if kind is Videos {
                    TaskView::LoadVideo(entry.id_or_empty())
                } else {
                    TaskView::LoadPlaylist(entry.id_or_empty())
                }
            }
        }),
{
    let after = page.selection_effects(kind, before);
    if page.entries@.len() > 0 {
        assert(kind.holds(page.entries@[page.textlist.selected as int]));
        assert(after.tasks.take(before.tasks.len() as int) =~= before.tasks);
    }
}

/// What a key does on a list page, whatever the page holds: up and down move
/// the cursor one line (staying within the list), the first/last keys go to
/// the first or last entry (MoveLeft/MoveRight on both kinds, First/End on
/// video pages only), Select leaves the page and opens the entry under the
/// cursor, and other keys change nothing. The entries, the continuation and
/// the layout never change, and a move on a non-empty list that knows its
/// height redraws, shows `entries[selected]` in the preview and, on a video
/// page, publishes its link.
pub proof fn law_list_keys(
    page: ListPage,
    kind: PageKind,
    action: KeyAction,
    s: Settings,
    fx: EffectsView,
    post: ListPage,
    post_fx: EffectsView,
)
    requires
        page.wf(kind),
        page.key_applied(post, kind, action, s, fx, post_fx),
    ensures
        post.entries == page.entries,
        post.continuation == page.continuation,
        post.grid == page.grid,
        post.textlist.items == page.textlist.items,
        action is MoveUp ==> post.textlist.selected == (if page.textlist.selected > 0 {
            page.textlist.selected - 1
        } else {
            0
        }),
        action is MoveDown ==> post.textlist.selected == (if page.textlist.selected + 1
            < page.entries@.len() {
            page.textlist.selected + 1
        } else {
            page.textlist.selected as int
        }),
        action is MoveLeft || (kind is Videos && action is First) ==> post.textlist.selected == 0,
        (action is MoveRight || (kind is Videos && action is End)) && page.entries@.len() > 0
            ==> post.textlist.selected == page.entries@.len() - 1,
        action is Other || (kind is Playlists && (action is First || action is End)) ==> post == page
            && post_fx == fx,
        action is Select ==> post == page && post_fx == page.selection_effects(kind, fx),
        ({
            let moves = action is MoveUp || action is MoveDown || action is MoveLeft || action is MoveRight
                || (kind is Videos && (action is First || action is End));
            moves && page.entries@.len() > 0 && fits(page.textlist.height) ==> {
                &&& post.iteminfo.item == Some(post.entries@[post.textlist.selected as int])
                &&& post_fx.tasks == fx.tasks.push(TaskView::RenderAll)
                &&& post_fx.render_image
                &&& post_fx.message == fx.message
                &&& post_fx.envs == if kind is Videos {
                    fx.envs + seq![
                        ("hover-url"@, entry_link(kind, s, post.entries@[post.textlist.selected as int].id_or_empty())),
                    ]
                } else {
                    fx.envs
                }
            }
        }),
{
    crate::listcursor::law_cursor_moves(page.textlist);
    lemma_moves_keep_fit(page.textlist);
}

/// What a scroll message does on a list page: "scrolldown" moves the cursor
/// one line down and "scrollup" one line up (staying within the list),
/// anything else changes nothing; the result is whether the move succeeded,
/// and a successful move on a non-empty list redraws and shows
/// `entries[selected]` in the preview.
pub proof fn law_list_scroll(
    page: ListPage,
    kind: PageKind,
    text: Seq<char>,
    s: Settings,
    fx: EffectsView,
    post: ListPage,
    post_fx: EffectsView,
    updated: bool,
)
    requires
        page.wf(kind),
        page.scroll_applied(post, kind, text, s, fx, post_fx, updated),
    ensures
        post.entries == page.entries,
        post.textlist.items == page.textlist.items,
        text == "scrolldown"@ ==> post.textlist.selected == (if page.textlist.selected + 1
            < page.entries@.len() {
            page.textlist.selected + 1
        } else {
            page.textlist.selected as int
        }) && updated == (page.textlist.selected + 1 >= page.entries@.len() || fits(
            page.textlist.height,
        )),
        text == "scrollup"@ ==> post.textlist.selected == (if page.textlist.selected > 0 {
            page.textlist.selected - 1
        } else {
            0
        }) && updated == (page.textlist.selected == 0 || fits(page.textlist.height)),
        text != "scrolldown"@ && text != "scrollup"@ ==> post == page && post_fx == fx && !updated,
        updated && page.entries@.len() > 0 ==> post.iteminfo.item == Some(
            post.entries@[post.textlist.selected as int],
        ) && post_fx.tasks == fx.tasks.push(TaskView::RenderAll) && post_fx.render_image,
{
    crate::listcursor::law_cursor_moves(page.textlist);
    reveal_strlit("scrollup");
    reveal_strlit("scrolldown");
    assert("scrolldown"@.len() != "scrollup"@.len());
    assert("scrolldown"@ != "scrollup"@);
}


/// A list page is near its end exactly when more entries can be fetched, it
/// has entries, and at most five of them lie from the cursor on to the end.
pub proof fn law_near_end_within_five(page: ListPage)
    ensures
        page.near_end_spec() <==> (page.continuation is Some && page.entries@.len() > 0
            && page.entries@.len() - page.textlist.selected <= 5),
{
}

} // verus!
