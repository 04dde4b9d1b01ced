use vstd::prelude::*;
use crate::config::{KeyAction, MessageType, Settings};
use crate::effects::{Effects, EffectsView, PageKind, PrefetchRequest};
use crate::item::{
    items_of_playlists, items_of_videos, playlist_items, string_views, video_items,
    ChannelPlaylists, ChannelVideos, Item,
};
use crate::layout::{grid_chunks, grid_chunks_of, rect_intersects, rect_new, rect_spec, Area, GridLayout};
use crate::listcursor::{fits, list_limit, textlist_default, textlist_set_items, ListCursor};
use crate::listpage::{ItemInfo, ListPage};
use crate::mainpage::{command_labels, textlist_of_commands, MainPage};
use crate::prefetch::ChannelPrefetch;

verus! {

/// The colours of the appearance configuration that the page draws with.
#[derive(Clone)]
pub enum Colour {
    Text,
    TextSpecial,
    TextSecondary,
    Outline,
    OutlineHover,
    OutlineSelected,
    OutlineSecondary,
}

/// The colours of a page's list and grid.
#[derive(Clone)]
pub struct ListAppearance {
    /// The lines of the list.
    pub text: Colour,
    /// The line under the cursor.
    pub selected_text: Colour,
    /// The box of the cursor.
    pub cursor: Colour,
    /// The borders of the grid.
    pub grid_border: Colour,
}

/// The colours of a page that is selected or hovered over: a selected page
/// highlights its cursor and grid; otherwise the grid shows the hover and
/// the cursor is drawn in secondary colours.
pub open spec fn list_appearance(hover: bool, selected: bool) -> ListAppearance {
    if selected {
        ListAppearance {
            text: Colour::Text,
            selected_text: Colour::TextSpecial,
            cursor: Colour::OutlineHover,
            grid_border: Colour::OutlineSelected,
        }
    } else {
        ListAppearance {
            text: Colour::Text,
            selected_text: Colour::TextSecondary,
            cursor: Colour::OutlineSecondary,
            grid_border: if hover {
                Colour::OutlineHover
            } else {
                Colour::Outline
            },
        }
    }
}

/// The border colour of the blank page: hover wins over selection.
pub open spec fn border_colour(hover: bool, selected: bool) -> Colour {
    if hover {
        Colour::OutlineHover
    } else if selected {
        Colour::OutlineSelected
    } else {
        Colour::Outline
    }
}

/// The colours of a page's list and grid.
pub fn list_appearance_for(hover: bool, selected: bool) -> (r: ListAppearance)
    ensures
        r == list_appearance(hover, selected),
{
    if selected {
        ListAppearance {
            text: Colour::Text,
            selected_text: Colour::TextSpecial,
            cursor: Colour::OutlineHover,
            grid_border: Colour::OutlineSelected,
        }
    } else {
        ListAppearance {
            text: Colour::Text,
            selected_text: Colour::TextSecondary,
            cursor: Colour::OutlineSecondary,
            grid_border: if hover {
                Colour::OutlineHover
            } else {
                Colour::Outline
            },
        }
    }
}

/// The border colour of the blank page.
pub fn border_colour_for(hover: bool, selected: bool) -> (r: Colour)
    ensures
        r == border_colour(hover, selected),
{
    if hover {
        Colour::OutlineHover
    } else if selected {
        Colour::OutlineSelected
    } else {
        Colour::Outline
    }
}

/// How to draw the page.
pub enum RenderPlan {
    /// Draw nothing (a popup is being drawn).
    Skip,
    /// Draw a bordered blank block over the whole area.
    Block { border: Colour },
    /// Draw the grid over the whole area, the list and the preview in their
    /// cells.
    Panes { appearance: ListAppearance, list_area: Area, info_area: Area },
}

/// The pages that a channel has, including the blank page shown while
/// loading.
#[derive(Clone)]
pub enum ChannelDisplay {
    /// A blank page; loading turns it into one of the others.
    Blank,
    /// The main page of the channel.
    Main(MainPage),
    /// The channel's latest videos.
    Videos(ListPage),
    /// The channel's playlists.
    Playlists(ListPage),
}

impl Default for ChannelDisplay {
    /// The blank page.
    fn default() -> (r: ChannelDisplay)
        ensures
            r is Blank,
    {
        ChannelDisplay::Blank
    }
}

impl ChannelDisplay {
    /// The page is consistent.
    pub open spec fn wf(self) -> bool {
        match self {
            ChannelDisplay::Blank => true,
            ChannelDisplay::Main(p) => p.wf(),
            ChannelDisplay::Videos(p) => p.wf(PageKind::Videos),
            ChannelDisplay::Playlists(p) => p.wf(PageKind::Playlists),
        }
    }

    /// The page is well shaped; its cursor may be past the end of a list
    /// that was empty when a fetched page was appended to it.
    pub open spec fn shaped(self) -> bool {
        match self {
            ChannelDisplay::Blank => true,
            ChannelDisplay::Main(p) => p.wf(),
            ChannelDisplay::Videos(p) => p.shaped(PageKind::Videos),
            ChannelDisplay::Playlists(p) => p.shaped(PageKind::Playlists),
        }
    }

    /// A list page shows an item in its preview whenever it has entries.
    pub open spec fn preview_ready(self) -> bool {
        match self {
            ChannelDisplay::Videos(p) => p.preview_ready(),
            ChannelDisplay::Playlists(p) => p.preview_ready(),
            _ => true,
        }
    }

    /// A list page without entries.
    pub open spec fn empty_list(self) -> bool {
        match self {
            ChannelDisplay::Videos(p) => p.entries@.len() == 0,
            ChannelDisplay::Playlists(p) => p.entries@.len() == 0,
            _ => false,
        }
    }

    /// The list of the page.
    pub open spec fn list(self) -> ListCursor {
        match self {
            ChannelDisplay::Main(p) => p.textlist,
            ChannelDisplay::Videos(p) => p.textlist,
            ChannelDisplay::Playlists(p) => p.textlist,
            ChannelDisplay::Blank => arbitrary(),
        }
    }

    /// The grid of the page.
    pub open spec fn grid(self) -> GridLayout {
        match self {
            ChannelDisplay::Main(p) => p.grid,
            ChannelDisplay::Videos(p) => p.grid,
            ChannelDisplay::Playlists(p) => p.grid,
            ChannelDisplay::Blank => arbitrary(),
        }
    }

    /// The page with its list cursor replaced.
    pub open spec fn with_list(self, c: ListCursor) -> ChannelDisplay {
        match self {
            ChannelDisplay::Main(p) => ChannelDisplay::Main(p.with_cursor(c)),
            ChannelDisplay::Videos(p) => ChannelDisplay::Videos(p.with_cursor(c)),
            ChannelDisplay::Playlists(p) => ChannelDisplay::Playlists(p.with_cursor(c)),
            ChannelDisplay::Blank => self,
        }
    }

    /// The page once its preview follows the cursor.
    pub open spec fn refreshed(self) -> ChannelDisplay {
        match self {
            ChannelDisplay::Videos(p) => ChannelDisplay::Videos(p.refreshed_preview()),
            ChannelDisplay::Playlists(p) => ChannelDisplay::Playlists(p.refreshed_preview()),
            _ => self,
        }
    }

    /// More entries can be fetched and the cursor is close to the end.
    pub open spec fn near_end_spec(self) -> bool {
        match self {
            ChannelDisplay::Videos(p) => p.near_end_spec(),
            ChannelDisplay::Playlists(p) => p.near_end_spec(),
            _ => false,
        }
    }

    /// The environment entries that loading the page sets.
    pub open spec fn load_envs_view(self, s: Settings) -> Seq<(Seq<char>, Seq<char>)> {
        match self {
            ChannelDisplay::Main(p) => p.load_envs_view(s),
            _ => seq![],
        }
    }

    /// The environment entries that a change of the cursor sets.
    pub open spec fn item_envs_view(self, s: Settings) -> Seq<(Seq<char>, Seq<char>)> {
        match self {
            ChannelDisplay::Videos(p) => p.hover_envs_view(PageKind::Videos, s),
            ChannelDisplay::Playlists(p) => p.hover_envs_view(PageKind::Playlists, s),
            _ => seq![],
        }
    }

    /// What selecting the entry under the cursor asks for; a command has the
    /// placeholders of the environment entries `envs` replaced.
    pub open spec fn selection_effects(self, envs: Seq<(Seq<char>, Seq<char>)>, before: EffectsView) -> EffectsView {
        match self {
            ChannelDisplay::Blank => before,
            ChannelDisplay::Main(p) => EffectsView {
                tasks: before.tasks.push(p.selected_command(envs)),
                ..before
            },
            ChannelDisplay::Videos(p) => p.selection_effects(PageKind::Videos, before),
            ChannelDisplay::Playlists(p) => p.selection_effects(PageKind::Playlists, before),
        }
    }

    /// Selecting the entry under the cursor can be done: a main page has a
    /// command under its cursor.
    pub open spec fn can_select(self) -> bool {
        self matches ChannelDisplay::Main(p) ==> p.commands@.len() > 0
    }

    /// The blank page.
    pub fn new() -> (r: ChannelDisplay)
        ensures
            r is Blank,
    {
        ChannelDisplay::Blank
    }

    /// A text list of the labels of the commands, cursor on the first.
    pub fn new_textlist_with_map(commands: Vec<(String, String)>) -> (r: ListCursor)
        ensures
            string_views(r.items@) == command_labels(commands@),
            r.selected == 0,
            r.scroll == 0,
            r.height is None,
            r.ascii_only == false,
    {
        textlist_of_commands(&commands)
    }

    /// Whether the page can be selected: every page but the blank one.
    pub fn selectable(&self) -> (r: bool)
        ensures
            r == !(*self is Blank),
    {
        !(match self {
            ChannelDisplay::Blank => true,
            _ => false,
        })
    }

    /// Selects the page; succeeds when the page can be selected.
    pub fn select(&self) -> (r: bool)
        ensures
            r == !(*self is Blank),
    {
        self.selectable()
    }

    /// Whether the cursor is close enough to the end of the list for the
    /// next page to be fetched.
    pub fn near_end(&self) -> (r: bool)
        requires
            self.wf(),
        ensures
            r == self.near_end_spec(),
    {
        match self {
            ChannelDisplay::Videos(p) => p.near_end(),
            ChannelDisplay::Playlists(p) => p.near_end(),
            _ => false,
        }
    }

    /// The environment entries that loading the page sets: on the main page
    /// the channel's link, identifier and name.
    pub fn inflate_load(&self, settings: &Settings) -> (r: Vec<(String, String)>)
        requires
            self.wf(),
        ensures
            crate::effects::env_views(r@) == self.load_envs_view(*settings),
    {
        match self {
            ChannelDisplay::Main(p) => p.load_envs(settings),
            _ => {
                let r: Vec<(String, String)> = Vec::new();
                assert(crate::effects::env_views(r@) =~= seq![]);
                r
            },
        }
    }

    /// The environment entries that a change of the cursor sets: on a list
    /// page the link of the entry under the cursor.
    pub fn inflate_item_update(&self, settings: &Settings) -> (r: Vec<(String, String)>)
        requires
            self.wf(),
        ensures
            crate::effects::env_views(r@) == self.item_envs_view(*settings),
    {
        match self {
            ChannelDisplay::Videos(p) => p.hover_envs(PageKind::Videos, settings),
            ChannelDisplay::Playlists(p) => p.hover_envs(PageKind::Playlists, settings),
            _ => {
                let r: Vec<(String, String)> = Vec::new();
                assert(crate::effects::env_views(r@) =~= seq![]);
                r
            },
        }
    }

    /// The colours of the page's list and grid; the blank page has none.
    pub fn update_appearance(&self, hover: bool, selected: bool) -> (r: Option<ListAppearance>)
        ensures
            r == (if *self is Blank {
                None
            } else {
                Some(list_appearance(hover, selected))
            }),
    {
        match self {
            ChannelDisplay::Blank => None,
            _ => Some(list_appearance_for(hover, selected)),
        }
    }

    /// Opens the entry under the cursor: runs the command of the main page,
    /// opens the video or playlist of a list page, or says that an empty
    /// list has nothing to open.
    pub fn select_at_cursor(&self, envs: &Vec<(String, String)>, fx: &mut Effects)
        requires
            self.wf(),
            self.can_select(),
        ensures
            final(fx)@ == self.selection_effects(crate::effects::env_views(envs@), old(fx)@),
    {
        match self {
            ChannelDisplay::Blank => {},
            ChannelDisplay::Main(p) => p.select_at_cursor(envs, fx),
            ChannelDisplay::Videos(p) => p.select_at_cursor(PageKind::Videos, fx),
            ChannelDisplay::Playlists(p) => p.select_at_cursor(PageKind::Playlists, fx),
        }
    }

    /// Makes the preview of a list page follow its cursor.
    pub fn update(&mut self)
        requires
            old(self).wf(),
            old(self).preview_ready(),
        ensures
            *final(self) == old(self).refreshed(),
            final(self).wf(),
            final(self).preview_ready(),
    {
        match self {
            ChannelDisplay::Videos(p) => p.refresh_preview(),
            ChannelDisplay::Playlists(p) => p.refresh_preview(),
            _ => {},
        }
    }

    /// Lays the page out on `area` for drawing; the list learns the height
    /// of its cell. Nothing is drawn while a popup is.
    pub fn render(&mut self, area: Area, popup_render: bool, hover: bool, selected: bool) -> (plan: RenderPlan)
        requires
            old(self).wf(),
            !popup_render && !(*old(self) is Blank) ==> area.valid() && area.width >= 1 && old(
                self,
            ).grid().splits(area),
        ensures
            final(self).wf(),
            old(self).preview_ready() ==> final(self).preview_ready(),
            popup_render ==> plan is Skip && *final(self) == *old(self),
            !popup_render && *old(self) is Blank ==> plan == (RenderPlan::Block {
                border: border_colour(hover, selected),
            }) && *final(self) == *old(self),
            !popup_render && !(*old(self) is Blank) ==> ({
                let cells = grid_chunks_of(old(self).grid().columns@, old(self).grid().rows@, area)[0];
                let (list_cell, info_cell) = if *old(self) is Main {
                    (cells[1], cells[0])
                } else {
                    (cells[0], cells[1])
                };
                &&& plan == (RenderPlan::Panes {
                    appearance: list_appearance(hover, selected),
                    list_area: list_cell,
                    info_area: info_cell,
                })
                &&& *final(self) == old(self).with_list(
                    ListCursor { height: Some(list_cell.height), ..old(self).list() },
                )
            }),
    {
        if popup_render {
            return RenderPlan::Skip;
        }
        let appearance = list_appearance_for(hover, selected);
        match self {
            ChannelDisplay::Blank => RenderPlan::Block { border: border_colour_for(hover, selected) },
            ChannelDisplay::Main(p) => match grid_chunks(&p.grid, area) {
                Ok(cells) => {
                    let info = cells[0][0];
                    let list = cells[0][1];
                    p.textlist.set_height(list.height);
                    RenderPlan::Panes { appearance, list_area: list, info_area: info }
                },
                Err(_) => RenderPlan::Skip,
            },
            ChannelDisplay::Videos(p) => match grid_chunks(&p.grid, area) {
                Ok(cells) => {
                    let list = cells[0][0];
                    let info = cells[0][1];
                    p.textlist.set_height(list.height);
                    RenderPlan::Panes { appearance, list_area: list, info_area: info }
                },
                Err(_) => RenderPlan::Skip,
            },
            ChannelDisplay::Playlists(p) => match grid_chunks(&p.grid, area) {
                Ok(cells) => {
                    let list = cells[0][0];
                    let info = cells[0][1];
                    p.textlist.set_height(list.height);
                    RenderPlan::Panes { appearance, list_area: list, info_area: info }
                },
                Err(_) => RenderPlan::Skip,
            },
        }
    }
}


/// The store after asking for the next page of `kind` of channel page
/// `page_id`, and the fetch to start, if any: nothing is asked when there is
/// no continuation, and the slot decides as `PrefetchSlot::claimed` says.
pub open spec fn claim_next(
    store: ChannelPrefetch,
    kind: PageKind,
    page_id: String,
    continuation: Option<String>,
) -> (ChannelPrefetch, Option<PrefetchRequest>) {
    match continuation {
        None => (store, None),
        Some(ctoken) => match kind {
            PageKind::Videos => {
                let (slot, start) = store.videos.claimed(page_id);
                (
                    ChannelPrefetch { videos: slot, ..store },
                    if start {
                        Some(PrefetchRequest { kind, page_id, ctoken })
                    } else {
                        None
                    },
                )
            },
            PageKind::Playlists => {
                let (slot, start) = store.playlists.claimed(page_id);
                (
                    ChannelPrefetch { playlists: slot, ..store },
                    if start {
                        Some(PrefetchRequest { kind, page_id, ctoken })
                    } else {
                        None
                    },
                )
            },
        },
    }
}

/// The effects once the fetch `req`, if any, was asked for.
pub open spec fn requested(before: EffectsView, req: Option<PrefetchRequest>) -> EffectsView {
    match req {
        Some(r) => EffectsView { prefetches: before.prefetches.push(r), ..before },
        None => before,
    }
}

/// The effects once the images of `new` entries were asked for, which
/// happens when thumbnails are shown and there are new entries.
pub open spec fn downloaded(before: EffectsView, new: Seq<Item>, display_images: bool) -> EffectsView {
    if display_images && new.len() > 0 {
        EffectsView { downloads: before.downloads + new, ..before }
    } else {
        before
    }
}

/// Asks for the next page of `kind` of `page_id` when there is a
/// continuation, and records the fetch to start.
fn claim_next_page(
    store: &mut ChannelPrefetch,
    kind: PageKind,
    page_id: &String,
    continuation: &Option<String>,
    fx: &mut Effects,
)
    ensures
        ({
            let (s, req) = claim_next(*old(store), kind, *page_id, *continuation);
            &&& *final(store) == s
            &&& final(fx)@ == requested(old(fx)@, req)
        }),
{
    match continuation {
        Some(ctoken) => {
            let start = match kind {
                PageKind::Videos => crate::prefetch::claim_videos_prefetch(store, page_id),
                PageKind::Playlists => crate::prefetch::claim_playlists_prefetch(store, page_id),
            };
            if start {
                fx.prefetch(PrefetchRequest { kind, page_id: page_id.clone(), ctoken: ctoken.clone() });
            }
        },
        None => {},
    }
}

/// A copy of an optional string.
fn duplicate_option(o: &Option<String>) -> (r: Option<String>)
    ensures
        r == *o,
{
    match o {
        Some(t) => Some(t.clone()),
        None => None,
    }
}

impl ChannelDisplay {
    /// The kind of a list page.
    pub open spec fn kind(self) -> PageKind {
        match self {
            ChannelDisplay::Playlists(_) => PageKind::Playlists,
            _ => PageKind::Videos,
        }
    }

    /// The continuation of a list page.
    pub open spec fn continuation(self) -> Option<String> {
        match self {
            ChannelDisplay::Videos(p) => p.continuation,
            ChannelDisplay::Playlists(p) => p.continuation,
            _ => None,
        }
    }

    /// The store and the fetch to start once the page, if near the end of
    /// its list, asked for its next page.
    pub open spec fn prefetch_claim(self, store: ChannelPrefetch, page_id: String) -> (ChannelPrefetch, Option<PrefetchRequest>) {
        if self.near_end_spec() {
            claim_next(store, self.kind(), page_id, self.continuation())
        } else {
            (store, None)
        }
    }

    /// Appending a waiting page keeps lists within their bounds. A list
    /// longer than `list_limit()` entries would take more than `isize::MAX`
    /// bytes, on which growing the `Vec` panics, so this leaves out only
    /// inputs that the allocation refuses.
    pub open spec fn room_for(self, store: ChannelPrefetch) -> bool {
        match self {
            ChannelDisplay::Videos(p) => match store.videos.ready {
                Some(r) => match r.result {
                    Ok(next) => p.entries@.len() + next.videos@.len() <= list_limit(),
                    Err(_) => true,
                },
                None => true,
            },
            ChannelDisplay::Playlists(p) => match store.playlists.ready {
                Some(r) => match r.result {
                    Ok(next) => p.entries@.len() + next.playlists@.len() <= list_limit(),
                    Err(_) => true,
                },
                None => true,
            },
            _ => true,
        }
    }

    /// A page for this channel page waits in the store, fetched successfully.
    pub open spec fn prefetch_taken(self, store: ChannelPrefetch, page_id: Seq<char>) -> bool {
        match self {
            ChannelDisplay::Videos(_) => store.videos.taken(page_id).1 matches Some(Ok(_)),
            ChannelDisplay::Playlists(_) => store.playlists.taken(page_id).1 matches Some(Ok(_)),
            _ => false,
        }
    }

    /// How taking the waiting page changes page, store and effects: nothing
    /// is taken for another channel page; a failed fetch shows its error; a
    /// fetched page is appended, its images downloaded when thumbnails are
    /// shown, and the page after it is asked for.
    pub open spec fn prefetch_applied(
        self,
        post: ChannelDisplay,
        store: ChannelPrefetch,
        post_store: ChannelPrefetch,
        page_id: String,
        display_images: bool,
        fx: EffectsView,
        post_fx: EffectsView,
    ) -> bool {
        match self {
            ChannelDisplay::Videos(p) => {
                let (slot, got) = store.videos.taken(page_id@);
                let store1 = ChannelPrefetch { videos: slot, ..store };
                match got {
                    None => post == self && post_store == store1 && post_fx == fx,
                    Some(Err(e)) => post == self && post_store == store1 && post_fx == (EffectsView {
                        message: Some(e@),
                        ..fx
                    }),
                    Some(Ok(next)) => {
                        let new = video_items(next.videos@);
                        let (store2, req) = claim_next(store1, PageKind::Videos, page_id, next.continuation);
                        &&& post matches ChannelDisplay::Videos(q) && p.absorbed(q, new, next.continuation)
                        &&& post_store == store2
                        &&& post_fx == requested(downloaded(fx, new, display_images), req)
                    },
                }
            },
            ChannelDisplay::Playlists(p) => {
                let (slot, got) = store.playlists.taken(page_id@);
                let store1 = ChannelPrefetch { playlists: slot, ..store };
                match got {
                    None => post == self && post_store == store1 && post_fx == fx,
                    Some(Err(e)) => post == self && post_store == store1 && post_fx == (EffectsView {
                        message: Some(e@),
                        ..fx
                    }),
                    Some(Ok(next)) => {
                        let new = playlist_items(next.playlists@);
                        let (store2, req) = claim_next(
                            store1,
                            PageKind::Playlists,
                            page_id,
                            next.continuation,
                        );
                        &&& post matches ChannelDisplay::Playlists(q) && p.absorbed(q, new, next.continuation)
                        &&& post_store == store2
                        &&& post_fx == requested(downloaded(fx, new, display_images), req)
                    },
                }
            },
            _ => post == self && post_store == store && post_fx == fx,
        }
    }

    /// How keeping the list paginated changes page, store and effects: when
    /// the cursor is near the end, the next page is asked for and a waiting
    /// page is taken.
    pub open spec fn paginated(
        self,
        post: ChannelDisplay,
        store: ChannelPrefetch,
        post_store: ChannelPrefetch,
        page_id: String,
        display_images: bool,
        fx: EffectsView,
        post_fx: EffectsView,
    ) -> bool {
        if self.near_end_spec() {
            let (store1, req) = self.prefetch_claim(store, page_id);
            self.prefetch_applied(post, store1, post_store, page_id, display_images, requested(fx, req), post_fx)
        } else {
            post == self && post_store == store && post_fx == fx
        }
    }

    /// Asks for the next page of the list when the cursor is near its end.
    pub fn ensure_prefetch(&self, store: &mut ChannelPrefetch, page_id: &String, fx: &mut Effects)
        requires
            self.wf(),
        ensures
            ({
                let (s, req) = self.prefetch_claim(*old(store), *page_id);
                &&& *final(store) == s
                &&& final(fx)@ == requested(old(fx)@, req)
            }),
    {
        if !self.near_end() {
            return ;
        }
        match self {
            ChannelDisplay::Videos(p) => claim_next_page(store, PageKind::Videos, page_id, &p.continuation, fx),
            ChannelDisplay::Playlists(p) => claim_next_page(
                store,
                PageKind::Playlists,
                page_id,
                &p.continuation,
                fx,
            ),
            _ => {},
        }
    }

    /// Takes the page fetched for `page_id`, if it waits: appends its
    /// entries and asks for the page after it, or shows the error of a
    /// failed fetch; says whether entries were taken.
    pub fn apply_prefetch(
        &mut self,
        store: &mut ChannelPrefetch,
        page_id: &String,
        display_images: bool,
        fx: &mut Effects,
    ) -> (applied: bool)
        requires
            old(self).wf(),
            old(self).room_for(*old(store)),
        ensures
            final(self).shaped(),
            !old(self).empty_list() ==> final(self).wf(),
            old(self).preview_ready() && !old(self).empty_list() ==> final(self).preview_ready(),
            applied == old(self).prefetch_taken(*old(store), page_id@),
            old(self).prefetch_applied(
                *final(self),
                *old(store),
                *final(store),
                *page_id,
                display_images,
                old(fx)@,
                final(fx)@,
            ),
    {
        match self {
            ChannelDisplay::Videos(p) => {
                let taken = crate::prefetch::take_videos_prefetch(store, page_id);
                match taken {
                    None => false,
                    Some(Err(e)) => {
                        fx.set_message(e);
                        false
                    },
                    Some(Ok(next)) => {
                        let new_items = items_of_videos(&next.videos);
                        proof {
                            assert forall|i: int| 0 <= i < new_items@.len() implies PageKind::Videos.holds(
                                #[trigger] new_items@[i],
                            ) by {}
                        }
                        let continuation = next.continuation;
                        p.absorb(
                            PageKind::Videos,
                            new_items,
                            duplicate_option(&continuation),
                            display_images,
                            fx,
                        );
                        claim_next_page(store, PageKind::Videos, page_id, &continuation, fx);
                        true
                    },
                }
            },
            ChannelDisplay::Playlists(p) => {
                let taken = crate::prefetch::take_playlists_prefetch(store, page_id);
                match taken {
                    None => false,
                    Some(Err(e)) => {
                        fx.set_message(e);
                        false
                    },
                    Some(Ok(next)) => {
                        let new_items = items_of_playlists(&next.playlists);
                        proof {
                            assert forall|i: int| 0 <= i < new_items@.len() implies PageKind::Playlists.holds(
                                #[trigger] new_items@[i],
                            ) by {}
                        }
                        let continuation = next.continuation;
                        p.absorb(
                            PageKind::Playlists,
                            new_items,
                            duplicate_option(&continuation),
                            display_images,
                            fx,
                        );
                        claim_next_page(store, PageKind::Playlists, page_id, &continuation, fx);
                        true
                    },
                }
            },
            _ => false,
        }
    }

    /// Keeps the list paginated: near the end of the list, asks for the
    /// next page and takes a page that waits.
    pub fn update_pagination(
        &mut self,
        store: &mut ChannelPrefetch,
        page_id: &String,
        display_images: bool,
        fx: &mut Effects,
    )
        requires
            old(self).wf(),
            old(self).room_for(*old(store)),
        ensures
            final(self).wf(),
            old(self).preview_ready() ==> final(self).preview_ready(),
            old(self).paginated(
                *final(self),
                *old(store),
                *final(store),
                *page_id,
                display_images,
                old(fx)@,
                final(fx)@,
            ),
    {
        if !self.near_end() {
            return ;
        }
        self.ensure_prefetch(store, page_id, fx);
        self.apply_prefetch(store, page_id, display_images, fx);
    }
}


/// The data that loading a page brings: the channel and its commands for the
/// main page, or the first page of videos or playlists.
pub enum PageData {
    Main { channel: Item, commands: Vec<(String, String)> },
    Videos(ChannelVideos),
    Playlists(ChannelPlaylists),
}

/// The text of a message's "type" entry, if it is text.
pub open spec fn message_text(msg: MessageType) -> Option<Seq<char>> {
    match msg {
        MessageType::Text(t) => Some(t@),
        _ => None,
    }
}

/// Where a click fell.
enum ClickOutcome {
    /// Outside the list's cell.
    Miss,
    /// On the cursor box.
    Hit,
    /// Elsewhere in the list, which moved its cursor.
    Moved,
}

/// The cell of the grid that holds the list: the second on the main page,
/// the first on the list pages.
pub open spec fn list_cell(grid: GridLayout, frame: Area, index: int) -> Area {
    grid_chunks_of(grid.columns@, grid.rows@, frame)[0][index]
}

/// Handles a click at (`x`, `y`) on a list drawn in cell `index` of the grid
/// laid over `frame`.
fn click_list(c: &mut ListCursor, grid: &GridLayout, frame: Area, index: usize, x: u16, y: u16) -> (outcome: ClickOutcome)
    requires
        grid.wf(),
        index < grid.columns@.len(),
        frame.valid(),
        frame.width >= 1,
        grid.splits(frame),
        cursor_fits_for_click(*old(c)),
    ensures
        ({
            let chunk = list_cell(*grid, frame, index as int);
            if !chunk.meets(rect_spec(x, y, 1, 1)) {
                outcome is Miss && *final(c) == *old(c)
            } else {
                let row = (y - chunk.y) + old(c).scroll;
                if old(c).hits_cursor(row) {
                    outcome is Hit && *final(c) == *old(c)
                } else {
                    outcome is Moved && *final(c) == old(c).clicked(row)
                }
            }
        }),
{
    let cells = match grid_chunks(grid, frame) {
        Ok(cells) => cells,
        Err(_) => {
            return ClickOutcome::Miss;
        },
    };
    let chunk = cells[0][index];
    assert(chunk == list_cell(*grid, frame, index as int));
    if !rect_intersects(chunk, rect_new(x, y, 1, 1)) {
        return ClickOutcome::Miss;
    }
    let row = (y - chunk.y) as usize + c.scroll;
    if c.click_row(row) {
        ClickOutcome::Hit
    } else {
        ClickOutcome::Moved
    }
}

/// Where a click at (`x`, `y`) falls on a list drawn in cell `index` of the
/// grid laid over `frame`: whether it lands in the cell, and whether it
/// lands on the cursor box.
fn click_probe(c: &ListCursor, grid: &GridLayout, frame: Area, index: usize, x: u16, y: u16) -> (r: (bool, bool))
    requires
        grid.wf(),
        index < grid.columns@.len(),
        frame.valid(),
        frame.width >= 1,
        grid.splits(frame),
        cursor_fits_for_click(*c),
    ensures
        ({
            let chunk = list_cell(*grid, frame, index as int);
            &&& r.0 == chunk.meets(rect_spec(x, y, 1, 1))
            &&& r.1 == (chunk.meets(rect_spec(x, y, 1, 1)) && c.hits_cursor((y - chunk.y) + c.scroll))
        }),
{
    let cells = match grid_chunks(grid, frame) {
        Ok(cells) => cells,
        Err(_) => {
            return (false, false);
        },
    };
    let chunk = cells[0][index];
    assert(chunk == list_cell(*grid, frame, index as int));
    if !rect_intersects(chunk, rect_new(x, y, 1, 1)) {
        return (false, false);
    }
    let row = (y - chunk.y) as usize + c.scroll;
    (true, row == c.selected || row == c.selected + 1 || row == c.selected + 2)
}

/// A list whose cursor and scroll leave room for a click anywhere on screen.
pub open spec fn cursor_fits_for_click(c: ListCursor) -> bool {
    &&& crate::listcursor::cursor_fits(c)
    &&& c.scroll + 65536 <= list_limit()
}

impl ChannelDisplay {
    /// The key can be handled: on a main page, the keys that need a command
    /// under the cursor come only when there are commands.
    pub open spec fn key_allowed(self, action: KeyAction) -> bool {
        match self {
            ChannelDisplay::Main(p) => MainPage::key_needs_command(action) ==> p.commands@.len() > 0,
            _ => true,
        }
    }

    /// How a key changes the page and what it asks for.
    pub open spec fn key_applied(
        self,
        post: ChannelDisplay,
        action: KeyAction,
        s: Settings,
        envs: Seq<(Seq<char>, Seq<char>)>,
        fx: EffectsView,
        post_fx: EffectsView,
    ) -> bool {
        match self {
            ChannelDisplay::Blank => post == self && post_fx == fx,
            ChannelDisplay::Main(p) => post matches ChannelDisplay::Main(q) && p.key_applied(
                q,
                action,
                envs,
                fx,
                post_fx,
            ),
            ChannelDisplay::Videos(p) => post matches ChannelDisplay::Videos(q) && p.key_applied(
                q,
                PageKind::Videos,
                action,
                s,
                fx,
                post_fx,
            ),
            ChannelDisplay::Playlists(p) => post matches ChannelDisplay::Playlists(q) && p.key_applied(
                q,
                PageKind::Playlists,
                action,
                s,
                fx,
                post_fx,
            ),
        }
    }

    /// How a scroll message changes the page, what it asks for before the
    /// link is set, and whether the cursor moved successfully.
    pub open spec fn scroll_step(
        self,
        post: ChannelDisplay,
        text: Option<Seq<char>>,
        s: Settings,
        fx: EffectsView,
        post_fx: EffectsView,
        updated: bool,
    ) -> bool {
        match text {
            None => post == self && post_fx == fx && !updated,
            Some(t) => match self {
                ChannelDisplay::Blank => post == self && post_fx == fx && !updated,
                ChannelDisplay::Main(p) => {
                    let (c, ok) = crate::listpage::scrolled_by(p.textlist, t);
                    &&& post == ChannelDisplay::Main(p.with_cursor(c))
                    &&& post_fx == fx
                    &&& updated == ok
                },
                ChannelDisplay::Videos(p) => post matches ChannelDisplay::Videos(q) && p.scroll_applied(
                    q,
                    PageKind::Videos,
                    t,
                    s,
                    fx,
                    post_fx,
                    updated,
                ),
                ChannelDisplay::Playlists(p) => post matches ChannelDisplay::Playlists(q)
                    && p.scroll_applied(q, PageKind::Playlists, t, s, fx, post_fx, updated),
            },
        }
    }

    /// The mouse can be handled: the cursor and scroll leave room for a
    /// click, the last frame (if known) is one that the grid splits, a click
    /// on the cursor of a main page finds a command there, and a click that
    /// moves the cursor of a list finds an item in the preview to compare.
    pub open spec fn mouse_allowed(self, prev_frame: Option<Area>, x: u16, y: u16) -> bool {
        &&& self.mouse_frame_ok(prev_frame)
        &&& self.can_select() || !self.click_hits(prev_frame, x, y)
        &&& self.preview_ready() || !self.click_moves(prev_frame, x, y)
    }

    /// A click at (`x`, `y`) lands in the cell of the page's list.
    pub open spec fn click_lands(self, prev_frame: Option<Area>, x: u16, y: u16) -> bool {
        &&& !(self is Blank)
        &&& prev_frame matches Some(frame) && list_cell(
            self.grid(),
            frame,
            if self is Main {
                1
            } else {
                0
            },
        ).meets(rect_spec(x, y, 1, 1))
    }

    /// A click at (`x`, `y`) lands in the list but off the cursor box, and so
    /// moves the cursor and makes the preview follow it.
    pub open spec fn click_moves(self, prev_frame: Option<Area>, x: u16, y: u16) -> bool {
        self.click_lands(prev_frame, x, y) && !self.click_hits(prev_frame, x, y)
    }

    /// The cursor and scroll leave room for a click, and the last frame (if
    /// known) is one that the grid splits.
    pub open spec fn mouse_frame_ok(self, prev_frame: Option<Area>) -> bool {
        !(self is Blank) ==> {
            &&& cursor_fits_for_click(self.list())
            &&& prev_frame matches Some(f) ==> f.valid() && f.width >= 1 && self.grid().splits(f)
        }
    }

    /// A click at (`x`, `y`) falls on the cursor box of the page's list.
    pub open spec fn click_hits(self, prev_frame: Option<Area>, x: u16, y: u16) -> bool {
        &&& !(self is Blank)
        &&& prev_frame matches Some(frame) && {
            let chunk = list_cell(self.grid(), frame, if self is Main { 1 } else { 0 });
            &&& chunk.meets(rect_spec(x, y, 1, 1))
            &&& self.list().hits_cursor((y - chunk.y) + self.list().scroll)
        }
    }

    /// How a click at (`x`, `y`) changes the page and what it asks for: a
    /// click on the cursor box selects; a click elsewhere in the list moves
    /// the cursor, updates the preview, draws the thumbnail and sets the
    /// link; anything else is not handled.
    pub open spec fn mouse_applied(
        self,
        post: ChannelDisplay,
        prev_frame: Option<Area>,
        x: u16,
        y: u16,
        s: Settings,
        envs: Seq<(Seq<char>, Seq<char>)>,
        fx: EffectsView,
        post_fx: EffectsView,
        handled: bool,
    ) -> bool {
        if self is Blank {
            !handled && post == self && post_fx == fx
        } else {
            match prev_frame {
                None => !handled && post == self && post_fx == fx,
                Some(frame) => {
                    let chunk = list_cell(self.grid(), frame, if self is Main { 1 } else { 0 });
                    if !chunk.meets(rect_spec(x, y, 1, 1)) {
                        !handled && post == self && post_fx == fx
                    } else {
                        let row = (y - chunk.y) + self.list().scroll;
                        if self.list().hits_cursor(row) {
                            handled && post == self && post_fx == self.selection_effects(envs, fx)
                        } else {
                            &&& handled
                            &&& post == self.with_list(self.list().clicked(row)).refreshed()
                            &&& post_fx == (EffectsView {
                                render_image: true,
                                envs: fx.envs + post.item_envs_view(s),
                                ..fx
                            })
                        }
                    }
                },
            }
        }
    }

    /// Handles a key: keeps the list paginated, then, for a bound key,
    /// moves the cursor or opens the entry under it; a command that is run
    /// has the placeholders of the environment entries `envs` replaced.
    pub fn key_event(
        &mut self,
        store: &mut ChannelPrefetch,
        page_id: &String,
        settings: &Settings,
        envs: &Vec<(String, String)>,
        action: Option<KeyAction>,
        fx: &mut Effects,
    )
        requires
            old(self).wf(),
            old(self).room_for(*old(store)),
            action matches Some(a) ==> old(self).key_allowed(a),
        ensures
            final(self).wf(),
            old(self).preview_ready() ==> final(self).preview_ready(),
            exists|mid: ChannelDisplay, mid_fx: EffectsView|
                {
                    &&& #[trigger] old(self).paginated(
                        mid,
                        *old(store),
                        *final(store),
                        *page_id,
                        settings.display_images,
                        old(fx)@,
                        mid_fx,
                    )
                    &&& match action {
                        None => *final(self) == mid && final(fx)@ == mid_fx,
                        Some(a) => mid.key_applied(
                            *final(self),
                            a,
                            *settings,
                            crate::effects::env_views(envs@),
                            mid_fx,
                            final(fx)@,
                        ),
                    }
                },
    {
        self.update_pagination(store, page_id, settings.display_images, fx);
        let ghost mid = *self;
        let ghost mid_fx = fx@;
        let action = match action {
            Some(a) => a,
            None => {
                assert(old(self).paginated(mid, *old(store), *store, *page_id, settings.display_images, old(fx)@, mid_fx));
                return ;
            },
        };
        match self {
            ChannelDisplay::Blank => {},
            ChannelDisplay::Main(p) => p.apply_key(action, envs, fx),
            ChannelDisplay::Videos(p) => p.apply_key(PageKind::Videos, action, settings, fx),
            ChannelDisplay::Playlists(p) => p.apply_key(PageKind::Playlists, action, settings, fx),
        }
        assert(old(self).paginated(mid, *old(store), *store, *page_id, settings.display_images, old(fx)@, mid_fx));
    }

    /// Handles a framework message: without a "type" entry it is not
    /// handled; otherwise the list is kept paginated, "scrollup" and
    /// "scrolldown" move the cursor, and the link under the cursor is set.
    /// Says whether the cursor moved successfully.
    pub fn message(
        &mut self,
        store: &mut ChannelPrefetch,
        page_id: &String,
        settings: &Settings,
        msg: &MessageType,
        fx: &mut Effects,
    ) -> (updated: bool)
        requires
            old(self).wf(),
            old(self).room_for(*old(store)),
        ensures
            final(self).wf(),
            old(self).preview_ready() ==> final(self).preview_ready(),
            *msg is Absent ==> !updated && *final(self) == *old(self) && *final(store) == *old(store)
                && final(fx)@ == old(fx)@,
            !(*msg is Absent) ==> exists|mid: ChannelDisplay, mid_fx: EffectsView, moved_fx: EffectsView|
                {
                    &&& #[trigger] old(self).paginated(
                        mid,
                        *old(store),
                        *final(store),
                        *page_id,
                        settings.display_images,
                        old(fx)@,
                        mid_fx,
                    )
                    &&& #[trigger] mid.scroll_step(*final(self), message_text(*msg), *settings, mid_fx, moved_fx, updated)
                    &&& final(fx)@ == (EffectsView {
                        envs: moved_fx.envs + final(self).item_envs_view(*settings),
                        ..moved_fx
                    })
                },
    {
        if let MessageType::Absent = msg {
            return false;
        }
        self.update_pagination(store, page_id, settings.display_images, fx);
        let ghost mid = *self;
        let ghost mid_fx = fx@;
        let updated = match msg {
            MessageType::Text(t) => match self {
                ChannelDisplay::Blank => false,
                ChannelDisplay::Main(p) => p.apply_scroll(t),
                ChannelDisplay::Videos(p) => p.apply_scroll(PageKind::Videos, t, settings, fx),
                ChannelDisplay::Playlists(p) => p.apply_scroll(PageKind::Playlists, t, settings, fx),
            },
            _ => false,
        };
        let ghost moved_fx = fx@;
        assert(mid.scroll_step(*self, message_text(*msg), *settings, mid_fx, moved_fx, updated));
        let envs = self.inflate_item_update(settings);
        fx.set_envs(envs);
        assert(old(self).paginated(mid, *old(store), *store, *page_id, settings.display_images, old(fx)@, mid_fx));
        updated
    }

    /// Handles a click at (`x`, `y`) on the page drawn in the last frame;
    /// says whether the click was handled. A command that is run has the
    /// placeholders of the environment entries `envs` replaced.
    pub fn mouse_event(
        &mut self,
        prev_frame: Option<Area>,
        x: u16,
        y: u16,
        settings: &Settings,
        envs: &Vec<(String, String)>,
        fx: &mut Effects,
    ) -> (handled: bool)
        requires
            old(self).wf(),
            old(self).mouse_allowed(prev_frame, x, y),
        ensures
            final(self).wf(),
            old(self).preview_ready() ==> final(self).preview_ready(),
            old(self).mouse_applied(
                *final(self),
                prev_frame,
                x,
                y,
                *settings,
                crate::effects::env_views(envs@),
                old(fx)@,
                final(fx)@,
                handled,
            ),
    {
        let frame = match prev_frame {
            Some(f) => f,
            None => {
                return false;
            },
        };
        let outcome = match self {
            ChannelDisplay::Blank => {
                return false;
            },
            ChannelDisplay::Main(p) => click_list(&mut p.textlist, &p.grid, frame, 1, x, y),
            ChannelDisplay::Videos(p) => click_list(&mut p.textlist, &p.grid, frame, 0, x, y),
            ChannelDisplay::Playlists(p) => click_list(&mut p.textlist, &p.grid, frame, 0, x, y),
        };
        match outcome {
            ClickOutcome::Miss => false,
            ClickOutcome::Hit => {
                self.select_at_cursor(envs, fx);
                true
            },
            ClickOutcome::Moved => {
                self.update();
                fx.request_image();
                let envs = self.inflate_item_update(settings);
                fx.set_envs(envs);
                true
            },
        }
    }
}


/// The layout of every channel page: one full-height row, split 60:40.
pub open spec fn standard_grid(g: GridLayout) -> bool {
    g.columns@ == seq![60u16, 40u16] && g.rows@ == seq![100u16]
}

/// The layout of every channel page.
fn standard_layout() -> (r: Option<GridLayout>)
    ensures
        r matches Some(g) && standard_grid(g) && g.wf() && g.columns@.len() >= 2,
{
    let columns = vec![60u16, 40u16];
    let rows = vec![100u16];
    assert(columns@ == seq![60u16, 40u16]);
    assert(rows@ == seq![100u16]);
    match GridLayout::new(columns, rows) {
        Ok(g) => {
            proof {
                assert(g.columns@.drop_last() =~= seq![60u16]);
                assert(g.columns@.drop_last().drop_last() =~= Seq::<u16>::empty());
                reveal_with_fuel(crate::layout::percent_total, 3);
                assert(crate::layout::percent_total(g.columns@) == 100);
            }
            Some(g)
        },
        Err(_) => None,
    }
}

/// A list page showing `entries`, with the cursor on the first entry, the
/// preview on it, and a list that shows ASCII only unless Unicode is allowed.
fn list_page(entries: Vec<Item>, continuation: Option<String>, grid: GridLayout, allow_unicode: bool) -> (r: ListPage)
    requires
        grid.wf(),
        grid.columns@.len() >= 2,
        entries@.len() <= list_limit(),
    ensures
        r.entries@ == entries@,
        r.continuation == continuation,
        r.grid == grid,
        string_views(r.textlist.items@) == crate::item::labels(entries@),
        r.textlist.selected == 0,
        r.textlist.scroll == 0,
        r.textlist.height is None,
        r.textlist.ascii_only == !allow_unicode,
        r.iteminfo.item == (if entries@.len() > 0 { Some(entries@[0]) } else { None }),
{
    let mut textlist = textlist_default();
    textlist.ascii_only = !allow_unicode;
    let lines = crate::item::item_labels(&entries);
    textlist_set_items(&mut textlist, &lines);
    let first = if entries.is_empty() {
        None
    } else {
        Some(entries[0].duplicate())
    };
    ListPage { entries, textlist, iteminfo: ItemInfo::new(first), grid, continuation }
}

impl ChannelDisplay {
    /// The data can be loaded: a main page shows a full channel, and lists
    /// stay within their bounds.
    pub open spec fn loadable(data: PageData) -> bool {
        match data {
            PageData::Main { channel, commands } => channel is FullChannel && commands@.len() <= list_limit(),
            PageData::Videos(v) => v.videos@.len() <= list_limit(),
            PageData::Playlists(p) => p.playlists@.len() <= list_limit(),
        }
    }

    /// A freshly loaded list page: the entries, the continuation, the
    /// cursor on the first entry shown in the preview, the standard layout.
    pub open spec fn fresh_list(p: ListPage, entries: Seq<Item>, continuation: Option<String>, s: Settings) -> bool {
        &&& p.entries@ == entries
        &&& p.continuation == continuation
        &&& string_views(p.textlist.items@) == crate::item::labels(entries)
        &&& p.textlist.selected == 0
        &&& p.textlist.scroll == 0
        &&& p.textlist.height is None
        &&& p.textlist.ascii_only == !s.allow_unicode
        &&& p.iteminfo.item == (if entries.len() > 0 { Some(entries[0]) } else { None })
        &&& standard_grid(p.grid)
    }

    /// What loading a page makes of it, of the store and of the effects: the
    /// main page shows the channel and its commands and sets the channel's
    /// link, identifier and name; a list page shows the first page of
    /// entries, downloads their images when thumbnails are shown, asks for
    /// the next page, and sets the link under the cursor.
    pub open spec fn loaded(
        post: ChannelDisplay,
        data: PageData,
        page_id: String,
        s: Settings,
        store: ChannelPrefetch,
        post_store: ChannelPrefetch,
        fx: EffectsView,
        post_fx: EffectsView,
    ) -> bool {
        match data {
            PageData::Main { channel, commands } => {
                &&& post matches ChannelDisplay::Main(p) && {
                    &&& p.channel == channel
                    &&& p.iteminfo.item == Some(channel)
                    &&& p.commands@ == commands@
                    &&& string_views(p.textlist.items@) == command_labels(commands@)
                    &&& p.textlist.selected == 0
                    &&& p.textlist.scroll == 0
                    &&& p.textlist.height is None
                    &&& p.textlist.ascii_only == false
                    &&& standard_grid(p.grid)
                    &&& post_fx == (EffectsView { envs: fx.envs + p.load_envs_view(s), ..fx })
                }
                &&& post_store == store
            },
            PageData::Videos(v) => {
                let entries = video_items(v.videos@);
                let (store1, req) = claim_next(store, PageKind::Videos, page_id, v.continuation);
                &&& post matches ChannelDisplay::Videos(p) && {
                    &&& ChannelDisplay::fresh_list(p, entries, v.continuation, s)
                    &&& post_fx == (EffectsView {
                        envs: fx.envs + p.hover_envs_view(PageKind::Videos, s),
                        ..requested(downloaded(fx, entries, s.display_images), req)
                    })
                }
                &&& post_store == store1
            },
            PageData::Playlists(v) => {
                let entries = playlist_items(v.playlists@);
                let (store1, req) = claim_next(store, PageKind::Playlists, page_id, v.continuation);
                &&& post matches ChannelDisplay::Playlists(p) && {
                    &&& ChannelDisplay::fresh_list(p, entries, v.continuation, s)
                    &&& post_fx == (EffectsView {
                        envs: fx.envs + p.hover_envs_view(PageKind::Playlists, s),
                        ..requested(downloaded(fx, entries, s.display_images), req)
                    })
                }
                &&& post_store == store1
            },
        }
    }

    /// Loads the page from the data fetched for it.
    pub fn load_item(
        &mut self,
        page_id: &String,
        data: PageData,
        settings: &Settings,
        store: &mut ChannelPrefetch,
        fx: &mut Effects,
    )
        requires
            ChannelDisplay::loadable(data),
        ensures
            final(self).wf(),
            final(self).preview_ready(),
            ChannelDisplay::loaded(*final(self), data, *page_id, *settings, *old(store), *final(store), old(fx)@, final(fx)@),
    {
        let grid = match standard_layout() {
            Some(g) => g,
            None => {
                return ;
            },
        };
        match data {
            PageData::Main { channel, commands } => {
                *self = ChannelDisplay::Main(MainPage::new(channel, commands, grid));
            },
            PageData::Videos(v) => {
                let entries = items_of_videos(&v.videos);
                if settings.display_images {
                    fx.download(crate::item::duplicate_items(&entries));
                }
                let continuation = v.continuation;
                let page = list_page(entries, duplicate_option(&continuation), grid, settings.allow_unicode);
                proof {
                    assert forall|i: int| 0 <= i < page.entries@.len() implies PageKind::Videos.holds(
                        #[trigger] page.entries@[i],
                    ) by {}
                    assert(string_views(page.textlist.items@).len() == page.textlist.items@.len());
                }
                *self = ChannelDisplay::Videos(page);
                claim_next_page(store, PageKind::Videos, page_id, &continuation, fx);
            },
            PageData::Playlists(v) => {
                let entries = items_of_playlists(&v.playlists);
                if settings.display_images {
                    fx.download(crate::item::duplicate_items(&entries));
                }
                let continuation = v.continuation;
                let page = list_page(entries, duplicate_option(&continuation), grid, settings.allow_unicode);
                proof {
                    assert forall|i: int| 0 <= i < page.entries@.len() implies PageKind::Playlists.holds(
                        #[trigger] page.entries@[i],
                    ) by {}
                    assert(string_views(page.textlist.items@).len() == page.textlist.items@.len());
                }
                *self = ChannelDisplay::Playlists(page);
                claim_next_page(store, PageKind::Playlists, page_id, &continuation, fx);
            },
        }
        let load = self.inflate_load(settings);
        fx.set_envs(load);
        let item = self.inflate_item_update(settings);
        fx.set_envs(item);
    }
}


/// Keeping a list paginated never drops or reorders entries: the entries of
/// a list page before are the first entries after.
pub proof fn law_pagination_keeps_entries(
    pre: ChannelDisplay,
    post: ChannelDisplay,
    store: ChannelPrefetch,
    post_store: ChannelPrefetch,
    page_id: String,
    display_images: bool,
    fx: EffectsView,
    post_fx: EffectsView,
)
    requires
        pre.paginated(post, store, post_store, page_id, display_images, fx, post_fx),
    ensures
        pre matches ChannelDisplay::Videos(p) ==> post matches ChannelDisplay::Videos(q)
            && q.entries@.take(p.entries@.len() as int) == p.entries@,
        pre matches ChannelDisplay::Playlists(p) ==> post matches ChannelDisplay::Playlists(q)
            && q.entries@.take(p.entries@.len() as int) == p.entries@,
        pre is Main ==> post == pre,
        pre is Blank ==> post == pre,
{
    match pre {
        ChannelDisplay::Videos(p) => {
            assert(p.entries@.take(p.entries@.len() as int) =~= p.entries@);
            if let ChannelDisplay::Videos(q) = post {
                if q.entries@.len() >= p.entries@.len() {
                    assert(q.entries@.take(p.entries@.len() as int) =~= p.entries@);
                }
            }
        },
        ChannelDisplay::Playlists(p) => {
            assert(p.entries@.take(p.entries@.len() as int) =~= p.entries@);
            if let ChannelDisplay::Playlists(q) = post {
                if q.entries@.len() >= p.entries@.len() {
                    assert(q.entries@.take(p.entries@.len() as int) =~= p.entries@);
                }
            }
        },
        _ => {},
    }
}

/// Asking twice in a row for the next page of the same channel page starts
/// at most one fetch: the second ask starts none.
pub proof fn law_no_duplicate_request(d: ChannelDisplay, store: ChannelPrefetch, page_id: String, again: String)
    requires
        again@ == page_id@,
    ensures
        d.prefetch_claim(d.prefetch_claim(store, page_id).0, again).1 is None,
{
}

/// A page with nothing more to fetch, or whose cursor is far from the end,
/// is left alone by pagination, and so are the store and the effects.
pub proof fn law_pagination_only_near_end(
    pre: ChannelDisplay,
    post: ChannelDisplay,
    store: ChannelPrefetch,
    post_store: ChannelPrefetch,
    page_id: String,
    display_images: bool,
    fx: EffectsView,
    post_fx: EffectsView,
)
    requires
        pre.paginated(post, store, post_store, page_id, display_images, fx, post_fx),
        !pre.near_end_spec(),
    ensures
        post == pre,
        post_store == store,
        post_fx == fx,
{
}

impl ChannelDisplay {
    /// Handles a click like `mouse_event`, except that a click on the cursor
    /// of a main page without commands, which would run a command that is
    /// not there, and a click that moves the cursor of a list whose preview
    /// is empty, which would compare with an item that is not there, are
    /// refused: the result is then `None` and nothing changes.
    pub fn mouse_event_checked(
        &mut self,
        prev_frame: Option<Area>,
        x: u16,
        y: u16,
        settings: &Settings,
        envs: &Vec<(String, String)>,
        fx: &mut Effects,
    ) -> (r: Option<bool>)
        requires
            old(self).wf(),
            old(self).mouse_frame_ok(prev_frame),
        ensures
            final(self).wf(),
            r is None <==> !old(self).mouse_allowed(prev_frame, x, y),
            r is Some ==> (old(self).preview_ready() ==> final(self).preview_ready()),
            r is None ==> *final(self) == *old(self) && final(fx)@ == old(fx)@,
            r matches Some(handled) ==> old(self).mouse_applied(
                *final(self),
                prev_frame,
                x,
                y,
                *settings,
                crate::effects::env_views(envs@),
                old(fx)@,
                final(fx)@,
                handled,
            ),
    {
        let frame = match prev_frame {
            Some(frame) => frame,
            None => {
                return Some(self.mouse_event(prev_frame, x, y, settings, envs, fx));
            },
        };
        let blocked = match self {
            ChannelDisplay::Blank => false,
            ChannelDisplay::Main(p) => {
                let (_, hit) = click_probe(&p.textlist, &p.grid, frame, 1, x, y);
                p.commands.is_empty() && hit
            },
            ChannelDisplay::Videos(p) => {
                let (lands, hit) = click_probe(&p.textlist, &p.grid, frame, 0, x, y);
                !p.entries.is_empty() && p.iteminfo.item.is_none() && lands && !hit
            },
            ChannelDisplay::Playlists(p) => {
                let (lands, hit) = click_probe(&p.textlist, &p.grid, frame, 0, x, y);
                !p.entries.is_empty() && p.iteminfo.item.is_none() && lands && !hit
            },
        };
        if blocked {
            return None;
        }
        Some(self.mouse_event(prev_frame, x, y, settings, envs, fx))
    }
}


/// Keeping a list paginated is asking for the next page, as
/// `ensure_prefetch` does, followed by taking a waiting page, as
/// `apply_prefetch` does (its result dropped); far from the end of the list
/// it changes nothing.
pub proof fn law_pagination_is_claim_then_take(
    pre: ChannelDisplay,
    post: ChannelDisplay,
    store: ChannelPrefetch,
    post_store: ChannelPrefetch,
    page_id: String,
    display_images: bool,
    fx: EffectsView,
    post_fx: EffectsView,
)
    ensures
        pre.paginated(post, store, post_store, page_id, display_images, fx, post_fx) == if pre.near_end_spec() {
            pre.prefetch_applied(
                post,
                pre.prefetch_claim(store, page_id).0,
                post_store,
                page_id,
                display_images,
                requested(fx, pre.prefetch_claim(store, page_id).1),
                post_fx,
            )
        } else {
            post == pre && post_store == store && post_fx == fx
        },
{
}


/// Where the cursor of a list with `n` lines goes from line `k` after one
/// line down: `k + 1`, or `k` on the last line.
pub open spec fn line_below(k: int, n: int) -> int {
    if k + 1 < n {
        k + 1
    } else {
        k
    }
}

/// Where the cursor goes from line `k` after one line up: `k - 1`, or 0 on
/// the first line.
pub open spec fn line_above(k: int) -> int {
    if k > 0 {
        k - 1
    } else {
        0
    }
}

/// What a scroll message does on every page with a list, the main page
/// included: "scrolldown" moves the cursor one line down and "scrollup" one
/// line up, within the list; the result is whether the move succeeded (a
/// move that changes the line succeeds exactly when the list knows a height
/// with room for a line); any other text changes nothing. The page stays the
/// same kind of page with the same lines.
pub proof fn law_scroll_messages(
    d: ChannelDisplay,
    post: ChannelDisplay,
    text: Seq<char>,
    s: Settings,
    fx: EffectsView,
    post_fx: EffectsView,
    updated: bool,
)
    requires
        d.wf(),
        !(d is Blank),
        d.scroll_step(post, Some(text), s, fx, post_fx, updated),
    ensures
        post is Main <==> d is Main,
        post is Videos <==> d is Videos,
        post is Playlists <==> d is Playlists,
        post.list().items == d.list().items,
        text == "scrolldown"@ ==> {
            &&& post.list().selected == line_below(d.list().selected as int, d.list().items@.len() as int)
            &&& updated == (d.list().selected + 1 >= d.list().items@.len() || fits(d.list().height))
        },
        text == "scrollup"@ ==> {
            &&& post.list().selected == line_above(d.list().selected as int)
            &&& updated == (d.list().selected == 0 || fits(d.list().height))
        },
        text != "scrolldown"@ && text != "scrollup"@ ==> post == d && post_fx == fx && !updated,
{
    reveal_strlit("scrollup");
    reveal_strlit("scrolldown");
    assert("scrolldown"@.len() != "scrollup"@.len());
    match d {
        ChannelDisplay::Main(p) => {
            crate::listcursor::law_cursor_moves(p.textlist);
        },
        ChannelDisplay::Videos(p) => {
            if let ChannelDisplay::Videos(q) = post {
                crate::listpage::law_list_scroll(p, PageKind::Videos, text, s, fx, q, post_fx, updated);
            }
        },
        ChannelDisplay::Playlists(p) => {
            if let ChannelDisplay::Playlists(q) = post {
                crate::listpage::law_list_scroll(p, PageKind::Playlists, text, s, fx, q, post_fx, updated);
            }
        },
        _ => {},
    }
}

/// What a key does on every page with a list: up and down move the cursor
/// one line within the list; MoveLeft goes to the first line and MoveRight
/// to the last on every page, First and End likewise except on the
/// playlist page, which ignores them; Select leaves the page and opens the
/// entry under the cursor (on the main page: runs the command under the
/// cursor, its placeholders replaced, then redraws). The page stays the same
/// kind of page with the same lines.
pub proof fn law_keys(
    d: ChannelDisplay,
    post: ChannelDisplay,
    action: KeyAction,
    s: Settings,
    envs: Seq<(Seq<char>, Seq<char>)>,
    fx: EffectsView,
    post_fx: EffectsView,
)
    requires
        d.wf(),
        !(d is Blank),
        d.key_allowed(action),
        d.key_applied(post, action, s, envs, fx, post_fx),
    ensures
        post is Main <==> d is Main,
        post is Videos <==> d is Videos,
        post is Playlists <==> d is Playlists,
        post.list().items == d.list().items,
        action is MoveUp ==> post.list().selected == line_above(d.list().selected as int),
        action is MoveDown ==> post.list().selected == line_below(
            d.list().selected as int,
            d.list().items@.len() as int,
        ),
        action is MoveLeft || (action is First && !(d is Playlists)) ==> post.list().selected == 0,
        (action is MoveRight || (action is End && !(d is Playlists))) && d.list().items@.len() > 0
            ==> post.list().selected == d.list().items@.len() - 1,
        action is Other || (d is Playlists && (action is First || action is End)) ==> post == d
            && post_fx == fx,
        action is Select && !(d is Main) ==> post == d && post_fx == d.selection_effects(envs, fx),
        action is Select && d is Main ==> post == d && post_fx.tasks == fx.tasks.push(
            crate::effects::TaskView::Command(
                crate::envs::with_envs(d->Main_0.commands@[d.list().selected as int].1@, envs),
            ),
        ).push(crate::effects::TaskView::RenderAll),
{
    match d {
        ChannelDisplay::Main(p) => {
            if let ChannelDisplay::Main(q) = post {
                crate::mainpage::law_main_keys(p, action, envs, fx, q, post_fx);
            }
        },
        ChannelDisplay::Videos(p) => {
            if let ChannelDisplay::Videos(q) = post {
                crate::listpage::law_list_keys(p, PageKind::Videos, action, s, fx, q, post_fx);
            }
        },
        ChannelDisplay::Playlists(p) => {
            if let ChannelDisplay::Playlists(q) = post {
                crate::listpage::law_list_keys(p, PageKind::Playlists, action, s, fx, q, post_fx);
            }
        },
        _ => {},
    }
}

/// What a click does on a page with a list, for a click at (`x`, `y`) that
/// lands in the list's cell on line `row` (counted from the first line of
/// the list): it is handled exactly when it lands in the cell; on the cursor
/// box it opens the entry under the cursor; above the box the cursor goes to
/// the clicked line, below it two lines up, past the end of a non-empty list
/// to the last line; a moving click draws the thumbnail, adds no task, and
/// on a list page shows the entry now under the cursor in the preview.
pub proof fn law_mouse_click(
    d: ChannelDisplay,
    post: ChannelDisplay,
    frame: Area,
    x: u16,
    y: u16,
    s: Settings,
    envs: Seq<(Seq<char>, Seq<char>)>,
    fx: EffectsView,
    post_fx: EffectsView,
    handled: bool,
)
    requires
        d.wf(),
        !(d is Blank),
        d.mouse_allowed(Some(frame), x, y),
        d.preview_ready(),
        d.mouse_applied(post, Some(frame), x, y, s, envs, fx, post_fx, handled),
    ensures
        handled == d.click_lands(Some(frame), x, y),
        !handled ==> post == d && post_fx == fx,
        d.click_hits(Some(frame), x, y) ==> post == d && post_fx == d.selection_effects(envs, fx),
        ({
            let chunk = list_cell(d.grid(), frame, if d is Main { 1 } else { 0 });
            let row = (y - chunk.y) + d.list().scroll;
            let c = d.list();
            let n = c.items@.len();
            d.click_moves(Some(frame), x, y) ==> {
                &&& post.list().items == c.items
                &&& (post is Main <==> d is Main) && (post is Videos <==> d is Videos)
                &&& row < c.selected ==> post.list().selected == row
                &&& row > c.selected + 2 && (n == 0 || row <= n + 1) ==> post.list().selected == row - 2
                &&& n > 0 && row > n + 1 ==> post.list().selected == n - 1
                &&& post_fx.tasks == fx.tasks
                &&& post_fx.render_image
                &&& post matches ChannelDisplay::Videos(q) ==> q.entries@.len() > 0 ==> (q.iteminfo.item matches Some(shown)
                    && shown.id_view() == q.entries@[q.textlist.selected as int].id_view())
                &&& post matches ChannelDisplay::Playlists(q) ==> q.entries@.len() > 0 ==> (q.iteminfo.item matches Some(shown)
                    && shown.id_view() == q.entries@[q.textlist.selected as int].id_view())
            }
        }),
{
    let chunk = list_cell(d.grid(), frame, if d is Main { 1 } else { 0 });
    let row = (y - chunk.y) + d.list().scroll;
    if d.click_moves(Some(frame), x, y) {
        crate::listcursor::law_click_moves_cursor(d.list(), row);
        let moved = d.with_list(d.list().clicked(row));
        match moved {
            ChannelDisplay::Videos(q) => {
                assert(q.wf(PageKind::Videos));
                if q.entries@.len() > 0 {
                    crate::listpage::law_preview_follows_cursor(q, PageKind::Videos);
                }
            },
            ChannelDisplay::Playlists(q) => {
                assert(q.wf(PageKind::Playlists));
                if q.entries@.len() > 0 {
                    crate::listpage::law_preview_follows_cursor(q, PageKind::Playlists);
                }
            },
            _ => {},
        }
    }
}


/// Selecting opens what is under the cursor on every page: the main page
/// runs the command under the cursor with its placeholders replaced; a list
/// page loads `entries[selected]` (or says there is nothing to select); the
/// blank page asks for nothing. Only the tasks or the message change.
pub proof fn law_selection_on_every_page(d: ChannelDisplay, envs: Seq<(Seq<char>, Seq<char>)>, before: EffectsView)
    requires
        d.wf(),
        d.can_select(),
    ensures
        ({
            let after = d.selection_effects(envs, before);
            &&& after.render_image == before.render_image
            &&& after.envs == before.envs
            &&& after.downloads == before.downloads
            &&& after.prefetches == before.prefetches
            &&& d is Blank ==> after == before
            &&& d matches ChannelDisplay::Main(p) ==> after.message == before.message && after.tasks
                == before.tasks.push(
                crate::effects::TaskView::Command(
                    crate::envs::with_envs(p.commands@[p.textlist.selected as int].1@, envs),
                ),
            )
            &&& d matches ChannelDisplay::Videos(p) ==> p.entries@.len() > 0 ==> after.tasks == before.tasks.push(
                crate::effects::TaskView::LoadVideo(p.entries@[p.textlist.selected as int].id_or_empty()),
            )
            &&& d matches ChannelDisplay::Playlists(p) ==> p.entries@.len() > 0 ==> after.tasks == before.tasks.push(
                crate::effects::TaskView::LoadPlaylist(p.entries@[p.textlist.selected as int].id_or_empty()),
            )
        }),
{
    match d {
        ChannelDisplay::Videos(p) => {
            crate::listpage::law_select_opens_entry_under_cursor(p, PageKind::Videos, before);
            let after = d.selection_effects(envs, before);
            if p.entries@.len() > 0 {
                assert(after.tasks =~= before.tasks.push(after.tasks.last()));
            }
        },
        ChannelDisplay::Playlists(p) => {
            crate::listpage::law_select_opens_entry_under_cursor(p, PageKind::Playlists, before);
            let after = d.selection_effects(envs, before);
            if p.entries@.len() > 0 {
                assert(after.tasks =~= before.tasks.push(after.tasks.last()));
            }
        },
        _ => {},
    }
}

/// The link a page publishes when its cursor changes: on the video page the
/// watch link, on the playlist page the playlist link, of the entry under
/// the cursor; the main and blank pages publish none.
pub proof fn law_item_link_on_every_page(d: ChannelDisplay, s: Settings)
    requires
        d.wf(),
    ensures
        !(d is Videos) && !(d is Playlists) ==> d.item_envs_view(s) == Seq::<(Seq<char>, Seq<char>)>::empty(),
        d matches ChannelDisplay::Videos(p) ==> p.entries@.len() > 0 ==> d.item_envs_view(s) == seq![
            ("hover-url"@, crate::listpage::entry_link(
                PageKind::Videos,
                s,
                p.entries@[p.textlist.selected as int].id_or_empty(),
            )),
        ],
        d matches ChannelDisplay::Playlists(p) ==> p.entries@.len() > 0 ==> d.item_envs_view(s) == seq![
            ("hover-url"@, crate::listpage::entry_link(
                PageKind::Playlists,
                s,
                p.entries@[p.textlist.selected as int].id_or_empty(),
            )),
        ],
{
    match d {
        ChannelDisplay::Videos(p) => crate::listpage::law_hover_link_is_entry_under_cursor(p, PageKind::Videos, s),
        ChannelDisplay::Playlists(p) => crate::listpage::law_hover_link_is_entry_under_cursor(
            p,
            PageKind::Playlists,
            s,
        ),
        _ => {},
    }
}

/// Taking a page fetched for this channel page appends its entries, in
/// order and with their identifiers, after the entries already shown, takes
/// its continuation and leaves no fetched page waiting; a failed fetch shows
/// its error and changes no entry; with nothing waiting for this page nothing
/// changes.
pub proof fn law_prefetch_appends_fetched_videos(
    d: ChannelDisplay,
    post: ChannelDisplay,
    store: ChannelPrefetch,
    post_store: ChannelPrefetch,
    page_id: String,
    display_images: bool,
    fx: EffectsView,
    post_fx: EffectsView,
)
    requires
        d is Videos,
        d.prefetch_applied(post, store, post_store, page_id, display_images, fx, post_fx),
    ensures
        post is Videos,
        post_store.playlists == store.playlists,
        !store.videos.has_ready_for(page_id@) ==> post == d && post_store == store && post_fx == fx,
        store.videos.has_ready_for(page_id@) ==> match store.videos.ready.unwrap().result {
            Ok(next) => {
                let old_entries = d->Videos_0.entries@;
                let new_entries = post->Videos_0.entries@;
                &&& new_entries.len() == old_entries.len() + next.videos@.len()
                &&& new_entries.take(old_entries.len() as int) == old_entries
                &&& forall|i: int|
                    0 <= i < next.videos@.len() ==> #[trigger] new_entries[old_entries.len() + i]
                        == (Item::MiniVideo { id: next.videos@[i].id, title: next.videos@[i].title })
                &&& post->Videos_0.continuation == next.continuation
                &&& post_store.videos.ready is None
            },
            Err(e) => post == d && post_store.videos.ready is None && post_fx.message == Some(e@)
                && post_fx.tasks == fx.tasks && post_fx.prefetches == fx.prefetches,
        },
{
    if let ChannelDisplay::Videos(p) = d {
        if let ChannelDisplay::Videos(q) = post {
            if q.entries@.len() >= p.entries@.len() {
                assert(q.entries@.take(p.entries@.len() as int) =~= p.entries@);
            }
        }
    }
}

/// Loading a list page shows the first page of entries, in order and with
/// their identifiers, with the cursor on the first entry, that entry in the
/// preview, and its link published; the page after it is asked for exactly
/// when there is a continuation and no fetch for this page is pending.
pub proof fn law_load_videos(
    post: ChannelDisplay,
    v: ChannelVideos,
    page_id: String,
    s: Settings,
    store: ChannelPrefetch,
    post_store: ChannelPrefetch,
    fx: EffectsView,
    post_fx: EffectsView,
)
    requires
        post.wf(),
        ChannelDisplay::loaded(post, PageData::Videos(v), page_id, s, store, post_store, fx, post_fx),
    ensures
        post matches ChannelDisplay::Videos(p) && {
            &&& p.entries@.len() == v.videos@.len()
            &&& forall|i: int|
                0 <= i < v.videos@.len() ==> #[trigger] p.entries@[i] == (Item::MiniVideo {
                    id: v.videos@[i].id,
                    title: v.videos@[i].title,
                })
            &&& p.textlist.selected == 0
            &&& p.continuation == v.continuation
            &&& v.videos@.len() > 0 ==> p.iteminfo.item == Some(
                Item::MiniVideo { id: v.videos@[0].id, title: v.videos@[0].title },
            ) && post_fx.envs == fx.envs + seq![
                ("hover-url"@, crate::listpage::entry_link(PageKind::Videos, s, v.videos@[0].id@)),
            ]
            &&& v.videos@.len() == 0 ==> p.iteminfo.item is None
            &&& post_store.playlists == store.playlists
            &&& (v.continuation is Some && !store.videos.is_pending(page_id@)) ==> post_fx.prefetches
                == fx.prefetches.push(
                PrefetchRequest { kind: PageKind::Videos, page_id, ctoken: v.continuation.unwrap() },
            )
            &&& !(v.continuation is Some && !store.videos.is_pending(page_id@)) ==> post_fx.prefetches
                == fx.prefetches
        },
{
    if let ChannelDisplay::Videos(p) = post {
        if v.videos@.len() > 0 {
            crate::listpage::law_hover_link_is_entry_under_cursor(p, PageKind::Videos, s);
        }
    }
}

} // verus!
