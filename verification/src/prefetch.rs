use vstd::prelude::*;
use crate::item::{ChannelPlaylists, ChannelVideos};

verus! {

/// A fetched continuation page, with the channel page it was fetched for.
pub struct Prefetched<T> {
    pub page_id: String,
    pub result: Result<T, String>,
}

/// The prefetch state of one kind of continuation (videos or playlists): the
/// channel page whose next page is being fetched, and the page that came back
/// and has not been taken yet.
pub struct PrefetchSlot<T> {
    pub in_flight: Option<String>,
    pub ready: Option<Prefetched<T>>,
}

/// The prefetch store that all channel pages share.
pub struct ChannelPrefetch {
    pub videos: PrefetchSlot<ChannelVideos>,
    pub playlists: PrefetchSlot<ChannelPlaylists>,
}

impl<T> PrefetchSlot<T> {
    /// A fetched page for `page` waits in the slot.
    pub open spec fn has_ready_for(self, page: Seq<char>) -> bool {
        self.ready matches Some(r) && r.page_id@ == page
    }

    /// A fetch for `page` is under way.
    pub open spec fn in_flight_for(self, page: Seq<char>) -> bool {
        self.in_flight matches Some(p) && p@ == page
    }

    /// The slot already has, or is getting, the next page of `page`.
    pub open spec fn is_pending(self, page: Seq<char>) -> bool {
        self.in_flight_for(page) || self.has_ready_for(page)
    }

    /// The slot after a fetch for `page_id` was asked for, and whether the
    /// fetch is to be started.
    pub open spec fn claimed(self, page_id: String) -> (PrefetchSlot<T>, bool) {
        if self.is_pending(page_id@) {
            (self, false)
        } else {
            (PrefetchSlot { in_flight: Some(page_id), ready: self.ready }, true)
        }
    }

    /// The slot after the fetch for `page_id` came back with `result`.
    pub open spec fn completed(self, page_id: String, result: Result<T, String>) -> PrefetchSlot<T> {
        PrefetchSlot { in_flight: None, ready: Some(Prefetched { page_id, result }) }
    }

    /// The slot after the page fetched for `page` was asked for, and what is
    /// handed out.
    pub open spec fn taken(self, page: Seq<char>) -> (PrefetchSlot<T>, Option<Result<T, String>>) {
        if self.has_ready_for(page) {
            (PrefetchSlot { in_flight: self.in_flight, ready: None }, Some(self.ready.unwrap().result))
        } else {
            (self, None)
        }
    }

    /// An empty slot.
    pub fn empty() -> (r: PrefetchSlot<T>)
        ensures
            r.in_flight is None,
            r.ready is None,
    {
        PrefetchSlot { in_flight: None, ready: None }
    }

    /// Marks a fetch of the next page of `page_id` as under way, unless one is
    /// already under way or its result waits; says whether to start it.
    pub fn claim(&mut self, page_id: &String) -> (start: bool)
        ensures
            (*final(self), start) == old(self).claimed(*page_id),
    {
        let busy = match &self.in_flight {
            Some(p) => *p == *page_id,
            None => false,
        };
        let ready = match &self.ready {
            Some(r) => r.page_id == *page_id,
            None => false,
        };
        if busy || ready {
            return false;
        }
        self.in_flight = Some(page_id.clone());
        true
    }

    /// Stores the page that the fetch for `page_id` brought back.
    pub fn complete(&mut self, page_id: String, result: Result<T, String>)
        ensures
            *final(self) == old(self).completed(page_id, result),
    {
        self.ready = Some(Prefetched { page_id, result });
        self.in_flight = None;
    }

    /// Hands out the page fetched for `page_id`, if that is the page that
    /// waits; a page fetched for another channel page stays.
    pub fn take(&mut self, page_id: &String) -> (r: Option<Result<T, String>>)
        ensures
            (*final(self), r) == old(self).taken(page_id@),
    {
        let ready = self.ready.take();
        match ready {
            None => None,
            Some(ready) => {
                if ready.page_id == *page_id {
                    Some(ready.result)
                } else {
                    self.ready = Some(ready);
                    None
                }
            },
        }
    }
}

/// The prefetch store as it starts: nothing under way, nothing waiting.
pub fn channel_prefetch() -> (r: ChannelPrefetch)
    ensures
        r.videos.in_flight is None,
        r.videos.ready is None,
        r.playlists.in_flight is None,
        r.playlists.ready is None,
{
    ChannelPrefetch { videos: PrefetchSlot::empty(), playlists: PrefetchSlot::empty() }
}

/// Claims the fetch of the next video page of `page_id`; true when the caller
/// is to start it.
pub fn claim_videos_prefetch(store: &mut ChannelPrefetch, page_id: &String) -> (start: bool)
    ensures
        (final(store).videos, start) == old(store).videos.claimed(*page_id),
        final(store).playlists == old(store).playlists,
{
    store.videos.claim(page_id)
}

/// Stores the video page that the fetch for `page_id` brought back.
pub fn finish_videos_prefetch(
    store: &mut ChannelPrefetch,
    page_id: String,
    result: Result<ChannelVideos, String>,
)
    ensures
        final(store).videos == old(store).videos.completed(page_id, result),
        final(store).playlists == old(store).playlists,
{
    store.videos.complete(page_id, result)
}

/// Takes the prefetched video page of `page_id`, if it is the one that waits.
pub fn take_videos_prefetch(store: &mut ChannelPrefetch, page_id: &String) -> (r: Option<
    Result<ChannelVideos, String>,
>)
    ensures
        (final(store).videos, r) == old(store).videos.taken(page_id@),
        final(store).playlists == old(store).playlists,
{
    store.videos.take(page_id)
}

/// Claims the fetch of the next playlist page of `page_id`; true when the
/// caller is to start it.
pub fn claim_playlists_prefetch(store: &mut ChannelPrefetch, page_id: &String) -> (start: bool)
    ensures
        (final(store).playlists, start) == old(store).playlists.claimed(*page_id),
        final(store).videos == old(store).videos,
{
    store.playlists.claim(page_id)
}

/// Stores the playlist page that the fetch for `page_id` brought back.
pub fn finish_playlists_prefetch(
    store: &mut ChannelPrefetch,
    page_id: String,
    result: Result<ChannelPlaylists, String>,
)
    ensures
        final(store).playlists == old(store).playlists.completed(page_id, result),
        final(store).videos == old(store).videos,
{
    store.playlists.complete(page_id, result)
}

/// Takes the prefetched playlist page of `page_id`, if it is the one that waits.
pub fn take_playlists_prefetch(store: &mut ChannelPrefetch, page_id: &String) -> (r: Option<
    Result<ChannelPlaylists, String>,
>)
    ensures
        (final(store).playlists, r) == old(store).playlists.taken(page_id@),
        final(store).videos == old(store).videos,
{
    store.playlists.take(page_id)
}

/// What a fetch brings back for a channel page is what the next take for that
/// page hands out, and the slot is empty afterwards.
pub proof fn law_take_returns_fetched<T>(
    slot: PrefetchSlot<T>,
    page_id: String,
    result: Result<T, String>,
    asked: String,
)
    requires
        asked@ == page_id@,
    ensures
        slot.completed(page_id, result).taken(asked@) == (PrefetchSlot::<T> {
            in_flight: None,
            ready: None,
        }, Some(result)),
{
}

/// A take for another channel page leaves a fetched page where it is and
/// hands out nothing.
pub proof fn law_take_keeps_other_page<T>(
    slot: PrefetchSlot<T>,
    page_id: String,
    result: Result<T, String>,
    other: Seq<char>,
)
    requires
        other != page_id@,
    ensures
        slot.completed(page_id, result).taken(other) == (slot.completed(page_id, result), None::<
            Result<T, String>,
        >),
{
}

/// A page is fetched at most once at a time: while its fetch is under way,
/// a second claim for it does not start another.
pub proof fn law_claim_once<T>(slot: PrefetchSlot<T>, page_id: String, again: String)
    requires
        again@ == page_id@,
    ensures
        slot.claimed(page_id).0.claimed(again).1 == false,
        slot.claimed(page_id).0.claimed(again).0 == slot.claimed(page_id).0,
{
}

/// A fetched page that has not been taken is not fetched again.
pub proof fn law_no_refetch_while_ready<T>(
    slot: PrefetchSlot<T>,
    page_id: String,
    result: Result<T, String>,
    again: String,
)
    requires
        again@ == page_id@,
    ensures
        slot.completed(page_id, result).claimed(again).1 == false,
{
}

/// Once its fetched page was taken, the next page of a channel page can be
/// fetched again.
pub proof fn law_claim_after_take<T>(
    slot: PrefetchSlot<T>,
    page_id: String,
    result: Result<T, String>,
    again: String,
)
    requires
        again@ == page_id@,
    ensures
        slot.completed(page_id, result).taken(again@).0.claimed(again).1 == true,
{
}

/// A fetched page is handed out once: a second take finds nothing.
pub proof fn law_take_once<T>(slot: PrefetchSlot<T>, page: Seq<char>)
    ensures
        slot.taken(page).0.taken(page).1 is None,
{
}

} // verus!
