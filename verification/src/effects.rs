use vstd::prelude::*;
use crate::item::Item;

verus! {

/// A task that the channel page hands to the application's task queue.
#[derive(Clone)]
pub enum Task {
    /// Runs a configured command line.
    Command(String),
    /// Opens the page of the video with this identifier.
    LoadVideo(String),
    /// Opens the page of the playlist with this identifier.
    LoadPlaylist(String),
    /// Redraws the whole screen.
    RenderAll,
}

/// The value of a task that contracts speak of.
pub enum TaskView {
    Command(Seq<char>),
    LoadVideo(Seq<char>),
    LoadPlaylist(Seq<char>),
    RenderAll,
}

impl View for Task {
    type V = TaskView;

    open spec fn view(&self) -> TaskView {
        match self {
            Task::Command(c) => TaskView::Command(c@),
            Task::LoadVideo(id) => TaskView::LoadVideo(id@),
            Task::LoadPlaylist(id) => TaskView::LoadPlaylist(id@),
            Task::RenderAll => TaskView::RenderAll,
        }
    }
}

/// The views of tasks.
pub open spec fn task_views(tasks: Seq<Task>) -> Seq<TaskView> {
    tasks.map_values(|t: Task| t@)
}

/// Which list of a channel a continuation page belongs to.
#[derive(Clone, Copy)]
pub enum PageKind {
    Videos,
    Playlists,
}

/// A fetch that the store has marked as under way and that the application
/// is to start: the next page of `kind` of channel page `page_id`.
pub struct PrefetchRequest {
    pub kind: PageKind,
    pub page_id: String,
    pub ctoken: String,
}

/// What the channel page asks of the application, in the order asked.
pub struct Effects {
    /// Tasks pushed onto the priority queue.
    pub tasks: Vec<Task>,
    /// The error message shown to the user, if one was set.
    pub message: Option<String>,
    /// The thumbnail is to be drawn again.
    pub render_image: bool,
    /// Environment entries set, in order (a later entry overrides an earlier
    /// one with the same key).
    pub envs: Vec<(String, String)>,
    /// Items whose images are to be downloaded.
    pub downloads: Vec<Item>,
    /// Fetches to start.
    pub prefetches: Vec<PrefetchRequest>,
}

/// The value of `Effects` that contracts speak of.
pub struct EffectsView {
    pub tasks: Seq<TaskView>,
    pub message: Option<Seq<char>>,
    pub render_image: bool,
    pub envs: Seq<(Seq<char>, Seq<char>)>,
    pub downloads: Seq<Item>,
    pub prefetches: Seq<PrefetchRequest>,
}

/// The views of environment entries.
pub open spec fn env_views(v: Seq<(String, String)>) -> Seq<(Seq<char>, Seq<char>)> {
    v.map_values(|p: (String, String)| (p.0@, p.1@))
}

impl View for Effects {
    type V = EffectsView;

    open spec fn view(&self) -> EffectsView {
        EffectsView {
            tasks: task_views(self.tasks@),
            message: match self.message {
                Some(m) => Some(m@),
                None => None,
            },
            render_image: self.render_image,
            envs: env_views(self.envs@),
            downloads: self.downloads@,
            prefetches: self.prefetches@,
        }
    }
}

impl Effects {
    /// Nothing asked yet.
    pub fn new() -> (r: Effects)
        ensures
            r@.tasks.len() == 0,
            r@.message is None,
            r@.render_image == false,
            r@.envs.len() == 0,
            r@.downloads.len() == 0,
            r@.prefetches.len() == 0,
    {
        let r = Effects {
            tasks: Vec::new(),
            message: None,
            render_image: false,
            envs: Vec::new(),
            downloads: Vec::new(),
            prefetches: Vec::new(),
        };
        assert(env_views(r.envs@) =~= Seq::empty());
        assert(task_views(r.tasks@) =~= Seq::empty());
        r
    }

    /// Pushes a task.
    pub fn push_task(&mut self, task: Task)
        ensures
            final(self)@ == (EffectsView { tasks: old(self)@.tasks.push(task@), ..old(self)@ }),
    {
        self.tasks.push(task);
        assert(task_views(self.tasks@) =~= old(self)@.tasks.push(task@));
    }

    /// Sets the error message.
    pub fn set_message(&mut self, message: String)
        ensures
            final(self)@ == (EffectsView { message: Some(message@), ..old(self)@ }),
    {
        self.message = Some(message);
    }

    /// Asks for the thumbnail to be drawn again.
    pub fn request_image(&mut self)
        ensures
            final(self)@ == (EffectsView { render_image: true, ..old(self)@ }),
    {
        self.render_image = true;
    }

    /// Sets environment entries, in order.
    pub fn set_envs(&mut self, envs: Vec<(String, String)>)
        ensures
            final(self)@ == (EffectsView { envs: old(self)@.envs + env_views(envs@), ..old(self)@ }),
    {
        let mut envs = envs;
        let ghost added = envs@;
        self.envs.append(&mut envs);
        assert(env_views(self.envs@) =~= old(self)@.envs + env_views(added));
    }

    /// Asks for the images of the items to be downloaded.
    pub fn download(&mut self, items: Vec<Item>)
        ensures
            final(self)@ == (EffectsView { downloads: old(self)@.downloads + items@, ..old(self)@ }),
    {
        let mut items = items;
        self.downloads.append(&mut items);
    }

    /// Asks for a fetch to be started.
    pub fn prefetch(&mut self, request: PrefetchRequest)
        ensures
            final(self)@ == (EffectsView {
                prefetches: old(self)@.prefetches.push(request),
                ..old(self)@
            }),
    {
        self.prefetches.push(request);
    }
}

} // verus!
