use vstd::prelude::*;
use vstd::string::*;
use crate::config::{KeyAction, Provider, Settings};
use crate::effects::{env_views, Effects, EffectsView, Task, TaskView};
use crate::envs::{apply_envs, with_envs};
use crate::item::{string_views, Item};
use crate::layout::GridLayout;
use crate::listcursor::{
    cursor_fits, fits, lemma_moves_keep_fit, textlist_default, textlist_down, textlist_first,
    textlist_last, textlist_set_items, textlist_up, ListCursor,
};
use crate::listpage::{scroll_by_message, scrolled_by, ItemInfo};

verus! {

/// The labels of configured commands: the first part of each pair.
pub open spec fn command_labels(commands: Seq<(String, String)>) -> Seq<Seq<char>> {
    commands.map_values(|c: (String, String)| c.0@)
}

/// The link to a channel's page on the configured site.
pub open spec fn channel_link(channel: Item, s: Settings) -> Seq<char> {
    match s.provider {
        Provider::Invidious => s.invidious_instance@ + "/channel/"@ + channel.id_or_empty(),
        Provider::YouTube => "'https://youtu.be/"@ + channel.id_or_empty() + "'"@,
    }
}

/// A text list that shows the labels of the commands, cursor on the first.
pub fn textlist_of_commands(commands: &Vec<(String, String)>) -> (r: ListCursor)
    ensures
        string_views(r.items@) == command_labels(commands@),
        r.selected == 0,
        r.scroll == 0,
        r.height is None,
        r.ascii_only == false,
{
    let mut lines: Vec<String> = Vec::new();
    let mut i: usize = 0;
    while i < commands.len()
        invariant
            i <= commands.len(),
            lines@.len() == i,
            string_views(lines@) == command_labels(commands@.take(i as int)),
        decreases commands.len() - i,
    {
        let ghost before = lines@;
        lines.push(commands[i].0.clone());
        i = i + 1;
        assert forall|j: int| 0 <= j < i implies #[trigger] string_views(lines@)[j]
            == command_labels(commands@.take(i as int))[j] by {
            if j < i - 1 {
                assert(lines@[j] == before[j]);
                assert(string_views(before)[j] == command_labels(commands@.take(i - 1))[j]);
            }
        }
        assert(string_views(lines@) =~= command_labels(commands@.take(i as int)));
    }
    assert(commands@.take(commands.len() as int) =~= commands@);
    let mut r = textlist_default();
    textlist_set_items(&mut r, &lines);
    r
}

/// The main page of a channel: the channel, its preview, and the commands
/// that can be run on it.
#[derive(Clone)]
pub struct MainPage {
    pub channel: Item,
    pub iteminfo: ItemInfo,
    pub grid: GridLayout,
    pub textlist: ListCursor,
    pub commands: Vec<(String, String)>,
}

impl MainPage {
    /// The page is consistent: it shows a full channel, its list shows one
    /// line per command, and the cursor is on a command whenever there are.
    pub open spec fn wf(self) -> bool {
        &&& self.channel is FullChannel
        &&& self.grid.wf()
        &&& self.grid.columns@.len() >= 2
        &&& self.textlist.items@.len() == self.commands@.len()
        &&& string_views(self.textlist.items@) == command_labels(self.commands@)
        &&& cursor_fits(self.textlist)
    }

    /// The environment entries that a loaded channel page sets: its link,
    /// its identifier and its name.
    pub open spec fn load_envs_view(self, s: Settings) -> Seq<(Seq<char>, Seq<char>)> {
        seq![
            ("url"@, channel_link(self.channel, s)),
            ("id"@, self.channel.id_or_empty()),
            ("name"@, self.channel->FullChannel_name@),
        ]
    }

    /// The page with its list cursor replaced.
    pub open spec fn with_cursor(self, c: ListCursor) -> MainPage {
        MainPage { textlist: c, ..self }
    }

    /// The cursor after a key, and whether it moved successfully.
    pub open spec fn key_moved(self, action: KeyAction) -> (ListCursor, bool) {
        let c = self.textlist;
        if action is MoveUp {
            (c.after_up(), c.up_ok())
        } else if action is MoveDown {
            (c.after_down(), c.down_ok())
        } else if action is MoveLeft || action is First {
            (c.after_first(), c.first_ok())
        } else if action is MoveRight || action is End {
            (c.after_last(), c.last_ok())
        } else {
            (c, false)
        }
    }

    /// The task that runs the command under the cursor, the placeholders of
    /// the environment entries `envs` replaced by their values.
    pub open spec fn selected_command(self, envs: Seq<(Seq<char>, Seq<char>)>) -> TaskView {
        TaskView::Command(with_envs(self.commands@[self.textlist.selected as int].1@, envs))
    }

    /// The key needs a command under the cursor.
    pub open spec fn key_needs_command(action: KeyAction) -> bool {
        action is MoveRight || action is End || action is Select
    }

    /// How a key changes the page and what it asks for: Select runs the
    /// command under the cursor and redraws; a move that succeeds redraws
    /// when there are commands; other keys leave the page as they found it.
    pub open spec fn key_applied(
        self,
        post: MainPage,
        action: KeyAction,
        envs: Seq<(Seq<char>, Seq<char>)>,
        fx: EffectsView,
        post_fx: EffectsView,
    ) -> bool {
        if action is Select {
            &&& post == self
            &&& post_fx == (EffectsView {
                tasks: fx.tasks.push(self.selected_command(envs)).push(TaskView::RenderAll),
                ..fx
            })
        } else {
            let (c, updated) = self.key_moved(action);
            &&& post == self.with_cursor(c)
            &&& post_fx == if updated && self.commands@.len() > 0 {
                EffectsView { tasks: fx.tasks.push(TaskView::RenderAll), render_image: true, ..fx }
            } else {
                fx
            }
        }
    }

    /// The channel page for `channel` with the given commands.
    pub fn new(channel: Item, commands: Vec<(String, String)>, grid: GridLayout) -> (r: MainPage)
        requires
            channel is FullChannel,
            grid.wf(),
            grid.columns@.len() >= 2,
            commands@.len() <= crate::listcursor::list_limit(),
        ensures
            r.wf(),
            r.channel == channel,
            r.iteminfo.item == Some(channel),
            r.grid == grid,
            r.commands@ == commands@,
            r.textlist.selected == 0,
            r.textlist.scroll == 0,
            r.textlist.height is None,
            r.textlist.ascii_only == false,
    {
        let textlist = textlist_of_commands(&commands);
        proof {
            assert(string_views(textlist.items@).len() == textlist.items@.len());
        }
        MainPage {
            iteminfo: ItemInfo::new(Some(channel.duplicate())),
            channel,
            grid,
            textlist,
            commands,
        }
    }

    /// The environment entries that a loaded channel page sets.
    pub fn load_envs(&self, settings: &Settings) -> (r: Vec<(String, String)>)
        requires
            self.wf(),
        ensures
            env_views(r@) == self.load_envs_view(*settings),
    {
        let id = self.channel.id_or_default();
        let url = match settings.provider {
            Provider::Invidious => settings.invidious_instance.clone().concat("/channel/").concat(
                id.as_str(),
            ),
            Provider::YouTube => String::from_str("'https://youtu.be/").concat(id.as_str()).concat(
                "'",
            ),
        };
        let name = match &self.channel {
            Item::FullChannel { name, .. } => name.clone(),
            _ => String::new(),
        };
        let mut r: Vec<(String, String)> = Vec::new();
        r.push((String::from_str("url"), url));
        r.push((String::from_str("id"), id));
        r.push((String::from_str("name"), name));
        assert(env_views(r@) =~= self.load_envs_view(*settings));
        r
    }

    /// Runs the command under the cursor, with the placeholders of the
    /// environment entries `envs` replaced by their values.
    pub fn select_at_cursor(&self, envs: &Vec<(String, String)>, fx: &mut Effects)
        requires
            self.wf(),
            self.commands@.len() > 0,
        ensures
            final(fx)@ == (EffectsView {
                tasks: old(fx)@.tasks.push(self.selected_command(env_views(envs@))),
                ..old(fx)@
            }),
    {
        let command = apply_envs(self.commands[self.textlist.selected].1.clone(), envs);
        fx.push_task(Task::Command(command));
    }

    /// Handles a key on the page.
    pub fn apply_key(&mut self, action: KeyAction, envs: &Vec<(String, String)>, fx: &mut Effects)
        requires
            old(self).wf(),
            MainPage::key_needs_command(action) ==> old(self).commands@.len() > 0,
        ensures
            final(self).wf(),
            old(self).key_applied(*final(self), action, env_views(envs@), old(fx)@, final(fx)@),
    {
        proof {
            lemma_moves_keep_fit(self.textlist);
        }
        let updated = match action {
            KeyAction::MoveUp => textlist_up(&mut self.textlist).is_ok(),
            KeyAction::MoveDown => textlist_down(&mut self.textlist).is_ok(),
            KeyAction::MoveLeft | KeyAction::First => textlist_first(&mut self.textlist).is_ok(),
            KeyAction::MoveRight | KeyAction::End => textlist_last(&mut self.textlist).is_ok(),
            KeyAction::Select => {
                self.select_at_cursor(envs, fx);
                fx.push_task(Task::RenderAll);
                return ;
            },
            KeyAction::Other => false,
        };
        if updated && !self.commands.is_empty() {
            fx.push_task(Task::RenderAll);
            fx.request_image();
        }
    }

    /// Handles a scroll message on the page; says whether the cursor moved
    /// successfully.
    pub fn apply_scroll(&mut self, text: &String) -> (updated: bool)
        requires
            old(self).wf(),
        ensures
            final(self).wf(),
            (final(self).textlist, updated) == scrolled_by(old(self).textlist, text@),
            *final(self) == old(self).with_cursor(final(self).textlist),
    {
        proof {
            lemma_moves_keep_fit(self.textlist);
        }
        scroll_by_message(&mut self.textlist, text)
    }
}


/// What a key does on the main page: up and down move the cursor one line
/// (staying within the commands), MoveLeft and First go to the first
/// command, MoveRight and End to the last, other keys change nothing, and
/// Select runs the command under the cursor, its placeholders replaced by
/// the environment entries, then redraws. The commands and the channel never
/// change, and a move on a page with commands that knows its height redraws.
pub proof fn law_main_keys(
    p: MainPage,
    action: KeyAction,
    envs: Seq<(Seq<char>, Seq<char>)>,
    fx: EffectsView,
    post: MainPage,
    post_fx: EffectsView,
)
    requires
        p.wf(),
        MainPage::key_needs_command(action) ==> p.commands@.len() > 0,
        p.key_applied(post, action, envs, fx, post_fx),
    ensures
        post.commands == p.commands,
        post.channel == p.channel,
        post.iteminfo == p.iteminfo,
        post.textlist.items == p.textlist.items,
        action is MoveUp ==> post.textlist.selected == (if p.textlist.selected > 0 {
            p.textlist.selected - 1
        } else {
            0
        }),
        action is MoveDown ==> post.textlist.selected == (if p.textlist.selected + 1
            < p.commands@.len() {
            p.textlist.selected + 1
        } else {
            p.textlist.selected as int
        }),
        action is MoveLeft || action is First ==> post.textlist.selected == 0,
        action is MoveRight || action is End ==> post.textlist.selected == p.commands@.len() - 1,
        action is Other ==> post == p && post_fx == fx,
        action is Select ==> {
            &&& post == p
            &&& post_fx.tasks == fx.tasks.push(
                TaskView::Command(with_envs(p.commands@[p.textlist.selected as int].1@, envs)),
            ).push(TaskView::RenderAll)
            &&& post_fx.render_image == fx.render_image
            &&& post_fx.message == fx.message
            &&& post_fx.envs == fx.envs
        },
        !(action is Select) && !(action is Other) && p.commands@.len() > 0 && fits(p.textlist.height)
            ==> post_fx.tasks == fx.tasks.push(TaskView::RenderAll) && post_fx.render_image,
{
    crate::listcursor::law_cursor_moves(p.textlist);
}

/// Loading the main page publishes the channel's link (its Invidious page,
/// or its quoted youtu.be link), its identifier and its name.
pub proof fn law_main_load_envs(p: MainPage, s: Settings)
    requires
        p.wf(),
    ensures
        ({
            let (id, name) = match p.channel {
                Item::FullChannel { id, name } => (id@, name@),
                _ => (Seq::empty(), Seq::empty()),
            };
            p.load_envs_view(s) == seq![
                ("url"@, if s.provider is Invidious {
                    s.invidious_instance@ + "/channel/"@ + id
                } else {
                    "'https://youtu.be/"@ + id + "'"@
                }),
                ("id"@, id),
                ("name"@, name),
            ]
        }),
{
}

} // verus!
