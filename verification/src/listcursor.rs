use vstd::prelude::*;
use tui_additions::widgets::{TextList, TextListError};
use crate::item::string_views;

verus! {

#[verifier::external_type_specification]
#[verifier::external_body]
pub struct ExTextListError(TextListError);

/// What the channel page reads and writes of a text list widget: the lines it
/// shows, the selected line, how far it is scrolled, the height it was last
/// given, and whether it shows ASCII only.
#[derive(Clone)]
pub struct ListCursor {
    pub items: Vec<String>,
    pub selected: usize,
    pub scroll: usize,
    pub height: Option<u16>,
    pub ascii_only: bool,
}

/// The list can bring its cursor on screen: it knows its height, and the
/// height leaves room for a line between the borders.
pub open spec fn fits(height: Option<u16>) -> bool {
    height matches Some(h) && h > 2
}

/// How far a list with cursor `selected` is scrolled once the cursor was
/// brought on screen (the scroll stays where it was when the list cannot).
pub open spec fn settled_scroll(selected: int, scroll: int, height: Option<u16>) -> int {
    match height {
        Some(h) => if h <= 2 {
            scroll
        } else if selected < scroll {
            selected
        } else if scroll + (h - 2) <= selected {
            selected - (h - 2) + 1
        } else {
            scroll
        },
        None => scroll,
    }
}

/// A bound on list lengths and positions, far below what a `Vec` of items can
/// ever hold; it keeps cursor arithmetic within `usize`.
pub open spec fn list_limit() -> int {
    usize::MAX as int / 4
}

/// The list holds at most `list_limit()` lines, its cursor is on a line
/// whenever there are lines, and cursor and scroll stay below the limit.
pub open spec fn cursor_fits(c: ListCursor) -> bool {
    &&& cursor_bounded(c)
    &&& c.items@.len() > 0 ==> c.selected < c.items@.len()
}

/// The list holds at most `list_limit()` lines, and cursor and scroll stay
/// below the limit (the cursor may be past the end).
pub open spec fn cursor_bounded(c: ListCursor) -> bool {
    &&& c.items@.len() <= list_limit()
    &&& c.selected <= list_limit()
    &&& c.scroll <= list_limit()
}

/// Bringing the cursor on screen scrolls no further than the cursor or the
/// previous scroll.
pub proof fn lemma_settled_scroll_bound(selected: int, scroll: int, height: Option<u16>)
    requires
        0 <= selected,
        0 <= scroll,
    ensures
        0 <= settled_scroll(selected, scroll, height),
        settled_scroll(selected, scroll, height) <= selected || settled_scroll(selected, scroll, height) == scroll,
{
}

/// The cursor moves keep a list within its bounds.
pub proof fn lemma_moves_keep_fit(c: ListCursor)
    requires
        cursor_fits(c),
    ensures
        cursor_fits(c.after_up()),
        cursor_fits(c.after_down()),
        cursor_fits(c.after_first()),
        c.items@.len() > 0 ==> cursor_fits(c.after_last()),
{
    if c.selected > 0 {
        lemma_settled_scroll_bound(c.selected - 1, c.scroll as int, c.height);
    }
    lemma_settled_scroll_bound(c.selected + 1, c.scroll as int, c.height);
    lemma_settled_scroll_bound(0, c.scroll as int, c.height);
    if c.items@.len() > 0 {
        lemma_settled_scroll_bound(c.items@.len() - 1, c.scroll as int, c.height);
    }
}

/// Bringing the cursor on screen leaves it on screen: on a list that knows a
/// height with room for lines, the cursor ends up among the visible lines.
pub proof fn law_cursor_on_screen(selected: int, scroll: int, h: u16)
    requires
        0 <= selected,
        0 <= scroll,
        h > 2,
    ensures
        settled_scroll(selected, scroll, Some(h)) <= selected < settled_scroll(selected, scroll, Some(h))
            + (h - 2),
{
}

/// A step down followed by a step up brings the cursor back to its line,
/// when there is a line below it.
pub proof fn law_down_then_up(c: ListCursor)
    requires
        cursor_fits(c),
        c.can_go_down(),
    ensures
        c.after_down().after_up().selected == c.selected,
{
}

/// Going to the first line puts the cursor on line 0, and going to the last
/// line of a non-empty list puts it on the last line.
pub proof fn law_first_and_last(c: ListCursor)
    requires
        cursor_fits(c),
    ensures
        c.after_first().selected == 0,
        c.items@.len() > 0 ==> c.after_last().selected == c.items@.len() - 1,
{
}

/// What each move does to the cursor of a list with `n` lines and the
/// cursor on line `k`: up goes to `k - 1` (staying on the first line), down
/// to `k + 1` (staying on the last), first to 0, last to `n - 1`; no move
/// changes the lines; and a move that changes the line succeeds exactly
/// when the list knows a height with room for a line.
pub proof fn law_cursor_moves(c: ListCursor)
    requires
        cursor_fits(c),
    ensures
        c.after_up().selected == (if c.selected > 0 { c.selected - 1 } else { 0 }),
        c.after_down().selected == (if c.selected + 1 < c.items@.len() { c.selected + 1 } else { c.selected as int }),
        c.after_first().selected == 0,
        c.items@.len() > 0 ==> c.after_last().selected == c.items@.len() - 1,
        c.after_up().items == c.items && c.after_down().items == c.items,
        c.after_first().items == c.items && c.after_last().items == c.items,
        c.after_up().height == c.height && c.after_down().height == c.height,
        c.after_first().height == c.height && c.after_last().height == c.height,
        c.up_ok() == (c.selected == 0 || fits(c.height)),
        c.down_ok() == (c.selected + 1 >= c.items@.len() || fits(c.height)),
        c.first_ok() == (c.selected == 0 || fits(c.height)),
        c.items@.len() > 0 ==> c.last_ok() == (c.selected == c.items@.len() - 1 || fits(c.height)),
{
}

/// Where a click on line `row` of a list puts the cursor, when it does not
/// fall on the cursor box (lines `k` to `k + 2` for a cursor on line `k`):
/// above the box, on the clicked line; below it, two lines up, so that the
/// clicked line is the box's text; past the end of a non-empty list, on the
/// last line. The lines, the height and the character set stay, a click
/// within the list leaves the scroll where it was, and the cursor stays on a
/// line.
pub proof fn law_click_moves_cursor(c: ListCursor, row: int)
    requires
        cursor_fits(c),
        0 <= row <= list_limit(),
        !c.hits_cursor(row),
    ensures
        row < c.selected ==> c.clicked(row).selected == row,
        row > c.selected + 2 && (c.items@.len() == 0 || row <= c.items@.len() + 1)
            ==> c.clicked(row).selected == row - 2,
        c.items@.len() > 0 && row > c.items@.len() + 1 ==> c.clicked(row).selected == c.items@.len() - 1,
        c.clicked(row).items == c.items,
        c.clicked(row).height == c.height,
        c.clicked(row).ascii_only == c.ascii_only,
        c.items@.len() == 0 || row <= c.items@.len() + 1 ==> c.clicked(row).scroll == c.scroll,
        c.items@.len() > 0 ==> c.clicked(row).selected < c.items@.len(),
{
}

/// A click falls on the cursor box exactly when it is on the cursor's line
/// or one of the two lines below it.
pub proof fn law_click_hits_cursor_box(c: ListCursor, row: int)
    ensures
        c.hits_cursor(row) <==> c.selected <= row <= c.selected + 2,
{
}

impl ListCursor {
    /// The cursor moved to line `target` and brought on screen.
    pub open spec fn moved_to(self, target: int) -> ListCursor {
        ListCursor {
            selected: target as usize,
            scroll: settled_scroll(target, self.scroll as int, self.height) as usize,
            ..self
        }
    }

    /// The list after one line up.
    pub open spec fn after_up(self) -> ListCursor {
        if self.selected != 0 {
            self.moved_to(self.selected - 1)
        } else {
            self
        }
    }

    /// Whether one line up succeeds.
    pub open spec fn up_ok(self) -> bool {
        self.selected == 0 || fits(self.height)
    }

    /// There is a line below the cursor.
    pub open spec fn can_go_down(self) -> bool {
        self.items@.len() > 0 && self.selected < self.items@.len() - 1
    }

    /// The list after one line down.
    pub open spec fn after_down(self) -> ListCursor {
        if self.can_go_down() {
            self.moved_to(self.selected + 1)
        } else {
            self
        }
    }

    /// Whether one line down succeeds.
    pub open spec fn down_ok(self) -> bool {
        !self.can_go_down() || fits(self.height)
    }

    /// The list after going to its first line.
    pub open spec fn after_first(self) -> ListCursor {
        if self.selected == 0 {
            self
        } else {
            self.moved_to(0)
        }
    }

    /// Whether going to the first line succeeds.
    pub open spec fn first_ok(self) -> bool {
        self.selected == 0 || fits(self.height)
    }

    /// The list after going to its last line.
    pub open spec fn after_last(self) -> ListCursor {
        if self.selected == self.items@.len() - 1 {
            self
        } else {
            self.moved_to(self.items@.len() - 1)
        }
    }

    /// Whether going to the last line succeeds.
    pub open spec fn last_ok(self) -> bool {
        self.selected == self.items@.len() - 1 || fits(self.height)
    }

    /// The scroll of the list once its lines were replaced.
    pub open spec fn scroll_after_set_items(self) -> int {
        if self.height is Some {
            settled_scroll(self.selected as int, self.scroll as int, self.height)
        } else {
            self.scroll as int
        }
    }

    /// A click on line `row` falls on the cursor box, which is three lines high.
    pub open spec fn hits_cursor(self, row: int) -> bool {
        row == self.selected || row == self.selected + 1 || row == self.selected + 2
    }

    /// The list after a click on line `row` outside the cursor box: below the
    /// end of a non-empty list the cursor goes to the last line, above the box
    /// it goes to the clicked line, and below the box to the line that the
    /// click shows once the box has moved there.
    pub open spec fn clicked(self, row: int) -> ListCursor {
        if self.items@.len() > 0 && row > self.items@.len() + 1 {
            self.after_last()
        } else if row <= self.selected {
            ListCursor { selected: row as usize, ..self }
        } else if row >= self.selected + 2 {
            ListCursor { selected: (row - 2) as usize, ..self }
        } else {
            self
        }
    }

    /// Handles a click on line `row` of the list (counted from the first line,
    /// not from the top of the screen); says whether it fell on the cursor,
    /// which leaves the list as it was.
    pub fn click_row(&mut self, row: usize) -> (hit: bool)
        requires
            old(self).scroll + 65536 <= usize::MAX,
            old(self).selected + 2 <= usize::MAX,
            old(self).items@.len() + 1 <= usize::MAX,
        ensures
            hit == old(self).hits_cursor(row as int),
            hit ==> *final(self) == *old(self),
            !hit ==> *final(self) == old(self).clicked(row as int),
    {
        if row == self.selected || row == self.selected + 2 || row == self.selected + 1 {
            return true;
        }
        if self.items.len() != 0 && row > self.items.len() + 1 {
            let _ = textlist_last(self);
        } else if row <= self.selected {
            self.selected = row;
        } else if row >= self.selected + 2 {
            self.selected = row - 2;
        }
        false
    }

    /// Gives the list the height it is drawn with.
    pub fn set_height(&mut self, height: u16)
        ensures
            *final(self) == (ListCursor { height: Some(height), ..*old(self) }),
    {
        self.height = Some(height);
    }
}

/// A text list as `TextList::default` makes it.
///
/// Trusted: calls `tui_additions::widgets::TextList::default` and claims that
/// the list has no lines, its cursor on the first line, no scroll, no height,
/// and does not restrict itself to ASCII, as that function's source sets them.
#[verifier::external_body]
pub(crate) fn textlist_default() -> (r: ListCursor)
    ensures
        r.items@.len() == 0,
        r.selected == 0,
        r.scroll == 0,
        r.height is None,
        r.ascii_only == false,
{
    let t = TextList::default();
    ListCursor {
        items: t.items,
        selected: t.selected,
        scroll: t.scroll,
        height: t.height,
        ascii_only: t.ascii_only,
    }
}

/// Moves the cursor one line up.
///
/// Trusted: calls `TextList::up` on a list with these lines, cursor, scroll
/// and height, and claims what its source does: the cursor goes up unless it
/// is on the first line, and the list is then scrolled so that the cursor is
/// on screen; that fails, with the cursor moved all the same, when the height
/// is unknown or leaves no room for a line.
#[verifier::external_body]
pub(crate) fn textlist_up(c: &mut ListCursor) -> (r: Result<(), TextListError>)
    requires
        old(c).scroll + 65536 <= usize::MAX,
    ensures
        *final(c) == old(c).after_up(),
        r.is_ok() == old(c).up_ok(),
{
    let mut t = TextList { items: c.items.clone(), selected: c.selected, scroll: c.scroll, height: c.height, ..TextList::default() };
    let r = t.up();
    c.selected = t.selected;
    c.scroll = t.scroll;
    r
}

/// Moves the cursor one line down.
///
/// Trusted: calls `TextList::down` and claims what its source does: the
/// cursor goes down unless the list is empty or the cursor is on its last
/// line, and the list is then scrolled as by `TextList::up`, failing as it
/// does.
#[verifier::external_body]
pub(crate) fn textlist_down(c: &mut ListCursor) -> (r: Result<(), TextListError>)
    requires
        old(c).scroll + 65536 <= usize::MAX,
    ensures
        *final(c) == old(c).after_down(),
        r.is_ok() == old(c).down_ok(),
{
    let mut t = TextList { items: c.items.clone(), selected: c.selected, scroll: c.scroll, height: c.height, ..TextList::default() };
    let r = t.down();
    c.selected = t.selected;
    c.scroll = t.scroll;
    r
}

/// Moves the cursor to the first line.
///
/// Trusted: calls `TextList::first` and claims what its source does: unless
/// the cursor is there already, it goes to the first line and the list is
/// scrolled as by `TextList::up`, failing as it does.
#[verifier::external_body]
pub(crate) fn textlist_first(c: &mut ListCursor) -> (r: Result<(), TextListError>)
    requires
        old(c).scroll + 65536 <= usize::MAX,
    ensures
        *final(c) == old(c).after_first(),
        r.is_ok() == old(c).first_ok(),
{
    let mut t = TextList { items: c.items.clone(), selected: c.selected, scroll: c.scroll, height: c.height, ..TextList::default() };
    let r = t.first();
    c.selected = t.selected;
    c.scroll = t.scroll;
    r
}

/// Moves the cursor to the last line.
///
/// Trusted: calls `TextList::last` and claims what its source does: unless
/// the cursor is there already, it goes to the last line and the list is
/// scrolled as by `TextList::up`, failing as it does. On an empty list the
/// source subtracts one from zero, so that input is left out.
#[verifier::external_body]
pub(crate) fn textlist_last(c: &mut ListCursor) -> (r: Result<(), TextListError>)
    requires
        old(c).items@.len() > 0,
        old(c).scroll + 65536 <= usize::MAX,
    ensures
        *final(c) == old(c).after_last(),
        r.is_ok() == old(c).last_ok(),
{
    let mut t = TextList { items: c.items.clone(), selected: c.selected, scroll: c.scroll, height: c.height, ..TextList::default() };
    let r = t.last();
    c.selected = t.selected;
    c.scroll = t.scroll;
    r
}

/// Replaces the lines of the list.
///
/// Trusted: calls `TextList::set_items` with the given lines and claims what
/// its source does: the list then shows each line as it is written, and when
/// the list knows a height it is scrolled as by `TextList::up` (a failure of
/// that is dropped); the cursor stays where it was.
#[verifier::external_body]
pub(crate) fn textlist_set_items(c: &mut ListCursor, lines: &Vec<String>)
    requires
        old(c).scroll + 65536 <= usize::MAX,
    ensures
        string_views(final(c).items@) == string_views(lines@),
        final(c).selected == old(c).selected,
        final(c).scroll == old(c).scroll_after_set_items(),
        final(c).height == old(c).height,
        final(c).ascii_only == old(c).ascii_only,
{
    let mut t = TextList { selected: c.selected, scroll: c.scroll, height: c.height, ..TextList::default() };
    let _ = t.set_items(lines.as_slice());
    c.items = t.items;
    c.scroll = t.scroll;
}

} // verus!
