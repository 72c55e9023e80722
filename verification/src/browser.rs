//! The state of the interactive browser: which list is shown and which
//! entry of it is selected.

use vstd::prelude::*;

use crate::model::Config;

verus! {

/// The lists the browser can show.
#[derive(Debug, Clone, Copy, PartialEq, Eq, Structural)]
pub enum Tab {
    Spaces,
    Projects,
    Changes,
}

/// The tab that follows `t`, wrapping round after the last.
pub open spec fn tab_after(t: Tab) -> Tab {
    match t {
        Tab::Spaces => Tab::Projects,
        Tab::Projects => Tab::Changes,
        Tab::Changes => Tab::Spaces,
    }
}

/// The heading of tab `t`.
pub open spec fn tab_heading(t: Tab) -> Seq<char> {
    match t {
        Tab::Spaces => "Spaces"@,
        Tab::Projects => "Projects"@,
        Tab::Changes => "Changes"@,
    }
}

/// Where tab `t` stands in the tab bar.
pub open spec fn tab_position(t: Tab) -> int {
    match t {
        Tab::Spaces => 0,
        Tab::Projects => 1,
        Tab::Changes => 2,
    }
}

impl Tab {
    /// Every tab, in the order the tab bar shows them.
    pub fn all() -> (r: [Tab; 3])
        ensures
            r@ == seq![Tab::Spaces, Tab::Projects, Tab::Changes],
    {
        [Tab::Spaces, Tab::Projects, Tab::Changes]
    }

    /// Where this tab stands in the tab bar.
    pub fn position(self) -> (r: usize)
        ensures
            r == tab_position(self),
    {
        match self {
            Tab::Spaces => 0,
            Tab::Projects => 1,
            Tab::Changes => 2,
        }
    }

    pub fn title(self) -> (r: &'static str)
        ensures
            r@ == tab_heading(self),
    {
        match self {
            Tab::Spaces => "Spaces",
            Tab::Projects => "Projects",
            Tab::Changes => "Changes",
        }
    }

    pub fn next(self) -> (r: Tab)
        ensures
            r == tab_after(self),
    {
        match self {
            Tab::Spaces => Tab::Projects,
            Tab::Projects => Tab::Changes,
            Tab::Changes => Tab::Spaces,
        }
    }
}

/// A key the browser reacts to.
#[derive(Debug, Clone, Copy, PartialEq, Eq, Structural)]
pub enum Key {
    Char(char),
    Down,
    Up,
    Tab,
    Other,
}

/// The modifier keys held with a key: none, Control alone, or any other mix.
#[derive(Debug, Clone, Copy, PartialEq, Eq, Structural)]
pub enum Modifiers {
    Plain,
    Control,
    Other,
}

/// What the browser does on a key.
#[derive(Debug, Clone, Copy, PartialEq, Eq, Structural)]
pub enum Action {
    Quit,
    Next,
    Prev,
    NextTab,
    Ignore,
}

/// The action bound to key `k` held with modifiers `m`: `q` alone or
/// Control-`c` quits; Down or `j` selects the next entry and Up or `k` the
/// previous one, and Tab shows the next tab, whatever modifiers are held.
pub open spec fn key_action(m: Modifiers, k: Key) -> Action {
    match k {
        Key::Char(c) => if (m == Modifiers::Control && c == 'c') || (m == Modifiers::Plain && c == 'q') {
            Action::Quit
        } else if c == 'j' {
            Action::Next
        } else if c == 'k' {
            Action::Prev
        } else {
            Action::Ignore
        },
        Key::Down => Action::Next,
        Key::Up => Action::Prev,
        Key::Tab => Action::NextTab,
        Key::Other => Action::Ignore,
    }
}

/// The action bound to key `k` held with modifiers `m`.
pub fn action_for(m: Modifiers, k: Key) -> (r: Action)
    ensures
        r == key_action(m, k),
{
    match k {
        Key::Char(c) => {
            let quits = match m {
                Modifiers::Control => c == 'c',
                Modifiers::Plain => c == 'q',
                Modifiers::Other => false,
            };
            if quits {
                Action::Quit
            } else if c == 'j' {
                Action::Next
            } else if c == 'k' {
                Action::Prev
            } else {
                Action::Ignore
            }
        },
        Key::Down => Action::Next,
        Key::Up => Action::Prev,
        Key::Tab => Action::NextTab,
        Key::Other => Action::Ignore,
    }
}

/// The browser: the workspace shown, the tab shown and the selected entry.
pub struct App {
    pub config: Config,
    pub active_tab: Tab,
    pub selected: usize,
}

impl App {
    /// How many entries the shown tab lists.
    pub open spec fn shown_len(&self) -> nat {
        match self.active_tab {
            Tab::Spaces => self.config.spaces@.len(),
            Tab::Projects => self.config.projects@.len(),
            Tab::Changes => self.config.changes@.len(),
        }
    }

    /// The browser on the spaces tab, first entry selected.
    pub fn new(config: Config) -> (r: Self)
        ensures
            r.config == config,
            r.active_tab == Tab::Spaces,
            r.selected == 0,
    {
        App { config, active_tab: Tab::Spaces, selected: 0 }
    }

    /// Shows the next tab, its first entry selected.
    pub fn next_tab(&mut self)
        ensures
            final(self).config == old(self).config,
            final(self).active_tab == tab_after(old(self).active_tab),
            final(self).selected == 0,
    {
        self.active_tab = self.active_tab.next();
        self.selected = 0;
    }

    /// Selects the next entry, wrapping round after the last; an empty list
    /// leaves the selection alone.
    pub fn next(&mut self)
        requires
            old(self).selected < usize::MAX,
        ensures
            final(self).config == old(self).config,
            final(self).active_tab == old(self).active_tab,
            final(self).selected == (if old(self).shown_len() > 0 {
                ((old(self).selected + 1) % (old(self).shown_len() as int)) as usize
            } else {
                old(self).selected
            }),
    {
        let len = self.list_len();
        if len > 0 {
            self.selected = (self.selected + 1) % len;
        }
    }

    /// Selects the previous entry, stopping at the first; an empty list
    /// leaves the selection alone.
    pub fn prev(&mut self)
        ensures
            final(self).config == old(self).config,
            final(self).active_tab == old(self).active_tab,
            final(self).selected == (if old(self).shown_len() > 0 && old(self).selected > 0 {
                (old(self).selected - 1) as usize
            } else {
                old(self).selected
            }),
    {
        let len = self.list_len();
        if len > 0 {
            self.selected = self.selected.saturating_sub(1);
        }
    }

    /// Carries out `a`; quitting is left to the caller and changes nothing
    /// here.  Selecting the next entry is skipped when the selection cannot
    /// move further.
    pub fn apply(&mut self, a: Action)
        ensures
            final(self).config == old(self).config,
            final(self).active_tab == (if a == Action::NextTab {
                tab_after(old(self).active_tab)
            } else {
                old(self).active_tab
            }),
            final(self).selected == match a {
                Action::Next => if old(self).shown_len() > 0 && old(self).selected < usize::MAX {
                    ((old(self).selected + 1) % (old(self).shown_len() as int)) as usize
                } else {
                    old(self).selected
                },
                Action::Prev => if old(self).shown_len() > 0 && old(self).selected > 0 {
                    (old(self).selected - 1) as usize
                } else {
                    old(self).selected
                },
                Action::NextTab => 0,
                _ => old(self).selected,
            },
    {
        match a {
            Action::Next => {
                if self.selected < usize::MAX {
                    self.next();
                }
            },
            Action::Prev => self.prev(),
            Action::NextTab => self.next_tab(),
            _ => {},
        }
    }

    fn list_len(&self) -> (r: usize)
        ensures
            r == self.shown_len(),
    {
        match self.active_tab {
            Tab::Spaces => self.config.spaces.len(),
            Tab::Projects => self.config.projects.len(),
            Tab::Changes => self.config.changes.len(),
        }
    }
}

} // verus!
