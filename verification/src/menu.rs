//! The menu's selection logic: a list of items, a highlighted index that
//! the up and down keys move with wrap-around, and a select key that
//! answers with the chosen index. Drawing the list is the surrounding
//! application's concern.

use vstd::prelude::*;

use crate::shared::{Key, KeyEvent};

verus! {

/// A selectable list: the items and the index of the highlighted one.
pub struct Menu {
    pub items: Vec<String>,
    pub index: usize,
}

impl Menu {
    /// The highlight always rests on an item.
    pub open spec fn wf(self) -> bool {
        &&& self.items@.len() > 0
        &&& self.index < self.items@.len()
    }

    /// A menu over the given items, highlighting the first.
    pub fn new(items: Vec<String>) -> (m: Menu)
        requires
            items@.len() > 0,
        ensures
            m.items == items,
            m.index == 0,
            m.wf(),
    {
        Menu { items, index: 0 }
    }

    /// Move the highlight down one item, wrapping to the top.
    fn down(&mut self)
        requires
            old(self).wf(),
        ensures
            final(self).items == old(self).items,
            final(self).index == (old(self).index + 1) as int % old(self).items@.len() as int,
            final(self).wf(),
    {
        let n = self.items.len();
        self.index = (self.index + 1) % n;
    }

    /// Move the highlight up one item, wrapping to the bottom.
    fn up(&mut self)
        requires
            old(self).wf(),
        ensures
            final(self).items == old(self).items,
            final(self).index == if old(self).index == 0 {
                old(self).items@.len() - 1
            } else {
                old(self).index - 1
            },
            final(self).wf(),
    {
        if self.index == 0 {
            self.index = self.items.len() - 1;
        } else {
            self.index = self.index - 1;
        }
    }

    /// Process one key event: down and up move the highlight and answer
    /// nothing, select answers the highlighted index, every other key is
    /// ignored.
    pub fn process(&mut self, event: KeyEvent) -> (r: Option<usize>)
        requires
            old(self).wf(),
        ensures
            final(self).items == old(self).items,
            final(self).wf(),
            match event {
                KeyEvent::Down(Key::Down) => r is None && final(self).index == (old(self).index
                    + 1) as int % old(self).items@.len() as int,
                KeyEvent::Down(Key::Up) => r is None && final(self).index == if old(self).index
                    == 0 {
                    old(self).items@.len() - 1
                } else {
                    old(self).index - 1
                },
                KeyEvent::Down(Key::Select) => r == Some(old(self).index) && final(self).index
                    == old(self).index,
                _ => r is None && final(self).index == old(self).index,
            },
    {
        match event {
            KeyEvent::Down(Key::Down) => {
                self.down();
                None
            },
            KeyEvent::Down(Key::Up) => {
                self.up();
                None
            },
            KeyEvent::Down(Key::Select) => Some(self.index),
            _ => None,
        }
    }
}

/// The demonstration application that is nothing but a menu.
pub struct AppMenu(pub Menu);

impl Default for AppMenu {
    /// The fruit-and-vegetable menu the demonstration starts with.
    fn default() -> (m: AppMenu)
        ensures
            m.0.index == 0,
            m.0.items.deep_view() == seq!["Apple"@, "Banana"@, "Carrot"@],
            m.0.wf(),
    {
        let mut items: Vec<String> = Vec::new();
        items.push(String::from_str("Apple"));
        items.push(String::from_str("Banana"));
        items.push(String::from_str("Carrot"));
        proof {
            assert(items.deep_view() =~= seq!["Apple"@, "Banana"@, "Carrot"@]);
        }
        AppMenu(Menu::new(items))
    }
}

} // verus!
