//! The highlights that Neovim has defined, by their ids.

use std::collections::hash_map::Entry;
use std::collections::HashMap;

use vstd::prelude::*;

use crate::color::{Color, Highlight};

verus! {

/// What the highlight definitions hold.
#[verifier::ext_equal]
pub struct HlView {
    pub defs: Map<u64, Highlight>,
    pub default_fg: Color,
    pub default_bg: Color,
    pub default_sp: Color,
}

/// Highlight definitions, and the colours of text that no highlight colours.
pub struct HlDefs {
    pub hl_defs: HashMap<u64, Highlight>,
    pub default_fg: Color,
    pub default_bg: Color,
    pub default_sp: Color,
}

impl View for HlDefs {
    type V = HlView;

    open spec fn view(&self) -> HlView {
        HlView {
            defs: self.hl_defs@,
            default_fg: self.default_fg,
            default_bg: self.default_bg,
            default_sp: self.default_sp,
        }
    }
}

/// No definitions, and all colours black.
pub open spec fn no_highlights() -> HlView {
    let black = Color { r: 0, g: 0, b: 0 };
    HlView { defs: Map::empty(), default_fg: black, default_bg: black, default_sp: black }
}

impl Default for HlDefs {
    /// No definitions, and all colours black.
    fn default() -> (defs: Self)
        ensures
            defs@ == no_highlights(),
    {
        let black = Color { r: 0, g: 0, b: 0 };
        HlDefs {
            hl_defs: HashMap::new(),
            default_fg: black,
            default_bg: black,
            default_sp: black,
        }
    }
}

impl HlDefs {
    /// The highlight with this id, open to change, if it is defined.
    pub fn get_mut(&mut self, id: &u64) -> (hl: Option<&mut Highlight>)
        ensures
            match hl {
                Some(hl) => {
                    &&& old(self)@.defs.contains_key(*id)
                    &&& *hl == old(self)@.defs[*id]
                    &&& final(self)@ == (HlView {
                        defs: old(self)@.defs.insert(*id, *final(hl)),
                        ..old(self)@
                    })
                },
                None => {
                    &&& !old(self)@.defs.contains_key(*id)
                    &&& final(self)@ == old(self)@
                },
            },
    {
        match self.hl_defs.entry(*id) {
            Entry::Occupied(entry) => Some(entry.into_mut()),
            Entry::Vacant(_) => None,
        }
    }

    /// The highlight with this id, if it is defined.
    pub fn get(&self, id: &u64) -> (hl: Option<&Highlight>)
        ensures
            match hl {
                Some(hl) => self@.defs.contains_key(*id) && *hl == self@.defs[*id],
                None => !self@.defs.contains_key(*id),
            },
    {
        self.hl_defs.get(id)
    }

    /// Defines the highlight with this id, and returns the one that it had
    /// before.
    pub fn insert(&mut self, id: u64, hl: Highlight) -> (before: Option<Highlight>)
        ensures
            final(self)@ == (HlView { defs: old(self)@.defs.insert(id, hl), ..old(self)@ }),
            match before {
                Some(hl) => old(self)@.defs.contains_key(id) && hl == old(self)@.defs[id],
                None => !old(self)@.defs.contains_key(id),
            },
    {
        self.hl_defs.insert(id, hl)
    }
}

/// At first nothing is defined, and the colours of all text are black.
pub proof fn law_nothing_is_defined_at_first(id: u64)
    ensures
        !no_highlights().defs.contains_key(id),
        no_highlights().default_fg == (Color { r: 0, g: 0, b: 0 }),
        no_highlights().default_bg == (Color { r: 0, g: 0, b: 0 }),
        no_highlights().default_sp == (Color { r: 0, g: 0, b: 0 }),
{
}

} // verus!
