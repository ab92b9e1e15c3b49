use std::sync::Arc;
use vstd::prelude::*;

use crate::bounded::{clamp, wrap, BoundedUsize};
use crate::list_item::ListItem;
use crate::plugin::Plugin;
use crate::protocol::{self, ListStyle};

verus! {

/// Largest valid selection index for a list of `len` items.
pub open spec fn last_index(len: nat) -> nat {
    if len == 0 {
        0
    } else {
        (len - 1) as nat
    }
}

/// The selection after moving by `delta` from `sel` in a list whose last
/// index is `last`: from either end it wraps around, from inside it
/// saturates at the ends.
pub open spec fn moved(sel: nat, last: nat, delta: int) -> nat {
    if sel == 0 || sel == last {
        wrap(sel + delta, last + 1int) as nat
    } else {
        clamp(sel + delta, last as int) as nat
    }
}

/// The list of results shown, with the selected index and a layout hint.
#[derive(Debug)]
pub struct ResultList {
    items: Vec<ListItem>,
    selection: BoundedUsize,
    style: Option<ListStyle>,
}

impl ResultList {
    pub closed spec fn items_view(self) -> Seq<ListItem> {
        self.items@
    }

    pub closed spec fn sel(self) -> nat {
        self.selection.val()
    }

    pub closed spec fn style_view(self) -> Option<ListStyle> {
        self.style
    }

    /// The selection always lies within the list (0 when it is empty).
    pub closed spec fn wf(self) -> bool {
        &&& self.selection.wf()
        &&& self.selection.upper() == last_index(self.items@.len())
    }

    /// An empty list.
    pub fn new() -> (r: Self)
        ensures
            r.wf(),
            r.items_view().len() == 0,
            r.sel() == 0,
            r.style_view() is None,
    {
        ResultList { items: Vec::new(), selection: BoundedUsize::new_with_bound(0), style: None }
    }

    /// Replaces the whole list; the selection goes back to the first item.
    pub fn set(&mut self, items: Vec<ListItem>, style: Option<ListStyle>)
        ensures
            final(self).wf(),
            final(self).items_view() == items@,
            final(self).sel() == 0,
            final(self).style_view() == style,
    {
        let bound: usize = if items.len() == 0 {
            0
        } else {
            items.len() - 1
        };
        self.items = items;
        self.selection = BoundedUsize::new_with_bound(bound);
        self.style = style;
    }

    /// Adds the items of `other` after this list's own, as when a further
    /// plugin answers the same query. The layout hint stays this list's,
    /// and the selection goes back to the first item.
    pub fn append(&mut self, other: ResultList)
        ensures
            final(self).wf(),
            final(self).items_view() == old(self).items_view() + other.items_view(),
            final(self).sel() == 0,
            final(self).style_view() == old(self).style_view(),
    {
        let mut more = other.items;
        self.items.append(&mut more);
        let bound: usize = if self.items.len() == 0 {
            0
        } else {
            self.items.len() - 1
        };
        self.selection = BoundedUsize::new_with_bound(bound);
    }

    /// The list a plugin answered with: each item is tagged with that plugin.
    pub fn from_items(
        plugin: &Arc<Plugin>,
        items: Vec<protocol::ListItem>,
        style: Option<ListStyle>,
    ) -> (r: Self)
        ensures
            r.wf(),
            r.items_view().len() == items@.len(),
            forall|i: int|
                0 <= i < items@.len() ==> {
                    &&& (#[trigger] r.items_view()[i]).owner() == *plugin
                    &&& r.items_view()[i].data() == items@[i]
                },
            r.sel() == 0,
            r.style_view() == style,
    {
        let mut list: Vec<ListItem> = Vec::new();
        let mut rest = items;
        let ghost all = rest@;
        while rest.len() > 0
            invariant
                list@.len() + rest@.len() == all.len(),
                rest@ == all.subrange(list@.len() as int, all.len() as int),
                forall|i: int|
                    0 <= i < list@.len() ==> {
                        &&& (#[trigger] list@[i]).owner() == *plugin
                        &&& list@[i].data() == all[i]
                    },
            decreases rest@.len(),
        {
            let li = rest.remove(0);
            list.push(ListItem::new(plugin.clone(), li));
        }
        let bound: usize = if list.len() == 0 {
            0
        } else {
            list.len() - 1
        };
        ResultList { items: list, selection: BoundedUsize::new_with_bound(bound), style }
    }

    pub fn items(&self) -> (r: &[ListItem])
        ensures
            r@ == self.items_view(),
    {
        self.items.as_slice()
    }

    pub fn len(&self) -> (r: usize)
        ensures
            r == self.items_view().len(),
    {
        self.items.len()
    }

    pub fn is_empty(&self) -> (r: bool)
        ensures
            r == (self.items_view().len() == 0),
    {
        self.items.len() == 0
    }

    /// Index of the selected item.
    pub fn selection(&self) -> (r: usize)
        ensures
            r == self.sel(),
    {
        self.selection.value()
    }

    /// Selects `value`, or the last item if `value` lies past the end.
    pub fn set_selection(&mut self, value: usize)
        requires
            old(self).wf(),
        ensures
            final(self).wf(),
            final(self).items_view() == old(self).items_view(),
            final(self).style_view() == old(self).style_view(),
            final(self).sel() == clamp(value as int, last_index(old(self).items_view().len()) as int),
    {
        self.selection.saturating_set(value);
    }

    /// Moves the selection by `delta`. From the first or last item the move
    /// wraps around; from anywhere else it stops at the ends, so that a large
    /// jump lands on an end first and only a further move wraps.
    pub fn move_selection_signed(&mut self, delta: isize)
        requires
            old(self).wf(),
        ensures
            final(self).wf(),
            final(self).items_view() == old(self).items_view(),
            final(self).style_view() == old(self).style_view(),
            final(self).sel() == moved(old(self).sel(), last_index(old(self).items_view().len()), delta as int),
    {
        if self.selection.is_at_bounds() {
            self.selection.wrapping_add_signed(delta);
        } else {
            self.selection.saturating_add_signed(delta);
        }
    }

    /// The selected item; `None` exactly when the list is empty.
    pub fn selected_item(&self) -> (r: Option<&ListItem>)
        requires
            self.wf(),
        ensures
            self.items_view().len() == 0 ==> r is None,
            self.items_view().len() > 0 ==> self.sel() < self.items_view().len() && r == Some(&self.items_view()[self.sel() as int]),
    {
        let i = self.selection.value();
        if i < self.items.len() {
            Some(&self.items[i])
        } else {
            None
        }
    }

    pub fn style(&self) -> (r: Option<ListStyle>)
        ensures
            r == self.style_view(),
    {
        self.style
    }
}

impl Default for ResultList {
    fn default() -> (r: Self)
        ensures
            r.wf(),
            r.items_view().len() == 0,
            r.sel() == 0,
            r.style_view() is None,
    {
        Self::new()
    }
}

} // verus!
