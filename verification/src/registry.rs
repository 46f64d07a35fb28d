use crate::error::CoreError;
use crate::window::{
    destroy_plan, draw_plan, has_area, resize_plan, Command, GeoWindow, WindowView,
};
use std::collections::HashMap;
use vstd::prelude::*;

verus! {

/// Whether `records` can be the contents of a registry: finitely many
/// records, each filed under its own identity and each with a surface that has
/// an area.
pub open spec fn valid_records(records: Map<u64, WindowView>) -> bool {
    &&& records.dom().finite()
    &&& forall|id: u64| #[trigger]
        records.contains_key(id) ==> records[id].id == id && records[id].wf()
}

/// The records of the live windows, keyed by window identity.
///
/// The view of a registry is the map from the identity of each live window to
/// its record.
pub struct WindowRegistry {
    records: HashMap<u64, GeoWindow>,
}

impl WindowRegistry {
    pub closed spec fn view(&self) -> Map<u64, WindowView> {
        self.records@.map_values(|window: GeoWindow| window@)
    }

    /// The invariant of the type: see [`valid_records`].
    pub open spec fn wf(&self) -> bool {
        valid_records(self@)
    }

    /// A registry without windows.
    pub fn new() -> (registry: Self)
        ensures
            registry.wf(),
            registry@ == Map::<u64, WindowView>::empty(),
    {
        let registry = WindowRegistry { records: HashMap::new() };
        registry
    }

    /// The number of live windows.
    pub fn len(&self) -> (count: usize)
        ensures
            count == self@.len(),
    {
        broadcast use vstd::std_specs::hash::group_hash_axioms;

        assert(self@.dom() =~= self.records@.dom());
        self.records.len()
    }

    /// Whether no window is live.
    pub fn is_empty(&self) -> (empty: bool)
        ensures
            empty == self@.is_empty(),
    {
        broadcast use vstd::std_specs::hash::group_hash_axioms;

        self.records.is_empty()
    }

    /// Whether the window `id` is live.
    pub fn contains(&self, id: u64) -> (found: bool)
        ensures
            found == self@.contains_key(id),
    {
        broadcast use vstd::std_specs::hash::group_hash_axioms;

        self.records.contains_key(&id)
    }

    /// The record of the window `id`, if it is live.
    pub fn get(&self, id: u64) -> (found: Option<&GeoWindow>)
        ensures
            match found {
                Some(window) => self@.contains_key(id) && window@ == self@[id],
                None => !self@.contains_key(id),
            },
    {
        broadcast use vstd::std_specs::hash::group_hash_axioms;

        self.records.get(&id)
    }

    /// Files `window` under its identity. A record that was filed under the
    /// same identity leaves the registry and is handed back.
    pub fn insert(&mut self, window: GeoWindow) -> (replaced: Option<GeoWindow>)
        requires
            old(self).wf(),
        ensures
            final(self).wf(),
            final(self)@ == old(self)@.insert(window@.id, window@),
            match replaced {
                Some(before) => {
                    &&& old(self)@.contains_key(window@.id)
                    &&& before@ == old(self)@[window@.id]
                },
                None => !old(self)@.contains_key(window@.id),
            },
    {
        broadcast use vstd::std_specs::hash::group_hash_axioms;

        proof {
            use_type_invariant(&window);
        }
        let id: u64 = window.id();
        let replaced = self.records.insert(id, window);
        assert(self@ =~= old(self)@.insert(id, window@));
        replaced
    }

    /// Takes the record of the window `id` out of the registry and plans the
    /// release of what belongs to the window. Nothing happens, and nothing is
    /// planned, where the window is not live.
    pub fn remove(&mut self, id: u64) -> (plan: Vec<Command>)
        requires
            old(self).wf(),
        ensures
            final(self).wf(),
            final(self)@ == old(self)@.remove(id),
            plan@ == if old(self)@.contains_key(id) {
                destroy_plan(id)
            } else {
                Seq::<Command>::empty()
            },
    {
        broadcast use vstd::std_specs::hash::group_hash_axioms;

        let removed = self.records.remove(&id);
        assert(self@ =~= old(self)@.remove(id));
        match removed {
            Some(window) => window.destroy(),
            None => Vec::new(),
        }
    }

    /// Plans one redraw of the window `id`. Nothing is planned for a window
    /// that is not live.
    pub fn redraw(&self, id: u64) -> (plan: Vec<Command>)
        requires
            self.wf(),
        ensures
            plan@ == if self@.contains_key(id) {
                draw_plan(id)
            } else {
                Seq::<Command>::empty()
            },
    {
        match self.get(id) {
            Some(window) => window.draw(),
            None => Vec::new(),
        }
    }

    /// Gives the surface of the window `id` a new size and plans what follows.
    ///
    /// Nothing happens where the window is not live. For a live window a size
    /// without an area is refused with [`CoreError::ZeroSize`], and the
    /// registry stays as it was.
    pub fn resize(
        &mut self,
        id: u64,
        width: u32,
        height: u32,
    ) -> (planned: Result<Vec<Command>, CoreError>)
        requires
            old(self).wf(),
        ensures
            final(self).wf(),
            match planned {
                Ok(plan) => {
                    &&& old(self)@.contains_key(id) ==> has_area(width, height)
                    &&& final(self)@ == resized_records(old(self)@, id, width, height)
                    &&& plan@ == if old(self)@.contains_key(id) {
                        resize_plan(id, width, height)
                    } else {
                        Seq::<Command>::empty()
                    }
                },
                Err(error) => {
                    &&& old(self)@.contains_key(id)
                    &&& !has_area(width, height)
                    &&& error == CoreError::ZeroSize
                    &&& final(self)@ == old(self)@
                },
            },
    {
        broadcast use vstd::std_specs::hash::group_hash_axioms;

        if !self.records.contains_key(&id) {
            return Ok(Vec::new());
        }
        if width == 0 || height == 0 {
            return Err(CoreError::ZeroSize);
        }
        let removed = self.records.remove(&id);
        match removed {
            Some(window) => {
                let mut window = window;
                let planned = window.resize(width, height);
                self.records.insert(id, window);
                planned
            },
            None => Ok(Vec::new()),
        }
    }
}

/// The records after the surface of the window `id` took a new size; the
/// same records where that window is not live.
pub open spec fn resized_records(
    records: Map<u64, WindowView>,
    id: u64,
    width: u32,
    height: u32,
) -> Map<u64, WindowView> {
    if records.contains_key(id) {
        records.insert(id, records[id].resized(width, height))
    } else {
        records
    }
}

} // verus!
