//! The session behind a window that is asked for its extent on each click.

use vstd::prelude::*;

use crate::square::{has_room, spawn_visual, spawned_visual, SpawnError, Visual};
use crate::visual_tree::{grows_by_one, VisualTree};

verus! {

/// The visuals spawned so far into the root container of a window.
pub struct Application {
    container_visual: VisualTree,
}

impl View for Application {
    type V = Seq<Visual>;

    closed spec fn view(&self) -> Seq<Visual> {
        self.container_visual@
    }
}

impl Default for Application {
    /// A session with no visuals yet.
    fn default() -> (a: Application)
        ensures
            a@ == Seq::<Visual>::empty(),
    {
        Application { container_visual: VisualTree::new() }
    }
}

impl Application {
    /// The visuals spawned so far, the newest on top.
    pub fn children(&self) -> (t: &VisualTree)
        ensures
            t@ == self@,
    {
        &self.container_visual
    }

    /// Spawns a random square in the top half of a window whose inner extent
    /// is now `window_width` by `window_height`, places it on top of the
    /// others and starts its fall; returns it. Fails with `WindowTooSmall`,
    /// and changes nothing, when no square fits there.
    pub fn add_element(&mut self, window_width: u32, window_height: u32) -> (r: Result<
        Visual,
        SpawnError,
    >)
        ensures
            r.is_ok() == has_room(window_width, window_height),
            r matches Ok(v) ==> {
                &&& spawned_visual(v, window_width, window_height)
                &&& final(self)@ == old(self)@.push(v)
                &&& grows_by_one(old(self)@, final(self)@)
            },
            r matches Err(e) ==> e == SpawnError::WindowTooSmall && final(self)@ == old(self)@,
    {
        let r = spawn_visual(window_width, window_height);
        if let Ok(v) = r {
            self.container_visual.insert_at_top(v);
        }
        r
    }
}

} // verus!
