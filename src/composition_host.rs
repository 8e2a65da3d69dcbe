//! A compositor session for a window whose extent is fixed when it is made.

use vstd::prelude::*;

use crate::square::{
    has_room, spawn_visual, spawned_visual, SpawnError, Visual, FALL_DELAY_MS, FALL_DURATION_MS,
};
use crate::visual_tree::{grows_by_one, VisualTree};

verus! {

/// The visuals spawned into a window of a fixed extent, each with the fall
/// animation started on it.
pub struct CompositionHost {
    container_visual: VisualTree,
    width: u32,
    height: u32,
}

impl View for CompositionHost {
    type V = Seq<Visual>;

    closed spec fn view(&self) -> Seq<Visual> {
        self.container_visual@
    }
}

impl CompositionHost {
    /// The window's width.
    pub closed spec fn spec_width(&self) -> u32 {
        self.width
    }

    /// The window's height.
    pub closed spec fn spec_height(&self) -> u32 {
        self.height
    }

    /// Every child is a square spawned for this window, falling as a spawn
    /// there makes it fall.
    pub open spec fn wf(&self) -> bool {
        forall|i: int|
            0 <= i < self@.len() ==> spawned_visual(
                #[trigger] self@[i],
                self.spec_width(),
                self.spec_height(),
            )
    }

    /// A session with no visuals yet, for a window of this extent.
    pub fn new(width: u32, height: u32) -> (h: CompositionHost)
        ensures
            h.wf(),
            h@ == Seq::<Visual>::empty(),
            h.spec_width() == width,
            h.spec_height() == height,
    {
        CompositionHost { container_visual: VisualTree::new(), width, height }
    }

    /// The window's width.
    pub fn width(&self) -> (w: u32)
        ensures
            w == self.spec_width(),
    {
        self.width
    }

    /// The window's height.
    pub fn height(&self) -> (h: u32)
        ensures
            h == self.spec_height(),
    {
        self.height
    }

    /// The visuals spawned so far, the newest on top.
    pub fn children(&self) -> (t: &VisualTree)
        ensures
            t@ == self@,
    {
        &self.container_visual
    }

    /// Spawns a random square in the window's top half, places it on top of
    /// the others and starts its fall; returns it. Fails with
    /// `WindowTooSmall`, and changes nothing, when no square fits there.
    pub fn add_element(&mut self) -> (r: Result<Visual, SpawnError>)
        requires
            old(self).wf(),
        ensures
            final(self).wf(),
            final(self).spec_width() == old(self).spec_width(),
            final(self).spec_height() == old(self).spec_height(),
            r.is_ok() == has_room(old(self).spec_width(), old(self).spec_height()),
            r matches Ok(v) ==> {
                &&& spawned_visual(
                    v,
                    old(self).spec_width(),
                    old(self).spec_height(),
                )
                &&& final(self)@ == old(self)@.push(v)
                &&& grows_by_one(old(self)@, final(self)@)
            },
            r matches Err(e) ==> e == SpawnError::WindowTooSmall && final(self)@ == old(self)@,
    {
        let r = spawn_visual(self.width, self.height);
        if let Ok(v) = r {
            self.container_visual.insert_at_top(v);
            assert(forall|i: int|
                0 <= i < old(self)@.len() ==> self@[i] == #[trigger] old(self)@[i]);
        }
        r
    }
}

/// However many visuals a session holds, each one falls after the same
/// delay, for the same duration, to where its bottom edge meets the window's.
pub proof fn lemma_every_fall_is_alike(h: CompositionHost)
    requires
        h.wf(),
    ensures
        forall|i: int|
            0 <= i < h@.len() ==> {
                &&& (#[trigger] h@[i]).animation.delay_ms == FALL_DELAY_MS
                &&& h@[i].animation.duration_ms == FALL_DURATION_MS
                &&& h@[i].animation.target_x == h@[i].square.x
                &&& h@[i].animation.target_y + h@[i].square.size == h.spec_height()
            },
{
    assert forall|i: int| 0 <= i < h@.len() implies {
        &&& (#[trigger] h@[i]).animation.delay_ms == FALL_DELAY_MS
        &&& h@[i].animation.duration_ms == FALL_DURATION_MS
        &&& h@[i].animation.target_x == h@[i].square.x
        &&& h@[i].animation.target_y + h@[i].square.size == h.spec_height()
    } by {
        assert(spawned_visual(h@[i], h.spec_width(), h.spec_height()));
    }
}

} // verus!
