//! Where a new square may appear in a window, and how it falls to the bottom.

use vstd::prelude::*;

use crate::color::{get_random_color, Color, OPAQUE};
use crate::random::random_in_range;

verus! {

/// Smallest side a square is given when the window leaves room for it.
pub const MIN_SIZE: u32 = 50;

/// Sides are drawn below this bound.
pub const MAX_SIZE: u32 = 150;

/// How long a square takes to fall, in milliseconds.
pub const FALL_DURATION_MS: u64 = 2000;

/// How long a square waits before it starts to fall, in milliseconds.
pub const FALL_DELAY_MS: u64 = 3000;

/// A filled square at an offset from the top-left corner of the window.
#[derive(Clone, Copy, Debug, PartialEq, Eq, Structural)]
pub struct Square {
    pub size: u32,
    pub x: u32,
    pub y: u32,
    pub color: Color,
}

/// A one-shot animation of a visual's offset towards a single final
/// keyframe, started after a delay and run by the compositor on its own.
#[derive(Clone, Copy, Debug, PartialEq, Eq, Structural)]
pub struct OffsetAnimation {
    pub target_x: u32,
    pub target_y: u32,
    pub duration_ms: u64,
    pub delay_ms: u64,
}

/// A square in the visual tree together with the animation started on it.
#[derive(Clone, Copy, Debug, PartialEq, Eq, Structural)]
pub struct Visual {
    pub square: Square,
    pub animation: OffsetAnimation,
}

/// Why no square was spawned.
#[derive(Clone, Copy, Debug, PartialEq, Eq, Structural)]
pub enum SpawnError {
    /// The window, or its top half, is too small to hold a square of side 1
    /// with a free column or row left over.
    WindowTooSmall,
}

/// Sides are drawn below this bound: the square must leave at least one free
/// column in the window and one free row in its top half.
pub open spec fn size_cap(width: u32, height: u32) -> nat {
    let half = height / 2;
    if width <= half && width <= MAX_SIZE {
        width as nat
    } else if half <= MAX_SIZE {
        half as nat
    } else {
        MAX_SIZE as nat
    }
}

/// Whether a square fits in the window's top half at all.
pub open spec fn has_room(width: u32, height: u32) -> bool {
    size_cap(width, height) >= 2
}

/// Sides are drawn from this value on: `MIN_SIZE`, or the largest side that
/// fits when the window is too small for it.
pub open spec fn size_floor(width: u32, height: u32) -> nat {
    if size_cap(width, height) > MIN_SIZE {
        MIN_SIZE as nat
    } else {
        (size_cap(width, height) - 1) as nat
    }
}

/// What a spawn in a window of this extent may yield: a positive side in
/// `[size_floor, size_cap)`, an offset that keeps the whole square inside the
/// window's top half with room to spare, and an opaque colour.
pub open spec fn spawned_within(s: Square, width: u32, height: u32) -> bool {
    &&& 1 <= s.size
    &&& size_floor(width, height) <= s.size < size_cap(width, height)
    &&& s.x + s.size < width
    &&& s.y + s.size < height / 2
    &&& s.color.is_opaque()
}

/// The fall of square `s` in a window of height `height`: to the same column,
/// down until its bottom edge meets the window's bottom edge.
pub open spec fn fall_of(s: Square, height: u32) -> OffsetAnimation
    recommends
        s.size <= height,
{
    OffsetAnimation {
        target_x: s.x,
        target_y: (height - s.size) as u32,
        duration_ms: FALL_DURATION_MS,
        delay_ms: FALL_DELAY_MS,
    }
}

/// Whether `v` is what a spawn in a window of this extent yields.
pub open spec fn spawned_visual(v: Visual, width: u32, height: u32) -> bool {
    &&& spawned_within(v.square, width, height)
    &&& v.animation == fall_of(v.square, height)
}

/// The range `(lo, hi)` of sides to draw from in a window of this extent, or
/// `None` when no square fits.
pub fn size_bounds(width: u32, height: u32) -> (r: Option<(u32, u32)>)
    ensures
        r.is_some() == has_room(width, height),
        r matches Some((lo, hi)) ==> lo == size_floor(width, height) && hi
            == size_cap(width, height),
{
    let half = height / 2;
    let cap: u32 = if width <= half && width <= MAX_SIZE {
        width
    } else if half <= MAX_SIZE {
        half
    } else {
        MAX_SIZE
    };
    if cap < 2 {
        None
    } else if cap > MIN_SIZE {
        Some((MIN_SIZE, cap))
    } else {
        Some((cap - 1, cap))
    }
}

/// The square of side `size` at offset `(x, y)` filled with `color`, when a
/// spawn in a window of this extent may yield it; `None` otherwise.
pub fn square_at(width: u32, height: u32, size: u32, x: u32, y: u32, color: Color) -> (r: Option<
    Square,
>)
    ensures
        r == (if spawned_within(Square { size, x, y, color }, width, height) {
            Some(Square { size, x, y, color })
        } else {
            None
        }),
{
    match size_bounds(width, height) {
        None => None,
        Some((lo, hi)) => {
            if lo <= size && size < hi && x < width - size && y < height / 2 - size && color.a
                == OPAQUE {
                Some(Square { size, x, y, color })
            } else {
                None
            }
        },
    }
}

/// A square with a random side, offset and colour, placed in the top half of
/// a window of this extent, or `None` when no square fits there.
pub fn random_square(width: u32, height: u32) -> (r: Option<Square>)
    ensures
        r.is_some() == has_room(width, height),
        r matches Some(s) ==> spawned_within(s, width, height),
{
    match size_bounds(width, height) {
        None => None,
        Some((lo, hi)) => {
            let size = random_in_range(lo, hi);
            let x = random_in_range(0, width - size);
            let y = random_in_range(0, height / 2 - size);
            let color = get_random_color();
            square_at(width, height, size, x, y, color)
        },
    }
}

/// The animation that drops `square` to the bottom of a window of height
/// `height`.
pub fn animate_square(square: &Square, height: u32) -> (a: OffsetAnimation)
    requires
        square.size <= height,
    ensures
        a == fall_of(*square, height),
{
    OffsetAnimation {
        target_x: square.x,
        target_y: height - square.size,
        duration_ms: FALL_DURATION_MS,
        delay_ms: FALL_DELAY_MS,
    }
}

/// A new square for a window of this extent with its fall animation, or
/// `WindowTooSmall` when no square fits there.
pub fn spawn_visual(width: u32, height: u32) -> (r: Result<Visual, SpawnError>)
    ensures
        r.is_ok() == has_room(width, height),
        r matches Ok(v) ==> spawned_visual(v, width, height),
        r matches Err(e) ==> e == SpawnError::WindowTooSmall,
{
    match random_square(width, height) {
        None => Err(SpawnError::WindowTooSmall),
        Some(square) => {
            let animation = animate_square(&square, height);
            Ok(Visual { square, animation })
        },
    }
}

/// A spawned square lies inside the window's top half; in a window wider
/// than `MIN_SIZE` whose top half is taller than `MIN_SIZE`, its side lies in
/// `[MIN_SIZE, MAX_SIZE)`.
pub proof fn lemma_spawn_fits_top_half(s: Square, width: u32, height: u32)
    requires
        spawned_within(s, width, height),
    ensures
        s.x + s.size <= width,
        s.y + s.size <= height / 2,
        width > MIN_SIZE && height / 2 > MIN_SIZE ==> MIN_SIZE <= s.size < MAX_SIZE,
{
}

/// A spawned square falls, in its own column, until its bottom edge meets the
/// window's bottom edge.
pub proof fn lemma_fall_lands_on_bottom(v: Visual, width: u32, height: u32)
    requires
        spawned_visual(v, width, height),
    ensures
        v.animation.target_x == v.square.x,
        v.animation.target_y + v.square.size == height,
{
}

impl Visual {
    /// Where the visual stands `elapsed_ms` milliseconds after it was spawned,
    /// where that is fixed: at its spawn offset until the delay has passed,
    /// at the animation's target once the animation has run. In between the
    /// compositor interpolates, and the result is `None`.
    pub fn offset_at(&self, elapsed_ms: u64) -> (r: Option<(u32, u32)>)
        requires
            self.animation.delay_ms + self.animation.duration_ms <= u64::MAX,
        ensures
            elapsed_ms <= self.animation.delay_ms ==> r == Some((self.square.x, self.square.y)),
            elapsed_ms >= self.animation.delay_ms + self.animation.duration_ms
                && self.animation.duration_ms > 0 ==> r == Some(
                (self.animation.target_x, self.animation.target_y),
            ),
            self.animation.delay_ms < elapsed_ms < self.animation.delay_ms
                + self.animation.duration_ms ==> r.is_none(),
    {
        if elapsed_ms <= self.animation.delay_ms {
            Some((self.square.x, self.square.y))
        } else if elapsed_ms >= self.animation.delay_ms + self.animation.duration_ms {
            Some((self.animation.target_x, self.animation.target_y))
        } else {
            None
        }
    }
}

} // verus!
