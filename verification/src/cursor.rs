//! The pointer's last known position in the world.

use crate::math::{Ray, Vec2};
use vstd::prelude::*;

verus! {

/// Where the pointer was in the world when it was last seen over the window.
///
/// Only the latest position is kept. A frame in which the pointer could not
/// be placed leaves the value alone, so a reader may see a position that is
/// several frames old.
#[derive(Clone, Copy, Debug, PartialEq, Eq, Structural)]
pub struct CursorWorldPosition(pub Vec2);

impl Default for CursorWorldPosition {
    /// The origin of the world: the position before the pointer was ever seen.
    fn default() -> (start: CursorWorldPosition)
        ensures
            start == CursorWorldPosition(Vec2::spec_zero()),
    {
        CursorWorldPosition(Vec2::zero())
    }
}

/// The position after a frame that found `ray` under the pointer.
///
/// `ray` is what the camera casts through the pointer's place in the
/// viewport. It is absent when the window reports no pointer or the camera
/// cannot map the pointer's place; then `prev` is kept.
pub open spec fn cursor_after(prev: CursorWorldPosition, ray: Option<Ray>) -> CursorWorldPosition {
    match ray {
        Some(ray) => CursorWorldPosition(ray.origin.spec_truncate()),
        None => prev,
    }
}

/// Brings the stored position up to date with this frame's observation.
///
/// With a ray, the stored position becomes the ray's origin without its
/// depth, bit for bit. Without one, nothing changes.
pub fn global_cursor(world_coords: &mut CursorWorldPosition, ray: Option<Ray>)
    ensures
        *final(world_coords) == cursor_after(*old(world_coords), ray),
        ray matches Some(r) ==> final(world_coords).0 == r.origin.spec_truncate(),
        ray is None ==> *final(world_coords) == *old(world_coords),
{
    if let Some(ray) = ray {
        world_coords.0 = ray.origin.truncate();
    }
}

/// The position after a run of frames, given what each of them found under
/// the pointer, oldest first.
pub open spec fn cursor_after_all(
    start: CursorWorldPosition,
    rays: Seq<Option<Ray>>,
) -> CursorWorldPosition
    decreases rays.len(),
{
    if rays.len() == 0 {
        start
    } else {
        cursor_after(cursor_after_all(start, rays.drop_last()), rays.last())
    }
}

/// Absence is idempotent: however many frames pass without a ray, the stored
/// position stays what it was.
pub proof fn lemma_cursor_unmoved_without_rays(start: CursorWorldPosition, rays: Seq<Option<Ray>>)
    requires
        forall|j: int| 0 <= j < rays.len() ==> (#[trigger] rays[j]) is None,
    ensures
        cursor_after_all(start, rays) == start,
    decreases rays.len(),
{
    if rays.len() > 0 {
        lemma_cursor_unmoved_without_rays(start, rays.drop_last());
    }
}

/// No history is kept: the stored position is that of the latest frame that
/// found a ray, whatever was stored or found before it and however many
/// frames without a ray have passed since.
pub proof fn lemma_cursor_keeps_latest_ray(
    start: CursorWorldPosition,
    rays: Seq<Option<Ray>>,
    latest: int,
)
    requires
        0 <= latest < rays.len(),
        rays[latest] is Some,
        forall|j: int| latest < j < rays.len() ==> (#[trigger] rays[j]) is None,
    ensures
        cursor_after_all(start, rays) == CursorWorldPosition(
            rays[latest]->Some_0.origin.spec_truncate(),
        ),
    decreases rays.len(),
{
    if latest < rays.len() - 1 {
        lemma_cursor_keeps_latest_ray(start, rays.drop_last(), latest);
    }
}

} // verus!
