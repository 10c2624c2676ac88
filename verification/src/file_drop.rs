//! What the canvas does with drag-and-drop notifications.
//!
//! A dropped file becomes a request for one sprite at the pointer's stored
//! world position. A file that only hovers, or stops hovering, asks for
//! nothing. Each notification is looked at alone: nothing is carried from one
//! to the next.

use crate::cursor::{cursor_after, CursorWorldPosition};
use crate::math::{Ray, Scalar, Vec3};
use vstd::prelude::*;

verus! {

/// A drag-and-drop notification from the window system.
///
/// `window` identifies the window that the file is over. `path_buf` is the
/// file's path as text.
#[derive(Debug, PartialEq, Eq)]
pub enum FileDragAndDrop {
    /// The file was let go over the window.
    DroppedFile { window: u64, path_buf: String },
    /// The file is held over the window.
    HoveredFile { window: u64, path_buf: String },
    /// The file left the window without being dropped.
    HoveredFileCanceled { window: u64 },
}

/// A notification with its path as a sequence of characters.
pub enum Notification {
    DroppedFile { window: u64, path: Seq<char> },
    HoveredFile { window: u64, path: Seq<char> },
    HoveredFileCanceled { window: u64 },
}

impl Clone for FileDragAndDrop {
    fn clone(&self) -> (copy: FileDragAndDrop)
        ensures
            copy == *self,
    {
        match self {
            FileDragAndDrop::DroppedFile { window, path_buf } => FileDragAndDrop::DroppedFile {
                window: *window,
                path_buf: path_buf.clone(),
            },
            FileDragAndDrop::HoveredFile { window, path_buf } => FileDragAndDrop::HoveredFile {
                window: *window,
                path_buf: path_buf.clone(),
            },
            FileDragAndDrop::HoveredFileCanceled { window } => {
                FileDragAndDrop::HoveredFileCanceled { window: *window }
            },
        }
    }
}

impl View for FileDragAndDrop {
    type V = Notification;

    open spec fn view(&self) -> Notification {
        match *self {
            FileDragAndDrop::DroppedFile { window, path_buf } => Notification::DroppedFile {
                window,
                path: path_buf@,
            },
            FileDragAndDrop::HoveredFile { window, path_buf } => Notification::HoveredFile {
                window,
                path: path_buf@,
            },
            FileDragAndDrop::HoveredFileCanceled { window } => Notification::HoveredFileCanceled {
                window,
            },
        }
    }
}

/// A request for one new sprite.
///
/// `texture` is the path to load the image from. `position` is where the
/// sprite goes. Whether the file exists, or is an image at all, is for whoever
/// loads it to find out.
#[derive(Debug, PartialEq, Eq)]
pub struct SpriteSpawn {
    pub texture: String,
    pub position: Vec3,
}

/// A sprite request with its path as a sequence of characters.
pub struct Sprite {
    pub texture: Seq<char>,
    pub position: Vec3,
}

impl Clone for SpriteSpawn {
    fn clone(&self) -> (copy: SpriteSpawn)
        ensures
            copy == *self,
    {
        SpriteSpawn { texture: self.texture.clone(), position: self.position }
    }
}

impl View for SpriteSpawn {
    type V = Sprite;

    open spec fn view(&self) -> Sprite {
        Sprite { texture: self.texture@, position: self.position }
    }
}

/// The notifications of a frame, in the order of their arrival.
pub open spec fn notifications(events: Seq<FileDragAndDrop>) -> Seq<Notification> {
    events.map_values(|ev: FileDragAndDrop| ev@)
}

/// The sprite requests of a frame, in the order in which they were made.
pub open spec fn sprites(spawns: Seq<SpriteSpawn>) -> Seq<Sprite> {
    spawns.map_values(|spawn: SpriteSpawn| spawn@)
}

/// The sprite for a file dropped while the pointer's stored position is
/// `cursor`: the file's image, at that position, at depth zero.
pub open spec fn sprite_at(path: Seq<char>, cursor: CursorWorldPosition) -> Sprite {
    Sprite { texture: path, position: cursor.0.spec_extend(Scalar::spec_zero()) }
}

/// What one notification asks for.
pub open spec fn dropped_sprite(ev: Notification, cursor: CursorWorldPosition) -> Option<Sprite> {
    match ev {
        Notification::DroppedFile { window, path } => Some(sprite_at(path, cursor)),
        Notification::HoveredFile { window, path } => None,
        Notification::HoveredFileCanceled { window } => None,
    }
}

/// The dropped files among a frame's notifications, in the order of their
/// arrival.
pub open spec fn dropped_files(events: Seq<Notification>) -> Seq<Notification> {
    events.filter(|ev: Notification| ev is DroppedFile)
}

/// What a frame's notifications ask for: one sprite for each dropped file, in
/// the order of the drops, all at the one position `cursor`.
pub open spec fn dropped_sprites(events: Seq<Notification>, cursor: CursorWorldPosition) -> Seq<
    Sprite,
> {
    dropped_files(events).map_values(|ev: Notification| sprite_at(ev->DroppedFile_path, cursor))
}

/// Handles one notification.
///
/// The position is read from `world_cursor` as it is now, which need not be
/// where the pointer was when the file was let go.
pub fn handle_notification(ev: &FileDragAndDrop, world_cursor: &CursorWorldPosition) -> (spawn:
    Option<SpriteSpawn>)
    ensures
        spawn is Some <==> ev@ is DroppedFile,
        match spawn {
            Some(s) => dropped_sprite(ev@, *world_cursor) == Some(s@),
            None => dropped_sprite(ev@, *world_cursor) is None,
        },
{
    match ev {
        FileDragAndDrop::DroppedFile { window: _, path_buf } => Some(
            SpriteSpawn {
                texture: path_buf.clone(),
                position: world_cursor.0.extend(Scalar::zero()),
            },
        ),
        FileDragAndDrop::HoveredFile { window: _, path_buf: _ } => None,
        FileDragAndDrop::HoveredFileCanceled { window: _ } => None,
    }
}

/// Handles the notifications of one frame, in the order of their arrival.
pub fn file_drop(events: &[FileDragAndDrop], world_cursor: &CursorWorldPosition) -> (spawns: Vec<
    SpriteSpawn,
>)
    ensures
        sprites(spawns@) == dropped_sprites(notifications(events@), *world_cursor),
{
    let mut spawns: Vec<SpriteSpawn> = Vec::new();
    let mut i: usize = 0;
    proof {
        lemma_dropped_sprites_empty(*world_cursor);
        assert(notifications(events@.take(0)) =~= Seq::<Notification>::empty());
    }
    while i < events.len()
        invariant
            i <= events.len(),
            sprites(spawns@) == dropped_sprites(
                notifications(events@.take(i as int)),
                *world_cursor,
            ),
        decreases events.len() - i,
    {
        let ghost before = spawns@;
        let spawn = handle_notification(&events[i], world_cursor);
        proof {
            let seen = notifications(events@.take(i as int));
            assert(notifications(events@.take(i + 1)) =~= seen.push(events@[i as int]@));
            lemma_dropped_sprites_push(seen, events@[i as int]@, *world_cursor);
        }
        if let Some(s) = spawn {
            spawns.push(s);
            assert(sprites(spawns@) =~= sprites(before).push(s@));
        }
        i += 1;
    }
    assert(events@.take(i as int) =~= events@);
    spawns
}

/// A frame without notifications asks for nothing.
pub proof fn lemma_dropped_sprites_empty(cursor: CursorWorldPosition)
    ensures
        dropped_sprites(Seq::empty(), cursor) == Seq::<Sprite>::empty(),
{
    reveal(Seq::filter);
    assert(dropped_sprites(Seq::empty(), cursor) =~= Seq::<Sprite>::empty());
}

/// One more notification adds what it asks for, after all that was asked
/// before.
pub proof fn lemma_dropped_sprites_push(
    events: Seq<Notification>,
    ev: Notification,
    cursor: CursorWorldPosition,
)
    ensures
        dropped_sprites(events.push(ev), cursor) == match dropped_sprite(ev, cursor) {
            Some(sprite) => dropped_sprites(events, cursor).push(sprite),
            None => dropped_sprites(events, cursor),
        },
{
    reveal(Seq::filter);
    assert(events.push(ev).drop_last() =~= events);
    if ev is DroppedFile {
        assert(dropped_files(events.push(ev)) == dropped_files(events).push(ev));
        assert(dropped_sprites(events.push(ev), cursor) =~= dropped_sprites(events, cursor).push(
            sprite_at(ev->DroppedFile_path, cursor),
        ));
    } else {
        assert(dropped_files(events.push(ev)) == dropped_files(events));
    }
}

/// The notifications of a frame are handled independently of one another:
/// what two runs of notifications ask for together is what the first asks
/// for, followed by what the second asks for.
pub proof fn lemma_dropped_sprites_concat(
    first: Seq<Notification>,
    second: Seq<Notification>,
    cursor: CursorWorldPosition,
)
    ensures
        dropped_sprites(first + second, cursor) == dropped_sprites(first, cursor) + dropped_sprites(
            second,
            cursor,
        ),
{
    Seq::filter_distributes_over_add(first, second, |ev: Notification| ev is DroppedFile);
    assert(dropped_sprites(first + second, cursor) =~= dropped_sprites(first, cursor)
        + dropped_sprites(second, cursor));
}

/// Exactly one sprite is asked for each dropped file. The sprites come in the
/// order of the drops, each with the path of its file, and every one of them
/// lies at `cursor`, at depth zero.
pub proof fn lemma_one_sprite_per_drop(events: Seq<Notification>, cursor: CursorWorldPosition)
    ensures
        dropped_sprites(events, cursor).len() == dropped_files(events).len(),
        dropped_sprites(events, cursor).len() <= events.len(),
        forall|i: int|
            0 <= i < dropped_files(events).len() ==> {
                let file = #[trigger] dropped_files(events)[i];
                let sprite = dropped_sprites(events, cursor)[i];
                &&& file is DroppedFile
                &&& sprite.texture == file->DroppedFile_path
                &&& sprite.position.x == cursor.0.x
                &&& sprite.position.y == cursor.0.y
                &&& sprite.position.z.bits == 0
            },
        forall|j: int|
            0 <= j < events.len() && events[j] is DroppedFile ==> dropped_sprites(
                events,
                cursor,
            ).contains(sprite_at((#[trigger] events[j])->DroppedFile_path, cursor)),
{
    let is_drop = |ev: Notification| ev is DroppedFile;
    let files = dropped_files(events);
    let out = dropped_sprites(events, cursor);
    events.lemma_filter_len(is_drop);
    assert forall|i: int| 0 <= i < files.len() implies (#[trigger] files[i]) is DroppedFile by {
        events.lemma_filter_pred(is_drop, i);
    }
    assert forall|j: int| 0 <= j < events.len() && events[j] is DroppedFile implies out.contains(
        sprite_at((#[trigger] events[j])->DroppedFile_path, cursor),
    ) by {
        events.lemma_filter_contains(is_drop, j);
        let i = choose|i: int| 0 <= i < files.len() && files[i] == events[j];
        assert(out[i] == sprite_at(events[j]->DroppedFile_path, cursor));
    }
}

/// Hovering and cancelled notifications ask for nothing: a frame that holds
/// no dropped file yields no sprite.
pub proof fn lemma_hover_asks_for_nothing(events: Seq<Notification>, cursor: CursorWorldPosition)
    requires
        forall|j: int| 0 <= j < events.len() ==> !((#[trigger] events[j]) is DroppedFile),
    ensures
        dropped_sprites(events, cursor) == Seq::<Sprite>::empty(),
    decreases events.len(),
{
    if events.len() == 0 {
        assert(events =~= Seq::empty());
        lemma_dropped_sprites_empty(cursor);
    } else {
        let rest = events.drop_last();
        lemma_hover_asks_for_nothing(rest, cursor);
        assert(events =~= rest.push(events.last()));
        lemma_dropped_sprites_push(rest, events.last(), cursor);
    }
}

/// A hovering or cancelled notification changes nothing wherever it arrives:
/// taking it out of the frame leaves the sprites asked for as they were.
pub proof fn lemma_hover_changes_nothing(
    before: Seq<Notification>,
    hover: Notification,
    after: Seq<Notification>,
    cursor: CursorWorldPosition,
)
    requires
        !(hover is DroppedFile),
    ensures
        dropped_sprites(before.push(hover) + after, cursor) == dropped_sprites(
            before + after,
            cursor,
        ),
{
    lemma_dropped_sprites_push(before, hover, cursor);
    lemma_dropped_sprites_concat(before.push(hover), after, cursor);
    lemma_dropped_sprites_concat(before, after, cursor);
}

/// Sprites go where the stored position is when the notifications are
/// handled. If the frame's ray was found first, that is the ray's origin,
/// whatever was stored before; if no ray was found, it is the position of an
/// earlier frame, wherever the pointer has moved since.
pub proof fn lemma_sprites_follow_stored_position(
    prev: CursorWorldPosition,
    ray: Option<Ray>,
    events: Seq<Notification>,
)
    ensures
        ray matches Some(r) ==> dropped_sprites(events, cursor_after(prev, ray))
            == dropped_sprites(events, CursorWorldPosition(r.origin.spec_truncate())),
        ray is None ==> dropped_sprites(events, cursor_after(prev, ray)) == dropped_sprites(
            events,
            prev,
        ),
        forall|i: int|
            0 <= i < dropped_sprites(events, cursor_after(prev, ray)).len() ==> {
                let sprite = #[trigger] dropped_sprites(events, cursor_after(prev, ray))[i];
                match ray {
                    Some(r) => sprite.position == (Vec3 {
                        x: r.origin.x,
                        y: r.origin.y,
                        z: Scalar::spec_zero(),
                    }),
                    None => sprite.position == (Vec3 {
                        x: prev.0.x,
                        y: prev.0.y,
                        z: Scalar::spec_zero(),
                    }),
                }
            },
{
}

} // verus!
