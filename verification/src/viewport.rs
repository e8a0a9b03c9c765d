//! Where the editor shows a game, and what it passes on to it.

use crate::collections::EntityMap;
use crate::external_texture::TextureSize;
use crate::game_process::GameProcess;
use crate::messages::EditorMsg;
use crate::render_targets::is_texture_of;
use crate::shared_texture::{
    same_info, ExternalTexture, ExternalTextureImportError, ExternalTextureInfo,
};
use crate::texture_share::TextureMetadata;
use crate::window_event::{
    addressed_to, forward, forwarded, law_forwarded_event, same_kind, window_of, Position,
    WindowEvent,
};
use vstd::prelude::*;

verus! {

/// An image of the editor, and the game's texture that is shown in its place. Both are known by
/// number.
#[derive(Clone, Copy, PartialEq, Eq, Structural, Debug)]
pub struct ViewportTarget {
    pub image: u64,
    pub texture: u64,
}

/// The game's textures that the editor knows, by the number that the game gave them.
pub struct ViewportTargets {
    pub targets: EntityMap<ViewportTarget>,
}

/// A game has another texture to show.
pub struct ViewportTextureUpdate {
    pub info: ExternalTextureInfo,
}

/// A texture is there that the editor has not shown before.
#[derive(Clone, Copy, PartialEq, Eq, Structural, Debug)]
pub struct ViewportTextureCreated {
    pub id: u64,
}

/// What is left to do once a texture came.
pub enum ViewportUpdate {
    /// The texture has no number: to be reported.
    NoId,
    /// The texture could not be imported: to be reported.
    ImportFailed { error: ExternalTextureImportError },
    /// The image is to be resized. It shows the new texture from now on.
    Resize { image: u64, size: TextureSize },
    /// A black image is to be made, and the texture to be shown in its place.
    AddImage { id: u64, width: u32, height: u32, texture: u64 },
}

impl ViewportTargets {
    /// The table is in order.
    pub open spec fn wf(&self) -> bool {
        self.targets.wf()
    }

    /// No textures.
    pub fn new() -> (targets: Self)
        ensures
            targets.wf(),
            targets.targets@ == Map::<u64, ViewportTarget>::empty(),
    {
        ViewportTargets { targets: EntityMap::new() }
    }

    /// Shows a texture in the place of an image that was just made for it.
    pub fn show(&mut self, id: u64, image: u64, texture: u64) -> (created: ViewportTextureCreated)
        requires
            old(self).wf(),
        ensures
            final(self).wf(),
            final(self).targets@ == old(self).targets@.insert(
                id,
                ViewportTarget { image, texture },
            ),
            created.id == id,
    {
        self.targets.insert(id, ViewportTarget { image, texture });
        ViewportTextureCreated { id }
    }
}

/// The number of the texture to import. A texture without a number is not imported.
pub fn texture_to_import(info: &ExternalTextureInfo) -> (id: Option<u64>)
    ensures
        id == info.texture_id,
{
    info.texture_id
}

impl ViewportTextureUpdate {
    /// Takes in a texture, once it was imported, or could not be. Whether the image that stands for
    /// the texture so far still exists is given.
    pub fn observer(
        self,
        targets: &mut ViewportTargets,
        imported: Result<u64, ExternalTextureImportError>,
        image_exists: bool,
    ) -> (update: ViewportUpdate)
        requires
            old(targets).wf(),
        ensures
            final(targets).wf(),
            match (self.info.texture_id, imported) {
                (None, _) => {
                    &&& update == ViewportUpdate::NoId
                    &&& final(targets).targets@ == old(targets).targets@
                },
                (Some(_), Err(error)) => {
                    &&& update == ViewportUpdate::ImportFailed { error }
                    &&& final(targets).targets@ == old(targets).targets@
                },
                (Some(id), Ok(texture)) => if old(targets).targets@.dom().contains(id)
                    && image_exists {
                    let image = old(targets).targets@[id].image;
                    &&& update == ViewportUpdate::Resize { image, size: self.info.inner.wgpu_size }
                    &&& final(targets).targets@ == old(targets).targets@.insert(
                        id,
                        ViewportTarget { image, texture },
                    )
                } else {
                    &&& update == ViewportUpdate::AddImage {
                        id,
                        width: self.info.inner.wgpu_size.width,
                        height: self.info.inner.wgpu_size.height,
                        texture,
                    }
                    &&& final(targets).targets@ == old(targets).targets@
                },
            },
    {
        let size = self.info.inner.wgpu_size;
        let id: u64 = match texture_to_import(&self.info) {
            Some(id) => id,
            None => {
                return ViewportUpdate::NoId;
            },
        };
        let texture: u64 = match imported {
            Ok(texture) => texture,
            Err(error) => {
                return ViewportUpdate::ImportFailed { error };
            },
        };
        let known: Option<u64> = match targets.targets.get(id) {
            Some(target) => Some(target.image),
            None => None,
        };
        if let Some(image) = known {
            if image_exists {
                targets.targets.insert(id, ViewportTarget { image, texture });
                return ViewportUpdate::Resize { image, size };
            }
        }
        ViewportUpdate::AddImage { id, width: size.width, height: size.height, texture }
    }
}

/// A part of the editor's window that shows a game.
#[derive(Clone, Copy, PartialEq, Eq, Structural, Debug)]
pub struct GameViewport {
    /// The pointer is over the viewport.
    pub focused: bool,
    /// The texture that is shown, if there is one.
    pub id: Option<u64>,
    /// The node that shows it.
    pub image: u64,
}

impl GameViewport {
    /// A viewport that shows nothing yet.
    pub fn scene(image: u64) -> (viewport: Self)
        ensures
            viewport == (GameViewport { focused: false, id: None, image }),
    {
        GameViewport { focused: false, id: None, image }
    }

    /// The pointer came to the viewport, or left it.
    pub fn set_focused(&mut self, focused: bool)
        ensures
            *final(self) == (GameViewport { focused, ..*old(self) }),
    {
        self.focused = focused;
    }
}

/// Shows a new texture in the first viewport. The images of the nodes are given by node.
pub fn update_game_viewport_texture_observer(
    created: ViewportTextureCreated,
    targets: &ViewportTargets,
    viewports: &mut Vec<GameViewport>,
    image_nodes: &mut EntityMap<u64>,
)
    requires
        targets.wf(),
        old(image_nodes).wf(),
    ensures
        final(image_nodes).wf(),
        if targets.targets@.dom().contains(created.id) && old(viewports)@.len() > 0 && old(
            image_nodes,
        )@.dom().contains(old(viewports)@[0].image) {
            &&& final(image_nodes)@ == old(image_nodes)@.insert(
                old(viewports)@[0].image,
                targets.targets@[created.id].image,
            )
            &&& final(viewports)@ == old(viewports)@.update(
                0,
                GameViewport { id: Some(created.id), ..old(viewports)@[0] },
            )
        } else {
            &&& final(image_nodes)@ == old(image_nodes)@
            &&& final(viewports)@ == old(viewports)@
        },
{
    if let Some(target) = targets.targets.get(created.id) {
        if viewports.len() > 0 {
            let viewport = viewports[0];
            if image_nodes.contains_key(viewport.image) {
                image_nodes.insert(viewport.image, target.image);
                viewports.set(0, GameViewport { id: Some(created.id), ..viewport });
            }
        }
    }
}

/// A viewport, as it is laid out this frame.
///
/// Width and height are bit patterns. For each window event of the frame, `cursors` holds where the
/// cursor of the event is when seen from the viewport's corner; it counts only for an event that
/// moves the cursor.
pub struct ViewportFrame {
    pub viewport: GameViewport,
    pub changed: bool,
    pub width: u32,
    pub height: u32,
    pub cursors: Vec<Position>,
}

/// Whether a number is the bit pattern of an entity: its lower half holds the entity's index, which
/// is never zero.
pub open spec fn is_entity(bits: u64) -> bool {
    bits % 0x1_0000_0000 != 0
}

/// `bevy::prelude::Entity::try_from_bits`, with the entity as its bit pattern again: every number
/// whose lower half is not zero is the bit pattern of an entity.
#[verifier::external_body]
pub(crate) fn entity_from_bits(bits: u64) -> (entity: Option<u64>)
    ensures
        entity == (if is_entity(bits) {
            Some(bits)
        } else {
            None
        }),
{
    match bevy::prelude::Entity::try_from_bits(bits) {
        Some(entity) => Some(entity.to_bits()),
        None => None,
    }
}

/// The window of the game that a viewport shows, if it shows one.
pub open spec fn shown_window(viewport: GameViewport) -> Option<u64> {
    match viewport.id {
        Some(id) => if is_entity(id) {
            Some(id)
        } else {
            None
        },
        None => None,
    }
}

/// What a viewport that was laid out anew says to the game.
pub open spec fn resize_msgs(frame: ViewportFrame) -> Seq<EditorMsg> {
    match shown_window(frame.viewport) {
        Some(window) => if frame.changed {
            seq![
                EditorMsg::WindowEvent(
                    WindowEvent::WindowResized { window, width: frame.width, height: frame.height },
                ),
            ]
        } else {
            Seq::empty()
        },
        None => Seq::empty(),
    }
}

/// What a series of events is passed on as.
pub open spec fn event_msgs(
    events: Seq<WindowEvent>,
    window: u64,
    cursors: Seq<Position>,
) -> Seq<EditorMsg>
    decreases events.len(),
{
    if events.len() == 0 {
        Seq::empty()
    } else {
        let before = event_msgs(events.drop_last(), window, cursors);
        match forwarded(events.last(), window, cursors[events.len() - 1]) {
            Some(event) => before.push(EditorMsg::WindowEvent(event)),
            None => before,
        }
    }
}

/// Whether the viewport reads the window events if they are still unread.
pub open spec fn reads(frame: ViewportFrame) -> bool {
    shown_window(frame.viewport) is Some && frame.viewport.focused
}

/// Whether one of the viewports reads the window events.
pub open spec fn any_reads(frames: Seq<ViewportFrame>) -> bool {
    exists|i: int| 0 <= i < frames.len() && reads(#[trigger] frames[i])
}

/// All that the viewports say to the game, one viewport after the other. The first one that reads
/// the window events is the only one.
pub open spec fn viewport_msgs(
    frames: Seq<ViewportFrame>,
    events: Seq<WindowEvent>,
) -> Seq<EditorMsg>
    decreases frames.len(),
{
    if frames.len() == 0 {
        Seq::empty()
    } else {
        let frame = frames.last();
        let before = viewport_msgs(frames.drop_last(), events) + resize_msgs(frame);
        if reads(frame) && !any_reads(frames.drop_last()) {
            before + event_msgs(events, shown_window(frame.viewport)->0, frame.cursors@)
        } else {
            before
        }
    }
}

/// Passes a series of events on to a window of the game.
fn forward_events(
    game: &mut GameProcess,
    events: Vec<WindowEvent>,
    window: u64,
    cursors: &Vec<Position>,
)
    requires
        cursors@.len() == events@.len(),
    ensures
        final(game).to_game@ == old(game).to_game@ + event_msgs(events@, window, cursors@),
        final(game).msg_queue == old(game).msg_queue,
        final(game).systems == old(game).systems,
{
    let ghost all = events@;
    let ghost before = game.to_game@;
    let mut i: usize = 0;
    assert(before + event_msgs(all.take(0), window, cursors@) =~= before);
    for event in it: events
        invariant
            it.seq() == all,
            i == it.index(),
            cursors@.len() == all.len(),
            game.to_game@ == before + event_msgs(all.take(i as int), window, cursors@),
            game.msg_queue == old(game).msg_queue,
            game.systems == old(game).systems,
    {
        let ghost then = event_msgs(all.take(i as int), window, cursors@);
        proof {
            assert(all.take(i + 1).drop_last() =~= all.take(i as int));
            assert(all.take(i + 1).last() == event);
            assert(i < cursors.len());
        }
        if let Some(passed) = forward(event, window, cursors[i]) {
            game.send(EditorMsg::WindowEvent(passed));
            assert(game.to_game@ =~= before + then.push(EditorMsg::WindowEvent(passed)));
        }
        i += 1;
    }
    assert(all.take(i as int) =~= all);
}

/// Tells the game of viewports that were laid out anew, and passes the window events on to the
/// window that the first focused viewport shows. Returns whether the events were read.
pub fn send_events_to_game_viewport(
    frames: &Vec<ViewportFrame>,
    game: &mut GameProcess,
    window_events: Vec<WindowEvent>,
) -> (read: bool)
    requires
        forall|i: int|
            0 <= i < frames@.len() ==> (#[trigger] frames@[i]).cursors@.len()
                == window_events@.len(),
    ensures
        final(game).to_game@ == old(game).to_game@ + viewport_msgs(frames@, window_events@),
        final(game).msg_queue == old(game).msg_queue,
        final(game).systems == old(game).systems,
        read == any_reads(frames@),
{
    let ghost events = window_events@;
    let ghost before = game.to_game@;
    let mut unread = window_events;
    let mut read = false;
    let mut i: usize = 0;
    assert(before + viewport_msgs(frames@.take(0), events) =~= before);
    while i < frames.len()
        invariant
            i <= frames@.len(),
            forall|j: int|
                0 <= j < frames@.len() ==> (#[trigger] frames@[j]).cursors@.len() == events.len(),
            !read ==> unread@ == events,
            read == any_reads(frames@.take(i as int)),
            game.to_game@ == before + viewport_msgs(frames@.take(i as int), events),
            game.msg_queue == old(game).msg_queue,
            game.systems == old(game).systems,
        decreases frames@.len() - i,
    {
        let frame = &frames[i];
        let ghost seen = frames@.take(i as int);
        let ghost more = frames@.take(i + 1);
        proof {
            assert(more.drop_last() =~= seen);
            assert(more.last() == *frame);
            assert(any_reads(more) == (any_reads(seen) || reads(*frame))) by {
                if any_reads(seen) {
                    let j = choose|j: int| 0 <= j < seen.len() && reads(#[trigger] seen[j]);
                    assert(reads(more[j]));
                }
                if any_reads(more) {
                    let j = choose|j: int| 0 <= j < more.len() && reads(#[trigger] more[j]);
                    if j < i {
                        assert(reads(seen[j]));
                    }
                }
                assert(more[i as int] == *frame);
            }
        }
        let window: Option<u64> = match frame.viewport.id {
            Some(id) => entity_from_bits(id),
            None => None,
        };
        assert(window == shown_window(frame.viewport));
        if let Some(window) = window {
            if frame.changed {
                game.send(
                    EditorMsg::WindowEvent(
                        WindowEvent::WindowResized {
                            window,
                            width: frame.width,
                            height: frame.height,
                        },
                    ),
                );
            }
            assert(game.to_game@ =~= before + (viewport_msgs(seen, events) + resize_msgs(*frame)));
            if frame.viewport.focused && !read {
                let mut batch: Vec<WindowEvent> = Vec::new();
                core::mem::swap(&mut batch, &mut unread);
                forward_events(game, batch, window, &frame.cursors);
                read = true;
                assert(game.to_game@ =~= before + viewport_msgs(more, events));
            }
        } else {
            assert(viewport_msgs(more, events) =~= viewport_msgs(seen, events));
        }
        i += 1;
    }
    assert(frames@.take(i as int) =~= frames@);
    read
}

/// A message carries a window event that is addressed to the given window, or to none.
pub open spec fn concerns(msg: EditorMsg, window: u64) -> bool {
    match msg {
        EditorMsg::WindowEvent(event) => window_of(event) is None || window_of(event) == Some(
            window,
        ),
        _ => false,
    }
}

/// Events are passed on to no other window than the one that is shown, and the size of the
/// editor's own window is never passed on.
pub proof fn law_events_reach_the_shown_window(
    events: Seq<WindowEvent>,
    window: u64,
    cursors: Seq<Position>,
)
    ensures
        forall|i: int|
            #![trigger event_msgs(events, window, cursors)[i]]
            0 <= i < event_msgs(events, window, cursors).len() ==> {
                let msg = event_msgs(events, window, cursors)[i];
                &&& concerns(msg, window)
                &&& !(msg->WindowEvent_0 is WindowResized)
            },
    decreases events.len(),
{
    if events.len() > 0 {
        law_events_reach_the_shown_window(events.drop_last(), window, cursors);
    }
}

/// The viewports speak to no other window of the game than those that they show.
pub proof fn law_viewports_reach_their_windows(
    frames: Seq<ViewportFrame>,
    events: Seq<WindowEvent>,
    i: int,
)
    requires
        0 <= i < viewport_msgs(frames, events).len(),
    ensures
        exists|j: int|
            #![trigger frames[j]]
            0 <= j < frames.len() && shown_window(frames[j].viewport) is Some && concerns(
                viewport_msgs(frames, events)[i],
                shown_window(frames[j].viewport)->0,
            ),
    decreases frames.len(),
{
    let rest = frames.drop_last();
    let frame = frames.last();
    let earlier = viewport_msgs(rest, events);
    let msg = viewport_msgs(frames, events)[i];
    assert(frames[frames.len() - 1] == frame);
    if i < earlier.len() {
        law_viewports_reach_their_windows(rest, events, i);
        let j = choose|j: int|
            #![trigger rest[j]]
            0 <= j < rest.len() && shown_window(rest[j].viewport) is Some && concerns(
                earlier[i],
                shown_window(rest[j].viewport)->0,
            );
        assert(frames[j] == rest[j]);
        assert(msg == earlier[i]);
    } else if i < earlier.len() + resize_msgs(frame).len() {
        assert(msg == resize_msgs(frame)[i - earlier.len()]);
    } else {
        let window = shown_window(frame.viewport)->0;
        law_events_reach_the_shown_window(events, window, frame.cursors@);
        assert(msg == event_msgs(events, window, frame.cursors@)[i - earlier.len() - resize_msgs(
            frame,
        ).len()]);
    }
}

/// Without a focused viewport that shows a window, the game hears nothing of the window events.
pub proof fn law_events_need_a_focused_viewport(
    frames: Seq<ViewportFrame>,
    events: Seq<WindowEvent>,
    other_events: Seq<WindowEvent>,
)
    requires
        !any_reads(frames),
    ensures
        viewport_msgs(frames, events) == viewport_msgs(frames, other_events),
    decreases frames.len(),
{
    if frames.len() > 0 {
        let rest = frames.drop_last();
        assert(!any_reads(rest)) by {
            if any_reads(rest) {
                let j = choose|j: int| 0 <= j < rest.len() && reads(#[trigger] rest[j]);
                assert(reads(frames[j]));
            }
        }
        assert(!reads(frames[frames.len() - 1]));
        law_events_need_a_focused_viewport(rest, events, other_events);
    }
}

/// A viewport that shows the texture of a window sends its events to that window.
pub proof fn law_viewport_speaks_to_the_window_of_its_texture(
    viewport: GameViewport,
    info: ExternalTextureInfo,
    shared: ExternalTexture,
    window: u64,
    owner_pid: u32,
    texture: u64,
    exported: (i32, TextureMetadata),
)
    requires
        is_entity(window),
        is_texture_of(shared, window, owner_pid, texture, exported),
        same_info(info, shared.spec_info()),
        viewport.id == info.texture_id,
    ensures
        shown_window(viewport) == Some(window),
{
}

/// How many of the events do something else than resize the editor's window.
pub open spec fn passed_count(events: Seq<WindowEvent>) -> nat
    decreases events.len(),
{
    if events.len() == 0 {
        0
    } else if events.last() is WindowResized {
        passed_count(events.drop_last())
    } else {
        passed_count(events.drop_last()) + 1
    }
}

/// The message carries the event on to the window: it is of the same kind and says the same, but
/// that the cursor is said to be at the given place.
pub open spec fn carries(msg: EditorMsg, event: WindowEvent, window: u64, cursor: Position) -> bool {
    let passed = msg->WindowEvent_0;
    &&& msg is WindowEvent
    &&& same_kind(passed, event)
    &&& window_of(event) is None ==> passed == event
    &&& window_of(event) is Some ==> window_of(passed) == Some(window)
    &&& event is CursorMoved ==> passed->CursorMoved_position == cursor
        && passed->CursorMoved_delta == event->CursorMoved_delta
    &&& window_of(event) is Some && !(event is CursorMoved) ==> addressed_to(
        passed,
        window_of(event)->0,
    ) == event
}

/// A series of events is passed on one for one and in order, except those that resize the editor's
/// window: each message carries its event on to the window that is shown.
pub proof fn law_events_are_passed_on_one_for_one(
    events: Seq<WindowEvent>,
    window: u64,
    cursors: Seq<Position>,
)
    ensures
        event_msgs(events, window, cursors).len() == passed_count(events),
        forall|i: int|
            #![trigger events[i]]
            0 <= i < events.len() && !(events[i] is WindowResized) ==> {
                &&& passed_count(events.take(i)) < passed_count(events)
                &&& carries(
                    event_msgs(events, window, cursors)[passed_count(events.take(i)) as int],
                    events[i],
                    window,
                    cursors[i],
                )
            },
    decreases events.len(),
{
    if events.len() > 0 {
        let rest = events.drop_last();
        let cursor = cursors[events.len() - 1];
        law_events_are_passed_on_one_for_one(rest, window, cursors);
        law_forwarded_event(events.last(), window, cursor);
        assert forall|i: int|
            #![trigger events[i]]
            0 <= i < events.len() && !(events[i] is WindowResized) implies {
            &&& passed_count(events.take(i)) < passed_count(events)
            &&& carries(
                event_msgs(events, window, cursors)[passed_count(events.take(i)) as int],
                events[i],
                window,
                cursors[i],
            )
        } by {
            if i < rest.len() {
                assert(rest[i] == events[i]);
                assert(rest.take(i) =~= events.take(i));
            } else {
                assert(events.take(i) =~= rest);
            }
        }
    }
}

/// What a single viewport says: nothing unless it shows a window. Then the window is told the
/// viewport's size if the viewport was laid out anew, and after that come the window events if the
/// viewport is focused.
pub proof fn law_single_viewport(frame: ViewportFrame, events: Seq<WindowEvent>)
    ensures
        ({
            let said = viewport_msgs(seq![frame], events);
            let id = frame.viewport.id;
            let shows = id is Some && id->0 % 0x1_0000_0000 != 0;
            let resize = seq![
                EditorMsg::WindowEvent(
                    WindowEvent::WindowResized {
                        window: id->0,
                        width: frame.width,
                        height: frame.height,
                    },
                ),
            ];
            &&& !shows ==> said.len() == 0
            &&& shows && !frame.changed && !frame.viewport.focused ==> said.len() == 0
            &&& shows && frame.changed && !frame.viewport.focused ==> said == resize
            &&& shows && !frame.changed && frame.viewport.focused ==> said == event_msgs(
                events,
                id->0,
                frame.cursors@,
            )
            &&& shows && frame.changed && frame.viewport.focused ==> said == resize + event_msgs(
                events,
                id->0,
                frame.cursors@,
            )
        }),
{
    let frames = seq![frame];
    let said = viewport_msgs(frames, events);
    assert(frames.drop_last() =~= Seq::<ViewportFrame>::empty());
    assert(!any_reads(frames.drop_last()));
    assert(viewport_msgs(frames.drop_last(), events) =~= Seq::<EditorMsg>::empty());
    assert(Seq::<EditorMsg>::empty() + resize_msgs(frame) =~= resize_msgs(frame));
    if reads(frame) {
        let passed = event_msgs(events, shown_window(frame.viewport)->0, frame.cursors@);
        assert(said =~= resize_msgs(frame) + passed);
    } else {
        assert(said =~= resize_msgs(frame));
    }
}

/// The viewports speak one after the other. As soon as one of them has read the window events, those
/// that come after it speak as if there were none.
pub proof fn law_viewports_speak_in_turn(
    first: Seq<ViewportFrame>,
    second: Seq<ViewportFrame>,
    events: Seq<WindowEvent>,
)
    ensures
        any_reads(first + second) == (any_reads(first) || any_reads(second)),
        any_reads(first) ==> viewport_msgs(first + second, events) == viewport_msgs(first, events)
            + viewport_msgs(second, Seq::empty()),
        !any_reads(first) ==> viewport_msgs(first + second, events) == viewport_msgs(
            first,
            Seq::empty(),
        ) + viewport_msgs(second, events),
    decreases second.len(),
{
    let none = Seq::<WindowEvent>::empty();
    if second.len() == 0 {
        assert(first + second =~= first);
        assert(viewport_msgs(first, events) + viewport_msgs(second, none) =~= viewport_msgs(
            first,
            events,
        ));
        if !any_reads(first) {
            law_events_need_a_focused_viewport(first, events, none);
            assert(viewport_msgs(first, none) + viewport_msgs(second, events) =~= viewport_msgs(
                first,
                events,
            ));
        }
    } else {
        let rest = second.drop_last();
        let frame = second.last();
        let all = first + second;
        law_viewports_speak_in_turn(first, rest, events);
        assert(all.drop_last() =~= first + rest);
        assert(all.last() == frame);
        lemma_one_more_viewport_reads(rest, frame);
        lemma_one_more_viewport_reads(first + rest, frame);
        assert(rest.push(frame) =~= second);
        assert((first + rest).push(frame) =~= all);
        let window = shown_window(frame.viewport)->0;
        let passed = event_msgs(events, window, frame.cursors@);
        let silent = event_msgs(none, window, frame.cursors@);
        assert(silent.len() == 0);
        assert(viewport_msgs(second, none) =~= viewport_msgs(rest, none) + resize_msgs(frame));
        if any_reads(first) {
            assert(viewport_msgs(all, events) =~= viewport_msgs(first, events) + viewport_msgs(
                second,
                none,
            ));
        } else if reads(frame) && !any_reads(rest) {
            assert(viewport_msgs(all, events) =~= viewport_msgs(first, none) + viewport_msgs(
                second,
                events,
            ));
        } else {
            assert(viewport_msgs(all, events) =~= viewport_msgs(first, none) + viewport_msgs(
                second,
                events,
            ));
        }
    }
}

/// With one more viewport, the events are read if they were read before or if that viewport reads
/// them.
proof fn lemma_one_more_viewport_reads(frames: Seq<ViewportFrame>, frame: ViewportFrame)
    ensures
        any_reads(frames.push(frame)) == (any_reads(frames) || reads(frame)),
{
    let more = frames.push(frame);
    if any_reads(frames) {
        let j = choose|j: int| 0 <= j < frames.len() && reads(#[trigger] frames[j]);
        assert(reads(more[j]));
    }
    if any_reads(more) {
        let j = choose|j: int| 0 <= j < more.len() && reads(#[trigger] more[j]);
        if j < frames.len() {
            assert(reads(frames[j]));
        }
    }
    assert(more[frames.len() as int] == frame);
}

/// What [`send_events_to_game_viewport`] does: the viewports speak after all that was said before. The
/// events are read exactly if one of the viewports is focused and shows a window.
pub proof fn law_viewports_are_heard(
    frames: &Vec<ViewportFrame>,
    game: &mut GameProcess,
    window_events: Vec<WindowEvent>,
    read: bool,
)
    requires
        call_ensures(send_events_to_game_viewport, (frames, game, window_events), read),
    ensures
        final(game).to_game@ == old(game).to_game@ + viewport_msgs(frames@, window_events@),
        final(game).msg_queue == old(game).msg_queue,
        final(game).systems == old(game).systems,
        read <==> exists|i: int|
            {
                let viewport = (#[trigger] frames@[i]).viewport;
                &&& 0 <= i < frames@.len()
                &&& viewport.focused
                &&& viewport.id is Some
                &&& viewport.id->0 % 0x1_0000_0000 != 0
            },
{
    if read {
        let i = choose|i: int| 0 <= i < frames@.len() && reads(#[trigger] frames@[i]);
        assert(frames@[i].viewport.focused);
    }
    if exists|i: int|
        {
            let viewport = (#[trigger] frames@[i]).viewport;
            &&& 0 <= i < frames@.len()
            &&& viewport.focused
            &&& viewport.id is Some
            &&& viewport.id->0 % 0x1_0000_0000 != 0
        } {
        let i = choose|i: int|
            {
                let viewport = (#[trigger] frames@[i]).viewport;
                &&& 0 <= i < frames@.len()
                &&& viewport.focused
                &&& viewport.id is Some
                &&& viewport.id->0 % 0x1_0000_0000 != 0
            };
        assert(reads(frames@[i]));
    }
}

/// What [`ViewportTextureUpdate::observer`] does. A texture without a number and one that could not be
/// imported are reported, and change nothing. A texture whose number has an image that still exists
/// is shown by that image from then on, which is resized to it. For any other one an image of its
/// size is to be made. No other texture is touched.
pub proof fn law_texture_is_taken_in(
    update: ViewportTextureUpdate,
    targets: &mut ViewportTargets,
    imported: Result<u64, ExternalTextureImportError>,
    image_exists: bool,
    outcome: ViewportUpdate,
)
    requires
        call_ensures(
            ViewportTextureUpdate::observer,
            (update, targets, imported, image_exists),
            outcome,
        ),
    ensures
        ({
            let before = old(targets).targets@;
            let after = final(targets).targets@;
            let id = update.info.texture_id;
            let size = update.info.inner.wgpu_size;
            let kept = id is Some && imported is Ok && before.dom().contains(id->0) && image_exists;
            &&& outcome is NoId <==> id is None
            &&& outcome is ImportFailed <==> id is Some && imported is Err
            &&& outcome is ImportFailed ==> imported == Err::<u64, ExternalTextureImportError>(
                outcome->ImportFailed_error,
            )
            &&& outcome is Resize <==> kept
            &&& kept ==> {
                &&& outcome->Resize_image == before[id->0].image
                &&& outcome->Resize_size == size
                &&& after.dom() == before.dom()
                &&& after[id->0].image == before[id->0].image
                &&& after[id->0].texture == imported->Ok_0
                &&& forall|other: u64|
                    #![trigger after[other]]
                    other != id->0 && before.dom().contains(other) ==> after[other]
                        == before[other]
            }
            &&& outcome is AddImage ==> {
                &&& outcome->AddImage_id == id->0
                &&& outcome->AddImage_width == size.width
                &&& outcome->AddImage_height == size.height
                &&& outcome->AddImage_texture == imported->Ok_0
            }
            &&& !kept ==> after == before
        }),
{
    let id = update.info.texture_id;
    if id is Some && old(targets).targets@.dom().contains(id->0) {
        assert(old(targets).targets@.dom().insert(id->0) =~= old(targets).targets@.dom());
    }
}

/// A texture is imported exactly if it has a number, and is known by that number.
pub proof fn law_numbered_texture_is_imported(info: &ExternalTextureInfo, id: Option<u64>)
    requires
        call_ensures(texture_to_import, (info,), id),
    ensures
        id is Some <==> info.texture_id is Some,
        id is Some ==> info.texture_id == Some(id->0),
{
}

/// A texture that was given an image is shown by that image, no other texture is touched, and the
/// viewports hear of that very texture.
pub proof fn law_shown_texture_has_its_image(
    targets: &mut ViewportTargets,
    id: u64,
    image: u64,
    texture: u64,
    created: ViewportTextureCreated,
)
    requires
        call_ensures(ViewportTargets::show, (targets, id, image, texture), created),
    ensures
        created.id == id,
        final(targets).targets@.dom() == old(targets).targets@.dom().insert(id),
        final(targets).targets@[id].image == image,
        final(targets).targets@[id].texture == texture,
        forall|other: u64|
            #![trigger final(targets).targets@[other]]
            other != id && old(targets).targets@.dom().contains(other)
                ==> final(targets).targets@[other] == old(targets).targets@[other],
{
    assert(final(targets).targets@.dom() =~= old(targets).targets@.dom().insert(id));
}

/// The first viewport shows a new texture, if that texture is known and the viewport has a node: the
/// node has the texture's image from then on, and the viewport its number. All other viewports and
/// nodes stay as they were, and nothing at all happens otherwise.
pub proof fn law_first_viewport_shows_the_texture(
    created: ViewportTextureCreated,
    targets: &ViewportTargets,
    viewports: &mut Vec<GameViewport>,
    image_nodes: &mut EntityMap<u64>,
)
    requires
        call_ensures(
            update_game_viewport_texture_observer,
            (created, targets, viewports, image_nodes),
            (),
        ),
    ensures
        ({
            let before = old(viewports)@;
            let after = final(viewports)@;
            let nodes = old(image_nodes)@;
            let nodes_after = final(image_nodes)@;
            let shown = targets.targets@.dom().contains(created.id) && before.len() > 0
                && nodes.dom().contains(before[0].image);
            &&& after.len() == before.len()
            &&& forall|i: int|
                #![trigger after[i]]
                0 < i < before.len() ==> after[i] == before[i]
            &&& nodes_after.dom() == nodes.dom()
            &&& shown ==> {
                &&& after[0].id == Some(created.id)
                &&& after[0].image == before[0].image
                &&& after[0].focused == before[0].focused
                &&& nodes_after[before[0].image] == targets.targets@[created.id].image
                &&& forall|other: u64|
                    #![trigger nodes_after[other]]
                    other != before[0].image && nodes.dom().contains(other) ==> nodes_after[other]
                        == nodes[other]
            }
            &&& !shown ==> after == before && nodes_after == nodes
        }),
{
    assert(final(image_nodes)@.dom() =~= old(image_nodes)@.dom());
}

/// A new viewport shows nothing and is not focused. It is focused while the pointer is over it, and
/// what it shows does not depend on that.
pub proof fn law_viewport_is_focused_by_the_pointer(
    image: u64,
    scene: GameViewport,
    viewport: &mut GameViewport,
    focused: bool,
)
    requires
        call_ensures(GameViewport::scene, (image,), scene),
        call_ensures(GameViewport::set_focused, (viewport, focused), ()),
    ensures
        scene.id is None,
        !scene.focused,
        scene.image == image,
        final(viewport).focused == focused,
        final(viewport).id == old(viewport).id,
        final(viewport).image == old(viewport).image,
{
}

} // verus!
