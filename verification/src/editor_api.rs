//! An editor and a game that live in one fixed workspace.
//!
//! The editor takes every texture of the game as a picture of its own, and the game has a single
//! window that all events go to.

use crate::collections::{views, EntityMap};
use crate::game_process::{starts_game, LaunchCommand};
use crate::integration::{
    flags_after, gives_work, law_names_have_switches_of_their_own, switches, work_in,
    DisabledSystems, RunnerState,
};
use crate::messages::{EditorMsg, ReflectedEvent, EDITOR_SERVER_NAME_VAR};
use crate::texture_share::TextureMetadata;
use crate::window_event::{
    addressed_to, process_window_event, same_kind, whole_part, window_after, window_of, EventWrite,
    Position, Window, WindowEvent,
};
use vstd::prelude::*;

verus! {

/// Where the workspace is.
pub const WORKSPACE_PATH: &'static str = "/workspaces/bevy-editor-experiments";

/// A message from the game to the editor. A sender is known by number.
#[derive(Debug)]
pub enum GameMsg {
    Sender(u64),
    Image(TextureMetadata),
    ProcessInfo { systems: Vec<String> },
}

/// A running game.
pub struct GameProcess {
    /// The counterparts of the game's entities in the editor's world.
    pub entities_map: EntityMap<u64>,
    /// The way back from the counterparts.
    pub reverse_entities_map: EntityMap<u64>,
    /// Messages that wait to be sent to the game, oldest first.
    pub to_game: Vec<EditorMsg>,
    /// Messages that came from the game, oldest first.
    pub msg_queue: Vec<GameMsg>,
}

impl GameProcess {
    /// The tables are in order.
    pub open spec fn wf(&self) -> bool {
        &&& self.entities_map.wf()
        &&& self.reverse_entities_map.wf()
    }

    /// A game that has just been reached.
    pub fn new() -> (game: Self)
        ensures
            game.wf(),
            game.entities_map@ == Map::<u64, u64>::empty(),
            game.reverse_entities_map@ == Map::<u64, u64>::empty(),
            game.to_game@.len() == 0,
            game.msg_queue@.len() == 0,
    {
        GameProcess {
            entities_map: EntityMap::new(),
            reverse_entities_map: EntityMap::new(),
            to_game: Vec::new(),
            msg_queue: Vec::new(),
        }
    }

    /// Takes in what listening to the game gave. Listening goes on until it fails.
    pub fn receive(&mut self, received: Result<GameMsg, ()>) -> (listen_on: bool)
        ensures
            listen_on == received is Ok,
            final(self).msg_queue@ == (match received {
                Ok(msg) => old(self).msg_queue@.push(msg),
                Err(_) => old(self).msg_queue@,
            }),
            final(self).to_game == old(self).to_game,
            final(self).entities_map == old(self).entities_map,
            final(self).reverse_entities_map == old(self).reverse_entities_map,
    {
        match received {
            Ok(msg) => {
                self.msg_queue.push(msg);
                true
            },
            Err(_) => false,
        }
    }
}

/// The command that starts the game of the workspace.
pub fn launch_command(server_name: String) -> (command: LaunchCommand)
    ensures
        starts_game(command, seq!["run"@, "-p"@, "game"@], WORKSPACE_PATH@, server_name@),
{
    let mut args: Vec<String> = Vec::new();
    args.push("run".to_owned());
    args.push("-p".to_owned());
    args.push("game".to_owned());
    assert(views(args@) =~= seq!["run"@, "-p"@, "game"@]);
    LaunchCommand {
        program: "cargo".to_owned(),
        args,
        current_dir: WORKSPACE_PATH.to_owned(),
        env_name: EDITOR_SERVER_NAME_VAR.to_owned(),
        env_value: server_name,
    }
}

/// The textures among a series of messages.
pub open spec fn images_in(msgs: Seq<GameMsg>) -> Seq<TextureMetadata>
    decreases msgs.len(),
{
    if msgs.len() == 0 {
        Seq::empty()
    } else {
        let before = images_in(msgs.drop_last());
        match msgs.last() {
            GameMsg::Image(metadata) => before.push(metadata),
            _ => before,
        }
    }
}

/// What the editor says to the game in a frame: that the frame begins, then all window events, and
/// then whether the game is to pause or to go on.
pub open spec fn frame_msgs(
    events: Seq<WindowEvent>,
    pause_pressed: bool,
    continue_pressed: bool,
) -> Seq<EditorMsg> {
    let pause = if pause_pressed {
        seq![EditorMsg::Pause]
    } else {
        Seq::empty()
    };
    let go_on = if continue_pressed {
        seq![EditorMsg::Continue]
    } else {
        Seq::empty()
    };
    seq![EditorMsg::NextFrame] + events.map_values(|event: WindowEvent| EditorMsg::WindowEvent(event))
        + pause + go_on
}

/// A frame of the editor: the game is told what happened, and the textures that came from the game
/// are handed out, to be imported and shown as pictures.
pub fn sync_world(
    game: &mut GameProcess,
    window_events: Vec<WindowEvent>,
    pause_pressed: bool,
    continue_pressed: bool,
) -> (images: Vec<TextureMetadata>)
    requires
        old(game).wf(),
    ensures
        final(game).wf(),
        final(game).entities_map == old(game).entities_map,
        final(game).reverse_entities_map == old(game).reverse_entities_map,
        final(game).msg_queue@.len() == 0,
        final(game).to_game@ == old(game).to_game@ + frame_msgs(
            window_events@,
            pause_pressed,
            continue_pressed,
        ),
        images@ == images_in(old(game).msg_queue@),
{
    let ghost before = game.to_game@;
    let ghost events = window_events@;
    game.to_game.push(EditorMsg::NextFrame);
    let mut batch: Vec<GameMsg> = Vec::new();
    core::mem::swap(&mut batch, &mut game.msg_queue);
    let mut images: Vec<TextureMetadata> = Vec::new();
    let ghost all = batch@;
    let ghost mut done: int = 0;
    for msg in it: batch
        invariant
            it.seq() == all,
            done == it.index(),
            0 <= done,
            images@ == images_in(all.take(done)),
    {
        proof {
            assert(all.take(done + 1).drop_last() =~= all.take(done));
            assert(all.take(done + 1).last() == msg);
            done = done + 1;
        }
        match msg {
            GameMsg::Image(metadata) => {
                images.push(metadata);
            },
            GameMsg::Sender(_) => {},
            GameMsg::ProcessInfo { systems: _ } => {},
        }
    }
    assert(all.take(done) =~= all);
    let ghost told = seq![EditorMsg::NextFrame];
    let ghost passed = events.map_values(|event: WindowEvent| EditorMsg::WindowEvent(event));
    let ghost mut sent: int = 0;
    assert(game.to_game@ =~= before + told + passed.take(0));
    for event in it: window_events
        invariant
            it.seq() == events,
            sent == it.index(),
            0 <= sent,
            passed == events.map_values(|event: WindowEvent| EditorMsg::WindowEvent(event)),
            game.wf(),
            game.to_game@ == before + told + passed.take(sent),
            game.msg_queue@.len() == 0,
            game.entities_map == old(game).entities_map,
            game.reverse_entities_map == old(game).reverse_entities_map,
    {
        game.to_game.push(EditorMsg::WindowEvent(event));
        proof {
            assert(passed[sent] == EditorMsg::WindowEvent(event));
            sent = sent + 1;
            assert(game.to_game@ =~= before + told + passed.take(sent));
        }
    }
    assert(passed.take(sent) =~= passed);
    if pause_pressed {
        game.to_game.push(EditorMsg::Pause);
    }
    if continue_pressed {
        game.to_game.push(EditorMsg::Continue);
    }
    assert(game.to_game@ =~= before + frame_msgs(events, pause_pressed, continue_pressed));
    images
}

/// Something for the game's world to do.
pub enum WindowAction {
    /// A window event is to be written.
    WriteEvent { write: EventWrite },
    /// An event is to be triggered.
    Trigger { event: ReflectedEvent },
}

/// What of the game the editor can change, and what the game has to do.
#[verifier::ext_equal]
pub struct Round {
    pub window: Window,
    pub runner: RunnerState,
    pub flags: Seq<bool>,
    pub actions: Seq<WindowAction>,
}

/// What a message brings about in a game with a single window.
pub open spec fn round_after(
    bound: Map<Seq<char>, usize>,
    window: u64,
    before: Round,
    msg: EditorMsg,
) -> Round {
    match msg {
        EditorMsg::NextFrame => before,
        EditorMsg::WindowEvent(event) => Round {
            window: window_after(before.window, event),
            actions: before.actions.push(
                WindowAction::WriteEvent {
                    write: EventWrite {
                        own_kind: event is WindowResized || event is KeyboardInput,
                        event: addressed_to(event, window),
                    },
                },
            ),
            ..before
        },
        EditorMsg::Pause => Round {
            runner: RunnerState { paused: true, ..before.runner },
            ..before
        },
        EditorMsg::Continue => Round {
            runner: RunnerState { paused: false, ..before.runner },
            ..before
        },
        EditorMsg::Exit => Round { runner: RunnerState { exit: true, ..before.runner }, ..before },
        EditorMsg::ReflectedEvent(event) => Round {
            actions: before.actions.push(WindowAction::Trigger { event }),
            ..before
        },
        EditorMsg::ModifySystem { name, state } => Round {
            flags: flags_after(bound, before.flags, name@, state),
            ..before
        },
    }
}

/// What a series of messages brings about, one after the other.
pub open spec fn rounds_after(
    bound: Map<Seq<char>, usize>,
    window: u64,
    before: Round,
    msgs: Seq<EditorMsg>,
) -> Round
    decreases msgs.len(),
{
    if msgs.len() == 0 {
        before
    } else {
        round_after(bound, window, rounds_after(bound, window, before, msgs.drop_last()), msgs.last())
    }
}

/// Works off the messages of the editor at the start of a round.
pub fn work_off_messages(
    msgs: Vec<EditorMsg>,
    entity: u64,
    window: &mut Window,
    state: &mut RunnerState,
    disabled_systems: &mut DisabledSystems,
) -> (actions: Vec<WindowAction>)
    requires
        old(disabled_systems).wf(),
    ensures
        final(disabled_systems).wf(),
        final(disabled_systems).bound() == old(disabled_systems).bound(),
        (Round {
            window: *final(window),
            runner: *final(state),
            flags: final(disabled_systems).flags(),
            actions: actions@,
        }) == rounds_after(
            old(disabled_systems).bound(),
            entity,
            (Round {
                window: *old(window),
                runner: *old(state),
                flags: old(disabled_systems).flags(),
                actions: Seq::empty(),
            }),
            msgs@,
        ),
{
    let mut actions: Vec<WindowAction> = Vec::new();
    let ghost all = msgs@;
    let ghost bound = disabled_systems.bound();
    let ghost before = Round {
        window: *window,
        runner: *state,
        flags: disabled_systems.flags(),
        actions: Seq::empty(),
    };
    let ghost mut done: int = 0;
    assert(actions@ =~= Seq::<WindowAction>::empty());
    for msg in it: msgs
        invariant
            it.seq() == all,
            done == it.index(),
            0 <= done,
            disabled_systems.wf(),
            disabled_systems.bound() == bound,
            *window == rounds_after(bound, entity, before, all.take(done)).window,
            *state == rounds_after(bound, entity, before, all.take(done)).runner,
            disabled_systems.flags() == rounds_after(bound, entity, before, all.take(done)).flags,
            actions@ == rounds_after(bound, entity, before, all.take(done)).actions,
    {
        proof {
            assert(all.take(done + 1).drop_last() =~= all.take(done));
            assert(all.take(done + 1).last() == msg);
            done = done + 1;
        }
        match msg {
            EditorMsg::NextFrame => {},
            EditorMsg::WindowEvent(event) => {
                let write = process_window_event(event, entity, window);
                actions.push(WindowAction::WriteEvent { write });
            },
            EditorMsg::Pause => {
                state.paused = true;
            },
            EditorMsg::Continue => {
                state.paused = false;
            },
            EditorMsg::Exit => {
                state.exit = true;
            },
            EditorMsg::ReflectedEvent(event) => {
                actions.push(WindowAction::Trigger { event });
            },
            EditorMsg::ModifySystem { name, state } => {
                disabled_systems.modify(&name, state);
            },
        }
    }
    assert(all.take(done) =~= all);
    actions
}

/// What the runner does after the messages of a round: whether the game is updated, and, given
/// whether the game itself wants to end after that, whether this was the last round.
#[derive(Clone, Copy, PartialEq, Eq, Structural, Debug)]
pub struct RoundPlan {
    pub update: bool,
    pub last: bool,
}

/// Plans the rest of a round. Unlike its updates, the end of the game does not wait for a pause to
/// be over.
pub fn runner(state: RunnerState, should_exit: bool) -> (plan: RoundPlan)
    ensures
        plan.update == !state.paused,
        plan.last == (state.exit || should_exit),
{
    RoundPlan { update: !state.paused, last: state.exit || should_exit }
}

/// Where the messages of the editor are cut into rounds makes no difference.
pub proof fn law_rounds_make_no_difference(
    bound: Map<Seq<char>, usize>,
    window: u64,
    before: Round,
    first: Seq<EditorMsg>,
    second: Seq<EditorMsg>,
)
    ensures
        rounds_after(bound, window, before, first + second) == rounds_after(
            bound,
            window,
            rounds_after(bound, window, before, first),
            second,
        ),
    decreases second.len(),
{
    if second.len() == 0 {
        assert(first + second =~= first);
    } else {
        assert((first + second).drop_last() =~= first + second.drop_last());
        assert((first + second).last() == second.last());
        law_rounds_make_no_difference(bound, window, before, first, second.drop_last());
    }
}

/// How many textures there are among a series of messages.
pub open spec fn image_count(msgs: Seq<GameMsg>) -> nat
    decreases msgs.len(),
{
    if msgs.len() == 0 {
        0
    } else if msgs.last() is Image {
        image_count(msgs.drop_last()) + 1
    } else {
        image_count(msgs.drop_last())
    }
}

/// The textures that a game sent are handed out one for one and in order, and nothing else is.
pub proof fn law_every_texture_is_handed_out(msgs: Seq<GameMsg>)
    ensures
        images_in(msgs).len() == image_count(msgs),
        forall|i: int|
            #![trigger msgs[i]]
            0 <= i < msgs.len() && msgs[i] is Image ==> {
                &&& image_count(msgs.take(i)) < image_count(msgs)
                &&& images_in(msgs)[image_count(msgs.take(i)) as int] == msgs[i]->Image_0
            },
    decreases msgs.len(),
{
    if msgs.len() > 0 {
        let rest = msgs.drop_last();
        law_every_texture_is_handed_out(rest);
        assert forall|i: int| #![trigger msgs[i]] 0 <= i < msgs.len() && msgs[i] is Image implies {
            &&& image_count(msgs.take(i)) < image_count(msgs)
            &&& images_in(msgs)[image_count(msgs.take(i)) as int] == msgs[i]->Image_0
        } by {
            if i < rest.len() {
                assert(rest[i] == msgs[i]);
                assert(rest.take(i) =~= msgs.take(i));
            } else {
                assert(msgs.take(i) =~= rest);
            }
        }
    }
}

/// In each frame the game is told first that the frame begins, then every window event as it came
/// and in order, and then to pause, or to continue, if that was asked for. Every texture that came
/// from the game is handed out.
pub proof fn law_frame_tells_all_and_takes_all(
    game: &mut GameProcess,
    window_events: Vec<WindowEvent>,
    pause_pressed: bool,
    continue_pressed: bool,
    images: Vec<TextureMetadata>,
)
    requires
        call_ensures(sync_world, (game, window_events, pause_pressed, continue_pressed), images),
    ensures
        ({
            let before = old(game).to_game@;
            let after = final(game).to_game@;
            let events = window_events@;
            let first = before.len() as int;
            let end = first + 1 + events.len();
            let pauses: int = if pause_pressed {
                1
            } else {
                0
            };
            let continues: int = if continue_pressed {
                1
            } else {
                0
            };
            &&& after.len() == end + pauses + continues
            &&& after.take(first) == before
            &&& after[first] == EditorMsg::NextFrame
            &&& forall|i: int|
                #![trigger events[i]]
                0 <= i < events.len() ==> after[first + 1 + i] == EditorMsg::WindowEvent(events[i])
            &&& pause_pressed ==> after[end] == EditorMsg::Pause
            &&& continue_pressed ==> after.last() == EditorMsg::Continue
        }),
        images@.len() == image_count(old(game).msg_queue@),
        forall|i: int|
            #![trigger old(game).msg_queue@[i]]
            0 <= i < old(game).msg_queue@.len() && old(game).msg_queue@[i] is Image ==> images@[
                image_count(old(game).msg_queue@.take(i)) as int
            ] == old(game).msg_queue@[i]->Image_0,
        final(game).msg_queue@.len() == 0,
        final(game).entities_map == old(game).entities_map,
        final(game).reverse_entities_map == old(game).reverse_entities_map,
{
    law_every_texture_is_handed_out(old(game).msg_queue@);
    assert(final(game).to_game@.take(old(game).to_game@.len() as int) =~= old(game).to_game@);
}

/// The action does what the message asks for: an event of the editor is triggered, and a window
/// event is written, with all that it says, for the given window.
pub open spec fn does_what_is_asked(action: WindowAction, msg: EditorMsg, window: u64) -> bool {
    &&& msg is ReflectedEvent ==> action == WindowAction::Trigger { event: msg->ReflectedEvent_0 }
    &&& msg is WindowEvent ==> {
        let event = msg->WindowEvent_0;
        let write = action->WriteEvent_write;
        &&& action is WriteEvent
        &&& same_kind(write.event, event)
        &&& window_of(event) is None ==> write.event == event
        &&& window_of(event) is Some ==> window_of(write.event) == Some(window) && addressed_to(
            write.event,
            window_of(event)->0,
        ) == event
        &&& write.own_kind <==> event is WindowResized || event is KeyboardInput
    }
}

/// The messages are worked off one for one and in order: each window event and each triggered event
/// adds one action, which does what the message asks for, and no other message adds any.
pub proof fn law_each_message_is_acted_on(
    bound: Map<Seq<char>, usize>,
    window: u64,
    before: Round,
    msgs: Seq<EditorMsg>,
)
    ensures
        ({
            let after = rounds_after(bound, window, before, msgs);
            &&& after.actions.len() == before.actions.len() + work_in(msgs)
            &&& after.actions.take(before.actions.len() as int) == before.actions
            &&& forall|i: int|
                #![trigger msgs[i]]
                0 <= i < msgs.len() && gives_work(msgs[i]) ==> {
                    &&& work_in(msgs.take(i)) < work_in(msgs)
                    &&& does_what_is_asked(
                        after.actions[(before.actions.len() + work_in(msgs.take(i))) as int],
                        msgs[i],
                        window,
                    )
                }
        }),
    decreases msgs.len(),
{
    let after = rounds_after(bound, window, before, msgs);
    if msgs.len() == 0 {
        assert(after.actions.take(before.actions.len() as int) =~= before.actions);
    } else {
        let rest = msgs.drop_last();
        let then = rounds_after(bound, window, before, rest);
        law_each_message_is_acted_on(bound, window, before, rest);
        assert(after.actions.take(then.actions.len() as int) =~= then.actions);
        assert(after.actions.take(before.actions.len() as int) =~= then.actions.take(
            before.actions.len() as int,
        ));
        assert forall|i: int| #![trigger msgs[i]] 0 <= i < msgs.len() && gives_work(msgs[i]) implies {
            &&& work_in(msgs.take(i)) < work_in(msgs)
            &&& does_what_is_asked(
                after.actions[(before.actions.len() + work_in(msgs.take(i))) as int],
                msgs[i],
                window,
            )
        } by {
            if i < rest.len() {
                assert(rest[i] == msgs[i]);
                assert(rest.take(i) =~= msgs.take(i));
                let place = before.actions.len() + work_in(msgs.take(i));
                assert(after.actions.take(then.actions.len() as int)[place as int]
                    == after.actions[place as int]);
            } else {
                assert(msgs.take(i) =~= rest);
            }
        }
    }
}

/// The cursor stays where it is, and the window keeps its size, until a message says otherwise. The
/// game goes on being paused, or running, until it is told otherwise, and is to exit only if it was
/// told so. A system that is not switched stays as it is.
pub proof fn law_rest_of_the_round_stands(
    disabled: DisabledSystems,
    window: u64,
    before: Round,
    msgs: Seq<EditorMsg>,
    name: Seq<char>,
)
    requires
        disabled.wf(),
        disabled.bound().dom().contains(name),
        before.flags.len() == disabled.flags().len(),
    ensures
        ({
            let after = rounds_after(disabled.bound(), window, before, msgs);
            &&& (forall|i: int|
                0 <= i < msgs.len() ==> !((#[trigger] msgs[i]) is WindowEvent
                    && msgs[i]->WindowEvent_0 is CursorMoved)) ==> after.window.physical_cursor
                == before.window.physical_cursor
            &&& (forall|i: int|
                0 <= i < msgs.len() ==> !((#[trigger] msgs[i]) is WindowEvent
                    && msgs[i]->WindowEvent_0 is WindowResized)) ==> {
                &&& after.window.physical_width == before.window.physical_width
                &&& after.window.physical_height == before.window.physical_height
            }
            &&& (forall|i: int|
                0 <= i < msgs.len() ==> #[trigger] msgs[i] != EditorMsg::Pause && msgs[i]
                    != EditorMsg::Continue) ==> after.runner.paused == before.runner.paused
            &&& (forall|i: int| 0 <= i < msgs.len() ==> #[trigger] msgs[i] != EditorMsg::Exit)
                ==> after.runner.exit == before.runner.exit
            &&& before.runner.exit ==> after.runner.exit
            &&& after.flags.len() == before.flags.len()
            &&& (forall|i: int| 0 <= i < msgs.len() ==> !switches(#[trigger] msgs[i], name))
                ==> after.flags[disabled.bound()[name] as int]
                == before.flags[disabled.bound()[name] as int]
        }),
    decreases msgs.len(),
{
    law_names_have_switches_of_their_own(disabled);
    if msgs.len() > 0 {
        let rest = msgs.drop_last();
        law_rest_of_the_round_stands(disabled, window, before, rest, name);
        assert(forall|i: int| 0 <= i < rest.len() ==> #[trigger] rest[i] == msgs[i]);
        assert(msgs[msgs.len() - 1] == msgs.last());
    }
}

/// What the editor says last about a thing is what counts at the end of the round: where the cursor
/// is, how large the window is, whether the game is paused, whether it is to exit, and whether a
/// system runs.
pub proof fn law_last_message_counts(
    disabled: DisabledSystems,
    window: u64,
    before: Round,
    msgs: Seq<EditorMsg>,
    last: EditorMsg,
)
    requires
        disabled.wf(),
        rounds_after(disabled.bound(), window, before, msgs).flags.len() == disabled.flags().len(),
    ensures
        ({
            let after = rounds_after(disabled.bound(), window, before, msgs.push(last));
            &&& last is WindowEvent && last->WindowEvent_0 is CursorMoved
                ==> after.window.physical_cursor == Some(
                last->WindowEvent_0->CursorMoved_position,
            )
            &&& last is WindowEvent && last->WindowEvent_0 is WindowResized ==> {
                &&& after.window.physical_width == whole_part(
                    last->WindowEvent_0->WindowResized_width,
                )
                &&& after.window.physical_height == whole_part(
                    last->WindowEvent_0->WindowResized_height,
                )
            }
            &&& last is Pause ==> after.runner.paused
            &&& last is Continue ==> !after.runner.paused
            &&& last is Exit ==> after.runner.exit
            &&& last is ModifySystem && disabled.bound().dom().contains(last->ModifySystem_name@)
                ==> after.flags[disabled.bound()[last->ModifySystem_name@] as int]
                == last->ModifySystem_state
        }),
{
    law_names_have_switches_of_their_own(disabled);
    assert(msgs.push(last).drop_last() =~= msgs);
}

/// What [`work_off_messages`] returns: one action for each window event and each triggered event, in
/// their order, and no others.
pub proof fn law_messages_of_the_round_are_acted_on(
    msgs: Vec<EditorMsg>,
    entity: u64,
    window: &mut Window,
    state: &mut RunnerState,
    disabled_systems: &mut DisabledSystems,
    actions: Vec<WindowAction>,
)
    requires
        call_ensures(
            work_off_messages,
            (msgs, entity, window, state, disabled_systems),
            actions,
        ),
    ensures
        actions@.len() == work_in(msgs@),
        forall|i: int|
            #![trigger msgs@[i]]
            0 <= i < msgs@.len() && gives_work(msgs@[i]) ==> does_what_is_asked(
                actions@[work_in(msgs@.take(i)) as int],
                msgs@[i],
                entity,
            ),
{
    let before = Round {
        window: *old(window),
        runner: *old(state),
        flags: old(disabled_systems).flags(),
        actions: Seq::empty(),
    };
    law_each_message_is_acted_on(old(disabled_systems).bound(), entity, before, msgs@);
    let after = rounds_after(old(disabled_systems).bound(), entity, before, msgs@);
    assert(after.actions == actions@);
}

/// A paused game is not updated. A round is the last one exactly if the editor or the game itself
/// wants the game to end, paused or not.
pub proof fn law_round_is_planned(state: RunnerState, should_exit: bool, plan: RoundPlan)
    requires
        call_ensures(runner, (state, should_exit), plan),
    ensures
        state.paused <==> !plan.update,
        !plan.last <==> !state.exit && !should_exit,
{
}

/// What listening to the game gives goes to the end of the queue, and nothing is queued when the game
/// is lost.
pub proof fn law_editor_queues_what_it_hears(
    game: &mut GameProcess,
    received: Result<GameMsg, ()>,
    listen_on: bool,
)
    requires
        call_ensures(GameProcess::receive, (game, received), listen_on),
    ensures
        listen_on <==> received is Ok,
        received is Ok ==> final(game).msg_queue@ == old(game).msg_queue@ + seq![received->Ok_0],
        received is Err ==> final(game).msg_queue@ == old(game).msg_queue@,
        final(game).to_game == old(game).to_game,
        final(game).entities_map == old(game).entities_map,
        final(game).reverse_entities_map == old(game).reverse_entities_map,
{
}

/// The game is started in the workspace, and finds the name of the editor's server where it looks
/// for it.
pub proof fn law_game_of_the_workspace_is_launched(server_name: String, command: LaunchCommand)
    requires
        call_ensures(launch_command, (server_name,), command),
    ensures
        command.program@ == "cargo"@,
        command.args@.len() == 3,
        command.args@[0]@ == "run"@,
        command.args@[1]@ == "-p"@,
        command.args@[2]@ == "game"@,
        command.current_dir@ == "/workspaces/bevy-editor-experiments"@,
        command.env_name@ == "BEVY_EDITOR_SERVER_NAME"@,
        command.env_value@ == server_name@,
{
    let args = views(command.args@);
    assert(args.len() == 3 && args.len() == command.args@.len());
    assert(args[0] == "run"@ && args[1] == "-p"@ && args[2] == "game"@);
}

} // verus!
