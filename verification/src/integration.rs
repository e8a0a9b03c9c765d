//! The game's end of the connection to its editor.

use crate::collections::{views, EntityMap, NameMap};
use crate::game_process::{announced, systems_after, RemoteSystem};
use crate::messages::{EditorMsg, GameMsg, ReflectedEvent};
use crate::window_event::{
    changes_window, whole_part, window_after, window_of, write_window_event, EventWrite, Position,
    Window, WindowEvent,
};
use vstd::prelude::*;

verus! {

/// The connection to the editor.
pub struct EditorProcess {
    /// Messages that wait to be sent to the editor, oldest first.
    pub to_editor: Vec<GameMsg>,
    /// Messages that came from the editor, oldest first.
    pub msg_queue: Vec<EditorMsg>,
}

impl EditorProcess {
    /// A fresh connection. The first thing that the editor hears is how to reach the game.
    pub fn new(game_sender: u64) -> (editor: Self)
        ensures
            editor.to_editor@ == seq![GameMsg::Sender(game_sender)],
            editor.msg_queue@.len() == 0,
    {
        let mut to_editor: Vec<GameMsg> = Vec::new();
        to_editor.push(GameMsg::Sender(game_sender));
        assert(to_editor@ =~= seq![GameMsg::Sender(game_sender)]);
        EditorProcess { to_editor, msg_queue: Vec::new() }
    }

    /// Sends a message to the editor, after all that were sent before.
    pub fn send(&mut self, msg: GameMsg)
        ensures
            final(self).to_editor@ == old(self).to_editor@.push(msg),
            final(self).msg_queue == old(self).msg_queue,
    {
        self.to_editor.push(msg);
    }

    /// Takes in what listening to the editor gave. Listening goes on until it fails, and a failure
    /// counts as the wish to exit.
    pub fn receive(&mut self, received: Result<EditorMsg, ()>) -> (listen_on: bool)
        ensures
            listen_on == received is Ok,
            final(self).msg_queue@ == old(self).msg_queue@.push(heard(received)),
            final(self).to_editor == old(self).to_editor,
    {
        match received {
            Ok(msg) => {
                self.msg_queue.push(msg);
                true
            },
            Err(_) => {
                self.msg_queue.push(EditorMsg::Exit);
                false
            },
        }
    }

    /// Moves every message that came from the editor into the given list, and drops what the list
    /// held before.
    pub fn get_messages(&mut self, swap_to: &mut Vec<EditorMsg>)
        ensures
            final(swap_to)@ == old(self).msg_queue@,
            final(self).msg_queue@.len() == 0,
            final(self).to_editor == old(self).to_editor,
    {
        swap_to.clear();
        core::mem::swap(&mut self.msg_queue, swap_to);
    }
}

/// The message that listening to the editor amounts to.
pub open spec fn heard(received: Result<EditorMsg, ()>) -> EditorMsg {
    match received {
        Ok(msg) => msg,
        Err(_) => EditorMsg::Exit,
    }
}

/// What the editor asked of the runner.
#[derive(Clone, Copy, PartialEq, Eq, Structural, Debug)]
pub struct RunnerState {
    pub exit: bool,
    pub paused: bool,
}

impl Default for RunnerState {
    fn default() -> (state: Self)
        ensures
            state == (RunnerState { exit: false, paused: false }),
    {
        RunnerState { exit: false, paused: false }
    }
}

/// Where the runner is in its round.
#[derive(Clone, Copy, PartialEq, Eq, Structural, Debug)]
pub enum RunnerPhase {
    /// The systems that run once, before the first round.
    IntegrationStartup,
    /// The systems that run before the game, while it is paused too.
    PreSimulation,
    /// The game itself.
    Simulation,
    /// The systems that run after the game.
    PostSimulation,
    /// The parts of the game that work beside its main world, rendering among them.
    SubApps,
    /// The game is over.
    Finished,
}

/// The phase that follows. The state counts only at the end of [`RunnerPhase::PreSimulation`]: a
/// paused game starts over, even if it should exit.
pub open spec fn phase_after(phase: RunnerPhase, state: Option<RunnerState>) -> RunnerPhase {
    match phase {
        RunnerPhase::IntegrationStartup => RunnerPhase::PreSimulation,
        RunnerPhase::PreSimulation => match state {
            Some(state) => if state.paused {
                RunnerPhase::PreSimulation
            } else if state.exit {
                RunnerPhase::Finished
            } else {
                RunnerPhase::Simulation
            },
            None => RunnerPhase::Simulation,
        },
        RunnerPhase::Simulation => RunnerPhase::PostSimulation,
        RunnerPhase::PostSimulation => RunnerPhase::SubApps,
        RunnerPhase::SubApps => RunnerPhase::PreSimulation,
        RunnerPhase::Finished => RunnerPhase::Finished,
    }
}

/// The phase that the runner goes to next.
pub fn runner(phase: RunnerPhase, state: Option<RunnerState>) -> (next: RunnerPhase)
    ensures
        next == phase_after(phase, state),
{
    match phase {
        RunnerPhase::IntegrationStartup => RunnerPhase::PreSimulation,
        RunnerPhase::PreSimulation => {
            if let Some(state) = state {
                if state.paused {
                    return RunnerPhase::PreSimulation;
                }
                if state.exit {
                    return RunnerPhase::Finished;
                }
            }
            RunnerPhase::Simulation
        },
        RunnerPhase::Simulation => RunnerPhase::PostSimulation,
        RunnerPhase::PostSimulation => RunnerPhase::SubApps,
        RunnerPhase::SubApps => RunnerPhase::PreSimulation,
        RunnerPhase::Finished => RunnerPhase::Finished,
    }
}

/// The switches of the game's systems.
pub struct DisabledSystems {
    names: NameMap<usize>,
    flags: Vec<bool>,
}

/// The switches that names stand for, once the systems with these names were given the switches
/// that follow the first few. Of several systems with one name, the last one has it.
pub open spec fn bound_after(
    bound: Map<Seq<char>, usize>,
    first: nat,
    names: Seq<Seq<char>>,
) -> Map<Seq<char>, usize>
    decreases names.len(),
{
    if names.len() == 0 {
        bound
    } else {
        bound_after(bound, first, names.drop_last()).insert(
            names.last(),
            (first + names.len() - 1) as usize,
        )
    }
}

/// The switches after a system was switched by name. An unknown name switches nothing.
pub open spec fn flags_after(
    bound: Map<Seq<char>, usize>,
    flags: Seq<bool>,
    name: Seq<char>,
    state: bool,
) -> Seq<bool> {
    if bound.dom().contains(name) {
        flags.update(bound[name] as int, state)
    } else {
        flags
    }
}

impl DisabledSystems {
    /// The switch that each name stands for.
    pub closed spec fn bound(&self) -> Map<Seq<char>, usize> {
        self.names@
    }

    /// Whether each system may run, in the order in which the systems were found.
    pub closed spec fn flags(&self) -> Seq<bool> {
        self.flags@
    }

    /// Every name stands for a switch that exists, and no two names stand for the same one.
    pub closed spec fn wf(&self) -> bool {
        &&& self.names.wf()
        &&& self.names@.is_injective()
        &&& forall|name: Seq<char>| #[trigger]
            self.names@.dom().contains(name) ==> self.names@[name] < self.flags@.len()
    }

    /// No switches.
    pub fn new() -> (disabled: Self)
        ensures
            disabled.wf(),
            disabled.bound() == Map::<Seq<char>, usize>::empty(),
            disabled.flags().len() == 0,
    {
        DisabledSystems { names: NameMap::new(), flags: Vec::new() }
    }

    /// Makes a switch for a system, and switches it on.
    fn add_system(&mut self, name: String)
        requires
            old(self).wf(),
        ensures
            final(self).wf(),
            final(self).flags() == old(self).flags().push(true),
            final(self).bound() == old(self).bound().insert(
                name@,
                old(self).flags().len() as usize,
            ),
    {
        let slot: usize = self.flags.len();
        self.flags.push(true);
        self.names.insert(name, slot);
    }

    /// Switches a system by name.
    pub fn modify(&mut self, name: &String, state: bool)
        requires
            old(self).wf(),
        ensures
            final(self).wf(),
            final(self).bound() == old(self).bound(),
            final(self).flags() == flags_after(
                old(self).bound(),
                old(self).flags(),
                name@,
                state,
            ),
    {
        let slot: Option<usize> = match self.names.get(name) {
            Some(slot) => Some(*slot),
            None => None,
        };
        if let Some(slot) = slot {
            self.flags.set(slot, state);
        }
    }

    /// How many systems have a switch.
    pub fn len(&self) -> (count: usize)
        ensures
            count == self.flags().len(),
    {
        self.flags.len()
    }

    /// Whether a system may run.
    pub fn should_run(&self, system: usize) -> (on: bool)
        requires
            system < self.flags().len(),
        ensures
            on == self.flags()[system as int],
    {
        self.flags[system]
    }
}

/// Gives each system of the game a switch that is on, and tells the editor the names of all
/// systems.
///
/// The systems are given by name, in the order in which the schedules hold them.
pub fn extract_systems(
    systems: Vec<String>,
    editor: &mut EditorProcess,
    disabled: &mut DisabledSystems,
)
    requires
        old(disabled).wf(),
    ensures
        final(disabled).wf(),
        final(disabled).flags() == old(disabled).flags() + Seq::new(
            systems@.len(),
            |i: int| true,
        ),
        final(disabled).bound() == bound_after(
            old(disabled).bound(),
            old(disabled).flags().len(),
            views(systems@),
        ),
        final(editor).msg_queue == old(editor).msg_queue,
        final(editor).to_editor@.len() == old(editor).to_editor@.len() + 1,
        final(editor).to_editor@.drop_last() == old(editor).to_editor@,
        announces(final(editor).to_editor@.last(), final(disabled).bound().dom()),
{
    let ghost all = systems@;
    let ghost mut done: int = 0;
    assert(views(all.take(0)) =~= Seq::<Seq<char>>::empty());
    for name in it: systems
        invariant
            it.seq() == all,
            done == it.index(),
            0 <= done,
            disabled.wf(),
            disabled.flags() == old(disabled).flags() + Seq::new(done as nat, |i: int| true),
            disabled.bound() == bound_after(
                old(disabled).bound(),
                old(disabled).flags().len(),
                views(all.take(done)),
            ),
    {
        proof {
            let names = views(all.take(done + 1));
            assert(names.drop_last() =~= views(all.take(done)));
            assert(names.last() == name@);
        }
        disabled.add_system(name);
        proof {
            done = done + 1;
            assert(disabled.flags() =~= old(disabled).flags() + Seq::new(
                done as nat,
                |i: int| true,
            ));
        }
    }
    assert(all.take(done) =~= all);
    editor.send(GameMsg::WorldInfo { systems: disabled.names.names() });
    assert(editor.to_editor@.drop_last() =~= old(editor).to_editor@);
}

/// The message tells exactly these names, each of them once.
pub open spec fn announces(msg: GameMsg, names: Set<Seq<char>>) -> bool {
    match msg {
        GameMsg::WorldInfo { systems } => {
            &&& views(systems@).no_duplicates()
            &&& views(systems@).to_set() == names
        },
        _ => false,
    }
}

/// Something for the game's world to do.
pub enum GameAction {
    /// A window event is to be written.
    WriteEvent { write: EventWrite },
    /// There is no such window: to be reported.
    NoSuchWindow { window: u64 },
    /// An event is to be triggered.
    Trigger { event: ReflectedEvent },
}

/// What of the game the editor can change, and what the game has to do.
#[verifier::ext_equal]
pub struct Reaction {
    pub windows: Map<u64, Window>,
    pub runner: RunnerState,
    pub flags: Seq<bool>,
    pub actions: Seq<GameAction>,
}

/// What a message brings about.
pub open spec fn reaction_to(
    bound: Map<Seq<char>, usize>,
    before: Reaction,
    msg: EditorMsg,
) -> Reaction {
    match msg {
        EditorMsg::NextFrame => before,
        EditorMsg::WindowEvent(event) => if !changes_window(event) {
            Reaction {
                actions: before.actions.push(
                    GameAction::WriteEvent { write: EventWrite { own_kind: true, event } },
                ),
                ..before
            }
        } else if before.windows.dom().contains(window_of(event)->0) {
            Reaction {
                windows: before.windows.insert(
                    window_of(event)->0,
                    window_after(before.windows[window_of(event)->0], event),
                ),
                actions: before.actions.push(
                    GameAction::WriteEvent { write: EventWrite { own_kind: true, event } },
                ),
                ..before
            }
        } else {
            Reaction {
                actions: before.actions.push(
                    GameAction::NoSuchWindow { window: window_of(event)->0 },
                ),
                ..before
            }
        },
        EditorMsg::Pause => Reaction {
            runner: RunnerState { paused: true, ..before.runner },
            ..before
        },
        EditorMsg::Continue => Reaction {
            runner: RunnerState { paused: false, ..before.runner },
            ..before
        },
        EditorMsg::Exit => Reaction { runner: RunnerState { exit: true, ..before.runner }, ..before },
        EditorMsg::ReflectedEvent(event) => Reaction {
            actions: before.actions.push(GameAction::Trigger { event }),
            ..before
        },
        EditorMsg::ModifySystem { name, state } => Reaction {
            flags: flags_after(bound, before.flags, name@, state),
            ..before
        },
    }
}

/// What a series of messages brings about, one after the other.
pub open spec fn reaction(
    bound: Map<Seq<char>, usize>,
    before: Reaction,
    msgs: Seq<EditorMsg>,
) -> Reaction
    decreases msgs.len(),
{
    if msgs.len() == 0 {
        before
    } else {
        reaction_to(bound, reaction(bound, before, msgs.drop_last()), msgs.last())
    }
}

/// Works off the messages of the editor.
pub fn react_to_editor_messages(
    editor: &mut EditorProcess,
    windows: &mut EntityMap<Window>,
    runner_state: &mut RunnerState,
    disabled_systems: &mut DisabledSystems,
    msgs_queue: &mut Vec<EditorMsg>,
) -> (actions: Vec<GameAction>)
    requires
        old(windows).wf(),
        old(disabled_systems).wf(),
    ensures
        final(windows).wf(),
        final(disabled_systems).wf(),
        final(disabled_systems).bound() == old(disabled_systems).bound(),
        (Reaction {
            windows: final(windows)@,
            runner: *final(runner_state),
            flags: final(disabled_systems).flags(),
            actions: actions@,
        }) == reaction(
            old(disabled_systems).bound(),
            (Reaction {
                windows: old(windows)@,
                runner: *old(runner_state),
                flags: old(disabled_systems).flags(),
                actions: Seq::empty(),
            }),
            old(editor).msg_queue@,
        ),
        final(editor).msg_queue@.len() == 0,
        final(editor).to_editor == old(editor).to_editor,
        final(msgs_queue)@.len() == 0,
{
    editor.get_messages(msgs_queue);
    let mut batch: Vec<EditorMsg> = Vec::new();
    core::mem::swap(&mut batch, msgs_queue);
    let mut actions: Vec<GameAction> = Vec::new();
    let ghost all = batch@;
    let ghost bound = disabled_systems.bound();
    let ghost before = Reaction {
        windows: windows@,
        runner: *runner_state,
        flags: disabled_systems.flags(),
        actions: Seq::empty(),
    };
    let ghost mut done: int = 0;
    assert(actions@ =~= Seq::<GameAction>::empty());
    for msg in it: batch
        invariant
            it.seq() == all,
            done == it.index(),
            0 <= done,
            windows.wf(),
            disabled_systems.wf(),
            disabled_systems.bound() == bound,
            windows@ == reaction(bound, before, all.take(done)).windows,
            *runner_state == reaction(bound, before, all.take(done)).runner,
            disabled_systems.flags() == reaction(bound, before, all.take(done)).flags,
            actions@ == reaction(bound, before, all.take(done)).actions,
    {
        proof {
            assert(all.take(done + 1).drop_last() =~= all.take(done));
            assert(all.take(done + 1).last() == msg);
            done = done + 1;
        }
        match msg {
            EditorMsg::NextFrame => {},
            EditorMsg::WindowEvent(event) => {
                match write_window_event(event, windows) {
                    Ok(write) => {
                        actions.push(GameAction::WriteEvent { write });
                    },
                    Err(missing) => {
                        actions.push(GameAction::NoSuchWindow { window: missing.0 });
                    },
                }
            },
            EditorMsg::Pause => {
                runner_state.paused = true;
            },
            EditorMsg::Continue => {
                runner_state.paused = false;
            },
            EditorMsg::Exit => {
                runner_state.exit = true;
            },
            EditorMsg::ReflectedEvent(event) => {
                actions.push(GameAction::Trigger { event });
            },
            EditorMsg::ModifySystem { name, state } => {
                disabled_systems.modify(&name, state);
            },
        }
    }
    assert(all.take(done) =~= all);
    actions
}

/// Switching a system by name sets its switch and leaves every other switch as it was, so that no
/// system of another name is switched. A name that no system has changes nothing.
pub proof fn law_switching_changes_one_system(
    disabled: DisabledSystems,
    name: Seq<char>,
    state: bool,
)
    requires
        disabled.wf(),
    ensures
        ({
            let after = flags_after(disabled.bound(), disabled.flags(), name, state);
            &&& after.len() == disabled.flags().len()
            &&& disabled.bound().dom().contains(name) ==> {
                &&& disabled.bound()[name] < after.len()
                &&& after[disabled.bound()[name] as int] == state
                &&& forall|i: int|
                    0 <= i < after.len() && i != disabled.bound()[name] ==> after[i]
                        == disabled.flags()[i]
            }
            &&& forall|other: Seq<char>| #[trigger]
                disabled.bound().dom().contains(other) && other != name
                    ==> after[disabled.bound()[other] as int]
                    == disabled.flags()[disabled.bound()[other] as int]
            &&& !disabled.bound().dom().contains(name) ==> after == disabled.flags()
        }),
{
}

/// Every name stands for a switch that exists, and no two names stand for the same one.
pub proof fn law_names_have_switches_of_their_own(disabled: DisabledSystems)
    requires
        disabled.wf(),
    ensures
        disabled.bound().is_injective(),
        forall|name: Seq<char>| #[trigger]
            disabled.bound().dom().contains(name) ==> disabled.bound()[name]
                < disabled.flags().len(),
{
}

/// The message switches the system with this name.
pub open spec fn switches(msg: EditorMsg, name: Seq<char>) -> bool {
    match msg {
        EditorMsg::ModifySystem { name: switched, .. } => switched@ == name,
        _ => false,
    }
}

/// The switch of a system stays as it is for as long as the editor does not switch that system,
/// whatever else the editor says.
pub proof fn law_switch_stands(
    disabled: DisabledSystems,
    before: Reaction,
    msgs: Seq<EditorMsg>,
    name: Seq<char>,
)
    requires
        disabled.wf(),
        disabled.bound().dom().contains(name),
        before.flags.len() == disabled.flags().len(),
        forall|i: int| 0 <= i < msgs.len() ==> !switches(#[trigger] msgs[i], name),
    ensures
        reaction(disabled.bound(), before, msgs).flags.len() == before.flags.len(),
        reaction(disabled.bound(), before, msgs).flags[disabled.bound()[name] as int]
            == before.flags[disabled.bound()[name] as int],
    decreases msgs.len(),
{
    if msgs.len() > 0 {
        law_switch_stands(disabled, before, msgs.drop_last(), name);
        assert(!switches(msgs[msgs.len() - 1], name));
    }
}

/// However often the editor switches systems, there are as many switches as before.
proof fn lemma_switches_are_kept(
    disabled: DisabledSystems,
    before: Reaction,
    msgs: Seq<EditorMsg>,
)
    requires
        disabled.wf(),
        before.flags.len() == disabled.flags().len(),
    ensures
        reaction(disabled.bound(), before, msgs).flags.len() == before.flags.len(),
    decreases msgs.len(),
{
    if msgs.len() > 0 {
        lemma_switches_are_kept(disabled, before, msgs.drop_last());
    }
}

/// A system is switched as the editor last said of it, whatever the editor said before, and
/// whatever it said of other systems since.
pub proof fn law_last_switching_of_a_system_decides(
    disabled: DisabledSystems,
    before: Reaction,
    earlier: Seq<EditorMsg>,
    name: String,
    state: bool,
    later: Seq<EditorMsg>,
)
    requires
        disabled.wf(),
        disabled.bound().dom().contains(name@),
        before.flags.len() == disabled.flags().len(),
        forall|i: int| 0 <= i < later.len() ==> !switches(#[trigger] later[i], name@),
    ensures
        ({
            let order = EditorMsg::ModifySystem { name, state };
            let after = reaction(disabled.bound(), before, earlier.push(order) + later);
            after.flags[disabled.bound()[name@] as int] == state
        }),
{
    let order = EditorMsg::ModifySystem { name, state };
    let told = earlier.push(order);
    assert(told.drop_last() =~= earlier);
    lemma_switches_are_kept(disabled, before, earlier);
    lemma_switches_are_kept(disabled, before, told);
    law_batches_of_the_editor_make_no_difference(disabled.bound(), before, told, later);
    law_switch_stands(disabled, reaction(disabled.bound(), before, told), later, name@);
}

/// The systems of a game can all be named, and a name stands for the last system that has it.
pub proof fn law_name_stands_for_its_last_system(
    bound: Map<Seq<char>, usize>,
    first: nat,
    names: Seq<Seq<char>>,
)
    requires
        first + names.len() <= usize::MAX,
    ensures
        bound_after(bound, first, names).dom() == bound.dom().union(names.to_set()),
        forall|i: int|
            #![trigger names[i]]
            0 <= i < names.len() ==> {
                let switch = bound_after(bound, first, names)[names[i]];
                &&& first + i <= switch < first + names.len()
                &&& names[switch - first] == names[i]
            },
        forall|name: Seq<char>|
            bound.dom().contains(name) && !names.contains(name) ==> #[trigger] bound_after(
                bound,
                first,
                names,
            )[name] == bound[name],
    decreases names.len(),
{
    let after = bound_after(bound, first, names);
    if names.len() > 0 {
        let rest = names.drop_last();
        law_name_stands_for_its_last_system(bound, first, rest);
        assert forall|name: Seq<char>| after.dom().contains(name) <==> bound.dom().union(
            names.to_set(),
        ).contains(name) by {
            if rest.contains(name) {
                let i = choose|i: int| 0 <= i < rest.len() && rest[i] == name;
                assert(names[i] == name);
            }
            if names.contains(name) && name != names.last() {
                let i = choose|i: int| 0 <= i < names.len() && names[i] == name;
                assert(rest[i] == name);
            }
            assert(names[names.len() - 1] == names.last());
        }
        assert forall|i: int| #![trigger names[i]] 0 <= i < names.len() implies {
            let switch = after[names[i]];
            &&& first + i <= switch < first + names.len()
            &&& names[switch - first] == names[i]
        } by {
            if names[i] != names.last() {
                assert(rest[i] == names[i]);
                assert(rest[after[names[i]] - first] == rest[i]);
            }
        }
        assert forall|name: Seq<char>|
            bound.dom().contains(name) && !names.contains(name) implies #[trigger] after[name]
            == bound[name] by {
            assert(names[names.len() - 1] == names.last());
            assert forall|i: int| 0 <= i < rest.len() implies rest[i] != name by {
                assert(names[i] == rest[i]);
            }
        }
    }
    assert(after.dom() =~= bound.dom().union(names.to_set()));
}

/// The editor knows exactly the systems that the game announced.
pub proof fn law_editor_knows_the_announced_systems(
    known: Map<Seq<char>, RemoteSystem>,
    msg: GameMsg,
    names: Set<Seq<char>>,
)
    requires
        announces(msg, names),
    ensures
        systems_after(known, seq![msg]).dom() == names,
{
    match msg {
        GameMsg::WorldInfo { systems } => {
            assert(seq![msg].last() == msg);
            assert forall|name: Seq<char>| announced(views(systems@)).dom().contains(name)
                <==> names.contains(name) by {
                assert(views(systems@).to_set().contains(name) <==> views(systems@).contains(name));
            }
            assert(announced(views(systems@)).dom() =~= names);
        },
        _ => {},
    }
}

/// The messages that a series of listening gives, after those that were there before.
pub open spec fn queue_after(
    queue: Seq<EditorMsg>,
    received: Seq<Result<EditorMsg, ()>>,
) -> Seq<EditorMsg>
    decreases received.len(),
{
    if received.len() == 0 {
        queue
    } else {
        queue_after(queue, received.drop_last()).push(heard(received.last()))
    }
}

/// The game hears what the editor sent, all of it and in order. When the connection is lost after
/// that, it hears one thing more: that it is to exit.
pub proof fn law_game_hears_what_the_editor_sent(queue: Seq<EditorMsg>, sent: Seq<EditorMsg>)
    ensures
        ({
            let received = sent.map_values(|msg: EditorMsg| Ok::<EditorMsg, ()>(msg));
            &&& queue_after(queue, received) == queue + sent
            &&& queue_after(queue, received.push(Err(()))) == (queue + sent).push(EditorMsg::Exit)
        }),
    decreases sent.len(),
{
    let received = sent.map_values(|msg: EditorMsg| Ok::<EditorMsg, ()>(msg));
    if sent.len() > 0 {
        let rest = sent.drop_last();
        law_game_hears_what_the_editor_sent(queue, rest);
        assert(received.drop_last() =~= rest.map_values(|msg: EditorMsg| Ok::<EditorMsg, ()>(msg)));
        assert(received.last() == Ok::<EditorMsg, ()>(sent.last()));
        assert(queue_after(queue, received) =~= queue + sent);
    } else {
        assert(queue_after(queue, received) =~= queue + sent);
    }
    assert(received.push(Err(())).drop_last() =~= received);
}

/// Where the messages of the editor are cut into batches makes no difference.
pub proof fn law_batches_of_the_editor_make_no_difference(
    bound: Map<Seq<char>, usize>,
    before: Reaction,
    first: Seq<EditorMsg>,
    second: Seq<EditorMsg>,
)
    ensures
        reaction(bound, before, first + second) == reaction(
            bound,
            reaction(bound, before, first),
            second,
        ),
    decreases second.len(),
{
    if second.len() == 0 {
        assert(first + second =~= first);
    } else {
        assert((first + second).drop_last() =~= first + second.drop_last());
        assert((first + second).last() == second.last());
        law_batches_of_the_editor_make_no_difference(bound, before, first, second.drop_last());
    }
}

/// The wish to exit is never taken back.
pub proof fn law_exit_stands(bound: Map<Seq<char>, usize>, before: Reaction, msgs: Seq<EditorMsg>)
    requires
        before.runner.exit || msgs.contains(EditorMsg::Exit),
    ensures
        reaction(bound, before, msgs).runner.exit,
    decreases msgs.len(),
{
    if msgs.len() > 0 {
        let rest = msgs.drop_last();
        if !before.runner.exit && msgs.last() != EditorMsg::Exit {
            let i = choose|i: int| 0 <= i < msgs.len() && msgs[i] == EditorMsg::Exit;
            assert(rest[i] == EditorMsg::Exit);
        }
        if msgs.last() != EditorMsg::Exit || before.runner.exit {
            law_exit_stands(bound, before, rest);
        }
    }
}

/// A game that lost its editor ends at the end of its round, whatever was heard before, unless it
/// is paused at that point.
pub proof fn law_lost_editor_ends_the_game(
    bound: Map<Seq<char>, usize>,
    before: Reaction,
    msgs: Seq<EditorMsg>,
)
    ensures
        ({
            let after = reaction(bound, before, msgs.push(heard(Err(()))));
            &&& after.runner.exit
            &&& after.runner.paused == reaction(bound, before, msgs).runner.paused
            &&& !after.runner.paused ==> phase_after(
                RunnerPhase::PreSimulation,
                Some(after.runner),
            ) == RunnerPhase::Finished
        }),
{
    assert(msgs.push(heard(Err(()))).drop_last() =~= msgs);
}

/// A game is paused from the last time it was told so, until it is told to go on.
pub proof fn law_last_of_pause_and_continue_decides(
    bound: Map<Seq<char>, usize>,
    before: Reaction,
    earlier: Seq<EditorMsg>,
    paused: bool,
    later: Seq<EditorMsg>,
)
    requires
        forall|i: int|
            0 <= i < later.len() ==> #[trigger] later[i] != EditorMsg::Pause && later[i]
                != EditorMsg::Continue,
    ensures
        ({
            let order = if paused {
                EditorMsg::Pause
            } else {
                EditorMsg::Continue
            };
            reaction(bound, before, earlier.push(order) + later).runner.paused == paused
        }),
    decreases later.len(),
{
    let order = if paused {
        EditorMsg::Pause
    } else {
        EditorMsg::Continue
    };
    let told = earlier.push(order);
    if later.len() == 0 {
        assert(told + later =~= told);
        assert(told.drop_last() =~= earlier);
    } else {
        assert((told + later).drop_last() =~= told + later.drop_last());
        assert((told + later).last() == later[later.len() - 1]);
        law_last_of_pause_and_continue_decides(bound, before, earlier, paused, later.drop_last());
    }
}

/// A game that is neither paused nor to exit runs once in a round, and then comes back to where the
/// editor is heard.
pub proof fn law_running_game_goes_round(
    state: RunnerState,
    later: Option<RunnerState>,
)
    requires
        !state.paused,
        !state.exit,
    ensures
        ({
            let simulating = phase_after(RunnerPhase::PreSimulation, Some(state));
            let after = phase_after(simulating, later);
            let beside = phase_after(after, later);
            &&& simulating == RunnerPhase::Simulation
            &&& after == RunnerPhase::PostSimulation
            &&& beside == RunnerPhase::SubApps
            &&& phase_after(beside, later) == RunnerPhase::PreSimulation
        }),
{
}

/// A paused game neither runs nor ends, even if it should exit.
pub proof fn law_paused_game_waits(state: RunnerState)
    requires
        state.paused,
    ensures
        phase_after(RunnerPhase::PreSimulation, Some(state)) == RunnerPhase::PreSimulation,
{
}

/// The message is one that gives the game's world something to do.
pub open spec fn gives_work(msg: EditorMsg) -> bool {
    msg is WindowEvent || msg is ReflectedEvent
}

/// How many of the messages give the game's world something to do.
pub open spec fn work_in(msgs: Seq<EditorMsg>) -> nat
    decreases msgs.len(),
{
    if msgs.len() == 0 {
        0
    } else if gives_work(msgs.last()) {
        work_in(msgs.drop_last()) + 1
    } else {
        work_in(msgs.drop_last())
    }
}

/// The action does what the message asks for: an event of the editor is triggered, and a window
/// event is written as it came. Only where the event moves the cursor in a window, or resizes one,
/// that is not there, is that reported instead.
pub open spec fn does_what_is_asked(
    action: GameAction,
    msg: EditorMsg,
    windows: Set<u64>,
) -> bool {
    &&& msg is ReflectedEvent ==> action == GameAction::Trigger { event: msg->ReflectedEvent_0 }
    &&& msg is WindowEvent ==> {
        let event = msg->WindowEvent_0;
        let lost = {
            ||| event is CursorMoved && !windows.contains(event->CursorMoved_window)
            ||| event is WindowResized && !windows.contains(event->WindowResized_window)
        };
        &&& lost && event is CursorMoved ==> action == GameAction::NoSuchWindow {
            window: event->CursorMoved_window,
        }
        &&& lost && event is WindowResized ==> action == GameAction::NoSuchWindow {
            window: event->WindowResized_window,
        }
        &&& !lost ==> action == GameAction::WriteEvent {
            write: EventWrite { own_kind: true, event },
        }
    }
}

/// The messages are worked off one for one and in order: each window event and each triggered event
/// adds one action, which does what the message asks for, and no other message adds any. No window
/// comes or goes.
pub proof fn law_each_message_is_acted_on(
    bound: Map<Seq<char>, usize>,
    before: Reaction,
    msgs: Seq<EditorMsg>,
)
    ensures
        ({
            let after = reaction(bound, before, msgs);
            &&& after.windows.dom() == before.windows.dom()
            &&& after.actions.len() == before.actions.len() + work_in(msgs)
            &&& after.actions.take(before.actions.len() as int) == before.actions
            &&& forall|i: int|
                #![trigger msgs[i]]
                0 <= i < msgs.len() && gives_work(msgs[i]) ==> {
                    &&& work_in(msgs.take(i)) < work_in(msgs)
                    &&& does_what_is_asked(
                        after.actions[(before.actions.len() + work_in(msgs.take(i))) as int],
                        msgs[i],
                        before.windows.dom(),
                    )
                }
        }),
    decreases msgs.len(),
{
    let after = reaction(bound, before, msgs);
    if msgs.len() == 0 {
        assert(after.actions.take(before.actions.len() as int) =~= before.actions);
    } else {
        let rest = msgs.drop_last();
        let then = reaction(bound, before, rest);
        law_each_message_is_acted_on(bound, before, rest);
        assert(after.windows.dom() =~= then.windows.dom());
        assert(after.actions.take(then.actions.len() as int) =~= then.actions);
        assert(after.actions.take(before.actions.len() as int) =~= then.actions.take(
            before.actions.len() as int,
        ));
        assert forall|i: int| #![trigger msgs[i]] 0 <= i < msgs.len() && gives_work(msgs[i]) implies {
            &&& work_in(msgs.take(i)) < work_in(msgs)
            &&& does_what_is_asked(
                after.actions[(before.actions.len() + work_in(msgs.take(i))) as int],
                msgs[i],
                before.windows.dom(),
            )
        } by {
            if i < rest.len() {
                assert(rest[i] == msgs[i]);
                assert(rest.take(i) =~= msgs.take(i));
                let place = before.actions.len() + work_in(msgs.take(i));
                assert(after.actions.take(then.actions.len() as int)[place as int]
                    == after.actions[place as int]);
            } else {
                assert(msgs.take(i) =~= rest);
            }
        }
    }
}

/// What [`react_to_editor_messages`] returns: one action for each window event and each triggered
/// event that was queued, in their order, and no others.
pub proof fn law_queued_messages_are_acted_on(
    editor: &mut EditorProcess,
    windows: &mut EntityMap<Window>,
    runner_state: &mut RunnerState,
    disabled_systems: &mut DisabledSystems,
    msgs_queue: &mut Vec<EditorMsg>,
    actions: Vec<GameAction>,
)
    requires
        call_ensures(
            react_to_editor_messages,
            (editor, windows, runner_state, disabled_systems, msgs_queue),
            actions,
        ),
    ensures
        final(editor).msg_queue@.len() == 0,
        final(editor).to_editor == old(editor).to_editor,
        final(windows)@.dom() == old(windows)@.dom(),
        actions@.len() == work_in(old(editor).msg_queue@),
        forall|i: int|
            #![trigger old(editor).msg_queue@[i]]
            0 <= i < old(editor).msg_queue@.len() && gives_work(old(editor).msg_queue@[i]) ==> {
                let place = work_in(old(editor).msg_queue@.take(i));
                &&& place < actions@.len()
                &&& does_what_is_asked(
                    actions@[place as int],
                    old(editor).msg_queue@[i],
                    old(windows)@.dom(),
                )
            },
        final(runner_state).exit <==> old(runner_state).exit || old(editor).msg_queue@.contains(
            EditorMsg::Exit,
        ),
{
    let before = Reaction {
        windows: old(windows)@,
        runner: *old(runner_state),
        flags: old(disabled_systems).flags(),
        actions: Seq::empty(),
    };
    law_each_message_is_acted_on(
        old(disabled_systems).bound(),
        before,
        old(editor).msg_queue@,
    );
    law_exit_only_when_told(old(disabled_systems).bound(), before, old(editor).msg_queue@);
    let after = reaction(old(disabled_systems).bound(), before, old(editor).msg_queue@);
    assert(after.actions == actions@);
    assert(after.windows == final(windows)@);
    assert(after.runner == *final(runner_state));
}

/// The message moves the cursor in the window.
pub open spec fn moves_cursor(msg: EditorMsg, window: u64) -> bool {
    &&& msg is WindowEvent
    &&& msg->WindowEvent_0 is CursorMoved
    &&& msg->WindowEvent_0->CursorMoved_window == window
}

/// The message resizes the window.
pub open spec fn resizes(msg: EditorMsg, window: u64) -> bool {
    &&& msg is WindowEvent
    &&& msg->WindowEvent_0 is WindowResized
    &&& msg->WindowEvent_0->WindowResized_window == window
}

/// The cursor of a window stays where it is until a message moves it in that window, and the window
/// keeps its size until a message resizes it, whatever else the editor says.
pub proof fn law_window_stands(
    bound: Map<Seq<char>, usize>,
    before: Reaction,
    msgs: Seq<EditorMsg>,
    window: u64,
)
    requires
        before.windows.dom().contains(window),
    ensures
        ({
            let after = reaction(bound, before, msgs).windows[window];
            &&& (forall|i: int| 0 <= i < msgs.len() ==> !moves_cursor(#[trigger] msgs[i], window))
                ==> after.physical_cursor == before.windows[window].physical_cursor
            &&& (forall|i: int| 0 <= i < msgs.len() ==> !resizes(#[trigger] msgs[i], window)) ==> {
                &&& after.physical_width == before.windows[window].physical_width
                &&& after.physical_height == before.windows[window].physical_height
            }
        }),
    decreases msgs.len(),
{
    if msgs.len() > 0 {
        let rest = msgs.drop_last();
        law_window_stands(bound, before, rest, window);
        law_each_message_is_acted_on(bound, before, rest);
        assert(forall|i: int| 0 <= i < rest.len() ==> #[trigger] rest[i] == msgs[i]);
        assert(msgs[msgs.len() - 1] == msgs.last());
    }
}

/// The cursor of a window is where the editor last said that it moved.
pub proof fn law_cursor_is_where_it_moved_last(
    bound: Map<Seq<char>, usize>,
    before: Reaction,
    earlier: Seq<EditorMsg>,
    window: u64,
    position: Position,
    delta: Option<Position>,
    later: Seq<EditorMsg>,
)
    requires
        before.windows.dom().contains(window),
        forall|i: int| 0 <= i < later.len() ==> !moves_cursor(#[trigger] later[i], window),
    ensures
        ({
            let moved = EditorMsg::WindowEvent(
                WindowEvent::CursorMoved { window, position, delta },
            );
            reaction(bound, before, earlier.push(moved) + later).windows[window].physical_cursor
                == Some(position)
        }),
{
    let moved = EditorMsg::WindowEvent(WindowEvent::CursorMoved { window, position, delta });
    let told = earlier.push(moved);
    assert(told.drop_last() =~= earlier);
    law_each_message_is_acted_on(bound, before, earlier);
    law_each_message_is_acted_on(bound, before, told);
    law_batches_of_the_editor_make_no_difference(bound, before, told, later);
    law_window_stands(bound, reaction(bound, before, told), later, window);
}

/// A window has the size, in whole pixels, that the editor last gave it.
pub proof fn law_window_has_the_size_that_it_was_given_last(
    bound: Map<Seq<char>, usize>,
    before: Reaction,
    earlier: Seq<EditorMsg>,
    window: u64,
    width: u32,
    height: u32,
    later: Seq<EditorMsg>,
)
    requires
        before.windows.dom().contains(window),
        forall|i: int| 0 <= i < later.len() ==> !resizes(#[trigger] later[i], window),
    ensures
        ({
            let resized = EditorMsg::WindowEvent(
                WindowEvent::WindowResized { window, width, height },
            );
            let after = reaction(bound, before, earlier.push(resized) + later).windows[window];
            after.physical_width == whole_part(width) && after.physical_height == whole_part(height)
        }),
{
    let resized = EditorMsg::WindowEvent(WindowEvent::WindowResized { window, width, height });
    let told = earlier.push(resized);
    assert(told.drop_last() =~= earlier);
    law_each_message_is_acted_on(bound, before, earlier);
    law_each_message_is_acted_on(bound, before, told);
    law_batches_of_the_editor_make_no_difference(bound, before, told, later);
    law_window_stands(bound, reaction(bound, before, told), later, window);
}

/// The game is to exit only if the editor said so, now or earlier.
pub proof fn law_exit_only_when_told(
    bound: Map<Seq<char>, usize>,
    before: Reaction,
    msgs: Seq<EditorMsg>,
)
    ensures
        reaction(bound, before, msgs).runner.exit <==> before.runner.exit || msgs.contains(
            EditorMsg::Exit,
        ),
    decreases msgs.len(),
{
    if before.runner.exit || msgs.contains(EditorMsg::Exit) {
        law_exit_stands(bound, before, msgs);
    } else if msgs.len() > 0 {
        let rest = msgs.drop_last();
        assert(msgs[msgs.len() - 1] != EditorMsg::Exit);
        assert(!rest.contains(EditorMsg::Exit)) by {
            if rest.contains(EditorMsg::Exit) {
                let i = choose|i: int| 0 <= i < rest.len() && rest[i] == EditorMsg::Exit;
                assert(msgs[i] == EditorMsg::Exit);
            }
        }
        law_exit_only_when_told(bound, before, rest);
    }
}

/// A game goes on being paused, or running, for as long as the editor says neither to pause nor to
/// continue.
pub proof fn law_pause_stands(bound: Map<Seq<char>, usize>, before: Reaction, msgs: Seq<EditorMsg>)
    requires
        forall|i: int|
            0 <= i < msgs.len() ==> #[trigger] msgs[i] != EditorMsg::Pause && msgs[i]
                != EditorMsg::Continue,
    ensures
        reaction(bound, before, msgs).runner.paused == before.runner.paused,
    decreases msgs.len(),
{
    if msgs.len() > 0 {
        assert(msgs[msgs.len() - 1] == msgs.last());
        law_pause_stands(bound, before, msgs.drop_last());
    }
}

/// A system that no name stands for is never switched.
pub proof fn law_unnamed_systems_are_not_switched(
    disabled: DisabledSystems,
    before: Reaction,
    msgs: Seq<EditorMsg>,
    system: int,
)
    requires
        disabled.wf(),
        before.flags.len() == disabled.flags().len(),
        0 <= system < before.flags.len(),
        forall|name: Seq<char>| #[trigger]
            disabled.bound().dom().contains(name) ==> disabled.bound()[name] != system,
    ensures
        reaction(disabled.bound(), before, msgs).flags[system] == before.flags[system],
    decreases msgs.len(),
{
    if msgs.len() > 0 {
        let rest = msgs.drop_last();
        lemma_switches_are_kept(disabled, before, rest);
        law_unnamed_systems_are_not_switched(disabled, before, rest, system);
    }
}

/// A game is over from the end of the round in which it was to exit without being paused, and never
/// before. Its startup is over after the first phase.
pub proof fn law_game_is_over_only_when_told(phase: RunnerPhase, state: Option<RunnerState>)
    ensures
        phase_after(phase, state) == RunnerPhase::Finished <==> {
            ||| phase == RunnerPhase::Finished
            ||| phase == RunnerPhase::PreSimulation && state is Some && state->0.exit
                && !state->0.paused
        },
        phase_after(phase, state) != RunnerPhase::IntegrationStartup,
        phase == RunnerPhase::IntegrationStartup ==> phase_after(phase, state)
            == RunnerPhase::PreSimulation,
        phase_after(phase, state) == RunnerPhase::Simulation <==> phase
            == RunnerPhase::PreSimulation && (state is Some ==> !state->0.paused
            && !state->0.exit),
{
}

/// The phase that [`runner`] goes to is one of a round: what comes after the systems before the game
/// rests with the editor, and every other phase has one that follows it.
pub proof fn law_runner_follows_the_round(
    phase: RunnerPhase,
    state: Option<RunnerState>,
    next: RunnerPhase,
)
    requires
        call_ensures(runner, (phase, state), next),
    ensures
        phase is PreSimulation && state is Some && state->0.paused ==> next is PreSimulation,
        phase is PreSimulation && state is Some && !state->0.paused && state->0.exit
            ==> next is Finished,
        phase is PreSimulation && (state is None || (!state->0.paused && !state->0.exit))
            ==> next is Simulation,
        phase is IntegrationStartup ==> next is PreSimulation,
        phase is Simulation ==> next is PostSimulation,
        phase is PostSimulation ==> next is SubApps,
        phase is SubApps ==> next is PreSimulation,
        phase is Finished ==> next is Finished,
{
}

/// The systems that were found are all switched on, and what was switched before stays as it was.
/// The editor is told the names of all systems, the new ones and those from before, once each.
pub proof fn law_found_systems_are_on_and_announced(
    systems: Vec<String>,
    editor: &mut EditorProcess,
    disabled: &mut DisabledSystems,
)
    requires
        call_ensures(extract_systems, (systems, editor, disabled), ()),
        old(disabled).flags().len() + systems@.len() <= usize::MAX,
    ensures
        final(disabled).flags().len() == old(disabled).flags().len() + systems@.len(),
        forall|i: int|
            #![trigger final(disabled).flags()[i]]
            0 <= i < final(disabled).flags().len() ==> final(disabled).flags()[i] == (if i
                < old(disabled).flags().len() {
                old(disabled).flags()[i]
            } else {
                true
            }),
        final(editor).to_editor@.drop_last() == old(editor).to_editor@,
        final(editor).to_editor@.len() == old(editor).to_editor@.len() + 1,
        final(editor).to_editor@.last() is WorldInfo,
        views(final(editor).to_editor@.last()->WorldInfo_systems@).no_duplicates(),
        forall|name: Seq<char>| #[trigger]
            views(final(editor).to_editor@.last()->WorldInfo_systems@).contains(name)
                <==> old(disabled).bound().dom().contains(name) || views(systems@).contains(name),
{
    let told = views(final(editor).to_editor@.last()->WorldInfo_systems@);
    law_name_stands_for_its_last_system(
        old(disabled).bound(),
        old(disabled).flags().len(),
        views(systems@),
    );
    assert forall|name: Seq<char>| #[trigger] told.contains(name) <==> old(
        disabled,
    ).bound().dom().contains(name) || views(systems@).contains(name) by {
        assert(told.to_set().contains(name) <==> told.contains(name));
        assert(views(systems@).to_set().contains(name) <==> views(systems@).contains(name));
    }
}

/// What listening to the editor gives goes to the end of the queue, and a lost editor counts as the
/// wish to exit. Listening ends there.
pub proof fn law_game_queues_what_it_hears(
    editor: &mut EditorProcess,
    received: Result<EditorMsg, ()>,
    listen_on: bool,
)
    requires
        call_ensures(EditorProcess::receive, (editor, received), listen_on),
    ensures
        listen_on <==> received is Ok,
        final(editor).msg_queue@.drop_last() == old(editor).msg_queue@,
        final(editor).msg_queue@.len() == old(editor).msg_queue@.len() + 1,
        received is Ok ==> final(editor).msg_queue@.last() == received->Ok_0,
        received is Err ==> final(editor).msg_queue@.last() == EditorMsg::Exit,
        final(editor).to_editor == old(editor).to_editor,
{
    assert(final(editor).msg_queue@.drop_last() =~= old(editor).msg_queue@);
}

/// Every message is handed out once: what is taken out of the queue is all that was in it, in order,
/// and a second look finds nothing.
pub proof fn law_messages_of_the_editor_are_handed_out_once(
    editor: &mut EditorProcess,
    first: &mut Vec<EditorMsg>,
)
    requires
        call_ensures(EditorProcess::get_messages, (editor, first), ()),
    ensures
        final(first)@ == old(editor).msg_queue@,
        final(editor).msg_queue@ == Seq::<EditorMsg>::empty(),
        final(editor).to_editor == old(editor).to_editor,
{
}

/// What the game sends to its editor comes after all that it sent before, and the first thing that
/// it says is how to reach it.
pub proof fn law_game_speaks_in_order(
    game_sender: u64,
    fresh: EditorProcess,
    editor: &mut EditorProcess,
    msg: GameMsg,
)
    requires
        call_ensures(EditorProcess::new, (game_sender,), fresh),
        call_ensures(EditorProcess::send, (editor, msg), ()),
    ensures
        fresh.to_editor@.len() == 1,
        fresh.to_editor@[0] == GameMsg::Sender(game_sender),
        fresh.msg_queue@.len() == 0,
        final(editor).to_editor@.len() == old(editor).to_editor@.len() + 1,
        final(editor).to_editor@.drop_last() == old(editor).to_editor@,
        final(editor).to_editor@.last() == msg,
        final(editor).msg_queue == old(editor).msg_queue,
{
    assert(final(editor).to_editor@.drop_last() =~= old(editor).to_editor@);
}

/// A system runs as it was last switched, and switching it by name leaves the systems of all other
/// names as they were.
pub proof fn law_switched_system_runs_accordingly(
    disabled: &mut DisabledSystems,
    name: &String,
    state: bool,
    other: Seq<char>,
    after: &DisabledSystems,
    runs: bool,
    other_runs: bool,
)
    requires
        old(disabled).wf(),
        call_ensures(DisabledSystems::modify, (disabled, name, state), ()),
        *after == *final(disabled),
        old(disabled).bound().dom().contains(name@),
        old(disabled).bound().dom().contains(other),
        other != name@,
        call_ensures(DisabledSystems::should_run, (after, old(disabled).bound()[name@]), runs),
        call_ensures(DisabledSystems::should_run, (after, old(disabled).bound()[other]), other_runs),
    ensures
        runs == state,
        other_runs == old(disabled).flags()[old(disabled).bound()[other] as int],
{
}

} // verus!
