//! The editor's end of the connection to a running game.

use crate::collections::{views, NameMap};
use crate::messages::{EditorMsg, GameMsg, ReflectedEvent, EDITOR_SERVER_NAME_VAR};
use crate::shared_texture::ExternalTextureInfo;
use vstd::prelude::*;

verus! {

/// A system of the game, as the editor knows it.
#[derive(Clone, Copy, PartialEq, Eq, Structural, Debug)]
pub struct RemoteSystem {
    pub is_running: bool,
}

/// The wish to start a game out of a workspace.
pub struct StartGameProcess {
    pub workspace_path: String,
}

/// The command that starts a game.
pub struct LaunchCommand {
    pub program: String,
    pub args: Vec<String>,
    pub current_dir: String,
    pub env_name: String,
    pub env_value: String,
}

/// A game that said something else first than how to reach it.
#[derive(Clone, Copy, PartialEq, Eq, Structural, Debug)]
pub struct NoSender;

/// Something for the editor's world to do.
pub enum EditorAction {
    /// The texture of a viewport changed.
    ViewportTextureUpdate { info: ExternalTextureInfo },
    /// The systems of the game became known.
    GotSystems,
    /// An event is to be triggered.
    Trigger { event: ReflectedEvent },
    /// The game has ended.
    RemoveGame,
}

/// A running game.
pub struct GameProcess {
    /// Messages that wait to be sent to the game, oldest first.
    pub to_game: Vec<EditorMsg>,
    /// Messages that came from the game, oldest first.
    pub msg_queue: Vec<GameMsg>,
    /// The systems of the game by name.
    pub systems: NameMap<RemoteSystem>,
}

/// The systems under the given names, none of them running.
pub open spec fn announced(names: Seq<Seq<char>>) -> Map<Seq<char>, RemoteSystem> {
    Map::new(|name: Seq<char>| names.contains(name), |name: Seq<char>| RemoteSystem {
        is_running: false,
    })
}

/// What the editor does about a message.
pub open spec fn action_for(msg: GameMsg) -> Option<EditorAction> {
    match msg {
        GameMsg::Sender(_) => None,
        GameMsg::Image(info) => Some(EditorAction::ViewportTextureUpdate { info }),
        GameMsg::WorldInfo { .. } => Some(EditorAction::GotSystems),
        GameMsg::ReflectedEvent(event) => Some(EditorAction::Trigger { event }),
    }
}

/// What the editor does about a series of messages, in their order.
pub open spec fn actions_for(msgs: Seq<GameMsg>) -> Seq<EditorAction>
    decreases msgs.len(),
{
    if msgs.len() == 0 {
        Seq::empty()
    } else {
        let before = actions_for(msgs.drop_last());
        match action_for(msgs.last()) {
            Some(action) => before.push(action),
            None => before,
        }
    }
}

/// The systems that are known after a series of messages: those that the last announcement named.
pub open spec fn systems_after(
    systems: Map<Seq<char>, RemoteSystem>,
    msgs: Seq<GameMsg>,
) -> Map<Seq<char>, RemoteSystem>
    decreases msgs.len(),
{
    if msgs.len() == 0 {
        systems
    } else {
        match msgs.last() {
            GameMsg::WorldInfo { systems: names } => announced(views(names@)),
            _ => systems_after(systems, msgs.drop_last()),
        }
    }
}

/// Builds the table of announced systems.
fn announce(names: Vec<String>) -> (table: NameMap<RemoteSystem>)
    ensures
        table.wf(),
        table@ == announced(views(names@)),
{
    let mut table: NameMap<RemoteSystem> = NameMap::new();
    let ghost all = names@;
    let ghost mut done: int = 0;
    assert(table@ =~= announced(views(all.take(0))));
    for name in it: names
        invariant
            it.seq() == all,
            done == it.index(),
            table.wf(),
            table@ == announced(views(all.take(done))),
    {
        let ghost before = views(all.take(done));
        let ghost key = name@;
        table.insert(name, RemoteSystem { is_running: false });
        proof {
            let after = views(all.take(done + 1));
            assert(after =~= before.push(key));
            assert forall|n: Seq<char>| after.contains(n) <==> before.contains(n) || n == key by {
                if before.contains(n) {
                    let i = choose|i: int| 0 <= i < before.len() && before[i] == n;
                    assert(after[i] == n);
                }
                assert(after[before.len() as int] == key);
            }
            assert(table@ =~= announced(after));
            done = done + 1;
        }
    }
    assert(all.take(done) =~= all);
    table
}

impl GameProcess {
    /// The table of systems is in order.
    pub open spec fn wf(&self) -> bool {
        self.systems.wf()
    }

    /// A game that has just been reached.
    pub fn new() -> (game: Self)
        ensures
            game.wf(),
            game.to_game@.len() == 0,
            game.msg_queue@.len() == 0,
            game.systems@ == Map::<Seq<char>, RemoteSystem>::empty(),
    {
        GameProcess { to_game: Vec::new(), msg_queue: Vec::new(), systems: NameMap::new() }
    }

    /// Sends a message to the game, after all that were sent before.
    pub fn send(&mut self, msg: EditorMsg)
        ensures
            final(self).to_game@ == old(self).to_game@.push(msg),
            final(self).msg_queue == old(self).msg_queue,
            final(self).systems == old(self).systems,
    {
        self.to_game.push(msg);
    }

    /// Triggers an event in the game.
    pub fn trigger(&mut self, event: ReflectedEvent)
        ensures
            final(self).to_game@ == old(self).to_game@.push(EditorMsg::ReflectedEvent(event)),
            final(self).msg_queue == old(self).msg_queue,
            final(self).systems == old(self).systems,
    {
        self.send(EditorMsg::from(event));
    }

    /// Takes in what listening to the game gave. Listening goes on until it fails.
    pub fn receive(&mut self, received: Result<GameMsg, ()>) -> (listen_on: bool)
        ensures
            listen_on == received is Ok,
            final(self).msg_queue@ == queue_with(old(self).msg_queue@, received),
            final(self).to_game == old(self).to_game,
            final(self).systems == old(self).systems,
    {
        match received {
            Ok(msg) => {
                self.msg_queue.push(msg);
                true
            },
            Err(_) => false,
        }
    }

    /// Moves every message that came from the game into the given list, and drops what the list
    /// held before.
    pub fn get_messages(&mut self, swap_to: &mut Vec<GameMsg>)
        ensures
            final(swap_to)@ == old(self).msg_queue@,
            final(self).msg_queue@.len() == 0,
            final(self).to_game == old(self).to_game,
            final(self).systems == old(self).systems,
    {
        swap_to.clear();
        core::mem::swap(&mut self.msg_queue, swap_to);
    }
}

/// The command that starts a game with the given arguments, and tells it under which name the
/// editor's server can be reached.
pub open spec fn starts_game(
    command: LaunchCommand,
    args: Seq<Seq<char>>,
    current_dir: Seq<char>,
    server_name: Seq<char>,
) -> bool {
    &&& command.program@ == "cargo"@
    &&& views(command.args@) == args
    &&& command.current_dir@ == current_dir
    &&& command.env_name@ == EDITOR_SERVER_NAME_VAR@
    &&& command.env_value@ == server_name
}

/// The command that starts the game of a workspace.
pub fn launch_command(start: &StartGameProcess, server_name: String) -> (command: LaunchCommand)
    ensures
        starts_game(command, seq!["run"@], start.workspace_path@, server_name@),
{
    let mut args: Vec<String> = Vec::new();
    args.push("run".to_owned());
    assert(views(args@) =~= seq!["run"@]);
    LaunchCommand {
        program: "cargo".to_owned(),
        args,
        current_dir: start.workspace_path.clone(),
        env_name: EDITOR_SERVER_NAME_VAR.to_owned(),
        env_value: server_name,
    }
}

/// The sender through which a game can be reached. It has to be the first thing that a game says.
pub fn accept_game(first_msg: GameMsg) -> (accepted: Result<(u64, GameProcess), NoSender>)
    ensures
        match first_msg {
            GameMsg::Sender(sender) => {
                &&& accepted is Ok
                &&& accepted->Ok_0.0 == sender
                &&& accepted->Ok_0.1.wf()
                &&& accepted->Ok_0.1.to_game@.len() == 0
                &&& accepted->Ok_0.1.msg_queue@.len() == 0
                &&& accepted->Ok_0.1.systems@ == Map::<Seq<char>, RemoteSystem>::empty()
            },
            _ => accepted is Err,
        },
{
    match first_msg {
        GameMsg::Sender(sender) => Ok((sender, GameProcess::new())),
        _ => Err(NoSender),
    }
}

/// Puts a game that was just started in the place of the running one, if there is one. The
/// running one is handed back, to be killed.
pub fn start_game_process_observer(
    running: &mut Option<GameProcess>,
    started: GameProcess,
) -> (killed: Option<GameProcess>)
    ensures
        *final(running) == Some(started),
        killed == *old(running),
{
    let mut killed: Option<GameProcess> = Some(started);
    core::mem::swap(running, &mut killed);
    killed
}

/// Works off the messages of a game. A game that has ended is removed, and its messages are left
/// alone.
pub fn process_game_messages(
    game: &mut GameProcess,
    exited: bool,
    msg_queue: &mut Vec<GameMsg>,
) -> (actions: Vec<EditorAction>)
    requires
        old(game).wf(),
    ensures
        final(game).wf(),
        final(game).to_game == old(game).to_game,
        exited ==> {
            &&& actions@ == seq![EditorAction::RemoveGame]
            &&& *final(game) == *old(game)
            &&& *final(msg_queue) == *old(msg_queue)
        },
        !exited ==> {
            &&& actions@ == actions_for(old(game).msg_queue@)
            &&& final(game).systems@ == systems_after(
                old(game).systems@,
                old(game).msg_queue@,
            )
            &&& final(game).msg_queue@.len() == 0
            &&& final(msg_queue)@.len() == 0
        },
{
    let mut actions: Vec<EditorAction> = Vec::new();
    if exited {
        actions.push(EditorAction::RemoveGame);
        assert(actions@ =~= seq![EditorAction::RemoveGame]);
        return actions;
    }
    game.get_messages(msg_queue);
    let mut batch: Vec<GameMsg> = Vec::new();
    core::mem::swap(&mut batch, msg_queue);
    let ghost all = batch@;
    let ghost mut done: int = 0;
    for msg in it: batch
        invariant
            it.seq() == all,
            all == old(game).msg_queue@,
            done == it.index(),
            0 <= done,
            game.wf(),
            game.to_game == old(game).to_game,
            game.msg_queue@.len() == 0,
            msg_queue@.len() == 0,
            actions@ == actions_for(all.take(done)),
            game.systems@ == systems_after(old(game).systems@, all.take(done)),
    {
        proof {
            assert(all.take(done + 1).drop_last() =~= all.take(done));
            assert(all.take(done + 1).last() == msg);
            done = done + 1;
        }
        match msg {
            GameMsg::Image(info) => {
                actions.push(EditorAction::ViewportTextureUpdate { info });
            },
            GameMsg::WorldInfo { systems } => {
                game.systems = announce(systems);
                actions.push(EditorAction::GotSystems);
            },
            GameMsg::ReflectedEvent(event) => {
                actions.push(EditorAction::Trigger { event });
            },
            GameMsg::Sender(_) => {},
        }
    }
    assert(all.take(done) =~= all);
    actions
}

/// The messages after listening once more.
pub open spec fn queue_with(queue: Seq<GameMsg>, received: Result<GameMsg, ()>) -> Seq<GameMsg> {
    match received {
        Ok(msg) => queue.push(msg),
        Err(_) => queue,
    }
}

/// The messages that a series of listening gives, after those that were there before.
pub open spec fn queue_after(
    queue: Seq<GameMsg>,
    received: Seq<Result<GameMsg, ()>>,
) -> Seq<GameMsg>
    decreases received.len(),
{
    if received.len() == 0 {
        queue
    } else {
        queue_with(queue_after(queue, received.drop_last()), received.last())
    }
}

/// The editor hears what the game sent, all of it and in order, and nothing more when the connection
/// is lost after that.
pub proof fn law_editor_hears_what_the_game_sent(queue: Seq<GameMsg>, sent: Seq<GameMsg>)
    ensures
        ({
            let received = sent.map_values(|msg: GameMsg| Ok::<GameMsg, ()>(msg));
            &&& queue_after(queue, received) == queue + sent
            &&& queue_after(queue, received.push(Err(()))) == queue + sent
        }),
    decreases sent.len(),
{
    let received = sent.map_values(|msg: GameMsg| Ok::<GameMsg, ()>(msg));
    if sent.len() > 0 {
        let rest = sent.drop_last();
        law_editor_hears_what_the_game_sent(queue, rest);
        assert(received.drop_last() =~= rest.map_values(|msg: GameMsg| Ok::<GameMsg, ()>(msg)));
        assert(received.last() == Ok::<GameMsg, ()>(sent.last()));
        assert(queue_after(queue, received) =~= queue + sent);
    } else {
        assert(queue_after(queue, received) =~= queue + sent);
    }
    assert(received.push(Err(())).drop_last() =~= received);
}

/// Where the messages of a game are cut into batches makes no difference: working off one batch
/// after the other does what working them off in one go does.
pub proof fn law_batches_make_no_difference(
    systems: Map<Seq<char>, RemoteSystem>,
    first: Seq<GameMsg>,
    second: Seq<GameMsg>,
)
    ensures
        actions_for(first + second) == actions_for(first) + actions_for(second),
        systems_after(systems, first + second) == systems_after(
            systems_after(systems, first),
            second,
        ),
    decreases second.len(),
{
    if second.len() == 0 {
        assert(first + second =~= first);
        assert(actions_for(first) + actions_for(second) =~= actions_for(first));
    } else {
        law_batches_make_no_difference(systems, first, second.drop_last());
        assert((first + second).drop_last() =~= first + second.drop_last());
        assert((first + second).last() == second.last());
        assert(actions_for(first + second) =~= actions_for(first) + actions_for(second));
    }
}

/// After an announcement, and until the next one, the editor knows the announced systems and no
/// others, and takes none of them to be running.
pub proof fn law_systems_are_those_last_announced(
    systems: Map<Seq<char>, RemoteSystem>,
    before: Seq<GameMsg>,
    names: Vec<String>,
    after: Seq<GameMsg>,
)
    requires
        forall|i: int| 0 <= i < after.len() ==> !(#[trigger] after[i] is WorldInfo),
    ensures
        systems_after(systems, before.push(GameMsg::WorldInfo { systems: names }) + after)
            == announced(views(names@)),
    decreases after.len(),
{
    let announcement = before.push(GameMsg::WorldInfo { systems: names });
    if after.len() == 0 {
        assert(announcement + after =~= announcement);
    } else {
        let all = announcement + after;
        assert(all.last() == after[after.len() - 1]);
        assert(all.drop_last() =~= announcement + after.drop_last());
        law_systems_are_those_last_announced(systems, before, names, after.drop_last());
    }
}

/// How many of the messages the editor's world has something to do about: all but those that say how
/// to reach the game.
pub open spec fn work_in(msgs: Seq<GameMsg>) -> nat
    decreases msgs.len(),
{
    if msgs.len() == 0 {
        0
    } else if msgs.last() is Sender {
        work_in(msgs.drop_last())
    } else {
        work_in(msgs.drop_last()) + 1
    }
}

/// The action is the one that the message calls for: a texture is to be shown, the systems have
/// become known, or an event is to be triggered.
pub open spec fn does_what_is_asked(action: EditorAction, msg: GameMsg) -> bool {
    &&& msg is Image ==> action == EditorAction::ViewportTextureUpdate { info: msg->Image_0 }
    &&& msg is WorldInfo ==> action == EditorAction::GotSystems
    &&& msg is ReflectedEvent ==> action == EditorAction::Trigger { event: msg->ReflectedEvent_0 }
}

/// The messages of a game are worked off one for one and in order: each of them brings the action
/// that it calls for, except that nothing is done about one that says how to reach the game.
pub proof fn law_each_message_is_acted_on(msgs: Seq<GameMsg>)
    ensures
        actions_for(msgs).len() == work_in(msgs),
        forall|i: int|
            #![trigger msgs[i]]
            0 <= i < msgs.len() && !(msgs[i] is Sender) ==> {
                &&& work_in(msgs.take(i)) < work_in(msgs)
                &&& does_what_is_asked(actions_for(msgs)[work_in(msgs.take(i)) as int], msgs[i])
            },
    decreases msgs.len(),
{
    if msgs.len() > 0 {
        let rest = msgs.drop_last();
        law_each_message_is_acted_on(rest);
        assert forall|i: int|
            #![trigger msgs[i]]
            0 <= i < msgs.len() && !(msgs[i] is Sender) implies {
            &&& work_in(msgs.take(i)) < work_in(msgs)
            &&& does_what_is_asked(actions_for(msgs)[work_in(msgs.take(i)) as int], msgs[i])
        } by {
            if i < rest.len() {
                assert(rest[i] == msgs[i]);
                assert(rest.take(i) =~= msgs.take(i));
            } else {
                assert(msgs.take(i) =~= rest);
            }
        }
    }
}

/// The editor keeps knowing the systems that it knows until the game announces others.
pub proof fn law_systems_stand(systems: Map<Seq<char>, RemoteSystem>, msgs: Seq<GameMsg>)
    requires
        forall|i: int| 0 <= i < msgs.len() ==> !(#[trigger] msgs[i] is WorldInfo),
    ensures
        systems_after(systems, msgs) == systems,
    decreases msgs.len(),
{
    if msgs.len() > 0 {
        assert(!(msgs[msgs.len() - 1] is WorldInfo));
        law_systems_stand(systems, msgs.drop_last());
    }
}

/// After an announcement, and until the next one, a system is known exactly if it was named, and is
/// not taken to be running.
pub proof fn law_named_systems_are_known(
    systems: Map<Seq<char>, RemoteSystem>,
    before: Seq<GameMsg>,
    names: Vec<String>,
    after: Seq<GameMsg>,
    name: Seq<char>,
)
    requires
        forall|i: int| 0 <= i < after.len() ==> !(#[trigger] after[i] is WorldInfo),
    ensures
        ({
            let known = systems_after(
                systems,
                before.push(GameMsg::WorldInfo { systems: names }) + after,
            );
            &&& known.dom().contains(name) <==> exists|i: int|
                0 <= i < names@.len() && #[trigger] names@[i]@ == name
            &&& known.dom().contains(name) ==> !known[name].is_running
        }),
{
    law_systems_are_those_last_announced(systems, before, names, after);
    let all = views(names@);
    if all.contains(name) {
        let i = choose|i: int| 0 <= i < all.len() && all[i] == name;
        assert(names@[i]@ == name);
    }
    if exists|i: int| 0 <= i < names@.len() && #[trigger] names@[i]@ == name {
        let i = choose|i: int| 0 <= i < names@.len() && #[trigger] names@[i]@ == name;
        assert(all[i] == name);
    }
}

/// What [`process_game_messages`] does: a game that has ended is removed, and nothing else happens.
/// The messages of any other game are all acted on, in their order, and none is left.
pub proof fn law_queued_messages_are_acted_on(
    game: &mut GameProcess,
    exited: bool,
    msg_queue: &mut Vec<GameMsg>,
    actions: Vec<EditorAction>,
)
    requires
        call_ensures(process_game_messages, (game, exited, msg_queue), actions),
    ensures
        final(game).to_game == old(game).to_game,
        exited ==> {
            &&& actions@.len() == 1
            &&& actions@[0] == EditorAction::RemoveGame
            &&& final(game).msg_queue == old(game).msg_queue
            &&& final(game).systems == old(game).systems
            &&& *final(msg_queue) == *old(msg_queue)
        },
        !exited ==> {
            let msgs = old(game).msg_queue@;
            &&& final(game).msg_queue@.len() == 0
            &&& actions@.len() == work_in(msgs)
            &&& forall|i: int|
                #![trigger msgs[i]]
                0 <= i < msgs.len() && !(msgs[i] is Sender) ==> does_what_is_asked(
                    actions@[work_in(msgs.take(i)) as int],
                    msgs[i],
                )
            &&& (forall|i: int| 0 <= i < msgs.len() ==> !(#[trigger] msgs[i] is WorldInfo))
                ==> final(game).systems@ == old(game).systems@
            &&& msgs.len() > 0 && msgs.last() is WorldInfo ==> forall|name: Seq<char>| #[trigger]
                final(game).systems@.dom().contains(name) <==> views(
                    msgs.last()->WorldInfo_systems@,
                ).contains(name)
        },
{
    let msgs = old(game).msg_queue@;
    law_each_message_is_acted_on(msgs);
    if forall|i: int| 0 <= i < msgs.len() ==> !(#[trigger] msgs[i] is WorldInfo) {
        law_systems_stand(old(game).systems@, msgs);
    }
}

/// What is sent to the game comes after all that was sent before, and an event to trigger is sent as
/// it is.
pub proof fn law_editor_speaks_in_order(
    game: &mut GameProcess,
    msg: EditorMsg,
    other_game: &mut GameProcess,
    event: ReflectedEvent,
)
    requires
        call_ensures(GameProcess::send, (game, msg), ()),
        call_ensures(GameProcess::trigger, (other_game, event), ()),
    ensures
        final(game).to_game@ == old(game).to_game@ + seq![msg],
        final(game).msg_queue == old(game).msg_queue,
        final(game).systems == old(game).systems,
        final(other_game).to_game@ == old(other_game).to_game@ + seq![
            EditorMsg::ReflectedEvent(event),
        ],
        final(other_game).msg_queue == old(other_game).msg_queue,
        final(other_game).systems == old(other_game).systems,
{
}

/// What listening to the game gives goes to the end of the queue. Nothing is queued when the game is
/// lost, and listening ends there.
pub proof fn law_editor_queues_what_it_hears(
    game: &mut GameProcess,
    received: Result<GameMsg, ()>,
    listen_on: bool,
)
    requires
        call_ensures(GameProcess::receive, (game, received), listen_on),
    ensures
        listen_on <==> received is Ok,
        received is Ok ==> final(game).msg_queue@ == old(game).msg_queue@ + seq![received->Ok_0],
        received is Err ==> final(game).msg_queue@ == old(game).msg_queue@,
        final(game).to_game == old(game).to_game,
        final(game).systems == old(game).systems,
{
}

/// Every message is handed out once: what is taken out of the queue is all that was in it, in order,
/// and a second look finds nothing.
pub proof fn law_messages_of_the_game_are_handed_out_once(
    game: &mut GameProcess,
    swap_to: &mut Vec<GameMsg>,
)
    requires
        call_ensures(GameProcess::get_messages, (game, swap_to), ()),
    ensures
        final(swap_to)@ == old(game).msg_queue@,
        final(game).msg_queue@ == Seq::<GameMsg>::empty(),
        final(game).to_game == old(game).to_game,
        final(game).systems == old(game).systems,
{
}

/// The game is started in its workspace, and finds the name of the editor's server where it looks
/// for it.
pub proof fn law_game_is_launched_in_its_workspace(
    start: &StartGameProcess,
    server_name: String,
    command: LaunchCommand,
)
    requires
        call_ensures(launch_command, (start, server_name), command),
    ensures
        command.program@ == "cargo"@,
        command.args@.len() == 1,
        command.args@[0]@ == "run"@,
        command.current_dir@ == start.workspace_path@,
        command.env_name@ == "BEVY_EDITOR_SERVER_NAME"@,
        command.env_value@ == server_name@,
{
    let args = views(command.args@);
    assert(args.len() == 1 && args.len() == command.args@.len());
    assert(args[0] == "run"@);
}

/// A game is accepted exactly if the first thing that it says is how to reach it, and is reached
/// that way. The game that ran before is handed back, and the accepted one takes its place.
pub proof fn law_accepted_game_takes_the_place(
    first_msg: GameMsg,
    accepted: Result<(u64, GameProcess), NoSender>,
    running: &mut Option<GameProcess>,
    started: GameProcess,
    killed: Option<GameProcess>,
)
    requires
        call_ensures(accept_game, (first_msg,), accepted),
        call_ensures(start_game_process_observer, (running, started), killed),
    ensures
        accepted is Ok <==> first_msg is Sender,
        accepted is Ok ==> {
            &&& first_msg->Sender_0 == accepted->Ok_0.0
            &&& accepted->Ok_0.1.to_game@.len() == 0
            &&& accepted->Ok_0.1.msg_queue@.len() == 0
            &&& forall|name: Seq<char>| !#[trigger]
                accepted->Ok_0.1.systems@.dom().contains(name)
        },
        *final(running) == Some(started),
        *old(running) is None <==> killed is None,
        killed is Some ==> *old(running) == Some(killed->0),
{
}

} // verus!
