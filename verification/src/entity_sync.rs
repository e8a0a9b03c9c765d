//! Rebuilding entities of a game in the editor's world.
//!
//! The game is asked for entities, and for their components, one request at a time. Each entity
//! gets one counterpart in the editor's world, and is given the components that the game tells. The
//! children of an entity follow right after it.

use crate::collections::EntityMap;
use crate::viewport::{entity_from_bits, is_entity};
use vstd::prelude::*;

verus! {

/// A request to the game.
#[derive(Debug)]
pub enum BrpRequest {
    /// Which entities have all of these components.
    Query { with: Vec<String>, strict: bool },
    /// Which components an entity has.
    ListComponents { entity: u64 },
    /// What the components of an entity hold.
    GetComponents { entity: u64, components: Vec<String>, strict: bool },
    /// An entity is to go.
    Despawn { entity: u64 },
}

/// A component: the path of its type, and its value as JSON text.
#[derive(Debug)]
pub struct Component {
    pub path: String,
    pub json: String,
}

/// The type paths of the components that say how entities belong together, and that are not
/// written to the editor's world as they are.
pub struct RelationPaths {
    pub children: String,
    pub child_of: String,
    pub scene_info: String,
}

/// Why rebuilding cannot go on.
#[derive(Clone, Copy, PartialEq, Eq, Structural, Debug)]
pub enum SyncError {
    /// The game answered strictly, though it was asked not to.
    NotLenient,
    /// The parent of an entity is told in a way that is no entity.
    MalformedParent,
    /// The parent of an entity has no counterpart.
    UnknownParent(u64),
    /// The children of an entity are told in a way that is no list of entities.
    MalformedChildren,
}

/// What was asked for last.
#[derive(Debug)]
pub enum SyncStep {
    Starting,
    Spawning { game: u64 },
    Listing { game: u64, editor: u64 },
    Getting { editor: u64 },
    Attaching { editor: u64, kept: Vec<Component>, children: Option<String> },
    Writing { children: Option<String> },
    Finished,
    Failed { error: SyncError },
}

/// What to do next.
#[derive(Debug)]
pub enum SyncAction {
    /// Spawn an empty entity in the editor's world.
    Spawn,
    /// Ask the game.
    Ask { request: BrpRequest },
    /// Make one entity of the editor's world a child of another one.
    AddChild { parent: u64, child: u64 },
    /// Give an entity of the editor's world these components, those of unknown types excepted.
    Write { entity: u64, components: Vec<Component> },
    /// All is done.
    Finish,
    /// Rebuilding cannot go on.
    Fail { error: SyncError },
}

/// What came of an action.
#[derive(Debug)]
pub enum SyncEvent {
    Start,
    Spawned { editor: u64 },
    Listed { paths: Vec<String> },
    /// The components that could be told, unless the answer was a strict one.
    Got { components: Option<Vec<Component>> },
    ChildAdded,
    Written,
}

/// Rebuilding, as far as it has come.
pub struct EntitySync {
    /// The counterparts in the editor's world.
    pub entities_map: EntityMap<u64>,
    /// The entities of the game that are still to come, next one first.
    pub pending: Vec<u64>,
    pub step: SyncStep,
}

/// Rebuilding at one moment: the counterparts, the entities that are still to come, and what was
/// asked for last.
pub struct SyncState {
    pub map: Map<u64, u64>,
    pub pending: Seq<u64>,
    pub step: SyncStep,
}

impl View for EntitySync {
    type V = SyncState;

    open spec fn view(&self) -> SyncState {
        SyncState { map: self.entities_map@, pending: self.pending@, step: self.step }
    }
}

/// The number that a JSON text holds, if it holds one of 64 bits without a sign.
pub uninterp spec fn json_number(text: Seq<char>) -> Option<u64>;

/// The numbers in the list that a JSON text holds, if it holds a list of such numbers.
pub uninterp spec fn json_numbers(text: Seq<char>) -> Option<Seq<u64>>;

/// The contents of a list, if there is one.
pub open spec fn list_view(list: Option<Vec<u64>>) -> Option<Seq<u64>> {
    match list {
        Some(numbers) => Some(numbers@),
        None => None,
    }
}

/// `serde_json::from_str`, for a number. What comes out depends on the text alone.
#[verifier::external_body]
fn parse_number(text: &String) -> (number: Option<u64>)
    ensures
        number == json_number(text@),
{
    serde_json::from_str::<u64>(text.as_str()).ok()
}

/// `serde_json::from_str`, for a list of numbers. What comes out depends on the text alone.
#[verifier::external_body]
fn parse_numbers(text: &String) -> (numbers: Option<Vec<u64>>)
    ensures
        list_view(numbers) == json_numbers(text@),
{
    serde_json::from_str::<Vec<u64>>(text.as_str()).ok()
}

/// The counterpart of a parent that was told as a number.
pub open spec fn parent_behind(number: Option<u64>, map: Map<u64, u64>) -> Result<u64, SyncError> {
    match number {
        Some(bits) => if !is_entity(bits) {
            Err(SyncError::MalformedParent)
        } else if map.dom().contains(bits) {
            Ok(map[bits])
        } else {
            Err(SyncError::UnknownParent(bits))
        },
        None => Err(SyncError::MalformedParent),
    }
}

/// Finds the counterpart of a parent.
pub fn find_parent(number: Option<u64>, map: &EntityMap<u64>) -> (parent: Result<u64, SyncError>)
    requires
        map.wf(),
    ensures
        parent == parent_behind(number, map@),
{
    let bits: u64 = match number {
        Some(bits) => bits,
        None => {
            return Err(SyncError::MalformedParent);
        },
    };
    match entity_from_bits(bits) {
        Some(entity) => match map.get(entity) {
            Some(parent) => Ok(*parent),
            None => Err(SyncError::UnknownParent(entity)),
        },
        None => Err(SyncError::MalformedParent),
    }
}

/// Whether all numbers are entities.
pub open spec fn are_entities(numbers: Seq<u64>) -> bool {
    forall|i: int| 0 <= i < numbers.len() ==> is_entity(#[trigger] numbers[i])
}

/// The children that were told as numbers. Unless all of them are entities, they make no sense.
pub fn check_children(numbers: Option<Vec<u64>>) -> (children: Option<Vec<u64>>)
    ensures
        children == (if numbers is Some && are_entities(numbers->0@) {
            numbers
        } else {
            None
        }),
{
    let list = match numbers {
        Some(list) => list,
        None => {
            return None;
        },
    };
    let mut i: usize = 0;
    while i < list.len()
        invariant
            numbers == Some(list),
            i <= list@.len(),
            forall|j: int| 0 <= j < i ==> is_entity(#[trigger] list@[j]),
        decreases list@.len() - i,
    {
        if entity_from_bits(list[i]).is_none() {
            assert(!is_entity(list@[i as int]));
            return None;
        }
        i += 1;
    }
    Some(list)
}

/// The children that a JSON text tells, if it makes sense.
pub open spec fn children_told(text: Seq<char>) -> Option<Seq<u64>> {
    match json_numbers(text) {
        Some(numbers) => if are_entities(numbers) {
            Some(numbers)
        } else {
            None
        },
        None => None,
    }
}

/// The value of a component, if the entity has it.
pub open spec fn value_of(components: Seq<Component>, path: Seq<char>) -> Option<Seq<char>>
    decreases components.len(),
{
    if components.len() == 0 {
        None
    } else if components.last().path@ == path {
        Some(components.last().json@)
    } else {
        value_of(components.drop_last(), path)
    }
}

/// Whether a component is written to the editor's world.
pub open spec fn is_kept(component: Component, paths: RelationPaths) -> bool {
    &&& component.path@ != paths.children@
    &&& component.path@ != paths.child_of@
    &&& component.path@ != paths.scene_info@
}

/// The components that are written to the editor's world.
pub open spec fn kept(components: Seq<Component>, paths: RelationPaths) -> Seq<Component> {
    components.filter(|component: Component| is_kept(component, paths))
}

/// The contents of an optional text.
pub open spec fn text_view(text: Option<String>) -> Option<Seq<char>> {
    match text {
        Some(text) => Some(text@),
        None => None,
    }
}

/// Takes the components apart: the children, the parent, and what is to be written.
pub fn take_apart(components: Vec<Component>, paths: &RelationPaths) -> (parts: (
    Option<String>,
    Option<String>,
    Vec<Component>,
))
    requires
        paths.wf(),
    ensures
        text_view(parts.0) == value_of(components@, paths.children@),
        text_view(parts.1) == value_of(components@, paths.child_of@),
        parts.2@ == kept(components@, *paths),
{
    let ghost all = components@;
    let mut children: Option<String> = None;
    let mut child_of: Option<String> = None;
    let mut rest: Vec<Component> = Vec::new();
    let ghost mut done: int = 0;
    proof {
        reveal(Seq::filter);
        assert(rest@ =~= kept(all.take(0), *paths));
    }
    for component in it: components
        invariant
            it.seq() == all,
            done == it.index(),
            0 <= done,
            paths.wf(),
            text_view(children) == value_of(all.take(done), paths.children@),
            text_view(child_of) == value_of(all.take(done), paths.child_of@),
            rest@ == kept(all.take(done), *paths),
    {
        proof {
            reveal(Seq::filter);
            assert(all.take(done + 1).drop_last() =~= all.take(done));
            assert(all.take(done + 1).last() == component);
            done = done + 1;
        }
        if component.path == paths.children {
            children = Some(component.json);
        } else if component.path == paths.child_of {
            child_of = Some(component.json);
        } else if component.path != paths.scene_info {
            rest.push(component);
        }
    }
    assert(all.take(done) =~= all);
    (children, child_of, rest)
}

/// Goes to the next entity. One that has a counterpart is not spawned again.
pub open spec fn goes_on(
    map: Map<u64, u64>,
    pending: Seq<u64>,
    pending_after: Seq<u64>,
    step_after: SyncStep,
    action: SyncAction,
) -> bool {
    if pending.len() == 0 {
        &&& pending_after == pending
        &&& step_after == SyncStep::Finished
        &&& action == SyncAction::Finish
    } else {
        let game = pending[0];
        &&& pending_after == pending.drop_first()
        &&& if map.dom().contains(game) {
            &&& step_after == SyncStep::Listing { game, editor: map[game] }
            &&& asks_for_components(action, game)
        } else {
            &&& step_after == SyncStep::Spawning { game }
            &&& action == SyncAction::Spawn
        }
    }
}

/// The game is asked which components an entity has.
pub open spec fn asks_for_components(action: SyncAction, game: u64) -> bool {
    action == SyncAction::Ask { request: BrpRequest::ListComponents { entity: game } }
}

/// Rebuilding stops.
pub open spec fn fails(error: SyncError, step_after: SyncStep, action: SyncAction) -> bool {
    &&& step_after == SyncStep::Failed { error }
    &&& action == SyncAction::Fail { error }
}

/// The components of an entity are written, and its children are kept in mind.
pub open spec fn writes(
    editor: u64,
    components: Seq<Component>,
    children: Option<Seq<char>>,
    step_after: SyncStep,
    action: SyncAction,
) -> bool {
    &&& step_after is Writing
    &&& text_view(step_after->Writing_children) == children
    &&& action is Write
    &&& action->Write_entity == editor
    &&& action->Write_components@ == components
}

/// The components of an entity came: it is made a child of its parent's counterpart, if it has a
/// parent, and else written right away.
pub open spec fn takes_in(
    map: Map<u64, u64>,
    editor: u64,
    components: Seq<Component>,
    paths: RelationPaths,
    step_after: SyncStep,
    action: SyncAction,
) -> bool {
    let children = value_of(components, paths.children@);
    match value_of(components, paths.child_of@) {
        None => writes(editor, kept(components, paths), children, step_after, action),
        Some(text) => match parent_behind(json_number(text), map) {
            Err(error) => fails(error, step_after, action),
            Ok(parent) => {
                &&& action == SyncAction::AddChild { parent, child: editor }
                &&& step_after is Attaching
                &&& step_after->Attaching_editor == editor
                &&& step_after->Attaching_kept@ == kept(components, paths)
                &&& text_view(step_after->Attaching_children) == children
            },
        },
    }
}

/// The event is what can come of the action that was asked for last.
pub open spec fn can_follow(step: SyncStep, event: SyncEvent) -> bool {
    match event {
        SyncEvent::Start => step is Starting,
        SyncEvent::Spawned { .. } => step is Spawning,
        SyncEvent::Listed { .. } => step is Listing,
        SyncEvent::Got { .. } => step is Getting,
        SyncEvent::ChildAdded => step is Attaching,
        SyncEvent::Written => step is Writing,
    }
}

/// One move of rebuilding: what an event makes of a state, and the action that it asks for.
pub open spec fn moves(
    paths: RelationPaths,
    before: SyncState,
    event: SyncEvent,
    after: SyncState,
    action: SyncAction,
) -> bool {
    match event {
        SyncEvent::Start => {
            &&& after.map == before.map
            &&& goes_on(before.map, before.pending, after.pending, after.step, action)
        },
        SyncEvent::Spawned { editor } => {
            let game = before.step->Spawning_game;
            &&& after.map == before.map.insert(game, editor)
            &&& after.pending == before.pending
            &&& after.step == SyncStep::Listing { game, editor }
            &&& asks_for_components(action, game)
        },
        SyncEvent::Listed { paths: listed } => {
            &&& after.map == before.map
            &&& after.pending == before.pending
            &&& after.step == SyncStep::Getting { editor: before.step->Listing_editor }
            &&& action == SyncAction::Ask {
                request: BrpRequest::GetComponents {
                    entity: before.step->Listing_game,
                    components: listed,
                    strict: false,
                },
            }
        },
        SyncEvent::Got { components } => {
            &&& after.map == before.map
            &&& after.pending == before.pending
            &&& match components {
                None => fails(SyncError::NotLenient, after.step, action),
                Some(components) => takes_in(
                    before.map,
                    before.step->Getting_editor,
                    components@,
                    paths,
                    after.step,
                    action,
                ),
            }
        },
        SyncEvent::ChildAdded => {
            &&& after.map == before.map
            &&& after.pending == before.pending
            &&& writes(
                before.step->Attaching_editor,
                before.step->Attaching_kept@,
                text_view(before.step->Attaching_children),
                after.step,
                action,
            )
        },
        SyncEvent::Written => {
            &&& after.map == before.map
            &&& match text_view(before.step->Writing_children) {
                None => goes_on(before.map, before.pending, after.pending, after.step, action),
                Some(text) => match children_told(text) {
                    None => {
                        &&& after.pending == before.pending
                        &&& fails(SyncError::MalformedChildren, after.step, action)
                    },
                    Some(children) => goes_on(
                        before.map,
                        children + before.pending,
                        after.pending,
                        after.step,
                        action,
                    ),
                },
            }
        },
    }
}

impl RelationPaths {
    /// The three types are different.
    pub open spec fn wf(&self) -> bool {
        &&& self.children@ != self.child_of@
        &&& self.children@ != self.scene_info@
        &&& self.child_of@ != self.scene_info@
    }
}

impl EntitySync {
    /// The table of counterparts is in order, and no second counterpart is being spawned for an
    /// entity.
    pub open spec fn wf(&self) -> bool {
        &&& self.entities_map.wf()
        &&& self.step is Spawning ==> !self.entities_map@.dom().contains(self.step->Spawning_game)
    }

    /// Goes to the next entity.
    fn go_on(&mut self) -> (action: SyncAction)
        requires
            old(self).entities_map.wf(),
        ensures
            final(self).wf(),
            final(self).entities_map == old(self).entities_map,
            goes_on(
                old(self).entities_map@,
                old(self).pending@,
                final(self).pending@,
                final(self).step,
                action,
            ),
    {
        if self.pending.len() == 0 {
            self.step = SyncStep::Finished;
            return SyncAction::Finish;
        }
        let game: u64 = self.pending.remove(0);
        assert(self.pending@ =~= old(self).pending@.drop_first());
        let known: Option<u64> = match self.entities_map.get(game) {
            Some(editor) => Some(*editor),
            None => None,
        };
        match known {
            Some(editor) => {
                self.step = SyncStep::Listing { game, editor };
                SyncAction::Ask { request: BrpRequest::ListComponents { entity: game } }
            },
            None => {
                self.step = SyncStep::Spawning { game };
                SyncAction::Spawn
            },
        }
    }

    /// Stops.
    fn fail(&mut self, error: SyncError) -> (action: SyncAction)
        ensures
            final(self).entities_map == old(self).entities_map,
            final(self).pending == old(self).pending,
            fails(error, final(self).step, action),
    {
        self.step = SyncStep::Failed { error };
        SyncAction::Fail { error }
    }

    /// Takes in what came of the last action, and says what to do next.
    pub fn advance(&mut self, event: SyncEvent, paths: &RelationPaths) -> (action: SyncAction)
        requires
            old(self).wf(),
            paths.wf(),
            can_follow(old(self).step, event),
        ensures
            final(self).wf(),
            old(self).entities_map@.submap_of(final(self).entities_map@),
            moves(*paths, old(self)@, event, final(self)@, action),
    {
        let mut step = SyncStep::Starting;
        core::mem::swap(&mut step, &mut self.step);
        match (event, step) {
            (SyncEvent::Start, _) => self.go_on(),
            (SyncEvent::Spawned { editor }, SyncStep::Spawning { game }) => {
                self.entities_map.insert(game, editor);
                self.step = SyncStep::Listing { game, editor };
                SyncAction::Ask { request: BrpRequest::ListComponents { entity: game } }
            },
            (SyncEvent::Listed { paths }, SyncStep::Listing { game, editor }) => {
                self.step = SyncStep::Getting { editor };
                SyncAction::Ask {
                    request: BrpRequest::GetComponents {
                        entity: game,
                        components: paths,
                        strict: false,
                    },
                }
            },
            (SyncEvent::Got { components }, SyncStep::Getting { editor }) => {
                let components = match components {
                    Some(components) => components,
                    None => {
                        return self.fail(SyncError::NotLenient);
                    },
                };
                let (children, child_of, kept) = take_apart(components, paths);
                match child_of {
                    None => {
                        self.step = SyncStep::Writing { children };
                        SyncAction::Write { entity: editor, components: kept }
                    },
                    Some(text) => match find_parent(parse_number(&text), &self.entities_map) {
                        Ok(parent) => {
                            self.step = SyncStep::Attaching { editor, kept, children };
                            SyncAction::AddChild { parent, child: editor }
                        },
                        Err(error) => self.fail(error),
                    },
                }
            },
            (SyncEvent::ChildAdded, SyncStep::Attaching { editor, kept, children }) => {
                self.step = SyncStep::Writing { children };
                SyncAction::Write { entity: editor, components: kept }
            },
            (SyncEvent::Written, SyncStep::Writing { children }) => match children {
                None => self.go_on(),
                Some(text) => match check_children(parse_numbers(&text)) {
                    Some(children) => {
                        let mut next = children;
                        next.append(&mut self.pending);
                        self.pending = next;
                        self.go_on()
                    },
                    None => self.fail(SyncError::MalformedChildren),
                },
            },
            (_, _) => SyncAction::Finish,
        }
    }
}

/// What to ask the game first: which entities are to be rebuilt, or to be reset. The path is that of
/// the component that marks them.
pub fn marked_entities(type_path: String) -> (request: BrpRequest)
    ensures
        request is Query,
        request->Query_with@ == seq![type_path],
        request->Query_strict == false,
{
    let mut with: Vec<String> = Vec::new();
    with.push(type_path);
    assert(with@ =~= seq![type_path]);
    BrpRequest::Query { with, strict: false }
}

/// Starts rebuilding the entities that the game told. Counterparts from earlier are kept.
pub fn spawn_editor_sync(rows: Vec<u64>, entities_map: EntityMap<u64>) -> (sync: EntitySync)
    requires
        entities_map.wf(),
    ensures
        sync.wf(),
        sync.entities_map == entities_map,
        sync.pending == rows,
        sync.step == SyncStep::Starting,
{
    EntitySync { entities_map, pending: rows, step: SyncStep::Starting }
}

/// The requests that remove the entities that the game told, one after the other.
pub fn reset_scene(rows: &Vec<u64>) -> (requests: Vec<BrpRequest>)
    ensures
        requests@ == Seq::new(rows@.len(), |i: int| BrpRequest::Despawn { entity: rows@[i] }),
{
    let mut requests: Vec<BrpRequest> = Vec::new();
    let mut i: usize = 0;
    while i < rows.len()
        invariant
            i <= rows@.len(),
            requests@ == Seq::new(i as nat, |j: int| BrpRequest::Despawn { entity: rows@[j] }),
        decreases rows@.len() - i,
    {
        requests.push(BrpRequest::Despawn { entity: rows[i] });
        i += 1;
        assert(requests@ =~= Seq::new(i as nat, |j: int| BrpRequest::Despawn { entity: rows@[j] }));
    }
    requests
}

/// Leads from counterparts back to entities of the game: every counterpart, to an entity whose
/// counterpart it is.
pub open spec fn leads_back(map: Map<u64, u64>, reverse: Map<u64, u64>) -> bool {
    &&& forall|editor: u64| #[trigger]
        reverse.dom().contains(editor) ==> map.dom().contains(reverse[editor])
            && map[reverse[editor]] == editor
    &&& forall|game: u64| #[trigger] map.dom().contains(game) ==> reverse.dom().contains(map[game])
}

/// Builds the way back from counterparts to entities of the game.
pub fn reverse_entities_map(map: &EntityMap<u64>) -> (reverse: EntityMap<u64>)
    requires
        map.wf(),
    ensures
        reverse.wf(),
        leads_back(map@, reverse@),
{
    let mut reverse: EntityMap<u64> = EntityMap::new();
    let mut i: usize = 0;
    while i < map.len()
        invariant
            map.wf(),
            reverse.wf(),
            i <= map.keys().len(),
            forall|editor: u64| #[trigger]
                reverse@.dom().contains(editor) ==> map@.dom().contains(reverse@[editor])
                    && map@[reverse@[editor]] == editor,
            forall|j: int|
                0 <= j < i ==> reverse@.dom().contains(map@[#[trigger] map.keys()[j]]),
        decreases map.keys().len() - i,
    {
        let game: u64 = map.key_at(i);
        if let Some(editor) = map.get(game) {
            reverse.insert(*editor, game);
        }
        i += 1;
    }
    proof {
        map.lemma_keys();
        assert forall|game: u64| #[trigger] map@.dom().contains(game) implies reverse@.dom().contains(
            map@[game],
        ) by {
            assert(map.keys().to_set().contains(game));
            let j = choose|j: int| 0 <= j < map.keys().len() && map.keys()[j] == game;
            assert(reverse@.dom().contains(map@[map.keys()[j]]));
        }
    }
    reverse
}

/// As long as no two entities share a counterpart, the way back from the counterpart of an entity
/// leads to that entity.
pub proof fn law_way_back_is_the_inverse(map: Map<u64, u64>, reverse: Map<u64, u64>, game: u64)
    requires
        leads_back(map, reverse),
        map.is_injective(),
        map.dom().contains(game),
    ensures
        reverse.dom().contains(map[game]),
        reverse[map[game]] == game,
{
}

/// As long as each spawned entity is a new one, no two entities of the game share a counterpart.
pub proof fn law_counterparts_stay_distinct(map: Map<u64, u64>, game: u64, editor: u64)
    requires
        map.is_injective(),
        forall|other: u64| #[trigger] map.dom().contains(other) ==> map[other] != editor,
    ensures
        map.insert(game, editor).is_injective(),
{
}

/// An entity of the game with its children.
pub enum EntityTree {
    Node { entity: u64, children: Seq<EntityTree> },
}

/// How many entities there are.
pub open spec fn size(forest: Seq<EntityTree>) -> nat
    decreases forest,
{
    if forest.len() == 0 {
        0
    } else {
        match forest[0] {
            EntityTree::Node { entity, children } => 1 + size(children) + size(
                forest.drop_first(),
            ),
        }
    }
}

/// The entities at the top.
pub open spec fn roots(forest: Seq<EntityTree>) -> Seq<u64> {
    forest.map_values(
        |tree: EntityTree|
            match tree {
                EntityTree::Node { entity, .. } => entity,
            },
    )
}

/// The entities in the order of the trees: each one before its children, and those before what
/// stands beside it.
pub open spec fn tree_order(forest: Seq<EntityTree>) -> Seq<u64>
    decreases forest,
{
    if forest.len() == 0 {
        Seq::empty()
    } else {
        match forest[0] {
            EntityTree::Node { entity, children } => seq![entity] + tree_order(children)
                + tree_order(forest.drop_first()),
        }
    }
}

/// The entities in the order in which they are rebuilt: the first pending one, whose children then
/// come before all that is still pending.
pub open spec fn rebuilding_order(forest: Seq<EntityTree>) -> Seq<u64>
    decreases size(forest),
{
    if forest.len() == 0 {
        Seq::empty()
    } else {
        match forest[0] {
            EntityTree::Node { entity, children } => {
                proof {
                    lemma_size(children, forest.drop_first());
                }
                seq![entity] + rebuilding_order(children + forest.drop_first())
            },
        }
    }
}

/// Two forests side by side are as large as both of them.
pub proof fn lemma_size(a: Seq<EntityTree>, b: Seq<EntityTree>)
    ensures
        size(a + b) == size(a) + size(b),
    decreases a.len(),
{
    if a.len() == 0 {
        assert(a + b =~= b);
    } else {
        assert((a + b).drop_first() =~= a.drop_first() + b);
        lemma_size(a.drop_first(), b);
    }
}

/// The order of two forests side by side is one order after the other.
proof fn lemma_tree_order(a: Seq<EntityTree>, b: Seq<EntityTree>)
    ensures
        tree_order(a + b) == tree_order(a) + tree_order(b),
    decreases a.len(),
{
    if a.len() == 0 {
        assert(a + b =~= b);
        assert(tree_order(a) + tree_order(b) =~= tree_order(b));
    } else {
        assert((a + b).drop_first() =~= a.drop_first() + b);
        lemma_tree_order(a.drop_first(), b);
        assert(tree_order(a + b) =~= tree_order(a) + tree_order(b));
    }
}

/// The entities of the game are rebuilt in the order of the trees that they form.
pub proof fn law_entities_are_rebuilt_in_tree_order(forest: Seq<EntityTree>)
    ensures
        rebuilding_order(forest) == tree_order(forest),
    decreases size(forest),
{
    if forest.len() > 0 {
        match forest[0] {
            EntityTree::Node { entity, children } => {
                let rest = forest.drop_first();
                lemma_size(children, rest);
                law_entities_are_rebuilt_in_tree_order(children + rest);
                lemma_tree_order(children, rest);
                assert(rebuilding_order(forest) =~= tree_order(forest));
            },
        }
    }
}

/// The entity that a step is about, if it is one of the first two steps for an entity.
pub open spec fn entity_at(step: SyncStep) -> Option<u64> {
    match step {
        SyncStep::Spawning { game } => Some(game),
        SyncStep::Listing { game, .. } => Some(game),
        _ => None,
    }
}

/// While the pending entities are the tops of some trees, the next entity is the next one in the
/// order of the trees. If it then tells its children, the pending entities are again the tops of
/// the trees that are left: those of the children, and the others.
pub proof fn law_pending_entities_follow_the_trees(
    map: Map<u64, u64>,
    forest: Seq<EntityTree>,
    pending_after: Seq<u64>,
    step_after: SyncStep,
    action: SyncAction,
)
    requires
        forest.len() > 0,
        goes_on(map, roots(forest), pending_after, step_after, action),
    ensures
        match forest[0] {
            EntityTree::Node { entity, children } => {
                let left = children + forest.drop_first();
                &&& entity_at(step_after) == Some(entity)
                &&& roots(children) + pending_after == roots(left)
                &&& tree_order(forest) == seq![entity] + tree_order(left)
            },
        },
{
    match forest[0] {
        EntityTree::Node { entity, children } => {
            let rest = forest.drop_first();
            assert(roots(children) + roots(forest).drop_first() =~= roots(children + rest));
            lemma_tree_order(children, rest);
            assert(tree_order(forest) =~= seq![entity] + tree_order(children + rest));
        },
    }
}

/// A run of rebuilding: each event is one that can come, and leads from one state to the next.
pub open spec fn is_run(
    paths: RelationPaths,
    states: Seq<SyncState>,
    events: Seq<SyncEvent>,
    actions: Seq<SyncAction>,
) -> bool {
    &&& states.len() == events.len() + 1
    &&& actions.len() == events.len()
    &&& states[0].step == SyncStep::Starting
    &&& forall|i: int|
        #![trigger events[i]]
        0 <= i < events.len() ==> can_follow(states[i].step, events[i]) && moves(
            paths,
            states[i],
            events[i],
            states[i + 1],
            actions[i],
        )
}

/// The event has the children of an entity taken in, and this is one of them.
pub open spec fn brings_child(state: SyncState, event: SyncEvent, child: u64) -> bool {
    &&& event == SyncEvent::Written
    &&& text_view(state.step->Writing_children) is Some
    &&& children_told(text_view(state.step->Writing_children)->0) is Some
    &&& children_told(text_view(state.step->Writing_children)->0)->0.contains(child)
}

/// The entity was to be rebuilt from the start, or is a child that came with one of the first
/// events.
pub open spec fn is_due(
    states: Seq<SyncState>,
    events: Seq<SyncEvent>,
    count: int,
    game: u64,
) -> bool {
    ||| states[0].pending.contains(game)
    ||| exists|i: int| 0 <= i < count && #[trigger] brings_child(states[i], events[i], game)
}

/// The entity is still to come, or its counterpart is being spawned.
pub open spec fn is_waiting(state: SyncState, game: u64) -> bool {
    state.pending.contains(game) || state.step == SyncStep::Spawning { game }
}

/// The game was asked for the components of the entity by one of the first actions.
pub open spec fn was_asked(actions: Seq<SyncAction>, count: int, game: u64) -> bool {
    exists|i: int| 0 <= i < count && #[trigger] asks_for_components(actions[i], game)
}

/// Going to the next entity loses none of the entities that are still to come, and brings no
/// others.
proof fn lemma_going_on(
    map: Map<u64, u64>,
    pending: Seq<u64>,
    after: SyncState,
    action: SyncAction,
    game: u64,
)
    requires
        goes_on(map, pending, after.pending, after.step, action),
    ensures
        pending.contains(game) <==> is_waiting(after, game) || (pending.len() > 0 && game
            == pending[0] && asks_for_components(action, game)),
        pending.contains(game) && !is_waiting(after, game) ==> map.dom().contains(game),
{
    if pending.len() > 0 {
        let rest = pending.drop_first();
        if pending.contains(game) && game != pending[0] {
            let i = choose|i: int| 0 <= i < pending.len() && pending[i] == game;
            assert(rest[i - 1] == game);
        }
        if rest.contains(game) {
            let i = choose|i: int| 0 <= i < rest.len() && rest[i] == game;
            assert(pending[i + 1] == game);
        }
    }
}

/// One move loses none of the entities that are still to come, and brings no others than the
/// children that were told.
proof fn lemma_move(
    paths: RelationPaths,
    before: SyncState,
    event: SyncEvent,
    after: SyncState,
    action: SyncAction,
    game: u64,
)
    requires
        can_follow(before.step, event),
        moves(paths, before, event, after, action),
        before.step is Spawning ==> !before.map.dom().contains(before.step->Spawning_game),
    ensures
        after.step is Spawning ==> !after.map.dom().contains(after.step->Spawning_game),
        before.map.submap_of(after.map),
        is_waiting(after, game) || after.map.dom().contains(game) <==> is_waiting(before, game)
            || before.map.dom().contains(game) || brings_child(before, event, game),
        is_waiting(before, game) || brings_child(before, event, game) ==> is_waiting(after, game)
            || asks_for_components(action, game),
        after.step == SyncStep::Finished ==> after.pending.len() == 0,
{
    match event {
        SyncEvent::Start => {
            lemma_going_on(before.map, before.pending, after, action, game);
        },
        SyncEvent::Written => match text_view(before.step->Writing_children) {
            None => {
                lemma_going_on(before.map, before.pending, after, action, game);
            },
            Some(text) => match children_told(text) {
                None => {},
                Some(children) => {
                    let pending = children + before.pending;
                    lemma_going_on(before.map, pending, after, action, game);
                    if children.contains(game) {
                        let i = choose|i: int| 0 <= i < children.len() && children[i] == game;
                        assert(pending[i] == game);
                    }
                    if before.pending.contains(game) {
                        let i = choose|i: int|
                            0 <= i < before.pending.len() && before.pending[i] == game;
                        assert(pending[children.len() + i] == game);
                    }
                    if pending.contains(game) {
                        let i = choose|i: int| 0 <= i < pending.len() && pending[i] == game;
                        if i < children.len() {
                            assert(children[i] == game);
                        } else {
                            assert(before.pending[i - children.len()] == game);
                        }
                    }
                },
            },
        },
        _ => {},
    }
}

/// After the first few events of a run, the entities that have a counterpart or wait for one are
/// those that had one from the start, and those that were due since.
proof fn lemma_run(
    paths: RelationPaths,
    states: Seq<SyncState>,
    events: Seq<SyncEvent>,
    actions: Seq<SyncAction>,
    count: int,
    game: u64,
)
    requires
        is_run(paths, states, events, actions),
        0 <= count <= events.len(),
    ensures
        ({
            let state = states[count];
            &&& state.step is Spawning ==> !state.map.dom().contains(state.step->Spawning_game)
            &&& states[0].map.submap_of(state.map)
            &&& is_waiting(state, game) || state.map.dom().contains(game)
                <==> states[0].map.dom().contains(game) || is_due(states, events, count, game)
            &&& is_due(states, events, count, game) ==> is_waiting(state, game) || was_asked(
                actions,
                count,
                game,
            )
            &&& state.step == SyncStep::Finished ==> state.pending.len() == 0
        }),
    decreases count,
{
    if count > 0 {
        let last = count - 1;
        lemma_run(paths, states, events, actions, last, game);
        assert(can_follow(states[last].step, events[last]));
        lemma_move(paths, states[last], events[last], states[count], actions[last], game);
        assert(is_due(states, events, count, game) <==> is_due(states, events, last, game)
            || brings_child(states[last], events[last], game));
        if was_asked(actions, last, game) {
            let i = choose|i: int|
                0 <= i < last && #[trigger] asks_for_components(actions[i], game);
            assert(asks_for_components(actions[i], game));
        }
    }
}

/// Rebuilding that came to its end is complete: exactly the entities that had a counterpart before,
/// those that the game told, and the children of those, have a counterpart now. Of each entity that
/// the game told, and of each child, the components were asked for. No counterpart from earlier has
/// changed.
pub proof fn law_finished_rebuilding_is_complete(
    paths: RelationPaths,
    states: Seq<SyncState>,
    events: Seq<SyncEvent>,
    actions: Seq<SyncAction>,
)
    requires
        is_run(paths, states, events, actions),
        states.last().step == SyncStep::Finished,
    ensures
        states[0].map.submap_of(states.last().map),
        forall|game: u64|
            #![trigger states.last().map.dom().contains(game)]
            states.last().map.dom().contains(game) <==> states[0].map.dom().contains(game)
                || is_due(states, events, events.len() as int, game),
        forall|game: u64|
            #![trigger is_due(states, events, events.len() as int, game)]
            is_due(states, events, events.len() as int, game) ==> was_asked(
                actions,
                actions.len() as int,
                game,
            ),
{
    let count = events.len() as int;
    lemma_run(paths, states, events, actions, count, 0);
    assert forall|game: u64| #![trigger states.last().map.dom().contains(game)]
        states.last().map.dom().contains(game) <==> states[0].map.dom().contains(game) || is_due(
            states,
            events,
            count,
            game,
        ) by {
        lemma_run(paths, states, events, actions, count, game);
    }
    assert forall|game: u64| is_due(states, events, count, game) implies #[trigger] was_asked(
        actions,
        count,
        game,
    ) by {
        lemma_run(paths, states, events, actions, count, game);
    }
}

/// As long as each spawned entity is a new one, no two entities of the game share a counterpart at
/// any point of a run, if none did before.
pub proof fn law_run_keeps_counterparts_distinct(
    paths: RelationPaths,
    states: Seq<SyncState>,
    events: Seq<SyncEvent>,
    actions: Seq<SyncAction>,
    count: int,
)
    requires
        is_run(paths, states, events, actions),
        0 <= count <= events.len(),
        states[0].map.is_injective(),
        forall|i: int, game: u64|
            #![trigger events[i], states[i].map.dom().contains(game)]
            0 <= i < events.len() && events[i] is Spawned && states[i].map.dom().contains(game)
                ==> states[i].map[game] != events[i]->Spawned_editor,
    ensures
        states[count].map.is_injective(),
    decreases count,
{
    if count > 0 {
        let last = count - 1;
        law_run_keeps_counterparts_distinct(paths, states, events, actions, last);
        if events[last] is Spawned {
            law_counterparts_stay_distinct(
                states[last].map,
                states[last].step->Spawning_game,
                events[last]->Spawned_editor,
            );
        }
    }
}

/// The component says how entities belong together.
pub open spec fn is_relation(component: Component, paths: RelationPaths) -> bool {
    ||| component.path@ == paths.children@
    ||| component.path@ == paths.child_of@
    ||| component.path@ == paths.scene_info@
}

/// The components that were told, without those that say how entities belong together, in the order
/// in which they were told.
pub open spec fn without_relations(
    told: Seq<Component>,
    paths: RelationPaths,
) -> Seq<Component> {
    told.filter(|component: Component| !is_relation(component, paths))
}

proof fn lemma_kept(told: Seq<Component>, paths: RelationPaths)
    ensures
        kept(told, paths) == without_relations(told, paths),
    decreases told.len(),
{
    reveal(Seq::filter);
    if told.len() > 0 {
        lemma_kept(told.drop_last(), paths);
    }
}

/// The value that is found under a path is that of the last component with the path. Where no
/// component has the path, there is none.
pub proof fn law_value_is_that_of_the_last_component(
    components: Seq<Component>,
    path: Seq<char>,
    i: int,
)
    ensures
        (forall|j: int| 0 <= j < components.len() ==> (#[trigger] components[j]).path@ != path)
            ==> value_of(components, path) is None,
        0 <= i < components.len() && components[i].path@ == path && (forall|j: int|
            i < j < components.len() ==> (#[trigger] components[j]).path@ != path) ==> value_of(
            components,
            path,
        ) == Some(components[i].json@),
    decreases components.len(),
{
    if components.len() > 0 {
        let rest = components.drop_last();
        law_value_is_that_of_the_last_component(rest, path, i);
        assert(components[components.len() - 1] == components.last());
        assert(forall|j: int| 0 <= j < rest.len() ==> #[trigger] rest[j] == components[j]);
    }
}

/// Nothing comes after a failure, nor after the end.
proof fn lemma_run_goes_on(
    paths: RelationPaths,
    states: Seq<SyncState>,
    events: Seq<SyncEvent>,
    actions: Seq<SyncAction>,
    i: int,
)
    requires
        is_run(paths, states, events, actions),
        states.last().step == SyncStep::Finished,
        0 <= i < states.len(),
        !(states[i].step is Finished),
    ensures
        i < events.len(),
        !(states[i].step is Failed),
        can_follow(states[i].step, events[i]),
        moves(paths, states[i], events[i], states[i + 1], actions[i]),
{
    if i < events.len() {
        assert(can_follow(states[i].step, events[i]));
    }
}

/// No counterpart changes or is lost in a run.
proof fn lemma_counterparts_stay(
    paths: RelationPaths,
    states: Seq<SyncState>,
    events: Seq<SyncEvent>,
    actions: Seq<SyncAction>,
    from: int,
    to: int,
)
    requires
        is_run(paths, states, events, actions),
        0 <= from <= to <= events.len(),
    ensures
        states[from].map.submap_of(states[to].map),
    decreases to - from,
{
    if from < to {
        lemma_counterparts_stay(paths, states, events, actions, from, to - 1);
        lemma_run(paths, states, events, actions, to - 1, 0);
        assert(can_follow(states[to - 1].step, events[to - 1]));
        lemma_move(
            paths,
            states[to - 1],
            events[to - 1],
            states[to],
            actions[to - 1],
            0,
        );
    }
}

/// Components come in only for an entity that was asked for, and whose counterpart is the one that
/// the step names.
proof fn lemma_got(
    paths: RelationPaths,
    states: Seq<SyncState>,
    events: Seq<SyncEvent>,
    actions: Seq<SyncAction>,
    i: int,
)
    requires
        is_run(paths, states, events, actions),
        states.last().step == SyncStep::Finished,
        0 <= i < events.len(),
        events[i] is Got,
    ensures
        i >= 2,
        events[i - 1] is Listed,
        states[i - 1].step is Listing,
        actions[i - 1] == (SyncAction::Ask {
            request: BrpRequest::GetComponents {
                entity: states[i - 1].step->Listing_game,
                components: events[i - 1]->Listed_paths,
                strict: false,
            },
        }),
        asks_for_components(actions[i - 2], states[i - 1].step->Listing_game),
        states[i].step is Getting,
        states.last().map.dom().contains(states[i - 1].step->Listing_game),
        states.last().map[states[i - 1].step->Listing_game] == states[i].step->Getting_editor,
{
    assert(can_follow(states[i].step, events[i]));
    assert(i >= 1);
    assert(can_follow(states[i - 1].step, events[i - 1]));
    assert(moves(paths, states[i - 1], events[i - 1], states[i], actions[i - 1]));
    assert(events[i - 1] is Listed);
    assert(i >= 2);
    assert(can_follow(states[i - 2].step, events[i - 2]));
    assert(moves(paths, states[i - 2], events[i - 2], states[i - 1], actions[i - 2]));
    let game = states[i - 1].step->Listing_game;
    assert(states[i - 1].map.dom().contains(game));
    assert(states[i - 1].map[game] == states[i - 1].step->Listing_editor);
    lemma_counterparts_stay(paths, states, events, actions, i - 1, events.len() as int);
}

/// The action is the one that gives an entity its components: all that were told, in order, without
/// those that say how entities belong together.
pub open spec fn gives_components(
    action: SyncAction,
    editor: u64,
    told: Seq<Component>,
    paths: RelationPaths,
) -> bool {
    &&& action is Write
    &&& action->Write_entity == editor
    &&& action->Write_components@ == without_relations(told, paths)
}

/// In a run that came to its end, the components that the game told of an entity are those of the
/// entity that it was asked about, and the next thing that is written is exactly those components,
/// without the ones that say how entities belong together, to the counterpart of that entity. So it
/// is for every entity. If it has a parent, it is made a child of the parent's counterpart right
/// before; if not, nothing comes before the writing.
pub proof fn law_told_components_are_written(
    paths: RelationPaths,
    states: Seq<SyncState>,
    events: Seq<SyncEvent>,
    actions: Seq<SyncAction>,
    i: int,
)
    requires
        is_run(paths, states, events, actions),
        states.last().step == SyncStep::Finished,
        0 <= i < events.len(),
        events[i] is Got,
    ensures
        events[i]->Got_components is Some,
        i > 0,
        actions[i - 1] is Ask,
        actions[i - 1]->Ask_request is GetComponents,
        actions[i - 1]->Ask_request->GetComponents_strict == false,
        events[i - 1] is Listed,
        actions[i - 1]->Ask_request->GetComponents_components == events[i - 1]->Listed_paths,
        ({
            let game = actions[i - 1]->Ask_request->GetComponents_entity;
            let map = states.last().map;
            let told = events[i]->Got_components->0@;
            let parent = value_of(told, paths.child_of@);
            &&& map.dom().contains(game)
            &&& parent is None ==> gives_components(actions[i], map[game], told, paths)
            &&& parent is Some ==> {
                let number = json_number(parent->0);
                &&& number is Some
                &&& map.dom().contains(number->0)
                &&& actions[i] == SyncAction::AddChild { parent: map[number->0], child: map[game] }
                &&& i + 1 < actions.len()
                &&& events[i + 1] is ChildAdded
                &&& gives_components(actions[i + 1], map[game], told, paths)
            }
        }),
{
    lemma_got(paths, states, events, actions, i);
    assert(moves(paths, states[i], events[i], states[i + 1], actions[i]));
    lemma_run_goes_on(paths, states, events, actions, i + 1);
    let told = events[i]->Got_components->0@;
    lemma_kept(told, paths);
    lemma_counterparts_stay(paths, states, events, actions, i, events.len() as int);
    if value_of(told, paths.child_of@) is Some {
        assert(states[i + 1].step is Attaching);
        assert(events[i + 1] is ChildAdded);
    }
}

/// In a run that came to its end, each child that the game told of an entity has a counterpart, and
/// its components were asked for as well. What the game tells as children is a list of entities.
pub proof fn law_told_children_are_rebuilt(
    paths: RelationPaths,
    states: Seq<SyncState>,
    events: Seq<SyncEvent>,
    actions: Seq<SyncAction>,
    i: int,
    text: Seq<char>,
    k: int,
)
    requires
        is_run(paths, states, events, actions),
        states.last().step == SyncStep::Finished,
        0 <= i < events.len(),
        events[i] is Got,
        value_of(events[i]->Got_components->0@, paths.children@) == Some(text),
    ensures
        json_numbers(text) is Some,
        0 <= k < json_numbers(text)->0.len() ==> {
            let child = json_numbers(text)->0[k];
            &&& child % 0x1_0000_0000 != 0
            &&& states.last().map.dom().contains(child)
            &&& was_asked(actions, actions.len() as int, child)
        },
{
    law_told_components_are_written(paths, states, events, actions, i);
    assert(can_follow(states[i].step, events[i]));
    assert(moves(paths, states[i], events[i], states[i + 1], actions[i]));
    let told = events[i]->Got_components->0@;
    let written = if value_of(told, paths.child_of@) is Some {
        i + 2
    } else {
        i + 1
    };
    if value_of(told, paths.child_of@) is Some {
        assert(can_follow(states[i + 1].step, events[i + 1]));
        assert(moves(paths, states[i + 1], events[i + 1], states[i + 2], actions[i + 1]));
    }
    assert(states[written].step is Writing);
    assert(text_view(states[written].step->Writing_children) == Some(text));
    lemma_run_goes_on(paths, states, events, actions, written);
    lemma_run_goes_on_to(paths, states, events, actions, written + 1);
    assert(events[written] is Written);
    assert(children_told(text) is Some);
    law_finished_rebuilding_is_complete(paths, states, events, actions);
    let list = json_numbers(text)->0;
    if 0 <= k < list.len() {
        assert(is_entity(list[k]));
        assert(list.contains(list[k]));
        assert(brings_child(states[written], events[written], list[k]));
        assert(is_due(states, events, events.len() as int, list[k]));
        assert(states.last().map.dom().contains(list[k]));
    }
}

/// A run that came to its end has not failed at any point.
proof fn lemma_run_goes_on_to(
    paths: RelationPaths,
    states: Seq<SyncState>,
    events: Seq<SyncEvent>,
    actions: Seq<SyncAction>,
    i: int,
)
    requires
        is_run(paths, states, events, actions),
        states.last().step == SyncStep::Finished,
        0 <= i < states.len(),
    ensures
        !(states[i].step is Failed),
{
    if states[i].step is Failed {
        lemma_run_goes_on(paths, states, events, actions, i);
    }
}

/// Once an entity was written, its children come next, in the order in which they were told, and
/// after them what was still to come before. When nothing is left, rebuilding is at its end.
pub proof fn law_children_come_next(
    paths: RelationPaths,
    before: SyncState,
    after: SyncState,
    action: SyncAction,
    children: Seq<u64>,
)
    requires
        before.step is Writing,
        moves(paths, before, SyncEvent::Written, after, action),
        match text_view(before.step->Writing_children) {
            Some(text) => json_numbers(text) == Some(children) && are_entities(children),
            None => children.len() == 0,
        },
    ensures
        after.map == before.map,
        children.len() > 0 ==> {
            &&& entity_at(after.step) == Some(children[0])
            &&& after.pending == children.skip(1) + before.pending
        },
        children.len() == 0 && before.pending.len() > 0 ==> {
            &&& entity_at(after.step) == Some(before.pending[0])
            &&& after.pending == before.pending.skip(1)
        },
        children.len() == 0 && before.pending.len() == 0 ==> {
            &&& after.step == SyncStep::Finished
            &&& action == SyncAction::Finish
        },
{
    let pending = children + before.pending;
    if children.len() == 0 {
        assert(pending =~= before.pending);
        if before.pending.len() > 0 {
            assert(before.pending.drop_first() =~= before.pending.skip(1));
        }
    } else {
        assert(pending.drop_first() =~= children.skip(1) + before.pending);
    }
}

/// What [`EntitySync::advance`] does with the counterparts: it adds the one that was just spawned, for
/// the entity that it was spawned for, and changes no other. An entity is spawned only if it has no
/// counterpart. As soon as it has one, the game is asked what components it has.
pub proof fn law_spawned_entity_is_the_counterpart(
    sync: &mut EntitySync,
    event: SyncEvent,
    paths: &RelationPaths,
    action: SyncAction,
)
    requires
        call_ensures(EntitySync::advance, (sync, event, paths), action),
        old(sync).wf(),
        can_follow(old(sync).step, event),
    ensures
        event is Spawned ==> {
            let game = old(sync).step->Spawning_game;
            &&& final(sync).entities_map@ == old(sync).entities_map@.insert(
                game,
                event->Spawned_editor,
            )
            &&& final(sync).pending@ == old(sync).pending@
            &&& action is Ask
            &&& action->Ask_request is ListComponents
            &&& action->Ask_request->ListComponents_entity == game
        },
        !(event is Spawned) ==> final(sync).entities_map@ == old(sync).entities_map@,
        action is Spawn ==> {
            &&& final(sync).step is Spawning
            &&& !final(sync).entities_map@.dom().contains(final(sync).step->Spawning_game)
        },
        action is Ask && action->Ask_request is ListComponents ==> {
            let game = action->Ask_request->ListComponents_entity;
            &&& final(sync).step is Listing
            &&& final(sync).step->Listing_game == game
            &&& final(sync).entities_map@.dom().contains(game)
            &&& final(sync).step->Listing_editor == final(sync).entities_map@[game]
        },
        event is Start ==> (action is Finish <==> old(sync).pending@.len() == 0),
        event is Start && old(sync).pending@.len() > 0 ==> {
            &&& entity_at(final(sync).step) == Some(old(sync).pending@[0])
            &&& final(sync).pending@ == old(sync).pending@.skip(1)
        },
{
    if event is Start && old(sync).pending@.len() > 0 {
        assert(old(sync).pending@.drop_first() =~= old(sync).pending@.skip(1));
    }
}

/// Rebuilding fails only on what makes no sense: an answer that is strict, a parent that is no entity
/// or has no counterpart, and children that are no list of entities. Each is told apart from the
/// others.
pub proof fn law_rebuilding_fails_on_what_makes_no_sense(
    sync: &mut EntitySync,
    event: SyncEvent,
    paths: &RelationPaths,
    action: SyncAction,
)
    requires
        call_ensures(EntitySync::advance, (sync, event, paths), action),
        old(sync).wf(),
        can_follow(old(sync).step, event),
    ensures
        ({
            let told = event->Got_components->0@;
            let parent = value_of(told, paths.child_of@);
            let number = json_number(parent->0);
            let children = text_view(old(sync).step->Writing_children);
            let strict = event is Got && event->Got_components is None;
            let has_parent = event is Got && event->Got_components is Some && parent is Some;
            let no_parent = has_parent && (number is None || number->0 % 0x1_0000_0000 == 0);
            let unknown_parent = has_parent && !no_parent && !old(
                sync,
            ).entities_map@.dom().contains(number->0);
            let no_children = event is Written && children is Some && (json_numbers(
                children->0,
            ) is None || !are_entities(json_numbers(children->0)->0));
            &&& action is Fail <==> strict || no_parent || unknown_parent || no_children
            &&& strict ==> action->Fail_error == SyncError::NotLenient
            &&& no_parent ==> action->Fail_error == SyncError::MalformedParent
            &&& unknown_parent ==> action->Fail_error == SyncError::UnknownParent(number->0)
            &&& no_children ==> action->Fail_error == SyncError::MalformedChildren
            &&& action is Fail <==> final(sync).step is Failed
            &&& action is Fail ==> final(sync).step->Failed_error == action->Fail_error
            &&& action is Fail ==> final(sync).pending@ == old(sync).pending@
            &&& action is Finish <==> final(sync).step is Finished
        }),
{
}

/// The numbers are entities if the lower half of each is not zero.
pub proof fn law_entities_have_an_index(numbers: Seq<u64>)
    ensures
        are_entities(numbers) <==> forall|i: int|
            0 <= i < numbers.len() ==> #[trigger] numbers[i] % 0x1_0000_0000 != 0,
{
    if are_entities(numbers) {
        assert forall|i: int| 0 <= i < numbers.len() implies #[trigger] numbers[i] % 0x1_0000_0000
            != 0 by {
            assert(is_entity(numbers[i]));
        }
    }
}

/// What is found of a parent and of children that were told as numbers: the counterpart of the
/// parent, and the very list of children, as long as all of them are entities.
pub proof fn law_relatives_are_found(
    number: Option<u64>,
    map: &EntityMap<u64>,
    parent: Result<u64, SyncError>,
    numbers: Option<Vec<u64>>,
    children: Option<Vec<u64>>,
)
    requires
        call_ensures(find_parent, (number, map), parent),
        call_ensures(check_children, (numbers,), children),
    ensures
        parent is Ok <==> number is Some && number->0 % 0x1_0000_0000 != 0
            && map@.dom().contains(number->0),
        parent is Ok ==> parent->Ok_0 == map@[number->0],
        parent is Err ==> parent->Err_0 == (if number is Some && number->0 % 0x1_0000_0000 != 0 {
            SyncError::UnknownParent(number->0)
        } else {
            SyncError::MalformedParent
        }),
        children is Some ==> children == numbers,
        children is None <==> numbers is None || !are_entities(numbers->0@),
{
}

/// Taking components apart loses nothing: the children and the parent are the texts that were told of
/// them, and the rest is all components but those that say how entities belong together.
pub proof fn law_components_are_taken_apart(
    components: Vec<Component>,
    paths: &RelationPaths,
    parts: (Option<String>, Option<String>, Vec<Component>),
)
    requires
        call_ensures(take_apart, (components, paths), parts),
    ensures
        parts.2@ == without_relations(components@, *paths),
        parts.0 is Some <==> value_of(components@, paths.children@) is Some,
        parts.0 is Some ==> value_of(components@, paths.children@) == Some(parts.0->0@),
        parts.1 is Some <==> value_of(components@, paths.child_of@) is Some,
        parts.1 is Some ==> value_of(components@, paths.child_of@) == Some(parts.1->0@),
{
    lemma_kept(components@, *paths);
}

/// The game is asked, without insisting, for the entities that have the marking component. Rebuilding
/// starts with all entities that it told, in their order, and with the counterparts from earlier. To
/// reset the scene, each of them is despawned, once and in order.
pub proof fn law_marked_entities_are_rebuilt_or_reset(
    type_path: String,
    request: BrpRequest,
    rows: Vec<u64>,
    entities_map: EntityMap<u64>,
    sync: EntitySync,
    other_rows: &Vec<u64>,
    requests: Vec<BrpRequest>,
)
    requires
        call_ensures(marked_entities, (type_path,), request),
        call_ensures(spawn_editor_sync, (rows, entities_map), sync),
        call_ensures(reset_scene, (other_rows,), requests),
    ensures
        request is Query,
        request->Query_with@.len() == 1,
        request->Query_with@[0]@ == type_path@,
        !request->Query_strict,
        sync.pending@ == rows@,
        sync.entities_map@ == entities_map@,
        sync.step is Starting,
        requests@.len() == other_rows@.len(),
        forall|i: int|
            #![trigger requests@[i]]
            0 <= i < requests@.len() ==> requests@[i] is Despawn && requests@[i]->Despawn_entity
                == other_rows@[i],
{
}

/// The way back leads from every counterpart, and from nothing else, to an entity whose counterpart
/// it is.
pub proof fn law_way_back_starts_at_the_counterparts(
    map: &EntityMap<u64>,
    reverse: EntityMap<u64>,
    editor: u64,
)
    requires
        call_ensures(reverse_entities_map, (map,), reverse),
    ensures
        reverse@.dom().contains(editor) <==> exists|game: u64| #[trigger]
            map@.dom().contains(game) && map@[game] == editor,
        reverse@.dom().contains(editor) ==> map@.dom().contains(reverse@[editor])
            && map@[reverse@[editor]] == editor,
{
    assert(leads_back(map@, reverse@));
}

/// Every action but the last one can be answered by what comes of it, whatever that is, and nothing
/// else can come.
pub proof fn law_every_action_can_be_answered(
    paths: RelationPaths,
    before: SyncState,
    event: SyncEvent,
    after: SyncState,
    action: SyncAction,
    answer: SyncEvent,
)
    requires
        can_follow(before.step, event),
        moves(paths, before, event, after, action),
    ensures
        can_follow(after.step, answer) <==> {
            ||| action is Spawn && answer is Spawned
            ||| action is Ask && action->Ask_request is ListComponents && answer is Listed
            ||| action is Ask && action->Ask_request is GetComponents && answer is Got
            ||| action is AddChild && answer is ChildAdded
            ||| action is Write && answer is Written
        },
        can_follow(SyncStep::Starting, answer) <==> answer is Start,
{
}

} // verus!
