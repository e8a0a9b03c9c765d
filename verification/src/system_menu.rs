//! The editor's menu of the systems of a game.

use crate::collections::views;
use crate::game_process::GameProcess;
use crate::messages::{
    toggle_bytes, EditorMsg, MalformedEvent, ReflectedEvent, ToggleSystemEvent,
};
use vstd::prelude::*;

verus! {

/// A system in the menu.
#[derive(Debug)]
pub struct SystemCheckbox {
    pub name: String,
    pub checked: bool,
}

/// The characters of each name.
pub open spec fn captions(menu: Seq<SystemCheckbox>) -> Seq<Seq<char>> {
    menu.map_values(|checkbox: SystemCheckbox| checkbox.name@)
}

/// Whether one text comes before another one in a dictionary that goes by code points, or is the
/// same text.
pub open spec fn no_later(a: Seq<char>, b: Seq<char>) -> bool
    decreases a.len(),
{
    if a.len() == 0 {
        true
    } else if b.len() == 0 {
        false
    } else if a[0] == b[0] {
        no_later(a.drop_first(), b.drop_first())
    } else {
        (a[0] as u32) < (b[0] as u32)
    }
}

/// The texts are in dictionary order.
pub open spec fn in_order(texts: Seq<Seq<char>>) -> bool {
    forall|i: int, j: int|
        0 <= i <= j < texts.len() ==> no_later(#[trigger] texts[i], #[trigger] texts[j])
}

/// `sort_unstable` of a slice of strings. Strings are ordered by their code points, one after the
/// other. The same strings are there afterwards.
#[verifier::external_body]
fn sort_names(names: &mut Vec<String>)
    ensures
        views(final(names)@).to_multiset() == views(old(names)@).to_multiset(),
        in_order(views(final(names)@)),
{
    names.sort_unstable();
}

/// The menu: every system of the game once, in dictionary order, all of them checked.
pub fn system_menu(game: &GameProcess) -> (menu: Vec<SystemCheckbox>)
    requires
        game.wf(),
    ensures
        captions(menu@).no_duplicates(),
        captions(menu@).to_set() == game.systems@.dom(),
        in_order(captions(menu@)),
        forall|i: int| 0 <= i < menu@.len() ==> (#[trigger] menu@[i]).checked,
{
    let mut names = game.systems.names();
    let ghost found = views(names@);
    sort_names(&mut names);
    let ghost sorted = names@;
    proof {
        found.lemma_multiset_has_no_duplicates();
        views(sorted).lemma_multiset_has_no_duplicates_conv();
        found.to_multiset_ensures();
        views(sorted).to_multiset_ensures();
        assert forall|name: Seq<char>| views(sorted).to_set().contains(name)
            <==> found.to_set().contains(name) by {
            assert(views(sorted).to_multiset().count(name) == found.to_multiset().count(name));
        }
        assert(views(sorted).to_set() =~= found.to_set());
    }
    let mut menu: Vec<SystemCheckbox> = Vec::new();
    let ghost mut done: int = 0;
    for name in it: names
        invariant
            it.seq() == sorted,
            done == it.index(),
            menu@.len() == done,
            forall|i: int|
                0 <= i < done ==> (#[trigger] menu@[i]).checked && menu@[i].name == sorted[i],
    {
        menu.push(SystemCheckbox { name, checked: true });
        proof {
            done = done + 1;
        }
    }
    assert(captions(menu@) =~= views(sorted));
    menu
}

/// Switches a system: its checkbox follows, and the game is told.
pub fn toggle_system(
    game: &mut GameProcess,
    checkbox: &mut SystemCheckbox,
    value: bool,
    type_path: String,
)
    ensures
        final(checkbox).name == old(checkbox).name,
        final(checkbox).checked == value,
        final(game).msg_queue == old(game).msg_queue,
        final(game).systems == old(game).systems,
        final(game).to_game@.len() == old(game).to_game@.len() + 1,
        final(game).to_game@.drop_last() == old(game).to_game@,
        is_toggle(final(game).to_game@.last(), type_path@, old(checkbox).name@, value),
{
    checkbox.checked = value;
    let event = ToggleSystemEvent { name: checkbox.name.clone(), state: value };
    let data = event.encode();
    game.trigger(ReflectedEvent::from_event(type_path, data));
    assert(game.to_game@.drop_last() =~= old(game).to_game@);
}

/// The message carries the wish to switch a system.
pub open spec fn is_toggle(
    msg: EditorMsg,
    type_path: Seq<char>,
    name: Seq<char>,
    state: bool,
) -> bool {
    match msg {
        EditorMsg::ReflectedEvent(event) => {
            &&& event.type_path() == type_path
            &&& event.payload() == toggle_bytes(name, state)
        },
        _ => false,
    }
}

/// Two texts of which neither is later are the same.
proof fn lemma_no_later_both_ways(a: Seq<char>, b: Seq<char>)
    requires
        no_later(a, b),
        no_later(b, a),
    ensures
        a == b,
    decreases a.len(),
{
    if a.len() > 0 && b.len() > 0 {
        lemma_no_later_both_ways(a.drop_first(), b.drop_first());
        assert(a =~= seq![a[0]] + a.drop_first());
        assert(b =~= seq![b[0]] + b.drop_first());
    } else {
        assert(a =~= b);
    }
}

/// The order of the menu does not depend on the order in which the systems became known: there is
/// only one way to list the same names in dictionary order.
pub proof fn law_menu_order_is_fixed(a: Seq<Seq<char>>, b: Seq<Seq<char>>)
    requires
        a.no_duplicates(),
        b.no_duplicates(),
        in_order(a),
        in_order(b),
        a.to_set() == b.to_set(),
    ensures
        a == b,
    decreases a.len(),
{
    if a.len() == 0 {
        assert(b.len() == 0) by {
            if b.len() > 0 {
                assert(b.to_set().contains(b[0]));
            }
        }
        assert(a =~= b);
    } else {
        assert(b.to_set().contains(a[0]));
        let k = choose|k: int| 0 <= k < b.len() && b[k] == a[0];
        assert(a.to_set().contains(b[0]));
        let m = choose|m: int| 0 <= m < a.len() && a[m] == b[0];
        assert(no_later(a[0], a[m]));
        assert(no_later(b[0], b[k]));
        lemma_no_later_both_ways(a[0], b[0]);
        let rest_a = a.drop_first();
        let rest_b = b.drop_first();
        assert forall|name: Seq<char>| rest_a.to_set().contains(name) <==> rest_b.to_set().contains(
            name,
        ) by {
            if rest_a.contains(name) {
                let i = choose|i: int| 0 <= i < rest_a.len() && rest_a[i] == name;
                assert(a[i + 1] == name);
                assert(b.to_set().contains(name));
                let j = choose|j: int| 0 <= j < b.len() && b[j] == name;
                assert(rest_b[j - 1] == name);
            }
            if rest_b.contains(name) {
                let i = choose|i: int| 0 <= i < rest_b.len() && rest_b[i] == name;
                assert(b[i + 1] == name);
                assert(a.to_set().contains(name));
                let j = choose|j: int| 0 <= j < a.len() && a[j] == name;
                assert(rest_a[j - 1] == name);
            }
        }
        assert(rest_a.to_set() =~= rest_b.to_set());
        assert(in_order(rest_a));
        assert(in_order(rest_b));
        law_menu_order_is_fixed(rest_a, rest_b);
        assert(a =~= seq![a[0]] + rest_a);
        assert(b =~= seq![b[0]] + rest_b);
    }
}

/// The menu has one checkbox for each system that the game announced, and for nothing else. All of
/// them are checked.
pub proof fn law_menu_shows_each_system_once(
    game: &GameProcess,
    menu: Vec<SystemCheckbox>,
    name: Seq<char>,
)
    requires
        call_ensures(system_menu, (game,), menu),
    ensures
        game.systems@.dom().contains(name) <==> exists|i: int|
            0 <= i < menu@.len() && (#[trigger] menu@[i]).name@ == name,
        forall|i: int, j: int|
            0 <= i < j < menu@.len() ==> (#[trigger] menu@[i]).name@ != (#[trigger] menu@[j]).name@,
        forall|i: int, j: int|
            0 <= i < j < menu@.len() ==> no_later(
                (#[trigger] menu@[i]).name@,
                (#[trigger] menu@[j]).name@,
            ),
        forall|i: int| 0 <= i < menu@.len() ==> (#[trigger] menu@[i]).checked,
{
    let names = captions(menu@);
    assert forall|i: int| 0 <= i < menu@.len() implies names[i] == (#[trigger] menu@[i]).name@ by {}
    if game.systems@.dom().contains(name) {
        assert(names.to_set().contains(name));
        let i = choose|i: int| 0 <= i < names.len() && names[i] == name;
        assert(menu@[i].name@ == name);
    }
    if exists|i: int| 0 <= i < menu@.len() && (#[trigger] menu@[i]).name@ == name {
        let i = choose|i: int| 0 <= i < menu@.len() && (#[trigger] menu@[i]).name@ == name;
        assert(names[i] == name);
        assert(names.to_set().contains(name));
    }
    assert forall|i: int, j: int| 0 <= i < j < menu@.len() implies (#[trigger] menu@[i]).name@ != (
    #[trigger] menu@[j]).name@ && no_later(menu@[i].name@, menu@[j].name@) by {
        assert(names[i] != names[j]);
        assert(no_later(names[i], names[j]));
    }
}

/// In a dictionary the first letter in which two texts differ decides, and a text comes before all
/// that go on from it.
pub proof fn law_first_difference_decides(
    start: Seq<char>,
    a: char,
    rest_of_a: Seq<char>,
    b: char,
    rest_of_b: Seq<char>,
)
    requires
        a != b,
    ensures
        no_later(start + seq![a] + rest_of_a, start + seq![b] + rest_of_b) <==> (a as u32) < (
        b as u32),
        no_later(start, start + rest_of_a),
        no_later(start + rest_of_a, start) ==> rest_of_a.len() == 0,
    decreases start.len(),
{
    let x = start + seq![a] + rest_of_a;
    let y = start + seq![b] + rest_of_b;
    let longer = start + rest_of_a;
    if start.len() > 0 {
        let shorter = start.drop_first();
        law_first_difference_decides(shorter, a, rest_of_a, b, rest_of_b);
        assert(x.drop_first() =~= shorter + seq![a] + rest_of_a);
        assert(y.drop_first() =~= shorter + seq![b] + rest_of_b);
        assert(longer.drop_first() =~= shorter + rest_of_a);
        assert(x[0] == start[0] && y[0] == start[0] && longer[0] == start[0]);
    } else {
        assert(x[0] == a);
        assert(y[0] == b);
    }
}

/// A system that is toggled in the menu has its checkbox follow, and the game is sent one message
/// more. Whoever decodes what the message carries learns the name of the system and how it is to be
/// switched.
pub proof fn law_toggling_tells_the_game(
    game: &mut GameProcess,
    checkbox: &mut SystemCheckbox,
    value: bool,
    type_path: String,
    received: &Vec<u8>,
    decoded: Result<ToggleSystemEvent, MalformedEvent>,
)
    requires
        call_ensures(toggle_system, (game, checkbox, value, type_path), ()),
        final(game).to_game@.last() is ReflectedEvent ==> received@
            == final(game).to_game@.last()->ReflectedEvent_0.payload(),
        call_ensures(ToggleSystemEvent::decode, (received,), decoded),
    ensures
        final(checkbox).checked == value,
        final(checkbox).name == old(checkbox).name,
        final(game).to_game@.len() == old(game).to_game@.len() + 1,
        final(game).to_game@.drop_last() == old(game).to_game@,
        final(game).to_game@.last() is ReflectedEvent,
        final(game).to_game@.last()->ReflectedEvent_0.type_path() == type_path@,
        decoded is Ok,
        decoded->Ok_0.name@ == old(checkbox).name@,
        decoded->Ok_0.state == value,
        final(game).msg_queue == old(game).msg_queue,
        final(game).systems == old(game).systems,
{
}

} // verus!
