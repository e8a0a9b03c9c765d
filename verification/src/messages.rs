//! What the editor and the game say to each other.

use crate::shared_texture::ExternalTextureInfo;
use crate::window_event::WindowEvent;
use vstd::prelude::*;

verus! {

/// Environment variable in which a game finds the name of its editor's server.
pub const EDITOR_SERVER_NAME_VAR: &'static str = "BEVY_EDITOR_SERVER_NAME";

/// An event of any type: the path of its type, and its value as the engine's reflection encodes it.
#[derive(Debug)]
pub struct ReflectedEvent {
    id: String,
    data: Vec<u8>,
}

impl ReflectedEvent {
    /// The path of the event's type.
    pub closed spec fn type_path(&self) -> Seq<char> {
        self.id@
    }

    /// The encoded value.
    pub closed spec fn payload(&self) -> Seq<u8> {
        self.data@
    }

    /// An event, out of the path of its type and its encoded value.
    pub fn from_event(type_path: String, data: Vec<u8>) -> (event: Self)
        ensures
            event.type_path() == type_path@,
            event.payload() == data@,
    {
        ReflectedEvent { id: type_path, data }
    }

    /// The path of the type under which the receiver looks the event up.
    pub fn id(&self) -> (id: &String)
        ensures
            id@ == self.type_path(),
    {
        &self.id
    }

    /// The encoded value.
    pub fn data(&self) -> (data: &Vec<u8>)
        ensures
            data@ == self.payload(),
    {
        &self.data
    }
}

/// The wish to switch a system of the game on or off.
#[derive(Debug)]
pub struct ToggleSystemEvent {
    pub name: String,
    pub state: bool,
}

/// An event that its receiver could not make sense of.
#[derive(Clone, Copy, PartialEq, Eq, Structural, Debug)]
pub struct MalformedEvent;

/// The bytes that a name and a state are encoded as.
pub uninterp spec fn toggle_bytes(name: Seq<char>, state: bool) -> Seq<u8>;

/// The name and the state that bytes are decoded as, if they can be.
pub uninterp spec fn toggle_value(bytes: Seq<u8>) -> Option<(Seq<char>, bool)>;

/// A decoded name and state, the name as its characters.
pub open spec fn toggle_view(decoded: Option<(String, bool)>) -> Option<(Seq<char>, bool)> {
    match decoded {
        Some((name, state)) => Some((name@, state)),
        None => None,
    }
}

/// Where the bytes are those of a name and a state, the event has that name and that state.
pub open spec fn reads_as_written(
    bytes: Seq<u8>,
    event: Result<ToggleSystemEvent, MalformedEvent>,
) -> bool {
    forall|name: Seq<char>, state: bool|
        bytes == #[trigger] toggle_bytes(name, state) ==> event is Ok && event->Ok_0.name@ == name
            && event->Ok_0.state == state
}

/// `postcard::to_allocvec`, for a name and a state. A string and a flag can always be encoded, and
/// the vector that is written to grows as needed, so the call succeeds.
#[verifier::external_body]
fn encode_toggle(name: &String, state: bool) -> (encoded: Option<Vec<u8>>)
    ensures
        encoded is Some,
        encoded->0@ == toggle_bytes(name@, state),
{
    match postcard::to_allocvec(&(name.as_str(), state)) {
        Ok(bytes) => Some(bytes),
        Err(_) => None,
    }
}

/// `postcard::from_bytes`, for a name and a state. It gives back what was encoded.
#[verifier::external_body]
fn decode_toggle(bytes: &Vec<u8>) -> (decoded: Option<(String, bool)>)
    ensures
        toggle_view(decoded) == toggle_value(bytes@),
        forall|name: Seq<char>, state: bool|
            bytes@ == #[trigger] toggle_bytes(name, state) ==> toggle_view(decoded) == Some(
                (name, state),
            ),
{
    match postcard::from_bytes::<(String, bool)>(bytes.as_slice()) {
        Ok(value) => Some(value),
        Err(_) => None,
    }
}

impl ToggleSystemEvent {
    /// Encodes the event for sending it as a [`ReflectedEvent`].
    pub fn encode(&self) -> (bytes: Vec<u8>)
        ensures
            bytes@ == toggle_bytes(self.name@, self.state),
    {
        match encode_toggle(&self.name, self.state) {
            Some(bytes) => bytes,
            None => Vec::new(),
        }
    }

    /// Decodes an event. Whatever was encoded is given back.
    pub fn decode(bytes: &Vec<u8>) -> (event: Result<ToggleSystemEvent, MalformedEvent>)
        ensures
            match toggle_value(bytes@) {
                Some((name, state)) => {
                    &&& event is Ok
                    &&& event->Ok_0.name@ == name
                    &&& event->Ok_0.state == state
                },
                None => event == Err::<ToggleSystemEvent, MalformedEvent>(MalformedEvent),
            },
            reads_as_written(bytes@, event),
    {
        ToggleSystemEvent::from_decoded(decode_toggle(bytes))
    }

    /// The event that a decoded name and state make.
    pub fn from_decoded(decoded: Option<(String, bool)>) -> (event: Result<
        ToggleSystemEvent,
        MalformedEvent,
    >)
        ensures
            event == (match decoded {
                Some((name, state)) => Ok(ToggleSystemEvent { name, state }),
                None => Err(MalformedEvent),
            }),
    {
        match decoded {
            Some((name, state)) => Ok(ToggleSystemEvent { name, state }),
            None => Err(MalformedEvent),
        }
    }
}

/// A message from the editor to the game.
#[derive(Debug)]
pub enum EditorMsg {
    NextFrame,
    Exit,
    Pause,
    Continue,
    WindowEvent(WindowEvent),
    ReflectedEvent(ReflectedEvent),
    ModifySystem { name: String, state: bool },
}

/// A message from the game to the editor. A sender is known by number.
#[derive(Debug)]
pub enum GameMsg {
    Sender(u64),
    Image(ExternalTextureInfo),
    WorldInfo { systems: Vec<String> },
    ReflectedEvent(ReflectedEvent),
}

impl From<ReflectedEvent> for EditorMsg {
    fn from(event: ReflectedEvent) -> (msg: Self) {
        EditorMsg::ReflectedEvent(event)
    }
}

impl vstd::std_specs::convert::FromSpecImpl<ReflectedEvent> for EditorMsg {
    open spec fn obeys_from_spec() -> bool {
        true
    }

    open spec fn from_spec(event: ReflectedEvent) -> Self {
        EditorMsg::ReflectedEvent(event)
    }
}

/// A wish to switch a system that is encoded and decoded again is the same wish.
pub proof fn law_toggle_is_read_as_written(
    event: &ToggleSystemEvent,
    bytes: Vec<u8>,
    received: &Vec<u8>,
    decoded: Result<ToggleSystemEvent, MalformedEvent>,
)
    requires
        call_ensures(ToggleSystemEvent::encode, (event,), bytes),
        received@ == bytes@,
        call_ensures(ToggleSystemEvent::decode, (received,), decoded),
    ensures
        decoded is Ok,
        decoded->Ok_0.name@ == event.name@,
        decoded->Ok_0.state == event.state,
{
}

/// What was decoded makes an event of the same name and state, and what could not be decoded makes
/// none.
pub proof fn law_decoded_toggle(
    decoded: Option<(String, bool)>,
    event: Result<ToggleSystemEvent, MalformedEvent>,
)
    requires
        call_ensures(ToggleSystemEvent::from_decoded, (decoded,), event),
    ensures
        event is Ok <==> decoded is Some,
        event is Ok ==> event->Ok_0.name == (decoded->0).0 && event->Ok_0.state == (decoded->0).1,
{
}

/// An event of any type gives back the path and the value that it was made of.
pub proof fn law_reflected_event_keeps_path_and_value(
    type_path: String,
    data: Vec<u8>,
    event: &ReflectedEvent,
    id: &String,
    value: &Vec<u8>,
)
    requires
        call_ensures(ReflectedEvent::from_event, (type_path, data), *event),
        call_ensures(ReflectedEvent::id, (event,), id),
        call_ensures(ReflectedEvent::data, (event,), value),
    ensures
        id@ == type_path@,
        value@ == data@,
{
}

} // verus!
