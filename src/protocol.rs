//! The messages of the protocol and the JSON this client writes for them.

use vstd::prelude::*;
use vstd::string::*;
use crate::json::{array, json_array, json_member, json_object, json_quoted, member, object, quote};

verus! {

#[verifier::external_type_specification]
#[verifier::external_body]
pub struct ExJsonValue(serde_json::Value);

/// Event tag of the registration request.
pub const REGISTER_EVENT: &'static str = "REGISTER_DATA_LISTENER";

/// Module set this client subscribes to.
pub const SYSTEM_MODULE: &'static str = "system";

/// Response tag of a data update.
pub const DATA_UPDATE: &'static str = "DATA_UPDATE";

/// Response tag of a notification.
pub const NOTIFICATION: &'static str = "NOTIFICATION";

/// Seconds a notification stays up when it names no timeout.
pub const DEFAULT_TIMEOUT_SECS: u64 = 5;

/// A button of a notification: the command it sends, its label, and
/// optional string data, in the order the entries were given.
pub struct Action {
    pub command: String,
    pub label: String,
    pub data: Option<Vec<(String, String)>>,
}

/// A sound played with a notification. `volume` is the JSON number text of
/// the volume, when one was given.
pub struct Audio {
    pub source: String,
    pub volume: Option<String>,
}

/// The payload of a notification message. `timeout` is already a whole
/// number of seconds.
pub struct Notification {
    pub title: String,
    pub message: Option<String>,
    pub icon: Option<String>,
    pub image: Option<String>,
    pub actions: Option<Vec<Action>>,
    pub timeout: Option<u64>,
    pub audio: Option<Audio>,
}

/// The data of the registration request: the modules listened to.
pub struct GetData {
    pub modules: Vec<String>,
}

/// The outbound envelope.
pub struct Request {
    pub id: String,
    pub event: String,
    pub data: GetData,
    pub token: String,
}

/// The inbound envelope. `kind` is the message's `type` tag.
pub struct Response {
    pub id: String,
    pub kind: String,
    pub data: serde_json::Value,
    pub subtype: Option<String>,
    pub message: Option<String>,
    pub module: Option<String>,
}

/// JSON of string entries as an object, in their order.
pub open spec fn entries_json(entries: Seq<(String, String)>) -> Seq<char> {
    json_object(entries.map_values(|e: (String, String)| json_member(e.0@, json_quoted(e.1@))))
}

/// JSON of an action.
pub open spec fn action_json(a: Action) -> Seq<char> {
    json_object(
        seq![
            json_member("command"@, json_quoted(a.command@)),
            json_member("label"@, json_quoted(a.label@)),
            json_member(
                "data"@,
                match a.data {
                    None => "null"@,
                    Some(d) => entries_json(d@),
                },
            ),
        ],
    )
}

/// JSON of a sequence of actions.
pub open spec fn actions_json(actions: Seq<Action>) -> Seq<char> {
    json_array(actions.map_values(|a: Action| action_json(a)))
}

/// JSON of an audio description.
pub open spec fn audio_json(a: Audio) -> Seq<char> {
    json_object(
        seq![
            json_member("source"@, json_quoted(a.source@)),
            json_member(
                "volume"@,
                match a.volume {
                    None => "null"@,
                    Some(v) => v@,
                },
            ),
        ],
    )
}

/// JSON of a request, keys in sorted order.
pub open spec fn request_json(r: Request) -> Seq<char> {
    json_object(
        seq![
            json_member("data"@, json_object(seq![json_member("modules"@, json_array(r.data.modules@.map_values(|m: String| json_quoted(m@))))])),
            json_member("event"@, json_quoted(r.event@)),
            json_member("id"@, json_quoted(r.id@)),
            json_member("token"@, json_quoted(r.token@)),
        ],
    )
}

/// Seconds a notification stays up.
pub open spec fn timeout_of(n: Notification) -> u64 {
    match n.timeout {
        Some(t) => t,
        None => 5,
    }
}

/// JSON of string entries as an object, in their order.
pub fn entries_to_json(entries: &Vec<(String, String)>) -> (r: String)
    ensures
        r@ == entries_json(entries@),
{
    let mut members: Vec<String> = Vec::new();
    let mut i: usize = 0;
    while i < entries.len()
        invariant
            i <= entries.len(),
            members.len() == i,
            forall|j: int|
                0 <= j < i ==> (#[trigger] members@[j])@ == json_member(
                    entries@[j].0@,
                    json_quoted(entries@[j].1@),
                ),
        decreases entries.len() - i,
    {
        let value = quote(entries[i].1.as_str());
        members.push(member(entries[i].0.as_str(), value.as_str()));
        i = i + 1;
    }
    assert(members@.map_values(|s: String| s@) =~= entries@.map_values(
        |e: (String, String)| json_member(e.0@, json_quoted(e.1@)),
    ));
    object(&members)
}

impl Action {
    /// JSON of this action.
    pub fn to_json(&self) -> (r: String)
        ensures
            r@ == action_json(*self),
    {
        let data = match &self.data {
            None => String::from_str("null"),
            Some(d) => entries_to_json(d),
        };
        let command = quote(self.command.as_str());
        let label = quote(self.label.as_str());
        let members = vec![
            member("command", command.as_str()),
            member("label", label.as_str()),
            member("data", data.as_str()),
        ];
        assert(members@.map_values(|s: String| s@) =~= seq![
            json_member("command"@, json_quoted(self.command@)),
            json_member("label"@, json_quoted(self.label@)),
            json_member(
                "data"@,
                match self.data {
                    None => "null"@,
                    Some(d) => entries_json(d@),
                },
            ),
        ]);
        object(&members)
    }
}

/// JSON of a sequence of actions.
pub fn actions_to_json(actions: &Vec<Action>) -> (r: String)
    ensures
        r@ == actions_json(actions@),
{
    let mut items: Vec<String> = Vec::new();
    let mut i: usize = 0;
    while i < actions.len()
        invariant
            i <= actions.len(),
            items.len() == i,
            forall|j: int| 0 <= j < i ==> (#[trigger] items@[j])@ == action_json(actions@[j]),
        decreases actions.len() - i,
    {
        items.push(actions[i].to_json());
        i = i + 1;
    }
    assert(items@.map_values(|s: String| s@) =~= actions@.map_values(|a: Action| action_json(a)));
    array(&items)
}

impl Audio {
    /// JSON of this audio description.
    pub fn to_json(&self) -> (r: String)
        ensures
            r@ == audio_json(*self),
    {
        let volume = match &self.volume {
            None => String::from_str("null"),
            Some(v) => v.clone(),
        };
        let source = quote(self.source.as_str());
        let members = vec![member("source", source.as_str()), member("volume", volume.as_str())];
        assert(members@.map_values(|s: String| s@) =~= seq![
            json_member("source"@, json_quoted(self.source@)),
            json_member(
                "volume"@,
                match self.volume {
                    None => "null"@,
                    Some(v) => v@,
                },
            ),
        ]);
        object(&members)
    }
}

/// Relies on uuid::Uuid::new_v4 and its hyphenated `Display`: a random
/// identifier written as 32 lower-case hexadecimal digits in groups of 8, 4,
/// 4, 4 and 12, separated by hyphens.
#[verifier::external_body]
fn random_id() -> (r: String)
    ensures
        r@.len() == 36,
        forall|i: int|
            0 <= i < 36 ==> if i == 8 || i == 13 || i == 18 || i == 23 {
                #[trigger] r@[i] == '-'
            } else {
                ('0' <= r@[i] <= '9') || ('a' <= r@[i] <= 'f')
            },
{
    uuid::Uuid::new_v4().to_string()
}

/// The kinds of inbound message this client tells apart.
pub enum MessageKind {
    DataUpdate,
    Notification,
    Other,
}

/// The kind of a message with the `type` tag `tag`.
pub open spec fn kind_of(tag: Seq<char>) -> MessageKind {
    if tag == "DATA_UPDATE"@ {
        MessageKind::DataUpdate
    } else if tag == "NOTIFICATION"@ {
        MessageKind::Notification
    } else {
        MessageKind::Other
    }
}

/// The kind of a message with the `type` tag `tag`.
pub fn classify(tag: &String) -> (k: MessageKind)
    ensures
        k == kind_of(tag@),
{
    let data_update = String::from_str(DATA_UPDATE);
    let notification = String::from_str(NOTIFICATION);
    proof {
        reveal_strlit("DATA_UPDATE");
        reveal_strlit("NOTIFICATION");
    }
    if *tag == data_update {
        MessageKind::DataUpdate
    } else if *tag == notification {
        MessageKind::Notification
    } else {
        MessageKind::Other
    }
}

impl Response {
    /// The kind of this message, by its `type` tag.
    pub fn message_kind(&self) -> (k: MessageKind)
        ensures
            k == kind_of(self.kind@),
    {
        classify(&self.kind)
    }
}

impl Request {
    /// The registration request with identifier `id`, carrying `token`.
    pub fn register(id: String, token: String) -> (r: Request)
        ensures
            r.id@ == id@,
            r.event@ == "REGISTER_DATA_LISTENER"@,
            r.data.modules@.len() == 1,
            r.data.modules@[0]@ == "system"@,
            r.token@ == token@,
    {
        Request {
            id,
            event: String::from_str(REGISTER_EVENT),
            data: GetData { modules: vec![String::from_str(SYSTEM_MODULE)] },
            token,
        }
    }

    /// The registration request under a fresh random identifier.
    pub fn new_registration(token: String) -> (r: Request)
        ensures
            r.id@.len() == 36,
            r.event@ == "REGISTER_DATA_LISTENER"@,
            r.data.modules@.len() == 1,
            r.data.modules@[0]@ == "system"@,
            r.token@ == token@,
    {
        Request::register(random_id(), token)
    }

    /// JSON text of this request, sent as one text frame.
    pub fn to_json(&self) -> (r: String)
        ensures
            r@ == request_json(*self),
    {
        let mut quoted: Vec<String> = Vec::new();
        let mut i: usize = 0;
        while i < self.data.modules.len()
            invariant
                i <= self.data.modules.len(),
                quoted.len() == i,
                forall|j: int|
                    0 <= j < i ==> (#[trigger] quoted@[j])@ == json_quoted(self.data.modules@[j]@),
            decreases self.data.modules.len() - i,
        {
            quoted.push(quote(self.data.modules[i].as_str()));
            i = i + 1;
        }
        assert(quoted@.map_values(|s: String| s@) =~= self.data.modules@.map_values(
            |m: String| json_quoted(m@),
        ));
        let modules = array(&quoted);
        let inner = vec![member("modules", modules.as_str())];
        assert(inner@.map_values(|s: String| s@) =~= seq![json_member("modules"@, modules@)]);
        let data = object(&inner);
        let event = quote(self.event.as_str());
        let id = quote(self.id.as_str());
        let token = quote(self.token.as_str());
        let members = vec![
            member("data", data.as_str()),
            member("event", event.as_str()),
            member("id", id.as_str()),
            member("token", token.as_str()),
        ];
        assert(members@.map_values(|s: String| s@) =~= seq![
            json_member("data"@, data@),
            json_member("event"@, json_quoted(self.event@)),
            json_member("id"@, json_quoted(self.id@)),
            json_member("token"@, json_quoted(self.token@)),
        ]);
        object(&members)
    }
}

} // verus!
