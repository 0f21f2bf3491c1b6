//! The table of actions: for each action name, the shape that the payload of
//! a request must have and the shape of the payload of its response.

use vstd::prelude::*;

use crate::json::{find_member, member, members_view, Json, JsonValue};
use crate::text::same_text;

verus! {

/// What a field of a payload may hold.
#[derive(Clone, Debug, PartialEq)]
pub enum Kind {
    /// Any JSON value.
    Any,
    Bool,
    /// A number that is an integer.
    Integer,
    /// Any number.
    Number,
    Text,
    /// A text that is one of the given ones.
    Choice(Vec<String>),
    List,
    /// A JSON object.
    Record,
}

/// One field of a payload.
#[derive(Clone, Debug, PartialEq)]
pub struct Field {
    pub name: String,
    pub kind: Kind,
    pub required: bool,
}

/// The shape of a payload: a JSON object with these fields. Members that no
/// field names are not looked at.
#[derive(Clone, Debug, PartialEq)]
pub struct Shape {
    pub fields: Vec<Field>,
}

/// How a payload departs from a shape.
#[derive(Clone, Debug, PartialEq)]
pub enum Violation {
    /// The payload is not a JSON object.
    NotAnObject,
    /// A required field is absent.
    Missing(String),
    /// A field holds a value of another kind.
    WrongType(String),
    /// A field holds a text that is none of the allowed ones.
    InvalidValue(String),
}

/// The view of a [`Kind`].
pub enum KindView {
    Any,
    Bool,
    Integer,
    Number,
    Text,
    Choice(Seq<Seq<char>>),
    List,
    Record,
}

/// The view of a [`Field`].
pub struct FieldView {
    pub name: Seq<char>,
    pub kind: KindView,
    pub required: bool,
}

/// The view of a [`Shape`].
pub struct ShapeView {
    pub fields: Seq<FieldView>,
}

/// The view of a [`Violation`].
pub enum ViolationView {
    NotAnObject,
    Missing(Seq<char>),
    WrongType(Seq<char>),
    InvalidValue(Seq<char>),
}

/// The texts of a list of strings, in order.
pub open spec fn texts_view(texts: Seq<String>) -> Seq<Seq<char>> {
    Seq::new(texts.len(), |i: int| texts[i]@)
}

impl View for Kind {
    type V = KindView;

    open spec fn view(&self) -> KindView {
        match self {
            Kind::Any => KindView::Any,
            Kind::Bool => KindView::Bool,
            Kind::Integer => KindView::Integer,
            Kind::Number => KindView::Number,
            Kind::Text => KindView::Text,
            Kind::Choice(texts) => KindView::Choice(texts_view(texts@)),
            Kind::List => KindView::List,
            Kind::Record => KindView::Record,
        }
    }
}

impl View for Field {
    type V = FieldView;

    open spec fn view(&self) -> FieldView {
        FieldView { name: self.name@, kind: self.kind@, required: self.required }
    }
}

/// The views of a list of fields, in order.
pub open spec fn fields_view(fields: Seq<Field>) -> Seq<FieldView> {
    Seq::new(fields.len(), |i: int| fields[i]@)
}

impl View for Shape {
    type V = ShapeView;

    open spec fn view(&self) -> ShapeView {
        ShapeView { fields: fields_view(self.fields@) }
    }
}

impl View for Violation {
    type V = ViolationView;

    open spec fn view(&self) -> ViolationView {
        match self {
            Violation::NotAnObject => ViolationView::NotAnObject,
            Violation::Missing(name) => ViolationView::Missing(name@),
            Violation::WrongType(name) => ViolationView::WrongType(name@),
            Violation::InvalidValue(name) => ViolationView::InvalidValue(name@),
        }
    }
}

/// How the value of the field `name` departs from a kind, if it does.
pub open spec fn kind_violation(kind: KindView, name: Seq<char>, value: JsonValue) -> Option<
    ViolationView,
> {
    let wrong = Some(ViolationView::WrongType(name));
    match kind {
        KindView::Any => None,
        KindView::Bool => if value is Bool {
            None
        } else {
            wrong
        },
        KindView::Integer => if value is Integer {
            None
        } else {
            wrong
        },
        KindView::Number => if value is Integer || value is Number {
            None
        } else {
            wrong
        },
        KindView::Text => if value is String {
            None
        } else {
            wrong
        },
        KindView::Choice(texts) => match value {
            JsonValue::String(text) => if texts.contains(text) {
                None
            } else {
                Some(ViolationView::InvalidValue(name))
            },
            _ => wrong,
        },
        KindView::List => if value is Array {
            None
        } else {
            wrong
        },
        KindView::Record => if value is Object {
            None
        } else {
            wrong
        },
    }
}

/// How the members of an object depart from one field, if they do. A field
/// that is not required may be absent or `null`.
pub open spec fn field_violation(field: FieldView, members: Seq<(Seq<char>, JsonValue)>) -> Option<
    ViolationView,
> {
    match member(members, field.name) {
        None => if field.required {
            Some(ViolationView::Missing(field.name))
        } else {
            None
        },
        Some(value) => if value is Null && !field.required {
            None
        } else {
            kind_violation(field.kind, field.name, value)
        },
    }
}

/// The violation of the first field, from the `from`-th on, that the members
/// of an object depart from.
pub open spec fn fields_violation(
    fields: Seq<FieldView>,
    members: Seq<(Seq<char>, JsonValue)>,
    from: int,
) -> Option<ViolationView>
    decreases fields.len() - from,
{
    if from < 0 || from >= fields.len() {
        None
    } else {
        match field_violation(fields[from], members) {
            Some(violation) => Some(violation),
            None => fields_violation(fields, members, from + 1),
        }
    }
}

/// How a payload departs from a shape: it is not an object, or else the
/// violation of the first field, in the order of the shape, that it departs
/// from. `None` where the payload has the shape.
pub open spec fn shape_violation(shape: ShapeView, payload: JsonValue) -> Option<ViolationView> {
    match payload {
        JsonValue::Object(members) => fields_violation(shape.fields, members, 0),
        _ => Some(ViolationView::NotAnObject),
    }
}

/// The view of a check's result.
pub open spec fn check_view(result: Result<(), Violation>) -> Option<ViolationView> {
    match result {
        Ok(_) => None,
        Err(violation) => Some(violation@),
    }
}

/// Whether a text is among the given ones.
fn is_among(texts: &Vec<String>, text: &str) -> (among: bool)
    ensures
        among == texts_view(texts@).contains(text@),
{
    let mut i: usize = 0;
    while i < texts.len()
        invariant
            i <= texts.len(),
            forall|k: int| 0 <= k < i ==> texts_view(texts@)[k] != text@,
        decreases texts.len() - i,
    {
        if same_text(texts[i].as_str(), text) {
            assert(texts_view(texts@)[i as int] == text@);
            return true;
        }
        i = i + 1;
    }
    false
}

impl Kind {
    /// The kind of a text that is one of the given ones.
    pub fn choice(texts: &[&str]) -> (kind: Kind)
        ensures
            kind@ == KindView::Choice(Seq::new(texts@.len(), |i: int| texts@[i]@)),
    {
        let mut owned: Vec<String> = Vec::new();
        let mut i: usize = 0;
        while i < texts.len()
            invariant
                i <= texts.len(),
                owned@.len() == i,
                forall|k: int| 0 <= k < i ==> (#[trigger] owned@[k])@ == texts@[k]@,
            decreases texts.len() - i,
        {
            owned.push(texts[i].to_owned());
            i = i + 1;
        }
        assert(texts_view(owned@) =~= Seq::new(texts@.len(), |i: int| texts@[i]@));
        Kind::Choice(owned)
    }

    /// Holds the value of the field `name` against the kind.
    pub fn check(&self, name: &String, value: &Json) -> (result: Result<(), Violation>)
        ensures
            check_view(result) == kind_violation(self@, name@, value@),
    {
        let fits = match self {
            Kind::Any => true,
            Kind::Bool => match value {
                Json::Bool(_) => true,
                _ => false,
            },
            Kind::Integer => match value {
                Json::Integer(_) => true,
                _ => false,
            },
            Kind::Number => match value {
                Json::Integer(_) => true,
                Json::Number(_) => true,
                _ => false,
            },
            Kind::Text => match value {
                Json::String(_) => true,
                _ => false,
            },
            Kind::Choice(texts) => match value {
                Json::String(text) => {
                    if is_among(texts, text.as_str()) {
                        true
                    } else {
                        return Err(Violation::InvalidValue(name.clone()));
                    }
                },
                _ => false,
            },
            Kind::List => match value {
                Json::Array(_) => true,
                _ => false,
            },
            Kind::Record => match value {
                Json::Object(_) => true,
                _ => false,
            },
        };
        if fits {
            Ok(())
        } else {
            Err(Violation::WrongType(name.clone()))
        }
    }
}

impl Field {
    /// Holds the members of an object against the field.
    pub fn check(&self, members: &Vec<(String, Json)>) -> (result: Result<(), Violation>)
        ensures
            check_view(result) == field_violation(self@, members_view(members@)),
    {
        match find_member(members, self.name.as_str()) {
            None => {
                if self.required {
                    Err(Violation::Missing(self.name.clone()))
                } else {
                    Ok(())
                }
            },
            Some(value) => {
                let absent = match value {
                    Json::Null => !self.required,
                    _ => false,
                };
                if absent {
                    Ok(())
                } else {
                    self.kind.check(&self.name, value)
                }
            },
        }
    }
}

impl Shape {
    /// The shape of an object without fields: any object has it.
    pub fn new() -> (shape: Shape)
        ensures
            shape@.fields == Seq::<FieldView>::empty(),
    {
        let shape = Shape { fields: Vec::new() };
        assert(shape@.fields =~= Seq::<FieldView>::empty());
        shape
    }

    /// The shape with one more field, after the others.
    pub fn with(self, name: &str, kind: Kind, required: bool) -> (shape: Shape)
        ensures
            shape@.fields == self@.fields.push(FieldView { name: name@, kind: kind@, required }),
    {
        let mut fields = self.fields;
        fields.push(Field { name: name.to_owned(), kind, required });
        let shape = Shape { fields };
        assert(shape@.fields =~= self@.fields.push(
            FieldView { name: name@, kind: kind@, required },
        ));
        shape
    }

    /// Holds a payload against the shape.
    pub fn check(&self, payload: &Json) -> (result: Result<(), Violation>)
        ensures
            check_view(result) == shape_violation(self@, payload@),
    {
        match payload {
            Json::Object(members) => {
                proof {
                    crate::json::lemma_object_view(*members);
                }
                let ghost fields = fields_view(self.fields@);
                let ghost all = members_view(members@);
                let mut i: usize = 0;
                while i < self.fields.len()
                    invariant
                        i <= self.fields.len(),
                        fields == fields_view(self.fields@),
                        all == members_view(members@),
                        payload@ == JsonValue::Object(all),
                        fields_violation(fields, all, 0) == fields_violation(fields, all, i as int),
                    decreases self.fields.len() - i,
                {
                    match self.fields[i].check(members) {
                        Ok(_) => {},
                        Err(violation) => {
                            return Err(violation);
                        },
                    }
                    i = i + 1;
                }
                Ok(())
            },
            _ => Err(Violation::NotAnObject),
        }
    }
}

/// An entry of the table: an action with the shapes of its two payloads.
#[derive(Clone, Debug, PartialEq)]
pub struct Action {
    pub name: String,
    pub request: Shape,
    pub response: Shape,
}

/// The view of an [`Action`].
pub struct ActionView {
    pub name: Seq<char>,
    pub request: ShapeView,
    pub response: ShapeView,
}

impl View for Action {
    type V = ActionView;

    open spec fn view(&self) -> ActionView {
        ActionView { name: self.name@, request: self.request@, response: self.response@ }
    }
}

/// The views of a list of actions, in order.
pub open spec fn actions_view(actions: Seq<Action>) -> Seq<ActionView> {
    Seq::new(actions.len(), |i: int| actions[i]@)
}

/// The entry that a table holds for a name: the last one registered under it.
pub open spec fn resolve(actions: Seq<ActionView>, name: Seq<char>) -> Option<ActionView>
    decreases actions.len(),
{
    if actions.len() == 0 {
        None
    } else if actions.last().name == name {
        Some(actions.last())
    } else {
        resolve(actions.drop_last(), name)
    }
}

/// The field of a name and a kind.
pub open spec fn field(name: Seq<char>, kind: KindView, required: bool) -> FieldView {
    FieldView { name, kind, required }
}

/// The entry of `BootNotification`: a station that powers up tells who it is
/// and why it booted, and learns whether it is accepted.
pub open spec fn boot_notification_entry() -> ActionView {
    ActionView {
        name: "BootNotification"@,
        request: ShapeView {
            fields: seq![
                field("chargingStation"@, KindView::Record, true),
                field(
                    "reason"@,
                    KindView::Choice(
                        seq![
                            "ApplicationReset"@,
                            "FirmwareUpdate"@,
                            "LocalReset"@,
                            "PowerUp"@,
                            "RemoteReset"@,
                            "ScheduledReset"@,
                            "Triggered"@,
                            "Unknown"@,
                            "Watchdog"@,
                        ],
                    ),
                    true,
                ),
            ],
        },
        response: ShapeView {
            fields: seq![
                field("currentTime"@, KindView::Text, true),
                field("interval"@, KindView::Integer, true),
                field(
                    "status"@,
                    KindView::Choice(seq!["Accepted"@, "Pending"@, "Rejected"@]),
                    true,
                ),
                field("statusInfo"@, KindView::Record, false),
            ],
        },
    }
}

/// The entry of `Heartbeat`: a request without fields, answered with the time.
pub open spec fn heartbeat_entry() -> ActionView {
    ActionView {
        name: "Heartbeat"@,
        request: ShapeView { fields: Seq::empty() },
        response: ShapeView { fields: seq![field("currentTime"@, KindView::Text, true)] },
    }
}

/// The entry of `StatusNotification`: a station tells the status of a
/// connector, and the response has no fields.
pub open spec fn status_notification_entry() -> ActionView {
    ActionView {
        name: "StatusNotification"@,
        request: ShapeView {
            fields: seq![
                field("timestamp"@, KindView::Text, true),
                field(
                    "connectorStatus"@,
                    KindView::Choice(
                        seq![
                            "Available"@,
                            "Occupied"@,
                            "Reserved"@,
                            "Unavailable"@,
                            "Faulted"@,
                        ],
                    ),
                    true,
                ),
                field("evseId"@, KindView::Integer, true),
                field("connectorId"@, KindView::Integer, true),
            ],
        },
        response: ShapeView { fields: Seq::empty() },
    }
}

/// The table of the actions that a deployment supports.
#[derive(Clone, Debug, PartialEq)]
pub struct ActionRegistry {
    actions: Vec<Action>,
}

impl View for ActionRegistry {
    type V = Seq<ActionView>;

    closed spec fn view(&self) -> Seq<ActionView> {
        actions_view(self.actions@)
    }
}

impl ActionRegistry {
    /// A table without entries.
    pub fn new() -> (registry: ActionRegistry)
        ensures
            registry@ == Seq::<ActionView>::empty(),
    {
        let registry = ActionRegistry { actions: Vec::new() };
        assert(registry@ =~= Seq::<ActionView>::empty());
        registry
    }

    /// The table of `BootNotification`, `Heartbeat` and `StatusNotification`.
    pub fn standard() -> (registry: ActionRegistry)
        ensures
            registry@ == seq![
                boot_notification_entry(),
                heartbeat_entry(),
                status_notification_entry(),
            ],
    {
        let reasons = Kind::choice(
            &[
                "ApplicationReset",
                "FirmwareUpdate",
                "LocalReset",
                "PowerUp",
                "RemoteReset",
                "ScheduledReset",
                "Triggered",
                "Unknown",
                "Watchdog",
            ],
        );
        assert(reasons@->Choice_0 =~= boot_notification_entry().request.fields[1].kind->Choice_0);
        let verdicts = Kind::choice(&["Accepted", "Pending", "Rejected"]);
        assert(verdicts@->Choice_0 =~= boot_notification_entry().response.fields[2].kind->Choice_0);
        let statuses = Kind::choice(
            &["Available", "Occupied", "Reserved", "Unavailable", "Faulted"],
        );
        assert(statuses@->Choice_0 =~= status_notification_entry().request.fields[1].kind->Choice_0);
        let boot_notification = Action {
            name: "BootNotification".to_owned(),
            request: Shape::new().with("chargingStation", Kind::Record, true).with(
                "reason",
                reasons,
                true,
            ),
            response: Shape::new().with("currentTime", Kind::Text, true).with(
                "interval",
                Kind::Integer,
                true,
            ).with("status", verdicts, true).with("statusInfo", Kind::Record, false),
        };
        let heartbeat = Action {
            name: "Heartbeat".to_owned(),
            request: Shape::new(),
            response: Shape::new().with("currentTime", Kind::Text, true),
        };
        let status_notification = Action {
            name: "StatusNotification".to_owned(),
            request: Shape::new().with("timestamp", Kind::Text, true).with(
                "connectorStatus",
                statuses,
                true,
            ).with("evseId", Kind::Integer, true).with("connectorId", Kind::Integer, true),
            response: Shape::new(),
        };
        proof {
            let boot = boot_notification_entry();
            assert(boot_notification@.request.fields =~= boot.request.fields);
            assert(boot_notification@.response.fields =~= boot.response.fields);
            assert(heartbeat@.response.fields =~= heartbeat_entry().response.fields);
            let status = status_notification_entry();
            assert(status_notification@.request.fields =~= status.request.fields);
        }
        let mut registry = ActionRegistry::new();
        registry.register(boot_notification);
        registry.register(heartbeat);
        registry.register(status_notification);
        assert(registry@ =~= seq![
            boot_notification_entry(),
            heartbeat_entry(),
            status_notification_entry(),
        ]);
        registry
    }

    /// Adds an entry. It replaces an earlier one of the same name.
    pub fn register(&mut self, action: Action)
        ensures
            final(self)@ == old(self)@.push(action@),
    {
        self.actions.push(action);
        assert(self@ =~= old(self)@.push(action@));
    }

    /// The number of entries, replaced ones included.
    pub fn len(&self) -> (len: usize)
        ensures
            len == self@.len(),
    {
        self.actions.len()
    }

    /// Looks an action up by its name.
    pub fn resolve(&self, name: &str) -> (found: Option<&Action>)
        ensures
            match found {
                Some(action) => resolve(self@, name@) == Some(action@),
                None => resolve(self@, name@) is None,
            },
    {
        let ghost all = self@;
        let mut found: Option<&Action> = None;
        let mut i: usize = 0;
        while i < self.actions.len()
            invariant
                i <= self.actions.len(),
                all == actions_view(self.actions@),
                match found {
                    Some(action) => resolve(all.take(i as int), name@) == Some(action@),
                    None => resolve(all.take(i as int), name@) is None,
                },
            decreases self.actions.len() - i,
        {
            proof {
                let next = all.take(i as int + 1);
                assert(next.drop_last() =~= all.take(i as int));
                assert(next.last() == all[i as int]);
            }
            if same_text(self.actions[i].name.as_str(), name) {
                found = Some(&self.actions[i]);
            }
            i = i + 1;
        }
        proof {
            assert(all.take(i as int) =~= all);
        }
        found
    }
}

} // verus!
