//! Activities, the documents they carry, and the rows the engine keeps.

use vstd::prelude::*;
use crate::text::{clone_opt, opt_view};

verus! {

/// The activity types the engine acts on.
#[derive(Clone, Copy, Debug, PartialEq, Eq, Structural)]
pub enum ValidTypes {
    Create,
    Update,
    Like,
    Dislike,
    Delete,
    Undo,
    Remove,
    Announce,
}

/// Declared type of an activity: one the engine acts on, or any other name
/// seen on the wire.
#[derive(Debug)]
pub enum ActivityKind {
    Known(ValidTypes),
    Unrecognized(String),
}

/// The activity type a wire name stands for, if the engine acts on it.
pub open spec fn spec_valid_type(name: Seq<char>) -> Option<ValidTypes> {
    if name == "Create"@ {
        Some(ValidTypes::Create)
    } else if name == "Update"@ {
        Some(ValidTypes::Update)
    } else if name == "Like"@ {
        Some(ValidTypes::Like)
    } else if name == "Dislike"@ {
        Some(ValidTypes::Dislike)
    } else if name == "Delete"@ {
        Some(ValidTypes::Delete)
    } else if name == "Undo"@ {
        Some(ValidTypes::Undo)
    } else if name == "Remove"@ {
        Some(ValidTypes::Remove)
    } else if name == "Announce"@ {
        Some(ValidTypes::Announce)
    } else {
        None
    }
}

impl ValidTypes {
    /// Name of the type on the wire.
    pub open spec fn spec_name(self) -> Seq<char> {
        match self {
            ValidTypes::Create => "Create"@,
            ValidTypes::Update => "Update"@,
            ValidTypes::Like => "Like"@,
            ValidTypes::Dislike => "Dislike"@,
            ValidTypes::Delete => "Delete"@,
            ValidTypes::Undo => "Undo"@,
            ValidTypes::Remove => "Remove"@,
            ValidTypes::Announce => "Announce"@,
        }
    }

    /// Name of the type on the wire.
    pub fn name(self) -> (r: String)
        ensures
            r@ == self.spec_name(),
    {
        match self {
            ValidTypes::Create => "Create".to_owned(),
            ValidTypes::Update => "Update".to_owned(),
            ValidTypes::Like => "Like".to_owned(),
            ValidTypes::Dislike => "Dislike".to_owned(),
            ValidTypes::Delete => "Delete".to_owned(),
            ValidTypes::Undo => "Undo".to_owned(),
            ValidTypes::Remove => "Remove".to_owned(),
            ValidTypes::Announce => "Announce".to_owned(),
        }
    }
}

impl ActivityKind {
    /// The type the engine acts on, if this is one.
    pub open spec fn known(self) -> Option<ValidTypes> {
        match self {
            ActivityKind::Known(k) => Some(k),
            ActivityKind::Unrecognized(_) => None,
        }
    }

    /// Name of the type on the wire.
    pub open spec fn spec_name(self) -> Seq<char> {
        match self {
            ActivityKind::Known(k) => k.spec_name(),
            ActivityKind::Unrecognized(s) => s@,
        }
    }

    /// Reads a wire name. Names the engine does not act on are kept as they
    /// came.
    pub fn from_name(name: &str) -> (r: ActivityKind)
        ensures
            r.known() == spec_valid_type(name@),
            r.spec_name() == name@,
    {
        let n = name.to_owned();
        if n == "Create".to_owned() {
            ActivityKind::Known(ValidTypes::Create)
        } else if n == "Update".to_owned() {
            ActivityKind::Known(ValidTypes::Update)
        } else if n == "Like".to_owned() {
            ActivityKind::Known(ValidTypes::Like)
        } else if n == "Dislike".to_owned() {
            ActivityKind::Known(ValidTypes::Dislike)
        } else if n == "Delete".to_owned() {
            ActivityKind::Known(ValidTypes::Delete)
        } else if n == "Undo".to_owned() {
            ActivityKind::Known(ValidTypes::Undo)
        } else if n == "Remove".to_owned() {
            ActivityKind::Known(ValidTypes::Remove)
        } else if n == "Announce".to_owned() {
            ActivityKind::Known(ValidTypes::Announce)
        } else {
            ActivityKind::Unrecognized(n)
        }
    }

    /// Name of the type on the wire.
    pub fn name(&self) -> (r: String)
        ensures
            r@ == self.spec_name(),
    {
        match self {
            ActivityKind::Known(k) => k.name(),
            ActivityKind::Unrecognized(s) => s.clone(),
        }
    }
}

/// Kinds of federated object the engine stores.
#[derive(Clone, Copy, Debug, PartialEq, Eq, Structural)]
pub enum ObjectKind {
    Post,
    Comment,
    Community,
    Person,
}

/// The object kind a document type name stands for.
pub open spec fn spec_object_kind(name: Seq<char>) -> Option<ObjectKind> {
    if name == "Page"@ {
        Some(ObjectKind::Post)
    } else if name == "Note"@ {
        Some(ObjectKind::Comment)
    } else if name == "Group"@ {
        Some(ObjectKind::Community)
    } else if name == "Person"@ {
        Some(ObjectKind::Person)
    } else {
        None
    }
}

impl ObjectKind {
    /// Reads the type name of a document.
    pub fn from_name(name: &String) -> (r: Option<ObjectKind>)
        ensures
            r == spec_object_kind(name@),
    {
        if *name == "Page".to_owned() {
            Some(ObjectKind::Post)
        } else if *name == "Note".to_owned() {
            Some(ObjectKind::Comment)
        } else if *name == "Group".to_owned() {
            Some(ObjectKind::Community)
        } else if *name == "Person".to_owned() {
            Some(ObjectKind::Person)
        } else {
            None
        }
    }
}

/// An object document as it travels inside an activity or comes back from
/// a fetch.
#[derive(Debug)]
pub struct ObjectDoc {
    /// URI of the object.
    pub id: String,
    /// Type name of the document (`Page`, `Note`, `Group`, `Person`, ...).
    pub kind: String,
    /// URI of the actor the object is attributed to.
    pub attributed_to: String,
    /// URI of the object or community this one belongs under.
    pub parent: Option<String>,
    /// URI of the actor the object is addressed to, where it is meant for
    /// one actor only.
    pub to: Option<String>,
    pub content: String,
    /// Seconds since the epoch.
    pub published: i64,
    /// Time of the last edit, if there was one.
    pub updated: Option<i64>,
}

/// An object document as a value.
pub ghost struct DocView {
    pub id: Seq<char>,
    pub kind: Seq<char>,
    pub attributed_to: Seq<char>,
    pub parent: Option<Seq<char>>,
    pub to: Option<Seq<char>>,
    pub content: Seq<char>,
    pub published: i64,
    pub updated: Option<i64>,
}

impl View for ObjectDoc {
    type V = DocView;

    open spec fn view(&self) -> DocView {
        DocView {
            id: self.id@,
            kind: self.kind@,
            attributed_to: self.attributed_to@,
            parent: opt_view(self.parent),
            to: opt_view(self.to),
            content: self.content@,
            published: self.published,
            updated: self.updated,
        }
    }
}

/// What an activity is about.
#[derive(Debug)]
pub enum ActivityBody {
    /// A full object document.
    Object(ObjectDoc),
    /// The URI of an object.
    Link(String),
    /// Another activity (the one undone or relayed).
    Activity(Box<Activity>),
}

/// A typed message describing an action of an actor.
#[derive(Debug)]
pub struct Activity {
    /// URI that identifies the activity.
    pub id: String,
    pub kind: ActivityKind,
    /// URI of the actor that performs the activity.
    pub actor: String,
    /// Primary audience.
    pub to: Vec<String>,
    /// Secondary audience; its first entry is the followers collection of
    /// the community concerned.
    pub cc: Vec<String>,
    /// Declared time of the activity, seconds since the epoch.
    pub updated: i64,
    pub body: ActivityBody,
}

impl ActivityBody {
    /// URI of the object concerned, where the body is an object or a link.
    pub open spec fn target(self) -> Option<Seq<char>> {
        match self {
            ActivityBody::Object(doc) => Some(doc.id@),
            ActivityBody::Link(uri) => Some(uri@),
            ActivityBody::Activity(_) => None,
        }
    }
}

/// A federated identity with an inbox.
#[derive(Debug)]
pub struct Actor {
    pub uri: String,
    pub name: String,
    /// PEM text of the public key.
    pub public_key: String,
    /// PEM text of the private key; local actors only.
    pub private_key: Option<String>,
    pub inbox_url: String,
    pub shared_inbox_url: Option<String>,
    pub local: bool,
    /// Seconds since the epoch.
    pub last_refreshed_at: i64,
}

/// An actor as a value.
pub ghost struct ActorView {
    pub uri: Seq<char>,
    pub name: Seq<char>,
    pub public_key: Seq<char>,
    pub private_key: Option<Seq<char>>,
    pub inbox_url: Seq<char>,
    pub shared_inbox_url: Option<Seq<char>>,
    pub local: bool,
    pub last_refreshed_at: i64,
}

impl View for Actor {
    type V = ActorView;

    open spec fn view(&self) -> ActorView {
        ActorView {
            uri: self.uri@,
            name: self.name@,
            public_key: self.public_key@,
            private_key: opt_view(self.private_key),
            inbox_url: self.inbox_url@,
            shared_inbox_url: opt_view(self.shared_inbox_url),
            local: self.local,
            last_refreshed_at: self.last_refreshed_at,
        }
    }
}

impl Actor {
    /// A copy of the actor.
    pub fn duplicate(&self) -> (r: Actor)
        ensures
            r@ == self@,
    {
        Actor {
            uri: self.uri.clone(),
            name: self.name.clone(),
            public_key: self.public_key.clone(),
            private_key: clone_opt(&self.private_key),
            inbox_url: self.inbox_url.clone(),
            shared_inbox_url: clone_opt(&self.shared_inbox_url),
            local: self.local,
            last_refreshed_at: self.last_refreshed_at,
        }
    }
}

/// A stored entity that is also addressable by an external URI.
#[derive(Debug)]
pub struct FederatedObject {
    /// Local primary key.
    pub id: u64,
    /// External URI of the object.
    pub ap_id: String,
    pub kind: ObjectKind,
    /// URI of the owning actor.
    pub owner: String,
    /// URI of the object or community this one belongs under.
    pub parent: Option<String>,
    pub content: String,
    pub removed: bool,
    pub deleted: bool,
    pub locked: bool,
    pub local: bool,
    pub published: i64,
    pub updated: i64,
}

/// A stored object as a value.
pub ghost struct ObjectView {
    pub id: u64,
    pub ap_id: Seq<char>,
    pub kind: ObjectKind,
    pub owner: Seq<char>,
    pub parent: Option<Seq<char>>,
    pub content: Seq<char>,
    pub removed: bool,
    pub deleted: bool,
    pub locked: bool,
    pub local: bool,
    pub published: i64,
    pub updated: i64,
}

impl View for FederatedObject {
    type V = ObjectView;

    open spec fn view(&self) -> ObjectView {
        ObjectView {
            id: self.id,
            ap_id: self.ap_id@,
            kind: self.kind,
            owner: self.owner@,
            parent: opt_view(self.parent),
            content: self.content@,
            removed: self.removed,
            deleted: self.deleted,
            locked: self.locked,
            local: self.local,
            published: self.published,
            updated: self.updated,
        }
    }
}

/// The reaction of one actor to one object.
#[derive(Debug)]
pub struct Reaction {
    /// Local key of the object reacted to.
    pub object_id: u64,
    /// URI of the reacting actor.
    pub actor: String,
    /// `1` for a like, `-1` for a dislike.
    pub score: i8,
}

/// A reaction as a value.
pub ghost struct ReactionView {
    pub object_id: u64,
    pub actor: Seq<char>,
    pub score: i8,
}

impl View for Reaction {
    type V = ReactionView;

    open spec fn view(&self) -> ReactionView {
        ReactionView { object_id: self.object_id, actor: self.actor@, score: self.score }
    }
}

/// One processed activity, as the ledger keeps it.
#[derive(Debug)]
pub struct ActivityRecord {
    pub id: String,
    /// Declared type, by its wire name.
    pub kind: String,
    pub actor: String,
    /// The activity as it was serialized.
    pub payload: String,
    /// Whether this server originated the activity.
    pub local: bool,
    pub received: i64,
}

/// A ledger record as a value.
pub ghost struct RecordView {
    pub id: Seq<char>,
    pub kind: Seq<char>,
    pub actor: Seq<char>,
    pub payload: Seq<char>,
    pub local: bool,
    pub received: i64,
}

impl View for ActivityRecord {
    type V = RecordView;

    open spec fn view(&self) -> RecordView {
        RecordView {
            id: self.id@,
            kind: self.kind@,
            actor: self.actor@,
            payload: self.payload@,
            local: self.local,
            received: self.received,
        }
    }
}

} // verus!
