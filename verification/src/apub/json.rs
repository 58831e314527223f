//! Documents as they come over the wire, and how activities, objects and
//! actors are read from them.

use vstd::prelude::*;
use crate::apub::fetcher::ActorDoc;
use crate::apub::model::{
    spec_valid_type, Activity, ActivityBody, ActivityKind, DocView, ObjectDoc,
};
use crate::rows::{first_index, lemma_first_index_absent, lemma_first_index_is};
use crate::text::{opt_view, texts};

verus! {

/// A JSON value.
#[derive(Debug)]
pub enum Json {
    Null,
    Bool(bool),
    /// A number, as it was written.
    Number(String),
    Text(String),
    List(Vec<Json>),
    Object(Vec<Member>),
}

/// One member of a JSON object.
#[derive(Debug)]
pub struct Member {
    pub name: String,
    pub value: Json,
}

/// Seconds since the epoch of the moment that an RFC 3339 text names;
/// `None` when the text is no RFC 3339 date and time.
pub uninterp spec fn rfc3339_seconds(text: Seq<char>) -> Option<i64>;

/// `chrono::DateTime::parse_from_rfc3339` and `DateTime::timestamp`: the
/// text is parsed as an RFC 3339 date and time, and the moment is returned
/// as the number of seconds since the epoch. A text that does not parse
/// gives `None`.
#[verifier::external_body]
pub(crate) fn parse_rfc3339(text: &str) -> (r: Option<i64>)
    ensures
        r == rfc3339_seconds(text@),
{
    match chrono::DateTime::parse_from_rfc3339(text) {
        Ok(moment) => Some(moment.timestamp()),
        Err(_) => None,
    }
}

/// The names of the members, in order.
pub open spec fn member_names(members: Seq<Member>) -> Seq<Seq<char>> {
    Seq::new(members.len(), |i: int| members[i].name@)
}

/// The texts among the items of a list, in order.
pub open spec fn list_texts(items: Seq<Json>) -> Seq<Seq<char>>
    decreases items.len(),
{
    if items.len() == 0 {
        Seq::empty()
    } else {
        let init = list_texts(items.drop_last());
        match items.last() {
            Json::Text(s) => init.push(s@),
            _ => init,
        }
    }
}

impl Json {
    /// The members of an object; none for any other value.
    pub open spec fn members(self) -> Seq<Member> {
        match self {
            Json::Object(members) => members@,
            _ => Seq::empty(),
        }
    }

    /// The value of the first member with this name.
    pub open spec fn spec_get(self, name: Seq<char>) -> Option<Json> {
        let i = first_index(member_names(self.members()), name);
        if i < self.members().len() {
            Some(self.members()[i].value)
        } else {
            None
        }
    }

    /// The text of a text value.
    pub open spec fn spec_text(self) -> Option<Seq<char>> {
        match self {
            Json::Text(s) => Some(s@),
            _ => None,
        }
    }

    /// The text of the member with this name, if it is a text.
    pub open spec fn spec_text_at(self, name: Seq<char>) -> Option<Seq<char>> {
        match self.spec_get(name) {
            Some(v) => v.spec_text(),
            None => None,
        }
    }

    /// The URIs that the member with this name holds: the text of a text,
    /// the texts in a list, the `id` of an object.
    pub open spec fn spec_uris(self, name: Seq<char>) -> Seq<Seq<char>> {
        match self.spec_get(name) {
            Some(Json::Text(s)) => seq![s@],
            Some(Json::List(items)) => list_texts(items@),
            Some(Json::Object(members)) => match Json::Object(members).spec_text_at("id"@) {
                Some(id) => seq![id],
                None => Seq::empty(),
            },
            _ => Seq::empty(),
        }
    }

    /// The first URI that the member with this name holds.
    pub open spec fn spec_uri(self, name: Seq<char>) -> Option<Seq<char>> {
        if self.spec_uris(name).len() > 0 {
            Some(self.spec_uris(name)[0])
        } else {
            None
        }
    }

    /// The moment that the member with this name tells, if it is an
    /// RFC 3339 text.
    pub open spec fn spec_time(self, name: Seq<char>) -> Option<i64> {
        match self.spec_text_at(name) {
            Some(text) => rfc3339_seconds(text),
            None => None,
        }
    }

    /// The value of the first member with this name.
    pub fn get(&self, name: &str) -> (r: Option<&Json>)
        ensures
            match r {
                Some(v) => self.spec_get(name@) == Some(*v),
                None => self.spec_get(name@).is_none(),
            },
    {
        match self {
            Json::Object(members) => {
                let key = name.to_owned();
                let mut i: usize = 0;
                while i < members.len()
                    invariant
                        i <= members.len(),
                        key@ == name@,
                        self.members() == members@,
                        forall|j: int| 0 <= j < i ==> member_names(members@)[j] != name@,
                    decreases members.len() - i,
                {
                    if members[i].name == key {
                        proof {
                            lemma_first_index_is(member_names(members@), name@, i as int);
                        }
                        return Some(&members[i].value);
                    }
                    i += 1;
                }
                proof {
                    lemma_first_index_absent(member_names(members@), name@);
                }
                None
            },
            _ => None,
        }
    }

    /// The text of the member with this name, if it is a text.
    pub fn text_at(&self, name: &str) -> (r: Option<&String>)
        ensures
            match r {
                Some(s) => self.spec_text_at(name@) == Some(s@),
                None => self.spec_text_at(name@).is_none(),
            },
    {
        match self.get(name) {
            Some(Json::Text(s)) => Some(s),
            _ => None,
        }
    }

    /// The URIs that the member with this name holds.
    pub fn uris(&self, name: &str) -> (r: Vec<String>)
        ensures
            texts(r@) == self.spec_uris(name@),
    {
        let mut out: Vec<String> = Vec::new();
        assert(texts(out@) =~= Seq::empty());
        match self.get(name) {
            Some(Json::Text(s)) => {
                out.push(s.clone());
                assert(texts(out@) =~= seq![s@]);
            },
            Some(Json::List(items)) => {
                let mut i: usize = 0;
                assert(items@.take(0) =~= Seq::empty());
                while i < items.len()
                    invariant
                        i <= items.len(),
                        texts(out@) == list_texts(items@.take(i as int)),
                    decreases items.len() - i,
                {
                    let ghost before = texts(out@);
                    proof {
                        assert(items@.take(i + 1).drop_last() =~= items@.take(i as int));
                        assert(items@.take(i + 1).last() == items@[i as int]);
                    }
                    match &items[i] {
                        Json::Text(s) => {
                            out.push(s.clone());
                            assert(texts(out@) =~= before.push(s@));
                        },
                        _ => {},
                    }
                    i += 1;
                }
                assert(items@.take(items.len() as int) =~= items@);
            },
            Some(Json::Object(members)) => {
                let inner = self.get(name).unwrap();
                match inner.text_at("id") {
                    Some(id) => {
                        out.push(id.clone());
                        assert(texts(out@) =~= seq![id@]);
                    },
                    None => {},
                }
            },
            _ => {},
        }
        out
    }

    /// The first URI that the member with this name holds.
    pub fn uri(&self, name: &str) -> (r: Option<String>)
        ensures
            opt_view(r) == self.spec_uri(name@),
    {
        let all = self.uris(name);
        if all.len() > 0 {
            assert(texts(all@)[0] == all@[0]@);
            Some(all[0].clone())
        } else {
            None
        }
    }

    /// The moment that the member with this name tells.
    pub fn time(&self, name: &str) -> (r: Option<i64>)
        ensures
            r == self.spec_time(name@),
    {
        match self.text_at(name) {
            Some(text) => parse_rfc3339(text.as_str()),
            None => None,
        }
    }
}

// ----- objects -----

/// The time a document declares in one of two members, the first going
/// before the second; zero when it declares none.
pub open spec fn declared_time(v: Json, first: Seq<char>, second: Seq<char>) -> i64 {
    match v.spec_time(first) {
        Some(t) => t,
        None => match v.spec_time(second) {
            Some(t) => t,
            None => 0,
        },
    }
}

/// Whom a document is attributed to: whom it says, and itself if it is
/// the profile of a person or a community and says nothing.
pub open spec fn spec_attribution(v: Json) -> Option<Seq<char>> {
    match v.spec_uri("attributedTo"@) {
        Some(uri) => Some(uri),
        None => if v.spec_text_at("type"@) == Some("Person"@) || v.spec_text_at("type"@) == Some(
            "Group"@,
        ) {
            v.spec_text_at("id"@)
        } else {
            None
        },
    }
}

/// The object document that a JSON value spells. It must have an `id`, a
/// `type` and an attribution; its content is its `content`, or else its
/// `name`.
pub open spec fn spec_object_doc(v: Json) -> Option<DocView> {
    match (v.spec_text_at("id"@), v.spec_text_at("type"@), spec_attribution(v)) {
        (Some(id), Some(kind), Some(attributed_to)) => Some(
            DocView {
                id,
                kind,
                attributed_to,
                parent: v.spec_uri("inReplyTo"@),
                to: v.spec_uri("to"@),
                content: match v.spec_text_at("content"@) {
                    Some(content) => content,
                    None => match v.spec_text_at("name"@) {
                        Some(name) => name,
                        None => Seq::empty(),
                    },
                },
                published: declared_time(v, "published"@, "published"@),
                updated: v.spec_time("updated"@),
            },
        ),
        _ => None,
    }
}

/// Reads an object document.
pub fn object_from_json(v: &Json) -> (r: Option<ObjectDoc>)
    ensures
        match r {
            Some(doc) => spec_object_doc(*v) == Some(doc@),
            None => spec_object_doc(*v).is_none(),
        },
{
    let id = match v.text_at("id") {
        Some(id) => id.clone(),
        None => {
            return None;
        },
    };
    let kind = match v.text_at("type") {
        Some(kind) => kind.clone(),
        None => {
            return None;
        },
    };
    let attributed_to = match v.uri("attributedTo") {
        Some(uri) => uri,
        None => {
            if kind == "Person".to_owned() || kind == "Group".to_owned() {
                id.clone()
            } else {
                return None;
            }
        },
    };
    let content = match v.text_at("content") {
        Some(content) => content.clone(),
        None => match v.text_at("name") {
            Some(name) => name.clone(),
            None => String::new(),
        },
    };
    let published = match v.time("published") {
        Some(t) => t,
        None => 0,
    };
    Some(
        ObjectDoc {
            id,
            kind,
            attributed_to,
            parent: v.uri("inReplyTo"),
            to: v.uri("to"),
            content,
            published,
            updated: v.time("updated"),
        },
    )
}

// ----- actors -----

/// Whether a JSON value spells an actor document: it has an `id`, a name
/// (`preferredUsername`, or else `name`), an `inbox`, and a `publicKey`
/// with a `publicKeyPem`.
pub open spec fn spells_actor(v: Json) -> bool {
    &&& v.spec_text_at("id"@).is_some()
    &&& v.spec_text_at("preferredUsername"@).is_some() || v.spec_text_at("name"@).is_some()
    &&& v.spec_text_at("inbox"@).is_some()
    &&& v.spec_get("publicKey"@).is_some()
    &&& v.spec_get("publicKey"@).unwrap().spec_text_at("publicKeyPem"@).is_some()
}

/// The shared inbox that an actor document names, under `endpoints`.
pub open spec fn spec_shared_inbox_url(v: Json) -> Option<Seq<char>> {
    match v.spec_get("endpoints"@) {
        Some(endpoints) => endpoints.spec_text_at("sharedInbox"@),
        None => None,
    }
}

/// Reads an actor document.
pub fn actor_from_json(v: &Json) -> (r: Option<ActorDoc>)
    ensures
        r.is_some() <==> spells_actor(*v),
        r matches Some(doc) ==> {
            &&& Some(doc.id@) == v.spec_text_at("id"@)
            &&& Some(doc.name@) == (match v.spec_text_at("preferredUsername"@) {
                Some(name) => Some(name),
                None => v.spec_text_at("name"@),
            })
            &&& Some(doc.inbox_url@) == v.spec_text_at("inbox"@)
            &&& Some(doc.public_key@) == v.spec_get("publicKey"@).unwrap().spec_text_at(
                "publicKeyPem"@,
            )
            &&& opt_view(doc.shared_inbox_url) == spec_shared_inbox_url(*v)
        },
{
    let id = match v.text_at("id") {
        Some(id) => id.clone(),
        None => {
            return None;
        },
    };
    let name = match v.text_at("preferredUsername") {
        Some(name) => name.clone(),
        None => match v.text_at("name") {
            Some(name) => name.clone(),
            None => {
                return None;
            },
        },
    };
    let inbox_url = match v.text_at("inbox") {
        Some(inbox) => inbox.clone(),
        None => {
            return None;
        },
    };
    let public_key = match v.get("publicKey") {
        Some(key) => match key.text_at("publicKeyPem") {
            Some(pem) => pem.clone(),
            None => {
                return None;
            },
        },
        None => {
            return None;
        },
    };
    let shared_inbox_url = match v.get("endpoints") {
        Some(endpoints) => match endpoints.text_at("sharedInbox") {
            Some(shared) => Some(shared.clone()),
            None => None,
        },
        None => None,
    };
    Some(ActorDoc { id, name, public_key, inbox_url, shared_inbox_url })
}

// ----- activities -----

/// How deep activities may be nested in a payload: an `Announce` of an
/// `Undo` of an activity is the deepest that is read.
pub const MAX_NESTING: u8 = 2;

/// A value that has an actor and an object is taken for an activity.
pub open spec fn is_activity(v: Json) -> bool {
    v.spec_get("actor"@).is_some() && v.spec_get("object"@).is_some()
}

/// Whether a JSON value spells an activity with no more than `depth`
/// activities nested in it. An activity has an `id`, a `type`, an actor
/// and an object; the object is a URI, an activity, or an object
/// document.
pub open spec fn spells_activity(v: Json, depth: nat) -> bool
    decreases depth,
{
    &&& v.spec_text_at("id"@).is_some()
    &&& v.spec_text_at("type"@).is_some()
    &&& v.spec_uri("actor"@).is_some()
    &&& match v.spec_get("object"@) {
        None => false,
        Some(Json::Text(_)) => true,
        Some(inner) => if is_activity(inner) {
            depth > 0 && spells_activity(inner, (depth - 1) as nat)
        } else {
            spec_object_doc(inner).is_some()
        },
    }
}

/// Whether `a` is the activity that a JSON value spells.
pub open spec fn spelled_by(a: Activity, v: Json, depth: nat) -> bool
    decreases depth,
{
    &&& Some(a.id@) == v.spec_text_at("id"@)
    &&& Some(a.kind.spec_name()) == v.spec_text_at("type"@)
    &&& a.kind.known() == spec_valid_type(a.kind.spec_name())
    &&& Some(a.actor@) == v.spec_uri("actor"@)
    &&& texts(a.to@) == v.spec_uris("to"@)
    &&& texts(a.cc@) == v.spec_uris("cc"@)
    &&& a.updated == declared_time(v, "updated"@, "published"@)
    &&& match v.spec_get("object"@) {
        None => false,
        Some(Json::Text(uri)) => a.body is Link && a.body->Link_0@ == uri@,
        Some(inner) => if is_activity(inner) {
            depth > 0 && a.body is Activity && spelled_by(
                *a.body->Activity_0,
                inner,
                (depth - 1) as nat,
            )
        } else {
            a.body is Object && Some(a.body->Object_0@) == spec_object_doc(inner)
        },
    }
}

/// Reads an activity in which no more than `depth` activities are nested.
pub fn activity_from_json(v: &Json, depth: u8) -> (r: Option<Activity>)
    ensures
        r.is_some() <==> spells_activity(*v, depth as nat),
        r matches Some(a) ==> spelled_by(a, *v, depth as nat),
    decreases depth,
{
    let id = match v.text_at("id") {
        Some(id) => id.clone(),
        None => {
            return None;
        },
    };
    let kind = match v.text_at("type") {
        Some(kind) => ActivityKind::from_name(kind.as_str()),
        None => {
            return None;
        },
    };
    let actor = match v.uri("actor") {
        Some(actor) => actor,
        None => {
            return None;
        },
    };
    let body = match v.get("object") {
        None => {
            return None;
        },
        Some(Json::Text(uri)) => ActivityBody::Link(uri.clone()),
        Some(inner) => {
            if inner.get("actor").is_some() && inner.get("object").is_some() {
                if depth == 0 {
                    return None;
                }
                match activity_from_json(inner, depth - 1) {
                    Some(nested) => ActivityBody::Activity(Box::new(nested)),
                    None => {
                        return None;
                    },
                }
            } else {
                match object_from_json(inner) {
                    Some(doc) => ActivityBody::Object(doc),
                    None => {
                        return None;
                    },
                }
            }
        },
    };
    let updated = match v.time("updated") {
        Some(t) => t,
        None => match v.time("published") {
            Some(t) => t,
            None => 0,
        },
    };
    Some(Activity { id, kind, actor, to: v.uris("to"), cc: v.uris("cc"), updated, body })
}

/// Reads the activity of a payload.
pub fn read_activity(v: &Json) -> (r: Option<Activity>)
    ensures
        r.is_some() <==> spells_activity(*v, MAX_NESTING as nat),
        r matches Some(a) ==> spelled_by(a, *v, MAX_NESTING as nat),
{
    activity_from_json(v, MAX_NESTING)
}

} // verus!
