//! Private messages between two actors, as they go over the wire.

use vstd::prelude::*;
use crate::apub::fetcher::{check_is_apub_id_valid, valid_apub_id, FederationConfig};
use crate::apub::model::{Activity, ActivityBody, ActivityKind, DocView, ObjectDoc, ValidTypes};
use crate::apub::origin::{check_same_origin, same_origin};
use crate::text::{opt_view, texts};

verus! {

/// A private message as it is stored.
#[derive(Debug)]
pub struct PrivateMessage {
    pub id: i32,
    /// URI of the writing actor.
    pub creator: String,
    /// URI of the receiving actor.
    pub recipient: String,
    pub content: String,
    pub deleted: bool,
    pub read: bool,
    pub published: i64,
    pub updated: Option<i64>,
    pub ap_id: String,
    pub local: bool,
}

/// What is written to storage for a private message.
#[derive(Debug)]
pub struct PrivateMessageForm {
    pub creator: String,
    pub recipient: String,
    pub content: String,
    pub published: Option<i64>,
    pub updated: Option<i64>,
    pub deleted: Option<bool>,
    pub read: Option<bool>,
    pub ap_id: Option<String>,
    pub local: bool,
}

/// What is left of an object that was deleted.
#[derive(Debug)]
pub struct Tombstone {
    pub id: String,
    /// Type name of the object that was deleted.
    pub former_type: String,
    /// Time of the deletion.
    pub deleted: i64,
}

/// Why a message has no tombstone.
#[derive(Clone, Copy, Debug, PartialEq, Eq, Structural)]
pub enum TombstoneError {
    /// The object has not been deleted.
    NotDeleted,
    /// The object does not say when it was deleted.
    NoDeletionTime,
}

/// Why a note cannot be read as a private message.
#[derive(Clone, Copy, Debug, PartialEq, Eq, Structural)]
pub enum FromApubError {
    /// The note is not a private message: it names no recipient.
    NoRecipient,
    /// The note's URI is malformed or points at a domain that may not
    /// federate.
    InvalidId,
    /// The note does not live on the domain it is expected from.
    OriginMismatch,
}

/// The note that a private message is on the wire.
pub open spec fn spec_to_apub(pm: PrivateMessage) -> DocView {
    DocView {
        id: pm.ap_id@,
        kind: "Note"@,
        attributed_to: pm.creator@,
        parent: None,
        to: Some(pm.recipient@),
        content: pm.content@,
        published: pm.published,
        updated: pm.updated,
    }
}

/// Whether a note can be read as a private message from the expected
/// domain, and if not, why.
pub open spec fn spec_from_apub_error(
    note: ObjectDoc,
    cfg: FederationConfig,
    expected_domain: Option<String>,
) -> Option<FromApubError> {
    if note.to.is_none() {
        Some(FromApubError::NoRecipient)
    } else if !valid_apub_id(cfg, note.id@) {
        Some(FromApubError::InvalidId)
    } else if expected_domain.is_some() && !same_origin(expected_domain.unwrap()@, note.id@) {
        Some(FromApubError::OriginMismatch)
    } else {
        None
    }
}

impl PrivateMessage {
    /// The message as a note.
    pub fn to_apub(&self) -> (r: ObjectDoc)
        ensures
            r@ == spec_to_apub(*self),
    {
        ObjectDoc {
            id: self.ap_id.clone(),
            kind: "Note".to_owned(),
            attributed_to: self.creator.clone(),
            parent: None,
            to: Some(self.recipient.clone()),
            content: self.content.clone(),
            published: self.published,
            updated: self.updated,
        }
    }

    /// What is left of the message once it is deleted. Only a deleted
    /// message that says when it was changed last has a tombstone.
    pub fn to_tombstone(&self) -> (r: Result<Tombstone, TombstoneError>)
        ensures
            !self.deleted ==> r is Err && r->Err_0 == TombstoneError::NotDeleted,
            self.deleted && self.updated.is_none() ==> r is Err && r->Err_0
                == TombstoneError::NoDeletionTime,
            self.deleted && self.updated.is_some() ==> r is Ok && r->Ok_0.id@ == self.ap_id@
                && r->Ok_0.former_type@ == "Note"@ && r->Ok_0.deleted == self.updated.unwrap(),
    {
        if self.deleted {
            match self.updated {
                Some(updated) => Ok(
                    Tombstone {
                        id: self.ap_id.clone(),
                        former_type: "Note".to_owned(),
                        deleted: updated,
                    },
                ),
                None => Err(TombstoneError::NoDeletionTime),
            }
        } else {
            Err(TombstoneError::NotDeleted)
        }
    }

    /// An activity of the message's creator about the message, addressed
    /// to the recipient's inbox.
    fn activity_about(&self, kind: ValidTypes, activity_id: String, recipient_inbox: &String, now: i64)
        -> (r: Activity)
        ensures
            r.id == activity_id,
            r.kind.known() == Some(kind),
            r.actor@ == self.creator@,
            texts(r.to@) == seq![recipient_inbox@],
            r.cc@.len() == 0,
            r.updated == now,
            r.body is Object,
            r.body->Object_0@ == spec_to_apub(*self),
    {
        let mut to: Vec<String> = Vec::new();
        to.push(recipient_inbox.clone());
        assert(texts(to@) =~= seq![recipient_inbox@]);
        Activity {
            id: activity_id,
            kind: ActivityKind::Known(kind),
            actor: self.creator.clone(),
            to,
            cc: Vec::new(),
            updated: now,
            body: ActivityBody::Object(self.to_apub()),
        }
    }

    /// The `Create` that tells the recipient of a new message.
    pub fn send_create(&self, activity_id: String, recipient_inbox: &String, now: i64) -> (r:
        Activity)
        ensures
            r.id == activity_id,
            r.kind.known() == Some(ValidTypes::Create),
            r.actor@ == self.creator@,
            texts(r.to@) == seq![recipient_inbox@],
            r.cc@.len() == 0,
            r.updated == now,
            r.body is Object,
            r.body->Object_0@ == spec_to_apub(*self),
    {
        self.activity_about(ValidTypes::Create, activity_id, recipient_inbox, now)
    }

    /// The `Update` that tells the recipient of an edited message.
    pub fn send_update(&self, activity_id: String, recipient_inbox: &String, now: i64) -> (r:
        Activity)
        ensures
            r.id == activity_id,
            r.kind.known() == Some(ValidTypes::Update),
            r.actor@ == self.creator@,
            texts(r.to@) == seq![recipient_inbox@],
            r.cc@.len() == 0,
            r.updated == now,
            r.body is Object,
            r.body->Object_0@ == spec_to_apub(*self),
    {
        self.activity_about(ValidTypes::Update, activity_id, recipient_inbox, now)
    }

    /// The `Delete` that tells the recipient of a deleted message.
    pub fn send_delete(&self, activity_id: String, recipient_inbox: &String, now: i64) -> (r:
        Activity)
        ensures
            r.id == activity_id,
            r.kind.known() == Some(ValidTypes::Delete),
            r.actor@ == self.creator@,
            texts(r.to@) == seq![recipient_inbox@],
            r.cc@.len() == 0,
            r.updated == now,
            r.body is Object,
            r.body->Object_0@ == spec_to_apub(*self),
    {
        self.activity_about(ValidTypes::Delete, activity_id, recipient_inbox, now)
    }

    /// The `Undo` that tells the recipient that a message is no longer
    /// deleted. It wraps the `Delete` it takes back.
    pub fn send_undo_delete(
        &self,
        delete_id: String,
        undo_id: String,
        recipient_inbox: &String,
        now: i64,
    ) -> (r: Activity)
        ensures
            r.id == undo_id,
            r.kind.known() == Some(ValidTypes::Undo),
            r.actor@ == self.creator@,
            texts(r.to@) == seq![recipient_inbox@],
            r.cc@.len() == 0,
            r.updated == now,
            r.body is Activity,
            r.body->Activity_0.id == delete_id,
            r.body->Activity_0.kind.known() == Some(ValidTypes::Delete),
            r.body->Activity_0.actor@ == self.creator@,
            r.body->Activity_0.body is Object,
            r.body->Activity_0.body->Object_0@ == spec_to_apub(*self),
    {
        let delete = self.send_delete(delete_id, recipient_inbox, now);
        let mut to: Vec<String> = Vec::new();
        to.push(recipient_inbox.clone());
        assert(texts(to@) =~= seq![recipient_inbox@]);
        Activity {
            id: undo_id,
            kind: ActivityKind::Known(ValidTypes::Undo),
            actor: self.creator.clone(),
            to,
            cc: Vec::new(),
            updated: now,
            body: ActivityBody::Activity(Box::new(delete)),
        }
    }
}

impl PrivateMessageForm {
    /// Reads a note received from another server as a private message.
    /// The note must name a recipient, its URI must be one that may
    /// federate, and it must live on the expected domain where one is
    /// given.
    pub fn from_apub(note: &ObjectDoc, cfg: &FederationConfig, expected_domain: &Option<String>)
        -> (r: Result<PrivateMessageForm, FromApubError>)
        ensures
            match spec_from_apub_error(*note, *cfg, *expected_domain) {
                Some(e) => r is Err && r->Err_0 == e,
                None => r is Ok && ({
                    let form = r->Ok_0;
                    &&& form.creator@ == note.attributed_to@
                    &&& Some(form.recipient@) == opt_view(note.to)
                    &&& form.content@ == note.content@
                    &&& form.published == Some(note.published)
                    &&& form.updated == note.updated
                    &&& form.deleted.is_none()
                    &&& form.read.is_none()
                    &&& opt_view(form.ap_id) == Some(note.id@)
                    &&& !form.local
                }),
            },
    {
        let recipient = match &note.to {
            Some(to) => to,
            None => {
                return Err(FromApubError::NoRecipient);
            },
        };
        if !check_is_apub_id_valid(cfg, note.id.as_str()) {
            return Err(FromApubError::InvalidId);
        }
        if let Some(expected) = expected_domain {
            if !check_same_origin(expected.as_str(), note.id.as_str()) {
                return Err(FromApubError::OriginMismatch);
            }
        }
        Ok(
            PrivateMessageForm {
                creator: note.attributed_to.clone(),
                recipient: recipient.clone(),
                content: note.content.clone(),
                published: Some(note.published),
                updated: note.updated,
                deleted: None,
                read: None,
                ap_id: Some(note.id.clone()),
                local: false,
            },
        )
    }
}

} // verus!
