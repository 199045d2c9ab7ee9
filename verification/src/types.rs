use vstd::prelude::*;
use vstd::string::StrSliceExecFns;

verus! {

/// Outcome of a core operation: the closed set of statuses reported to the
/// transport layer. Authentication and ownership failures each collapse to a
/// single variant so the caller cannot tell the causes apart.
#[derive(Clone, Copy, Debug, PartialEq, Eq, Structural)]
pub enum Status {
    /// Missing, unknown, or expired session; never distinguished.
    Unauthenticated,
    /// Unknown id, or an id outside the caller's ownership chain; never distinguished.
    NotFound,
    /// The payload failed shape, range, or enumeration validation.
    UnprocessableEntity,
    /// A row was inserted.
    Created,
    /// A scoped read or replace succeeded.
    Okay,
    /// A row was removed.
    NoContent,
    /// A storage operation failed for reasons unrelated to ownership.
    InternalError,
}

/// The recognized template provider kinds: a closed enumeration with an
/// exhaustive mapping to its stored string form.
#[derive(Clone, Copy, Debug, PartialEq, Eq, Structural)]
pub enum Type {
    Linkvertise,
    Lootlabs,
    Workink,
    Shrtfly,
}

impl Type {
    /// The stored string form of a provider kind.
    pub open spec fn spec_str(self) -> Seq<char> {
        match self {
            Type::Linkvertise => "linkvertise"@,
            Type::Lootlabs => "lootlabs"@,
            Type::Workink => "workink"@,
            Type::Shrtfly => "shrtfly"@,
        }
    }

    /// The provider kind a string denotes, if it is exactly one of the four
    /// recognized forms; every other string denotes none.
    pub open spec fn spec_of_str(s: Seq<char>) -> Option<Type> {
        if s == "linkvertise"@ {
            Some(Type::Linkvertise)
        } else if s == "lootlabs"@ {
            Some(Type::Lootlabs)
        } else if s == "workink"@ {
            Some(Type::Workink)
        } else if s == "shrtfly"@ {
            Some(Type::Shrtfly)
        } else {
            None
        }
    }

    pub fn to_string(self) -> (r: String)
        ensures
            r@ == self.spec_str(),
    {
        match self {
            Type::Linkvertise => "linkvertise".to_owned(),
            Type::Lootlabs => "lootlabs".to_owned(),
            Type::Workink => "workink".to_owned(),
            Type::Shrtfly => "shrtfly".to_owned(),
        }
    }

    /// Parses the stored string form back into the enumeration; the sole gate
    /// through which an inbound kind string may reach the store.
    pub fn from_string(s: &str) -> (r: Option<Type>)
        ensures
            r == Type::spec_of_str(s@),
    {
        let owned: String = s.to_owned();
        if owned == "linkvertise".to_owned() {
            Some(Type::Linkvertise)
        } else if owned == "lootlabs".to_owned() {
            Some(Type::Lootlabs)
        } else if owned == "workink".to_owned() {
            Some(Type::Workink)
        } else if owned == "shrtfly".to_owned() {
            Some(Type::Shrtfly)
        } else {
            None
        }
    }
}

/// A resolved identity: the user a valid session stands in for.
pub struct User {
    pub id: i64,
    pub email: String,
    pub created_at: i64,
}

/// Mathematical image of a user.
#[verifier::ext_equal]
pub struct UserView {
    pub id: int,
    pub email: Seq<char>,
    pub created_at: int,
}

impl View for User {
    type V = UserView;

    open spec fn view(&self) -> UserView {
        UserView { id: self.id as int, email: self.email@, created_at: self.created_at as int }
    }
}

/// An application record as stored: owner and the optional webhook fields
/// included. Only detail fetches see the webhook fields.
pub struct ApplicationRow {
    pub id: i64,
    pub user_id: i64,
    pub name: String,
    pub duration: u8,
    pub checkpoints: u8,
    pub prefix: String,
    pub length: u8,
    pub webhook: Option<String>,
    pub webhook_content: Option<String>,
}

/// Mathematical image of a stored application row.
#[verifier::ext_equal]
pub struct ApplicationRowView {
    pub id: int,
    pub user_id: int,
    pub name: Seq<char>,
    pub duration: int,
    pub checkpoints: int,
    pub prefix: Seq<char>,
    pub length: int,
    pub webhook: Option<Seq<char>>,
    pub webhook_content: Option<Seq<char>>,
}

impl View for ApplicationRow {
    type V = ApplicationRowView;

    open spec fn view(&self) -> ApplicationRowView {
        ApplicationRowView {
            id: self.id as int,
            user_id: self.user_id as int,
            name: self.name@,
            duration: self.duration as int,
            checkpoints: self.checkpoints as int,
            prefix: self.prefix@,
            length: self.length as int,
            webhook: match self.webhook {
                Some(ref w) => Some(w@),
                None => None,
            },
            webhook_content: match self.webhook_content {
                Some(ref w) => Some(w@),
                None => None,
            },
        }
    }
}

/// An application as reported to its owner: the owner id is redundant once
/// scoping is enforced and is left out.
pub struct Application {
    pub id: i64,
    pub name: String,
    pub duration: u8,
    pub checkpoints: u8,
    pub prefix: String,
    pub length: u8,
}

/// Mathematical image of a reported application.
#[verifier::ext_equal]
pub struct ApplicationView {
    pub id: int,
    pub name: Seq<char>,
    pub duration: int,
    pub checkpoints: int,
    pub prefix: Seq<char>,
    pub length: int,
}

impl View for Application {
    type V = ApplicationView;

    open spec fn view(&self) -> ApplicationView {
        ApplicationView {
            id: self.id as int,
            name: self.name@,
            duration: self.duration as int,
            checkpoints: self.checkpoints as int,
            prefix: self.prefix@,
            length: self.length as int,
        }
    }
}

/// The mutable field set of an application, as submitted on create and update.
pub struct ApplicationPayload {
    pub name: String,
    pub duration: u8,
    pub checkpoints: u8,
    pub prefix: String,
    pub length: u8,
}

/// Mathematical image of an application payload.
#[verifier::ext_equal]
pub struct ApplicationPayloadView {
    pub name: Seq<char>,
    pub duration: int,
    pub checkpoints: int,
    pub prefix: Seq<char>,
    pub length: int,
}

impl View for ApplicationPayload {
    type V = ApplicationPayloadView;

    open spec fn view(&self) -> ApplicationPayloadView {
        ApplicationPayloadView {
            name: self.name@,
            duration: self.duration as int,
            checkpoints: self.checkpoints as int,
            prefix: self.prefix@,
            length: self.length as int,
        }
    }
}

/// A template record as stored: the parent application included. The kind is
/// held in its stored string form.
pub struct TemplateRow {
    pub id: i64,
    pub application_id: i64,
    pub kind: String,
    pub api_key: String,
    pub api_url: String,
}

/// Mathematical image of a stored template row.
#[verifier::ext_equal]
pub struct TemplateRowView {
    pub id: int,
    pub application_id: int,
    pub kind: Seq<char>,
    pub api_key: Seq<char>,
    pub api_url: Seq<char>,
}

impl View for TemplateRow {
    type V = TemplateRowView;

    open spec fn view(&self) -> TemplateRowView {
        TemplateRowView {
            id: self.id as int,
            application_id: self.application_id as int,
            kind: self.kind@,
            api_key: self.api_key@,
            api_url: self.api_url@,
        }
    }
}

/// A template as reported to the owner of its parent application: the parent
/// id is redundant once scoping is enforced and is left out.
pub struct Template {
    pub id: i64,
    pub kind: String,
    pub api_key: String,
    pub api_url: String,
}

/// Mathematical image of a reported template.
#[verifier::ext_equal]
pub struct TemplateView {
    pub id: int,
    pub kind: Seq<char>,
    pub api_key: Seq<char>,
    pub api_url: Seq<char>,
}

impl View for Template {
    type V = TemplateView;

    open spec fn view(&self) -> TemplateView {
        TemplateView {
            id: self.id as int,
            kind: self.kind@,
            api_key: self.api_key@,
            api_url: self.api_url@,
        }
    }
}

/// The mutable field set of a template, as submitted on create and update,
/// with the kind already past the enumeration gate.
pub struct TemplatePayload {
    pub kind: Type,
    pub api_key: String,
    pub api_url: String,
}

/// Mathematical image of a template payload.
#[verifier::ext_equal]
pub struct TemplatePayloadView {
    pub kind: Type,
    pub api_key: Seq<char>,
    pub api_url: Seq<char>,
}

impl View for TemplatePayload {
    type V = TemplatePayloadView;

    open spec fn view(&self) -> TemplatePayloadView {
        TemplatePayloadView { kind: self.kind, api_key: self.api_key@, api_url: self.api_url@ }
    }
}

/// The ranges an application payload must fall within to be stored: name of
/// 2 to 32 characters, at least one day of duration, 1 to 5 checkpoints, a
/// prefix of 1 to 6 characters, and a generated-key length of 8 to 24.
pub open spec fn spec_payload_valid(p: ApplicationPayloadView) -> bool {
    &&& 2 <= p.name.len() <= 32
    &&& p.duration >= 1
    &&& 1 <= p.checkpoints <= 5
    &&& 1 <= p.prefix.len() <= 6
    &&& 8 <= p.length <= 24
}

/// Decides whether an application payload falls within the stored ranges.
pub fn payload_valid(p: &ApplicationPayload) -> (r: bool)
    ensures
        r == spec_payload_valid(p@),
{
    let name_len = p.name.as_str().unicode_len();
    let prefix_len = p.prefix.as_str().unicode_len();
    !((name_len > 32 || name_len < 2)
        || p.duration < 1
        || (p.checkpoints > 5 || p.checkpoints < 1)
        || (prefix_len > 6 || prefix_len < 1)
        || (p.length > 24 || p.length < 8))
}

} // verus!
