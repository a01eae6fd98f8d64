//! The release event and how it is decoded from a request body.
//!
//! The body is JSON. Reading JSON is left to `serde_json`; which members the
//! event needs, and what happens when one of them is not there, is decided
//! here.

use vstd::prelude::*;
use vstd::string::StringExecFns;
use crate::text::text_view;

verus! {

/// A release notification, decoded.
#[derive(Clone, Debug, PartialEq, Eq)]
pub struct ReleaseEvent {
    /// The state word of the notification, such as `published` or `created`.
    pub action: String,
    /// The release identifier. It is an opaque token and becomes the one
    /// argument of the deployment script.
    pub tag: String,
    pub is_draft: bool,
    pub is_prerelease: bool,
    /// Informational only.
    pub repository_full_name: String,
}

/// The mathematical content of a [`ReleaseEvent`].
pub struct ReleaseEventView {
    pub action: Seq<char>,
    pub tag: Seq<char>,
    pub is_draft: bool,
    pub is_prerelease: bool,
    pub repository_full_name: Seq<char>,
}

impl View for ReleaseEvent {
    type V = ReleaseEventView;

    open spec fn view(&self) -> ReleaseEventView {
        ReleaseEventView {
            action: self.action@,
            tag: self.tag@,
            is_draft: self.is_draft,
            is_prerelease: self.is_prerelease,
            repository_full_name: self.repository_full_name@,
        }
    }
}

/// The members that every release event must carry, in the order in which
/// they are looked for.
#[derive(Clone, Copy, Debug, PartialEq, Eq, Structural)]
pub enum RequiredField {
    /// `action`
    Action,
    /// `tag_name` of `release`
    TagName,
    /// `draft` of `release`
    Draft,
    /// `prerelease` of `release`
    Prerelease,
    /// `full_name` of `repository`
    FullName,
}

/// Why a body could not be decoded.
#[derive(Clone, Copy, Debug, PartialEq, Eq, Structural)]
pub enum DecodeError {
    /// The body is not well-formed JSON.
    Malformed,
    /// The body is well-formed, but this member is not in it with the type
    /// that the schema gives it.
    MissingField(RequiredField),
}

/// The name of a member as the body writes it.
pub open spec fn field_name(field: RequiredField) -> Seq<char> {
    match field {
        RequiredField::Action => "action"@,
        RequiredField::TagName => "tag_name"@,
        RequiredField::Draft => "draft"@,
        RequiredField::Prerelease => "prerelease"@,
        RequiredField::FullName => "full_name"@,
    }
}

/// The error in words; a missing member is named.
pub open spec fn decode_error_text(error: DecodeError) -> Seq<char> {
    match error {
        DecodeError::Malformed => "body is not well-formed JSON"@,
        DecodeError::MissingField(field) => "missing field `"@ + field_name(field) + "`"@,
    }
}

impl RequiredField {
    /// The name of the member as the body writes it.
    pub fn name(&self) -> (name: &'static str)
        ensures
            name@ == field_name(*self),
    {
        match self {
            RequiredField::Action => "action",
            RequiredField::TagName => "tag_name",
            RequiredField::Draft => "draft",
            RequiredField::Prerelease => "prerelease",
            RequiredField::FullName => "full_name",
        }
    }
}

impl DecodeError {
    /// The error in words; a missing member is named.
    pub fn describe(&self) -> (text: String)
        ensures
            text@ == decode_error_text(*self),
    {
        match self {
            DecodeError::Malformed => "body is not well-formed JSON".to_owned(),
            DecodeError::MissingField(field) => {
                let mut text = "missing field `".to_owned();
                text.append(field.name());
                text.append("`");
                text
            },
        }
    }
}

/// What a well-formed body holds at the places where the required members
/// stand: `None` where a member is absent or has another type.
#[derive(Clone, Debug, PartialEq, Eq)]
pub struct ReleaseFields {
    pub action: Option<String>,
    pub tag_name: Option<String>,
    pub draft: Option<bool>,
    pub prerelease: Option<bool>,
    pub full_name: Option<String>,
}

/// The mathematical content of a [`ReleaseFields`].
pub struct ReleaseFieldsView {
    pub action: Option<Seq<char>>,
    pub tag_name: Option<Seq<char>>,
    pub draft: Option<bool>,
    pub prerelease: Option<bool>,
    pub full_name: Option<Seq<char>>,
}

impl View for ReleaseFields {
    type V = ReleaseFieldsView;

    open spec fn view(&self) -> ReleaseFieldsView {
        ReleaseFieldsView {
            action: text_view(self.action),
            tag_name: text_view(self.tag_name),
            draft: self.draft,
            prerelease: self.prerelease,
            full_name: text_view(self.full_name),
        }
    }
}

/// The event that the found members make up, or the first required member
/// that is missing.
pub open spec fn assemble_spec(fields: ReleaseFieldsView) -> Result<ReleaseEventView, DecodeError> {
    if fields.action is None {
        Err(DecodeError::MissingField(RequiredField::Action))
    } else if fields.tag_name is None {
        Err(DecodeError::MissingField(RequiredField::TagName))
    } else if fields.draft is None {
        Err(DecodeError::MissingField(RequiredField::Draft))
    } else if fields.prerelease is None {
        Err(DecodeError::MissingField(RequiredField::Prerelease))
    } else if fields.full_name is None {
        Err(DecodeError::MissingField(RequiredField::FullName))
    } else {
        Ok(
            ReleaseEventView {
                action: fields.action->0,
                tag: fields.tag_name->0,
                is_draft: fields.draft->0,
                is_prerelease: fields.prerelease->0,
                repository_full_name: fields.full_name->0,
            },
        )
    }
}

/// The mathematical content of what [`decode`] and [`assemble`] return.
pub open spec fn decoded_view(result: Result<ReleaseEvent, DecodeError>) -> Result<
    ReleaseEventView,
    DecodeError,
> {
    match result {
        Ok(event) => Ok(event@),
        Err(error) => Err(error),
    }
}

/// Builds the event from the members that were found. No member has a
/// default: the first one that is missing, in the order of
/// [`RequiredField`], is reported.
pub fn assemble(fields: ReleaseFields) -> (result: Result<ReleaseEvent, DecodeError>)
    ensures
        decoded_view(result) == assemble_spec(fields@),
{
    let action = match fields.action {
        Some(action) => action,
        None => return Err(DecodeError::MissingField(RequiredField::Action)),
    };
    let tag = match fields.tag_name {
        Some(tag) => tag,
        None => return Err(DecodeError::MissingField(RequiredField::TagName)),
    };
    let is_draft = match fields.draft {
        Some(draft) => draft,
        None => return Err(DecodeError::MissingField(RequiredField::Draft)),
    };
    let is_prerelease = match fields.prerelease {
        Some(prerelease) => prerelease,
        None => return Err(DecodeError::MissingField(RequiredField::Prerelease)),
    };
    let repository_full_name = match fields.full_name {
        Some(full_name) => full_name,
        None => return Err(DecodeError::MissingField(RequiredField::FullName)),
    };
    Ok(ReleaseEvent { action, tag, is_draft, is_prerelease, repository_full_name })
}

/// `serde_json::Value`, a parsed JSON document or a part of one. Nothing
/// inside it is visible here: it is read through the four functions below.
#[verifier::external_type_specification]
#[verifier::external_body]
pub struct ExJsonValue(serde_json::Value);

/// The document that `serde_json::from_slice` reads from `body`, or `None`
/// where it reports an error.
pub uninterp spec fn json_document(body: Seq<u8>) -> Option<serde_json::Value>;

/// What `serde_json::Value::get` finds in `value` under the text `key`.
pub uninterp spec fn json_member(value: serde_json::Value, key: Seq<char>) -> Option<
    serde_json::Value,
>;

/// What `serde_json::Value::as_str` makes of `value`.
pub uninterp spec fn json_text(value: serde_json::Value) -> Option<Seq<char>>;

/// What `serde_json::Value::as_bool` makes of `value`.
pub uninterp spec fn json_flag(value: serde_json::Value) -> Option<bool>;

/// Calls `serde_json::from_slice` for a `serde_json::Value`. Trusted: the
/// outcome is a function of the bytes alone, with the parser's error turned
/// into `None`.
#[verifier::external_body]
fn parse_document(body: &[u8]) -> (document: Option<serde_json::Value>)
    ensures
        document == json_document(body@),
{
    serde_json::from_slice::<serde_json::Value>(body).ok()
}

/// Calls `serde_json::Value::get` with a text key. Trusted: what is found
/// is a function of the value and the key alone.
#[verifier::external_body]
fn member<'a>(value: &'a serde_json::Value, key: &str) -> (found: Option<&'a serde_json::Value>)
    ensures
        match found {
            Some(inner) => json_member(*value, key@) == Some(*inner),
            None => json_member(*value, key@) is None,
        },
{
    value.get(key)
}

/// Calls `serde_json::Value::as_str` and copies the text. Trusted: the
/// text is a function of the value alone.
#[verifier::external_body]
fn as_text(value: &serde_json::Value) -> (text: Option<String>)
    ensures
        text_view(text) == json_text(*value),
{
    match value.as_str() {
        Some(text) => Some(text.to_owned()),
        None => None,
    }
}

/// Calls `serde_json::Value::as_bool`. Trusted: the flag is a function of
/// the value alone.
#[verifier::external_body]
fn as_flag(value: &serde_json::Value) -> (flag: Option<bool>)
    ensures
        flag == json_flag(*value),
{
    value.as_bool()
}

/// The text that stands in `object` under `key`, if `object` is there and
/// holds a text under that key.
pub open spec fn member_text(object: Option<serde_json::Value>, key: Seq<char>) -> Option<
    Seq<char>,
> {
    match object {
        Some(object) => match json_member(object, key) {
            Some(value) => json_text(value),
            None => None,
        },
        None => None,
    }
}

/// The flag that stands in `object` under `key`, if `object` is there and
/// holds a flag under that key.
pub open spec fn member_flag(object: Option<serde_json::Value>, key: Seq<char>) -> Option<bool> {
    match object {
        Some(object) => match json_member(object, key) {
            Some(value) => json_flag(value),
            None => None,
        },
        None => None,
    }
}

/// What `document` holds at the places of the required members: `action` at
/// the top, `tag_name`, `draft` and `prerelease` inside `release`, and
/// `full_name` inside `repository`. Every other member is ignored.
pub open spec fn fields_of(document: serde_json::Value) -> ReleaseFieldsView {
    let release = json_member(document, "release"@);
    let repository = json_member(document, "repository"@);
    ReleaseFieldsView {
        action: member_text(Some(document), "action"@),
        tag_name: member_text(release, "tag_name"@),
        draft: member_flag(release, "draft"@),
        prerelease: member_flag(release, "prerelease"@),
        full_name: member_text(repository, "full_name"@),
    }
}

/// What a body decodes to: `Malformed` where it is not well-formed JSON,
/// else what [`assemble_spec`] makes of the members found in it.
pub open spec fn decode_spec(body: Seq<u8>) -> Result<ReleaseEventView, DecodeError> {
    match json_document(body) {
        Some(document) => assemble_spec(fields_of(document)),
        None => Err(DecodeError::Malformed),
    }
}

fn text_in(object: Option<&serde_json::Value>, key: &str) -> (text: Option<String>)
    ensures
        text_view(text) == member_text(
            match object {
                Some(object) => Some(*object),
                None => None,
            },
            key@,
        ),
{
    match object {
        Some(object) => match member(object, key) {
            Some(value) => as_text(value),
            None => None,
        },
        None => None,
    }
}

fn flag_in(object: Option<&serde_json::Value>, key: &str) -> (flag: Option<bool>)
    ensures
        flag == member_flag(
            match object {
                Some(object) => Some(*object),
                None => None,
            },
            key@,
        ),
{
    match object {
        Some(object) => match member(object, key) {
            Some(value) => as_flag(value),
            None => None,
        },
        None => None,
    }
}

fn extract(document: &serde_json::Value) -> (fields: ReleaseFields)
    ensures
        fields@ == fields_of(*document),
{
    let release = member(document, "release");
    let repository = member(document, "repository");
    ReleaseFields {
        action: text_in(Some(document), "action"),
        tag_name: text_in(release, "tag_name"),
        draft: flag_in(release, "draft"),
        prerelease: flag_in(release, "prerelease"),
        full_name: text_in(repository, "full_name"),
    }
}

/// Decodes a request body into a release event.
///
/// The body must be well-formed JSON, else the error is `Malformed`. Members
/// that the event does not need are ignored. A required member that is absent,
/// or has another type than the schema gives it, is reported as missing; none
/// is ever given a default.
pub fn decode(body: &[u8]) -> (result: Result<ReleaseEvent, DecodeError>)
    ensures
        decoded_view(result) == decode_spec(body@),
{
    match parse_document(body) {
        Some(document) => assemble(extract(&document)),
        None => Err(DecodeError::Malformed),
    }
}

} // verus!
