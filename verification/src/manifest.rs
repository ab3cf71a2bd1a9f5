//! The version manifest: the small document that announces the latest
//! firmware version and where its image is found.

use vstd::prelude::*;
use crate::json::{document_strings, json_from_slice, json_string_member, string_members};
use crate::version::{parsed_version, SemanticVersion, VersionError, VersionModel};

verus! {

/// The number of bytes of a response body that are read as the manifest.
/// What a longer body holds beyond them is not looked at.
pub const MANIFEST_BUFFER_SIZE: usize = 256;

/// Why a manifest could not be had.
#[derive(Clone, Copy, Debug, PartialEq, Eq, Structural)]
pub enum FetchError {
    /// The response status was outside 200 to 299.
    UnexpectedStatus(u16),
    /// The response body held no bytes.
    EmptyBody,
    /// The body is no manifest: no JSON object with the two string members,
    /// or its version is no semantic version.
    ParseError,
    /// The request or the reading of its response failed.
    NetworkError,
}

/// The two members of a manifest document, as text.
#[derive(Debug, PartialEq, Eq)]
pub struct UpdateJson {
    pub version: String,
    pub link: String,
}

/// A manifest: the version on offer and the location of its image.
#[derive(Debug, PartialEq, Eq)]
pub struct Update {
    version: SemanticVersion,
    link: String,
}

/// The mathematical value of an [`Update`].
pub struct UpdateModel {
    pub version: VersionModel,
    pub link: Seq<char>,
}

impl View for Update {
    type V = UpdateModel;

    closed spec fn view(&self) -> UpdateModel {
        UpdateModel { version: self.version@, link: self.link@ }
    }
}

impl Clone for UpdateJson {
    fn clone(&self) -> (copy: UpdateJson)
        ensures
            copy.version@ == self.version@,
            copy.link@ == self.link@,
    {
        UpdateJson { version: self.version.clone(), link: self.link.clone() }
    }
}

impl Clone for Update {
    fn clone(&self) -> (copy: Update)
        ensures
            copy@ == self@,
    {
        Update { version: self.version.clone(), link: self.link.clone() }
    }
}

/// Whether a response status lies in the success range.
pub open spec fn status_ok(status: u16) -> bool {
    200 <= status <= 299
}

/// The part of a response body that is read as the manifest.
pub open spec fn manifest_window(body: Seq<u8>) -> Seq<u8> {
    if body.len() <= MANIFEST_BUFFER_SIZE {
        body
    } else {
        body.subrange(0, MANIFEST_BUFFER_SIZE as int)
    }
}

/// The manifest that two texts make, if the first is a version.
pub open spec fn update_from_fields(version: Seq<char>, link: Seq<char>) -> Option<UpdateModel> {
    match parsed_version(version) {
        Some(version) => Some(UpdateModel { version, link }),
        None => None,
    }
}

/// The two texts of a manifest among the string members of a document: both
/// `version` and `link` have to be there.
pub open spec fn fields_among(members: Map<Seq<char>, Seq<char>>) -> Option<
    (Seq<char>, Seq<char>),
> {
    if members.contains_key("version"@) && members.contains_key("link"@) {
        Some((members["version"@], members["link"@]))
    } else {
        None
    }
}

/// The manifest that a document's bytes hold, if they hold one.
pub open spec fn update_in(bytes: Seq<u8>) -> Option<UpdateModel> {
    match document_strings(bytes) {
        Some(members) => match fields_among(members) {
            Some((version, link)) => update_from_fields(version, link),
            None => None,
        },
        None => None,
    }
}

/// What a response body gives: nothing read is an empty body; otherwise the
/// manifest in its first [`MANIFEST_BUFFER_SIZE`] bytes, or a parse error.
pub open spec fn manifest_of_body(body: Seq<u8>) -> Result<UpdateModel, FetchError> {
    if body.len() == 0 {
        Err(FetchError::EmptyBody)
    } else {
        match update_in(manifest_window(body)) {
            Some(update) => Ok(update),
            None => Err(FetchError::ParseError),
        }
    }
}

/// What a response gives: the status is looked at first, and the body only
/// where the status is in the success range.
pub open spec fn manifest_of_response(status: u16, body: Seq<u8>) -> Result<
    UpdateModel,
    FetchError,
> {
    if !status_ok(status) {
        Err(FetchError::UnexpectedStatus(status))
    } else {
        manifest_of_body(body)
    }
}

/// Whether an executable result is the one that the model gives.
pub open spec fn delivers(got: Result<Update, FetchError>, owed: Result<UpdateModel, FetchError>) -> bool {
    match owed {
        Ok(update) => got matches Ok(found) && found@ == update,
        Err(error) => got matches Err(found) && found == error,
    }
}

impl Update {
    /// Makes a manifest of the two texts of a document. Fails where the
    /// version text is no semantic version.
    pub fn new(json: UpdateJson) -> (made: Result<Update, VersionError>)
        ensures
            made is Ok <==> update_from_fields(json.version@, json.link@) is Some,
            made matches Ok(update) ==> update_from_fields(json.version@, json.link@) == Some(
                update@,
            ),
    {
        match SemanticVersion::parse(json.version.as_str()) {
            Ok(version) => Ok(Update { version, link: json.link }),
            Err(error) => Err(error),
        }
    }

    /// The version on offer.
    pub fn version(&self) -> (version: &SemanticVersion)
        ensures
            version@ == self@.version,
    {
        &self.version
    }

    /// The location of the image.
    pub fn link(&self) -> (link: &str)
        ensures
            link@ == self@.link,
    {
        self.link.as_str()
    }

    /// Gives up the manifest for the location of its image.
    pub fn into_link(self) -> (link: String)
        ensures
            link@ == self@.link,
    {
        self.link
    }
}

/// Whether a response status lies in the success range, 200 to 299.
pub fn is_success(status: u16) -> (ok: bool)
    ensures
        ok == status_ok(status),
{
    200 <= status && status <= 299
}

/// Accepts a status in the success range and refuses any other with
/// [`FetchError::UnexpectedStatus`].
pub fn check_status(status: u16) -> (checked: Result<(), FetchError>)
    ensures
        checked is Ok <==> status_ok(status),
        checked matches Err(error) ==> error == FetchError::UnexpectedStatus(status),
{
    if is_success(status) {
        Ok(())
    } else {
        Err(FetchError::UnexpectedStatus(status))
    }
}

/// Takes the two texts of a manifest out of a document that was read. Both
/// `version` and `link` have to be string members of it.
pub fn manifest_fields(document: &serde_json::Value) -> (fields: Option<UpdateJson>)
    ensures
        fields is Some <==> fields_among(string_members(*document)) is Some,
        fields matches Some(json) ==> fields_among(string_members(*document)) == Some(
            (json.version@, json.link@),
        ),
{
    let version = json_string_member(document, "version");
    let link = json_string_member(document, "link");
    match (version, link) {
        (Some(version), Some(link)) => Some(UpdateJson { version, link }),
        _ => None,
    }
}

/// Reads a manifest from the bytes of a document.
pub fn parse_manifest(bytes: &[u8]) -> (parsed: Result<Update, FetchError>)
    ensures
        parsed is Ok <==> update_in(bytes@) is Some,
        parsed matches Ok(update) ==> update_in(bytes@) == Some(update@),
        parsed matches Err(error) ==> error == FetchError::ParseError,
{
    let document = match json_from_slice(bytes) {
        Ok(document) => document,
        Err(_) => {
            return Err(FetchError::ParseError);
        },
    };
    let json = match manifest_fields(&document) {
        Some(json) => json,
        None => {
            return Err(FetchError::ParseError);
        },
    };
    match Update::new(json) {
        Ok(update) => Ok(update),
        Err(_) => Err(FetchError::ParseError),
    }
}

/// Reads the manifest from a response body: an empty body is refused, and of
/// a longer one only the first [`MANIFEST_BUFFER_SIZE`] bytes are read.
pub fn read_manifest(body: &[u8]) -> (read: Result<Update, FetchError>)
    ensures
        delivers(read, manifest_of_body(body@)),
{
    if body.len() == 0 {
        return Err(FetchError::EmptyBody);
    }
    let window = if body.len() <= MANIFEST_BUFFER_SIZE {
        body
    } else {
        vstd::slice::slice_subrange(body, 0, MANIFEST_BUFFER_SIZE)
    };
    parse_manifest(window)
}

/// Decides what a response gives: the status first, then the body.
pub fn check_update(status: u16, body: &[u8]) -> (checked: Result<Update, FetchError>)
    ensures
        delivers(checked, manifest_of_response(status, body@)),
{
    match check_status(status) {
        Ok(()) => read_manifest(body),
        Err(error) => Err(error),
    }
}

/// A status outside the success range decides alone: the body is not looked
/// at, whatever it holds.
pub proof fn lemma_status_decides_first(status: u16, body: Seq<u8>, other: Seq<u8>)
    requires
        !status_ok(status),
    ensures
        manifest_of_response(status, body) == manifest_of_response(status, other),
        manifest_of_response(status, body) == Err::<UpdateModel, FetchError>(
            FetchError::UnexpectedStatus(status),
        ),
{
}

/// With a status in the success range, a body without bytes is an empty body
/// and never a parse error.
pub proof fn lemma_empty_body_is_absent(status: u16)
    requires
        status_ok(status),
    ensures
        manifest_of_response(status, Seq::<u8>::empty()) == Err::<UpdateModel, FetchError>(
            FetchError::EmptyBody,
        ),
{
}

} // verus!
