//! The identity that the cloud issues to a device, and the request that
//! asks for it.

use vstd::prelude::*;

use crate::kinton::registry::RegistryError;

verus! {

/// The address that a registration posts to: the address of the service,
/// then `/fleets/`, the fleet key, and `/registerMote`.
pub open spec fn register_url(api_url: Seq<char>, fleet_key: Seq<char>) -> Seq<char> {
    api_url + "/fleets/"@ + fleet_key + "/registerMote"@
}

/// Writes the address that a registration posts to.
pub fn registration_url(api_url: &str, fleet_key: &str) -> (url: String)
    ensures
        url@ == register_url(api_url@, fleet_key@),
{
    let mut url = api_url.to_owned();
    url.append("/fleets/");
    url.append(fleet_key);
    url.append("/registerMote");
    url
}

/// The identity of a device in the cloud, as mathematical values.
pub struct IdentityView {
    pub uuid: Seq<char>,
    pub secret: Seq<char>,
}

/// The identity that the cloud issued to a device.
#[derive(Debug, Clone, PartialEq, Eq)]
pub struct CloudIdentity {
    pub uuid: String,
    pub secret: String,
}

impl View for CloudIdentity {
    type V = IdentityView;

    open spec fn view(&self) -> IdentityView {
        IdentityView { uuid: self.uuid@, secret: self.secret@ }
    }
}

/// The text of the member `key` of the JSON object that `document` writes,
/// as the `json` crate reads it; `None` where the document is not JSON, is
/// no object, has no such member, or has one that is no string.
pub uninterp spec fn json_member_text(document: Seq<char>, key: Seq<char>) -> Option<Seq<char>>;

/// Reads a document with `json::parse`, looks up a member with the index
/// operator of `JsonValue`, and takes its text with `JsonValue::as_str`.
/// The index gives the null value where the document is no object or has no
/// such member, and `as_str` gives text for a string only; a document that
/// does not parse gives `None` as well.
#[verifier::external_body]
fn member_text(document: &str, key: &str) -> (text: Option<String>)
    ensures
        text is Some <==> json_member_text(document@, key@) is Some,
        text matches Some(t) ==> json_member_text(document@, key@) == Some(t@),
{
    match json::parse(document) {
        Ok(value) => match value[key].as_str() {
            Some(text) => Some(text.to_string()),
            None => None,
        },
        Err(_) => None,
    }
}

/// The identity that the two members of a response give: both must be
/// there.
pub open spec fn identity_of(uuid: Option<Seq<char>>, secret: Option<Seq<char>>) -> Result<
    IdentityView,
    RegistryError,
> {
    match (uuid, secret) {
        (Some(uuid), Some(secret)) => Ok(IdentityView { uuid, secret }),
        _ => Err(RegistryError::InvalidIdentityResponse),
    }
}

/// The identity that the response of the identity service gives.
pub open spec fn identity_in(response: Seq<char>) -> Result<IdentityView, RegistryError> {
    identity_of(json_member_text(response, "uuid"@), json_member_text(response, "secret"@))
}

impl CloudIdentity {
    /// The identity made of the `uuid` and the `secret` of a response, where
    /// it has both; `InvalidIdentityResponse` where one is missing.
    pub fn from_members(uuid: Option<String>, secret: Option<String>) -> (r: Result<
        CloudIdentity,
        RegistryError,
    >)
        ensures
            match r {
                Ok(identity) => uuid is Some && secret is Some && identity.uuid == uuid->0
                    && identity.secret == secret->0,
                Err(e) => (uuid is None || secret is None) && e
                    == RegistryError::InvalidIdentityResponse,
            },
    {
        match (uuid, secret) {
            (Some(uuid), Some(secret)) => Ok(CloudIdentity { uuid, secret }),
            _ => Err(RegistryError::InvalidIdentityResponse),
        }
    }

    /// Reads the response of the identity service: a JSON object with the
    /// string members `uuid` and `secret`.
    pub fn from_response(response: &str) -> (r: Result<CloudIdentity, RegistryError>)
        ensures
            match r {
                Ok(identity) => identity_in(response@) == Ok::<IdentityView, RegistryError>(
                    identity@,
                ),
                Err(e) => identity_in(response@) == Err::<IdentityView, RegistryError>(e),
            },
    {
        let uuid = member_text(response, "uuid");
        let secret = member_text(response, "secret");
        CloudIdentity::from_members(uuid, secret)
    }
}

} // verus!
