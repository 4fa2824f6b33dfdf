use vstd::prelude::*;
use vstd::string::StringExecFns;
use sessionless::secp256k1::ecdsa::Signature;
use sessionless::secp256k1::PublicKey;
use crate::user::{started, ActionModel, Action, ResolveError, UserResolution};

verus! {

#[verifier::external_type_specification]
#[verifier::external_body]
pub struct ExPublicKey(PublicKey);

#[verifier::external_type_specification]
#[verifier::external_body]
pub struct ExSignature(Signature);

/// Whether `secp256k1::PublicKey`'s `FromStr` accepts the text.
pub uninterp spec fn is_public_key_text(s: Seq<char>) -> bool;

/// Whether `secp256k1::ecdsa::Signature`'s `FromStr` accepts the text.
pub uninterp spec fn is_signature_text(s: Seq<char>) -> bool;

/// Relies on `FromStr` of `secp256k1::PublicKey` (the hex form of a
/// compressed or uncompressed key): `Some` exactly when the text parses.
#[verifier::external_body]
fn parse_public_key(s: &str) -> (r: Option<PublicKey>)
    ensures
        r is Some == is_public_key_text(s@),
{
    s.parse::<PublicKey>().ok()
}

/// Relies on `FromStr` of `secp256k1::ecdsa::Signature` (the hex form of a
/// DER signature): `Some` exactly when the text parses.
#[verifier::external_body]
fn parse_signature(s: &str) -> (r: Option<Signature>)
    ensures
        r is Some == is_signature_text(s@),
{
    s.parse::<Signature>().ok()
}

/// Whether `sessionless::Sessionless::verify` accepts the signature text for
/// the message under the public key text; false where either does not parse.
pub uninterp spec fn signature_verifies(message: Seq<char>, pub_key: Seq<char>, signature: Seq<char>) -> bool;

/// Relies on `sessionless::Sessionless::verify`, which hashes the message and
/// checks the ECDSA signature under the public key; the context's own key
/// pair takes no part. A key or signature that does not parse verifies
/// nothing.
#[verifier::external_body]
fn verify_signature(message: &str, pub_key: &str, signature: &str) -> (r: bool)
    ensures
        r == signature_verifies(message@, pub_key@, signature@),
{
    match (pub_key.parse::<PublicKey>(), signature.parse::<Signature>()) {
        (Ok(k), Ok(s)) => sessionless::Sessionless::new().verify(message, &k, &s).is_ok(),
        _ => false,
    }
}

/// A request to resolve or create the user of a public key and a hash,
/// signed over the timestamp, the public key and the hash.
#[derive(Debug, Clone)]
pub struct CreateUserRequest {
    pub pub_key: String,
    pub timestamp: String,
    pub hash: String,
    pub signature: String,
}

/// What a user request is answered with.
#[derive(Debug, Clone)]
pub enum Response {
    User { user_uuid: String },
    Error { code: u16, message: String },
}

pub open spec fn auth_error_message() -> Seq<char> {
    "Auth Error"@
}

pub open spec fn put_user_failure_message() -> Seq<char> {
    "Failed to put user"@
}

pub open spec fn update_keys_failure_message() -> Seq<char> {
    "Failed to update keys"@
}

pub open spec fn out_of_order_message() -> Seq<char> {
    "Unexpected storage report"@
}

/// The status code of a failed authentication.
pub const AUTH_ERROR_CODE: u16 = 403;

/// The status code of a storage failure.
pub const SERVER_ERROR_CODE: u16 = 500;

impl Response {
    pub fn user_success(user_uuid: String) -> (r: Response)
        ensures
            r matches Response::User { user_uuid: u } && u@ == user_uuid@,
    {
        Response::User { user_uuid }
    }

    pub fn auth_error() -> (r: Response)
        ensures
            r matches Response::Error { code, message } && code == AUTH_ERROR_CODE && message@ == auth_error_message(),
    {
        proof {
            reveal_strlit("Auth Error");
        }
        Response::Error { code: AUTH_ERROR_CODE, message: "Auth Error".to_owned() }
    }

    pub fn server_error(message: String) -> (r: Response)
        ensures
            r matches Response::Error { code, message: m } && code == SERVER_ERROR_CODE && m@ == message@,
    {
        Response::Error { code: SERVER_ERROR_CODE, message }
    }

    /// The answer to a finished resolution: the identifier, or a storage
    /// failure that says which write failed.
    pub fn from_resolution(result: Result<String, ResolveError>) -> (r: Response)
        ensures
            match result {
                Ok(u) => r matches Response::User { user_uuid } && user_uuid@ == u@,
                Err(e) => r matches Response::Error { code, message } && code == SERVER_ERROR_CODE
                    && message@ == match e {
                        ResolveError::PutUser => put_user_failure_message(),
                        ResolveError::UpdateKeys => update_keys_failure_message(),
                        ResolveError::OutOfOrder => out_of_order_message(),
                    },
            },
    {
        match result {
            Ok(u) => Response::user_success(u),
            Err(ResolveError::PutUser) => {
                proof {
                    reveal_strlit("Failed to put user");
                }
                Response::server_error("Failed to put user".to_owned())
            },
            Err(ResolveError::UpdateKeys) => {
                proof {
                    reveal_strlit("Failed to update keys");
                }
                Response::server_error("Failed to update keys".to_owned())
            },
            Err(ResolveError::OutOfOrder) => {
                proof {
                    reveal_strlit("Unexpected storage report");
                }
                Response::server_error("Unexpected storage report".to_owned())
            },
        }
    }
}

/// The signed message: the timestamp, the public key and the hash, in that
/// order.
pub fn signed_message(body: &CreateUserRequest) -> (r: String)
    ensures
        r@ == body.timestamp@ + body.pub_key@ + body.hash@,
{
    let mut m = body.timestamp.clone();
    m.append(body.pub_key.as_str());
    m.append(body.hash.as_str());
    m
}

/// Whether a create-user request is authentic: its public key and its
/// signature parse, and the signature verifies over the signed message.
pub open spec fn is_authentic(body: CreateUserRequest) -> bool {
    &&& is_public_key_text(body.pub_key@)
    &&& is_signature_text(body.signature@)
    &&& signature_verifies(body.timestamp@ + body.pub_key@ + body.hash@, body.pub_key@, body.signature@)
}

/// Checks a create-user request and begins resolving its pair. A public key
/// or a signature that does not parse, or a signature that does not verify,
/// gets the authentication error before any storage access; otherwise the
/// resolution starts and its first action reads the index.
pub fn create_user_handler(body: &CreateUserRequest) -> (r: Result<(UserResolution, Action), Response>)
    ensures
        r is Ok <==> is_authentic(*body),
        r is Err ==> (r matches Err(Response::Error { code, message }) && code == AUTH_ERROR_CODE
            && message@ == auth_error_message()),
        r matches Ok((res, action)) ==> {
            &&& res@ == started(body.pub_key@, body.hash@)
            &&& action@ == ActionModel::LoadKeys
        },
{
    if parse_public_key(body.pub_key.as_str()).is_none() {
        return Err(Response::auth_error());
    }
    if parse_signature(body.signature.as_str()).is_none() {
        return Err(Response::auth_error());
    }
    let message = signed_message(body);
    if !verify_signature(message.as_str(), body.pub_key.as_str(), body.signature.as_str()) {
        return Err(Response::auth_error());
    }
    Ok(UserResolution::start(body.pub_key.clone(), body.hash.clone()))
}

} // verus!
