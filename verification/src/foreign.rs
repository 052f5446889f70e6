//! The calls into the crates that parse, decode and verify. Verus takes the
//! contracts in this module on trust. Each says of an outside function that
//! equal arguments give equal results, and no more: the result goes by a
//! name, and the rest of the library reasons with the name.

use vstd::prelude::*;
use crate::claims::{member_views, Member, MemberValue, MemberView};
use crate::keys::{is_readable, KeyMaterialView, VerificationKey};
use crate::token::{header_segment, is_compact, Algorithm, HeaderView, RsaScheme, TokenHeader};

verus! {

/// The key type of `jsonwebtoken`. The library carries one inside a
/// `VerificationKey` and never looks inside it.
#[verifier::external_type_specification]
#[verifier::external_body]
pub struct ExDecodingKey(jsonwebtoken::DecodingKey);

/// The error type of `jsonwebtoken`. The library never looks inside one.
#[verifier::external_type_specification]
#[verifier::external_body]
pub struct ExTokenError(jsonwebtoken::errors::Error);

/// The error type of `pem`. The library never looks inside one.
#[verifier::external_type_specification]
#[verifier::external_body]
pub struct ExPemError(pem::PemError);

/// The error type of `base64`. The library never looks inside one.
#[verifier::external_type_specification]
#[verifier::external_body]
pub struct ExDecodeError(base64::DecodeError);

/// What `jsonwebtoken::decode_header` makes of a token whose first segment is
/// `segment`: the algorithm and key identifier that the segment declares, or
/// nothing where the segment is not the base64url encoding of a JSON header.
pub uninterp spec fn decoded_header(segment: Seq<char>) -> Option<HeaderView>;

/// Calls `jsonwebtoken::decode_header`. Of a token with exactly two
/// delimiters that function decodes the text before the first delimiter and
/// nothing else, so the result is a function of the first segment alone.
#[verifier::external_body]
pub(crate) fn read_header(token: &str) -> (r: Result<TokenHeader, jsonwebtoken::errors::Error>)
    requires
        is_compact(token@),
    ensures
        r matches Ok(h) ==> decoded_header(header_segment(token@)) == Some(h@),
        r is Err ==> decoded_header(header_segment(token@)) is None,
{
    let header = jsonwebtoken::decode_header(token)?;
    Ok(TokenHeader { kid: header.kid, alg: match header.alg {
        jsonwebtoken::Algorithm::HS256 => Algorithm::HS256,
        jsonwebtoken::Algorithm::HS384 => Algorithm::HS384,
        jsonwebtoken::Algorithm::HS512 => Algorithm::HS512,
        jsonwebtoken::Algorithm::ES256 => Algorithm::ES256,
        jsonwebtoken::Algorithm::ES384 => Algorithm::ES384,
        jsonwebtoken::Algorithm::RS256 => Algorithm::RS256,
        jsonwebtoken::Algorithm::RS384 => Algorithm::RS384,
        jsonwebtoken::Algorithm::RS512 => Algorithm::RS512,
        jsonwebtoken::Algorithm::PS256 => Algorithm::PS256,
        jsonwebtoken::Algorithm::PS384 => Algorithm::PS384,
        jsonwebtoken::Algorithm::PS512 => Algorithm::PS512,
        jsonwebtoken::Algorithm::EdDSA => Algorithm::EdDSA,
    } })
}

/// The bytes that `pem::parse` takes out of the first PEM block of `text`,
/// or nothing where `text` holds no such block.
pub uninterp spec fn pem_contents(text: Seq<char>) -> Option<Seq<u8>>;

/// Calls `pem::parse`, and `Pem::into_contents` on what it gives.
#[verifier::external_body]
pub(crate) fn read_pem(text: &str) -> (r: Result<Vec<u8>, pem::PemError>)
    ensures
        r matches Ok(bytes) ==> pem_contents(text@) == Some(bytes@),
        r is Err ==> pem_contents(text@) is None,
{
    pem::parse(text).map(pem::Pem::into_contents)
}

/// Whether `jsonwebtoken::DecodingKey::from_rsa_pem` makes a key of the PEM
/// text `pem`.
pub uninterp spec fn pem_holds_rsa_key(pem: Seq<char>) -> bool;

/// Calls `jsonwebtoken::DecodingKey::from_rsa_pem`, which reads a PEM text
/// and takes the RSA key out of it. Whether it succeeds depends on the text
/// alone. That function hands what `pem::parse` takes out of the text to a
/// reader of DER that calls itself for the body of every sequence, set and
/// constructed element, with no limit of its own: the text must be one
/// whose contents nest no deeper than the library allows.
#[verifier::external_body]
pub(crate) fn import_certificate(pem: &str) -> (r: Result<
    jsonwebtoken::DecodingKey,
    jsonwebtoken::errors::Error,
>)
    requires
        is_readable(pem@),
    ensures
        r is Ok <==> pem_holds_rsa_key(pem@),
{
    jsonwebtoken::DecodingKey::from_rsa_pem(pem.as_bytes())
}

/// Calls `jsonwebtoken::DecodingKey::from_rsa_components`, which decodes
/// the modulus and the exponent with the `URL_SAFE_NO_PAD` engine of the
/// `base64` crate and does nothing else: it succeeds where both decode.
#[verifier::external_body]
pub(crate) fn import_components(n: &str, e: &str) -> (r: Result<
    jsonwebtoken::DecodingKey,
    jsonwebtoken::errors::Error,
>)
    ensures
        r is Ok <==> (base64url_decoded(n@) is Some && base64url_decoded(e@) is Some),
{
    jsonwebtoken::DecodingKey::from_rsa_components(n, e)
}

/// Whether `jsonwebtoken::crypto::verify` finds that `signature`, in
/// base64url, is the signature of `key` over `message` under `scheme`.
pub uninterp spec fn signature_accepted(
    signature: Seq<char>,
    message: Seq<char>,
    key: KeyMaterialView,
    scheme: RsaScheme,
) -> bool;

/// Calls `jsonwebtoken::crypto::verify` with an RSA scheme, for which that
/// function accepts a key of either form. It answers whether the signature
/// verifies, and fails where the signature is not base64url. The answer
/// depends on the signature, the message, the scheme and the key, and the
/// key on the material that it was imported from, which is the value of a
/// `VerificationKey`.
#[verifier::external_body]
pub(crate) fn check_signature(
    signature: &str,
    message: &str,
    key: &VerificationKey,
    scheme: RsaScheme,
) -> (r: Result<bool, jsonwebtoken::errors::Error>)
    ensures
        r matches Ok(accepted) ==> accepted == signature_accepted(
            signature@,
            message@,
            key@,
            scheme,
        ),
        r is Err ==> !signature_accepted(signature@, message@, key@, scheme),
{
    let algorithm = match scheme {
        RsaScheme::RS256 => jsonwebtoken::Algorithm::RS256,
        RsaScheme::RS384 => jsonwebtoken::Algorithm::RS384,
        RsaScheme::RS512 => jsonwebtoken::Algorithm::RS512,
        RsaScheme::PS256 => jsonwebtoken::Algorithm::PS256,
        RsaScheme::PS384 => jsonwebtoken::Algorithm::PS384,
        RsaScheme::PS512 => jsonwebtoken::Algorithm::PS512,
    };
    jsonwebtoken::crypto::verify(signature, message.as_bytes(), &key.handle, algorithm)
}

/// The bytes that `text` encodes in base64url without padding, as the
/// `base64` crate decodes it, or nothing where `text` is no such encoding.
pub uninterp spec fn base64url_decoded(text: Seq<char>) -> Option<Seq<u8>>;

/// Calls `decode` of the `base64` crate's `URL_SAFE_NO_PAD` engine.
#[verifier::external_body]
pub(crate) fn decode_base64url(text: &str) -> (r: Result<Vec<u8>, base64::DecodeError>)
    ensures
        r matches Ok(bytes) ==> base64url_decoded(text@) == Some(bytes@),
        r is Err ==> base64url_decoded(text@) is None,
{
    base64::Engine::decode(&base64::engine::general_purpose::URL_SAFE_NO_PAD, text)
}

/// The members of the JSON object that `document` is, each with its name
/// and what it holds, or nothing where `document` is not a JSON object.
pub uninterp spec fn json_members(document: Seq<u8>) -> Option<Seq<MemberView>>;

/// Calls `serde_json::from_slice` for a `serde_json::Value`, and hands out
/// the members of the object with `Value::as_object`, each converted: a
/// string and a number that `Number::as_u64` gives are kept, everything
/// else is `Other`.
#[verifier::external_body]
pub(crate) fn read_members(document: &[u8]) -> (r: Option<Vec<Member>>)
    ensures
        r matches Some(members) ==> json_members(document@) == Some(member_views(members@)),
        r is None ==> json_members(document@) is None,
{
    let value: serde_json::Value = serde_json::from_slice(document).ok()?;
    Some(value.as_object()?.iter().map(|(name, member)| Member {
        name: name.clone(),
        value: match member {
            serde_json::Value::String(text) => MemberValue::Text(text.clone()),
            serde_json::Value::Number(number) => match number.as_u64() {
                Some(whole) => MemberValue::Number(whole),
                None => MemberValue::Other,
            },
            _ => MemberValue::Other,
        },
    }).collect())
}

} // verus!
