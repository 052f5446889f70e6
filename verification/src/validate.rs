//! The check of a token against a resolved key: its signature first, and
//! its claims only once the signature has been found good.

use vstd::prelude::*;
use crate::claims::{
    check_claims, claims_among, claims_from, is_expired, judgement, Claims, ClaimsView,
};
use crate::error::{ErrorView, ValidationError};
use crate::foreign::{
    base64url_decoded, check_signature, decode_base64url, json_members, read_header,
    read_members, signature_accepted,
};
use crate::keys::{KeyMaterialView, VerificationKey};
use crate::token::{
    delimited_at, header_of, header_segment, is_compact, is_delimiter_at, is_segment,
    is_symmetric, joined, law_joined_segments_split, law_segments_rejoin,
    lemma_symmetric_has_no_rsa_scheme, payload_segment, rsa_scheme_of, signature_segment,
    signed_message, split_token, DELIMITER,
};

verus! {

/// The claims that the payload segment of a token holds, read without any
/// check of the signature.
pub open spec fn payload_claims(payload: Seq<char>) -> Result<ClaimsView, ErrorView> {
    match base64url_decoded(payload) {
        None => Err(ErrorView::MalformedToken),
        Some(document) => match json_members(document) {
            None => Err(ErrorView::MalformedToken),
            Some(members) => match claims_among(members) {
                None => Err(ErrorView::MalformedToken),
                Some(claims) => Ok(claims),
            },
        },
    }
}

/// The claims that `key` vouches for in `token`, or the reason for which it
/// vouches for none. The header must decode and declare an algorithm that
/// an RSA key verifies; the signature must be that of `key` over the first
/// two segments; only then is the payload read.
pub open spec fn signed_claims(token: Seq<char>, key: KeyMaterialView) -> Result<
    ClaimsView,
    ErrorView,
> {
    match header_of(token) {
        None => Err(ErrorView::MalformedToken),
        Some(header) => match rsa_scheme_of(header.alg) {
            None => Err(ErrorView::AlgorithmMismatch),
            Some(scheme) => if signature_accepted(
                signature_segment(token),
                signed_message(token),
                key,
                scheme,
            ) {
                payload_claims(payload_segment(token))
            } else {
                Err(ErrorView::SignatureInvalid)
            },
        },
    }
}

/// What validating `token` against `key` comes to at the time `now`: the
/// claims that the key vouches for, where they meet the rules.
pub open spec fn validation(
    token: Seq<char>,
    key: KeyMaterialView,
    audience: Seq<char>,
    now: u64,
    leeway: u64,
) -> Result<ClaimsView, ErrorView> {
    match signed_claims(token, key) {
        Err(e) => Err(e),
        Ok(claims) => match judgement(claims, audience, now, leeway) {
            Err(e) => Err(e),
            Ok(()) => Ok(claims),
        },
    }
}

/// Reads the claims in the payload segment of a token. Fails with
/// `MalformedToken` where the segment is not base64url, or does not decode
/// to a JSON object with the three claims.
pub fn decode_payload(payload: &str) -> (r: Result<Claims, ValidationError>)
    ensures
        match r {
            Ok(claims) => payload_claims(payload@) == Ok::<ClaimsView, ErrorView>(claims@),
            Err(e) => payload_claims(payload@) == Err::<ClaimsView, ErrorView>(e@),
        },
{
    match decode_base64url(payload) {
        Err(_) => Err(ValidationError::MalformedToken),
        Ok(document) => match read_members(document.as_slice()) {
            None => Err(ValidationError::MalformedToken),
            Some(members) => match claims_from(&members) {
                None => Err(ValidationError::MalformedToken),
                Some(claims) => Ok(claims),
            },
        },
    }
}

/// Verifies the signature of a token and reads its claims. Fails with
/// `MalformedToken` where the token or its header does not decode, with
/// `AlgorithmMismatch` where the header declares an algorithm that is not
/// an RSA scheme, with `SignatureInvalid` where the key does not accept the
/// signature, and with `MalformedToken` again where the signature is good
/// and the payload does not decode.
pub fn verify_signature(token: &str, key: &VerificationKey) -> (r: Result<
    Claims,
    ValidationError,
>)
    ensures
        match r {
            Ok(claims) => signed_claims(token@, key@) == Ok::<ClaimsView, ErrorView>(claims@),
            Err(e) => signed_claims(token@, key@) == Err::<ClaimsView, ErrorView>(e@),
        },
{
    let parts = match split_token(token) {
        None => {
            return Err(ValidationError::MalformedToken);
        },
        Some(parts) => parts,
    };
    let header = match read_header(token) {
        Err(_) => {
            return Err(ValidationError::MalformedToken);
        },
        Ok(header) => header,
    };
    let scheme = match header.alg.rsa_scheme() {
        None => {
            return Err(ValidationError::AlgorithmMismatch);
        },
        Some(scheme) => scheme,
    };
    match check_signature(parts.signature, parts.message, key, scheme) {
        Ok(true) => decode_payload(parts.payload),
        _ => Err(ValidationError::SignatureInvalid),
    }
}

/// Validates a token against a key, for an audience, at a time. Gives the
/// claims where the signature is that of the key and the claims meet the
/// rules. Fails as `verify_signature` does, and then with `TokenExpired`
/// or `AudienceMismatch` as `check_claims` does.
pub fn validate_token(
    token: &str,
    key: &VerificationKey,
    audience: &str,
    now: u64,
    leeway: u64,
) -> (r: Result<Claims, ValidationError>)
    ensures
        match r {
            Ok(claims) => validation(token@, key@, audience@, now, leeway) == Ok::<
                ClaimsView,
                ErrorView,
            >(claims@),
            Err(e) => validation(token@, key@, audience@, now, leeway) == Err::<
                ClaimsView,
                ErrorView,
            >(e@),
        },
{
    let claims = match verify_signature(token, key) {
        Err(e) => {
            return Err(e);
        },
        Ok(claims) => claims,
    };
    match check_claims(&claims, audience, now, leeway) {
        Err(e) => Err(e),
        Ok(()) => Ok(claims),
    }
}

/// Claims that the key vouches for, that have not expired and that name
/// the expected audience come back as they were signed.
pub proof fn law_round_trip(
    token: Seq<char>,
    key: KeyMaterialView,
    claims: ClaimsView,
    audience: Seq<char>,
    now: u64,
    leeway: u64,
)
    requires
        signed_claims(token, key) == Ok::<ClaimsView, ErrorView>(claims),
        !is_expired(claims.exp, now, leeway),
        claims.aud == audience,
    ensures
        validation(token, key, audience, now, leeway) == Ok::<ClaimsView, ErrorView>(claims),
{
}

/// A token whose header decodes and declares an RSA scheme, and whose
/// signature the key does not accept, is rejected for its signature,
/// whatever its payload says.
pub proof fn law_rejected_signature(
    token: Seq<char>,
    key: KeyMaterialView,
    audience: Seq<char>,
    now: u64,
    leeway: u64,
)
    requires
        header_of(token) matches Some(header) && rsa_scheme_of(header.alg) matches Some(scheme)
            && !signature_accepted(
            signature_segment(token),
            signed_message(token),
            key,
            scheme,
        ),
    ensures
        validation(token, key, audience, now, leeway) == Err::<ClaimsView, ErrorView>(
            ErrorView::SignatureInvalid,
        ),
{
}

/// A token with another text in the place of its signature segment.
pub open spec fn with_signature(token: Seq<char>, signature: Seq<char>) -> Seq<char> {
    signed_message(token) + seq![DELIMITER] + signature
}

/// A valid token whose signature is changed into one that the key does not
/// accept for the same message is rejected for its signature. That the key
/// accepts no signature but the one that was made for the message is what
/// the signature scheme is for, and is not proved here.
pub proof fn law_changed_signature(
    token: Seq<char>,
    key: KeyMaterialView,
    changed: Seq<char>,
    audience: Seq<char>,
    now: u64,
    leeway: u64,
)
    requires
        validation(token, key, audience, now, leeway) is Ok,
        is_segment(changed),
        !signature_accepted(
            changed,
            signed_message(token),
            key,
            rsa_scheme_of(header_of(token)->0.alg)->0,
        ),
    ensures
        validation(with_signature(token, changed), key, audience, now, leeway) == Err::<
            ClaimsView,
            ErrorView,
        >(ErrorView::SignatureInvalid),
{
    law_segments_rejoin(token);
    law_joined_segments_split(header_segment(token), payload_segment(token), changed);
    assert(with_signature(token, changed) =~= joined(
        header_segment(token),
        payload_segment(token),
        changed,
    ));
}

/// A token whose signature is changed into a text with a delimiter in it no
/// longer has three segments, and is rejected as malformed.
pub proof fn law_delimiter_in_signature(
    token: Seq<char>,
    key: KeyMaterialView,
    changed: Seq<char>,
    audience: Seq<char>,
    now: u64,
    leeway: u64,
)
    requires
        is_compact(token),
        !is_segment(changed),
    ensures
        validation(with_signature(token, changed), key, audience, now, leeway) == Err::<
            ClaimsView,
            ErrorView,
        >(ErrorView::MalformedToken),
{
    law_segments_rejoin(token);
    let other = with_signature(token, changed);
    let first = header_segment(token).len() as int;
    let second = signed_message(token).len() as int;
    let m = choose|m: int| 0 <= m < changed.len() && changed[m] == DELIMITER;
    assert(signed_message(token)[first] == DELIMITER);
    assert(is_delimiter_at(other, first));
    assert(is_delimiter_at(other, second));
    assert(other[second + 1 + m] == changed[m]);
    assert(is_delimiter_at(other, second + 1 + m));
    assert forall|i: int, j: int| !delimited_at(other, i, j) by {
        if delimited_at(other, i, j) {
            assert(first == i || first == j);
            assert(second == i || second == j);
            assert(second + 1 + m == i || second + 1 + m == j);
        }
    }
}

/// Signed claims that expired a second ago are rejected as expired, and
/// signed claims for the expected audience that expire in a second pass.
pub proof fn law_signed_expiry_boundary(
    token: Seq<char>,
    key: KeyMaterialView,
    claims: ClaimsView,
    audience: Seq<char>,
    now: u64,
)
    requires
        signed_claims(token, key) == Ok::<ClaimsView, ErrorView>(claims),
    ensures
        claims.exp == now - 1 ==> validation(token, key, audience, now, 0) == Err::<
            ClaimsView,
            ErrorView,
        >(ErrorView::TokenExpired),
        claims.exp == now + 1 && claims.aud == audience ==> validation(
            token,
            key,
            audience,
            now,
            0,
        ) == Ok::<ClaimsView, ErrorView>(claims),
{
}

/// Signed claims that have not expired and name another audience than the
/// expected one are rejected for their audience.
pub proof fn law_signed_audience_mismatch(
    token: Seq<char>,
    key: KeyMaterialView,
    claims: ClaimsView,
    audience: Seq<char>,
    now: u64,
    leeway: u64,
)
    requires
        signed_claims(token, key) == Ok::<ClaimsView, ErrorView>(claims),
        !is_expired(claims.exp, now, leeway),
        claims.aud != audience,
    ensures
        validation(token, key, audience, now, leeway) == Err::<ClaimsView, ErrorView>(
            ErrorView::AudienceMismatch,
        ),
{
}

/// A token whose header declares a symmetric algorithm is rejected for its
/// algorithm by every key, whatever its signature: the answer does not
/// depend on what any signature check would say.
pub proof fn law_algorithm_confusion(
    token: Seq<char>,
    key: KeyMaterialView,
    audience: Seq<char>,
    now: u64,
    leeway: u64,
)
    requires
        header_of(token) matches Some(header) && is_symmetric(header.alg),
    ensures
        validation(token, key, audience, now, leeway) == Err::<ClaimsView, ErrorView>(
            ErrorView::AlgorithmMismatch,
        ),
{
    lemma_symmetric_has_no_rsa_scheme(header_of(token)->0.alg);
}

} // verus!
