//! One validation from token to outcome. The stages run in a fixed order:
//! the header is inspected, the key that it names is resolved, and the
//! token is checked against that key. The first stage that fails ends the
//! validation with its own error.
//!
//! Fetching the key set is the caller's work. `begin` says whether there is
//! anything to fetch, and `conclude` takes what the fetch gave.

use vstd::prelude::*;
use crate::claims::{Claims, ClaimsView};
use crate::error::{ErrorView, ValidationError};
use crate::keys::{first_match, received, resolution, resolve_key, Fetched, JWKS, STATUS_OK};
use crate::token::{header_of, key_id, key_id_of};
use crate::validate::{validate_token, validation};

verus! {

/// What a validation is set up with. Each validation takes its settings as
/// a value; the library keeps none of its own.
#[derive(Clone, Debug, PartialEq, Eq)]
pub struct Config {
    /// Where the issuer publishes its key set.
    pub jwks_url: String,
    /// The audience that tokens must have been issued for.
    pub audience: String,
    /// By how many seconds the clocks of issuer and validator may differ.
    pub leeway: u64,
}

impl Config {
    /// Settings without leeway: a token counts as expired from the second
    /// of its expiry on.
    pub fn new(jwks_url: &str, audience: &str) -> (config: Config)
        ensures
            config.jwks_url@ == jwks_url@,
            config.audience@ == audience@,
            config.leeway == 0,
    {
        Config {
            jwks_url: String::from_str(jwks_url),
            audience: String::from_str(audience),
            leeway: 0,
        }
    }
}

/// How a validation ends: with verified claims, or with the one reason for
/// which there are none.
#[derive(Clone, Debug, PartialEq, Eq)]
pub enum Outcome {
    Valid(Claims),
    Invalid(ValidationError),
}

impl View for Outcome {
    type V = Result<ClaimsView, ErrorView>;

    open spec fn view(&self) -> Result<ClaimsView, ErrorView> {
        match self {
            Outcome::Valid(claims) => Ok(claims@),
            Outcome::Invalid(error) => Err(error@),
        }
    }
}

impl Outcome {
    /// Whether the token was accepted.
    pub fn is_valid(&self) -> (valid: bool)
        ensures
            valid == (self@ is Ok),
    {
        match self {
            Outcome::Valid(_) => true,
            Outcome::Invalid(_) => false,
        }
    }
}

/// What a validation asks of its caller after the header was inspected.
#[derive(Clone, Debug, PartialEq, Eq)]
pub enum Step {
    /// Fetch the key set at `url`, once, and hand the result to `conclude`.
    /// `kid` is the key that will be looked for in it.
    Fetch { url: String, kid: String },
    /// Nothing is to be fetched: the validation has ended.
    Done(Outcome),
}

/// What one validation comes to, given what the request for the key set
/// gave and the time. A later stage is reached only where every earlier one
/// succeeded, and the key is chosen by nothing but the header's key
/// identifier.
pub open spec fn outcome_of(
    token: Seq<char>,
    audience: Seq<char>,
    leeway: u64,
    fetched: Fetched,
    now: u64,
) -> Result<ClaimsView, ErrorView> {
    match key_id_of(token) {
        Err(e) => Err(e),
        Ok(kid) => match resolution(fetched, kid) {
            Err(e) => Err(e),
            Ok(key) => validation(token, key, audience, now, leeway),
        },
    }
}

/// Starts a validation: inspects the header of the token. Where the header
/// names a key, the key set is to be fetched; where the token is malformed
/// or names no key, the validation ends here and nothing is fetched.
pub fn begin(config: &Config, token: &str) -> (step: Step)
    ensures
        match step {
            Step::Fetch { url, kid } => url@ == config.jwks_url@ && key_id_of(token@) == Ok::<
                Seq<char>,
                ErrorView,
            >(kid@),
            Step::Done(outcome) => key_id_of(token@) is Err && outcome@ == Err::<
                ClaimsView,
                ErrorView,
            >(key_id_of(token@)->Err_0),
        },
{
    match key_id(token) {
        Err(e) => Step::Done(Outcome::Invalid(e)),
        Ok(kid) => Step::Fetch { url: config.jwks_url.clone(), kid },
    }
}

/// Ends a validation, given what the request for the key set gave and the
/// time in seconds since the epoch. The key is looked up under the
/// identifier that the token's own header names.
pub fn conclude(config: &Config, token: &str, fetched: Fetched, now: u64) -> (outcome: Outcome)
    ensures
        outcome@ == outcome_of(token@, config.audience@, config.leeway, fetched, now),
{
    let kid = match key_id(token) {
        Err(e) => {
            return Outcome::Invalid(e);
        },
        Ok(kid) => kid,
    };
    let key = match resolve_key(fetched, kid.as_str()) {
        Err(e) => {
            return Outcome::Invalid(e);
        },
        Ok(key) => key,
    };
    match validate_token(token, &key, config.audience.as_str(), now, config.leeway) {
        Err(e) => Outcome::Invalid(e),
        Ok(claims) => Outcome::Valid(claims),
    }
}

/// Where `begin` ends a validation, no fetch and no time would have
/// changed the outcome.
pub proof fn law_early_end(
    token: Seq<char>,
    audience: Seq<char>,
    leeway: u64,
    fetched: Fetched,
    now: u64,
)
    requires
        key_id_of(token) is Err,
    ensures
        outcome_of(token, audience, leeway, fetched, now) == Err::<ClaimsView, ErrorView>(
            key_id_of(token)->Err_0,
        ),
{
}

/// A token whose header decodes and names no key ends in `MissingKeyId`,
/// whatever the key set holds or whether it can be had at all.
pub proof fn law_missing_key_id(
    token: Seq<char>,
    audience: Seq<char>,
    leeway: u64,
    fetched: Fetched,
    now: u64,
)
    requires
        header_of(token) matches Some(header) && header.kid is None,
    ensures
        key_id_of(token) == Err::<Seq<char>, ErrorView>(ErrorView::MissingKeyId),
        outcome_of(token, audience, leeway, fetched, now) == Err::<ClaimsView, ErrorView>(
            ErrorView::MissingKeyId,
        ),
{
}

/// A token that names a key which the fetched key set does not hold ends
/// in `KeyNotFound` with that name, whatever its signature and claims:
/// the outcome does not depend on what any signature check would say.
pub proof fn law_unknown_key_id(
    token: Seq<char>,
    audience: Seq<char>,
    leeway: u64,
    set: JWKS,
    now: u64,
)
    requires
        key_id_of(token) matches Ok(kid) && first_match(set.keys@, kid) is None,
    ensures
        outcome_of(
            token,
            audience,
            leeway,
            Fetched::Answer { status: STATUS_OK, document: Some(set) },
            now,
        ) == Err::<ClaimsView, ErrorView>(ErrorView::KeyNotFound(key_id_of(token)->Ok_0)),
{
}

/// A token that names a key ends in `KeySetUnavailable` where no answer
/// arrived, where the answer has another status than 200, and where its
/// body is no key-set document.
pub proof fn law_fetch_failure(
    token: Seq<char>,
    audience: Seq<char>,
    leeway: u64,
    fetched: Fetched,
    now: u64,
)
    requires
        key_id_of(token) is Ok,
        fetched is Nothing || (fetched matches Fetched::Answer { status, document } && (status
            != STATUS_OK || document is None)),
    ensures
        received(fetched) is Err,
        outcome_of(token, audience, leeway, fetched, now) == Err::<ClaimsView, ErrorView>(
            ErrorView::KeySetUnavailable(received(fetched)->Err_0),
        ),
{
}

} // verus!
