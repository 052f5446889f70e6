//! The claims of a token, and the rules that they must meet.

use vstd::prelude::*;
use crate::error::{ErrorView, ValidationError};

verus! {

/// What a token says of its bearer. A value of this type that comes out of
/// a validation was signed by the issuer.
#[derive(Clone, Debug, PartialEq, Eq)]
pub struct Claims {
    /// Whom the token was issued to.
    pub sub: String,
    /// The time at which the token expires, in seconds since the epoch.
    pub exp: u64,
    /// Whom the token was issued for.
    pub aud: String,
}

/// The mathematical value of `Claims`.
pub struct ClaimsView {
    pub sub: Seq<char>,
    pub exp: u64,
    pub aud: Seq<char>,
}

impl View for Claims {
    type V = ClaimsView;

    open spec fn view(&self) -> ClaimsView {
        ClaimsView { sub: self.sub@, exp: self.exp, aud: self.aud@ }
    }
}

/// What a member of a JSON document holds, as far as claims are read from
/// it.
#[derive(Clone, Debug, PartialEq, Eq)]
pub enum MemberValue {
    /// A string.
    Text(String),
    /// A whole number from 0 up that fits 64 bits.
    Number(u64),
    /// Anything else.
    Other,
}

/// A member of a JSON document: a name and what it holds.
#[derive(Clone, Debug, PartialEq, Eq)]
pub struct Member {
    pub name: String,
    pub value: MemberValue,
}

/// The mathematical value of a `MemberValue`.
pub enum MemberValueView {
    Text(Seq<char>),
    Number(u64),
    Other,
}

/// The mathematical value of a `Member`.
pub struct MemberView {
    pub name: Seq<char>,
    pub value: MemberValueView,
}

impl View for MemberValue {
    type V = MemberValueView;

    open spec fn view(&self) -> MemberValueView {
        match self {
            MemberValue::Text(text) => MemberValueView::Text(text@),
            MemberValue::Number(number) => MemberValueView::Number(*number),
            MemberValue::Other => MemberValueView::Other,
        }
    }
}

impl View for Member {
    type V = MemberView;

    open spec fn view(&self) -> MemberView {
        MemberView { name: self.name@, value: self.value@ }
    }
}

/// The mathematical values of a list of members.
pub open spec fn member_views(members: Seq<Member>) -> Seq<MemberView> {
    members.map_values(|member: Member| member@)
}

/// Whether member `i` is the first of `members` that is named `name`.
pub open spec fn is_first_named(members: Seq<MemberView>, name: Seq<char>, i: int) -> bool {
    &&& 0 <= i < members.len()
    &&& members[i].name == name
    &&& forall|j: int| 0 <= j < i ==> members[j].name != name
}

/// What the first member of that name holds, where there is one.
pub open spec fn member_named(members: Seq<MemberView>, name: Seq<char>) -> Option<
    MemberValueView,
> {
    if exists|i: int| is_first_named(members, name, i) {
        Some(members[choose|i: int| is_first_named(members, name, i)].value)
    } else {
        None
    }
}

/// There is one first member of a name at most, and `member_named` gives
/// what it holds.
pub proof fn lemma_first_named_unique(members: Seq<MemberView>, name: Seq<char>, i: int)
    requires
        is_first_named(members, name, i),
    ensures
        member_named(members, name) == Some(members[i].value),
{
    let c = choose|c: int| is_first_named(members, name, c);
    assert(is_first_named(members, name, c));
    if c < i {
        assert(members[c].name != name);
    } else if i < c {
        assert(members[i].name != name);
    }
}

/// Looks a member up by its name. Gives what the first member of that name
/// holds, or nothing where there is none.
pub fn find_member<'a>(members: &'a Vec<Member>, name: &str) -> (found: Option<&'a MemberValue>)
    ensures
        match found {
            Some(value) => member_named(member_views(members@), name@) == Some(value@),
            None => member_named(member_views(members@), name@) is None,
        },
{
    let wanted = String::from_str(name);
    let mut i: usize = 0;
    while i < members.len()
        invariant
            i <= members.len(),
            wanted@ == name@,
            forall|j: int| 0 <= j < i ==> member_views(members@)[j].name != name@,
        decreases members.len() - i,
    {
        if members[i].name == wanted {
            proof {
                lemma_first_named_unique(member_views(members@), name@, i as int);
            }
            return Some(&members[i].value);
        }
        i = i + 1;
    }
    proof {
        if exists|k: int| is_first_named(member_views(members@), name@, k) {
            let k = choose|k: int| is_first_named(member_views(members@), name@, k);
            assert(member_views(members@)[k].name == name@);
        }
    }
    None
}

/// The claims among the members of a document: the subject and the
/// audience, which are strings, and the expiry, which is a number. There
/// are none where one of the three is missing or of another kind.
pub open spec fn claims_among(members: Seq<MemberView>) -> Option<ClaimsView> {
    match (
        member_named(members, "sub"@),
        member_named(members, "exp"@),
        member_named(members, "aud"@),
    ) {
        (
            Some(MemberValueView::Text(sub)),
            Some(MemberValueView::Number(exp)),
            Some(MemberValueView::Text(aud)),
        ) => Some(ClaimsView { sub, exp, aud }),
        _ => None,
    }
}

/// Takes the claims out of the members of a document. Gives nothing where
/// `sub` or `aud` is missing or no string, or `exp` is missing or no number.
pub fn claims_from(members: &Vec<Member>) -> (r: Option<Claims>)
    ensures
        match r {
            Some(claims) => claims_among(member_views(members@)) == Some(claims@),
            None => claims_among(member_views(members@)) is None,
        },
{
    let sub = match find_member(members, "sub") {
        Some(MemberValue::Text(text)) => text.clone(),
        _ => {
            return None;
        },
    };
    let exp = match find_member(members, "exp") {
        Some(MemberValue::Number(number)) => *number,
        _ => {
            return None;
        },
    };
    let aud = match find_member(members, "aud") {
        Some(MemberValue::Text(text)) => text.clone(),
        _ => {
            return None;
        },
    };
    Some(Claims { sub, exp, aud })
}

/// Whether a token that expires at `exp` has expired at `now`, when the
/// clocks of issuer and validator may differ by `leeway` seconds. Without
/// leeway a token is good for as long as the time is before `exp`.
pub open spec fn is_expired(exp: u64, now: u64, leeway: u64) -> bool {
    exp + leeway <= now
}

/// What the rules make of verified claims: the token has not expired, and
/// it was issued for exactly the audience that is expected.
pub open spec fn judgement(claims: ClaimsView, audience: Seq<char>, now: u64, leeway: u64) -> Result<
    (),
    ErrorView,
> {
    if is_expired(claims.exp, now, leeway) {
        Err(ErrorView::TokenExpired)
    } else if claims.aud != audience {
        Err(ErrorView::AudienceMismatch)
    } else {
        Ok(())
    }
}

/// Holds claims to the rules. Fails with `TokenExpired` where the token has
/// expired at `now`, and else with `AudienceMismatch` where its audience is
/// not `audience`, character for character.
pub fn check_claims(claims: &Claims, audience: &str, now: u64, leeway: u64) -> (r: Result<
    (),
    ValidationError,
>)
    ensures
        match r {
            Ok(()) => judgement(claims@, audience@, now, leeway) == Ok::<(), ErrorView>(()),
            Err(e) => judgement(claims@, audience@, now, leeway) == Err::<(), ErrorView>(e@),
        },
{
    let expired = match claims.exp.checked_add(leeway) {
        Some(limit) => limit <= now,
        None => false,
    };
    if expired {
        return Err(ValidationError::TokenExpired);
    }
    let expected = String::from_str(audience);
    if claims.aud != expected {
        return Err(ValidationError::AudienceMismatch);
    }
    Ok(())
}

/// A token that expired a second ago is rejected as expired, whatever its
/// audience, and one that expires in a second passes where its audience is
/// the expected one.
pub proof fn law_expiry_boundary(claims: ClaimsView, audience: Seq<char>, now: u64)
    ensures
        claims.exp == now - 1 ==> judgement(claims, audience, now, 0) == Err::<(), ErrorView>(
            ErrorView::TokenExpired,
        ),
        claims.exp == now + 1 && claims.aud == audience ==> judgement(claims, audience, now, 0)
            == Ok::<(), ErrorView>(()),
{
}

/// Claims that have not expired are rejected for their audience exactly
/// when it differs from the expected one, be it by one character.
pub proof fn law_audience_mismatch(claims: ClaimsView, audience: Seq<char>, now: u64, leeway: u64)
    requires
        !is_expired(claims.exp, now, leeway),
    ensures
        claims.aud != audience <==> judgement(claims, audience, now, leeway) == Err::<
            (),
            ErrorView,
        >(ErrorView::AudienceMismatch),
        claims.aud == audience <==> judgement(claims, audience, now, leeway) == Ok::<
            (),
            ErrorView,
        >(()),
{
}

} // verus!
