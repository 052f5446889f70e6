//! The compact serialization of a token: three segments separated by periods.

use vstd::prelude::*;
use crate::error::{ErrorView, ValidationError};
use crate::foreign::{decoded_header, read_header};

verus! {

/// The character that separates the segments of a compact token.
pub const DELIMITER: char = '.';

/// Whether position `i` of `token` holds a delimiter.
pub open spec fn is_delimiter_at(token: Seq<char>, i: int) -> bool {
    0 <= i < token.len() && token[i] == DELIMITER
}

/// Whether `token` holds exactly two delimiters, the first at `i` and the
/// second at `j`.
pub open spec fn delimited_at(token: Seq<char>, i: int, j: int) -> bool {
    &&& is_delimiter_at(token, i)
    &&& is_delimiter_at(token, j)
    &&& i < j
    &&& forall|k: int| is_delimiter_at(token, k) ==> k == i || k == j
}

/// Whether `token` consists of exactly three segments.
pub open spec fn is_compact(token: Seq<char>) -> bool {
    exists|i: int, j: int| delimited_at(token, i, j)
}

/// The positions of the two delimiters of a compact token.
pub open spec fn delimiters(token: Seq<char>) -> (int, int) {
    choose|i: int, j: int| delimited_at(token, i, j)
}

/// The position of the first delimiter of a compact token.
pub open spec fn first_delimiter(token: Seq<char>) -> int {
    delimiters(token).0
}

/// The position of the second delimiter of a compact token.
pub open spec fn second_delimiter(token: Seq<char>) -> int {
    delimiters(token).1
}

/// The first segment of a compact token: the encoded header.
pub open spec fn header_segment(token: Seq<char>) -> Seq<char> {
    token.subrange(0, first_delimiter(token))
}

/// The second segment of a compact token: the encoded claims.
pub open spec fn payload_segment(token: Seq<char>) -> Seq<char> {
    token.subrange(first_delimiter(token) + 1, second_delimiter(token))
}

/// The third segment of a compact token: the encoded signature.
pub open spec fn signature_segment(token: Seq<char>) -> Seq<char> {
    token.subrange(second_delimiter(token) + 1, token.len() as int)
}

/// The text that the signature of a compact token covers: the first two
/// segments with the delimiter between them.
pub open spec fn signed_message(token: Seq<char>) -> Seq<char> {
    token.subrange(0, second_delimiter(token))
}

/// A token has at most one pair of delimiter positions.
pub proof fn lemma_delimiters_unique(token: Seq<char>, i: int, j: int)
    requires
        delimited_at(token, i, j),
    ensures
        is_compact(token),
        first_delimiter(token) == i,
        second_delimiter(token) == j,
{
    let (f, s) = delimiters(token);
    assert(delimited_at(token, f, s));
    assert(is_delimiter_at(token, f) && is_delimiter_at(token, s));
    assert(is_delimiter_at(token, i) && is_delimiter_at(token, j));
}

/// Whether `segment` holds no delimiter.
pub open spec fn is_segment(segment: Seq<char>) -> bool {
    forall|k: int| 0 <= k < segment.len() ==> segment[k] != DELIMITER
}

/// Three segments with a delimiter after the first and after the second.
pub open spec fn joined(header: Seq<char>, payload: Seq<char>, signature: Seq<char>) -> Seq<char> {
    header + seq![DELIMITER] + payload + seq![DELIMITER] + signature
}

/// A compact token is its three segments joined, and none of the three
/// holds a delimiter.
pub proof fn law_segments_rejoin(token: Seq<char>)
    requires
        is_compact(token),
    ensures
        token == joined(header_segment(token), payload_segment(token), signature_segment(token)),
        signed_message(token) == header_segment(token) + seq![DELIMITER] + payload_segment(token),
        is_segment(header_segment(token)),
        is_segment(payload_segment(token)),
        is_segment(signature_segment(token)),
{
    let (i, j) = delimiters(token);
    assert(delimited_at(token, i, j));
    assert(token =~= joined(
        header_segment(token),
        payload_segment(token),
        signature_segment(token),
    ));
    assert(signed_message(token) =~= header_segment(token) + seq![DELIMITER] + payload_segment(
        token,
    ));
    assert forall|k: int| 0 <= k < header_segment(token).len() implies header_segment(token)[k]
        != DELIMITER by {
        assert(!is_delimiter_at(token, k));
    }
    assert forall|k: int| 0 <= k < payload_segment(token).len() implies payload_segment(token)[k]
        != DELIMITER by {
        assert(!is_delimiter_at(token, i + 1 + k));
    }
    assert forall|k: int| 0 <= k < signature_segment(token).len() implies signature_segment(
        token,
    )[k] != DELIMITER by {
        assert(!is_delimiter_at(token, j + 1 + k));
    }
}

/// Three texts without a delimiter, joined, are a compact token, and its
/// segments are the three texts.
pub proof fn law_joined_segments_split(
    header: Seq<char>,
    payload: Seq<char>,
    signature: Seq<char>,
)
    requires
        is_segment(header),
        is_segment(payload),
        is_segment(signature),
    ensures
        is_compact(joined(header, payload, signature)),
        header_segment(joined(header, payload, signature)) == header,
        payload_segment(joined(header, payload, signature)) == payload,
        signature_segment(joined(header, payload, signature)) == signature,
        signed_message(joined(header, payload, signature)) == header + seq![DELIMITER] + payload,
{
    let token = joined(header, payload, signature);
    let i = header.len() as int;
    let j = i + 1 + payload.len();
    assert forall|k: int| is_delimiter_at(token, k) implies k == i || k == j by {
        if k < i {
            assert(token[k] == header[k]);
        } else if i < k < j {
            assert(token[k] == payload[k - i - 1]);
        } else if j < k {
            assert(token[k] == signature[k - j - 1]);
        }
    }
    assert(delimited_at(token, i, j));
    lemma_delimiters_unique(token, i, j);
    assert(header_segment(token) =~= header);
    assert(payload_segment(token) =~= payload);
    assert(signature_segment(token) =~= signature);
    assert(signed_message(token) =~= header + seq![DELIMITER] + payload);
}

/// The signature algorithms that a header can declare.
#[derive(Clone, Copy, Debug, PartialEq, Eq, Structural)]
pub enum Algorithm {
    HS256,
    HS384,
    HS512,
    ES256,
    ES384,
    RS256,
    RS384,
    RS512,
    PS256,
    PS384,
    PS512,
    EdDSA,
}

/// The signature schemes that work with an RSA public key.
#[derive(Clone, Copy, Debug, PartialEq, Eq, Structural)]
pub enum RsaScheme {
    RS256,
    RS384,
    RS512,
    PS256,
    PS384,
    PS512,
}

/// Whether an algorithm signs and verifies with one shared secret.
pub open spec fn is_symmetric(alg: Algorithm) -> bool {
    alg == Algorithm::HS256 || alg == Algorithm::HS384 || alg == Algorithm::HS512
}

/// The scheme by which an RSA public key verifies a signature of this
/// algorithm, where there is one.
pub open spec fn rsa_scheme_of(alg: Algorithm) -> Option<RsaScheme> {
    match alg {
        Algorithm::RS256 => Some(RsaScheme::RS256),
        Algorithm::RS384 => Some(RsaScheme::RS384),
        Algorithm::RS512 => Some(RsaScheme::RS512),
        Algorithm::PS256 => Some(RsaScheme::PS256),
        Algorithm::PS384 => Some(RsaScheme::PS384),
        Algorithm::PS512 => Some(RsaScheme::PS512),
        _ => None,
    }
}

impl Algorithm {
    /// The RSA scheme of this algorithm, or nothing for an algorithm of
    /// another family.
    pub fn rsa_scheme(self) -> (scheme: Option<RsaScheme>)
        ensures
            scheme == rsa_scheme_of(self),
    {
        match self {
            Algorithm::RS256 => Some(RsaScheme::RS256),
            Algorithm::RS384 => Some(RsaScheme::RS384),
            Algorithm::RS512 => Some(RsaScheme::RS512),
            Algorithm::PS256 => Some(RsaScheme::PS256),
            Algorithm::PS384 => Some(RsaScheme::PS384),
            Algorithm::PS512 => Some(RsaScheme::PS512),
            _ => None,
        }
    }
}

/// No symmetric algorithm has an RSA scheme.
pub proof fn lemma_symmetric_has_no_rsa_scheme(alg: Algorithm)
    requires
        is_symmetric(alg),
    ensures
        rsa_scheme_of(alg) is None,
{
}

/// What the library reads in a token's header. Nothing in it is verified:
/// it serves to pick the key to try, and for nothing else.
#[derive(Clone, Debug)]
pub struct TokenHeader {
    pub alg: Algorithm,
    pub kid: Option<String>,
}

/// The mathematical value of a `TokenHeader`.
pub struct HeaderView {
    pub alg: Algorithm,
    pub kid: Option<Seq<char>>,
}

impl View for TokenHeader {
    type V = HeaderView;

    open spec fn view(&self) -> HeaderView {
        HeaderView {
            alg: self.alg,
            kid: match self.kid {
                Some(k) => Some(k@),
                None => None,
            },
        }
    }
}

/// The three segments of a compact token, and the text that its signature
/// covers.
pub struct Segments<'a> {
    pub header: &'a str,
    pub payload: &'a str,
    pub signature: &'a str,
    pub message: &'a str,
}

impl<'a> Segments<'a> {
    /// Whether these are the segments of `token`.
    pub open spec fn of(self, token: Seq<char>) -> bool {
        &&& self.header@ == header_segment(token)
        &&& self.payload@ == payload_segment(token)
        &&& self.signature@ == signature_segment(token)
        &&& self.message@ == signed_message(token)
    }
}

/// Splits a token at its delimiters. Gives the segments when the token has
/// exactly three of them, and nothing otherwise.
pub fn split_token<'a>(token: &'a str) -> (parts: Option<Segments<'a>>)
    ensures
        parts is Some <==> is_compact(token@),
        parts matches Some(s) ==> s.of(token@),
{
    let len: usize = token.unicode_len();
    let mut first: usize = 0;
    let mut second: usize = 0;
    let mut found: usize = 0;
    let ghost mut third: int = 0;
    let mut pos: usize = 0;
    for c in chars: token.chars()
        invariant
            chars.seq() == token@,
            len == token@.len(),
            pos == chars.index(),
            found <= 3,
            found == 0 ==> forall|k: int| 0 <= k < pos ==> !is_delimiter_at(token@, k),
            found >= 1 ==> first < pos && is_delimiter_at(token@, first as int),
            found == 1 ==> forall|k: int| 0 <= k < pos && is_delimiter_at(token@, k) ==> k == first,
            found >= 2 ==> first < second < pos && is_delimiter_at(token@, second as int),
            found == 2 ==> forall|k: int|
                0 <= k < pos && is_delimiter_at(token@, k) ==> k == first || k == second,
            found == 3 ==> second < third && is_delimiter_at(token@, third),
    {
        if c == DELIMITER {
            if found == 0 {
                first = pos;
                found = 1;
            } else if found == 1 {
                second = pos;
                found = 2;
            } else if found == 2 {
                proof {
                    third = pos as int;
                }
                found = 3;
            }
        }
        pos = pos + 1;
    }
    if found != 2 {
        proof {
            assert forall|i: int, j: int| !delimited_at(token@, i, j) by {
                if delimited_at(token@, i, j) {
                    assert(is_delimiter_at(token@, i) && is_delimiter_at(token@, j));
                    if found == 3 {
                        assert(is_delimiter_at(token@, first as int));
                        assert(is_delimiter_at(token@, second as int));
                        assert(is_delimiter_at(token@, third));
                    }
                }
            }
        }
        return None;
    }
    proof {
        assert(delimited_at(token@, first as int, second as int));
        lemma_delimiters_unique(token@, first as int, second as int);
    }
    Some(
        Segments {
            header: token.substring_char(0, first),
            payload: token.substring_char(first + 1, second),
            signature: token.substring_char(second + 1, len),
            message: token.substring_char(0, second),
        },
    )
}

/// The header that a token declares: that of its first segment where the
/// token has three segments, and none otherwise.
pub open spec fn header_of(token: Seq<char>) -> Option<HeaderView> {
    if is_compact(token) {
        decoded_header(header_segment(token))
    } else {
        None
    }
}

/// The key identifier that a token declares, or the reason for which the
/// pipeline stops at the header.
pub open spec fn key_id_of(token: Seq<char>) -> Result<Seq<char>, ErrorView> {
    match header_of(token) {
        None => Err(ErrorView::MalformedToken),
        Some(header) => match header.kid {
            None => Err(ErrorView::MissingKeyId),
            Some(kid) => Ok(kid),
        },
    }
}

/// Inspects the header of a token, without verifying anything. Gives the
/// header where it decodes and names a key. Fails with `MalformedToken`
/// where the token does not have three segments or the first does not
/// decode to a header, and with `MissingKeyId` where the header decodes and
/// names no key.
pub fn decode_token_header(token: &str) -> (r: Result<TokenHeader, ValidationError>)
    ensures
        match r {
            Ok(header) => header_of(token@) == Some(header@) && header.kid is Some,
            Err(e) => key_id_of(token@) == Err::<Seq<char>, ErrorView>(e@),
        },
{
    if split_token(token).is_none() {
        return Err(ValidationError::MalformedToken);
    }
    match read_header(token) {
        Err(_) => Err(ValidationError::MalformedToken),
        Ok(header) => {
            if header.kid.is_none() {
                Err(ValidationError::MissingKeyId)
            } else {
                Ok(header)
            }
        },
    }
}

/// Reads the identifier of the key that a token names. Fails as
/// `decode_token_header` does.
pub fn key_id(token: &str) -> (r: Result<String, ValidationError>)
    ensures
        match r {
            Ok(kid) => key_id_of(token@) == Ok::<Seq<char>, ErrorView>(kid@),
            Err(e) => key_id_of(token@) == Err::<Seq<char>, ErrorView>(e@),
        },
{
    match decode_token_header(token) {
        Err(e) => Err(e),
        Ok(header) => Ok(header.kid.unwrap()),
    }
}

} // verus!
