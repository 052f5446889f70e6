//! The issuer's key set, and the way from a key identifier to a key that
//! can verify a signature.

use vstd::prelude::*;
use crate::error::{ErrorView, FetchFailure, ValidationError};
use crate::der::{is_shallow, nesting};
use crate::foreign::{
    base64url_decoded, import_certificate, import_components, pem_contents, pem_holds_rsa_key,
    read_pem,
};

verus! {

/// One entry of a key set: a public key of the issuer, under the name by
/// which tokens refer to it. The key itself comes as a chain of
/// certificates, as a modulus and an exponent, or as both.
#[derive(Clone, Debug)]
pub struct JWK {
    /// The kind of key.
    pub kty: String,
    /// What the key is meant to be used for, where the issuer says so.
    pub use_field: Option<String>,
    /// The name of the key.
    pub kid: String,
    /// The thumbprint of the key's certificate, where it has one.
    pub x5t: Option<String>,
    /// The modulus, in base64url.
    pub n: Option<String>,
    /// The public exponent, in base64url.
    pub e: Option<String>,
    /// The certificates, each the base64 text of its encoding, the key's
    /// own certificate first.
    pub x5c: Option<Vec<String>>,
}

/// A key set, as fetched. A later fetch may give another.
#[derive(Clone, Debug)]
pub struct JWKS {
    pub keys: Vec<JWK>,
}

/// What came of the one request for the key set.
#[derive(Clone, Debug)]
pub enum Fetched {
    /// The request did not reach the endpoint, or no answer arrived.
    Nothing,
    /// An answer arrived with this status. `document` is the key set that
    /// its body holds, where it holds one.
    Answer { status: u16, document: Option<JWKS> },
}

/// The one status with which an endpoint hands out its key set.
pub const STATUS_OK: u16 = 200;

/// The key set that a request gave, or the way in which it failed. An
/// answer counts only with the status 200, and then only where its body is
/// a key-set document.
pub open spec fn received(fetched: Fetched) -> Result<JWKS, FetchFailure> {
    match fetched {
        Fetched::Nothing => Err(FetchFailure::Transport),
        Fetched::Answer { status, document } => if status != STATUS_OK {
            Err(FetchFailure::Status(status))
        } else {
            match document {
                None => Err(FetchFailure::Malformed),
                Some(set) => Ok(set),
            }
        },
    }
}

/// Takes the key set out of what a request gave. Fails with `Transport`
/// where no answer arrived, with `Status` where the answer has another
/// status than 200, and with `Malformed` where its body is no key-set
/// document.
pub fn receive(fetched: Fetched) -> (r: Result<JWKS, FetchFailure>)
    ensures
        r == received(fetched),
{
    match fetched {
        Fetched::Nothing => Err(FetchFailure::Transport),
        Fetched::Answer { status, document } => {
            if status != STATUS_OK {
                Err(FetchFailure::Status(status))
            } else {
                match document {
                    None => Err(FetchFailure::Malformed),
                    Some(set) => Ok(set),
                }
            }
        },
    }
}

/// Whether some entry of `keys` is named `kid`.
pub open spec fn has_key(keys: Seq<JWK>, kid: Seq<char>) -> bool {
    exists|i: int| 0 <= i < keys.len() && keys[i].kid@ == kid
}

/// Whether entry `i` is the first of `keys` that is named `kid`.
pub open spec fn is_first_match(keys: Seq<JWK>, kid: Seq<char>, i: int) -> bool {
    &&& 0 <= i < keys.len()
    &&& keys[i].kid@ == kid
    &&& forall|j: int| 0 <= j < i ==> keys[j].kid@ != kid
}

/// The position of the first entry of `keys` that is named `kid`. Where two
/// entries share a name the earlier one is taken, and the later one is
/// never looked at.
pub open spec fn first_match(keys: Seq<JWK>, kid: Seq<char>) -> Option<int> {
    if exists|i: int| is_first_match(keys, kid, i) {
        Some(choose|i: int| is_first_match(keys, kid, i))
    } else {
        None
    }
}

/// There is one first match at most, and `first_match` gives it.
pub proof fn lemma_first_match_unique(keys: Seq<JWK>, kid: Seq<char>, i: int)
    requires
        is_first_match(keys, kid, i),
    ensures
        first_match(keys, kid) == Some(i),
{
    let c = choose|c: int| is_first_match(keys, kid, c);
    assert(is_first_match(keys, kid, c));
    if c < i {
        assert(keys[c].kid@ != kid);
    } else if i < c {
        assert(keys[i].kid@ != kid);
    }
}

/// Where no entry has the name, there is no first match.
pub proof fn lemma_first_match_none(keys: Seq<JWK>, kid: Seq<char>)
    requires
        !has_key(keys, kid),
    ensures
        first_match(keys, kid) is None,
{
    if exists|i: int| is_first_match(keys, kid, i) {
        let c = choose|c: int| is_first_match(keys, kid, c);
        assert(0 <= c < keys.len() && keys[c].kid@ == kid);
    }
}

/// Looks an identifier up in a key set. Gives the position of the first
/// entry of that name, or nothing where there is none.
pub fn find_key(set: &JWKS, kid: &str) -> (found: Option<usize>)
    ensures
        match found {
            Some(i) => first_match(set.keys@, kid@) == Some(i as int),
            None => first_match(set.keys@, kid@) is None && !has_key(set.keys@, kid@),
        },
{
    let wanted = String::from_str(kid);
    let mut i: usize = 0;
    while i < set.keys.len()
        invariant
            i <= set.keys.len(),
            wanted@ == kid@,
            forall|j: int| 0 <= j < i ==> set.keys@[j].kid@ != kid@,
        decreases set.keys.len() - i,
    {
        if set.keys[i].kid == wanted {
            proof {
                lemma_first_match_unique(set.keys@, kid@, i as int);
            }
            return Some(i);
        }
        i = i + 1;
    }
    proof {
        lemma_first_match_none(set.keys@, kid@);
    }
    None
}

/// The line that opens a certificate in PEM.
pub open spec fn pem_opening() -> Seq<char> {
    "-----BEGIN CERTIFICATE-----\n"@
}

/// The line that closes a certificate in PEM, with the line break that ends
/// the body before it.
pub open spec fn pem_closing() -> Seq<char> {
    "\n-----END CERTIFICATE-----\n"@
}

/// A certificate in PEM: its base64 body between the two delimiter lines.
pub open spec fn pem_certificate(body: Seq<char>) -> Seq<char> {
    pem_opening() + body + pem_closing()
}

/// Puts the PEM delimiter lines round the base64 body of a certificate, as
/// a key set stores the body alone.
pub fn wrap_certificate(body: &str) -> (pem: String)
    ensures
        pem@ == pem_certificate(body@),
{
    let mut pem = String::from_str("-----BEGIN CERTIFICATE-----\n");
    pem.append(body);
    pem.append("\n-----END CERTIFICATE-----\n");
    pem
}

/// Key material in one of the two forms that a key-set entry can hold.
#[derive(Clone, Debug, PartialEq, Eq)]
pub enum KeyMaterial {
    /// A certificate in PEM.
    Certificate { pem: String },
    /// A modulus and a public exponent, each in base64url.
    Components { n: String, e: String },
}

/// The mathematical value of a `KeyMaterial`.
pub enum KeyMaterialView {
    Certificate { pem: Seq<char> },
    Components { n: Seq<char>, e: Seq<char> },
}

impl View for KeyMaterial {
    type V = KeyMaterialView;

    open spec fn view(&self) -> KeyMaterialView {
        match self {
            KeyMaterial::Certificate { pem } => KeyMaterialView::Certificate { pem: pem@ },
            KeyMaterial::Components { n, e } => KeyMaterialView::Components { n: n@, e: e@ },
        }
    }
}

/// The key material of an entry. A certificate chain, where the entry has
/// one, is preferred, and its first certificate taken; an empty chain is an
/// entry without material, whatever else the entry holds. Without a chain
/// the modulus and exponent are taken, where both are there.
pub open spec fn material_of(entry: JWK) -> Result<KeyMaterialView, ErrorView> {
    match entry.x5c {
        Some(chain) => if chain@.len() == 0 {
            Err(ErrorView::KeyMaterialMissing)
        } else {
            Ok(KeyMaterialView::Certificate { pem: pem_certificate(chain@[0]@) })
        },
        None => match (entry.n, entry.e) {
            (Some(n), Some(e)) => Ok(KeyMaterialView::Components { n: n@, e: e@ }),
            _ => Err(ErrorView::KeyMaterialMissing),
        },
    }
}

/// Takes the key material out of an entry. Fails with `KeyMaterialMissing`
/// where the entry's certificate chain is empty, and where it has neither a
/// chain nor both a modulus and an exponent.
pub fn key_material(entry: &JWK) -> (r: Result<KeyMaterial, ValidationError>)
    ensures
        match r {
            Ok(m) => material_of(*entry) == Ok::<KeyMaterialView, ErrorView>(m@),
            Err(e) => material_of(*entry) == Err::<KeyMaterialView, ErrorView>(e@),
        },
{
    match &entry.x5c {
        Some(chain) => {
            if chain.len() == 0 {
                Err(ValidationError::KeyMaterialMissing)
            } else {
                Ok(KeyMaterial::Certificate { pem: wrap_certificate(chain[0].as_str()) })
            }
        },
        None => match (&entry.n, &entry.e) {
            (Some(n), Some(e)) => Ok(KeyMaterial::Components { n: n.clone(), e: e.clone() }),
            _ => Err(ValidationError::KeyMaterialMissing),
        },
    }
}

/// The longest PEM text, in characters, that is read as a certificate.
/// Certificates in use stay far below it.
pub const MAX_PEM_LEN: usize = 16384;

/// The deepest nesting of the encoding inside a PEM text that is read as a
/// certificate. Certificates in use nest a third as deep at most.
pub const MAX_NESTING: usize = 32;

/// Whether a PEM text is handed on to be read as a certificate: it is no
/// longer than `MAX_PEM_LEN`, holds a PEM block, and the contents of the
/// block nest no deeper than `MAX_NESTING`.
pub open spec fn is_readable(pem: Seq<char>) -> bool {
    &&& pem.len() <= MAX_PEM_LEN
    &&& pem_contents(pem) matches Some(der)
    &&& nesting(der, 0, der.len() as int) <= MAX_NESTING
}

/// Whether a key can be made of key material. A certificate must be
/// readable and hold an RSA public key. Of a modulus and an exponent no
/// more is asked than that both are base64url: whether the two numbers are
/// a key shows when a signature is checked with them.
pub open spec fn is_usable(material: KeyMaterialView) -> bool {
    match material {
        KeyMaterialView::Certificate { pem } => is_readable(pem) && pem_holds_rsa_key(pem),
        KeyMaterialView::Components { n, e } => base64url_decoded(n) is Some && base64url_decoded(
            e,
        ) is Some,
    }
}

/// Tells whether a PEM text is handed on to be read as a certificate.
pub fn check_readable(pem: &str) -> (readable: bool)
    ensures
        readable == is_readable(pem@),
{
    if pem.unicode_len() > MAX_PEM_LEN {
        return false;
    }
    match read_pem(pem) {
        Err(_) => false,
        Ok(der) => is_shallow(der.as_slice(), MAX_NESTING),
    }
}

/// A public key, ready to verify signatures. Its value is the material that
/// it was made of: `import_key` is the only way to one, so `handle` is
/// always the key that `material` holds.
pub struct VerificationKey {
    pub(crate) material: KeyMaterial,
    pub(crate) handle: jsonwebtoken::DecodingKey,
}

impl View for VerificationKey {
    type V = KeyMaterialView;

    closed spec fn view(&self) -> KeyMaterialView {
        self.material@
    }
}

impl VerificationKey {
    /// The material that this key was made of.
    pub fn material(&self) -> (m: &KeyMaterial)
        ensures
            m@ == self@,
    {
        &self.material
    }
}

/// Makes a key of its material. Fails with `KeyMaterialInvalid` where a
/// certificate is not readable or holds no RSA public key, and where a
/// modulus or an exponent is not base64url.
pub fn import_key(material: KeyMaterial) -> (r: Result<VerificationKey, ValidationError>)
    ensures
        match r {
            Ok(key) => is_usable(material@) && key@ == material@,
            Err(e) => !is_usable(material@) && e@ == ErrorView::KeyMaterialInvalid,
        },
{
    let imported = match &material {
        KeyMaterial::Certificate { pem } => {
            if !check_readable(pem.as_str()) {
                return Err(ValidationError::KeyMaterialInvalid);
            }
            import_certificate(pem.as_str())
        },
        KeyMaterial::Components { n, e } => import_components(n.as_str(), e.as_str()),
    };
    match imported {
        Ok(handle) => Ok(VerificationKey { material, handle }),
        Err(_) => Err(ValidationError::KeyMaterialInvalid),
    }
}

/// What resolving `kid` in `keys` comes to: the material of the first entry
/// of that name, or the reason for which there is no key.
pub open spec fn resolution_in(keys: Seq<JWK>, kid: Seq<char>) -> Result<
    KeyMaterialView,
    ErrorView,
> {
    match first_match(keys, kid) {
        None => Err(ErrorView::KeyNotFound(kid)),
        Some(i) => match material_of(keys[i]) {
            Err(e) => Err(e),
            Ok(material) => if is_usable(material) {
                Ok(material)
            } else {
                Err(ErrorView::KeyMaterialInvalid)
            },
        },
    }
}

/// What resolving `kid` comes to, given what the request for the key set
/// gave.
pub open spec fn resolution(fetched: Fetched, kid: Seq<char>) -> Result<
    KeyMaterialView,
    ErrorView,
> {
    match received(fetched) {
        Err(failure) => Err(ErrorView::KeySetUnavailable(failure)),
        Ok(set) => resolution_in(set.keys@, kid),
    }
}

/// Resolves a key identifier to a key, given what the one request for the
/// key set gave. Fails with `KeySetUnavailable` where the request gave no
/// key set, with `KeyNotFound` where the set has no entry of that name,
/// with `KeyMaterialMissing` where the entry holds no material, and with
/// `KeyMaterialInvalid` where the material is no key.
pub fn resolve_key(fetched: Fetched, kid: &str) -> (r: Result<VerificationKey, ValidationError>)
    ensures
        match r {
            Ok(key) => resolution(fetched, kid@) == Ok::<KeyMaterialView, ErrorView>(key@),
            Err(e) => resolution(fetched, kid@) == Err::<KeyMaterialView, ErrorView>(e@),
        },
{
    let set = match receive(fetched) {
        Err(failure) => {
            return Err(ValidationError::KeySetUnavailable(failure));
        },
        Ok(set) => set,
    };
    match find_key(&set, kid) {
        None => Err(ValidationError::KeyNotFound(String::from_str(kid))),
        Some(i) => match key_material(&set.keys[i]) {
            Err(e) => Err(e),
            Ok(material) => import_key(material),
        },
    }
}

} // verus!
