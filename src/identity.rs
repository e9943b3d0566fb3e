use vstd::prelude::*;

use crate::text::{ascii_lower, lemma_ascii_lower_idempotent};

verus! {

/// The most bytes a principal holds.
pub const MAX_IDENTITY_BYTES: usize = 29;

/// What `candid::Principal::from_text` yields, as bytes, for a text already in lower case.
pub uninterp spec fn principal_of_text(lowered: Seq<char>) -> Option<Seq<u8>>;

/// The printed (canonical, textual) form of the principal with these bytes.
pub uninterp spec fn principal_text(bytes: Seq<u8>) -> Seq<char>;

/// The identity that a text names, if it names one. The text is read without regard to
/// the case of its ASCII letters, and it is accepted only when, in lower case, it is the
/// printed form of the identity.
pub open spec fn parsed_identity(text: Seq<char>) -> Option<Seq<u8>> {
    let lowered = ascii_lower(text);
    match principal_of_text(lowered) {
        Some(b) => if b.len() <= MAX_IDENTITY_BYTES && principal_text(b) == lowered {
            Some(b)
        } else {
            None
        },
        None => None,
    }
}

/// Relies on `candid::Principal::from_text` (from `ic_principal`): the text is upper-cased
/// before it is decoded and lower-cased for the final comparison, so only its lower-case
/// form matters; a principal holds at most 29 bytes; and a text is accepted only when its
/// lower-case form equals the printed form (`to_text`) of the principal decoded from it.
#[verifier::external_body]
fn principal_from_text(s: &str) -> (r: Result<Vec<u8>, String>)
    ensures
        match r {
            Ok(b) => {
                &&& principal_of_text(ascii_lower(s@)) == Some(b@)
                &&& b@.len() <= MAX_IDENTITY_BYTES
                &&& principal_text(b@) == ascii_lower(s@)
            },
            Err(_) => principal_of_text(ascii_lower(s@)) is None,
        },
{
    candid::Principal::from_text(s).map(|p| p.as_slice().to_vec()).map_err(|e| e.to_string())
}

/// Relies on `candid::Principal::from_slice` and `Principal::to_text`: the printed form of
/// the principal with these bytes (`from_slice` panics past 29 bytes). The form is in lower
/// case (the base-32 text is lower-cased before the dashes go in), and `from_text` reads it
/// back as the same principal: it decodes the checksum and the bytes it was printed from,
/// and the printed form equals itself in lower case.
#[verifier::external_body]
fn principal_to_text(b: &[u8]) -> (r: String)
    requires
        b@.len() <= MAX_IDENTITY_BYTES,
    ensures
        r@ == principal_text(b@),
        ascii_lower(r@) == r@,
        principal_of_text(r@) == Some(b@),
{
    candid::Principal::from_slice(b).to_text()
}

/// The identity of a party or of a canister: at most 29 bytes, written as text in the
/// checksummed, dash-grouped form.
pub struct Identity {
    bytes: Vec<u8>,
}

impl View for Identity {
    type V = Seq<u8>;

    closed spec fn view(&self) -> Seq<u8> {
        self.bytes@
    }
}

impl Identity {
    #[verifier::type_invariant]
    spec fn fits(&self) -> bool {
        self.bytes@.len() <= MAX_IDENTITY_BYTES
    }

    /// The identity with these bytes, if there are at most 29 of them.
    pub fn from_bytes(bytes: Vec<u8>) -> (r: Option<Identity>)
        ensures
            r is Some <==> bytes@.len() <= MAX_IDENTITY_BYTES,
            r matches Some(id) ==> id@ == bytes@,
    {
        if bytes.len() <= MAX_IDENTITY_BYTES {
            Some(Identity { bytes })
        } else {
            None
        }
    }

    /// Parses an identity from its textual form.
    pub fn from_text(s: &str) -> (r: Result<Identity, String>)
        ensures
            r is Ok <==> parsed_identity(s@) is Some,
            r matches Ok(id) ==> parsed_identity(s@) == Some(id@),
    {
        match principal_from_text(s) {
            Ok(bytes) => Ok(Identity { bytes }),
            Err(e) => Err(e),
        }
    }

    /// The textual form of the identity, which parses back to the same identity.
    pub fn to_text(&self) -> (r: String)
        ensures
            r@ == principal_text(self@),
            parsed_identity(r@) == Some(self@),
    {
        proof {
            use_type_invariant(self);
        }
        principal_to_text(self.bytes.as_slice())
    }

    /// The identity's bytes.
    pub fn as_bytes(&self) -> (r: &[u8])
        ensures
            r@ == self@,
            r@.len() <= MAX_IDENTITY_BYTES,
    {
        proof {
            use_type_invariant(self);
        }
        self.bytes.as_slice()
    }

    /// A copy of the identity.
    pub fn duplicate(&self) -> (r: Identity)
        ensures
            r@ == self@,
    {
        proof {
            use_type_invariant(self);
        }
        Identity { bytes: self.bytes.clone() }
    }

    /// Whether two identities are the same.
    pub fn same_as(&self, other: &Identity) -> (r: bool)
        ensures
            r == (self@ == other@),
    {
        let n = self.bytes.len();
        if n != other.bytes.len() {
            return false;
        }
        let mut i: usize = 0;
        while i < n
            invariant
                n == self@.len(),
                n == other@.len(),
                forall|k: int| 0 <= k < i ==> self@[k] == other@[k],
            decreases n - i,
        {
            if self.bytes[i] != other.bytes[i] {
                return false;
            }
            i = i + 1;
        }
        assert(self@ =~= other@);
        true
    }
}

/// Printing an identity that was parsed from a text, and parsing the print, gives back
/// the same identity.
pub proof fn lemma_parse_print_parse(text: Seq<char>)
    requires
        parsed_identity(text) is Some,
    ensures
        parsed_identity(principal_text(parsed_identity(text)->Some_0)) == parsed_identity(text),
{
    lemma_ascii_lower_idempotent(text);
}

} // verus!
