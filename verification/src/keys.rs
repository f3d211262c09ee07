//! Signing key material and signer selection.

use vstd::prelude::*;
use vstd::string::StrSliceExecFns;

use crate::errors::ContractError;

verus! {

/// The number of hexadecimal characters in a serialized signing key.
pub const KEY_HEX_LEN: usize = 64;

/// The character is a lower- or upper-case hexadecimal digit.
pub open spec fn is_hex_digit(c: char) -> bool {
    (48 <= c as int && c as int <= 57)  // '0' ..= '9'
     || (97 <= c as int && c as int <= 102)  // 'a' ..= 'f'
     || (65 <= c as int && c as int <= 70)  // 'A' ..= 'F'

}

/// A serialized signing key: exactly 64 hexadecimal characters.
pub open spec fn is_hex_key(s: Seq<char>) -> bool {
    s.len() == KEY_HEX_LEN && forall|i: int| 0 <= i < s.len() ==> is_hex_digit(#[trigger] s[i])
}

/// Decides whether a string is a serialized signing key.
pub fn is_hex_key_exec(s: &str) -> (r: bool)
    ensures
        r == is_hex_key(s@),
{
    let n = s.unicode_len();
    if n != KEY_HEX_LEN {
        return false;
    }
    let mut i: usize = 0;
    while i < n
        invariant
            n == s@.len(),
            i <= n,
            forall|j: int| 0 <= j < i ==> is_hex_digit(#[trigger] s@[j]),
        decreases n - i,
    {
        let cu = s.get_char(i) as u32;
        let digit = 48 <= cu && cu <= 57;
        let lower = 97 <= cu && cu <= 102;
        let upper = 65 <= cu && cu <= 70;
        if !(digit || lower || upper) {
            assert(!is_hex_digit(s@[i as int]));
            return false;
        }
        i += 1;
    }
    true
}

/// A signing keypair, public and secret key each serialized as 64
/// hexadecimal characters. Owned exclusively by the contract identity it was
/// constructed with.
pub struct KeyPair {
    pub public: String,
    pub secret: String,
}

impl KeyPair {
    /// Both keys of the pair are well formed.
    pub open spec fn wf(self) -> bool {
        is_hex_key(self.public@) && is_hex_key(self.secret@)
    }

    /// Builds a keypair from its two serialized keys, rejecting key material
    /// that is not a pair of 64-character hexadecimal strings.
    pub fn from_parts(public: &str, secret: &str) -> (r: Result<KeyPair, ContractError>)
        ensures
            r matches Ok(k) ==> k.public@ == public@ && k.secret@ == secret@ && k.wf(),
            r is Ok <==> is_hex_key(public@) && is_hex_key(secret@),
            r matches Err(e) ==> e is Config,
    {
        if !is_hex_key_exec(public) {
            return Err(ContractError::Config { detail: public.to_owned() });
        }
        if !is_hex_key_exec(secret) {
            return Err(ContractError::Config { detail: secret.to_owned() });
        }
        Ok(KeyPair { public: public.to_owned(), secret: secret.to_owned() })
    }

    /// A copy of the pair, key for key.
    pub fn duplicate(&self) -> (r: KeyPair)
        ensures
            r.public@ == self.public@,
            r.secret@ == self.secret@,
    {
        KeyPair { public: self.public.clone(), secret: self.secret.clone() }
    }
}

/// How a message is signed: with a full keypair, with an external public key
/// only (enough to derive an address), or not at all.
pub enum Signer {
    /// The message is submitted unsigned.
    Unsigned,
    /// The message is signed with the full keypair.
    Keys { keys: KeyPair },
    /// Only a public key is attached; used for address derivation.
    External { public_key: String },
}

/// The signer a network-submitted call must use: the full keypair when the
/// contract identity carries keys, the unsigned signer when it does not.
pub open spec fn signer_matches_keys(keys: Option<KeyPair>, s: Signer) -> bool {
    match keys {
        Some(k) => s matches Signer::Keys { keys: sk } && sk.public@ == k.public@ && sk.secret@
            == k.secret@,
        None => s == Signer::Unsigned,
    }
}

/// Selects the signer for a network-submitted call: the full keypair when
/// keys are present, the unsigned signer when they are absent — never a
/// keyed signer without keys, never an unsigned one with them.
pub fn choose_signer(keys: &Option<KeyPair>) -> (s: Signer)
    ensures
        signer_matches_keys(*keys, s),
        s is Keys <==> keys is Some,
        s is Unsigned <==> keys is None,
{
    match keys {
        Some(k) => Signer::Keys { keys: k.duplicate() },
        None => Signer::Unsigned,
    }
}

} // verus!
