//! Provisioning of the issuer's key: a fresh private key as the hexadecimal
//! text that [`fetch_private_key`](crate::issuer::fetch_private_key) reads,
//! and the name of the file it goes to.

use crate::capability::{issuer_public_key, random_private_key};
use crate::error::Error;
use crate::hexcode::{hex_decoded, hex_encode, hex_encoded, is_hex, law_hex_round_trip};
use crate::issuer::IssuerKey;
use vstd::prelude::*;

verus! {

/// The file a new key is written to where no path is given.
pub const DEFAULT_KEY_FILE: &'static str = "issuer_key.txt";

/// The secret text of an issuer key: its encoding in lower-case
/// hexadecimal. Reading the text back gives the same key.
pub fn key_to_hex(key: &IssuerKey) -> (text: String)
    ensures
        text@ == hex_encoded(key@),
        is_hex(text@),
        hex_decoded(text@) == key@,
        issuer_public_key(hex_decoded(text@)) is Ok,
{
    proof {
        law_hex_round_trip(key@);
    }
    hex_encode(key.as_cbor().as_slice())
}

/// Draws a fresh private key and gives its secret text. The key is tried
/// before it is handed out: text that comes back is text that
/// `fetch_private_key` accepts. Fails with `Serialization` where the key
/// could not be encoded, and with `IssuerFault` where the encoding does not
/// decode again.
pub fn generate_key() -> (r: Result<String, Error>)
    ensures
        match r {
            Ok(text) => is_hex(text@) && issuer_public_key(hex_decoded(text@)) is Ok,
            Err(e) => e == Error::Serialization || e == Error::IssuerFault,
        },
{
    match random_private_key() {
        Ok(cbor) => match IssuerKey::from_cbor(cbor) {
            Ok(key) => Ok(key_to_hex(&key)),
            Err(e) => Err(e),
        },
        Err(_) => Err(Error::Serialization),
    }
}

/// The file to write a new key to: the first argument after the program's
/// name, or `DEFAULT_KEY_FILE` where there is none.
pub fn output_file(args: &Vec<String>) -> (path: String)
    ensures
        path@ == if args@.len() > 1 {
            args@[1]@
        } else {
            DEFAULT_KEY_FILE@
        },
{
    if args.len() > 1 {
        args[1].clone()
    } else {
        DEFAULT_KEY_FILE.to_owned()
    }
}

} // verus!
