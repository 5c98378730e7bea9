//! The answers of the platform secret store (the Kotlin bridge reached
//! through JNI) turned into secret-store results.

use vstd::prelude::*;
use super::{SecretBytes, SecretError};
use crate::text::{owned, push_str};

verus! {

/// The Kotlin class that holds the secrets.
pub const BRIDGE_CLASS: &'static str = "org/fcast/android/sender/data/SecretStoreBridge";

/// A failed JNI step, reported as `<step>: <detail>`.
pub fn backend_failure(step: &str, detail: &str) -> (e: SecretError)
    ensures
        e matches SecretError::Backend(m) && m@ == step@ + ": "@ + detail@,
{
    let mut m = owned(step);
    push_str(&mut m, ": ");
    push_str(&mut m, detail);
    SecretError::Backend(m)
}

/// The bytes of a Java `byte[]`, each signed byte read as the unsigned byte
/// with the same bits.
pub open spec fn unsigned_bytes(s: Seq<i8>) -> Seq<u8> {
    s.map_values(|b: i8| b as u8)
}

/// The result of a lookup of `alias`, given the array the bridge returned:
/// `null` means the alias is unknown.
pub fn get_answer(alias: &str, answer: Option<Vec<i8>>) -> (r: Result<SecretBytes, SecretError>)
    ensures
        match answer {
            None => r matches Err(SecretError::NotFound(a)) && a@ == alias@,
            Some(bytes) => r matches Ok(v) && v@ == unsigned_bytes(bytes@),
        },
{
    match answer {
        None => Err(SecretError::NotFound(owned(alias))),
        Some(bytes) => {
            let mut out: Vec<u8> = Vec::new();
            let mut i: usize = 0;
            while i < bytes.len()
                invariant
                    i <= bytes.len(),
                    out@ == unsigned_bytes(bytes@).take(i as int),
                decreases bytes.len() - i,
            {
                out.push(#[verifier::truncate] (bytes[i] as u8));
                proof {
                    assert(unsigned_bytes(bytes@).take(i + 1) =~= unsigned_bytes(bytes@).take(i as int).push(bytes@[i as int] as u8));
                }
                i = i + 1;
            }
            proof {
                assert(unsigned_bytes(bytes@).take(bytes.len() as int) =~= unsigned_bytes(bytes@));
            }
            Ok(SecretBytes::new(out))
        },
    }
}

} // verus!
