use vstd::prelude::*;
use crate::hex::{decode_hex, hex_bytes, is_hex_body, strip_0x};
use crate::outcome::VerificationError;

verus! {

/// Interprets what the "current code at address" network capability
/// handed back and turns it into the bytecode the search compares
/// against. Absence of code and transport failure are distinct, non-
/// aborting error kinds: an empty or missing answer is `NoDeployedCode`,
/// a failed or malformed answer is `ResolverUnavailable`, and neither is
/// ever reported as a failed match.
pub fn resolve_deployed_code(fetched: Result<Option<String>, String>) -> (r: Result<
    Vec<u8>,
    VerificationError,
>)
    ensures
        match fetched {
            Err(t) => r == Err::<Vec<u8>, _>(VerificationError::ResolverUnavailable(t)),
            Ok(None) => r == Err::<Vec<u8>, _>(VerificationError::NoDeployedCode),
            Ok(Some(s)) => {
                if !is_hex_body(strip_0x(s@)) {
                    r matches Err(VerificationError::ResolverUnavailable(m)) && m@
                        == "malformed bytecode in node response"@
                } else if hex_bytes(strip_0x(s@)).len() == 0 {
                    r == Err::<Vec<u8>, _>(VerificationError::NoDeployedCode)
                } else {
                    r matches Ok(b) && b@ == hex_bytes(strip_0x(s@))
                }
            },
        },
{
    match fetched {
        Err(t) => Err(VerificationError::ResolverUnavailable(t)),
        Ok(None) => Err(VerificationError::NoDeployedCode),
        Ok(Some(s)) => {
            match decode_hex(s.as_str()) {
                None => Err(
                    VerificationError::ResolverUnavailable(
                        "malformed bytecode in node response".to_owned(),
                    ),
                ),
                Some(b) => {
                    if b.len() == 0 {
                        Err(VerificationError::NoDeployedCode)
                    } else {
                        Ok(b)
                    }
                },
            }
        },
    }
}

} // verus!
