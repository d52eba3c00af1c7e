use vstd::prelude::*;

use crate::errors::VerifyError;
use crate::scan::{contains_str, spec_contains};

verus! {

/// What the external attestation verification reports on success: the
/// attested server identity, if any, and the revealed received transcript
/// bytes, if any. Both are untrusted-but-attested values.
pub struct AttestationOutput {
    pub server_identity: Option<String>,
    pub transcript: Option<Vec<u8>>,
}

/// The mathematical content of an attestation output.
pub struct AttestationOutputView {
    pub server_identity: Option<Seq<char>>,
    pub transcript: Option<Seq<u8>>,
}

impl View for AttestationOutput {
    type V = AttestationOutputView;

    open spec fn view(&self) -> AttestationOutputView {
        AttestationOutputView {
            server_identity: self.server_identity.deep_view(),
            transcript: self.transcript.deep_view(),
        }
    }
}

/// An acceptable attested server identity: it contains one of the expected
/// service domains, by substring containment.
pub open spec fn spec_server_identity_ok(s: Seq<char>) -> bool {
    spec_contains(s, "api.x.com"@) || spec_contains(s, "api.twitter.com"@) || spec_contains(
        s,
        "x.com"@,
    )
}

/// The outcome of the identity and transcript checks on an attestation
/// output: the identity must be present and name the expected service, and a
/// transcript must be present.
pub open spec fn spec_attestation_outcome(out: AttestationOutputView) -> Result<
    (Seq<char>, Seq<u8>),
    VerifyError,
> {
    match out.server_identity {
        None => Err(VerifyError::NoServerIdentity),
        Some(s) => if !spec_server_identity_ok(s) {
            Err(VerifyError::ServerIdentityMismatch)
        } else {
            match out.transcript {
                None => Err(VerifyError::NoTranscript),
                Some(b) => Ok((s, b)),
            }
        },
    }
}

/// Enforces the identity and transcript checks on an attestation output and
/// hands back the attested server identity and the revealed bytes.
pub fn check_attestation_output<'a>(out: &'a AttestationOutput) -> (r: Result<
    (&'a str, &'a Vec<u8>),
    VerifyError,
>)
    ensures
        match r {
            Ok(p) => spec_attestation_outcome(out@) == Ok::<(Seq<char>, Seq<u8>), VerifyError>(
                (p.0@, p.1@),
            ),
            Err(e) => spec_attestation_outcome(out@) == Err::<(Seq<char>, Seq<u8>), VerifyError>(
                e,
            ),
        },
{
    match &out.server_identity {
        None => Err(VerifyError::NoServerIdentity),
        Some(s) => {
            let ok = contains_str(s.as_str(), "api.x.com") || contains_str(
                s.as_str(),
                "api.twitter.com",
            ) || contains_str(s.as_str(), "x.com");
            if !ok {
                Err(VerifyError::ServerIdentityMismatch)
            } else {
                match &out.transcript {
                    None => Err(VerifyError::NoTranscript),
                    Some(b) => {
                        proof {
                            assert(b.deep_view() =~= b@);
                        }
                        Ok((s.as_str(), b))
                    },
                }
            }
        },
    }
}

/// The characters that the revealed transcript bytes decode to. The decoding
/// depends on the bytes alone.
pub uninterp spec fn spec_utf8_lossy(bytes: Seq<u8>) -> Seq<char>;

/// Relies on String::from_utf8_lossy: the result is a function of the bytes
/// alone; well-formed UTF-8 decodes to its own characters and malformed
/// sequences become replacement characters, so no byte sequence fails.
#[verifier::external_body]
pub(crate) fn utf8_lossy(bytes: &Vec<u8>) -> (r: String)
    ensures
        r@ == spec_utf8_lossy(bytes@),
        bytes@.len() == 0 ==> r@.len() == 0,
{
    String::from_utf8_lossy(bytes).to_string()
}

} // verus!
