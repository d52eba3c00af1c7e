use vstd::prelude::*;
use vstd::string::StringExecFns;

verus! {

/// Every way a verification request can fail. A failure is terminal for the
/// request and is surfaced outward as a single message string.
#[derive(Clone, Debug, PartialEq, Eq)]
pub enum VerifyError {
    /// The envelope is not an object carrying the required string fields.
    InvalidFormat,
    /// The protocol version does not belong to the supported family.
    UnsupportedVersion,
    /// The notary origin is not on the allow-list.
    UntrustedNotary,
    /// The envelope's payload field is empty.
    MissingData,
    /// The payload is not a well-formed hex string.
    InvalidEncoding,
    /// The decoded payload is not a presentation in the expected binary format.
    DeserializationFailed,
    /// The cryptographic verification of the presentation failed.
    AttestationFailed,
    /// The attestation carries no server identity.
    NoServerIdentity,
    /// The attested server identity does not name the expected service.
    ServerIdentityMismatch,
    /// The attestation reveals no transcript.
    NoTranscript,
    /// The named transcript field was not found.
    FieldNotFound(String),
    /// No object slice for the named parent field could be located.
    NestedFieldNotFound(String, String),
    /// No valid handle could be extracted from the transcript.
    HandleNotFound,
    /// Neither of the tweet id fields was found in the transcript.
    TweetIdNotFound,
    /// No author could be resolved from the transcript.
    AuthorNotFound,
    /// Neither a like nor a retweet was detected in the transcript.
    NoEngagementDetected,
    /// The requested claim type is not recognized.
    UnknownClaimType,
}

/// The outward message for each failure; the extraction failures name the
/// missing field.
pub open spec fn spec_message(e: VerifyError) -> Seq<char> {
    match e {
        VerifyError::InvalidFormat => "Invalid proof format"@,
        VerifyError::UnsupportedVersion => "Unsupported proof version"@,
        VerifyError::UntrustedNotary => "Untrusted notary"@,
        VerifyError::MissingData => "Missing proof data"@,
        VerifyError::InvalidEncoding => "Invalid hex data"@,
        VerifyError::DeserializationFailed => "Failed to deserialize presentation"@,
        VerifyError::AttestationFailed => "Presentation verification failed"@,
        VerifyError::NoServerIdentity => "No server identity in proof"@,
        VerifyError::ServerIdentityMismatch => "Proof not from Twitter API"@,
        VerifyError::NoTranscript => "No transcript data in proof"@,
        VerifyError::FieldNotFound(f) => "Could not find field '"@ + f@ + "' in data"@,
        VerifyError::NestedFieldNotFound(p, f) => "Could not find nested field '"@ + p@ + "."@
            + f@ + "'"@,
        VerifyError::HandleNotFound => "Could not extract Twitter handle from verified transcript"@,
        VerifyError::TweetIdNotFound => "Could not find tweet id in data"@,
        VerifyError::AuthorNotFound => "Could not resolve tweet author"@,
        VerifyError::NoEngagementDetected => "No engagement (like or retweet) detected in proof"@,
        VerifyError::UnknownClaimType => "Unknown quest type"@,
    }
}

impl VerifyError {
    /// The human-readable message reported for this failure.
    pub fn message(&self) -> (r: String)
        ensures
            r@ == spec_message(*self),
    {
        match self {
            VerifyError::InvalidFormat => String::from_str("Invalid proof format"),
            VerifyError::UnsupportedVersion => String::from_str("Unsupported proof version"),
            VerifyError::UntrustedNotary => String::from_str("Untrusted notary"),
            VerifyError::MissingData => String::from_str("Missing proof data"),
            VerifyError::InvalidEncoding => String::from_str("Invalid hex data"),
            VerifyError::DeserializationFailed => String::from_str(
                "Failed to deserialize presentation",
            ),
            VerifyError::AttestationFailed => String::from_str("Presentation verification failed"),
            VerifyError::NoServerIdentity => String::from_str("No server identity in proof"),
            VerifyError::ServerIdentityMismatch => String::from_str("Proof not from Twitter API"),
            VerifyError::NoTranscript => String::from_str("No transcript data in proof"),
            VerifyError::FieldNotFound(f) => String::from_str("Could not find field '").concat(
                f.as_str(),
            ).concat("' in data"),
            VerifyError::NestedFieldNotFound(p, f) => String::from_str(
                "Could not find nested field '",
            ).concat(p.as_str()).concat(".").concat(f.as_str()).concat("'"),
            VerifyError::HandleNotFound => String::from_str(
                "Could not extract Twitter handle from verified transcript",
            ),
            VerifyError::TweetIdNotFound => String::from_str("Could not find tweet id in data"),
            VerifyError::AuthorNotFound => String::from_str("Could not resolve tweet author"),
            VerifyError::NoEngagementDetected => String::from_str(
                "No engagement (like or retweet) detected in proof",
            ),
            VerifyError::UnknownClaimType => String::from_str("Unknown quest type"),
        }
    }
}

} // verus!
