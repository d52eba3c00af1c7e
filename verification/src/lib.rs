//! A verification gateway for notarized attestations of HTTPS interactions
//! with a social-media API. An untrusted envelope carries a hex payload and
//! names the notary that co-signed it; the gateway parses the envelope,
//! enforces the trust policy, decodes the payload, checks the attested
//! server identity, and decides profile, authorship and engagement claims by
//! tolerant field extraction over the revealed transcript. The cryptographic
//! verification of the presentation itself is delegated to an external
//! routine whose output enters through [`attestation::AttestationOutput`].

pub mod attestation;
pub mod claims;
pub mod envelope;
pub mod errors;
pub mod extract;
pub mod hexcodec;
pub mod policy;
pub mod respond;
pub mod scan;
