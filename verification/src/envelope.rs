use vstd::prelude::*;

use serde_json::Value;

use crate::errors::VerifyError;
use crate::hexcodec::{decode_hex, spec_hex_decoded, spec_valid_hex};
use crate::policy::{check_notary, check_version, spec_notary_trusted, spec_version_supported};

verus! {

/// The untrusted proof envelope, parsed once per request and never mutated.
pub struct ProofEnvelope {
    pub version: String,
    pub data: String,
    pub notary_url: String,
    pub websocket_proxy_url: Option<String>,
}

/// The mathematical content of an envelope.
pub struct ProofEnvelopeView {
    pub version: Seq<char>,
    pub data: Seq<char>,
    pub notary_url: Seq<char>,
    pub websocket_proxy_url: Option<Seq<char>>,
}

impl View for ProofEnvelope {
    type V = ProofEnvelopeView;

    open spec fn view(&self) -> ProofEnvelopeView {
        ProofEnvelopeView {
            version: self.version@,
            data: self.data@,
            notary_url: self.notary_url@,
            websocket_proxy_url: self.websocket_proxy_url.deep_view(),
        }
    }
}

/// serde_json's JSON value type, opaque to the verifier.
#[verifier::external_type_specification]
#[verifier::external_body]
pub struct ExValue(Value);

/// The member a JSON object lookup yields; a function of the value and the
/// key alone.
pub uninterp spec fn spec_json_member(v: Value, key: Seq<char>) -> Option<Value>;

/// The string content of a JSON value, when it is a JSON string; a function
/// of the value alone.
pub uninterp spec fn spec_json_str(v: Value) -> Option<Seq<char>>;

/// Whether a JSON value is JSON null; a function of the value alone.
pub uninterp spec fn spec_json_is_null(v: Value) -> bool;

/// Relies on serde_json::Value::get with a string key: the member of a JSON
/// object under that key, or None when the key is absent or the value is not
/// an object.
#[verifier::external_body]
fn json_get<'a>(value: &'a Value, key: &str) -> (r: Option<&'a Value>)
    ensures
        match r {
            Some(m) => spec_json_member(*value, key@) == Some(*m),
            None => spec_json_member(*value, key@) is None,
        },
{
    value.get(key)
}

/// Relies on serde_json::Value::as_str: the contained string when the value
/// is a JSON string, None otherwise.
#[verifier::external_body]
fn json_as_str(value: &Value) -> (r: Option<String>)
    ensures
        match r {
            Some(s) => spec_json_str(*value) == Some(s@),
            None => spec_json_str(*value) is None,
        },
{
    value.as_str().map(|s| s.to_string())
}

/// Relies on serde_json::Value::is_null: whether the value is JSON null.
#[verifier::external_body]
fn json_is_null(value: &Value) -> (r: bool)
    ensures
        r == spec_json_is_null(*value),
{
    value.is_null()
}

/// The string member of a JSON object under a key: present and a string, or
/// nothing.
pub open spec fn spec_str_member(v: Value, key: Seq<char>) -> Option<Seq<char>> {
    match spec_json_member(v, key) {
        Some(m) => spec_json_str(m),
        None => None,
    }
}

/// The outcome of parsing an envelope value: `version`, `data` and
/// `meta.notaryUrl` must be present strings; `meta.websocketProxyUrl` may be
/// absent or null, and must be a string when it is anything else. Any other
/// shape is a format failure.
pub open spec fn spec_parse_outcome(v: Value) -> Result<ProofEnvelopeView, VerifyError> {
    match spec_str_member(v, "version"@) {
        None => Err(VerifyError::InvalidFormat),
        Some(version) => match spec_str_member(v, "data"@) {
            None => Err(VerifyError::InvalidFormat),
            Some(data) => match spec_json_member(v, "meta"@) {
                None => Err(VerifyError::InvalidFormat),
                Some(meta) => match spec_str_member(meta, "notaryUrl"@) {
                    None => Err(VerifyError::InvalidFormat),
                    Some(notary_url) => match spec_json_member(meta, "websocketProxyUrl"@) {
                        None => Ok(
                            ProofEnvelopeView {
                                version,
                                data,
                                notary_url,
                                websocket_proxy_url: None,
                            },
                        ),
                        Some(w) => if spec_json_is_null(w) {
                            Ok(
                                ProofEnvelopeView {
                                    version,
                                    data,
                                    notary_url,
                                    websocket_proxy_url: None,
                                },
                            )
                        } else {
                            match spec_json_str(w) {
                                Some(proxy) => Ok(
                                    ProofEnvelopeView {
                                        version,
                                        data,
                                        notary_url,
                                        websocket_proxy_url: Some(proxy),
                                    },
                                ),
                                None => Err(VerifyError::InvalidFormat),
                            }
                        },
                    },
                },
            },
        },
    }
}

/// Parses the untrusted envelope value, exactly as the parse outcome says.
pub fn parse_envelope(value: &Value) -> (r: Result<ProofEnvelope, VerifyError>)
    ensures
        match r {
            Ok(env) => spec_parse_outcome(*value) == Ok::<ProofEnvelopeView, VerifyError>(env@),
            Err(e) => spec_parse_outcome(*value) == Err::<ProofEnvelopeView, VerifyError>(e),
        },
{
    let version = match json_get(value, "version") {
        Some(v) => match json_as_str(v) {
            Some(s) => s,
            None => {
                return Err(VerifyError::InvalidFormat);
            },
        },
        None => {
            return Err(VerifyError::InvalidFormat);
        },
    };
    let data = match json_get(value, "data") {
        Some(v) => match json_as_str(v) {
            Some(s) => s,
            None => {
                return Err(VerifyError::InvalidFormat);
            },
        },
        None => {
            return Err(VerifyError::InvalidFormat);
        },
    };
    let meta = match json_get(value, "meta") {
        Some(m) => m,
        None => {
            return Err(VerifyError::InvalidFormat);
        },
    };
    let notary_url = match json_get(meta, "notaryUrl") {
        Some(v) => match json_as_str(v) {
            Some(s) => s,
            None => {
                return Err(VerifyError::InvalidFormat);
            },
        },
        None => {
            return Err(VerifyError::InvalidFormat);
        },
    };
    let websocket_proxy_url = match json_get(meta, "websocketProxyUrl") {
        None => None,
        Some(w) => {
            if json_is_null(w) {
                None
            } else {
                match json_as_str(w) {
                    Some(s) => Some(s),
                    None => {
                        return Err(VerifyError::InvalidFormat);
                    },
                }
            }
        },
    };
    Ok(ProofEnvelope { version, data, notary_url, websocket_proxy_url })
}

/// The outcome of the policy stage on an envelope: the first failing check
/// decides, and an accepted envelope yields its decoded payload.
pub open spec fn spec_envelope_outcome(env: ProofEnvelopeView) -> Result<Seq<u8>, VerifyError> {
    if !spec_version_supported(env.version) {
        Err(VerifyError::UnsupportedVersion)
    } else if !spec_notary_trusted(env.notary_url) {
        Err(VerifyError::UntrustedNotary)
    } else if env.data.len() == 0 {
        Err(VerifyError::MissingData)
    } else if !spec_valid_hex(env.data) {
        Err(VerifyError::InvalidEncoding)
    } else {
        Ok(spec_hex_decoded(env.data))
    }
}

/// Enforces the trust policy on a parsed envelope and decodes its payload:
/// supported version family, allow-listed notary, non-empty data, strict hex.
pub fn validate_envelope(env: &ProofEnvelope) -> (r: Result<Vec<u8>, VerifyError>)
    ensures
        match r {
            Ok(b) => spec_envelope_outcome(env@) == Ok::<Seq<u8>, VerifyError>(b@),
            Err(e) => spec_envelope_outcome(env@) == Err::<Seq<u8>, VerifyError>(e),
        },
{
    if !check_version(env.version.as_str()) {
        return Err(VerifyError::UnsupportedVersion);
    }
    if !check_notary(env.notary_url.as_str()) {
        return Err(VerifyError::UntrustedNotary);
    }
    if env.data.as_str().is_empty() {
        return Err(VerifyError::MissingData);
    }
    decode_hex(env.data.as_str())
}

/// The outcome of the whole pre-attestation stage on a raw envelope value:
/// the parse outcome, then the policy outcome on the parsed envelope.
pub open spec fn spec_prepare_outcome(v: Value) -> Result<Seq<u8>, VerifyError> {
    match spec_parse_outcome(v) {
        Ok(env) => spec_envelope_outcome(env),
        Err(e) => Err(e),
    }
}

/// Parses and validates the untrusted envelope value in one step, exactly as
/// the pre-attestation outcome says: the payload bytes come back only when
/// the envelope parsed and every trust-policy check passed on it.
pub fn prepare_presentation_bytes(value: &Value) -> (r: Result<Vec<u8>, VerifyError>)
    ensures
        match r {
            Ok(b) => spec_prepare_outcome(*value) == Ok::<Seq<u8>, VerifyError>(b@),
            Err(e) => spec_prepare_outcome(*value) == Err::<Seq<u8>, VerifyError>(e),
        },
        r matches Err(e) ==> (e == VerifyError::InvalidFormat || e
            == VerifyError::UnsupportedVersion || e == VerifyError::UntrustedNotary || e
            == VerifyError::MissingData || e == VerifyError::InvalidEncoding),
{
    match parse_envelope(value) {
        Ok(env) => validate_envelope(&env),
        Err(e) => Err(e),
    }
}

/// No payload is ever handed onward for an envelope value that did not pass
/// the whole trust policy: a successful pre-attestation outcome means the
/// value parsed, its version family is supported, its notary is
/// allow-listed, and the bytes are the strict decoding of its non-empty
/// payload.
pub proof fn lemma_success_implies_trust(v: Value, b: Seq<u8>)
    requires
        spec_prepare_outcome(v) == Ok::<Seq<u8>, VerifyError>(b),
    ensures
        spec_parse_outcome(v) is Ok,
        spec_version_supported(spec_parse_outcome(v)->Ok_0.version),
        spec_notary_trusted(spec_parse_outcome(v)->Ok_0.notary_url),
        spec_parse_outcome(v)->Ok_0.data.len() > 0,
        spec_valid_hex(spec_parse_outcome(v)->Ok_0.data),
        b == spec_hex_decoded(spec_parse_outcome(v)->Ok_0.data),
{
}

/// Handling the same raw envelope value twice yields the same
/// pre-attestation outcome: the outcome is a function of the value alone, so
/// no hidden state can change the answer between two calls.
pub proof fn lemma_prepare_outcome_deterministic(
    v: Value,
    r1: Result<Seq<u8>, VerifyError>,
    r2: Result<Seq<u8>, VerifyError>,
)
    requires
        r1 == spec_prepare_outcome(v),
        r2 == spec_prepare_outcome(v),
    ensures
        r1 == r2,
{
}

/// Validating the same envelope twice yields the same outcome: the outcome
/// is a function of the envelope's content alone, so no hidden state can
/// change the answer between two calls.
pub proof fn lemma_envelope_outcome_deterministic(
    env: ProofEnvelopeView,
    r1: Result<Seq<u8>, VerifyError>,
    r2: Result<Seq<u8>, VerifyError>,
)
    requires
        r1 == spec_envelope_outcome(env),
        r2 == spec_envelope_outcome(env),
    ensures
        r1 == r2,
{
}

/// An envelope of a supported version whose notary is not allow-listed is
/// rejected as untrusted, whatever its payload holds.
pub proof fn lemma_untrusted_notary_rejected(env: ProofEnvelopeView)
    requires
        spec_version_supported(env.version),
        !spec_notary_trusted(env.notary_url),
    ensures
        spec_envelope_outcome(env) == Err::<Seq<u8>, VerifyError>(VerifyError::UntrustedNotary),
{
}

/// An envelope with an empty payload is always rejected, and once it passes
/// the version and notary checks the failure is the missing data itself: no
/// decoding outcome is ever reported for it.
pub proof fn lemma_empty_data_rejected(env: ProofEnvelopeView)
    requires
        env.data.len() == 0,
    ensures
        spec_envelope_outcome(env) is Err,
        spec_version_supported(env.version) && spec_notary_trusted(env.notary_url)
            ==> spec_envelope_outcome(env) == Err::<Seq<u8>, VerifyError>(VerifyError::MissingData),
{
}

} // verus!
