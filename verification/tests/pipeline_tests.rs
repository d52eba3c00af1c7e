use quest_verifier::attestation::{check_attestation_output, AttestationOutput};
use quest_verifier::claims::{
    parse_claim_type, verify_authorship_transcript, verify_claim, verify_engagement_transcript,
    verify_profile_proof, verify_twitter_proof, ClaimType, VerificationResult,
};
use quest_verifier::envelope::{parse_envelope, prepare_presentation_bytes, validate_envelope};
use quest_verifier::errors::VerifyError;
use quest_verifier::respond::assemble_response;

fn envelope_value(version: &str, data: &str, notary: &str) -> serde_json::Value {
    let text = format!(
        "{{\"version\":\"{}\",\"data\":\"{}\",\"meta\":{{\"notaryUrl\":\"{}\",\"websocketProxyUrl\":\"ws://localhost:55688\"}}}}",
        version, data, notary
    );
    serde_json::from_str(&text).unwrap()
}

#[test]
fn test_verify_rejects_untrusted_notary() {
    let proof = envelope_value("0.1.0-alpha.12", "48656c6c6f", "https://evil-notary.com");
    let result = prepare_presentation_bytes(&proof);
    assert!(result.is_err());
    assert!(result.unwrap_err().message().contains("Untrusted notary"));
}

#[test]
fn test_unsupported_version_rejected_first() {
    // the version check runs before the notary check
    let proof = envelope_value("1.0.0", "48656c6c6f", "https://evil-notary.com");
    assert_eq!(
        prepare_presentation_bytes(&proof).unwrap_err(),
        VerifyError::UnsupportedVersion
    );
}

#[test]
fn test_empty_data_rejected_before_decoding() {
    let proof = envelope_value("0.1.0-alpha.12", "", "http://localhost:7047");
    assert_eq!(
        prepare_presentation_bytes(&proof).unwrap_err(),
        VerifyError::MissingData
    );
}

#[test]
fn test_invalid_hex_data_rejected() {
    let proof = envelope_value("0.1.0-alpha.12", "xyz123", "http://127.0.0.1:7047");
    assert_eq!(
        prepare_presentation_bytes(&proof).unwrap_err(),
        VerifyError::InvalidEncoding
    );
}

#[test]
fn test_malformed_envelope_rejected() {
    let missing: serde_json::Value =
        serde_json::from_str("{\"version\":\"0.1.0-alpha.12\"}").unwrap();
    assert_eq!(
        prepare_presentation_bytes(&missing).unwrap_err(),
        VerifyError::InvalidFormat
    );
    let null: serde_json::Value = serde_json::from_str("null").unwrap();
    assert_eq!(
        prepare_presentation_bytes(&null).unwrap_err(),
        VerifyError::InvalidFormat
    );
    let wrong_type: serde_json::Value =
        serde_json::from_str("{\"version\":7,\"data\":\"00\",\"meta\":{\"notaryUrl\":\"x\"}}")
            .unwrap();
    assert_eq!(
        prepare_presentation_bytes(&wrong_type).unwrap_err(),
        VerifyError::InvalidFormat
    );
}

#[test]
fn test_parse_envelope_fields() {
    let proof = envelope_value("0.1.0-alpha.12", "48656c6c6f", "https://notary.pse.dev");
    let env = parse_envelope(&proof).unwrap();
    assert_eq!(env.version, "0.1.0-alpha.12");
    assert_eq!(env.data, "48656c6c6f");
    assert_eq!(env.notary_url, "https://notary.pse.dev");
    assert_eq!(
        env.websocket_proxy_url.as_deref(),
        Some("ws://localhost:55688")
    );
}

#[test]
fn test_validate_envelope_accepts_trusted_notary() {
    let proof = envelope_value(
        "0.1.0-alpha.12",
        "48656c6c6f",
        "https://notary.pse.dev/v0.1.0-alpha.12",
    );
    let env = parse_envelope(&proof).unwrap();
    assert_eq!(validate_envelope(&env).unwrap(), b"Hello".to_vec());
}

#[test]
fn test_attestation_without_server_identity() {
    let out = AttestationOutput {
        server_identity: None,
        transcript: Some(b"{}".to_vec()),
    };
    assert_eq!(
        check_attestation_output(&out).unwrap_err(),
        VerifyError::NoServerIdentity
    );
}

#[test]
fn test_attestation_from_wrong_server() {
    let out = AttestationOutput {
        server_identity: Some("api.example.com".to_string()),
        transcript: Some(b"{}".to_vec()),
    };
    assert_eq!(
        check_attestation_output(&out).unwrap_err(),
        VerifyError::ServerIdentityMismatch
    );
}

#[test]
fn test_attestation_without_transcript() {
    let out = AttestationOutput {
        server_identity: Some("api.x.com".to_string()),
        transcript: None,
    };
    assert_eq!(
        check_attestation_output(&out).unwrap_err(),
        VerifyError::NoTranscript
    );
}

#[test]
fn test_profile_proof_extracts_handle() {
    let out = AttestationOutput {
        server_identity: Some("api.twitter.com".to_string()),
        transcript: Some(b"{\"screen_name\":\"avnerLukk\",\"id\":\"1\"}".to_vec()),
    };
    let result = verify_profile_proof(&out).unwrap();
    assert_eq!(result.twitter_handle.as_deref(), Some("avnerLukk"));
    assert_eq!(result.tweet_id, None);
    assert_eq!(result.like_verified, None);
}

#[test]
fn test_profile_proof_without_handle() {
    let out = AttestationOutput {
        server_identity: Some("api.x.com".to_string()),
        transcript: Some(b"{\"id\":\"1\"}".to_vec()),
    };
    assert_eq!(
        verify_profile_proof(&out).unwrap_err(),
        VerifyError::HandleNotFound
    );
}

#[test]
fn test_twitter_proof_returns_handle() {
    let out = AttestationOutput {
        server_identity: Some("x.com".to_string()),
        transcript: Some(b"{\"screen_name\":\"test_user\"}".to_vec()),
    };
    assert_eq!(verify_twitter_proof(&out).unwrap(), "test_user");
}

#[test]
fn test_authorship_transcript_full() {
    let data = "{\"id_str\":\"123\",\"full_text\":\"hi there\",\"user\":{\"screen_name\":\"bob\"}}";
    let result = verify_authorship_transcript(data).unwrap();
    assert_eq!(result.tweet_id.as_deref(), Some("123"));
    assert_eq!(result.author_screen_name.as_deref(), Some("bob"));
    assert_eq!(result.tweet_text.as_deref(), Some("hi there"));
}

#[test]
fn test_authorship_rest_id_and_text_fallbacks() {
    let data = "{\"rest_id\":\"77\",\"text\":\"plain\",\"user\":{\"screen_name\":\"bob\"}}";
    let result = verify_authorship_transcript(data).unwrap();
    assert_eq!(result.tweet_id.as_deref(), Some("77"));
    assert_eq!(result.tweet_text.as_deref(), Some("plain"));
}

#[test]
fn test_authorship_text_is_optional() {
    let data = "{\"id_str\":\"5\",\"user\":{\"screen_name\":\"bob\"}}";
    let result = verify_authorship_transcript(data).unwrap();
    assert_eq!(result.tweet_text, None);
}

#[test]
fn test_authorship_author_falls_back_to_handle_scan() {
    // the nested scan truncates at the first closing brace and misses the
    // author, and the bare handle scan then finds it
    let data = "{\"user\":{\"meta\":{\"x\":\"1\"},\"screen_name\":\"bob\"},\"id_str\":\"9\"}";
    let result = verify_authorship_transcript(data).unwrap();
    assert_eq!(result.author_screen_name.as_deref(), Some("bob"));
}

#[test]
fn test_authorship_without_id() {
    let data = "{\"user\":{\"screen_name\":\"bob\"}}";
    assert_eq!(
        verify_authorship_transcript(data).unwrap_err(),
        VerifyError::TweetIdNotFound
    );
}

#[test]
fn test_authorship_without_author() {
    let data = "{\"id_str\":\"5\"}";
    assert_eq!(
        verify_authorship_transcript(data).unwrap_err(),
        VerifyError::AuthorNotFound
    );
}

#[test]
fn test_engagement_like_only() {
    let data = "{\"rest_id\":\"42\",\"favorited\":true,\"retweeted\":false}";
    let result = verify_engagement_transcript(data).unwrap();
    assert_eq!(result.tweet_id.as_deref(), Some("42"));
    assert_eq!(result.like_verified, Some(true));
    assert_eq!(result.retweet_verified, Some(false));
}

#[test]
fn test_engagement_spaced_flags() {
    let data = "{\"rest_id\": \"42\", \"favorited\": true, \"retweeted\": true}";
    let result = verify_engagement_transcript(data).unwrap();
    assert_eq!(result.like_verified, Some(true));
    assert_eq!(result.retweet_verified, Some(true));
}

#[test]
fn test_engagement_none_detected() {
    let data = "{\"rest_id\":\"42\",\"favorited\":false,\"retweeted\":false}";
    assert_eq!(
        verify_engagement_transcript(data).unwrap_err(),
        VerifyError::NoEngagementDetected
    );
}

#[test]
fn test_engagement_without_id() {
    let data = "{\"favorited\":true}";
    assert_eq!(
        verify_engagement_transcript(data).unwrap_err(),
        VerifyError::TweetIdNotFound
    );
}

#[test]
fn test_parse_claim_type() {
    assert_eq!(parse_claim_type(None).unwrap(), ClaimType::Profile);
    assert_eq!(parse_claim_type(Some("profile")).unwrap(), ClaimType::Profile);
    assert_eq!(
        parse_claim_type(Some("authorship")).unwrap(),
        ClaimType::Authorship
    );
    assert_eq!(
        parse_claim_type(Some("engagement")).unwrap(),
        ClaimType::Engagement
    );
    assert_eq!(
        parse_claim_type(Some("ownership")).unwrap_err(),
        VerifyError::UnknownClaimType
    );
}

#[test]
fn test_verify_same_output_twice_same_result() {
    let make = || AttestationOutput {
        server_identity: Some("api.x.com".to_string()),
        transcript: Some(b"{\"rest_id\":\"42\",\"favorited\":true}".to_vec()),
    };
    let first = verify_claim(ClaimType::Engagement, &make(), None);
    let second = verify_claim(ClaimType::Engagement, &make(), None);
    assert_eq!(first, second);
    let out = make();
    let third = verify_claim(ClaimType::Engagement, &out, None);
    let fourth = verify_claim(ClaimType::Engagement, &out, None);
    assert_eq!(third, fourth);
}

#[test]
fn test_assemble_response_success() {
    let result = VerificationResult {
        twitter_handle: Some("avnerLukk".to_string()),
        tweet_id: None,
        author_screen_name: None,
        tweet_text: None,
        like_verified: None,
        retweet_verified: None,
    };
    let response = assemble_response(Ok(result));
    assert!(response.valid);
    assert_eq!(response.twitter_handle.as_deref(), Some("avnerLukk"));
    assert_eq!(response.error, None);
}

#[test]
fn test_assemble_response_failure() {
    let response = assemble_response(Err(VerifyError::NoEngagementDetected));
    assert!(!response.valid);
    assert_eq!(response.twitter_handle, None);
    assert_eq!(response.tweet_id, None);
    assert!(response.error.unwrap().contains("No engagement"));
    let crypto = assemble_response(Err(VerifyError::DeserializationFailed));
    assert!(crypto.error.unwrap().contains("deserialize"));
    let failed = assemble_response(Err(VerifyError::AttestationFailed));
    assert!(failed.error.unwrap().contains("verification failed"));
}

#[test]
fn test_default_result_is_empty() {
    let result = VerificationResult::default();
    assert_eq!(result.twitter_handle, None);
    assert_eq!(result.tweet_id, None);
    assert_eq!(result.author_screen_name, None);
    assert_eq!(result.tweet_text, None);
    assert_eq!(result.like_verified, None);
    assert_eq!(result.retweet_verified, None);
}
