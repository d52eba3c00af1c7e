use vstd::prelude::*;

use crate::attestation::{
    check_attestation_output, spec_attestation_outcome, spec_utf8_lossy, utf8_lossy,
    AttestationOutput, AttestationOutputView,
};
use crate::errors::VerifyError;
use crate::extract::{
    extract_json_field, extract_nested_field, extract_twitter_handle, spec_field_value,
    spec_handle_value, spec_nested_field_value,
};
use crate::scan::{contains_str, spec_contains, str_eq};

verus! {

/// The closed set of claim types a request may ask to verify.
#[derive(Clone, Copy, Debug, PartialEq, Eq, Structural)]
pub enum ClaimType {
    /// The caller controls the account whose handle the transcript reveals.
    Profile,
    /// The caller authored the tweet the transcript reveals.
    Authorship,
    /// The caller liked or retweeted the tweet the transcript reveals.
    Engagement,
}

/// Verification result for all claim types; only the fields relevant to the
/// claim type that succeeded are populated.
#[derive(Debug, PartialEq, Eq)]
pub struct VerificationResult {
    pub twitter_handle: Option<String>,
    pub tweet_id: Option<String>,
    pub author_screen_name: Option<String>,
    pub tweet_text: Option<String>,
    pub like_verified: Option<bool>,
    pub retweet_verified: Option<bool>,
}

/// The mathematical content of a verification result.
pub struct VerificationResultView {
    pub twitter_handle: Option<Seq<char>>,
    pub tweet_id: Option<Seq<char>>,
    pub author_screen_name: Option<Seq<char>>,
    pub tweet_text: Option<Seq<char>>,
    pub like_verified: Option<bool>,
    pub retweet_verified: Option<bool>,
}

impl View for VerificationResult {
    type V = VerificationResultView;

    open spec fn view(&self) -> VerificationResultView {
        VerificationResultView {
            twitter_handle: self.twitter_handle.deep_view(),
            tweet_id: self.tweet_id.deep_view(),
            author_screen_name: self.author_screen_name.deep_view(),
            tweet_text: self.tweet_text.deep_view(),
            like_verified: self.like_verified,
            retweet_verified: self.retweet_verified,
        }
    }
}

/// The result with every field absent.
pub open spec fn spec_empty_result() -> VerificationResultView {
    VerificationResultView {
        twitter_handle: None,
        tweet_id: None,
        author_screen_name: None,
        tweet_text: None,
        like_verified: None,
        retweet_verified: None,
    }
}

impl Default for VerificationResult {
    /// The result with every field absent.
    fn default() -> (r: Self)
        ensures
            r@ == spec_empty_result(),
    {
        VerificationResult {
            twitter_handle: None,
            tweet_id: None,
            author_screen_name: None,
            tweet_text: None,
            like_verified: None,
            retweet_verified: None,
        }
    }
}

/// Caller-supplied expected values. They are accepted with the request but
/// not cross-checked against extracted values in the current scope.
pub struct ExpectedData {
    pub tweet_url: Option<String>,
    pub expected_author: Option<String>,
}

/// The claim type a request names: an absent name means a profile claim; an
/// unrecognized name is refused.
pub open spec fn spec_claim_type_of(quest_type: Option<Seq<char>>) -> Result<
    ClaimType,
    VerifyError,
> {
    match quest_type {
        None => Ok(ClaimType::Profile),
        Some(q) => if q == "profile"@ {
            Ok(ClaimType::Profile)
        } else if q == "authorship"@ {
            Ok(ClaimType::Authorship)
        } else if q == "engagement"@ {
            Ok(ClaimType::Engagement)
        } else {
            Err(VerifyError::UnknownClaimType)
        },
    }
}

/// Resolves the requested claim type once at request entry.
pub fn parse_claim_type(quest_type: Option<&str>) -> (r: Result<ClaimType, VerifyError>)
    ensures
        r == spec_claim_type_of(quest_type.deep_view()),
{
    match quest_type {
        None => Ok(ClaimType::Profile),
        Some(q) => {
            if str_eq(q, "profile") {
                Ok(ClaimType::Profile)
            } else if str_eq(q, "authorship") {
                Ok(ClaimType::Authorship)
            } else if str_eq(q, "engagement") {
                Ok(ClaimType::Engagement)
            } else {
                Err(VerifyError::UnknownClaimType)
            }
        },
    }
}

/// The profile claim outcome over a revealed transcript: a well-formed
/// handle must be extractable.
pub open spec fn spec_profile_outcome(t: Seq<char>) -> Result<
    VerificationResultView,
    VerifyError,
> {
    match spec_handle_value(t) {
        Some(h) => Ok(
            VerificationResultView {
                twitter_handle: Some(h),
                tweet_id: None,
                author_screen_name: None,
                tweet_text: None,
                like_verified: None,
                retweet_verified: None,
            },
        ),
        None => Err(VerifyError::HandleNotFound),
    }
}

/// The authorship claim outcome over a revealed transcript: the tweet id is
/// `id_str` else `rest_id`; the author is `user.screen_name` else the bare
/// handle scan; the text is `full_text` else `text`, and optional.
pub open spec fn spec_authorship_outcome(t: Seq<char>) -> Result<
    VerificationResultView,
    VerifyError,
> {
    let id = match spec_field_value(t, "id_str"@) {
        Some(v) => Some(v),
        None => spec_field_value(t, "rest_id"@),
    };
    match id {
        None => Err(VerifyError::TweetIdNotFound),
        Some(id) => {
            let author = match spec_nested_field_value(t, "user"@, "screen_name"@) {
                Some(a) => Some(a),
                None => spec_handle_value(t),
            };
            match author {
                None => Err(VerifyError::AuthorNotFound),
                Some(a) => {
                    let text = match spec_field_value(t, "full_text"@) {
                        Some(x) => Some(x),
                        None => spec_field_value(t, "text"@),
                    };
                    Ok(
                        VerificationResultView {
                            twitter_handle: None,
                            tweet_id: Some(id),
                            author_screen_name: Some(a),
                            tweet_text: text,
                            like_verified: None,
                            retweet_verified: None,
                        },
                    )
                },
            }
        },
    }
}

/// A true favorited flag anywhere in the transcript, in either spacing.
pub open spec fn spec_like_detected(t: Seq<char>) -> bool {
    spec_contains(t, "\"favorited\":true"@) || spec_contains(t, "\"favorited\": true"@)
}

/// A true retweeted flag anywhere in the transcript, in either spacing.
pub open spec fn spec_retweet_detected(t: Seq<char>) -> bool {
    spec_contains(t, "\"retweeted\":true"@) || spec_contains(t, "\"retweeted\": true"@)
}

/// The engagement claim outcome over a revealed transcript: the tweet id is
/// `rest_id` else `id_str`; the like and retweet flags are independent
/// whole-transcript scans, and at least one must be set.
pub open spec fn spec_engagement_outcome(t: Seq<char>) -> Result<
    VerificationResultView,
    VerifyError,
> {
    let id = match spec_field_value(t, "rest_id"@) {
        Some(v) => Some(v),
        None => spec_field_value(t, "id_str"@),
    };
    match id {
        None => Err(VerifyError::TweetIdNotFound),
        Some(id) => {
            let like = spec_like_detected(t);
            let retweet = spec_retweet_detected(t);
            if !like && !retweet {
                Err(VerifyError::NoEngagementDetected)
            } else {
                Ok(
                    VerificationResultView {
                        twitter_handle: None,
                        tweet_id: Some(id),
                        author_screen_name: None,
                        tweet_text: None,
                        like_verified: Some(like),
                        retweet_verified: Some(retweet),
                    },
                )
            }
        },
    }
}

/// Verifies the profile claim over a revealed transcript.
pub fn verify_profile_transcript(recv: &str) -> (r: Result<VerificationResult, VerifyError>)
    ensures
        match r {
            Ok(v) => spec_profile_outcome(recv@) == Ok::<VerificationResultView, VerifyError>(v@),
            Err(e) => spec_profile_outcome(recv@) == Err::<VerificationResultView, VerifyError>(
                e,
            ),
        },
{
    match extract_twitter_handle(recv) {
        Ok(h) => Ok(
            VerificationResult {
                twitter_handle: Some(h),
                tweet_id: None,
                author_screen_name: None,
                tweet_text: None,
                like_verified: None,
                retweet_verified: None,
            },
        ),
        Err(e) => Err(e),
    }
}

/// Verifies the authorship claim over a revealed transcript.
pub fn verify_authorship_transcript(recv: &str) -> (r: Result<VerificationResult, VerifyError>)
    ensures
        match r {
            Ok(v) => spec_authorship_outcome(recv@) == Ok::<VerificationResultView, VerifyError>(
                v@,
            ),
            Err(e) => spec_authorship_outcome(recv@) == Err::<
                VerificationResultView,
                VerifyError,
            >(e),
        },
{
    let tweet_id = match extract_json_field(recv, "id_str") {
        Ok(v) => v,
        Err(_) => match extract_json_field(recv, "rest_id") {
            Ok(v) => v,
            Err(_) => {
                return Err(VerifyError::TweetIdNotFound);
            },
        },
    };
    let author = match extract_nested_field(recv, "user", "screen_name") {
        Ok(a) => a,
        Err(_) => match extract_twitter_handle(recv) {
            Ok(a) => a,
            Err(_) => {
                return Err(VerifyError::AuthorNotFound);
            },
        },
    };
    let tweet_text = match extract_json_field(recv, "full_text") {
        Ok(x) => Some(x),
        Err(_) => match extract_json_field(recv, "text") {
            Ok(x) => Some(x),
            Err(_) => None,
        },
    };
    Ok(
        VerificationResult {
            twitter_handle: None,
            tweet_id: Some(tweet_id),
            author_screen_name: Some(author),
            tweet_text,
            like_verified: None,
            retweet_verified: None,
        },
    )
}

/// Verifies the engagement claim over a revealed transcript.
pub fn verify_engagement_transcript(recv: &str) -> (r: Result<VerificationResult, VerifyError>)
    ensures
        match r {
            Ok(v) => spec_engagement_outcome(recv@) == Ok::<VerificationResultView, VerifyError>(
                v@,
            ),
            Err(e) => spec_engagement_outcome(recv@) == Err::<
                VerificationResultView,
                VerifyError,
            >(e),
        },
{
    let tweet_id = match extract_json_field(recv, "rest_id") {
        Ok(v) => v,
        Err(_) => match extract_json_field(recv, "id_str") {
            Ok(v) => v,
            Err(_) => {
                return Err(VerifyError::TweetIdNotFound);
            },
        },
    };
    let like_verified = contains_str(recv, "\"favorited\":true") || contains_str(
        recv,
        "\"favorited\": true",
    );
    let retweet_verified = contains_str(recv, "\"retweeted\":true") || contains_str(
        recv,
        "\"retweeted\": true",
    );
    if !like_verified && !retweet_verified {
        return Err(VerifyError::NoEngagementDetected);
    }
    Ok(
        VerificationResult {
            twitter_handle: None,
            tweet_id: Some(tweet_id),
            author_screen_name: None,
            tweet_text: None,
            like_verified: Some(like_verified),
            retweet_verified: Some(retweet_verified),
        },
    )
}

/// The full claim outcome over an attestation output: the identity and
/// transcript checks first, then the claim decision over the decoded
/// transcript characters.
pub open spec fn spec_claim_outcome(claim: ClaimType, out: AttestationOutputView) -> Result<
    VerificationResultView,
    VerifyError,
> {
    match spec_attestation_outcome(out) {
        Err(e) => Err(e),
        Ok(p) => {
            let t = spec_utf8_lossy(p.1);
            match claim {
                ClaimType::Profile => spec_profile_outcome(t),
                ClaimType::Authorship => spec_authorship_outcome(t),
                ClaimType::Engagement => spec_engagement_outcome(t),
            }
        },
    }
}

/// Verifies a profile claim against an attestation output.
pub fn verify_profile_proof(out: &AttestationOutput) -> (r: Result<
    VerificationResult,
    VerifyError,
>)
    ensures
        match r {
            Ok(v) => spec_claim_outcome(ClaimType::Profile, out@) == Ok::<
                VerificationResultView,
                VerifyError,
            >(v@),
            Err(e) => spec_claim_outcome(ClaimType::Profile, out@) == Err::<
                VerificationResultView,
                VerifyError,
            >(e),
        },
{
    let bytes = match check_attestation_output(out) {
        Ok(p) => p.1,
        Err(e) => {
            return Err(e);
        },
    };
    let recv = utf8_lossy(bytes);
    verify_profile_transcript(recv.as_str())
}

/// Verifies an authorship claim against an attestation output.
pub fn verify_authorship_proof(out: &AttestationOutput, _expected: Option<&ExpectedData>) -> (r:
    Result<VerificationResult, VerifyError>)
    ensures
        match r {
            Ok(v) => spec_claim_outcome(ClaimType::Authorship, out@) == Ok::<
                VerificationResultView,
                VerifyError,
            >(v@),
            Err(e) => spec_claim_outcome(ClaimType::Authorship, out@) == Err::<
                VerificationResultView,
                VerifyError,
            >(e),
        },
{
    let bytes = match check_attestation_output(out) {
        Ok(p) => p.1,
        Err(e) => {
            return Err(e);
        },
    };
    let recv = utf8_lossy(bytes);
    verify_authorship_transcript(recv.as_str())
}

/// Verifies an engagement claim against an attestation output.
pub fn verify_engagement_proof(out: &AttestationOutput, _expected: Option<&ExpectedData>) -> (r:
    Result<VerificationResult, VerifyError>)
    ensures
        match r {
            Ok(v) => spec_claim_outcome(ClaimType::Engagement, out@) == Ok::<
                VerificationResultView,
                VerifyError,
            >(v@),
            Err(e) => spec_claim_outcome(ClaimType::Engagement, out@) == Err::<
                VerificationResultView,
                VerifyError,
            >(e),
        },
{
    let bytes = match check_attestation_output(out) {
        Ok(p) => p.1,
        Err(e) => {
            return Err(e);
        },
    };
    let recv = utf8_lossy(bytes);
    verify_engagement_transcript(recv.as_str())
}

/// Verifies a profile claim and hands back the handle alone.
pub fn verify_twitter_proof(out: &AttestationOutput) -> (r: Result<String, VerifyError>)
    ensures
        match r {
            Ok(h) => spec_claim_outcome(ClaimType::Profile, out@) matches Ok(v)
                && v.twitter_handle == Some(h@),
            Err(e) => spec_claim_outcome(ClaimType::Profile, out@) == Err::<
                VerificationResultView,
                VerifyError,
            >(e),
        },
{
    match verify_profile_proof(out) {
        Ok(v) => match v.twitter_handle {
            Some(h) => Ok(h),
            None => Err(VerifyError::HandleNotFound),
        },
        Err(e) => Err(e),
    }
}

/// Verifies the requested claim type against an attestation output.
pub fn verify_claim(
    claim: ClaimType,
    out: &AttestationOutput,
    expected: Option<&ExpectedData>,
) -> (r: Result<VerificationResult, VerifyError>)
    ensures
        match r {
            Ok(v) => spec_claim_outcome(claim, out@) == Ok::<
                VerificationResultView,
                VerifyError,
            >(v@),
            Err(e) => spec_claim_outcome(claim, out@) == Err::<
                VerificationResultView,
                VerifyError,
            >(e),
        },
{
    match claim {
        ClaimType::Profile => verify_profile_proof(out),
        ClaimType::Authorship => verify_authorship_proof(out, expected),
        ClaimType::Engagement => verify_engagement_proof(out, expected),
    }
}

/// A transcript that contains a true favorited flag and no true retweeted
/// flag, and from which a tweet id is extractable, verifies the like and not
/// the retweet.
pub proof fn lemma_engagement_like_only(t: Seq<char>)
    requires
        spec_like_detected(t),
        !spec_retweet_detected(t),
        spec_field_value(t, "rest_id"@) is Some || spec_field_value(t, "id_str"@) is Some,
    ensures
        spec_engagement_outcome(t) matches Ok(v) && v.like_verified == Some(true)
            && v.retweet_verified == Some(false),
{
}

/// A transcript with neither engagement flag set, whatever tweet id it
/// carries, never verifies an engagement claim; when a tweet id is
/// extractable the failure is the missing engagement itself.
pub proof fn lemma_engagement_none_detected(t: Seq<char>)
    requires
        !spec_like_detected(t),
        !spec_retweet_detected(t),
    ensures
        spec_engagement_outcome(t) is Err,
        spec_field_value(t, "rest_id"@) is Some || spec_field_value(t, "id_str"@) is Some
            ==> spec_engagement_outcome(t) == Err::<VerificationResultView, VerifyError>(
            VerifyError::NoEngagementDetected,
        ),
{
}

/// Verifying the same attestation output twice for the same claim yields the
/// same result: the outcome is a function of the claim and the output alone,
/// so no hidden state can change the answer between two calls.
pub proof fn lemma_claim_outcome_deterministic(
    claim: ClaimType,
    out: AttestationOutputView,
    r1: Result<VerificationResultView, VerifyError>,
    r2: Result<VerificationResultView, VerifyError>,
)
    requires
        r1 == spec_claim_outcome(claim, out),
        r2 == spec_claim_outcome(claim, out),
    ensures
        r1 == r2,
{
}

} // verus!
