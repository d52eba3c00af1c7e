use vstd::prelude::*;

use crate::claims::{VerificationResult, VerificationResultView};
use crate::errors::{spec_message, VerifyError};

verus! {

/// The uniform outward result record: either the relevant success fields
/// with no error, or no fields and an error message.
#[derive(Debug, PartialEq, Eq)]
pub struct VerifyResponse {
    pub valid: bool,
    pub twitter_handle: Option<String>,
    pub tweet_id: Option<String>,
    pub author_screen_name: Option<String>,
    pub tweet_text: Option<String>,
    pub like_verified: Option<bool>,
    pub retweet_verified: Option<bool>,
    pub error: Option<String>,
}

/// The mathematical content of an outward result record.
pub struct VerifyResponseView {
    pub valid: bool,
    pub twitter_handle: Option<Seq<char>>,
    pub tweet_id: Option<Seq<char>>,
    pub author_screen_name: Option<Seq<char>>,
    pub tweet_text: Option<Seq<char>>,
    pub like_verified: Option<bool>,
    pub retweet_verified: Option<bool>,
    pub error: Option<Seq<char>>,
}

impl View for VerifyResponse {
    type V = VerifyResponseView;

    open spec fn view(&self) -> VerifyResponseView {
        VerifyResponseView {
            valid: self.valid,
            twitter_handle: self.twitter_handle.deep_view(),
            tweet_id: self.tweet_id.deep_view(),
            author_screen_name: self.author_screen_name.deep_view(),
            tweet_text: self.tweet_text.deep_view(),
            like_verified: self.like_verified,
            retweet_verified: self.retweet_verified,
            error: self.error.deep_view(),
        }
    }
}

/// The outward record for a successful claim: its fields, no error.
pub open spec fn spec_success_response(v: VerificationResultView) -> VerifyResponseView {
    VerifyResponseView {
        valid: true,
        twitter_handle: v.twitter_handle,
        tweet_id: v.tweet_id,
        author_screen_name: v.author_screen_name,
        tweet_text: v.tweet_text,
        like_verified: v.like_verified,
        retweet_verified: v.retweet_verified,
        error: None,
    }
}

/// The outward record for a failed claim: no fields, only the message.
pub open spec fn spec_failure_response(e: VerifyError) -> VerifyResponseView {
    VerifyResponseView {
        valid: false,
        twitter_handle: None,
        tweet_id: None,
        author_screen_name: None,
        tweet_text: None,
        like_verified: None,
        retweet_verified: None,
        error: Some(spec_message(e)),
    }
}

/// Maps a claim verification outcome to the uniform outward record. Exactly
/// one of the two shapes is ever produced: all relevant success fields with
/// no error, or no fields with the failure's message.
pub fn assemble_response(outcome: Result<VerificationResult, VerifyError>) -> (r: VerifyResponse)
    ensures
        match outcome {
            Ok(v) => r@ == spec_success_response(v@),
            Err(e) => r@ == spec_failure_response(e),
        },
{
    match outcome {
        Ok(v) => VerifyResponse {
            valid: true,
            twitter_handle: v.twitter_handle,
            tweet_id: v.tweet_id,
            author_screen_name: v.author_screen_name,
            tweet_text: v.tweet_text,
            like_verified: v.like_verified,
            retweet_verified: v.retweet_verified,
            error: None,
        },
        Err(e) => VerifyResponse {
            valid: false,
            twitter_handle: None,
            tweet_id: None,
            author_screen_name: None,
            tweet_text: None,
            like_verified: None,
            retweet_verified: None,
            error: Some(e.message()),
        },
    }
}

} // verus!
