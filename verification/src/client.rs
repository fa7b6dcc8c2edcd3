//! The decisions of the request layer: how a caller's wishes become a
//! post-creation request. The HTTP loop around these lives outside this
//! crate and only performs what is decided here.

use vstd::prelude::*;

use crate::api;
use crate::json::{DecodeError, EncodeError};
use crate::npf::ContentBlock;

verus! {

/// The state a new post is created in. Queueing for a specific time is
/// its own case here, carrying the publish instant already rendered; the
/// wire knows only a queue state plus a separate `publish_on` field.
#[derive(Debug, PartialEq, Eq)]
pub enum CreatePostState {
    Published,
    Queue,
    Schedule { publish_on: String },
    Draft,
    Private,
    Unapproved,
}

/// Splits the caller's creation state into the two wire fields: the state
/// name, and the publish instant that only a scheduled post carries.
pub fn split_initial_state(s: Option<CreatePostState>) -> (r: (
    Option<api::CreatePostState>,
    Option<String>,
))
    ensures
        match s {
            None => r.0 is None && r.1 is None,
            Some(CreatePostState::Published) => r.0 == Some(api::CreatePostState::Published)
                && r.1 is None,
            Some(CreatePostState::Queue) => r.0 == Some(api::CreatePostState::Queue) && r.1
                is None,
            Some(CreatePostState::Schedule { publish_on }) => r.0 == Some(
                api::CreatePostState::Queue,
            ) && (r.1 matches Some(p) && p@ == publish_on@),
            Some(CreatePostState::Draft) => r.0 == Some(api::CreatePostState::Draft) && r.1
                is None,
            Some(CreatePostState::Private) => r.0 == Some(api::CreatePostState::Private) && r.1
                is None,
            Some(CreatePostState::Unapproved) => r.0 == Some(api::CreatePostState::Unapproved)
                && r.1 is None,
        },
{
    match s {
        None => (None, None),
        Some(CreatePostState::Published) => (Some(api::CreatePostState::Published), None),
        Some(CreatePostState::Queue) => (Some(api::CreatePostState::Queue), None),
        Some(CreatePostState::Schedule { publish_on }) => (
            Some(api::CreatePostState::Queue),
            Some(publish_on),
        ),
        Some(CreatePostState::Draft) => (Some(api::CreatePostState::Draft), None),
        Some(CreatePostState::Private) => (Some(api::CreatePostState::Private), None),
        Some(CreatePostState::Unapproved) => (Some(api::CreatePostState::Unapproved), None),
    }
}

/// Assembles the post-creation request the builder sends: the content, the
/// split state, and the optional tag list and source attribution; every
/// field the builder does not expose stays absent.
pub fn build_create_post_request(
    content: Vec<ContentBlock>,
    tags: Option<String>,
    initial_state: Option<CreatePostState>,
    source_url: Option<String>,
) -> (r: api::CreatePostRequest)
    ensures
        r.content == content,
        ({
            let split = match initial_state {
                None => (None::<api::CreatePostState>, None::<Seq<char>>),
                Some(CreatePostState::Published) => (Some(api::CreatePostState::Published), None),
                Some(CreatePostState::Queue) => (Some(api::CreatePostState::Queue), None),
                Some(CreatePostState::Schedule { publish_on }) => (
                    Some(api::CreatePostState::Queue),
                    Some(publish_on@),
                ),
                Some(CreatePostState::Draft) => (Some(api::CreatePostState::Draft), None),
                Some(CreatePostState::Private) => (Some(api::CreatePostState::Private), None),
                Some(CreatePostState::Unapproved) => (
                    Some(api::CreatePostState::Unapproved),
                    None,
                ),
            };
            r.state == split.0 && r.publish_on.deep_view() == split.1
        }),
        r.tags == tags,
        r.source_url == source_url,
        r.date is None,
        r.send_to_twitter is None,
        r.is_private is None,
        r.slug is None,
        r.interactability_reblog is None,
{
    let (state, publish_on) = split_initial_state(initial_state);
    api::CreatePostRequest {
        content,
        state,
        publish_on,
        date: None,
        tags,
        source_url,
        send_to_twitter: None,
        is_private: None,
        slug: None,
        interactability_reblog: None,
    }
}

/// Why a request failed: the request itself could not be encoded,
/// acquiring the token failed, the transport failed, the body could not
/// be read, or the service refused the request.
#[derive(Debug, PartialEq, Eq)]
pub enum RequestError {
    Encode(EncodeError),
    Auth(crate::auth::Error),
    Network(String),
    Deserializing(DecodeError),
    Api(api::ResponseError),
}

} // verus!
