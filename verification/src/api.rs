//! The flat post envelope's field clusters and the API response envelope.
//!
//! A post record is one flat JSON object into which several logically
//! separate clusters are flattened: the dual-representation post id, the
//! content source, promotion ("blaze") flags, interactability flags, ask
//! and submission info. Each cluster decides its own presence: the source
//! by both of its keys being there, the ask info by all of its keys, the
//! submission info by a boolean sentinel. Every key no cluster recognizes
//! is preserved in an overflow bag rather than dropped.

use vstd::prelude::*;

use crate::json::{
    dec_int, dres, elems_view, entries_view, f_bool, f_bool_opt, f_i32, f_i64, f_str, f_str_opt,
    get_bool, get_bool_opt, get_i32, get_i64, get_str, get_str_opt, i64_to_dec, key_in,
    keys_subset, keys_subset_v, lemma_arr_view, lemma_elems_deep, lemma_entries_deep,
    lemma_list_dec_err, lemma_obj_view, list_dec, list_enc, obj_get, obj_get_v, obj_has, obool,
    opt_entry, ostr, str_eq_str, DecodeError, EncodeError, Json, JsonV, ObjBuilder,
};
use crate::npf::{
    content_block_dec, content_block_enc, content_block_enc_ok, media_seq_deep, ContentBlock,
    ContentBlockV, MediaObject, MediaObjectV,
};
use vstd::string::StringExecFns;

verus! {

broadcast use vstd::string::group_string_axioms;

// ---------------------------------------------------------------------------
// Small wire enumerations.
// ---------------------------------------------------------------------------
#[derive(Debug, Clone, Copy, PartialEq, Eq, Structural)]
pub enum PostFormat {
    HTML,
    Markdown,
}

impl PostFormat {
    pub fn wire_name(&self) -> (r: &'static str)
        ensures
            (*self is HTML ==> r@ == "html"@) && (*self is Markdown ==> r@ == "markdown"@),
    {
        match self {
            PostFormat::HTML => "html",
            PostFormat::Markdown => "markdown",
        }
    }
}

#[derive(Debug, Clone, Copy, PartialEq, Eq, Structural)]
pub enum PostState {
    Published,
    Queued,
    Draft,
    Private,
}

pub open spec fn post_state_wire(v: PostState) -> Seq<char> {
    match v {
        PostState::Published => "published"@,
        PostState::Queued => "queued"@,
        PostState::Draft => "draft"@,
        PostState::Private => "private"@,
    }
}

pub open spec fn post_state_dec(s: Seq<char>) -> Option<PostState> {
    if s == "published"@ {
        Some(PostState::Published)
    } else if s == "queued"@ {
        Some(PostState::Queued)
    } else if s == "draft"@ {
        Some(PostState::Draft)
    } else if s == "private"@ {
        Some(PostState::Private)
    } else {
        None
    }
}

impl PostState {
    pub fn wire_name(&self) -> (r: &'static str)
        ensures
            r@ == post_state_wire(*self),
    {
        match self {
            PostState::Published => "published",
            PostState::Queued => "queued",
            PostState::Draft => "draft",
            PostState::Private => "private",
        }
    }

    pub fn from_wire(s: &str) -> (r: Option<PostState>)
        ensures
            r == post_state_dec(s@),
    {
        if str_eq_str(s, "published") {
            Some(PostState::Published)
        } else if str_eq_str(s, "queued") {
            Some(PostState::Queued)
        } else if str_eq_str(s, "draft") {
            Some(PostState::Draft)
        } else if str_eq_str(s, "private") {
            Some(PostState::Private)
        } else {
            None
        }
    }
}

#[derive(Debug, Clone, Copy, PartialEq, Eq, Structural)]
pub enum ReblogInteractability {
    Everyone,
    Noone,
}

pub open spec fn reblog_interactability_wire(v: ReblogInteractability) -> Seq<char> {
    match v {
        ReblogInteractability::Everyone => "everyone"@,
        ReblogInteractability::Noone => "noone"@,
    }
}

pub open spec fn reblog_interactability_dec(s: Seq<char>) -> Option<ReblogInteractability> {
    if s == "everyone"@ {
        Some(ReblogInteractability::Everyone)
    } else if s == "noone"@ {
        Some(ReblogInteractability::Noone)
    } else {
        None
    }
}

impl ReblogInteractability {
    pub fn wire_name(&self) -> (r: &'static str)
        ensures
            r@ == reblog_interactability_wire(*self),
    {
        match self {
            ReblogInteractability::Everyone => "everyone",
            ReblogInteractability::Noone => "noone",
        }
    }

    pub fn from_wire(s: &str) -> (r: Option<ReblogInteractability>)
        ensures
            r == reblog_interactability_dec(s@),
    {
        if str_eq_str(s, "everyone") {
            Some(ReblogInteractability::Everyone)
        } else if str_eq_str(s, "noone") {
            Some(ReblogInteractability::Noone)
        } else {
            None
        }
    }
}

#[derive(Debug, Clone, Copy, PartialEq, Eq, Structural)]
pub enum AvatarShape {
    Circle,
    Square,
}

impl AvatarShape {
    pub fn wire_name(&self) -> (r: &'static str)
        ensures
            (*self is Circle ==> r@ == "circle"@) && (*self is Square ==> r@ == "square"@),
    {
        match self {
            AvatarShape::Circle => "circle",
            AvatarShape::Square => "square",
        }
    }
}

// ---------------------------------------------------------------------------
// The dual-representation post id: on the wire a post id is carried both
// as a 64-bit integer and as its exact decimal string, for clients
// without 64-bit integers. The integer is authoritative on decode.
// ---------------------------------------------------------------------------
/// The two entries the dual id contributes to the envelope.
pub open spec fn post_id_entries(id: i64) -> Seq<(Seq<char>, JsonV)> {
    seq![("id"@, JsonV::I64(id)), ("id_string"@, JsonV::Str(dec_int(id as int)))]
}

/// Reads the dual id: the integer field decides; the string field must be
/// present but its content is not consulted.
pub open spec fn post_id_dec(es: Seq<(Seq<char>, JsonV)>) -> Result<i64, DecodeError> {
    match f_i64(es, "id"@) {
        Err(e) => Err(e),
        Ok(id) => match f_str(es, "id_string"@) {
            Err(e) => Err(e),
            Ok(_) => Ok(id),
        },
    }
}

/// Appends the dual id to an envelope under construction.
pub fn push_post_id(b: &mut ObjBuilder, id: i64)
    ensures
        final(b).entries_v() == old(b).entries_v() + post_id_entries(id),
{
    b.push("id", Json::I64(id));
    let s = i64_to_dec(id);
    b.push("id_string", Json::Str(s));
    proof {
        assert(b.entries_v() =~= old(b).entries_v() + post_id_entries(id));
    }
}

/// Reads the dual id out of an envelope.
pub fn get_post_id(entries: &Vec<(String, Json)>) -> (r: Result<i64, DecodeError>)
    ensures
        dres(r) == post_id_dec(crate::json::entries_view(entries@)),
{
    let id = match get_i64(entries, "id") {
        Err(e) => { return Err(e); },
        Ok(x) => x,
    };
    match get_str(entries, "id_string") {
        Err(e) => Err(e),
        Ok(_) => Ok(id),
    }
}

/// Law (dual-id agreement): the encoder always writes both fields, the
/// string being the exact decimal rendering of the integer; and a decoder
/// given any string beside the integer still answers with the integer, so
/// a mismatched pair is tolerated and the integer wins.
pub proof fn lemma_dual_id(id: i64, es: Seq<(Seq<char>, JsonV)>, s: Seq<char>)
    requires
        obj_get_v(es, "id"@) == Some(JsonV::I64(id)),
        obj_get_v(es, "id_string"@) == Some(JsonV::Str(s)),
    ensures
        post_id_entries(id)[0] == ("id"@, JsonV::I64(id)),
        post_id_entries(id)[1] == ("id_string"@, JsonV::Str(dec_int(id as int))),
        post_id_dec(es) == Ok::<i64, DecodeError>(id),
{
}

/// Law (dual-id round trip): the id always comes back from its own two
/// entries.
pub proof fn lemma_dual_id_round_trip(id: i64)
    ensures
        post_id_dec(post_id_entries(id)) == Ok::<i64, DecodeError>(id),
{
    reveal_strlit("id");
    reveal_strlit("id_string");
    assert("id"@.len() == 2);
    assert("id_string"@.len() == 9);
    let es = post_id_entries(id);
    assert(es.last() == ("id_string"@, JsonV::Str(dec_int(id as int))));
    assert(es.drop_last() =~= seq![("id"@, JsonV::I64(id))]);
    assert(es.drop_last().last() == ("id"@, JsonV::I64(id)));
    assert(es.drop_last().drop_last() =~= Seq::<(Seq<char>, JsonV)>::empty());
    assert(obj_get_v(es, "id_string"@) == Some(JsonV::Str(dec_int(id as int))));
    assert(obj_get_v(es.drop_last(), "id"@) == Some(JsonV::I64(id)));
    assert(obj_get_v(es, "id"@) == Some(JsonV::I64(id)));
}

// ---------------------------------------------------------------------------
// The flattened clusters of the post envelope.
// ---------------------------------------------------------------------------
#[derive(Debug, PartialEq, Eq)]
pub struct SourceInfo {
    pub source_url: String,
    pub source_title: String,
}

pub struct SourceInfoV {
    pub source_url: Seq<char>,
    pub source_title: Seq<char>,
}

impl DeepView for SourceInfo {
    type V = SourceInfoV;

    open spec fn deep_view(&self) -> SourceInfoV {
        SourceInfoV {
            source_url: self.source_url.deep_view(),
            source_title: self.source_title.deep_view(),
        }
    }
}

/// The source cluster is present exactly when both of its keys are.
pub open spec fn source_info_dec(es: Seq<(Seq<char>, JsonV)>) -> Result<
    Option<SourceInfoV>,
    DecodeError,
> {
    if obj_get_v(es, "source_url"@) is Some && obj_get_v(es, "source_title"@) is Some {
        match f_str(es, "source_url"@) {
            Err(e) => Err(e),
            Ok(source_url) => match f_str(es, "source_title"@) {
                Err(e) => Err(e),
                Ok(source_title) => Ok(Some(SourceInfoV { source_url, source_title })),
            },
        }
    } else {
        Ok(None)
    }
}

/// Reads the source cluster out of an envelope.
pub fn get_source_info(entries: &Vec<(String, Json)>) -> (r: Result<
    Option<SourceInfo>,
    DecodeError,
>)
    ensures
        dres(r) == source_info_dec(crate::json::entries_view(entries@)),
{
    if obj_has(entries, "source_url") && obj_has(entries, "source_title") {
        let source_url = match get_str(entries, "source_url") {
            Err(e) => { return Err(e); },
            Ok(s) => s,
        };
        let source_title = match get_str(entries, "source_title") {
            Err(e) => { return Err(e); },
            Ok(s) => s,
        };
        Ok(Some(SourceInfo { source_url, source_title }))
    } else {
        Ok(None)
    }
}

#[derive(Debug, PartialEq, Eq)]
pub struct BlazeInfo {
    pub is_blazed: bool,
    pub is_blaze_pending: bool,
    pub can_ignite: bool,
    pub can_blaze: bool,
}

pub struct BlazeInfoV {
    pub is_blazed: bool,
    pub is_blaze_pending: bool,
    pub can_ignite: bool,
    pub can_blaze: bool,
}

impl DeepView for BlazeInfo {
    type V = BlazeInfoV;

    open spec fn deep_view(&self) -> BlazeInfoV {
        BlazeInfoV {
            is_blazed: self.is_blazed,
            is_blaze_pending: self.is_blaze_pending,
            can_ignite: self.can_ignite,
            can_blaze: self.can_blaze,
        }
    }
}

/// The promotion cluster: four required flags.
pub open spec fn blaze_info_dec(es: Seq<(Seq<char>, JsonV)>) -> Result<BlazeInfoV, DecodeError> {
    match f_bool(es, "is_blazed"@) {
        Err(e) => Err(e),
        Ok(is_blazed) => match f_bool(es, "is_blaze_pending"@) {
            Err(e) => Err(e),
            Ok(is_blaze_pending) => match f_bool(es, "can_ignite"@) {
                Err(e) => Err(e),
                Ok(can_ignite) => match f_bool(es, "can_blaze"@) {
                    Err(e) => Err(e),
                    Ok(can_blaze) => Ok(
                        BlazeInfoV { is_blazed, is_blaze_pending, can_ignite, can_blaze },
                    ),
                },
            },
        },
    }
}

pub fn get_blaze_info(entries: &Vec<(String, Json)>) -> (r: Result<BlazeInfo, DecodeError>)
    ensures
        dres(r) == blaze_info_dec(crate::json::entries_view(entries@)),
{
    let is_blazed = match get_bool(entries, "is_blazed") {
        Err(e) => { return Err(e); },
        Ok(x) => x,
    };
    let is_blaze_pending = match get_bool(entries, "is_blaze_pending") {
        Err(e) => { return Err(e); },
        Ok(x) => x,
    };
    let can_ignite = match get_bool(entries, "can_ignite") {
        Err(e) => { return Err(e); },
        Ok(x) => x,
    };
    let can_blaze = match get_bool(entries, "can_blaze") {
        Err(e) => { return Err(e); },
        Ok(x) => x,
    };
    Ok(BlazeInfo { is_blazed, is_blaze_pending, can_ignite, can_blaze })
}

#[derive(Debug, PartialEq, Eq)]
pub struct InteractabilityInfo {
    pub can_like: bool,
    pub interactability_reblog: ReblogInteractability,
    pub can_reblog: bool,
    pub can_send_in_message: bool,
    pub can_reply: bool,
}

pub struct InteractabilityInfoV {
    pub can_like: bool,
    pub interactability_reblog: ReblogInteractability,
    pub can_reblog: bool,
    pub can_send_in_message: bool,
    pub can_reply: bool,
}

impl DeepView for InteractabilityInfo {
    type V = InteractabilityInfoV;

    open spec fn deep_view(&self) -> InteractabilityInfoV {
        InteractabilityInfoV {
            can_like: self.can_like,
            interactability_reblog: self.interactability_reblog,
            can_reblog: self.can_reblog,
            can_send_in_message: self.can_send_in_message,
            can_reply: self.can_reply,
        }
    }
}

/// The interactability cluster: four required flags and one enumerated
/// field.
pub open spec fn interactability_info_dec(es: Seq<(Seq<char>, JsonV)>) -> Result<
    InteractabilityInfoV,
    DecodeError,
> {
    match f_bool(es, "can_like"@) {
        Err(e) => Err(e),
        Ok(can_like) => match f_str(es, "interactability_reblog"@) {
            Err(e) => Err(e),
            Ok(s) => match reblog_interactability_dec(s) {
                None => Err(DecodeError::UnknownVariant),
                Some(interactability_reblog) => match f_bool(es, "can_reblog"@) {
                    Err(e) => Err(e),
                    Ok(can_reblog) => match f_bool(es, "can_send_in_message"@) {
                        Err(e) => Err(e),
                        Ok(can_send_in_message) => match f_bool(es, "can_reply"@) {
                            Err(e) => Err(e),
                            Ok(can_reply) => Ok(
                                InteractabilityInfoV {
                                    can_like,
                                    interactability_reblog,
                                    can_reblog,
                                    can_send_in_message,
                                    can_reply,
                                },
                            ),
                        },
                    },
                },
            },
        },
    }
}

pub fn get_interactability_info(entries: &Vec<(String, Json)>) -> (r: Result<
    InteractabilityInfo,
    DecodeError,
>)
    ensures
        dres(r) == interactability_info_dec(crate::json::entries_view(entries@)),
{
    let can_like = match get_bool(entries, "can_like") {
        Err(e) => { return Err(e); },
        Ok(x) => x,
    };
    let s = match get_str(entries, "interactability_reblog") {
        Err(e) => { return Err(e); },
        Ok(x) => x,
    };
    let interactability_reblog = match ReblogInteractability::from_wire(s.as_str()) {
        None => { return Err(DecodeError::UnknownVariant); },
        Some(x) => x,
    };
    let can_reblog = match get_bool(entries, "can_reblog") {
        Err(e) => { return Err(e); },
        Ok(x) => x,
    };
    let can_send_in_message = match get_bool(entries, "can_send_in_message") {
        Err(e) => { return Err(e); },
        Ok(x) => x,
    };
    let can_reply = match get_bool(entries, "can_reply") {
        Err(e) => { return Err(e); },
        Ok(x) => x,
    };
    Ok(
        InteractabilityInfo {
            can_like,
            interactability_reblog,
            can_reblog,
            can_send_in_message,
            can_reply,
        },
    )
}

#[derive(Debug, PartialEq, Eq)]
pub struct AskInfo {
    pub asking_name: String,
    pub asking_url: String,
    pub asking_avatar: Vec<MediaObject>,
}

pub struct AskInfoV {
    pub asking_name: Seq<char>,
    pub asking_url: Seq<char>,
    pub asking_avatar: Seq<MediaObjectV>,
}

impl DeepView for AskInfo {
    type V = AskInfoV;

    open spec fn deep_view(&self) -> AskInfoV {
        AskInfoV {
            asking_name: self.asking_name.deep_view(),
            asking_url: self.asking_url.deep_view(),
            asking_avatar: media_seq_deep(self.asking_avatar@),
        }
    }
}

/// The ask cluster is present exactly when all three of its keys are.
pub open spec fn ask_info_dec(es: Seq<(Seq<char>, JsonV)>) -> Result<
    Option<AskInfoV>,
    DecodeError,
> {
    if obj_get_v(es, "asking_name"@) is Some && obj_get_v(es, "asking_url"@) is Some
        && obj_get_v(es, "asking_avatar"@) is Some {
        match f_str(es, "asking_name"@) {
            Err(e) => Err(e),
            Ok(asking_name) => match f_str(es, "asking_url"@) {
                Err(e) => Err(e),
                Ok(asking_url) => match crate::npf::f_media_list(es, "asking_avatar"@) {
                    Err(e) => Err(e),
                    Ok(asking_avatar) => Ok(
                        Some(AskInfoV { asking_name, asking_url, asking_avatar }),
                    ),
                },
            },
        }
    } else {
        Ok(None)
    }
}

pub fn get_ask_info(entries: &Vec<(String, Json)>) -> (r: Result<Option<AskInfo>, DecodeError>)
    ensures
        dres(r) == ask_info_dec(crate::json::entries_view(entries@)),
{
    if obj_has(entries, "asking_name") && obj_has(entries, "asking_url") && obj_has(
        entries,
        "asking_avatar",
    ) {
        let asking_name = match get_str(entries, "asking_name") {
            Err(e) => { return Err(e); },
            Ok(s) => s,
        };
        let asking_url = match get_str(entries, "asking_url") {
            Err(e) => { return Err(e); },
            Ok(s) => s,
        };
        let asking_avatar = match crate::npf::get_media_list(entries, "asking_avatar") {
            Err(e) => { return Err(e); },
            Ok(x) => x,
        };
        let result = AskInfo { asking_name, asking_url, asking_avatar };
        proof {
            assert(media_seq_deep(result.asking_avatar@) =~= result.asking_avatar.deep_view());
        }
        Ok(Some(result))
    } else {
        Ok(None)
    }
}

#[derive(Debug, PartialEq, Eq)]
pub struct SubmissionInfo {
    pub post_author: Option<String>,
    pub post_author_is_adult: Option<bool>,
    pub anonymous_name: Option<String>,
    pub anonymous_email: Option<String>,
}

pub struct SubmissionInfoV {
    pub post_author: Option<Seq<char>>,
    pub post_author_is_adult: Option<bool>,
    pub anonymous_name: Option<Seq<char>>,
    pub anonymous_email: Option<Seq<char>>,
}

impl DeepView for SubmissionInfo {
    type V = SubmissionInfoV;

    open spec fn deep_view(&self) -> SubmissionInfoV {
        SubmissionInfoV {
            post_author: self.post_author.deep_view(),
            post_author_is_adult: self.post_author_is_adult.deep_view(),
            anonymous_name: self.anonymous_name.deep_view(),
            anonymous_email: self.anonymous_email.deep_view(),
        }
    }
}

/// The submission cluster is discriminated by its boolean sentinel: a
/// false or absent `is_submission` means no submission info, whatever
/// sibling fields may literally be present.
pub open spec fn submission_info_dec(es: Seq<(Seq<char>, JsonV)>) -> Result<
    Option<SubmissionInfoV>,
    DecodeError,
> {
    match f_bool_opt(es, "is_submission"@) {
        Err(e) => Err(e),
        Ok(Some(true)) => match f_str_opt(es, "post_author"@) {
            Err(e) => Err(e),
            Ok(post_author) => match f_bool_opt(es, "post_author_is_adult"@) {
                Err(e) => Err(e),
                Ok(post_author_is_adult) => match f_str_opt(es, "anonymous_name"@) {
                    Err(e) => Err(e),
                    Ok(anonymous_name) => match f_str_opt(es, "anonymous_email"@) {
                        Err(e) => Err(e),
                        Ok(anonymous_email) => Ok(
                            Some(
                                SubmissionInfoV {
                                    post_author,
                                    post_author_is_adult,
                                    anonymous_name,
                                    anonymous_email,
                                },
                            ),
                        ),
                    },
                },
            },
        },
        Ok(_) => Ok(None),
    }
}

/// The entries the submission cluster contributes: the sentinel always,
/// each sub-field only when present.
pub open spec fn submission_info_entries(o: Option<SubmissionInfoV>) -> Seq<
    (Seq<char>, JsonV),
> {
    match o {
        None => seq![("is_submission"@, JsonV::Bool(false))],
        Some(v) => seq![("is_submission"@, JsonV::Bool(true))] + opt_entry(
            "post_author"@,
            ostr(v.post_author),
        ) + opt_entry("post_author_is_adult"@, crate::json::obool(v.post_author_is_adult))
            + opt_entry("anonymous_name"@, ostr(v.anonymous_name)) + opt_entry(
            "anonymous_email"@,
            ostr(v.anonymous_email),
        ),
    }
}

pub fn get_submission_info(entries: &Vec<(String, Json)>) -> (r: Result<
    Option<SubmissionInfo>,
    DecodeError,
>)
    ensures
        dres(r) == submission_info_dec(crate::json::entries_view(entries@)),
{
    let sentinel = match get_bool_opt(entries, "is_submission") {
        Err(e) => { return Err(e); },
        Ok(x) => x,
    };
    match sentinel {
        Some(true) => {
            let post_author = match get_str_opt(entries, "post_author") {
                Err(e) => { return Err(e); },
                Ok(x) => x,
            };
            let post_author_is_adult = match get_bool_opt(entries, "post_author_is_adult") {
                Err(e) => { return Err(e); },
                Ok(x) => x,
            };
            let anonymous_name = match get_str_opt(entries, "anonymous_name") {
                Err(e) => { return Err(e); },
                Ok(x) => x,
            };
            let anonymous_email = match get_str_opt(entries, "anonymous_email") {
                Err(e) => { return Err(e); },
                Ok(x) => x,
            };
            Ok(
                Some(
                    SubmissionInfo {
                        post_author,
                        post_author_is_adult,
                        anonymous_name,
                        anonymous_email,
                    },
                ),
            )
        },
        _ => Ok(None),
    }
}

/// Appends the submission cluster to an envelope under construction.
pub fn push_submission_info(b: &mut ObjBuilder, o: &Option<SubmissionInfo>)
    ensures
        final(b).entries_v() == old(b).entries_v() + submission_info_entries(
            match o {
                Some(v) => Some(v.deep_view()),
                None => None,
            },
        ),
{
    match o {
        None => {
            b.push("is_submission", Json::Bool(false));
            proof {
                assert(b.entries_v() =~= old(b).entries_v() + submission_info_entries(None));
            }
        },
        Some(v) => {
            let ghost start = b.entries_v();
            b.push("is_submission", Json::Bool(true));
            b.push_opt(
                "post_author",
                match &v.post_author {
                    Some(s) => Some(Json::Str(s.clone())),
                    None => None,
                },
            );
            b.push_opt(
                "post_author_is_adult",
                match &v.post_author_is_adult {
                    Some(x) => Some(Json::Bool(*x)),
                    None => None,
                },
            );
            b.push_opt(
                "anonymous_name",
                match &v.anonymous_name {
                    Some(s) => Some(Json::Str(s.clone())),
                    None => None,
                },
            );
            b.push_opt(
                "anonymous_email",
                match &v.anonymous_email {
                    Some(s) => Some(Json::Str(s.clone())),
                    None => None,
                },
            );
            proof {
                assert(b.entries_v() =~= start + submission_info_entries(
                    Some(v.deep_view()),
                ));
            }
        },
    }
}

/// Law (submission sentinel precedence): a false sentinel yields no
/// submission info even when sibling fields are literally present; a true
/// sentinel populates the cluster from those siblings.
pub proof fn lemma_submission_sentinel(es: Seq<(Seq<char>, JsonV)>, author: Seq<char>)
    requires
        obj_get_v(es, "post_author"@) == Some(JsonV::Str(author)),
        obj_get_v(es, "post_author_is_adult"@) is None,
        obj_get_v(es, "anonymous_name"@) is None,
        obj_get_v(es, "anonymous_email"@) is None,
    ensures
        obj_get_v(es, "is_submission"@) == Some(JsonV::Bool(false)) ==> submission_info_dec(es)
            == Ok::<Option<SubmissionInfoV>, DecodeError>(None),
        obj_get_v(es, "is_submission"@) == Some(JsonV::Bool(true)) ==> submission_info_dec(es)
            == Ok::<Option<SubmissionInfoV>, DecodeError>(
            Some(
                SubmissionInfoV {
                    post_author: Some(author),
                    post_author_is_adult: None,
                    anonymous_name: None,
                    anonymous_email: None,
                },
            ),
        ),
{
}

// ---------------------------------------------------------------------------
// The API response envelope: success carries a payload beside the meta
// record; failure carries a list of reported errors.
// ---------------------------------------------------------------------------
#[derive(Debug, PartialEq, Eq)]
pub struct ResponseMeta {
    pub status: i32,
    pub msg: String,
}

pub struct ResponseMetaV {
    pub status: i32,
    pub msg: Seq<char>,
}

impl DeepView for ResponseMeta {
    type V = ResponseMetaV;

    open spec fn deep_view(&self) -> ResponseMetaV {
        ResponseMetaV { status: self.status, msg: self.msg.deep_view() }
    }
}

/// The meta record of every response: the status code and reason phrase.
pub open spec fn response_meta_dec(j: JsonV) -> Result<ResponseMetaV, DecodeError> {
    match j {
        JsonV::Obj(es) => if !crate::json::keys_subset_v(es, seq!["msg"@, "status"@]) {
            Err(DecodeError::UnknownField)
        } else {
            match f_i32(es, "status"@) {
                Err(e) => Err(e),
                Ok(status) => match f_str(es, "msg"@) {
                    Err(e) => Err(e),
                    Ok(msg) => Ok(ResponseMetaV { status, msg }),
                },
            }
        },
        _ => Err(DecodeError::TypeMismatch),
    }
}

impl ResponseMeta {
    pub fn decode(j: &Json) -> (r: Result<ResponseMeta, DecodeError>)
        ensures
            dres(r) == response_meta_dec(j@),
    {
        match j {
            Json::Obj(entries) => {
                proof {
                    crate::json::lemma_obj_view(*entries);
                }
                let allowed: [&str; 2] = ["msg", "status"];
                proof {
                    assert(allowed.deep_view() =~= seq!["msg"@, "status"@]);
                }
                if !crate::json::keys_subset(entries, &allowed) {
                    return Err(DecodeError::UnknownField);
                }
                let status = match get_i32(entries, "status") {
                    Err(e) => { return Err(e); },
                    Ok(x) => x,
                };
                let msg = match get_str(entries, "msg") {
                    Err(e) => { return Err(e); },
                    Ok(s) => s,
                };
                Ok(ResponseMeta { status, msg })
            },
            _ => Err(DecodeError::TypeMismatch),
        }
    }
}

#[derive(Debug, PartialEq, Eq)]
pub struct ResponseErrorEntry {
    pub title: String,
    pub code: i32,
}

pub struct ResponseErrorEntryV {
    pub title: Seq<char>,
    pub code: i32,
}

impl DeepView for ResponseErrorEntry {
    type V = ResponseErrorEntryV;

    open spec fn deep_view(&self) -> ResponseErrorEntryV {
        ResponseErrorEntryV { title: self.title.deep_view(), code: self.code }
    }
}

pub open spec fn error_entry_dec(j: JsonV) -> Result<ResponseErrorEntryV, DecodeError> {
    match j {
        JsonV::Obj(es) => match f_str(es, "title"@) {
            Err(e) => Err(e),
            Ok(title) => match f_i32(es, "code"@) {
                Err(e) => Err(e),
                Ok(code) => Ok(ResponseErrorEntryV { title, code }),
            },
        },
        _ => Err(DecodeError::TypeMismatch),
    }
}

pub open spec fn error_entry_dec_fn() -> spec_fn(JsonV) -> Result<
    ResponseErrorEntryV,
    DecodeError,
> {
    |j: JsonV| error_entry_dec(j)
}

impl ResponseErrorEntry {
    pub fn decode(j: &Json) -> (r: Result<ResponseErrorEntry, DecodeError>)
        ensures
            dres(r) == error_entry_dec(j@),
    {
        match j {
            Json::Obj(entries) => {
                proof {
                    crate::json::lemma_obj_view(*entries);
                }
                let title = match get_str(entries, "title") {
                    Err(e) => { return Err(e); },
                    Ok(s) => s,
                };
                let code = match get_i32(entries, "code") {
                    Err(e) => { return Err(e); },
                    Ok(x) => x,
                };
                Ok(ResponseErrorEntry { title, code })
            },
            _ => Err(DecodeError::TypeMismatch),
        }
    }
}

/// An API response reporting failure: the meta record and the reported
/// errors.
#[derive(Debug, PartialEq, Eq)]
pub struct FailureResponse {
    pub meta: ResponseMeta,
    pub errors: Vec<ResponseErrorEntry>,
}

/// An API response reporting success: the meta record and the payload,
/// kept as a tree for the caller to decode further.
#[derive(Debug, PartialEq, Eq)]
pub struct SuccessResponse {
    pub meta: ResponseMeta,
    pub response: Json,
}

/// A decoded API response, told apart by whether `errors` is present.
#[derive(Debug, PartialEq, Eq)]
pub enum Response {
    Failure(FailureResponse),
    Success(SuccessResponse),
}

pub struct FailureResponseV {
    pub meta: ResponseMetaV,
    pub errors: Seq<ResponseErrorEntryV>,
}

pub struct SuccessResponseV {
    pub meta: ResponseMetaV,
    pub response: JsonV,
}

pub enum ResponseV {
    Failure(FailureResponseV),
    Success(SuccessResponseV),
}

impl DeepView for FailureResponse {
    type V = FailureResponseV;

    open spec fn deep_view(&self) -> FailureResponseV {
        FailureResponseV { meta: self.meta.deep_view(), errors: self.errors.deep_view() }
    }
}

impl DeepView for SuccessResponse {
    type V = SuccessResponseV;

    open spec fn deep_view(&self) -> SuccessResponseV {
        SuccessResponseV { meta: self.meta.deep_view(), response: self.response@ }
    }
}

impl DeepView for Response {
    type V = ResponseV;

    open spec fn deep_view(&self) -> ResponseV {
        match self {
            Response::Failure(f) => ResponseV::Failure(f.deep_view()),
            Response::Success(s) => ResponseV::Success(s.deep_view()),
        }
    }
}

/// Decodes the response envelope: a failure when `errors` is present, a
/// success when `response` is, a refusal otherwise.
pub open spec fn response_dec(j: JsonV) -> Result<ResponseV, DecodeError> {
    match j {
        JsonV::Obj(es) => match obj_get_v(es, "meta"@) {
            None => Err(DecodeError::MissingField),
            Some(mj) => match response_meta_dec(mj) {
                Err(e) => Err(e),
                Ok(meta) => match obj_get_v(es, "errors"@) {
                    Some(JsonV::Arr(ejs)) => match crate::json::list_dec(
                        ejs,
                        error_entry_dec_fn(),
                    ) {
                        Err(e) => Err(e),
                        Ok(errors) => Ok(ResponseV::Failure(FailureResponseV { meta, errors })),
                    },
                    Some(_) => Err(DecodeError::TypeMismatch),
                    None => match obj_get_v(es, "response"@) {
                        None => Err(DecodeError::MissingField),
                        Some(rj) => Ok(ResponseV::Success(SuccessResponseV { meta, response: rj })),
                    },
                },
            },
        },
        _ => Err(DecodeError::TypeMismatch),
    }
}

impl Response {
    pub fn decode(j: &Json) -> (r: Result<Response, DecodeError>)
        ensures
            dres(r) == response_dec(j@),
    {
        match j {
            Json::Obj(entries) => {
                proof {
                    crate::json::lemma_obj_view(*entries);
                }
                let meta = match obj_get(entries, "meta") {
                    None => { return Err(DecodeError::MissingField); },
                    Some(mj) => match ResponseMeta::decode(mj) {
                        Err(e) => { return Err(e); },
                        Ok(m) => m,
                    },
                };
                match obj_get(entries, "errors") {
                    Some(ej) => match ej {
                        Json::Arr(ejs) => {
                            proof {
                                crate::json::lemma_arr_view(*ejs);
                            }
                            match Self::decode_error_entries(ejs) {
                                Err(e) => Err(e),
                                Ok(errors) => Ok(
                                    Response::Failure(FailureResponse { meta, errors }),
                                ),
                            }
                        },
                        _ => Err(DecodeError::TypeMismatch),
                    },
                    None => match obj_get(entries, "response") {
                        None => Err(DecodeError::MissingField),
                        Some(rj) => Ok(
                            Response::Success(
                                SuccessResponse { meta, response: rj.duplicate() },
                            ),
                        ),
                    },
                }
            },
            _ => Err(DecodeError::TypeMismatch),
        }
    }

    fn decode_error_entries(elems: &Vec<Json>) -> (r: Result<
        Vec<ResponseErrorEntry>,
        DecodeError,
    >)
        ensures
            dres(r) == crate::json::list_dec(
                crate::json::elems_view(elems@),
                error_entry_dec_fn(),
            ),
    {
        let ghost es = crate::json::elems_view(elems@);
        let mut out: Vec<ResponseErrorEntry> = Vec::new();
        proof {
            assert(es.take(0) =~= Seq::<JsonV>::empty());
            assert(out.deep_view() =~= Seq::<ResponseErrorEntryV>::empty());
        }
        let mut i: usize = 0;
        while i < elems.len()
            invariant
                i <= elems.len(),
                es == crate::json::elems_view(elems@),
                crate::json::list_dec(es.take(i as int), error_entry_dec_fn()) == Ok::<
                    _,
                    DecodeError,
                >(out.deep_view()),
            decreases elems.len() - i,
        {
            proof {
                assert(es.take(i + 1).drop_last() =~= es.take(i as int));
                assert(es.take(i + 1).last() == es[i as int]);
            }
            match ResponseErrorEntry::decode(&elems[i]) {
                Ok(x) => {
                    let ghost xv = x.deep_view();
                    let ghost old_out = out.deep_view();
                    out.push(x);
                    proof {
                        assert(out.deep_view() =~= old_out.push(xv));
                    }
                },
                Err(e) => {
                    proof {
                        crate::json::lemma_list_dec_err(es, error_entry_dec_fn(), i + 1);
                    }
                    return Err(e);
                },
            }
            i = i + 1;
        }
        proof {
            assert(es.take(elems@.len() as int) =~= es);
        }
        Ok(out)
    }

    /// Turns a decoded response into a result, a failure becoming a
    /// structured error.
    pub fn into_result(self) -> (r: Result<SuccessResponse, ResponseError>)
        ensures
            match self {
                Response::Success(s) => r == Ok::<SuccessResponse, ResponseError>(s),
                Response::Failure(f) => r matches Err(e) && e.meta == f.meta && e.errors
                    == f.errors,
            },
    {
        match self {
            Response::Success(s) => Ok(s),
            Response::Failure(FailureResponse { meta, errors }) => Err(
                ResponseError { meta, errors },
            ),
        }
    }
}

/// A server-reported failure, as a structured error value.
#[derive(Debug, PartialEq, Eq)]
pub struct ResponseError {
    pub meta: ResponseMeta,
    pub errors: Vec<ResponseErrorEntry>,
}

/// An API response reporting success, with its payload kept as a tree.
#[derive(Debug, PartialEq, Eq)]
pub struct ApiSuccessResponse {
    pub meta: ResponseMeta,
    pub response: Json,
}

/// The rendering of one reported error: its code in parentheses, then its
/// title.
pub open spec fn error_entry_text(v: ResponseErrorEntryV) -> Seq<char> {
    "("@ + dec_int(v.code as int) + ") "@ + v.title
}

/// The cause list of a multi-error failure: one indented line per
/// reported sub-error, in report order.
pub open spec fn causes_text(errors: Seq<ResponseErrorEntryV>) -> Seq<char>
    decreases errors.len(),
{
    if errors.len() == 0 {
        Seq::empty()
    } else {
        causes_text(errors.drop_last()) + "\n   - "@ + error_entry_text(errors.last())
    }
}

impl ResponseError {
    /// Renders one reported error.
    fn render_entry(e: &ResponseErrorEntry) -> (r: String)
        ensures
            r@ == error_entry_text(e.deep_view()),
    {
        proof {
            reveal_strlit("(");
            reveal_strlit(") ");
        }
        let mut s: String = "(".to_owned();
        let num = i64_to_dec(e.code as i64);
        s.append(num.as_str());
        s.append(") ");
        s.append(e.title.as_str());
        s
    }

    /// A display text for the failure: nothing reported, one error, or a
    /// cause list with every reported sub-error on its own line.
    pub fn render(&self) -> (r: String)
        ensures
            self.errors@.len() == 0 ==> r@ == " (no details provided)"@,
            self.errors@.len() == 1 ==> r@ == " - "@ + error_entry_text(
                self.errors@[0].deep_view(),
            ),
            self.errors@.len() >= 2 ==> r@ == " - causes:"@ + causes_text(
                self.errors.deep_view(),
            ),
    {
        if self.errors.len() == 0 {
            " (no details provided)".to_owned()
        } else if self.errors.len() == 1 {
            proof {
                reveal_strlit(" - ");
            }
            let mut s: String = " - ".to_owned();
            let entry = Self::render_entry(&self.errors[0]);
            s.append(entry.as_str());
            s
        } else {
            let ghost evs = self.errors.deep_view();
            let mut s: String = " - causes:".to_owned();
            proof {
                assert(evs.take(0) =~= Seq::<ResponseErrorEntryV>::empty());
                assert(s@ =~= " - causes:"@ + causes_text(evs.take(0)));
            }
            let mut i: usize = 0;
            while i < self.errors.len()
                invariant
                    i <= self.errors@.len(),
                    evs == self.errors.deep_view(),
                    evs.len() == self.errors@.len(),
                    s@ == " - causes:"@ + causes_text(evs.take(i as int)),
                decreases self.errors.len() - i,
            {
                proof {
                    assert(evs.take(i + 1).drop_last() =~= evs.take(i as int));
                    assert(evs.take(i + 1).last() == evs[i as int]);
                }
                s.append("\n   - ");
                let entry = Self::render_entry(&self.errors[i]);
                s.append(entry.as_str());
                proof {
                    assert(s@ =~= " - causes:"@ + causes_text(evs.take(i + 1)));
                }
                i = i + 1;
            }
            proof {
                assert(evs.take(self.errors@.len() as int) =~= evs);
            }
            s
        }
    }
}

// ---------------------------------------------------------------------------
// Creating a post: the request record and the state it is created in.
// ---------------------------------------------------------------------------
#[derive(Debug, Clone, Copy, PartialEq, Eq, Structural)]
pub enum CreatePostState {
    Published,
    Queue,
    Draft,
    Private,
    Unapproved,
}

pub open spec fn create_post_state_wire(v: CreatePostState) -> Seq<char> {
    match v {
        CreatePostState::Published => "published"@,
        CreatePostState::Queue => "queue"@,
        CreatePostState::Draft => "draft"@,
        CreatePostState::Private => "private"@,
        CreatePostState::Unapproved => "unapproved"@,
    }
}

impl CreatePostState {
    pub fn wire_name(&self) -> (r: &'static str)
        ensures
            r@ == create_post_state_wire(*self),
    {
        match self {
            CreatePostState::Published => "published",
            CreatePostState::Queue => "queue",
            CreatePostState::Draft => "draft",
            CreatePostState::Private => "private",
            CreatePostState::Unapproved => "unapproved",
        }
    }
}

/// A post-creation request. Every optional field is omitted from the wire
/// when absent.
#[derive(Debug, PartialEq, Eq)]
pub struct CreatePostRequest {
    pub content: Vec<ContentBlock>,
    pub state: Option<CreatePostState>,
    pub publish_on: Option<String>,
    pub date: Option<String>,
    pub tags: Option<String>,
    pub source_url: Option<String>,
    pub send_to_twitter: Option<bool>,
    pub is_private: Option<bool>,
    pub slug: Option<String>,
    pub interactability_reblog: Option<ReblogInteractability>,
}

pub struct CreatePostRequestV {
    pub content: Seq<ContentBlockV>,
    pub state: Option<CreatePostState>,
    pub publish_on: Option<Seq<char>>,
    pub date: Option<Seq<char>>,
    pub tags: Option<Seq<char>>,
    pub source_url: Option<Seq<char>>,
    pub send_to_twitter: Option<bool>,
    pub is_private: Option<bool>,
    pub slug: Option<Seq<char>>,
    pub interactability_reblog: Option<ReblogInteractability>,
}

impl DeepView for CreatePostRequest {
    type V = CreatePostRequestV;

    open spec fn deep_view(&self) -> CreatePostRequestV {
        CreatePostRequestV {
            content: self.content.deep_view(),
            state: self.state,
            publish_on: self.publish_on.deep_view(),
            date: self.date.deep_view(),
            tags: self.tags.deep_view(),
            source_url: self.source_url.deep_view(),
            send_to_twitter: self.send_to_twitter,
            is_private: self.is_private,
            slug: self.slug.deep_view(),
            interactability_reblog: self.interactability_reblog,
        }
    }
}

/// Whether every block of the request is within the length ceilings that
/// encoding enforces.
pub open spec fn create_post_enc_ok(v: CreatePostRequestV) -> bool {
    forall|i: int| 0 <= i < v.content.len() ==> crate::npf::content_block_enc_ok(
        #[trigger] v.content[i],
    )
}

pub open spec fn content_enc_fn() -> spec_fn(ContentBlockV) -> JsonV {
    |b: ContentBlockV| crate::npf::content_block_enc(b)
}

pub open spec fn create_post_enc(v: CreatePostRequestV) -> JsonV {
    JsonV::Obj(
        opt_entry("content"@, Some(JsonV::Arr(crate::json::list_enc(v.content, content_enc_fn()))))
            + opt_entry("date"@, ostr(v.date)) + opt_entry(
            "interactability_reblog"@,
            match v.interactability_reblog {
                Some(x) => Some(JsonV::Str(reblog_interactability_wire(x))),
                None => None,
            },
        ) + opt_entry("is_private"@, crate::json::obool(v.is_private)) + opt_entry(
            "publish_on"@,
            ostr(v.publish_on),
        ) + opt_entry("send_to_twitter"@, crate::json::obool(v.send_to_twitter)) + opt_entry(
            "slug"@,
            ostr(v.slug),
        ) + opt_entry("source_url"@, ostr(v.source_url)) + opt_entry(
            "state"@,
            match v.state {
                Some(x) => Some(JsonV::Str(create_post_state_wire(x))),
                None => None,
            },
        ) + opt_entry("tags"@, ostr(v.tags)),
    )
}

impl CreatePostRequest {
    /// Encodes the request; refused exactly when some block exceeds a
    /// documented length ceiling.
    #[verifier::rlimit(100)]
    pub fn encode(&self) -> (r: Result<Json, crate::json::EncodeError>)
        ensures
            r is Ok <==> create_post_enc_ok(self.deep_view()),
            r matches Ok(j) ==> j@ == create_post_enc(self.deep_view()),
    {
        let ghost v = self.deep_view();
        let mut blocks: Vec<Json> = Vec::new();
        let mut i: usize = 0;
        while i < self.content.len()
            invariant
                i <= self.content@.len(),
                v == self.deep_view(),
                v.content == self.content.deep_view(),
                blocks@.len() == i,
                forall|k: int| 0 <= k < i ==> crate::npf::content_block_enc_ok(
                    #[trigger] v.content[k],
                ),
                forall|k: int| 0 <= k < i ==> (#[trigger] blocks@[k])@
                    == crate::npf::content_block_enc(v.content[k]),
            decreases self.content@.len() - i,
        {
            match self.content[i].encode() {
                Ok(j) => {
                    blocks.push(j);
                },
                Err(e) => {
                    proof {
                        assert(!crate::npf::content_block_enc_ok(v.content[i as int]));
                    }
                    return Err(e);
                },
            }
            i = i + 1;
        }
        let mut b = ObjBuilder::new();
        proof {
            crate::json::lemma_arr_view(blocks);
            assert(crate::json::elems_view(blocks@) =~= crate::json::list_enc(
                v.content,
                content_enc_fn(),
            ));
        }
        b.push_opt("content", Some(Json::Arr(blocks)));
        proof {
            assert(Seq::empty() + opt_entry(
                "content"@,
                Some(JsonV::Arr(crate::json::list_enc(v.content, content_enc_fn()))),
            ) =~= opt_entry(
                "content"@,
                Some(JsonV::Arr(crate::json::list_enc(v.content, content_enc_fn()))),
            ));
        }
        b.push_opt(
            "date",
            match &self.date {
                Some(s) => Some(Json::Str(s.clone())),
                None => None,
            },
        );
        b.push_opt(
            "interactability_reblog",
            match &self.interactability_reblog {
                Some(x) => Some(Json::Str(x.wire_name().to_owned())),
                None => None,
            },
        );
        b.push_opt(
            "is_private",
            match &self.is_private {
                Some(x) => Some(Json::Bool(*x)),
                None => None,
            },
        );
        b.push_opt(
            "publish_on",
            match &self.publish_on {
                Some(s) => Some(Json::Str(s.clone())),
                None => None,
            },
        );
        b.push_opt(
            "send_to_twitter",
            match &self.send_to_twitter {
                Some(x) => Some(Json::Bool(*x)),
                None => None,
            },
        );
        b.push_opt(
            "slug",
            match &self.slug {
                Some(s) => Some(Json::Str(s.clone())),
                None => None,
            },
        );
        b.push_opt(
            "source_url",
            match &self.source_url {
                Some(s) => Some(Json::Str(s.clone())),
                None => None,
            },
        );
        b.push_opt(
            "state",
            match &self.state {
                Some(x) => Some(Json::Str(x.wire_name().to_owned())),
                None => None,
            },
        );
        b.push_opt(
            "tags",
            match &self.tags {
                Some(s) => Some(Json::Str(s.clone())),
                None => None,
            },
        );
        Ok(b.finish())
    }
}

// ---------------------------------------------------------------------------
// The full blog entity a post carries; richer than the lightweight
// reference used by mentions, and kept separate from it on purpose.
// ---------------------------------------------------------------------------
#[derive(Debug, PartialEq, Eq)]
pub struct Blog {
    pub name: String,
    pub title: String,
    pub description: String,
    pub url: String,
    pub uuid: String,
    pub updated: i64,
    pub tumblrmart_accessories: Vec<(String, Json)>,
    pub can_show_badges: bool,
}

pub struct BlogV {
    pub name: Seq<char>,
    pub title: Seq<char>,
    pub description: Seq<char>,
    pub url: Seq<char>,
    pub uuid: Seq<char>,
    pub updated: i64,
    pub tumblrmart_accessories: Seq<(Seq<char>, JsonV)>,
    pub can_show_badges: bool,
}

impl DeepView for Blog {
    type V = BlogV;

    open spec fn deep_view(&self) -> BlogV {
        BlogV {
            name: self.name.deep_view(),
            title: self.title.deep_view(),
            description: self.description.deep_view(),
            url: self.url.deep_view(),
            uuid: self.uuid.deep_view(),
            updated: self.updated,
            tumblrmart_accessories: self.tumblrmart_accessories.deep_view(),
            can_show_badges: self.can_show_badges,
        }
    }
}

/// A required open bag of fields, kept as it came.
pub open spec fn f_bag(es: Seq<(Seq<char>, JsonV)>, key: Seq<char>) -> Result<
    Seq<(Seq<char>, JsonV)>,
    DecodeError,
> {
    match obj_get_v(es, key) {
        None => Err(DecodeError::MissingField),
        Some(JsonV::Obj(ces)) => Ok(ces),
        Some(_) => Err(DecodeError::TypeMismatch),
    }
}

/// Reads a required open bag of fields.
pub fn get_bag(entries: &Vec<(String, Json)>, key: &str) -> (r: Result<
    Vec<(String, Json)>,
    DecodeError,
>)
    ensures
        dres(r) == f_bag(entries_view(entries@), key@),
{
    match obj_get(entries, key) {
        None => Err(DecodeError::MissingField),
        Some(Json::Obj(ces)) => {
            proof {
                lemma_obj_view(*ces);
            }
            let out = crate::json::duplicate_entries(ces);
            proof {
                lemma_entries_deep(out);
            }
            Ok(out)
        },
        Some(_) => Err(DecodeError::TypeMismatch),
    }
}

pub open spec fn blog_enc(v: BlogV) -> JsonV {
    JsonV::Obj(
        opt_entry("can_show_badges"@, Some(JsonV::Bool(v.can_show_badges))) + opt_entry(
            "description"@,
            Some(JsonV::Str(v.description)),
        ) + opt_entry("name"@, Some(JsonV::Str(v.name))) + opt_entry(
            "title"@,
            Some(JsonV::Str(v.title)),
        ) + opt_entry(
            "tumblrmart_accessories"@,
            Some(JsonV::Obj(v.tumblrmart_accessories)),
        ) + opt_entry("updated"@, Some(JsonV::I64(v.updated))) + opt_entry(
            "url"@,
            Some(JsonV::Str(v.url)),
        ) + opt_entry("uuid"@, Some(JsonV::Str(v.uuid))),
    )
}

pub open spec fn blog_dec(j: JsonV) -> Result<BlogV, DecodeError> {
    match j {
        JsonV::Obj(es) => if !keys_subset_v(
            es,
            seq![
                "can_show_badges"@,
                "description"@,
                "name"@,
                "title"@,
                "tumblrmart_accessories"@,
                "updated"@,
                "url"@,
                "uuid"@,
            ],
        ) {
            Err(DecodeError::UnknownField)
        } else {
            match f_str(es, "name"@) {
                Err(e) => Err(e),
                Ok(name) => match f_str(es, "title"@) {
                    Err(e) => Err(e),
                    Ok(title) => match f_str(es, "description"@) {
                        Err(e) => Err(e),
                        Ok(description) => match f_str(es, "url"@) {
                            Err(e) => Err(e),
                            Ok(url) => match f_str(es, "uuid"@) {
                                Err(e) => Err(e),
                                Ok(uuid) => match f_i64(es, "updated"@) {
                                    Err(e) => Err(e),
                                    Ok(updated) => match f_bag(es, "tumblrmart_accessories"@) {
                                        Err(e) => Err(e),
                                        Ok(tumblrmart_accessories) => match f_bool(
                                            es,
                                            "can_show_badges"@,
                                        ) {
                                            Err(e) => Err(e),
                                            Ok(can_show_badges) => Ok(
                                                BlogV {
                                                    name,
                                                    title,
                                                    description,
                                                    url,
                                                    uuid,
                                                    updated,
                                                    tumblrmart_accessories,
                                                    can_show_badges,
                                                },
                                            ),
                                        },
                                    },
                                },
                            },
                        },
                    },
                },
            }
        },
        _ => Err(DecodeError::TypeMismatch),
    }
}

impl Blog {
    pub fn encode(&self) -> (r: Json)
        ensures
            r@ == blog_enc(self.deep_view()),
    {
        let ghost v = self.deep_view();
        let mut b = ObjBuilder::new();
        b.push_opt("can_show_badges", Some(Json::Bool(self.can_show_badges)));
        proof {
            assert(Seq::empty() + opt_entry(
                "can_show_badges"@,
                Some(JsonV::Bool(v.can_show_badges)),
            ) =~= opt_entry("can_show_badges"@, Some(JsonV::Bool(v.can_show_badges))));
        }
        b.push_opt("description", Some(Json::Str(self.description.clone())));
        b.push_opt("name", Some(Json::Str(self.name.clone())));
        b.push_opt("title", Some(Json::Str(self.title.clone())));
        let bag = crate::json::duplicate_entries(&self.tumblrmart_accessories);
        proof {
            crate::json::lemma_obj_view(bag);
            lemma_entries_deep(self.tumblrmart_accessories);
        }
        b.push_opt("tumblrmart_accessories", Some(Json::Obj(bag)));
        b.push_opt("updated", Some(Json::I64(self.updated)));
        b.push_opt("url", Some(Json::Str(self.url.clone())));
        b.push_opt("uuid", Some(Json::Str(self.uuid.clone())));
        b.finish()
    }

    pub fn decode(j: &Json) -> (r: Result<Blog, DecodeError>)
        ensures
            dres(r) == blog_dec(j@),
    {
        match j {
            Json::Obj(entries) => {
                proof {
                    lemma_obj_view(*entries);
                }
                let allowed: [&str; 8] = [
                    "can_show_badges",
                    "description",
                    "name",
                    "title",
                    "tumblrmart_accessories",
                    "updated",
                    "url",
                    "uuid",
                ];
                proof {
                    assert(allowed.deep_view() =~= seq![
                        "can_show_badges"@,
                        "description"@,
                        "name"@,
                        "title"@,
                        "tumblrmart_accessories"@,
                        "updated"@,
                        "url"@,
                        "uuid"@,
                    ]);
                }
                if !keys_subset(entries, &allowed) {
                    return Err(DecodeError::UnknownField);
                }
                let name = match get_str(entries, "name") {
                    Err(e) => { return Err(e); },
                    Ok(s) => s,
                };
                let title = match get_str(entries, "title") {
                    Err(e) => { return Err(e); },
                    Ok(s) => s,
                };
                let description = match get_str(entries, "description") {
                    Err(e) => { return Err(e); },
                    Ok(s) => s,
                };
                let url = match get_str(entries, "url") {
                    Err(e) => { return Err(e); },
                    Ok(s) => s,
                };
                let uuid = match get_str(entries, "uuid") {
                    Err(e) => { return Err(e); },
                    Ok(s) => s,
                };
                let updated = match get_i64(entries, "updated") {
                    Err(e) => { return Err(e); },
                    Ok(x) => x,
                };
                let tumblrmart_accessories = match get_bag(entries, "tumblrmart_accessories") {
                    Err(e) => { return Err(e); },
                    Ok(x) => x,
                };
                let can_show_badges = match get_bool(entries, "can_show_badges") {
                    Err(e) => { return Err(e); },
                    Ok(x) => x,
                };
                Ok(
                    Blog {
                        name,
                        title,
                        description,
                        url,
                        uuid,
                        updated,
                        tumblrmart_accessories,
                        can_show_badges,
                    },
                )
            },
            _ => Err(DecodeError::TypeMismatch),
        }
    }
}

// ---------------------------------------------------------------------------
// The post envelope: one flat record, its clusters, and an overflow bag
// for every key the model does not recognize.
// ---------------------------------------------------------------------------
/// A required free-form value, kept as it came.
pub open spec fn f_raw(es: Seq<(Seq<char>, JsonV)>, key: Seq<char>) -> Result<
    JsonV,
    DecodeError,
> {
    match obj_get_v(es, key) {
        None => Err(DecodeError::MissingField),
        Some(j) => Ok(j),
    }
}

/// Reads a required free-form value.
pub fn get_raw(entries: &Vec<(String, Json)>, key: &str) -> (r: Result<Json, DecodeError>)
    ensures
        dres(r) == f_raw(entries_view(entries@), key@),
{
    match obj_get(entries, key) {
        None => Err(DecodeError::MissingField),
        Some(j) => Ok(j.duplicate()),
    }
}

/// A required list kept element for element as it came.
pub open spec fn f_raw_list(es: Seq<(Seq<char>, JsonV)>, key: Seq<char>) -> Result<
    Seq<JsonV>,
    DecodeError,
> {
    match obj_get_v(es, key) {
        None => Err(DecodeError::MissingField),
        Some(JsonV::Arr(vs)) => Ok(vs),
        Some(_) => Err(DecodeError::TypeMismatch),
    }
}

/// Duplicates a list of values, keeping its content.
fn duplicate_elems(elems: &Vec<Json>) -> (r: Vec<Json>)
    ensures
        r.deep_view() == elems_view(elems@),
{
    let mut out: Vec<Json> = Vec::new();
    let mut i: usize = 0;
    while i < elems.len()
        invariant
            i <= elems.len(),
            out@.len() == i,
            forall|k: int| 0 <= k < i ==> (#[trigger] out@[k])@ == elems@[k]@,
        decreases elems.len() - i,
    {
        out.push(elems[i].duplicate());
        i = i + 1;
    }
    proof {
        assert(out.deep_view() =~= elems_view(elems@));
    }
    out
}

/// Reads a required free-form list.
pub fn get_raw_list(entries: &Vec<(String, Json)>, key: &str) -> (r: Result<
    Vec<Json>,
    DecodeError,
>)
    ensures
        dres(r) == f_raw_list(entries_view(entries@), key@),
{
    match obj_get(entries, key) {
        None => Err(DecodeError::MissingField),
        Some(Json::Arr(vs)) => {
            proof {
                lemma_arr_view(*vs);
            }
            Ok(duplicate_elems(vs))
        },
        Some(_) => Err(DecodeError::TypeMismatch),
    }
}

/// One element of a string list.
pub open spec fn str_dec_fn() -> spec_fn(JsonV) -> Result<Seq<char>, DecodeError> {
    |j: JsonV|
        match j {
            JsonV::Str(s) => Ok(s),
            _ => Err(DecodeError::TypeMismatch),
        }
}

/// The encoding of a string list.
pub open spec fn str_list_enc(ss: Seq<Seq<char>>) -> Seq<JsonV> {
    Seq::new(ss.len(), |i: int| JsonV::Str(ss[i]))
}

/// A required list of strings.
pub open spec fn f_str_list(es: Seq<(Seq<char>, JsonV)>, key: Seq<char>) -> Result<
    Seq<Seq<char>>,
    DecodeError,
> {
    match obj_get_v(es, key) {
        None => Err(DecodeError::MissingField),
        Some(JsonV::Arr(vs)) => match list_dec(vs, str_dec_fn()) {
            Err(e) => Err(e),
            Ok(ss) => Ok(ss),
        },
        Some(_) => Err(DecodeError::TypeMismatch),
    }
}

/// Decodes a list of strings.
fn decode_str_vec(elems: &Vec<Json>) -> (r: Result<Vec<String>, DecodeError>)
    ensures
        dres(r) == list_dec(elems_view(elems@), str_dec_fn()),
{
    let ghost es = elems_view(elems@);
    let mut out: Vec<String> = Vec::new();
    proof {
        assert(es.take(0) =~= Seq::<JsonV>::empty());
        assert(out.deep_view() =~= Seq::<Seq<char>>::empty());
    }
    let mut i: usize = 0;
    while i < elems.len()
        invariant
            i <= elems.len(),
            es == elems_view(elems@),
            list_dec(es.take(i as int), str_dec_fn()) == Ok::<_, DecodeError>(out.deep_view()),
        decreases elems.len() - i,
    {
        proof {
            assert(es.take(i + 1).drop_last() =~= es.take(i as int));
            assert(es.take(i + 1).last() == es[i as int]);
        }
        match &elems[i] {
            Json::Str(s) => {
                let ghost old_out = out.deep_view();
                out.push(s.clone());
                proof {
                    assert(out.deep_view() =~= old_out.push(s@));
                }
            },
            _ => {
                proof {
                    lemma_list_dec_err(es, str_dec_fn(), i + 1);
                }
                return Err(DecodeError::TypeMismatch);
            },
        }
        i = i + 1;
    }
    proof {
        assert(es.take(elems@.len() as int) =~= es);
    }
    Ok(out)
}

/// Reads a required list of strings.
pub fn get_str_list(entries: &Vec<(String, Json)>, key: &str) -> (r: Result<
    Vec<String>,
    DecodeError,
>)
    ensures
        dres(r) == f_str_list(entries_view(entries@), key@),
{
    match obj_get(entries, key) {
        None => Err(DecodeError::MissingField),
        Some(Json::Arr(vs)) => {
            proof {
                lemma_arr_view(*vs);
            }
            match decode_str_vec(vs) {
                Err(e) => Err(e),
                Ok(ss) => Ok(ss),
            }
        },
        Some(_) => Err(DecodeError::TypeMismatch),
    }
}

/// Encodes a list of strings.
fn encode_str_vec(ss: &Vec<String>) -> (r: Json)
    ensures
        r@ == JsonV::Arr(str_list_enc(ss.deep_view())),
{
    let mut out: Vec<Json> = Vec::new();
    let mut i: usize = 0;
    while i < ss.len()
        invariant
            i <= ss.len(),
            out@.len() == i,
            forall|k: int| 0 <= k < i ==> (#[trigger] out@[k])@ == JsonV::Str(ss@[k]@),
        decreases ss.len() - i,
    {
        out.push(Json::Str(ss[i].clone()));
        i = i + 1;
    }
    proof {
        lemma_arr_view(out);
        assert(elems_view(out@) =~= str_list_enc(ss.deep_view()));
    }
    Json::Arr(out)
}

/// One element of the content list.
pub open spec fn content_dec_fn() -> spec_fn(JsonV) -> Result<ContentBlockV, DecodeError> {
    |j: JsonV| content_block_dec(j)
}

/// A required list of content blocks.
pub open spec fn f_content(es: Seq<(Seq<char>, JsonV)>, key: Seq<char>) -> Result<
    Seq<ContentBlockV>,
    DecodeError,
> {
    match obj_get_v(es, key) {
        None => Err(DecodeError::MissingField),
        Some(JsonV::Arr(vs)) => match list_dec(vs, content_dec_fn()) {
            Err(e) => Err(e),
            Ok(bs) => Ok(bs),
        },
        Some(_) => Err(DecodeError::TypeMismatch),
    }
}

/// Decodes a list of content blocks.
fn decode_block_vec(elems: &Vec<Json>) -> (r: Result<Vec<ContentBlock>, DecodeError>)
    ensures
        dres(r) == list_dec(elems_view(elems@), content_dec_fn()),
{
    let ghost es = elems_view(elems@);
    let mut out: Vec<ContentBlock> = Vec::new();
    proof {
        assert(es.take(0) =~= Seq::<JsonV>::empty());
        assert(out.deep_view() =~= Seq::<ContentBlockV>::empty());
    }
    let mut i: usize = 0;
    while i < elems.len()
        invariant
            i <= elems.len(),
            es == elems_view(elems@),
            list_dec(es.take(i as int), content_dec_fn()) == Ok::<_, DecodeError>(
                out.deep_view(),
            ),
        decreases elems.len() - i,
    {
        proof {
            assert(es.take(i + 1).drop_last() =~= es.take(i as int));
            assert(es.take(i + 1).last() == es[i as int]);
        }
        match ContentBlock::decode(&elems[i]) {
            Ok(x) => {
                let ghost xv = x.deep_view();
                let ghost old_out = out.deep_view();
                out.push(x);
                proof {
                    assert(out.deep_view() =~= old_out.push(xv));
                }
            },
            Err(e) => {
                proof {
                    lemma_list_dec_err(es, content_dec_fn(), i + 1);
                }
                return Err(e);
            },
        }
        i = i + 1;
    }
    proof {
        assert(es.take(elems@.len() as int) =~= es);
    }
    Ok(out)
}

/// Reads the required content list.
pub fn get_content(entries: &Vec<(String, Json)>, key: &str) -> (r: Result<
    Vec<ContentBlock>,
    DecodeError,
>)
    ensures
        dres(r) == f_content(entries_view(entries@), key@),
{
    match obj_get(entries, key) {
        None => Err(DecodeError::MissingField),
        Some(Json::Arr(vs)) => {
            proof {
                lemma_arr_view(*vs);
            }
            match decode_block_vec(vs) {
                Err(e) => Err(e),
                Ok(bs) => Ok(bs),
            }
        },
        Some(_) => Err(DecodeError::TypeMismatch),
    }
}

/// The keys some modeled field or cluster of the post envelope reads;
/// every other key is preserved in the overflow bag.
pub open spec fn npf_modeled_keys() -> Seq<Seq<char>> {
    seq![
        "blog_name"@,
        "id"@,
        "id_string"@,
        "genesis_post_id"@,
        "post_url"@,
        "type"@,
        "timestamp"@,
        "date"@,
        "reblog_key"@,
        "tags"@,
        "source_url"@,
        "source_title"@,
        "liked"@,
        "state"@,
        "is_blocks_post_format"@,
        "original_type"@,
        "blog"@,
        "is_blazed"@,
        "is_blaze_pending"@,
        "can_ignite"@,
        "can_blaze"@,
        "slug"@,
        "short_url"@,
        "summary"@,
        "should_open_in_legacy"@,
        "recommended_source"@,
        "recommended_color"@,
        "followed"@,
        "note_count"@,
        "content"@,
        "layout"@,
        "trail"@,
        "can_like"@,
        "interactability_reblog"@,
        "can_reblog"@,
        "can_send_in_message"@,
        "can_reply"@,
        "display_avatar"@,
        "is_pinned"@,
        "asking_name"@,
        "asking_url"@,
        "asking_avatar"@,
        "is_submission"@,
        "post_author"@,
        "post_author_is_adult"@,
        "anonymous_name"@,
        "anonymous_email"@,
    ]
}

/// The pairs of an object whose keys none of the given names claim, in
/// their original order.
pub open spec fn overflow_of(
    es: Seq<(Seq<char>, JsonV)>,
    names: Seq<Seq<char>>,
) -> Seq<(Seq<char>, JsonV)>
    decreases es.len(),
{
    if es.len() == 0 {
        Seq::empty()
    } else {
        let pre = overflow_of(es.drop_last(), names);
        if names.contains(es.last().0) {
            pre
        } else {
            pre.push(es.last())
        }
    }
}

/// Collects every pair of an object that none of the given names claim.
fn collect_overflow<const N: usize>(entries: &Vec<(String, Json)>, allowed: &[&str; N]) -> (r:
    Vec<(String, Json)>)
    ensures
        r.deep_view() == overflow_of(entries_view(entries@), allowed.deep_view()),
{
    let ghost es = entries_view(entries@);
    let ghost names = allowed.deep_view();
    let mut out: Vec<(String, Json)> = Vec::new();
    proof {
        assert(es.take(0) =~= Seq::<(Seq<char>, JsonV)>::empty());
        assert(out.deep_view() =~= Seq::<(Seq<char>, JsonV)>::empty());
    }
    let mut i: usize = 0;
    while i < entries.len()
        invariant
            i <= entries.len(),
            es == entries_view(entries@),
            names == allowed.deep_view(),
            out.deep_view() == overflow_of(es.take(i as int), names),
        decreases entries.len() - i,
    {
        proof {
            assert(es.take(i + 1).drop_last() =~= es.take(i as int));
            assert(es.take(i + 1).last() == es[i as int]);
        }
        if !key_in(&entries[i].0, allowed) {
            let k = entries[i].0.clone();
            let v = entries[i].1.duplicate();
            let ghost old_out = out.deep_view();
            out.push((k, v));
            proof {
                assert(out.deep_view() =~= old_out.push(es[i as int]));
            }
        }
        i = i + 1;
    }
    proof {
        assert(es.take(entries@.len() as int) =~= es);
    }
    out
}

/// A whole post record: one flat object holding the modeled fields, the
/// flattened clusters, and an overflow bag with every key the model does
/// not recognize, so that nothing on the wire is silently dropped.
#[derive(Debug, PartialEq, Eq)]
pub struct NPFPost {
    pub blog_name: String,
    pub id: i64,
    pub genesis_post_id: Option<String>,
    pub post_url: String,
    /// The post's kind; its wire key is `type`.
    pub post_type: String,
    pub timestamp: i64,
    pub date: String,
    pub reblog_key: String,
    pub tags: Vec<String>,
    pub source: Option<SourceInfo>,
    pub liked: bool,
    pub state: PostState,
    pub is_blocks_post_format: bool,
    pub original_type: String,
    pub blog: Blog,
    pub blaze_info: BlazeInfo,
    pub slug: String,
    pub short_url: String,
    pub summary: String,
    pub should_open_in_legacy: bool,
    pub recommended_source: Json,
    pub recommended_color: Json,
    pub followed: bool,
    pub note_count: i32,
    pub content: Vec<ContentBlock>,
    pub layout: Vec<Json>,
    pub trail: Vec<Json>,
    pub interactability: InteractabilityInfo,
    pub display_avatar: bool,
    pub is_pinned: Option<bool>,
    pub ask_info: Option<AskInfo>,
    pub submission_info: Option<SubmissionInfo>,
    pub other_fields: Vec<(String, Json)>,
}

pub struct NPFPostV {
    pub blog_name: Seq<char>,
    pub id: i64,
    pub genesis_post_id: Option<Seq<char>>,
    pub post_url: Seq<char>,
    pub post_type: Seq<char>,
    pub timestamp: i64,
    pub date: Seq<char>,
    pub reblog_key: Seq<char>,
    pub tags: Seq<Seq<char>>,
    pub source: Option<SourceInfoV>,
    pub liked: bool,
    pub state: PostState,
    pub is_blocks_post_format: bool,
    pub original_type: Seq<char>,
    pub blog: BlogV,
    pub blaze_info: BlazeInfoV,
    pub slug: Seq<char>,
    pub short_url: Seq<char>,
    pub summary: Seq<char>,
    pub should_open_in_legacy: bool,
    pub recommended_source: JsonV,
    pub recommended_color: JsonV,
    pub followed: bool,
    pub note_count: i32,
    pub content: Seq<ContentBlockV>,
    pub layout: Seq<JsonV>,
    pub trail: Seq<JsonV>,
    pub interactability: InteractabilityInfoV,
    pub display_avatar: bool,
    pub is_pinned: Option<bool>,
    pub ask_info: Option<AskInfoV>,
    pub submission_info: Option<SubmissionInfoV>,
    pub other_fields: Seq<(Seq<char>, JsonV)>,
}

impl DeepView for NPFPost {
    type V = NPFPostV;

    open spec fn deep_view(&self) -> NPFPostV {
        NPFPostV {
            blog_name: self.blog_name.deep_view(),
            id: self.id,
            genesis_post_id: self.genesis_post_id.deep_view(),
            post_url: self.post_url.deep_view(),
            post_type: self.post_type.deep_view(),
            timestamp: self.timestamp,
            date: self.date.deep_view(),
            reblog_key: self.reblog_key.deep_view(),
            tags: self.tags.deep_view(),
            source: self.source.deep_view(),
            liked: self.liked,
            state: self.state,
            is_blocks_post_format: self.is_blocks_post_format,
            original_type: self.original_type.deep_view(),
            blog: self.blog.deep_view(),
            blaze_info: self.blaze_info.deep_view(),
            slug: self.slug.deep_view(),
            short_url: self.short_url.deep_view(),
            summary: self.summary.deep_view(),
            should_open_in_legacy: self.should_open_in_legacy,
            recommended_source: self.recommended_source.deep_view(),
            recommended_color: self.recommended_color.deep_view(),
            followed: self.followed,
            note_count: self.note_count,
            content: self.content.deep_view(),
            layout: self.layout.deep_view(),
            trail: self.trail.deep_view(),
            interactability: self.interactability.deep_view(),
            display_avatar: self.display_avatar,
            is_pinned: self.is_pinned,
            ask_info: self.ask_info.deep_view(),
            submission_info: self.submission_info.deep_view(),
            other_fields: self.other_fields.deep_view(),
        }
    }
}

/// The required blog entity of the envelope.
pub open spec fn f_blog(es: Seq<(Seq<char>, JsonV)>, key: Seq<char>) -> Result<
    BlogV,
    DecodeError,
> {
    match obj_get_v(es, key) {
        None => Err(DecodeError::MissingField),
        Some(bj) => blog_dec(bj),
    }
}

/// The required post state of the envelope.
pub open spec fn f_state(es: Seq<(Seq<char>, JsonV)>, key: Seq<char>) -> Result<
    PostState,
    DecodeError,
> {
    match f_str(es, key) {
        Err(e) => Err(e),
        Ok(s) => match post_state_dec(s) {
            None => Err(DecodeError::UnknownVariant),
            Some(st) => Ok(st),
        },
    }
}

/// Decodes a whole post record out of its flat object: the modeled
/// fields, each cluster by its own presence rule, and every unrecognized
/// key preserved in the overflow bag.
pub open spec fn npf_post_dec(es: Seq<(Seq<char>, JsonV)>) -> Result<NPFPostV, DecodeError> {
    match f_str(es, "blog_name"@) {
        Err(e) => Err(e),
        Ok(blog_name) => match post_id_dec(es) {
            Err(e) => Err(e),
            Ok(id) => match f_str_opt(es, "genesis_post_id"@) {
                Err(e) => Err(e),
                Ok(genesis_post_id) => match f_str(es, "post_url"@) {
                    Err(e) => Err(e),
                    Ok(post_url) => match f_str(es, "type"@) {
                        Err(e) => Err(e),
                        Ok(post_type) => match f_i64(es, "timestamp"@) {
                            Err(e) => Err(e),
                            Ok(timestamp) => match f_str(es, "date"@) {
                                Err(e) => Err(e),
                                Ok(date) => match f_str(es, "reblog_key"@) {
                                    Err(e) => Err(e),
                                    Ok(reblog_key) => match f_str_list(es, "tags"@) {
                                        Err(e) => Err(e),
                                        Ok(tags) => match source_info_dec(es) {
                                            Err(e) => Err(e),
                                            Ok(source) => match f_bool(es, "liked"@) {
                                                Err(e) => Err(e),
                                                Ok(liked) => match f_state(es, "state"@) {
                                                    Err(e) => Err(e),
                                                    Ok(state) => match f_bool(
                                                        es,
                                                        "is_blocks_post_format"@,
                                                    ) {
                                                        Err(e) => Err(e),
                                                        Ok(is_blocks_post_format) => match f_str(
                                                            es,
                                                            "original_type"@,
                                                        ) {
                                                            Err(e) => Err(e),
                                                            Ok(original_type) => npf_post_dec_rest(
                                                                es,
                                                                blog_name,
                                                                id,
                                                                genesis_post_id,
                                                                post_url,
                                                                post_type,
                                                                timestamp,
                                                                date,
                                                                reblog_key,
                                                                tags,
                                                                source,
                                                                liked,
                                                                state,
                                                                is_blocks_post_format,
                                                                original_type,
                                                            ),
                                                        },
                                                    },
                                                },
                                            },
                                        },
                                    },
                                },
                            },
                        },
                    },
                },
            },
        },
    }
}

/// The second half of the record: the blog entity onward.
pub open spec fn npf_post_dec_rest(
    es: Seq<(Seq<char>, JsonV)>,
    blog_name: Seq<char>,
    id: i64,
    genesis_post_id: Option<Seq<char>>,
    post_url: Seq<char>,
    post_type: Seq<char>,
    timestamp: i64,
    date: Seq<char>,
    reblog_key: Seq<char>,
    tags: Seq<Seq<char>>,
    source: Option<SourceInfoV>,
    liked: bool,
    state: PostState,
    is_blocks_post_format: bool,
    original_type: Seq<char>,
) -> Result<NPFPostV, DecodeError> {
    match f_blog(es, "blog"@) {
        Err(e) => Err(e),
        Ok(blog) => match blaze_info_dec(es) {
            Err(e) => Err(e),
            Ok(blaze_info) => match f_str(es, "slug"@) {
                Err(e) => Err(e),
                Ok(slug) => match f_str(es, "short_url"@) {
                    Err(e) => Err(e),
                    Ok(short_url) => match f_str(es, "summary"@) {
                        Err(e) => Err(e),
                        Ok(summary) => match f_bool(es, "should_open_in_legacy"@) {
                            Err(e) => Err(e),
                            Ok(should_open_in_legacy) => match f_raw(
                                es,
                                "recommended_source"@,
                            ) {
                                Err(e) => Err(e),
                                Ok(recommended_source) => match f_raw(
                                    es,
                                    "recommended_color"@,
                                ) {
                                    Err(e) => Err(e),
                                    Ok(recommended_color) => match f_bool(es, "followed"@) {
                                        Err(e) => Err(e),
                                        Ok(followed) => match f_i32(es, "note_count"@) {
                                            Err(e) => Err(e),
                                            Ok(note_count) => match f_content(es, "content"@) {
                                                Err(e) => Err(e),
                                                Ok(content) => match f_raw_list(es, "layout"@) {
                                                    Err(e) => Err(e),
                                                    Ok(layout) => match f_raw_list(
                                                        es,
                                                        "trail"@,
                                                    ) {
                                                        Err(e) => Err(e),
                                                        Ok(trail) => match interactability_info_dec(
                                                            es,
                                                        ) {
                                                            Err(e) => Err(e),
                                                            Ok(interactability) => match f_bool(
                                                                es,
                                                                "display_avatar"@,
                                                            ) {
                                                                Err(e) => Err(e),
                                                                Ok(display_avatar) => match f_bool_opt(
                                                                    es,
                                                                    "is_pinned"@,
                                                                ) {
                                                                    Err(e) => Err(e),
                                                                    Ok(is_pinned) => match ask_info_dec(
                                                                        es,
                                                                    ) {
                                                                        Err(e) => Err(e),
                                                                        Ok(ask_info) => match submission_info_dec(
                                                                            es,
                                                                        ) {
                                                                            Err(e) => Err(e),
                                                                            Ok(submission_info) => Ok(
                                                                                NPFPostV {
                                                                                    blog_name,
                                                                                    id,
                                                                                    genesis_post_id,
                                                                                    post_url,
                                                                                    post_type,
                                                                                    timestamp,
                                                                                    date,
                                                                                    reblog_key,
                                                                                    tags,
                                                                                    source,
                                                                                    liked,
                                                                                    state,
                                                                                    is_blocks_post_format,
                                                                                    original_type,
                                                                                    blog,
                                                                                    blaze_info,
                                                                                    slug,
                                                                                    short_url,
                                                                                    summary,
                                                                                    should_open_in_legacy,
                                                                                    recommended_source,
                                                                                    recommended_color,
                                                                                    followed,
                                                                                    note_count,
                                                                                    content,
                                                                                    layout,
                                                                                    trail,
                                                                                    interactability,
                                                                                    display_avatar,
                                                                                    is_pinned,
                                                                                    ask_info,
                                                                                    submission_info,
                                                                                    other_fields: overflow_of(
                                                                                        es,
                                                                                        npf_modeled_keys(),
                                                                                    ),
                                                                                },
                                                                            ),
                                                                        },
                                                                    },
                                                                },
                                                            },
                                                        },
                                                    },
                                                },
                                            },
                                        },
                                    },
                                },
                            },
                        },
                    },
                },
            },
        },
    }
}

impl NPFPost {
    /// Decodes a whole post record; every key no modeled field reads
    /// lands in the overflow bag.
    #[verifier::rlimit(100)]
    #[verifier::spinoff_prover]
    pub fn decode(j: &Json) -> (r: Result<NPFPost, DecodeError>)
        ensures
            match j@ {
                JsonV::Obj(es) => dres(r) == npf_post_dec(es),
                _ => r == Err::<NPFPost, DecodeError>(DecodeError::TypeMismatch),
            },
    {
        match j {
            Json::Obj(entries) => {
                proof {
                    lemma_obj_view(*entries);
                }
                let blog_name = match get_str(entries, "blog_name") {
                    Err(e) => { return Err(e); },
                    Ok(s) => s,
                };
                let id = match get_post_id(entries) {
                    Err(e) => { return Err(e); },
                    Ok(x) => x,
                };
                let genesis_post_id = match get_str_opt(entries, "genesis_post_id") {
                    Err(e) => { return Err(e); },
                    Ok(x) => x,
                };
                let post_url = match get_str(entries, "post_url") {
                    Err(e) => { return Err(e); },
                    Ok(s) => s,
                };
                let post_type = match get_str(entries, "type") {
                    Err(e) => { return Err(e); },
                    Ok(s) => s,
                };
                let timestamp = match get_i64(entries, "timestamp") {
                    Err(e) => { return Err(e); },
                    Ok(x) => x,
                };
                let date = match get_str(entries, "date") {
                    Err(e) => { return Err(e); },
                    Ok(s) => s,
                };
                let reblog_key = match get_str(entries, "reblog_key") {
                    Err(e) => { return Err(e); },
                    Ok(s) => s,
                };
                let tags = match get_str_list(entries, "tags") {
                    Err(e) => { return Err(e); },
                    Ok(x) => x,
                };
                let source = match get_source_info(entries) {
                    Err(e) => { return Err(e); },
                    Ok(x) => x,
                };
                let liked = match get_bool(entries, "liked") {
                    Err(e) => { return Err(e); },
                    Ok(x) => x,
                };
                let state = match get_str(entries, "state") {
                    Err(e) => { return Err(e); },
                    Ok(s) => match PostState::from_wire(s.as_str()) {
                        None => { return Err(DecodeError::UnknownVariant); },
                        Some(st) => st,
                    },
                };
                let is_blocks_post_format = match get_bool(entries, "is_blocks_post_format") {
                    Err(e) => { return Err(e); },
                    Ok(x) => x,
                };
                let original_type = match get_str(entries, "original_type") {
                    Err(e) => { return Err(e); },
                    Ok(s) => s,
                };
                let blog = match obj_get(entries, "blog") {
                    None => { return Err(DecodeError::MissingField); },
                    Some(bj) => match Blog::decode(bj) {
                        Err(e) => { return Err(e); },
                        Ok(b) => b,
                    },
                };
                let blaze_info = match get_blaze_info(entries) {
                    Err(e) => { return Err(e); },
                    Ok(x) => x,
                };
                let slug = match get_str(entries, "slug") {
                    Err(e) => { return Err(e); },
                    Ok(s) => s,
                };
                let short_url = match get_str(entries, "short_url") {
                    Err(e) => { return Err(e); },
                    Ok(s) => s,
                };
                let summary = match get_str(entries, "summary") {
                    Err(e) => { return Err(e); },
                    Ok(s) => s,
                };
                let should_open_in_legacy = match get_bool(entries, "should_open_in_legacy") {
                    Err(e) => { return Err(e); },
                    Ok(x) => x,
                };
                let recommended_source = match get_raw(entries, "recommended_source") {
                    Err(e) => { return Err(e); },
                    Ok(x) => x,
                };
                let recommended_color = match get_raw(entries, "recommended_color") {
                    Err(e) => { return Err(e); },
                    Ok(x) => x,
                };
                let followed = match get_bool(entries, "followed") {
                    Err(e) => { return Err(e); },
                    Ok(x) => x,
                };
                let note_count = match get_i32(entries, "note_count") {
                    Err(e) => { return Err(e); },
                    Ok(x) => x,
                };
                let content = match get_content(entries, "content") {
                    Err(e) => { return Err(e); },
                    Ok(x) => x,
                };
                let layout = match get_raw_list(entries, "layout") {
                    Err(e) => { return Err(e); },
                    Ok(x) => x,
                };
                let trail = match get_raw_list(entries, "trail") {
                    Err(e) => { return Err(e); },
                    Ok(x) => x,
                };
                let interactability = match get_interactability_info(entries) {
                    Err(e) => { return Err(e); },
                    Ok(x) => x,
                };
                let display_avatar = match get_bool(entries, "display_avatar") {
                    Err(e) => { return Err(e); },
                    Ok(x) => x,
                };
                let is_pinned = match get_bool_opt(entries, "is_pinned") {
                    Err(e) => { return Err(e); },
                    Ok(x) => x,
                };
                let ask_info = match get_ask_info(entries) {
                    Err(e) => { return Err(e); },
                    Ok(x) => x,
                };
                let submission_info = match get_submission_info(entries) {
                    Err(e) => { return Err(e); },
                    Ok(x) => x,
                };
                let modeled: [&str; 47] = [
                    "blog_name",
                    "id",
                    "id_string",
                    "genesis_post_id",
                    "post_url",
                    "type",
                    "timestamp",
                    "date",
                    "reblog_key",
                    "tags",
                    "source_url",
                    "source_title",
                    "liked",
                    "state",
                    "is_blocks_post_format",
                    "original_type",
                    "blog",
                    "is_blazed",
                    "is_blaze_pending",
                    "can_ignite",
                    "can_blaze",
                    "slug",
                    "short_url",
                    "summary",
                    "should_open_in_legacy",
                    "recommended_source",
                    "recommended_color",
                    "followed",
                    "note_count",
                    "content",
                    "layout",
                    "trail",
                    "can_like",
                    "interactability_reblog",
                    "can_reblog",
                    "can_send_in_message",
                    "can_reply",
                    "display_avatar",
                    "is_pinned",
                    "asking_name",
                    "asking_url",
                    "asking_avatar",
                    "is_submission",
                    "post_author",
                    "post_author_is_adult",
                    "anonymous_name",
                    "anonymous_email",
                ];
                proof {
                    assert(modeled.deep_view() =~= npf_modeled_keys());
                }
                let other_fields = collect_overflow(entries, &modeled);
                Ok(
                    NPFPost {
                        blog_name,
                        id,
                        genesis_post_id,
                        post_url,
                        post_type,
                        timestamp,
                        date,
                        reblog_key,
                        tags,
                        source,
                        liked,
                        state,
                        is_blocks_post_format,
                        original_type,
                        blog,
                        blaze_info,
                        slug,
                        short_url,
                        summary,
                        should_open_in_legacy,
                        recommended_source,
                        recommended_color,
                        followed,
                        note_count,
                        content,
                        layout,
                        trail,
                        interactability,
                        display_avatar,
                        is_pinned,
                        ask_info,
                        submission_info,
                        other_fields,
                    },
                )
            },
            _ => Err(DecodeError::TypeMismatch),
        }
    }
}

/// The entries the source cluster contributes when present.
pub open spec fn source_info_entries(o: Option<SourceInfoV>) -> Seq<(Seq<char>, JsonV)> {
    match o {
        None => seq![],
        Some(v) => seq![
            ("source_url"@, JsonV::Str(v.source_url)),
            ("source_title"@, JsonV::Str(v.source_title)),
        ],
    }
}

/// The entries the ask cluster contributes when present.
pub open spec fn ask_info_entries(o: Option<AskInfoV>) -> Seq<(Seq<char>, JsonV)> {
    match o {
        None => seq![],
        Some(v) => seq![
            ("asking_name"@, JsonV::Str(v.asking_name)),
            ("asking_url"@, JsonV::Str(v.asking_url)),
            ("asking_avatar"@, JsonV::Arr(crate::npf::media_list_enc(v.asking_avatar))),
        ],
    }
}

/// The identity fields of an encoded post record.
pub open spec fn npf_ident_entries(v: NPFPostV) -> Seq<(Seq<char>, JsonV)> {
    opt_entry("blog_name"@, Some(JsonV::Str(v.blog_name))) + post_id_entries(v.id) + opt_entry(
        "genesis_post_id"@,
        ostr(v.genesis_post_id),
    ) + opt_entry("post_url"@, Some(JsonV::Str(v.post_url))) + opt_entry(
        "type"@,
        Some(JsonV::Str(v.post_type)),
    ) + opt_entry("timestamp"@, Some(JsonV::I64(v.timestamp))) + opt_entry(
        "date"@,
        Some(JsonV::Str(v.date)),
    ) + opt_entry("reblog_key"@, Some(JsonV::Str(v.reblog_key))) + opt_entry(
        "tags"@,
        Some(JsonV::Arr(str_list_enc(v.tags))),
    )
}

/// The provenance fields: the state, the blog, and the promotion flags.
pub open spec fn npf_prov_entries(v: NPFPostV) -> Seq<(Seq<char>, JsonV)> {
    opt_entry("liked"@, Some(JsonV::Bool(v.liked)))
        + opt_entry("state"@, Some(JsonV::Str(post_state_wire(v.state)))) + opt_entry(
        "is_blocks_post_format"@,
        Some(JsonV::Bool(v.is_blocks_post_format)),
    ) + opt_entry("original_type"@, Some(JsonV::Str(v.original_type))) + opt_entry(
        "blog"@,
        Some(blog_enc(v.blog)),
    ) + opt_entry("is_blazed"@, Some(JsonV::Bool(v.blaze_info.is_blazed))) + opt_entry(
        "is_blaze_pending"@,
        Some(JsonV::Bool(v.blaze_info.is_blaze_pending)),
    ) + opt_entry("can_ignite"@, Some(JsonV::Bool(v.blaze_info.can_ignite))) + opt_entry(
        "can_blaze"@,
        Some(JsonV::Bool(v.blaze_info.can_blaze)),
    )
}

/// The presentation fields of an encoded post record.
pub open spec fn npf_pres_entries(v: NPFPostV) -> Seq<(Seq<char>, JsonV)> {
    opt_entry("slug"@, Some(JsonV::Str(v.slug))) + opt_entry(
        "short_url"@,
        Some(JsonV::Str(v.short_url)),
    ) + opt_entry("summary"@, Some(JsonV::Str(v.summary))) + opt_entry(
        "should_open_in_legacy"@,
        Some(JsonV::Bool(v.should_open_in_legacy)),
    ) + opt_entry("recommended_source"@, Some(v.recommended_source)) + opt_entry(
        "recommended_color"@,
        Some(v.recommended_color),
    ) + opt_entry("followed"@, Some(JsonV::Bool(v.followed))) + opt_entry(
        "note_count"@,
        Some(JsonV::I64(v.note_count as i64)),
    )
}

/// The interactability fields of an encoded post record.
pub open spec fn npf_inter_entries(v: NPFPostV) -> Seq<(Seq<char>, JsonV)> {
    opt_entry("can_like"@, Some(JsonV::Bool(v.interactability.can_like))) + opt_entry(
        "interactability_reblog"@,
        Some(JsonV::Str(reblog_interactability_wire(v.interactability.interactability_reblog))),
    ) + opt_entry("can_reblog"@, Some(JsonV::Bool(v.interactability.can_reblog))) + opt_entry(
        "can_send_in_message"@,
        Some(JsonV::Bool(v.interactability.can_send_in_message)),
    ) + opt_entry("can_reply"@, Some(JsonV::Bool(v.interactability.can_reply))) + opt_entry(
        "display_avatar"@,
        Some(JsonV::Bool(v.display_avatar)),
    ) + opt_entry("is_pinned"@, obool(v.is_pinned))
}

/// Every entry of an encoded post record: the modeled fields and clusters
/// in a fixed order, then the overflow bag as it stands.
pub open spec fn npf_post_entries(v: NPFPostV) -> Seq<(Seq<char>, JsonV)> {
    npf_ident_entries(v) + source_info_entries(v.source) + npf_prov_entries(v)
        + npf_pres_entries(v) + opt_entry(
        "content"@,
        Some(JsonV::Arr(list_enc(v.content, content_enc_fn()))),
    ) + opt_entry("layout"@, Some(JsonV::Arr(v.layout))) + opt_entry(
        "trail"@,
        Some(JsonV::Arr(v.trail)),
    ) + npf_inter_entries(v) + ask_info_entries(v.ask_info) + submission_info_entries(
        v.submission_info,
    ) + v.other_fields
}

/// Whether a post record can be encoded: no overflow key may collide with
/// a modeled one, and every block must be within its length ceilings.
pub open spec fn npf_post_enc_ok(v: NPFPostV) -> bool {
    &&& forall|i: int| 0 <= i < v.other_fields.len() ==> !npf_modeled_keys().contains(
        (#[trigger] v.other_fields[i]).0,
    )
    &&& forall|i: int| 0 <= i < v.content.len() ==> content_block_enc_ok(
        #[trigger] v.content[i],
    )
}

impl NPFPost {
    #[verifier::rlimit(60)]
    fn push_ident(&self, b: &mut ObjBuilder)
        ensures
            final(b).entries_v() == old(b).entries_v() + npf_ident_entries(self.deep_view()),
    {
        let ghost v = self.deep_view();
        let ghost start = b.entries_v();
        b.push_opt("blog_name", Some(Json::Str(self.blog_name.clone())));
        push_post_id(b, self.id);
        b.push_opt(
            "genesis_post_id",
            match &self.genesis_post_id {
                Some(s) => Some(Json::Str(s.clone())),
                None => None,
            },
        );
        b.push_opt("post_url", Some(Json::Str(self.post_url.clone())));
        b.push_opt("type", Some(Json::Str(self.post_type.clone())));
        b.push_opt("timestamp", Some(Json::I64(self.timestamp)));
        b.push_opt("date", Some(Json::Str(self.date.clone())));
        b.push_opt("reblog_key", Some(Json::Str(self.reblog_key.clone())));
        b.push_opt("tags", Some(encode_str_vec(&self.tags)));
        proof {
            assert(b.entries_v() =~= start + npf_ident_entries(v));
        }
    }

    fn push_source(&self, b: &mut ObjBuilder)
        ensures
            final(b).entries_v() == old(b).entries_v() + source_info_entries(
                self.deep_view().source,
            ),
    {
        let ghost v = self.deep_view();
        let ghost start = b.entries_v();
        match &self.source {
            Some(src) => {
                b.push_opt("source_url", Some(Json::Str(src.source_url.clone())));
                b.push_opt("source_title", Some(Json::Str(src.source_title.clone())));
            },
            None => {},
        }
        proof {
            assert(b.entries_v() =~= start + source_info_entries(v.source));
        }
    }

    #[verifier::rlimit(100)]
    #[verifier::spinoff_prover]
    fn push_prov(&self, b: &mut ObjBuilder)
        ensures
            final(b).entries_v() == old(b).entries_v() + npf_prov_entries(self.deep_view()),
    {
        let ghost v = self.deep_view();
        let ghost start = b.entries_v();
        b.push_opt("liked", Some(Json::Bool(self.liked)));
        b.push_opt("state", Some(Json::Str(self.state.wire_name().to_owned())));
        b.push_opt("is_blocks_post_format", Some(Json::Bool(self.is_blocks_post_format)));
        b.push_opt("original_type", Some(Json::Str(self.original_type.clone())));
        b.push_opt("blog", Some(self.blog.encode()));
        b.push_opt("is_blazed", Some(Json::Bool(self.blaze_info.is_blazed)));
        b.push_opt("is_blaze_pending", Some(Json::Bool(self.blaze_info.is_blaze_pending)));
        b.push_opt("can_ignite", Some(Json::Bool(self.blaze_info.can_ignite)));
        b.push_opt("can_blaze", Some(Json::Bool(self.blaze_info.can_blaze)));
        proof {
            assert(b.entries_v() =~= start + npf_prov_entries(v));
        }
    }

    #[verifier::rlimit(60)]
    fn push_pres(&self, b: &mut ObjBuilder)
        ensures
            final(b).entries_v() == old(b).entries_v() + npf_pres_entries(self.deep_view()),
    {
        let ghost v = self.deep_view();
        let ghost start = b.entries_v();
        b.push_opt("slug", Some(Json::Str(self.slug.clone())));
        b.push_opt("short_url", Some(Json::Str(self.short_url.clone())));
        b.push_opt("summary", Some(Json::Str(self.summary.clone())));
        b.push_opt("should_open_in_legacy", Some(Json::Bool(self.should_open_in_legacy)));
        b.push_opt("recommended_source", Some(self.recommended_source.duplicate()));
        b.push_opt("recommended_color", Some(self.recommended_color.duplicate()));
        b.push_opt("followed", Some(Json::Bool(self.followed)));
        b.push_opt("note_count", Some(Json::I64(self.note_count as i64)));
        proof {
            assert(b.entries_v() =~= start + npf_pres_entries(v));
        }
    }

    #[verifier::rlimit(60)]
    fn push_inter(&self, b: &mut ObjBuilder)
        ensures
            final(b).entries_v() == old(b).entries_v() + npf_inter_entries(self.deep_view()),
    {
        let ghost v = self.deep_view();
        let ghost start = b.entries_v();
        b.push_opt("can_like", Some(Json::Bool(self.interactability.can_like)));
        b.push_opt(
            "interactability_reblog",
            Some(Json::Str(self.interactability.interactability_reblog.wire_name().to_owned())),
        );
        b.push_opt("can_reblog", Some(Json::Bool(self.interactability.can_reblog)));
        b.push_opt(
            "can_send_in_message",
            Some(Json::Bool(self.interactability.can_send_in_message)),
        );
        b.push_opt("can_reply", Some(Json::Bool(self.interactability.can_reply)));
        b.push_opt("display_avatar", Some(Json::Bool(self.display_avatar)));
        b.push_opt(
            "is_pinned",
            match &self.is_pinned {
                Some(x) => Some(Json::Bool(*x)),
                None => None,
            },
        );
        proof {
            assert(b.entries_v() =~= start + npf_inter_entries(v));
        }
    }

    fn push_ask(&self, b: &mut ObjBuilder)
        ensures
            final(b).entries_v() == old(b).entries_v() + ask_info_entries(
                self.deep_view().ask_info,
            ),
    {
        let ghost v = self.deep_view();
        let ghost start = b.entries_v();
        match &self.ask_info {
            Some(ask) => {
                b.push_opt("asking_name", Some(Json::Str(ask.asking_name.clone())));
                b.push_opt("asking_url", Some(Json::Str(ask.asking_url.clone())));
                let avatar = crate::npf::encode_media_vec(&ask.asking_avatar);
                b.push_opt("asking_avatar", Some(avatar));
            },
            None => {},
        }
        proof {
            assert(b.entries_v() =~= start + ask_info_entries(v.ask_info));
        }
    }

    /// Encodes a whole post record back into one flat object, re-flattening
    /// every present cluster and appending the overflow bag. Refused when
    /// an overflow key collides with a modeled field, or a block exceeds a
    /// length ceiling.
    #[verifier::rlimit(100)]
    #[verifier::spinoff_prover]
    pub fn encode(&self) -> (r: Result<Json, EncodeError>)
        ensures
            r is Ok <==> npf_post_enc_ok(self.deep_view()),
            r matches Ok(out) ==> out@ == JsonV::Obj(npf_post_entries(self.deep_view())),
    {
        let ghost v = self.deep_view();
        let modeled: [&str; 47] = [
            "blog_name",
            "id",
            "id_string",
            "genesis_post_id",
            "post_url",
            "type",
            "timestamp",
            "date",
            "reblog_key",
            "tags",
            "source_url",
            "source_title",
            "liked",
            "state",
            "is_blocks_post_format",
            "original_type",
            "blog",
            "is_blazed",
            "is_blaze_pending",
            "can_ignite",
            "can_blaze",
            "slug",
            "short_url",
            "summary",
            "should_open_in_legacy",
            "recommended_source",
            "recommended_color",
            "followed",
            "note_count",
            "content",
            "layout",
            "trail",
            "can_like",
            "interactability_reblog",
            "can_reblog",
            "can_send_in_message",
            "can_reply",
            "display_avatar",
            "is_pinned",
            "asking_name",
            "asking_url",
            "asking_avatar",
            "is_submission",
            "post_author",
            "post_author_is_adult",
            "anonymous_name",
            "anonymous_email",
        ];
        proof {
            assert(modeled.deep_view() =~= npf_modeled_keys());
        }
        let mut i: usize = 0;
        while i < self.other_fields.len()
            invariant
                i <= self.other_fields@.len(),
                v == self.deep_view(),
                v.other_fields == self.other_fields.deep_view(),
                modeled.deep_view() == npf_modeled_keys(),
                forall|k: int| 0 <= k < i ==> !npf_modeled_keys().contains(
                    (#[trigger] v.other_fields[k]).0,
                ),
            decreases self.other_fields@.len() - i,
        {
            if key_in(&self.other_fields[i].0, &modeled) {
                proof {
                    assert(npf_modeled_keys().contains(v.other_fields[i as int].0));
                }
                return Err(EncodeError::KeyCollision);
            }
            i = i + 1;
        }
        let mut blocks: Vec<Json> = Vec::new();
        let mut j: usize = 0;
        while j < self.content.len()
            invariant
                j <= self.content@.len(),
                v == self.deep_view(),
                v.content == self.content.deep_view(),
                blocks@.len() == j,
                forall|k: int| 0 <= k < j ==> content_block_enc_ok(#[trigger] v.content[k]),
                forall|k: int| 0 <= k < j ==> (#[trigger] blocks@[k])@ == content_block_enc(
                    v.content[k],
                ),
            decreases self.content@.len() - j,
        {
            match self.content[j].encode() {
                Ok(bj) => {
                    blocks.push(bj);
                },
                Err(e) => {
                    proof {
                        assert(!content_block_enc_ok(v.content[j as int]));
                    }
                    return Err(e);
                },
            }
            j = j + 1;
        }
        let mut b = ObjBuilder::new();
        self.push_ident(&mut b);
        proof {
            assert(Seq::empty() + npf_ident_entries(v) =~= npf_ident_entries(v));
        }
        self.push_source(&mut b);
        self.push_prov(&mut b);
        self.push_pres(&mut b);
        proof {
            lemma_arr_view(blocks);
            assert(elems_view(blocks@) =~= list_enc(v.content, content_enc_fn()));
        }
        b.push_opt("content", Some(Json::Arr(blocks)));
        let layout = duplicate_elems(&self.layout);
        proof {
            lemma_arr_view(layout);
            lemma_elems_deep(layout);
            lemma_elems_deep(self.layout);
            assert(elems_view(layout@) =~= v.layout);
        }
        b.push_opt("layout", Some(Json::Arr(layout)));
        let trail = duplicate_elems(&self.trail);
        proof {
            lemma_arr_view(trail);
            lemma_elems_deep(trail);
            lemma_elems_deep(self.trail);
            assert(elems_view(trail@) =~= v.trail);
        }
        b.push_opt("trail", Some(Json::Arr(trail)));
        self.push_inter(&mut b);
        self.push_ask(&mut b);
        push_submission_info(&mut b, &self.submission_info);
        let ghost before_overflow = b.entries_v();
        let mut m: usize = 0;
        while m < self.other_fields.len()
            invariant
                m <= self.other_fields@.len(),
                v == self.deep_view(),
                v.other_fields == self.other_fields.deep_view(),
                b.entries_v() == before_overflow + v.other_fields.take(m as int),
            decreases self.other_fields@.len() - m,
        {
            let dup = self.other_fields[m].1.duplicate();
            b.push(self.other_fields[m].0.as_str(), dup);
            proof {
                assert(b.entries_v() =~= before_overflow + v.other_fields.take(m + 1));
            }
            m = m + 1;
        }
        proof {
            assert(v.other_fields.take(self.other_fields@.len() as int) =~= v.other_fields);
        }
        Ok(b.finish())
    }
}

// ---------------------------------------------------------------------------
// The typed payloads of the endpoints this crate speaks to. Records whose
// wire shape is known to drift carry an overflow bag; the others ignore
// unknown keys, as their wire contracts do.
// ---------------------------------------------------------------------------
/// What creating a post answers: the new post's id, as a string for
/// narrow clients, plus whatever else the service adds.
#[derive(Debug, PartialEq, Eq)]
pub struct CreatePostResponse {
    pub id: String,
    pub other_fields: Vec<(String, Json)>,
}

pub struct CreatePostResponseV {
    pub id: Seq<char>,
    pub other_fields: Seq<(Seq<char>, JsonV)>,
}

impl DeepView for CreatePostResponse {
    type V = CreatePostResponseV;

    open spec fn deep_view(&self) -> CreatePostResponseV {
        CreatePostResponseV {
            id: self.id.deep_view(),
            other_fields: self.other_fields.deep_view(),
        }
    }
}

pub open spec fn create_post_response_dec(j: JsonV) -> Result<
    CreatePostResponseV,
    DecodeError,
> {
    match j {
        JsonV::Obj(es) => match f_str(es, "id"@) {
            Err(e) => Err(e),
            Ok(id) => Ok(
                CreatePostResponseV { id, other_fields: overflow_of(es, seq!["id"@]) },
            ),
        },
        _ => Err(DecodeError::TypeMismatch),
    }
}

impl CreatePostResponse {
    pub fn decode(j: &Json) -> (r: Result<CreatePostResponse, DecodeError>)
        ensures
            dres(r) == create_post_response_dec(j@),
    {
        match j {
            Json::Obj(entries) => {
                proof {
                    lemma_obj_view(*entries);
                }
                let id = match get_str(entries, "id") {
                    Err(e) => { return Err(e); },
                    Ok(s) => s,
                };
                let modeled: [&str; 1] = ["id"];
                proof {
                    assert(modeled.deep_view() =~= seq!["id"@]);
                }
                let other_fields = collect_overflow(entries, &modeled);
                Ok(CreatePostResponse { id, other_fields })
            },
            _ => Err(DecodeError::TypeMismatch),
        }
    }
}

/// One rate limit: what it allows, what is left, and when it resets
/// (seconds since the epoch). Unknown keys are ignored, as on the wire.
#[derive(Debug, PartialEq, Eq)]
pub struct LimitEntry {
    pub description: String,
    pub limit: i64,
    pub remaining: i64,
    pub reset_at: i64,
}

pub struct LimitEntryV {
    pub description: Seq<char>,
    pub limit: i64,
    pub remaining: i64,
    pub reset_at: i64,
}

impl DeepView for LimitEntry {
    type V = LimitEntryV;

    open spec fn deep_view(&self) -> LimitEntryV {
        LimitEntryV {
            description: self.description.deep_view(),
            limit: self.limit,
            remaining: self.remaining,
            reset_at: self.reset_at,
        }
    }
}

pub open spec fn limit_entry_dec(j: JsonV) -> Result<LimitEntryV, DecodeError> {
    match j {
        JsonV::Obj(es) => match f_str(es, "description"@) {
            Err(e) => Err(e),
            Ok(description) => match f_i64(es, "limit"@) {
                Err(e) => Err(e),
                Ok(limit) => match f_i64(es, "remaining"@) {
                    Err(e) => Err(e),
                    Ok(remaining) => match f_i64(es, "reset_at"@) {
                        Err(e) => Err(e),
                        Ok(reset_at) => Ok(
                            LimitEntryV { description, limit, remaining, reset_at },
                        ),
                    },
                },
            },
        },
        _ => Err(DecodeError::TypeMismatch),
    }
}

impl LimitEntry {
    pub fn decode(j: &Json) -> (r: Result<LimitEntry, DecodeError>)
        ensures
            dres(r) == limit_entry_dec(j@),
    {
        match j {
            Json::Obj(entries) => {
                proof {
                    lemma_obj_view(*entries);
                }
                let description = match get_str(entries, "description") {
                    Err(e) => { return Err(e); },
                    Ok(s) => s,
                };
                let limit = match get_i64(entries, "limit") {
                    Err(e) => { return Err(e); },
                    Ok(x) => x,
                };
                let remaining = match get_i64(entries, "remaining") {
                    Err(e) => { return Err(e); },
                    Ok(x) => x,
                };
                let reset_at = match get_i64(entries, "reset_at") {
                    Err(e) => { return Err(e); },
                    Ok(x) => x,
                };
                Ok(LimitEntry { description, limit, remaining, reset_at })
            },
            _ => Err(DecodeError::TypeMismatch),
        }
    }
}

/// The per-day limits of an account, one entry per limited action.
#[derive(Debug, PartialEq, Eq)]
pub struct UserLimits {
    pub blogs: LimitEntry,
    pub follows: LimitEntry,
    pub likes: LimitEntry,
    pub photos: LimitEntry,
    pub posts: LimitEntry,
    pub video_seconds: LimitEntry,
    pub videos: LimitEntry,
}

pub struct UserLimitsV {
    pub blogs: LimitEntryV,
    pub follows: LimitEntryV,
    pub likes: LimitEntryV,
    pub photos: LimitEntryV,
    pub posts: LimitEntryV,
    pub video_seconds: LimitEntryV,
    pub videos: LimitEntryV,
}

impl DeepView for UserLimits {
    type V = UserLimitsV;

    open spec fn deep_view(&self) -> UserLimitsV {
        UserLimitsV {
            blogs: self.blogs.deep_view(),
            follows: self.follows.deep_view(),
            likes: self.likes.deep_view(),
            photos: self.photos.deep_view(),
            posts: self.posts.deep_view(),
            video_seconds: self.video_seconds.deep_view(),
            videos: self.videos.deep_view(),
        }
    }
}

/// A required limit entry.
pub open spec fn f_limit(es: Seq<(Seq<char>, JsonV)>, key: Seq<char>) -> Result<
    LimitEntryV,
    DecodeError,
> {
    match obj_get_v(es, key) {
        None => Err(DecodeError::MissingField),
        Some(lj) => limit_entry_dec(lj),
    }
}

/// Reads a required limit entry.
fn get_limit(entries: &Vec<(String, Json)>, key: &str) -> (r: Result<LimitEntry, DecodeError>)
    ensures
        dres(r) == f_limit(entries_view(entries@), key@),
{
    match obj_get(entries, key) {
        None => Err(DecodeError::MissingField),
        Some(lj) => LimitEntry::decode(lj),
    }
}

pub open spec fn user_limits_dec(j: JsonV) -> Result<UserLimitsV, DecodeError> {
    match j {
        JsonV::Obj(es) => match f_limit(es, "blogs"@) {
            Err(e) => Err(e),
            Ok(blogs) => match f_limit(es, "follows"@) {
                Err(e) => Err(e),
                Ok(follows) => match f_limit(es, "likes"@) {
                    Err(e) => Err(e),
                    Ok(likes) => match f_limit(es, "photos"@) {
                        Err(e) => Err(e),
                        Ok(photos) => match f_limit(es, "posts"@) {
                            Err(e) => Err(e),
                            Ok(posts) => match f_limit(es, "video_seconds"@) {
                                Err(e) => Err(e),
                                Ok(video_seconds) => match f_limit(es, "videos"@) {
                                    Err(e) => Err(e),
                                    Ok(videos) => Ok(
                                        UserLimitsV {
                                            blogs,
                                            follows,
                                            likes,
                                            photos,
                                            posts,
                                            video_seconds,
                                            videos,
                                        },
                                    ),
                                },
                            },
                        },
                    },
                },
            },
        },
        _ => Err(DecodeError::TypeMismatch),
    }
}

impl UserLimits {
    pub fn decode(j: &Json) -> (r: Result<UserLimits, DecodeError>)
        ensures
            dres(r) == user_limits_dec(j@),
    {
        match j {
            Json::Obj(entries) => {
                proof {
                    lemma_obj_view(*entries);
                }
                let blogs = match get_limit(entries, "blogs") {
                    Err(e) => { return Err(e); },
                    Ok(x) => x,
                };
                let follows = match get_limit(entries, "follows") {
                    Err(e) => { return Err(e); },
                    Ok(x) => x,
                };
                let likes = match get_limit(entries, "likes") {
                    Err(e) => { return Err(e); },
                    Ok(x) => x,
                };
                let photos = match get_limit(entries, "photos") {
                    Err(e) => { return Err(e); },
                    Ok(x) => x,
                };
                let posts = match get_limit(entries, "posts") {
                    Err(e) => { return Err(e); },
                    Ok(x) => x,
                };
                let video_seconds = match get_limit(entries, "video_seconds") {
                    Err(e) => { return Err(e); },
                    Ok(x) => x,
                };
                let videos = match get_limit(entries, "videos") {
                    Err(e) => { return Err(e); },
                    Ok(x) => x,
                };
                Ok(UserLimits { blogs, follows, likes, photos, posts, video_seconds, videos })
            },
            _ => Err(DecodeError::TypeMismatch),
        }
    }
}

/// The payload of the limits endpoint.
#[derive(Debug, PartialEq, Eq)]
pub struct LimitsResponse {
    pub user: UserLimits,
}

pub struct LimitsResponseV {
    pub user: UserLimitsV,
}

impl DeepView for LimitsResponse {
    type V = LimitsResponseV;

    open spec fn deep_view(&self) -> LimitsResponseV {
        LimitsResponseV { user: self.user.deep_view() }
    }
}

pub open spec fn limits_response_dec(j: JsonV) -> Result<LimitsResponseV, DecodeError> {
    match j {
        JsonV::Obj(es) => match obj_get_v(es, "user"@) {
            None => Err(DecodeError::MissingField),
            Some(uj) => match user_limits_dec(uj) {
                Err(e) => Err(e),
                Ok(user) => Ok(LimitsResponseV { user }),
            },
        },
        _ => Err(DecodeError::TypeMismatch),
    }
}

impl LimitsResponse {
    pub fn decode(j: &Json) -> (r: Result<LimitsResponse, DecodeError>)
        ensures
            dres(r) == limits_response_dec(j@),
    {
        match j {
            Json::Obj(entries) => {
                proof {
                    lemma_obj_view(*entries);
                }
                match obj_get(entries, "user") {
                    None => Err(DecodeError::MissingField),
                    Some(uj) => match UserLimits::decode(uj) {
                        Err(e) => Err(e),
                        Ok(user) => Ok(LimitsResponse { user }),
                    },
                }
            },
            _ => Err(DecodeError::TypeMismatch),
        }
    }
}

/// One blog an account may post to, as the user-info endpoint reports it.
#[derive(Debug, PartialEq, Eq)]
pub struct UserInfoBlog {
    pub name: String,
    pub url: String,
    pub title: String,
    pub primary: bool,
    pub followers: i64,
    pub tweet: String,
    /// Whether the blog is public or private; its wire key is `type`.
    pub blog_type: String,
    pub other_fields: Vec<(String, Json)>,
}

pub struct UserInfoBlogV {
    pub name: Seq<char>,
    pub url: Seq<char>,
    pub title: Seq<char>,
    pub primary: bool,
    pub followers: i64,
    pub tweet: Seq<char>,
    pub blog_type: Seq<char>,
    pub other_fields: Seq<(Seq<char>, JsonV)>,
}

impl DeepView for UserInfoBlog {
    type V = UserInfoBlogV;

    open spec fn deep_view(&self) -> UserInfoBlogV {
        UserInfoBlogV {
            name: self.name.deep_view(),
            url: self.url.deep_view(),
            title: self.title.deep_view(),
            primary: self.primary,
            followers: self.followers,
            tweet: self.tweet.deep_view(),
            blog_type: self.blog_type.deep_view(),
            other_fields: self.other_fields.deep_view(),
        }
    }
}

pub open spec fn user_info_blog_keys() -> Seq<Seq<char>> {
    seq!["followers"@, "name"@, "primary"@, "title"@, "tweet"@, "type"@, "url"@]
}

pub open spec fn user_info_blog_dec(j: JsonV) -> Result<UserInfoBlogV, DecodeError> {
    match j {
        JsonV::Obj(es) => match f_str(es, "name"@) {
            Err(e) => Err(e),
            Ok(name) => match f_str(es, "url"@) {
                Err(e) => Err(e),
                Ok(url) => match f_str(es, "title"@) {
                    Err(e) => Err(e),
                    Ok(title) => match f_bool(es, "primary"@) {
                        Err(e) => Err(e),
                        Ok(primary) => match f_i64(es, "followers"@) {
                            Err(e) => Err(e),
                            Ok(followers) => match f_str(es, "tweet"@) {
                                Err(e) => Err(e),
                                Ok(tweet) => match f_str(es, "type"@) {
                                    Err(e) => Err(e),
                                    Ok(blog_type) => Ok(
                                        UserInfoBlogV {
                                            name,
                                            url,
                                            title,
                                            primary,
                                            followers,
                                            tweet,
                                            blog_type,
                                            other_fields: overflow_of(
                                                es,
                                                user_info_blog_keys(),
                                            ),
                                        },
                                    ),
                                },
                            },
                        },
                    },
                },
            },
        },
        _ => Err(DecodeError::TypeMismatch),
    }
}

pub open spec fn user_info_blog_dec_fn() -> spec_fn(JsonV) -> Result<
    UserInfoBlogV,
    DecodeError,
> {
    |j: JsonV| user_info_blog_dec(j)
}

impl UserInfoBlog {
    pub fn decode(j: &Json) -> (r: Result<UserInfoBlog, DecodeError>)
        ensures
            dres(r) == user_info_blog_dec(j@),
    {
        match j {
            Json::Obj(entries) => {
                proof {
                    lemma_obj_view(*entries);
                }
                let name = match get_str(entries, "name") {
                    Err(e) => { return Err(e); },
                    Ok(s) => s,
                };
                let url = match get_str(entries, "url") {
                    Err(e) => { return Err(e); },
                    Ok(s) => s,
                };
                let title = match get_str(entries, "title") {
                    Err(e) => { return Err(e); },
                    Ok(s) => s,
                };
                let primary = match get_bool(entries, "primary") {
                    Err(e) => { return Err(e); },
                    Ok(x) => x,
                };
                let followers = match get_i64(entries, "followers") {
                    Err(e) => { return Err(e); },
                    Ok(x) => x,
                };
                let tweet = match get_str(entries, "tweet") {
                    Err(e) => { return Err(e); },
                    Ok(s) => s,
                };
                let blog_type = match get_str(entries, "type") {
                    Err(e) => { return Err(e); },
                    Ok(s) => s,
                };
                let modeled: [&str; 7] = [
                    "followers",
                    "name",
                    "primary",
                    "title",
                    "tweet",
                    "type",
                    "url",
                ];
                proof {
                    assert(modeled.deep_view() =~= user_info_blog_keys());
                }
                let other_fields = collect_overflow(entries, &modeled);
                Ok(
                    UserInfoBlog {
                        name,
                        url,
                        title,
                        primary,
                        followers,
                        tweet,
                        blog_type,
                        other_fields,
                    },
                )
            },
            _ => Err(DecodeError::TypeMismatch),
        }
    }
}

/// The account the user-info endpoint describes.
#[derive(Debug, PartialEq, Eq)]
pub struct UserInfo {
    pub following: i64,
    pub default_post_format: String,
    pub name: String,
    pub likes: i64,
    pub blogs: Vec<UserInfoBlog>,
    pub other_fields: Vec<(String, Json)>,
}

pub struct UserInfoV {
    pub following: i64,
    pub default_post_format: Seq<char>,
    pub name: Seq<char>,
    pub likes: i64,
    pub blogs: Seq<UserInfoBlogV>,
    pub other_fields: Seq<(Seq<char>, JsonV)>,
}

impl DeepView for UserInfo {
    type V = UserInfoV;

    open spec fn deep_view(&self) -> UserInfoV {
        UserInfoV {
            following: self.following,
            default_post_format: self.default_post_format.deep_view(),
            name: self.name.deep_view(),
            likes: self.likes,
            blogs: self.blogs.deep_view(),
            other_fields: self.other_fields.deep_view(),
        }
    }
}

pub open spec fn user_info_keys() -> Seq<Seq<char>> {
    seq!["blogs"@, "default_post_format"@, "following"@, "likes"@, "name"@]
}

pub open spec fn user_info_dec(j: JsonV) -> Result<UserInfoV, DecodeError> {
    match j {
        JsonV::Obj(es) => match f_i64(es, "following"@) {
            Err(e) => Err(e),
            Ok(following) => match f_str(es, "default_post_format"@) {
                Err(e) => Err(e),
                Ok(default_post_format) => match f_str(es, "name"@) {
                    Err(e) => Err(e),
                    Ok(name) => match f_i64(es, "likes"@) {
                        Err(e) => Err(e),
                        Ok(likes) => match obj_get_v(es, "blogs"@) {
                            None => Err(DecodeError::MissingField),
                            Some(JsonV::Arr(vs)) => match list_dec(
                                vs,
                                user_info_blog_dec_fn(),
                            ) {
                                Err(e) => Err(e),
                                Ok(blogs) => Ok(
                                    UserInfoV {
                                        following,
                                        default_post_format,
                                        name,
                                        likes,
                                        blogs,
                                        other_fields: overflow_of(es, user_info_keys()),
                                    },
                                ),
                            },
                            Some(_) => Err(DecodeError::TypeMismatch),
                        },
                    },
                },
            },
        },
        _ => Err(DecodeError::TypeMismatch),
    }
}

/// Decodes the blog list of a user-info payload.
fn decode_user_info_blog_vec(elems: &Vec<Json>) -> (r: Result<Vec<UserInfoBlog>, DecodeError>)
    ensures
        dres(r) == list_dec(elems_view(elems@), user_info_blog_dec_fn()),
{
    let ghost es = elems_view(elems@);
    let mut out: Vec<UserInfoBlog> = Vec::new();
    proof {
        assert(es.take(0) =~= Seq::<JsonV>::empty());
        assert(out.deep_view() =~= Seq::<UserInfoBlogV>::empty());
    }
    let mut i: usize = 0;
    while i < elems.len()
        invariant
            i <= elems.len(),
            es == elems_view(elems@),
            list_dec(es.take(i as int), user_info_blog_dec_fn()) == Ok::<_, DecodeError>(
                out.deep_view(),
            ),
        decreases elems.len() - i,
    {
        proof {
            assert(es.take(i + 1).drop_last() =~= es.take(i as int));
            assert(es.take(i + 1).last() == es[i as int]);
        }
        match UserInfoBlog::decode(&elems[i]) {
            Ok(x) => {
                let ghost xv = x.deep_view();
                let ghost old_out = out.deep_view();
                out.push(x);
                proof {
                    assert(out.deep_view() =~= old_out.push(xv));
                }
            },
            Err(e) => {
                proof {
                    lemma_list_dec_err(es, user_info_blog_dec_fn(), i + 1);
                }
                return Err(e);
            },
        }
        i = i + 1;
    }
    proof {
        assert(es.take(elems@.len() as int) =~= es);
    }
    Ok(out)
}

impl UserInfo {
    pub fn decode(j: &Json) -> (r: Result<UserInfo, DecodeError>)
        ensures
            dres(r) == user_info_dec(j@),
    {
        match j {
            Json::Obj(entries) => {
                proof {
                    lemma_obj_view(*entries);
                }
                let following = match get_i64(entries, "following") {
                    Err(e) => { return Err(e); },
                    Ok(x) => x,
                };
                let default_post_format = match get_str(entries, "default_post_format") {
                    Err(e) => { return Err(e); },
                    Ok(s) => s,
                };
                let name = match get_str(entries, "name") {
                    Err(e) => { return Err(e); },
                    Ok(s) => s,
                };
                let likes = match get_i64(entries, "likes") {
                    Err(e) => { return Err(e); },
                    Ok(x) => x,
                };
                let blogs = match obj_get(entries, "blogs") {
                    None => { return Err(DecodeError::MissingField); },
                    Some(Json::Arr(vs)) => {
                        proof {
                            lemma_arr_view(*vs);
                        }
                        match decode_user_info_blog_vec(vs) {
                            Err(e) => { return Err(e); },
                            Ok(bs) => bs,
                        }
                    },
                    Some(_) => { return Err(DecodeError::TypeMismatch); },
                };
                let modeled: [&str; 5] = [
                    "blogs",
                    "default_post_format",
                    "following",
                    "likes",
                    "name",
                ];
                proof {
                    assert(modeled.deep_view() =~= user_info_keys());
                }
                let other_fields = collect_overflow(entries, &modeled);
                Ok(
                    UserInfo {
                        following,
                        default_post_format,
                        name,
                        likes,
                        blogs,
                        other_fields,
                    },
                )
            },
            _ => Err(DecodeError::TypeMismatch),
        }
    }
}

/// The payload of the user-info endpoint.
#[derive(Debug, PartialEq, Eq)]
pub struct UserInfoResponse {
    pub user: UserInfo,
    pub other_fields: Vec<(String, Json)>,
}

pub struct UserInfoResponseV {
    pub user: UserInfoV,
    pub other_fields: Seq<(Seq<char>, JsonV)>,
}

impl DeepView for UserInfoResponse {
    type V = UserInfoResponseV;

    open spec fn deep_view(&self) -> UserInfoResponseV {
        UserInfoResponseV {
            user: self.user.deep_view(),
            other_fields: self.other_fields.deep_view(),
        }
    }
}

pub open spec fn user_info_response_dec(j: JsonV) -> Result<UserInfoResponseV, DecodeError> {
    match j {
        JsonV::Obj(es) => match obj_get_v(es, "user"@) {
            None => Err(DecodeError::MissingField),
            Some(uj) => match user_info_dec(uj) {
                Err(e) => Err(e),
                Ok(user) => Ok(
                    UserInfoResponseV { user, other_fields: overflow_of(es, seq!["user"@]) },
                ),
            },
        },
        _ => Err(DecodeError::TypeMismatch),
    }
}

impl UserInfoResponse {
    pub fn decode(j: &Json) -> (r: Result<UserInfoResponse, DecodeError>)
        ensures
            dres(r) == user_info_response_dec(j@),
    {
        match j {
            Json::Obj(entries) => {
                proof {
                    lemma_obj_view(*entries);
                }
                let user = match obj_get(entries, "user") {
                    None => { return Err(DecodeError::MissingField); },
                    Some(uj) => match UserInfo::decode(uj) {
                        Err(e) => { return Err(e); },
                        Ok(u) => u,
                    },
                };
                let modeled: [&str; 1] = ["user"];
                proof {
                    assert(modeled.deep_view() =~= seq!["user"@]);
                }
                let other_fields = collect_overflow(entries, &modeled);
                Ok(UserInfoResponse { user, other_fields })
            },
            _ => Err(DecodeError::TypeMismatch),
        }
    }
}

/// A blog's theme options, as the blog-info endpoint reports them.
/// Unknown keys are ignored, as on the wire.
#[derive(Debug, PartialEq, Eq)]
pub struct BlogTheme {
    pub avatar_shape: AvatarShape,
    pub background_color: String,
    pub body_font: String,
    pub header_bounds: Json,
    pub header_image: String,
    pub header_image_npf: crate::npf::ContentBlockImage,
    pub header_image_focused: String,
    pub header_image_poster: String,
    pub header_image_scaled: String,
    pub header_stretch: bool,
    pub link_color: String,
    pub show_avatar: bool,
    pub show_description: bool,
    pub show_header_image: bool,
    pub show_title: bool,
    pub title_color: String,
    pub title_font: String,
    pub title_font_weight: String,
}

pub struct BlogThemeV {
    pub avatar_shape: AvatarShape,
    pub background_color: Seq<char>,
    pub body_font: Seq<char>,
    pub header_bounds: JsonV,
    pub header_image: Seq<char>,
    pub header_image_npf: crate::npf::ContentBlockImageV,
    pub header_image_focused: Seq<char>,
    pub header_image_poster: Seq<char>,
    pub header_image_scaled: Seq<char>,
    pub header_stretch: bool,
    pub link_color: Seq<char>,
    pub show_avatar: bool,
    pub show_description: bool,
    pub show_header_image: bool,
    pub show_title: bool,
    pub title_color: Seq<char>,
    pub title_font: Seq<char>,
    pub title_font_weight: Seq<char>,
}

impl DeepView for BlogTheme {
    type V = BlogThemeV;

    open spec fn deep_view(&self) -> BlogThemeV {
        BlogThemeV {
            avatar_shape: self.avatar_shape,
            background_color: self.background_color.deep_view(),
            body_font: self.body_font.deep_view(),
            header_bounds: self.header_bounds.deep_view(),
            header_image: self.header_image.deep_view(),
            header_image_npf: self.header_image_npf.deep_view(),
            header_image_focused: self.header_image_focused.deep_view(),
            header_image_poster: self.header_image_poster.deep_view(),
            header_image_scaled: self.header_image_scaled.deep_view(),
            header_stretch: self.header_stretch,
            link_color: self.link_color.deep_view(),
            show_avatar: self.show_avatar,
            show_description: self.show_description,
            show_header_image: self.show_header_image,
            show_title: self.show_title,
            title_color: self.title_color.deep_view(),
            title_font: self.title_font.deep_view(),
            title_font_weight: self.title_font_weight.deep_view(),
        }
    }
}

pub open spec fn avatar_shape_dec(s: Seq<char>) -> Option<AvatarShape> {
    if s == "circle"@ {
        Some(AvatarShape::Circle)
    } else if s == "square"@ {
        Some(AvatarShape::Square)
    } else {
        None
    }
}

impl AvatarShape {
    pub fn from_wire(s: &str) -> (r: Option<AvatarShape>)
        ensures
            r == avatar_shape_dec(s@),
    {
        if str_eq_str(s, "circle") {
            Some(AvatarShape::Circle)
        } else if str_eq_str(s, "square") {
            Some(AvatarShape::Square)
        } else {
            None
        }
    }
}

/// The required avatar-shape field.
pub open spec fn f_avatar_shape(es: Seq<(Seq<char>, JsonV)>, key: Seq<char>) -> Result<
    AvatarShape,
    DecodeError,
> {
    match f_str(es, key) {
        Err(e) => Err(e),
        Ok(s) => match avatar_shape_dec(s) {
            None => Err(DecodeError::UnknownVariant),
            Some(a) => Ok(a),
        },
    }
}

/// The required header image block of a theme.
pub open spec fn f_header_image_npf(es: Seq<(Seq<char>, JsonV)>, key: Seq<char>) -> Result<
    crate::npf::ContentBlockImageV,
    DecodeError,
> {
    match obj_get_v(es, key) {
        None => Err(DecodeError::MissingField),
        Some(JsonV::Obj(ies)) => crate::npf::image_block_dec(ies),
        Some(_) => Err(DecodeError::TypeMismatch),
    }
}

pub open spec fn blog_theme_dec(j: JsonV) -> Result<BlogThemeV, DecodeError> {
    match j {
        JsonV::Obj(es) => match f_avatar_shape(es, "avatar_shape"@) {
            Err(e) => Err(e),
            Ok(avatar_shape) => match f_str(es, "background_color"@) {
                Err(e) => Err(e),
                Ok(background_color) => match f_str(es, "body_font"@) {
                    Err(e) => Err(e),
                    Ok(body_font) => match f_raw(es, "header_bounds"@) {
                        Err(e) => Err(e),
                        Ok(header_bounds) => match f_str(es, "header_image"@) {
                            Err(e) => Err(e),
                            Ok(header_image) => match f_header_image_npf(
                                es,
                                "header_image_npf"@,
                            ) {
                                Err(e) => Err(e),
                                Ok(header_image_npf) => match f_str(
                                    es,
                                    "header_image_focused"@,
                                ) {
                                    Err(e) => Err(e),
                                    Ok(header_image_focused) => match f_str(
                                        es,
                                        "header_image_poster"@,
                                    ) {
                                        Err(e) => Err(e),
                                        Ok(header_image_poster) => match f_str(
                                            es,
                                            "header_image_scaled"@,
                                        ) {
                                            Err(e) => Err(e),
                                            Ok(header_image_scaled) => match f_bool(
                                                es,
                                                "header_stretch"@,
                                            ) {
                                                Err(e) => Err(e),
                                                Ok(header_stretch) => match f_str(
                                                    es,
                                                    "link_color"@,
                                                ) {
                                                    Err(e) => Err(e),
                                                    Ok(link_color) => blog_theme_dec_rest(
                                                        es,
                                                        avatar_shape,
                                                        background_color,
                                                        body_font,
                                                        header_bounds,
                                                        header_image,
                                                        header_image_npf,
                                                        header_image_focused,
                                                        header_image_poster,
                                                        header_image_scaled,
                                                        header_stretch,
                                                        link_color,
                                                    ),
                                                },
                                            },
                                        },
                                    },
                                },
                            },
                        },
                    },
                },
            },
        },
        _ => Err(DecodeError::TypeMismatch),
    }
}

/// The second half of a theme: the visibility flags and title styling.
pub open spec fn blog_theme_dec_rest(
    es: Seq<(Seq<char>, JsonV)>,
    avatar_shape: AvatarShape,
    background_color: Seq<char>,
    body_font: Seq<char>,
    header_bounds: JsonV,
    header_image: Seq<char>,
    header_image_npf: crate::npf::ContentBlockImageV,
    header_image_focused: Seq<char>,
    header_image_poster: Seq<char>,
    header_image_scaled: Seq<char>,
    header_stretch: bool,
    link_color: Seq<char>,
) -> Result<BlogThemeV, DecodeError> {
    match f_bool(es, "show_avatar"@) {
        Err(e) => Err(e),
        Ok(show_avatar) => match f_bool(es, "show_description"@) {
            Err(e) => Err(e),
            Ok(show_description) => match f_bool(es, "show_header_image"@) {
                Err(e) => Err(e),
                Ok(show_header_image) => match f_bool(es, "show_title"@) {
                    Err(e) => Err(e),
                    Ok(show_title) => match f_str(es, "title_color"@) {
                        Err(e) => Err(e),
                        Ok(title_color) => match f_str(es, "title_font"@) {
                            Err(e) => Err(e),
                            Ok(title_font) => match f_str(es, "title_font_weight"@) {
                                Err(e) => Err(e),
                                Ok(title_font_weight) => Ok(
                                    BlogThemeV {
                                        avatar_shape,
                                        background_color,
                                        body_font,
                                        header_bounds,
                                        header_image,
                                        header_image_npf,
                                        header_image_focused,
                                        header_image_poster,
                                        header_image_scaled,
                                        header_stretch,
                                        link_color,
                                        show_avatar,
                                        show_description,
                                        show_header_image,
                                        show_title,
                                        title_color,
                                        title_font,
                                        title_font_weight,
                                    },
                                ),
                            },
                        },
                    },
                },
            },
        },
    }
}

impl BlogTheme {
    #[verifier::rlimit(100)]
    pub fn decode(j: &Json) -> (r: Result<BlogTheme, DecodeError>)
        ensures
            dres(r) == blog_theme_dec(j@),
    {
        match j {
            Json::Obj(entries) => {
                proof {
                    lemma_obj_view(*entries);
                }
                let avatar_shape = match get_str(entries, "avatar_shape") {
                    Err(e) => { return Err(e); },
                    Ok(s) => match AvatarShape::from_wire(s.as_str()) {
                        None => { return Err(DecodeError::UnknownVariant); },
                        Some(a) => a,
                    },
                };
                let background_color = match get_str(entries, "background_color") {
                    Err(e) => { return Err(e); },
                    Ok(s) => s,
                };
                let body_font = match get_str(entries, "body_font") {
                    Err(e) => { return Err(e); },
                    Ok(s) => s,
                };
                let header_bounds = match get_raw(entries, "header_bounds") {
                    Err(e) => { return Err(e); },
                    Ok(x) => x,
                };
                let header_image = match get_str(entries, "header_image") {
                    Err(e) => { return Err(e); },
                    Ok(s) => s,
                };
                let header_image_npf = match obj_get(entries, "header_image_npf") {
                    None => { return Err(DecodeError::MissingField); },
                    Some(Json::Obj(ies)) => {
                        proof {
                            lemma_obj_view(*ies);
                        }
                        match crate::npf::ContentBlockImage::decode_fields(ies) {
                            Err(e) => { return Err(e); },
                            Ok(img) => img,
                        }
                    },
                    Some(_) => { return Err(DecodeError::TypeMismatch); },
                };
                let header_image_focused = match get_str(entries, "header_image_focused") {
                    Err(e) => { return Err(e); },
                    Ok(s) => s,
                };
                let header_image_poster = match get_str(entries, "header_image_poster") {
                    Err(e) => { return Err(e); },
                    Ok(s) => s,
                };
                let header_image_scaled = match get_str(entries, "header_image_scaled") {
                    Err(e) => { return Err(e); },
                    Ok(s) => s,
                };
                let header_stretch = match get_bool(entries, "header_stretch") {
                    Err(e) => { return Err(e); },
                    Ok(x) => x,
                };
                let link_color = match get_str(entries, "link_color") {
                    Err(e) => { return Err(e); },
                    Ok(s) => s,
                };
                let show_avatar = match get_bool(entries, "show_avatar") {
                    Err(e) => { return Err(e); },
                    Ok(x) => x,
                };
                let show_description = match get_bool(entries, "show_description") {
                    Err(e) => { return Err(e); },
                    Ok(x) => x,
                };
                let show_header_image = match get_bool(entries, "show_header_image") {
                    Err(e) => { return Err(e); },
                    Ok(x) => x,
                };
                let show_title = match get_bool(entries, "show_title") {
                    Err(e) => { return Err(e); },
                    Ok(x) => x,
                };
                let title_color = match get_str(entries, "title_color") {
                    Err(e) => { return Err(e); },
                    Ok(s) => s,
                };
                let title_font = match get_str(entries, "title_font") {
                    Err(e) => { return Err(e); },
                    Ok(s) => s,
                };
                let title_font_weight = match get_str(entries, "title_font_weight") {
                    Err(e) => { return Err(e); },
                    Ok(s) => s,
                };
                Ok(
                    BlogTheme {
                        avatar_shape,
                        background_color,
                        body_font,
                        header_bounds,
                        header_image,
                        header_image_npf,
                        header_image_focused,
                        header_image_poster,
                        header_image_scaled,
                        header_stretch,
                        link_color,
                        show_avatar,
                        show_description,
                        show_header_image,
                        show_title,
                        title_color,
                        title_font,
                        title_font_weight,
                    },
                )
            },
            _ => Err(DecodeError::TypeMismatch),
        }
    }
}

/// The payload of the blog-info endpoint. Unknown keys are ignored, as on
/// the wire.
#[derive(Debug, PartialEq, Eq)]
pub struct BlogInfoResponse {
    pub title: String,
    pub posts: i64,
    pub name: String,
    pub updated: i64,
    pub description: String,
    pub ask: bool,
    pub ask_anon: bool,
    pub followed: bool,
    pub likes: Option<i64>,
    pub is_blocked_from_primary: bool,
    pub url: String,
    pub theme: BlogTheme,
}

pub struct BlogInfoResponseV {
    pub title: Seq<char>,
    pub posts: i64,
    pub name: Seq<char>,
    pub updated: i64,
    pub description: Seq<char>,
    pub ask: bool,
    pub ask_anon: bool,
    pub followed: bool,
    pub likes: Option<i64>,
    pub is_blocked_from_primary: bool,
    pub url: Seq<char>,
    pub theme: BlogThemeV,
}

impl DeepView for BlogInfoResponse {
    type V = BlogInfoResponseV;

    open spec fn deep_view(&self) -> BlogInfoResponseV {
        BlogInfoResponseV {
            title: self.title.deep_view(),
            posts: self.posts,
            name: self.name.deep_view(),
            updated: self.updated,
            description: self.description.deep_view(),
            ask: self.ask,
            ask_anon: self.ask_anon,
            followed: self.followed,
            likes: self.likes,
            is_blocked_from_primary: self.is_blocked_from_primary,
            url: self.url.deep_view(),
            theme: self.theme.deep_view(),
        }
    }
}

pub open spec fn blog_info_response_dec(j: JsonV) -> Result<BlogInfoResponseV, DecodeError> {
    match j {
        JsonV::Obj(es) => match f_str(es, "title"@) {
            Err(e) => Err(e),
            Ok(title) => match f_i64(es, "posts"@) {
                Err(e) => Err(e),
                Ok(posts) => match f_str(es, "name"@) {
                    Err(e) => Err(e),
                    Ok(name) => match f_i64(es, "updated"@) {
                        Err(e) => Err(e),
                        Ok(updated) => match f_str(es, "description"@) {
                            Err(e) => Err(e),
                            Ok(description) => match f_bool(es, "ask"@) {
                                Err(e) => Err(e),
                                Ok(ask) => match f_bool(es, "ask_anon"@) {
                                    Err(e) => Err(e),
                                    Ok(ask_anon) => match f_bool(es, "followed"@) {
                                        Err(e) => Err(e),
                                        Ok(followed) => match crate::json::f_i64_opt(
                                            es,
                                            "likes"@,
                                        ) {
                                            Err(e) => Err(e),
                                            Ok(likes) => match f_bool(
                                                es,
                                                "is_blocked_from_primary"@,
                                            ) {
                                                Err(e) => Err(e),
                                                Ok(is_blocked_from_primary) => match f_str(
                                                    es,
                                                    "url"@,
                                                ) {
                                                    Err(e) => Err(e),
                                                    Ok(url) => match obj_get_v(es, "theme"@) {
                                                        None => Err(DecodeError::MissingField),
                                                        Some(tj) => match blog_theme_dec(tj) {
                                                            Err(e) => Err(e),
                                                            Ok(theme) => Ok(
                                                                BlogInfoResponseV {
                                                                    title,
                                                                    posts,
                                                                    name,
                                                                    updated,
                                                                    description,
                                                                    ask,
                                                                    ask_anon,
                                                                    followed,
                                                                    likes,
                                                                    is_blocked_from_primary,
                                                                    url,
                                                                    theme,
                                                                },
                                                            ),
                                                        },
                                                    },
                                                },
                                            },
                                        },
                                    },
                                },
                            },
                        },
                    },
                },
            },
        },
        _ => Err(DecodeError::TypeMismatch),
    }
}

impl BlogInfoResponse {
    pub fn decode(j: &Json) -> (r: Result<BlogInfoResponse, DecodeError>)
        ensures
            dres(r) == blog_info_response_dec(j@),
    {
        match j {
            Json::Obj(entries) => {
                proof {
                    lemma_obj_view(*entries);
                }
                let title = match get_str(entries, "title") {
                    Err(e) => { return Err(e); },
                    Ok(s) => s,
                };
                let posts = match get_i64(entries, "posts") {
                    Err(e) => { return Err(e); },
                    Ok(x) => x,
                };
                let name = match get_str(entries, "name") {
                    Err(e) => { return Err(e); },
                    Ok(s) => s,
                };
                let updated = match get_i64(entries, "updated") {
                    Err(e) => { return Err(e); },
                    Ok(x) => x,
                };
                let description = match get_str(entries, "description") {
                    Err(e) => { return Err(e); },
                    Ok(s) => s,
                };
                let ask = match get_bool(entries, "ask") {
                    Err(e) => { return Err(e); },
                    Ok(x) => x,
                };
                let ask_anon = match get_bool(entries, "ask_anon") {
                    Err(e) => { return Err(e); },
                    Ok(x) => x,
                };
                let followed = match get_bool(entries, "followed") {
                    Err(e) => { return Err(e); },
                    Ok(x) => x,
                };
                let likes = match crate::json::get_i64_opt(entries, "likes") {
                    Err(e) => { return Err(e); },
                    Ok(x) => x,
                };
                let is_blocked_from_primary = match get_bool(
                    entries,
                    "is_blocked_from_primary",
                ) {
                    Err(e) => { return Err(e); },
                    Ok(x) => x,
                };
                let url = match get_str(entries, "url") {
                    Err(e) => { return Err(e); },
                    Ok(s) => s,
                };
                let theme = match obj_get(entries, "theme") {
                    None => { return Err(DecodeError::MissingField); },
                    Some(tj) => match BlogTheme::decode(tj) {
                        Err(e) => { return Err(e); },
                        Ok(t) => t,
                    },
                };
                Ok(
                    BlogInfoResponse {
                        title,
                        posts,
                        name,
                        updated,
                        description,
                        ask,
                        ask_anon,
                        followed,
                        likes,
                        is_blocked_from_primary,
                        url,
                        theme,
                    },
                )
            },
            _ => Err(DecodeError::TypeMismatch),
        }
    }
}

} // verus!
