//! The NPF ("Neue Post Format") content model and its wire codec.
//!
//! Every type decodes from and encodes to a [`Json`] tree. Decoding is
//! all-or-nothing and closed-world: an unknown key or a wrong shape refuses
//! the whole value. Encoding omits absent optional fields entirely and
//! writes object keys in the parser's canonical order, so that a decoded
//! tree re-encodes to the very tree it came from.

use vstd::prelude::*;

use crate::json::{
    dres, duplicate_entries, elems_view, entries_view, f_bool, f_bool_opt, f_i32, f_i32_opt,
    f_i64, f_str, f_str_opt, f_u64, get_bool, get_bool_opt, get_i32, get_i32_opt, get_i64,
    get_str, get_str_opt, get_u64, keys_subset, keys_subset_v, lemma_arr_view,
    lemma_keys_subset_concat, lemma_keys_subset_opt, lemma_list_dec_err, lemma_list_round_trip,
    lemma_obj_get_append, lemma_obj_get_append_all, lemma_obj_get_opt, lemma_obj_get_opt_all,
    lemma_obj_view, lemma_seq_deep_push, lemma_vec_deep,
    list_dec, list_enc, obj_get, obj_get_v, obj_has, obool, oi32, opt_entry, ostr, seq_deep,
    str_eq_str, DecodeError, EncodeError, Json, JsonV, ObjBuilder,
};

verus! {

broadcast use vstd::string::group_string_axioms;

// ---------------------------------------------------------------------------
// MentionBlog: the lightweight blog reference used by mentions and
// attributions.
// ---------------------------------------------------------------------------
#[derive(Debug, PartialEq, Eq)]
pub struct MentionBlog {
    pub uuid: String,
    pub name: Option<String>,
    pub url: Option<String>,
}

pub struct MentionBlogV {
    pub uuid: Seq<char>,
    pub name: Option<Seq<char>>,
    pub url: Option<Seq<char>>,
}

impl DeepView for MentionBlog {
    type V = MentionBlogV;

    open spec fn deep_view(&self) -> MentionBlogV {
        MentionBlogV {
            uuid: self.uuid.deep_view(),
            name: self.name.deep_view(),
            url: self.url.deep_view(),
        }
    }
}

pub open spec fn mention_blog_enc(v: MentionBlogV) -> JsonV {
    JsonV::Obj(
        opt_entry("name"@, ostr(v.name)) + opt_entry("url"@, ostr(v.url)) + opt_entry(
            "uuid"@,
            Some(JsonV::Str(v.uuid)),
        ),
    )
}

pub open spec fn mention_blog_dec(j: JsonV) -> Result<MentionBlogV, DecodeError> {
    match j {
        JsonV::Obj(es) => if !keys_subset_v(es, seq!["name"@, "url"@, "uuid"@]) {
            Err(DecodeError::UnknownField)
        } else {
            match f_str(es, "uuid"@) {
                Err(e) => Err(e),
                Ok(uuid) => match f_str_opt(es, "name"@) {
                    Err(e) => Err(e),
                    Ok(name) => match f_str_opt(es, "url"@) {
                        Err(e) => Err(e),
                        Ok(url) => Ok(MentionBlogV { uuid, name, url }),
                    },
                },
            }
        },
        _ => Err(DecodeError::TypeMismatch),
    }
}

impl MentionBlog {
    pub fn encode(&self) -> (r: Json)
        ensures
            r@ == mention_blog_enc(self.deep_view()),
    {
        let mut b = ObjBuilder::new();
        if let Some(s) = &self.name {
            b.push("name", Json::Str(s.clone()));
        }
        if let Some(s) = &self.url {
            b.push("url", Json::Str(s.clone()));
        }
        b.push("uuid", Json::Str(self.uuid.clone()));
        proof {
            assert(b.entries_v() =~= opt_entry("name"@, ostr(self.deep_view().name)) + opt_entry(
                "url"@,
                ostr(self.deep_view().url),
            ) + opt_entry("uuid"@, Some(JsonV::Str(self.deep_view().uuid))));
        }
        b.finish()
    }

    pub fn decode(j: &Json) -> (r: Result<MentionBlog, DecodeError>)
        ensures
            dres(r) == mention_blog_dec(j@),
    {
        match j {
            Json::Obj(entries) => {
                proof {
                    lemma_obj_view(*entries);
                }
                let allowed: [&str; 3] = ["name", "url", "uuid"];
                proof {
                    assert(allowed.deep_view() =~= seq!["name"@, "url"@, "uuid"@]);
                }
                if !keys_subset(entries, &allowed) {
                    return Err(DecodeError::UnknownField);
                }
                let uuid = match get_str(entries, "uuid") {
                    Err(e) => { return Err(e); },
                    Ok(s) => s,
                };
                let name = match get_str_opt(entries, "name") {
                    Err(e) => { return Err(e); },
                    Ok(s) => s,
                };
                let url = match get_str_opt(entries, "url") {
                    Err(e) => { return Err(e); },
                    Ok(s) => s,
                };
                Ok(MentionBlog { uuid, name, url })
            },
            _ => Err(DecodeError::TypeMismatch),
        }
    }
}

/// Law: a mention-blog reference decodes back to itself from its own
/// encoding.
pub proof fn lemma_mention_blog_round_trip(v: MentionBlogV)
    ensures
        mention_blog_dec(mention_blog_enc(v)) == Ok::<MentionBlogV, DecodeError>(v),
{
    reveal_strlit("name");
    reveal_strlit("url");
    reveal_strlit("uuid");
    assert("name"@.len() == 4);
    assert("url"@.len() == 3);
    assert("uuid"@.len() == 4);
    assert(("name"@)[0] != ("uuid"@)[0]);
    assert("name"@ != "uuid"@);
    let names = opt_entry("name"@, ostr(v.name));
    let urls = opt_entry("url"@, ostr(v.url));
    let uuids = opt_entry("uuid"@, Some(JsonV::Str(v.uuid)));
    let es = names + urls + uuids;
    let all = seq!["name"@, "url"@, "uuid"@];
    lemma_keys_subset_opt("name"@, ostr(v.name), all);
    lemma_keys_subset_opt("url"@, ostr(v.url), all);
    lemma_keys_subset_opt("uuid"@, Some(JsonV::Str(v.uuid)), all);
    lemma_keys_subset_concat(names, urls, all);
    lemma_keys_subset_concat(names + urls, uuids, all);
    lemma_obj_get_append(names + urls, uuids, "uuid"@);
    lemma_obj_get_append(names + urls, uuids, "name"@);
    lemma_obj_get_append(names + urls, uuids, "url"@);
    lemma_obj_get_append(names, urls, "uuid"@);
    lemma_obj_get_append(names, urls, "name"@);
    lemma_obj_get_append(names, urls, "url"@);
    lemma_obj_get_opt("name"@, ostr(v.name), "name"@);
    lemma_obj_get_opt("name"@, ostr(v.name), "url"@);
    lemma_obj_get_opt("name"@, ostr(v.name), "uuid"@);
    lemma_obj_get_opt("url"@, ostr(v.url), "name"@);
    lemma_obj_get_opt("url"@, ostr(v.url), "url"@);
    lemma_obj_get_opt("url"@, ostr(v.url), "uuid"@);
    lemma_obj_get_opt("uuid"@, Some(JsonV::Str(v.uuid)), "name"@);
    lemma_obj_get_opt("uuid"@, Some(JsonV::Str(v.uuid)), "url"@);
    lemma_obj_get_opt("uuid"@, Some(JsonV::Str(v.uuid)), "uuid"@);
}

// ---------------------------------------------------------------------------
// TextSubtype: the kebab-case text style enumeration.
// ---------------------------------------------------------------------------
#[derive(Debug, Clone, Copy, PartialEq, Eq, Structural)]
pub enum TextSubtype {
    Heading1,
    Heading2,
    Quirky,
    Quote,
    Indented,
    Chat,
    OrderedListItem,
    UnorderedListItem,
}

pub open spec fn text_subtype_wire(t: TextSubtype) -> Seq<char> {
    match t {
        TextSubtype::Heading1 => "heading1"@,
        TextSubtype::Heading2 => "heading2"@,
        TextSubtype::Quirky => "quirky"@,
        TextSubtype::Quote => "quote"@,
        TextSubtype::Indented => "indented"@,
        TextSubtype::Chat => "chat"@,
        TextSubtype::OrderedListItem => "ordered-list-item"@,
        TextSubtype::UnorderedListItem => "unordered-list-item"@,
    }
}

pub open spec fn text_subtype_dec(s: Seq<char>) -> Option<TextSubtype> {
    if s == "heading1"@ {
        Some(TextSubtype::Heading1)
    } else if s == "heading2"@ {
        Some(TextSubtype::Heading2)
    } else if s == "quirky"@ {
        Some(TextSubtype::Quirky)
    } else if s == "quote"@ {
        Some(TextSubtype::Quote)
    } else if s == "indented"@ {
        Some(TextSubtype::Indented)
    } else if s == "chat"@ {
        Some(TextSubtype::Chat)
    } else if s == "ordered-list-item"@ {
        Some(TextSubtype::OrderedListItem)
    } else if s == "unordered-list-item"@ {
        Some(TextSubtype::UnorderedListItem)
    } else {
        None
    }
}

impl DeepView for TextSubtype {
    type V = TextSubtype;

    open spec fn deep_view(&self) -> TextSubtype {
        *self
    }
}

impl TextSubtype {
    /// The wire name of this style.
    pub fn wire_name(&self) -> (r: &'static str)
        ensures
            r@ == text_subtype_wire(*self),
    {
        match self {
            TextSubtype::Heading1 => "heading1",
            TextSubtype::Heading2 => "heading2",
            TextSubtype::Quirky => "quirky",
            TextSubtype::Quote => "quote",
            TextSubtype::Indented => "indented",
            TextSubtype::Chat => "chat",
            TextSubtype::OrderedListItem => "ordered-list-item",
            TextSubtype::UnorderedListItem => "unordered-list-item",
        }
    }

    /// The style a wire name means, if any.
    pub fn from_wire(s: &str) -> (r: Option<TextSubtype>)
        ensures
            r == text_subtype_dec(s@),
    {
        if str_eq_str(s, "heading1") {
            Some(TextSubtype::Heading1)
        } else if str_eq_str(s, "heading2") {
            Some(TextSubtype::Heading2)
        } else if str_eq_str(s, "quirky") {
            Some(TextSubtype::Quirky)
        } else if str_eq_str(s, "quote") {
            Some(TextSubtype::Quote)
        } else if str_eq_str(s, "indented") {
            Some(TextSubtype::Indented)
        } else if str_eq_str(s, "chat") {
            Some(TextSubtype::Chat)
        } else if str_eq_str(s, "ordered-list-item") {
            Some(TextSubtype::OrderedListItem)
        } else if str_eq_str(s, "unordered-list-item") {
            Some(TextSubtype::UnorderedListItem)
        } else {
            None
        }
    }
}

/// Law: each text style comes back from its own wire name, and from no
/// other known one.
pub proof fn lemma_text_subtype_round_trip(t: TextSubtype)
    ensures
        text_subtype_dec(text_subtype_wire(t)) == Some(t),
{
    reveal_strlit("heading1");
    reveal_strlit("heading2");
    reveal_strlit("quirky");
    reveal_strlit("quote");
    reveal_strlit("indented");
    reveal_strlit("chat");
    reveal_strlit("ordered-list-item");
    reveal_strlit("unordered-list-item");
    assert("heading1"@.len() == 8);
    assert("heading2"@.len() == 8);
    assert("quirky"@.len() == 6);
    assert("quote"@.len() == 5);
    assert("indented"@.len() == 8);
    assert("chat"@.len() == 4);
    assert("ordered-list-item"@.len() == 17);
    assert("unordered-list-item"@.len() == 19);
    assert(("heading1"@)[7] != ("heading2"@)[7]);
    assert("heading1"@ != "heading2"@);
    assert(("heading1"@)[0] != ("indented"@)[0]);
    assert("heading1"@ != "indented"@);
    assert(("heading2"@)[0] != ("indented"@)[0]);
    assert("heading2"@ != "indented"@);
}

// ---------------------------------------------------------------------------
// MediaObject: one rendition of an asset. A media object may own a nested
// poster (a still frame) and alternate video renditions, so the type and
// its codec are recursive.
// ---------------------------------------------------------------------------
#[derive(Debug, PartialEq, Eq)]
pub struct MediaObject {
    pub url: String,
    /// The MIME type; its wire key is `type`.
    pub mime_type: Option<String>,
    pub width: Option<i32>,
    pub height: Option<i32>,
    pub original_dimensions_missing: Option<bool>,
    pub cropped: Option<bool>,
    pub has_original_dimensions: Option<bool>,
    pub media_key: Option<String>,
    pub colors: Option<Vec<(String, String)>>,
    pub poster: Option<Box<MediaObject>>,
    pub video: Option<Vec<MediaObject>>,
}

/// The content of a media object. The nested poster is held as a sequence
/// of length zero or one.
pub struct MediaObjectV {
    pub url: Seq<char>,
    pub mime_type: Option<Seq<char>>,
    pub width: Option<i32>,
    pub height: Option<i32>,
    pub original_dimensions_missing: Option<bool>,
    pub cropped: Option<bool>,
    pub has_original_dimensions: Option<bool>,
    pub media_key: Option<Seq<char>>,
    pub colors: Option<Seq<(Seq<char>, Seq<char>)>>,
    pub poster: Seq<MediaObjectV>,
    pub video: Option<Seq<MediaObjectV>>,
}

pub open spec fn media_deep(m: MediaObject) -> MediaObjectV
    decreases m,
{
    MediaObjectV {
        url: m.url.deep_view(),
        mime_type: m.mime_type.deep_view(),
        width: m.width,
        height: m.height,
        original_dimensions_missing: m.original_dimensions_missing,
        cropped: m.cropped,
        has_original_dimensions: m.has_original_dimensions,
        media_key: m.media_key.deep_view(),
        colors: m.colors.deep_view(),
        poster: match m.poster {
            Some(b) => seq![media_deep(*b)],
            None => seq![],
        },
        video: match m.video {
            Some(v) => Some(
                Seq::new(
                    v@.len(),
                    |i: int|
                        if 0 <= i < v@.len() {
                            media_deep(v[i])
                        } else {
                            arbitrary()
                        },
                ),
            ),
            None => None,
        },
    }
}

impl DeepView for MediaObject {
    type V = MediaObjectV;

    open spec fn deep_view(&self) -> MediaObjectV {
        media_deep(*self)
    }
}

/// The deep view of a media list.
pub open spec fn media_seq_deep(s: Seq<MediaObject>) -> Seq<MediaObjectV> {
    Seq::new(s.len(), |i: int| media_deep(s[i]))
}

pub proof fn lemma_media_deep_video(m: MediaObject)
    ensures
        media_deep(m).video == (match m.video {
            Some(vv) => Some(media_seq_deep(vv@)),
            None => None::<Seq<MediaObjectV>>,
        }),
{
    match m.video {
        Some(vv) => {
            assert(media_deep(m).video is Some);
            let s = media_deep(m).video->0;
            assert(s.len() == vv@.len());
            assert forall|i: int| 0 <= i < s.len() implies s[i] == media_seq_deep(vv@)[i] by {
                assert(s[i] == media_deep(vv[i]));
            }
            assert(s =~= media_seq_deep(vv@));
        },
        None => {},
    }
}

pub open spec fn media_keys() -> Seq<Seq<char>> {
    seq![
        "colors"@,
        "cropped"@,
        "has_original_dimensions"@,
        "height"@,
        "media_key"@,
        "original_dimensions_missing"@,
        "poster"@,
        "type"@,
        "url"@,
        "video"@,
        "width"@,
    ]
}

/// The entries of an encoded color bag, each value a string.
pub open spec fn colors_enc(cs: Seq<(Seq<char>, Seq<char>)>) -> Seq<(Seq<char>, JsonV)> {
    Seq::new(cs.len(), |i: int| (cs[i].0, JsonV::Str(cs[i].1)))
}

/// The optional JSON value an encoder writes for a color bag.
pub open spec fn ocolors(o: Option<Seq<(Seq<char>, Seq<char>)>>) -> Option<JsonV> {
    match o {
        None => None,
        Some(cs) => Some(JsonV::Obj(colors_enc(cs))),
    }
}

/// Decodes a color bag: every value must be a string; entry order is kept.
pub open spec fn colors_dec(ces: Seq<(Seq<char>, JsonV)>) -> Result<
    Seq<(Seq<char>, Seq<char>)>,
    DecodeError,
>
    decreases ces.len(),
{
    if ces.len() == 0 {
        Ok(Seq::empty())
    } else {
        match colors_dec(ces.drop_last()) {
            Err(e) => Err(e),
            Ok(pre) => match ces.last().1 {
                JsonV::Str(s) => Ok(pre.push((ces.last().0, s))),
                _ => Err(DecodeError::TypeMismatch),
            },
        }
    }
}

/// The optional color-bag field.
pub open spec fn f_colors(es: Seq<(Seq<char>, JsonV)>, key: Seq<char>) -> Result<
    Option<Seq<(Seq<char>, Seq<char>)>>,
    DecodeError,
> {
    match obj_get_v(es, key) {
        None => Ok(None),
        Some(JsonV::Null) => Ok(None),
        Some(JsonV::Obj(ces)) => match colors_dec(ces) {
            Ok(cs) => Ok(Some(cs)),
            Err(e) => Err(e),
        },
        Some(_) => Err(DecodeError::TypeMismatch),
    }
}

pub open spec fn media_entries(v: MediaObjectV) -> Seq<(Seq<char>, JsonV)>
    decreases v, 0int,
{
    opt_entry("colors"@, ocolors(v.colors)) + opt_entry("cropped"@, obool(v.cropped))
        + opt_entry("has_original_dimensions"@, obool(v.has_original_dimensions))
        + opt_entry("height"@, oi32(v.height)) + opt_entry("media_key"@, ostr(v.media_key))
        + opt_entry(
        "original_dimensions_missing"@,
        obool(v.original_dimensions_missing),
    ) + opt_entry(
        "poster"@,
        if v.poster.len() >= 1 {
            Some(media_enc(v.poster[0]))
        } else {
            None
        },
    ) + opt_entry("type"@, ostr(v.mime_type)) + opt_entry(
        "url"@,
        Some(JsonV::Str(v.url)),
    ) + opt_entry(
        "video"@,
        match v.video {
            Some(vs) => Some(JsonV::Arr(media_list_enc(vs))),
            None => None,
        },
    ) + opt_entry("width"@, oi32(v.width))
}

pub open spec fn media_enc(v: MediaObjectV) -> JsonV
    decreases v, 1int,
{
    JsonV::Obj(media_entries(v))
}

pub open spec fn media_list_enc(vs: Seq<MediaObjectV>) -> Seq<JsonV>
    decreases vs, 2int,
{
    Seq::new(
        vs.len(),
        |i: int|
            if 0 <= i < vs.len() {
                media_enc(vs[i])
            } else {
                JsonV::Null
            },
    )
}

/// A key's binding is one of the object's values.
pub proof fn lemma_obj_get_element(es: Seq<(Seq<char>, JsonV)>, k: Seq<char>)
    ensures
        obj_get_v(es, k) matches Some(v) ==> exists|i: int|
            0 <= i < es.len() && #[trigger] es[i].1 == v,
    decreases es.len(),
{
    if es.len() == 0 {
    } else if es.last().0 == k {
        assert(es[es.len() - 1].1 == es.last().1);
    } else {
        lemma_obj_get_element(es.drop_last(), k);
        match obj_get_v(es, k) {
            Some(v) => {
                let i = choose|i: int|
                    0 <= i < es.drop_last().len() && #[trigger] es.drop_last()[i].1 == v;
                assert(es[i].1 == v);
            },
            None => {},
        }
    }
}

pub open spec fn media_dec(j: JsonV) -> Result<MediaObjectV, DecodeError>
    decreases j,
    via media_dec_via
{
    match j {
        JsonV::Obj(es) => if !keys_subset_v(es, media_keys()) {
            Err(DecodeError::UnknownField)
        } else {
            match f_str(es, "url"@) {
                Err(e) => Err(e),
                Ok(url) => match f_str_opt(es, "type"@) {
                    Err(e) => Err(e),
                    Ok(mime_type) => match f_i32_opt(es, "width"@) {
                        Err(e) => Err(e),
                        Ok(width) => match f_i32_opt(es, "height"@) {
                            Err(e) => Err(e),
                            Ok(height) => match f_bool_opt(es, "original_dimensions_missing"@) {
                                Err(e) => Err(e),
                                Ok(original_dimensions_missing) => match f_bool_opt(
                                    es,
                                    "cropped"@,
                                ) {
                                    Err(e) => Err(e),
                                    Ok(cropped) => match f_bool_opt(
                                        es,
                                        "has_original_dimensions"@,
                                    ) {
                                        Err(e) => Err(e),
                                        Ok(has_original_dimensions) => match f_str_opt(
                                            es,
                                            "media_key"@,
                                        ) {
                                            Err(e) => Err(e),
                                            Ok(media_key) => match f_colors(es, "colors"@) {
                                                Err(e) => Err(e),
                                                Ok(colors) => match obj_get_v(es, "poster"@) {
                                                    Some(JsonV::Null) => match media_video_dec(
                                                        es,
                                                    ) {
                                                        Err(e) => Err(e),
                                                        Ok(video) => Ok(
                                                            MediaObjectV {
                                                                url,
                                                                mime_type,
                                                                width,
                                                                height,
                                                                original_dimensions_missing,
                                                                cropped,
                                                                has_original_dimensions,
                                                                media_key,
                                                                colors,
                                                                poster: seq![],
                                                                video,
                                                            },
                                                        ),
                                                    },
                                                    Some(pj) => match media_dec(pj) {
                                                        Err(e) => Err(e),
                                                        Ok(p) => match media_video_dec(es) {
                                                            Err(e) => Err(e),
                                                            Ok(video) => Ok(
                                                                MediaObjectV {
                                                                    url,
                                                                    mime_type,
                                                                    width,
                                                                    height,
                                                                    original_dimensions_missing,
                                                                    cropped,
                                                                    has_original_dimensions,
                                                                    media_key,
                                                                    colors,
                                                                    poster: seq![p],
                                                                    video,
                                                                },
                                                            ),
                                                        },
                                                    },
                                                    None => match media_video_dec(es) {
                                                        Err(e) => Err(e),
                                                        Ok(video) => Ok(
                                                            MediaObjectV {
                                                                url,
                                                                mime_type,
                                                                width,
                                                                height,
                                                                original_dimensions_missing,
                                                                cropped,
                                                                has_original_dimensions,
                                                                media_key,
                                                                colors,
                                                                poster: seq![],
                                                                video,
                                                            },
                                                        ),
                                                    },
                                                },
                                            },
                                        },
                                    },
                                },
                            },
                        },
                    },
                },
            }
        },
        _ => Err(DecodeError::TypeMismatch),
    }
}

/// The optional alternate-rendition list of a media object.
pub open spec fn media_video_dec(es: Seq<(Seq<char>, JsonV)>) -> Result<
    Option<Seq<MediaObjectV>>,
    DecodeError,
>
    decreases es,
    via media_video_dec_via
{
    match obj_get_v(es, "video"@) {
        None => Ok(None),
        Some(JsonV::Null) => Ok(None),
        Some(JsonV::Arr(vs)) => match media_list_dec(vs) {
            Err(e) => Err(e),
            Ok(ms) => Ok(Some(ms)),
        },
        Some(_) => Err(DecodeError::TypeMismatch),
    }
}

pub open spec fn media_list_dec(elems: Seq<JsonV>) -> Result<Seq<MediaObjectV>, DecodeError>
    decreases elems,
    via media_list_dec_via
{
    if elems.len() == 0 {
        Ok(Seq::empty())
    } else {
        match media_list_dec(elems.drop_last()) {
            Err(e) => Err(e),
            Ok(pre) => match media_dec(elems.last()) {
                Err(e) => Err(e),
                Ok(m) => Ok(pre.push(m)),
            },
        }
    }
}

#[via_fn]
proof fn media_dec_via(j: JsonV) {
    match j {
        JsonV::Obj(es) => {
            lemma_obj_get_element(es, "poster"@);
            match obj_get_v(es, "poster"@) {
                Some(pj) => {
                    let i = choose|i: int| 0 <= i < es.len() && #[trigger] es[i].1 == pj;
                    assert(decreases_to!(j => j->Obj_0));
                    assert(decreases_to!(j->Obj_0 => j->Obj_0[i]));
                    assert(j->Obj_0[i].1 == pj);
                    assert(decreases_to!(j->Obj_0[i] => j->Obj_0[i].1));
                },
                None => {},
            }
            assert(decreases_to!(j => j->Obj_0));
        },
        _ => {},
    }
}

#[via_fn]
proof fn media_video_dec_via(es: Seq<(Seq<char>, JsonV)>) {
    lemma_obj_get_element(es, "video"@);
    match obj_get_v(es, "video"@) {
        Some(vj) => match vj {
            JsonV::Arr(vs) => {
                let i = choose|i: int| 0 <= i < es.len() && #[trigger] es[i].1 == vj;
                assert(decreases_to!(es => es[i]));
                assert(es[i].1 == vj);
                assert(decreases_to!(es[i] => es[i].1));
                assert(decreases_to!(vj => vj->Arr_0));
            },
            _ => {},
        },
        None => {},
    }
}

#[via_fn]
proof fn media_list_dec_via(elems: Seq<JsonV>) {
    if elems.len() > 0 {
        assert(elems.drop_last() =~= elems.subrange(0, elems.len() - 1));
        assert(decreases_to!(elems => elems.subrange(0, elems.len() - 1)));
        assert(decreases_to!(elems => elems[elems.len() - 1]));
        assert(elems.last() == elems[elems.len() - 1]);
    }
}

/// Once a prefix of a color bag fails to decode, the whole bag fails the
/// same way.
proof fn lemma_colors_dec_err(s: Seq<(Seq<char>, JsonV)>, j: int)
    requires
        0 <= j <= s.len(),
        colors_dec(s.take(j)) is Err,
    ensures
        colors_dec(s) == colors_dec(s.take(j)),
    decreases s.len() - j,
{
    if j == s.len() {
        assert(s.take(j) =~= s);
    } else {
        assert(s.take(j + 1).drop_last() =~= s.take(j));
        assert(s.take(j + 1).last() == s[j]);
        lemma_colors_dec_err(s, j + 1);
    }
}

/// Once a prefix of a media list fails to decode, the whole list fails the
/// same way.
proof fn lemma_media_list_dec_err(s: Seq<JsonV>, j: int)
    requires
        0 <= j <= s.len(),
        media_list_dec(s.take(j)) is Err,
    ensures
        media_list_dec(s) == media_list_dec(s.take(j)),
    decreases s.len() - j,
{
    if j == s.len() {
        assert(s.take(j) =~= s);
    } else {
        assert(s.take(j + 1).drop_last() =~= s.take(j));
        assert(s.take(j + 1).last() == s[j]);
        lemma_media_list_dec_err(s, j + 1);
    }
}

/// Decodes a color bag: an object whose every value is a string.
fn decode_colors(ces: &Vec<(String, Json)>) -> (r: Result<Vec<(String, String)>, DecodeError>)
    ensures
        dres(r) == colors_dec(entries_view(ces@)),
{
    let ghost es = entries_view(ces@);
    let mut out: Vec<(String, String)> = Vec::new();
    proof {
        assert(es.take(0) =~= Seq::<(Seq<char>, JsonV)>::empty());
        assert(out.deep_view() =~= Seq::<(Seq<char>, Seq<char>)>::empty());
    }
    let mut i: usize = 0;
    while i < ces.len()
        invariant
            i <= ces.len(),
            es == entries_view(ces@),
            colors_dec(es.take(i as int)) == Ok::<_, DecodeError>(out.deep_view()),
        decreases ces.len() - i,
    {
        proof {
            assert(es.take(i + 1).drop_last() =~= es.take(i as int));
            assert(es.take(i + 1).last() == es[i as int]);
        }
        match &ces[i].1 {
            Json::Str(s) => {
                let k = ces[i].0.clone();
                let v = s.clone();
                let ghost old_out = out.deep_view();
                out.push((k, v));
                proof {
                    assert(out.deep_view() =~= old_out.push((ces@[i as int].0@, s@)));
                }
            },
            _ => {
                proof {
                    lemma_colors_dec_err(es, i + 1);
                }
                return Err(DecodeError::TypeMismatch);
            },
        }
        i = i + 1;
    }
    proof {
        assert(es.take(ces@.len() as int) =~= es);
    }
    Ok(out)
}

/// Encodes a color bag, keeping its entry order.
fn encode_colors(cs: &Vec<(String, String)>) -> (r: Json)
    ensures
        r@ == JsonV::Obj(colors_enc(cs.deep_view())),
{
    let mut out: Vec<(String, Json)> = Vec::new();
    let mut i: usize = 0;
    while i < cs.len()
        invariant
            i <= cs.len(),
            out@.len() == i,
            forall|k: int| 0 <= k < i ==> (#[trigger] out@[k].0)@ == cs@[k].0@ && out@[k].1@
                == JsonV::Str(cs@[k].1@),
        decreases cs.len() - i,
    {
        let k = cs[i].0.clone();
        let v = cs[i].1.clone();
        out.push((k, Json::Str(v)));
        i = i + 1;
    }
    proof {
        lemma_obj_view(out);
        assert(entries_view(out@) =~= colors_enc(cs.deep_view()));
    }
    Json::Obj(out)
}

/// Decodes a list of media objects.
fn decode_media_vec(elems: &Vec<Json>) -> (r: Result<Vec<MediaObject>, DecodeError>)
    ensures
        dres(r) == media_list_dec(elems_view(elems@)),
    decreases *elems,
{
    let ghost es = elems_view(elems@);
    let mut out: Vec<MediaObject> = Vec::new();
    proof {
        assert(es.take(0) =~= Seq::<JsonV>::empty());
        assert(out.deep_view() =~= Seq::<MediaObjectV>::empty());
    }
    let mut i: usize = 0;
    while i < elems.len()
        invariant
            i <= elems.len(),
            es == elems_view(elems@),
            media_list_dec(es.take(i as int)) == Ok::<_, DecodeError>(out.deep_view()),
        decreases elems.len() - i,
    {
        proof {
            assert(es.take(i + 1).drop_last() =~= es.take(i as int));
            assert(es.take(i + 1).last() == es[i as int]);
            assert(decreases_to!(*elems => (*elems)@));
            assert(decreases_to!((*elems)@ => (*elems)@[i as int]));
        }
        match MediaObject::decode(&elems[i]) {
            Ok(m) => {
                let ghost mv = media_deep(m);
                let ghost old_out = out.deep_view();
                out.push(m);
                proof {
                    assert(out.deep_view() =~= old_out.push(mv));
                }
            },
            Err(e) => {
                proof {
                    lemma_media_list_dec_err(es, i + 1);
                }
                return Err(e);
            },
        }
        i = i + 1;
    }
    proof {
        assert(es.take(elems@.len() as int) =~= es);
    }
    Ok(out)
}

impl MediaObject {
    /// The entry list of the scalar head of an encoded media object: every
    /// field before the nested poster, in wire order.
    pub open spec fn head_entries(v: MediaObjectV) -> Seq<(Seq<char>, JsonV)> {
        opt_entry("colors"@, ocolors(v.colors)) + opt_entry("cropped"@, obool(v.cropped))
            + opt_entry("has_original_dimensions"@, obool(v.has_original_dimensions))
            + opt_entry("height"@, oi32(v.height)) + opt_entry("media_key"@, ostr(v.media_key))
            + opt_entry(
            "original_dimensions_missing"@,
            obool(v.original_dimensions_missing),
        )
    }

    fn encode_head(&self) -> (b: ObjBuilder)
        ensures
            b.entries_v() == Self::head_entries(media_deep(*self)),
    {
        let ghost v = media_deep(*self);
        let mut b = ObjBuilder::new();
        let cj = match &self.colors {
            Some(cs) => Some(encode_colors(cs)),
            None => None,
        };
        b.push_opt("colors", cj);
        proof {
            assert(Seq::empty() + opt_entry("colors"@, ocolors(v.colors)) =~= opt_entry(
                "colors"@,
                ocolors(v.colors),
            ));
        }
        b.push_opt(
            "cropped",
            match &self.cropped {
                Some(x) => Some(Json::Bool(*x)),
                None => None,
            },
        );
        b.push_opt(
            "has_original_dimensions",
            match &self.has_original_dimensions {
                Some(x) => Some(Json::Bool(*x)),
                None => None,
            },
        );
        b.push_opt(
            "height",
            match &self.height {
                Some(x) => Some(Json::I64(*x as i64)),
                None => None,
            },
        );
        b.push_opt(
            "media_key",
            match &self.media_key {
                Some(s) => Some(Json::Str(s.clone())),
                None => None,
            },
        );
        b.push_opt(
            "original_dimensions_missing",
            match &self.original_dimensions_missing {
                Some(x) => Some(Json::Bool(*x)),
                None => None,
            },
        );
        b
    }

    #[verifier::rlimit(100)]
    pub fn encode(&self) -> (r: Json)
        ensures
            r@ == media_enc(media_deep(*self)),
        decreases *self,
    {
        let ghost v = media_deep(*self);
        let mut b = self.encode_head();
        let pj = match &self.poster {
            Some(p) => {
                proof {
                    assert(decreases_to!(*self => self.poster));
                    assert(decreases_to!(self.poster => self.poster->0));
                }
                Some(p.encode())
            },
            None => None,
        };
        proof {
            assert((match pj {
                Some(j) => Some(j@),
                None => None,
            }) == (if v.poster.len() >= 1 {
                Some(media_enc(v.poster[0]))
            } else {
                None::<JsonV>
            }));
        }
        b.push_opt("poster", pj);
        b.push_opt(
            "type",
            match &self.mime_type {
                Some(s) => Some(Json::Str(s.clone())),
                None => None,
            },
        );
        b.push_opt("url", Some(Json::Str(self.url.clone())));
        let vj = match &self.video {
            Some(vv) => {
                proof {
                    assert(decreases_to!(*self => self.video));
                    assert(decreases_to!(self.video => self.video->0));
                }
                let mut arr: Vec<Json> = Vec::new();
                let mut i: usize = 0;
                while i < vv.len()
                    invariant
                        i <= vv.len(),
                        decreases_to!(*self => *vv),
                        arr@.len() == i,
                        forall|k: int| 0 <= k < i ==> (#[trigger] arr@[k])@ == media_enc(
                            media_deep(vv@[k]),
                        ),
                    decreases vv.len() - i,
                {
                    proof {
                        assert(decreases_to!(*vv => (*vv)@));
                        assert(decreases_to!((*vv)@ => (*vv)@[i as int]));
                    }
                    arr.push(vv[i].encode());
                    i = i + 1;
                }
                proof {
                    lemma_arr_view(arr);
                    assert(elems_view(arr@) =~= media_list_enc(media_seq_deep(vv@)));
                }
                Some(Json::Arr(arr))
            },
            None => None,
        };
        proof {
            lemma_media_deep_video(*self);
            assert((match vj {
                Some(j) => Some(j@),
                None => None,
            }) == (match v.video {
                Some(vs) => Some(JsonV::Arr(media_list_enc(vs))),
                None => None::<JsonV>,
            }));
        }
        b.push_opt("video", vj);
        b.push_opt(
            "width",
            match &self.width {
                Some(x) => Some(Json::I64(*x as i64)),
                None => None,
            },
        );
        b.finish()
    }

    pub fn decode(j: &Json) -> (r: Result<MediaObject, DecodeError>)
        ensures
            dres(r) == media_dec(j@),
        decreases *j,
    {
        match j {
            Json::Obj(entries) => {
                proof {
                    lemma_obj_view(*entries);
                }
                let allowed: [&str; 11] = [
                    "colors",
                    "cropped",
                    "has_original_dimensions",
                    "height",
                    "media_key",
                    "original_dimensions_missing",
                    "poster",
                    "type",
                    "url",
                    "video",
                    "width",
                ];
                proof {
                    assert(allowed.deep_view() =~= media_keys());
                }
                if !keys_subset(entries, &allowed) {
                    return Err(DecodeError::UnknownField);
                }
                let url = match get_str(entries, "url") {
                    Err(e) => { return Err(e); },
                    Ok(x) => x,
                };
                let mime_type = match get_str_opt(entries, "type") {
                    Err(e) => { return Err(e); },
                    Ok(x) => x,
                };
                let width = match get_i32_opt(entries, "width") {
                    Err(e) => { return Err(e); },
                    Ok(x) => x,
                };
                let height = match get_i32_opt(entries, "height") {
                    Err(e) => { return Err(e); },
                    Ok(x) => x,
                };
                let original_dimensions_missing = match get_bool_opt(
                    entries,
                    "original_dimensions_missing",
                ) {
                    Err(e) => { return Err(e); },
                    Ok(x) => x,
                };
                let cropped = match get_bool_opt(entries, "cropped") {
                    Err(e) => { return Err(e); },
                    Ok(x) => x,
                };
                let has_original_dimensions = match get_bool_opt(
                    entries,
                    "has_original_dimensions",
                ) {
                    Err(e) => { return Err(e); },
                    Ok(x) => x,
                };
                let media_key = match get_str_opt(entries, "media_key") {
                    Err(e) => { return Err(e); },
                    Ok(x) => x,
                };
                let colors = match obj_get(entries, "colors") {
                    None => None,
                    Some(cj) => match cj {
                        Json::Null => None,
                        Json::Obj(ces) => {
                            proof {
                                lemma_obj_view(*ces);
                            }
                            match decode_colors(ces) {
                                Ok(cs) => Some(cs),
                                Err(e) => { return Err(e); },
                            }
                        },
                        _ => { return Err(DecodeError::TypeMismatch); },
                    },
                };
                let poster = match obj_get(entries, "poster") {
                    None => None,
                    Some(Json::Null) => None,
                    Some(pj) => {
                        proof {
                            let i = choose|i: int|
                                0 <= i < entries@.len() && #[trigger] entries@[i].1 == *pj;
                            assert(decreases_to!(*j => (*j)->Obj_0));
                            assert(decreases_to!((*j)->Obj_0 => (*j)->Obj_0@));
                            assert(decreases_to!((*j)->Obj_0@ => (*j)->Obj_0@[i]));
                            assert((*j)->Obj_0@[i].1 == *pj);
                            assert(decreases_to!((*j)->Obj_0@[i] => (*j)->Obj_0@[i].1));
                        }
                        match MediaObject::decode(pj) {
                            Ok(m) => Some(Box::new(m)),
                            Err(e) => { return Err(e); },
                        }
                    },
                };
                let video = match obj_get(entries, "video") {
                    None => None,
                    Some(vj) => match vj {
                        Json::Null => None,
                        Json::Arr(velems) => {
                            proof {
                                lemma_arr_view(*velems);
                                let i = choose|i: int|
                                    0 <= i < entries@.len() && #[trigger] entries@[i].1 == *vj;
                                assert(decreases_to!(*j => (*j)->Obj_0));
                                assert(decreases_to!((*j)->Obj_0 => (*j)->Obj_0@));
                                assert(decreases_to!((*j)->Obj_0@ => (*j)->Obj_0@[i]));
                                assert((*j)->Obj_0@[i].1 == *vj);
                                assert(decreases_to!((*j)->Obj_0@[i] => (*j)->Obj_0@[i].1));
                                assert(decreases_to!(*vj => (*vj)->Arr_0));
                            }
                            match decode_media_vec(velems) {
                                Ok(ms) => Some(ms),
                                Err(e) => {
                                    proof {
                                        assert(obj_get_v(entries_view(entries@), "video"@)
                                            == Some(vj@));
                                        assert(media_list_dec(elems_view(velems@))
                                            == Err::<Seq<MediaObjectV>, DecodeError>(e));
                                        assert(media_video_dec(entries_view(entries@))
                                            == Err::<Option<Seq<MediaObjectV>>, DecodeError>(e));
                                        assert(media_dec(j@) == Err::<MediaObjectV, DecodeError>(
                                            e));
                                    }
                                    return Err(e);
                                },
                            }
                        },
                        _ => {
                            proof {
                                assert(obj_get_v(entries_view(entries@), "video"@) == Some(vj@));
                                assert(!(vj@ is Arr));
                                assert(media_video_dec(entries_view(entries@)) == Err::<
                                    Option<Seq<MediaObjectV>>,
                                    DecodeError,
                                >(DecodeError::TypeMismatch));
                                assert(media_dec(j@) == Err::<MediaObjectV, DecodeError>(
                                    DecodeError::TypeMismatch));
                            }
                            return Err(DecodeError::TypeMismatch);
                        },
                    },
                };
                let result = MediaObject {
                    url,
                    mime_type,
                    width,
                    height,
                    original_dimensions_missing,
                    cropped,
                    has_original_dimensions,
                    media_key,
                    colors,
                    poster,
                    video,
                };
                proof {
                    lemma_media_deep_video(result);
                    match &result.video {
                        Some(vv) => {
                            assert(media_seq_deep(vv@) =~= vv.deep_view());
                        },
                        None => {},
                    }
                }
                Ok(result)
            },
            _ => Err(DecodeError::TypeMismatch),
        }
    }
}

/// Well-formedness of a media-object value: at most one nested poster, at
/// every depth.
pub open spec fn media_wf(v: MediaObjectV) -> bool
    decreases v,
{
    &&& v.poster.len() <= 1
    &&& (v.poster.len() == 1 ==> media_wf(v.poster[0]))
    &&& (match v.video {
        Some(vs) => forall|i: int| 0 <= i < vs.len() ==> media_wf(#[trigger] vs[i]),
        None => true,
    })
}

/// Law: a color bag decodes back to itself from its own encoding.
pub proof fn lemma_colors_round_trip(cs: Seq<(Seq<char>, Seq<char>)>)
    ensures
        colors_dec(colors_enc(cs)) == Ok::<Seq<(Seq<char>, Seq<char>)>, DecodeError>(cs),
    decreases cs.len(),
{
    if cs.len() == 0 {
        assert(colors_enc(cs) =~= Seq::<(Seq<char>, JsonV)>::empty());
        assert(cs =~= Seq::<(Seq<char>, Seq<char>)>::empty());
    } else {
        lemma_colors_round_trip(cs.drop_last());
        assert(colors_enc(cs).drop_last() =~= colors_enc(cs.drop_last()));
        assert(colors_enc(cs).last() == (cs.last().0, JsonV::Str(cs.last().1)));
        assert(cs.drop_last().push(cs.last()) =~= cs);
    }
}

proof fn media_keys_facts()
    ensures
        "colors"@.len() == 6,
        "cropped"@.len() == 7,
        "has_original_dimensions"@.len() == 23,
        "height"@.len() == 6,
        "media_key"@.len() == 9,
        "original_dimensions_missing"@.len() == 27,
        "poster"@.len() == 6,
        "type"@.len() == 4,
        "url"@.len() == 3,
        "video"@.len() == 5,
        "width"@.len() == 5,
        "colors"@ != "height"@,
        "colors"@ != "poster"@,
        "height"@ != "poster"@,
        "video"@ != "width"@,
        media_keys().contains("colors"@),
        media_keys().contains("cropped"@),
        media_keys().contains("has_original_dimensions"@),
        media_keys().contains("height"@),
        media_keys().contains("media_key"@),
        media_keys().contains("original_dimensions_missing"@),
        media_keys().contains("poster"@),
        media_keys().contains("type"@),
        media_keys().contains("url"@),
        media_keys().contains("video"@),
        media_keys().contains("width"@),
{
    reveal_strlit("colors");
    reveal_strlit("cropped");
    reveal_strlit("has_original_dimensions");
    reveal_strlit("height");
    reveal_strlit("media_key");
    reveal_strlit("original_dimensions_missing");
    reveal_strlit("poster");
    reveal_strlit("type");
    reveal_strlit("url");
    reveal_strlit("video");
    reveal_strlit("width");
    assert(("colors"@)[0] != ("height"@)[0]);
    assert(("colors"@)[0] != ("poster"@)[0]);
    assert(("height"@)[0] != ("poster"@)[0]);
    assert(("video"@)[0] != ("width"@)[0]);
    assert(media_keys()[0] == "colors"@);
    assert(media_keys()[1] == "cropped"@);
    assert(media_keys()[2] == "has_original_dimensions"@);
    assert(media_keys()[3] == "height"@);
    assert(media_keys()[4] == "media_key"@);
    assert(media_keys()[5] == "original_dimensions_missing"@);
    assert(media_keys()[6] == "poster"@);
    assert(media_keys()[7] == "type"@);
    assert(media_keys()[8] == "url"@);
    assert(media_keys()[9] == "video"@);
    assert(media_keys()[10] == "width"@);
}

/// Law: a well-formed media object decodes back to itself from its own
/// encoding.
/// Every lookup into an encoded media object, and its key policy.
#[verifier::rlimit(100)]
#[verifier::spinoff_prover]
proof fn lemma_media_entries_gets(v: MediaObjectV)
    ensures
        obj_get_v(media_entries(v), "colors"@) == ocolors(v.colors),
        obj_get_v(media_entries(v), "cropped"@) == obool(v.cropped),
        obj_get_v(media_entries(v), "has_original_dimensions"@) == obool(
            v.has_original_dimensions,
        ),
        obj_get_v(media_entries(v), "height"@) == oi32(v.height),
        obj_get_v(media_entries(v), "media_key"@) == ostr(v.media_key),
        obj_get_v(media_entries(v), "original_dimensions_missing"@) == obool(
            v.original_dimensions_missing,
        ),
        obj_get_v(media_entries(v), "poster"@) == (if v.poster.len() >= 1 {
            Some(media_enc(v.poster[0]))
        } else {
            None::<JsonV>
        }),
        obj_get_v(media_entries(v), "type"@) == ostr(v.mime_type),
        obj_get_v(media_entries(v), "url"@) == Some(JsonV::Str(v.url)),
        obj_get_v(media_entries(v), "video"@) == (match v.video {
            Some(vs) => Some(JsonV::Arr(media_list_enc(vs))),
            None => None::<JsonV>,
        }),
        obj_get_v(media_entries(v), "width"@) == oi32(v.width),
        keys_subset_v(media_entries(v), media_keys()),
{
    media_keys_facts();
    let s1 = opt_entry("colors"@, ocolors(v.colors));
    let s2 = opt_entry("cropped"@, obool(v.cropped));
    let s3 = opt_entry("has_original_dimensions"@, obool(v.has_original_dimensions));
    let s4 = opt_entry("height"@, oi32(v.height));
    let s5 = opt_entry("media_key"@, ostr(v.media_key));
    let s6 = opt_entry("original_dimensions_missing"@, obool(v.original_dimensions_missing));
    let s7 = opt_entry(
        "poster"@,
        if v.poster.len() >= 1 {
            Some(media_enc(v.poster[0]))
        } else {
            None
        },
    );
    let s8 = opt_entry("type"@, ostr(v.mime_type));
    let s9 = opt_entry("url"@, Some(JsonV::Str(v.url)));
    let s10 = opt_entry(
        "video"@,
        match v.video {
            Some(vs) => Some(JsonV::Arr(media_list_enc(vs))),
            None => None,
        },
    );
    let s11 = opt_entry("width"@, oi32(v.width));
    let p2 = s1 + s2;
    let p3 = p2 + s3;
    let p4 = p3 + s4;
    let p5 = p4 + s5;
    let p6 = p5 + s6;
    let p7 = p6 + s7;
    let p8 = p7 + s8;
    let p9 = p8 + s9;
    let p10 = p9 + s10;
    let p11 = p10 + s11;
    assert(media_entries(v) == p11);
    lemma_obj_get_opt_all("colors"@, ocolors(v.colors));
    lemma_obj_get_opt_all("cropped"@, obool(v.cropped));
    lemma_obj_get_opt_all("has_original_dimensions"@, obool(v.has_original_dimensions));
    lemma_obj_get_opt_all("height"@, oi32(v.height));
    lemma_obj_get_opt_all("media_key"@, ostr(v.media_key));
    lemma_obj_get_opt_all(
        "original_dimensions_missing"@,
        obool(v.original_dimensions_missing),
    );
    lemma_obj_get_opt_all(
        "poster"@,
        if v.poster.len() >= 1 {
            Some(media_enc(v.poster[0]))
        } else {
            None
        },
    );
    lemma_obj_get_opt_all("type"@, ostr(v.mime_type));
    lemma_obj_get_opt_all("url"@, Some(JsonV::Str(v.url)));
    lemma_obj_get_opt_all(
        "video"@,
        match v.video {
            Some(vs) => Some(JsonV::Arr(media_list_enc(vs))),
            None => None,
        },
    );
    lemma_obj_get_opt_all("width"@, oi32(v.width));
    lemma_obj_get_append_all(s1, s2);
    lemma_obj_get_append_all(p2, s3);
    lemma_obj_get_append_all(p3, s4);
    lemma_obj_get_append_all(p4, s5);
    lemma_obj_get_append_all(p5, s6);
    lemma_obj_get_append_all(p6, s7);
    lemma_obj_get_append_all(p7, s8);
    lemma_obj_get_append_all(p8, s9);
    lemma_obj_get_append_all(p9, s10);
    lemma_obj_get_append_all(p10, s11);
    let ks = media_keys();
    lemma_keys_subset_opt("colors"@, ocolors(v.colors), ks);
    lemma_keys_subset_opt("cropped"@, obool(v.cropped), ks);
    lemma_keys_subset_opt("has_original_dimensions"@, obool(v.has_original_dimensions), ks);
    lemma_keys_subset_opt("height"@, oi32(v.height), ks);
    lemma_keys_subset_opt("media_key"@, ostr(v.media_key), ks);
    lemma_keys_subset_opt(
        "original_dimensions_missing"@,
        obool(v.original_dimensions_missing),
        ks,
    );
    lemma_keys_subset_opt(
        "poster"@,
        if v.poster.len() >= 1 {
            Some(media_enc(v.poster[0]))
        } else {
            None
        },
        ks,
    );
    lemma_keys_subset_opt("type"@, ostr(v.mime_type), ks);
    lemma_keys_subset_opt("url"@, Some(JsonV::Str(v.url)), ks);
    lemma_keys_subset_opt(
        "video"@,
        match v.video {
            Some(vs) => Some(JsonV::Arr(media_list_enc(vs))),
            None => None,
        },
        ks,
    );
    lemma_keys_subset_opt("width"@, oi32(v.width), ks);
    lemma_keys_subset_concat(s1, s2, ks);
    lemma_keys_subset_concat(p2, s3, ks);
    lemma_keys_subset_concat(p3, s4, ks);
    lemma_keys_subset_concat(p4, s5, ks);
    lemma_keys_subset_concat(p5, s6, ks);
    lemma_keys_subset_concat(p6, s7, ks);
    lemma_keys_subset_concat(p7, s8, ks);
    lemma_keys_subset_concat(p8, s9, ks);
    lemma_keys_subset_concat(p9, s10, ks);
    lemma_keys_subset_concat(p10, s11, ks);
}

/// Law: a well-formed media object decodes back to itself from its own
/// encoding.
#[verifier::rlimit(100)]
#[verifier::spinoff_prover]
pub proof fn lemma_media_round_trip(v: MediaObjectV)
    requires
        media_wf(v),
    ensures
        media_dec(media_enc(v)) == Ok::<MediaObjectV, DecodeError>(v),
    decreases v,
{
    media_keys_facts();
    lemma_media_entries_gets(v);
    let es = media_entries(v);
    match v.colors {
        Some(cs) => lemma_colors_round_trip(cs),
        None => {},
    }
    if v.poster.len() == 1 {
        lemma_media_round_trip(v.poster[0]);
        assert(seq![v.poster[0]] =~= v.poster);
        assert(media_enc(v.poster[0]) != JsonV::Null);
    } else {
        assert(v.poster =~= Seq::<MediaObjectV>::empty());
    }
    match v.video {
        Some(vs) => {
            assert(decreases_to!(v => v.video));
            assert(decreases_to!(v.video => v.video->0));
            lemma_media_list_round_trip(vs);
            assert(media_enc(v) == JsonV::Obj(es));
            assert(obj_get_v(es, "video"@) == Some(JsonV::Arr(media_list_enc(vs))));
            assert(media_video_dec(es) == Ok::<Option<Seq<MediaObjectV>>, DecodeError>(
                Some(vs),
            ));
            assert(f_str(es, "url"@) == Ok::<Seq<char>, DecodeError>(v.url));
            assert(f_colors(es, "colors"@) == Ok::<
                Option<Seq<(Seq<char>, Seq<char>)>>,
                DecodeError,
            >(v.colors));
            assert(media_dec(JsonV::Obj(es)) == Ok::<MediaObjectV, DecodeError>(v));
        },
        None => {
            assert(media_video_dec(es) == Ok::<Option<Seq<MediaObjectV>>, DecodeError>(
                None,
            ));
        },
    }
}

/// Law: a list of well-formed media objects decodes back to itself from
/// its own encoding.
pub proof fn lemma_media_list_round_trip(vs: Seq<MediaObjectV>)
    requires
        forall|i: int| 0 <= i < vs.len() ==> media_wf(#[trigger] vs[i]),
    ensures
        media_list_dec(media_list_enc(vs)) == Ok::<Seq<MediaObjectV>, DecodeError>(vs),
    decreases vs,
{
    if vs.len() == 0 {
        assert(media_list_enc(vs) =~= Seq::<JsonV>::empty());
        assert(vs =~= Seq::<MediaObjectV>::empty());
    } else {
        assert(vs.drop_last() =~= vs.subrange(0, vs.len() - 1));
        assert(decreases_to!(vs => vs.subrange(0, vs.len() - 1)));
        lemma_media_list_round_trip(vs.drop_last());
        assert(decreases_to!(vs => vs[vs.len() - 1]));
        lemma_media_round_trip(vs.last());
        assert(media_list_enc(vs).drop_last() =~= media_list_enc(vs.drop_last()));
        assert(media_list_enc(vs).last() == media_enc(vs.last()));
        assert(vs.drop_last().push(vs.last()) =~= vs);
    }
}

// ---------------------------------------------------------------------------
// Post: the minimal cross-reference an attribution carries.
// ---------------------------------------------------------------------------
#[derive(Debug, PartialEq, Eq)]
pub struct Post {
    pub id: String,
}

pub struct PostV {
    pub id: Seq<char>,
}

impl DeepView for Post {
    type V = PostV;

    open spec fn deep_view(&self) -> PostV {
        PostV { id: self.id.deep_view() }
    }
}

pub open spec fn post_enc(v: PostV) -> JsonV {
    JsonV::Obj(opt_entry("id"@, Some(JsonV::Str(v.id))))
}

pub open spec fn post_dec(j: JsonV) -> Result<PostV, DecodeError> {
    match j {
        JsonV::Obj(es) => if !keys_subset_v(es, seq!["id"@]) {
            Err(DecodeError::UnknownField)
        } else {
            match f_str(es, "id"@) {
                Err(e) => Err(e),
                Ok(id) => Ok(PostV { id }),
            }
        },
        _ => Err(DecodeError::TypeMismatch),
    }
}

impl Post {
    pub fn encode(&self) -> (r: Json)
        ensures
            r@ == post_enc(self.deep_view()),
    {
        let mut b = ObjBuilder::new();
        b.push_opt("id", Some(Json::Str(self.id.clone())));
        proof {
            assert(b.entries_v() =~= opt_entry("id"@, Some(JsonV::Str(self.id@))));
        }
        b.finish()
    }

    pub fn decode(j: &Json) -> (r: Result<Post, DecodeError>)
        ensures
            dres(r) == post_dec(j@),
    {
        match j {
            Json::Obj(entries) => {
                proof {
                    lemma_obj_view(*entries);
                }
                let allowed: [&str; 1] = ["id"];
                proof {
                    assert(allowed.deep_view() =~= seq!["id"@]);
                }
                if !keys_subset(entries, &allowed) {
                    return Err(DecodeError::UnknownField);
                }
                let id = match get_str(entries, "id") {
                    Err(e) => { return Err(e); },
                    Ok(s) => s,
                };
                Ok(Post { id })
            },
            _ => Err(DecodeError::TypeMismatch),
        }
    }
}

/// Law: a post reference decodes back to itself from its own encoding.
pub proof fn lemma_post_round_trip(v: PostV)
    ensures
        post_dec(post_enc(v)) == Ok::<PostV, DecodeError>(v),
{
    lemma_obj_get_opt_all("id"@, Some(JsonV::Str(v.id)));
    assert(seq!["id"@][0] == "id"@);
    lemma_keys_subset_opt("id"@, Some(JsonV::Str(v.id)), seq!["id"@]);
}

// ---------------------------------------------------------------------------
// EmbedIframe: how a video is framed into a page. Absent dimensions are
// omitted on encode; a null on the wire reads as absent.
// ---------------------------------------------------------------------------
#[derive(Debug, PartialEq, Eq)]
pub struct EmbedIframe {
    pub url: String,
    pub width: Option<i32>,
    pub height: Option<i32>,
}

pub struct EmbedIframeV {
    pub url: Seq<char>,
    pub width: Option<i32>,
    pub height: Option<i32>,
}

impl DeepView for EmbedIframe {
    type V = EmbedIframeV;

    open spec fn deep_view(&self) -> EmbedIframeV {
        EmbedIframeV { url: self.url.deep_view(), width: self.width, height: self.height }
    }
}

pub open spec fn embed_iframe_enc(v: EmbedIframeV) -> JsonV {
    JsonV::Obj(
        opt_entry("height"@, oi32(v.height)) + opt_entry(
            "url"@,
            Some(JsonV::Str(v.url)),
        ) + opt_entry("width"@, oi32(v.width)),
    )
}

pub open spec fn embed_iframe_dec(j: JsonV) -> Result<EmbedIframeV, DecodeError> {
    match j {
        JsonV::Obj(es) => if !keys_subset_v(es, seq!["height"@, "url"@, "width"@]) {
            Err(DecodeError::UnknownField)
        } else {
            match f_str(es, "url"@) {
                Err(e) => Err(e),
                Ok(url) => match f_i32_opt(es, "width"@) {
                    Err(e) => Err(e),
                    Ok(width) => match f_i32_opt(es, "height"@) {
                        Err(e) => Err(e),
                        Ok(height) => Ok(EmbedIframeV { url, width, height }),
                    },
                },
            }
        },
        _ => Err(DecodeError::TypeMismatch),
    }
}

impl EmbedIframe {
    pub fn encode(&self) -> (r: Json)
        ensures
            r@ == embed_iframe_enc(self.deep_view()),
    {
        let mut b = ObjBuilder::new();
        b.push_opt(
            "height",
            match &self.height {
                Some(h) => Some(Json::I64(*h as i64)),
                None => None,
            },
        );
        proof {
            assert(Seq::empty() + opt_entry("height"@, oi32(self.height)) =~= opt_entry(
                "height"@,
                oi32(self.height),
            ));
        }
        b.push_opt("url", Some(Json::Str(self.url.clone())));
        b.push_opt(
            "width",
            match &self.width {
                Some(w) => Some(Json::I64(*w as i64)),
                None => None,
            },
        );
        b.finish()
    }

    pub fn decode(j: &Json) -> (r: Result<EmbedIframe, DecodeError>)
        ensures
            dres(r) == embed_iframe_dec(j@),
    {
        match j {
            Json::Obj(entries) => {
                proof {
                    lemma_obj_view(*entries);
                }
                let allowed: [&str; 3] = ["height", "url", "width"];
                proof {
                    assert(allowed.deep_view() =~= seq!["height"@, "url"@, "width"@]);
                }
                if !keys_subset(entries, &allowed) {
                    return Err(DecodeError::UnknownField);
                }
                let url = match get_str(entries, "url") {
                    Err(e) => { return Err(e); },
                    Ok(s) => s,
                };
                let width = match get_i32_opt(entries, "width") {
                    Err(e) => { return Err(e); },
                    Ok(x) => x,
                };
                let height = match get_i32_opt(entries, "height") {
                    Err(e) => { return Err(e); },
                    Ok(x) => x,
                };
                Ok(EmbedIframe { url, width, height })
            },
            _ => Err(DecodeError::TypeMismatch),
        }
    }
}

/// Law: an embed frame decodes back to itself from its own encoding.
pub proof fn lemma_embed_iframe_round_trip(v: EmbedIframeV)
    ensures
        embed_iframe_dec(embed_iframe_enc(v)) == Ok::<EmbedIframeV, DecodeError>(v),
{
    reveal_strlit("height");
    reveal_strlit("url");
    reveal_strlit("width");
    assert("height"@.len() == 6);
    assert("url"@.len() == 3);
    assert("width"@.len() == 5);
    let s1 = opt_entry("height"@, oi32(v.height));
    let s2 = opt_entry("url"@, Some(JsonV::Str(v.url)));
    let s3 = opt_entry("width"@, oi32(v.width));
    let ks = seq!["height"@, "url"@, "width"@];
    lemma_obj_get_opt_all("height"@, oi32(v.height));
    lemma_obj_get_opt_all("url"@, Some(JsonV::Str(v.url)));
    lemma_obj_get_opt_all("width"@, oi32(v.width));
    lemma_obj_get_append_all(s1, s2);
    lemma_obj_get_append_all(s1 + s2, s3);
    lemma_keys_subset_opt("height"@, oi32(v.height), ks);
    lemma_keys_subset_opt("url"@, Some(JsonV::Str(v.url)), ks);
    lemma_keys_subset_opt("width"@, oi32(v.width), ks);
    lemma_keys_subset_concat(s1, s2, ks);
    lemma_keys_subset_concat(s1 + s2, s3, ks);
}

// ---------------------------------------------------------------------------
// Clickthrough: where an image block links to. The deep link is a unit
// marker: set, it is written as null (its only wire form); absent, it is
// omitted.
// ---------------------------------------------------------------------------
#[derive(Debug, PartialEq, Eq)]
pub struct Clickthrough {
    pub web_url: String,
    pub deeplink_url: Option<()>,
}

pub struct ClickthroughV {
    pub web_url: Seq<char>,
    pub deeplink_url: Option<()>,
}

impl DeepView for Clickthrough {
    type V = ClickthroughV;

    open spec fn deep_view(&self) -> ClickthroughV {
        ClickthroughV { web_url: self.web_url.deep_view(), deeplink_url: self.deeplink_url }
    }
}

pub open spec fn clickthrough_enc(v: ClickthroughV) -> JsonV {
    JsonV::Obj(
        opt_entry(
            "deeplink_url"@,
            match v.deeplink_url {
                Some(_) => Some(JsonV::Null),
                None => None,
            },
        ) + opt_entry(
            "web_url"@,
            Some(JsonV::Str(v.web_url)),
        ),
    )
}

pub open spec fn clickthrough_dec(j: JsonV) -> Result<ClickthroughV, DecodeError> {
    match j {
        JsonV::Obj(es) => if !keys_subset_v(es, seq!["deeplink_url"@, "web_url"@]) {
            Err(DecodeError::UnknownField)
        } else {
            match f_str(es, "web_url"@) {
                Err(e) => Err(e),
                Ok(web_url) => match obj_get_v(es, "deeplink_url"@) {
                    None => Ok(ClickthroughV { web_url, deeplink_url: None }),
                    Some(JsonV::Null) => Ok(ClickthroughV { web_url, deeplink_url: None }),
                    Some(_) => Err(DecodeError::TypeMismatch),
                },
            }
        },
        _ => Err(DecodeError::TypeMismatch),
    }
}

impl Clickthrough {
    pub fn encode(&self) -> (r: Json)
        ensures
            r@ == clickthrough_enc(self.deep_view()),
    {
        let ghost v = self.deep_view();
        let mut b = ObjBuilder::new();
        b.push_opt(
            "deeplink_url",
            match &self.deeplink_url {
                Some(_) => Some(Json::Null),
                None => None,
            },
        );
        proof {
            let seg = opt_entry(
                "deeplink_url"@,
                match v.deeplink_url {
                    Some(_) => Some(JsonV::Null),
                    None => None,
                },
            );
            assert(Seq::empty() + seg =~= seg);
        }
        b.push_opt("web_url", Some(Json::Str(self.web_url.clone())));
        b.finish()
    }

    pub fn decode(j: &Json) -> (r: Result<Clickthrough, DecodeError>)
        ensures
            dres(r) == clickthrough_dec(j@),
    {
        match j {
            Json::Obj(entries) => {
                proof {
                    lemma_obj_view(*entries);
                }
                let allowed: [&str; 2] = ["deeplink_url", "web_url"];
                proof {
                    assert(allowed.deep_view() =~= seq!["deeplink_url"@, "web_url"@]);
                }
                if !keys_subset(entries, &allowed) {
                    return Err(DecodeError::UnknownField);
                }
                let web_url = match get_str(entries, "web_url") {
                    Err(e) => { return Err(e); },
                    Ok(s) => s,
                };
                match obj_get(entries, "deeplink_url") {
                    None => Ok(Clickthrough { web_url, deeplink_url: None }),
                    Some(Json::Null) => Ok(Clickthrough { web_url, deeplink_url: None }),
                    Some(_) => Err(DecodeError::TypeMismatch),
                }
            },
            _ => Err(DecodeError::TypeMismatch),
        }
    }
}

/// Law: a clickthrough with no deep link decodes back to itself from its
/// own encoding. (A set deep-link marker is written as null, which reads
/// back as unset, matching the wire's behaviour.)
pub proof fn lemma_clickthrough_round_trip(v: ClickthroughV)
    requires
        v.deeplink_url is None,
    ensures
        clickthrough_dec(clickthrough_enc(v)) == Ok::<ClickthroughV, DecodeError>(v),
{
    reveal_strlit("deeplink_url");
    reveal_strlit("web_url");
    assert("deeplink_url"@.len() == 12);
    assert("web_url"@.len() == 7);
    let s1 = opt_entry(
        "deeplink_url"@,
        match v.deeplink_url {
            Some(_) => Some(JsonV::Null),
            None => None,
        },
    );
    let s2 = opt_entry("web_url"@, Some(JsonV::Str(v.web_url)));
    let ks = seq!["deeplink_url"@, "web_url"@];
    lemma_obj_get_opt_all(
        "deeplink_url"@,
        match v.deeplink_url {
            Some(_) => Some(JsonV::Null),
            None => None,
        },
    );
    lemma_obj_get_opt_all("web_url"@, Some(JsonV::Str(v.web_url)));
    lemma_obj_get_append_all(s1, s2);
    lemma_keys_subset_opt(
        "deeplink_url"@,
        match v.deeplink_url {
            Some(_) => Some(JsonV::Null),
            None => None,
        },
        ks,
    );
    lemma_keys_subset_opt("web_url"@, Some(JsonV::Str(v.web_url)), ks);
    lemma_keys_subset_concat(s1, s2, ks);
}

// ---------------------------------------------------------------------------
// PollAnswer and PollSettings: the parts of a poll block.
// ---------------------------------------------------------------------------
#[derive(Debug, PartialEq, Eq)]
pub struct PollAnswer {
    pub answer_text: String,
    pub client_id: String,
}

pub struct PollAnswerV {
    pub answer_text: Seq<char>,
    pub client_id: Seq<char>,
}

impl DeepView for PollAnswer {
    type V = PollAnswerV;

    open spec fn deep_view(&self) -> PollAnswerV {
        PollAnswerV {
            answer_text: self.answer_text.deep_view(),
            client_id: self.client_id.deep_view(),
        }
    }
}

pub open spec fn poll_answer_enc(v: PollAnswerV) -> JsonV {
    JsonV::Obj(
        opt_entry("answer_text"@, Some(JsonV::Str(v.answer_text))) + opt_entry(
            "client_id"@,
            Some(JsonV::Str(v.client_id)),
        ),
    )
}

pub open spec fn poll_answer_dec(j: JsonV) -> Result<PollAnswerV, DecodeError> {
    match j {
        JsonV::Obj(es) => if !keys_subset_v(es, seq!["answer_text"@, "client_id"@]) {
            Err(DecodeError::UnknownField)
        } else {
            match f_str(es, "answer_text"@) {
                Err(e) => Err(e),
                Ok(answer_text) => match f_str(es, "client_id"@) {
                    Err(e) => Err(e),
                    Ok(client_id) => Ok(PollAnswerV { answer_text, client_id }),
                },
            }
        },
        _ => Err(DecodeError::TypeMismatch),
    }
}

impl PollAnswer {
    pub fn encode(&self) -> (r: Json)
        ensures
            r@ == poll_answer_enc(self.deep_view()),
    {
        let mut b = ObjBuilder::new();
        b.push_opt("answer_text", Some(Json::Str(self.answer_text.clone())));
        proof {
            assert(Seq::empty() + opt_entry("answer_text"@, Some(JsonV::Str(self.answer_text@)))
                =~= opt_entry("answer_text"@, Some(JsonV::Str(self.answer_text@))));
        }
        b.push_opt("client_id", Some(Json::Str(self.client_id.clone())));
        b.finish()
    }

    pub fn decode(j: &Json) -> (r: Result<PollAnswer, DecodeError>)
        ensures
            dres(r) == poll_answer_dec(j@),
    {
        match j {
            Json::Obj(entries) => {
                proof {
                    lemma_obj_view(*entries);
                }
                let allowed: [&str; 2] = ["answer_text", "client_id"];
                proof {
                    assert(allowed.deep_view() =~= seq!["answer_text"@, "client_id"@]);
                }
                if !keys_subset(entries, &allowed) {
                    return Err(DecodeError::UnknownField);
                }
                let answer_text = match get_str(entries, "answer_text") {
                    Err(e) => { return Err(e); },
                    Ok(s) => s,
                };
                let client_id = match get_str(entries, "client_id") {
                    Err(e) => { return Err(e); },
                    Ok(s) => s,
                };
                Ok(PollAnswer { answer_text, client_id })
            },
            _ => Err(DecodeError::TypeMismatch),
        }
    }
}

/// Law: a poll answer decodes back to itself from its own encoding.
pub proof fn lemma_poll_answer_round_trip(v: PollAnswerV)
    ensures
        poll_answer_dec(poll_answer_enc(v)) == Ok::<PollAnswerV, DecodeError>(v),
{
    reveal_strlit("answer_text");
    reveal_strlit("client_id");
    assert("answer_text"@.len() == 11);
    assert("client_id"@.len() == 9);
    let s1 = opt_entry("answer_text"@, Some(JsonV::Str(v.answer_text)));
    let s2 = opt_entry("client_id"@, Some(JsonV::Str(v.client_id)));
    let ks = seq!["answer_text"@, "client_id"@];
    lemma_obj_get_opt_all("answer_text"@, Some(JsonV::Str(v.answer_text)));
    lemma_obj_get_opt_all("client_id"@, Some(JsonV::Str(v.client_id)));
    lemma_obj_get_append_all(s1, s2);
    lemma_keys_subset_opt("answer_text"@, Some(JsonV::Str(v.answer_text)), ks);
    lemma_keys_subset_opt("client_id"@, Some(JsonV::Str(v.client_id)), ks);
    lemma_keys_subset_concat(s1, s2, ks);
}

#[derive(Debug, PartialEq, Eq)]
pub struct PollSettings {
    pub multiple_choice: bool,
    pub close_status: String,
    pub expire_after: i64,
    pub source: String,
}

pub struct PollSettingsV {
    pub multiple_choice: bool,
    pub close_status: Seq<char>,
    pub expire_after: i64,
    pub source: Seq<char>,
}

impl DeepView for PollSettings {
    type V = PollSettingsV;

    open spec fn deep_view(&self) -> PollSettingsV {
        PollSettingsV {
            multiple_choice: self.multiple_choice,
            close_status: self.close_status.deep_view(),
            expire_after: self.expire_after,
            source: self.source.deep_view(),
        }
    }
}

pub open spec fn poll_settings_enc(v: PollSettingsV) -> JsonV {
    JsonV::Obj(
        opt_entry("close_status"@, Some(JsonV::Str(v.close_status))) + opt_entry(
            "expire_after"@,
            Some(JsonV::I64(v.expire_after)),
        ) + opt_entry("multiple_choice"@, Some(JsonV::Bool(v.multiple_choice))) + opt_entry(
            "source"@,
            Some(JsonV::Str(v.source)),
        ),
    )
}

pub open spec fn poll_settings_dec(j: JsonV) -> Result<PollSettingsV, DecodeError> {
    match j {
        JsonV::Obj(es) => if !keys_subset_v(
            es,
            seq!["close_status"@, "expire_after"@, "multiple_choice"@, "source"@],
        ) {
            Err(DecodeError::UnknownField)
        } else {
            match f_bool(es, "multiple_choice"@) {
                Err(e) => Err(e),
                Ok(multiple_choice) => match f_str(es, "close_status"@) {
                    Err(e) => Err(e),
                    Ok(close_status) => match f_i64(es, "expire_after"@) {
                        Err(e) => Err(e),
                        Ok(expire_after) => match f_str(es, "source"@) {
                            Err(e) => Err(e),
                            Ok(source) => Ok(
                                PollSettingsV {
                                    multiple_choice,
                                    close_status,
                                    expire_after,
                                    source,
                                },
                            ),
                        },
                    },
                },
            }
        },
        _ => Err(DecodeError::TypeMismatch),
    }
}

impl PollSettings {
    pub fn encode(&self) -> (r: Json)
        ensures
            r@ == poll_settings_enc(self.deep_view()),
    {
        let mut b = ObjBuilder::new();
        b.push_opt("close_status", Some(Json::Str(self.close_status.clone())));
        proof {
            assert(Seq::empty() + opt_entry("close_status"@, Some(JsonV::Str(self.close_status@)))
                =~= opt_entry("close_status"@, Some(JsonV::Str(self.close_status@))));
        }
        b.push_opt("expire_after", Some(Json::I64(self.expire_after)));
        b.push_opt("multiple_choice", Some(Json::Bool(self.multiple_choice)));
        b.push_opt("source", Some(Json::Str(self.source.clone())));
        b.finish()
    }

    pub fn decode(j: &Json) -> (r: Result<PollSettings, DecodeError>)
        ensures
            dres(r) == poll_settings_dec(j@),
    {
        match j {
            Json::Obj(entries) => {
                proof {
                    lemma_obj_view(*entries);
                }
                let allowed: [&str; 4] = [
                    "close_status",
                    "expire_after",
                    "multiple_choice",
                    "source",
                ];
                proof {
                    assert(allowed.deep_view() =~= seq![
                        "close_status"@,
                        "expire_after"@,
                        "multiple_choice"@,
                        "source"@,
                    ]);
                }
                if !keys_subset(entries, &allowed) {
                    return Err(DecodeError::UnknownField);
                }
                let multiple_choice = match get_bool(entries, "multiple_choice") {
                    Err(e) => { return Err(e); },
                    Ok(x) => x,
                };
                let close_status = match get_str(entries, "close_status") {
                    Err(e) => { return Err(e); },
                    Ok(s) => s,
                };
                let expire_after = match get_i64(entries, "expire_after") {
                    Err(e) => { return Err(e); },
                    Ok(x) => x,
                };
                let source = match get_str(entries, "source") {
                    Err(e) => { return Err(e); },
                    Ok(s) => s,
                };
                Ok(PollSettings { multiple_choice, close_status, expire_after, source })
            },
            _ => Err(DecodeError::TypeMismatch),
        }
    }
}

/// Law: poll settings decode back to themselves from their own encoding.
pub proof fn lemma_poll_settings_round_trip(v: PollSettingsV)
    ensures
        poll_settings_dec(poll_settings_enc(v)) == Ok::<PollSettingsV, DecodeError>(v),
{
    reveal_strlit("close_status");
    reveal_strlit("expire_after");
    reveal_strlit("multiple_choice");
    reveal_strlit("source");
    assert("close_status"@.len() == 12);
    assert("expire_after"@.len() == 12);
    assert("multiple_choice"@.len() == 15);
    assert("source"@.len() == 6);
    assert(("close_status"@)[0] != ("expire_after"@)[0]);
    assert("close_status"@ != "expire_after"@);
    let s1 = opt_entry("close_status"@, Some(JsonV::Str(v.close_status)));
    let s2 = opt_entry("expire_after"@, Some(JsonV::I64(v.expire_after)));
    let s3 = opt_entry("multiple_choice"@, Some(JsonV::Bool(v.multiple_choice)));
    let s4 = opt_entry("source"@, Some(JsonV::Str(v.source)));
    let ks = seq!["close_status"@, "expire_after"@, "multiple_choice"@, "source"@];
    lemma_obj_get_opt_all("close_status"@, Some(JsonV::Str(v.close_status)));
    lemma_obj_get_opt_all("expire_after"@, Some(JsonV::I64(v.expire_after)));
    lemma_obj_get_opt_all("multiple_choice"@, Some(JsonV::Bool(v.multiple_choice)));
    lemma_obj_get_opt_all("source"@, Some(JsonV::Str(v.source)));
    lemma_obj_get_append_all(s1, s2);
    lemma_obj_get_append_all(s1 + s2, s3);
    lemma_obj_get_append_all(s1 + s2 + s3, s4);
    lemma_keys_subset_opt("close_status"@, Some(JsonV::Str(v.close_status)), ks);
    lemma_keys_subset_opt("expire_after"@, Some(JsonV::I64(v.expire_after)), ks);
    lemma_keys_subset_opt("multiple_choice"@, Some(JsonV::Bool(v.multiple_choice)), ks);
    lemma_keys_subset_opt("source"@, Some(JsonV::Str(v.source)), ks);
    lemma_keys_subset_concat(s1, s2, ks);
    lemma_keys_subset_concat(s1 + s2, s3, ks);
    lemma_keys_subset_concat(s1 + s2 + s3, s4, ks);
}

// ---------------------------------------------------------------------------
// InlineFormat: one formatting span over a text block, the span's bounds
// flattened beside the kind's own fields.
// ---------------------------------------------------------------------------
#[derive(Debug, PartialEq, Eq)]
pub struct InlineFormat {
    pub start: i32,
    pub end: i32,
    pub format: InlineFormatType,
}

#[derive(Debug, PartialEq, Eq)]
pub enum InlineFormatType {
    Bold,
    Italic,
    Strikethrough,
    Small,
    Link { url: String },
    Mention { blog: MentionBlog },
    Color { hex: String },
}

pub struct InlineFormatV {
    pub start: i32,
    pub end: i32,
    pub format: InlineFormatTypeV,
}

pub enum InlineFormatTypeV {
    Bold,
    Italic,
    Strikethrough,
    Small,
    Link { url: Seq<char> },
    Mention { blog: MentionBlogV },
    Color { hex: Seq<char> },
}

impl DeepView for InlineFormatType {
    type V = InlineFormatTypeV;

    open spec fn deep_view(&self) -> InlineFormatTypeV {
        match self {
            InlineFormatType::Bold => InlineFormatTypeV::Bold,
            InlineFormatType::Italic => InlineFormatTypeV::Italic,
            InlineFormatType::Strikethrough => InlineFormatTypeV::Strikethrough,
            InlineFormatType::Small => InlineFormatTypeV::Small,
            InlineFormatType::Link { url } => InlineFormatTypeV::Link { url: url.deep_view() },
            InlineFormatType::Mention { blog } => InlineFormatTypeV::Mention {
                blog: blog.deep_view(),
            },
            InlineFormatType::Color { hex } => InlineFormatTypeV::Color { hex: hex.deep_view() },
        }
    }
}

impl DeepView for InlineFormat {
    type V = InlineFormatV;

    open spec fn deep_view(&self) -> InlineFormatV {
        InlineFormatV { start: self.start, end: self.end, format: self.format.deep_view() }
    }
}

/// The span bounds every formatting kind carries.
pub open spec fn span_bounds(v: InlineFormatV) -> Seq<(Seq<char>, JsonV)> {
    opt_entry("end"@, Some(JsonV::I64(v.end as i64))) + opt_entry(
        "start"@,
        Some(JsonV::I64(v.start as i64)),
    )
}

pub open spec fn inline_format_enc(v: InlineFormatV) -> JsonV {
    JsonV::Obj(
        match v.format {
            InlineFormatTypeV::Bold => span_bounds(v) + opt_entry(
                "type"@,
                Some(JsonV::Str("bold"@)),
            ),
            InlineFormatTypeV::Italic => span_bounds(v) + opt_entry(
                "type"@,
                Some(JsonV::Str("italic"@)),
            ),
            InlineFormatTypeV::Strikethrough => span_bounds(v) + opt_entry(
                "type"@,
                Some(JsonV::Str("strikethrough"@)),
            ),
            InlineFormatTypeV::Small => span_bounds(v) + opt_entry(
                "type"@,
                Some(JsonV::Str("small"@)),
            ),
            InlineFormatTypeV::Link { url } => span_bounds(v) + opt_entry(
                "type"@,
                Some(JsonV::Str("link"@)),
            ) + opt_entry("url"@, Some(JsonV::Str(url))),
            InlineFormatTypeV::Mention { blog } => opt_entry(
                "blog"@,
                Some(mention_blog_enc(blog)),
            ) + span_bounds(v) + opt_entry("type"@, Some(JsonV::Str("mention"@))),
            InlineFormatTypeV::Color { hex } => opt_entry(
                "end"@,
                Some(JsonV::I64(v.end as i64)),
            ) + opt_entry("hex"@, Some(JsonV::Str(hex))) + opt_entry(
                "start"@,
                Some(JsonV::I64(v.start as i64)),
            ) + opt_entry("type"@, Some(JsonV::Str("color"@))),
        },
    )
}

/// Whether a span's bounds are ordered, as every well-formed span's are.
pub open spec fn span_wf(v: InlineFormatV) -> bool {
    v.start <= v.end
}

/// Whether every formatting span a text block carries is well formed.
pub open spec fn text_block_wf(x: ContentBlockTextV) -> bool {
    match x.formatting {
        Some(fs) => forall|i: int| 0 <= i < fs.len() ==> span_wf(#[trigger] fs[i]),
        None => true,
    }
}

/// Decodes the two bound fields and pairs them with a plain kind. Reversed
/// bounds are refused.
pub open spec fn span_dec(es: Seq<(Seq<char>, JsonV)>, f: InlineFormatTypeV) -> Result<
    InlineFormatV,
    DecodeError,
> {
    if !keys_subset_v(es, seq!["end"@, "start"@, "type"@]) {
        Err(DecodeError::UnknownField)
    } else {
        match f_i32(es, "start"@) {
            Err(e) => Err(e),
            Ok(start) => match f_i32(es, "end"@) {
                Err(e) => Err(e),
                Ok(end) => if start <= end {
                    Ok(InlineFormatV { start, end, format: f })
                } else {
                    Err(DecodeError::ConstraintViolated)
                },
            },
        }
    }
}

pub open spec fn inline_format_dec(j: JsonV) -> Result<InlineFormatV, DecodeError> {
    match j {
        JsonV::Obj(es) => match f_str(es, "type"@) {
            Err(e) => Err(e),
            Ok(t) => if t == "bold"@ {
                span_dec(es, InlineFormatTypeV::Bold)
            } else if t == "italic"@ {
                span_dec(es, InlineFormatTypeV::Italic)
            } else if t == "strikethrough"@ {
                span_dec(es, InlineFormatTypeV::Strikethrough)
            } else if t == "small"@ {
                span_dec(es, InlineFormatTypeV::Small)
            } else if t == "link"@ {
                if !keys_subset_v(es, seq!["end"@, "start"@, "type"@, "url"@]) {
                    Err(DecodeError::UnknownField)
                } else {
                    match f_i32(es, "start"@) {
                        Err(e) => Err(e),
                        Ok(start) => match f_i32(es, "end"@) {
                            Err(e) => Err(e),
                            Ok(end) => if start > end {
                                Err(DecodeError::ConstraintViolated)
                            } else {
                                match f_str(es, "url"@) {
                                    Err(e) => Err(e),
                                    Ok(url) => Ok(
                                        InlineFormatV {
                                            start,
                                            end,
                                            format: InlineFormatTypeV::Link { url },
                                        },
                                    ),
                                }
                            },
                        },
                    }
                }
            } else if t == "mention"@ {
                if !keys_subset_v(es, seq!["blog"@, "end"@, "start"@, "type"@]) {
                    Err(DecodeError::UnknownField)
                } else {
                    match f_i32(es, "start"@) {
                        Err(e) => Err(e),
                        Ok(start) => match f_i32(es, "end"@) {
                            Err(e) => Err(e),
                            Ok(end) => if start > end {
                                Err(DecodeError::ConstraintViolated)
                            } else {
                                match obj_get_v(es, "blog"@) {
                                    None => Err(DecodeError::MissingField),
                                    Some(bj) => match mention_blog_dec(bj) {
                                        Err(e) => Err(e),
                                        Ok(blog) => Ok(
                                            InlineFormatV {
                                                start,
                                                end,
                                                format: InlineFormatTypeV::Mention { blog },
                                            },
                                        ),
                                    },
                                }
                            },
                        },
                    }
                }
            } else if t == "color"@ {
                if !keys_subset_v(es, seq!["end"@, "hex"@, "start"@, "type"@]) {
                    Err(DecodeError::UnknownField)
                } else {
                    match f_i32(es, "start"@) {
                        Err(e) => Err(e),
                        Ok(start) => match f_i32(es, "end"@) {
                            Err(e) => Err(e),
                            Ok(end) => if start > end {
                                Err(DecodeError::ConstraintViolated)
                            } else {
                                match f_str(es, "hex"@) {
                                    Err(e) => Err(e),
                                    Ok(hex) => Ok(
                                        InlineFormatV {
                                            start,
                                            end,
                                            format: InlineFormatTypeV::Color { hex },
                                        },
                                    ),
                                }
                            },
                        },
                    }
                }
            } else {
                Err(DecodeError::UnknownVariant)
            },
        },
        _ => Err(DecodeError::TypeMismatch),
    }
}

impl InlineFormat {
    pub fn encode(&self) -> (r: Json)
        ensures
            r@ == inline_format_enc(self.deep_view()),
    {
        let ghost v = self.deep_view();
        let mut b = ObjBuilder::new();
        match &self.format {
            InlineFormatType::Mention { blog } => {
                b.push_opt("blog", Some(blog.encode()));
                b.push_opt("end", Some(Json::I64(self.end as i64)));
                b.push_opt("start", Some(Json::I64(self.start as i64)));
                b.push_opt("type", Some(Json::Str("mention".to_owned())));
                proof {
                    assert(Seq::empty() + opt_entry(
                        "blog"@,
                        Some(mention_blog_enc(v.format->Mention_blog)),
                    ) =~= opt_entry("blog"@, Some(mention_blog_enc(v.format->Mention_blog))));
                    assert(b.entries_v() == opt_entry(
                        "blog"@,
                        Some(mention_blog_enc(v.format->Mention_blog)),
                    ) + span_bounds(v) + opt_entry("type"@, Some(JsonV::Str("mention"@))));
                }
            },
            InlineFormatType::Color { hex } => {
                b.push_opt("end", Some(Json::I64(self.end as i64)));
                b.push_opt("hex", Some(Json::Str(hex.clone())));
                b.push_opt("start", Some(Json::I64(self.start as i64)));
                b.push_opt("type", Some(Json::Str("color".to_owned())));
                proof {
                    assert(Seq::empty() + opt_entry("end"@, Some(JsonV::I64(v.end as i64)))
                        =~= opt_entry("end"@, Some(JsonV::I64(v.end as i64))));
                }
            },
            _ => {
                b.push_opt("end", Some(Json::I64(self.end as i64)));
                b.push_opt("start", Some(Json::I64(self.start as i64)));
                let name = match &self.format {
                    InlineFormatType::Bold => "bold",
                    InlineFormatType::Italic => "italic",
                    InlineFormatType::Strikethrough => "strikethrough",
                    InlineFormatType::Small => "small",
                    InlineFormatType::Link { .. } => "link",
                    InlineFormatType::Mention { .. } => "mention",
                    InlineFormatType::Color { .. } => "color",
                };
                b.push_opt("type", Some(Json::Str(name.to_owned())));
                if let Some(u) = (match &self.format {
                    InlineFormatType::Link { url } => Some(url),
                    _ => None,
                }) {
                    b.push_opt("url", Some(Json::Str(u.clone())));
                }
                proof {
                    assert(Seq::empty() + opt_entry("end"@, Some(JsonV::I64(v.end as i64)))
                        =~= opt_entry("end"@, Some(JsonV::I64(v.end as i64))));
                }
            },
        }
        b.finish()
    }

    pub fn decode(j: &Json) -> (r: Result<InlineFormat, DecodeError>)
        ensures
            dres(r) == inline_format_dec(j@),
    {
        match j {
            Json::Obj(entries) => {
                proof {
                    lemma_obj_view(*entries);
                }
                let t = match get_str(entries, "type") {
                    Err(e) => { return Err(e); },
                    Ok(s) => s,
                };
                let ts = t.as_str();
                if str_eq_str(ts, "bold") {
                    Self::decode_span(entries, InlineFormatType::Bold)
                } else if str_eq_str(ts, "italic") {
                    Self::decode_span(entries, InlineFormatType::Italic)
                } else if str_eq_str(ts, "strikethrough") {
                    Self::decode_span(entries, InlineFormatType::Strikethrough)
                } else if str_eq_str(ts, "small") {
                    Self::decode_span(entries, InlineFormatType::Small)
                } else if str_eq_str(ts, "link") {
                    let allowed: [&str; 4] = ["end", "start", "type", "url"];
                    proof {
                        assert(allowed.deep_view() =~= seq!["end"@, "start"@, "type"@, "url"@]);
                    }
                    if !keys_subset(entries, &allowed) {
                        return Err(DecodeError::UnknownField);
                    }
                    let start = match get_i32(entries, "start") {
                        Err(e) => { return Err(e); },
                        Ok(x) => x,
                    };
                    let end = match get_i32(entries, "end") {
                        Err(e) => { return Err(e); },
                        Ok(x) => x,
                    };
                    if start > end {
                        return Err(DecodeError::ConstraintViolated);
                    }
                    let url = match get_str(entries, "url") {
                        Err(e) => { return Err(e); },
                        Ok(s) => s,
                    };
                    Ok(InlineFormat { start, end, format: InlineFormatType::Link { url } })
                } else if str_eq_str(ts, "mention") {
                    let allowed: [&str; 4] = ["blog", "end", "start", "type"];
                    proof {
                        assert(allowed.deep_view() =~= seq!["blog"@, "end"@, "start"@, "type"@]);
                    }
                    if !keys_subset(entries, &allowed) {
                        return Err(DecodeError::UnknownField);
                    }
                    let start = match get_i32(entries, "start") {
                        Err(e) => { return Err(e); },
                        Ok(x) => x,
                    };
                    let end = match get_i32(entries, "end") {
                        Err(e) => { return Err(e); },
                        Ok(x) => x,
                    };
                    if start > end {
                        return Err(DecodeError::ConstraintViolated);
                    }
                    let blog = match obj_get(entries, "blog") {
                        None => { return Err(DecodeError::MissingField); },
                        Some(bj) => match MentionBlog::decode(bj) {
                            Err(e) => { return Err(e); },
                            Ok(b) => b,
                        },
                    };
                    Ok(InlineFormat { start, end, format: InlineFormatType::Mention { blog } })
                } else if str_eq_str(ts, "color") {
                    let allowed: [&str; 4] = ["end", "hex", "start", "type"];
                    proof {
                        assert(allowed.deep_view() =~= seq!["end"@, "hex"@, "start"@, "type"@]);
                    }
                    if !keys_subset(entries, &allowed) {
                        return Err(DecodeError::UnknownField);
                    }
                    let start = match get_i32(entries, "start") {
                        Err(e) => { return Err(e); },
                        Ok(x) => x,
                    };
                    let end = match get_i32(entries, "end") {
                        Err(e) => { return Err(e); },
                        Ok(x) => x,
                    };
                    if start > end {
                        return Err(DecodeError::ConstraintViolated);
                    }
                    let hex = match get_str(entries, "hex") {
                        Err(e) => { return Err(e); },
                        Ok(s) => s,
                    };
                    Ok(InlineFormat { start, end, format: InlineFormatType::Color { hex } })
                } else {
                    Err(DecodeError::UnknownVariant)
                }
            },
            _ => Err(DecodeError::TypeMismatch),
        }
    }

    /// Decodes the bounds of a span whose kind has no fields of its own.
    fn decode_span(entries: &Vec<(String, Json)>, f: InlineFormatType) -> (r: Result<
        InlineFormat,
        DecodeError,
    >)
        requires
            (f.deep_view() matches InlineFormatTypeV::Bold)
                || (f.deep_view() matches InlineFormatTypeV::Italic)
                || (f.deep_view() matches InlineFormatTypeV::Strikethrough)
                || (f.deep_view() matches InlineFormatTypeV::Small),
        ensures
            dres(r) == span_dec(entries_view(entries@), f.deep_view()),
    {
        let allowed: [&str; 3] = ["end", "start", "type"];
        proof {
            assert(allowed.deep_view() =~= seq!["end"@, "start"@, "type"@]);
        }
        if !keys_subset(entries, &allowed) {
            return Err(DecodeError::UnknownField);
        }
        let start = match get_i32(entries, "start") {
            Err(e) => { return Err(e); },
            Ok(x) => x,
        };
        let end = match get_i32(entries, "end") {
            Err(e) => { return Err(e); },
            Ok(x) => x,
        };
        if start > end {
            return Err(DecodeError::ConstraintViolated);
        }
        Ok(InlineFormat { start, end, format: f })
    }
}

proof fn span_keys_facts()
    ensures
        "end"@.len() == 3,
        "start"@.len() == 5,
        "type"@.len() == 4,
        "url"@.len() == 3,
        "blog"@.len() == 4,
        "hex"@.len() == 3,
        "end"@ != "url"@,
        "end"@ != "hex"@,
        "url"@ != "hex"@,
        "blog"@ != "type"@,
        "bold"@.len() == 4,
        "italic"@.len() == 6,
        "strikethrough"@.len() == 13,
        "small"@.len() == 5,
        "link"@.len() == 4,
        "mention"@.len() == 7,
        "color"@.len() == 5,
        "bold"@ != "link"@,
        "small"@ != "color"@,
{
    reveal_strlit("end");
    reveal_strlit("start");
    reveal_strlit("type");
    reveal_strlit("url");
    reveal_strlit("blog");
    reveal_strlit("hex");
    reveal_strlit("bold");
    reveal_strlit("italic");
    reveal_strlit("strikethrough");
    reveal_strlit("small");
    reveal_strlit("link");
    reveal_strlit("mention");
    reveal_strlit("color");
    assert(("end"@)[0] != ("url"@)[0]);
    assert(("end"@)[0] != ("hex"@)[0]);
    assert(("url"@)[0] != ("hex"@)[0]);
    assert(("blog"@)[0] != ("type"@)[0]);
    assert(("bold"@)[0] != ("link"@)[0]);
    assert(("small"@)[0] != ("color"@)[0]);
}

/// Law: a well-formed formatting span decodes back to itself from its own
/// encoding.
#[verifier::rlimit(100)]
pub proof fn lemma_inline_format_round_trip(v: InlineFormatV)
    requires
        span_wf(v),
    ensures
        inline_format_dec(inline_format_enc(v)) == Ok::<InlineFormatV, DecodeError>(v),
{
    span_keys_facts();
    let se = opt_entry("end"@, Some(JsonV::I64(v.end as i64)));
    let ss = opt_entry("start"@, Some(JsonV::I64(v.start as i64)));
    lemma_obj_get_opt_all("end"@, Some(JsonV::I64(v.end as i64)));
    lemma_obj_get_opt_all("start"@, Some(JsonV::I64(v.start as i64)));
    lemma_obj_get_append_all(se, ss);
    match v.format {
        InlineFormatTypeV::Bold => {
            lemma_span_round_trip(v, "bold"@);
        },
        InlineFormatTypeV::Italic => {
            lemma_span_round_trip(v, "italic"@);
        },
        InlineFormatTypeV::Strikethrough => {
            lemma_span_round_trip(v, "strikethrough"@);
        },
        InlineFormatTypeV::Small => {
            lemma_span_round_trip(v, "small"@);
        },
        InlineFormatTypeV::Link { url } => {
            let st = opt_entry("type"@, Some(JsonV::Str("link"@)));
            let su = opt_entry("url"@, Some(JsonV::Str(url)));
            lemma_obj_get_opt_all("type"@, Some(JsonV::Str("link"@)));
            lemma_obj_get_opt_all("url"@, Some(JsonV::Str(url)));
            lemma_obj_get_append_all(se + ss, st);
            lemma_obj_get_append_all(se + ss + st, su);
            let ks = seq!["end"@, "start"@, "type"@, "url"@];
            lemma_keys_subset_opt("end"@, Some(JsonV::I64(v.end as i64)), ks);
            lemma_keys_subset_opt("start"@, Some(JsonV::I64(v.start as i64)), ks);
            lemma_keys_subset_opt("type"@, Some(JsonV::Str("link"@)), ks);
            lemma_keys_subset_opt("url"@, Some(JsonV::Str(url)), ks);
            lemma_keys_subset_concat(se, ss, ks);
            lemma_keys_subset_concat(se + ss, st, ks);
            lemma_keys_subset_concat(se + ss + st, su, ks);
        },
        InlineFormatTypeV::Mention { blog } => {
            let sb = opt_entry("blog"@, Some(mention_blog_enc(blog)));
            let st = opt_entry("type"@, Some(JsonV::Str("mention"@)));
            lemma_obj_get_opt_all("blog"@, Some(mention_blog_enc(blog)));
            lemma_obj_get_opt_all("type"@, Some(JsonV::Str("mention"@)));
            lemma_obj_get_append_all(sb, se + ss);
            lemma_obj_get_append_all(sb + (se + ss), st);
            let ks = seq!["blog"@, "end"@, "start"@, "type"@];
            lemma_keys_subset_opt("blog"@, Some(mention_blog_enc(blog)), ks);
            lemma_keys_subset_opt("end"@, Some(JsonV::I64(v.end as i64)), ks);
            lemma_keys_subset_opt("start"@, Some(JsonV::I64(v.start as i64)), ks);
            lemma_keys_subset_opt("type"@, Some(JsonV::Str("mention"@)), ks);
            lemma_keys_subset_concat(se, ss, ks);
            lemma_keys_subset_concat(sb, se + ss, ks);
            lemma_keys_subset_concat(sb + (se + ss), st, ks);
            lemma_mention_blog_round_trip(blog);
        },
        InlineFormatTypeV::Color { hex } => {
            let sh = opt_entry("hex"@, Some(JsonV::Str(hex)));
            let st = opt_entry("type"@, Some(JsonV::Str("color"@)));
            lemma_obj_get_opt_all("hex"@, Some(JsonV::Str(hex)));
            lemma_obj_get_opt_all("type"@, Some(JsonV::Str("color"@)));
            lemma_obj_get_append_all(se, sh);
            lemma_obj_get_append_all(se + sh, ss);
            lemma_obj_get_append_all(se + sh + ss, st);
            let ks = seq!["end"@, "hex"@, "start"@, "type"@];
            lemma_keys_subset_opt("end"@, Some(JsonV::I64(v.end as i64)), ks);
            lemma_keys_subset_opt("hex"@, Some(JsonV::Str(hex)), ks);
            lemma_keys_subset_opt("start"@, Some(JsonV::I64(v.start as i64)), ks);
            lemma_keys_subset_opt("type"@, Some(JsonV::Str("color"@)), ks);
            lemma_keys_subset_concat(se, sh, ks);
            lemma_keys_subset_concat(se + sh, ss, ks);
            lemma_keys_subset_concat(se + sh + ss, st, ks);
        },
    }
}

/// The round trip of a plain span, under a given wire name.
proof fn lemma_span_round_trip(v: InlineFormatV, name: Seq<char>)
    requires
        span_wf(v),
    ensures
        span_dec(span_bounds(v) + opt_entry("type"@, Some(JsonV::Str(name))), v.format)
            == Ok::<InlineFormatV, DecodeError>(v),
{
    reveal_strlit("end");
    reveal_strlit("start");
    reveal_strlit("type");
    assert("end"@.len() == 3);
    assert("start"@.len() == 5);
    assert("type"@.len() == 4);
    let se = opt_entry("end"@, Some(JsonV::I64(v.end as i64)));
    let ss = opt_entry("start"@, Some(JsonV::I64(v.start as i64)));
    let st = opt_entry("type"@, Some(JsonV::Str(name)));
    lemma_obj_get_opt_all("end"@, Some(JsonV::I64(v.end as i64)));
    lemma_obj_get_opt_all("start"@, Some(JsonV::I64(v.start as i64)));
    lemma_obj_get_opt_all("type"@, Some(JsonV::Str(name)));
    lemma_obj_get_append_all(se, ss);
    lemma_obj_get_append_all(se + ss, st);
    let ks = seq!["end"@, "start"@, "type"@];
    lemma_keys_subset_opt("end"@, Some(JsonV::I64(v.end as i64)), ks);
    lemma_keys_subset_opt("start"@, Some(JsonV::I64(v.start as i64)), ks);
    lemma_keys_subset_opt("type"@, Some(JsonV::Str(name)), ks);
    lemma_keys_subset_concat(se, ss, ks);
    lemma_keys_subset_concat(se + ss, st, ks);
}

// ---------------------------------------------------------------------------
// Attribution: where content came from.
// ---------------------------------------------------------------------------
#[derive(Debug, PartialEq, Eq)]
pub enum Attribution {
    Post { url: String, post: Post, blog: MentionBlog },
    Link { url: String, url_redirect: Option<String> },
    Blog { blog: MentionBlog },
    App { url: String, app_name: Option<String>, display_text: Option<String>, logo: Option<
        MediaObject,
    > },
}

pub enum AttributionV {
    Post { url: Seq<char>, post: PostV, blog: MentionBlogV },
    Link { url: Seq<char>, url_redirect: Option<Seq<char>> },
    Blog { blog: MentionBlogV },
    App { url: Seq<char>, app_name: Option<Seq<char>>, display_text: Option<Seq<char>>, logo: Option<
        MediaObjectV,
    > },
}

impl DeepView for Attribution {
    type V = AttributionV;

    open spec fn deep_view(&self) -> AttributionV {
        match self {
            Attribution::Post { url, post, blog } => AttributionV::Post {
                url: url.deep_view(),
                post: post.deep_view(),
                blog: blog.deep_view(),
            },
            Attribution::Link { url, url_redirect } => AttributionV::Link {
                url: url.deep_view(),
                url_redirect: url_redirect.deep_view(),
            },
            Attribution::Blog { blog } => AttributionV::Blog { blog: blog.deep_view() },
            Attribution::App { url, app_name, display_text, logo } => AttributionV::App {
                url: url.deep_view(),
                app_name: app_name.deep_view(),
                display_text: display_text.deep_view(),
                logo: match logo {
                    Some(m) => Some(media_deep(*m)),
                    None => None,
                },
            },
        }
    }
}

pub open spec fn attribution_enc(v: AttributionV) -> JsonV {
    JsonV::Obj(
        match v {
            AttributionV::Post { url, post, blog } => opt_entry(
                "blog"@,
                Some(mention_blog_enc(blog)),
            ) + opt_entry("post"@, Some(post_enc(post))) + opt_entry(
                "type"@,
                Some(JsonV::Str("post"@)),
            ) + opt_entry("url"@, Some(JsonV::Str(url))),
            AttributionV::Link { url, url_redirect } => opt_entry(
                "type"@,
                Some(JsonV::Str("link"@)),
            ) + opt_entry("url"@, Some(JsonV::Str(url))) + opt_entry(
                "url_redirect"@,
                ostr(url_redirect),
            ),
            AttributionV::Blog { blog } => opt_entry("blog"@, Some(mention_blog_enc(blog)))
                + opt_entry("type"@, Some(JsonV::Str("blog"@))),
            AttributionV::App { url, app_name, display_text, logo } => opt_entry(
                "app_name"@,
                ostr(app_name),
            ) + opt_entry("display_text"@, ostr(display_text)) + opt_entry(
                "logo"@,
                match logo {
                    Some(m) => Some(media_enc(m)),
                    None => None,
                },
            ) + opt_entry("type"@, Some(JsonV::Str("app"@))) + opt_entry(
                "url"@,
                Some(JsonV::Str(url)),
            ),
        },
    )
}

pub open spec fn attribution_dec(j: JsonV) -> Result<AttributionV, DecodeError> {
    match j {
        JsonV::Obj(es) => match f_str(es, "type"@) {
            Err(e) => Err(e),
            Ok(t) => if t == "post"@ {
                if !keys_subset_v(es, seq!["blog"@, "post"@, "type"@, "url"@]) {
                    Err(DecodeError::UnknownField)
                } else {
                    match f_str(es, "url"@) {
                        Err(e) => Err(e),
                        Ok(url) => match obj_get_v(es, "post"@) {
                            None => Err(DecodeError::MissingField),
                            Some(pj) => match post_dec(pj) {
                                Err(e) => Err(e),
                                Ok(post) => match obj_get_v(es, "blog"@) {
                                    None => Err(DecodeError::MissingField),
                                    Some(bj) => match mention_blog_dec(bj) {
                                        Err(e) => Err(e),
                                        Ok(blog) => Ok(AttributionV::Post { url, post, blog }),
                                    },
                                },
                            },
                        },
                    }
                }
            } else if t == "link"@ {
                if !keys_subset_v(es, seq!["type"@, "url"@, "url_redirect"@]) {
                    Err(DecodeError::UnknownField)
                } else {
                    match f_str(es, "url"@) {
                        Err(e) => Err(e),
                        Ok(url) => match f_str_opt(es, "url_redirect"@) {
                            Err(e) => Err(e),
                            Ok(url_redirect) => Ok(AttributionV::Link { url, url_redirect }),
                        },
                    }
                }
            } else if t == "blog"@ {
                if !keys_subset_v(es, seq!["blog"@, "type"@]) {
                    Err(DecodeError::UnknownField)
                } else {
                    match obj_get_v(es, "blog"@) {
                        None => Err(DecodeError::MissingField),
                        Some(bj) => match mention_blog_dec(bj) {
                            Err(e) => Err(e),
                            Ok(blog) => Ok(AttributionV::Blog { blog }),
                        },
                    }
                }
            } else if t == "app"@ {
                if !keys_subset_v(es, seq!["app_name"@, "display_text"@, "logo"@, "type"@, "url"@]) {
                    Err(DecodeError::UnknownField)
                } else {
                    match f_str(es, "url"@) {
                        Err(e) => Err(e),
                        Ok(url) => match f_str_opt(es, "app_name"@) {
                            Err(e) => Err(e),
                            Ok(app_name) => match f_str_opt(es, "display_text"@) {
                                Err(e) => Err(e),
                                Ok(display_text) => match obj_get_v(es, "logo"@) {
                                    None => Ok(
                                        AttributionV::App {
                                            url,
                                            app_name,
                                            display_text,
                                            logo: None,
                                        },
                                    ),
                                    Some(JsonV::Null) => Ok(
                                        AttributionV::App {
                                            url,
                                            app_name,
                                            display_text,
                                            logo: None,
                                        },
                                    ),
                                    Some(lj) => match media_dec(lj) {
                                        Err(e) => Err(e),
                                        Ok(m) => Ok(
                                            AttributionV::App {
                                                url,
                                                app_name,
                                                display_text,
                                                logo: Some(m),
                                            },
                                        ),
                                    },
                                },
                            },
                        },
                    }
                }
            } else {
                Err(DecodeError::UnknownVariant)
            },
        },
        _ => Err(DecodeError::TypeMismatch),
    }
}

impl Attribution {
    pub fn encode(&self) -> (r: Json)
        ensures
            r@ == attribution_enc(self.deep_view()),
    {
        let ghost v = self.deep_view();
        let mut b = ObjBuilder::new();
        match self {
            Attribution::Post { url, post, blog } => {
                b.push_opt("blog", Some(blog.encode()));
                b.push_opt("post", Some(post.encode()));
                b.push_opt("type", Some(Json::Str("post".to_owned())));
                b.push_opt("url", Some(Json::Str(url.clone())));
                proof {
                    assert(Seq::empty() + opt_entry(
                        "blog"@,
                        Some(mention_blog_enc(v->Post_blog)),
                    ) =~= opt_entry("blog"@, Some(mention_blog_enc(v->Post_blog))));
                }
            },
            Attribution::Link { url, url_redirect } => {
                b.push_opt("type", Some(Json::Str("link".to_owned())));
                b.push_opt("url", Some(Json::Str(url.clone())));
                b.push_opt(
                    "url_redirect",
                    match url_redirect {
                        Some(s) => Some(Json::Str(s.clone())),
                        None => None,
                    },
                );
                proof {
                    assert(Seq::empty() + opt_entry("type"@, Some(JsonV::Str("link"@)))
                        =~= opt_entry("type"@, Some(JsonV::Str("link"@))));
                }
            },
            Attribution::Blog { blog } => {
                b.push_opt("blog", Some(blog.encode()));
                b.push_opt("type", Some(Json::Str("blog".to_owned())));
                proof {
                    assert(Seq::empty() + opt_entry(
                        "blog"@,
                        Some(mention_blog_enc(v->Blog_blog)),
                    ) =~= opt_entry("blog"@, Some(mention_blog_enc(v->Blog_blog))));
                }
            },
            Attribution::App { url, app_name, display_text, logo } => {
                b.push_opt(
                    "app_name",
                    match app_name {
                        Some(s) => Some(Json::Str(s.clone())),
                        None => None,
                    },
                );
                b.push_opt(
                    "display_text",
                    match display_text {
                        Some(s) => Some(Json::Str(s.clone())),
                        None => None,
                    },
                );
                let lj = match logo {
                    Some(m) => Some(m.encode()),
                    None => None,
                };
                proof {
                    assert((match lj {
                        Some(j) => Some(j@),
                        None => None,
                    }) == (match v->App_logo {
                        Some(m) => Some(media_enc(m)),
                        None => None::<JsonV>,
                    }));
                }
                b.push_opt("logo", lj);
                b.push_opt("type", Some(Json::Str("app".to_owned())));
                b.push_opt("url", Some(Json::Str(url.clone())));
                proof {
                    assert(Seq::empty() + opt_entry("app_name"@, ostr(v->App_app_name))
                        =~= opt_entry("app_name"@, ostr(v->App_app_name)));
                }
            },
        }
        b.finish()
    }

    pub fn decode(j: &Json) -> (r: Result<Attribution, DecodeError>)
        ensures
            dres(r) == attribution_dec(j@),
    {
        match j {
            Json::Obj(entries) => {
                proof {
                    lemma_obj_view(*entries);
                }
                let t = match get_str(entries, "type") {
                    Err(e) => { return Err(e); },
                    Ok(s) => s,
                };
                let ts = t.as_str();
                if str_eq_str(ts, "post") {
                    let allowed: [&str; 4] = ["blog", "post", "type", "url"];
                    proof {
                        assert(allowed.deep_view() =~= seq!["blog"@, "post"@, "type"@, "url"@]);
                    }
                    if !keys_subset(entries, &allowed) {
                        return Err(DecodeError::UnknownField);
                    }
                    let url = match get_str(entries, "url") {
                        Err(e) => { return Err(e); },
                        Ok(s) => s,
                    };
                    let post = match obj_get(entries, "post") {
                        None => { return Err(DecodeError::MissingField); },
                        Some(pj) => match Post::decode(pj) {
                            Err(e) => { return Err(e); },
                            Ok(p) => p,
                        },
                    };
                    let blog = match obj_get(entries, "blog") {
                        None => { return Err(DecodeError::MissingField); },
                        Some(bj) => match MentionBlog::decode(bj) {
                            Err(e) => { return Err(e); },
                            Ok(b) => b,
                        },
                    };
                    Ok(Attribution::Post { url, post, blog })
                } else if str_eq_str(ts, "link") {
                    let allowed: [&str; 3] = ["type", "url", "url_redirect"];
                    proof {
                        assert(allowed.deep_view() =~= seq!["type"@, "url"@, "url_redirect"@]);
                    }
                    if !keys_subset(entries, &allowed) {
                        return Err(DecodeError::UnknownField);
                    }
                    let url = match get_str(entries, "url") {
                        Err(e) => { return Err(e); },
                        Ok(s) => s,
                    };
                    let url_redirect = match get_str_opt(entries, "url_redirect") {
                        Err(e) => { return Err(e); },
                        Ok(s) => s,
                    };
                    Ok(Attribution::Link { url, url_redirect })
                } else if str_eq_str(ts, "blog") {
                    let allowed: [&str; 2] = ["blog", "type"];
                    proof {
                        assert(allowed.deep_view() =~= seq!["blog"@, "type"@]);
                    }
                    if !keys_subset(entries, &allowed) {
                        return Err(DecodeError::UnknownField);
                    }
                    let blog = match obj_get(entries, "blog") {
                        None => { return Err(DecodeError::MissingField); },
                        Some(bj) => match MentionBlog::decode(bj) {
                            Err(e) => { return Err(e); },
                            Ok(b) => b,
                        },
                    };
                    Ok(Attribution::Blog { blog })
                } else if str_eq_str(ts, "app") {
                    let allowed: [&str; 5] = ["app_name", "display_text", "logo", "type", "url"];
                    proof {
                        assert(allowed.deep_view() =~= seq![
                            "app_name"@,
                            "display_text"@,
                            "logo"@,
                            "type"@,
                            "url"@,
                        ]);
                    }
                    if !keys_subset(entries, &allowed) {
                        return Err(DecodeError::UnknownField);
                    }
                    let url = match get_str(entries, "url") {
                        Err(e) => { return Err(e); },
                        Ok(s) => s,
                    };
                    let app_name = match get_str_opt(entries, "app_name") {
                        Err(e) => { return Err(e); },
                        Ok(s) => s,
                    };
                    let display_text = match get_str_opt(entries, "display_text") {
                        Err(e) => { return Err(e); },
                        Ok(s) => s,
                    };
                    let logo = match obj_get(entries, "logo") {
                        None => None,
                        Some(Json::Null) => None,
                        Some(lj) => match MediaObject::decode(lj) {
                            Err(e) => { return Err(e); },
                            Ok(m) => Some(m),
                        },
                    };
                    Ok(Attribution::App { url, app_name, display_text, logo })
                } else {
                    Err(DecodeError::UnknownVariant)
                }
            },
            _ => Err(DecodeError::TypeMismatch),
        }
    }
}

/// Well-formedness of an attribution: its logo, if any, is a well-formed
/// media object.
pub open spec fn attribution_wf(v: AttributionV) -> bool {
    match v {
        AttributionV::App { logo: Some(m), .. } => media_wf(m),
        _ => true,
    }
}

proof fn attribution_keys_facts()
    ensures
        "blog"@.len() == 4,
        "post"@.len() == 4,
        "type"@.len() == 4,
        "url"@.len() == 3,
        "url_redirect"@.len() == 12,
        "app_name"@.len() == 8,
        "display_text"@.len() == 12,
        "logo"@.len() == 4,
        "app"@.len() == 3,
        "link"@.len() == 4,
        "blog"@ != "post"@,
        "blog"@ != "type"@,
        "post"@ != "type"@,
        "logo"@ != "type"@,
        "post"@ != "link"@,
        "post"@ != "blog"@,
        "link"@ != "blog"@,
        "url_redirect"@ != "display_text"@,
{
    reveal_strlit("blog");
    reveal_strlit("post");
    reveal_strlit("type");
    reveal_strlit("url");
    reveal_strlit("url_redirect");
    reveal_strlit("app_name");
    reveal_strlit("display_text");
    reveal_strlit("logo");
    reveal_strlit("app");
    reveal_strlit("link");
    assert(("blog"@)[0] != ("post"@)[0]);
    assert(("blog"@)[0] != ("type"@)[0]);
    assert(("post"@)[0] != ("type"@)[0]);
    assert(("logo"@)[0] != ("type"@)[0]);
    assert(("post"@)[0] != ("link"@)[0]);
    assert(("link"@)[0] != ("blog"@)[0]);
    assert(("url_redirect"@)[0] != ("display_text"@)[0]);
}

/// Law: a well-formed attribution decodes back to itself from its own
/// encoding.
#[verifier::rlimit(100)]
pub proof fn lemma_attribution_round_trip(v: AttributionV)
    requires
        attribution_wf(v),
    ensures
        attribution_dec(attribution_enc(v)) == Ok::<AttributionV, DecodeError>(v),
{
    attribution_keys_facts();
    match v {
        AttributionV::Post { url, post, blog } => {
            let s1 = opt_entry("blog"@, Some(mention_blog_enc(blog)));
            let s2 = opt_entry("post"@, Some(post_enc(post)));
            let s3 = opt_entry("type"@, Some(JsonV::Str("post"@)));
            let s4 = opt_entry("url"@, Some(JsonV::Str(url)));
            lemma_obj_get_opt_all("blog"@, Some(mention_blog_enc(blog)));
            lemma_obj_get_opt_all("post"@, Some(post_enc(post)));
            lemma_obj_get_opt_all("type"@, Some(JsonV::Str("post"@)));
            lemma_obj_get_opt_all("url"@, Some(JsonV::Str(url)));
            lemma_obj_get_append_all(s1, s2);
            lemma_obj_get_append_all(s1 + s2, s3);
            lemma_obj_get_append_all(s1 + s2 + s3, s4);
            let ks = seq!["blog"@, "post"@, "type"@, "url"@];
            lemma_keys_subset_opt("blog"@, Some(mention_blog_enc(blog)), ks);
            lemma_keys_subset_opt("post"@, Some(post_enc(post)), ks);
            lemma_keys_subset_opt("type"@, Some(JsonV::Str("post"@)), ks);
            lemma_keys_subset_opt("url"@, Some(JsonV::Str(url)), ks);
            lemma_keys_subset_concat(s1, s2, ks);
            lemma_keys_subset_concat(s1 + s2, s3, ks);
            lemma_keys_subset_concat(s1 + s2 + s3, s4, ks);
            lemma_post_round_trip(post);
            lemma_mention_blog_round_trip(blog);
        },
        AttributionV::Link { url, url_redirect } => {
            let s1 = opt_entry("type"@, Some(JsonV::Str("link"@)));
            let s2 = opt_entry("url"@, Some(JsonV::Str(url)));
            let s3 = opt_entry("url_redirect"@, ostr(url_redirect));
            lemma_obj_get_opt_all("type"@, Some(JsonV::Str("link"@)));
            lemma_obj_get_opt_all("url"@, Some(JsonV::Str(url)));
            lemma_obj_get_opt_all("url_redirect"@, ostr(url_redirect));
            lemma_obj_get_append_all(s1, s2);
            lemma_obj_get_append_all(s1 + s2, s3);
            let ks = seq!["type"@, "url"@, "url_redirect"@];
            lemma_keys_subset_opt("type"@, Some(JsonV::Str("link"@)), ks);
            lemma_keys_subset_opt("url"@, Some(JsonV::Str(url)), ks);
            lemma_keys_subset_opt("url_redirect"@, ostr(url_redirect), ks);
            lemma_keys_subset_concat(s1, s2, ks);
            lemma_keys_subset_concat(s1 + s2, s3, ks);
        },
        AttributionV::Blog { blog } => {
            let s1 = opt_entry("blog"@, Some(mention_blog_enc(blog)));
            let s2 = opt_entry("type"@, Some(JsonV::Str("blog"@)));
            lemma_obj_get_opt_all("blog"@, Some(mention_blog_enc(blog)));
            lemma_obj_get_opt_all("type"@, Some(JsonV::Str("blog"@)));
            lemma_obj_get_append_all(s1, s2);
            let ks = seq!["blog"@, "type"@];
            lemma_keys_subset_opt("blog"@, Some(mention_blog_enc(blog)), ks);
            lemma_keys_subset_opt("type"@, Some(JsonV::Str("blog"@)), ks);
            lemma_keys_subset_concat(s1, s2, ks);
            lemma_mention_blog_round_trip(blog);
        },
        AttributionV::App { url, app_name, display_text, logo } => {
            let lo = match logo {
                Some(m) => Some(media_enc(m)),
                None => None::<JsonV>,
            };
            let s1 = opt_entry("app_name"@, ostr(app_name));
            let s2 = opt_entry("display_text"@, ostr(display_text));
            let s3 = opt_entry("logo"@, lo);
            let s4 = opt_entry("type"@, Some(JsonV::Str("app"@)));
            let s5 = opt_entry("url"@, Some(JsonV::Str(url)));
            lemma_obj_get_opt_all("app_name"@, ostr(app_name));
            lemma_obj_get_opt_all("display_text"@, ostr(display_text));
            lemma_obj_get_opt_all("logo"@, lo);
            lemma_obj_get_opt_all("type"@, Some(JsonV::Str("app"@)));
            lemma_obj_get_opt_all("url"@, Some(JsonV::Str(url)));
            lemma_obj_get_append_all(s1, s2);
            lemma_obj_get_append_all(s1 + s2, s3);
            lemma_obj_get_append_all(s1 + s2 + s3, s4);
            lemma_obj_get_append_all(s1 + s2 + s3 + s4, s5);
            let ks = seq!["app_name"@, "display_text"@, "logo"@, "type"@, "url"@];
            lemma_keys_subset_opt("app_name"@, ostr(app_name), ks);
            lemma_keys_subset_opt("display_text"@, ostr(display_text), ks);
            lemma_keys_subset_opt("logo"@, lo, ks);
            lemma_keys_subset_opt("type"@, Some(JsonV::Str("app"@)), ks);
            lemma_keys_subset_opt("url"@, Some(JsonV::Str(url)), ks);
            lemma_keys_subset_concat(s1, s2, ks);
            lemma_keys_subset_concat(s1 + s2, s3, ks);
            lemma_keys_subset_concat(s1 + s2 + s3, s4, ks);
            lemma_keys_subset_concat(s1 + s2 + s3 + s4, s5, ks);
            match logo {
                Some(m) => {
                    lemma_media_round_trip(m);
                    assert(media_enc(m) != JsonV::Null);
                },
                None => {},
            }
        },
    }
}

// ---------------------------------------------------------------------------
// Field readers shared by the content blocks.
// ---------------------------------------------------------------------------
pub open spec fn fmt_dec_fn() -> spec_fn(JsonV) -> Result<InlineFormatV, DecodeError> {
    |j: JsonV| inline_format_dec(j)
}

pub open spec fn fmt_enc_fn() -> spec_fn(InlineFormatV) -> JsonV {
    |f: InlineFormatV| inline_format_enc(f)
}

pub open spec fn poll_answer_dec_fn() -> spec_fn(JsonV) -> Result<PollAnswerV, DecodeError> {
    |j: JsonV| poll_answer_dec(j)
}

pub open spec fn poll_answer_enc_fn() -> spec_fn(PollAnswerV) -> JsonV {
    |a: PollAnswerV| poll_answer_enc(a)
}

/// An optional attribution field, which tolerates an empty list standing
/// for absence.
pub open spec fn f_attr(es: Seq<(Seq<char>, JsonV)>, key: Seq<char>) -> Result<
    Option<AttributionV>,
    DecodeError,
> {
    match obj_get_v(es, key) {
        None => Ok(None),
        Some(JsonV::Null) => Ok(None),
        Some(JsonV::Arr(a)) => if a.len() == 0 {
            Ok(None)
        } else {
            Err(DecodeError::TypeMismatch)
        },
        Some(j) => match attribution_dec(j) {
            Err(e) => Err(e),
            Ok(a) => Ok(Some(a)),
        },
    }
}

/// An optional single-or-list-of-one media field: a bare object and a
/// one-element list mean the same; a list of any other length is refused.
pub open spec fn f_sol_media(es: Seq<(Seq<char>, JsonV)>, key: Seq<char>) -> Result<
    Option<MediaObjectV>,
    DecodeError,
> {
    match obj_get_v(es, key) {
        None => Ok(None),
        Some(JsonV::Null) => Ok(None),
        Some(JsonV::Arr(a)) => if a.len() != 1 {
            Err(DecodeError::ConstraintViolated)
        } else if a[0] == JsonV::Null {
            Ok(None)
        } else {
            match media_dec(a[0]) {
                Err(e) => Err(e),
                Ok(m) => Ok(Some(m)),
            }
        },
        Some(j) => match media_dec(j) {
            Err(e) => Err(e),
            Ok(m) => Ok(Some(m)),
        },
    }
}

/// A required media list field.
pub open spec fn f_media_list(es: Seq<(Seq<char>, JsonV)>, key: Seq<char>) -> Result<
    Seq<MediaObjectV>,
    DecodeError,
> {
    match obj_get_v(es, key) {
        None => Err(DecodeError::MissingField),
        Some(JsonV::Arr(vs)) => match media_list_dec(vs) {
            Err(e) => Err(e),
            Ok(ms) => Ok(ms),
        },
        Some(_) => Err(DecodeError::TypeMismatch),
    }
}

/// An optional media list field.
pub open spec fn f_media_list_opt(es: Seq<(Seq<char>, JsonV)>, key: Seq<char>) -> Result<
    Option<Seq<MediaObjectV>>,
    DecodeError,
> {
    match obj_get_v(es, key) {
        None => Ok(None),
        Some(JsonV::Null) => Ok(None),
        Some(JsonV::Arr(vs)) => match media_list_dec(vs) {
            Err(e) => Err(e),
            Ok(ms) => Ok(Some(ms)),
        },
        Some(_) => Err(DecodeError::TypeMismatch),
    }
}

/// An optional bare media object field.
pub open spec fn f_media_opt(es: Seq<(Seq<char>, JsonV)>, key: Seq<char>) -> Result<
    Option<MediaObjectV>,
    DecodeError,
> {
    match obj_get_v(es, key) {
        None => Ok(None),
        Some(JsonV::Null) => Ok(None),
        Some(j) => match media_dec(j) {
            Err(e) => Err(e),
            Ok(m) => Ok(Some(m)),
        },
    }
}

/// An optional formatting-span list field.
pub open spec fn f_fmt_list_opt(es: Seq<(Seq<char>, JsonV)>, key: Seq<char>) -> Result<
    Option<Seq<InlineFormatV>>,
    DecodeError,
> {
    match obj_get_v(es, key) {
        None => Ok(None),
        Some(JsonV::Null) => Ok(None),
        Some(JsonV::Arr(vs)) => match list_dec(vs, fmt_dec_fn()) {
            Err(e) => Err(e),
            Ok(fs) => Ok(Some(fs)),
        },
        Some(_) => Err(DecodeError::TypeMismatch),
    }
}

/// An optional free-form value kept as it came.
pub open spec fn f_json_opt(es: Seq<(Seq<char>, JsonV)>, key: Seq<char>) -> Result<
    Option<JsonV>,
    DecodeError,
> {
    match obj_get_v(es, key) {
        None => Ok(None),
        Some(JsonV::Null) => Ok(None),
        Some(j) => Ok(Some(j)),
    }
}

/// An optional open bag of fields, kept as it came.
pub open spec fn f_exif_opt(es: Seq<(Seq<char>, JsonV)>, key: Seq<char>) -> Result<
    Option<Seq<(Seq<char>, JsonV)>>,
    DecodeError,
> {
    match obj_get_v(es, key) {
        None => Ok(None),
        Some(JsonV::Null) => Ok(None),
        Some(JsonV::Obj(ces)) => Ok(Some(ces)),
        Some(_) => Err(DecodeError::TypeMismatch),
    }
}

/// An optional text-style field.
pub open spec fn f_subtype_opt(es: Seq<(Seq<char>, JsonV)>, key: Seq<char>) -> Result<
    Option<TextSubtype>,
    DecodeError,
> {
    match obj_get_v(es, key) {
        None => Ok(None),
        Some(JsonV::Null) => Ok(None),
        Some(JsonV::Str(s)) => match text_subtype_dec(s) {
            Some(t) => Ok(Some(t)),
            None => Err(DecodeError::UnknownVariant),
        },
        Some(_) => Err(DecodeError::TypeMismatch),
    }
}

/// An optional embed-frame field.
pub open spec fn f_embed_iframe_opt(es: Seq<(Seq<char>, JsonV)>, key: Seq<char>) -> Result<
    Option<EmbedIframeV>,
    DecodeError,
> {
    match obj_get_v(es, key) {
        None => Ok(None),
        Some(JsonV::Null) => Ok(None),
        Some(j) => match embed_iframe_dec(j) {
            Err(e) => Err(e),
            Ok(f) => Ok(Some(f)),
        },
    }
}

/// An optional clickthrough field.
pub open spec fn f_clickthrough_opt(es: Seq<(Seq<char>, JsonV)>, key: Seq<char>) -> Result<
    Option<ClickthroughV>,
    DecodeError,
> {
    match obj_get_v(es, key) {
        None => Ok(None),
        Some(JsonV::Null) => Ok(None),
        Some(j) => match clickthrough_dec(j) {
            Err(e) => Err(e),
            Ok(c) => Ok(Some(c)),
        },
    }
}

/// A required poll-answer list field.
pub open spec fn f_answers(es: Seq<(Seq<char>, JsonV)>, key: Seq<char>) -> Result<
    Seq<PollAnswerV>,
    DecodeError,
> {
    match obj_get_v(es, key) {
        None => Err(DecodeError::MissingField),
        Some(JsonV::Arr(vs)) => match list_dec(vs, poll_answer_dec_fn()) {
            Err(e) => Err(e),
            Ok(xs) => Ok(xs),
        },
        Some(_) => Err(DecodeError::TypeMismatch),
    }
}

/// A required poll-settings field.
pub open spec fn f_settings(es: Seq<(Seq<char>, JsonV)>, key: Seq<char>) -> Result<
    PollSettingsV,
    DecodeError,
> {
    match obj_get_v(es, key) {
        None => Err(DecodeError::MissingField),
        Some(j) => poll_settings_dec(j),
    }
}

/// Reads an optional attribution field, treating an empty list as absent.
pub fn get_attr(entries: &Vec<(String, Json)>, key: &str) -> (r: Result<
    Option<Attribution>,
    DecodeError,
>)
    ensures
        dres(r) == f_attr(entries_view(entries@), key@),
{
    match obj_get(entries, key) {
        None => Ok(None),
        Some(Json::Null) => Ok(None),
        Some(Json::Arr(a)) => {
            proof {
                lemma_arr_view(*a);
            }
            if a.len() == 0 {
                Ok(None)
            } else {
                Err(DecodeError::TypeMismatch)
            }
        },
        Some(j) => match Attribution::decode(j) {
            Err(e) => Err(e),
            Ok(a) => Ok(Some(a)),
        },
    }
}

/// Reads an optional single-or-list-of-one media field.
pub fn get_sol_media(entries: &Vec<(String, Json)>, key: &str) -> (r: Result<
    Option<MediaObject>,
    DecodeError,
>)
    ensures
        dres(r) == f_sol_media(entries_view(entries@), key@),
{
    match obj_get(entries, key) {
        None => Ok(None),
        Some(Json::Null) => Ok(None),
        Some(Json::Arr(a)) => {
            proof {
                lemma_arr_view(*a);
            }
            if a.len() != 1 {
                Err(DecodeError::ConstraintViolated)
            } else {
                match &a[0] {
                    Json::Null => Ok(None),
                    elem => match MediaObject::decode(elem) {
                        Err(e) => Err(e),
                        Ok(m) => Ok(Some(m)),
                    },
                }
            }
        },
        Some(j) => match MediaObject::decode(j) {
            Err(e) => Err(e),
            Ok(m) => Ok(Some(m)),
        },
    }
}

/// Reads a required media list field.
pub fn get_media_list(entries: &Vec<(String, Json)>, key: &str) -> (r: Result<
    Vec<MediaObject>,
    DecodeError,
>)
    ensures
        dres(r) == f_media_list(entries_view(entries@), key@),
{
    match obj_get(entries, key) {
        None => Err(DecodeError::MissingField),
        Some(Json::Arr(vs)) => {
            proof {
                lemma_arr_view(*vs);
            }
            decode_media_vec(vs)
        },
        Some(_) => Err(DecodeError::TypeMismatch),
    }
}

/// Reads an optional media list field.
pub fn get_media_list_opt(entries: &Vec<(String, Json)>, key: &str) -> (r: Result<
    Option<Vec<MediaObject>>,
    DecodeError,
>)
    ensures
        dres(r) == f_media_list_opt(entries_view(entries@), key@),
{
    match obj_get(entries, key) {
        None => Ok(None),
        Some(Json::Null) => Ok(None),
        Some(Json::Arr(vs)) => {
            proof {
                lemma_arr_view(*vs);
            }
            match decode_media_vec(vs) {
                Err(e) => Err(e),
                Ok(ms) => Ok(Some(ms)),
            }
        },
        Some(_) => Err(DecodeError::TypeMismatch),
    }
}

/// Reads an optional bare media object field.
pub fn get_media_opt(entries: &Vec<(String, Json)>, key: &str) -> (r: Result<
    Option<MediaObject>,
    DecodeError,
>)
    ensures
        dres(r) == f_media_opt(entries_view(entries@), key@),
{
    match obj_get(entries, key) {
        None => Ok(None),
        Some(Json::Null) => Ok(None),
        Some(j) => match MediaObject::decode(j) {
            Err(e) => Err(e),
            Ok(m) => Ok(Some(m)),
        },
    }
}

/// Reads an optional formatting-span list field.
pub fn get_fmt_list_opt(entries: &Vec<(String, Json)>, key: &str) -> (r: Result<
    Option<Vec<InlineFormat>>,
    DecodeError,
>)
    ensures
        dres(r) == f_fmt_list_opt(entries_view(entries@), key@),
{
    match obj_get(entries, key) {
        None => Ok(None),
        Some(Json::Null) => Ok(None),
        Some(Json::Arr(vs)) => {
            proof {
                lemma_arr_view(*vs);
            }
            match decode_fmt_vec(vs) {
                Err(e) => Err(e),
                Ok(fs) => Ok(Some(fs)),
            }
        },
        Some(_) => Err(DecodeError::TypeMismatch),
    }
}

/// Decodes a list of formatting spans.
fn decode_fmt_vec(elems: &Vec<Json>) -> (r: Result<Vec<InlineFormat>, DecodeError>)
    ensures
        dres(r) == list_dec(elems_view(elems@), fmt_dec_fn()),
{
    let ghost es = elems_view(elems@);
    let mut out: Vec<InlineFormat> = Vec::new();
    proof {
        assert(es.take(0) =~= Seq::<JsonV>::empty());
        assert(out.deep_view() =~= Seq::<InlineFormatV>::empty());
    }
    let mut i: usize = 0;
    while i < elems.len()
        invariant
            i <= elems.len(),
            es == elems_view(elems@),
            list_dec(es.take(i as int), fmt_dec_fn()) == Ok::<_, DecodeError>(out.deep_view()),
        decreases elems.len() - i,
    {
        proof {
            assert(es.take(i + 1).drop_last() =~= es.take(i as int));
            assert(es.take(i + 1).last() == es[i as int]);
        }
        match InlineFormat::decode(&elems[i]) {
            Ok(f) => {
                let ghost fv = f.deep_view();
                let ghost old_out = out.deep_view();
                out.push(f);
                proof {
                    assert(out.deep_view() =~= old_out.push(fv));
                }
            },
            Err(e) => {
                proof {
                    lemma_list_dec_err(es, fmt_dec_fn(), i + 1);
                }
                return Err(e);
            },
        }
        i = i + 1;
    }
    proof {
        assert(es.take(elems@.len() as int) =~= es);
    }
    Ok(out)
}

/// Encodes a list of formatting spans.
fn encode_fmt_vec(fs: &Vec<InlineFormat>) -> (r: Json)
    ensures
        r@ == JsonV::Arr(list_enc(fs.deep_view(), fmt_enc_fn())),
{
    let mut out: Vec<Json> = Vec::new();
    let mut i: usize = 0;
    while i < fs.len()
        invariant
            i <= fs.len(),
            out@.len() == i,
            forall|k: int| 0 <= k < i ==> (#[trigger] out@[k])@ == inline_format_enc(
                fs@[k].deep_view(),
            ),
        decreases fs.len() - i,
    {
        out.push(fs[i].encode());
        i = i + 1;
    }
    proof {
        lemma_arr_view(out);
        assert(elems_view(out@) =~= list_enc(fs.deep_view(), fmt_enc_fn()));
    }
    Json::Arr(out)
}

/// Reads an optional free-form value, keeping it as it came.
pub fn get_json_opt(entries: &Vec<(String, Json)>, key: &str) -> (r: Result<
    Option<Json>,
    DecodeError,
>)
    ensures
        dres(r) == f_json_opt(entries_view(entries@), key@),
{
    match obj_get(entries, key) {
        None => Ok(None),
        Some(Json::Null) => Ok(None),
        Some(j) => Ok(Some(j.duplicate())),
    }
}

/// Reads an optional open bag of fields, keeping it as it came.
pub fn get_exif_opt(entries: &Vec<(String, Json)>, key: &str) -> (r: Result<
    Option<Vec<(String, Json)>>,
    DecodeError,
>)
    ensures
        dres(r) == f_exif_opt(entries_view(entries@), key@),
{
    match obj_get(entries, key) {
        None => Ok(None),
        Some(Json::Null) => Ok(None),
        Some(Json::Obj(ces)) => {
            proof {
                lemma_obj_view(*ces);
            }
            let out = duplicate_entries(ces);
            proof {
                crate::json::lemma_entries_deep(out);
            }
            Ok(Some(out))
        },
        Some(_) => Err(DecodeError::TypeMismatch),
    }
}

/// Reads an optional text-style field.
pub fn get_subtype_opt(entries: &Vec<(String, Json)>, key: &str) -> (r: Result<
    Option<TextSubtype>,
    DecodeError,
>)
    ensures
        dres(r) == f_subtype_opt(entries_view(entries@), key@),
{
    match obj_get(entries, key) {
        None => Ok(None),
        Some(Json::Null) => Ok(None),
        Some(Json::Str(s)) => match TextSubtype::from_wire(s.as_str()) {
            Some(t) => Ok(Some(t)),
            None => Err(DecodeError::UnknownVariant),
        },
        Some(_) => Err(DecodeError::TypeMismatch),
    }
}

/// Reads an optional embed-frame field.
pub fn get_embed_iframe_opt(entries: &Vec<(String, Json)>, key: &str) -> (r: Result<
    Option<EmbedIframe>,
    DecodeError,
>)
    ensures
        dres(r) == f_embed_iframe_opt(entries_view(entries@), key@),
{
    match obj_get(entries, key) {
        None => Ok(None),
        Some(Json::Null) => Ok(None),
        Some(j) => match EmbedIframe::decode(j) {
            Err(e) => Err(e),
            Ok(f) => Ok(Some(f)),
        },
    }
}

/// Reads an optional clickthrough field.
pub fn get_clickthrough_opt(entries: &Vec<(String, Json)>, key: &str) -> (r: Result<
    Option<Clickthrough>,
    DecodeError,
>)
    ensures
        dres(r) == f_clickthrough_opt(entries_view(entries@), key@),
{
    match obj_get(entries, key) {
        None => Ok(None),
        Some(Json::Null) => Ok(None),
        Some(j) => match Clickthrough::decode(j) {
            Err(e) => Err(e),
            Ok(c) => Ok(Some(c)),
        },
    }
}

/// Reads a required poll-answer list field.
pub fn get_answers(entries: &Vec<(String, Json)>, key: &str) -> (r: Result<
    Vec<PollAnswer>,
    DecodeError,
>)
    ensures
        dres(r) == f_answers(entries_view(entries@), key@),
{
    match obj_get(entries, key) {
        None => Err(DecodeError::MissingField),
        Some(Json::Arr(vs)) => {
            proof {
                lemma_arr_view(*vs);
            }
            decode_answer_vec(vs)
        },
        Some(_) => Err(DecodeError::TypeMismatch),
    }
}

/// Decodes a list of poll answers.
fn decode_answer_vec(elems: &Vec<Json>) -> (r: Result<Vec<PollAnswer>, DecodeError>)
    ensures
        dres(r) == list_dec(elems_view(elems@), poll_answer_dec_fn()),
{
    let ghost es = elems_view(elems@);
    let mut out: Vec<PollAnswer> = Vec::new();
    proof {
        assert(es.take(0) =~= Seq::<JsonV>::empty());
        assert(out.deep_view() =~= Seq::<PollAnswerV>::empty());
    }
    let mut i: usize = 0;
    while i < elems.len()
        invariant
            i <= elems.len(),
            es == elems_view(elems@),
            list_dec(es.take(i as int), poll_answer_dec_fn()) == Ok::<_, DecodeError>(
                out.deep_view(),
            ),
        decreases elems.len() - i,
    {
        proof {
            assert(es.take(i + 1).drop_last() =~= es.take(i as int));
            assert(es.take(i + 1).last() == es[i as int]);
        }
        match PollAnswer::decode(&elems[i]) {
            Ok(a) => {
                let ghost av = a.deep_view();
                let ghost old_out = out.deep_view();
                out.push(a);
                proof {
                    assert(out.deep_view() =~= old_out.push(av));
                }
            },
            Err(e) => {
                proof {
                    lemma_list_dec_err(es, poll_answer_dec_fn(), i + 1);
                }
                return Err(e);
            },
        }
        i = i + 1;
    }
    proof {
        assert(es.take(elems@.len() as int) =~= es);
    }
    Ok(out)
}

/// Encodes a list of poll answers.
fn encode_answer_vec(xs: &Vec<PollAnswer>) -> (r: Json)
    ensures
        r@ == JsonV::Arr(list_enc(xs.deep_view(), poll_answer_enc_fn())),
{
    let mut out: Vec<Json> = Vec::new();
    let mut i: usize = 0;
    while i < xs.len()
        invariant
            i <= xs.len(),
            out@.len() == i,
            forall|k: int| 0 <= k < i ==> (#[trigger] out@[k])@ == poll_answer_enc(
                xs@[k].deep_view(),
            ),
        decreases xs.len() - i,
    {
        out.push(xs[i].encode());
        i = i + 1;
    }
    proof {
        lemma_arr_view(out);
        assert(elems_view(out@) =~= list_enc(xs.deep_view(), poll_answer_enc_fn()));
    }
    Json::Arr(out)
}

/// Encodes a list of media objects.
pub(crate) fn encode_media_vec(ms: &Vec<MediaObject>) -> (r: Json)
    ensures
        r@ == JsonV::Arr(media_list_enc(media_seq_deep(ms@))),
{
    let mut out: Vec<Json> = Vec::new();
    let mut i: usize = 0;
    while i < ms.len()
        invariant
            i <= ms.len(),
            out@.len() == i,
            forall|k: int| 0 <= k < i ==> (#[trigger] out@[k])@ == media_enc(media_deep(ms@[k])),
        decreases ms.len() - i,
    {
        out.push(ms[i].encode());
        i = i + 1;
    }
    proof {
        lemma_arr_view(out);
        assert(elems_view(out@) =~= media_list_enc(media_seq_deep(ms@)));
    }
    Json::Arr(out)
}

/// Encodes an open bag of fields as it stands.
fn encode_entries_obj(pairs: &Vec<(String, Json)>) -> (r: Json)
    ensures
        r@ == JsonV::Obj(pairs.deep_view()),
{
    let out = duplicate_entries(pairs);
    proof {
        lemma_obj_view(out);
        crate::json::lemma_entries_deep(*pairs);
    }
    Json::Obj(out)
}

// ---------------------------------------------------------------------------
// The content blocks.
// ---------------------------------------------------------------------------
#[derive(Debug, PartialEq, Eq)]
pub struct ContentBlockText {
    pub text: String,
    pub subtype: Option<TextSubtype>,
    pub indent_level: Option<i32>,
    pub formatting: Option<Vec<InlineFormat>>,
}

pub struct ContentBlockTextV {
    pub text: Seq<char>,
    pub subtype: Option<TextSubtype>,
    pub indent_level: Option<i32>,
    pub formatting: Option<Seq<InlineFormatV>>,
}

impl DeepView for ContentBlockText {
    type V = ContentBlockTextV;

    open spec fn deep_view(&self) -> ContentBlockTextV {
        ContentBlockTextV {
            text: self.text.deep_view(),
            subtype: self.subtype,
            indent_level: self.indent_level,
            formatting: self.formatting.deep_view(),
        }
    }
}

pub open spec fn text_block_enc(v: ContentBlockTextV) -> JsonV {
    JsonV::Obj(
        opt_entry(
            "formatting"@,
            match v.formatting {
                Some(fs) => Some(JsonV::Arr(list_enc(fs, fmt_enc_fn()))),
                None => None,
            },
        ) + opt_entry("indent_level"@, oi32(v.indent_level)) + opt_entry(
            "subtype"@,
            match v.subtype {
                Some(t) => Some(JsonV::Str(text_subtype_wire(t))),
                None => None,
            },
        ) + opt_entry("text"@, Some(JsonV::Str(v.text))) + opt_entry(
            "type"@,
            Some(JsonV::Str("text"@)),
        ),
    )
}

pub open spec fn text_block_dec(es: Seq<(Seq<char>, JsonV)>) -> Result<
    ContentBlockTextV,
    DecodeError,
> {
    if !keys_subset_v(es, seq!["formatting"@, "indent_level"@, "subtype"@, "text"@, "type"@]) {
        Err(DecodeError::UnknownField)
    } else {
        match f_str(es, "text"@) {
            Err(e) => Err(e),
            Ok(text) => match f_subtype_opt(es, "subtype"@) {
                Err(e) => Err(e),
                Ok(subtype) => match f_i32_opt(es, "indent_level"@) {
                    Err(e) => Err(e),
                    Ok(indent_level) => match f_fmt_list_opt(es, "formatting"@) {
                        Err(e) => Err(e),
                        Ok(formatting) => Ok(
                            ContentBlockTextV { text, subtype, indent_level, formatting },
                        ),
                    },
                },
            },
        }
    }
}

impl ContentBlockText {
    pub fn encode(&self) -> (r: Json)
        ensures
            r@ == text_block_enc(self.deep_view()),
    {
        let ghost v = self.deep_view();
        let mut b = ObjBuilder::new();
        let fj = match &self.formatting {
            Some(fs) => Some(encode_fmt_vec(fs)),
            None => None,
        };
        proof {
            assert((match fj {
                Some(j) => Some(j@),
                None => None,
            }) == (match v.formatting {
                Some(fs) => Some(JsonV::Arr(list_enc(fs, fmt_enc_fn()))),
                None => None::<JsonV>,
            }));
        }
        b.push_opt("formatting", fj);
        proof {
            assert(Seq::empty() + opt_entry(
                "formatting"@,
                match v.formatting {
                    Some(fs) => Some(JsonV::Arr(list_enc(fs, fmt_enc_fn()))),
                    None => None,
                },
            ) =~= opt_entry(
                "formatting"@,
                match v.formatting {
                    Some(fs) => Some(JsonV::Arr(list_enc(fs, fmt_enc_fn()))),
                    None => None,
                },
            ));
        }
        b.push_opt(
            "indent_level",
            match &self.indent_level {
                Some(n) => Some(Json::I64(*n as i64)),
                None => None,
            },
        );
        b.push_opt(
            "subtype",
            match &self.subtype {
                Some(t) => Some(Json::Str(t.wire_name().to_owned())),
                None => None,
            },
        );
        b.push_opt("text", Some(Json::Str(self.text.clone())));
        b.push_opt("type", Some(Json::Str("text".to_owned())));
        b.finish()
    }

    pub fn decode_fields(entries: &Vec<(String, Json)>) -> (r: Result<
        ContentBlockText,
        DecodeError,
    >)
        ensures
            dres(r) == text_block_dec(entries_view(entries@)),
    {
        let allowed: [&str; 5] = ["formatting", "indent_level", "subtype", "text", "type"];
        proof {
            assert(allowed.deep_view() =~= seq![
                "formatting"@,
                "indent_level"@,
                "subtype"@,
                "text"@,
                "type"@,
            ]);
        }
        if !keys_subset(entries, &allowed) {
            return Err(DecodeError::UnknownField);
        }
        let text = match get_str(entries, "text") {
            Err(e) => { return Err(e); },
            Ok(s) => s,
        };
        let subtype = match get_subtype_opt(entries, "subtype") {
            Err(e) => { return Err(e); },
            Ok(x) => x,
        };
        let indent_level = match get_i32_opt(entries, "indent_level") {
            Err(e) => { return Err(e); },
            Ok(x) => x,
        };
        let formatting = match get_fmt_list_opt(entries, "formatting") {
            Err(e) => { return Err(e); },
            Ok(x) => x,
        };
        Ok(ContentBlockText { text, subtype, indent_level, formatting })
    }
}

#[derive(Debug, PartialEq, Eq)]
pub struct ContentBlockLink {
    pub url: String,
    pub title: Option<String>,
    pub description: Option<String>,
    pub author: Option<String>,
    pub site_name: Option<String>,
    pub display_url: Option<String>,
    pub poster: Option<Vec<MediaObject>>,
}

pub struct ContentBlockLinkV {
    pub url: Seq<char>,
    pub title: Option<Seq<char>>,
    pub description: Option<Seq<char>>,
    pub author: Option<Seq<char>>,
    pub site_name: Option<Seq<char>>,
    pub display_url: Option<Seq<char>>,
    pub poster: Option<Seq<MediaObjectV>>,
}

impl DeepView for ContentBlockLink {
    type V = ContentBlockLinkV;

    open spec fn deep_view(&self) -> ContentBlockLinkV {
        ContentBlockLinkV {
            url: self.url.deep_view(),
            title: self.title.deep_view(),
            description: self.description.deep_view(),
            author: self.author.deep_view(),
            site_name: self.site_name.deep_view(),
            display_url: self.display_url.deep_view(),
            poster: match self.poster {
                Some(ms) => Some(media_seq_deep(ms@)),
                None => None,
            },
        }
    }
}

pub open spec fn link_block_enc(v: ContentBlockLinkV) -> JsonV {
    JsonV::Obj(
        opt_entry("author"@, ostr(v.author)) + opt_entry("description"@, ostr(v.description))
            + opt_entry("display_url"@, ostr(v.display_url)) + opt_entry(
            "poster"@,
            match v.poster {
                Some(ms) => Some(JsonV::Arr(media_list_enc(ms))),
                None => None,
            },
        ) + opt_entry("site_name"@, ostr(v.site_name)) + opt_entry("title"@, ostr(v.title))
            + opt_entry("type"@, Some(JsonV::Str("link"@))) + opt_entry(
            "url"@,
            Some(JsonV::Str(v.url)),
        ),
    )
}

pub open spec fn link_block_dec(es: Seq<(Seq<char>, JsonV)>) -> Result<
    ContentBlockLinkV,
    DecodeError,
> {
    if !keys_subset_v(
        es,
        seq![
            "author"@,
            "description"@,
            "display_url"@,
            "poster"@,
            "site_name"@,
            "title"@,
            "type"@,
            "url"@,
        ],
    ) {
        Err(DecodeError::UnknownField)
    } else {
        match f_str(es, "url"@) {
            Err(e) => Err(e),
            Ok(url) => match f_str_opt(es, "title"@) {
                Err(e) => Err(e),
                Ok(title) => match f_str_opt(es, "description"@) {
                    Err(e) => Err(e),
                    Ok(description) => match f_str_opt(es, "author"@) {
                        Err(e) => Err(e),
                        Ok(author) => match f_str_opt(es, "site_name"@) {
                            Err(e) => Err(e),
                            Ok(site_name) => match f_str_opt(es, "display_url"@) {
                                Err(e) => Err(e),
                                Ok(display_url) => match f_media_list_opt(es, "poster"@) {
                                    Err(e) => Err(e),
                                    Ok(poster) => Ok(
                                        ContentBlockLinkV {
                                            url,
                                            title,
                                            description,
                                            author,
                                            site_name,
                                            display_url,
                                            poster,
                                        },
                                    ),
                                },
                            },
                        },
                    },
                },
            },
        }
    }
}

impl ContentBlockLink {
    pub fn encode(&self) -> (r: Json)
        ensures
            r@ == link_block_enc(self.deep_view()),
    {
        let ghost v = self.deep_view();
        let mut b = ObjBuilder::new();
        b.push_opt(
            "author",
            match &self.author {
                Some(s) => Some(Json::Str(s.clone())),
                None => None,
            },
        );
        proof {
            assert(Seq::empty() + opt_entry("author"@, ostr(v.author)) =~= opt_entry(
                "author"@,
                ostr(v.author),
            ));
        }
        b.push_opt(
            "description",
            match &self.description {
                Some(s) => Some(Json::Str(s.clone())),
                None => None,
            },
        );
        b.push_opt(
            "display_url",
            match &self.display_url {
                Some(s) => Some(Json::Str(s.clone())),
                None => None,
            },
        );
        let pj = match &self.poster {
            Some(ms) => Some(encode_media_vec(ms)),
            None => None,
        };
        proof {
            assert((match pj {
                Some(j) => Some(j@),
                None => None,
            }) == (match v.poster {
                Some(ms) => Some(JsonV::Arr(media_list_enc(ms))),
                None => None::<JsonV>,
            }));
        }
        b.push_opt("poster", pj);
        b.push_opt(
            "site_name",
            match &self.site_name {
                Some(s) => Some(Json::Str(s.clone())),
                None => None,
            },
        );
        b.push_opt(
            "title",
            match &self.title {
                Some(s) => Some(Json::Str(s.clone())),
                None => None,
            },
        );
        b.push_opt("type", Some(Json::Str("link".to_owned())));
        b.push_opt("url", Some(Json::Str(self.url.clone())));
        b.finish()
    }

    pub fn decode_fields(entries: &Vec<(String, Json)>) -> (r: Result<
        ContentBlockLink,
        DecodeError,
    >)
        ensures
            dres(r) == link_block_dec(entries_view(entries@)),
    {
        let allowed: [&str; 8] = [
            "author",
            "description",
            "display_url",
            "poster",
            "site_name",
            "title",
            "type",
            "url",
        ];
        proof {
            assert(allowed.deep_view() =~= seq![
                "author"@,
                "description"@,
                "display_url"@,
                "poster"@,
                "site_name"@,
                "title"@,
                "type"@,
                "url"@,
            ]);
        }
        if !keys_subset(entries, &allowed) {
            return Err(DecodeError::UnknownField);
        }
        let url = match get_str(entries, "url") {
            Err(e) => { return Err(e); },
            Ok(s) => s,
        };
        let title = match get_str_opt(entries, "title") {
            Err(e) => { return Err(e); },
            Ok(x) => x,
        };
        let description = match get_str_opt(entries, "description") {
            Err(e) => { return Err(e); },
            Ok(x) => x,
        };
        let author = match get_str_opt(entries, "author") {
            Err(e) => { return Err(e); },
            Ok(x) => x,
        };
        let site_name = match get_str_opt(entries, "site_name") {
            Err(e) => { return Err(e); },
            Ok(x) => x,
        };
        let display_url = match get_str_opt(entries, "display_url") {
            Err(e) => { return Err(e); },
            Ok(x) => x,
        };
        let poster = match get_media_list_opt(entries, "poster") {
            Err(e) => { return Err(e); },
            Ok(x) => x,
        };
        let result = ContentBlockLink {
            url,
            title,
            description,
            author,
            site_name,
            display_url,
            poster,
        };
        proof {
            match &result.poster {
                Some(ms) => {
                    assert(media_seq_deep(ms@) =~= ms.deep_view());
                },
                None => {},
            }
        }
        Ok(result)
    }
}

#[derive(Debug, PartialEq, Eq)]
pub struct ContentBlockPaywall {
}

pub struct ContentBlockPaywallV {
}

impl DeepView for ContentBlockPaywall {
    type V = ContentBlockPaywallV;

    open spec fn deep_view(&self) -> ContentBlockPaywallV {
        ContentBlockPaywallV {  }
    }
}

pub open spec fn paywall_block_enc(v: ContentBlockPaywallV) -> JsonV {
    JsonV::Obj(opt_entry("type"@, Some(JsonV::Str("paywall"@))))
}

pub open spec fn paywall_block_dec(es: Seq<(Seq<char>, JsonV)>) -> Result<
    ContentBlockPaywallV,
    DecodeError,
> {
    if !keys_subset_v(es, seq!["type"@]) {
        Err(DecodeError::UnknownField)
    } else {
        Ok(ContentBlockPaywallV {  })
    }
}

impl ContentBlockPaywall {
    pub fn encode(&self) -> (r: Json)
        ensures
            r@ == paywall_block_enc(self.deep_view()),
    {
        let mut b = ObjBuilder::new();
        b.push_opt("type", Some(Json::Str("paywall".to_owned())));
        proof {
            assert(Seq::empty() + opt_entry("type"@, Some(JsonV::Str("paywall"@))) =~= opt_entry(
                "type"@,
                Some(JsonV::Str("paywall"@)),
            ));
        }
        b.finish()
    }

    pub fn decode_fields(entries: &Vec<(String, Json)>) -> (r: Result<
        ContentBlockPaywall,
        DecodeError,
    >)
        ensures
            dres(r) == paywall_block_dec(entries_view(entries@)),
    {
        let allowed: [&str; 1] = ["type"];
        proof {
            assert(allowed.deep_view() =~= seq!["type"@]);
        }
        if !keys_subset(entries, &allowed) {
            return Err(DecodeError::UnknownField);
        }
        Ok(ContentBlockPaywall {  })
    }
}

#[derive(Debug, PartialEq, Eq)]
pub struct ContentBlockPoll {
    pub client_id: String,
    pub question: String,
    pub answers: Vec<PollAnswer>,
    pub settings: PollSettings,
    pub created_at: String,
    pub timestamp: i64,
}

pub struct ContentBlockPollV {
    pub client_id: Seq<char>,
    pub question: Seq<char>,
    pub answers: Seq<PollAnswerV>,
    pub settings: PollSettingsV,
    pub created_at: Seq<char>,
    pub timestamp: i64,
}

impl DeepView for ContentBlockPoll {
    type V = ContentBlockPollV;

    open spec fn deep_view(&self) -> ContentBlockPollV {
        ContentBlockPollV {
            client_id: self.client_id.deep_view(),
            question: self.question.deep_view(),
            answers: self.answers.deep_view(),
            settings: self.settings.deep_view(),
            created_at: self.created_at.deep_view(),
            timestamp: self.timestamp,
        }
    }
}

pub open spec fn poll_block_enc(v: ContentBlockPollV) -> JsonV {
    JsonV::Obj(
        opt_entry("answers"@, Some(JsonV::Arr(list_enc(v.answers, poll_answer_enc_fn()))))
            + opt_entry("client_id"@, Some(JsonV::Str(v.client_id))) + opt_entry(
            "created_at"@,
            Some(JsonV::Str(v.created_at)),
        ) + opt_entry("question"@, Some(JsonV::Str(v.question))) + opt_entry(
            "settings"@,
            Some(poll_settings_enc(v.settings)),
        ) + opt_entry("timestamp"@, Some(JsonV::I64(v.timestamp))) + opt_entry(
            "type"@,
            Some(JsonV::Str("poll"@)),
        ),
    )
}

pub open spec fn poll_block_dec(es: Seq<(Seq<char>, JsonV)>) -> Result<
    ContentBlockPollV,
    DecodeError,
> {
    if !keys_subset_v(
        es,
        seq![
            "answers"@,
            "client_id"@,
            "created_at"@,
            "question"@,
            "settings"@,
            "timestamp"@,
            "type"@,
        ],
    ) {
        Err(DecodeError::UnknownField)
    } else {
        match f_str(es, "client_id"@) {
            Err(e) => Err(e),
            Ok(client_id) => match f_str(es, "question"@) {
                Err(e) => Err(e),
                Ok(question) => match f_answers(es, "answers"@) {
                    Err(e) => Err(e),
                    Ok(answers) => match f_settings(es, "settings"@) {
                        Err(e) => Err(e),
                        Ok(settings) => match f_str(es, "created_at"@) {
                            Err(e) => Err(e),
                            Ok(created_at) => match f_i64(es, "timestamp"@) {
                                Err(e) => Err(e),
                                Ok(timestamp) => Ok(
                                    ContentBlockPollV {
                                        client_id,
                                        question,
                                        answers,
                                        settings,
                                        created_at,
                                        timestamp,
                                    },
                                ),
                            },
                        },
                    },
                },
            },
        }
    }
}

impl ContentBlockPoll {
    pub fn encode(&self) -> (r: Json)
        ensures
            r@ == poll_block_enc(self.deep_view()),
    {
        let ghost v = self.deep_view();
        let aj = encode_answer_vec(&self.answers);
        let mut b = ObjBuilder::new();
        b.push_opt("answers", Some(aj));
        proof {
            assert(Seq::empty() + opt_entry(
                "answers"@,
                Some(JsonV::Arr(list_enc(v.answers, poll_answer_enc_fn()))),
            ) =~= opt_entry(
                "answers"@,
                Some(JsonV::Arr(list_enc(v.answers, poll_answer_enc_fn()))),
            ));
        }
        b.push_opt("client_id", Some(Json::Str(self.client_id.clone())));
        b.push_opt("created_at", Some(Json::Str(self.created_at.clone())));
        b.push_opt("question", Some(Json::Str(self.question.clone())));
        b.push_opt("settings", Some(self.settings.encode()));
        b.push_opt("timestamp", Some(Json::I64(self.timestamp)));
        b.push_opt("type", Some(Json::Str("poll".to_owned())));
        b.finish()
    }

    pub fn decode_fields(entries: &Vec<(String, Json)>) -> (r: Result<
        ContentBlockPoll,
        DecodeError,
    >)
        ensures
            dres(r) == poll_block_dec(entries_view(entries@)),
    {
        let allowed: [&str; 7] = [
            "answers",
            "client_id",
            "created_at",
            "question",
            "settings",
            "timestamp",
            "type",
        ];
        proof {
            assert(allowed.deep_view() =~= seq![
                "answers"@,
                "client_id"@,
                "created_at"@,
                "question"@,
                "settings"@,
                "timestamp"@,
                "type"@,
            ]);
        }
        if !keys_subset(entries, &allowed) {
            return Err(DecodeError::UnknownField);
        }
        let client_id = match get_str(entries, "client_id") {
            Err(e) => { return Err(e); },
            Ok(s) => s,
        };
        let question = match get_str(entries, "question") {
            Err(e) => { return Err(e); },
            Ok(s) => s,
        };
        let answers = match get_answers(entries, "answers") {
            Err(e) => { return Err(e); },
            Ok(x) => x,
        };
        let settings = match obj_get(entries, "settings") {
            None => { return Err(DecodeError::MissingField); },
            Some(sj) => match PollSettings::decode(sj) {
                Err(e) => { return Err(e); },
                Ok(s) => s,
            },
        };
        let created_at = match get_str(entries, "created_at") {
            Err(e) => { return Err(e); },
            Ok(s) => s,
        };
        let timestamp = match get_i64(entries, "timestamp") {
            Err(e) => { return Err(e); },
            Ok(x) => x,
        };
        Ok(ContentBlockPoll { client_id, question, answers, settings, created_at, timestamp })
    }
}

#[derive(Debug, PartialEq, Eq)]
pub struct ContentBlockImage {
    pub media: Vec<MediaObject>,
    pub colors: Option<Vec<(String, String)>>,
    pub feedback_token: Option<String>,
    pub attribution: Option<Attribution>,
    pub alt_text: Option<String>,
    pub caption: Option<String>,
    pub exif: Option<Vec<(String, Json)>>,
    pub clickthrough: Option<Clickthrough>,
}

pub struct ContentBlockImageV {
    pub media: Seq<MediaObjectV>,
    pub colors: Option<Seq<(Seq<char>, Seq<char>)>>,
    pub feedback_token: Option<Seq<char>>,
    pub attribution: Option<AttributionV>,
    pub alt_text: Option<Seq<char>>,
    pub caption: Option<Seq<char>>,
    pub exif: Option<Seq<(Seq<char>, JsonV)>>,
    pub clickthrough: Option<ClickthroughV>,
}

impl DeepView for ContentBlockImage {
    type V = ContentBlockImageV;

    open spec fn deep_view(&self) -> ContentBlockImageV {
        ContentBlockImageV {
            media: media_seq_deep(self.media@),
            colors: self.colors.deep_view(),
            feedback_token: self.feedback_token.deep_view(),
            attribution: self.attribution.deep_view(),
            alt_text: self.alt_text.deep_view(),
            caption: self.caption.deep_view(),
            exif: self.exif.deep_view(),
            clickthrough: self.clickthrough.deep_view(),
        }
    }
}

/// The optional JSON value an encoder writes for an attribution.
pub open spec fn oattr(o: Option<AttributionV>) -> Option<JsonV> {
    match o {
        None => None,
        Some(a) => Some(attribution_enc(a)),
    }
}

pub open spec fn image_block_enc(v: ContentBlockImageV) -> JsonV {
    JsonV::Obj(
        opt_entry("alt_text"@, ostr(v.alt_text)) + opt_entry("attribution"@, oattr(v.attribution))
            + opt_entry("caption"@, ostr(v.caption)) + opt_entry(
            "clickthrough"@,
            match v.clickthrough {
                Some(c) => Some(clickthrough_enc(c)),
                None => None,
            },
        ) + opt_entry("colors"@, ocolors(v.colors)) + opt_entry(
            "exif"@,
            match v.exif {
                Some(es) => Some(JsonV::Obj(es)),
                None => None,
            },
        ) + opt_entry("feedback_token"@, ostr(v.feedback_token)) + opt_entry(
            "media"@,
            Some(JsonV::Arr(media_list_enc(v.media))),
        ) + opt_entry("type"@, Some(JsonV::Str("image"@))),
    )
}

/// Whether an image block is within its documented length ceilings: the
/// alternative text and the caption each hold at most 4096 characters.
pub open spec fn image_block_enc_ok(v: ContentBlockImageV) -> bool {
    &&& (v.alt_text matches Some(s) ==> s.len() <= 4096)
    &&& (v.caption matches Some(s) ==> s.len() <= 4096)
}

pub open spec fn image_block_dec(es: Seq<(Seq<char>, JsonV)>) -> Result<
    ContentBlockImageV,
    DecodeError,
> {
    if !keys_subset_v(
        es,
        seq![
            "alt_text"@,
            "attribution"@,
            "caption"@,
            "clickthrough"@,
            "colors"@,
            "exif"@,
            "feedback_token"@,
            "media"@,
            "type"@,
        ],
    ) {
        Err(DecodeError::UnknownField)
    } else {
        match f_media_list(es, "media"@) {
            Err(e) => Err(e),
            Ok(media) => match f_colors(es, "colors"@) {
                Err(e) => Err(e),
                Ok(colors) => match f_str_opt(es, "feedback_token"@) {
                    Err(e) => Err(e),
                    Ok(feedback_token) => match f_attr(es, "attribution"@) {
                        Err(e) => Err(e),
                        Ok(attribution) => match f_str_opt(es, "alt_text"@) {
                            Err(e) => Err(e),
                            Ok(alt_text) => match f_str_opt(es, "caption"@) {
                                Err(e) => Err(e),
                                Ok(caption) => match f_exif_opt(es, "exif"@) {
                                    Err(e) => Err(e),
                                    Ok(exif) => match f_clickthrough_opt(es, "clickthrough"@) {
                                        Err(e) => Err(e),
                                        Ok(clickthrough) => Ok(
                                            ContentBlockImageV {
                                                media,
                                                colors,
                                                feedback_token,
                                                attribution,
                                                alt_text,
                                                caption,
                                                exif,
                                                clickthrough,
                                            },
                                        ),
                                    },
                                },
                            },
                        },
                    },
                },
            },
        }
    }
}

impl ContentBlockImage {
    /// Encodes an image block; refused when a caller-supplied text exceeds
    /// its documented 4096-character ceiling.
    pub fn encode(&self) -> (r: Result<Json, EncodeError>)
        ensures
            r is Ok <==> image_block_enc_ok(self.deep_view()),
            r matches Ok(j) ==> j@ == image_block_enc(self.deep_view()),
    {
        let ghost v = self.deep_view();
        if let Some(s) = &self.alt_text {
            if s.as_str().unicode_len() > 4096 {
                return Err(EncodeError::TextTooLong);
            }
        }
        if let Some(s) = &self.caption {
            if s.as_str().unicode_len() > 4096 {
                return Err(EncodeError::TextTooLong);
            }
        }
        let mut b = ObjBuilder::new();
        b.push_opt(
            "alt_text",
            match &self.alt_text {
                Some(s) => Some(Json::Str(s.clone())),
                None => None,
            },
        );
        proof {
            assert(Seq::empty() + opt_entry("alt_text"@, ostr(v.alt_text)) =~= opt_entry(
                "alt_text"@,
                ostr(v.alt_text),
            ));
        }
        let aj = match &self.attribution {
            Some(a) => Some(a.encode()),
            None => None,
        };
        proof {
            assert((match aj {
                Some(j) => Some(j@),
                None => None,
            }) == oattr(v.attribution));
        }
        b.push_opt("attribution", aj);
        b.push_opt(
            "caption",
            match &self.caption {
                Some(s) => Some(Json::Str(s.clone())),
                None => None,
            },
        );
        let cj = match &self.clickthrough {
            Some(c) => Some(c.encode()),
            None => None,
        };
        proof {
            assert((match cj {
                Some(j) => Some(j@),
                None => None,
            }) == (match v.clickthrough {
                Some(c) => Some(clickthrough_enc(c)),
                None => None::<JsonV>,
            }));
        }
        b.push_opt("clickthrough", cj);
        b.push_opt(
            "colors",
            match &self.colors {
                Some(cs) => Some(encode_colors(cs)),
                None => None,
            },
        );
        let ej = match &self.exif {
            Some(pairs) => Some(encode_entries_obj(pairs)),
            None => None,
        };
        proof {
            assert((match ej {
                Some(j) => Some(j@),
                None => None,
            }) == (match v.exif {
                Some(es) => Some(JsonV::Obj(es)),
                None => None::<JsonV>,
            }));
        }
        b.push_opt("exif", ej);
        b.push_opt(
            "feedback_token",
            match &self.feedback_token {
                Some(s) => Some(Json::Str(s.clone())),
                None => None,
            },
        );
        b.push_opt("media", Some(encode_media_vec(&self.media)));
        b.push_opt("type", Some(Json::Str("image".to_owned())));
        Ok(b.finish())
    }

    pub fn decode_fields(entries: &Vec<(String, Json)>) -> (r: Result<
        ContentBlockImage,
        DecodeError,
    >)
        ensures
            dres(r) == image_block_dec(entries_view(entries@)),
    {
        let allowed: [&str; 9] = [
            "alt_text",
            "attribution",
            "caption",
            "clickthrough",
            "colors",
            "exif",
            "feedback_token",
            "media",
            "type",
        ];
        proof {
            assert(allowed.deep_view() =~= seq![
                "alt_text"@,
                "attribution"@,
                "caption"@,
                "clickthrough"@,
                "colors"@,
                "exif"@,
                "feedback_token"@,
                "media"@,
                "type"@,
            ]);
        }
        if !keys_subset(entries, &allowed) {
            return Err(DecodeError::UnknownField);
        }
        let media = match get_media_list(entries, "media") {
            Err(e) => { return Err(e); },
            Ok(x) => x,
        };
        let colors = match obj_get(entries, "colors") {
            None => None,
            Some(Json::Null) => None,
            Some(Json::Obj(ces)) => {
                proof {
                    lemma_obj_view(*ces);
                }
                match decode_colors(ces) {
                    Err(e) => { return Err(e); },
                    Ok(cs) => Some(cs),
                }
            },
            Some(_) => { return Err(DecodeError::TypeMismatch); },
        };
        let feedback_token = match get_str_opt(entries, "feedback_token") {
            Err(e) => { return Err(e); },
            Ok(x) => x,
        };
        let attribution = match get_attr(entries, "attribution") {
            Err(e) => { return Err(e); },
            Ok(x) => x,
        };
        let alt_text = match get_str_opt(entries, "alt_text") {
            Err(e) => { return Err(e); },
            Ok(x) => x,
        };
        let caption = match get_str_opt(entries, "caption") {
            Err(e) => { return Err(e); },
            Ok(x) => x,
        };
        let exif = match get_exif_opt(entries, "exif") {
            Err(e) => { return Err(e); },
            Ok(x) => x,
        };
        let clickthrough = match get_clickthrough_opt(entries, "clickthrough") {
            Err(e) => { return Err(e); },
            Ok(x) => x,
        };
        let result = ContentBlockImage {
            media,
            colors,
            feedback_token,
            attribution,
            alt_text,
            caption,
            exif,
            clickthrough,
        };
        proof {
            assert(media_seq_deep(result.media@) =~= result.media.deep_view());
        }
        Ok(result)
    }
}

#[derive(Debug, PartialEq, Eq)]
pub struct ContentBlockAudio {
    pub url: Option<String>,
    pub media: Option<MediaObject>,
    pub provider: Option<String>,
    pub title: Option<String>,
    pub artist: Option<String>,
    pub album: Option<String>,
    pub poster: Option<MediaObject>,
    pub embed_html: Option<String>,
    pub embed_url: Option<String>,
    pub metadata: Option<Json>,
    pub attribution: Option<Attribution>,
}

pub struct ContentBlockAudioV {
    pub url: Option<Seq<char>>,
    pub media: Option<MediaObjectV>,
    pub provider: Option<Seq<char>>,
    pub title: Option<Seq<char>>,
    pub artist: Option<Seq<char>>,
    pub album: Option<Seq<char>>,
    pub poster: Option<MediaObjectV>,
    pub embed_html: Option<Seq<char>>,
    pub embed_url: Option<Seq<char>>,
    pub metadata: Option<JsonV>,
    pub attribution: Option<AttributionV>,
}

impl DeepView for ContentBlockAudio {
    type V = ContentBlockAudioV;

    open spec fn deep_view(&self) -> ContentBlockAudioV {
        ContentBlockAudioV {
            url: self.url.deep_view(),
            media: self.media.deep_view(),
            provider: self.provider.deep_view(),
            title: self.title.deep_view(),
            artist: self.artist.deep_view(),
            album: self.album.deep_view(),
            poster: self.poster.deep_view(),
            embed_html: self.embed_html.deep_view(),
            embed_url: self.embed_url.deep_view(),
            metadata: self.metadata.deep_view(),
            attribution: self.attribution.deep_view(),
        }
    }
}

/// The optional JSON value an encoder writes for a bare media object.
pub open spec fn omedia(o: Option<MediaObjectV>) -> Option<JsonV> {
    match o {
        None => None,
        Some(m) => Some(media_enc(m)),
    }
}

pub open spec fn audio_block_enc(v: ContentBlockAudioV) -> JsonV {
    JsonV::Obj(
        opt_entry("album"@, ostr(v.album)) + opt_entry("artist"@, ostr(v.artist)) + opt_entry(
            "attribution"@,
            oattr(v.attribution),
        ) + opt_entry("embed_html"@, ostr(v.embed_html)) + opt_entry(
            "embed_url"@,
            ostr(v.embed_url),
        ) + opt_entry("media"@, omedia(v.media)) + opt_entry(
            "metadata"@,
            v.metadata,
        ) + opt_entry("poster"@, omedia(v.poster)) + opt_entry(
            "provider"@,
            ostr(v.provider),
        ) + opt_entry("title"@, ostr(v.title)) + opt_entry(
            "type"@,
            Some(JsonV::Str("audio"@)),
        ) + opt_entry("url"@, ostr(v.url)),
    )
}

pub open spec fn audio_block_dec(es: Seq<(Seq<char>, JsonV)>) -> Result<
    ContentBlockAudioV,
    DecodeError,
> {
    if !keys_subset_v(
        es,
        seq![
            "album"@,
            "artist"@,
            "attribution"@,
            "embed_html"@,
            "embed_url"@,
            "media"@,
            "metadata"@,
            "poster"@,
            "provider"@,
            "title"@,
            "type"@,
            "url"@,
        ],
    ) {
        Err(DecodeError::UnknownField)
    } else {
        match f_str_opt(es, "url"@) {
            Err(e) => Err(e),
            Ok(url) => match f_media_opt(es, "media"@) {
                Err(e) => Err(e),
                Ok(media) => match f_str_opt(es, "provider"@) {
                    Err(e) => Err(e),
                    Ok(provider) => match f_str_opt(es, "title"@) {
                        Err(e) => Err(e),
                        Ok(title) => match f_str_opt(es, "artist"@) {
                            Err(e) => Err(e),
                            Ok(artist) => match f_str_opt(es, "album"@) {
                                Err(e) => Err(e),
                                Ok(album) => match f_sol_media(es, "poster"@) {
                                    Err(e) => Err(e),
                                    Ok(poster) => match f_str_opt(es, "embed_html"@) {
                                        Err(e) => Err(e),
                                        Ok(embed_html) => match f_str_opt(es, "embed_url"@) {
                                            Err(e) => Err(e),
                                            Ok(embed_url) => match f_json_opt(es, "metadata"@) {
                                                Err(e) => Err(e),
                                                Ok(metadata) => match f_attr(
                                                    es,
                                                    "attribution"@,
                                                ) {
                                                    Err(e) => Err(e),
                                                    Ok(attribution) => Ok(
                                                        ContentBlockAudioV {
                                                            url,
                                                            media,
                                                            provider,
                                                            title,
                                                            artist,
                                                            album,
                                                            poster,
                                                            embed_html,
                                                            embed_url,
                                                            metadata,
                                                            attribution,
                                                        },
                                                    ),
                                                },
                                            },
                                        },
                                    },
                                },
                            },
                        },
                    },
                },
            },
        }
    }
}

impl ContentBlockAudio {
    #[verifier::rlimit(60)]
    pub fn encode(&self) -> (r: Json)
        ensures
            r@ == audio_block_enc(self.deep_view()),
    {
        let ghost v = self.deep_view();
        let mut b = ObjBuilder::new();
        b.push_opt(
            "album",
            match &self.album {
                Some(s) => Some(Json::Str(s.clone())),
                None => None,
            },
        );
        proof {
            assert(Seq::empty() + opt_entry("album"@, ostr(v.album)) =~= opt_entry(
                "album"@,
                ostr(v.album),
            ));
        }
        b.push_opt(
            "artist",
            match &self.artist {
                Some(s) => Some(Json::Str(s.clone())),
                None => None,
            },
        );
        let aj = match &self.attribution {
            Some(a) => Some(a.encode()),
            None => None,
        };
        proof {
            assert((match aj {
                Some(j) => Some(j@),
                None => None,
            }) == oattr(v.attribution));
        }
        b.push_opt("attribution", aj);
        b.push_opt(
            "embed_html",
            match &self.embed_html {
                Some(s) => Some(Json::Str(s.clone())),
                None => None,
            },
        );
        b.push_opt(
            "embed_url",
            match &self.embed_url {
                Some(s) => Some(Json::Str(s.clone())),
                None => None,
            },
        );
        let mj = match &self.media {
            Some(m) => Some(m.encode()),
            None => None,
        };
        proof {
            assert((match mj {
                Some(j) => Some(j@),
                None => None,
            }) == omedia(v.media));
        }
        b.push_opt("media", mj);
        let dj = match &self.metadata {
            Some(d) => Some(d.duplicate()),
            None => None,
        };
        proof {
            assert((match dj {
                Some(j) => Some(j@),
                None => None,
            }) == v.metadata);
        }
        b.push_opt("metadata", dj);
        let pj = match &self.poster {
            Some(m) => Some(m.encode()),
            None => None,
        };
        proof {
            assert((match pj {
                Some(j) => Some(j@),
                None => None,
            }) == omedia(v.poster));
        }
        b.push_opt("poster", pj);
        b.push_opt(
            "provider",
            match &self.provider {
                Some(s) => Some(Json::Str(s.clone())),
                None => None,
            },
        );
        b.push_opt(
            "title",
            match &self.title {
                Some(s) => Some(Json::Str(s.clone())),
                None => None,
            },
        );
        b.push_opt("type", Some(Json::Str("audio".to_owned())));
        b.push_opt(
            "url",
            match &self.url {
                Some(s) => Some(Json::Str(s.clone())),
                None => None,
            },
        );
        b.finish()
    }

    pub fn decode_fields(entries: &Vec<(String, Json)>) -> (r: Result<
        ContentBlockAudio,
        DecodeError,
    >)
        ensures
            dres(r) == audio_block_dec(entries_view(entries@)),
    {
        let allowed: [&str; 12] = [
            "album",
            "artist",
            "attribution",
            "embed_html",
            "embed_url",
            "media",
            "metadata",
            "poster",
            "provider",
            "title",
            "type",
            "url",
        ];
        proof {
            assert(allowed.deep_view() =~= seq![
                "album"@,
                "artist"@,
                "attribution"@,
                "embed_html"@,
                "embed_url"@,
                "media"@,
                "metadata"@,
                "poster"@,
                "provider"@,
                "title"@,
                "type"@,
                "url"@,
            ]);
        }
        if !keys_subset(entries, &allowed) {
            return Err(DecodeError::UnknownField);
        }
        let url = match get_str_opt(entries, "url") {
            Err(e) => { return Err(e); },
            Ok(x) => x,
        };
        let media = match get_media_opt(entries, "media") {
            Err(e) => { return Err(e); },
            Ok(x) => x,
        };
        let provider = match get_str_opt(entries, "provider") {
            Err(e) => { return Err(e); },
            Ok(x) => x,
        };
        let title = match get_str_opt(entries, "title") {
            Err(e) => { return Err(e); },
            Ok(x) => x,
        };
        let artist = match get_str_opt(entries, "artist") {
            Err(e) => { return Err(e); },
            Ok(x) => x,
        };
        let album = match get_str_opt(entries, "album") {
            Err(e) => { return Err(e); },
            Ok(x) => x,
        };
        let poster = match get_sol_media(entries, "poster") {
            Err(e) => { return Err(e); },
            Ok(x) => x,
        };
        let embed_html = match get_str_opt(entries, "embed_html") {
            Err(e) => { return Err(e); },
            Ok(x) => x,
        };
        let embed_url = match get_str_opt(entries, "embed_url") {
            Err(e) => { return Err(e); },
            Ok(x) => x,
        };
        let metadata = match get_json_opt(entries, "metadata") {
            Err(e) => { return Err(e); },
            Ok(x) => x,
        };
        let attribution = match get_attr(entries, "attribution") {
            Err(e) => { return Err(e); },
            Ok(x) => x,
        };
        Ok(
            ContentBlockAudio {
                url,
                media,
                provider,
                title,
                artist,
                album,
                poster,
                embed_html,
                embed_url,
                metadata,
                attribution,
            },
        )
    }
}

#[derive(Debug, PartialEq, Eq)]
pub struct ContentBlockVideo {
    pub url: Option<String>,
    pub media: Option<MediaObject>,
    pub provider: Option<String>,
    pub embed_html: Option<String>,
    pub embed_iframe: Option<EmbedIframe>,
    pub embed_url: Option<String>,
    pub poster: Option<Vec<MediaObject>>,
    pub metadata: Option<Json>,
    pub attribution: Option<Attribution>,
    pub can_autoplay_on_cellular: Option<bool>,
    pub filmstrip: Option<MediaObject>,
}

pub struct ContentBlockVideoV {
    pub url: Option<Seq<char>>,
    pub media: Option<MediaObjectV>,
    pub provider: Option<Seq<char>>,
    pub embed_html: Option<Seq<char>>,
    pub embed_iframe: Option<EmbedIframeV>,
    pub embed_url: Option<Seq<char>>,
    pub poster: Option<Seq<MediaObjectV>>,
    pub metadata: Option<JsonV>,
    pub attribution: Option<AttributionV>,
    pub can_autoplay_on_cellular: Option<bool>,
    pub filmstrip: Option<MediaObjectV>,
}

impl DeepView for ContentBlockVideo {
    type V = ContentBlockVideoV;

    open spec fn deep_view(&self) -> ContentBlockVideoV {
        ContentBlockVideoV {
            url: self.url.deep_view(),
            media: self.media.deep_view(),
            provider: self.provider.deep_view(),
            embed_html: self.embed_html.deep_view(),
            embed_iframe: self.embed_iframe.deep_view(),
            embed_url: self.embed_url.deep_view(),
            poster: match self.poster {
                Some(ms) => Some(media_seq_deep(ms@)),
                None => None,
            },
            metadata: self.metadata.deep_view(),
            attribution: self.attribution.deep_view(),
            can_autoplay_on_cellular: self.can_autoplay_on_cellular,
            filmstrip: self.filmstrip.deep_view(),
        }
    }
}

pub open spec fn video_block_enc(v: ContentBlockVideoV) -> JsonV {
    JsonV::Obj(
        opt_entry("attribution"@, oattr(v.attribution)) + opt_entry(
            "can_autoplay_on_cellular"@,
            obool(v.can_autoplay_on_cellular),
        ) + opt_entry("embed_html"@, ostr(v.embed_html)) + opt_entry(
            "embed_iframe"@,
            match v.embed_iframe {
                Some(f) => Some(embed_iframe_enc(f)),
                None => None,
            },
        ) + opt_entry("embed_url"@, ostr(v.embed_url)) + opt_entry(
            "filmstrip"@,
            omedia(v.filmstrip),
        ) + opt_entry("media"@, omedia(v.media)) + opt_entry(
            "metadata"@,
            v.metadata,
        ) + opt_entry(
            "poster"@,
            match v.poster {
                Some(ms) => Some(JsonV::Arr(media_list_enc(ms))),
                None => None,
            },
        ) + opt_entry("provider"@, ostr(v.provider)) + opt_entry(
            "type"@,
            Some(JsonV::Str("video"@)),
        ) + opt_entry("url"@, ostr(v.url)),
    )
}

pub open spec fn video_block_dec(es: Seq<(Seq<char>, JsonV)>) -> Result<
    ContentBlockVideoV,
    DecodeError,
> {
    if !keys_subset_v(
        es,
        seq![
            "attribution"@,
            "can_autoplay_on_cellular"@,
            "embed_html"@,
            "embed_iframe"@,
            "embed_url"@,
            "filmstrip"@,
            "media"@,
            "metadata"@,
            "poster"@,
            "provider"@,
            "type"@,
            "url"@,
        ],
    ) {
        Err(DecodeError::UnknownField)
    } else {
        match f_str_opt(es, "url"@) {
            Err(e) => Err(e),
            Ok(url) => match f_media_opt(es, "media"@) {
                Err(e) => Err(e),
                Ok(media) => match f_str_opt(es, "provider"@) {
                    Err(e) => Err(e),
                    Ok(provider) => match f_str_opt(es, "embed_html"@) {
                        Err(e) => Err(e),
                        Ok(embed_html) => match f_embed_iframe_opt(es, "embed_iframe"@) {
                            Err(e) => Err(e),
                            Ok(embed_iframe) => match f_str_opt(es, "embed_url"@) {
                                Err(e) => Err(e),
                                Ok(embed_url) => match f_media_list_opt(es, "poster"@) {
                                    Err(e) => Err(e),
                                    Ok(poster) => match f_json_opt(es, "metadata"@) {
                                        Err(e) => Err(e),
                                        Ok(metadata) => match f_attr(es, "attribution"@) {
                                            Err(e) => Err(e),
                                            Ok(attribution) => match f_bool_opt(
                                                es,
                                                "can_autoplay_on_cellular"@,
                                            ) {
                                                Err(e) => Err(e),
                                                Ok(can_autoplay_on_cellular) => match f_media_opt(
                                                    es,
                                                    "filmstrip"@,
                                                ) {
                                                    Err(e) => Err(e),
                                                    Ok(filmstrip) => Ok(
                                                        ContentBlockVideoV {
                                                            url,
                                                            media,
                                                            provider,
                                                            embed_html,
                                                            embed_iframe,
                                                            embed_url,
                                                            poster,
                                                            metadata,
                                                            attribution,
                                                            can_autoplay_on_cellular,
                                                            filmstrip,
                                                        },
                                                    ),
                                                },
                                            },
                                        },
                                    },
                                },
                            },
                        },
                    },
                },
            },
        }
    }
}

impl ContentBlockVideo {
    #[verifier::rlimit(100)]
    pub fn encode(&self) -> (r: Json)
        ensures
            r@ == video_block_enc(self.deep_view()),
    {
        let ghost v = self.deep_view();
        let mut b = ObjBuilder::new();
        let aj = match &self.attribution {
            Some(a) => Some(a.encode()),
            None => None,
        };
        proof {
            assert((match aj {
                Some(j) => Some(j@),
                None => None,
            }) == oattr(v.attribution));
        }
        b.push_opt("attribution", aj);
        proof {
            assert(Seq::empty() + opt_entry("attribution"@, oattr(v.attribution)) =~= opt_entry(
                "attribution"@,
                oattr(v.attribution),
            ));
        }
        b.push_opt(
            "can_autoplay_on_cellular",
            match &self.can_autoplay_on_cellular {
                Some(x) => Some(Json::Bool(*x)),
                None => None,
            },
        );
        b.push_opt(
            "embed_html",
            match &self.embed_html {
                Some(s) => Some(Json::Str(s.clone())),
                None => None,
            },
        );
        let fj = match &self.embed_iframe {
            Some(f) => Some(f.encode()),
            None => None,
        };
        proof {
            assert((match fj {
                Some(j) => Some(j@),
                None => None,
            }) == (match v.embed_iframe {
                Some(f) => Some(embed_iframe_enc(f)),
                None => None::<JsonV>,
            }));
        }
        b.push_opt("embed_iframe", fj);
        b.push_opt(
            "embed_url",
            match &self.embed_url {
                Some(s) => Some(Json::Str(s.clone())),
                None => None,
            },
        );
        let sj = match &self.filmstrip {
            Some(m) => Some(m.encode()),
            None => None,
        };
        proof {
            assert((match sj {
                Some(j) => Some(j@),
                None => None,
            }) == omedia(v.filmstrip));
        }
        b.push_opt("filmstrip", sj);
        let mj = match &self.media {
            Some(m) => Some(m.encode()),
            None => None,
        };
        proof {
            assert((match mj {
                Some(j) => Some(j@),
                None => None,
            }) == omedia(v.media));
        }
        b.push_opt("media", mj);
        let dj = match &self.metadata {
            Some(d) => Some(d.duplicate()),
            None => None,
        };
        proof {
            assert((match dj {
                Some(j) => Some(j@),
                None => None,
            }) == v.metadata);
        }
        b.push_opt("metadata", dj);
        let pj = match &self.poster {
            Some(ms) => Some(encode_media_vec(ms)),
            None => None,
        };
        proof {
            assert((match pj {
                Some(j) => Some(j@),
                None => None,
            }) == (match v.poster {
                Some(ms) => Some(JsonV::Arr(media_list_enc(ms))),
                None => None::<JsonV>,
            }));
        }
        b.push_opt("poster", pj);
        b.push_opt(
            "provider",
            match &self.provider {
                Some(s) => Some(Json::Str(s.clone())),
                None => None,
            },
        );
        b.push_opt("type", Some(Json::Str("video".to_owned())));
        b.push_opt(
            "url",
            match &self.url {
                Some(s) => Some(Json::Str(s.clone())),
                None => None,
            },
        );
        b.finish()
    }

    pub fn decode_fields(entries: &Vec<(String, Json)>) -> (r: Result<
        ContentBlockVideo,
        DecodeError,
    >)
        ensures
            dres(r) == video_block_dec(entries_view(entries@)),
    {
        let allowed: [&str; 12] = [
            "attribution",
            "can_autoplay_on_cellular",
            "embed_html",
            "embed_iframe",
            "embed_url",
            "filmstrip",
            "media",
            "metadata",
            "poster",
            "provider",
            "type",
            "url",
        ];
        proof {
            assert(allowed.deep_view() =~= seq![
                "attribution"@,
                "can_autoplay_on_cellular"@,
                "embed_html"@,
                "embed_iframe"@,
                "embed_url"@,
                "filmstrip"@,
                "media"@,
                "metadata"@,
                "poster"@,
                "provider"@,
                "type"@,
                "url"@,
            ]);
        }
        if !keys_subset(entries, &allowed) {
            return Err(DecodeError::UnknownField);
        }
        let url = match get_str_opt(entries, "url") {
            Err(e) => { return Err(e); },
            Ok(x) => x,
        };
        let media = match get_media_opt(entries, "media") {
            Err(e) => { return Err(e); },
            Ok(x) => x,
        };
        let provider = match get_str_opt(entries, "provider") {
            Err(e) => { return Err(e); },
            Ok(x) => x,
        };
        let embed_html = match get_str_opt(entries, "embed_html") {
            Err(e) => { return Err(e); },
            Ok(x) => x,
        };
        let embed_iframe = match get_embed_iframe_opt(entries, "embed_iframe") {
            Err(e) => { return Err(e); },
            Ok(x) => x,
        };
        let embed_url = match get_str_opt(entries, "embed_url") {
            Err(e) => { return Err(e); },
            Ok(x) => x,
        };
        let poster = match get_media_list_opt(entries, "poster") {
            Err(e) => { return Err(e); },
            Ok(x) => x,
        };
        let metadata = match get_json_opt(entries, "metadata") {
            Err(e) => { return Err(e); },
            Ok(x) => x,
        };
        let attribution = match get_attr(entries, "attribution") {
            Err(e) => { return Err(e); },
            Ok(x) => x,
        };
        let can_autoplay_on_cellular = match get_bool_opt(entries, "can_autoplay_on_cellular") {
            Err(e) => { return Err(e); },
            Ok(x) => x,
        };
        let filmstrip = match get_media_opt(entries, "filmstrip") {
            Err(e) => { return Err(e); },
            Ok(x) => x,
        };
        let result = ContentBlockVideo {
            url,
            media,
            provider,
            embed_html,
            embed_iframe,
            embed_url,
            poster,
            metadata,
            attribution,
            can_autoplay_on_cellular,
            filmstrip,
        };
        proof {
            match &result.poster {
                Some(ms) => {
                    assert(media_seq_deep(ms@) =~= ms.deep_view());
                },
                None => {},
            }
        }
        Ok(result)
    }
}

// ---------------------------------------------------------------------------
// ContentBlock: the tagged union of all block kinds, dispatched by the
// lowercase `type` field.
// ---------------------------------------------------------------------------
#[derive(Debug, PartialEq, Eq)]
pub enum ContentBlock {
    Text(ContentBlockText),
    Image(ContentBlockImage),
    Link(ContentBlockLink),
    Audio(ContentBlockAudio),
    Video(ContentBlockVideo),
    Paywall(ContentBlockPaywall),
    Poll(ContentBlockPoll),
}

pub enum ContentBlockV {
    Text(ContentBlockTextV),
    Image(ContentBlockImageV),
    Link(ContentBlockLinkV),
    Audio(ContentBlockAudioV),
    Video(ContentBlockVideoV),
    Paywall(ContentBlockPaywallV),
    Poll(ContentBlockPollV),
}

impl DeepView for ContentBlock {
    type V = ContentBlockV;

    open spec fn deep_view(&self) -> ContentBlockV {
        match self {
            ContentBlock::Text(x) => ContentBlockV::Text(x.deep_view()),
            ContentBlock::Image(x) => ContentBlockV::Image(x.deep_view()),
            ContentBlock::Link(x) => ContentBlockV::Link(x.deep_view()),
            ContentBlock::Audio(x) => ContentBlockV::Audio(x.deep_view()),
            ContentBlock::Video(x) => ContentBlockV::Video(x.deep_view()),
            ContentBlock::Paywall(x) => ContentBlockV::Paywall(x.deep_view()),
            ContentBlock::Poll(x) => ContentBlockV::Poll(x.deep_view()),
        }
    }
}

pub open spec fn content_block_enc(v: ContentBlockV) -> JsonV {
    match v {
        ContentBlockV::Text(x) => text_block_enc(x),
        ContentBlockV::Image(x) => image_block_enc(x),
        ContentBlockV::Link(x) => link_block_enc(x),
        ContentBlockV::Audio(x) => audio_block_enc(x),
        ContentBlockV::Video(x) => video_block_enc(x),
        ContentBlockV::Paywall(x) => paywall_block_enc(x),
        ContentBlockV::Poll(x) => poll_block_enc(x),
    }
}

/// Whether a block is within the documented length ceilings that encoding
/// enforces.
pub open spec fn content_block_enc_ok(v: ContentBlockV) -> bool {
    match v {
        ContentBlockV::Image(x) => image_block_enc_ok(x),
        _ => true,
    }
}

pub open spec fn content_block_dec(j: JsonV) -> Result<ContentBlockV, DecodeError> {
    match j {
        JsonV::Obj(es) => match f_str(es, "type"@) {
            Err(e) => Err(e),
            Ok(t) => if t == "text"@ {
                match text_block_dec(es) {
                    Err(e) => Err(e),
                    Ok(x) => Ok(ContentBlockV::Text(x)),
                }
            } else if t == "image"@ {
                match image_block_dec(es) {
                    Err(e) => Err(e),
                    Ok(x) => Ok(ContentBlockV::Image(x)),
                }
            } else if t == "link"@ {
                match link_block_dec(es) {
                    Err(e) => Err(e),
                    Ok(x) => Ok(ContentBlockV::Link(x)),
                }
            } else if t == "audio"@ {
                match audio_block_dec(es) {
                    Err(e) => Err(e),
                    Ok(x) => Ok(ContentBlockV::Audio(x)),
                }
            } else if t == "video"@ {
                match video_block_dec(es) {
                    Err(e) => Err(e),
                    Ok(x) => Ok(ContentBlockV::Video(x)),
                }
            } else if t == "paywall"@ {
                match paywall_block_dec(es) {
                    Err(e) => Err(e),
                    Ok(x) => Ok(ContentBlockV::Paywall(x)),
                }
            } else if t == "poll"@ {
                match poll_block_dec(es) {
                    Err(e) => Err(e),
                    Ok(x) => Ok(ContentBlockV::Poll(x)),
                }
            } else {
                Err(DecodeError::UnknownVariant)
            },
        },
        _ => Err(DecodeError::TypeMismatch),
    }
}

impl ContentBlock {
    /// Encodes a block into its tagged wire object. Refused exactly when a
    /// caller-supplied text exceeds its documented length ceiling.
    pub fn encode(&self) -> (r: Result<Json, EncodeError>)
        ensures
            r is Ok <==> content_block_enc_ok(self.deep_view()),
            r matches Ok(j) ==> j@ == content_block_enc(self.deep_view()),
    {
        match self {
            ContentBlock::Text(x) => Ok(x.encode()),
            ContentBlock::Image(x) => x.encode(),
            ContentBlock::Link(x) => Ok(x.encode()),
            ContentBlock::Audio(x) => Ok(x.encode()),
            ContentBlock::Video(x) => Ok(x.encode()),
            ContentBlock::Paywall(x) => Ok(x.encode()),
            ContentBlock::Poll(x) => Ok(x.encode()),
        }
    }

    /// Decodes a tagged wire object into a block; a discriminant outside
    /// the closed set is refused as an unknown variant.
    pub fn decode(j: &Json) -> (r: Result<ContentBlock, DecodeError>)
        ensures
            dres(r) == content_block_dec(j@),
    {
        match j {
            Json::Obj(entries) => {
                proof {
                    lemma_obj_view(*entries);
                }
                let t = match get_str(entries, "type") {
                    Err(e) => { return Err(e); },
                    Ok(s) => s,
                };
                let ts = t.as_str();
                if str_eq_str(ts, "text") {
                    match ContentBlockText::decode_fields(entries) {
                        Err(e) => Err(e),
                        Ok(x) => Ok(ContentBlock::Text(x)),
                    }
                } else if str_eq_str(ts, "image") {
                    match ContentBlockImage::decode_fields(entries) {
                        Err(e) => Err(e),
                        Ok(x) => Ok(ContentBlock::Image(x)),
                    }
                } else if str_eq_str(ts, "link") {
                    match ContentBlockLink::decode_fields(entries) {
                        Err(e) => Err(e),
                        Ok(x) => Ok(ContentBlock::Link(x)),
                    }
                } else if str_eq_str(ts, "audio") {
                    match ContentBlockAudio::decode_fields(entries) {
                        Err(e) => Err(e),
                        Ok(x) => Ok(ContentBlock::Audio(x)),
                    }
                } else if str_eq_str(ts, "video") {
                    match ContentBlockVideo::decode_fields(entries) {
                        Err(e) => Err(e),
                        Ok(x) => Ok(ContentBlock::Video(x)),
                    }
                } else if str_eq_str(ts, "paywall") {
                    match ContentBlockPaywall::decode_fields(entries) {
                        Err(e) => Err(e),
                        Ok(x) => Ok(ContentBlock::Paywall(x)),
                    }
                } else if str_eq_str(ts, "poll") {
                    match ContentBlockPoll::decode_fields(entries) {
                        Err(e) => Err(e),
                        Ok(x) => Ok(ContentBlock::Poll(x)),
                    }
                } else {
                    Err(DecodeError::UnknownVariant)
                }
            },
            _ => Err(DecodeError::TypeMismatch),
        }
    }

    /// Decodes a block from JSON text.
    pub fn from_json_str(s: &str) -> (r: Result<ContentBlock, DecodeError>)
        ensures
            match crate::text::json_text(s@) {
                Some(j) => dres(r) == content_block_dec(j),
                None => r == Err::<ContentBlock, DecodeError>(DecodeError::TypeMismatch),
            },
    {
        match crate::text::parse_json(s) {
            Some(j) => ContentBlock::decode(&j),
            None => Err(DecodeError::TypeMismatch),
        }
    }
}

/// Law (unknown discriminant rejection): a block whose `type` names no
/// known kind is refused as an unknown variant, never dropped or defaulted.
pub proof fn lemma_unknown_variant_rejected(es: Seq<(Seq<char>, JsonV)>, t: Seq<char>)
    requires
        obj_get_v(es, "type"@) == Some(JsonV::Str(t)),
        t != "text"@,
        t != "image"@,
        t != "link"@,
        t != "audio"@,
        t != "video"@,
        t != "paywall"@,
        t != "poll"@,
    ensures
        content_block_dec(JsonV::Obj(es)) == Err::<ContentBlockV, DecodeError>(
            DecodeError::UnknownVariant,
        ),
{
}

/// Law (attribution empty-list normalization): two block objects that
/// agree on every field but attribution, where one holds an empty list
/// and the other lacks the key, decode to the same image block.
pub proof fn lemma_attr_empty_list_is_absent(
    es1: Seq<(Seq<char>, JsonV)>,
    es2: Seq<(Seq<char>, JsonV)>,
)
    requires
        obj_get_v(es1, "attribution"@) == Some(JsonV::Arr(Seq::<JsonV>::empty())),
        obj_get_v(es2, "attribution"@) is None,
        forall|k: Seq<char>| k != "attribution"@ ==> #[trigger] obj_get_v(es1, k) == obj_get_v(
            es2,
            k,
        ),
        keys_subset_v(
            es1,
            seq![
                "alt_text"@,
                "attribution"@,
                "caption"@,
                "clickthrough"@,
                "colors"@,
                "exif"@,
                "feedback_token"@,
                "media"@,
                "type"@,
            ],
        ),
        keys_subset_v(
            es2,
            seq![
                "alt_text"@,
                "attribution"@,
                "caption"@,
                "clickthrough"@,
                "colors"@,
                "exif"@,
                "feedback_token"@,
                "media"@,
                "type"@,
            ],
        ),
    ensures
        image_block_dec(es1) == image_block_dec(es2),
{
    reveal_strlit("attribution");
    reveal_strlit("alt_text");
    reveal_strlit("caption");
    reveal_strlit("clickthrough");
    reveal_strlit("colors");
    reveal_strlit("exif");
    reveal_strlit("feedback_token");
    reveal_strlit("media");
    reveal_strlit("type");
    assert("attribution"@.len() == 11);
    assert("alt_text"@.len() == 8);
    assert("caption"@.len() == 7);
    assert("clickthrough"@.len() == 12);
    assert("colors"@.len() == 6);
    assert("exif"@.len() == 4);
    assert("feedback_token"@.len() == 14);
    assert("media"@.len() == 5);
    assert("type"@.len() == 4);
    assert(("exif"@)[0] != ("type"@)[0]);
    assert(obj_get_v(es1, "media"@) == obj_get_v(es2, "media"@));
    assert(obj_get_v(es1, "colors"@) == obj_get_v(es2, "colors"@));
    assert(obj_get_v(es1, "feedback_token"@) == obj_get_v(es2, "feedback_token"@));
    assert(obj_get_v(es1, "alt_text"@) == obj_get_v(es2, "alt_text"@));
    assert(obj_get_v(es1, "caption"@) == obj_get_v(es2, "caption"@));
    assert(obj_get_v(es1, "exif"@) == obj_get_v(es2, "exif"@));
    assert(obj_get_v(es1, "clickthrough"@) == obj_get_v(es2, "clickthrough"@));
    assert(f_attr(es1, "attribution"@) == f_attr(es2, "attribution"@));
}

/// Law (single-or-list-of-one): an audio poster given as a bare object and
/// as a one-element list of that object decode identically; and a list of
/// any other length is refused.
pub proof fn lemma_poster_single_or_list_of_one(
    es1: Seq<(Seq<char>, JsonV)>,
    es2: Seq<(Seq<char>, JsonV)>,
    mj: JsonV,
)
    requires
        obj_get_v(es1, "poster"@) == Some(mj),
        obj_get_v(es2, "poster"@) == Some(JsonV::Arr(seq![mj])),
        mj !is Arr,
        mj !is Null,
        forall|k: Seq<char>| k != "poster"@ ==> #[trigger] obj_get_v(es1, k) == obj_get_v(
            es2,
            k,
        ),
        keys_subset_v(es1, audio_keys()),
        keys_subset_v(es2, audio_keys()),
    ensures
        audio_block_dec(es1) == audio_block_dec(es2),
{
    audio_keys_facts();
    assert(seq![mj].len() == 1);
    assert(seq![mj][0] == mj);
    assert(f_sol_media(es1, "poster"@) == f_sol_media(es2, "poster"@));
    assert(obj_get_v(es1, "url"@) == obj_get_v(es2, "url"@));
    assert(obj_get_v(es1, "media"@) == obj_get_v(es2, "media"@));
    assert(obj_get_v(es1, "provider"@) == obj_get_v(es2, "provider"@));
    assert(obj_get_v(es1, "title"@) == obj_get_v(es2, "title"@));
    assert(obj_get_v(es1, "artist"@) == obj_get_v(es2, "artist"@));
    assert(obj_get_v(es1, "album"@) == obj_get_v(es2, "album"@));
    assert(obj_get_v(es1, "embed_html"@) == obj_get_v(es2, "embed_html"@));
    assert(obj_get_v(es1, "embed_url"@) == obj_get_v(es2, "embed_url"@));
    assert(obj_get_v(es1, "metadata"@) == obj_get_v(es2, "metadata"@));
    assert(obj_get_v(es1, "attribution"@) == obj_get_v(es2, "attribution"@));
}

/// Law (single-or-list-of-one, refusal): a poster list of any length but
/// one is refused outright.
pub proof fn lemma_poster_list_length_refused(es: Seq<(Seq<char>, JsonV)>, a: Seq<JsonV>)
    requires
        obj_get_v(es, "poster"@) == Some(JsonV::Arr(a)),
        a.len() != 1,
    ensures
        f_sol_media(es, "poster"@) == Err::<Option<MediaObjectV>, DecodeError>(
            DecodeError::ConstraintViolated,
        ),
{
}

pub open spec fn audio_keys() -> Seq<Seq<char>> {
    seq![
        "album"@,
        "artist"@,
        "attribution"@,
        "embed_html"@,
        "embed_url"@,
        "media"@,
        "metadata"@,
        "poster"@,
        "provider"@,
        "title"@,
        "type"@,
        "url"@,
    ]
}

/// Whether a block holds only its required fields, with every optional
/// one absent.
pub open spec fn block_minimal(v: ContentBlockV) -> bool {
    match v {
        ContentBlockV::Text(x) => x.subtype is None && x.indent_level is None && x.formatting
            is None,
        ContentBlockV::Image(x) => x.colors is None && x.feedback_token is None && x.attribution
            is None && x.alt_text is None && x.caption is None && x.exif is None
            && x.clickthrough is None,
        ContentBlockV::Link(x) => x.title is None && x.description is None && x.author is None
            && x.site_name is None && x.display_url is None && x.poster is None,
        ContentBlockV::Audio(x) => x.url is None && x.media is None && x.provider is None
            && x.title is None && x.artist is None && x.album is None && x.poster is None
            && x.embed_html is None && x.embed_url is None && x.metadata is None
            && x.attribution is None,
        ContentBlockV::Video(x) => x.url is None && x.media is None && x.provider is None
            && x.embed_html is None && x.embed_iframe is None && x.embed_url is None && x.poster
            is None && x.metadata is None && x.attribution is None
            && x.can_autoplay_on_cellular is None && x.filmstrip is None,
        ContentBlockV::Paywall(_) => true,
        ContentBlockV::Poll(_) => true,
    }
}

/// The entries a block's required fields contribute: the discriminant and
/// nothing optional.
pub open spec fn block_required_entries(v: ContentBlockV) -> Seq<(Seq<char>, JsonV)> {
    match v {
        ContentBlockV::Text(x) => seq![
            ("text"@, JsonV::Str(x.text)),
            ("type"@, JsonV::Str("text"@)),
        ],
        ContentBlockV::Image(x) => seq![
            ("media"@, JsonV::Arr(media_list_enc(x.media))),
            ("type"@, JsonV::Str("image"@)),
        ],
        ContentBlockV::Link(x) => seq![
            ("type"@, JsonV::Str("link"@)),
            ("url"@, JsonV::Str(x.url)),
        ],
        ContentBlockV::Audio(_) => seq![("type"@, JsonV::Str("audio"@))],
        ContentBlockV::Video(_) => seq![("type"@, JsonV::Str("video"@))],
        ContentBlockV::Paywall(_) => seq![("type"@, JsonV::Str("paywall"@))],
        ContentBlockV::Poll(x) => seq![
            ("answers"@, JsonV::Arr(list_enc(x.answers, poll_answer_enc_fn()))),
            ("client_id"@, JsonV::Str(x.client_id)),
            ("created_at"@, JsonV::Str(x.created_at)),
            ("question"@, JsonV::Str(x.question)),
            ("settings"@, poll_settings_enc(x.settings)),
            ("timestamp"@, JsonV::I64(x.timestamp)),
            ("type"@, JsonV::Str("poll"@)),
        ],
    }
}

/// Law (lean encoding): a block holding only its required fields encodes
/// to exactly the discriminant key plus those fields — no spurious
/// optional keys.
pub proof fn lemma_minimal_block_encoding(v: ContentBlockV)
    requires
        block_minimal(v),
    ensures
        content_block_enc(v) == JsonV::Obj(block_required_entries(v)),
{
    match v {
        ContentBlockV::Text(x) => {
            assert(content_block_enc(v) matches JsonV::Obj(es) ==> es =~= block_required_entries(
                v,
            ));
        },
        ContentBlockV::Image(x) => {
            assert(content_block_enc(v) matches JsonV::Obj(es) ==> es =~= block_required_entries(
                v,
            ));
        },
        ContentBlockV::Link(x) => {
            assert(content_block_enc(v) matches JsonV::Obj(es) ==> es =~= block_required_entries(
                v,
            ));
        },
        ContentBlockV::Audio(x) => {
            assert(content_block_enc(v) matches JsonV::Obj(es) ==> es =~= block_required_entries(
                v,
            ));
        },
        ContentBlockV::Video(x) => {
            assert(content_block_enc(v) matches JsonV::Obj(es) ==> es =~= block_required_entries(
                v,
            ));
        },
        ContentBlockV::Paywall(x) => {
            assert(content_block_enc(v) matches JsonV::Obj(es) ==> es =~= block_required_entries(
                v,
            ));
        },
        ContentBlockV::Poll(x) => {
            assert(content_block_enc(v) matches JsonV::Obj(es) ==> es =~= block_required_entries(
                v,
            ));
        },
    }
}

proof fn text_keys_facts()
    ensures
        "formatting"@.len() == 10,
        "indent_level"@.len() == 12,
        "subtype"@.len() == 7,
        "text"@.len() == 4,
        "type"@.len() == 4,
        "text"@ != "type"@,
{
    reveal_strlit("formatting");
    reveal_strlit("indent_level");
    reveal_strlit("subtype");
    reveal_strlit("text");
    reveal_strlit("type");
    assert(("text"@)[1] != ("type"@)[1]);
}

/// Law (round trip): a text block whose spans are well formed decodes
/// back to itself from its own encoding.
#[verifier::rlimit(100)]
pub proof fn lemma_text_block_round_trip(x: ContentBlockTextV)
    requires
        text_block_wf(x),
    ensures
        text_block_dec(content_block_enc(ContentBlockV::Text(x))->Obj_0) == Ok::<
            ContentBlockTextV,
            DecodeError,
        >(x),
{
    text_keys_facts();
    let s1 = opt_entry(
        "formatting"@,
        match x.formatting {
            Some(fs) => Some(JsonV::Arr(list_enc(fs, fmt_enc_fn()))),
            None => None,
        },
    );
    let s2 = opt_entry("indent_level"@, oi32(x.indent_level));
    let s3 = opt_entry(
        "subtype"@,
        match x.subtype {
            Some(t) => Some(JsonV::Str(text_subtype_wire(t))),
            None => None,
        },
    );
    let s4 = opt_entry("text"@, Some(JsonV::Str(x.text)));
    let s5 = opt_entry("type"@, Some(JsonV::Str("text"@)));
    lemma_obj_get_opt_all(
        "formatting"@,
        match x.formatting {
            Some(fs) => Some(JsonV::Arr(list_enc(fs, fmt_enc_fn()))),
            None => None,
        },
    );
    lemma_obj_get_opt_all("indent_level"@, oi32(x.indent_level));
    lemma_obj_get_opt_all(
        "subtype"@,
        match x.subtype {
            Some(t) => Some(JsonV::Str(text_subtype_wire(t))),
            None => None,
        },
    );
    lemma_obj_get_opt_all("text"@, Some(JsonV::Str(x.text)));
    lemma_obj_get_opt_all("type"@, Some(JsonV::Str("text"@)));
    lemma_obj_get_append_all(s1, s2);
    lemma_obj_get_append_all(s1 + s2, s3);
    lemma_obj_get_append_all(s1 + s2 + s3, s4);
    lemma_obj_get_append_all(s1 + s2 + s3 + s4, s5);
    let ks = seq!["formatting"@, "indent_level"@, "subtype"@, "text"@, "type"@];
    lemma_keys_subset_opt(
        "formatting"@,
        match x.formatting {
            Some(fs) => Some(JsonV::Arr(list_enc(fs, fmt_enc_fn()))),
            None => None,
        },
        ks,
    );
    lemma_keys_subset_opt("indent_level"@, oi32(x.indent_level), ks);
    lemma_keys_subset_opt(
        "subtype"@,
        match x.subtype {
            Some(t) => Some(JsonV::Str(text_subtype_wire(t))),
            None => None,
        },
        ks,
    );
    lemma_keys_subset_opt("text"@, Some(JsonV::Str(x.text)), ks);
    lemma_keys_subset_opt("type"@, Some(JsonV::Str("text"@)), ks);
    lemma_keys_subset_concat(s1, s2, ks);
    lemma_keys_subset_concat(s1 + s2, s3, ks);
    lemma_keys_subset_concat(s1 + s2 + s3, s4, ks);
    lemma_keys_subset_concat(s1 + s2 + s3 + s4, s5, ks);
    match x.subtype {
        Some(t) => {
            lemma_text_subtype_round_trip(t);
        },
        None => {},
    }
    match x.formatting {
        Some(fs) => {
            assert forall|i: int| 0 <= i < fs.len() implies fmt_dec_fn()(
                fmt_enc_fn()(#[trigger] fs[i]),
            ) == Ok::<InlineFormatV, DecodeError>(fs[i]) by {
                lemma_inline_format_round_trip(fs[i]);
            }
            lemma_list_round_trip(fs, fmt_enc_fn(), fmt_dec_fn());
        },
        None => {},
    }
}

/// Law (round trip, dispatched): a text block with well-formed spans
/// comes back whole through the tagged union's own codec.
pub proof fn lemma_content_block_text_round_trip(x: ContentBlockTextV)
    requires
        text_block_wf(x),
    ensures
        content_block_dec(content_block_enc(ContentBlockV::Text(x))) == Ok::<
            ContentBlockV,
            DecodeError,
        >(ContentBlockV::Text(x)),
{
    text_keys_facts();
    lemma_text_block_round_trip(x);
}

proof fn block_names_facts()
    ensures
        "text"@.len() == 4,
        "image"@.len() == 5,
        "link"@.len() == 4,
        "audio"@.len() == 5,
        "video"@.len() == 5,
        "paywall"@.len() == 7,
        "poll"@.len() == 4,
        "text"@ != "link"@,
        "text"@ != "poll"@,
        "link"@ != "poll"@,
        "image"@ != "audio"@,
        "image"@ != "video"@,
        "audio"@ != "video"@,
{
    reveal_strlit("text");
    reveal_strlit("image");
    reveal_strlit("link");
    reveal_strlit("audio");
    reveal_strlit("video");
    reveal_strlit("paywall");
    reveal_strlit("poll");
    assert(("text"@)[0] != ("link"@)[0]);
    assert(("text"@)[0] != ("poll"@)[0]);
    assert(("link"@)[0] != ("poll"@)[0]);
    assert(("image"@)[0] != ("audio"@)[0]);
    assert(("image"@)[0] != ("video"@)[0]);
    assert(("audio"@)[0] != ("video"@)[0]);
}

/// The lean-poll case of the round-trip law.
#[verifier::rlimit(100)]
proof fn lemma_minimal_poll_round_trip(x: ContentBlockPollV)
    ensures
        content_block_dec(content_block_enc(ContentBlockV::Poll(x))) == Ok::<
            ContentBlockV,
            DecodeError,
        >(ContentBlockV::Poll(x)),
{
    block_names_facts();
    lemma_minimal_block_encoding(ContentBlockV::Poll(x));
    let es = block_required_entries(ContentBlockV::Poll(x));

            reveal_strlit("answers");
            reveal_strlit("client_id");
            reveal_strlit("created_at");
            reveal_strlit("question");
            reveal_strlit("settings");
            reveal_strlit("timestamp");
            reveal_strlit("type");
            reveal_strlit("poll");
            assert("answers"@.len() == 7);
            assert("client_id"@.len() == 9);
            assert("created_at"@.len() == 10);
            assert("question"@.len() == 8);
            assert("settings"@.len() == 8);
            assert("timestamp"@.len() == 9);
            assert("type"@.len() == 4);
            assert(("client_id"@)[0] != ("timestamp"@)[0]);
            assert(("question"@)[0] != ("settings"@)[0]);
            let s1 = opt_entry(
                "answers"@,
                Some(JsonV::Arr(list_enc(x.answers, poll_answer_enc_fn()))),
            );
            let s2 = opt_entry("client_id"@, Some(JsonV::Str(x.client_id)));
            let s3 = opt_entry("created_at"@, Some(JsonV::Str(x.created_at)));
            let s4 = opt_entry("question"@, Some(JsonV::Str(x.question)));
            let s5 = opt_entry("settings"@, Some(poll_settings_enc(x.settings)));
            let s6 = opt_entry("timestamp"@, Some(JsonV::I64(x.timestamp)));
            let s7 = opt_entry("type"@, Some(JsonV::Str("poll"@)));
            assert(es =~= s1 + s2 + s3 + s4 + s5 + s6 + s7);
            lemma_obj_get_opt_all(
                "answers"@,
                Some(JsonV::Arr(list_enc(x.answers, poll_answer_enc_fn()))),
            );
            lemma_obj_get_opt_all("client_id"@, Some(JsonV::Str(x.client_id)));
            lemma_obj_get_opt_all("created_at"@, Some(JsonV::Str(x.created_at)));
            lemma_obj_get_opt_all("question"@, Some(JsonV::Str(x.question)));
            lemma_obj_get_opt_all("settings"@, Some(poll_settings_enc(x.settings)));
            lemma_obj_get_opt_all("timestamp"@, Some(JsonV::I64(x.timestamp)));
            lemma_obj_get_opt_all("type"@, Some(JsonV::Str("poll"@)));
            lemma_obj_get_append_all(s1, s2);
            lemma_obj_get_append_all(s1 + s2, s3);
            lemma_obj_get_append_all(s1 + s2 + s3, s4);
            lemma_obj_get_append_all(s1 + s2 + s3 + s4, s5);
            lemma_obj_get_append_all(s1 + s2 + s3 + s4 + s5, s6);
            lemma_obj_get_append_all(s1 + s2 + s3 + s4 + s5 + s6, s7);
            let ks = seq![
                "answers"@,
                "client_id"@,
                "created_at"@,
                "question"@,
                "settings"@,
                "timestamp"@,
                "type"@,
            ];
            lemma_keys_subset_opt(
                "answers"@,
                Some(JsonV::Arr(list_enc(x.answers, poll_answer_enc_fn()))),
                ks,
            );
            lemma_keys_subset_opt("client_id"@, Some(JsonV::Str(x.client_id)), ks);
            lemma_keys_subset_opt("created_at"@, Some(JsonV::Str(x.created_at)), ks);
            lemma_keys_subset_opt("question"@, Some(JsonV::Str(x.question)), ks);
            lemma_keys_subset_opt("settings"@, Some(poll_settings_enc(x.settings)), ks);
            lemma_keys_subset_opt("timestamp"@, Some(JsonV::I64(x.timestamp)), ks);
            lemma_keys_subset_opt("type"@, Some(JsonV::Str("poll"@)), ks);
            lemma_keys_subset_concat(s1, s2, ks);
            lemma_keys_subset_concat(s1 + s2, s3, ks);
            lemma_keys_subset_concat(s1 + s2 + s3, s4, ks);
            lemma_keys_subset_concat(s1 + s2 + s3 + s4, s5, ks);
            lemma_keys_subset_concat(s1 + s2 + s3 + s4 + s5, s6, ks);
            lemma_keys_subset_concat(s1 + s2 + s3 + s4 + s5 + s6, s7, ks);
            assert forall|i: int| 0 <= i < x.answers.len() implies poll_answer_dec_fn()(
                poll_answer_enc_fn()(#[trigger] x.answers[i]),
            ) == Ok::<PollAnswerV, DecodeError>(x.answers[i]) by {
                lemma_poll_answer_round_trip(x.answers[i]);
            }
            lemma_list_round_trip(x.answers, poll_answer_enc_fn(), poll_answer_dec_fn());
            lemma_poll_settings_round_trip(x.settings);
        }

/// The lean-image case of the round-trip law.
proof fn lemma_minimal_image_round_trip(x: ContentBlockImageV)
    requires
        block_minimal(ContentBlockV::Image(x)),
        forall|i: int| 0 <= i < x.media.len() ==> media_wf(#[trigger] x.media[i]),
    ensures
        content_block_dec(content_block_enc(ContentBlockV::Image(x))) == Ok::<
            ContentBlockV,
            DecodeError,
        >(ContentBlockV::Image(x)),
{
    block_names_facts();
    lemma_minimal_block_encoding(ContentBlockV::Image(x));
    let es = block_required_entries(ContentBlockV::Image(x));
    reveal_strlit("alt_text");
    reveal_strlit("attribution");
    reveal_strlit("caption");
    reveal_strlit("clickthrough");
    reveal_strlit("colors");
    reveal_strlit("exif");
    reveal_strlit("feedback_token");
    reveal_strlit("media");
    reveal_strlit("type");
    assert("alt_text"@.len() == 8);
    assert("attribution"@.len() == 11);
    assert("caption"@.len() == 7);
    assert("clickthrough"@.len() == 12);
    assert("colors"@.len() == 6);
    assert("exif"@.len() == 4);
    assert("feedback_token"@.len() == 14);
    assert("media"@.len() == 5);
    assert("type"@.len() == 4);
    assert(("exif"@)[0] != ("type"@)[0]);
    let s1 = opt_entry("media"@, Some(JsonV::Arr(media_list_enc(x.media))));
    let s2 = opt_entry("type"@, Some(JsonV::Str("image"@)));
    assert(es =~= s1 + s2);
    lemma_obj_get_opt_all("media"@, Some(JsonV::Arr(media_list_enc(x.media))));
    lemma_obj_get_opt_all("type"@, Some(JsonV::Str("image"@)));
    lemma_obj_get_append_all(s1, s2);
    let ks = seq![
        "alt_text"@,
        "attribution"@,
        "caption"@,
        "clickthrough"@,
        "colors"@,
        "exif"@,
        "feedback_token"@,
        "media"@,
        "type"@,
    ];
    assert(ks[7] == "media"@);
    assert(ks[8] == "type"@);
    lemma_keys_subset_opt("media"@, Some(JsonV::Arr(media_list_enc(x.media))), ks);
    lemma_keys_subset_opt("type"@, Some(JsonV::Str("image"@)), ks);
    lemma_keys_subset_concat(s1, s2, ks);
    lemma_media_list_round_trip(x.media);
}

/// The lean-link case of the round-trip law.
proof fn lemma_minimal_link_round_trip(x: ContentBlockLinkV)
    requires
        block_minimal(ContentBlockV::Link(x)),
    ensures
        content_block_dec(content_block_enc(ContentBlockV::Link(x))) == Ok::<
            ContentBlockV,
            DecodeError,
        >(ContentBlockV::Link(x)),
{
    block_names_facts();
    lemma_minimal_block_encoding(ContentBlockV::Link(x));
    let es = block_required_entries(ContentBlockV::Link(x));
    reveal_strlit("author");
    reveal_strlit("description");
    reveal_strlit("display_url");
    reveal_strlit("poster");
    reveal_strlit("site_name");
    reveal_strlit("title");
    reveal_strlit("type");
    reveal_strlit("url");
    assert("author"@.len() == 6);
    assert("description"@.len() == 11);
    assert("display_url"@.len() == 11);
    assert("poster"@.len() == 6);
    assert("site_name"@.len() == 9);
    assert("title"@.len() == 5);
    assert("type"@.len() == 4);
    assert("url"@.len() == 3);
    let s1 = opt_entry("type"@, Some(JsonV::Str("link"@)));
    let s2 = opt_entry("url"@, Some(JsonV::Str(x.url)));
    assert(es =~= s1 + s2);
    lemma_obj_get_opt_all("type"@, Some(JsonV::Str("link"@)));
    lemma_obj_get_opt_all("url"@, Some(JsonV::Str(x.url)));
    lemma_obj_get_append_all(s1, s2);
    let ks = seq![
        "author"@,
        "description"@,
        "display_url"@,
        "poster"@,
        "site_name"@,
        "title"@,
        "type"@,
        "url"@,
    ];
    assert(ks[6] == "type"@);
    assert(ks[7] == "url"@);
    lemma_keys_subset_opt("type"@, Some(JsonV::Str("link"@)), ks);
    lemma_keys_subset_opt("url"@, Some(JsonV::Str(x.url)), ks);
    lemma_keys_subset_concat(s1, s2, ks);
}

/// The lean-audio case of the round-trip law.
proof fn lemma_minimal_audio_round_trip(x: ContentBlockAudioV)
    requires
        block_minimal(ContentBlockV::Audio(x)),
    ensures
        content_block_dec(content_block_enc(ContentBlockV::Audio(x))) == Ok::<
            ContentBlockV,
            DecodeError,
        >(ContentBlockV::Audio(x)),
{
    block_names_facts();
    audio_keys_facts();
    lemma_minimal_block_encoding(ContentBlockV::Audio(x));
    let es = block_required_entries(ContentBlockV::Audio(x));
    let s1 = opt_entry("type"@, Some(JsonV::Str("audio"@)));
    assert(es =~= s1);
    lemma_obj_get_opt_all("type"@, Some(JsonV::Str("audio"@)));
    assert(audio_keys()[10] == "type"@);
    lemma_keys_subset_opt("type"@, Some(JsonV::Str("audio"@)), audio_keys());
}

/// The lean-video case of the round-trip law.
proof fn lemma_minimal_video_round_trip(x: ContentBlockVideoV)
    requires
        block_minimal(ContentBlockV::Video(x)),
    ensures
        content_block_dec(content_block_enc(ContentBlockV::Video(x))) == Ok::<
            ContentBlockV,
            DecodeError,
        >(ContentBlockV::Video(x)),
{
    block_names_facts();
    lemma_minimal_block_encoding(ContentBlockV::Video(x));
    let es = block_required_entries(ContentBlockV::Video(x));
    reveal_strlit("attribution");
    reveal_strlit("can_autoplay_on_cellular");
    reveal_strlit("embed_html");
    reveal_strlit("embed_iframe");
    reveal_strlit("embed_url");
    reveal_strlit("filmstrip");
    reveal_strlit("media");
    reveal_strlit("metadata");
    reveal_strlit("poster");
    reveal_strlit("provider");
    reveal_strlit("type");
    reveal_strlit("url");
    assert("attribution"@.len() == 11);
    assert("can_autoplay_on_cellular"@.len() == 24);
    assert("embed_html"@.len() == 10);
    assert("embed_iframe"@.len() == 12);
    assert("embed_url"@.len() == 9);
    assert("filmstrip"@.len() == 9);
    assert("media"@.len() == 5);
    assert("metadata"@.len() == 8);
    assert("poster"@.len() == 6);
    assert("provider"@.len() == 8);
    assert("type"@.len() == 4);
    assert("url"@.len() == 3);
    let s1 = opt_entry("type"@, Some(JsonV::Str("video"@)));
    assert(es =~= s1);
    lemma_obj_get_opt_all("type"@, Some(JsonV::Str("video"@)));
    let ks = seq![
        "attribution"@,
        "can_autoplay_on_cellular"@,
        "embed_html"@,
        "embed_iframe"@,
        "embed_url"@,
        "filmstrip"@,
        "media"@,
        "metadata"@,
        "poster"@,
        "provider"@,
        "type"@,
        "url"@,
    ];
    assert(ks[10] == "type"@);
    lemma_keys_subset_opt("type"@, Some(JsonV::Str("video"@)), ks);
}

/// The paywall case of the round-trip law.
proof fn lemma_minimal_paywall_round_trip(x: ContentBlockPaywallV)
    ensures
        content_block_dec(content_block_enc(ContentBlockV::Paywall(x))) == Ok::<
            ContentBlockV,
            DecodeError,
        >(ContentBlockV::Paywall(x)),
{
    block_names_facts();
    lemma_minimal_block_encoding(ContentBlockV::Paywall(x));
    let es = block_required_entries(ContentBlockV::Paywall(x));
    reveal_strlit("type");
    assert("type"@.len() == 4);
    let s1 = opt_entry("type"@, Some(JsonV::Str("paywall"@)));
    assert(es =~= s1);
    lemma_obj_get_opt_all("type"@, Some(JsonV::Str("paywall"@)));
    assert(seq!["type"@][0] == "type"@);
    lemma_keys_subset_opt("type"@, Some(JsonV::Str("paywall"@)), seq!["type"@]);
}

/// Law (round trip on lean blocks): every block kind holding only its
/// required fields comes back whole from its own encoding. An image's
/// media renditions must be well formed.
pub proof fn lemma_minimal_block_round_trip(v: ContentBlockV)
    requires
        block_minimal(v),
        v matches ContentBlockV::Image(x) ==> forall|i: int| 0 <= i < x.media.len() ==> media_wf(
            #[trigger] x.media[i],
        ),
    ensures
        content_block_dec(content_block_enc(v)) == Ok::<ContentBlockV, DecodeError>(v),
{
    match v {
        ContentBlockV::Text(x) => {
            lemma_content_block_text_round_trip(x);
        },
        ContentBlockV::Image(x) => {
            lemma_minimal_image_round_trip(x);
        },
        ContentBlockV::Link(x) => {
            lemma_minimal_link_round_trip(x);
        },
        ContentBlockV::Audio(x) => {
            lemma_minimal_audio_round_trip(x);
        },
        ContentBlockV::Video(x) => {
            lemma_minimal_video_round_trip(x);
        },
        ContentBlockV::Paywall(x) => {
            lemma_minimal_paywall_round_trip(x);
        },
        ContentBlockV::Poll(x) => {
            lemma_minimal_poll_round_trip(x);
        },
    }
}

proof fn audio_keys_facts()
    ensures
        "album"@.len() == 5,
        "artist"@.len() == 6,
        "attribution"@.len() == 11,
        "embed_html"@.len() == 10,
        "embed_url"@.len() == 9,
        "media"@.len() == 5,
        "metadata"@.len() == 8,
        "poster"@.len() == 6,
        "provider"@.len() == 8,
        "title"@.len() == 5,
        "type"@.len() == 4,
        "url"@.len() == 3,
        "album"@ != "media"@,
        "album"@ != "title"@,
        "media"@ != "title"@,
        "artist"@ != "poster"@,
        "metadata"@ != "provider"@,
{
    reveal_strlit("album");
    reveal_strlit("artist");
    reveal_strlit("attribution");
    reveal_strlit("embed_html");
    reveal_strlit("embed_url");
    reveal_strlit("media");
    reveal_strlit("metadata");
    reveal_strlit("poster");
    reveal_strlit("provider");
    reveal_strlit("title");
    reveal_strlit("type");
    reveal_strlit("url");
    assert(("album"@)[0] != ("media"@)[0]);
    assert(("album"@)[0] != ("title"@)[0]);
    assert(("media"@)[0] != ("title"@)[0]);
    assert(("artist"@)[0] != ("poster"@)[0]);
    assert(("metadata"@)[0] != ("provider"@)[0]);
}

} // verus!
