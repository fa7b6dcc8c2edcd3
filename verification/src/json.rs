//! The JSON document tree that every codec in this crate reads and writes.
//!
//! A document is held as a [`Json`] value; its mathematical content is the
//! [`JsonV`] view. Objects are sequences of key/value pairs; a lookup takes
//! the *last* binding of a key, which is how the underlying text parser
//! resolves duplicate keys.

use vstd::prelude::*;
use vstd::string::StrSliceExecFns;
use vstd::string::StringExecFns;

verus! {

broadcast use vstd::std_specs::vec::axiom_vec_index_decreases;

/// A JSON value. Numbers are split into the signed and the unsigned 64-bit
/// range; a number outside both (or a non-integral number) has no place in
/// any wire shape this crate models and is not representable.
#[derive(Debug, PartialEq, Eq)]
pub enum Json {
    Null,
    Bool(bool),
    I64(i64),
    U64(u64),
    Str(String),
    Arr(Vec<Json>),
    Obj(Vec<(String, Json)>),
}

/// The mathematical content of a [`Json`] tree.
#[verifier::ext_equal]
pub enum JsonV {
    Null,
    Bool(bool),
    I64(i64),
    U64(u64),
    Str(Seq<char>),
    Arr(Seq<JsonV>),
    Obj(Seq<(Seq<char>, JsonV)>),
}

impl Json {
    pub open spec fn deep(self) -> JsonV
        decreases self,
    {
        match self {
            Json::Null => JsonV::Null,
            Json::Bool(b) => JsonV::Bool(b),
            Json::I64(n) => JsonV::I64(n),
            Json::U64(n) => JsonV::U64(n),
            Json::Str(s) => JsonV::Str(s@),
            Json::Arr(elems) => JsonV::Arr(
                Seq::new(
                    elems@.len(),
                    |i: int|
                        if 0 <= i < elems@.len() {
                            elems[i].deep()
                        } else {
                            JsonV::Null
                        },
                ),
            ),
            Json::Obj(pairs) => JsonV::Obj(
                Seq::new(
                    pairs@.len(),
                    |i: int|
                        if 0 <= i < pairs@.len() {
                            (pairs[i].0@, pairs[i].1.deep())
                        } else {
                            (Seq::empty(), JsonV::Null)
                        },
                ),
            ),
        }
    }
}

impl View for Json {
    type V = JsonV;

    open spec fn view(&self) -> JsonV {
        self.deep()
    }
}

impl DeepView for Json {
    type V = JsonV;

    open spec fn deep_view(&self) -> JsonV {
        self.deep()
    }
}

/// The view of an object's pair list.
pub open spec fn entries_view(pairs: Seq<(String, Json)>) -> Seq<(Seq<char>, JsonV)> {
    Seq::new(pairs.len(), |i: int| (pairs[i].0@, pairs[i].1@))
}

/// The view of an array's element list.
pub open spec fn elems_view(elems: Seq<Json>) -> Seq<JsonV> {
    Seq::new(elems.len(), |i: int| elems[i]@)
}

pub broadcast proof fn lemma_obj_view(pairs: Vec<(String, Json)>)
    ensures
        (#[trigger] Json::Obj(pairs)@) == JsonV::Obj(entries_view(pairs@)),
{
    let v = Json::Obj(pairs).deep();
    assert(v matches JsonV::Obj(es) ==> es =~= entries_view(pairs@));
}

pub broadcast proof fn lemma_arr_view(elems: Vec<Json>)
    ensures
        (#[trigger] Json::Arr(elems)@) == JsonV::Arr(elems_view(elems@)),
{
    let v = Json::Arr(elems).deep();
    assert(v matches JsonV::Arr(es) ==> es =~= elems_view(elems@));
}

pub proof fn lemma_entries_deep(v: Vec<(String, Json)>)
    ensures
        v.deep_view() == entries_view(v@),
{
    assert(v.deep_view() =~= entries_view(v@));
}

pub proof fn lemma_elems_deep(v: Vec<Json>)
    ensures
        v.deep_view() == elems_view(v@),
{
    assert(v.deep_view() =~= elems_view(v@));
}

/// The binding a key has in an object: the last pair with that key wins,
/// as it does in the text parser this crate sits on.
pub open spec fn obj_get_v(entries: Seq<(Seq<char>, JsonV)>, key: Seq<char>) -> Option<JsonV>
    decreases entries.len(),
{
    if entries.len() == 0 {
        None
    } else if entries.last().0 == key {
        Some(entries.last().1)
    } else {
        obj_get_v(entries.drop_last(), key)
    }
}

/// Looks a key up in an object's pair list, honouring last-binding-wins.
pub fn obj_get<'a>(entries: &'a Vec<(String, Json)>, key: &str) -> (r: Option<&'a Json>)
    ensures
        match r {
            Some(v) => obj_get_v(entries_view(entries@), key@) == Some(v@) && exists|i: int|
                0 <= i < entries@.len() && #[trigger] entries@[i].1 == *v,
            None => obj_get_v(entries_view(entries@), key@) is None,
        },
{
    let ghost all = entries_view(entries@);
    proof {
        assert(all.take(entries@.len() as int) =~= all);
    }
    let mut i: usize = entries.len();
    while i > 0
        invariant
            i <= entries.len(),
            all == entries_view(entries@),
            obj_get_v(all, key@) == obj_get_v(all.take(i as int), key@),
        decreases i,
    {
        i = i - 1;
        proof {
            assert(all.take(i + 1).drop_last() =~= all.take(i as int));
            assert(all.take(i + 1).last() == all[i as int]);
        }
        if str_eq_str(entries[i].0.as_str(), key) {
            return Some(&entries[i].1);
        }
    }
    proof {
        assert(all.take(0) =~= Seq::<(Seq<char>, JsonV)>::empty());
    }
    None
}

/// Whether a key is bound in an object's pair list.
pub fn obj_has<'a>(entries: &'a Vec<(String, Json)>, key: &str) -> (r: bool)
    ensures
        r == (obj_get_v(entries_view(entries@), key@) is Some),
{
    match obj_get(entries, key) {
        Some(_) => true,
        None => false,
    }
}

/// String-slice equality; the standard library compares the character data.
#[verifier::external_body]
pub fn str_eq_str(a: &str, b: &str) -> (r: bool)
    ensures
        r == (a@ == b@),
{
    a == b
}

/// Why a decode was refused. Decoding is all-or-nothing: the first offense
/// ends it.
#[derive(Debug, Clone, Copy, PartialEq, Eq, Structural)]
pub enum DecodeError {
    /// The `"type"` discriminant names no variant of the closed set.
    UnknownVariant,
    /// A required field is absent.
    MissingField,
    /// A present field does not have the JSON shape its type requires.
    TypeMismatch,
    /// Under the closed-world field policy, a key is none of the known ones.
    UnknownField,
    /// A structural constraint is violated: a single-or-list-of-one field
    /// held a list of some other length, or a span's bounds are reversed.
    ConstraintViolated,
}

/// Why an encode was refused.
#[derive(Debug, Clone, Copy, PartialEq, Eq, Structural)]
pub enum EncodeError {
    /// A caller-supplied text exceeds its documented length ceiling.
    TextTooLong,
    /// An overflow key collides with a modeled field.
    KeyCollision,
}

impl Json {
    /// A deep copy with the same content.
    pub fn duplicate(&self) -> (r: Json)
        ensures
            r@ == self@,
        decreases self,
    {
        match self {
            Json::Null => Json::Null,
            Json::Bool(b) => Json::Bool(*b),
            Json::I64(n) => Json::I64(*n),
            Json::U64(n) => Json::U64(*n),
            Json::Str(s) => Json::Str(s.clone()),
            Json::Arr(elems) => {
                let mut out: Vec<Json> = Vec::new();
                let mut i: usize = 0;
                while i < elems.len()
                    invariant
                        *self == Json::Arr(*elems),
                        i <= elems.len(),
                        out@.len() == i,
                        forall|j: int| 0 <= j < i ==> #[trigger] out@[j]@ == elems@[j]@,
                    decreases elems.len() - i,
                {
                    proof {
                        assert(decreases_to!(*self => (*self)->Arr_0));
                        assert(decreases_to!((*self)->Arr_0 => (*self)->Arr_0@));
                        assert(decreases_to!((*self)->Arr_0@ => (*self)->Arr_0@[i as int]));
                    }
                    out.push(elems[i].duplicate());
                    i = i + 1;
                }
                proof {
                    lemma_arr_view(out);
                    lemma_arr_view(*elems);
                    assert(elems_view(out@) =~= elems_view(elems@));
                }
                Json::Arr(out)
            },
            Json::Obj(pairs) => {
                let mut out: Vec<(String, Json)> = Vec::new();
                let mut i: usize = 0;
                while i < pairs.len()
                    invariant
                        *self == Json::Obj(*pairs),
                        i <= pairs.len(),
                        out@.len() == i,
                        forall|j: int| 0 <= j < i ==> (#[trigger] out@[j].0)@ == pairs@[j].0@
                            && out@[j].1@ == pairs@[j].1@,
                    decreases pairs.len() - i,
                {
                    proof {
                        assert(decreases_to!(*self => (*self)->Obj_0));
                        assert(decreases_to!((*self)->Obj_0 => (*self)->Obj_0@));
                        assert(decreases_to!((*self)->Obj_0@ => (*self)->Obj_0@[i as int]));
                        assert(decreases_to!((*self)->Obj_0@[i as int]
                            => (*self)->Obj_0@[i as int].1));
                    }
                    let k = pairs[i].0.clone();
                    let v = pairs[i].1.duplicate();
                    out.push((k, v));
                    i = i + 1;
                }
                proof {
                    lemma_obj_view(out);
                    lemma_obj_view(*pairs);
                    assert(entries_view(out@) =~= entries_view(pairs@));
                }
                Json::Obj(out)
            },
        }
    }
}

/// Duplicates an object's pair list, keeping its content.
pub fn duplicate_entries(pairs: &Vec<(String, Json)>) -> (r: Vec<(String, Json)>)
    ensures
        entries_view(r@) == entries_view(pairs@),
{
    let mut out: Vec<(String, Json)> = Vec::new();
    let mut i: usize = 0;
    while i < pairs.len()
        invariant
            i <= pairs.len(),
            out@.len() == i,
            forall|j: int| 0 <= j < i ==> #[trigger] out@[j].0@ == pairs@[j].0@
                && out@[j].1@ == pairs@[j].1@,
        decreases pairs.len() - i,
    {
        let k = pairs[i].0.clone();
        let v = pairs[i].1.duplicate();
        out.push((k, v));
        i = i + 1;
    }
    proof {
        assert(entries_view(out@) =~= entries_view(pairs@));
    }
    out
}

/// A decode result with its payload taken to the mathematical view.
pub open spec fn dres<T: DeepView>(r: Result<T, DecodeError>) -> Result<T::V, DecodeError> {
    match r {
        Ok(t) => Ok(t.deep_view()),
        Err(e) => Err(e),
    }
}

/// The entry list an optional field contributes: nothing when absent, one
/// pair when present. Absent fields are omitted, never written as null.
pub open spec fn opt_entry(key: Seq<char>, v: Option<JsonV>) -> Seq<(Seq<char>, JsonV)> {
    match v {
        None => seq![],
        Some(x) => seq![(key, x)],
    }
}

/// Builds a JSON object entry by entry, tracking its content.
pub struct ObjBuilder {
    pub entries: Vec<(String, Json)>,
}

impl ObjBuilder {
    pub open spec fn entries_v(&self) -> Seq<(Seq<char>, JsonV)> {
        entries_view(self.entries@)
    }

    pub fn new() -> (r: ObjBuilder)
        ensures
            r.entries_v() == Seq::<(Seq<char>, JsonV)>::empty(),
    {
        let r = ObjBuilder { entries: Vec::new() };
        proof {
            assert(r.entries_v() =~= Seq::<(Seq<char>, JsonV)>::empty());
        }
        r
    }

    pub fn push(&mut self, key: &str, v: Json)
        ensures
            final(self).entries_v() == old(self).entries_v().push((key@, v@)),
    {
        let k: String = key.to_owned();
        self.entries.push((k, v));
        proof {
            assert(final(self).entries_v() =~= old(self).entries_v().push((key@, v@)));
        }
    }

    /// Appends an optional field: one entry when present, nothing when
    /// absent.
    pub fn push_opt(&mut self, key: &str, v: Option<Json>)
        ensures
            final(self).entries_v() == old(self).entries_v() + opt_entry(
                key@,
                match v {
                    Some(j) => Some(j@),
                    None => None,
                },
            ),
    {
        match v {
            Some(j) => {
                let ghost jv = j@;
                self.push(key, j);
                proof {
                    assert(self.entries_v() =~= old(self).entries_v() + opt_entry(
                        key@,
                        Some(jv),
                    ));
                }
            },
            None => {
                proof {
                    assert(self.entries_v() =~= old(self).entries_v() + opt_entry(
                        key@,
                        None::<JsonV>,
                    ));
                }
            },
        }
    }

    pub fn finish(self) -> (r: Json)
        ensures
            r@ == JsonV::Obj(self.entries_v()),
    {
        let entries = self.entries;
        proof {
            lemma_obj_view(entries);
        }
        Json::Obj(entries)
    }
}

/// Whether every key of an object is one of the allowed ones.
pub open spec fn keys_subset_v(es: Seq<(Seq<char>, JsonV)>, allowed: Seq<Seq<char>>) -> bool {
    forall|i: int| 0 <= i < es.len() ==> allowed.contains(#[trigger] es[i].0)
}

/// Checks the closed-world field policy: every key must be an allowed one.
pub fn keys_subset<const N: usize>(entries: &Vec<(String, Json)>, allowed: &[&str; N]) -> (r:
    bool)
    ensures
        r == keys_subset_v(entries_view(entries@), allowed.deep_view()),
{
    let ghost es = entries_view(entries@);
    let ghost names = allowed.deep_view();
    let mut i: usize = 0;
    while i < entries.len()
        invariant
            i <= entries.len(),
            es == entries_view(entries@),
            names == allowed.deep_view(),
            forall|j: int| 0 <= j < i ==> names.contains(#[trigger] es[j].0),
        decreases entries.len() - i,
    {
        let mut hit: bool = false;
        let mut k: usize = 0;
        while k < N && !hit
            invariant
                k <= N,
                es == entries_view(entries@),
                names == allowed.deep_view(),
                i < entries.len(),
                hit ==> names.contains(es[i as int].0),
                !hit ==> forall|m: int| 0 <= m < k ==> names[m] != es[i as int].0,
            decreases (if hit { 0int } else { 1int }), N - k,
        {
            if str_eq_str(entries[i].0.as_str(), allowed[k]) {
                hit = true;
                proof {
                    assert(names[k as int] == es[i as int].0);
                }
            } else {
                k = k + 1;
            }
        }
        if !hit {
            proof {
                assert(names.len() == N);
                assert forall|m: int| 0 <= m < names.len() implies names[m] != es[i as int].0
                    by {}
                assert(!names.contains(es[i as int].0));
            }
            return false;
        }
        i = i + 1;
    }
    true
}

/// An optional string, as the JSON value an encoder writes for it.
pub open spec fn ostr(o: Option<Seq<char>>) -> Option<JsonV> {
    match o {
        None => None,
        Some(s) => Some(JsonV::Str(s)),
    }
}

/// An optional boolean, as the JSON value an encoder writes for it.
pub open spec fn obool(o: Option<bool>) -> Option<JsonV> {
    match o {
        None => None,
        Some(b) => Some(JsonV::Bool(b)),
    }
}

/// An optional 32-bit number, as the JSON value an encoder writes for it.
pub open spec fn oi32(o: Option<i32>) -> Option<JsonV> {
    match o {
        None => None,
        Some(n) => Some(JsonV::I64(n as i64)),
    }
}

/// Looking a key up in a concatenation searches the right part first; the
/// last binding wins.
pub proof fn lemma_obj_get_append(
    a: Seq<(Seq<char>, JsonV)>,
    b: Seq<(Seq<char>, JsonV)>,
    k: Seq<char>,
)
    ensures
        obj_get_v(a + b, k) == (match obj_get_v(b, k) {
            Some(v) => Some(v),
            None => obj_get_v(a, k),
        }),
    decreases b.len(),
{
    if b.len() == 0 {
        assert(a + b =~= a);
    } else {
        assert((a + b).last() == b.last());
        assert((a + b).drop_last() =~= a + b.drop_last());
        lemma_obj_get_append(a, b.drop_last(), k);
    }
}

/// What an optional field's entry list binds.
pub proof fn lemma_obj_get_opt(key: Seq<char>, o: Option<JsonV>, k: Seq<char>)
    ensures
        obj_get_v(opt_entry(key, o), k) == (if k == key {
            o
        } else {
            None::<JsonV>
        }),
{
    match o {
        Some(v) => {
            assert(opt_entry(key, o).len() == 1);
            assert(opt_entry(key, o).last() == (key, v));
            assert(opt_entry(key, o).drop_last() =~= Seq::<(Seq<char>, JsonV)>::empty());
            assert(obj_get_v(Seq::<(Seq<char>, JsonV)>::empty(), k) is None);
        },
        None => {
            assert(opt_entry(key, o) =~= Seq::<(Seq<char>, JsonV)>::empty());
        },
    }
}

/// The append law for lookups, over every key at once.
pub proof fn lemma_obj_get_append_all(a: Seq<(Seq<char>, JsonV)>, b: Seq<(Seq<char>, JsonV)>)
    ensures
        forall|k: Seq<char>| #[trigger] obj_get_v(a + b, k) == (match obj_get_v(b, k) {
            Some(v) => Some(v),
            None => obj_get_v(a, k),
        }),
{
    assert forall|k: Seq<char>| #[trigger] obj_get_v(a + b, k) == (match obj_get_v(b, k) {
        Some(v) => Some(v),
        None => obj_get_v(a, k),
    }) by {
        lemma_obj_get_append(a, b, k);
    }
}

/// The lookup law for an optional field's entry list, over every key.
pub proof fn lemma_obj_get_opt_all(key: Seq<char>, o: Option<JsonV>)
    ensures
        forall|k: Seq<char>| #[trigger] obj_get_v(opt_entry(key, o), k) == (if k == key {
            o
        } else {
            None::<JsonV>
        }),
{
    assert forall|k: Seq<char>| #[trigger] obj_get_v(opt_entry(key, o), k) == (if k == key {
        o
    } else {
        None::<JsonV>
    }) by {
        lemma_obj_get_opt(key, o, k);
    }
}

/// A concatenation keeps the closed-world key policy of its parts.
pub proof fn lemma_keys_subset_concat(
    a: Seq<(Seq<char>, JsonV)>,
    b: Seq<(Seq<char>, JsonV)>,
    allowed: Seq<Seq<char>>,
)
    requires
        keys_subset_v(a, allowed),
        keys_subset_v(b, allowed),
    ensures
        keys_subset_v(a + b, allowed),
{
    assert forall|i: int| 0 <= i < (a + b).len() implies allowed.contains(
        #[trigger] (a + b)[i].0,
    ) by {
        if i < a.len() {
            assert((a + b)[i] == a[i]);
        } else {
            assert((a + b)[i] == b[i - a.len()]);
        }
    }
}

/// An optional field's entry list holds at most its own key.
pub proof fn lemma_keys_subset_opt(key: Seq<char>, o: Option<JsonV>, allowed: Seq<Seq<char>>)
    requires
        allowed.contains(key),
    ensures
        keys_subset_v(opt_entry(key, o), allowed),
{
    assert forall|i: int| 0 <= i < opt_entry(key, o).len() implies allowed.contains(
        #[trigger] opt_entry(key, o)[i].0,
    ) by {
        assert(opt_entry(key, o)[i].0 == key);
    }
}

/// The deep view of a sequence, element by element.
pub open spec fn seq_deep<T: DeepView>(s: Seq<T>) -> Seq<T::V> {
    Seq::new(s.len(), |i: int| s[i].deep_view())
}

pub proof fn lemma_vec_deep<T: DeepView>(v: Vec<T>)
    ensures
        v.deep_view() == seq_deep(v@),
{
    assert(v.deep_view() =~= seq_deep(v@));
}

pub proof fn lemma_seq_deep_push<T: DeepView>(s: Seq<T>, x: T)
    ensures
        seq_deep(s.push(x)) == seq_deep(s).push(x.deep_view()),
{
    assert(seq_deep(s.push(x)) =~= seq_deep(s).push(x.deep_view()));
}

/// Decodes a list element by element; the first offending element's error
/// is the list's error.
pub open spec fn list_dec<T>(
    elems: Seq<JsonV>,
    f: spec_fn(JsonV) -> Result<T, DecodeError>,
) -> Result<Seq<T>, DecodeError>
    decreases elems.len(),
{
    if elems.len() == 0 {
        Ok(Seq::empty())
    } else {
        match list_dec(elems.drop_last(), f) {
            Err(e) => Err(e),
            Ok(pre) => match f(elems.last()) {
                Err(e) => Err(e),
                Ok(v) => Ok(pre.push(v)),
            },
        }
    }
}

/// Encodes a list element by element.
pub open spec fn list_enc<T>(vs: Seq<T>, f: spec_fn(T) -> JsonV) -> Seq<JsonV> {
    Seq::new(vs.len(), |i: int| f(vs[i]))
}

/// Once a prefix fails to decode, the whole list fails the same way.
pub proof fn lemma_list_dec_err<T>(
    s: Seq<JsonV>,
    f: spec_fn(JsonV) -> Result<T, DecodeError>,
    j: int,
)
    requires
        0 <= j <= s.len(),
        list_dec(s.take(j), f) is Err,
    ensures
        list_dec(s, f) == list_dec(s.take(j), f),
    decreases s.len() - j,
{
    if j == s.len() {
        assert(s.take(j) =~= s);
    } else {
        assert(s.take(j + 1).drop_last() =~= s.take(j));
        assert(s.take(j + 1).last() == s[j]);
        lemma_list_dec_err(s, f, j + 1);
    }
}

/// Element-wise round trips lift to lists.
pub proof fn lemma_list_round_trip<T>(
    vs: Seq<T>,
    fe: spec_fn(T) -> JsonV,
    fd: spec_fn(JsonV) -> Result<T, DecodeError>,
)
    requires
        forall|i: int| 0 <= i < vs.len() ==> fd(fe(#[trigger] vs[i])) == Ok::<T, DecodeError>(
            vs[i],
        ),
    ensures
        list_dec(list_enc(vs, fe), fd) == Ok::<Seq<T>, DecodeError>(vs),
    decreases vs.len(),
{
    if vs.len() == 0 {
        assert(list_enc(vs, fe) =~= Seq::<JsonV>::empty());
        assert(vs =~= Seq::<T>::empty());
    } else {
        lemma_list_round_trip(vs.drop_last(), fe, fd);
        assert(list_enc(vs, fe).drop_last() =~= list_enc(vs.drop_last(), fe));
        assert(list_enc(vs, fe).last() == fe(vs.last()));
        assert(vs.drop_last().push(vs.last()) =~= vs);
    }
}

/// Whether a key is one of the given names.
pub fn key_in<const N: usize>(key: &String, allowed: &[&str; N]) -> (r: bool)
    ensures
        r == allowed.deep_view().contains(key@),
{
    let ghost names = allowed.deep_view();
    let mut k: usize = 0;
    while k < N
        invariant
            k <= N,
            names == allowed.deep_view(),
            forall|m: int| 0 <= m < k ==> names[m] != key@,
        decreases N - k,
    {
        if str_eq_str(key.as_str(), allowed[k]) {
            proof {
                assert(names[k as int] == key@);
            }
            return true;
        }
        k = k + 1;
    }
    proof {
        assert(names.len() == N);
        assert forall|m: int| 0 <= m < names.len() implies names[m] != key@ by {}
        assert(!names.contains(key@));
    }
    false
}

/// A required string field.
pub open spec fn f_str(es: Seq<(Seq<char>, JsonV)>, key: Seq<char>) -> Result<
    Seq<char>,
    DecodeError,
> {
    match obj_get_v(es, key) {
        None => Err(DecodeError::MissingField),
        Some(JsonV::Str(s)) => Ok(s),
        Some(_) => Err(DecodeError::TypeMismatch),
    }
}

/// An optional string field.
pub open spec fn f_str_opt(es: Seq<(Seq<char>, JsonV)>, key: Seq<char>) -> Result<
    Option<Seq<char>>,
    DecodeError,
> {
    match obj_get_v(es, key) {
        None => Ok(None),
        Some(JsonV::Null) => Ok(None),
        Some(JsonV::Str(s)) => Ok(Some(s)),
        Some(_) => Err(DecodeError::TypeMismatch),
    }
}

/// A required boolean field.
pub open spec fn f_bool(es: Seq<(Seq<char>, JsonV)>, key: Seq<char>) -> Result<
    bool,
    DecodeError,
> {
    match obj_get_v(es, key) {
        None => Err(DecodeError::MissingField),
        Some(JsonV::Bool(b)) => Ok(b),
        Some(_) => Err(DecodeError::TypeMismatch),
    }
}

/// An optional boolean field.
pub open spec fn f_bool_opt(es: Seq<(Seq<char>, JsonV)>, key: Seq<char>) -> Result<
    Option<bool>,
    DecodeError,
> {
    match obj_get_v(es, key) {
        None => Ok(None),
        Some(JsonV::Null) => Ok(None),
        Some(JsonV::Bool(b)) => Ok(Some(b)),
        Some(_) => Err(DecodeError::TypeMismatch),
    }
}

/// A required signed 64-bit number field.
pub open spec fn f_i64(es: Seq<(Seq<char>, JsonV)>, key: Seq<char>) -> Result<
    i64,
    DecodeError,
> {
    match obj_get_v(es, key) {
        None => Err(DecodeError::MissingField),
        Some(JsonV::I64(n)) => Ok(n),
        Some(_) => Err(DecodeError::TypeMismatch),
    }
}

/// An optional signed 64-bit number field.
pub open spec fn f_i64_opt(es: Seq<(Seq<char>, JsonV)>, key: Seq<char>) -> Result<
    Option<i64>,
    DecodeError,
> {
    match obj_get_v(es, key) {
        None => Ok(None),
        Some(JsonV::Null) => Ok(None),
        Some(JsonV::I64(n)) => Ok(Some(n)),
        Some(_) => Err(DecodeError::TypeMismatch),
    }
}

/// Reads an optional signed 64-bit number field.
pub fn get_i64_opt(entries: &Vec<(String, Json)>, key: &str) -> (r: Result<
    Option<i64>,
    DecodeError,
>)
    ensures
        dres(r) == f_i64_opt(entries_view(entries@), key@),
{
    match obj_get(entries, key) {
        None => Ok(None),
        Some(Json::Null) => Ok(None),
        Some(Json::I64(n)) => Ok(Some(*n)),
        Some(_) => Err(DecodeError::TypeMismatch),
    }
}

/// A required 32-bit number field.
pub open spec fn f_i32(es: Seq<(Seq<char>, JsonV)>, key: Seq<char>) -> Result<
    i32,
    DecodeError,
> {
    match obj_get_v(es, key) {
        None => Err(DecodeError::MissingField),
        Some(JsonV::I64(n)) => if i32::MIN <= n <= i32::MAX {
            Ok(n as i32)
        } else {
            Err(DecodeError::TypeMismatch)
        },
        Some(_) => Err(DecodeError::TypeMismatch),
    }
}

/// An optional 32-bit number field.
pub open spec fn f_i32_opt(es: Seq<(Seq<char>, JsonV)>, key: Seq<char>) -> Result<
    Option<i32>,
    DecodeError,
> {
    match obj_get_v(es, key) {
        None => Ok(None),
        Some(JsonV::Null) => Ok(None),
        Some(JsonV::I64(n)) => if i32::MIN <= n <= i32::MAX {
            Ok(Some(n as i32))
        } else {
            Err(DecodeError::TypeMismatch)
        },
        Some(_) => Err(DecodeError::TypeMismatch),
    }
}

/// A required unsigned 64-bit number field.
pub open spec fn f_u64(es: Seq<(Seq<char>, JsonV)>, key: Seq<char>) -> Result<
    u64,
    DecodeError,
> {
    match obj_get_v(es, key) {
        None => Err(DecodeError::MissingField),
        Some(JsonV::U64(n)) => Ok(n),
        Some(JsonV::I64(n)) => if n >= 0 {
            Ok(n as u64)
        } else {
            Err(DecodeError::TypeMismatch)
        },
        Some(_) => Err(DecodeError::TypeMismatch),
    }
}

/// Reads a required string field, cloning the character data.
pub fn get_str(entries: &Vec<(String, Json)>, key: &str) -> (r: Result<String, DecodeError>)
    ensures
        dres(r) == f_str(entries_view(entries@), key@),
{
    match obj_get(entries, key) {
        None => Err(DecodeError::MissingField),
        Some(Json::Str(s)) => Ok(s.clone()),
        Some(_) => Err(DecodeError::TypeMismatch),
    }
}

/// Reads an optional string field.
pub fn get_str_opt(entries: &Vec<(String, Json)>, key: &str) -> (r: Result<
    Option<String>,
    DecodeError,
>)
    ensures
        dres(r) == f_str_opt(entries_view(entries@), key@),
{
    match obj_get(entries, key) {
        None => Ok(None),
        Some(Json::Null) => Ok(None),
        Some(Json::Str(s)) => Ok(Some(s.clone())),
        Some(_) => Err(DecodeError::TypeMismatch),
    }
}

/// Reads a required boolean field.
pub fn get_bool(entries: &Vec<(String, Json)>, key: &str) -> (r: Result<bool, DecodeError>)
    ensures
        dres(r) == f_bool(entries_view(entries@), key@),
{
    match obj_get(entries, key) {
        None => Err(DecodeError::MissingField),
        Some(Json::Bool(b)) => Ok(*b),
        Some(_) => Err(DecodeError::TypeMismatch),
    }
}

/// Reads an optional boolean field.
pub fn get_bool_opt(entries: &Vec<(String, Json)>, key: &str) -> (r: Result<
    Option<bool>,
    DecodeError,
>)
    ensures
        dres(r) == f_bool_opt(entries_view(entries@), key@),
{
    match obj_get(entries, key) {
        None => Ok(None),
        Some(Json::Null) => Ok(None),
        Some(Json::Bool(b)) => Ok(Some(*b)),
        Some(_) => Err(DecodeError::TypeMismatch),
    }
}

/// Reads a required signed 64-bit number field.
pub fn get_i64(entries: &Vec<(String, Json)>, key: &str) -> (r: Result<i64, DecodeError>)
    ensures
        dres(r) == f_i64(entries_view(entries@), key@),
{
    match obj_get(entries, key) {
        None => Err(DecodeError::MissingField),
        Some(Json::I64(n)) => Ok(*n),
        Some(_) => Err(DecodeError::TypeMismatch),
    }
}

/// Reads a required 32-bit number field.
pub fn get_i32(entries: &Vec<(String, Json)>, key: &str) -> (r: Result<i32, DecodeError>)
    ensures
        dres(r) == f_i32(entries_view(entries@), key@),
{
    match obj_get(entries, key) {
        None => Err(DecodeError::MissingField),
        Some(Json::I64(n)) => {
            let n = *n;
            if -2147483648i64 <= n && n <= 2147483647i64 {
                Ok(n as i32)
            } else {
                Err(DecodeError::TypeMismatch)
            }
        },
        Some(_) => Err(DecodeError::TypeMismatch),
    }
}

/// Reads an optional 32-bit number field.
pub fn get_i32_opt(entries: &Vec<(String, Json)>, key: &str) -> (r: Result<
    Option<i32>,
    DecodeError,
>)
    ensures
        dres(r) == f_i32_opt(entries_view(entries@), key@),
{
    match obj_get(entries, key) {
        None => Ok(None),
        Some(Json::Null) => Ok(None),
        Some(Json::I64(n)) => {
            let n = *n;
            if -2147483648i64 <= n && n <= 2147483647i64 {
                Ok(Some(n as i32))
            } else {
                Err(DecodeError::TypeMismatch)
            }
        },
        Some(_) => Err(DecodeError::TypeMismatch),
    }
}

/// Reads a required unsigned 64-bit number field.
pub fn get_u64(entries: &Vec<(String, Json)>, key: &str) -> (r: Result<u64, DecodeError>)
    ensures
        dres(r) == f_u64(entries_view(entries@), key@),
{
    match obj_get(entries, key) {
        None => Err(DecodeError::MissingField),
        Some(Json::U64(n)) => Ok(*n),
        Some(Json::I64(n)) => {
            let n = *n;
            if n >= 0 {
                Ok(n as u64)
            } else {
                Err(DecodeError::TypeMismatch)
            }
        },
        Some(_) => Err(DecodeError::TypeMismatch),
    }
}

/// The decimal digit characters of a natural number, most significant
/// first.
pub open spec fn dec_digit(d: int) -> char {
    if d == 0 { '0' }
    else if d == 1 { '1' }
    else if d == 2 { '2' }
    else if d == 3 { '3' }
    else if d == 4 { '4' }
    else if d == 5 { '5' }
    else if d == 6 { '6' }
    else if d == 7 { '7' }
    else if d == 8 { '8' }
    else { '9' }
}

pub open spec fn dec_nat(n: nat) -> Seq<char>
    decreases n,
{
    if n < 10 {
        seq![dec_digit(n as int)]
    } else {
        dec_nat(n / 10).push(dec_digit((n % 10) as int))
    }
}

/// The base-10 rendering of an integer, with `-` for negative values.
pub open spec fn dec_int(n: int) -> Seq<char> {
    if n < 0 {
        seq!['-'] + dec_nat((-n) as nat)
    } else {
        dec_nat(n as nat)
    }
}

fn digit_str(d: u64) -> (r: &'static str)
    requires
        d < 10,
    ensures
        r@ == seq![dec_digit(d as int)],
{
    proof {
        reveal_strlit("0");
        reveal_strlit("1");
        reveal_strlit("2");
        reveal_strlit("3");
        reveal_strlit("4");
        reveal_strlit("5");
        reveal_strlit("6");
        reveal_strlit("7");
        reveal_strlit("8");
        reveal_strlit("9");
    }
    let r: &'static str = match d {
        0 => "0",
        1 => "1",
        2 => "2",
        3 => "3",
        4 => "4",
        5 => "5",
        6 => "6",
        7 => "7",
        8 => "8",
        _ => "9",
    };
    proof {
        assert(r@ =~= seq![dec_digit(d as int)]);
    }
    r
}

/// Renders an unsigned number in base 10.
pub fn u64_to_dec(n: u64) -> (r: String)
    ensures
        r@ == dec_nat(n as nat),
    decreases n,
{
    if n < 10 {
        let d = digit_str(n);
        d.to_owned()
    } else {
        let mut s = u64_to_dec(n / 10);
        let d = digit_str(n % 10);
        s.append(d);
        proof {
            assert(dec_nat((n / 10) as nat).push(dec_digit((n % 10) as int))
                =~= dec_nat((n / 10) as nat) + seq![dec_digit((n % 10) as int)]);
        }
        s
    }
}

/// Renders a signed number in base 10, `-` first when negative.
pub fn i64_to_dec(n: i64) -> (r: String)
    ensures
        r@ == dec_int(n as int),
{
    if n >= 0 {
        u64_to_dec(n as u64)
    } else {
        let mag: u64 = ((-(n + 1)) as u64) + 1;
        proof {
            reveal_strlit("-");
        }
        let mut s: String = "-".to_owned();
        let tail = u64_to_dec(mag);
        s.append(tail.as_str());
        proof {
            assert(mag as nat == (-(n as int)) as nat);
            assert(s@ =~= dec_int(n as int));
        }
        s
    }
}

} // verus!
