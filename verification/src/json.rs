//! A JSON value model that the library builds request bodies from and reads
//! response bodies through.

use vstd::prelude::*;

verus! {

/// A JSON value. Objects keep their members in order; numbers are either
/// integers or the IEEE-754 bit pattern of a double.
#[derive(Debug)]
pub enum Json {
    Null,
    Bool(bool),
    Int(i128),
    /// A double, held as its IEEE-754 bit pattern.
    Float(u64),
    Str(String),
    Array(Vec<Json>),
    Object(Vec<(String, Json)>),
}

/// The mathematical value of a [`Json`].
pub enum JsonV {
    Null,
    Bool(bool),
    Int(int),
    Float(u64),
    Str(Seq<char>),
    Array(Seq<JsonV>),
    Object(Seq<(Seq<char>, JsonV)>),
}

pub open spec fn json_view(j: Json) -> JsonV
    decreases j,
{
    match j {
        Json::Null => JsonV::Null,
        Json::Bool(b) => JsonV::Bool(b),
        Json::Int(n) => JsonV::Int(n as int),
        Json::Float(b) => JsonV::Float(b),
        Json::Str(s) => JsonV::Str(s@),
        Json::Array(v) => JsonV::Array(json_seq_view(v@)),
        Json::Object(v) => JsonV::Object(json_members_view(v@)),
    }
}

pub open spec fn json_seq_view(s: Seq<Json>) -> Seq<JsonV>
    decreases s,
{
    if s.len() == 0 {
        seq![]
    } else {
        json_seq_view(s.drop_last()).push(json_view(s.last()))
    }
}

pub open spec fn json_members_view(s: Seq<(String, Json)>) -> Seq<(Seq<char>, JsonV)>
    decreases s,
{
    if s.len() == 0 {
        seq![]
    } else {
        json_members_view(s.drop_last()).push((s.last().0@, json_view(s.last().1)))
    }
}

impl View for Json {
    type V = JsonV;

    open spec fn view(&self) -> JsonV {
        json_view(*self)
    }
}

} // verus!

verus! {

/// An ordered JSON object: member names with their values.
pub type Members = Vec<(String, Json)>;

/// The mathematical value of an object's members.
#[verifier::opaque]
pub open spec fn members_view(m: Members) -> Seq<(Seq<char>, JsonV)> {
    json_members_view(m@)
}

pub proof fn lemma_members_view(s: Seq<(String, Json)>)
    ensures
        json_members_view(s).len() == s.len(),
        forall|i: int|
            0 <= i < s.len() ==> #[trigger] json_members_view(s)[i] == (s[i].0@, json_view(s[i].1)),
    decreases s.len(),
{
    if s.len() > 0 {
        lemma_members_view(s.drop_last());
    }
}

pub proof fn lemma_seq_view(s: Seq<Json>)
    ensures
        json_seq_view(s).len() == s.len(),
        forall|i: int| 0 <= i < s.len() ==> #[trigger] json_seq_view(s)[i] == json_view(s[i]),
    decreases s.len(),
{
    if s.len() > 0 {
        lemma_seq_view(s.drop_last());
    }
}

/// Index of the first member named `k`, or -1.
pub open spec fn find_key(m: Seq<(Seq<char>, JsonV)>, k: Seq<char>) -> int
    decreases m.len(),
{
    if m.len() == 0 {
        -1
    } else {
        let i = find_key(m.drop_last(), k);
        if i >= 0 {
            i
        } else if m.last().0 == k {
            m.len() - 1
        } else {
            -1
        }
    }
}

pub proof fn lemma_find_key(m: Seq<(Seq<char>, JsonV)>, k: Seq<char>)
    ensures
        -1 <= find_key(m, k) < m.len(),
        find_key(m, k) == -1 <==> forall|j: int| 0 <= j < m.len() ==> #[trigger] m[j].0 != k,
        find_key(m, k) >= 0 ==> m[find_key(m, k)].0 == k && forall|j: int|
            0 <= j < find_key(m, k) ==> #[trigger] m[j].0 != k,
    decreases m.len(),
{
    if m.len() > 0 {
        lemma_find_key(m.drop_last(), k);
        let p = m.drop_last();
        if find_key(p, k) == -1 {
            assert forall|j: int| 0 <= j < m.len() - 1 implies #[trigger] m[j].0 != k by {
                assert(p[j] == m[j]);
            }
        } else {
            assert(m[find_key(p, k)] == p[find_key(p, k)]);
            assert forall|j: int| 0 <= j < find_key(m, k) implies #[trigger] m[j].0 != k by {
                assert(p[j] == m[j]);
            }
        }
    }
}

/// The members after setting `k` to `v`: the first member named `k` takes
/// the new value in place, or the pair is appended when no member has that
/// name (map insertion).
pub open spec fn members_insert(m: Seq<(Seq<char>, JsonV)>, k: Seq<char>, v: JsonV) -> Seq<
    (Seq<char>, JsonV),
> {
    let i = find_key(m, k);
    if i >= 0 {
        m.update(i, (k, v))
    } else {
        m.push((k, v))
    }
}

/// The members after inserting `k` only when no member has that name.
pub open spec fn members_insert_absent(m: Seq<(Seq<char>, JsonV)>, k: Seq<char>, v: JsonV) -> Seq<
    (Seq<char>, JsonV),
> {
    if find_key(m, k) >= 0 {
        m
    } else {
        m.push((k, v))
    }
}

/// `base` with every member of `extra` inserted in order.
pub open spec fn members_merge(
    base: Seq<(Seq<char>, JsonV)>,
    extra: Seq<(Seq<char>, JsonV)>,
) -> Seq<(Seq<char>, JsonV)>
    decreases extra.len(),
{
    if extra.len() == 0 {
        base
    } else {
        members_insert(members_merge(base, extra.drop_last()), extra.last().0, extra.last().1)
    }
}

/// The value of the first member named `k`.
pub open spec fn member_value(m: Seq<(Seq<char>, JsonV)>, k: Seq<char>) -> Option<JsonV> {
    let i = find_key(m, k);
    if i >= 0 {
        Some(m[i].1)
    } else {
        None
    }
}

/// The value of `k2` after a member is appended: the earlier value when
/// there was one, otherwise the appended value when its name is `k2`.
pub proof fn lemma_member_push(m: Seq<(Seq<char>, JsonV)>, k: Seq<char>, v: JsonV, k2: Seq<char>)
    ensures
        member_value(m.push((k, v)), k2) == (if member_value(m, k2) is Some {
            member_value(m, k2)
        } else if k == k2 {
            Some(v)
        } else {
            None
        }),
{
    assert(m.push((k, v)).drop_last() =~= m);
    lemma_find_key(m, k2);
    lemma_find_key(m.push((k, v)), k2);
    if find_key(m, k2) >= 0 {
        assert(m.push((k, v))[find_key(m, k2)] == m[find_key(m, k2)]);
    }
}

/// The value of `k2` after an optional member is appended.
pub proof fn lemma_member_with_opt(
    m: Seq<(Seq<char>, JsonV)>,
    k: Seq<char>,
    v: Option<JsonV>,
    k2: Seq<char>,
)
    ensures
        member_value(with_opt(m, k, v), k2) == (if member_value(m, k2) is Some {
            member_value(m, k2)
        } else if k == k2 {
            v
        } else {
            None
        }),
{
    match v {
        Some(x) => lemma_member_push(m, k, x, k2),
        None => {
            lemma_find_key(m, k2);
        },
    }
}

/// Position of the first member named `key`.
pub fn key_position(m: &Members, key: &str) -> (r: Option<usize>)
    ensures
        match r {
            Some(i) => find_key(members_view(*m), key@) == i,
            None => find_key(members_view(*m), key@) == -1,
        },
        r matches Some(i) ==> i < m@.len(),
{
    reveal(members_view);
    proof {
        lemma_members_view(m@);
        lemma_find_key(members_view(*m), key@);
    }
    let n = m.len();
    let mut i: usize = 0;
    while i < n
        invariant
            0 <= i <= n,
            n == m@.len(),
            json_members_view(m@).len() == n,
            forall|j: int| 0 <= j < i ==> #[trigger] members_view(*m)[j].0 != key@,
        decreases n - i,
    {
        proof {
            reveal(members_view);
            lemma_members_view(m@);
        }
        if crate::text::str_eq(m[i].0.as_str(), key) {
            assert(members_view(*m)[i as int].0 == m@[i as int].0@);
            proof {
                lemma_find_key(members_view(*m), key@);
            }
            return Some(i);
        }
        assert(members_view(*m)[i as int].0 == m@[i as int].0@);
        i = i + 1;
    }
    proof {
        lemma_find_key(members_view(*m), key@);
    }
    None
}

/// The value of the first member named `key`.
pub fn get_member<'a>(m: &'a Members, key: &str) -> (r: Option<&'a Json>)
    ensures
        match r {
            Some(v) => member_value(members_view(*m), key@) == Some(v@),
            None => member_value(members_view(*m), key@) is None,
        },
{
    reveal(members_view);
    proof {
        lemma_members_view(m@);
    }
    match key_position(m, key) {
        Some(i) => Some(&m[i].1),
        None => None,
    }
}

/// The JSON object with members `m`.
pub fn object(m: Members) -> (r: Json)
    ensures
        r@ == JsonV::Object(members_view(m)),
{
    reveal(members_view);
    Json::Object(m)
}

/// An object with no members.
pub fn empty_members() -> (r: Members)
    ensures
        members_view(r) == Seq::<(Seq<char>, JsonV)>::empty(),
{
    reveal(members_view);
    Vec::new()
}

/// Appends a member.
pub fn push_member(m: &mut Members, key: &str, val: Json)
    ensures
        members_view(*final(m)) == members_view(*old(m)).push((key@, val@)),
{
    reveal(members_view);
    let ghost before = m@;
    m.push((key.to_string(), val));
    proof {
        lemma_members_view(before);
        lemma_members_view(m@);
        assert(members_view(*m) =~= json_members_view(before).push((key@, val@)));
    }
}

/// Sets member `key` to `val` (map insertion).
pub fn insert_member(m: &mut Members, key: String, val: Json)
    ensures
        members_view(*final(m)) == members_insert(members_view(*old(m)), key@, val@),
{
    reveal(members_view);
    let ghost before = m@;
    proof {
        lemma_members_view(before);
    }
    match key_position(m, key.as_str()) {
        Some(i) => {
            let ghost kv = key@;
            m.set(i, (key, val));
            proof {
                lemma_members_view(m@);
                assert(members_view(*m) =~= json_members_view(before).update(
                    i as int,
                    (kv, val@),
                ));
            }
        },
        None => {
            let ghost kv = key@;
            m.push((key, val));
            proof {
                lemma_members_view(m@);
                assert(members_view(*m) =~= json_members_view(before).push((kv, val@)));
            }
        },
    }
}

/// Sets member `key` to `val` only when no member has that name
/// (`entry(key).or_insert(val)`).
pub fn insert_member_if_absent(m: &mut Members, key: String, val: Json)
    ensures
        members_view(*final(m)) == members_insert_absent(members_view(*old(m)), key@, val@),
{
    reveal(members_view);
    let ghost before = m@;
    proof {
        lemma_members_view(before);
    }
    match key_position(m, key.as_str()) {
        Some(_) => {},
        None => {
            let ghost kv = key@;
            m.push((key, val));
            proof {
                lemma_members_view(m@);
                assert(members_view(*m) =~= json_members_view(before).push((kv, val@)));
            }
        },
    }
}

/// Inserts every member of `extra` into `m`, in order; later members win.
pub fn merge_members(m: &mut Members, extra: Members)
    ensures
        members_view(*final(m)) == members_merge(members_view(*old(m)), members_view(extra)),
{
    reveal(members_view);
    let ghost base = members_view(*m);
    let ghost ex = members_view(extra);
    proof {
        lemma_members_view(extra@);
    }
    let mut rest = extra;
    let mut taken: Vec<(String, Json)> = Vec::new();
    // Move the members out front to back.
    let n = rest.len();
    let mut i: usize = 0;
    while i < n
        invariant
            0 <= i <= n,
            n == extra@.len(),
            rest@ == extra@.subrange(i as int, n as int),
            ex == members_view(extra),
            ex.len() == n,
            forall|j: int| 0 <= j < n ==> #[trigger] ex[j] == (extra@[j].0@, json_view(extra@[j].1)),
            members_view(*m) == members_merge(base, ex.subrange(0, i as int)),
        decreases n - i,
    {
        let (k, v) = rest.remove(0);
        proof {
            assert(k == extra@[i as int].0 && v == extra@[i as int].1);
            let pre = ex.subrange(0, i as int + 1);
            assert(pre.drop_last() =~= ex.subrange(0, i as int));
            assert(pre.last() == ex[i as int]);
        }
        insert_member(m, k, v);
        proof {
            assert(rest@ =~= extra@.subrange(i as int + 1, n as int));
        }
        i = i + 1;
    }
    proof {
        assert(ex.subrange(0, n as int) =~= ex);
    }
}

/// A JSON string.
pub fn str_json(s: &str) -> (r: Json)
    ensures
        r@ == JsonV::Str(s@),
{
    Json::Str(s.to_string())
}

/// The JSON array of a list of strings.
pub open spec fn strings_view(v: Seq<String>) -> JsonV {
    JsonV::Array(Seq::new(v.len(), |i: int| JsonV::Str(v[i]@)))
}

/// A JSON array of strings.
pub fn strings_json(v: &Vec<String>) -> (r: Json)
    ensures
        r@ == strings_view(v@),
{
    let mut out: Vec<Json> = Vec::new();
    let n = v.len();
    let mut i: usize = 0;
    while i < n
        invariant
            0 <= i <= n,
            n == v@.len(),
            out@.len() == i,
            forall|j: int| 0 <= j < i ==> #[trigger] json_view(out@[j]) == JsonV::Str(v@[j]@),
        decreases n - i,
    {
        out.push(Json::Str(v[i].clone()));
        i = i + 1;
    }
    proof {
        lemma_seq_view(out@);
        assert(json_seq_view(out@) =~= Seq::new(v@.len(), |i: int| JsonV::Str(v@[i]@)));
    }
    Json::Array(out)
}

/// The members `(name, string)` of the given pairs, in order.
pub open spec fn string_members(v: Seq<(String, String)>) -> Seq<(Seq<char>, JsonV)> {
    Seq::new(v.len(), |i: int| (v[i].0@, JsonV::Str(v[i].1@)))
}

/// The JSON object of the given string pairs, built as a map: each name
/// appears once, where it first appears, with the value of its last pair.
pub open spec fn string_pairs_view(v: Seq<(String, String)>) -> JsonV {
    JsonV::Object(members_merge(seq![], string_members(v)))
}

/// A JSON object of string members, later pairs replacing earlier ones of
/// the same name.
pub fn string_pairs_json(v: &Vec<(String, String)>) -> (r: Json)
    ensures
        r@ == string_pairs_view(v@),
{
    let mut out: Members = Vec::new();
    let n = v.len();
    let mut i: usize = 0;
    while i < n
        invariant
            0 <= i <= n,
            n == v@.len(),
            out@.len() == i,
            forall|j: int|
                0 <= j < i ==> #[trigger] out@[j].0@ == v@[j].0@ && json_view(out@[j].1)
                    == JsonV::Str(v@[j].1@),
        decreases n - i,
    {
        out.push((v[i].0.clone(), Json::Str(v[i].1.clone())));
        i = i + 1;
    }
    proof {
        reveal(members_view);
        lemma_members_view(out@);
        assert(members_view(out) =~= string_members(v@));
    }
    let mut m = empty_members();
    merge_members(&mut m, out);
    object(m)
}

/// Names that occur at most once.
pub open spec fn unique_names(m: Seq<(Seq<char>, JsonV)>) -> bool {
    forall|i: int, j: int| 0 <= i < j < m.len() ==> #[trigger] m[i].0 != #[trigger] m[j].0
}

/// Map insertion never makes a name occur twice.
pub proof fn lemma_insert_unique(m: Seq<(Seq<char>, JsonV)>, k: Seq<char>, v: JsonV)
    requires
        unique_names(m),
    ensures
        unique_names(members_insert(m, k, v)),
{
    lemma_find_key(m, k);
    let r = members_insert(m, k, v);
    assert forall|i: int, j: int| 0 <= i < j < r.len() implies #[trigger] r[i].0 != #[trigger] r[j].0 by {
        if find_key(m, k) >= 0 {
            assert(r[i].0 == m[i].0);
            assert(r[j].0 == m[j].0);
        } else if j == m.len() {
            assert(r[i] == m[i]);
        } else {
            assert(r[i] == m[i]);
            assert(r[j] == m[j]);
        }
    }
}

/// An object built by map insertion holds each name once.
pub proof fn lemma_merge_unique(base: Seq<(Seq<char>, JsonV)>, extra: Seq<(Seq<char>, JsonV)>)
    requires
        unique_names(base),
    ensures
        unique_names(members_merge(base, extra)),
    decreases extra.len(),
{
    if extra.len() > 0 {
        lemma_merge_unique(base, extra.drop_last());
        lemma_insert_unique(members_merge(base, extra.drop_last()), extra.last().0, extra.last().1);
    }
}

} // verus!

verus! {

/// `c` with member `(k, v)` appended when `v` is present.
pub open spec fn with_opt(c: Seq<(Seq<char>, JsonV)>, k: Seq<char>, v: Option<JsonV>) -> Seq<
    (Seq<char>, JsonV),
> {
    match v {
        Some(x) => c.push((k, x)),
        None => c,
    }
}

/// `c` with a string-array member appended when the list is not empty.
pub open spec fn with_list(c: Seq<(Seq<char>, JsonV)>, k: Seq<char>, v: Seq<String>) -> Seq<
    (Seq<char>, JsonV),
> {
    if v.len() > 0 {
        c.push((k, strings_view(v)))
    } else {
        c
    }
}

pub open spec fn opt_json_view(o: Option<Json>) -> Option<JsonV> {
    match o {
        Some(j) => Some(json_view(j)),
        None => None,
    }
}

pub open spec fn opt_str_view(o: Option<String>) -> Option<JsonV> {
    match o {
        Some(s) => Some(JsonV::Str(s@)),
        None => None,
    }
}

pub open spec fn opt_u32_view(o: Option<u32>) -> Option<JsonV> {
    match o {
        Some(n) => Some(JsonV::Int(n as int)),
        None => None,
    }
}

pub open spec fn opt_u64_view(o: Option<u64>) -> Option<JsonV> {
    match o {
        Some(n) => Some(JsonV::Int(n as int)),
        None => None,
    }
}

pub open spec fn opt_bool_view(o: Option<bool>) -> Option<JsonV> {
    match o {
        Some(b) => Some(JsonV::Bool(b)),
        None => None,
    }
}

pub open spec fn opt_members_view(o: Option<Members>) -> Option<JsonV> {
    match o {
        Some(m) => Some(JsonV::Object(members_view(m))),
        None => None,
    }
}

/// Appends member `key` when `v` is present.
pub fn push_opt(m: &mut Members, key: &str, v: Option<Json>)
    ensures
        members_view(*final(m)) == with_opt(members_view(*old(m)), key@, opt_json_view(v)),
{
    match v {
        Some(j) => push_member(m, key, j),
        None => {},
    }
}

/// Appends a string-array member when `v` is not empty.
pub fn push_list(m: &mut Members, key: &str, v: &Vec<String>)
    ensures
        members_view(*final(m)) == with_list(members_view(*old(m)), key@, v@),
{
    if v.len() > 0 {
        let j = strings_json(v);
        push_member(m, key, j);
    }
}

pub fn opt_string_json(o: Option<String>) -> (r: Option<Json>)
    ensures
        opt_json_view(r) == opt_str_view(o),
{
    match o {
        Some(s) => Some(Json::Str(s)),
        None => None,
    }
}

pub fn opt_u32_json(o: Option<u32>) -> (r: Option<Json>)
    ensures
        opt_json_view(r) == opt_u32_view(o),
{
    match o {
        Some(n) => Some(Json::Int(n as i128)),
        None => None,
    }
}

pub fn opt_u64_json(o: Option<u64>) -> (r: Option<Json>)
    ensures
        opt_json_view(r) == opt_u64_view(o),
{
    match o {
        Some(n) => Some(Json::Int(n as i128)),
        None => None,
    }
}

pub fn opt_bool_json(o: Option<bool>) -> (r: Option<Json>)
    ensures
        opt_json_view(r) == opt_bool_view(o),
{
    match o {
        Some(b) => Some(Json::Bool(b)),
        None => None,
    }
}

pub fn opt_members_json(o: Option<Members>) -> (r: Option<Json>)
    ensures
        opt_json_view(r) == opt_members_view(o),
{
    reveal(members_view);
    match o {
        Some(m) => Some(object(m)),
        None => None,
    }
}

} // verus!

verus! {

/// A JSON array.
pub fn array(v: Vec<Json>) -> (r: Json)
    ensures
        r@ == JsonV::Array(json_seq_view(v@)),
{
    Json::Array(v)
}

/// The JSON array of doubles held as bit patterns.
pub open spec fn floats_view(v: Seq<u64>) -> JsonV {
    JsonV::Array(Seq::new(v.len(), |i: int| JsonV::Float(v[i])))
}

/// A JSON array of doubles held as bit patterns.
pub fn floats_json(v: &Vec<u64>) -> (r: Json)
    ensures
        r@ == floats_view(v@),
{
    let mut out: Vec<Json> = Vec::new();
    let n = v.len();
    let mut i: usize = 0;
    while i < n
        invariant
            0 <= i <= n,
            n == v@.len(),
            out@.len() == i,
            forall|j: int| 0 <= j < i ==> #[trigger] json_view(out@[j]) == JsonV::Float(v@[j]),
        decreases n - i,
    {
        out.push(Json::Float(v[i]));
        i = i + 1;
    }
    proof {
        lemma_seq_view(out@);
        assert(json_seq_view(out@) =~= Seq::new(v@.len(), |i: int| JsonV::Float(v@[i])));
    }
    Json::Array(out)
}

} // verus!

verus! {

impl Clone for Json {
    /// A copy of the value (see [`clone_json`]).
    fn clone(&self) -> (r: Self)
        ensures
            r@ == self@,
    {
        clone_json(self)
    }
}

/// A copy of a JSON value.
#[verifier::loop_isolation(false)]
pub fn clone_json(j: &Json) -> (r: Json)
    ensures
        r@ == j@,
    decreases j,
{
    match j {
        Json::Null => Json::Null,
        Json::Bool(b) => Json::Bool(*b),
        Json::Int(n) => Json::Int(*n),
        Json::Float(f) => Json::Float(*f),
        Json::Str(s) => Json::Str(s.clone()),
        Json::Array(v) => {
            let mut out: Vec<Json> = Vec::new();
            let n = v.len();
            let mut i: usize = 0;
            while i < n
                invariant
                    0 <= i <= n,
                    n == v@.len(),
                    out@.len() == i,
                    forall|k: int| 0 <= k < i ==> #[trigger] json_view(out@[k]) == json_view(v@[k]),
                decreases n - i,
            {
                assert(decreases_to!(j => v@[i as int]));
                let c = clone_json(&v[i]);
                out.push(c);
                i = i + 1;
            }
            proof {
                lemma_seq_view(out@);
                lemma_seq_view(v@);
                assert(json_seq_view(out@) =~= json_seq_view(v@));
            }
            Json::Array(out)
        },
        Json::Object(v) => {
            let mut out: Vec<(String, Json)> = Vec::new();
            let n = v.len();
            let mut i: usize = 0;
            while i < n
                invariant
                    0 <= i <= n,
                    n == v@.len(),
                    out@.len() == i,
                    forall|k: int|
                        0 <= k < i ==> #[trigger] out@[k].0@ == v@[k].0@ && json_view(out@[k].1)
                            == json_view(v@[k].1),
                decreases n - i,
            {
                assert(decreases_to!(j => v@[i as int].1));
                let c = clone_json(&v[i].1);
                let key = v[i].0.clone();
                assert(key@ == v@[i as int].0@);
                let ghost before = out@;
                out.push((key, c));
                assert(forall|k: int| 0 <= k < i ==> out@[k] == before[k]);
                i = i + 1;
            }
            proof {
                lemma_members_view(out@);
                lemma_members_view(v@);
                assert(json_members_view(out@) =~= json_members_view(v@));
            }
            Json::Object(out)
        },
    }
}

} // verus!
