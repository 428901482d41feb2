//! Properties that hold of every request the library builds.

use vstd::prelude::*;
use crate::datasets::{
    add_texts_embed_body, add_texts_insert_body, create_body, effective_dim,
    effective_embedding_view, embedding_at, search_from, text_metadata, text_vector_view,
    SearchInput, SearchOptions,
};
use crate::json::{
    lemma_merge_unique, members_merge, string_members, string_pairs_view, unique_names,
    find_key, lemma_find_key, lemma_member_push, lemma_member_with_opt, member_value,
    members_insert_absent, members_view, strings_view, opt_bool_view, opt_members_view, opt_u32_view, with_opt, JsonV,
};
use crate::intelligence::{ask_body, AskOptions};
use crate::types::{
    ask_request_view, history_view, scope_view, search_request_view, AskRequest, SearchRequest,
};
use crate::types::{named_request, vector_id_view, CreateDatasetRequest, TextDocument};
use crate::errors::{api_error_message, extracted_message, ErrorBody};
use crate::transport::joined_path;
use crate::ingestion::{complete_upload_view, init_upload_view, upload_count};
use crate::client::{request_headers, resolved_base_url};
use crate::sources::{collapse, kept, sanitized};
use crate::text::{
    all_ascii, ascii_lower, decimal, digit_char, is_char, lossy_utf8, is_white_space, lowered, strip_both, strip_end, strip_start,
    ws,
};
use crate::stream::{
    decoded, StreamPayload, consume_line, ended, first_newline, lemma_first_newline, poll, RawEventV, StepV, StreamV,
};

verus! {

/// Every dataset-creation body asks for the SABLE index, carries the
/// dimensionality under `dim`, and has no `dimension` member.
pub proof fn law_create_body_is_sable(r: CreateDatasetRequest, dim: u32)
    ensures
        member_value(create_body(r, dim)->Object_0, "index_type"@) == Some(JsonV::Str("sable"@)),
        member_value(create_body(r, dim)->Object_0, "dim"@) == Some(JsonV::Int(dim as int)),
        find_key(create_body(r, dim)->Object_0, "dimension"@) == -1,
{
    reveal_strlit("index_type");
    reveal_strlit("dim");
    reveal_strlit("dimension");
    reveal_strlit("name");
    reveal_strlit("metric");
    reveal_strlit("tuning");
    reveal_strlit("embedding");
    reveal_strlit("hybrid");
    reveal_strlit("metadata");
    let keys = set!["name"@, "dim"@, "metric"@, "tuning"@, "embedding"@, "hybrid"@, "metadata"@];
    let c0 = seq![("name"@, JsonV::Str(r.name@))].push(("dim"@, JsonV::Int(dim as int))).push(
        (
            "metric"@,
            JsonV::Str(
                match r.metric {
                    Some(m) => m@,
                    None => "cosine"@,
                },
            ),
        ),
    );
    assert(keys_in(c0, keys));
    let c1 = with_opt(c0, "tuning"@, opt_members_view(r.tuning));
    lemma_with_opt_keys(c0, "tuning"@, opt_members_view(r.tuning), keys);
    let c2 = c1.push(("embedding"@, effective_embedding_view(r.embedding)));
    assert(keys_in(c2, keys));
    let c3 = with_opt(c2, "hybrid"@, opt_bool_view(r.hybrid));
    lemma_with_opt_keys(c2, "hybrid"@, opt_bool_view(r.hybrid), keys);
    let c4 = with_opt(c3, "metadata"@, opt_members_view(r.metadata));
    lemma_with_opt_keys(c3, "metadata"@, opt_members_view(r.metadata), keys);
    let m = create_body(r, dim)->Object_0;
    assert(m == c4.push(("index_type"@, JsonV::Str("sable"@))));
    assert("index_type"@.len() == 10 && "dimension"@.len() == 9);
    assert("dimension"@[0] != "embedding"@[0]);
    assert("name"@ != "index_type"@ && "dim"@ != "index_type"@ && "metric"@ != "index_type"@
        && "tuning"@ != "index_type"@ && "embedding"@ != "index_type"@ && "hybrid"@
        != "index_type"@ && "metadata"@ != "index_type"@);
    assert("name"@ != "dimension"@ && "dim"@ != "dimension"@ && "metric"@ != "dimension"@
        && "tuning"@ != "dimension"@ && "embedding"@ != "dimension"@ && "hybrid"@
        != "dimension"@ && "metadata"@ != "dimension"@);
    assert(!keys.contains("index_type"@));
    assert(!keys.contains("dimension"@));
    lemma_find_key(m, "index_type"@);
    lemma_find_key(m, "dim"@);
    lemma_find_key(m, "dimension"@);
    assert forall|j: int| 0 <= j < m.len() - 1 implies #[trigger] m[j].0 != "index_type"@ by {
        assert(m[j] == c4[j]);
        assert(keys.contains(c4[j].0));
    }
    assert forall|j: int| 0 <= j < m.len() implies #[trigger] m[j].0 != "dimension"@ by {
        if j < m.len() - 1 {
            assert(m[j] == c4[j]);
            assert(keys.contains(c4[j].0));
        }
    }
    assert(m[1] == ("dim"@, JsonV::Int(dim as int)));
    assert(m[0].0 == "name"@);
    assert("name"@.len() == 4 && "dim"@.len() == 3);
    assert(m[0].0 != "dim"@);
    assert(c0.len() == 3);
    assert(c1.len() >= 3 && c1[1] == c0[1]);
    assert(c2.len() >= 4 && c2[1] == c0[1]);
    assert(c3.len() >= 4 && c3[1] == c0[1]);
    assert(c4.len() >= 4 && c4[1] == c0[1]);
    assert(m.len() >= 5);
    assert(m[1].0 == "dim"@);
    assert(find_key(m, "dim"@) != -1);
    assert(find_key(m, "dim"@) == 1);
}

/// Every member name of `m` is in `keys`.
pub open spec fn keys_in(m: Seq<(Seq<char>, JsonV)>, keys: Set<Seq<char>>) -> bool {
    forall|j: int| 0 <= j < m.len() ==> keys.contains(#[trigger] m[j].0)
}

proof fn lemma_with_opt_keys(
    c: Seq<(Seq<char>, JsonV)>,
    k: Seq<char>,
    v: Option<JsonV>,
    keys: Set<Seq<char>>,
)
    requires
        keys_in(c, keys),
        keys.contains(k),
    ensures
        keys_in(with_opt(c, k, v), keys),
{
    let w = with_opt(c, k, v);
    assert forall|j: int| 0 <= j < w.len() implies keys.contains(#[trigger] w[j].0) by {
        if j < c.len() {
            assert(w[j] == c[j]);
        }
    }
}

/// A request that gives only a name is created with the VectorAmp default
/// embedding and its 2560 dimensions, the `cosine` metric, and no `hybrid`
/// member.
pub proof fn law_name_only_defaults(name: String)
    ensures
        effective_dim(named_request(name)) == Some(2560u32),
        create_body(named_request(name), 2560) == JsonV::Object(
            seq![("name"@, JsonV::Str(name@))].push(("dim"@, JsonV::Int(2560))).push(
                ("metric"@, JsonV::Str("cosine"@)),
            ).push(
                (
                    "embedding"@,
                    JsonV::Object(
                        seq![("provider"@, JsonV::Str("vectoramp"@))].push(
                            ("model"@, JsonV::Str("VectorAmp-Embedding-4B"@)),
                        ),
                    ),
                ),
            ).push(("index_type"@, JsonV::Str("sable"@))),
        ),
{
}

/// A search never asks for zero results: the `top_k` sent is the options'
/// when given and positive, and is never 0.
pub proof fn law_search_top_k(input: SearchInput, o: SearchOptions)
    ensures
        search_from(input, o).top_k > 0,
        (o.top_k matches Some(k) && k > 0) ==> search_from(input, o).top_k == o.top_k->0,
        (o.top_k is None && !(input is Request)) ==> search_from(input, o).top_k == 10,
{
}

/// `add_texts` copies a document's text into the `text` member of its
/// vector's metadata, unless the document's metadata already has one.
pub proof fn law_text_copied_into_metadata(d: TextDocument)
    ensures
        (match d.metadata {
            Some(m) => find_key(crate::json::members_view(m), "text"@) == -1,
            None => true,
        }) ==> member_value(text_metadata(d), "text"@) == Some(JsonV::Str(d.text@)),
        (d.metadata matches Some(m) && find_key(crate::json::members_view(m), "text"@) >= 0)
            ==> member_value(text_metadata(d), "text"@) == member_value(
            crate::json::members_view(d.metadata->0),
            "text"@,
        ),
{
    let base = match d.metadata {
        Some(m) => crate::json::members_view(m),
        None => seq![],
    };
    lemma_find_key(base, "text"@);
    let t = text_metadata(d);
    lemma_find_key(t, "text"@);
    if find_key(base, "text"@) < 0 {
        assert(t == base.push(("text"@, JsonV::Str(d.text@))));
        assert(forall|j: int| 0 <= j < base.len() ==> #[trigger] t[j] == base[j]);
        assert(t[base.len() as int].0 == "text"@);
    }
}

/// No two dashes of `u` are next to each other.
pub open spec fn no_double_dash(u: Seq<char>) -> bool {
    forall|i: int| 0 < i < u.len() && #[trigger] u[i] == '-' ==> u[i - 1] != '-'
}

proof fn lemma_collapse_chars(s: Seq<char>)
    ensures
        forall|i: int|
            0 <= i < collapse(s).0.len() ==> kept(#[trigger] collapse(s).0[i]) || collapse(s).0[i]
                == '-',
        collapse(s).1 == (collapse(s).0.len() > 0 && collapse(s).0.last() == '-'),
        no_double_dash(collapse(s).0),
    decreases s.len(),
{
    if s.len() > 0 {
        lemma_collapse_chars(s.drop_last());
        let prev = collapse(s.drop_last()).0;
        let out = collapse(s).0;
        assert forall|i: int| 0 <= i < out.len() implies kept(#[trigger] out[i]) || out[i] == '-' by {
            if i < prev.len() {
                assert(out[i] == prev[i]);
            }
        }
        assert forall|i: int| 0 < i < out.len() && #[trigger] out[i] == '-' implies out[i - 1]
            != '-' by {
            if i < prev.len() {
                assert(out[i] == prev[i]);
                assert(out[i - 1] == prev[i - 1]);
            } else {
                assert(out[i - 1] == prev[i - 1]);
            }
        }
    }
}

/// A collapsed text with no doubled dash collapses to itself.
proof fn lemma_collapse_fixed(u: Seq<char>)
    requires
        forall|i: int| 0 <= i < u.len() ==> kept(#[trigger] u[i]) || u[i] == '-',
        no_double_dash(u),
    ensures
        collapse(u) == (u, u.len() > 0 && u.last() == '-'),
    decreases u.len(),
{
    if u.len() > 0 {
        let p = u.drop_last();
        assert forall|i: int| 0 <= i < p.len() implies kept(#[trigger] p[i]) || p[i] == '-' by {
            assert(p[i] == u[i]);
        }
        assert forall|i: int| 0 < i < p.len() && #[trigger] p[i] == '-' implies p[i - 1] != '-' by {
            assert(p[i] == u[i]);
            assert(p[i - 1] == u[i - 1]);
        }
        lemma_collapse_fixed(p);
        assert(p.push(u.last()) =~= u);
        if u.last() == '-' && p.len() > 0 {
            assert(u[u.len() - 1] == '-');
            assert(u[u.len() - 2] == p.last());
        }
    }
}

/// The shape of every default-name text: non-empty, made of kept
/// characters and single dashes, with no dash at either end.
pub open spec fn tidy(u: Seq<char>) -> bool {
    &&& u.len() > 0
    &&& forall|i: int| 0 <= i < u.len() ==> kept(#[trigger] u[i]) || u[i] == '-'
    &&& no_double_dash(u)
    &&& u[0] != '-'
    &&& u.last() != '-'
}

/// A tidy text sanitizes to itself.
proof fn lemma_tidy_fixed(u: Seq<char>)
    requires
        tidy(u),
    ensures
        sanitized(u) == u,
{
    assert(!is_white_space(u[0]));
    assert(!is_white_space(u.last()));
    assert(strip_start(u, ws()) == u);
    assert(strip_end(u, ws()) == u);
    assert(strip_both(u, ws()) == u);
    assert forall|i: int| 0 <= i < u.len() implies (#[trigger] u[i] as u32) < 128 by {
        if kept(u[i]) {
        } else {
            assert(u[i] == '-');
        }
    }
    assert(all_ascii(u));
    assert forall|i: int| 0 <= i < u.len() implies ascii_lower(#[trigger] u[i]) == u[i] by {}
    assert(lowered(u) =~= u);
    lemma_collapse_fixed(u);
    assert(strip_start(u, is_char('-')) == u);
    assert(strip_end(u, is_char('-')) == u);
}

proof fn lemma_strip_start_shape(s: Seq<char>, p: spec_fn(char) -> bool)
    ensures
        exists|k: int| 0 <= k <= s.len() && strip_start(s, p) == s.subrange(k, s.len() as int),
        strip_start(s, p).len() > 0 ==> !p(strip_start(s, p)[0]),
    decreases s.len(),
{
    if s.len() > 0 && p(s[0]) {
        lemma_strip_start_shape(s.drop_first(), p);
        let k = choose|k: int|
            0 <= k <= s.drop_first().len() && strip_start(s.drop_first(), p)
                == s.drop_first().subrange(k, s.drop_first().len() as int);
        assert(s.drop_first().subrange(k, s.drop_first().len() as int) =~= s.subrange(
            k + 1,
            s.len() as int,
        ));
    } else {
        assert(s.subrange(0, s.len() as int) =~= s);
    }
}

proof fn lemma_strip_end_shape(s: Seq<char>, p: spec_fn(char) -> bool)
    ensures
        exists|k: int| 0 <= k <= s.len() && strip_end(s, p) == s.subrange(0, k),
        strip_end(s, p).len() > 0 ==> !p(strip_end(s, p).last()),
    decreases s.len(),
{
    if s.len() > 0 && p(s.last()) {
        lemma_strip_end_shape(s.drop_last(), p);
        let k = choose|k: int|
            0 <= k <= s.drop_last().len() && strip_end(s.drop_last(), p)
                == s.drop_last().subrange(0, k);
        assert(s.drop_last().subrange(0, k) =~= s.subrange(0, k));
    } else {
        assert(s.subrange(0, s.len() as int) =~= s);
    }
}

/// Default source names are made only of ASCII lowercase letters, digits
/// and dashes, are never empty, and neither start nor end with a dash.
pub proof fn law_sanitized_shape(v: Seq<char>)
    ensures
        sanitized(v).len() > 0,
        forall|i: int|
            0 <= i < sanitized(v).len() ==> kept(#[trigger] sanitized(v)[i]) || sanitized(v)[i]
                == '-',
        sanitized(v)[0] != '-',
        sanitized(v).last() != '-',
        no_double_dash(sanitized(v)),
{
    let c = collapse(lowered(strip_both(v, ws()))).0;
    lemma_collapse_chars(lowered(strip_both(v, ws())));
    let p = is_char('-');
    let a = strip_start(c, p);
    lemma_strip_start_shape(c, p);
    lemma_strip_end_shape(a, p);
    let t = strip_end(a, p);
    let ka = choose|k: int| 0 <= k <= c.len() && a == c.subrange(k, c.len() as int);
    let kt = choose|k: int| 0 <= k <= a.len() && t == a.subrange(0, k);
    if t.len() == 0 {
        reveal_strlit("source");
        assert(sanitized(v) == "source"@);
    } else {
        assert(sanitized(v) == t);
        assert forall|i: int| 0 <= i < t.len() implies kept(#[trigger] t[i]) || t[i] == '-' by {
            assert(t[i] == a[i]);
            assert(a[i] == c[i + ka]);
        }
        assert(t[0] == a[0]);
        assert forall|i: int| 0 < i < t.len() && #[trigger] t[i] == '-' implies t[i - 1] != '-' by {
            assert(t[i] == c[i + ka]);
            assert(t[i - 1] == c[i - 1 + ka]);
        }
    }
}

/// Sanitizing a default name again changes nothing.
pub proof fn law_sanitize_idempotent(v: Seq<char>)
    ensures
        sanitized(sanitized(v)) == sanitized(v),
{
    law_sanitized_shape(v);
    lemma_tidy_fixed(sanitized(v));
}

/// The decoder state after more input arrives.
pub open spec fn with_input(s: StreamV, x: Seq<u8>) -> StreamV {
    StreamV { buffer: s.buffer + x, ..s }
}

proof fn lemma_first_newline_append(b: Seq<u8>, x: Seq<u8>)
    requires
        first_newline(b) >= 0,
    ensures
        first_newline(b + x) == first_newline(b),
{
    lemma_first_newline(b);
    lemma_first_newline(b + x);
    let i = first_newline(b);
    assert((b + x)[i] == b[i]);
    let k = first_newline(b + x);
    if k >= 0 && k < i {
        assert((b + x)[k] == b[k]);
    }
}

/// Where an event ends does not depend on how the body was cut into
/// chunks: on an open stream, input that arrives after a poll that yielded
/// an event is still there, untouched, for the next poll; and input that
/// arrives after a poll that asked for more gives the same next step as if
/// it had arrived before that poll.
pub proof fn law_chunk_boundaries(s: StreamV, x: Seq<u8>)
    requires
        !s.done,
    ensures
        poll(s).1 !is End,
        poll(s).1 is Event ==> poll(with_input(s, x)) == (with_input(poll(s).0, x), poll(s).1),
        poll(s).1 is NeedInput ==> poll(with_input(s, x)) == poll(with_input(poll(s).0, x)),
    decreases s.buffer.len(),
{
    let b = s.buffer;
    let i = first_newline(b);
    lemma_first_newline(b);
    if 0 <= i < b.len() {
        lemma_first_newline_append(b, x);
        let bx = b + x;
        assert(bx.subrange(0, i + 1) =~= b.subrange(0, i + 1));
        assert(bx.subrange(i + 1, bx.len() as int) =~= b.subrange(i + 1, b.len() as int) + x);
        let s2 = StreamV { buffer: b.subrange(i + 1, b.len() as int), ..s };
        assert(with_input(s2, x) == StreamV {
            buffer: bx.subrange(i + 1, bx.len() as int),
            ..with_input(s, x)
        });
        let line = crate::stream::strip_line_end(b.subrange(0, i + 1));
        if line.len() == 0 {
            if s.data.len() > 0 {
            } else {
                let s3 = StreamV { event: seq![], ..s2 };
                law_chunk_boundaries(s3, x);
                assert(with_input(s3, x) == StreamV { event: seq![], ..with_input(s2, x) });
            }
        } else {
            let s3 = consume_line(s2, line);
            law_chunk_boundaries(s3, x);
            assert(consume_line(with_input(s2, x), line) == with_input(s3, x));
        }
    } else {
        assert(poll(s) == (s, StepV::NeedInput));
    }
}

proof fn lemma_ask_member(query: String, o: AskOptions, stream: bool, k: Seq<char>)
    ensures
        member_value(ask_body(query, o, stream)->Object_0, k) == (if k == "query"@ {
            Some(JsonV::Str(query@))
        } else if k == "dataset_ids"@ {
            scope_view(o.dataset_ids)
        } else if k == "top_k"@ {
            opt_u32_view(Some(match o.top_k {
                Some(t) => t,
                None => 5u32,
            }))
        } else if k == "conversation_history"@ {
            match o.conversation_history {
                Some(h) => Some(history_view(h@)),
                None => None,
            }
        } else if k == "stream"@ {
            Some(JsonV::Bool(stream))
        } else if k == "include_sources"@ {
            opt_bool_view(Some(match o.include_sources {
                Some(b) => b,
                None => true,
            }))
        } else {
            None
        }),
{
    let top_k = Some(match o.top_k {
        Some(t) => t,
        None => 5u32,
    });
    let sources = Some(match o.include_sources {
        Some(b) => b,
        None => true,
    });
    let hist = match o.conversation_history {
        Some(h) => Some(history_view(h@)),
        None => None,
    };
    let m0 = seq![("query"@, JsonV::Str(query@))];
    let m1 = with_opt(m0, "dataset_ids"@, scope_view(o.dataset_ids));
    let m2 = with_opt(m1, "top_k"@, opt_u32_view(top_k));
    let m3 = with_opt(m2, "conversation_history"@, hist);
    let m4 = m3.push(("stream"@, JsonV::Bool(stream)));
    let m5 = with_opt(m4, "include_sources"@, opt_bool_view(sources));
    assert(ask_body(query, o, stream)->Object_0 == m5);
    assert(m0 =~= Seq::<(Seq<char>, JsonV)>::empty().push(("query"@, JsonV::Str(query@))));
    lemma_find_key(Seq::<(Seq<char>, JsonV)>::empty(), k);
    lemma_member_push(Seq::<(Seq<char>, JsonV)>::empty(), "query"@, JsonV::Str(query@), k);
    lemma_member_with_opt(m0, "dataset_ids"@, scope_view(o.dataset_ids), k);
    lemma_member_with_opt(m1, "top_k"@, opt_u32_view(top_k), k);
    lemma_member_with_opt(m2, "conversation_history"@, hist, k);
    lemma_member_push(m3, "stream"@, JsonV::Bool(stream), k);
    lemma_member_with_opt(m4, "include_sources"@, opt_bool_view(sources), k);
    lemma_ask_keys_distinct();
}

proof fn lemma_ask_keys_distinct()
    ensures
        "query"@ != "dataset_ids"@,
        "query"@ != "top_k"@,
        "query"@ != "conversation_history"@,
        "query"@ != "stream"@,
        "query"@ != "include_sources"@,
        "dataset_ids"@ != "top_k"@,
        "dataset_ids"@ != "conversation_history"@,
        "dataset_ids"@ != "stream"@,
        "dataset_ids"@ != "include_sources"@,
        "top_k"@ != "conversation_history"@,
        "top_k"@ != "stream"@,
        "top_k"@ != "include_sources"@,
        "conversation_history"@ != "stream"@,
        "conversation_history"@ != "include_sources"@,
        "stream"@ != "include_sources"@,
{
    reveal_strlit("query");
    reveal_strlit("dataset_ids");
    reveal_strlit("top_k");
    reveal_strlit("conversation_history");
    reveal_strlit("stream");
    reveal_strlit("include_sources");
    assert("query"@.len() == 5 && "top_k"@.len() == 5 && "stream"@.len() == 6);
    assert("dataset_ids"@.len() == 11 && "conversation_history"@.len() == 20);
    assert("include_sources"@.len() == 15);
    assert("query"@[0] != "top_k"@[0]);
}

/// A question is sent with its text and the `stream` flag, a `top_k` of 5
/// and sources included unless the options say otherwise, and a
/// `dataset_ids` scope only when the options name some dataset other than
/// the retired `"all"`; without one, every dataset the caller can see is
/// searched.
pub proof fn law_ask_defaults(query: String, o: AskOptions, stream: bool)
    ensures
        member_value(ask_body(query, o, stream)->Object_0, "query"@) == Some(JsonV::Str(query@)),
        member_value(ask_body(query, o, stream)->Object_0, "stream"@) == Some(JsonV::Bool(stream)),
        member_value(ask_body(query, o, stream)->Object_0, "top_k"@) == Some(
            JsonV::Int(
                match o.top_k {
                    Some(t) => t as int,
                    None => 5,
                },
            ),
        ),
        member_value(ask_body(query, o, stream)->Object_0, "include_sources"@) == Some(
            JsonV::Bool(
                match o.include_sources {
                    Some(b) => b,
                    None => true,
                },
            ),
        ),
        member_value(ask_body(query, o, stream)->Object_0, "dataset_ids"@) == scope_view(
            o.dataset_ids,
        ),
        o.dataset_ids is None ==> member_value(
            ask_body(query, o, stream)->Object_0,
            "dataset_ids"@,
        ) is None,
{
    lemma_ask_keys_distinct();
    lemma_ask_member(query, o, stream, "query"@);
    lemma_ask_member(query, o, stream, "stream"@);
    lemma_ask_member(query, o, stream, "top_k"@);
    lemma_ask_member(query, o, stream, "include_sources"@);
    lemma_ask_member(query, o, stream, "dataset_ids"@);
}

/// The chunks of a body, joined.
pub open spec fn flatten(chunks: Seq<Seq<u8>>) -> Seq<u8>
    decreases chunks.len(),
{
    if chunks.len() == 0 {
        seq![]
    } else {
        chunks[0] + flatten(chunks.drop_first())
    }
}

/// The events a reader gets from a decoder in state `s` when the rest of
/// the body arrives as `chunks`: it polls; an event is kept; a request for
/// input is answered with the next chunk, or with the end of the input when
/// no chunk is left; the end stops it. At most `fuel` polls are made, and
/// the result is `None` when they run out first.
pub open spec fn run(s: StreamV, chunks: Seq<Seq<u8>>, fuel: nat) -> Option<Seq<RawEventV>>
    decreases fuel,
{
    if fuel == 0 {
        None
    } else {
        let (s2, step) = poll(s);
        match step {
            StepV::Event(e) => match run(s2, chunks, (fuel - 1) as nat) {
                Some(es) => Some(seq![e] + es),
                None => None,
            },
            StepV::NeedInput => if chunks.len() > 0 {
                run(with_input(s2, chunks[0]), chunks.drop_first(), (fuel - 1) as nat)
            } else {
                run(ended(s2), chunks, (fuel - 1) as nat)
            },
            StepV::End => Some(seq![]),
        }
    }
}

proof fn lemma_poll_keeps_done(s: StreamV)
    ensures
        poll(s).0.done == s.done,
    decreases s.buffer.len(),
{
    let b = s.buffer;
    let i = first_newline(b);
    lemma_first_newline(b);
    if 0 <= i < b.len() {
        let s2 = StreamV { buffer: b.subrange(i + 1, b.len() as int), ..s };
        let line = crate::stream::strip_line_end(b.subrange(0, i + 1));
        if line.len() == 0 {
            if s.data.len() == 0 {
                lemma_poll_keeps_done(StreamV { event: seq![], ..s2 });
            }
        } else {
            lemma_poll_keeps_done(consume_line(s2, line));
        }
    }
}

proof fn lemma_run_same_poll(a: StreamV, b: StreamV, chunks: Seq<Seq<u8>>, fuel: nat)
    requires
        poll(a) == poll(b),
    ensures
        run(a, chunks, fuel) == run(b, chunks, fuel),
{
}

proof fn lemma_run_more_fuel(s: StreamV, chunks: Seq<Seq<u8>>, fuel: nat, more: nat)
    requires
        run(s, chunks, fuel) is Some,
        fuel <= more,
    ensures
        run(s, chunks, more) == run(s, chunks, fuel),
    decreases fuel,
{
    if fuel > 0 {
        let (s2, step) = poll(s);
        match step {
            StepV::Event(e) => lemma_run_more_fuel(s2, chunks, (fuel - 1) as nat, (more - 1) as nat),
            StepV::NeedInput => if chunks.len() > 0 {
                lemma_run_more_fuel(
                    with_input(s2, chunks[0]),
                    chunks.drop_first(),
                    (fuel - 1) as nat,
                    (more - 1) as nat,
                );
            } else {
                lemma_run_more_fuel(ended(s2), chunks, (fuel - 1) as nat, (more - 1) as nat);
            },
            StepV::End => {},
        }
    }
}

proof fn lemma_run_first_chunk(s: StreamV, chunks: Seq<Seq<u8>>, fuel: nat)
    requires
        !s.done,
        chunks.len() > 0,
    ensures
        exists|g: nat|
            g <= fuel && run(s, chunks, fuel) == run(
                with_input(s, chunks[0]),
                chunks.drop_first(),
                g,
            ),
    decreases fuel,
{
    let x = chunks[0];
    let rest = chunks.drop_first();
    if fuel == 0 {
        assert(run(s, chunks, fuel) == run(with_input(s, x), rest, 0));
    } else {
        law_chunk_boundaries(s, x);
        lemma_poll_keeps_done(s);
        let (s2, step) = poll(s);
        match step {
            StepV::Event(e) => {
                lemma_run_first_chunk(s2, chunks, (fuel - 1) as nat);
                let g = choose|g: nat|
                    g <= (fuel - 1) as nat && run(s2, chunks, (fuel - 1) as nat) == run(
                        with_input(s2, x),
                        rest,
                        g,
                    );
                assert(run(with_input(s, x), rest, g + 1) == run(s, chunks, fuel));
            },
            StepV::NeedInput => {
                lemma_run_same_poll(with_input(s, x), with_input(s2, x), rest, (fuel - 1) as nat);
                assert(run(with_input(s, x), rest, (fuel - 1) as nat) == run(s, chunks, fuel));
            },
            StepV::End => {},
        }
    }
}

proof fn lemma_run_flatten(s: StreamV, chunks: Seq<Seq<u8>>, fuel: nat)
    requires
        !s.done,
        run(s, chunks, fuel) is Some,
    ensures
        exists|g: nat|
            run(s, chunks, fuel) == run(with_input(s, flatten(chunks)), seq![], g),
    decreases chunks.len(),
{
    if chunks.len() == 0 {
        assert(with_input(s, flatten(chunks)) == s) by {
            assert(s.buffer + flatten(chunks) =~= s.buffer);
        }
        assert(chunks =~= seq![]);
        assert(run(s, chunks, fuel) == run(with_input(s, flatten(chunks)), seq![], fuel));
    } else {
        lemma_run_first_chunk(s, chunks, fuel);
        let x = chunks[0];
        let rest = chunks.drop_first();
        let g1 = choose|g: nat| g <= fuel && run(s, chunks, fuel) == run(with_input(s, x), rest, g);
        let s1 = with_input(s, x);
        lemma_run_flatten(s1, rest, g1);
        let g = choose|g: nat| run(s1, rest, g1) == run(with_input(s1, flatten(rest)), seq![], g);
        assert(with_input(s1, flatten(rest)) == with_input(s, flatten(chunks))) by {
            assert(s.buffer + x + flatten(rest) =~= s.buffer + flatten(chunks));
        }
    }
}

/// The events of a streamed answer do not depend on how its body was cut
/// into chunks: two readers of an open decoder that are handed the same
/// bytes, cut at any two sets of positions, get the same sequence of events
/// once each has reached the end.
pub proof fn law_events_ignore_chunking(
    s: StreamV,
    c1: Seq<Seq<u8>>,
    c2: Seq<Seq<u8>>,
    f1: nat,
    f2: nat,
)
    requires
        !s.done,
        flatten(c1) == flatten(c2),
        run(s, c1, f1) is Some,
        run(s, c2, f2) is Some,
    ensures
        run(s, c1, f1) == run(s, c2, f2),
{
    lemma_run_flatten(s, c1, f1);
    lemma_run_flatten(s, c2, f2);
    let t = with_input(s, flatten(c1));
    let empty = Seq::<Seq<u8>>::empty();
    let g1 = choose|g: nat| run(s, c1, f1) == run(t, empty, g);
    let g2 = choose|g: nat| run(s, c2, f2) == run(t, empty, g);
    if g1 <= g2 {
        lemma_run_more_fuel(t, empty, g1, g2);
    } else {
        lemma_run_more_fuel(t, empty, g2, g1);
    }
}

proof fn lemma_poll_progress(s: StreamV)
    ensures
        poll(s).0.buffer.len() <= s.buffer.len(),
        poll(s).1 is Event ==> poll(s).0.data.len() == 0 && (poll(s).0.buffer.len()
            < s.buffer.len() || s.data.len() > 0),
        poll(s).1 is NeedInput ==> !s.done && (poll(s).0.buffer.len() < s.buffer.len()
            || poll(s).0 == s),
    decreases s.buffer.len(),
{
    let b = s.buffer;
    let i = first_newline(b);
    lemma_first_newline(b);
    if 0 <= i < b.len() {
        let s2 = StreamV { buffer: b.subrange(i + 1, b.len() as int), ..s };
        let line = crate::stream::strip_line_end(b.subrange(0, i + 1));
        if line.len() == 0 {
            if s.data.len() == 0 {
                lemma_poll_progress(StreamV { event: seq![], ..s2 });
            }
        } else {
            lemma_poll_progress(consume_line(s2, line));
        }
    }
}

/// How much work is left to a reader: the bytes still to decode, the chunks
/// still to hand over, whether the input is still open, and whether data
/// lines are pending.
pub open spec fn work_left(s: StreamV, chunks: Seq<Seq<u8>>) -> nat {
    (4 * (s.buffer.len() + flatten(chunks).len()) + 2 * chunks.len() + (if s.done {
        0int
    } else {
        2int
    }) + (if s.data.len() > 0 {
        1int
    } else {
        0int
    })) as nat
}

proof fn lemma_run_ends(s: StreamV, chunks: Seq<Seq<u8>>)
    ensures
        run(s, chunks, (work_left(s, chunks) + 1) as nat) is Some,
    decreases work_left(s, chunks),
{
    let fuel = (work_left(s, chunks) + 1) as nat;
    lemma_poll_progress(s);
    lemma_poll_keeps_done(s);
    let (s2, step) = poll(s);
    match step {
        StepV::Event(e) => {
            lemma_run_ends(s2, chunks);
            lemma_run_more_fuel(s2, chunks, (work_left(s2, chunks) + 1) as nat, (fuel - 1) as nat);
        },
        StepV::NeedInput => {
            if chunks.len() > 0 {
                let s3 = with_input(s2, chunks[0]);
                let rest = chunks.drop_first();
                assert(flatten(chunks).len() == chunks[0].len() + flatten(rest).len());
                lemma_run_ends(s3, rest);
                lemma_run_more_fuel(s3, rest, (work_left(s3, rest) + 1) as nat, (fuel - 1) as nat);
            } else {
                let s3 = ended(s2);
                assert(s3.done && s3.buffer.len() == 0);
                lemma_run_ends(s3, chunks);
                lemma_run_more_fuel(s3, chunks, (work_left(s3, chunks) + 1) as nat, (fuel - 1) as nat);
            }
        },
        StepV::End => {},
    }
}

/// A reader always reaches the end: whatever state the decoder is in and
/// however the rest of the body is cut, polling (and handing over the
/// chunks, then the end of the input) ends after finitely many steps.
pub proof fn law_stream_ends(s: StreamV, chunks: Seq<Seq<u8>>)
    ensures
        exists|fuel: nat| #[trigger] run(s, chunks, fuel) is Some,
{
    lemma_run_ends(s, chunks);
    assert(run(s, chunks, (work_left(s, chunks) + 1) as nat) is Some);
}

/// Request headers, search filters and a generic source's config are sent
/// as JSON objects that name each key once, as the maps they stand for do.
pub proof fn law_map_objects_name_keys_once(
    pairs: Seq<(String, String)>,
    config: Seq<(Seq<char>, JsonV)>,
)
    ensures
        unique_names(string_pairs_view(pairs)->Object_0),
        unique_names(members_merge(seq![], config)),
{
    lemma_merge_unique(seq![], string_members(pairs));
    lemma_merge_unique(seq![], config);
}

// ---------------------------------------------------------------------------
// Reading members of built objects.

/// Reading a name after an optional member was appended.
pub broadcast proof fn lemma_member_after_opt(
    m: Seq<(Seq<char>, JsonV)>,
    k: Seq<char>,
    v: Option<JsonV>,
    k2: Seq<char>,
)
    ensures
        #[trigger] member_value(with_opt(m, k, v), k2) == (if member_value(m, k2) is Some {
            member_value(m, k2)
        } else if k == k2 {
            v
        } else {
            None
        }),
{
    lemma_member_with_opt(m, k, v, k2);
}

/// Reading a name after a member was appended.
pub broadcast proof fn lemma_member_after_push(
    m: Seq<(Seq<char>, JsonV)>,
    x: (Seq<char>, JsonV),
    k2: Seq<char>,
)
    ensures
        #[trigger] member_value(m.push(x), k2) == (if member_value(m, k2) is Some {
            member_value(m, k2)
        } else if x.0 == k2 {
            Some(x.1)
        } else {
            None
        }),
{
    lemma_member_push(m, x.0, x.1, k2);
}

/// Reading a name after a list member was appended (when not empty).
pub broadcast proof fn lemma_member_after_list(
    m: Seq<(Seq<char>, JsonV)>,
    k: Seq<char>,
    v: Seq<String>,
    k2: Seq<char>,
)
    ensures
        #[trigger] member_value(crate::json::with_list(m, k, v), k2) == (if member_value(m, k2) is Some {
            member_value(m, k2)
        } else if k == k2 && v.len() > 0 {
            Some(crate::json::strings_view(v))
        } else {
            None
        }),
{
    if v.len() > 0 {
        lemma_member_push(m, k, crate::json::strings_view(v), k2);
    } else {
        lemma_find_key(m, k2);
    }
}

/// Nothing can be read from no members.
pub broadcast proof fn lemma_member_of_empty(k: Seq<char>)
    ensures
        #[trigger] member_value(Seq::<(Seq<char>, JsonV)>::empty(), k) is None,
{
}

/// Setting one name leaves every other name's value as it was.
pub proof fn lemma_member_insert_other(
    m: Seq<(Seq<char>, JsonV)>,
    k1: Seq<char>,
    v: JsonV,
    k: Seq<char>,
)
    requires
        k1 != k,
    ensures
        member_value(crate::json::members_insert(m, k1, v), k) == member_value(m, k),
{
    lemma_find_key(m, k1);
    lemma_find_key(m, k);
    let r = crate::json::members_insert(m, k1, v);
    lemma_find_key(r, k);
    if find_key(m, k1) >= 0 {
        let i = find_key(m, k1);
        assert forall|j: int| 0 <= j < m.len() implies #[trigger] r[j].0 == m[j].0 by {}
        if find_key(m, k) >= 0 {
            assert(r[find_key(m, k)] == m[find_key(m, k)]);
        }
        if find_key(r, k) >= 0 {
            assert(r[find_key(r, k)].0 == m[find_key(r, k)].0);
        }
    } else {
        if find_key(m, k) >= 0 {
            assert(r[find_key(m, k)] == m[find_key(m, k)]);
        }
        if find_key(r, k) >= 0 && find_key(r, k) < m.len() {
            assert(r[find_key(r, k)] == m[find_key(r, k)]);
        }
    }
}

/// Merging members that do not name `k` leaves `k`'s value as it was.
pub proof fn lemma_member_merge_absent(
    base: Seq<(Seq<char>, JsonV)>,
    extra: Seq<(Seq<char>, JsonV)>,
    k: Seq<char>,
)
    requires
        find_key(extra, k) == -1,
    ensures
        member_value(members_merge(base, extra), k) == member_value(base, k),
    decreases extra.len(),
{
    if extra.len() > 0 {
        lemma_find_key(extra, k);
        lemma_find_key(extra.drop_last(), k);
        assert forall|j: int| 0 <= j < extra.drop_last().len() implies #[trigger] extra.drop_last()[j].0
            != k by {
            assert(extra.drop_last()[j] == extra[j]);
        }
        lemma_member_merge_absent(base, extra.drop_last(), k);
        lemma_member_insert_other(
            members_merge(base, extra.drop_last()),
            extra.last().0,
            extra.last().1,
            k,
        );
    }
}

/// Merging members leaves a name's value as it was when they do not name it.
pub proof fn lemma_member_merge_kept(
    base: Seq<(Seq<char>, JsonV)>,
    extra: Seq<(Seq<char>, JsonV)>,
    k: Seq<char>,
)
    ensures
        find_key(extra, k) == -1 ==> member_value(members_merge(base, extra), k) == member_value(
            base,
            k,
        ),
{
    if find_key(extra, k) == -1 {
        lemma_member_merge_absent(base, extra, k);
    }
}

/// Whether the extra config leaves the name `k` to the builder.
pub open spec fn not_overridden(extra: crate::json::Members, k: Seq<char>) -> bool {
    find_key(crate::json::members_view(extra), k) == -1
}

/// A creation body carries the request's name, its metric (`cosine` only
/// when the request names none), its embedding (the VectorAmp default when
/// none is given), and its tuning, hybrid flag and metadata when they are
/// set; unset ones are left out.
pub proof fn law_create_body_keeps_fields(r: CreateDatasetRequest, dim: u32)
    ensures
        member_value(create_body(r, dim)->Object_0, "name"@) == Some(JsonV::Str(r.name@)),
        r.metric matches Some(m) ==> member_value(create_body(r, dim)->Object_0, "metric"@)
            == Some(JsonV::Str(m@)),
        r.metric is None ==> member_value(create_body(r, dim)->Object_0, "metric"@) == Some(
            JsonV::Str("cosine"@),
        ),
        member_value(create_body(r, dim)->Object_0, "embedding"@) == Some(
            effective_embedding_view(r.embedding),
        ),
        member_value(create_body(r, dim)->Object_0, "tuning"@) == match r.tuning {
            Some(t) => Some(JsonV::Object(members_view(t))),
            None => None,
        },
        member_value(create_body(r, dim)->Object_0, "hybrid"@) == match r.hybrid {
            Some(b) => Some(JsonV::Bool(b)),
            None => None,
        },
        member_value(create_body(r, dim)->Object_0, "metadata"@) == match r.metadata {
            Some(m) => Some(JsonV::Object(members_view(m))),
            None => None,
        },
{
    broadcast use lemma_member_after_opt, lemma_member_after_push, lemma_member_of_empty;

    reveal_strlit("name");
    reveal_strlit("dim");
    reveal_strlit("metric");
    reveal_strlit("tuning");
    reveal_strlit("embedding");
    reveal_strlit("hybrid");
    reveal_strlit("metadata");
    reveal_strlit("index_type");
    assert("index_type"@.len() == 10);
    assert("name"@.len() == 4 && "dim"@.len() == 3 && "metric"@.len() == 6);
    assert("tuning"@.len() == 6 && "embedding"@.len() == 9 && "hybrid"@.len() == 6);
    assert("metadata"@.len() == 8);
    assert("metric"@[0] != "tuning"@[0] && "metric"@[0] != "hybrid"@[0]);
    assert("tuning"@[0] != "hybrid"@[0]);
}

/// A dimensionality the request gives is the one the dataset is created
/// with, whatever its embedding, and a requested embedding is sent as given.
pub proof fn law_requested_dim_and_embedding_kept(r: CreateDatasetRequest)
    ensures
        r.dim matches Some(d) ==> effective_dim(r) == Some(d),
        r.embedding matches Some(c) ==> effective_embedding_view(r.embedding)
            == crate::types::embedding_view(c),
{
}

/// Each search option that is set replaces the request's own field, and one
/// that is not set leaves a full request's field as it was (text and vector
/// searches start with none of them).
pub proof fn law_search_options_override(input: SearchInput, o: SearchOptions)
    ensures
        o.filters is Some ==> search_from(input, o).filters == o.filters,
        o.include_metadata is Some ==> search_from(input, o).include_metadata
            == o.include_metadata,
        o.include_documents is Some ==> search_from(input, o).include_documents
            == o.include_documents,
        o.rerank is Some ==> search_from(input, o).rerank == o.rerank,
        input matches SearchInput::Request(q) ==> {
            &&& (o.filters is None ==> search_from(input, o).filters == q.filters)
            &&& (o.include_metadata is None ==> search_from(input, o).include_metadata
                == q.include_metadata)
            &&& (o.include_documents is None ==> search_from(input, o).include_documents
                == q.include_documents)
            &&& (o.rerank is None ==> search_from(input, o).rerank == q.rerank)
        },
        input matches SearchInput::Text(t) ==> search_from(input, o).query_text == Some(t)
            && search_from(input, o).query is None,
        input matches SearchInput::Vector(v) ==> search_from(input, o).query == Some(v)
            && search_from(input, o).query_text is None,
        input matches SearchInput::Request(q) ==> {
            &&& search_from(input, o).query == q.query
            &&& search_from(input, o).query_text == q.query_text
            &&& search_from(input, o).advanced_filters == q.advanced_filters
            &&& search_from(input, o).hybrid == q.hybrid
            &&& search_from(input, o).include_embeddings == q.include_embeddings
        },
        !(input is Request) ==> {
            &&& search_from(input, o).filters == o.filters
            &&& search_from(input, o).include_metadata == o.include_metadata
            &&& search_from(input, o).include_documents == o.include_documents
            &&& search_from(input, o).rerank == o.rerank
        },
{
}

/// A question's conversation history is sent in the caller's order: the
/// i-th element of `conversation_history` is an object with the i-th
/// message's role and content. Without a history, no such member is sent.
pub proof fn law_ask_history_in_order(query: String, o: AskOptions, stream: bool)
    ensures
        o.conversation_history matches Some(h) ==> {
            &&& member_value(ask_body(query, o, stream)->Object_0, "conversation_history"@)
                matches Some(JsonV::Array(a))
            &&& a.len() == h@.len()
            &&& forall|i: int|
                0 <= i < h@.len() ==> {
                    &&& #[trigger] a[i] is Object
                    &&& member_value(a[i]->Object_0, "role"@) == Some(JsonV::Str(h@[i].role@))
                    &&& member_value(a[i]->Object_0, "content"@) == Some(
                        JsonV::Str(h@[i].content@),
                    )
                }
        },
        o.conversation_history is None ==> member_value(
            ask_body(query, o, stream)->Object_0,
            "conversation_history"@,
        ) is None,
{
    broadcast use lemma_member_after_push, lemma_member_of_empty;

    lemma_ask_member(query, o, stream, "conversation_history"@);
    lemma_ask_keys_distinct();
    reveal_strlit("role");
    reveal_strlit("content");
    assert("role"@.len() == 4 && "content"@.len() == 7);
    if o.conversation_history is Some {
        let h = o.conversation_history->0;
        let a = history_view(h@)->Array_0;
        assert forall|i: int| 0 <= i < h@.len() implies {
            &&& #[trigger] a[i] is Object
            &&& member_value(a[i]->Object_0, "role"@) == Some(JsonV::Str(h@[i].role@))
            &&& member_value(a[i]->Object_0, "content"@) == Some(JsonV::Str(h@[i].content@))
        } by {
            assert(a[i] == JsonV::Object(
                seq![("role"@, JsonV::Str(h@[i].role@))].push(
                    ("content"@, JsonV::Str(h@[i].content@)),
                ),
            ));
        }
    }
}

/// A decoded event carries its payload's chunk type, content and metadata
/// unchanged; an event whose data did not read as a payload has empty
/// fields and no metadata. Either way it keeps its name and its data bytes.
pub proof fn law_decoded_carries_payload(raw: RawEventV, payload: Option<StreamPayload>)
    ensures
        decoded(raw, payload).0 == raw.event,
        decoded(raw, payload).4 == vstd::utf8::encode_utf8(raw.data),
        payload matches Some(p) ==> {
            &&& decoded(raw, payload).1 == p.chunk_type@
            &&& decoded(raw, payload).2 == p.content@
            &&& decoded(raw, payload).3 == match p.metadata {
                Some(m) => Some(crate::json::members_view(m)),
                None => None,
            }
        },
        payload is None ==> {
            &&& decoded(raw, payload).1 == Seq::<char>::empty()
            &&& decoded(raw, payload).2 == Seq::<char>::empty()
            &&& decoded(raw, payload).3 is None
        },
{
}

/// A request path is joined to the base URL's path with exactly one `/`:
/// a base path without a trailing `/` and a request path without a leading
/// `/` are kept whole; otherwise the slashes at the join are dropped.
pub proof fn law_joined_path(b: Seq<char>, p: Seq<char>)
    ensures
        (b.len() == 0 || b.last() != '/') && (p.len() == 0 || p[0] != '/') ==> joined_path(b, p)
            == b + seq!['/'] + p,
        exists|kb: int, kp: int|
            0 <= kb <= b.len() && 0 <= kp <= p.len() && joined_path(b, p) == b.subrange(0, kb)
                + seq!['/'] + p.subrange(kp, p.len() as int) && (kb == 0 || b[kb - 1] != '/') && (
            kp == p.len() || p[kp] != '/'),
{
    lemma_strip_end_shape(b, is_char('/'));
    lemma_strip_start_shape(p, is_char('/'));
    let base = strip_end(b, is_char('/'));
    let trimmed = strip_start(p, is_char('/'));
    let kb = choose|k: int| 0 <= k <= b.len() && base == b.subrange(0, k);
    let kp = choose|k: int| 0 <= k <= p.len() && trimmed == p.subrange(k, p.len() as int);
    assert(base.len() == kb);
    if kb > 0 {
        assert(base.last() == b[kb - 1]);
    }
    if kp < p.len() {
        assert(trimmed[0] == p[kp]);
    }
    if base.len() == 0 {
        assert(seq!['/'] + trimmed =~= base + seq!['/'] + trimmed);
    }
    assert(joined_path(b, p) == base + seq!['/'] + trimmed);
    assert(joined_path(b, p) == b.subrange(0, kb) + seq!['/'] + p.subrange(kp, p.len() as int)
        && (kb == 0 || b[kb - 1] != '/') && (kp == p.len() || p[kp] != '/'));
    if (b.len() == 0 || b.last() != '/') && (p.len() == 0 || p[0] != '/') {
        assert(base == b);
        assert(trimmed == p);
    }
}

/// The API key is sent as `x-api-key` and the user agent as `user-agent`
/// when they are not empty, a body as `application/json`, a streamed
/// request accepts `text/event-stream`; the request's own headers come last
/// and in their order, so that they win over the client's.
pub proof fn law_request_headers(
    api_key: Seq<char>,
    user_agent: Seq<char>,
    has_body: bool,
    stream: bool,
    own: Seq<(Seq<char>, Seq<char>)>,
)
    ensures
        ({
            let h = request_headers(api_key, user_agent, has_body, stream, own);
            &&& api_key.len() > 0 ==> h.contains(("x-api-key"@, api_key))
            &&& user_agent.len() > 0 ==> h.contains(("user-agent"@, user_agent))
            &&& has_body ==> h.contains(("content-type"@, "application/json"@))
            &&& stream ==> h.contains(("accept"@, "text/event-stream"@))
            &&& h.len() >= own.len()
            &&& h.subrange(h.len() - own.len(), h.len() as int) == own
            &&& api_key.len() == 0 ==> forall|i: int|
                0 <= i < h.len() - own.len() ==> #[trigger] h[i].0 != "x-api-key"@
        }),
{
    reveal_strlit("x-api-key");
    reveal_strlit("user-agent");
    reveal_strlit("content-type");
    reveal_strlit("accept");
    assert("x-api-key"@.len() == 9 && "user-agent"@.len() == 10 && "content-type"@.len() == 12
        && "accept"@.len() == 6);
    let h = request_headers(api_key, user_agent, has_body, stream, own);
    let n = h.len() - own.len();
    let head = h.subrange(0, n);
    assert(h.subrange(n, h.len() as int) =~= own);
    if api_key.len() > 0 {
        let i = if user_agent.len() > 0 { 1int } else { 0int };
        assert(h[i] == ("x-api-key"@, api_key));
    }
    if user_agent.len() > 0 {
        assert(h[0] == ("user-agent"@, user_agent));
    }
    if has_body {
        let i = (if user_agent.len() > 0 { 1int } else { 0int }) + (if api_key.len() > 0 { 1int } else { 0int });
        assert(h[i] == ("content-type"@, "application/json"@));
    }
    if stream {
        let i = (if user_agent.len() > 0 { 1int } else { 0int }) + (if api_key.len() > 0 { 1int } else { 0int }) + (if has_body { 1int } else { 0int });
        assert(h[i] == ("accept"@, "text/event-stream"@));
    }
}

/// The number a string of decimal digits reads as.
pub open spec fn digits_value(s: Seq<char>) -> int
    decreases s.len(),
{
    if s.len() == 0 {
        0
    } else {
        digits_value(s.drop_last()) * 10 + (s.last() as int - '0' as int)
    }
}

/// Numbers are written in decimal: only the digits `0`-`9`, no leading
/// zero, and the digits read back as the number.
pub proof fn law_decimal_reads_back(n: nat)
    ensures
        decimal(n).len() > 0,
        forall|i: int| 0 <= i < decimal(n).len() ==> '0' <= #[trigger] decimal(n)[i] <= '9',
        n > 0 ==> decimal(n)[0] != '0',
        digits_value(decimal(n)) == n,
    decreases n,
{
    if n >= 10 {
        law_decimal_reads_back(n / 10);
        let d = decimal(n / 10);
        assert(decimal(n) == d.push(digit_char(n % 10)));
        assert(decimal(n).drop_last() =~= d);
        assert forall|i: int| 0 <= i < decimal(n).len() implies '0' <= #[trigger] decimal(n)[i]
            <= '9' by {
            if i < d.len() {
                assert(decimal(n)[i] == d[i]);
            }
        }
        assert(decimal(n)[0] == d[0]);
        assert(digit_char(n % 10) as int == 48 + n % 10);
        assert(decimal(n).last() == digit_char(n % 10));
        assert(n == (n / 10) * 10 + n % 10);
        assert('0' as int == 48);
        assert(digits_value(decimal(n)) == digits_value(d) * 10 + (n % 10));
    } else {
        assert(digit_char(n) as int == 48 + n);
        assert('0' as int == 48);
        assert(decimal(n).drop_last() =~= Seq::<char>::empty());
        assert(digits_value(decimal(n)) == digits_value(Seq::<char>::empty()) * 10 + n);
    }
}

/// A page asks for `limit` (50 unless given) when it is positive, first,
/// and for `offset` only when one above 0 is given, last.
pub proof fn law_page_query(p: crate::datasets::Pagination)
    ensures
        ({
            let q = crate::datasets::page_query(p);
            let l: u32 = match p.limit {
                Some(l) => l,
                None => 50,
            };
            &&& l > 0 ==> q.len() > 0 && q[0] == ("limit"@, decimal(l as nat))
            &&& l == 0 ==> forall|i: int| 0 <= i < q.len() ==> #[trigger] q[i].0 != "limit"@
            &&& (p.offset matches Some(o) && o > 0) ==> q.len() > 0 && q.last() == (
                "offset"@,
                decimal(p.offset->0 as nat),
            )
            &&& !(p.offset matches Some(o) && o > 0) ==> forall|i: int|
                0 <= i < q.len() ==> #[trigger] q[i].0 != "offset"@
            &&& q.len() <= 2
        }),
{
    reveal_strlit("limit");
    reveal_strlit("offset");
    assert("limit"@.len() == 5 && "offset"@.len() == 6);
}

/// Starting an upload describes the files in their order, each with its
/// name, size and content type (when known); completing it names the job
/// and the uploaded files' ids in their order.
pub proof fn law_upload_bodies(
    source_id: Seq<char>,
    files: Seq<crate::types::UploadFile>,
    job_id: Seq<char>,
    file_ids: Seq<String>,
)
    ensures
        ({
            let init = init_upload_view(source_id, files).body;
            &&& init matches Some(JsonV::Object(m))
            &&& member_value(init->0->Object_0, "files"@) matches Some(JsonV::Array(a))
            &&& a.len() == files.len()
            &&& forall|i: int|
                0 <= i < files.len() ==> {
                    &&& #[trigger] a[i] is Object
                    &&& member_value(a[i]->Object_0, "name"@) == Some(JsonV::Str(files[i].name@))
                    &&& member_value(a[i]->Object_0, "size_bytes"@) == Some(
                        JsonV::Int(files[i].size_bytes as int),
                    )
                    &&& member_value(a[i]->Object_0, "content_type"@) == match files[i].content_type {
                        Some(c) => Some(JsonV::Str(c@)),
                        None => None,
                    }
                }
        }),
        ({
            let done = complete_upload_view(source_id, job_id, file_ids).body;
            &&& done matches Some(JsonV::Object(m))
            &&& member_value(done->0->Object_0, "job_id"@) == Some(JsonV::Str(job_id))
            &&& member_value(done->0->Object_0, "file_ids"@) matches Some(JsonV::Array(ids))
            &&& ids.len() == file_ids.len()
            &&& forall|i: int| 0 <= i < file_ids.len() ==> #[trigger] ids[i] == JsonV::Str(file_ids[i]@)
        }),
        upload_count(files.len(), file_ids.len()) <= files.len(),
        upload_count(files.len(), file_ids.len()) <= file_ids.len(),
        upload_count(files.len(), file_ids.len()) == files.len() || upload_count(
            files.len(),
            file_ids.len(),
        ) == file_ids.len(),
{
    broadcast use lemma_member_after_opt, lemma_member_after_push, lemma_member_of_empty;

    reveal_strlit("files");
    reveal_strlit("name");
    reveal_strlit("size_bytes");
    reveal_strlit("content_type");
    reveal_strlit("job_id");
    reveal_strlit("file_ids");
    assert("name"@.len() == 4 && "size_bytes"@.len() == 10 && "content_type"@.len() == 12);
    assert("job_id"@.len() == 6 && "file_ids"@.len() == 8);
    let a = crate::ingestion::upload_files_view(files)->Array_0;
    assert forall|i: int| 0 <= i < files.len() implies {
        &&& #[trigger] a[i] is Object
        &&& member_value(a[i]->Object_0, "name"@) == Some(JsonV::Str(files[i].name@))
        &&& member_value(a[i]->Object_0, "size_bytes"@) == Some(
            JsonV::Int(files[i].size_bytes as int),
        )
        &&& member_value(a[i]->Object_0, "content_type"@) == match files[i].content_type {
            Some(c) => Some(JsonV::Str(c@)),
            None => None,
        }
    } by {
        assert(a[i] == crate::types::upload_file_view(files[i]));
    }
}

/// A client's base URL is the one given, or the VectorAmp default, and
/// never ends with `/`: trailing slashes are dropped, and a URL without one
/// is kept as it is.
pub proof fn law_resolved_base_url(base_url: Option<String>)
    ensures
        resolved_base_url(base_url).len() > 0 ==> resolved_base_url(base_url).last() != '/',
        base_url is None ==> resolved_base_url(base_url) == crate::DEFAULT_BASE_URL@,
        (base_url matches Some(u) && (u@.len() == 0 || u@.last() != '/')) ==> resolved_base_url(
            base_url,
        ) == base_url->0@,
        base_url matches Some(u) ==> u@.len() >= resolved_base_url(base_url).len()
            && resolved_base_url(base_url) == u@.subrange(
            0,
            resolved_base_url(base_url).len() as int,
        ),
{
    let raw = match base_url {
        Some(u) => u@,
        None => crate::DEFAULT_BASE_URL@,
    };
    lemma_strip_end_shape(raw, is_char('/'));
    reveal_strlit("https://api.vectoramp.com");
    assert(crate::DEFAULT_BASE_URL@.last() == 'm');
    let k = choose|k: int| 0 <= k <= raw.len() && strip_end(raw, is_char('/')) == raw.subrange(0, k);
    assert(strip_end(raw, is_char('/')).len() == k);
}

/// A question scoped to datasets sends every id of the scope, in order, as
/// `dataset_ids`, as soon as one of them is not the retired `"all"`; a
/// scope made only of `"all"` (or empty) searches every dataset and sends no
/// `dataset_ids`.
pub proof fn law_ask_scope(query: String, o: AskOptions, stream: bool)
    ensures
        (o.dataset_ids matches Some(v) && exists|i: int| 0 <= i < v@.len() && #[trigger] v@[i]@ != "all"@)
            ==> member_value(ask_body(query, o, stream)->Object_0, "dataset_ids"@) == Some(
            strings_view(o.dataset_ids->0@),
        ),
        (o.dataset_ids matches Some(v) && forall|i: int| 0 <= i < v@.len() ==> #[trigger] v@[i]@ == "all"@)
            ==> member_value(ask_body(query, o, stream)->Object_0, "dataset_ids"@) is None,
{
    lemma_ask_keys_distinct();
    lemma_ask_member(query, o, stream, "dataset_ids"@);
    if o.dataset_ids is Some {
        let v = o.dataset_ids->0;
        if exists|i: int| 0 <= i < v@.len() && #[trigger] v@[i]@ != "all"@ {
            let i = choose|i: int| 0 <= i < v@.len() && #[trigger] v@[i]@ != "all"@;
            assert(!crate::types::scope_is_everything(v@));
        } else {
            assert(crate::types::scope_is_everything(v@));
        }
    }
}

/// The ids given to plain texts are all different: no two texts added
/// together share an id.
pub proof fn law_generated_ids_distinct(i: int, j: int)
    requires
        0 <= i < j,
    ensures
        crate::datasets::generated_id(i) != crate::datasets::generated_id(j),
{
    law_decimal_reads_back((i + 1) as nat);
    law_decimal_reads_back((j + 1) as nat);
    let a = crate::datasets::generated_id(i);
    let b = crate::datasets::generated_id(j);
    if a == b {
        let p = "text-"@;
        assert(a.subrange(p.len() as int, a.len() as int) =~= decimal((i + 1) as nat));
        assert(b.subrange(p.len() as int, b.len() as int) =~= decimal((j + 1) as nat));
    }
}

/// The index of the last member named `k`, or -1 when none is.
pub open spec fn last_named(m: Seq<(Seq<char>, JsonV)>, k: Seq<char>) -> int
    decreases m.len(),
{
    if m.len() == 0 {
        -1
    } else if m.last().0 == k {
        m.len() - 1
    } else {
        last_named(m.drop_last(), k)
    }
}

/// Setting a name gives it the value set.
proof fn lemma_member_insert_same(m: Seq<(Seq<char>, JsonV)>, k: Seq<char>, v: JsonV)
    ensures
        member_value(crate::json::members_insert(m, k, v), k) == Some(v),
{
    lemma_find_key(m, k);
    let r = crate::json::members_insert(m, k, v);
    lemma_find_key(r, k);
    if find_key(m, k) >= 0 {
        let i = find_key(m, k);
        assert forall|j: int| 0 <= j < i implies #[trigger] r[j].0 != k by {
            assert(r[j] == m[j]);
        }
        assert(r[i] == (k, v));
        assert(r[i].0 == k);
        if find_key(r, k) < i {
            assert(r[find_key(r, k)] == m[find_key(r, k)]);
        }
        assert(find_key(r, k) == i);
    } else {
        assert forall|j: int| 0 <= j < m.len() implies #[trigger] r[j].0 != k by {
            assert(r[j] == m[j]);
        }
        assert(r[m.len() as int] == (k, v));
        assert(r[m.len() as int].0 == k);
        assert(find_key(r, k) == m.len());
    }
}

/// Extra config merged over a builder's config wins: a name it gives has
/// the value of its last member of that name; a name it does not give
/// keeps the builder's value.
pub proof fn law_merge_later_wins(
    base: Seq<(Seq<char>, JsonV)>,
    extra: Seq<(Seq<char>, JsonV)>,
    k: Seq<char>,
)
    ensures
        last_named(extra, k) >= 0 ==> member_value(members_merge(base, extra), k) == Some(
            extra[last_named(extra, k)].1,
        ),
        last_named(extra, k) < 0 ==> member_value(members_merge(base, extra), k) == member_value(
            base,
            k,
        ),
    decreases extra.len(),
{
    if extra.len() > 0 {
        let init = extra.drop_last();
        law_merge_later_wins(base, init, k);
        let before = members_merge(base, init);
        if extra.last().0 == k {
            lemma_member_insert_same(before, k, extra.last().1);
        } else {
            lemma_member_insert_other(before, extra.last().0, extra.last().1, k);
            if last_named(init, k) >= 0 {
                lemma_last_named_bound(init, k);
                assert(extra[last_named(init, k)] == init[last_named(init, k)]);
            }
        }
    }
}

proof fn lemma_last_named_bound(m: Seq<(Seq<char>, JsonV)>, k: Seq<char>)
    ensures
        -1 <= last_named(m, k) < m.len(),
    decreases m.len(),
{
    if m.len() > 0 {
        lemma_last_named_bound(m.drop_last(), k);
    }
}

/// Plain texts become documents in their order, each with its own text, no
/// metadata, and an id that no other document of the call has.
pub proof fn law_texts_become_distinct_documents(t: Vec<String>, docs: Seq<TextDocument>)
    requires
        crate::datasets::documents_of(crate::datasets::AddTextsInput::Texts(t), docs),
    ensures
        docs.len() == t@.len(),
        forall|i: int| 0 <= i < docs.len() ==> #[trigger] docs[i].text == t@[i],
        forall|i: int, j: int|
            0 <= i < j < docs.len() ==> #[trigger] docs[i].id != #[trigger] docs[j].id,
{
    assert forall|i: int, j: int| 0 <= i < j < docs.len() implies #[trigger] docs[i].id
        != #[trigger] docs[j].id by {
        law_generated_ids_distinct(i, j);
        assert(docs[i].text == t@[i]);
        assert(docs[j].text == t@[j]);
    }
}

/// The embeddings read from an embed response are its list, or its single
/// embedding when the list is empty, or none at all.
pub proof fn law_response_embeddings(r: crate::types::EmbedResponse)
    ensures
        r.embeddings@.len() > 0 ==> crate::datasets::response_embeddings(r) == r.embeddings@,
        (r.embeddings@.len() == 0 && r.embedding matches Some(e)) ==> crate::datasets::response_embeddings(r)
            == seq![r.embedding->0],
        (r.embeddings@.len() == 0 && r.embedding is None) ==> crate::datasets::response_embeddings(r).len()
            == 0,
{
}

/// The names a search body can hold differ from one another.
proof fn lemma_search_keys_distinct()
    ensures
        "top_k"@ != "query"@,
        "top_k"@ != "query_text"@,
        "top_k"@ != "embedding_model"@,
        "top_k"@ != "embedding_provider"@,
        "top_k"@ != "filters"@,
        "top_k"@ != "advanced_filters"@,
        "top_k"@ != "nprobe_override"@,
        "top_k"@ != "rerank_depth_override"@,
        "top_k"@ != "hybrid"@,
        "top_k"@ != "sparse_query"@,
        "top_k"@ != "alpha"@,
        "top_k"@ != "include_embeddings"@,
        "top_k"@ != "include_documents"@,
        "top_k"@ != "include_metadata"@,
        "top_k"@ != "rerank"@,
        "query_text"@ != "query"@,
        "query_text"@ != "embedding_model"@,
        "query_text"@ != "embedding_provider"@,
        "query_text"@ != "top_k"@,
        "query_text"@ != "filters"@,
        "query_text"@ != "advanced_filters"@,
        "query_text"@ != "nprobe_override"@,
        "query_text"@ != "rerank_depth_override"@,
        "query_text"@ != "hybrid"@,
        "query_text"@ != "sparse_query"@,
        "query_text"@ != "alpha"@,
        "query_text"@ != "include_embeddings"@,
        "query_text"@ != "include_documents"@,
        "query_text"@ != "include_metadata"@,
        "query_text"@ != "rerank"@,
        "filters"@ != "query"@,
        "filters"@ != "query_text"@,
        "filters"@ != "embedding_model"@,
        "filters"@ != "embedding_provider"@,
        "filters"@ != "top_k"@,
        "filters"@ != "advanced_filters"@,
        "filters"@ != "nprobe_override"@,
        "filters"@ != "rerank_depth_override"@,
        "filters"@ != "hybrid"@,
        "filters"@ != "sparse_query"@,
        "filters"@ != "alpha"@,
        "filters"@ != "include_embeddings"@,
        "filters"@ != "include_documents"@,
        "filters"@ != "include_metadata"@,
        "filters"@ != "rerank"@,
        "hybrid"@ != "query"@,
        "hybrid"@ != "query_text"@,
        "hybrid"@ != "embedding_model"@,
        "hybrid"@ != "embedding_provider"@,
        "hybrid"@ != "top_k"@,
        "hybrid"@ != "filters"@,
        "hybrid"@ != "advanced_filters"@,
        "hybrid"@ != "nprobe_override"@,
        "hybrid"@ != "rerank_depth_override"@,
        "hybrid"@ != "sparse_query"@,
        "hybrid"@ != "alpha"@,
        "hybrid"@ != "include_embeddings"@,
        "hybrid"@ != "include_documents"@,
        "hybrid"@ != "include_metadata"@,
        "hybrid"@ != "rerank"@,
        "include_documents"@ != "query"@,
        "include_documents"@ != "query_text"@,
        "include_documents"@ != "embedding_model"@,
        "include_documents"@ != "embedding_provider"@,
        "include_documents"@ != "top_k"@,
        "include_documents"@ != "filters"@,
        "include_documents"@ != "advanced_filters"@,
        "include_documents"@ != "nprobe_override"@,
        "include_documents"@ != "rerank_depth_override"@,
        "include_documents"@ != "hybrid"@,
        "include_documents"@ != "sparse_query"@,
        "include_documents"@ != "alpha"@,
        "include_documents"@ != "include_embeddings"@,
        "include_documents"@ != "include_metadata"@,
        "include_documents"@ != "rerank"@,
        "include_metadata"@ != "query"@,
        "include_metadata"@ != "query_text"@,
        "include_metadata"@ != "embedding_model"@,
        "include_metadata"@ != "embedding_provider"@,
        "include_metadata"@ != "top_k"@,
        "include_metadata"@ != "filters"@,
        "include_metadata"@ != "advanced_filters"@,
        "include_metadata"@ != "nprobe_override"@,
        "include_metadata"@ != "rerank_depth_override"@,
        "include_metadata"@ != "hybrid"@,
        "include_metadata"@ != "sparse_query"@,
        "include_metadata"@ != "alpha"@,
        "include_metadata"@ != "include_embeddings"@,
        "include_metadata"@ != "include_documents"@,
        "include_metadata"@ != "rerank"@,
        "rerank"@ != "query"@,
        "rerank"@ != "query_text"@,
        "rerank"@ != "embedding_model"@,
        "rerank"@ != "embedding_provider"@,
        "rerank"@ != "top_k"@,
        "rerank"@ != "filters"@,
        "rerank"@ != "advanced_filters"@,
        "rerank"@ != "nprobe_override"@,
        "rerank"@ != "rerank_depth_override"@,
        "rerank"@ != "hybrid"@,
        "rerank"@ != "sparse_query"@,
        "rerank"@ != "alpha"@,
        "rerank"@ != "include_embeddings"@,
        "rerank"@ != "include_documents"@,
        "rerank"@ != "include_metadata"@,
{
    reveal_strlit("advanced_filters");
    reveal_strlit("alpha");
    reveal_strlit("embedding_model");
    reveal_strlit("embedding_provider");
    reveal_strlit("filters");
    reveal_strlit("hybrid");
    reveal_strlit("include_documents");
    reveal_strlit("include_embeddings");
    reveal_strlit("include_metadata");
    reveal_strlit("nprobe_override");
    reveal_strlit("query");
    reveal_strlit("query_text");
    reveal_strlit("rerank");
    reveal_strlit("rerank_depth_override");
    reveal_strlit("sparse_query");
    reveal_strlit("top_k");
    assert("query"@.len() == 5);
    assert("query_text"@.len() == 10);
    assert("embedding_model"@.len() == 15);
    assert("embedding_provider"@.len() == 18);
    assert("top_k"@.len() == 5);
    assert("filters"@.len() == 7);
    assert("advanced_filters"@.len() == 16);
    assert("nprobe_override"@.len() == 15);
    assert("rerank_depth_override"@.len() == 21);
    assert("hybrid"@.len() == 6);
    assert("sparse_query"@.len() == 12);
    assert("alpha"@.len() == 5);
    assert("include_embeddings"@.len() == 18);
    assert("include_documents"@.len() == 17);
    assert("include_metadata"@.len() == 16);
    assert("rerank"@.len() == 6);
    assert("query"@[0] != "top_k"@[0]);
    assert("query"@[0] != "alpha"@[0]);
    assert("embedding_model"@[0] != "nprobe_override"@[0]);
    assert("embedding_provider"@[0] != "include_embeddings"@[0]);
    assert("top_k"@[0] != "alpha"@[0]);
    assert("advanced_filters"@[0] != "include_metadata"@[0]);
    assert("hybrid"@[0] != "rerank"@[0]);
}

/// A search body sends the request's `top_k`, and its text query, filters
/// (as an object), flags and rerank settings each under its own name when
/// set; unset ones are left out.
#[verifier::rlimit(100)]
#[verifier::spinoff_prover]
pub proof fn law_search_body_fields(r: SearchRequest)
    ensures
        member_value(search_request_view(r)->Object_0, "top_k"@) == Some(JsonV::Int(r.top_k as int)),
        member_value(search_request_view(r)->Object_0, "query_text"@) == match r.query_text {
            Some(t) => Some(JsonV::Str(t@)),
            None => None,
        },
        member_value(search_request_view(r)->Object_0, "filters"@) == match r.filters {
            Some(f) => Some(string_pairs_view(f@)),
            None => None,
        },
        member_value(search_request_view(r)->Object_0, "hybrid"@) == match r.hybrid {
            Some(b) => Some(JsonV::Bool(b)),
            None => None,
        },
        member_value(search_request_view(r)->Object_0, "include_documents"@)
            == match r.include_documents {
            Some(b) => Some(JsonV::Bool(b)),
            None => None,
        },
        member_value(search_request_view(r)->Object_0, "include_metadata"@)
            == match r.include_metadata {
            Some(b) => Some(JsonV::Bool(b)),
            None => None,
        },
        member_value(search_request_view(r)->Object_0, "rerank"@) == match r.rerank {
            Some(x) => Some(crate::types::rerank_view(x)),
            None => None,
        },
{
    broadcast use lemma_member_after_opt, lemma_member_after_push, lemma_member_of_empty;

    lemma_search_keys_distinct();
    let h = crate::types::search_head_view(r);
    let fl = match r.filters {
        Some(f) => Some(string_pairs_view(f@)),
        None => None,
    };
    let af = match r.advanced_filters {
        Some(f) => Some(crate::types::filters_view(f@)),
        None => None,
    };
    let al = match r.alpha {
        Some(a) => Some(JsonV::Float(a)),
        None => None,
    };
    let rr = match r.rerank {
        Some(x) => Some(crate::types::rerank_view(x)),
        None => None,
    };
    let c1 = with_opt(h, "filters"@, fl);
    let c2 = with_opt(c1, "advanced_filters"@, af);
    let c3 = with_opt(c2, "nprobe_override"@, opt_u32_view(r.nprobe_override));
    let c4 = with_opt(c3, "rerank_depth_override"@, opt_u32_view(r.rerank_depth_override));
    let c5 = with_opt(c4, "hybrid"@, opt_bool_view(r.hybrid));
    let c6 = with_opt(c5, "sparse_query"@, crate::json::opt_str_view(r.sparse_query));
    let c7 = with_opt(c6, "alpha"@, al);
    let c8 = with_opt(c7, "include_embeddings"@, opt_bool_view(r.include_embeddings));
    let c9 = with_opt(c8, "include_documents"@, opt_bool_view(r.include_documents));
    let c10 = with_opt(c9, "include_metadata"@, opt_bool_view(r.include_metadata));
    let c11 = with_opt(c10, "rerank"@, rr);
    assert(search_request_view(r)->Object_0 == c11);
    assert(member_value(h, "top_k"@) == Some(JsonV::Int(r.top_k as int)));
    assert(member_value(h, "query_text"@) == crate::json::opt_str_view(r.query_text));
    assert(member_value(h, "filters"@) is None);
    assert(member_value(h, "hybrid"@) is None);
    assert(member_value(h, "include_documents"@) is None);
    assert(member_value(h, "include_metadata"@) is None);
    assert(member_value(h, "rerank"@) is None);
    assert(member_value(c4, "filters"@) == fl);
    assert(member_value(c4, "top_k"@) == member_value(h, "top_k"@));
    assert(member_value(c4, "query_text"@) == member_value(h, "query_text"@));
    assert(member_value(c4, "hybrid"@) is None);
    assert(member_value(c4, "include_documents"@) is None);
    assert(member_value(c4, "include_metadata"@) is None);
    assert(member_value(c4, "rerank"@) is None);
    assert(member_value(c8, "filters"@) == fl);
    assert(member_value(c8, "top_k"@) == member_value(h, "top_k"@));
    assert(member_value(c8, "query_text"@) == member_value(h, "query_text"@));
    assert(member_value(c8, "hybrid"@) == opt_bool_view(r.hybrid));
    assert(member_value(c8, "include_documents"@) is None);
    assert(member_value(c8, "include_metadata"@) is None);
    assert(member_value(c8, "rerank"@) is None);

}

/// An API error's message is the body's `error`, else its `message`, else
/// its `detail`; a body with none of them gives its own text, trimmed and
/// never longer than 512 characters.
pub proof fn law_error_message_precedence(body: Seq<u8>, parsed: Option<ErrorBody>)
    ensures
        parsed matches Some(b) ==> {
            &&& b.error is Some ==> api_error_message(body, parsed) == b.error->0@
            &&& (b.error is None && b.message is Some) ==> api_error_message(body, parsed)
                == b.message->0@
            &&& (b.error is None && b.message is None && b.detail is Some) ==> api_error_message(
                body,
                parsed,
            ) == b.detail->0@
        },
        extracted_message(parsed) is None ==> {
            &&& api_error_message(body, parsed).len() <= 512
            &&& api_error_message(body, parsed) == strip_both(lossy_utf8(body), ws()).take(
                api_error_message(body, parsed).len() as int,
            )
            &&& strip_both(lossy_utf8(body), ws()).len() <= 512 ==> api_error_message(body, parsed)
                == strip_both(lossy_utf8(body), ws())
        },
{
    let t = strip_both(lossy_utf8(body), ws());
    if extracted_message(parsed) is None && t.len() <= 512 {
        assert(t.take(t.len() as int) =~= t);
    }
}

/// The insert that follows an embed call pairs the i-th document with the
/// i-th embedding, in the documents' order: vector i has document i's id,
/// embedding i as its values (none when the response has fewer), and
/// document i's metadata with its text.
pub proof fn law_add_texts_pairs_in_order(docs: Seq<TextDocument>, e: Seq<Vec<u64>>)
    ensures
        member_value(add_texts_insert_body(docs, e)->Object_0, "vectors"@) matches Some(
            JsonV::Array(a),
        ) && a.len() == docs.len() && forall|i: int|
            0 <= i < docs.len() ==> {
                &&& #[trigger] a[i] is Object
                &&& member_value(a[i]->Object_0, "id"@) == Some(vector_id_view(docs[i].id))
                &&& member_value(a[i]->Object_0, "values"@) == Some(
                    JsonV::Array(
                        if i < e.len() {
                            Seq::new(e[i]@.len(), |j: int| JsonV::Float(e[i]@[j]))
                        } else {
                            Seq::empty()
                        },
                    ),
                )
                &&& member_value(a[i]->Object_0, "metadata"@) == Some(
                    JsonV::Object(text_metadata(docs[i])),
                )
            },
{
    broadcast use lemma_member_after_push, lemma_member_of_empty;

    reveal_strlit("vectors");
    reveal_strlit("id");
    reveal_strlit("values");
    reveal_strlit("metadata");
    assert("id"@.len() == 2 && "values"@.len() == 6 && "metadata"@.len() == 8);
    let a = add_texts_insert_body(docs, e)->Object_0[0].1->Array_0;
    assert forall|i: int| 0 <= i < docs.len() implies {
        &&& #[trigger] a[i] is Object
        &&& member_value(a[i]->Object_0, "id"@) == Some(vector_id_view(docs[i].id))
        &&& member_value(a[i]->Object_0, "values"@) == Some(
            JsonV::Array(
                if i < e.len() {
                    Seq::new(e[i]@.len(), |j: int| JsonV::Float(e[i]@[j]))
                } else {
                    Seq::empty()
                },
            ),
        )
        &&& member_value(a[i]->Object_0, "metadata"@) == Some(
            JsonV::Object(text_metadata(docs[i])),
        )
    } by {
        assert(a[i] == text_vector_view(docs[i], embedding_at(e, i)));
        if i >= e.len() {
            assert(crate::json::floats_view(embedding_at(e, i))->Array_0 =~= Seq::<JsonV>::empty());
        }
    }
}

/// The embed call that adds documents sends their texts in the documents'
/// order, one per document.
pub proof fn law_add_texts_embeds_in_order(docs: Seq<TextDocument>, o: crate::datasets::AddTextsOptions)
    ensures
        member_value(add_texts_embed_body(docs, o)->Object_0, "texts"@) matches Some(
            JsonV::Array(a),
        ) && a.len() == docs.len() && forall|i: int|
            0 <= i < docs.len() ==> #[trigger] a[i] == JsonV::Str(docs[i].text@),
{
    broadcast use lemma_member_after_opt, lemma_member_after_push, lemma_member_of_empty;

    reveal_strlit("texts");
    reveal_strlit("embedding_provider");
    reveal_strlit("embedding_model");
    assert("texts"@.len() == 5 && "embedding_provider"@.len() == 18);
    assert("embedding_model"@.len() == 15);
}

} // verus!
