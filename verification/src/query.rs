//! Query strings of request paths.

use vstd::prelude::*;

verus! {

/// `key=value`.
pub open spec fn param_text(key: Seq<char>, value: Seq<char>) -> Seq<char> {
    key + "="@ + value
}

/// The parameters joined with `&`.
pub open spec fn join_params(params: Seq<Seq<char>>) -> Seq<char>
    decreases params.len(),
{
    if params.len() == 0 {
        seq![]
    } else if params.len() == 1 {
        params[0]
    } else {
        join_params(params.drop_last()) + "&"@ + params.last()
    }
}

/// A path with a query string made of the parameters, or the bare path when
/// there are none.
pub open spec fn with_query(path: Seq<char>, params: Seq<Seq<char>>) -> Seq<char> {
    if params.len() == 0 {
        path
    } else {
        path + "?"@ + join_params(params)
    }
}

/// The parameters that are present, in order.
pub open spec fn present(params: Seq<Option<Seq<char>>>) -> Seq<Seq<char>>
    decreases params.len(),
{
    if params.len() == 0 {
        seq![]
    } else {
        let rest = present(params.drop_last());
        match params.last() {
            Some(p) => rest.push(p),
            None => rest,
        }
    }
}

/// `key=value` when the value is present.
pub open spec fn opt_param(key: Seq<char>, value: Option<Seq<char>>) -> Option<Seq<char>> {
    match value {
        Some(v) => Some(param_text(key, v)),
        None => None,
    }
}

/// The decimal text of an optional number.
pub open spec fn opt_decimal(value: Option<u64>) -> Option<Seq<char>> {
    match value {
        Some(n) => Some(crate::text::decimal_text(n as nat)),
        None => None,
    }
}

/// The view of an optional `&str`.
pub open spec fn opt_str_view(o: Option<&str>) -> Option<Seq<char>> {
    match o {
        Some(s) => Some(s@),
        None => None,
    }
}

/// `key=value` when the value is present.
pub fn opt_param_string(key: &str, value: Option<&str>) -> (r: Option<String>)
    ensures
        opt_view(r) == opt_param(key@, opt_str_view(value)),
{
    match value {
        Some(v) => Some(param(key, v)),
        None => None,
    }
}

/// `key=n` when the number is present.
pub fn opt_number_param(key: &str, value: Option<u64>) -> (r: Option<String>)
    ensures
        opt_view(r) == opt_param(key@, opt_decimal(value)),
{
    match value {
        Some(n) => {
            let digits = crate::text::decimal_string(n);
            Some(param(key, digits.as_str()))
        },
        None => None,
    }
}

/// `key=value`.
pub fn param(key: &str, value: &str) -> (s: String)
    ensures
        s@ == param_text(key@, value@),
{
    let mut s = key.to_owned();
    s.append("=");
    s.append(value);
    s
}

/// The views of a list of strings.
pub open spec fn views(v: Seq<String>) -> Seq<Seq<char>> {
    v.map_values(|s: String| s@)
}

/// `path`, then `?` and the parameters joined with `&` when there are any.
pub fn path_with_query(path: &str, params: &Vec<String>) -> (s: String)
    ensures
        s@ == with_query(path@, views(params@)),
{
    let mut s = path.to_owned();
    let mut i: usize = 0;
    while i < params.len()
        invariant
            i <= params@.len(),
            s@ == with_query(path@, views(params@.subrange(0, i as int))),
        decreases params@.len() - i,
    {
        let ghost before = views(params@.subrange(0, i as int));
        if i == 0 {
            s.append("?");
        } else {
            s.append("&");
        }
        s.append(params[i].as_str());
        proof {
            let after = views(params@.subrange(0, i + 1));
            assert(after.drop_last() =~= before);
            assert(after.last() == params@[i as int]@);
            if i == 0 {
                assert(after.len() == 1);
            }
        }
        i = i + 1;
    }
    assert(params@.subrange(0, params@.len() as int) =~= params@);
    s
}

/// The views of a list of optional strings.
pub open spec fn opt_views(v: Seq<Option<String>>) -> Seq<Option<Seq<char>>> {
    v.map_values(|o: Option<String>| opt_view(o))
}

/// Collects the parameters that are present.
pub fn collect_present(params: Vec<Option<String>>) -> (v: Vec<String>)
    ensures
        views(v@) == present(opt_views(params@)),
{
    let mut out: Vec<String> = Vec::new();
    let mut i: usize = 0;
    let ghost all = opt_views(params@);
    while i < params.len()
        invariant
            i <= params@.len(),
            all == opt_views(params@),
            views(out@) == present(all.subrange(0, i as int)),
        decreases params@.len() - i,
    {
        let ghost before = out@;
        match &params[i] {
            Some(p) => {
                out.push(p.clone());
                assert(views(out@) =~= views(before).push(p@));
            },
            None => {},
        }
        proof {
            assert(all.subrange(0, i + 1).drop_last() =~= all.subrange(0, i as int));
            assert(all.subrange(0, i + 1).last() == opt_view(params@[i as int]));
        }
        i = i + 1;
    }
    assert(all.subrange(0, params@.len() as int) =~= all);
    out
}

pub open spec fn opt_view(o: Option<String>) -> Option<Seq<char>> {
    match o {
        Some(s) => Some(s@),
        None => None,
    }
}

/// Whether the text holds a `?`.
pub open spec fn has_question_mark(s: Seq<char>) -> bool {
    exists|i: int| 0 <= i < s.len() && s[i] == '?'
}

/// What `append_query` makes of a path.
pub open spec fn append_query_spec(path: Seq<char>, key: Seq<char>, value: Seq<char>) -> Seq<char> {
    path + (if has_question_mark(path) {
        "&"@
    } else {
        "?"@
    }) + key + "="@ + value
}

/// Appends `key=value` to a path, after `?` if the path has no query string
/// yet and after `&` otherwise.
pub fn append_query(path: &mut String, key: &str, value: &str)
    ensures
        final(path)@ == append_query_spec(old(path)@, key@, value@),
{
    let n = path.as_str().unicode_len();
    let mut found = false;
    let mut i: usize = 0;
    while i < n
        invariant
            n == path@.len(),
            i <= n,
            found <==> exists|k: int| 0 <= k < i && path@[k] == '?',
        decreases n - i,
    {
        if path.as_str().get_char(i) == '?' {
            found = true;
        }
        i = i + 1;
    }
    if found {
        path.append("&");
    } else {
        path.append("?");
    }
    path.append(key);
    path.append("=");
    path.append(value);
}

} // verus!

verus! {

/// A path after `append_query` was applied with each key and value in turn.
pub open spec fn appended(path: Seq<char>, pairs: Seq<(Seq<char>, Seq<char>)>) -> Seq<char>
    decreases pairs.len(),
{
    if pairs.len() == 0 {
        path
    } else {
        append_query_spec(appended(path, pairs.drop_last()), pairs.last().0, pairs.last().1)
    }
}

/// The parameters `key=value` of the pairs.
pub open spec fn pair_params(pairs: Seq<(Seq<char>, Seq<char>)>) -> Seq<Seq<char>> {
    pairs.map_values(|kv: (Seq<char>, Seq<char>)| param_text(kv.0, kv.1))
}

/// Law: appending parameters one by one with `append_query` to a path that
/// has no query string yet gives the path with the query string of all of
/// them, joined by `&` after a single `?`.
pub proof fn lemma_append_query_builds_query(
    path: Seq<char>,
    pairs: Seq<(Seq<char>, Seq<char>)>,
)
    requires
        !has_question_mark(path),
    ensures
        appended(path, pairs) == with_query(path, pair_params(pairs)),
    decreases pairs.len(),
{
    if pairs.len() == 0 {
    } else {
        let init = pairs.drop_last();
        lemma_append_query_builds_query(path, init);
        assert(pair_params(init) =~= pair_params(pairs).drop_last());
        let (k, v) = pairs.last();
        if init.len() == 0 {
            assert(pair_params(pairs).len() == 1);
            assert(pair_params(pairs)[0] == param_text(k, v));
            assert(appended(path, init) == path);
            assert(appended(path, pairs) =~= path + "?"@ + param_text(k, v));
        } else {
            let prev = appended(path, init);
            assert(prev == path + "?"@ + join_params(pair_params(init)));
            proof_question_mark_at(path, join_params(pair_params(init)));
            assert(has_question_mark(prev));
            assert(appended(path, pairs) =~= prev + "&"@ + param_text(k, v));
            assert(pair_params(pairs).last() == param_text(k, v));
        }
    }
}

proof fn proof_question_mark_at(path: Seq<char>, rest: Seq<char>)
    ensures
        has_question_mark(path + "?"@ + rest),
{
    reveal_strlit("?");
    let s = path + "?"@ + rest;
    assert(s[path.len() as int] == '?');
}


/// Whether `t` occurs as a run of characters in `s`.
pub open spec fn holds_text(s: Seq<char>, t: Seq<char>) -> bool {
    exists|i: int| 0 <= i && i + t.len() <= s.len() && #[trigger] s.subrange(i, i + t.len()) == t
}

/// A text holds itself.
pub broadcast proof fn lemma_holds_text_self(t: Seq<char>)
    ensures
        #[trigger] holds_text(t, t),
{
    let z: int = 0;
    assert(t.subrange(z, z + t.len()) =~= t);
}

/// A run held by either side of a concatenation is held by the whole.
pub broadcast proof fn lemma_holds_text_concat(a: Seq<char>, b: Seq<char>, t: Seq<char>)
    ensures
        (holds_text(a, t) || holds_text(b, t)) ==> #[trigger] holds_text(a + b, t),
{
    if holds_text(a, t) {
        let i = choose|i: int|
            0 <= i && i + t.len() <= a.len() && #[trigger] a.subrange(i, i + t.len()) == t;
        assert((a + b).subrange(i, i + t.len()) =~= a.subrange(i, i + t.len()));
    } else if holds_text(b, t) {
        let i = choose|i: int|
            0 <= i && i + t.len() <= b.len() && #[trigger] b.subrange(i, i + t.len()) == t;
        assert((a + b).subrange(a.len() + i, a.len() + i + t.len()) =~= b.subrange(i, i + t.len()));
    }
}

/// Every parameter is held by the parameters joined with `&`.
proof fn lemma_join_params_holds_each(params: Seq<Seq<char>>, j: int)
    requires
        0 <= j < params.len(),
    ensures
        holds_text(join_params(params), params[j]),
    decreases params.len(),
{
    broadcast use lemma_holds_text_self, lemma_holds_text_concat;

    if params.len() > 1 && j < params.len() - 1 {
        lemma_join_params_holds_each(params.drop_last(), j);
    }
}

/// Every present option is among the present parameters.
proof fn lemma_present_keeps(opts: Seq<Option<Seq<char>>>, i: int)
    requires
        0 <= i < opts.len(),
        opts[i] is Some,
    ensures
        exists|j: int| 0 <= j < present(opts).len() && #[trigger] present(opts)[j] == opts[i]->0,
    decreases opts.len(),
{
    if i < opts.len() - 1 {
        assert(opts.drop_last()[i] == opts[i]);
        lemma_present_keeps(opts.drop_last(), i);
        let j = choose|j: int|
            0 <= j < present(opts.drop_last()).len() && #[trigger] present(opts.drop_last())[j]
                == opts[i]->0;
        match opts.last() {
            Some(p) => {
                assert(present(opts) == present(opts.drop_last()).push(p));
                assert(present(opts)[j] == present(opts.drop_last())[j]);
            },
            None => {
                assert(present(opts) == present(opts.drop_last()));
            },
        }
        assert(0 <= j < present(opts).len() && present(opts)[j] == opts[i]->0);
    } else {
        let k = present(opts.drop_last()).len() as int;
        assert(present(opts)[k] == opts[i]->0);
    }
}

/// When no option is present, there is no parameter.
proof fn lemma_present_none(opts: Seq<Option<Seq<char>>>)
    requires
        forall|i: int| 0 <= i < opts.len() ==> #[trigger] opts[i] is None,
    ensures
        present(opts).len() == 0,
    decreases opts.len(),
{
    if opts.len() > 0 {
        assert(opts.last() is None);
        lemma_present_none(opts.drop_last());
    }
}

/// Law: a path with the query string of some optional parameters starts with
/// the path, is the bare path when none is present, and holds each present
/// parameter.
pub proof fn lemma_query_of_options(path: Seq<char>, opts: Seq<Option<Seq<char>>>)
    ensures
        path.len() <= with_query(path, present(opts)).len(),
        with_query(path, present(opts)).subrange(0, path.len() as int) == path,
        (forall|i: int| 0 <= i < opts.len() ==> #[trigger] opts[i] is None) ==> with_query(
            path,
            present(opts),
        ) == path,
        forall|i: int|
            0 <= i < opts.len() && #[trigger] opts[i] is Some ==> holds_text(
                with_query(path, present(opts)),
                opts[i]->0,
            ),
{
    broadcast use lemma_holds_text_self, lemma_holds_text_concat;

    let params = present(opts);
    let q = with_query(path, params);
    if params.len() > 0 {
        assert(q.subrange(0, path.len() as int) =~= path);
    } else {
        assert(q.subrange(0, path.len() as int) =~= path);
    }
    if forall|i: int| 0 <= i < opts.len() ==> #[trigger] opts[i] is None {
        lemma_present_none(opts);
    }
    assert forall|i: int| 0 <= i < opts.len() && #[trigger] opts[i] is Some implies holds_text(
        q,
        opts[i]->0,
    ) by {
        lemma_present_keeps(opts, i);
        let j = choose|j: int| 0 <= j < params.len() && #[trigger] params[j] == opts[i]->0;
        lemma_join_params_holds_each(params, j);
    }
}

} // verus!
