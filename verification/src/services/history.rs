//! Speech history: the path of `GET /v1/history` with its query string.

use vstd::prelude::*;

use crate::query;

verus! {

/// `/v1/history` with `page_size`, `start_after_history_item_id` and
/// `voice_id`, each when given, in that order.
pub open spec fn list_path_spec(
    page_size: Option<u32>,
    start_after_history_item_id: Option<Seq<char>>,
    voice_id: Option<Seq<char>>,
) -> Seq<char> {
    query::with_query(
        "/v1/history"@,
        query::present(
            seq![
                query::opt_param(
                    "page_size"@,
                    query::opt_decimal(
                        match page_size {
                            Some(p) => Some(p as u64),
                            None => None,
                        },
                    ),
                ),
                query::opt_param("start_after_history_item_id"@, start_after_history_item_id),
                query::opt_param("voice_id"@, voice_id),
            ],
        ),
    )
}

/// Law: the history list path is `/v1/history` without options, and carries
/// `page_size`, `start_after_history_item_id` and `voice_id` for the options
/// given.
pub proof fn lemma_list_path_carries_options(page_size: Option<u32>,
    start_after_history_item_id: Option<Seq<char>>,
    voice_id: Option<Seq<char>>,)
    ensures
        ({
            let p = list_path_spec(page_size, start_after_history_item_id, voice_id);
            let base = "/v1/history"@;
            &&& base.len() <= p.len() && p.subrange(0, base.len() as int) == base
            &&& page_size is None && start_after_history_item_id is None && voice_id is None ==> p == base
            &&& page_size matches Some(n) ==> query::holds_text(
                p,
                "page_size"@ + "="@ + crate::text::decimal_text(n as nat),
            )
            &&& start_after_history_item_id matches Some(c) ==> query::holds_text(
                p,
                "start_after_history_item_id"@ + "="@ + c,
            )
            &&& voice_id matches Some(v) ==> query::holds_text(p, "voice_id"@ + "="@ + v)
        }),
{
    let opts = seq![
        query::opt_param(
            "page_size"@,
            query::opt_decimal(
                match page_size {
                    Some(p) => Some(p as u64),
                    None => None,
                },
            ),
        ),
        query::opt_param("start_after_history_item_id"@, start_after_history_item_id),
        query::opt_param("voice_id"@, voice_id),
    ];
    query::lemma_query_of_options("/v1/history"@, opts);
    assert(opts[0] is Some || opts[0] is None);
    assert(opts[1] is Some || opts[1] is None);
    assert(opts[2] is Some || opts[2] is None);
}

/// The path that `list` requests.
pub fn list_path(
    page_size: Option<u32>,
    start_after_history_item_id: Option<&str>,
    voice_id: Option<&str>,
) -> (p: String)
    ensures
        p@ == list_path_spec(
            page_size,
            query::opt_str_view(start_after_history_item_id),
            query::opt_str_view(voice_id),
        ),
{
    let wide: Option<u64> = match page_size {
        Some(p) => Some(p as u64),
        None => None,
    };
    let opts = vec![
        query::opt_number_param("page_size", wide),
        query::opt_param_string("start_after_history_item_id", start_after_history_item_id),
        query::opt_param_string("voice_id", voice_id),
    ];
    assert(query::opt_views(opts@) =~= seq![
        query::opt_param(
            "page_size"@,
            query::opt_decimal(
                match page_size {
                    Some(p) => Some(p as u64),
                    None => None,
                },
            ),
        ),
        query::opt_param(
            "start_after_history_item_id"@,
            query::opt_str_view(start_after_history_item_id),
        ),
        query::opt_param("voice_id"@, query::opt_str_view(voice_id)),
    ]);
    let params = query::collect_present(opts);
    query::path_with_query("/v1/history", &params)
}

} // verus!
