//! User usage statistics: the path of `GET /v1/usage/character-stats`.

use vstd::prelude::*;

use crate::query;
use crate::text;

verus! {

/// `/v1/usage/character-stats?start_unix=..&end_unix=..`, then
/// `include_workspace_metrics=true` when asked for and `breakdown_type`
/// when given.
pub open spec fn character_usage_path_spec(
    start_unix: i64,
    end_unix: i64,
    include_workspace_metrics: Option<bool>,
    breakdown_type: Option<Seq<char>>,
) -> Seq<char> {
    query::with_query(
        "/v1/usage/character-stats"@,
        query::present(
            seq![
                Some(query::param_text("start_unix"@, text::signed_decimal_text(start_unix as int))),
                Some(query::param_text("end_unix"@, text::signed_decimal_text(end_unix as int))),
                if include_workspace_metrics == Some(true) {
                    Some(query::param_text("include_workspace_metrics"@, "true"@))
                } else {
                    None
                },
                query::opt_param("breakdown_type"@, breakdown_type),
            ],
        ),
    )
}

/// Law: the character usage path starts with `/v1/usage/character-stats`,
/// always carries `start_unix` and `end_unix` in decimal, carries
/// `include_workspace_metrics=true` when asked for, and `breakdown_type`
/// when given.
pub proof fn lemma_character_usage_path_carries_options(start_unix: i64,
    end_unix: i64,
    include_workspace_metrics: Option<bool>,
    breakdown_type: Option<Seq<char>>,)
    ensures
        ({
            let p = character_usage_path_spec(start_unix, end_unix, include_workspace_metrics, breakdown_type);
            let base = "/v1/usage/character-stats"@;
            &&& base.len() <= p.len() && p.subrange(0, base.len() as int) == base
            &&& query::holds_text(p, "start_unix"@ + "="@ + text::signed_decimal_text(start_unix as int))
            &&& query::holds_text(p, "end_unix"@ + "="@ + text::signed_decimal_text(end_unix as int))
            &&& include_workspace_metrics == Some(true) ==> query::holds_text(
                p,
                "include_workspace_metrics"@ + "="@ + "true"@,
            )
            &&& breakdown_type matches Some(t) ==> query::holds_text(p, "breakdown_type"@ + "="@ + t)
        }),
{
    let opts = seq![
        Some(query::param_text("start_unix"@, text::signed_decimal_text(start_unix as int))),
        Some(query::param_text("end_unix"@, text::signed_decimal_text(end_unix as int))),
        if include_workspace_metrics == Some(true) {
            Some(query::param_text("include_workspace_metrics"@, "true"@))
        } else {
            None
        },
        query::opt_param("breakdown_type"@, breakdown_type),
    ];
    query::lemma_query_of_options("/v1/usage/character-stats"@, opts);
    assert(opts[0] is Some || opts[0] is None);
    assert(opts[1] is Some || opts[1] is None);
    assert(opts[2] is Some || opts[2] is None);
    assert(opts[3] is Some || opts[3] is None);
}

/// The path that `get_character_usage` requests.
pub fn character_usage_path(
    start_unix: i64,
    end_unix: i64,
    include_workspace_metrics: Option<bool>,
    breakdown_type: Option<&str>,
) -> (p: String)
    ensures
        p@ == character_usage_path_spec(
            start_unix,
            end_unix,
            include_workspace_metrics,
            query::opt_str_view(breakdown_type),
        ),
{
    let start = text::signed_decimal_string(start_unix);
    let end = text::signed_decimal_string(end_unix);
    let metrics: Option<String> = match include_workspace_metrics {
        Some(true) => Some(query::param("include_workspace_metrics", "true")),
        _ => None,
    };
    let opts = vec![
        Some(query::param("start_unix", start.as_str())),
        Some(query::param("end_unix", end.as_str())),
        metrics,
        query::opt_param_string("breakdown_type", breakdown_type),
    ];
    assert(query::opt_views(opts@) =~= seq![
        Some(query::param_text("start_unix"@, text::signed_decimal_text(start_unix as int))),
        Some(query::param_text("end_unix"@, text::signed_decimal_text(end_unix as int))),
        if include_workspace_metrics == Some(true) {
            Some(query::param_text("include_workspace_metrics"@, "true"@))
        } else {
            None
        },
        query::opt_param("breakdown_type"@, query::opt_str_view(breakdown_type)),
    ]);
    let params = query::collect_present(opts);
    query::path_with_query("/v1/usage/character-stats", &params)
}

} // verus!
