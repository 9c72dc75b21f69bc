//! Text-to-speech: the paths of the four synthesis endpoints.

use vstd::prelude::*;

use crate::query;
use crate::types::OutputFormat;

verus! {

pub open spec fn format_param(output_format: Option<OutputFormat>) -> Option<Seq<char>> {
    match output_format {
        Some(f) => Some(query::param_text("output_format"@, f.wire())),
        None => None,
    }
}

/// `/v1/text-to-speech/{voice_id}{suffix}` with `output_format` and
/// `optimize_streaming_latency` when given, in that order.
pub open spec fn build_path_spec(
    voice_id: Seq<char>,
    suffix: Seq<char>,
    output_format: Option<OutputFormat>,
    optimize_streaming_latency: Option<u8>,
) -> Seq<char> {
    query::with_query(
        "/v1/text-to-speech/"@ + voice_id + suffix,
        query::present(
            seq![
                format_param(output_format),
                query::opt_param(
                    "optimize_streaming_latency"@,
                    query::opt_decimal(
                        match optimize_streaming_latency {
                            Some(l) => Some(l as u64),
                            None => None,
                        },
                    ),
                ),
            ],
        ),
    )
}

/// Law: a synthesis path starts with `/v1/text-to-speech/{voice_id}{suffix}`,
/// is exactly that when no option is given, and carries
/// `output_format=<wire name>` and `optimize_streaming_latency=<decimal>` for
/// the options given.
pub proof fn lemma_build_path_carries_options(voice_id: Seq<char>,
    suffix: Seq<char>,
    output_format: Option<OutputFormat>,
    optimize_streaming_latency: Option<u8>,)
    ensures
        ({
            let p = build_path_spec(voice_id, suffix, output_format, optimize_streaming_latency);
            let base = "/v1/text-to-speech/"@ + voice_id + suffix;
            &&& base.len() <= p.len() && p.subrange(0, base.len() as int) == base
            &&& output_format is None && optimize_streaming_latency is None ==> p == base
            &&& output_format matches Some(f) ==> query::holds_text(p, "output_format"@ + "="@ + f.wire())
            &&& optimize_streaming_latency matches Some(l) ==> query::holds_text(
                p,
                "optimize_streaming_latency"@ + "="@ + crate::text::decimal_text(l as nat),
            )
        }),
{
    let opts = seq![
        format_param(output_format),
        query::opt_param(
            "optimize_streaming_latency"@,
            query::opt_decimal(
                match optimize_streaming_latency {
                    Some(l) => Some(l as u64),
                    None => None,
                },
            ),
        ),
    ];
    query::lemma_query_of_options("/v1/text-to-speech/"@ + voice_id + suffix, opts);
    assert(opts[0] is Some || opts[0] is None);
    assert(opts[1] is Some || opts[1] is None);
}

fn format_param_string(output_format: Option<OutputFormat>) -> (r: Option<String>)
    ensures
        query::opt_view(r) == format_param(output_format),
{
    match output_format {
        Some(f) => Some(query::param("output_format", f.as_str())),
        None => None,
    }
}

/// The path of a synthesis request for a voice; `suffix` selects the
/// endpoint (``, `/with-timestamps`, `/stream`, `/stream/with-timestamps`).
pub fn build_path(
    voice_id: &str,
    suffix: &str,
    output_format: Option<OutputFormat>,
    optimize_streaming_latency: Option<u8>,
) -> (p: String)
    ensures
        p@ == build_path_spec(voice_id@, suffix@, output_format, optimize_streaming_latency),
{
    let mut base = "/v1/text-to-speech/".to_owned();
    base.append(voice_id);
    base.append(suffix);
    let latency: Option<u64> = match optimize_streaming_latency {
        Some(l) => Some(l as u64),
        None => None,
    };
    let opts = vec![
        format_param_string(output_format),
        query::opt_number_param("optimize_streaming_latency", latency),
    ];
    assert(query::opt_views(opts@) =~= seq![
        format_param(output_format),
        query::opt_param(
            "optimize_streaming_latency"@,
            query::opt_decimal(
                match optimize_streaming_latency {
                    Some(l) => Some(l as u64),
                    None => None,
                },
            ),
        ),
    ]);
    let params = query::collect_present(opts);
    query::path_with_query(base.as_str(), &params)
}

} // verus!
