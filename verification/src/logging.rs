//! Which telemetry is exported, and the filter directives for the logs.

use vstd::prelude::*;
use crate::text::{join, join_seq, views};

verus! {

/// Is an endpoint setting present and not empty?
pub open spec fn endpoint_set(v: Option<Seq<char>>) -> bool {
    v matches Some(s) && s.len() > 0
}

/// Is trace export to an OTLP endpoint wanted? It is when
/// `OTEL_EXPORTER_OTLP_TRACES_ENDPOINT` or `OTEL_EXPORTER_OTLP_ENDPOINT` is set to something
/// not empty; the two settings are passed in, `None` where unset.
pub fn otlp_tracing_enabled(traces_endpoint: Option<String>, endpoint: Option<String>) -> (r: bool)
    ensures
        r == (endpoint_set(crate::json::opt_text(traces_endpoint)) || endpoint_set(
            crate::json::opt_text(endpoint),
        )),
{
    let a = match &traces_endpoint {
        Some(s) => !s.as_str().is_empty(),
        None => false,
    };
    let b = match &endpoint {
        Some(s) => !s.as_str().is_empty(),
        None => false,
    };
    a || b
}

/// The log filter directives: `RUST_LOG`, or the default level; then the noisy modules
/// quietened, `ssh` too unless debugging, and the database too unless debugging it.
pub open spec fn logging_directive_list(debug: bool, db_debug: bool, rust_log: Option<Seq<char>>) -> Seq<Seq<char>> {
    seq![
        match rust_log {
            Some(s) => s,
            None => if debug {
                "debug"@
            } else {
                "info"@
            },
        },
        "ssh::channel::local::channel=warn"@,
        "h2=warn"@,
        "tower_http::trace::on_request=warn"@,
        "tower_http::trace::on_response=warn"@,
        "tracing::span=warn"@,
    ] + (if !debug {
        seq!["ssh=warn"@]
    } else {
        Seq::empty()
    }) + (if !db_debug {
        seq!["sea_orm::driver::sqlx_sqlite=error"@, "sqlx::query=warn"@]
    } else {
        Seq::empty()
    })
}

/// The log filter directives joined by commas; see [`logging_directive_list`].
pub fn logging_directives(debug: bool, db_debug: bool, rust_log: Option<String>) -> (r: String)
    ensures
        r@ == join_seq(
            logging_directive_list(debug, db_debug, crate::json::opt_text(rust_log)),
            ","@,
        ),
{
    let mut d: Vec<String> = Vec::new();
    match rust_log {
        Some(s) => d.push(s),
        None => if debug {
            d.push("debug".to_owned());
        } else {
            d.push("info".to_owned());
        },
    }
    d.push("ssh::channel::local::channel=warn".to_owned());
    d.push("h2=warn".to_owned());
    d.push("tower_http::trace::on_request=warn".to_owned());
    d.push("tower_http::trace::on_response=warn".to_owned());
    d.push("tracing::span=warn".to_owned());
    if !debug {
        d.push("ssh=warn".to_owned());
    }
    if !db_debug {
        d.push("sea_orm::driver::sqlx_sqlite=error".to_owned());
        d.push("sqlx::query=warn".to_owned());
    }
    proof {
        assert(views(d@) =~= logging_directive_list(debug, db_debug, crate::json::opt_text(rust_log)));
    }
    join(&d, ",")
}

} // verus!
