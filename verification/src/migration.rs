//! What a strategy deployment to the live executor is made of: its identity, the ids of
//! its compile and of its migration package, the fields its signature covers, and how
//! the executor's answer is read.
use vstd::prelude::*;
use crate::events::push_entry;
use crate::json::{entries_model, json_get_str, json_str, json_u64, Json, JsonValue};
use crate::text::{cat, cat3, dec, owned, u64_text};

verus! {

/// The name and graph id a deployment uses: those of the graph's metadata, or defaults.
pub open spec fn deploy_identity(graph: Json) -> (Seq<char>, Seq<char>) {
    let meta = crate::json::json_get(graph, "metadata"@);
    let name = match meta {
        Some(m) => match json_get_str(m, "name"@) {
            Some(n) => n,
            None => "未命名策略"@,
        },
        None => "未命名策略"@,
    };
    let graph_id = match meta {
        Some(m) => match json_get_str(m, "graph_id"@) {
            Some(g) => g,
            None => "unknown"@,
        },
        None => "unknown"@,
    };
    (name, graph_id)
}

/// The name and graph id a deployment uses.
pub fn deploy_strategy_identity(graph_json: &JsonValue) -> (r: (String, String))
    ensures
        (r.0@, r.1@) == deploy_identity(graph_json@),
{
    match crate::json::json_get_exec(graph_json, "metadata") {
        Some(m) => {
            let name = match crate::json::json_get_str_exec(m, "name") {
                Some(n) => n,
                None => owned("未命名策略"),
            };
            let graph_id = match crate::json::json_get_str_exec(m, "graph_id") {
                Some(g) => g,
                None => owned("unknown"),
            };
            (name, graph_id)
        },
        None => (owned("未命名策略"), owned("unknown")),
    }
}

/// At most the first `n` characters of a text.
pub open spec fn first_chars(s: Seq<char>, n: nat) -> Seq<char> {
    if s.len() <= n {
        s
    } else {
        s.take(n as int)
    }
}

fn first_chars_exec(s: &str, n: usize) -> (r: String)
    ensures
        r@ == first_chars(s@, n as nat),
{
    let m = s.unicode_len();
    if m <= n {
        owned(s)
    } else {
        let t = s.substring_char(0, n);
        assert(t@ =~= s@.take(n as int));
        owned(t)
    }
}

/// The compile id of a deployment: the graph id and the first eight characters of the
/// compiled configuration's hash.
pub fn deploy_compile_id(graph_id: &str, config_hash: &str) -> (r: String)
    ensures
        r@ == graph_id@ + "_"@ + first_chars(config_hash@, 8),
{
    cat3(graph_id, "_", first_chars_exec(config_hash, 8).as_str())
}

/// The strategy id of a migration package: `exec-` and the first twelve characters of
/// the compile id.
pub fn migration_strategy_id(compile_id: &str) -> (r: String)
    ensures
        r@ == "exec-"@ + first_chars(compile_id@, 12),
{
    cat("exec-", first_chars_exec(compile_id, 12).as_str())
}

/// The fields a migration package's signature covers, keyed in order.
pub open spec fn signature_fields(
    strategy_id: Seq<char>,
    name: Seq<char>,
    compile_id: Seq<char>,
    migrated_at_ms: u64,
    core_ir_hash: Seq<char>,
    qs_source_hash: Seq<char>,
    graph_json_hash: Seq<char>,
    params_snapshot_hash: Seq<char>,
) -> Json {
    Json::Object(seq![
        ("compile_id"@, Json::Str(compile_id)),
        ("core_ir_hash"@, Json::Str(core_ir_hash)),
        ("graph_json_hash"@, Json::Str(graph_json_hash)),
        ("migrated_at_ms"@, Json::Number(dec(migrated_at_ms as nat))),
        ("name"@, Json::Str(name)),
        ("params_snapshot_hash"@, Json::Str(params_snapshot_hash)),
        ("qs_source_hash"@, Json::Str(qs_source_hash)),
        ("strategy_id"@, Json::Str(strategy_id)),
    ])
}

/// The document whose digest signs a migration package.
pub fn migration_signature_payload(
    strategy_id: &str,
    name: &str,
    compile_id: &str,
    migrated_at_ms: u64,
    core_ir_hash: &str,
    qs_source_hash: &str,
    graph_json_hash: &str,
    params_snapshot_hash: &str,
) -> (r: JsonValue)
    ensures
        r@ == signature_fields(
            strategy_id@,
            name@,
            compile_id@,
            migrated_at_ms,
            core_ir_hash@,
            qs_source_hash@,
            graph_json_hash@,
            params_snapshot_hash@,
        ),
{
    let mut e: Vec<(String, JsonValue)> = Vec::new();
    push_entry(&mut e, "compile_id", json_str(compile_id));
    push_entry(&mut e, "core_ir_hash", json_str(core_ir_hash));
    push_entry(&mut e, "graph_json_hash", json_str(graph_json_hash));
    push_entry(&mut e, "migrated_at_ms", json_u64(migrated_at_ms));
    push_entry(&mut e, "name", json_str(name));
    push_entry(&mut e, "params_snapshot_hash", json_str(params_snapshot_hash));
    push_entry(&mut e, "qs_source_hash", json_str(qs_source_hash));
    push_entry(&mut e, "strategy_id", json_str(strategy_id));
    assert(entries_model(e@) =~= seq![
        ("compile_id"@, Json::Str(compile_id@)),
        ("core_ir_hash"@, Json::Str(core_ir_hash@)),
        ("graph_json_hash"@, Json::Str(graph_json_hash@)),
        ("migrated_at_ms"@, Json::Number(dec(migrated_at_ms as nat))),
        ("name"@, Json::Str(name@)),
        ("params_snapshot_hash"@, Json::Str(params_snapshot_hash@)),
        ("qs_source_hash"@, Json::Str(qs_source_hash@)),
        ("strategy_id"@, Json::Str(strategy_id@)),
    ]);
    JsonValue::Object(e)
}

/// How the executor's answer to a deployment is read: a status other than 200 is an
/// error that quotes the status and the body; else the strategy id of the answer, `?`
/// when it has none.
pub fn executor_deploy_outcome(status: u16, body_text: &str, body: Option<&JsonValue>) -> (r: Result<String, String>)
    ensures
        status != 200 ==> r is Err && r->Err_0@ == "执行端返回错误 ("@ + dec(status as nat) + "): "@ + body_text@,
        status == 200 ==> r is Ok && r->Ok_0@ == match body {
            Some(b) => match json_get_str(b@, "strategy_id"@) {
                Some(s) => s,
                None => "?"@,
            },
            None => "?"@,
        },
{
    if status != 200 {
        return Err(cat(cat3("执行端返回错误 (", u64_text(status as u64).as_str(), "): ").as_str(), body_text));
    }
    match body {
        Some(b) => match crate::json::json_get_str_exec(b, "strategy_id") {
            Some(s) => Ok(s),
            None => Ok(owned("?")),
        },
        None => Ok(owned("?")),
    }
}

/// The answer to a successful deployment.
pub fn deploy_response(strategy_id: &str) -> (r: JsonValue)
    ensures
        r@ == Json::Object(seq![
            ("message"@, Json::Str("策略已部署到实时执行端"@)),
            ("status"@, Json::Str("deployed"@)),
            ("strategy_id"@, Json::Str(strategy_id@)),
        ]),
{
    let mut e: Vec<(String, JsonValue)> = Vec::new();
    push_entry(&mut e, "message", json_str("策略已部署到实时执行端"));
    push_entry(&mut e, "status", json_str("deployed"));
    push_entry(&mut e, "strategy_id", json_str(strategy_id));
    assert(entries_model(e@) =~= seq![
        ("message"@, Json::Str("策略已部署到实时执行端"@)),
        ("status"@, Json::Str("deployed"@)),
        ("strategy_id"@, Json::Str(strategy_id@)),
    ]);
    JsonValue::Object(e)
}

} // verus!
