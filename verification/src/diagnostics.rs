//! Per-node diagnostics of a run's events, as the runtime console shows them: for each
//! node, its latest event, the rows of fields that event carries, and its recent events.
use vstd::prelude::*;
use crate::events::FrontendRuntimeEvent;
use crate::json::{json_get, json_is_void, Json, JsonValue};
use crate::json_text::json_text;
use crate::text::{owned, push_char, str_eq};

verus! {

broadcast use vstd::std_specs::vec::group_vec_axioms;

/// One labelled field of a diagnostics panel.
#[derive(Clone, Debug)]
pub struct RuntimeDiagnosticsFieldRow {
    pub key: String,
    pub label: String,
    pub value: String,
}

/// A row as plain values: key, label, shown value.
pub type RowModel = (Seq<char>, Seq<char>, Seq<char>);

pub open spec fn row_model(r: RuntimeDiagnosticsFieldRow) -> RowModel {
    (r.key@, r.label@, r.value@)
}

pub open spec fn rows_model(v: Seq<RuntimeDiagnosticsFieldRow>) -> Seq<RowModel> {
    v.map_values(|r: RuntimeDiagnosticsFieldRow| row_model(r))
}

pub open spec fn strs_model(v: Seq<&str>) -> Seq<Seq<char>> {
    v.map_values(|s: &str| s@)
}

/// The console label of an event type.
pub open spec fn event_label_of(t: Seq<char>) -> Seq<char> {
    if t == "DataUpdated"@ {
        "数据更新"@
    } else if t == "IntentTriggered"@ {
        "意图触发"@
    } else if t == "IntentEvaluated"@ {
        "意图评估"@
    } else if t == "AgentDecisionProduced"@ {
        "代理决策"@
    } else if t == "RiskDecisionProduced"@ {
        "风控决策"@
    } else if t == "ExecutionPlanned"@ {
        "执行计划"@
    } else if t == "ExecutionFilled"@ {
        "执行成交"@
    } else if t == "PortfolioUpdated"@ {
        "组合更新"@
    } else if t == "RuntimeNotice"@ {
        "运行提示"@
    } else if t == "RuntimeWarning"@ {
        "运行告警"@
    } else if t == "RuntimeError"@ {
        "运行错误"@
    } else {
        "运行事件"@
    }
}

/// The console label of an event type.
pub fn event_label(t: &str) -> (r: &'static str)
    ensures
        r@ == event_label_of(t@),
{
    if str_eq(t, "DataUpdated") {
        "数据更新"
    } else if str_eq(t, "IntentTriggered") {
        "意图触发"
    } else if str_eq(t, "IntentEvaluated") {
        "意图评估"
    } else if str_eq(t, "AgentDecisionProduced") {
        "代理决策"
    } else if str_eq(t, "RiskDecisionProduced") {
        "风控决策"
    } else if str_eq(t, "ExecutionPlanned") {
        "执行计划"
    } else if str_eq(t, "ExecutionFilled") {
        "执行成交"
    } else if str_eq(t, "PortfolioUpdated") {
        "组合更新"
    } else if str_eq(t, "RuntimeNotice") {
        "运行提示"
    } else if str_eq(t, "RuntimeWarning") {
        "运行告警"
    } else if str_eq(t, "RuntimeError") {
        "运行错误"
    } else {
        "运行事件"
    }
}

/// The console label of a payload field; unknown fields are shown by their key.
pub open spec fn field_label_of(key: Seq<char>) -> Seq<char> {
    if key == "ask_price"@ {
        "卖一价"@
    } else if key == "bid_price"@ {
        "买一价"@
    } else if key == "confidence"@ {
        "置信度"@
    } else if key == "endpoint"@ {
        "数据端点"@
    } else if key == "error"@ {
        "错误"@
    } else if key == "exec_status"@ {
        "执行状态"@
    } else if key == "freshness_ms"@ {
        "新鲜度（毫秒）"@
    } else if key == "gap_count"@ {
        "缺口数量"@
    } else if key == "kind"@ {
        "意图类型"@
    } else if key == "latest_bar_time"@ {
        "最新 K 线时间"@
    } else if key == "latest_price"@ {
        "最新价格"@
    } else if key == "limit_price"@ {
        "限价"@
    } else if key == "limit_triggered"@ {
        "触发限制"@
    } else if key == "lifecycle_stage"@ {
        "生命周期"@
    } else if key == "net_side"@ {
        "决策方向"@
    } else if key == "net_strength"@ {
        "决策强度"@
    } else if key == "order_count"@ {
        "订单数量"@
    } else if key == "order_id"@ {
        "订单 ID"@
    } else if key == "order_type"@ {
        "订单类型"@
    } else if key == "order_type_decision_reason"@ {
        "下单语义"@
    } else if key == "portfolio_net_exposure_ratio"@ {
        "组合净敞口"@
    } else if key == "concentration_ratio"@ {
        "集中度"@
    } else if key == "ping_error"@ {
        "Ping 错误"@
    } else if key == "ping_latency_ms"@ {
        "探测延迟（毫秒）"@
    } else if key == "price"@ {
        "成交价格"@
    } else if key == "qty"@ {
        "数量"@
    } else if key == "quality_flags"@ {
        "质量标记"@
    } else if key == "reason_text"@ {
        "原因"@
    } else if key == "remaining_qty"@ {
        "剩余数量"@
    } else if key == "risk_score"@ {
        "风控评分"@
    } else if key == "score"@ {
        "评分"@
    } else if key == "side"@ {
        "方向"@
    } else if key == "signal_direction"@ {
        "信号方向"@
    } else if key == "signal_strength"@ {
        "信号强度"@
    } else if key == "sizing_mode"@ {
        "定量模式"@
    } else if key == "sizing_source"@ {
        "定量来源"@
    } else if key == "source_health"@ {
        "源健康度"@
    } else if key == "source_latency_ms"@ {
        "源延迟（毫秒）"@
    } else if key == "source_status"@ {
        "源状态"@
    } else if key == "symbol_net_exposure_ratio"@ {
        "单标的净敞口"@
    } else if key == "stale_after_ms"@ {
        "过期阈值（毫秒）"@
    } else if key == "status"@ {
        "状态"@
    } else if key == "strength"@ {
        "强度"@
    } else if key == "time_in_force"@ {
        "有效期"@
    } else if key == "fallback"@ {
        "回退路径"@
    } else {
        key
    }
}

/// The console label of a payload field.
pub fn field_label(key: &str) -> (r: String)
    ensures
        r@ == field_label_of(key@),
{
    if str_eq(key, "ask_price") {
        owned("卖一价")
    } else if str_eq(key, "bid_price") {
        owned("买一价")
    } else if str_eq(key, "confidence") {
        owned("置信度")
    } else if str_eq(key, "endpoint") {
        owned("数据端点")
    } else if str_eq(key, "error") {
        owned("错误")
    } else if str_eq(key, "exec_status") {
        owned("执行状态")
    } else if str_eq(key, "freshness_ms") {
        owned("新鲜度（毫秒）")
    } else if str_eq(key, "gap_count") {
        owned("缺口数量")
    } else if str_eq(key, "kind") {
        owned("意图类型")
    } else if str_eq(key, "latest_bar_time") {
        owned("最新 K 线时间")
    } else if str_eq(key, "latest_price") {
        owned("最新价格")
    } else if str_eq(key, "limit_price") {
        owned("限价")
    } else if str_eq(key, "limit_triggered") {
        owned("触发限制")
    } else if str_eq(key, "lifecycle_stage") {
        owned("生命周期")
    } else if str_eq(key, "net_side") {
        owned("决策方向")
    } else if str_eq(key, "net_strength") {
        owned("决策强度")
    } else if str_eq(key, "order_count") {
        owned("订单数量")
    } else if str_eq(key, "order_id") {
        owned("订单 ID")
    } else if str_eq(key, "order_type") {
        owned("订单类型")
    } else if str_eq(key, "order_type_decision_reason") {
        owned("下单语义")
    } else if str_eq(key, "portfolio_net_exposure_ratio") {
        owned("组合净敞口")
    } else if str_eq(key, "concentration_ratio") {
        owned("集中度")
    } else if str_eq(key, "ping_error") {
        owned("Ping 错误")
    } else if str_eq(key, "ping_latency_ms") {
        owned("探测延迟（毫秒）")
    } else if str_eq(key, "price") {
        owned("成交价格")
    } else if str_eq(key, "qty") {
        owned("数量")
    } else if str_eq(key, "quality_flags") {
        owned("质量标记")
    } else if str_eq(key, "reason_text") {
        owned("原因")
    } else if str_eq(key, "remaining_qty") {
        owned("剩余数量")
    } else if str_eq(key, "risk_score") {
        owned("风控评分")
    } else if str_eq(key, "score") {
        owned("评分")
    } else if str_eq(key, "side") {
        owned("方向")
    } else if str_eq(key, "signal_direction") {
        owned("信号方向")
    } else if str_eq(key, "signal_strength") {
        owned("信号强度")
    } else if str_eq(key, "sizing_mode") {
        owned("定量模式")
    } else if str_eq(key, "sizing_source") {
        owned("定量来源")
    } else if str_eq(key, "source_health") {
        owned("源健康度")
    } else if str_eq(key, "source_latency_ms") {
        owned("源延迟（毫秒）")
    } else if str_eq(key, "source_status") {
        owned("源状态")
    } else if str_eq(key, "symbol_net_exposure_ratio") {
        owned("单标的净敞口")
    } else if str_eq(key, "stale_after_ms") {
        owned("过期阈值（毫秒）")
    } else if str_eq(key, "status") {
        owned("状态")
    } else if str_eq(key, "strength") {
        owned("强度")
    } else if str_eq(key, "time_in_force") {
        owned("有效期")
    } else if str_eq(key, "fallback") {
        owned("回退路径")
    } else {
        owned(key)
    }
}

/// The payload fields that show what an event of this type took in.
pub open spec fn input_field_list(t: Seq<char>) -> Seq<Seq<char>> {
    if t == "DataUpdated"@ {
        seq!["latest_price"@, "latest_bar_time"@, "source_status"@, "source_health"@, "source_latency_ms"@, "freshness_ms"@, "stale_after_ms"@, "gap_count"@]
    } else if t == "IntentTriggered"@ {
        seq!["signal_direction"@, "signal_strength"@, "confidence"@]
    } else if t == "IntentEvaluated"@ {
        seq!["kind"@, "strength"@, "confidence"@]
    } else if t == "AgentDecisionProduced"@ {
        seq!["net_side"@, "net_strength"@, "score"@]
    } else if t == "RiskDecisionProduced"@ {
        seq!["status"@, "risk_score"@]
    } else if t == "ExecutionPlanned"@ {
        seq!["side"@, "qty"@, "limit_price"@, "remaining_qty"@]
    } else if t == "ExecutionFilled"@ {
        seq!["side"@, "qty"@, "price"@, "exec_status"@]
    } else if t == "RuntimeWarning"@ || t == "RuntimeError"@ {
        seq!["source_health"@, "source_status"@, "freshness_ms"@, "source_latency_ms"@, "gap_count"@, "quality_flags"@]
    } else {
        seq![]
    }
}

/// The payload fields that show what an event of this type took in.
pub fn input_fields(t: &str) -> (r: Vec<&'static str>)
    ensures
        strs_model(r@) == input_field_list(t@),
{
    let r =
    if str_eq(t, "DataUpdated") {
        vec!["latest_price", "latest_bar_time", "source_status", "source_health", "source_latency_ms", "freshness_ms", "stale_after_ms", "gap_count"]
    } else if str_eq(t, "IntentTriggered") {
        vec!["signal_direction", "signal_strength", "confidence"]
    } else if str_eq(t, "IntentEvaluated") {
        vec!["kind", "strength", "confidence"]
    } else if str_eq(t, "AgentDecisionProduced") {
        vec!["net_side", "net_strength", "score"]
    } else if str_eq(t, "RiskDecisionProduced") {
        vec!["status", "risk_score"]
    } else if str_eq(t, "ExecutionPlanned") {
        vec!["side", "qty", "limit_price", "remaining_qty"]
    } else if str_eq(t, "ExecutionFilled") {
        vec!["side", "qty", "price", "exec_status"]
    } else if str_eq(t, "RuntimeWarning") || str_eq(t, "RuntimeError") {
        vec!["source_health", "source_status", "freshness_ms", "source_latency_ms", "gap_count", "quality_flags"]
    } else {
        vec![]
    };
    assert(strs_model(r@) =~= input_field_list(t@));
    r
}

/// The payload fields that show what an event of this type produced.
pub open spec fn output_field_list(t: Seq<char>) -> Seq<Seq<char>> {
    if t == "DataUpdated"@ {
        seq!["latest_price"@, "source_health"@, "source_status"@, "gap_count"@]
    } else if t == "IntentTriggered"@ {
        seq!["signal_direction"@, "signal_strength"@]
    } else if t == "IntentEvaluated"@ {
        seq!["kind"@, "strength"@]
    } else if t == "AgentDecisionProduced"@ {
        seq!["net_side"@, "score"@]
    } else if t == "RiskDecisionProduced"@ {
        seq!["status"@, "risk_score"@]
    } else if t == "ExecutionPlanned"@ {
        seq!["exec_status"@, "order_id"@, "remaining_qty"@]
    } else if t == "ExecutionFilled"@ {
        seq!["exec_status"@, "order_id"@, "price"@, "qty"@]
    } else if t == "RuntimeWarning"@ || t == "RuntimeError"@ {
        seq!["source_health"@, "source_status"@, "freshness_ms"@, "gap_count"@]
    } else {
        seq![]
    }
}

/// The payload fields that show what an event of this type produced.
pub fn output_fields(t: &str) -> (r: Vec<&'static str>)
    ensures
        strs_model(r@) == output_field_list(t@),
{
    let r =
    if str_eq(t, "DataUpdated") {
        vec!["latest_price", "source_health", "source_status", "gap_count"]
    } else if str_eq(t, "IntentTriggered") {
        vec!["signal_direction", "signal_strength"]
    } else if str_eq(t, "IntentEvaluated") {
        vec!["kind", "strength"]
    } else if str_eq(t, "AgentDecisionProduced") {
        vec!["net_side", "score"]
    } else if str_eq(t, "RiskDecisionProduced") {
        vec!["status", "risk_score"]
    } else if str_eq(t, "ExecutionPlanned") {
        vec!["exec_status", "order_id", "remaining_qty"]
    } else if str_eq(t, "ExecutionFilled") {
        vec!["exec_status", "order_id", "price", "qty"]
    } else if str_eq(t, "RuntimeWarning") || str_eq(t, "RuntimeError") {
        vec!["source_health", "source_status", "freshness_ms", "gap_count"]
    } else {
        vec![]
    };
    assert(strs_model(r@) =~= output_field_list(t@));
    r
}

/// The tone a severity is shown in.
pub open spec fn tone_of(severity: Seq<char>) -> Seq<char> {
    if severity == "Error"@ || severity == "error"@ {
        "danger"@
    } else if severity == "Warn"@ || severity == "Warning"@ || severity == "warning"@ {
        "warning"@
    } else {
        "info"@
    }
}

/// The tone a severity is shown in.
pub fn severity_tone(severity: &str) -> (r: &'static str)
    ensures
        r@ == tone_of(severity@),
{
    if str_eq(severity, "Error") || str_eq(severity, "error") {
        "danger"
    } else if str_eq(severity, "Warn") || str_eq(severity, "Warning") || str_eq(severity, "warning") {
        "warning"
    } else {
        "info"
    }
}

/// How a payload value is shown: `-` for null and the empty string, yes or no for a
/// flag, numbers and strings as written, arrays as their shown items joined by `, `, and
/// objects as their JSON text.
pub open spec fn format_text(v: Json) -> Seq<char>
    decreases v, 1int,
{
    match v {
        Json::Null => "-"@,
        Json::Bool(b) => if b {
            "是"@
        } else {
            "否"@
        },
        Json::Number(n) => n,
        Json::Str(s) => if s.len() == 0 {
            "-"@
        } else {
            s
        },
        Json::Array(items) => format_items(items),
        Json::Object(_) => json_text(v),
    }
}

/// The shown items of an array, joined by `, `.
pub open spec fn format_items(items: Seq<Json>) -> Seq<char>
    decreases items, 0int,
{
    if items.len() == 0 {
        Seq::empty()
    } else if items.len() == 1 {
        format_text(items[0])
    } else {
        format_items(items.drop_last()) + ", "@ + format_text(items.last())
    }
}

fn append_str(out: &mut String, s: &str)
    ensures
        final(out)@ == old(out)@ + s@,
{
    out.append(s);
}

/// How a payload value is shown.
pub fn format_value(v: &JsonValue) -> (r: String)
    ensures
        r@ == format_text(v@),
    decreases v,
{
    match v {
        JsonValue::Null => owned("-"),
        JsonValue::Bool(b) => if *b {
            owned("是")
        } else {
            owned("否")
        },
        JsonValue::Number(n) => owned(n.as_str()),
        JsonValue::Str(s) => if s.as_str().unicode_len() == 0 {
            owned("-")
        } else {
            owned(s.as_str())
        },
        JsonValue::Array(items) => {
            let mut out = String::new();
            let mut i: usize = 0;
            while i < items.len()
                invariant
                    *v == JsonValue::Array(*items),
                    i <= items@.len(),
                    out@ == format_items(crate::json::items_model(items@.subrange(0, i as int))),
                decreases items@.len() - i,
            {
                let ghost p = crate::json::items_model(items@.subrange(0, i as int));
                let ghost next = items@.subrange(0, i + 1);
                assert(next.drop_last() =~= items@.subrange(0, i as int));
                assert(next.last() == items@[i as int]);
                assert(crate::json::items_model(next) == p.push(crate::json::json_model(items@[i as int])));
                assert(p.push(crate::json::json_model(items@[i as int])).drop_last() =~= p);
                proof {
                    assert(decreases_to!(*items => items[i as int]));
                    assert(decreases_to!(*v => (*v)->Array_0));
                    assert(decreases_to!(*v => items[i as int]));
                }
                let item = format_value(&items[i]);
                if i > 0 {
                    append_str(&mut out, ", ");
                }
                append_str(&mut out, item.as_str());
                proof {
                    crate::json::lemma_items_model(items@.subrange(0, i as int));
                    assert(out@ =~= format_items(crate::json::items_model(next)));
                }
                i += 1;
            }
            assert(items@.subrange(0, items@.len() as int) =~= items@);
            out
        },
        JsonValue::Object(_) => crate::json_text::json_to_text(v),
    }
}

/// The row a field gives: its key, its label and its shown value.
pub open spec fn field_row(key: Seq<char>, v: Json) -> RowModel {
    (key, field_label_of(key), format_text(v))
}

/// The row of a field, none for a null or empty value.
pub open spec fn opt_field_row(key: Seq<char>, v: Json) -> Option<RowModel> {
    if json_is_void(v) {
        None
    } else {
        Some(field_row(key, v))
    }
}

/// The row of a field, none for a null or empty value.
pub fn diagnostics_row(key: &str, value: &JsonValue) -> (r: Option<RuntimeDiagnosticsFieldRow>)
    ensures
        match r {
            Some(x) => opt_field_row(key@, value@) == Some(row_model(x)),
            None => opt_field_row(key@, value@).is_none(),
        },
{
    if crate::json::json_is_void_exec(value) {
        None
    } else {
        Some(RuntimeDiagnosticsFieldRow { key: owned(key), label: field_label(key), value: format_value(value) })
    }
}

/// The rows of the fields under `keys`, in that order, for the fields that are present
/// and neither null nor empty.
pub open spec fn keyed_rows(p: Json, keys: Seq<Seq<char>>) -> Seq<RowModel>
    decreases keys.len(),
{
    if keys.len() == 0 {
        seq![]
    } else {
        let prev = keyed_rows(p, keys.drop_last());
        let k = keys.last();
        match json_get(p, k) {
            Some(v) => match opt_field_row(k, v) {
                Some(r) => prev.push(r),
                None => prev,
            },
            None => prev,
        }
    }
}

pub fn push_row(rows: &mut Vec<RuntimeDiagnosticsFieldRow>, row: RuntimeDiagnosticsFieldRow)
    ensures
        rows_model(final(rows)@) == rows_model(old(rows)@).push(row_model(row)),
{
    rows.push(row);
    assert(rows_model(final(rows)@) =~= rows_model(old(rows)@).push(row_model(row)));
}

/// Appends the rows of the fields under `keys`.
pub fn push_keyed_rows(rows: &mut Vec<RuntimeDiagnosticsFieldRow>, payload: &JsonValue, keys: &Vec<&str>)
    ensures
        rows_model(final(rows)@) == rows_model(old(rows)@) + keyed_rows(payload@, strs_model(keys@)),
{
    let ghost start = rows_model(rows@);
    let mut i: usize = 0;
    while i < keys.len()
        invariant
            i <= keys@.len(),
            rows_model(rows@) == start + keyed_rows(payload@, strs_model(keys@.subrange(0, i as int))),
        decreases keys@.len() - i,
    {
        let ghost before = rows_model(rows@);
        let ghost ks = strs_model(keys@.subrange(0, i + 1));
        assert(ks.drop_last() =~= strs_model(keys@.subrange(0, i as int)));
        assert(ks.last() == keys@[i as int]@);
        let key = keys[i];
        match crate::json::json_get_exec(payload, key) {
            Some(v) => {
                match diagnostics_row(key, v) {
                    Some(row) => {
                        push_row(rows, row);
                        assert(rows_model(rows@) =~= start + keyed_rows(payload@, ks));
                    },
                    None => {},
                }
            },
            None => {},
        }
        i += 1;
    }
    assert(keys@.subrange(0, keys@.len() as int) =~= keys@);
}

/// The rows of the fields under `keys`.
pub fn keyed_diagnostics_rows(payload: &JsonValue, keys: &Vec<&str>) -> (r: Vec<RuntimeDiagnosticsFieldRow>)
    ensures
        rows_model(r@) == keyed_rows(payload@, strs_model(keys@)),
{
    let mut rows: Vec<RuntimeDiagnosticsFieldRow> = Vec::new();
    push_keyed_rows(&mut rows, payload, keys);
    assert(rows_model(rows@) =~= keyed_rows(payload@, strs_model(keys@)));
    rows
}

/// The row of a field nested one level down: its key joins the two keys with a dot.
pub open spec fn nested_row(parent: Seq<char>, child: Seq<char>, label: Seq<char>, p: Json) -> Option<RowModel> {
    match json_get(p, parent) {
        Some(x) => match json_get(x, child) {
            Some(v) => if json_is_void(v) {
                None
            } else {
                Some((parent + "."@ + child, label, format_text(v)))
            },
            None => None,
        },
        None => None,
    }
}

/// The row of a field nested one level down.
pub fn nested_diagnostics_row(parent_key: &str, child_key: &str, label: &str, payload: &JsonValue) -> (r: Option<
    RuntimeDiagnosticsFieldRow,
>)
    ensures
        match r {
            Some(x) => nested_row(parent_key@, child_key@, label@, payload@) == Some(row_model(x)),
            None => nested_row(parent_key@, child_key@, label@, payload@).is_none(),
        },
{
    let parent = match crate::json::json_get_exec(payload, parent_key) {
        Some(x) => x,
        None => {
            return None;
        },
    };
    let value = match crate::json::json_get_exec(parent, child_key) {
        Some(x) => x,
        None => {
            return None;
        },
    };
    if crate::json::json_is_void_exec(value) {
        return None;
    }
    Some(
        RuntimeDiagnosticsFieldRow {
            key: crate::text::cat3(parent_key, ".", child_key),
            label: owned(label),
            value: format_value(value),
        },
    )
}

/// The fields that explain a risk decision.
pub open spec fn risk_explanation_keys() -> Seq<Seq<char>> {
    seq!["reason_text"@, "limit_triggered"@, "sizing_mode"@]
}

fn risk_explanation_keys_exec() -> (r: Vec<&'static str>)
    ensures
        strs_model(r@) == risk_explanation_keys(),
{
    let r = vec!["reason_text", "limit_triggered", "sizing_mode"];
    assert(strs_model(r@) =~= risk_explanation_keys());
    r
}

/// The fields that explain an execution event.
pub open spec fn order_explanation_keys() -> Seq<Seq<char>> {
    seq!["reason_text"@, "lifecycle_stage"@, "sizing_source"@, "order_type_decision_reason"@, "time_in_force"@]
}

fn order_explanation_keys_exec() -> (r: Vec<&'static str>)
    ensures
        strs_model(r@) == order_explanation_keys(),
{
    let r = vec!["reason_text", "lifecycle_stage", "sizing_source", "order_type_decision_reason", "time_in_force"];
    assert(strs_model(r@) =~= order_explanation_keys());
    r
}

/// The fields that explain a data event, warning or error.
pub open spec fn data_explanation_keys() -> Seq<Seq<char>> {
    seq!["source_health"@, "quality_flags"@, "fallback"@, "error"@]
}

fn data_explanation_keys_exec() -> (r: Vec<&'static str>)
    ensures
        strs_model(r@) == data_explanation_keys(),
{
    let r = vec!["source_health", "quality_flags", "fallback", "error"];
    assert(strs_model(r@) =~= data_explanation_keys());
    r
}

/// The fields of the data-quality panel.
pub open spec fn data_quality_keys() -> Seq<Seq<char>> {
    seq!["source_health"@, "source_status"@, "freshness_ms"@, "stale_after_ms"@, "source_latency_ms"@, "ping_latency_ms"@, "gap_count"@, "quality_flags"@, "fallback"@, "error"@, "ping_error"@]
}

fn data_quality_keys_exec() -> (r: Vec<&'static str>)
    ensures
        strs_model(r@) == data_quality_keys(),
{
    let r = vec!["source_health", "source_status", "freshness_ms", "stale_after_ms", "source_latency_ms", "ping_latency_ms", "gap_count", "quality_flags", "fallback", "error", "ping_error"];
    assert(strs_model(r@) =~= data_quality_keys());
    r
}

/// The top-level fields of the risk panel.
pub open spec fn risk_detail_keys() -> Seq<Seq<char>> {
    seq!["status"@, "limit_triggered"@, "sizing_mode"@, "reason_text"@]
}

fn risk_detail_keys_exec() -> (r: Vec<&'static str>)
    ensures
        strs_model(r@) == risk_detail_keys(),
{
    let r = vec!["status", "limit_triggered", "sizing_mode", "reason_text"];
    assert(strs_model(r@) =~= risk_detail_keys());
    r
}

/// The fields of the order panel.
pub open spec fn order_detail_keys() -> Seq<Seq<char>> {
    seq!["order_id"@, "side"@, "qty"@, "remaining_qty"@, "limit_price"@, "exec_status"@, "lifecycle_stage"@, "sizing_source"@, "order_type_decision_reason"@, "time_in_force"@, "reason_text"@]
}

fn order_detail_keys_exec() -> (r: Vec<&'static str>)
    ensures
        strs_model(r@) == order_detail_keys(),
{
    let r = vec!["order_id", "side", "qty", "remaining_qty", "limit_price", "exec_status", "lifecycle_stage", "sizing_source", "order_type_decision_reason", "time_in_force", "reason_text"];
    assert(strs_model(r@) =~= order_detail_keys());
    r
}

/// The before-and-after risk measures of the risk panel: parent key, child key, label.
pub open spec fn risk_measure_fields() -> Seq<(Seq<char>, Seq<char>, Seq<char>)> {
    seq![
        ("pre_risk"@, "max_target_weight"@, "风控前最大目标权重"@),
        ("post_risk"@, "max_target_weight"@, "风控后最大目标权重"@),
        ("pre_risk"@, "concentration_ratio"@, "风控前集中度"@),
        ("post_risk"@, "concentration_ratio"@, "风控后集中度"@),
        ("pre_risk"@, "max_symbol_net_exposure_ratio"@, "风控前单标的净敞口"@),
        ("post_risk"@, "max_symbol_net_exposure_ratio"@, "风控后单标的净敞口"@),
        ("pre_risk"@, "portfolio_net_exposure_ratio"@, "风控前组合净敞口"@),
        ("post_risk"@, "portfolio_net_exposure_ratio"@, "风控后组合净敞口"@),
        ("pre_risk"@, "turnover_ratio"@, "风控前换手比"@),
        ("post_risk"@, "turnover_ratio"@, "风控后换手比"@),
        ("pre_risk"@, "basket_members"@, "风控前持仓数"@),
        ("post_risk"@, "basket_members"@, "风控后持仓数"@),
        ("pre_risk"@, "action_count"@, "风控前动作数"@),
        ("post_risk"@, "action_count"@, "风控后动作数"@),
    ]
}

pub open spec fn triples_model(v: Seq<(&str, &str, &str)>) -> Seq<(Seq<char>, Seq<char>, Seq<char>)> {
    v.map_values(|t: (&str, &str, &str)| (t.0@, t.1@, t.2@))
}

fn risk_measure_fields_exec() -> (r: Vec<(&'static str, &'static str, &'static str)>)
    ensures
        triples_model(r@) == risk_measure_fields(),
{
    let r = vec![
        ("pre_risk", "max_target_weight", "风控前最大目标权重"),
        ("post_risk", "max_target_weight", "风控后最大目标权重"),
        ("pre_risk", "concentration_ratio", "风控前集中度"),
        ("post_risk", "concentration_ratio", "风控后集中度"),
        ("pre_risk", "max_symbol_net_exposure_ratio", "风控前单标的净敞口"),
        ("post_risk", "max_symbol_net_exposure_ratio", "风控后单标的净敞口"),
        ("pre_risk", "portfolio_net_exposure_ratio", "风控前组合净敞口"),
        ("post_risk", "portfolio_net_exposure_ratio", "风控后组合净敞口"),
        ("pre_risk", "turnover_ratio", "风控前换手比"),
        ("post_risk", "turnover_ratio", "风控后换手比"),
        ("pre_risk", "basket_members", "风控前持仓数"),
        ("post_risk", "basket_members", "风控后持仓数"),
        ("pre_risk", "action_count", "风控前动作数"),
        ("post_risk", "action_count", "风控后动作数"),
    ];
    assert(triples_model(r@) =~= risk_measure_fields());
    r
}

/// The rows of the nested fields that are present and neither null nor empty, in order.
pub open spec fn nested_rows(p: Json, fields: Seq<(Seq<char>, Seq<char>, Seq<char>)>) -> Seq<RowModel>
    decreases fields.len(),
{
    if fields.len() == 0 {
        seq![]
    } else {
        let prev = nested_rows(p, fields.drop_last());
        let f = fields.last();
        match nested_row(f.0, f.1, f.2, p) {
            Some(r) => prev.push(r),
            None => prev,
        }
    }
}

/// The rows of the non-empty entries of an object, in order.
pub open spec fn entry_rows(entries: Seq<(Seq<char>, Json)>) -> Seq<RowModel>
    decreases entries.len(),
{
    if entries.len() == 0 {
        seq![]
    } else {
        let prev = entry_rows(entries.drop_last());
        let e = entries.last();
        if json_is_void(e.1) {
            prev
        } else {
            prev.push(field_row(e.0, e.1))
        }
    }
}

/// At most the first four rows.
pub open spec fn first_four(rows: Seq<RowModel>) -> Seq<RowModel> {
    if rows.len() <= 4 {
        rows
    } else {
        rows.take(4)
    }
}

/// The rows a panel shows for a payload: those of the preferred fields; when none of
/// them is there, the first four non-empty entries; nothing for a payload that is not an
/// object.
pub open spec fn payload_rows(p: Json, keys: Seq<Seq<char>>) -> Seq<RowModel> {
    match p {
        Json::Object(entries) => {
            let preferred = keyed_rows(p, keys);
            if preferred.len() > 0 {
                preferred
            } else {
                first_four(entry_rows(entries))
            }
        },
        _ => seq![],
    }
}

/// The rows a panel shows for a payload.
pub fn build_payload_rows(payload: &JsonValue, keys: &Vec<&str>) -> (r: Vec<RuntimeDiagnosticsFieldRow>)
    ensures
        rows_model(r@) == payload_rows(payload@, strs_model(keys@)),
{
    match payload {
        JsonValue::Object(entries) => {
            let preferred = keyed_diagnostics_rows(payload, keys);
            if preferred.len() > 0 {
                return preferred;
            }
            let mut rows: Vec<RuntimeDiagnosticsFieldRow> = Vec::new();
            let mut i: usize = 0;
            while i < entries.len()
                invariant
                    *payload == JsonValue::Object(*entries),
                    i <= entries@.len(),
                    rows_model(rows@) == first_four(entry_rows(crate::json::entries_model(entries@.subrange(0, i as int)))),
                decreases entries@.len() - i,
            {
                let ghost pre = crate::json::entries_model(entries@.subrange(0, i as int));
                let ghost next = entries@.subrange(0, i + 1);
                let ghost x = (entries@[i as int].0@, crate::json::json_model(entries@[i as int].1));
                assert(next.drop_last() =~= entries@.subrange(0, i as int));
                assert(next.last() == entries@[i as int]);
                assert(crate::json::entries_model(next) == pre.push(x));
                assert(pre.push(x).drop_last() =~= pre);
                let ghost e_pre = entry_rows(pre);
                if rows.len() < 4 {
                    match diagnostics_row(entries[i].0.as_str(), &entries[i].1) {
                        Some(row) => {
                            push_row(&mut rows, row);
                        },
                        None => {},
                    }
                }
                proof {
                    let e_next = entry_rows(pre.push(x));
                    if e_pre.len() >= 4 {
                        assert(first_four(e_next) =~= first_four(e_pre));
                    }
                }
                i += 1;
            }
            assert(entries@.subrange(0, entries@.len() as int) =~= entries@);
            rows
        },
        _ => Vec::new(),
    }
}

/// The rows of the nested fields.
pub fn push_nested_rows(
    rows: &mut Vec<RuntimeDiagnosticsFieldRow>,
    payload: &JsonValue,
    fields: &Vec<(&str, &str, &str)>,
)
    ensures
        rows_model(final(rows)@) == rows_model(old(rows)@) + nested_rows(payload@, triples_model(fields@)),
{
    let ghost start = rows_model(rows@);
    let mut i: usize = 0;
    while i < fields.len()
        invariant
            i <= fields@.len(),
            rows_model(rows@) == start + nested_rows(payload@, triples_model(fields@.subrange(0, i as int))),
        decreases fields@.len() - i,
    {
        let ghost fs = triples_model(fields@.subrange(0, i + 1));
        assert(fs.drop_last() =~= triples_model(fields@.subrange(0, i as int)));
        let (a, b, c) = fields[i];
        assert(fs.last() == (a@, b@, c@));
        match nested_diagnostics_row(a, b, c, payload) {
            Some(row) => {
                push_row(rows, row);
                assert(rows_model(rows@) =~= start + nested_rows(payload@, fs));
            },
            None => {},
        }
        i += 1;
    }
    assert(fields@.subrange(0, fields@.len() as int) =~= fields@);
}

/// The rows explaining an event: its explanation summary, when not empty, then the fields
/// that explain an event of its type.
pub open spec fn explanation_rows_of(t: Seq<char>, p: Json) -> Seq<RowModel> {
    let head = match crate::json::json_get_str(p, "explanation_summary"@) {
        Some(s) => if s.len() > 0 {
            seq![("explanation_summary"@, "解释摘要"@, s)]
        } else {
            seq![]
        },
        None => seq![],
    };
    head + if t == "RiskDecisionProduced"@ {
        keyed_rows(p, risk_explanation_keys())
    } else if t == "ExecutionPlanned"@ || t == "ExecutionFilled"@ {
        keyed_rows(p, order_explanation_keys())
    } else if t == "DataUpdated"@ || t == "RuntimeWarning"@ || t == "RuntimeError"@ {
        keyed_rows(p, data_explanation_keys())
    } else {
        seq![]
    }
}

/// The rows explaining an event.
pub fn build_explanation_rows(event_type: &str, payload: &JsonValue) -> (r: Vec<RuntimeDiagnosticsFieldRow>)
    ensures
        rows_model(r@) == explanation_rows_of(event_type@, payload@),
{
    let mut rows: Vec<RuntimeDiagnosticsFieldRow> = Vec::new();
    match crate::json::json_get_str_exec(payload, "explanation_summary") {
        Some(summary) => {
            if summary.as_str().unicode_len() > 0 {
                push_row(
                    &mut rows,
                    RuntimeDiagnosticsFieldRow {
                        key: owned("explanation_summary"),
                        label: owned("解释摘要"),
                        value: summary,
                    },
                );
            }
        },
        None => {},
    }
    let ghost head = rows_model(rows@);
    if str_eq(event_type, "RiskDecisionProduced") {
        push_keyed_rows(&mut rows, payload, &risk_explanation_keys_exec());
    } else if str_eq(event_type, "ExecutionPlanned") || str_eq(event_type, "ExecutionFilled") {
        push_keyed_rows(&mut rows, payload, &order_explanation_keys_exec());
    } else if str_eq(event_type, "DataUpdated") || str_eq(event_type, "RuntimeWarning") || str_eq(
        event_type,
        "RuntimeError",
    ) {
        push_keyed_rows(&mut rows, payload, &data_explanation_keys_exec());
    }
    assert(rows_model(rows@) =~= explanation_rows_of(event_type@, payload@));
    rows
}

/// The rows of the data-quality panel.
pub fn build_data_quality_rows(payload: &JsonValue) -> (r: Vec<RuntimeDiagnosticsFieldRow>)
    ensures
        rows_model(r@) == keyed_rows(payload@, data_quality_keys()),
{
    keyed_diagnostics_rows(payload, &data_quality_keys_exec())
}

/// The rows of the risk panel: the decision's fields, then its measures before and after
/// risk.
pub open spec fn risk_detail_rows_of(p: Json) -> Seq<RowModel> {
    keyed_rows(p, risk_detail_keys()) + nested_rows(p, risk_measure_fields())
}

/// The rows of the risk panel.
pub fn build_risk_detail_rows(payload: &JsonValue) -> (r: Vec<RuntimeDiagnosticsFieldRow>)
    ensures
        rows_model(r@) == risk_detail_rows_of(payload@),
{
    let mut rows = keyed_diagnostics_rows(payload, &risk_detail_keys_exec());
    push_nested_rows(&mut rows, payload, &risk_measure_fields_exec());
    rows
}

/// A row of the first previewed order, shown whatever its value.
pub open spec fn preview_row(first: Json, key: Seq<char>, label: Seq<char>) -> Seq<RowModel> {
    match json_get(first, key) {
        Some(v) => seq![("preview_"@ + key, label, format_text(v))],
        None => seq![],
    }
}

/// The rows of the order previews of an execution plan: how many orders there are and,
/// for the first, its side, quantity, type and the reason for its type.
pub open spec fn preview_rows(p: Json) -> Seq<RowModel> {
    match json_get(p, "order_previews"@) {
        Some(Json::Array(items)) => seq![("order_count"@, "订单数量"@, crate::text::dec(items.len()))] + if items.len() > 0 {
            preview_row(items[0], "side"@, "首个订单方向"@) + preview_row(items[0], "qty"@, "首个订单数量"@)
                + preview_row(items[0], "order_type"@, "首个订单类型"@) + preview_row(
                items[0],
                "order_type_decision_reason"@,
                "首个订单下单语义"@,
            )
        } else {
            seq![]
        },
        _ => seq![],
    }
}

/// The rows of the order panel: the order's fields and, for an execution plan, its
/// previews.
pub open spec fn order_detail_rows_of(t: Seq<char>, p: Json) -> Seq<RowModel> {
    keyed_rows(p, order_detail_keys()) + if t == "ExecutionPlanned"@ {
        preview_rows(p)
    } else {
        seq![]
    }
}

fn push_preview_row(rows: &mut Vec<RuntimeDiagnosticsFieldRow>, first: &JsonValue, key: &str, label: &str)
    ensures
        rows_model(final(rows)@) == rows_model(old(rows)@) + preview_row(first@, key@, label@),
{
    match crate::json::json_get_exec(first, key) {
        Some(v) => {
            push_row(
                rows,
                RuntimeDiagnosticsFieldRow {
                    key: crate::text::cat("preview_", key),
                    label: owned(label),
                    value: format_value(v),
                },
            );
        },
        None => {},
    }
    assert(rows_model(final(rows)@) =~= rows_model(old(rows)@) + preview_row(first@, key@, label@));
}

/// The rows of the order panel.
pub fn build_order_detail_rows(event_type: &str, payload: &JsonValue) -> (r: Vec<RuntimeDiagnosticsFieldRow>)
    ensures
        rows_model(r@) == order_detail_rows_of(event_type@, payload@),
{
    let mut rows = keyed_diagnostics_rows(payload, &order_detail_keys_exec());
    let ghost base = rows_model(rows@);
    if str_eq(event_type, "ExecutionPlanned") {
        match crate::json::json_get_exec(payload, "order_previews") {
            Some(JsonValue::Array(previews)) => {
                proof {
                    crate::json::lemma_items_model(previews@);
                }
                push_row(
                    &mut rows,
                    RuntimeDiagnosticsFieldRow {
                        key: owned("order_count"),
                        label: owned("订单数量"),
                        value: crate::text::u64_text(previews.len() as u64),
                    },
                );
                let ghost items = crate::json::items_model(previews@);
                assert(crate::json::json_get(payload@, "order_previews"@) == Some(Json::Array(items)));
                let ghost counted = rows_model(rows@);
                assert(counted =~= base + seq![("order_count"@, "订单数量"@, crate::text::dec(items.len()))]);
                if previews.len() > 0 {
                    let first = &previews[0];
                    assert(items[0] == first@);
                    push_preview_row(&mut rows, first, "side", "首个订单方向");
                    push_preview_row(&mut rows, first, "qty", "首个订单数量");
                    push_preview_row(&mut rows, first, "order_type", "首个订单类型");
                    push_preview_row(&mut rows, first, "order_type_decision_reason", "首个订单下单语义");
                }
                assert(rows_model(rows@) =~= base + preview_rows(payload@));
            },
            _ => {
                assert(preview_rows(payload@) =~= Seq::<RowModel>::empty());
            },
        }
    }
    assert(rows_model(rows@) =~= order_detail_rows_of(event_type@, payload@));
    rows
}

/// An event as a diagnostics panel lists it.
#[derive(Clone, Debug)]
pub struct RuntimeDiagnosticsEventSummary {
    pub event_id: String,
    pub event_type: String,
    pub label: String,
    pub summary: String,
    pub tone: String,
    pub severity: String,
    pub event_time_ms: Option<u64>,
}

/// `r` lists event `e`: its id and type, the label of its type, its summary (a generic
/// one when it has none), the tone of its severity, and its time.
pub open spec fn event_summary_is(r: RuntimeDiagnosticsEventSummary, e: FrontendRuntimeEvent) -> bool {
    &&& r.event_id@ == e.event_id@
    &&& r.event_type@ == e.event_type@
    &&& r.label@ == event_label_of(e.event_type@)
    &&& r.summary@ == (if e.summary@.len() == 0 {
        "运行事件"@
    } else {
        e.summary@
    })
    &&& r.tone@ == tone_of(e.severity@)
    &&& r.severity@ == e.severity@
    &&& r.event_time_ms == Some(e.event_time_ms)
}

/// How a panel lists an event.
pub fn event_summary_from_event(event: &FrontendRuntimeEvent) -> (r: RuntimeDiagnosticsEventSummary)
    ensures
        event_summary_is(r, *event),
{
    RuntimeDiagnosticsEventSummary {
        event_id: owned(event.event_id.as_str()),
        event_type: owned(event.event_type.as_str()),
        label: owned(event_label(event.event_type.as_str())),
        summary: if event.summary.as_str().unicode_len() == 0 {
            owned("运行事件")
        } else {
            owned(event.summary.as_str())
        },
        tone: owned(severity_tone(event.severity.as_str())),
        severity: owned(event.severity.as_str()),
        event_time_ms: Some(event.event_time_ms),
    }
}

/// The node an event is shown under: its node, else, for data events, warnings and
/// errors, its source; other events without a node are not shown.
pub open spec fn node_key(e: FrontendRuntimeEvent) -> Option<Seq<char>> {
    if e.node_id@.len() > 0 {
        Some(e.node_id@)
    } else if (e.event_type@ == "DataUpdated"@ || e.event_type@ == "RuntimeWarning"@ || e.event_type@
        == "RuntimeError"@) && e.source_id@.len() > 0 {
        Some(e.source_id@)
    } else {
        None
    }
}

/// The node an event is shown under.
pub fn diagnostics_node_key(event: &FrontendRuntimeEvent) -> (r: Option<String>)
    ensures
        match r {
            Some(k) => node_key(*event) == Some(k@),
            None => node_key(*event).is_none(),
        },
{
    if event.node_id.as_str().unicode_len() > 0 {
        return Some(owned(event.node_id.as_str()));
    }
    let t = event.event_type.as_str();
    if (str_eq(t, "DataUpdated") || str_eq(t, "RuntimeWarning") || str_eq(t, "RuntimeError"))
        && event.source_id.as_str().unicode_len() > 0 {
        return Some(owned(event.source_id.as_str()));
    }
    None
}

/// Where an event at time `k` goes in `s`, newest first: before the first event, from
/// `j` on, that is older.
pub open spec fn desc_insert_pos(s: Seq<FrontendRuntimeEvent>, k: u64, j: int) -> int
    decreases s.len() - j,
{
    if j < 0 || j >= s.len() {
        s.len() as int
    } else if s[j].event_time_ms < k {
        j
    } else {
        desc_insert_pos(s, k, j + 1)
    }
}

/// `s` newest first, events at equal times keeping their order.
pub open spec fn sort_by_time_desc(s: Seq<FrontendRuntimeEvent>) -> Seq<FrontendRuntimeEvent>
    decreases s.len(),
{
    if s.len() == 0 {
        seq![]
    } else {
        let p = sort_by_time_desc(s.drop_last());
        p.insert(desc_insert_pos(p, s.last().event_time_ms, 0), s.last())
    }
}

/// Orders events newest first, keeping the order of events at equal times.
pub fn sort_events_newest_first(events: Vec<FrontendRuntimeEvent>) -> (r: Vec<FrontendRuntimeEvent>)
    ensures
        r@ == sort_by_time_desc(events@),
{
    let ghost orig = events@;
    let n = events.len();
    let mut rest = events;
    let mut sorted: Vec<FrontendRuntimeEvent> = Vec::new();
    let mut i: usize = 0;
    while i < n
        invariant
            n == orig.len(),
            i <= n,
            rest@ == orig.subrange(i as int, n as int),
            sorted@ == sort_by_time_desc(orig.subrange(0, i as int)),
        decreases n - i,
    {
        assert(rest@[0] == orig[i as int]);
        let e = rest.remove(0);
        let ghost prefix = orig.subrange(0, i + 1);
        assert(prefix.drop_last() =~= orig.subrange(0, i as int));
        let k = e.event_time_ms;
        let ghost before = sorted@;
        let mut j: usize = 0;
        while j < sorted.len() && sorted[j].event_time_ms >= k
            invariant
                j <= sorted@.len(),
                sorted@ == before,
                desc_insert_pos(sorted@, k, 0) == desc_insert_pos(sorted@, k, j as int),
            decreases sorted@.len() - j,
        {
            j += 1;
        }
        sorted.insert(j, e);
        assert(rest@ =~= orig.subrange(i + 1, n as int));
        i += 1;
    }
    assert(orig.subrange(0, n as int) =~= orig);
    sorted
}

/// The nodes that events are shown under, in the order their first event appears.
pub open spec fn active_ids(s: Seq<FrontendRuntimeEvent>) -> Seq<Seq<char>>
    decreases s.len(),
{
    if s.len() == 0 {
        seq![]
    } else {
        let p = active_ids(s.drop_last());
        match node_key(s.last()) {
            Some(k) => if p.contains(k) {
                p
            } else {
                p.push(k)
            },
            None => p,
        }
    }
}

pub open spec fn texts_model(v: Seq<String>) -> Seq<Seq<char>> {
    v.map_values(|s: String| s@)
}

fn contains_text(v: &Vec<String>, k: &str) -> (r: bool)
    ensures
        r == texts_model(v@).contains(k@),
{
    let mut i: usize = 0;
    while i < v.len()
        invariant
            i <= v@.len(),
            forall|j: int| 0 <= j < i ==> v@[j]@ != k@,
        decreases v@.len() - i,
    {
        if str_eq(v[i].as_str(), k) {
            assert(texts_model(v@)[i as int] == k@);
            return true;
        }
        i += 1;
    }
    assert forall|j: int| 0 <= j < texts_model(v@).len() implies texts_model(v@)[j] != k@ by {
        assert(texts_model(v@)[j] == v@[j]@);
    }
    false
}

/// The nodes that events are shown under, in order of first appearance.
pub fn active_node_ids(sorted: &Vec<FrontendRuntimeEvent>) -> (r: Vec<String>)
    ensures
        texts_model(r@) == active_ids(sorted@),
{
    let mut ids: Vec<String> = Vec::new();
    let mut i: usize = 0;
    while i < sorted.len()
        invariant
            i <= sorted@.len(),
            texts_model(ids@) == active_ids(sorted@.subrange(0, i as int)),
        decreases sorted@.len() - i,
    {
        let ghost next = sorted@.subrange(0, i + 1);
        assert(next.drop_last() =~= sorted@.subrange(0, i as int));
        assert(next.last() == sorted@[i as int]);
        match diagnostics_node_key(&sorted[i]) {
            Some(k) => {
                if !contains_text(&ids, k.as_str()) {
                    let ghost before = ids@;
                    ids.push(k);
                    assert(texts_model(ids@) =~= texts_model(before).push(ids@.last()@));
                }
            },
            None => {},
        }
        i += 1;
    }
    assert(sorted@.subrange(0, sorted@.len() as int) =~= sorted@);
    ids
}

/// The nodes shown are distinct.
pub proof fn lemma_active_ids_distinct(s: Seq<FrontendRuntimeEvent>)
    ensures
        active_ids(s).no_duplicates(),
        forall|i: int| 0 <= i < s.len() && node_key(#[trigger] s[i]).is_some() ==> active_ids(s).contains(
            node_key(s[i]).unwrap(),
        ),
    decreases s.len(),
{
    if s.len() > 0 {
        lemma_active_ids_distinct(s.drop_last());
        let p = active_ids(s.drop_last());
        assert forall|i: int| 0 <= i < s.len() && node_key(#[trigger] s[i]).is_some() implies active_ids(s).contains(
            node_key(s[i]).unwrap(),
        ) by {
            if i < s.len() - 1 {
                assert(s.drop_last()[i] == s[i]);
                let k = node_key(s[i]).unwrap();
                let j = choose|j: int| 0 <= j < p.len() && p[j] == k;
                if active_ids(s) != p {
                    assert(active_ids(s)[j] == k);
                }
            } else {
                let k = node_key(s[i]).unwrap();
                if !p.contains(k) {
                    assert(active_ids(s)[p.len() as int] == k);
                }
            }
        }
    }
}

/// The events shown under node `id`, in the order of `s`.
pub open spec fn node_events(s: Seq<FrontendRuntimeEvent>, id: Seq<char>) -> Seq<FrontendRuntimeEvent>
    decreases s.len(),
{
    if s.len() == 0 {
        seq![]
    } else {
        let p = node_events(s.drop_last(), id);
        if node_key(s.last()) == Some(id) {
            p.push(s.last())
        } else {
            p
        }
    }
}

pub open spec fn derefs(v: Seq<&FrontendRuntimeEvent>) -> Seq<FrontendRuntimeEvent> {
    v.map_values(|e: &FrontendRuntimeEvent| *e)
}

/// The events shown under a node.
pub fn collect_node_events<'a>(sorted: &'a Vec<FrontendRuntimeEvent>, id: &str) -> (r: Vec<&'a FrontendRuntimeEvent>)
    ensures
        derefs(r@) == node_events(sorted@, id@),
{
    let mut out: Vec<&'a FrontendRuntimeEvent> = Vec::new();
    let mut i: usize = 0;
    while i < sorted.len()
        invariant
            i <= sorted@.len(),
            derefs(out@) == node_events(sorted@.subrange(0, i as int), id@),
        decreases sorted@.len() - i,
    {
        let ghost next = sorted@.subrange(0, i + 1);
        assert(next.drop_last() =~= sorted@.subrange(0, i as int));
        assert(next.last() == sorted@[i as int]);
        let e = &sorted[i];
        let matched = match diagnostics_node_key(e) {
            Some(k) => str_eq(k.as_str(), id),
            None => false,
        };
        if matched {
            let ghost before = out@;
            out.push(e);
            assert(derefs(out@) =~= derefs(before).push(*e));
        }
        i += 1;
    }
    assert(sorted@.subrange(0, sorted@.len() as int) =~= sorted@);
    out
}

/// The events that panels pick their latest event of a kind from.
#[derive(Clone, Copy, PartialEq, Eq, Debug, Structural)]
pub enum EventPick {
    /// Events that report the health or status of their data source.
    Data,
    /// Risk decisions.
    Risk,
    /// Execution plans and fills.
    Order,
    /// Events shown in a tone other than `info`.
    Notice,
}

pub open spec fn picks(k: EventPick, e: FrontendRuntimeEvent) -> bool {
    match k {
        EventPick::Data => json_get(e.payload@, "source_health"@).is_some() || json_get(
            e.payload@,
            "source_status"@,
        ).is_some(),
        EventPick::Risk => e.event_type@ == "RiskDecisionProduced"@,
        EventPick::Order => e.event_type@ == "ExecutionPlanned"@ || e.event_type@ == "ExecutionFilled"@,
        EventPick::Notice => tone_of(e.severity@) != "info"@,
    }
}

/// The first event of `s` of kind `k`.
pub open spec fn first_pick(s: Seq<FrontendRuntimeEvent>, k: EventPick) -> Option<FrontendRuntimeEvent>
    decreases s.len(),
{
    if s.len() == 0 {
        None
    } else if picks(k, s[0]) {
        Some(s[0])
    } else {
        first_pick(s.drop_first(), k)
    }
}

fn picks_exec(k: EventPick, e: &FrontendRuntimeEvent) -> (r: bool)
    ensures
        r == picks(k, *e),
{
    match k {
        EventPick::Data => crate::json::json_get_exec(&e.payload, "source_health").is_some()
            || crate::json::json_get_exec(&e.payload, "source_status").is_some(),
        EventPick::Risk => str_eq(e.event_type.as_str(), "RiskDecisionProduced"),
        EventPick::Order => str_eq(e.event_type.as_str(), "ExecutionPlanned") || str_eq(
            e.event_type.as_str(),
            "ExecutionFilled",
        ),
        EventPick::Notice => {
            let t = severity_tone(e.severity.as_str());
            !str_eq(t, "info")
        },
    }
}

/// The first event of a kind.
pub fn first_event_of_kind<'a>(events: &Vec<&'a FrontendRuntimeEvent>, k: EventPick) -> (r: Option<&'a FrontendRuntimeEvent>)
    ensures
        match r {
            Some(e) => first_pick(derefs(events@), k) == Some(*e),
            None => first_pick(derefs(events@), k).is_none(),
        },
{
    let ghost all = derefs(events@);
    let mut i: usize = 0;
    assert(all.subrange(0, all.len() as int) =~= all);
    while i < events.len()
        invariant
            i <= events@.len(),
            all == derefs(events@),
            all.len() == events@.len(),
            first_pick(all, k) == first_pick(all.subrange(i as int, all.len() as int), k),
        decreases events@.len() - i,
    {
        let ghost rest = all.subrange(i as int, all.len() as int);
        assert(rest[0] == *events@[i as int]);
        if picks_exec(k, events[i]) {
            return Some(events[i]);
        }
        assert(rest.drop_first() =~= all.subrange(i + 1, all.len() as int));
        i += 1;
    }
    None
}

/// A node in the list of active nodes.
#[derive(Clone, Debug)]
pub struct RuntimeDiagnosticsNodeSummary {
    pub node_id: String,
    pub latest_event_type: Option<String>,
    pub latest_event_label: String,
    pub latest_event_time_ms: Option<u64>,
    pub event_count: usize,
}

/// The panels of one node.
#[derive(Clone, Debug)]
pub struct RuntimeDiagnosticsNodeDetail {
    pub node_id: String,
    pub latest_event: Option<RuntimeDiagnosticsEventSummary>,
    pub explanation_summary: Option<String>,
    pub latest_input_rows: Vec<RuntimeDiagnosticsFieldRow>,
    pub latest_output_rows: Vec<RuntimeDiagnosticsFieldRow>,
    pub explanation_rows: Vec<RuntimeDiagnosticsFieldRow>,
    pub data_quality_rows: Vec<RuntimeDiagnosticsFieldRow>,
    pub risk_detail_rows: Vec<RuntimeDiagnosticsFieldRow>,
    pub order_detail_rows: Vec<RuntimeDiagnosticsFieldRow>,
    pub latest_notice: Option<RuntimeDiagnosticsEventSummary>,
    pub recent_events: Vec<RuntimeDiagnosticsEventSummary>,
    pub event_count: usize,
}

/// The diagnostics of a run: its active nodes, newest activity first, and the panels of
/// each, in the same order.
#[derive(Clone, Debug)]
pub struct RuntimeDiagnosticsPayload {
    pub source: String,
    pub default_selected_node_id: Option<String>,
    pub active_nodes: Vec<RuntimeDiagnosticsNodeSummary>,
    pub node_details: Vec<RuntimeDiagnosticsNodeDetail>,
}

pub open spec fn opt_text(o: Option<String>) -> Option<Seq<char>> {
    match o {
        Some(s) => Some(s@),
        None => None,
    }
}

/// `r` lists `e` when there is one, and is absent when there is none.
pub open spec fn opt_summary_is(r: Option<RuntimeDiagnosticsEventSummary>, e: Option<FrontendRuntimeEvent>) -> bool {
    match (r, e) {
        (Some(x), Some(y)) => event_summary_is(x, y),
        (None, None) => true,
        _ => false,
    }
}

/// `r` is the entry of node `id` in the list of active nodes, whose events, newest
/// first, are `evs`.
pub open spec fn node_summary_is(r: RuntimeDiagnosticsNodeSummary, id: Seq<char>, evs: Seq<FrontendRuntimeEvent>) -> bool {
    &&& r.node_id@ == id
    &&& r.event_count == evs.len()
    &&& if evs.len() > 0 {
        &&& opt_text(r.latest_event_type) == Some(evs[0].event_type@)
        &&& r.latest_event_label@ == event_label_of(evs[0].event_type@)
        &&& r.latest_event_time_ms == Some(evs[0].event_time_ms)
    } else {
        &&& r.latest_event_type.is_none()
        &&& r.latest_event_label@ == "运行事件"@
        &&& r.latest_event_time_ms.is_none()
    }
}

/// The rows a panel shows from the event a kind picks, none when there is no such event.
pub open spec fn picked_rows(evs: Seq<FrontendRuntimeEvent>, k: EventPick) -> Seq<RowModel> {
    match first_pick(evs, k) {
        Some(e) => match k {
            EventPick::Data => keyed_rows(e.payload@, data_quality_keys()),
            EventPick::Risk => risk_detail_rows_of(e.payload@),
            _ => order_detail_rows_of(e.event_type@, e.payload@),
        },
        None => seq![],
    }
}

/// `r` holds the panels of node `id`, whose events, newest first, are `evs`: the latest
/// event with its explanation, input, output and explanation rows; the data-quality, risk
/// and order panels from the latest event of each kind; the latest notice; the five most
/// recent events; and the event count.
pub open spec fn node_detail_is(r: RuntimeDiagnosticsNodeDetail, id: Seq<char>, evs: Seq<FrontendRuntimeEvent>) -> bool {
    &&& r.node_id@ == id
    &&& r.event_count == evs.len()
    &&& if evs.len() > 0 {
        let e = evs[0];
        &&& opt_summary_is(r.latest_event, Some(e))
        &&& opt_text(r.explanation_summary) == crate::json::json_get_str(e.payload@, "explanation_summary"@)
        &&& rows_model(r.latest_input_rows@) == payload_rows(e.payload@, input_field_list(e.event_type@))
        &&& rows_model(r.latest_output_rows@) == payload_rows(e.payload@, output_field_list(e.event_type@))
        &&& rows_model(r.explanation_rows@) == explanation_rows_of(e.event_type@, e.payload@)
    } else {
        &&& r.latest_event.is_none()
        &&& r.explanation_summary.is_none()
        &&& r.latest_input_rows@.len() == 0
        &&& r.latest_output_rows@.len() == 0
        &&& r.explanation_rows@.len() == 0
    }
    &&& rows_model(r.data_quality_rows@) == picked_rows(evs, EventPick::Data)
    &&& rows_model(r.risk_detail_rows@) == picked_rows(evs, EventPick::Risk)
    &&& rows_model(r.order_detail_rows@) == picked_rows(evs, EventPick::Order)
    &&& opt_summary_is(r.latest_notice, first_pick(evs, EventPick::Notice))
    &&& r.recent_events@.len() == (if evs.len() < 5 { evs.len() } else { 5 })
    &&& forall|i: int| 0 <= i < r.recent_events@.len() ==> event_summary_is(#[trigger] r.recent_events@[i], evs[i])
}

fn opt_event_summary(e: Option<&FrontendRuntimeEvent>) -> (r: Option<RuntimeDiagnosticsEventSummary>)
    ensures
        opt_summary_is(r, match e {
            Some(x) => Some(*x),
            None => None,
        }),
{
    match e {
        Some(x) => Some(event_summary_from_event(x)),
        None => None,
    }
}

fn picked_rows_exec(evs: &Vec<&FrontendRuntimeEvent>, k: EventPick) -> (r: Vec<RuntimeDiagnosticsFieldRow>)
    requires
        k != EventPick::Notice,
    ensures
        rows_model(r@) == picked_rows(derefs(evs@), k),
{
    match first_event_of_kind(evs, k) {
        Some(e) => match k {
            EventPick::Data => build_data_quality_rows(&e.payload),
            EventPick::Risk => build_risk_detail_rows(&e.payload),
            _ => build_order_detail_rows(e.event_type.as_str(), &e.payload),
        },
        None => {
            let r: Vec<RuntimeDiagnosticsFieldRow> = Vec::new();
            assert(rows_model(r@) =~= Seq::<RowModel>::empty());
            r
        },
    }
}

/// The entry of a node in the list of active nodes.
pub fn node_summary(id: &str, evs: &Vec<&FrontendRuntimeEvent>) -> (r: RuntimeDiagnosticsNodeSummary)
    ensures
        node_summary_is(r, id@, derefs(evs@)),
{
    if evs.len() > 0 {
        let e = evs[0];
        RuntimeDiagnosticsNodeSummary {
            node_id: owned(id),
            latest_event_type: Some(owned(e.event_type.as_str())),
            latest_event_label: owned(event_label(e.event_type.as_str())),
            latest_event_time_ms: Some(e.event_time_ms),
            event_count: evs.len(),
        }
    } else {
        RuntimeDiagnosticsNodeSummary {
            node_id: owned(id),
            latest_event_type: None,
            latest_event_label: owned("运行事件"),
            latest_event_time_ms: None,
            event_count: 0,
        }
    }
}

/// The panels of a node.
pub fn node_detail(id: &str, evs: &Vec<&FrontendRuntimeEvent>) -> (r: RuntimeDiagnosticsNodeDetail)
    ensures
        node_detail_is(r, id@, derefs(evs@)),
{
    let ghost all = derefs(evs@);
    let mut recent: Vec<RuntimeDiagnosticsEventSummary> = Vec::new();
    let mut i: usize = 0;
    while i < evs.len() && i < 5
        invariant
            all == derefs(evs@),
            i <= evs@.len(),
            i <= 5,
            recent@.len() == i,
            forall|j: int| 0 <= j < i ==> event_summary_is(#[trigger] recent@[j], all[j]),
        decreases evs@.len() - i,
    {
        recent.push(event_summary_from_event(evs[i]));
        i += 1;
    }
    let data_quality_rows = picked_rows_exec(evs, EventPick::Data);
    let risk_detail_rows = picked_rows_exec(evs, EventPick::Risk);
    let order_detail_rows = picked_rows_exec(evs, EventPick::Order);
    let latest_notice = opt_event_summary(first_event_of_kind(evs, EventPick::Notice));
    if evs.len() > 0 {
        let e = evs[0];
        assert(all[0] == *e);
        RuntimeDiagnosticsNodeDetail {
            node_id: owned(id),
            latest_event: Some(event_summary_from_event(e)),
            explanation_summary: crate::json::json_get_str_exec(&e.payload, "explanation_summary"),
            latest_input_rows: build_payload_rows(&e.payload, &input_fields(e.event_type.as_str())),
            latest_output_rows: build_payload_rows(&e.payload, &output_fields(e.event_type.as_str())),
            explanation_rows: build_explanation_rows(e.event_type.as_str(), &e.payload),
            data_quality_rows,
            risk_detail_rows,
            order_detail_rows,
            latest_notice,
            recent_events: recent,
            event_count: evs.len(),
        }
    } else {
        RuntimeDiagnosticsNodeDetail {
            node_id: owned(id),
            latest_event: None,
            explanation_summary: None,
            latest_input_rows: Vec::new(),
            latest_output_rows: Vec::new(),
            explanation_rows: Vec::new(),
            data_quality_rows,
            risk_detail_rows,
            order_detail_rows,
            latest_notice,
            recent_events: recent,
            event_count: 0,
        }
    }
}

/// `r` is the diagnostics of `events` from `source`: the nodes their events are shown
/// under, in the order of their newest events, with the entry and the panels of each.
pub open spec fn diagnostics_of(r: RuntimeDiagnosticsPayload, events: Seq<FrontendRuntimeEvent>, source: Seq<char>) -> bool {
    let sorted = sort_by_time_desc(events);
    let ids = active_ids(sorted);
    &&& r.source@ == source
    &&& opt_text(r.default_selected_node_id) == (if ids.len() > 0 {
        Some(ids[0])
    } else {
        None
    })
    &&& r.active_nodes@.len() == ids.len()
    &&& r.node_details@.len() == ids.len()
    &&& forall|i: int|
        0 <= i < ids.len() ==> {
            &&& node_summary_is(#[trigger] r.active_nodes@[i], ids[i], node_events(sorted, ids[i]))
            &&& node_detail_is(r.node_details@[i], ids[i], node_events(sorted, ids[i]))
        }
}

proof fn lemma_desc_insert_pos(s: Seq<FrontendRuntimeEvent>, k: u64, j: int)
    requires
        0 <= j <= s.len(),
    ensures
        j <= desc_insert_pos(s, k, j) <= s.len(),
        forall|i: int| j <= i < desc_insert_pos(s, k, j) ==> (#[trigger] s[i]).event_time_ms >= k,
        desc_insert_pos(s, k, j) < s.len() ==> s[desc_insert_pos(s, k, j)].event_time_ms < k,
    decreases s.len() - j,
{
    if j < s.len() && s[j].event_time_ms >= k {
        lemma_desc_insert_pos(s, k, j + 1);
    }
}

/// Sorting newest first orders the events by time, latest first, and keeps exactly the
/// events given.
proof fn lemma_sort_by_time_desc(s: Seq<FrontendRuntimeEvent>)
    ensures
        sort_by_time_desc(s).len() == s.len(),
        forall|i: int, j: int|
            0 <= i < j < s.len() ==> (#[trigger] sort_by_time_desc(s)[i]).event_time_ms >= (
            #[trigger] sort_by_time_desc(s)[j]).event_time_ms,
        forall|x: FrontendRuntimeEvent| sort_by_time_desc(s).contains(x) <==> s.contains(x),
    decreases s.len(),
{
    if s.len() > 0 {
        let init = s.drop_last();
        let x = s.last();
        lemma_sort_by_time_desc(init);
        let q = sort_by_time_desc(init);
        lemma_desc_insert_pos(q, x.event_time_ms, 0);
        let pos = desc_insert_pos(q, x.event_time_ms, 0);
        let r = q.insert(pos, x);
        assert(r == sort_by_time_desc(s));
        assert forall|i: int, j: int| 0 <= i < j < r.len() implies (#[trigger] r[i]).event_time_ms >= (
        #[trigger] r[j]).event_time_ms by {
            if i < pos && j < pos {
                assert(r[i] == q[i] && r[j] == q[j]);
            } else if i < pos && j == pos {
                assert(r[i] == q[i]);
            } else if i < pos {
                assert(r[i] == q[i] && r[j] == q[j - 1]);
                assert(q[pos].event_time_ms >= q[j - 1].event_time_ms || pos == j - 1);
            } else if i == pos {
                assert(r[j] == q[j - 1]);
                if j - 1 > pos {
                    assert(q[pos].event_time_ms >= q[j - 1].event_time_ms);
                }
            } else {
                assert(r[i] == q[i - 1] && r[j] == q[j - 1]);
            }
        }
        assert forall|y: FrontendRuntimeEvent| r.contains(y) <==> s.contains(y) by {
            if r.contains(y) {
                let w = choose|w: int| 0 <= w < r.len() && r[w] == y;
                if w < pos {
                    assert(q[w] == y);
                    assert(q.contains(y));
                    assert(init.contains(y));
                    let v = choose|v: int| 0 <= v < init.len() && init[v] == y;
                    assert(s[v] == y);
                } else if w == pos {
                    assert(s[s.len() - 1] == y);
                } else {
                    assert(q[w - 1] == y);
                    assert(q.contains(y));
                    assert(init.contains(y));
                    let v = choose|v: int| 0 <= v < init.len() && init[v] == y;
                    assert(s[v] == y);
                }
            }
            if s.contains(y) {
                let v = choose|v: int| 0 <= v < s.len() && s[v] == y;
                if v < s.len() - 1 {
                    assert(init[v] == y);
                    assert(init.contains(y));
                    assert(q.contains(y));
                    let w = choose|w: int| 0 <= w < q.len() && q[w] == y;
                    if w < pos {
                        assert(r[w] == y);
                    } else {
                        assert(r[w + 1] == y);
                    }
                } else {
                    assert(r[pos] == y);
                }
            }
        }
    }
}

/// Where the first event shown under node `k` stands in `s`; -1 when there is none.
pub open spec fn first_node_pos(s: Seq<FrontendRuntimeEvent>, k: Seq<char>) -> int
    decreases s.len(),
{
    if s.len() == 0 {
        -1
    } else {
        let p = first_node_pos(s.drop_last(), k);
        if p >= 0 {
            p
        } else if node_key(s.last()) == Some(k) {
            s.len() - 1
        } else {
            -1
        }
    }
}

proof fn lemma_first_node_pos(s: Seq<FrontendRuntimeEvent>, k: Seq<char>)
    ensures
        first_node_pos(s, k) >= 0 ==> {
            &&& first_node_pos(s, k) < s.len()
            &&& node_key(s[first_node_pos(s, k)]) == Some(k)
            &&& node_events(s, k).len() > 0
            &&& node_events(s, k)[0] == s[first_node_pos(s, k)]
        },
        first_node_pos(s, k) < 0 ==> first_node_pos(s, k) == -1 && node_events(s, k).len() == 0 && forall|q: int|
            0 <= q < s.len() ==> node_key(#[trigger] s[q]) != Some(k),
    decreases s.len(),
{
    if s.len() > 0 {
        let init = s.drop_last();
        lemma_first_node_pos(init, k);
        let p = first_node_pos(init, k);
        if p >= 0 {
            assert(init[p] == s[p]);
        } else if node_key(s.last()) != Some(k) {
            assert forall|q: int| 0 <= q < s.len() implies node_key(#[trigger] s[q]) != Some(k) by {
                if q < s.len() - 1 {
                    assert(init[q] == s[q]);
                }
            }
        }
    }
}

proof fn lemma_active_ids_first_positions(s: Seq<FrontendRuntimeEvent>)
    ensures
        forall|i: int| 0 <= i < active_ids(s).len() ==> first_node_pos(s, #[trigger] active_ids(s)[i]) >= 0,
        forall|i: int, j: int|
            0 <= i < j < active_ids(s).len() ==> first_node_pos(s, #[trigger] active_ids(s)[i]) < first_node_pos(
                s,
                #[trigger] active_ids(s)[j],
            ),
        forall|i: int| 0 <= i < active_ids(s).len() ==> first_node_pos(s, #[trigger] active_ids(s)[i]) < s.len(),
    decreases s.len(),
{
    if s.len() > 0 {
        let init = s.drop_last();
        lemma_active_ids_first_positions(init);
        lemma_active_ids_distinct(init);
        let p = active_ids(init);
        let ids = active_ids(s);
        assert forall|i: int| 0 <= i < p.len() implies first_node_pos(s, #[trigger] p[i]) == first_node_pos(
            init,
            p[i],
        ) by {}
        match node_key(s.last()) {
            Some(k) => {
                if !p.contains(k) {
                    lemma_first_node_pos(init, k);
                    if first_node_pos(init, k) >= 0 {
                        let f = first_node_pos(init, k);
                        assert(node_key(init[f]).is_some());
                        assert(p.contains(node_key(init[f]).unwrap()));
                    }
                    assert(first_node_pos(s, k) == s.len() - 1);
                    assert forall|i: int| 0 <= i < p.len() implies ids[i] == p[i] by {}
                    assert(ids[p.len() as int] == k);
                }
            },
            None => {},
        }
    }
}

/// The diagnostics list node `k`.
pub open spec fn lists_node(r: RuntimeDiagnosticsPayload, k: Seq<char>) -> bool {
    exists|i: int| 0 <= i < r.active_nodes@.len() && (#[trigger] r.active_nodes@[i]).node_id@ == k
}

/// Some event is shown under node `k`.
pub open spec fn shows_node(events: Seq<FrontendRuntimeEvent>, k: Seq<char>) -> bool {
    exists|e: FrontendRuntimeEvent| #[trigger] events.contains(e) && node_key(e) == Some(k)
}

/// The diagnostics list each node once, the node with the newest event first: the
/// entries' latest event times never increase down the list. The nodes listed are
/// exactly the nodes some event is shown under, and the panels follow the same order.
pub proof fn lemma_diagnostics_nodes(r: RuntimeDiagnosticsPayload, events: Seq<FrontendRuntimeEvent>, source: Seq<char>)
    requires
        diagnostics_of(r, events, source),
    ensures
        forall|i: int, j: int|
            0 <= i < j < r.active_nodes@.len() ==> (#[trigger] r.active_nodes@[i]).node_id@ != (
            #[trigger] r.active_nodes@[j]).node_id@,
        forall|i: int| 0 <= i < r.active_nodes@.len() ==> (#[trigger] r.active_nodes@[i]).latest_event_time_ms.is_some(),
        forall|i: int, j: int|
            0 <= i < j < r.active_nodes@.len() ==> (#[trigger] r.active_nodes@[i]).latest_event_time_ms.unwrap()
                >= (#[trigger] r.active_nodes@[j]).latest_event_time_ms.unwrap(),
        forall|i: int|
            0 <= i < r.node_details@.len() ==> (#[trigger] r.node_details@[i]).node_id@ == r.active_nodes@[i].node_id@,
        forall|k: Seq<char>| #![trigger lists_node(r, k)] #![trigger shows_node(events, k)] lists_node(r, k) <==> shows_node(events, k),
{
    let sorted = sort_by_time_desc(events);
    let ids = active_ids(sorted);
    lemma_sort_by_time_desc(events);
    lemma_active_ids_distinct(sorted);
    lemma_active_ids_first_positions(sorted);
    assert forall|i: int| 0 <= i < ids.len() implies r.active_nodes@[i].latest_event_time_ms == Some(
        sorted[first_node_pos(sorted, ids[i])].event_time_ms,
    ) by {
        lemma_first_node_pos(sorted, ids[i]);
        assert(node_summary_is(r.active_nodes@[i], ids[i], node_events(sorted, ids[i])));
    }
    assert forall|i: int, j: int|
        0 <= i < j < r.active_nodes@.len() implies (#[trigger] r.active_nodes@[i]).node_id@ != (
        #[trigger] r.active_nodes@[j]).node_id@ by {
        assert(node_summary_is(r.active_nodes@[i], ids[i], node_events(sorted, ids[i])));
        assert(node_summary_is(r.active_nodes@[j], ids[j], node_events(sorted, ids[j])));
    }
    assert forall|i: int| 0 <= i < r.active_nodes@.len() implies (#[trigger] r.active_nodes@[i]).latest_event_time_ms.is_some() by {
        assert(r.active_nodes@[i].latest_event_time_ms == Some(sorted[first_node_pos(sorted, ids[i])].event_time_ms));
    }
    assert forall|i: int, j: int|
        0 <= i < j < r.active_nodes@.len() implies (#[trigger] r.active_nodes@[i]).latest_event_time_ms.unwrap()
            >= (#[trigger] r.active_nodes@[j]).latest_event_time_ms.unwrap() by {
        let pi = first_node_pos(sorted, ids[i]);
        let pj = first_node_pos(sorted, ids[j]);
        assert(r.active_nodes@[i].latest_event_time_ms == Some(sorted[pi].event_time_ms));
        assert(r.active_nodes@[j].latest_event_time_ms == Some(sorted[pj].event_time_ms));
        assert(pi < pj);
        assert(sorted[pi].event_time_ms >= sorted[pj].event_time_ms);
    }
    assert forall|i: int| 0 <= i < r.node_details@.len() implies (#[trigger] r.node_details@[i]).node_id@
        == r.active_nodes@[i].node_id@ by {
        assert(node_summary_is(r.active_nodes@[i], ids[i], node_events(sorted, ids[i])));
        assert(node_detail_is(r.node_details@[i], ids[i], node_events(sorted, ids[i])));
    }
    assert forall|k: Seq<char>| #![trigger lists_node(r, k)] #![trigger shows_node(events, k)] lists_node(r, k) <==> shows_node(events, k) by {
        if lists_node(r, k) {
            let i = choose|i: int| 0 <= i < r.active_nodes@.len() && (#[trigger] r.active_nodes@[i]).node_id@ == k;
            assert(node_summary_is(r.active_nodes@[i], ids[i], node_events(sorted, ids[i])));
            lemma_first_node_pos(sorted, k);
            let f = first_node_pos(sorted, k);
            assert(sorted.contains(sorted[f]));
            assert(events.contains(sorted[f]));
        }
        if shows_node(events, k) {
            let e = choose|e: FrontendRuntimeEvent| #[trigger] events.contains(e) && node_key(e) == Some(k);
            assert(sorted.contains(e));
            let w = choose|w: int| 0 <= w < sorted.len() && sorted[w] == e;
            assert(node_key(sorted[w]).is_some());
            assert(ids.contains(k));
            let i = choose|i: int| 0 <= i < ids.len() && ids[i] == k;
            assert(node_summary_is(r.active_nodes@[i], ids[i], node_events(sorted, ids[i])));
            assert(r.active_nodes@[i].node_id@ == k);
        }
    }
}

/// The number of events that are shown under some node.
pub open spec fn shown_event_count(s: Seq<FrontendRuntimeEvent>) -> int
    decreases s.len(),
{
    if s.len() == 0 {
        0
    } else {
        shown_event_count(s.drop_last()) + if node_key(s.last()).is_some() {
            1int
        } else {
            0int
        }
    }
}

/// The event counts of the entries, added up.
pub open spec fn event_count_total(v: Seq<RuntimeDiagnosticsNodeSummary>) -> int
    decreases v.len(),
{
    if v.len() == 0 {
        0
    } else {
        event_count_total(v.drop_last()) + v.last().event_count
    }
}

/// The numbers of events shown under each of `ids`, added up.
pub open spec fn node_event_total(s: Seq<FrontendRuntimeEvent>, ids: Seq<Seq<char>>) -> int
    decreases ids.len(),
{
    if ids.len() == 0 {
        0
    } else {
        node_event_total(s, ids.drop_last()) + node_events(s, ids.last()).len()
    }
}

proof fn lemma_shown_concat(a: Seq<FrontendRuntimeEvent>, b: Seq<FrontendRuntimeEvent>)
    ensures
        shown_event_count(a + b) == shown_event_count(a) + shown_event_count(b),
    decreases b.len(),
{
    if b.len() == 0 {
        assert(a + b =~= a);
    } else {
        lemma_shown_concat(a, b.drop_last());
        assert((a + b).drop_last() =~= a + b.drop_last());
        assert((a + b).last() == b.last());
    }
}

proof fn lemma_shown_sorted(s: Seq<FrontendRuntimeEvent>)
    ensures
        shown_event_count(sort_by_time_desc(s)) == shown_event_count(s),
    decreases s.len(),
{
    if s.len() > 0 {
        let init = s.drop_last();
        let x = s.last();
        lemma_shown_sorted(init);
        let q = sort_by_time_desc(init);
        lemma_sort_by_time_desc(init);
        lemma_desc_insert_pos(q, x.event_time_ms, 0);
        let pos = desc_insert_pos(q, x.event_time_ms, 0);
        let a = q.subrange(0, pos);
        let b = q.subrange(pos, q.len() as int);
        assert(q =~= a + b);
        assert(q.insert(pos, x) =~= a + (seq![x] + b));
        lemma_shown_concat(a, b);
        lemma_shown_concat(seq![x], b);
        lemma_shown_concat(a, seq![x] + b);
        assert(seq![x].drop_last() =~= Seq::<FrontendRuntimeEvent>::empty());
        assert(seq![x].last() == x);
        assert(shown_event_count(Seq::<FrontendRuntimeEvent>::empty()) == 0);
        assert(shown_event_count(seq![x]) == if node_key(x).is_some() {
            1int
        } else {
            0int
        });
        assert(sort_by_time_desc(s) == q.insert(pos, x));
    }
}

/// One more event adds one to the count of the node it is shown under, when that node is
/// among `ids`.
proof fn lemma_node_event_total_push(s: Seq<FrontendRuntimeEvent>, x: FrontendRuntimeEvent, ids: Seq<Seq<char>>)
    requires
        ids.no_duplicates(),
    ensures
        node_event_total(s.push(x), ids) == node_event_total(s, ids) + if node_key(x).is_some() && ids.contains(
            node_key(x).unwrap(),
        ) {
            1int
        } else {
            0int
        },
    decreases ids.len(),
{
    if ids.len() > 0 {
        let init = ids.drop_last();
        assert(init.no_duplicates()) by {
            assert forall|i: int, j: int| 0 <= i < init.len() && 0 <= j < init.len() && i != j implies init[i]
                != init[j] by {
                assert(init[i] == ids[i] && init[j] == ids[j]);
            }
        }
        lemma_node_event_total_push(s, x, init);
        assert(s.push(x).drop_last() =~= s);
        let k = ids.last();
        assert(ids.contains(k)) by {
            assert(ids[ids.len() - 1] == k);
        }
        match node_key(x) {
            Some(kx) => {
                assert(ids.contains(kx) <==> (init.contains(kx) || kx == k)) by {
                    if ids.contains(kx) {
                        let w = choose|w: int| 0 <= w < ids.len() && ids[w] == kx;
                        if w < init.len() {
                            assert(init[w] == kx);
                        }
                    }
                    if init.contains(kx) {
                        let w = choose|w: int| 0 <= w < init.len() && init[w] == kx;
                        assert(ids[w] == kx);
                    }
                }
                if kx == k {
                    assert(!init.contains(kx)) by {
                        if init.contains(kx) {
                            let w = choose|w: int| 0 <= w < init.len() && init[w] == kx;
                            assert(ids[w] == ids[ids.len() - 1]);
                        }
                    }
                }
            },
            None => {},
        }
    }
}

/// Every event shown under some node is counted under exactly one node.
proof fn lemma_node_event_total(s: Seq<FrontendRuntimeEvent>)
    ensures
        node_event_total(s, active_ids(s)) == shown_event_count(s),
    decreases s.len(),
{
    if s.len() > 0 {
        let init = s.drop_last();
        let x = s.last();
        lemma_node_event_total(init);
        lemma_active_ids_distinct(init);
        lemma_active_ids_distinct(s);
        assert(init.push(x) =~= s);
        let p = active_ids(init);
        lemma_node_event_total_push(init, x, active_ids(s));
        match node_key(x) {
            Some(k) => {
                if !p.contains(k) {
                    lemma_first_node_pos(init, k);
                    if first_node_pos(init, k) >= 0 {
                        let f = first_node_pos(init, k);
                        assert(node_key(init[f]).is_some());
                    }
                    assert(node_events(init, k).len() == 0);
                    assert(active_ids(s) == p.push(k));
                    assert(p.push(k).drop_last() =~= p);
                    lemma_node_event_total_push(init, x, p);
                    assert(active_ids(s).contains(k)) by {
                        assert(active_ids(s)[p.len() as int] == k);
                    }
                } else {
                    assert(active_ids(s) == p);
                }
            },
            None => {
                assert(active_ids(s) == p);
            },
        }
    }
}

proof fn lemma_event_count_total(v: Seq<RuntimeDiagnosticsNodeSummary>, s: Seq<FrontendRuntimeEvent>, ids: Seq<Seq<char>>)
    requires
        v.len() == ids.len(),
        forall|i: int| 0 <= i < v.len() ==> (#[trigger] v[i]).event_count == node_events(s, ids[i]).len(),
    ensures
        event_count_total(v) == node_event_total(s, ids),
    decreases v.len(),
{
    if v.len() > 0 {
        let vi = v.drop_last();
        let ii = ids.drop_last();
        assert forall|i: int| 0 <= i < vi.len() implies (#[trigger] vi[i]).event_count == node_events(s, ii[i]).len() by {
            assert(vi[i] == v[i] && ii[i] == ids[i]);
        }
        lemma_event_count_total(vi, s, ii);
        assert(v[v.len() - 1].event_count == node_events(s, ids[ids.len() - 1]).len());
    }
}

/// The entries' event counts add up to the number of events shown under some node, the
/// node selected first is the first entry, when there is one, and each node's panels list
/// at most five recent events.
pub proof fn lemma_diagnostics_counts(r: RuntimeDiagnosticsPayload, events: Seq<FrontendRuntimeEvent>, source: Seq<char>)
    requires
        diagnostics_of(r, events, source),
    ensures
        event_count_total(r.active_nodes@) == shown_event_count(events),
        opt_text(r.default_selected_node_id) == (if r.active_nodes@.len() > 0 {
            Some(r.active_nodes@[0].node_id@)
        } else {
            None
        }),
        forall|i: int| 0 <= i < r.node_details@.len() ==> (#[trigger] r.node_details@[i]).recent_events@.len() <= 5,
{
    let sorted = sort_by_time_desc(events);
    let ids = active_ids(sorted);
    assert forall|i: int| 0 <= i < r.active_nodes@.len() implies (#[trigger] r.active_nodes@[i]).event_count
        == node_events(sorted, ids[i]).len() by {
        assert(node_summary_is(r.active_nodes@[i], ids[i], node_events(sorted, ids[i])));
    }
    lemma_event_count_total(r.active_nodes@, sorted, ids);
    lemma_node_event_total(sorted);
    lemma_shown_sorted(events);
    if ids.len() > 0 {
        assert(node_summary_is(r.active_nodes@[0], ids[0], node_events(sorted, ids[0])));
    }
    assert forall|i: int| 0 <= i < r.node_details@.len() implies (#[trigger] r.node_details@[i]).recent_events@.len() <= 5 by {
        assert(node_summary_is(r.active_nodes@[i], ids[i], node_events(sorted, ids[i])));
        assert(node_detail_is(r.node_details@[i], ids[i], node_events(sorted, ids[i])));
    }
}

/// The diagnostics of a run's events.
pub fn build_runtime_diagnostics_from_events(events: Vec<FrontendRuntimeEvent>, source: &str) -> (r: RuntimeDiagnosticsPayload)
    ensures
        diagnostics_of(r, events@, source@),
        forall|i: int, j: int|
            0 <= i < j < r.active_nodes@.len() ==> (#[trigger] r.active_nodes@[i]).node_id@ != (
            #[trigger] r.active_nodes@[j]).node_id@,
        forall|i: int, j: int|
            0 <= i < j < r.active_nodes@.len() ==> (#[trigger] r.active_nodes@[i]).latest_event_time_ms.unwrap()
                >= (#[trigger] r.active_nodes@[j]).latest_event_time_ms.unwrap(),
        forall|i: int| 0 <= i < r.active_nodes@.len() ==> (#[trigger] r.active_nodes@[i]).latest_event_time_ms.is_some(),
        forall|i: int|
            0 <= i < r.node_details@.len() ==> (#[trigger] r.node_details@[i]).node_id@ == r.active_nodes@[i].node_id@,
        forall|k: Seq<char>| #![trigger lists_node(r, k)] #![trigger shows_node(events@, k)] lists_node(r, k) <==> shows_node(events@, k),
        event_count_total(r.active_nodes@) == shown_event_count(events@),
        opt_text(r.default_selected_node_id) == (if r.active_nodes@.len() > 0 {
            Some(r.active_nodes@[0].node_id@)
        } else {
            None
        }),
        forall|i: int| 0 <= i < r.node_details@.len() ==> (#[trigger] r.node_details@[i]).recent_events@.len() <= 5,
{
    let ghost given = events@;
    let sorted = sort_events_newest_first(events);
    let ids = active_node_ids(&sorted);
    let ghost idm = texts_model(ids@);
    let mut active_nodes: Vec<RuntimeDiagnosticsNodeSummary> = Vec::new();
    let mut node_details: Vec<RuntimeDiagnosticsNodeDetail> = Vec::new();
    let mut i: usize = 0;
    while i < ids.len()
        invariant
            idm == texts_model(ids@),
            idm == active_ids(sorted@),
            i <= ids@.len(),
            active_nodes@.len() == i,
            node_details@.len() == i,
            forall|j: int|
                0 <= j < i ==> {
                    &&& node_summary_is(#[trigger] active_nodes@[j], idm[j], node_events(sorted@, idm[j]))
                    &&& node_detail_is(node_details@[j], idm[j], node_events(sorted@, idm[j]))
                },
        decreases ids@.len() - i,
    {
        let id = ids[i].as_str();
        assert(idm[i as int] == id@);
        let evs = collect_node_events(&sorted, id);
        active_nodes.push(node_summary(id, &evs));
        node_details.push(node_detail(id, &evs));
        i += 1;
    }
    let default_selected_node_id = if ids.len() > 0 {
        assert(idm[0] == ids@[0]@);
        Some(owned(ids[0].as_str()))
    } else {
        None
    };
    let payload = RuntimeDiagnosticsPayload { source: owned(source), default_selected_node_id, active_nodes, node_details };
    proof {
        lemma_diagnostics_nodes(payload, given, source@);
        lemma_diagnostics_counts(payload, given, source@);
    }
    payload
}

} // verus!
