//! The capability check of a runtime configuration: which modes, modules, exchanges and
//! symbols the current beta supports, and which agent and risk settings are well formed.
use vstd::prelude::*;
use crate::json::{json_get_str, Json, JsonValue};
use crate::text::{ascii_lower_seq, chars_of, is_digit, owned, str_eq, text_of, trim, trim_str};

verus! {

broadcast use vstd::std_specs::vec::group_vec_axioms;

/// The pieces of a text between commas (`str::split(',')`): one more than there are
/// commas.
pub open spec fn comma_pieces(s: Seq<char>) -> Seq<Seq<char>>
    decreases s.len(),
{
    if s.len() == 0 {
        seq![Seq::empty()]
    } else {
        let p = comma_pieces(s.drop_last());
        if s.last() == ',' {
            p.push(Seq::empty())
        } else {
            p.update(p.len() - 1, p.last().push(s.last()))
        }
    }
}

/// The trimmed pieces that are not empty, in order.
pub open spec fn kept_pieces(pieces: Seq<Seq<char>>) -> Seq<Seq<char>>
    decreases pieces.len(),
{
    if pieces.len() == 0 {
        seq![]
    } else {
        let p = kept_pieces(pieces.drop_last());
        let t = trim(pieces.last());
        if t.len() > 0 {
            p.push(t)
        } else {
            p
        }
    }
}

/// The values of a comma-separated list: each item trimmed, empty items dropped.
pub open spec fn csv_values(s: Seq<char>) -> Seq<Seq<char>> {
    kept_pieces(comma_pieces(s))
}

proof fn lemma_comma_pieces_nonempty(s: Seq<char>)
    ensures
        comma_pieces(s).len() >= 1,
    decreases s.len(),
{
    if s.len() > 0 {
        lemma_comma_pieces_nonempty(s.drop_last());
    }
}

pub open spec fn texts_model(v: Seq<String>) -> Seq<Seq<char>> {
    v.map_values(|s: String| s@)
}

fn push_kept(out: &mut Vec<String>, piece: &Vec<char>)
    ensures
        texts_model(final(out)@) == (if trim(piece@).len() > 0 {
            texts_model(old(out)@).push(trim(piece@))
        } else {
            texts_model(old(out)@)
        }),
{
    let whole = text_of(piece);
    let t = trim_str(whole.as_str());
    if t.unicode_len() > 0 {
        out.push(owned(t));
        assert(texts_model(final(out)@) =~= texts_model(old(out)@).push(trim(piece@)));
    }
}

/// The values of a comma-separated list.
pub fn config_csv_items(s: &str) -> (r: Vec<String>)
    ensures
        texts_model(r@) == csv_values(s@),
{
    let chars = chars_of(s);
    let mut out: Vec<String> = Vec::new();
    let mut piece: Vec<char> = Vec::new();
    let mut i: usize = 0;
    while i < chars.len()
        invariant
            chars@ == s@,
            i <= chars@.len(),
            comma_pieces(s@.subrange(0, i as int)).len() >= 1,
            texts_model(out@) == kept_pieces(comma_pieces(s@.subrange(0, i as int)).drop_last()),
            piece@ == comma_pieces(s@.subrange(0, i as int)).last(),
        decreases chars@.len() - i,
    {
        let ghost pre = s@.subrange(0, i as int);
        let ghost next = s@.subrange(0, i + 1);
        let ghost p = comma_pieces(pre);
        assert(next.drop_last() =~= pre);
        assert(next.last() == chars@[i as int]);
        let c = chars[i];
        if c == ',' {
            push_kept(&mut out, &piece);
            piece = Vec::new();
            proof {
                let q = p.push(Seq::<char>::empty());
                assert(q.drop_last() =~= p);
                assert(p.drop_last().push(p.last()) =~= p);
            }
        } else {
            piece.push(c);
            proof {
                let q = p.update(p.len() - 1, p.last().push(c));
                assert(q.drop_last() =~= p.drop_last());
            }
        }
        i += 1;
    }
    assert(s@.subrange(0, chars@.len() as int) =~= s@);
    proof {
        let p = comma_pieces(s@);
        assert(p.drop_last().push(p.last()) =~= p);
    }
    push_kept(&mut out, &piece);
    out
}

/// The comma-separated values of a string setting, none when it is not set.
pub open spec fn config_csv(config: Json, key: Seq<char>) -> Seq<Seq<char>> {
    match json_get_str(config, key) {
        Some(v) => csv_values(v),
        None => seq![],
    }
}

/// The comma-separated values of a string setting.
pub fn config_csv_values(config: &JsonValue, key: &str) -> (r: Vec<String>)
    ensures
        texts_model(r@) == config_csv(config@, key@),
{
    match crate::json::json_get_str_exec(config, key) {
        Some(v) => config_csv_items(v.as_str()),
        None => {
            let r: Vec<String> = Vec::new();
            assert(texts_model(r@) =~= Seq::<Seq<char>>::empty());
            r
        },
    }
}

/// The first position from `i` on where `c` occurs, or the length when it does not.
pub open spec fn find_from(s: Seq<char>, c: char, i: int) -> int
    decreases s.len() - i,
{
    if i < 0 || i >= s.len() {
        s.len() as int
    } else if s[i] == c {
        i
    } else {
        find_from(s, c, i + 1)
    }
}

/// Every character in `[a, b)` is a decimal digit.
pub open spec fn digits_between(s: Seq<char>, a: int, b: int) -> bool {
    forall|k: int| a <= k < b ==> is_digit(#[trigger] s[k])
}

/// What `str::parse::<f64>` accepts, by the grammar its documentation gives for the
/// lower-cased text: an optional sign, then `inf`, `infinity`, `nan`, or a number with
/// at least one digit, at most one decimal point, and an optional exponent (`e`, an
/// optional sign, at least one digit).
pub open spec fn float_literal(s: Seq<char>) -> bool {
    let l = ascii_lower_seq(s);
    let st: int = if l.len() > 0 && (l[0] == '+' || l[0] == '-') {
        1
    } else {
        0
    };
    let body = l.subrange(st, l.len() as int);
    if body == seq!['i', 'n', 'f'] || body == seq!['i', 'n', 'f', 'i', 'n', 'i', 't', 'y'] || body == seq![
        'n',
        'a',
        'n',
    ] {
        true
    } else {
        let e = find_from(l, 'e', st);
        let d0 = find_from(l, '.', st);
        let d = if d0 < e {
            d0
        } else {
            e
        };
        let mantissa_digits = (d - st) + if d < e {
            e - d - 1
        } else {
            0
        };
        let mantissa_ok = digits_between(l, st, d) && (d < e ==> digits_between(l, d + 1, e))
            && mantissa_digits > 0;
        let j0 = e + 1;
        let j = if j0 < l.len() && (l[j0] == '+' || l[j0] == '-') {
            j0 + 1
        } else {
            j0
        };
        let exponent_ok = e == l.len() || (j < l.len() && digits_between(l, j, l.len() as int));
        mantissa_ok && exponent_ok
    }
}

fn find_from_exec(l: &Vec<char>, c: char, i: usize) -> (r: usize)
    requires
        i <= l@.len(),
    ensures
        r == find_from(l@, c, i as int),
        i <= r <= l@.len(),
        forall|k: int| i <= k < r ==> l@[k] != c,
{
    let mut j = i;
    while j < l.len() && l[j] != c
        invariant
            i <= j <= l@.len(),
            find_from(l@, c, i as int) == find_from(l@, c, j as int),
            forall|k: int| i <= k < j ==> l@[k] != c,
        decreases l@.len() - j,
    {
        j += 1;
    }
    j
}

fn digits_between_exec(l: &Vec<char>, a: usize, b: usize) -> (r: bool)
    requires
        a <= b <= l@.len(),
    ensures
        r == digits_between(l@, a as int, b as int),
{
    let mut k = a;
    while k < b
        invariant
            a <= k <= b,
            b <= l@.len(),
            digits_between(l@, a as int, k as int),
        decreases b - k,
    {
        let c = l[k];
        if !('0' <= c && c <= '9') {
            return false;
        }
        k += 1;
    }
    true
}

fn seq_is(l: &Vec<char>, st: usize, word: &Vec<char>) -> (r: bool)
    requires
        st <= l@.len(),
    ensures
        r == (l@.subrange(st as int, l@.len() as int) == word@),
{
    if l.len() - st != word.len() {
        assert(l@.subrange(st as int, l@.len() as int).len() != word@.len());
        return false;
    }
    let mut k: usize = 0;
    while k < word.len()
        invariant
            st <= l@.len(),
            l@.len() - st == word@.len(),
            st + word@.len() == l.len(),
            k <= word@.len(),
            forall|m: int| 0 <= m < k ==> l@[st + m] == word@[m],
        decreases word@.len() - k,
    {
        if l[st + k] != word[k] {
            assert(l@.subrange(st as int, l@.len() as int)[k as int] != word@[k as int]);
            return false;
        }
        k += 1;
    }
    assert(l@.subrange(st as int, l@.len() as int) =~= word@);
    true
}

/// Whether `str::parse::<f64>` accepts the text.
pub fn is_float_literal(s: &str) -> (r: bool)
    ensures
        r == float_literal(s@),
{
    let l = chars_of(crate::text::to_ascii_lower(s).as_str());
    let n = l.len();
    let st: usize = if n > 0 && (l[0] == '+' || l[0] == '-') {
        1
    } else {
        0
    };
    if seq_is(&l, st, &vec!['i', 'n', 'f']) || seq_is(&l, st, &vec!['i', 'n', 'f', 'i', 'n', 'i', 't', 'y'])
        || seq_is(&l, st, &vec!['n', 'a', 'n']) {
        return true;
    }
    let e = find_from_exec(&l, 'e', st);
    let d0 = find_from_exec(&l, '.', st);
    let d = if d0 < e {
        d0
    } else {
        e
    };
    let count = (d - st) + if d < e {
        e - d - 1
    } else {
        0
    };
    let mantissa_ok = digits_between_exec(&l, st, d) && (d >= e || digits_between_exec(&l, d + 1, e))
        && count > 0;
    let exponent_ok = if e == n {
        true
    } else {
        let j0 = e + 1;
        let j = if j0 < n && (l[j0] == '+' || l[j0] == '-') {
            j0 + 1
        } else {
            j0
        };
        j < n && digits_between_exec(&l, j, n)
    };
    mantissa_ok && exponent_ok
}

/// One problem that the capability check reports: a code, the setting it is about, a
/// message, and, for unsupported modules, why the module is not enabled.
#[derive(Clone, Debug)]
pub struct ApiErrorDetail {
    pub code: String,
    pub target: Option<String>,
    pub message: String,
    pub span_label: Option<String>,
    pub reason: Option<String>,
}

/// A problem as plain values: code, target, message, reason.
pub type DetailModel = (Seq<char>, Seq<char>, Seq<char>, Option<Seq<char>>);

pub open spec fn opt_text(o: Option<String>) -> Option<Seq<char>> {
    match o {
        Some(s) => Some(s@),
        None => None,
    }
}

/// `d` reports the problem `m`, with its target set and no span label.
pub open spec fn detail_is(d: ApiErrorDetail, m: DetailModel) -> bool {
    &&& d.code@ == m.0
    &&& opt_text(d.target) == Some(m.1)
    &&& d.message@ == m.2
    &&& d.span_label.is_none()
    &&& opt_text(d.reason) == m.3
}

/// The details report the problems, one for one and in order.
pub open spec fn details_are(v: Seq<ApiErrorDetail>, ms: Seq<DetailModel>) -> bool {
    &&& v.len() == ms.len()
    &&& forall|i: int| 0 <= i < v.len() ==> detail_is(#[trigger] v[i], ms[i])
}

/// How a decimal setting compares with 0 and 1.
#[derive(Clone, Copy, PartialEq, Eq, Debug, Structural)]
pub enum UnitIntervalReading {
    BelowZero,
    WithinUnit,
    AboveOne,
}

/// A module of a runtime configuration, as the capability check reads it.
#[derive(Debug)]
pub struct CapabilityCheckNode {
    pub id: String,
    pub module_key: String,
    pub config: JsonValue,
    /// How the settings of the configuration that are numbers compare with 0 and 1, by
    /// setting key.
    pub limit_readings: Vec<(String, UnitIntervalReading)>,
}

/// A runtime configuration, as the capability check reads it.
#[derive(Debug)]
pub struct RuntimeConfigCapabilityInput {
    pub mode: String,
    pub runtime_control: Option<CapabilityCheckNode>,
    pub data_sources: Vec<CapabilityCheckNode>,
    pub intent_generators: Vec<CapabilityCheckNode>,
    pub agents: Vec<CapabilityCheckNode>,
    pub risk_controls: Vec<CapabilityCheckNode>,
    pub executions: Vec<CapabilityCheckNode>,
}

/// What the current beta supports, and why modules that are not enabled are not.
#[derive(Clone, Debug)]
pub struct CapabilityCatalog {
    pub runtime_mode_keys: Vec<String>,
    pub frontend_module_keys: Vec<String>,
    pub exchanges: Vec<String>,
    pub symbols: Vec<String>,
    pub execution_module_keys: Vec<String>,
    pub unsupported_module_reasons: Vec<(String, String)>,
}

pub open spec fn listed(v: Seq<String>, k: Seq<char>) -> bool {
    texts_model(v).contains(k)
}

/// The reason the first pair for module `k` gives.
pub open spec fn reason_for(pairs: Seq<(String, String)>, k: Seq<char>) -> Option<Seq<char>>
    decreases pairs.len(),
{
    if pairs.len() == 0 {
        None
    } else if pairs[0].0@ == k {
        Some(pairs[0].1@)
    } else {
        reason_for(pairs.drop_first(), k)
    }
}

/// The reading the first pair for setting `k` gives.
pub open spec fn reading_for(pairs: Seq<(String, UnitIntervalReading)>, k: Seq<char>) -> Option<UnitIntervalReading>
    decreases pairs.len(),
{
    if pairs.len() == 0 {
        None
    } else if pairs[0].0@ == k {
        Some(pairs[0].1)
    } else {
        reading_for(pairs.drop_first(), k)
    }
}

/// The problem of a module that is not enabled for compile.
pub open spec fn module_problems(n: CapabilityCheckNode, cat: CapabilityCatalog) -> Seq<DetailModel> {
    if listed(cat.frontend_module_keys@, n.module_key@) {
        seq![]
    } else {
        seq![(
            "unsupported_module"@,
            n.id@,
            "module `"@ + n.module_key@ + "` is not enabled for compile in the current beta"@,
            reason_for(cat.unsupported_module_reasons@, n.module_key@),
        )]
    }
}

/// The problem of a string setting whose value is not on a list.
pub open spec fn listed_value_problems(
    n: CapabilityCheckNode,
    key: Seq<char>,
    allowed: Seq<String>,
    code: Seq<char>,
    what: Seq<char>,
) -> Seq<DetailModel> {
    match json_get_str(n.config@, key) {
        Some(x) => if listed(allowed, x) {
            seq![]
        } else {
            seq![(code, n.id@, what + " `"@ + x + "` is not supported in the current beta"@, None)]
        },
        None => seq![],
    }
}

/// The problems of a data source: its module, exchange and instrument.
pub open spec fn data_source_problems(n: CapabilityCheckNode, cat: CapabilityCatalog) -> Seq<DetailModel> {
    module_problems(n, cat) + listed_value_problems(n, "exchange"@, cat.exchanges@, "unsupported_exchange"@, "exchange"@)
        + listed_value_problems(n, "instrument"@, cat.symbols@, "unsupported_symbol"@, "symbol"@)
}

/// The problems of the symbols an agent rebalances, one per unsupported symbol.
pub open spec fn rebalance_symbol_problems(id: Seq<char>, symbols: Seq<Seq<char>>, allowed: Seq<String>) -> Seq<DetailModel>
    decreases symbols.len(),
{
    if symbols.len() == 0 {
        seq![]
    } else {
        let p = rebalance_symbol_problems(id, symbols.drop_last(), allowed);
        let x = symbols.last();
        if listed(allowed, x) {
            p
        } else {
            p.push((
                "unsupported_symbol"@,
                id + ".config.rebalance_symbols"@,
                "rebalance symbol `"@ + x + "` is not supported in the current beta"@,
                None,
            ))
        }
    }
}

/// The rebalance schedules an agent may use.
pub open spec fn known_schedule(s: Seq<char>) -> bool {
    s == "every_slow"@ || s == "every_1d"@ || s == "weekly"@
}

/// The problems of an agent: its module, the symbols it rebalances, its schedule, and its
/// target weights, which must all be numbers.
pub open spec fn agent_problems(n: CapabilityCheckNode, cat: CapabilityCatalog) -> Seq<DetailModel> {
    let c = n.config@;
    let symbols = config_csv(c, "rebalance_symbols"@);
    let schedule = match json_get_str(c, "rebalance_schedule"@) {
        Some(s) => if s.len() > 0 && !known_schedule(s) {
            seq![(
                "invalid_rebalance_schedule"@,
                n.id@ + ".config.rebalance_schedule"@,
                "rebalance schedule `"@ + s + "` is not supported"@,
                None,
            )]
        } else {
            seq![]
        },
        None => seq![],
    };
    let weights = match json_get_str(c, "rebalance_target_weights"@) {
        Some(w) => if forall|i: int| 0 <= i < csv_values(w).len() ==> float_literal(#[trigger] csv_values(w)[i]) {
            seq![]
        } else {
            seq![(
                "invalid_rebalance_target_weights"@,
                n.id@ + ".config.rebalance_target_weights"@,
                "rebalance target weights must be comma-separated numbers"@,
                None,
            )]
        },
        None => seq![],
    };
    module_problems(n, cat) + rebalance_symbol_problems(n.id@, symbols, cat.symbols@) + schedule + weights
}

/// The risk settings that must lie between 0 and 1.
pub open spec fn unit_interval_keys() -> Seq<Seq<char>> {
    seq![
        "max_position"@,
        "max_single_weight"@,
        "max_concentration"@,
        "max_symbol_net_exposure"@,
        "max_portfolio_net_exposure"@,
    ]
}

/// The risk settings that must not be negative.
pub open spec fn non_negative_keys() -> Seq<Seq<char>> {
    seq!["max_turnover"@, "min_trade_weight"@, "max_total_leverage"@, "max_exchange_leverage"@]
}

/// The problems of the risk settings under `keys`: with `upper`, each must lie between 0
/// and 1, else each must not be negative.
pub open spec fn limit_problems(n: CapabilityCheckNode, keys: Seq<Seq<char>>, upper: bool) -> Seq<DetailModel>
    decreases keys.len(),
{
    if keys.len() == 0 {
        seq![]
    } else {
        let p = limit_problems(n, keys.drop_last(), upper);
        let k = keys.last();
        let bad = match reading_for(n.limit_readings@, k) {
            Some(UnitIntervalReading::BelowZero) => true,
            Some(UnitIntervalReading::AboveOne) => upper,
            _ => false,
        };
        if bad {
            p.push((
                "invalid_risk_limit"@,
                n.id@ + ".config."@ + k,
                if upper {
                    "risk field `"@ + k + "` must be between 0 and 1"@
                } else {
                    "risk field `"@ + k + "` must be >= 0"@
                },
                None,
            ))
        } else {
            p
        }
    }
}

/// The problems of a risk control: its module and its limits.
pub open spec fn risk_problems(n: CapabilityCheckNode, cat: CapabilityCatalog) -> Seq<DetailModel> {
    module_problems(n, cat) + limit_problems(n, unit_interval_keys(), true) + limit_problems(
        n,
        non_negative_keys(),
        false,
    )
}

/// Whether a limit problem names the setting at `target`.
pub open spec fn names_limit_target(ms: Seq<DetailModel>, target: Seq<char>) -> bool {
    exists|i: int| 0 <= i < ms.len() && (#[trigger] ms[i]).0 == "invalid_risk_limit"@ && ms[i].1 == target
}

/// Whether a reading breaks its range: below 0 always, above 1 where 1 is the bound.
pub open spec fn reading_out_of_range(r: Option<UnitIntervalReading>, upper: bool) -> bool {
    match r {
        Some(UnitIntervalReading::BelowZero) => true,
        Some(UnitIntervalReading::AboveOne) => upper,
        _ => false,
    }
}

proof fn lemma_limit_problems_targets(n: CapabilityCheckNode, keys: Seq<Seq<char>>, upper: bool, k: Seq<char>)
    ensures
        names_limit_target(limit_problems(n, keys, upper), n.id@ + ".config."@ + k) <==> (keys.contains(k)
            && reading_out_of_range(reading_for(n.limit_readings@, k), upper)),
    decreases keys.len(),
{
    let t = n.id@ + ".config."@ + k;
    if keys.len() > 0 {
        let prev = keys.drop_last();
        let last = keys.last();
        lemma_limit_problems_targets(n, prev, upper, k);
        let p = limit_problems(n, prev, upper);
        let tl = n.id@ + ".config."@ + last;
        assert(tl == t <==> last == k) by {
            if tl == t {
                let pre = n.id@ + ".config."@;
                assert(last =~= tl.subrange(pre.len() as int, tl.len() as int));
                assert(k =~= t.subrange(pre.len() as int, t.len() as int));
            }
        }
        assert(keys.contains(k) <==> (prev.contains(k) || last == k)) by {
            if keys.contains(k) {
                let w = choose|w: int| 0 <= w < keys.len() && keys[w] == k;
                if w < prev.len() {
                    assert(prev[w] == k);
                }
            }
            if prev.contains(k) {
                let w = choose|w: int| 0 <= w < prev.len() && prev[w] == k;
                assert(keys[w] == k);
            }
            if last == k {
                assert(keys[keys.len() - 1] == k);
            }
        }
        if reading_out_of_range(reading_for(n.limit_readings@, last), upper) {
            let m: DetailModel = (
                "invalid_risk_limit"@,
                tl,
                if upper {
                    "risk field `"@ + last + "` must be between 0 and 1"@
                } else {
                    "risk field `"@ + last + "` must be >= 0"@
                },
                None,
            );
            assert(limit_problems(n, keys, upper) == p.push(m));
            let q = p.push(m);
            assert(names_limit_target(q, t) <==> (names_limit_target(p, t) || tl == t)) by {
                if names_limit_target(q, t) {
                    let w = choose|w: int| 0 <= w < q.len() && (#[trigger] q[w]).0 == "invalid_risk_limit"@ && q[w].1 == t;
                    if w < p.len() {
                        assert(p[w] == q[w]);
                    }
                }
                if names_limit_target(p, t) {
                    let w = choose|w: int| 0 <= w < p.len() && (#[trigger] p[w]).0 == "invalid_risk_limit"@ && p[w].1 == t;
                    assert(q[w] == p[w]);
                }
                if tl == t {
                    assert(q[p.len() as int] == m);
                }
            }
        } else {
            assert(limit_problems(n, keys, upper) == p);
        }
    }
}

/// A risk control's limit settings are refused exactly where they leave their range:
/// the settings that must lie between 0 and 1 when below 0 or above 1 (both bounds
/// pass), the settings that must not be negative when below 0. Each refusal names the
/// setting as `<id>.config.<key>`.
pub proof fn lemma_risk_limit_ranges(n: CapabilityCheckNode, k: Seq<char>)
    ensures
        names_limit_target(
            limit_problems(n, unit_interval_keys(), true) + limit_problems(n, non_negative_keys(), false),
            n.id@ + ".config."@ + k,
        ) <==> ((unit_interval_keys().contains(k) && reading_out_of_range(reading_for(n.limit_readings@, k), true))
            || (non_negative_keys().contains(k) && reading_out_of_range(reading_for(n.limit_readings@, k), false))),
{
    let a = limit_problems(n, unit_interval_keys(), true);
    let b = limit_problems(n, non_negative_keys(), false);
    let t = n.id@ + ".config."@ + k;
    lemma_limit_problems_targets(n, unit_interval_keys(), true, k);
    lemma_limit_problems_targets(n, non_negative_keys(), false, k);
    assert(names_limit_target(a + b, t) <==> (names_limit_target(a, t) || names_limit_target(b, t))) by {
        if names_limit_target(a + b, t) {
            let w = choose|w: int| 0 <= w < (a + b).len() && (#[trigger] (a + b)[w]).0 == "invalid_risk_limit"@ && (a + b)[w].1 == t;
            if w < a.len() {
                assert(a[w] == (a + b)[w]);
            } else {
                assert(b[w - a.len()] == (a + b)[w]);
            }
        }
        if names_limit_target(a, t) {
            let w = choose|w: int| 0 <= w < a.len() && (#[trigger] a[w]).0 == "invalid_risk_limit"@ && a[w].1 == t;
            assert((a + b)[w] == a[w]);
        }
        if names_limit_target(b, t) {
            let w = choose|w: int| 0 <= w < b.len() && (#[trigger] b[w]).0 == "invalid_risk_limit"@ && b[w].1 == t;
            assert((a + b)[a.len() + w] == b[w]);
        }
    }
}

/// The problems of an execution: its module, and whether the runtime can execute with it.
pub open spec fn execution_problems(n: CapabilityCheckNode, cat: CapabilityCatalog) -> Seq<DetailModel> {
    module_problems(n, cat) + if listed(cat.execution_module_keys@, n.module_key@) {
        seq![]
    } else {
        seq![(
            "unsupported_execution_module"@,
            n.id@,
            "execution module `"@ + n.module_key@ + "` is not supported in the current beta"@,
            None,
        )]
    }
}

/// The kinds of module of a runtime configuration.
#[derive(Clone, Copy, PartialEq, Eq, Debug, Structural)]
pub enum ModuleKind {
    DataSource,
    IntentGenerator,
    Agent,
    RiskControl,
    Execution,
}

pub open spec fn kind_problems(k: ModuleKind, n: CapabilityCheckNode, cat: CapabilityCatalog) -> Seq<DetailModel> {
    match k {
        ModuleKind::DataSource => data_source_problems(n, cat),
        ModuleKind::IntentGenerator => module_problems(n, cat),
        ModuleKind::Agent => agent_problems(n, cat),
        ModuleKind::RiskControl => risk_problems(n, cat),
        ModuleKind::Execution => execution_problems(n, cat),
    }
}

/// The problems of a list of modules of one kind, module after module.
pub open spec fn list_problems(k: ModuleKind, ns: Seq<CapabilityCheckNode>, cat: CapabilityCatalog) -> Seq<DetailModel>
    decreases ns.len(),
{
    if ns.len() == 0 {
        seq![]
    } else {
        list_problems(k, ns.drop_last(), cat) + kind_problems(k, ns.last(), cat)
    }
}

/// The problem of the runtime control's module, when there is a runtime control.
pub open spec fn control_problems(input: RuntimeConfigCapabilityInput, cat: CapabilityCatalog) -> Seq<DetailModel> {
    match input.runtime_control {
        Some(n) => module_problems(n, cat),
        None => seq![],
    }
}

/// Every problem of a runtime configuration, in the order the check finds them: the
/// mode, the runtime control, then the data sources, intent generators, agents, risk
/// controls and executions.
pub open spec fn config_problems(input: RuntimeConfigCapabilityInput, cat: CapabilityCatalog) -> Seq<DetailModel> {
    let mode = if listed(cat.runtime_mode_keys@, input.mode@) {
        seq![]
    } else {
        seq![(
            "unsupported_runtime_mode"@,
            "metadata.mode"@,
            "runtime mode `"@ + input.mode@ + "` is not supported in the current beta"@,
            None,
        )]
    };
    mode + control_problems(input, cat) + list_problems(ModuleKind::DataSource, input.data_sources@, cat) + list_problems(
        ModuleKind::IntentGenerator,
        input.intent_generators@,
        cat,
    ) + list_problems(ModuleKind::Agent, input.agents@, cat) + list_problems(
        ModuleKind::RiskControl,
        input.risk_controls@,
        cat,
    ) + list_problems(ModuleKind::Execution, input.executions@, cat)
}

/// No problem in `ms` is a refused risk limit.
pub open spec fn no_limit_problem(ms: Seq<DetailModel>) -> bool {
    forall|i: int| 0 <= i < ms.len() ==> (#[trigger] ms[i]).0 != "invalid_risk_limit"@
}

/// A setting key without a `.`, as the risk settings are.
pub open spec fn dot_free(k: Seq<char>) -> bool {
    forall|i: int| 0 <= i < k.len() ==> k[i] != '.'
}

proof fn lemma_names_concat(a: Seq<DetailModel>, b: Seq<DetailModel>, t: Seq<char>)
    ensures
        names_limit_target(a + b, t) <==> (names_limit_target(a, t) || names_limit_target(b, t)),
{
    if names_limit_target(a + b, t) {
        let w = choose|w: int| 0 <= w < (a + b).len() && (#[trigger] (a + b)[w]).0 == "invalid_risk_limit"@ && (a + b)[w].1 == t;
        if w < a.len() {
            assert(a[w] == (a + b)[w]);
        } else {
            assert(b[w - a.len()] == (a + b)[w]);
        }
    }
    if names_limit_target(a, t) {
        let w = choose|w: int| 0 <= w < a.len() && (#[trigger] a[w]).0 == "invalid_risk_limit"@ && a[w].1 == t;
        assert((a + b)[w] == a[w]);
    }
    if names_limit_target(b, t) {
        let w = choose|w: int| 0 <= w < b.len() && (#[trigger] b[w]).0 == "invalid_risk_limit"@ && b[w].1 == t;
        assert((a + b)[a.len() + w] == b[w]);
    }
}

proof fn lemma_no_limit_concat(a: Seq<DetailModel>, b: Seq<DetailModel>)
    requires
        no_limit_problem(a),
        no_limit_problem(b),
    ensures
        no_limit_problem(a + b),
{
    assert forall|i: int| 0 <= i < (a + b).len() implies (#[trigger] (a + b)[i]).0 != "invalid_risk_limit"@ by {
        if i < a.len() {
            assert((a + b)[i] == a[i]);
        } else {
            assert((a + b)[i] == b[i - a.len()]);
        }
    }
}

proof fn lemma_other_codes()
    ensures
        "unsupported_module"@ != "invalid_risk_limit"@,
        "unsupported_exchange"@ != "invalid_risk_limit"@,
        "unsupported_symbol"@ != "invalid_risk_limit"@,
        "invalid_rebalance_schedule"@ != "invalid_risk_limit"@,
        "invalid_rebalance_target_weights"@ != "invalid_risk_limit"@,
        "unsupported_execution_module"@ != "invalid_risk_limit"@,
        "unsupported_runtime_mode"@ != "invalid_risk_limit"@,
{
    reveal_strlit("invalid_risk_limit");
    reveal_strlit("unsupported_module");
    reveal_strlit("unsupported_exchange");
    reveal_strlit("unsupported_symbol");
    reveal_strlit("invalid_rebalance_schedule");
    reveal_strlit("invalid_rebalance_target_weights");
    reveal_strlit("unsupported_execution_module");
    reveal_strlit("unsupported_runtime_mode");
    assert("unsupported_module"@[0] != "invalid_risk_limit"@[0]);
    assert("unsupported_exchange"@.len() != "invalid_risk_limit"@.len());
    assert("unsupported_symbol"@[0] != "invalid_risk_limit"@[0]);
    assert("invalid_rebalance_schedule"@.len() != "invalid_risk_limit"@.len());
    assert("invalid_rebalance_target_weights"@.len() != "invalid_risk_limit"@.len());
    assert("unsupported_execution_module"@.len() != "invalid_risk_limit"@.len());
    assert("unsupported_runtime_mode"@.len() != "invalid_risk_limit"@.len());
}

proof fn lemma_rebalance_no_limit(id: Seq<char>, symbols: Seq<Seq<char>>, allowed: Seq<String>)
    ensures
        no_limit_problem(rebalance_symbol_problems(id, symbols, allowed)),
    decreases symbols.len(),
{
    lemma_other_codes();
    if symbols.len() > 0 {
        lemma_rebalance_no_limit(id, symbols.drop_last(), allowed);
        let p = rebalance_symbol_problems(id, symbols.drop_last(), allowed);
        let q = rebalance_symbol_problems(id, symbols, allowed);
        assert forall|i: int| 0 <= i < q.len() implies (#[trigger] q[i]).0 != "invalid_risk_limit"@ by {
            if i < p.len() {
                assert(q[i] == p[i]);
            }
        }
    }
}

/// Only risk controls report refused risk limits.
proof fn lemma_kind_no_limit(k: ModuleKind, n: CapabilityCheckNode, cat: CapabilityCatalog)
    requires
        k != ModuleKind::RiskControl,
    ensures
        no_limit_problem(kind_problems(k, n, cat)),
{
    lemma_other_codes();
    let m = module_problems(n, cat);
    assert(no_limit_problem(m));
    match k {
        ModuleKind::DataSource => {
            let a = listed_value_problems(n, "exchange"@, cat.exchanges@, "unsupported_exchange"@, "exchange"@);
            let b = listed_value_problems(n, "instrument"@, cat.symbols@, "unsupported_symbol"@, "symbol"@);
            assert(no_limit_problem(a));
            assert(no_limit_problem(b));
            lemma_no_limit_concat(m, a);
            lemma_no_limit_concat(m + a, b);
        },
        ModuleKind::IntentGenerator => {},
        ModuleKind::Agent => {
            let c = n.config@;
            let s = rebalance_symbol_problems(n.id@, config_csv(c, "rebalance_symbols"@), cat.symbols@);
            lemma_rebalance_no_limit(n.id@, config_csv(c, "rebalance_symbols"@), cat.symbols@);
            let schedule = match json_get_str(c, "rebalance_schedule"@) {
                Some(s) => if s.len() > 0 && !known_schedule(s) {
                    seq![(
                        "invalid_rebalance_schedule"@,
                        n.id@ + ".config.rebalance_schedule"@,
                        "rebalance schedule `"@ + s + "` is not supported"@,
                        None,
                    )]
                } else {
                    seq![]
                },
                None => seq![],
            };
            let weights = match json_get_str(c, "rebalance_target_weights"@) {
                Some(w) => if forall|i: int| 0 <= i < csv_values(w).len() ==> float_literal(#[trigger] csv_values(w)[i]) {
                    seq![]
                } else {
                    seq![(
                        "invalid_rebalance_target_weights"@,
                        n.id@ + ".config.rebalance_target_weights"@,
                        "rebalance target weights must be comma-separated numbers"@,
                        None,
                    )]
                },
                None => seq![],
            };
            assert(no_limit_problem(schedule));
            assert(no_limit_problem(weights));
            lemma_no_limit_concat(m, s);
            lemma_no_limit_concat(m + s, schedule);
            lemma_no_limit_concat(m + s + schedule, weights);
            assert(kind_problems(k, n, cat) == m + s + schedule + weights);
        },
        ModuleKind::RiskControl => {},
        ModuleKind::Execution => {
            let e = if listed(cat.execution_module_keys@, n.module_key@) {
                seq![]
            } else {
                seq![(
                    "unsupported_execution_module"@,
                    n.id@,
                    "execution module `"@ + n.module_key@ + "` is not supported in the current beta"@,
                    None,
                )]
            };
            assert(no_limit_problem(e));
            lemma_no_limit_concat(m, e);
        },
    }
}

proof fn lemma_list_no_limit(k: ModuleKind, ns: Seq<CapabilityCheckNode>, cat: CapabilityCatalog)
    requires
        k != ModuleKind::RiskControl,
    ensures
        no_limit_problem(list_problems(k, ns, cat)),
    decreases ns.len(),
{
    if ns.len() > 0 {
        lemma_list_no_limit(k, ns.drop_last(), cat);
        lemma_kind_no_limit(k, ns.last(), cat);
        lemma_no_limit_concat(list_problems(k, ns.drop_last(), cat), kind_problems(k, ns.last(), cat));
    }
}

/// `a.config.k` and `b.config.k2` with dot-free keys are the same text only for the same
/// module and key.
proof fn lemma_limit_target_injective(a: Seq<char>, k: Seq<char>, b: Seq<char>, k2: Seq<char>)
    requires
        dot_free(k),
        dot_free(k2),
        a + ".config."@ + k == b + ".config."@ + k2,
    ensures
        a == b,
        k == k2,
{
    reveal_strlit(".config.");
    let s = a + ".config."@ + k;
    let n = s.len();
    if k.len() < k2.len() {
        let x = n - k.len() - 1;
        assert(s[x] == '.');
        assert(s[x] == k2[x - b.len() - 8]);
    } else if k2.len() < k.len() {
        let x = n - k2.len() - 1;
        assert((b + ".config."@ + k2)[x] == '.');
        assert(s[x] == k[x - a.len() - 8]);
    }
    assert(k =~= s.subrange(n - k.len(), n as int));
    assert(k2 =~= (b + ".config."@ + k2).subrange(n - k2.len(), n as int));
    assert(a =~= s.subrange(0, a.len() as int));
    assert(b =~= (b + ".config."@ + k2).subrange(0, b.len() as int));
}

proof fn lemma_risk_keys_dot_free()
    ensures
        forall|i: int| 0 <= i < unit_interval_keys().len() ==> dot_free(#[trigger] unit_interval_keys()[i]),
        forall|i: int| 0 <= i < non_negative_keys().len() ==> dot_free(#[trigger] non_negative_keys()[i]),
{
    reveal_strlit("max_position");
    reveal_strlit("max_single_weight");
    reveal_strlit("max_concentration");
    reveal_strlit("max_symbol_net_exposure");
    reveal_strlit("max_portfolio_net_exposure");
    reveal_strlit("max_turnover");
    reveal_strlit("min_trade_weight");
    reveal_strlit("max_total_leverage");
    reveal_strlit("max_exchange_leverage");
}

/// A module's limits never name the setting of another module.
proof fn lemma_limit_problems_other_id(n: CapabilityCheckNode, keys: Seq<Seq<char>>, upper: bool, id: Seq<char>, k: Seq<char>)
    requires
        id != n.id@,
        dot_free(k),
        forall|i: int| 0 <= i < keys.len() ==> dot_free(#[trigger] keys[i]),
    ensures
        !names_limit_target(limit_problems(n, keys, upper), id + ".config."@ + k),
    decreases keys.len(),
{
    if keys.len() > 0 {
        let prev = keys.drop_last();
        assert forall|i: int| 0 <= i < prev.len() implies dot_free(#[trigger] prev[i]) by {
            assert(prev[i] == keys[i]);
        }
        lemma_limit_problems_other_id(n, prev, upper, id, k);
        let p = limit_problems(n, prev, upper);
        let q = limit_problems(n, keys, upper);
        let last = keys.last();
        assert(dot_free(keys[keys.len() - 1]));
        if n.id@ + ".config."@ + last == id + ".config."@ + k {
            lemma_limit_target_injective(n.id@, last, id, k);
        }
        assert forall|w: int| 0 <= w < q.len() && (#[trigger] q[w]).0 == "invalid_risk_limit"@ implies q[w].1
            != id + ".config."@ + k by {
            if w < p.len() {
                assert(q[w] == p[w]);
            }
        }
    }
}

proof fn lemma_risk_problems_other_id(n: CapabilityCheckNode, cat: CapabilityCatalog, id: Seq<char>, k: Seq<char>)
    requires
        id != n.id@,
        dot_free(k),
    ensures
        !names_limit_target(risk_problems(n, cat), id + ".config."@ + k),
{
    lemma_other_codes();
    lemma_risk_keys_dot_free();
    let t = id + ".config."@ + k;
    let m = module_problems(n, cat);
    let a = limit_problems(n, unit_interval_keys(), true);
    let b = limit_problems(n, non_negative_keys(), false);
    lemma_limit_problems_other_id(n, unit_interval_keys(), true, id, k);
    lemma_limit_problems_other_id(n, non_negative_keys(), false, id, k);
    assert(no_limit_problem(m));
    lemma_names_concat(m, a, t);
    lemma_names_concat(m + a, b, t);
}

proof fn lemma_risk_problems_own(n: CapabilityCheckNode, cat: CapabilityCatalog, k: Seq<char>)
    ensures
        names_limit_target(risk_problems(n, cat), n.id@ + ".config."@ + k) <==> ((unit_interval_keys().contains(k)
            && reading_out_of_range(reading_for(n.limit_readings@, k), true)) || (non_negative_keys().contains(k)
            && reading_out_of_range(reading_for(n.limit_readings@, k), false))),
{
    lemma_other_codes();
    let t = n.id@ + ".config."@ + k;
    let m = module_problems(n, cat);
    let a = limit_problems(n, unit_interval_keys(), true);
    let b = limit_problems(n, non_negative_keys(), false);
    lemma_risk_limit_ranges(n, k);
    assert(no_limit_problem(m));
    lemma_names_concat(m, a, t);
    lemma_names_concat(m + a, b, t);
    lemma_names_concat(a, b, t);
}

/// The risk controls have pairwise different ids.
pub open spec fn distinct_ids(ns: Seq<CapabilityCheckNode>) -> bool {
    forall|a: int, b: int| 0 <= a < ns.len() && 0 <= b < ns.len() && a != b ==> #[trigger] ns[a].id@ != #[trigger] ns[b].id@
}

proof fn lemma_risk_list(ns: Seq<CapabilityCheckNode>, cat: CapabilityCatalog, j: int, k: Seq<char>)
    requires
        0 <= j < ns.len(),
        distinct_ids(ns),
        dot_free(k),
    ensures
        names_limit_target(list_problems(ModuleKind::RiskControl, ns, cat), ns[j].id@ + ".config."@ + k) <==> ((
        unit_interval_keys().contains(k) && reading_out_of_range(reading_for(ns[j].limit_readings@, k), true)) || (
        non_negative_keys().contains(k) && reading_out_of_range(reading_for(ns[j].limit_readings@, k), false))),
    decreases ns.len(),
{
    let id = ns[j].id@;
    let t = id + ".config."@ + k;
    let prev = ns.drop_last();
    let last = ns.last();
    lemma_names_concat(list_problems(ModuleKind::RiskControl, prev, cat), risk_problems(last, cat), t);
    if j == ns.len() - 1 {
        lemma_risk_problems_own(last, cat, k);
        if prev.len() > 0 {
            lemma_risk_list_without(prev, cat, id, k);
        }
    } else {
        assert(prev[j] == ns[j]);
        assert(distinct_ids(prev)) by {
            assert forall|a: int, b: int| 0 <= a < prev.len() && 0 <= b < prev.len() && a != b implies #[trigger] prev[a].id@
                != #[trigger] prev[b].id@ by {
                assert(prev[a] == ns[a] && prev[b] == ns[b]);
            }
        }
        lemma_risk_list(prev, cat, j, k);
        assert(ns[ns.len() - 1].id@ != ns[j].id@);
        lemma_risk_problems_other_id(last, cat, id, k);
    }
}

proof fn lemma_risk_list_without(ns: Seq<CapabilityCheckNode>, cat: CapabilityCatalog, id: Seq<char>, k: Seq<char>)
    requires
        forall|i: int| 0 <= i < ns.len() ==> (#[trigger] ns[i]).id@ != id,
        dot_free(k),
    ensures
        !names_limit_target(list_problems(ModuleKind::RiskControl, ns, cat), id + ".config."@ + k),
    decreases ns.len(),
{
    if ns.len() > 0 {
        let prev = ns.drop_last();
        assert forall|i: int| 0 <= i < prev.len() implies (#[trigger] prev[i]).id@ != id by {
            assert(prev[i] == ns[i]);
        }
        lemma_risk_list_without(prev, cat, id, k);
        assert(ns[ns.len() - 1].id@ != id);
        lemma_risk_problems_other_id(ns.last(), cat, id, k);
        lemma_names_concat(list_problems(ModuleKind::RiskControl, prev, cat), risk_problems(ns.last(), cat), id + ".config."@ + k);
    }
}

/// In the problems of a whole configuration, a setting `k` (a key without a `.`) of risk
/// control `j` is reported as a refused risk limit, under the target
/// `<id>.config.<k>`, exactly where it leaves its range: below 0 or above 1 for the
/// settings bounded by 1, below 0 for those that must not be negative. The risk
/// controls' ids are pairwise different; no other module reports a risk limit.
pub proof fn lemma_config_risk_limits(input: RuntimeConfigCapabilityInput, cat: CapabilityCatalog, j: int, k: Seq<char>)
    requires
        0 <= j < input.risk_controls@.len(),
        distinct_ids(input.risk_controls@),
        dot_free(k),
    ensures
        names_limit_target(config_problems(input, cat), input.risk_controls@[j].id@ + ".config."@ + k) <==> ((
        unit_interval_keys().contains(k) && reading_out_of_range(
            reading_for(input.risk_controls@[j].limit_readings@, k),
            true,
        )) || (non_negative_keys().contains(k) && reading_out_of_range(
            reading_for(input.risk_controls@[j].limit_readings@, k),
            false,
        ))),
{
    lemma_other_codes();
    let t = input.risk_controls@[j].id@ + ".config."@ + k;
    let mode = if listed(cat.runtime_mode_keys@, input.mode@) {
        seq![]
    } else {
        seq![(
            "unsupported_runtime_mode"@,
            "metadata.mode"@,
            "runtime mode `"@ + input.mode@ + "` is not supported in the current beta"@,
            None,
        )]
    };
    let c = control_problems(input, cat);
    let ds = list_problems(ModuleKind::DataSource, input.data_sources@, cat);
    let ig = list_problems(ModuleKind::IntentGenerator, input.intent_generators@, cat);
    let ag = list_problems(ModuleKind::Agent, input.agents@, cat);
    let rk = list_problems(ModuleKind::RiskControl, input.risk_controls@, cat);
    let ex = list_problems(ModuleKind::Execution, input.executions@, cat);
    assert(no_limit_problem(mode));
    assert(no_limit_problem(c));
    lemma_list_no_limit(ModuleKind::DataSource, input.data_sources@, cat);
    lemma_list_no_limit(ModuleKind::IntentGenerator, input.intent_generators@, cat);
    lemma_list_no_limit(ModuleKind::Agent, input.agents@, cat);
    lemma_list_no_limit(ModuleKind::Execution, input.executions@, cat);
    lemma_no_limit_concat(mode, c);
    lemma_no_limit_concat(mode + c, ds);
    lemma_no_limit_concat(mode + c + ds, ig);
    lemma_no_limit_concat(mode + c + ds + ig, ag);
    lemma_names_concat(mode + c + ds + ig + ag, rk, t);
    lemma_names_concat(mode + c + ds + ig + ag + rk, ex, t);
    lemma_risk_list(input.risk_controls@, cat, j, k);
    assert(config_problems(input, cat) == mode + c + ds + ig + ag + rk + ex);
}

/// Reports, one after the other, report the problems one after the other.
pub proof fn lemma_details_concat(a: Seq<ApiErrorDetail>, ma: Seq<DetailModel>, b: Seq<ApiErrorDetail>, mb: Seq<DetailModel>)
    requires
        details_are(a, ma),
        details_are(b, mb),
    ensures
        details_are(a + b, ma + mb),
{
    assert forall|i: int| 0 <= i < (a + b).len() implies detail_is(#[trigger] (a + b)[i], (ma + mb)[i]) by {
        if i < a.len() {
            assert((a + b)[i] == a[i]);
            assert((ma + mb)[i] == ma[i]);
        } else {
            assert((a + b)[i] == b[i - a.len()]);
            assert((ma + mb)[i] == mb[i - a.len()]);
        }
    }
}

fn append_details(details: &mut Vec<ApiErrorDetail>, more: Vec<ApiErrorDetail>, Ghost(ma): Ghost<Seq<DetailModel>>, Ghost(mb): Ghost<Seq<DetailModel>>)
    requires
        details_are(old(details)@, ma),
        details_are(more@, mb),
    ensures
        details_are(final(details)@, ma + mb),
{
    let mut more = more;
    proof {
        lemma_details_concat(details@, ma, more@, mb);
    }
    details.append(&mut more);
}

/// A problem with its code, target, message and reason.
pub fn capability_detail(code: &str, target: String, message: String, reason: Option<String>) -> (r: ApiErrorDetail)
    ensures
        detail_is(r, (code@, target@, message@, opt_text(reason))),
{
    ApiErrorDetail { code: owned(code), target: Some(target), message, span_label: None, reason }
}

fn one_detail(code: &str, target: String, message: String, reason: Option<String>) -> (r: Vec<ApiErrorDetail>)
    ensures
        details_are(r@, seq![(code@, target@, message@, opt_text(reason))]),
{
    let ghost m = (code@, target@, message@, opt_text(reason));
    let v = vec![capability_detail(code, target, message, reason)];
    assert(detail_is(v@[0], m));
    v
}

fn no_details() -> (r: Vec<ApiErrorDetail>)
    ensures
        details_are(r@, seq![]),
{
    Vec::new()
}

fn listed_exec(v: &Vec<String>, k: &str) -> (r: bool)
    ensures
        r == listed(v@, k@),
{
    let mut i: usize = 0;
    while i < v.len()
        invariant
            i <= v@.len(),
            forall|j: int| 0 <= j < i ==> v@[j]@ != k@,
        decreases v@.len() - i,
    {
        if str_eq(v[i].as_str(), k) {
            assert(texts_model(v@)[i as int] == k@);
            return true;
        }
        i += 1;
    }
    assert forall|j: int| 0 <= j < texts_model(v@).len() implies texts_model(v@)[j] != k@ by {
        assert(texts_model(v@)[j] == v@[j]@);
    }
    false
}

/// Why a module is not enabled, when the catalog says.
pub fn frontend_module_support_reason(pairs: &Vec<(String, String)>, k: &str) -> (r: Option<String>)
    ensures
        opt_text(r) == reason_for(pairs@, k@),
{
    let mut i: usize = 0;
    assert(pairs@.subrange(0, pairs@.len() as int) =~= pairs@);
    while i < pairs.len()
        invariant
            i <= pairs@.len(),
            reason_for(pairs@, k@) == reason_for(pairs@.subrange(i as int, pairs@.len() as int), k@),
        decreases pairs@.len() - i,
    {
        let ghost rest = pairs@.subrange(i as int, pairs@.len() as int);
        assert(rest[0] == pairs@[i as int]);
        if str_eq(pairs[i].0.as_str(), k) {
            return Some(owned(pairs[i].1.as_str()));
        }
        assert(rest.drop_first() =~= pairs@.subrange(i + 1, pairs@.len() as int));
        i += 1;
    }
    None
}

fn reading_for_exec(pairs: &Vec<(String, UnitIntervalReading)>, k: &str) -> (r: Option<UnitIntervalReading>)
    ensures
        r == reading_for(pairs@, k@),
{
    let mut i: usize = 0;
    assert(pairs@.subrange(0, pairs@.len() as int) =~= pairs@);
    while i < pairs.len()
        invariant
            i <= pairs@.len(),
            reading_for(pairs@, k@) == reading_for(pairs@.subrange(i as int, pairs@.len() as int), k@),
        decreases pairs@.len() - i,
    {
        let ghost rest = pairs@.subrange(i as int, pairs@.len() as int);
        assert(rest[0] == pairs@[i as int]);
        if str_eq(pairs[i].0.as_str(), k) {
            return Some(pairs[i].1);
        }
        assert(rest.drop_first() =~= pairs@.subrange(i + 1, pairs@.len() as int));
        i += 1;
    }
    None
}

fn module_problems_exec(n: &CapabilityCheckNode, cat: &CapabilityCatalog) -> (r: Vec<ApiErrorDetail>)
    ensures
        details_are(r@, module_problems(*n, *cat)),
{
    if listed_exec(&cat.frontend_module_keys, n.module_key.as_str()) {
        no_details()
    } else {
        one_detail(
            "unsupported_module",
            owned(n.id.as_str()),
            crate::text::cat3("module `", n.module_key.as_str(), "` is not enabled for compile in the current beta"),
            frontend_module_support_reason(&cat.unsupported_module_reasons, n.module_key.as_str()),
        )
    }
}

fn listed_value_problems_exec(n: &CapabilityCheckNode, key: &str, allowed: &Vec<String>, code: &str, what: &str) -> (r: Vec<
    ApiErrorDetail,
>)
    ensures
        details_are(r@, listed_value_problems(*n, key@, allowed@, code@, what@)),
{
    match crate::json::json_get_str_exec(&n.config, key) {
        Some(x) => if listed_exec(allowed, x.as_str()) {
            no_details()
        } else {
            let m = crate::text::cat(
                crate::text::cat3(what, " `", x.as_str()).as_str(),
                "` is not supported in the current beta",
            );
            assert(m@ =~= what@ + " `"@ + x@ + "` is not supported in the current beta"@);
            one_detail(code, owned(n.id.as_str()), m, None)
        },
        None => no_details(),
    }
}

fn data_source_problems_exec(n: &CapabilityCheckNode, cat: &CapabilityCatalog) -> (r: Vec<ApiErrorDetail>)
    ensures
        details_are(r@, data_source_problems(*n, *cat)),
{
    let mut d = module_problems_exec(n, cat);
    let ghost m1 = module_problems(*n, *cat);
    let ghost m2 = listed_value_problems(*n, "exchange"@, cat.exchanges@, "unsupported_exchange"@, "exchange"@);
    let ghost m3 = listed_value_problems(*n, "instrument"@, cat.symbols@, "unsupported_symbol"@, "symbol"@);
    append_details(
        &mut d,
        listed_value_problems_exec(n, "exchange", &cat.exchanges, "unsupported_exchange", "exchange"),
        Ghost(m1),
        Ghost(m2),
    );
    append_details(
        &mut d,
        listed_value_problems_exec(n, "instrument", &cat.symbols, "unsupported_symbol", "symbol"),
        Ghost(m1 + m2),
        Ghost(m3),
    );
    d
}

fn rebalance_symbol_problems_exec(id: &str, symbols: &Vec<String>, allowed: &Vec<String>) -> (r: Vec<ApiErrorDetail>)
    ensures
        details_are(r@, rebalance_symbol_problems(id@, texts_model(symbols@), allowed@)),
{
    let mut d = no_details();
    let mut i: usize = 0;
    while i < symbols.len()
        invariant
            i <= symbols@.len(),
            details_are(d@, rebalance_symbol_problems(id@, texts_model(symbols@.subrange(0, i as int)), allowed@)),
        decreases symbols@.len() - i,
    {
        let ghost pre = texts_model(symbols@.subrange(0, i as int));
        let ghost next = texts_model(symbols@.subrange(0, i + 1));
        assert(next.drop_last() =~= pre);
        assert(next.last() == symbols@[i as int]@);
        let x = symbols[i].as_str();
        if !listed_exec(allowed, x) {
            let ghost p = rebalance_symbol_problems(id@, pre, allowed@);
            let ghost m: DetailModel = (
                "unsupported_symbol"@,
                id@ + ".config.rebalance_symbols"@,
                "rebalance symbol `"@ + x@ + "` is not supported in the current beta"@,
                None,
            );
            let ghost ms = seq![m];
            append_details(
                &mut d,
                one_detail(
                    "unsupported_symbol",
                    crate::text::cat(id, ".config.rebalance_symbols"),
                    crate::text::cat3("rebalance symbol `", x, "` is not supported in the current beta"),
                    None,
                ),
                Ghost(p),
                Ghost(ms),
            );
            assert(p + ms =~= p.push(m));
        }
        i += 1;
    }
    assert(symbols@.subrange(0, symbols@.len() as int) =~= symbols@);
    d
}

fn all_float_literals(items: &Vec<String>) -> (r: bool)
    ensures
        r == (forall|i: int| 0 <= i < texts_model(items@).len() ==> float_literal(#[trigger] texts_model(items@)[i])),
{
    let mut i: usize = 0;
    while i < items.len()
        invariant
            i <= items@.len(),
            forall|j: int| 0 <= j < i ==> float_literal(#[trigger] texts_model(items@)[j]),
        decreases items@.len() - i,
    {
        assert(texts_model(items@)[i as int] == items@[i as int]@);
        if !is_float_literal(items[i].as_str()) {
            return false;
        }
        i += 1;
    }
    true
}

fn agent_problems_exec(n: &CapabilityCheckNode, cat: &CapabilityCatalog) -> (r: Vec<ApiErrorDetail>)
    ensures
        details_are(r@, agent_problems(*n, *cat)),
{
    let c = &n.config;
    let id = n.id.as_str();
    let mut d = module_problems_exec(n, cat);
    let ghost m1 = module_problems(*n, *cat);
    let symbols = config_csv_values(c, "rebalance_symbols");
    let ghost sm = config_csv(c@, "rebalance_symbols"@);
    let ghost m2 = rebalance_symbol_problems(id@, sm, cat.symbols@);
    append_details(&mut d, rebalance_symbol_problems_exec(id, &symbols, &cat.symbols), Ghost(m1), Ghost(m2));
    let ghost m3 = match json_get_str(c@, "rebalance_schedule"@) {
        Some(s) => if s.len() > 0 && !known_schedule(s) {
            seq![(
                "invalid_rebalance_schedule"@,
                n.id@ + ".config.rebalance_schedule"@,
                "rebalance schedule `"@ + s + "` is not supported"@,
                None,
            )]
        } else {
            seq![]
        },
        None => seq![],
    };
    let schedule = match crate::json::json_get_str_exec(c, "rebalance_schedule") {
        Some(s) => {
            let t = s.as_str();
            if t.unicode_len() > 0 && !(str_eq(t, "every_slow") || str_eq(t, "every_1d") || str_eq(t, "weekly")) {
                one_detail(
                    "invalid_rebalance_schedule",
                    crate::text::cat(id, ".config.rebalance_schedule"),
                    crate::text::cat3("rebalance schedule `", t, "` is not supported"),
                    None,
                )
            } else {
                no_details()
            }
        },
        None => no_details(),
    };
    append_details(&mut d, schedule, Ghost(m1 + m2), Ghost(m3));
    let ghost m4 = match json_get_str(c@, "rebalance_target_weights"@) {
        Some(w) => if forall|i: int| 0 <= i < csv_values(w).len() ==> float_literal(#[trigger] csv_values(w)[i]) {
            seq![]
        } else {
            seq![(
                "invalid_rebalance_target_weights"@,
                n.id@ + ".config.rebalance_target_weights"@,
                "rebalance target weights must be comma-separated numbers"@,
                None,
            )]
        },
        None => seq![],
    };
    let weights = match crate::json::json_get_str_exec(c, "rebalance_target_weights") {
        Some(w) => {
            let items = config_csv_items(w.as_str());
            if all_float_literals(&items) {
                no_details()
            } else {
                one_detail(
                    "invalid_rebalance_target_weights",
                    crate::text::cat(id, ".config.rebalance_target_weights"),
                    owned("rebalance target weights must be comma-separated numbers"),
                    None,
                )
            }
        },
        None => no_details(),
    };
    append_details(&mut d, weights, Ghost(m1 + m2 + m3), Ghost(m4));
    d
}

fn unit_interval_keys_exec() -> (r: Vec<&'static str>)
    ensures
        r@.map_values(|s: &str| s@) == unit_interval_keys(),
{
    let r = vec![
        "max_position",
        "max_single_weight",
        "max_concentration",
        "max_symbol_net_exposure",
        "max_portfolio_net_exposure",
    ];
    assert(r@.map_values(|s: &str| s@) =~= unit_interval_keys());
    r
}

fn non_negative_keys_exec() -> (r: Vec<&'static str>)
    ensures
        r@.map_values(|s: &str| s@) == non_negative_keys(),
{
    let r = vec!["max_turnover", "min_trade_weight", "max_total_leverage", "max_exchange_leverage"];
    assert(r@.map_values(|s: &str| s@) =~= non_negative_keys());
    r
}

fn limit_problems_exec(n: &CapabilityCheckNode, keys: &Vec<&str>, upper: bool) -> (r: Vec<ApiErrorDetail>)
    ensures
        details_are(r@, limit_problems(*n, keys@.map_values(|s: &str| s@), upper)),
{
    let mut d = no_details();
    let mut i: usize = 0;
    while i < keys.len()
        invariant
            i <= keys@.len(),
            details_are(d@, limit_problems(*n, keys@.subrange(0, i as int).map_values(|s: &str| s@), upper)),
        decreases keys@.len() - i,
    {
        let ghost pre = keys@.subrange(0, i as int).map_values(|s: &str| s@);
        let ghost next = keys@.subrange(0, i + 1).map_values(|s: &str| s@);
        assert(next.drop_last() =~= pre);
        let k = keys[i];
        assert(next.last() == k@);
        let bad = match reading_for_exec(&n.limit_readings, k) {
            Some(UnitIntervalReading::BelowZero) => true,
            Some(UnitIntervalReading::AboveOne) => upper,
            _ => false,
        };
        if bad {
            let message = if upper {
                crate::text::cat3("risk field `", k, "` must be between 0 and 1")
            } else {
                crate::text::cat3("risk field `", k, "` must be >= 0")
            };
            let target = crate::text::cat3(n.id.as_str(), ".config.", k);
            let ghost p = limit_problems(*n, pre, upper);
            let ghost m: DetailModel = ("invalid_risk_limit"@, target@, message@, None);
            let ghost ms = seq![m];
            append_details(&mut d, one_detail("invalid_risk_limit", target, message, None), Ghost(p), Ghost(ms));
            assert(p + ms =~= p.push(m));
        }
        i += 1;
    }
    assert(keys@.subrange(0, keys@.len() as int) =~= keys@);
    d
}

fn risk_problems_exec(n: &CapabilityCheckNode, cat: &CapabilityCatalog) -> (r: Vec<ApiErrorDetail>)
    ensures
        details_are(r@, risk_problems(*n, *cat)),
{
    let mut d = module_problems_exec(n, cat);
    let ghost m1 = module_problems(*n, *cat);
    let ghost m2 = limit_problems(*n, unit_interval_keys(), true);
    let ghost m3 = limit_problems(*n, non_negative_keys(), false);
    append_details(&mut d, limit_problems_exec(n, &unit_interval_keys_exec(), true), Ghost(m1), Ghost(m2));
    append_details(&mut d, limit_problems_exec(n, &non_negative_keys_exec(), false), Ghost(m1 + m2), Ghost(m3));
    d
}

fn execution_problems_exec(n: &CapabilityCheckNode, cat: &CapabilityCatalog) -> (r: Vec<ApiErrorDetail>)
    ensures
        details_are(r@, execution_problems(*n, *cat)),
{
    let mut d = module_problems_exec(n, cat);
    let ghost m1 = module_problems(*n, *cat);
    if listed_exec(&cat.execution_module_keys, n.module_key.as_str()) {
        let ghost none: Seq<DetailModel> = seq![];
        assert(m1 + none =~= m1);
        append_details(&mut d, no_details(), Ghost(m1), Ghost(none));
    } else {
        let ghost em: Seq<DetailModel> = seq![(
            "unsupported_execution_module"@,
            n.id@,
            "execution module `"@ + n.module_key@ + "` is not supported in the current beta"@,
            None,
        )];
        append_details(
            &mut d,
            one_detail(
                "unsupported_execution_module",
                owned(n.id.as_str()),
                crate::text::cat3("execution module `", n.module_key.as_str(), "` is not supported in the current beta"),
                None,
            ),
            Ghost(m1),
            Ghost(em),
        );
    }
    d
}

fn kind_problems_exec(k: ModuleKind, n: &CapabilityCheckNode, cat: &CapabilityCatalog) -> (r: Vec<ApiErrorDetail>)
    ensures
        details_are(r@, kind_problems(k, *n, *cat)),
{
    match k {
        ModuleKind::DataSource => data_source_problems_exec(n, cat),
        ModuleKind::IntentGenerator => module_problems_exec(n, cat),
        ModuleKind::Agent => agent_problems_exec(n, cat),
        ModuleKind::RiskControl => risk_problems_exec(n, cat),
        ModuleKind::Execution => execution_problems_exec(n, cat),
    }
}

fn list_problems_exec(k: ModuleKind, ns: &Vec<CapabilityCheckNode>, cat: &CapabilityCatalog) -> (r: Vec<ApiErrorDetail>)
    ensures
        details_are(r@, list_problems(k, ns@, *cat)),
{
    let mut d = no_details();
    let mut i: usize = 0;
    while i < ns.len()
        invariant
            i <= ns@.len(),
            details_are(d@, list_problems(k, ns@.subrange(0, i as int), *cat)),
        decreases ns@.len() - i,
    {
        let ghost next = ns@.subrange(0, i + 1);
        assert(next.drop_last() =~= ns@.subrange(0, i as int));
        assert(next.last() == ns@[i as int]);
        append_details(
            &mut d,
            kind_problems_exec(k, &ns[i], cat),
            Ghost(list_problems(k, ns@.subrange(0, i as int), *cat)),
            Ghost(kind_problems(k, ns@[i as int], *cat)),
        );
        i += 1;
    }
    assert(ns@.subrange(0, ns@.len() as int) =~= ns@);
    d
}

/// Checks a runtime configuration against what the current beta supports: `Ok` when
/// nothing is wrong, else every problem, in the order the configuration lists them.
pub fn validate_runtime_config_capabilities(input: &RuntimeConfigCapabilityInput, catalog: &CapabilityCatalog) -> (r: Result<
    (),
    Vec<ApiErrorDetail>,
>)
    ensures
        r.is_ok() == (config_problems(*input, *catalog).len() == 0),
        r is Err ==> details_are(r->Err_0@, config_problems(*input, *catalog)),
{
    let ghost m0 = if listed(catalog.runtime_mode_keys@, input.mode@) {
        seq![]
    } else {
        seq![(
            "unsupported_runtime_mode"@,
            "metadata.mode"@,
            "runtime mode `"@ + input.mode@ + "` is not supported in the current beta"@,
            None,
        )]
    };
    let mut d = if listed_exec(&catalog.runtime_mode_keys, input.mode.as_str()) {
        no_details()
    } else {
        one_detail(
            "unsupported_runtime_mode",
            owned("metadata.mode"),
            crate::text::cat3("runtime mode `", input.mode.as_str(), "` is not supported in the current beta"),
            None,
        )
    };
    let ghost m1 = control_problems(*input, *catalog);
    let control = match &input.runtime_control {
        Some(n) => module_problems_exec(n, catalog),
        None => no_details(),
    };
    append_details(&mut d, control, Ghost(m0), Ghost(m1));
    let ghost m2 = list_problems(ModuleKind::DataSource, input.data_sources@, *catalog);
    let ghost m3 = list_problems(ModuleKind::IntentGenerator, input.intent_generators@, *catalog);
    let ghost m4 = list_problems(ModuleKind::Agent, input.agents@, *catalog);
    let ghost m5 = list_problems(ModuleKind::RiskControl, input.risk_controls@, *catalog);
    let ghost m6 = list_problems(ModuleKind::Execution, input.executions@, *catalog);
    append_details(&mut d, list_problems_exec(ModuleKind::DataSource, &input.data_sources, catalog), Ghost(m0 + m1), Ghost(m2));
    append_details(
        &mut d,
        list_problems_exec(ModuleKind::IntentGenerator, &input.intent_generators, catalog),
        Ghost(m0 + m1 + m2),
        Ghost(m3),
    );
    append_details(&mut d, list_problems_exec(ModuleKind::Agent, &input.agents, catalog), Ghost(m0 + m1 + m2 + m3), Ghost(m4));
    append_details(
        &mut d,
        list_problems_exec(ModuleKind::RiskControl, &input.risk_controls, catalog),
        Ghost(m0 + m1 + m2 + m3 + m4),
        Ghost(m5),
    );
    append_details(
        &mut d,
        list_problems_exec(ModuleKind::Execution, &input.executions, catalog),
        Ghost(m0 + m1 + m2 + m3 + m4 + m5),
        Ghost(m6),
    );
    assert(m0 + m1 + m2 + m3 + m4 + m5 + m6 == config_problems(*input, *catalog));
    if d.len() == 0 {
        Ok(())
    } else {
        Err(d)
    }
}

/// Whether a graph id uses only ASCII letters, digits, `_` and `-`, and is not empty.
pub open spec fn valid_graph_id(s: Seq<char>) -> bool {
    s.len() > 0 && forall|i: int| 0 <= i < s.len() ==> (crate::text::is_ascii_alnum(#[trigger] s[i]) || s[i] == '_' || s[i]
        == '-')
}

/// Checks a graph id.
pub fn validate_graph_id(input: &str) -> (r: Result<(), String>)
    ensures
        r.is_ok() == valid_graph_id(input@),
        r is Err ==> r->Err_0@ == "graph_id must use only ASCII letters, numbers, '_' or '-'"@,
{
    let n = input.unicode_len();
    let mut ok = n > 0;
    let mut i: usize = 0;
    while i < n
        invariant
            n == input@.len(),
            i <= n,
            ok == (n > 0 && forall|k: int| 0 <= k < i ==> (crate::text::is_ascii_alnum(#[trigger] input@[k]) || input@[k] == '_'
                || input@[k] == '-')),
        decreases n - i,
    {
        let c = input.get_char(i);
        let good = ('a' <= c && c <= 'z') || ('A' <= c && c <= 'Z') || ('0' <= c && c <= '9') || c == '_' || c == '-';
        ok = ok && good;
        i += 1;
    }
    if ok {
        Ok(())
    } else {
        Err(owned("graph_id must use only ASCII letters, numbers, '_' or '-'"))
    }
}

/// Where an execution assumption of a backtest comes from.
#[derive(Clone, Copy, PartialEq, Eq, Debug, Structural)]
pub enum ExecutionAssumptionValueSource {
    RequestOverride,
    ProfileDefault,
    BackendFallback,
}

/// Where each execution assumption of a backtest comes from.
#[derive(Clone, Copy, PartialEq, Eq, Debug, Structural)]
pub struct ExecutionAssumptionSourceSummary {
    pub fee_bps: ExecutionAssumptionValueSource,
    pub slippage_bps: ExecutionAssumptionValueSource,
    pub latency_ms: ExecutionAssumptionValueSource,
}

/// The execution assumptions a backtest request overrides, by whether each is set and,
/// for the decimal ones, whether it is negative.
#[derive(Clone, Copy, PartialEq, Eq, Debug, Structural)]
pub struct ExecutionAssumptionOverrideReadings {
    pub fee_bps_negative: Option<bool>,
    pub slippage_bps_negative: Option<bool>,
    pub latency_ms: Option<u64>,
}

/// Checks the execution assumptions a backtest overrides: fees and slippage must not be
/// negative.
pub fn validate_backtest_execution_assumption_overrides(overrides: Option<ExecutionAssumptionOverrideReadings>) -> (r: Result<
    (),
    String,
>)
    ensures
        match overrides {
            None => r is Ok,
            Some(o) => if o.fee_bps_negative == Some(true) {
                r is Err && r->Err_0@ == "backtest_options.execution_assumptions.fee_bps must be >= 0"@
            } else if o.slippage_bps_negative == Some(true) {
                r is Err && r->Err_0@ == "backtest_options.execution_assumptions.slippage_bps must be >= 0"@
            } else {
                r is Ok
            },
        },
{
    match overrides {
        None => Ok(()),
        Some(o) => {
            if o.fee_bps_negative == Some(true) {
                return Err(owned("backtest_options.execution_assumptions.fee_bps must be >= 0"));
            }
            if o.slippage_bps_negative == Some(true) {
                return Err(owned("backtest_options.execution_assumptions.slippage_bps must be >= 0"));
            }
            Ok(())
        },
    }
}

/// Where a decimal assumption comes from: the request, else the execution profile when it
/// sets it, else the backend's default.
pub open spec fn assumption_source(overridden: bool, profile_sets: bool) -> ExecutionAssumptionValueSource {
    if overridden {
        ExecutionAssumptionValueSource::RequestOverride
    } else if profile_sets {
        ExecutionAssumptionValueSource::ProfileDefault
    } else {
        ExecutionAssumptionValueSource::BackendFallback
    }
}

/// Where each execution assumption of a backtest comes from, given the overrides of the
/// request and the configuration of its first execution module.
pub fn resolved_execution_assumption_sources(
    overrides: Option<ExecutionAssumptionOverrideReadings>,
    first_execution_config: Option<&JsonValue>,
) -> (r: ExecutionAssumptionSourceSummary)
    ensures
        r.fee_bps == assumption_source(
            match overrides {
                Some(o) => o.fee_bps_negative.is_some(),
                None => false,
            },
            match first_execution_config {
                Some(c) => crate::json::json_get(c@, "fee_bps"@).is_some(),
                None => false,
            },
        ),
        r.slippage_bps == assumption_source(
            match overrides {
                Some(o) => o.slippage_bps_negative.is_some(),
                None => false,
            },
            match first_execution_config {
                Some(c) => crate::json::json_get(c@, "slippage_bps"@).is_some(),
                None => false,
            },
        ),
        r.latency_ms == assumption_source(
            match overrides {
                Some(o) => o.latency_ms.is_some(),
                None => false,
            },
            false,
        ),
{
    let (fee_set, slip_set, latency_set) = match overrides {
        Some(o) => (o.fee_bps_negative.is_some(), o.slippage_bps_negative.is_some(), o.latency_ms.is_some()),
        None => (false, false, false),
    };
    let (fee_profile, slip_profile) = match first_execution_config {
        Some(c) => (
            crate::json::json_get_exec(c, "fee_bps").is_some(),
            crate::json::json_get_exec(c, "slippage_bps").is_some(),
        ),
        None => (false, false),
    };
    let pick = |set: bool, profile: bool| -> (s: ExecutionAssumptionValueSource)
        ensures
            s == assumption_source(set, profile),
        {
            if set {
                ExecutionAssumptionValueSource::RequestOverride
            } else if profile {
                ExecutionAssumptionValueSource::ProfileDefault
            } else {
                ExecutionAssumptionValueSource::BackendFallback
            }
        };
    ExecutionAssumptionSourceSummary {
        fee_bps: pick(fee_set, fee_profile),
        slippage_bps: pick(slip_set, slip_profile),
        latency_ms: pick(latency_set, false),
    }
}

} // verus!
