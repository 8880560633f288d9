//! The compact JSON text of a value: no whitespace, entries in the order they are held,
//! strings quoted with the escapes of JSON (`\"`, `\\`, `\b`, `\f`, `\n`, `\r`, `\t`, and
//! `\u00XX` with lower-case hex digits for the other control characters).
use vstd::prelude::*;
use crate::json::{entries_model, items_model, json_model, Json, JsonValue};
use crate::text::push_char;

verus! {

broadcast use vstd::std_specs::vec::group_vec_axioms;

/// The lower-case hex digit of a value below 16.
pub open spec fn hex_digit(d: nat) -> char {
    if d < 10 {
        ((d + 48) as u32) as char
    } else {
        ((d + 87) as u32) as char
    }
}

/// How one character of a string is written inside quotes.
pub open spec fn escaped_char(c: char) -> Seq<char> {
    let u = c as u32;
    if c == '"' {
        seq!['\\', '"']
    } else if c == '\\' {
        seq!['\\', '\\']
    } else if u == 8 {
        seq!['\\', 'b']
    } else if u == 12 {
        seq!['\\', 'f']
    } else if u == 10 {
        seq!['\\', 'n']
    } else if u == 13 {
        seq!['\\', 'r']
    } else if u == 9 {
        seq!['\\', 't']
    } else if u < 0x20 {
        seq!['\\', 'u', '0', '0', hex_digit((u / 16) as nat), hex_digit((u % 16) as nat)]
    } else {
        seq![c]
    }
}

/// The characters of a string as written inside quotes.
pub open spec fn escaped(s: Seq<char>) -> Seq<char>
    decreases s.len(),
{
    if s.len() == 0 {
        Seq::empty()
    } else {
        escaped(s.drop_last()) + escaped_char(s.last())
    }
}

/// A quoted JSON string.
pub open spec fn quoted(s: Seq<char>) -> Seq<char> {
    seq!['"'] + escaped(s) + seq!['"']
}

/// The compact JSON text of a value.
pub open spec fn json_text(v: Json) -> Seq<char>
    decreases v, 1int,
{
    match v {
        Json::Null => "null"@,
        Json::Bool(b) => if b {
            "true"@
        } else {
            "false"@
        },
        Json::Number(n) => n,
        Json::Str(s) => quoted(s),
        Json::Array(items) => seq!['['] + items_text(items) + seq![']'],
        Json::Object(entries) => seq!['{'] + entries_text(entries) + seq!['}'],
    }
}

/// The values of an array, separated by commas.
pub open spec fn items_text(items: Seq<Json>) -> Seq<char>
    decreases items, 0int,
{
    if items.len() == 0 {
        Seq::empty()
    } else if items.len() == 1 {
        json_text(items[0])
    } else {
        items_text(items.drop_last()) + seq![','] + json_text(items.last())
    }
}

/// The entries of an object, each a quoted key, a colon and the value, separated by
/// commas.
pub open spec fn entries_text(entries: Seq<(Seq<char>, Json)>) -> Seq<char>
    decreases entries, 0int,
{
    if entries.len() == 0 {
        Seq::empty()
    } else if entries.len() == 1 {
        quoted(entries[0].0) + seq![':'] + json_text(entries[0].1)
    } else {
        entries_text(entries.drop_last()) + seq![','] + quoted(entries.last().0) + seq![':'] + json_text(
            entries.last().1,
        )
    }
}

fn hex_digit_exec(d: u32) -> (c: char)
    requires
        d < 16,
    ensures
        c == hex_digit(d as nat),
{
    match d {
        0 => '0',
        1 => '1',
        2 => '2',
        3 => '3',
        4 => '4',
        5 => '5',
        6 => '6',
        7 => '7',
        8 => '8',
        9 => '9',
        10 => 'a',
        11 => 'b',
        12 => 'c',
        13 => 'd',
        14 => 'e',
        _ => 'f',
    }
}

fn push_str(out: &mut String, s: &str)
    ensures
        final(out)@ == old(out)@ + s@,
{
    out.append(s);
}

fn write_escaped_char(out: &mut String, c: char)
    ensures
        final(out)@ == old(out)@ + escaped_char(c),
{
    let u = c as u32;
    if c == '"' {
        push_str(out, "\\\"");
        assert("\\\""@ =~= seq!['\\', '"']) by {
            reveal_strlit("\\\"");
        }
    } else if c == '\\' {
        push_str(out, "\\\\");
        assert("\\\\"@ =~= seq!['\\', '\\']) by {
            reveal_strlit("\\\\");
        }
    } else if u == 8 {
        push_char(out, '\\');
        push_char(out, 'b');
    } else if u == 12 {
        push_char(out, '\\');
        push_char(out, 'f');
    } else if u == 10 {
        push_char(out, '\\');
        push_char(out, 'n');
    } else if u == 13 {
        push_char(out, '\\');
        push_char(out, 'r');
    } else if u == 9 {
        push_char(out, '\\');
        push_char(out, 't');
    } else if u < 0x20 {
        push_char(out, '\\');
        push_char(out, 'u');
        push_char(out, '0');
        push_char(out, '0');
        push_char(out, hex_digit_exec(u / 16));
        push_char(out, hex_digit_exec(u % 16));
    } else {
        push_char(out, c);
    }
    assert(final(out)@ =~= old(out)@ + escaped_char(c)) by {
        if u == 8 || u == 12 || u == 10 || u == 13 || u == 9 {
        }
    }
}

/// Writes a quoted JSON string.
pub fn write_quoted(out: &mut String, s: &str)
    ensures
        final(out)@ == old(out)@ + quoted(s@),
{
    let ghost start = out@;
    push_char(out, '"');
    let n = s.unicode_len();
    let mut i: usize = 0;
    while i < n
        invariant
            n == s@.len(),
            i <= n,
            out@ == start + seq!['"'] + escaped(s@.subrange(0, i as int)),
        decreases n - i,
    {
        let c = s.get_char(i);
        write_escaped_char(out, c);
        let ghost next = s@.subrange(0, i + 1);
        assert(next.drop_last() =~= s@.subrange(0, i as int));
        assert(next.last() == c);
        i += 1;
    }
    push_char(out, '"');
    assert(s@.subrange(0, n as int) =~= s@);
    assert(out@ =~= start + quoted(s@));
}

/// Writes the compact JSON text of a value.
pub fn write_json_text(out: &mut String, v: &JsonValue)
    ensures
        final(out)@ == old(out)@ + json_text(v@),
    decreases v,
{
    let ghost start = out@;
    match v {
        JsonValue::Null => {
            push_str(out, "null");
        },
        JsonValue::Bool(b) => {
            if *b {
                push_str(out, "true");
            } else {
                push_str(out, "false");
            }
        },
        JsonValue::Number(n) => {
            push_str(out, n.as_str());
        },
        JsonValue::Str(s) => {
            write_quoted(out, s.as_str());
        },
        JsonValue::Array(items) => {
            push_char(out, '[');
            let mut i: usize = 0;
            while i < items.len()
                invariant
                    *v == JsonValue::Array(*items),
                    i <= items@.len(),
                    out@ == start + seq!['['] + items_text(items_model(items@.subrange(0, i as int))),
                decreases items@.len() - i,
            {
                let ghost before = out@;
                let ghost p = items_model(items@.subrange(0, i as int));
                let ghost next = items@.subrange(0, i + 1);
                assert(next.drop_last() =~= items@.subrange(0, i as int));
                assert(next.last() == items@[i as int]);
                assert(items_model(next) == p.push(json_model(items@[i as int])));
                assert(p.push(json_model(items@[i as int])).drop_last() =~= p);
                if i > 0 {
                    push_char(out, ',');
                }
                proof {
                    assert(decreases_to!(*items => items[i as int]));
                    assert(decreases_to!(*v => (*v)->Array_0));
                    assert(decreases_to!(*v => items[i as int]));
                }
                write_json_text(out, &items[i]);
                proof {
                    crate::json::lemma_items_model(items@.subrange(0, i as int));
                    if i == 0 {
                        assert(p.len() == 0);
                        assert(out@ =~= start + seq!['['] + items_text(items_model(next)));
                    } else {
                        assert(out@ =~= start + seq!['['] + items_text(items_model(next)));
                    }
                }
                i += 1;
            }
            push_char(out, ']');
            assert(items@.subrange(0, items@.len() as int) =~= items@);
            assert(out@ =~= start + json_text(v@));
        },
        JsonValue::Object(entries) => {
            push_char(out, '{');
            let mut i: usize = 0;
            while i < entries.len()
                invariant
                    *v == JsonValue::Object(*entries),
                    i <= entries@.len(),
                    out@ == start + seq!['{'] + entries_text(entries_model(entries@.subrange(0, i as int))),
                decreases entries@.len() - i,
            {
                let ghost p = entries_model(entries@.subrange(0, i as int));
                let ghost next = entries@.subrange(0, i + 1);
                let ghost x = (entries@[i as int].0@, json_model(entries@[i as int].1));
                assert(next.drop_last() =~= entries@.subrange(0, i as int));
                assert(next.last() == entries@[i as int]);
                assert(entries_model(next) == p.push(x));
                assert(p.push(x).drop_last() =~= p);
                if i > 0 {
                    push_char(out, ',');
                }
                write_quoted(out, entries[i].0.as_str());
                push_char(out, ':');
                proof {
                    assert(decreases_to!(*entries => entries[i as int]));
                    assert(decreases_to!(*v => (*v)->Object_0));
                    assert(decreases_to!(entries[i as int] => entries[i as int].1));
                    assert(decreases_to!(*v => entries[i as int].1));
                }
                write_json_text(out, &entries[i].1);
                proof {
                    crate::json::lemma_entries_model(entries@.subrange(0, i as int));
                    assert(out@ =~= start + seq!['{'] + entries_text(entries_model(next)));
                }
                i += 1;
            }
            push_char(out, '}');
            assert(entries@.subrange(0, entries@.len() as int) =~= entries@);
            assert(out@ =~= start + json_text(v@));
        },
    }
}

/// The compact JSON text of a value (`Value::to_string`).
pub fn json_to_text(v: &JsonValue) -> (r: String)
    ensures
        r@ == json_text(v@),
{
    let mut out = String::new();
    write_json_text(&mut out, v);
    assert(out@ =~= json_text(v@));
    out
}

} // verus!
