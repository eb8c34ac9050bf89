//! Output formats for record-oriented network sinks, selected by the `fmt`
//! configuration tag. The tag set is a closed enum; an unknown tag is
//! rejected at validation time. Fields tagged `Ignore` are skipped by every
//! format. The binary wire encodings of the proto formats are outside this
//! library; both proto tags render the text form.

use vstd::prelude::*;
use crate::record::{rendered_value, DataField, DataRecord, DataType};
use crate::strutil::{push_char, str_eq};
use crate::text::{join_seq, join_with};

verus! {

/// The output format of a record-oriented sink.
#[derive(Debug, Clone, Copy, PartialEq, Eq, Structural)]
pub enum TextFmt {
    Json,
    Csv,
    Show,
    Kv,
    Raw,
    Proto,
    ProtoText,
}

/// The format a tag names, if the tag is one of the allowed set
/// `json | csv | show | kv | raw | proto | proto-text`.
pub open spec fn fmt_of_tag(s: Seq<char>) -> Option<TextFmt> {
    if s == "json"@ {
        Some(TextFmt::Json)
    } else if s == "csv"@ {
        Some(TextFmt::Csv)
    } else if s == "show"@ {
        Some(TextFmt::Show)
    } else if s == "kv"@ {
        Some(TextFmt::Kv)
    } else if s == "raw"@ {
        Some(TextFmt::Raw)
    } else if s == "proto"@ {
        Some(TextFmt::Proto)
    } else if s == "proto-text"@ {
        Some(TextFmt::ProtoText)
    } else {
        None
    }
}

impl TextFmt {
    /// Reads a format tag.
    pub fn from_tag(s: &str) -> (r: Option<TextFmt>)
        ensures
            r == fmt_of_tag(s@),
    {
        if str_eq(s, "json") {
            Some(TextFmt::Json)
        } else if str_eq(s, "csv") {
            Some(TextFmt::Csv)
        } else if str_eq(s, "show") {
            Some(TextFmt::Show)
        } else if str_eq(s, "kv") {
            Some(TextFmt::Kv)
        } else if str_eq(s, "raw") {
            Some(TextFmt::Raw)
        } else if str_eq(s, "proto") {
            Some(TextFmt::Proto)
        } else if str_eq(s, "proto-text") {
            Some(TextFmt::ProtoText)
        } else {
            None
        }
    }
}

/// The character for one hexadecimal digit.
pub open spec fn hex_digit_char(d: nat) -> char {
    if d == 0 {
        '0'
    } else if d == 1 {
        '1'
    } else if d == 2 {
        '2'
    } else if d == 3 {
        '3'
    } else if d == 4 {
        '4'
    } else if d == 5 {
        '5'
    } else if d == 6 {
        '6'
    } else if d == 7 {
        '7'
    } else if d == 8 {
        '8'
    } else if d == 9 {
        '9'
    } else if d == 10 {
        'a'
    } else if d == 11 {
        'b'
    } else if d == 12 {
        'c'
    } else if d == 13 {
        'd'
    } else if d == 14 {
        'e'
    } else {
        'f'
    }
}

/// What one character of a value becomes inside a JSON string: the two
/// JSON metacharacters are escaped, the common whitespace controls get
/// their short forms, the remaining control characters get `\u00XX`.
pub open spec fn json_escape_char(c: char) -> Seq<char> {
    if c == '"' {
        seq!['\\', '"']
    } else if c == '\\' {
        seq!['\\', '\\']
    } else if c == '\n' {
        seq!['\\', 'n']
    } else if c == '\r' {
        seq!['\\', 'r']
    } else if c == '\t' {
        seq!['\\', 't']
    } else if (c as nat) < 32 {
        seq!['\\', 'u', '0', '0', hex_digit_char((c as nat) / 16), hex_digit_char((c as nat) % 16)]
    } else {
        seq![c]
    }
}

/// The JSON-escaped form of a whole string.
pub open spec fn json_escape_seq(s: Seq<char>) -> Seq<char>
    decreases s.len(),
{
    if s.len() == 0 {
        Seq::empty()
    } else {
        json_escape_char(s[0]) + json_escape_seq(s.drop_first())
    }
}

proof fn lemma_json_escape_snoc(s: Seq<char>, c: char)
    ensures
        json_escape_seq(s.push(c)) == json_escape_seq(s) + json_escape_char(c),
    decreases s.len(),
{
    let p = s.push(c);
    if s.len() == 0 {
        assert(p.drop_first() =~= Seq::<char>::empty());
        assert(p[0] == c);
        assert(json_escape_seq(Seq::<char>::empty()) == Seq::<char>::empty());
        assert(json_escape_char(c) + Seq::<char>::empty() =~= json_escape_char(c));
        assert(json_escape_seq(s) + json_escape_char(c) =~= json_escape_char(c));
    } else {
        assert(p.drop_first() =~= s.drop_first().push(c));
        assert(p[0] == s[0]);
        lemma_json_escape_snoc(s.drop_first(), c);
        assert(json_escape_char(s[0]) + (json_escape_seq(s.drop_first()) + json_escape_char(c))
            =~= (json_escape_char(s[0]) + json_escape_seq(s.drop_first())) + json_escape_char(c));
    }
}

/// Renders one hexadecimal digit.
fn hex_digit(d: u32) -> (c: char)
    requires
        d < 16,
    ensures
        c == hex_digit_char(d as nat),
{
    if d == 0 {
        '0'
    } else if d == 1 {
        '1'
    } else if d == 2 {
        '2'
    } else if d == 3 {
        '3'
    } else if d == 4 {
        '4'
    } else if d == 5 {
        '5'
    } else if d == 6 {
        '6'
    } else if d == 7 {
        '7'
    } else if d == 8 {
        '8'
    } else if d == 9 {
        '9'
    } else if d == 10 {
        'a'
    } else if d == 11 {
        'b'
    } else if d == 12 {
        'c'
    } else if d == 13 {
        'd'
    } else if d == 14 {
        'e'
    } else {
        'f'
    }
}

/// Escapes a value for placement inside a JSON string literal.
pub fn json_escape(value: &str) -> (r: String)
    ensures
        r@ == json_escape_seq(value@),
{
    let n = value.unicode_len();
    let mut out = String::new();
    let mut i: usize = 0;
    proof {
        assert(value@.take(0) =~= Seq::<char>::empty());
    }
    while i < n
        invariant
            n == value@.len(),
            i <= n,
            out@ == json_escape_seq(value@.take(i as int)),
        decreases n - i,
    {
        let c = value.get_char(i);
        if c == '"' {
            out.append("\\\"");
            proof {
                reveal_strlit("\\\"");
                assert("\\\""@ =~= json_escape_char(c));
            }
        } else if c == '\\' {
            out.append("\\\\");
            proof {
                reveal_strlit("\\\\");
                assert("\\\\"@ =~= json_escape_char(c));
            }
        } else if c == '\n' {
            out.append("\\n");
            proof {
                reveal_strlit("\\n");
                assert("\\n"@ =~= json_escape_char(c));
            }
        } else if c == '\r' {
            out.append("\\r");
            proof {
                reveal_strlit("\\r");
                assert("\\r"@ =~= json_escape_char(c));
            }
        } else if c == '\t' {
            out.append("\\t");
            proof {
                reveal_strlit("\\t");
                assert("\\t"@ =~= json_escape_char(c));
            }
        } else if (c as u32) < 32 {
            out.append("\\u00");
            push_char(&mut out, hex_digit((c as u32) / 16));
            push_char(&mut out, hex_digit((c as u32) % 16));
            proof {
                reveal_strlit("\\u00");
                assert("\\u00"@ + seq![
                    hex_digit_char((c as nat) / 16),
                    hex_digit_char((c as nat) % 16),
                ] =~= json_escape_char(c));
                assert(out@ =~= json_escape_seq(value@.take(i as int)) + json_escape_char(c));
            }
        } else {
            push_char(&mut out, c);
            proof {
                assert(out@ =~= json_escape_seq(value@.take(i as int)) + json_escape_char(c));
            }
        }
        proof {
            lemma_json_escape_snoc(value@.take(i as int), value@[i as int]);
            assert(value@.take(i + 1) =~= value@.take(i as int).push(value@[i as int]));
            assert(out@ == json_escape_seq(value@.take(i + 1)));
        }
        i = i + 1;
    }
    proof {
        assert(value@.take(n as int) =~= value@);
    }
    out
}

/// The name/value pairs a record materializes: every field not tagged
/// `Ignore`, in record order, with the value in its string rendering.
pub open spec fn visible_pairs(items: Seq<DataField>) -> Seq<(Seq<char>, Seq<char>)>
    decreases items.len(),
{
    if items.len() == 0 {
        Seq::empty()
    } else {
        visible_pairs(items.drop_last()) + (if items.last().meta != DataType::Ignore {
            seq![(items.last().name@, rendered_value(items.last().value))]
        } else {
            Seq::<(Seq<char>, Seq<char>)>::empty()
        })
    }
}

/// Collects a record's visible name/value pairs.
pub fn collect_visible_pairs(record: &DataRecord) -> (r: Vec<(String, String)>)
    ensures
        r.deep_view() == visible_pairs(record.items@),
{
    let mut out: Vec<(String, String)> = Vec::new();
    let mut i: usize = 0;
    proof {
        assert(record.items@.take(0) =~= Seq::<DataField>::empty());
    }
    while i < record.items.len()
        invariant
            i <= record.items@.len(),
            out.deep_view() == visible_pairs(record.items@.take(i as int)),
        decreases record.items@.len() - i,
    {
        proof {
            assert(record.items@.take(i + 1).drop_last() =~= record.items@.take(i as int));
            assert(record.items@.take(i + 1).last() == record.items@[i as int]);
        }
        let f = &record.items[i];
        if f.meta != DataType::Ignore {
            let pair = (f.name.clone(), f.rendered());
            out.push(pair);
            proof {
                assert(out.deep_view() =~~= visible_pairs(record.items@.take(i + 1)));
            }
        } else {
            proof {
                assert(out.deep_view() =~~= visible_pairs(record.items@.take(i + 1)));
            }
        }
        i = i + 1;
    }
    proof {
        assert(record.items@.take(record.items@.len() as int) =~= record.items@);
    }
    out
}

/// One JSON object member: `"name":"value"`, both sides escaped.
pub open spec fn json_member(p: (Seq<char>, Seq<char>)) -> Seq<char> {
    seq!['"'] + json_escape_seq(p.0) + "\":\""@ + json_escape_seq(p.1) + seq!['"']
}

/// One `name=value` pair.
pub open spec fn kv_pair(p: (Seq<char>, Seq<char>)) -> Seq<char> {
    p.0 + seq!['='] + p.1
}

/// One `name: value` pair.
pub open spec fn show_pair(p: (Seq<char>, Seq<char>)) -> Seq<char> {
    p.0 + ": "@ + p.1
}

/// One proto-text member: `name: "value"`, the value escaped.
pub open spec fn proto_pair(p: (Seq<char>, Seq<char>)) -> Seq<char> {
    p.0 + ": \""@ + json_escape_seq(p.1) + seq!['"']
}

/// The formatted text of a record under each format, over its visible
/// name/value pairs: a JSON object; comma-joined values; `name: value`
/// pairs; `name=value` pairs; the values run together; or proto text
/// members, one per line.
pub open spec fn format_record_spec(fmt: TextFmt, items: Seq<DataField>) -> Seq<char> {
    let pairs = visible_pairs(items);
    match fmt {
        TextFmt::Json => seq!['{'] + join_seq(pairs.map_values(|p| json_member(p)), ","@)
            + seq!['}'],
        TextFmt::Csv => join_seq(pairs.map_values(|p: (Seq<char>, Seq<char>)| p.1), ","@),
        TextFmt::Show => join_seq(pairs.map_values(|p| show_pair(p)), ", "@),
        TextFmt::Kv => join_seq(pairs.map_values(|p| kv_pair(p)), " "@),
        TextFmt::Raw => join_seq(pairs.map_values(|p: (Seq<char>, Seq<char>)| p.1), ""@),
        TextFmt::Proto => join_seq(pairs.map_values(|p| proto_pair(p)), "\n"@),
        TextFmt::ProtoText => join_seq(pairs.map_values(|p| proto_pair(p)), "\n"@),
    }
}

/// Renders the parts of each visible pair under one format.
fn render_parts(pairs: &Vec<(String, String)>, fmt: TextFmt) -> (r: Vec<String>)
    ensures
        r.deep_view().len() == pairs.deep_view().len(),
        forall|j: int|
            0 <= j < pairs.deep_view().len() ==> (#[trigger] r.deep_view()[j]) == render_part_spec(
                fmt,
                pairs.deep_view()[j],
            ),
{
    let mut parts: Vec<String> = Vec::new();
    let mut i: usize = 0;
    while i < pairs.len()
        invariant
            i <= pairs@.len(),
            parts@.len() == i,
            forall|j: int|
                0 <= j < i ==> (#[trigger] parts@[j])@ == render_part_spec(
                    fmt,
                    pairs.deep_view()[j],
                ),
        decreases pairs@.len() - i,
    {
        let name = &pairs[i].0;
        let value = &pairs[i].1;
        let part: String = match fmt {
            TextFmt::Json => {
                let mut s = String::new();
                push_char(&mut s, '"');
                let en = json_escape(name.as_str());
                s.append(en.as_str());
                s.append("\":\"");
                let ev = json_escape(value.as_str());
                s.append(ev.as_str());
                push_char(&mut s, '"');
                proof {
                    assert(s@ =~= render_part_spec(fmt, pairs.deep_view()[i as int]));
                }
                s
            },
            TextFmt::Csv => {
                let s = value.clone();
                proof {
                    assert(s@ =~= render_part_spec(fmt, pairs.deep_view()[i as int]));
                }
                s
            },
            TextFmt::Show => {
                let mut s = name.clone();
                s.append(": ");
                s.append(value.as_str());
                proof {
                    assert(s@ =~= render_part_spec(fmt, pairs.deep_view()[i as int]));
                }
                s
            },
            TextFmt::Kv => {
                let mut s = name.clone();
                push_char(&mut s, '=');
                s.append(value.as_str());
                proof {
                    assert(s@ =~= render_part_spec(fmt, pairs.deep_view()[i as int]));
                }
                s
            },
            TextFmt::Raw => {
                let s = value.clone();
                proof {
                    assert(s@ =~= render_part_spec(fmt, pairs.deep_view()[i as int]));
                }
                s
            },
            TextFmt::Proto => {
                let mut s = name.clone();
                s.append(": \"");
                let ev = json_escape(value.as_str());
                s.append(ev.as_str());
                push_char(&mut s, '"');
                proof {
                    assert(s@ =~= render_part_spec(fmt, pairs.deep_view()[i as int]));
                }
                s
            },
            TextFmt::ProtoText => {
                let mut s = name.clone();
                s.append(": \"");
                let ev = json_escape(value.as_str());
                s.append(ev.as_str());
                push_char(&mut s, '"');
                proof {
                    assert(s@ =~= render_part_spec(fmt, pairs.deep_view()[i as int]));
                }
                s
            },
        };
        parts.push(part);
        i = i + 1;
    }
    proof {
        assert forall|j: int|
            0 <= j < pairs.deep_view().len() implies (#[trigger] parts.deep_view()[j])
            == render_part_spec(fmt, pairs.deep_view()[j]) by {
            assert(parts.deep_view()[j] == parts@[j]@);
        }
    }
    parts
}

/// The rendering of one pair under one format.
pub open spec fn render_part_spec(fmt: TextFmt, p: (Seq<char>, Seq<char>)) -> Seq<char> {
    match fmt {
        TextFmt::Json => json_member(p),
        TextFmt::Csv => p.1,
        TextFmt::Show => show_pair(p),
        TextFmt::Kv => kv_pair(p),
        TextFmt::Raw => p.1,
        TextFmt::Proto => proto_pair(p),
        TextFmt::ProtoText => proto_pair(p),
    }
}

/// The JSON object of a list of name/value pairs, in order, both sides
/// escaped.
pub open spec fn json_object_spec(ps: Seq<(Seq<char>, Seq<char>)>) -> Seq<char> {
    seq!['{'] + join_seq(ps.map_values(|p| json_member(p)), ","@) + seq!['}']
}

/// Renders a list of name/value pairs as one JSON object.
pub fn json_object(pairs: &Vec<(String, String)>) -> (r: String)
    ensures
        r@ == json_object_spec(pairs.deep_view()),
{
    let parts = render_parts(pairs, TextFmt::Json);
    let joined = join_with(&parts, ",");
    let mut s = String::new();
    push_char(&mut s, '{');
    s.append(joined.as_str());
    push_char(&mut s, '}');
    proof {
        let ps = pairs.deep_view();
        let m = |p: (Seq<char>, Seq<char>)| json_member(p);
        assert forall|j: int| 0 <= j < ps.len() implies parts.deep_view()[j] == ps.map_values(m)[j]
            by {
            assert(ps.map_values(m)[j] == m(ps[j]));
            assert(render_part_spec(TextFmt::Json, ps[j]) == json_member(ps[j]));
        }
        assert(parts.deep_view() =~~= ps.map_values(m));
        assert(s@ =~= json_object_spec(ps));
    }
    s
}

/// Formats a record under the given format.
pub fn format_record(fmt: TextFmt, record: &DataRecord) -> (r: String)
    ensures
        r@ == format_record_spec(fmt, record.items@),
{
    let pairs = collect_visible_pairs(record);
    let parts = render_parts(&pairs, fmt);
    let sep: &str = match fmt {
        TextFmt::Json => ",",
        TextFmt::Csv => ",",
        TextFmt::Show => ", ",
        TextFmt::Kv => " ",
        TextFmt::Raw => "",
        TextFmt::Proto => "\n",
        TextFmt::ProtoText => "\n",
    };
    let joined = join_with(&parts, sep);
    proof {
        let ps = visible_pairs(record.items@);
        let m = |p: (Seq<char>, Seq<char>)| render_part_spec(fmt, p);
        assert forall|j: int| 0 <= j < ps.len() implies parts.deep_view()[j] == ps.map_values(m)[j]
            by {
            assert(ps.map_values(m)[j] == m(ps[j]));
        }
        assert(parts.deep_view() =~~= ps.map_values(m));
    }
    match fmt {
        TextFmt::Json => {
            let mut s = String::new();
            push_char(&mut s, '{');
            s.append(joined.as_str());
            push_char(&mut s, '}');
            proof {
                lemma_map_render_eq(fmt, record.items@);
                assert(s@ =~= format_record_spec(fmt, record.items@));
            }
            s
        },
        _ => {
            proof {
                lemma_map_render_eq(fmt, record.items@);
                assert(joined@ =~= format_record_spec(fmt, record.items@));
            }
            joined
        },
    }
}

/// Under each format, the per-pair rendering used by the formatter matches
/// the per-pair function in the format's definition.
proof fn lemma_map_render_eq(fmt: TextFmt, items: Seq<DataField>)
    ensures
        ({
            let ps = visible_pairs(items);
            ps.map_values(|p: (Seq<char>, Seq<char>)| render_part_spec(fmt, p)) =~~= match fmt {
                TextFmt::Json => ps.map_values(|p| json_member(p)),
                TextFmt::Csv => ps.map_values(|p: (Seq<char>, Seq<char>)| p.1),
                TextFmt::Show => ps.map_values(|p| show_pair(p)),
                TextFmt::Kv => ps.map_values(|p| kv_pair(p)),
                TextFmt::Raw => ps.map_values(|p: (Seq<char>, Seq<char>)| p.1),
                TextFmt::Proto => ps.map_values(|p| proto_pair(p)),
                TextFmt::ProtoText => ps.map_values(|p| proto_pair(p)),
            }
        }),
{
    let ps = visible_pairs(items);
    let m = |p: (Seq<char>, Seq<char>)| render_part_spec(fmt, p);
    assert forall|j: int| 0 <= j < ps.len() implies #[trigger] ps.map_values(m)[j] == m(ps[j]) by {}
}

} // verus!
