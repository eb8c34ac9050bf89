//! SQL safety layer: escaping for string literals and identifier quoting.
//!
//! These two functions are the only write path for backends that do not
//! support prepared statements: every value is passed through
//! [`escape_sql_string`] before it is placed inside a single-quoted literal,
//! and every table or column name is passed through [`quote_identifier`].

use vstd::prelude::*;
use crate::strutil::push_char;

verus! {

/// What one character of a value becomes inside a single-quoted SQL literal.
pub open spec fn escape_char(c: char) -> Seq<char> {
    if c == '\\' {
        seq!['\\', '\\']
    } else if c == '\'' {
        seq!['\'', '\'']
    } else if c == '\u{0}' {
        seq!['\\', '0']
    } else if c == '\n' {
        seq!['\\', 'n']
    } else if c == '\r' {
        seq!['\\', 'r']
    } else if c == '\u{1a}' {
        seq!['\\', 'Z']
    } else {
        seq![c]
    }
}

/// The escaped form of a whole value: each character replaced by its
/// escape expansion, in order.
pub open spec fn escape_seq(s: Seq<char>) -> Seq<char>
    decreases s.len(),
{
    if s.len() == 0 {
        Seq::empty()
    } else {
        escape_char(s[0]) + escape_seq(s.drop_first())
    }
}

/// Reading an escaped literal back, as the SQL dialect does: doubled single
/// quotes collapse, backslash introduces one of the five escape forms, and
/// any other character stands for itself. `None` marks text that is not a
/// well-formed escaped literal (a lone quote, a trailing or unknown escape).
pub open spec fn unescape_seq(s: Seq<char>) -> Option<Seq<char>>
    decreases s.len(),
{
    if s.len() == 0 {
        Some(Seq::empty())
    } else if s[0] == '\'' {
        if s.len() >= 2 && s[1] == '\'' {
            match unescape_seq(s.skip(2)) {
                Some(t) => Some(seq!['\''] + t),
                None => None,
            }
        } else {
            None
        }
    } else if s[0] == '\\' {
        if s.len() >= 2 {
            match (unescape_code(s[1]), unescape_seq(s.skip(2))) {
                (Some(c), Some(t)) => Some(seq![c] + t),
                _ => None,
            }
        } else {
            None
        }
    } else {
        match unescape_seq(s.skip(1)) {
            Some(t) => Some(seq![s[0]] + t),
            None => None,
        }
    }
}

/// The character named by a backslash escape code, if the code is one of
/// the five this layer emits.
pub open spec fn unescape_code(c: char) -> Option<char> {
    if c == '\\' {
        Some('\\')
    } else if c == '0' {
        Some('\u{0}')
    } else if c == 'n' {
        Some('\n')
    } else if c == 'r' {
        Some('\r')
    } else if c == 'Z' {
        Some('\u{1a}')
    } else {
        None
    }
}

proof fn lemma_escape_seq_snoc(s: Seq<char>, c: char)
    ensures
        escape_seq(s.push(c)) == escape_seq(s) + escape_char(c),
    decreases s.len(),
{
    let p = s.push(c);
    if s.len() == 0 {
        assert(p.drop_first() =~= Seq::<char>::empty());
        assert(p[0] == c);
        assert(escape_seq(p) == escape_char(c) + escape_seq(Seq::<char>::empty()));
        assert(escape_seq(Seq::<char>::empty()) == Seq::<char>::empty());
        assert(escape_char(c) + Seq::<char>::empty() =~= escape_char(c));
        assert(escape_seq(s) + escape_char(c) =~= escape_char(c));
    } else {
        assert(p.drop_first() =~= s.drop_first().push(c));
        assert(p[0] == s[0]);
        lemma_escape_seq_snoc(s.drop_first(), c);
        assert(escape_seq(p) == escape_char(s[0]) + (escape_seq(s.drop_first()) + escape_char(c)));
        assert(escape_char(s[0]) + (escape_seq(s.drop_first()) + escape_char(c)) =~= (escape_char(
            s[0],
        ) + escape_seq(s.drop_first())) + escape_char(c));
    }
}

/// Escapes a value so that it can stand inside a single-quoted SQL string
/// literal: backslash, single quote, NUL, line feed, carriage return and
/// Ctrl-Z are all replaced by inert two-character forms.
pub fn escape_sql_string(value: &str) -> (r: String)
    ensures
        r@ == escape_seq(value@),
{
    let n = value.unicode_len();
    let mut out = String::new();
    let mut i: usize = 0;
    proof {
        assert(value@.take(0) =~= Seq::<char>::empty());
    }
    while i < n
        invariant
            n == value@.len(),
            i <= n,
            out@ == escape_seq(value@.take(i as int)),
        decreases n - i,
    {
        let c = value.get_char(i);
        if c == '\\' {
            out.append("\\\\");
            proof {
                reveal_strlit("\\\\");
                assert("\\\\"@ =~= escape_char(c));
            }
        } else if c == '\'' {
            out.append("''");
            proof {
                reveal_strlit("''");
                assert("''"@ =~= escape_char(c));
            }
        } else if c == '\u{0}' {
            out.append("\\0");
            proof {
                reveal_strlit("\\0");
                assert("\\0"@ =~= escape_char(c));
            }
        } else if c == '\n' {
            out.append("\\n");
            proof {
                reveal_strlit("\\n");
                assert("\\n"@ =~= escape_char(c));
            }
        } else if c == '\r' {
            out.append("\\r");
            proof {
                reveal_strlit("\\r");
                assert("\\r"@ =~= escape_char(c));
            }
        } else if c == '\u{1a}' {
            out.append("\\Z");
            proof {
                reveal_strlit("\\Z");
                assert("\\Z"@ =~= escape_char(c));
            }
        } else {
            push_char(&mut out, c);
            proof {
                assert(out@ =~= escape_seq(value@.take(i as int)) + escape_char(c));
            }
        }
        proof {
            lemma_escape_seq_snoc(value@.take(i as int), value@[i as int]);
            assert(value@.take(i + 1) =~= value@.take(i as int).push(value@[i as int]));
            assert(out@ == escape_seq(value@.take(i + 1)));
        }
        i = i + 1;
    }
    proof {
        assert(value@.take(n as int) =~= value@);
    }
    out
}

/// Reads an escaped literal back to the original value; `None` when the text
/// is not a well-formed escaped literal.
pub fn unescape_sql_string(value: &str) -> (r: Option<String>)
    ensures
        match r {
            Some(x) => unescape_seq(value@) == Some(x@),
            None => unescape_seq(value@) is None,
        },
{
    let n = value.unicode_len();
    let mut out = String::new();
    let mut i: usize = 0;
    proof {
        assert(value@.skip(0) =~= value@);
        match unescape_seq(value@) {
            Some(t) => {
                assert(Seq::<char>::empty() + t =~= t);
            },
            None => {},
        }
    }
    while i < n
        invariant
            n == value@.len(),
            i <= n,
            unescape_seq(value@) == unescape_with_prefix(
                out@,
                unescape_seq(value@.skip(i as int)),
            ),
        decreases n - i,
    {
        let c = value.get_char(i);
        proof {
            assert(value@.skip(i as int)[0] == value@[i as int]);
        }
        if c == '\'' {
            if i + 1 >= n || value.get_char(i + 1) != '\'' {
                proof {
                    assert(unescape_seq(value@.skip(i as int)) is None);
                }
                return None;
            }
            proof {
                assert(value@.skip(i as int)[1] == value@[i + 1]);
                assert(value@.skip(i as int).skip(2) =~= value@.skip(i + 2));
                lemma_prefix_step(out@, '\'', unescape_seq(value@.skip(i + 2)));
            }
            push_char(&mut out, '\'');
            i = i + 2;
        } else if c == '\\' {
            if i + 1 >= n {
                proof {
                    assert(unescape_seq(value@.skip(i as int)) is None);
                }
                return None;
            }
            let d = value.get_char(i + 1);
            proof {
                assert(value@.skip(i as int)[1] == value@[i + 1]);
                assert(value@.skip(i as int).skip(2) =~= value@.skip(i + 2));
            }
            if d == '\\' {
                proof {
                    lemma_prefix_step(out@, '\\', unescape_seq(value@.skip(i + 2)));
                }
                push_char(&mut out, '\\');
            } else if d == '0' {
                proof {
                    lemma_prefix_step(out@, '\u{0}', unescape_seq(value@.skip(i + 2)));
                }
                push_char(&mut out, '\u{0}');
            } else if d == 'n' {
                proof {
                    lemma_prefix_step(out@, '\n', unescape_seq(value@.skip(i + 2)));
                }
                push_char(&mut out, '\n');
            } else if d == 'r' {
                proof {
                    lemma_prefix_step(out@, '\r', unescape_seq(value@.skip(i + 2)));
                }
                push_char(&mut out, '\r');
            } else if d == 'Z' {
                proof {
                    lemma_prefix_step(out@, '\u{1a}', unescape_seq(value@.skip(i + 2)));
                }
                push_char(&mut out, '\u{1a}');
            } else {
                proof {
                    assert(unescape_code(value@[i + 1]) is None);
                    assert(unescape_seq(value@.skip(i as int)) is None);
                }
                return None;
            }
            i = i + 2;
        } else {
            proof {
                assert(value@.skip(i as int).skip(1) =~= value@.skip(i + 1));
                lemma_prefix_step(out@, c, unescape_seq(value@.skip(i + 1)));
            }
            push_char(&mut out, c);
            i = i + 1;
        }
    }
    proof {
        assert(value@.skip(n as int) =~= Seq::<char>::empty());
        assert(out@ + Seq::<char>::empty() =~= out@);
    }
    Some(out)
}

/// Joins an already-unescaped prefix with the outcome of unescaping the rest.
pub open spec fn unescape_with_prefix(p: Seq<char>, rest: Option<Seq<char>>) -> Option<Seq<char>> {
    match rest {
        Some(t) => Some(p + t),
        None => None,
    }
}

proof fn lemma_prefix_step(p: Seq<char>, c: char, rest: Option<Seq<char>>)
    ensures
        unescape_with_prefix(
            p,
            match rest {
                Some(t) => Some(seq![c] + t),
                None => None,
            },
        ) == unescape_with_prefix(p.push(c), rest),
{
    match rest {
        Some(t) => {
            assert(p + (seq![c] + t) =~= p.push(c) + t);
        },
        None => {},
    }
}

/// Escaping loses nothing: reading an escaped value back with the dialect's
/// escape rules reconstructs the value exactly, for every value, including
/// ones holding quotes, backslashes, NUL, CR, LF and Ctrl-Z.
pub proof fn lemma_escape_round_trip(s: Seq<char>)
    ensures
        unescape_seq(escape_seq(s)) == Some(s),
    decreases s.len(),
{
    if s.len() == 0 {
    } else {
        let c = s[0];
        let rest = escape_seq(s.drop_first());
        lemma_escape_round_trip(s.drop_first());
        let e = escape_char(c) + rest;
        assert(escape_seq(s) == e);
        if c == '\\' || c == '\u{0}' || c == '\n' || c == '\r' || c == '\u{1a}' {
            assert(e.len() >= 2 && e[0] == '\\');
            assert(e.skip(2) =~= rest);
            assert(unescape_code(e[1]) == Some(c));
            assert(seq![c] + s.drop_first() =~= s);
        } else if c == '\'' {
            assert(e.len() >= 2 && e[0] == '\'' && e[1] == '\'');
            assert(e.skip(2) =~= rest);
            assert(seq!['\''] + s.drop_first() =~= s);
        } else {
            assert(e[0] == c);
            assert(e.skip(1) =~= rest);
            assert(seq![c] + s.drop_first() =~= s);
        }
    }
}

/// Escaped values embed safely: whatever the input, the escaped form never
/// holds a raw NUL, line feed, carriage return or Ctrl-Z, so none of the
/// bytes that cut a statement short survive into the literal.
pub proof fn lemma_escape_free_of_controls(s: Seq<char>, i: int)
    requires
        0 <= i < escape_seq(s).len(),
    ensures
        escape_seq(s)[i] != '\u{0}',
        escape_seq(s)[i] != '\n',
        escape_seq(s)[i] != '\r',
        escape_seq(s)[i] != '\u{1a}',
    decreases s.len(),
{
    if s.len() > 0 {
        let head = escape_char(s[0]);
        if i < head.len() {
            assert(escape_seq(s)[i] == head[i]);
        } else {
            assert(escape_seq(s)[i] == escape_seq(s.drop_first())[i - head.len()]);
            lemma_escape_free_of_controls(s.drop_first(), i - head.len());
        }
    }
}

/// What one character of a name becomes inside a backtick-quoted identifier:
/// a dot separates compound-name segments, so it closes one quoted segment
/// and opens the next; an embedded backtick is doubled.
pub open spec fn quote_char(c: char) -> Seq<char> {
    if c == '.' {
        seq!['`', '.', '`']
    } else if c == '`' {
        seq!['`', '`']
    } else {
        seq![c]
    }
}

/// The body of a quoted identifier, between the outer backticks.
pub open spec fn quote_body(s: Seq<char>) -> Seq<char>
    decreases s.len(),
{
    if s.len() == 0 {
        Seq::empty()
    } else {
        quote_char(s[0]) + quote_body(s.drop_first())
    }
}

/// The fully quoted form of an identifier: each dot-separated segment
/// wrapped in backticks, embedded backticks doubled, segments rejoined
/// with dots.
pub open spec fn quote_ident(s: Seq<char>) -> Seq<char> {
    seq!['`'] + quote_body(s) + seq!['`']
}

proof fn lemma_quote_body_snoc(s: Seq<char>, c: char)
    ensures
        quote_body(s.push(c)) == quote_body(s) + quote_char(c),
    decreases s.len(),
{
    let p = s.push(c);
    if s.len() == 0 {
        assert(p.drop_first() =~= Seq::<char>::empty());
        assert(p[0] == c);
        assert(quote_body(p) == quote_char(c) + quote_body(Seq::<char>::empty()));
        assert(quote_body(Seq::<char>::empty()) == Seq::<char>::empty());
        assert(quote_char(c) + Seq::<char>::empty() =~= quote_char(c));
        assert(quote_body(s) + quote_char(c) =~= quote_char(c));
    } else {
        assert(p.drop_first() =~= s.drop_first().push(c));
        assert(p[0] == s[0]);
        lemma_quote_body_snoc(s.drop_first(), c);
        assert(quote_body(p) == quote_char(s[0]) + (quote_body(s.drop_first()) + quote_char(c)));
        assert(quote_char(s[0]) + (quote_body(s.drop_first()) + quote_char(c)) =~= (quote_char(s[0])
            + quote_body(s.drop_first())) + quote_char(c));
    }
}

/// Quotes a table or column name for use in SQL text, supporting compound
/// `schema.table` names: each dot-separated segment is wrapped in backticks
/// and embedded backticks are doubled.
pub fn quote_identifier(input: &str) -> (r: String)
    ensures
        r@ == quote_ident(input@),
{
    let n = input.unicode_len();
    let mut out = String::new();
    push_char(&mut out, '`');
    let mut i: usize = 0;
    proof {
        assert(input@.take(0) =~= Seq::<char>::empty());
        assert(out@ =~= seq!['`'] + quote_body(input@.take(0)));
    }
    while i < n
        invariant
            n == input@.len(),
            i <= n,
            out@ == seq!['`'] + quote_body(input@.take(i as int)),
        decreases n - i,
    {
        let c = input.get_char(i);
        if c == '.' {
            out.append("`.`");
            proof {
                reveal_strlit("`.`");
                assert("`.`"@ =~= quote_char(c));
            }
        } else if c == '`' {
            out.append("``");
            proof {
                reveal_strlit("``");
                assert("``"@ =~= quote_char(c));
            }
        } else {
            push_char(&mut out, c);
        }
        proof {
            lemma_quote_body_snoc(input@.take(i as int), input@[i as int]);
            assert(input@.take(i + 1) =~= input@.take(i as int).push(input@[i as int]));
            assert(out@ =~= seq!['`'] + quote_body(input@.take(i + 1)));
        }
        i = i + 1;
    }
    push_char(&mut out, '`');
    proof {
        assert(input@.take(n as int) =~= input@);
        assert(out@ =~= quote_ident(input@));
    }
    out
}

} // verus!
