//! Rendering the aggregated records as a pretty-printed JSON document: an
//! array of one-key objects, two-space indentation, with the title text
//! escaped as JSON string syntax demands.
use vstd::prelude::*;
use vstd::string::StrSliceExecFns;
use vstd::string::StringExecFns;
use crate::record::{titles_of, Record};

verus! {

/// The hexadecimal digit characters, for values zero through fifteen.
pub open spec fn hex_char(d: int) -> char {
    if d == 0 {
        '0'
    } else if d == 1 {
        '1'
    } else if d == 2 {
        '2'
    } else if d == 3 {
        '3'
    } else if d == 4 {
        '4'
    } else if d == 5 {
        '5'
    } else if d == 6 {
        '6'
    } else if d == 7 {
        '7'
    } else if d == 8 {
        '8'
    } else if d == 9 {
        '9'
    } else if d == 10 {
        'a'
    } else if d == 11 {
        'b'
    } else if d == 12 {
        'c'
    } else if d == 13 {
        'd'
    } else if d == 14 {
        'e'
    } else {
        'f'
    }
}

/// How one character appears inside a JSON string: quote and backslash get
/// a backslash, the named control characters their short escapes, the
/// remaining control characters a `\u00..` escape, and every other
/// character stands as itself.
pub open spec fn escape_char(c: char) -> Seq<char> {
    if c == '"' {
        seq!['\\', '"']
    } else if c == '\\' {
        seq!['\\', '\\']
    } else if c == '\u{08}' {
        seq!['\\', 'b']
    } else if c == '\u{09}' {
        seq!['\\', 't']
    } else if c == '\u{0a}' {
        seq!['\\', 'n']
    } else if c == '\u{0c}' {
        seq!['\\', 'f']
    } else if c == '\u{0d}' {
        seq!['\\', 'r']
    } else if (c as u32) < 32 {
        seq!['\\', 'u', '0', '0', hex_char(c as u32 as int / 16), hex_char(c as u32 as int % 16)]
    } else {
        seq![c]
    }
}

/// A text with every character escaped as JSON string syntax demands.
pub open spec fn escape(s: Seq<char>) -> Seq<char>
    decreases s.len(),
{
    if s.len() == 0 {
        Seq::<char>::empty()
    } else {
        escape(s.drop_last()) + escape_char(s.last())
    }
}

/// One record as a pretty-printed, two-space-indented array entry.
pub open spec fn entry_text(title: Seq<char>) -> Seq<char> {
    "  {\n    \"title\": \""@ + escape(title) + "\"\n  }"@
}

/// The entries of the array, separated by a comma and a line break.
pub open spec fn entries_text(titles: Seq<Seq<char>>) -> Seq<char>
    decreases titles.len(),
{
    if titles.len() == 0 {
        Seq::<char>::empty()
    } else if titles.len() == 1 {
        entry_text(titles[0])
    } else {
        entries_text(titles.drop_last()) + ",\n"@ + entry_text(titles.last())
    }
}

/// The whole output document: a pretty-printed JSON array of one object
/// per title, `[]` when there are none.
pub open spec fn json_pretty(titles: Seq<Seq<char>>) -> Seq<char> {
    if titles.len() == 0 {
        "[]"@
    } else {
        "[\n"@ + entries_text(titles) + "\n]"@
    }
}

/// One hexadecimal digit as a string slice.
fn hex_str(d: u32) -> (r: &'static str)
    requires
        d < 16,
    ensures
        r@ =~= seq![hex_char(d as int)],
{
    proof {
        reveal_strlit("0");
        reveal_strlit("1");
        reveal_strlit("2");
        reveal_strlit("3");
        reveal_strlit("4");
        reveal_strlit("5");
        reveal_strlit("6");
        reveal_strlit("7");
        reveal_strlit("8");
        reveal_strlit("9");
        reveal_strlit("a");
        reveal_strlit("b");
        reveal_strlit("c");
        reveal_strlit("d");
        reveal_strlit("e");
        reveal_strlit("f");
    }
    if d == 0 {
        "0"
    } else if d == 1 {
        "1"
    } else if d == 2 {
        "2"
    } else if d == 3 {
        "3"
    } else if d == 4 {
        "4"
    } else if d == 5 {
        "5"
    } else if d == 6 {
        "6"
    } else if d == 7 {
        "7"
    } else if d == 8 {
        "8"
    } else if d == 9 {
        "9"
    } else if d == 10 {
        "a"
    } else if d == 11 {
        "b"
    } else if d == 12 {
        "c"
    } else if d == 13 {
        "d"
    } else if d == 14 {
        "e"
    } else {
        "f"
    }
}

/// Appends one character's JSON escape to `out`; `s` is the text the
/// character was read from, at character position `i`.
fn append_escaped_char(out: &mut String, s: &str, i: usize)
    requires
        i < s@.len(),
        i < usize::MAX,
    ensures
        final(out)@ == old(out)@ + escape_char(s@[i as int]),
{
    let c = s.get_char(i);
    if c == '"' {
        out.append("\\\"");
        proof {
            reveal_strlit("\\\"");
            assert(("\\\"")@ =~= escape_char(c));
        }
    } else if c == '\\' {
        out.append("\\\\");
        proof {
            reveal_strlit("\\\\");
            assert(("\\\\")@ =~= escape_char(c));
        }
    } else if c == '\u{08}' {
        out.append("\\b");
        proof {
            reveal_strlit("\\b");
            assert(("\\b")@ =~= escape_char(c));
        }
    } else if c == '\u{09}' {
        out.append("\\t");
        proof {
            reveal_strlit("\\t");
            assert(("\\t")@ =~= escape_char(c));
        }
    } else if c == '\u{0a}' {
        out.append("\\n");
        proof {
            reveal_strlit("\\n");
            assert(("\\n")@ =~= escape_char(c));
        }
    } else if c == '\u{0c}' {
        out.append("\\f");
        proof {
            reveal_strlit("\\f");
            assert(("\\f")@ =~= escape_char(c));
        }
    } else if c == '\u{0d}' {
        out.append("\\r");
        proof {
            reveal_strlit("\\r");
            assert(("\\r")@ =~= escape_char(c));
        }
    } else if (c as u32) < 32 {
        let code = c as u32;
        out.append("\\u00");
        out.append(hex_str(code / 16));
        out.append(hex_str(code % 16));
        proof {
            reveal_strlit("\\u00");
            assert(out@ =~= old(out)@ + escape_char(c));
        }
    } else {
        let piece = s.substring_char(i, i + 1);
        out.append(piece);
        proof {
            assert(piece@ =~= escape_char(c));
        }
    }
}

/// Appends the JSON escape of a whole text to `out`.
fn append_escaped(out: &mut String, s: &str)
    ensures
        final(out)@ == old(out)@ + escape(s@),
{
    let n = s.unicode_len();
    let mut i: usize = 0;
    proof {
        assert(escape(s@.take(0)) =~= Seq::<char>::empty());
        assert(old(out)@ + escape(s@.take(0)) =~= old(out)@);
    }
    while i < n
        invariant
            i <= n == s@.len(),
            out@ == old(out)@ + escape(s@.take(i as int)),
        decreases n - i,
    {
        append_escaped_char(out, s, i);
        proof {
            assert(s@.take(i + 1 as int).drop_last() =~= s@.take(i as int));
            assert(s@.take(i + 1 as int).last() == s@[i as int]);
        }
        i = i + 1;
    }
    proof {
        assert(s@.take(s@.len() as int) =~= s@);
    }
}

/// Renders the aggregated records as the output document: a pretty-printed
/// JSON array holding one `{ "title": ... }` object per record, in
/// aggregation order, `[]` when there are none.
pub fn render_json(records: &Vec<Record>) -> (out: String)
    ensures
        out@ == json_pretty(titles_of(records@)),
{
    let ghost tv = titles_of(records@);
    let mut out = String::new();
    if records.len() == 0 {
        out.append("[]");
        return out;
    }
    out.append("[\n");
    let mut i: usize = 0;
    while i < records.len()
        invariant
            i <= records@.len(),
            0 < records@.len(),
            tv == titles_of(records@),
            tv.len() == records@.len(),
            i == 0 ==> out@ == "[\n"@,
            i > 0 ==> out@ == "[\n"@ + entries_text(tv.take(i as int)),
        decreases records@.len() - i,
    {
        if i > 0 {
            out.append(",\n");
        }
        out.append("  {\n    \"title\": \"");
        append_escaped(&mut out, records[i].title.as_str());
        out.append("\"\n  }");
        proof {
            assert(tv[i as int] == records@[i as int].title@);
            if i == 0 {
                assert(tv.take(1)[0] == tv[0]);
                assert(out@ =~= "[\n"@ + entries_text(tv.take(1)));
            } else {
                assert(tv.take(i + 1 as int).drop_last() =~= tv.take(i as int));
                assert(tv.take(i + 1 as int).last() == tv[i as int]);
                assert(out@ =~= "[\n"@ + entries_text(tv.take(i + 1 as int)));
            }
        }
        i = i + 1;
    }
    out.append("\n]");
    proof {
        assert(tv.take(tv.len() as int) =~= tv);
        assert(out@ =~= json_pretty(tv));
    }
    out
}

} // verus!
