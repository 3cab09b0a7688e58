use vstd::prelude::*;

use crate::flow::Flow;
use crate::stamp::Stamp;
use crate::status::Status;
use crate::task::Task;

verus! {

// ---------------------------------------------------------------------------
// The snapshot text, as a mathematical function of the flow.
//
// A snapshot is a pretty-printed, JSON-shaped object: the flow's metadata and
// status, its optional timestamps, and its tasks as an array of objects. A
// field that is absent is left out of the text altogether. The same text goes
// to every destination: whoever writes it out writes these bytes.
// ---------------------------------------------------------------------------

/// The sixteen hexadecimal digits, lower case.
pub open spec fn hex_digit(n: int) -> char {
    if n == 0 {
        '0'
    } else if n == 1 {
        '1'
    } else if n == 2 {
        '2'
    } else if n == 3 {
        '3'
    } else if n == 4 {
        '4'
    } else if n == 5 {
        '5'
    } else if n == 6 {
        '6'
    } else if n == 7 {
        '7'
    } else if n == 8 {
        '8'
    } else if n == 9 {
        '9'
    } else if n == 10 {
        'a'
    } else if n == 11 {
        'b'
    } else if n == 12 {
        'c'
    } else if n == 13 {
        'd'
    } else if n == 14 {
        'e'
    } else {
        'f'
    }
}

/// How one character is written inside a quoted string: quotes and
/// backslashes are escaped, the common control characters get their short
/// escapes, every other control character below the space gets a `\u00XX`
/// escape, and every other character stands for itself.
pub open spec fn esc_char(c: char) -> Seq<char> {
    if c == '"' {
        seq!['\\', '"']
    } else if c == '\\' {
        seq!['\\', '\\']
    } else if c == '\n' {
        seq!['\\', 'n']
    } else if c == '\r' {
        seq!['\\', 'r']
    } else if c == '\t' {
        seq!['\\', 't']
    } else if (c as u32) < 32 {
        seq!['\\', 'u', '0', '0', hex_digit((c as u32 / 16) as int), hex_digit(
            (c as u32 % 16) as int,
        )]
    } else {
        seq![c]
    }
}

/// A character sequence with every character escaped.
pub open spec fn json_escaped(s: Seq<char>) -> Seq<char>
    decreases s.len(),
{
    if s.len() == 0 {
        Seq::<char>::empty()
    } else {
        json_escaped(s.drop_last()) + esc_char(s.last())
    }
}

/// A quoted, escaped string.
pub open spec fn json_quoted(s: Seq<char>) -> Seq<char> {
    seq!['"'] + json_escaped(s) + seq!['"']
}

/// The upper-case name of a status.
pub open spec fn status_text(s: Status) -> Seq<char> {
    match s {
        Status::PENDING => "PENDING"@,
        Status::RUNNING => "RUNNING"@,
        Status::COMPLETED => "COMPLETED"@,
        Status::FAILED => "FAILED"@,
    }
}

/// An optional timestamp field: its separator, key and quoted text when
/// present, nothing when absent.
pub open spec fn stamp_field(prefix: Seq<char>, o: Option<Stamp>) -> Seq<char> {
    match o {
        Some(s) => prefix + json_quoted(s.iso@),
        None => Seq::<char>::empty(),
    }
}

/// An optional message field: its separator, key and quoted text when
/// present, nothing when absent.
pub open spec fn message_field(prefix: Seq<char>, o: Option<String>) -> Seq<char> {
    match o {
        Some(m) => prefix + json_quoted(m@),
        None => Seq::<char>::empty(),
    }
}

/// One task as an object of the tasks array.
pub open spec fn task_json(t: Task) -> Seq<char> {
    "    {\n      \"id\": "@ + json_quoted(t.id@) + ",\n      \"name\": "@ + json_quoted(t.name@)
        + ",\n      \"description\": "@ + json_quoted(t.description@)
        + ",\n      \"status\": \""@ + status_text(t.status) + "\""@ + stamp_field(
        ",\n      \"started_at\": "@,
        t.started_at,
    ) + stamp_field(",\n      \"completed_at\": "@, t.completed_at) + message_field(
        ",\n      \"error_message\": "@,
        t.error_message,
    ) + "\n    }"@
}

/// The objects of the tasks array, separated by commas.
pub open spec fn tasks_items(ts: Seq<Task>) -> Seq<char>
    decreases ts.len(),
{
    if ts.len() == 0 {
        Seq::<char>::empty()
    } else if ts.len() == 1 {
        task_json(ts[0])
    } else {
        tasks_items(ts.drop_last()) + ",\n"@ + task_json(ts.last())
    }
}

/// The tasks array.
pub open spec fn tasks_json(ts: Seq<Task>) -> Seq<char> {
    if ts.len() == 0 {
        "[]"@
    } else {
        "[\n"@ + tasks_items(ts) + "\n  ]"@
    }
}

/// The whole snapshot.
pub open spec fn flow_json(f: Flow) -> Seq<char> {
    "{\n  \"id\": "@ + json_quoted(f.id@) + ",\n  \"name\": "@ + json_quoted(f.name@)
        + ",\n  \"description\": "@ + json_quoted(f.description@) + ",\n  \"status\": \""@
        + status_text(f.status) + "\""@ + stamp_field(",\n  \"started_at\": "@, f.started_at)
        + stamp_field(",\n  \"completed_at\": "@, f.completed_at) + ",\n  \"tasks\": "@
        + tasks_json(f.tasks@) + "\n}"@
}

// ---------------------------------------------------------------------------
// The renderer.
// ---------------------------------------------------------------------------

proof fn lemma_assoc(a: Seq<char>, b: Seq<char>, c: Seq<char>)
    ensures
        (a + b) + c == a + (b + c),
{
    assert((a + b) + c =~= a + (b + c));
}

/// Relies on std's String::push: appends exactly the one character.
#[verifier::external_body]
fn push_char(out: &mut String, c: char)
    ensures
        final(out)@ == old(out)@ + seq![c],
{
    out.push(c);
}

/// Appends one hexadecimal digit.
fn push_hex_digit(out: &mut String, v: u32)
    requires
        v < 16,
    ensures
        final(out)@ == old(out)@ + seq![hex_digit(v as int)],
{
    let c: char = if v == 0 {
        '0'
    } else if v == 1 {
        '1'
    } else if v == 2 {
        '2'
    } else if v == 3 {
        '3'
    } else if v == 4 {
        '4'
    } else if v == 5 {
        '5'
    } else if v == 6 {
        '6'
    } else if v == 7 {
        '7'
    } else if v == 8 {
        '8'
    } else if v == 9 {
        '9'
    } else if v == 10 {
        'a'
    } else if v == 11 {
        'b'
    } else if v == 12 {
        'c'
    } else if v == 13 {
        'd'
    } else if v == 14 {
        'e'
    } else {
        'f'
    };
    push_char(out, c);
}

/// Appends a quoted, escaped string.
fn push_quoted(out: &mut String, s: &str)
    ensures
        final(out)@ == old(out)@ + json_quoted(s@),
{
    let ghost pre = out@;
    out.append("\"");
    proof {
        reveal_strlit("\"");
        assert("\""@ =~= seq!['"']);
    }
    let n = s.unicode_len();
    let mut i: usize = 0;
    proof {
        assert((pre + seq!['"']) + json_escaped(s@.take(0)) =~= pre + seq!['"']);
    }
    while i < n
        invariant
            n == s@.len(),
            i <= n,
            out@ == pre + seq!['"'] + json_escaped(s@.take(i as int)),
        decreases n - i,
    {
        let ghost esc_sofar = json_escaped(s@.take(i as int));
        let c = s.get_char(i);
        if c == '"' {
            out.append("\\\"");
            proof {
                reveal_strlit("\\\"");
                assert("\\\""@ =~= esc_char(c));
            }
        } else if c == '\\' {
            out.append("\\\\");
            proof {
                reveal_strlit("\\\\");
                assert("\\\\"@ =~= esc_char(c));
            }
        } else if c == '\n' {
            out.append("\\n");
            proof {
                reveal_strlit("\\n");
                assert("\\n"@ =~= esc_char(c));
            }
        } else if c == '\r' {
            out.append("\\r");
            proof {
                reveal_strlit("\\r");
                assert("\\r"@ =~= esc_char(c));
            }
        } else if c == '\t' {
            out.append("\\t");
            proof {
                reveal_strlit("\\t");
                assert("\\t"@ =~= esc_char(c));
            }
        } else if (c as u32) < 32 {
            let ghost sofar = (pre + seq!['"']) + esc_sofar;
            let v: u32 = c as u32;
            out.append("\\u00");
            push_hex_digit(out, v / 16);
            push_hex_digit(out, v % 16);
            proof {
                reveal_strlit("\\u00");
                let hi = seq![hex_digit((v / 16) as int)];
                let lo = seq![hex_digit((v % 16) as int)];
                lemma_assoc(sofar, "\\u00"@, hi);
                lemma_assoc(sofar, "\\u00"@ + hi, lo);
                assert(("\\u00"@ + hi) + lo =~= esc_char(c));
            }
        } else {
            push_char(out, c);
        }
        proof {
            assert(out@ == ((pre + seq!['"']) + esc_sofar) + esc_char(c));
            let tk1 = s@.take(i as int + 1);
            assert(tk1.drop_last() =~= s@.take(i as int));
            assert(tk1.last() == c);
            assert(json_escaped(tk1) == esc_sofar + esc_char(c));
            lemma_assoc(pre + seq!['"'], esc_sofar, esc_char(c));
        }
        i += 1;
    }
    proof {
        assert(s@.take(n as int) =~= s@);
    }
    out.append("\"");
    proof {
        reveal_strlit("\"");
        assert("\""@ =~= seq!['"']);
        lemma_assoc(pre, seq!['"'], json_escaped(s@));
        lemma_assoc(pre, seq!['"'] + json_escaped(s@), seq!['"']);
        assert(out@ == pre + json_quoted(s@));
    }
}

/// Appends the upper-case name of a status, without quotes.
fn push_status(out: &mut String, s: Status)
    ensures
        final(out)@ == old(out)@ + status_text(s),
{
    match s {
        Status::PENDING => out.append("PENDING"),
        Status::RUNNING => out.append("RUNNING"),
        Status::COMPLETED => out.append("COMPLETED"),
        Status::FAILED => out.append("FAILED"),
    }
}

/// Appends an optional timestamp field.
fn push_stamp_field(out: &mut String, prefix: &str, o: &Option<Stamp>)
    ensures
        final(out)@ == old(out)@ + stamp_field(prefix@, *o),
{
    let ghost pre = out@;
    match o {
        Some(s) => {
            out.append(prefix);
            push_quoted(out, s.iso.as_str());
            proof {
                lemma_assoc(pre, prefix@, json_quoted(s.iso@));
            }
        },
        None => {
            proof {
                assert(pre + stamp_field(prefix@, *o) =~= pre);
            }
        },
    }
}

/// Appends an optional message field.
fn push_message_field(out: &mut String, prefix: &str, o: &Option<String>)
    ensures
        final(out)@ == old(out)@ + message_field(prefix@, *o),
{
    let ghost pre = out@;
    match o {
        Some(m) => {
            out.append(prefix);
            push_quoted(out, m.as_str());
            proof {
                lemma_assoc(pre, prefix@, json_quoted(m@));
            }
        },
        None => {
            proof {
                assert(pre + message_field(prefix@, *o) =~= pre);
            }
        },
    }
}

/// Appends one task object.
fn push_task(out: &mut String, t: &Task)
    ensures
        final(out)@ == old(out)@ + task_json(*t),
{
    let ghost pre = out@;
    let ghost mut acc: Seq<char> = "    {\n      \"id\": "@;
    out.append("    {\n      \"id\": ");
    push_quoted(out, t.id.as_str());
    proof {
        lemma_assoc(pre, acc, json_quoted(t.id@));
        acc = acc + json_quoted(t.id@);
    }
    out.append(",\n      \"name\": ");
    proof {
        lemma_assoc(pre, acc, ",\n      \"name\": "@);
        acc = acc + ",\n      \"name\": "@;
    }
    push_quoted(out, t.name.as_str());
    proof {
        lemma_assoc(pre, acc, json_quoted(t.name@));
        acc = acc + json_quoted(t.name@);
    }
    out.append(",\n      \"description\": ");
    proof {
        lemma_assoc(pre, acc, ",\n      \"description\": "@);
        acc = acc + ",\n      \"description\": "@;
    }
    push_quoted(out, t.description.as_str());
    proof {
        lemma_assoc(pre, acc, json_quoted(t.description@));
        acc = acc + json_quoted(t.description@);
    }
    out.append(",\n      \"status\": \"");
    proof {
        lemma_assoc(pre, acc, ",\n      \"status\": \""@);
        acc = acc + ",\n      \"status\": \""@;
    }
    push_status(out, t.status);
    proof {
        lemma_assoc(pre, acc, status_text(t.status));
        acc = acc + status_text(t.status);
    }
    out.append("\"");
    proof {
        lemma_assoc(pre, acc, "\""@);
        acc = acc + "\""@;
    }
    push_stamp_field(out, ",\n      \"started_at\": ", &t.started_at);
    proof {
        lemma_assoc(pre, acc, stamp_field(",\n      \"started_at\": "@, t.started_at));
        acc = acc + stamp_field(",\n      \"started_at\": "@, t.started_at);
    }
    push_stamp_field(out, ",\n      \"completed_at\": ", &t.completed_at);
    proof {
        lemma_assoc(pre, acc, stamp_field(",\n      \"completed_at\": "@, t.completed_at));
        acc = acc + stamp_field(",\n      \"completed_at\": "@, t.completed_at);
    }
    push_message_field(out, ",\n      \"error_message\": ", &t.error_message);
    proof {
        lemma_assoc(pre, acc, message_field(",\n      \"error_message\": "@, t.error_message));
        acc = acc + message_field(",\n      \"error_message\": "@, t.error_message);
    }
    out.append("\n    }");
    proof {
        lemma_assoc(pre, acc, "\n    }"@);
        acc = acc + "\n    }"@;
        assert(acc == task_json(*t));
    }
}

/// Renders the snapshot of a flow: the one text that every destination
/// receives.
pub fn flow_to_json(f: &Flow) -> (r: String)
    ensures
        r@ == flow_json(*f),
{
    let mut out = String::new();
    let ghost pre = out@;
    let ghost mut acc: Seq<char> = "{\n  \"id\": "@;
    out.append("{\n  \"id\": ");
    proof {
        assert(pre + acc =~= acc);
    }
    push_quoted(&mut out, f.id.as_str());
    proof {
        lemma_assoc(pre, acc, json_quoted(f.id@));
        acc = acc + json_quoted(f.id@);
    }
    out.append(",\n  \"name\": ");
    proof {
        lemma_assoc(pre, acc, ",\n  \"name\": "@);
        acc = acc + ",\n  \"name\": "@;
    }
    push_quoted(&mut out, f.name.as_str());
    proof {
        lemma_assoc(pre, acc, json_quoted(f.name@));
        acc = acc + json_quoted(f.name@);
    }
    out.append(",\n  \"description\": ");
    proof {
        lemma_assoc(pre, acc, ",\n  \"description\": "@);
        acc = acc + ",\n  \"description\": "@;
    }
    push_quoted(&mut out, f.description.as_str());
    proof {
        lemma_assoc(pre, acc, json_quoted(f.description@));
        acc = acc + json_quoted(f.description@);
    }
    out.append(",\n  \"status\": \"");
    proof {
        lemma_assoc(pre, acc, ",\n  \"status\": \""@);
        acc = acc + ",\n  \"status\": \""@;
    }
    push_status(&mut out, f.status);
    proof {
        lemma_assoc(pre, acc, status_text(f.status));
        acc = acc + status_text(f.status);
    }
    out.append("\"");
    proof {
        lemma_assoc(pre, acc, "\""@);
        acc = acc + "\""@;
    }
    push_stamp_field(&mut out, ",\n  \"started_at\": ", &f.started_at);
    proof {
        lemma_assoc(pre, acc, stamp_field(",\n  \"started_at\": "@, f.started_at));
        acc = acc + stamp_field(",\n  \"started_at\": "@, f.started_at);
    }
    push_stamp_field(&mut out, ",\n  \"completed_at\": ", &f.completed_at);
    proof {
        lemma_assoc(pre, acc, stamp_field(",\n  \"completed_at\": "@, f.completed_at));
        acc = acc + stamp_field(",\n  \"completed_at\": "@, f.completed_at);
    }
    out.append(",\n  \"tasks\": ");
    proof {
        lemma_assoc(pre, acc, ",\n  \"tasks\": "@);
        acc = acc + ",\n  \"tasks\": "@;
    }
    let n = f.tasks.len();
    if n == 0 {
        out.append("[]");
        proof {
            lemma_assoc(pre, acc, "[]"@);
            acc = acc + tasks_json(f.tasks@);
        }
    } else {
        let ghost base = pre + acc + "[\n"@;
        out.append("[\n");
        proof {
            lemma_assoc(pre, acc, "[\n"@);
        }
        push_task(&mut out, &f.tasks[0]);
        proof {
            assert(f.tasks@.take(1).len() == 1);
            assert(f.tasks@.take(1)[0] == f.tasks@[0]);
            assert(tasks_items(f.tasks@.take(1)) == task_json(f.tasks@[0]));
            assert(out@ == base + tasks_items(f.tasks@.take(1)));
        }
        let mut i: usize = 1;
        while i < n
            invariant
                1 <= i <= n,
                n == f.tasks@.len(),
                base == pre + acc + "[\n"@,
                out@ == base + tasks_items(f.tasks@.take(i as int)),
            decreases n - i,
        {
            let ghost items_sofar = tasks_items(f.tasks@.take(i as int));
            out.append(",\n");
            push_task(&mut out, &f.tasks[i]);
            proof {
                let tk1 = f.tasks@.take(i as int + 1);
                assert(tk1.drop_last() =~= f.tasks@.take(i as int));
                assert(tk1.last() == f.tasks@[i as int]);
                assert(tasks_items(tk1) == items_sofar + ",\n"@ + task_json(f.tasks@[i as int]));
                lemma_assoc(base, items_sofar, ",\n"@);
                lemma_assoc(base, items_sofar + ",\n"@, task_json(f.tasks@[i as int]));
            }
            i += 1;
        }
        proof {
            assert(f.tasks@.take(n as int) =~= f.tasks@);
        }
        out.append("\n  ]");
        proof {
            let items = tasks_items(f.tasks@);
            lemma_assoc(pre + acc, "[\n"@, items);
            lemma_assoc(pre + acc, "[\n"@ + items, "\n  ]"@);
            lemma_assoc(pre, acc, tasks_json(f.tasks@));
            assert(out@ == pre + (acc + tasks_json(f.tasks@)));
            acc = acc + tasks_json(f.tasks@);
        }
    }
    out.append("\n}");
    proof {
        lemma_assoc(pre, acc, "\n}"@);
        acc = acc + "\n}"@;
        assert(acc == flow_json(*f));
        assert(pre + acc =~= acc);
    }
    out
}

} // verus!
