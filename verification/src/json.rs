//! The wire encoding of streamed chunks. The relay serializes each reshaped
//! fragment to exactly this JSON text: string escaping as common JSON
//! emitters write it (two-character escapes for the usual controls,
//! `\u00xx` with lowercase hex for the rest below 0x20), fields in
//! declaration order, optional fields either skipped or `null` as the wire
//! format fixes per field.

use vstd::prelude::*;
use vstd::string::StrSliceExecFns;

use crate::apitype::{
    ChatCompletionChunkChoice, ChatCompletionChunkResponse, DeltaChatMessage, DeltaFunction,
    DeltaToolCall, FinishReason, Role,
};
use crate::strutil::string_from_chars;

verus! {

/// The lowercase hexadecimal digit for a value below 16.
pub open spec fn hex_digit(n: int) -> char {
    if n == 0 {
        '0'
    } else if n == 1 {
        '1'
    } else if n == 2 {
        '2'
    } else if n == 3 {
        '3'
    } else if n == 4 {
        '4'
    } else if n == 5 {
        '5'
    } else if n == 6 {
        '6'
    } else if n == 7 {
        '7'
    } else if n == 8 {
        '8'
    } else if n == 9 {
        '9'
    } else if n == 10 {
        'a'
    } else if n == 11 {
        'b'
    } else if n == 12 {
        'c'
    } else if n == 13 {
        'd'
    } else if n == 14 {
        'e'
    } else {
        'f'
    }
}

fn hex_char(n: u32) -> (c: char)
    requires
        n < 16,
    ensures
        c == hex_digit(n as int),
{
    if n == 0 {
        '0'
    } else if n == 1 {
        '1'
    } else if n == 2 {
        '2'
    } else if n == 3 {
        '3'
    } else if n == 4 {
        '4'
    } else if n == 5 {
        '5'
    } else if n == 6 {
        '6'
    } else if n == 7 {
        '7'
    } else if n == 8 {
        '8'
    } else if n == 9 {
        '9'
    } else if n == 10 {
        'a'
    } else if n == 11 {
        'b'
    } else if n == 12 {
        'c'
    } else if n == 13 {
        'd'
    } else if n == 14 {
        'e'
    } else {
        'f'
    }
}

/// How one character appears inside a JSON string literal.
pub open spec fn esc_char(c: char) -> Seq<char> {
    if c == '"' {
        seq!['\\', '"']
    } else if c == '\\' {
        seq!['\\', '\\']
    } else if c == '\u{0008}' {
        seq!['\\', 'b']
    } else if c == '\t' {
        seq!['\\', 't']
    } else if c == '\n' {
        seq!['\\', 'n']
    } else if c == '\u{000C}' {
        seq!['\\', 'f']
    } else if c == '\r' {
        seq!['\\', 'r']
    } else if (c as u32) < 0x20 {
        seq!['\\', 'u', '0', '0', hex_digit(c as u32 as int / 16), hex_digit(c as u32 as int % 16)]
    } else {
        seq![c]
    }
}

/// A whole character sequence escaped for a JSON string literal.
pub open spec fn escape_str(s: Seq<char>) -> Seq<char>
    decreases s.len(),
{
    if s.len() == 0 {
        Seq::empty()
    } else {
        escape_str(s.drop_last()) + esc_char(s.last())
    }
}

/// A JSON string literal: quoted, escaped text.
pub open spec fn json_str(s: Seq<char>) -> Seq<char> {
    seq!['"'] + escape_str(s) + seq!['"']
}

/// The decimal representation of a number.
pub open spec fn dec_chars(n: nat) -> Seq<char>
    decreases n,
{
    if n < 10 {
        seq![hex_digit(n as int)]
    } else {
        dec_chars(n / 10) + seq![hex_digit((n % 10) as int)]
    }
}

/// Comma-joined segments, as inside a JSON object or array.
pub open spec fn join_comma(xs: Seq<Seq<char>>) -> Seq<char>
    decreases xs.len(),
{
    if xs.len() == 0 {
        Seq::empty()
    } else if xs.len() == 1 {
        xs[0]
    } else {
        join_comma(xs.drop_last()) + seq![','] + xs.last()
    }
}

/// How a role is written on the wire.
pub open spec fn role_json(r: Role) -> Seq<char> {
    match r {
        Role::System => "\"system\""@,
        Role::User => "\"user\""@,
        Role::Assistant => "\"assistant\""@,
        Role::Tool => "\"tool\""@,
    }
}

/// How a finish reason is written on the wire.
pub open spec fn fr_json(f: FinishReason) -> Seq<char> {
    match f {
        FinishReason::StopSequenceReached => "\"stop\""@,
        FinishReason::TokenLimitReached => "\"length\""@,
        FinishReason::ContentFilterFlagged => "\"content_filter\""@,
        FinishReason::ToolCalls => "\"tool_calls\""@,
    }
}

/// An optional finish reason: its name, or `null`.
pub open spec fn opt_fr_json(o: Option<FinishReason>) -> Seq<char> {
    match o {
        Some(f) => fr_json(f),
        None => "null"@,
    }
}

/// An optional number: its decimal text, or `null`.
pub open spec fn opt_dec_json(o: Option<u32>) -> Seq<char> {
    match o {
        Some(n) => dec_chars(n as nat),
        None => "null"@,
    }
}

/// An optional string: a JSON string literal, or `null`.
pub open spec fn opt_str_json(o: Option<String>) -> Seq<char> {
    match o {
        Some(s) => json_str(s@),
        None => "null"@,
    }
}

/// The present fields of an incremental function call, each fully rendered.
pub open spec fn func_fields(f: DeltaFunction) -> Seq<Seq<char>> {
    (if f.name is Some {
        seq!["\"name\":"@ + json_str(f.name->0@)]
    } else {
        Seq::empty()
    }) + (if f.arguments is Some {
        seq!["\"arguments\":"@ + json_str(f.arguments->0@)]
    } else {
        Seq::empty()
    })
}

/// An incremental function call as a JSON object; absent fields are skipped.
pub open spec fn func_json(f: DeltaFunction) -> Seq<char> {
    "{"@ + join_comma(func_fields(f)) + "}"@
}

/// The present fields of an incremental tool call; the function part is
/// always present.
pub open spec fn tool_call_fields(t: DeltaToolCall) -> Seq<Seq<char>> {
    (if t.index is Some {
        seq!["\"index\":"@ + dec_chars(t.index->0 as nat)]
    } else {
        Seq::empty()
    }) + (if t.id is Some {
        seq!["\"id\":"@ + json_str(t.id->0@)]
    } else {
        Seq::empty()
    }) + (if t.kind is Some {
        seq!["\"type\":"@ + json_str(t.kind->0@)]
    } else {
        Seq::empty()
    }) + seq!["\"function\":"@ + func_json(t.function)]
}

/// An incremental tool call as a JSON object.
pub open spec fn tool_call_json(t: DeltaToolCall) -> Seq<char> {
    "{"@ + join_comma(tool_call_fields(t)) + "}"@
}

/// The present fields of a delta message; every field is skipped when absent.
pub open spec fn delta_fields(d: DeltaChatMessage) -> Seq<Seq<char>> {
    (if d.role is Some {
        seq!["\"role\":"@ + role_json(d.role->0)]
    } else {
        Seq::empty()
    }) + (if d.content is Some {
        seq!["\"content\":"@ + json_str(d.content->0@)]
    } else {
        Seq::empty()
    }) + (if d.tool_calls is Some {
        seq![
            "\"tool_calls\":["@ + join_comma(
                d.tool_calls->0@.map_values(|t: DeltaToolCall| tool_call_json(t)),
            ) + "]"@,
        ]
    } else {
        Seq::empty()
    })
}

/// A delta message as a JSON object.
pub open spec fn delta_json(d: DeltaChatMessage) -> Seq<char> {
    "{"@ + join_comma(delta_fields(d)) + "}"@
}

/// One streamed choice as a JSON object; `index`, `logprobs` and
/// `finish_reason` are written as `null` when absent.
pub open spec fn choice_json(ch: ChatCompletionChunkChoice) -> Seq<char> {
    "{\"index\":"@ + opt_dec_json(ch.index) + ",\"delta\":"@ + delta_json(ch.delta)
        + ",\"logprobs\":"@ + opt_fr_json(ch.logprobs) + ",\"finish_reason\":"@ + opt_fr_json(
        ch.finish_reason,
    ) + "}"@
}

/// The model field of a chunk: skipped entirely when absent.
pub open spec fn model_part(o: Option<String>) -> Seq<char> {
    match o {
        Some(m) => ",\"model\":"@ + json_str(m@),
        None => Seq::empty(),
    }
}

/// One streamed chunk as its exact wire text.
pub open spec fn chunk_json(c: ChatCompletionChunkResponse) -> Seq<char> {
    "{\"id\":"@ + json_str(c.id@) + ",\"choices\":["@ + join_comma(
        c.choices@.map_values(|ch: ChatCompletionChunkChoice| choice_json(ch)),
    ) + "],\"created\":"@ + dec_chars(c.created as nat) + model_part(c.model)
        + ",\"system_fingerprint\":"@ + opt_str_json(c.system_fingerprint) + ",\"object\":"@
        + json_str(c.object@) + "}"@
}

/// Appends every character of `s`.
fn push_chars(out: &mut Vec<char>, s: &str)
    ensures
        final(out)@ == old(out)@ + s@,
{
    let n = s.unicode_len();
    let mut i: usize = 0;
    while i < n
        invariant
            n == s@.len(),
            i <= n,
            out@ == old(out)@ + s@.take(i as int),
        decreases n - i,
    {
        out.push(s.get_char(i));
        proof {
            assert(s@.take(i as int + 1).drop_last() =~= s@.take(i as int));
            assert(out@ =~= old(out)@ + s@.take(i as int + 1));
        }
        i += 1;
    }
    proof {
        assert(s@.take(n as int) =~= s@);
    }
}

/// Appends one escaped character.
fn push_esc_char(out: &mut Vec<char>, c: char)
    ensures
        final(out)@ == old(out)@ + esc_char(c),
{
    if c == '"' {
        out.push('\\');
        out.push('"');
    } else if c == '\\' {
        out.push('\\');
        out.push('\\');
    } else if c == '\u{0008}' {
        out.push('\\');
        out.push('b');
    } else if c == '\t' {
        out.push('\\');
        out.push('t');
    } else if c == '\n' {
        out.push('\\');
        out.push('n');
    } else if c == '\u{000C}' {
        out.push('\\');
        out.push('f');
    } else if c == '\r' {
        out.push('\\');
        out.push('r');
    } else {
        let n = c as u32;
        if n < 0x20 {
            out.push('\\');
            out.push('u');
            out.push('0');
            out.push('0');
            out.push(hex_char(n / 16));
            out.push(hex_char(n % 16));
        } else {
            out.push(c);
        }
    }
    proof {
        assert(final(out)@ =~= old(out)@ + esc_char(c));
    }
}

/// Appends a JSON string literal for `s`.
fn push_json_str(out: &mut Vec<char>, s: &str)
    ensures
        final(out)@ == old(out)@ + json_str(s@),
{
    out.push('"');
    let ghost base = out@;
    let n = s.unicode_len();
    let mut i: usize = 0;
    while i < n
        invariant
            n == s@.len(),
            i <= n,
            out@ == base + escape_str(s@.take(i as int)),
        decreases n - i,
    {
        push_esc_char(out, s.get_char(i));
        proof {
            assert(s@.take(i as int + 1).drop_last() =~= s@.take(i as int));
            assert(s@.take(i as int + 1).last() == s@[i as int]);
        }
        i += 1;
    }
    out.push('"');
    proof {
        assert(s@.take(n as int) =~= s@);
        assert(final(out)@ =~= old(out)@ + json_str(s@));
    }
}

/// Appends the decimal text of `n`.
fn push_dec_u32(out: &mut Vec<char>, n: u32)
    ensures
        final(out)@ == old(out)@ + dec_chars(n as nat),
    decreases n,
{
    if n < 10 {
        out.push(hex_char(n));
    } else {
        push_dec_u32(out, n / 10);
        out.push(hex_char(n % 10));
    }
}

/// Appends the comma-joined pre-rendered segments.
fn push_joined(out: &mut Vec<char>, segs: &Vec<Vec<char>>)
    ensures
        final(out)@ == old(out)@ + join_comma(segs@.map_values(|v: Vec<char>| v@)),
{
    let ghost views = segs@.map_values(|v: Vec<char>| v@);
    let n = segs.len();
    let mut i: usize = 0;
    while i < n
        invariant
            n == segs@.len(),
            views == segs@.map_values(|v: Vec<char>| v@),
            i <= n,
            out@ == old(out)@ + join_comma(views.take(i as int)),
        decreases n - i,
    {
        if i > 0 {
            out.push(',');
        }
        let seg = &segs[i];
        let m = seg.len();
        let ghost mid = out@;
        let mut j: usize = 0;
        while j < m
            invariant
                m == seg@.len(),
                j <= m,
                out@ == mid + seg@.take(j as int),
            decreases m - j,
        {
            out.push(seg[j]);
            proof {
                assert(seg@.take(j as int + 1).drop_last() =~= seg@.take(j as int));
                assert(out@ =~= mid + seg@.take(j as int + 1));
            }
            j += 1;
        }
        proof {
            assert(seg@.take(m as int) =~= seg@);
            assert(views[i as int] == seg@);
            assert(views.take(i as int + 1).drop_last() =~= views.take(i as int));
            assert(views.take(i as int + 1).last() == views[i as int]);
            if i == 0 {
                assert(join_comma(views.take(1)) == views.take(1)[0]);
                assert(out@ =~= old(out)@ + join_comma(views.take(1)));
            } else {
                assert(join_comma(views.take(i as int + 1)) == join_comma(views.take(i as int))
                    + seq![','] + views[i as int]);
                assert(out@ =~= old(out)@ + join_comma(views.take(i as int + 1)));
            }
        }
        i += 1;
    }
    proof {
        assert(views.take(n as int) =~= views);
    }
}

/// Renders an incremental function call.
fn build_func(f: &DeltaFunction) -> (r: Vec<char>)
    ensures
        r@ == func_json(*f),
{
    let mut segs: Vec<Vec<char>> = Vec::new();
    match &f.name {
        Some(name) => {
            let mut seg: Vec<char> = Vec::new();
            push_chars(&mut seg, "\"name\":");
            push_json_str(&mut seg, name.as_str());
            segs.push(seg);
        },
        None => {},
    }
    match &f.arguments {
        Some(args) => {
            let mut seg: Vec<char> = Vec::new();
            push_chars(&mut seg, "\"arguments\":");
            push_json_str(&mut seg, args.as_str());
            segs.push(seg);
        },
        None => {},
    }
    proof {
        assert(segs@.map_values(|v: Vec<char>| v@) =~= func_fields(*f));
    }
    let mut out: Vec<char> = Vec::new();
    push_chars(&mut out, "{");
    push_joined(&mut out, &segs);
    push_chars(&mut out, "}");
    out
}

/// Renders an incremental tool call.
fn build_tool_call(t: &DeltaToolCall) -> (r: Vec<char>)
    ensures
        r@ == tool_call_json(*t),
{
    let mut segs: Vec<Vec<char>> = Vec::new();
    match t.index {
        Some(ix) => {
            let mut seg: Vec<char> = Vec::new();
            push_chars(&mut seg, "\"index\":");
            push_dec_u32(&mut seg, ix);
            segs.push(seg);
        },
        None => {},
    }
    match &t.id {
        Some(id) => {
            let mut seg: Vec<char> = Vec::new();
            push_chars(&mut seg, "\"id\":");
            push_json_str(&mut seg, id.as_str());
            segs.push(seg);
        },
        None => {},
    }
    match &t.kind {
        Some(kind) => {
            let mut seg: Vec<char> = Vec::new();
            push_chars(&mut seg, "\"type\":");
            push_json_str(&mut seg, kind.as_str());
            segs.push(seg);
        },
        None => {},
    }
    let mut fseg: Vec<char> = Vec::new();
    push_chars(&mut fseg, "\"function\":");
    let fjson = build_func(&t.function);
    let ghost fseg_before = fseg@;
    let mut k: usize = 0;
    let fn_len = fjson.len();
    while k < fn_len
        invariant
            fn_len == fjson@.len(),
            k <= fn_len,
            fseg@ == fseg_before + fjson@.take(k as int),
        decreases fn_len - k,
    {
        fseg.push(fjson[k]);
        proof {
            assert(fjson@.take(k as int + 1).drop_last() =~= fjson@.take(k as int));
            assert(fseg@ =~= fseg_before + fjson@.take(k as int + 1));
        }
        k += 1;
    }
    proof {
        assert(fjson@.take(fn_len as int) =~= fjson@);
    }
    segs.push(fseg);
    proof {
        assert(segs@.map_values(|v: Vec<char>| v@) =~= tool_call_fields(*t));
    }
    let mut out: Vec<char> = Vec::new();
    push_chars(&mut out, "{");
    push_joined(&mut out, &segs);
    push_chars(&mut out, "}");
    out
}

/// Renders a delta message.
fn build_delta(d: &DeltaChatMessage) -> (r: Vec<char>)
    ensures
        r@ == delta_json(*d),
{
    let mut segs: Vec<Vec<char>> = Vec::new();
    match d.role {
        Some(role) => {
            let mut seg: Vec<char> = Vec::new();
            push_chars(&mut seg, "\"role\":");
            match role {
                Role::System => push_chars(&mut seg, "\"system\""),
                Role::User => push_chars(&mut seg, "\"user\""),
                Role::Assistant => push_chars(&mut seg, "\"assistant\""),
                Role::Tool => push_chars(&mut seg, "\"tool\""),
            }
            segs.push(seg);
        },
        None => {},
    }
    match &d.content {
        Some(content) => {
            let mut seg: Vec<char> = Vec::new();
            push_chars(&mut seg, "\"content\":");
            push_json_str(&mut seg, content.as_str());
            segs.push(seg);
        },
        None => {},
    }
    match &d.tool_calls {
        Some(tcs) => {
            let mut seg: Vec<char> = Vec::new();
            push_chars(&mut seg, "\"tool_calls\":[");
            let ghost seg_head = seg@;
            let mut inner: Vec<Vec<char>> = Vec::new();
            let n = tcs.len();
            let mut i: usize = 0;
            while i < n
                invariant
                    n == tcs@.len(),
                    i <= n,
                    inner@.len() == i,
                    forall|k: int|
                        0 <= k < i ==> (#[trigger] inner@[k])@ == tool_call_json(tcs@[k]),
                decreases n - i,
            {
                let one = build_tool_call(&tcs[i]);
                inner.push(one);
                i += 1;
            }
            proof {
                assert(inner@.map_values(|v: Vec<char>| v@) =~= tcs@.map_values(
                    |t: DeltaToolCall| tool_call_json(t),
                ));
            }
            push_joined(&mut seg, &inner);
            push_chars(&mut seg, "]");
            proof {
                assert(seg@ =~= "\"tool_calls\":["@ + join_comma(
                    tcs@.map_values(|t: DeltaToolCall| tool_call_json(t)),
                ) + "]"@);
            }
            segs.push(seg);
        },
        None => {},
    }
    proof {
        assert(segs@.map_values(|v: Vec<char>| v@) =~= delta_fields(*d));
    }
    let mut out: Vec<char> = Vec::new();
    push_chars(&mut out, "{");
    push_joined(&mut out, &segs);
    push_chars(&mut out, "}");
    out
}

/// Appends an optional finish reason as its name or `null`.
fn push_opt_fr(out: &mut Vec<char>, o: &Option<FinishReason>)
    ensures
        final(out)@ == old(out)@ + opt_fr_json(*o),
{
    match o {
        Some(FinishReason::StopSequenceReached) => push_chars(out, "\"stop\""),
        Some(FinishReason::TokenLimitReached) => push_chars(out, "\"length\""),
        Some(FinishReason::ContentFilterFlagged) => push_chars(out, "\"content_filter\""),
        Some(FinishReason::ToolCalls) => push_chars(out, "\"tool_calls\""),
        None => push_chars(out, "null"),
    }
}

/// Renders one streamed choice.
fn build_choice(ch: &ChatCompletionChunkChoice) -> (r: Vec<char>)
    ensures
        r@ == choice_json(*ch),
{
    let mut out: Vec<char> = Vec::new();
    push_chars(&mut out, "{\"index\":");
    match ch.index {
        Some(ix) => push_dec_u32(&mut out, ix),
        None => push_chars(&mut out, "null"),
    }
    push_chars(&mut out, ",\"delta\":");
    let djson = build_delta(&ch.delta);
    let ghost mid = out@;
    let dn = djson.len();
    let mut k: usize = 0;
    while k < dn
        invariant
            dn == djson@.len(),
            k <= dn,
            out@ == mid + djson@.take(k as int),
        decreases dn - k,
    {
        out.push(djson[k]);
        proof {
            assert(djson@.take(k as int + 1).drop_last() =~= djson@.take(k as int));
            assert(out@ =~= mid + djson@.take(k as int + 1));
        }
        k += 1;
    }
    proof {
        assert(djson@.take(dn as int) =~= djson@);
    }
    push_chars(&mut out, ",\"logprobs\":");
    push_opt_fr(&mut out, &ch.logprobs);
    push_chars(&mut out, ",\"finish_reason\":");
    push_opt_fr(&mut out, &ch.finish_reason);
    push_chars(&mut out, "}");
    proof {
        assert(out@ =~= choice_json(*ch));
    }
    out
}

/// Renders one streamed chunk as its exact wire text.
pub fn encode_chunk(c: &ChatCompletionChunkResponse) -> (r: String)
    ensures
        r@ == chunk_json(*c),
{
    let mut out: Vec<char> = Vec::new();
    push_chars(&mut out, "{\"id\":");
    push_json_str(&mut out, c.id.as_str());
    push_chars(&mut out, ",\"choices\":[");
    let mut segs: Vec<Vec<char>> = Vec::new();
    let n = c.choices.len();
    let mut i: usize = 0;
    while i < n
        invariant
            n == c.choices@.len(),
            i <= n,
            segs@.len() == i,
            forall|k: int| 0 <= k < i ==> (#[trigger] segs@[k])@ == choice_json(c.choices@[k]),
        decreases n - i,
    {
        let one = build_choice(&c.choices[i]);
        segs.push(one);
        i += 1;
    }
    proof {
        assert(segs@.map_values(|v: Vec<char>| v@) =~= c.choices@.map_values(
            |ch: ChatCompletionChunkChoice| choice_json(ch),
        ));
    }
    push_joined(&mut out, &segs);
    push_chars(&mut out, "],\"created\":");
    push_dec_u32(&mut out, c.created);
    match &c.model {
        Some(m) => {
            push_chars(&mut out, ",\"model\":");
            push_json_str(&mut out, m.as_str());
        },
        None => {},
    }
    push_chars(&mut out, ",\"system_fingerprint\":");
    match &c.system_fingerprint {
        Some(f) => push_json_str(&mut out, f.as_str()),
        None => push_chars(&mut out, "null"),
    }
    push_chars(&mut out, ",\"object\":");
    push_json_str(&mut out, c.object.as_str());
    push_chars(&mut out, "}");
    proof {
        assert(out@ =~= chunk_json(*c));
    }
    string_from_chars(&out)
}

} // verus!
