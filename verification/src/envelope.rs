//! The canonical error envelope on the wire.
//!
//! Serializes a `HttpError` into the one JSON shape every error response
//! carries: `{"status":<int>,"message":<string>}`, with an `"errors"` array
//! of `{field, message}` objects only for validation failures.

use vstd::prelude::*;
use vstd::string::StringExecFns;
use crate::errors::HttpError;
use crate::errors::HttpErrorView;
use crate::errors::ValidationError;
use crate::errors::ValidationErrorView;
use crate::text::digit_char;
use crate::text::push_char;
use crate::text::spec_dec;
use crate::text::u64_to_string;

verus! {

/// The lower-case hexadecimal digit character for a value below sixteen.
pub open spec fn hex_char(d: int) -> char {
    if d < 10 {
        digit_char(d)
    } else if d == 10 {
        'a'
    } else if d == 11 {
        'b'
    } else if d == 12 {
        'c'
    } else if d == 13 {
        'd'
    } else if d == 14 {
        'e'
    } else {
        'f'
    }
}

/// The JSON escape of one character inside a string literal: quotes and
/// backslashes are backslash-escaped, control characters become `\u00xx`,
/// everything else stands as itself.
pub open spec fn esc_char(c: char) -> Seq<char> {
    if c == '"' {
        seq!['\\', '"']
    } else if c == '\\' {
        seq!['\\', '\\']
    } else if (c as u32) < 32 {
        seq!['\\', 'u', '0', '0', hex_char(c as u32 as int / 16), hex_char(c as u32 as int % 16)]
    } else {
        seq![c]
    }
}

/// The JSON escape of a whole string.
pub open spec fn esc(s: Seq<char>) -> Seq<char>
    decreases s.len(),
{
    if s.len() == 0 {
        Seq::empty()
    } else {
        esc(s.drop_last()) + esc_char(s.last())
    }
}

/// One `{"field":...,"message":...}` object of the `errors` array.
pub open spec fn spec_field_error_json(e: ValidationErrorView) -> Seq<char> {
    "{\"field\":\""@ + esc(e.field) + "\",\"message\":\""@ + esc(e.message) + "\"}"@
}

/// The comma-separated items of the `errors` array.
pub open spec fn spec_field_errors_json(es: Seq<ValidationErrorView>) -> Seq<char>
    decreases es.len(),
{
    if es.len() == 0 {
        Seq::empty()
    } else if es.len() == 1 {
        spec_field_error_json(es[0])
    } else {
        spec_field_errors_json(es.drop_last()) + ","@ + spec_field_error_json(es.last())
    }
}

/// The canonical envelope serialization of an error.
pub open spec fn spec_envelope_json(v: HttpErrorView) -> Seq<char> {
    let head = "{\"status\":"@ + spec_dec(v.status as nat) + ",\"message\":\""@ + esc(v.message)
        + "\""@;
    let tail = match v.errors {
        None => Seq::<char>::empty(),
        Some(es) => ",\"errors\":["@ + spec_field_errors_json(es) + "]"@,
    };
    head + tail + "}"@
}

fn hex_to_char(d: u32) -> (c: char)
    requires
        d < 16,
    ensures
        c == hex_char(d as int),
{
    match d {
        0 => '0',
        1 => '1',
        2 => '2',
        3 => '3',
        4 => '4',
        5 => '5',
        6 => '6',
        7 => '7',
        8 => '8',
        9 => '9',
        10 => 'a',
        11 => 'b',
        12 => 'c',
        13 => 'd',
        14 => 'e',
        _ => 'f',
    }
}

/// Appends the JSON escape of `s` to `out`.
fn append_escaped(out: &mut String, s: &str)
    ensures
        final(out)@ == old(out)@ + esc(s@),
{
    let n = s.unicode_len();
    let mut i: usize = 0;
    while i < n
        invariant
            i <= n,
            n == s@.len(),
            out@ == old(out)@ + esc(s@.take(i as int)),
        decreases n - i,
    {
        let c = s.get_char(i);
        proof {
            assert(s@.take(i + 1).drop_last() == s@.take(i as int));
            assert(s@.take(i + 1).last() == s@[i as int]);
        }
        if c == '"' {
            push_char(out, '\\');
            push_char(out, '"');
        } else if c == '\\' {
            push_char(out, '\\');
            push_char(out, '\\');
        } else if (c as u32) < 32 {
            push_char(out, '\\');
            push_char(out, 'u');
            push_char(out, '0');
            push_char(out, '0');
            push_char(out, hex_to_char((c as u32) / 16));
            push_char(out, hex_to_char((c as u32) % 16));
        } else {
            push_char(out, c);
        }
        proof {
            assert(out@ =~= old(out)@ + esc(s@.take(i + 1)));
        }
        i = i + 1;
    }
    proof {
        assert(s@.take(n as int) == s@);
    }
}

fn append_field_error(out: &mut String, e: &ValidationError)
    ensures
        final(out)@ == old(out)@ + spec_field_error_json(e@),
{
    out.append("{\"field\":\"");
    append_escaped(out, e.field.as_str());
    out.append("\",\"message\":\"");
    append_escaped(out, e.message.as_str());
    out.append("\"}");
    proof {
        assert(out@ =~= old(out)@ + spec_field_error_json(e@));
    }
}

impl HttpError {
    /// Serializes the error into the canonical envelope.
    pub fn to_json(&self) -> (r: String)
        ensures
            r@ == spec_envelope_json(self@),
    {
        let mut out = String::new();
        out.append("{\"status\":");
        let status_str = u64_to_string(self.status as u64);
        out.append(status_str.as_str());
        out.append(",\"message\":\"");
        append_escaped(&mut out, self.message.as_str());
        out.append("\"");
        match &self.errors {
            None => {},
            Some(es) => {
                out.append(",\"errors\":[");
                let ghost evs = es@.map_values(|e: ValidationError| e@);
                let mut i: usize = 0;
                let ghost mid = out@;
                while i < es.len()
                    invariant
                        i <= es.len(),
                        evs == es@.map_values(|e: ValidationError| e@),
                        evs.len() == es@.len(),
                        out@ == mid + spec_field_errors_json(evs.take(i as int)),
                    decreases es.len() - i,
                {
                    if i > 0 {
                        out.append(",");
                    }
                    append_field_error(&mut out, &es[i]);
                    proof {
                        assert(evs.take(i + 1).drop_last() == evs.take(i as int));
                        assert(evs.take(i + 1).last() == evs[i as int]);
                        assert(evs[i as int] == es@[i as int]@);
                        assert(out@ =~= mid + spec_field_errors_json(evs.take(i + 1)));
                    }
                    i = i + 1;
                }
                proof {
                    assert(evs.take(es@.len() as int) == evs);
                }
                out.append("]");
            },
        }
        out.append("}");
        proof {
            assert(out@ =~= spec_envelope_json(self@));
        }
        out
    }
}

} // verus!
