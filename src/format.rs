//! Rendering spans as text through a small pattern language: `%H`, `%M` and
//! `%S` stand for the hours, minutes and seconds, each at least two digits
//! wide; every other character stands for itself.
use crate::span::Span;
use vstd::prelude::*;

verus! {

/// Hours and minutes, as in `07:36`.
pub const DURATION_FORMAT: &'static str = "%H:%M";

pub open spec fn digit_char(d: nat) -> char {
    ('0' as nat + d) as char
}

/// The decimal digits of `n`, without leading zeros.
pub open spec fn decimal(n: nat) -> Seq<char>
    decreases n,
{
    if n < 10 {
        seq![digit_char(n)]
    } else {
        decimal(n / 10) + seq![digit_char(n % 10)]
    }
}

/// A field of magnitude `mag` printed with a zero-padded width of two; a
/// negative field takes a leading minus in place of padding.
pub open spec fn field_text(negative: bool, mag: nat) -> Seq<char> {
    if negative && mag > 0 {
        seq!['-'] + decimal(mag)
    } else if mag < 10 {
        seq!['0', digit_char(mag)]
    } else {
        decimal(mag)
    }
}

/// The pattern `f` with each `%H`, `%M`, `%S`, read from left to right,
/// replaced by `h`, `m`, `s`.
pub open spec fn render(f: Seq<char>, h: Seq<char>, m: Seq<char>, s: Seq<char>) -> Seq<char>
    decreases f.len(),
{
    if f.len() == 0 {
        seq![]
    } else if f.len() >= 2 && f[0] == '%' && f[1] == 'H' {
        h + render(f.skip(2), h, m, s)
    } else if f.len() >= 2 && f[0] == '%' && f[1] == 'M' {
        m + render(f.skip(2), h, m, s)
    } else if f.len() >= 2 && f[0] == '%' && f[1] == 'S' {
        s + render(f.skip(2), h, m, s)
    } else {
        seq![f[0]] + render(f.skip(1), h, m, s)
    }
}

/// A span of `nanos` nanoseconds, of the given sign and magnitude, rendered
/// through `f`: its whole seconds, truncated towards zero, split into hours,
/// minutes and seconds that each carry the sign.
pub open spec fn formatted_parts(negative: bool, nanos: nat, f: Seq<char>) -> Seq<char> {
    let secs = nanos / 1_000_000_000;
    render(
        f,
        field_text(negative, secs / 3600),
        field_text(negative, (secs % 3600) / 60),
        field_text(negative, secs % 60),
    )
}

pub open spec fn magnitude(x: int) -> nat {
    if x < 0 {
        (-x) as nat
    } else {
        x as nat
    }
}

/// A span rendered through `f`.
pub open spec fn formatted(d: int, f: Seq<char>) -> Seq<char> {
    formatted_parts(d < 0, magnitude(d), f)
}

fn digit_str(d: u128) -> (r: &'static str)
    requires
        d < 10,
    ensures
        r@ == seq![digit_char(d as nat)],
{
    proof {
        reveal_strlit("0");
        reveal_strlit("1");
        reveal_strlit("2");
        reveal_strlit("3");
        reveal_strlit("4");
        reveal_strlit("5");
        reveal_strlit("6");
        reveal_strlit("7");
        reveal_strlit("8");
        reveal_strlit("9");
    }
    let r = if d == 0 {
        "0"
    } else if d == 1 {
        "1"
    } else if d == 2 {
        "2"
    } else if d == 3 {
        "3"
    } else if d == 4 {
        "4"
    } else if d == 5 {
        "5"
    } else if d == 6 {
        "6"
    } else if d == 7 {
        "7"
    } else if d == 8 {
        "8"
    } else {
        "9"
    };
    assert(r@ =~= seq![digit_char(d as nat)]);
    r
}

fn push_decimal(out: &mut String, n: u128)
    ensures
        final(out)@ == old(out)@ + decimal(n as nat),
    decreases n,
{
    if n >= 10 {
        push_decimal(out, n / 10);
    }
    out.append(digit_str(n % 10));
    assert(final(out)@ =~= old(out)@ + decimal(n as nat));
}

fn field(negative: bool, mag: u128) -> (r: String)
    ensures
        r@ == field_text(negative, mag as nat),
{
    let mut out = String::new();
    if negative && mag > 0 {
        proof {
            reveal_strlit("-");
        }
        out.append("-");
    } else if mag < 10 {
        out.append(digit_str(0));
    }
    push_decimal(&mut out, mag);
    proof {
        if !(negative && mag > 0) && mag < 10 {
            assert(decimal(mag as nat) =~= seq![digit_char(mag as nat)]);
        }
    }
    assert(out@ =~= field_text(negative, mag as nat));
    out
}

/// Renders a span of the given sign and magnitude through `format`.
fn format_parts(negative: bool, nanos: u128, format: &str) -> (r: String)
    ensures
        r@ == formatted_parts(negative, nanos as nat, format@),
{
    let secs = nanos / 1_000_000_000;
    let h = field(negative, secs / 3600);
    let m = field(negative, (secs % 3600) / 60);
    let s = field(negative, secs % 60);
    let ghost f = format@;
    let n = format.unicode_len();
    let mut out = String::new();
    let mut i: usize = 0;
    assert(f.skip(0) =~= f);
    while i < n
        invariant
            n == f.len(),
            f == format@,
            i <= n,
            out@ + render(f.skip(i as int), h@, m@, s@) == render(f, h@, m@, s@),
        decreases n - i,
    {
        let ghost rest = f.skip(i as int);
        let c = format.get_char(i);
        assert(rest[0] == c);
        let mut taken = false;
        if c == '%' && i + 1 < n {
            let c2 = format.get_char(i + 1);
            assert(rest[1] == c2);
            assert(rest.skip(2) =~= f.skip(i + 2));
            if c2 == 'H' {
                out.append(h.as_str());
                taken = true;
            } else if c2 == 'M' {
                out.append(m.as_str());
                taken = true;
            } else if c2 == 'S' {
                out.append(s.as_str());
                taken = true;
            }
            if taken {
                i = i + 2;
            }
        }
        if !taken {
            assert(rest.skip(1) =~= f.skip(i + 1));
            let one = format.substring_char(i, i + 1);
            assert(one@ =~= seq![c]);
            out.append(one);
            i = i + 1;
        }
    }
    assert(f.skip(n as int) =~= seq![]);
    assert(out@ =~= out@ + render(f.skip(n as int), h@, m@, s@));
    out
}

/// Renders `duration` through `format`: `%H`, `%M` and `%S` become its hours,
/// minutes and seconds.
pub fn format_duration(duration: Span, format: &str) -> (r: String)
    ensures
        r@ == formatted(duration@, format@),
{
    format_parts(duration.is_negative(), duration.magnitude(), format)
}

/// Renders a target minus worked time for display: a leading `-` where it is
/// negative, then its magnitude through `format`.
pub fn format_todo(todo: Span, format: &str) -> (r: String)
    ensures
        r@ == (if todo@ < 0 {
            seq!['-']
        } else {
            seq![]
        }) + formatted_parts(false, magnitude(todo@), format@),
{
    let mut out = String::new();
    if todo.is_negative() {
        proof {
            reveal_strlit("-");
        }
        out.append("-");
    }
    let body = format_parts(false, todo.magnitude(), format);
    out.append(body.as_str());
    assert(out@ =~= (if todo@ < 0 {
        seq!['-']
    } else {
        seq![]
    }) + formatted_parts(false, magnitude(todo@), format@));
    out
}

} // verus!
