use vstd::prelude::*;

verus! {

/// The port assumed when the worker announces none, or cannot be spawned and
/// is taken to be running out of band.
pub const DEFAULT_BACKEND_PORT: u16 = 8765;

pub open spec fn is_ascii_digit(b: u8) -> bool {
    48 <= b <= 57
}

/// The number that a string of decimal digits denotes.
pub open spec fn decimal_value(s: Seq<u8>) -> nat
    decreases s.len(),
{
    if s.len() == 0 {
        0
    } else {
        decimal_value(s.drop_last()) * 10 + (s.last() - 48) as nat
    }
}

/// A line without its terminator: one trailing `\n`, then one trailing `\r`.
pub open spec fn strip_line_end(s: Seq<u8>) -> Seq<u8> {
    let t = if s.len() > 0 && s.last() == 10 {
        s.drop_last()
    } else {
        s
    };
    if t.len() > 0 && t.last() == 13 {
        t.drop_last()
    } else {
        t
    }
}

/// The port that a line of the worker's output announces: one to five decimal
/// digits that denote a value from 1 to 65535, and nothing else but the line end.
pub open spec fn announced_port(line: Seq<u8>) -> Option<u16> {
    let d = strip_line_end(line);
    if 0 < d.len() <= 5 && (forall|i: int| 0 <= i < d.len() ==> is_ascii_digit(#[trigger] d[i]))
        && 0 < decimal_value(d) <= 65535 {
        Some(decimal_value(d) as u16)
    } else {
        None
    }
}

/// The port published for a worker whose first output line is `line`.
pub open spec fn discovered_port(line: Seq<u8>) -> u16 {
    match announced_port(line) {
        Some(p) => p,
        None => DEFAULT_BACKEND_PORT,
    }
}

pub open spec fn pow10(n: nat) -> nat
    decreases n,
{
    if n == 0 {
        1
    } else {
        10 * pow10((n - 1) as nat)
    }
}

proof fn lemma_pow10_small(n: nat)
    requires
        n < 5,
    ensures
        pow10(n) <= 10000,
{
    reveal_with_fuel(pow10, 5);
}

/// Reads the port that a worker announces on the first line of its output.
pub fn parse_port(line: &[u8]) -> (r: Option<u16>)
    ensures
        r == announced_port(line@),
{
    let mut end: usize = line.len();
    if end > 0 && line[end - 1] == 10 {
        end = end - 1;
    }
    if end > 0 && line[end - 1] == 13 {
        end = end - 1;
    }
    let ghost d = line@.subrange(0, end as int);
    assert(d =~= strip_line_end(line@));
    if end == 0 || end > 5 {
        return None;
    }
    let mut value: u32 = 0;
    let mut i: usize = 0;
    while i < end
        invariant
            0 <= i <= end <= 5,
            end <= line@.len(),
            d == line@.subrange(0, end as int),
            d == strip_line_end(line@),
            forall|k: int| 0 <= k < i ==> is_ascii_digit(#[trigger] d[k]),
            value as nat == decimal_value(d.subrange(0, i as int)),
            (value as nat) < pow10(i as nat),
        decreases end - i,
    {
        let b = line[i];
        if b < 48 || b > 57 {
            assert(d[i as int] == b);
            assert(!is_ascii_digit(d[i as int]));
            return None;
        }
        assert(d.subrange(0, i as int + 1).drop_last() =~= d.subrange(0, i as int));
        proof {
            let p = pow10(i as nat);
            lemma_pow10_small(i as nat);
            assert(pow10((i + 1) as nat) == 10 * p);
            assert((value as nat) * 10 + 9 < 10 * p) by (nonlinear_arith)
                requires
                    (value as nat) < p,
            ;
        }
        value = value * 10 + (b - 48) as u32;
        i = i + 1;
    }
    assert(d.subrange(0, end as int) =~= d);
    if value == 0 || value > 65535 {
        None
    } else {
        Some(value as u16)
    }
}

/// The port to publish for a worker whose first output line is `line`: the one
/// it announces, or `DEFAULT_BACKEND_PORT` where the line announces none.
pub fn port_from_first_line(line: &[u8]) -> (r: u16)
    ensures
        r == discovered_port(line@),
{
    match parse_port(line) {
        Some(p) => p,
        None => DEFAULT_BACKEND_PORT,
    }
}

} // verus!
