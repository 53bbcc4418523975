use vstd::prelude::*;
use vstd::string::*;

verus! {

/// The port that the server listens on when none is configured.
pub const DEFAULT_PORT: u16 = 3000;

/// The largest port number.
pub const MAX_PORT: u32 = 65535;

/// `c` is an ASCII decimal digit.
pub open spec fn is_digit(c: char) -> bool {
    '0' <= c && c <= '9'
}

/// The number that the decimal digits `ds` write.
pub open spec fn digits_value(ds: Seq<char>) -> nat
    decreases ds.len(),
{
    if ds.len() == 0 {
        0
    } else {
        digits_value(ds.drop_last()) * 10 + (ds.last() as nat - '0' as nat) as nat
    }
}

/// The digits of a port setting: the text without one optional leading `+`.
pub open spec fn port_digits(s: Seq<char>) -> Seq<char> {
    if s.len() > 0 && s[0] == '+' {
        s.drop_first()
    } else {
        s
    }
}

/// The port that the text `s` names: one or more decimal digits, after an
/// optional `+`, whose value fits a port number.
pub open spec fn parsed_port(s: Seq<char>) -> Option<u16> {
    let ds = port_digits(s);
    if ds.len() > 0 && (forall|m: int| 0 <= m < ds.len() ==> #[trigger] is_digit(ds[m]))
        && digits_value(ds) <= MAX_PORT {
        Some(digits_value(ds) as u16)
    } else {
        None
    }
}

/// The port to listen on for the setting `value` (`None`: no setting).
pub open spec fn port_setting(value: Option<Seq<char>>) -> u16 {
    match value {
        Some(s) => match parsed_port(s) {
            Some(p) => p,
            None => DEFAULT_PORT,
        },
        None => DEFAULT_PORT,
    }
}

/// Reads a port number written in decimal, with an optional leading `+`.
pub fn parse_port(s: &str) -> (r: Option<u16>)
    ensures
        r == parsed_port(s@),
{
    let n = s.unicode_len();
    let start: usize = if n > 0 && s.get_char(0) == '+' { 1 } else { 0 };
    let ghost ds = port_digits(s@);
    assert(ds =~= s@.subrange(start as int, n as int));
    if start == n {
        return None;
    }
    let mut value: u32 = 0;
    let mut overflow = false;
    let mut k: usize = start;
    while k < n
        invariant
            start <= k <= n,
            n == s@.len(),
            ds == s@.subrange(start as int, n as int),
            ds == port_digits(s@),
            forall|m: int| 0 <= m < k - start ==> #[trigger] is_digit(ds[m]),
            !overflow ==> value as nat == digits_value(ds.subrange(0, k - start)),
            !overflow ==> value <= MAX_PORT,
            overflow ==> digits_value(ds.subrange(0, k - start)) > MAX_PORT,
        decreases n - k,
    {
        let c = s.get_char(k);
        let ghost j = k - start;
        assert(ds[j] == c);
        if !('0' <= c && c <= '9') {
            assert(!is_digit(ds[j]));
            return None;
        }
        let ghost prefix = ds.subrange(0, j + 1);
        assert(prefix.drop_last() =~= ds.subrange(0, j));
        assert(prefix.last() == c);
        let d = (c as u32) - ('0' as u32);
        if !overflow {
            let next = value * 10 + d;
            if next > MAX_PORT {
                overflow = true;
            } else {
                value = next;
            }
        } else {
            assert(digits_value(prefix) >= digits_value(ds.subrange(0, j))) by (nonlinear_arith)
                requires
                    digits_value(prefix) == digits_value(ds.subrange(0, j)) * 10 + (c as nat - '0' as nat) as nat,
            ;
        }
        k += 1;
    }
    assert(ds.subrange(0, n - start) =~= ds);
    if overflow {
        None
    } else {
        Some(value as u16)
    }
}

/// The port to listen on for the setting `value` (`None`: no setting): the
/// port it names, or the default one when it is absent or names none.
pub fn port_from(value: Option<&str>) -> (r: u16)
    ensures
        r == port_setting(match value {
            Some(s) => Some(s@),
            None => None,
        }),
{
    match value {
        Some(s) => match parse_port(s) {
            Some(p) => p,
            None => DEFAULT_PORT,
        },
        None => DEFAULT_PORT,
    }
}

} // verus!
