use vstd::prelude::*;
use vstd::string::StrSliceExecFns;

verus! {

pub open spec fn is_hex_digit(c: char) -> bool {
    ||| '0' as int <= c as int && c as int <= '9' as int
    ||| 'a' as int <= c as int && c as int <= 'f' as int
    ||| 'A' as int <= c as int && c as int <= 'F' as int
}

pub open spec fn hex_digit_val(c: char) -> nat {
    if '0' as int <= c as int && c as int <= '9' as int {
        (c as int - '0' as int) as nat
    } else if 'a' as int <= c as int && c as int <= 'f' as int {
        (c as int - 'a' as int + 10) as nat
    } else {
        (c as int - 'A' as int + 10) as nat
    }
}

/// A leading `0x` marks a hex string but carries no value.
pub open spec fn strip_0x(s: Seq<char>) -> Seq<char> {
    if s.len() >= 2 && s[0] == '0' && s[1] == 'x' {
        s.skip(2)
    } else {
        s
    }
}

pub open spec fn is_hex_body(s: Seq<char>) -> bool {
    s.len() % 2 == 0 && (forall|i: int| 0 <= i < s.len() ==> is_hex_digit(s[i]))
}

/// The bytes a hex digit string denotes, two digits per byte.
pub open spec fn hex_bytes(s: Seq<char>) -> Seq<u8>
    decreases s.len(),
{
    if s.len() < 2 {
        Seq::empty()
    } else {
        hex_bytes(s.take(s.len() - 2)).push(
            (hex_digit_val(s[s.len() - 2]) * 16 + hex_digit_val(s[s.len() - 1])) as u8,
        )
    }
}

/// Value of one hex digit, or `None` for any other character.
fn hex_val(c: char) -> (r: Option<u8>)
    ensures
        match r {
            Some(v) => is_hex_digit(c) && v as nat == hex_digit_val(c),
            None => !is_hex_digit(c),
        },
{
    let cv = c as u32;
    if 48 <= cv && cv <= 57 {
        Some((cv - 48) as u8)
    } else if 97 <= cv && cv <= 102 {
        Some((cv - 97 + 10) as u8)
    } else if 65 <= cv && cv <= 70 {
        Some((cv - 65 + 10) as u8)
    } else {
        None
    }
}

/// Decodes a hex string, with or without a `0x` prefix, into its bytes;
/// `None` exactly when what follows the prefix is not an even run of hex
/// digits.
pub fn decode_hex(s: &str) -> (r: Option<Vec<u8>>)
    ensures
        match r {
            Some(v) => is_hex_body(strip_0x(s@)) && v@ == hex_bytes(strip_0x(s@)),
            None => !is_hex_body(strip_0x(s@)),
        },
{
    let n = s.unicode_len();
    let start: usize = if n >= 2 && s.get_char(0) == '0' && s.get_char(1) == 'x' {
        2
    } else {
        0
    };
    proof {
        assert(strip_0x(s@) =~= s@.skip(start as int));
    }
    if (n - start) % 2 != 0 {
        return None;
    }
    let mut out: Vec<u8> = Vec::new();
    let mut i: usize = start;
    while i < n
        invariant
            n == s@.len(),
            start <= i <= n,
            (i - start) % 2 == 0,
            (n - start) % 2 == 0,
            strip_0x(s@) == s@.skip(start as int),
            forall|k: int| start <= k < i ==> is_hex_digit(s@[k]),
            out@ == hex_bytes(s@.subrange(start as int, i as int)),
        decreases n - i,
    {
        let hi = match hex_val(s.get_char(i)) {
            None => {
                assert(!is_hex_digit(strip_0x(s@)[i as int - start as int]));
                return None;
            },
            Some(v) => v,
        };
        let lo = match hex_val(s.get_char(i + 1)) {
            None => {
                assert(!is_hex_digit(strip_0x(s@)[i as int + 1 - start as int]));
                return None;
            },
            Some(v) => v,
        };
        let b: u8 = hi * 16 + lo;
        out.push(b);
        proof {
            let full = s@.subrange(start as int, i as int + 2);
            assert(full.take(full.len() - 2) =~= s@.subrange(start as int, i as int));
            assert(out@ == hex_bytes(full));
        }
        i += 2;
    }
    proof {
        assert(s@.subrange(start as int, n as int) =~= strip_0x(s@));
    }
    Some(out)
}

} // verus!
