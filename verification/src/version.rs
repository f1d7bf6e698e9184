use vstd::prelude::*;
use vstd::string::StrSliceExecFns;

verus! {

/// A compiler release identifier: `major.minor.patch`, optionally written
/// with a leading `v` and optionally carrying a `+<build>` suffix such as a
/// commit tag. Only the three numeric components take part in ordering.
#[derive(Debug, Clone, PartialEq, Eq)]
pub struct Version {
    pub major: u64,
    pub minor: u64,
    pub patch: u64,
    pub build: Option<String>,
}

/// Releases older than 0.6.0 offer no choice of metadata-hash algorithm.
pub open spec fn pre_0_6_0(v: Version) -> bool {
    v.major == 0 && v.minor < 6
}

pub open spec fn is_digit(c: char) -> bool {
    '0' as int <= c as int && c as int <= '9' as int
}

pub open spec fn digit_val(c: char) -> nat {
    (c as int - '0' as int) as nat
}

pub open spec fn all_digits(s: Seq<char>) -> bool {
    forall|i: int| 0 <= i < s.len() ==> is_digit(s[i])
}

/// The decimal value of a digit string, most significant digit first.
pub open spec fn dec_val(s: Seq<char>) -> nat
    decreases s.len(),
{
    if s.len() == 0 {
        0
    } else {
        dec_val(s.drop_last()) * 10 + digit_val(s.last())
    }
}

/// A numeric component: one to nineteen decimal digits. Nineteen digits keep
/// every accepted value below 2^64, so no accepted component overflows.
pub open spec fn is_number(s: Seq<char>) -> bool {
    1 <= s.len() <= 19 && all_digits(s)
}

/// Index of the first occurrence of `c` in `s`, if any.
pub open spec fn first_index(s: Seq<char>, c: char) -> Option<int>
    decreases s.len(),
{
    if s.len() == 0 {
        None
    } else if s[0] == c {
        Some(0int)
    } else {
        match first_index(s.skip(1), c) {
            None => None,
            Some(i) => Some(i + 1),
        }
    }
}

/// Splits `core` as `a '.' b '.' c` at the first two dots.
pub open spec fn split_core(core: Seq<char>) -> Option<(Seq<char>, Seq<char>, Seq<char>)> {
    match first_index(core, '.') {
        None => None,
        Some(i) => {
            let a = core.take(i);
            let rest = core.skip(i + 1);
            match first_index(rest, '.') {
                None => None,
                Some(j) => Some((a, rest.take(j), rest.skip(j + 1))),
            }
        },
    }
}

/// The meaning of a version string: an optional `v`, three dot-separated
/// numeric components, and an optional non-empty `+<build>` suffix.
pub open spec fn spec_parse_version(s: Seq<char>) -> Option<(nat, nat, nat, Option<Seq<char>>)> {
    let t = if s.len() > 0 && s[0] == 'v' {
        s.skip(1)
    } else {
        s
    };
    let parts = match first_index(t, '+') {
        None => (t, None::<Seq<char>>),
        Some(p) => (t.take(p), Some(t.skip(p + 1))),
    };
    match split_core(parts.0) {
        None => None,
        Some(abc) => {
            if is_number(abc.0) && is_number(abc.1) && is_number(abc.2) && (parts.1 matches Some(
                b,
            ) ==> b.len() > 0) {
                Some((dec_val(abc.0), dec_val(abc.1), dec_val(abc.2), parts.1))
            } else {
                None
            }
        },
    }
}

/// Whether exec value `v` is the version that the string `s` denotes.
pub open spec fn version_of(s: Seq<char>, v: Version) -> bool {
    match spec_parse_version(s) {
        None => false,
        Some(p) => {
            &&& v.major as nat == p.0
            &&& v.minor as nat == p.1
            &&& v.patch as nat == p.2
            &&& match v.build {
                None => p.3 is None,
                Some(b) => p.3 == Some(b@),
            }
        },
    }
}

pub open spec fn pow10(n: nat) -> nat
    decreases n,
{
    if n == 0 {
        1
    } else {
        10 * pow10((n - 1) as nat)
    }
}

proof fn lemma_pow10_increases(a: nat, b: nat)
    requires
        a <= b,
    ensures
        pow10(a) <= pow10(b),
    decreases b,
{
    if a < b {
        lemma_pow10_increases(a, (b - 1) as nat);
    }
}

proof fn lemma_first_index_found(s: Seq<char>, c: char, i: int)
    requires
        0 <= i < s.len(),
        s[i] == c,
        forall|k: int| 0 <= k < i ==> s[k] != c,
    ensures
        first_index(s, c) == Some(i),
    decreases s.len(),
{
    if i > 0 {
        assert(forall|k: int| 0 <= k < i - 1 ==> s.skip(1)[k] != c);
        assert(s.skip(1)[i - 1] == c);
        lemma_first_index_found(s.skip(1), c, i - 1);
    }
}

proof fn lemma_first_index_missing(s: Seq<char>, c: char)
    requires
        forall|k: int| 0 <= k < s.len() ==> s[k] != c,
    ensures
        first_index(s, c) is None,
    decreases s.len(),
{
    if s.len() > 0 {
        assert(forall|k: int| 0 <= k < s.skip(1).len() ==> s.skip(1)[k] != c);
        lemma_first_index_missing(s.skip(1), c);
    }
}

/// First occurrence of `c` in `s`, reported against `first_index`.
fn find_char(s: &str, c: char) -> (r: Option<usize>)
    ensures
        match r {
            Some(i) => i < s@.len() && first_index(s@, c) == Some(i as int),
            None => first_index(s@, c) is None,
        },
{
    let n = s.unicode_len();
    let mut i: usize = 0;
    while i < n
        invariant
            n == s@.len(),
            0 <= i <= n,
            forall|k: int| 0 <= k < i ==> s@[k] != c,
        decreases n - i,
    {
        if s.get_char(i) == c {
            proof {
                lemma_first_index_found(s@, c, i as int);
            }
            return Some(i);
        }
        i += 1;
    }
    proof {
        lemma_first_index_missing(s@, c);
    }
    None
}

/// Reads a whole string as one numeric component.
fn parse_decimal(s: &str) -> (r: Option<u64>)
    ensures
        match r {
            Some(v) => is_number(s@) && v as nat == dec_val(s@),
            None => !is_number(s@),
        },
{
    let n = s.unicode_len();
    if n == 0 || n > 19 {
        return None;
    }
    let mut val: u64 = 0;
    let mut i: usize = 0;
    while i < n
        invariant
            n == s@.len(),
            1 <= n <= 19,
            0 <= i <= n,
            all_digits(s@.take(i as int)),
            val as nat == dec_val(s@.take(i as int)),
            (val as nat) < pow10(i as nat),
        decreases n - i,
    {
        let c = s.get_char(i);
        let cv = c as u32;
        if cv < 48 || cv > 57 {
            assert(!is_digit(s@[i as int]));
            return None;
        }
        let d = (cv - 48) as u64;
        proof {
            lemma_pow10_increases(i as nat, 18);
            assert(pow10(18) < 0x10000000000000000) by {
                reveal_with_fuel(pow10, 19);
            }
            assert(s@.take(i as int + 1).drop_last() =~= s@.take(i as int));
            assert(s@.take(i as int + 1).last() == s@[i as int]);
        }
        val = val * 10 + d;
        proof {
            assert(is_digit(s@[i as int]));
            assert(d as nat == digit_val(s@[i as int]));
            assert(all_digits(s@.take(i as int + 1)));
        }
        i += 1;
    }
    proof {
        assert(s@.take(n as int) =~= s@);
    }
    Some(val)
}

impl Version {
    /// Parses a version string; `None` exactly on strings that do not match
    /// the grammar that `spec_parse_version` lays down.
    pub fn parse(s: &str) -> (r: Option<Version>)
        ensures
            match r {
                Some(v) => version_of(s@, v),
                None => spec_parse_version(s@) is None,
            },
    {
        let n = s.unicode_len();
        let start: usize = if n > 0 && s.get_char(0) == 'v' {
            1
        } else {
            0
        };
        let t = s.substring_char(start, n);
        proof {
            if start == 1 {
                assert(t@ =~= s@.skip(1));
            } else {
                assert(t@ =~= s@);
            }
        }
        let tn = t.unicode_len();
        let (core, build): (&str, Option<&str>) = match find_char(t, '+') {
            None => (t, None),
            Some(p) => (t.substring_char(0, p), Some(t.substring_char(p + 1, tn))),
        };
        proof {
            match first_index(t@, '+') {
                None => {
                    assert(core@ =~= t@);
                },
                Some(p) => {
                    assert(core@ =~= t@.take(p));
                },
            }
        }
        if let Some(b) = build {
            if b.unicode_len() == 0 {
                // An empty build suffix is not a version.
                return None;
            }
        }
        let i = match find_char(core, '.') {
            None => {
                return None;
            },
            Some(i) => i,
        };
        let cn = core.unicode_len();
        let a = core.substring_char(0, i);
        let rest = core.substring_char(i + 1, cn);
        proof {
            assert(a@ =~= core@.take(i as int));
            assert(rest@ =~= core@.skip(i as int + 1));
        }
        let j = match find_char(rest, '.') {
            None => {
                return None;
            },
            Some(j) => j,
        };
        let rn = rest.unicode_len();
        let b = rest.substring_char(0, j);
        let c = rest.substring_char(j + 1, rn);
        proof {
            assert(b@ =~= rest@.take(j as int));
            assert(c@ =~= rest@.skip(j as int + 1));
        }
        let major = match parse_decimal(a) {
            None => {
                return None;
            },
            Some(x) => x,
        };
        let minor = match parse_decimal(b) {
            None => {
                return None;
            },
            Some(x) => x,
        };
        let patch = match parse_decimal(c) {
            None => {
                return None;
            },
            Some(x) => x,
        };
        let build_owned: Option<String> = match build {
            None => None,
            Some(b) => Some(b.to_owned()),
        };
        Some(Version { major, minor, patch, build: build_owned })
    }

    /// Whether this release predates the 0.6.0 metadata-hash knob.
    pub fn is_pre_0_6_0(&self) -> (r: bool)
        ensures
            r == pre_0_6_0(*self),
    {
        self.major == 0 && self.minor < 6
    }
}

} // verus!
