//! The version and home of an R installation, read from what `R RHOME`
//! and `R --version`-style commands print.

use itertools::Itertools;
use vstd::prelude::*;

verus! {

/// An R installation.
#[derive(Debug, Clone)]
pub struct RVersion {
    /// Major version of the R installation.
    pub major: u32,
    /// Minor version of the R installation.
    pub minor: u32,
    /// Patch version of the R installation.
    pub patch: u32,
    /// The full path on disk to the R installation: what `R.home()` gives.
    pub r_home: String,
}

/// Characters with Unicode's White_Space property.
pub open spec fn is_white_space(c: char) -> bool {
    ||| ('\u{9}' <= c && c <= '\u{d}')
    ||| c == ' '
    ||| c == '\u{85}'
    ||| c == '\u{a0}'
    ||| c == '\u{1680}'
    ||| ('\u{2000}' <= c && c <= '\u{200a}')
    ||| c == '\u{2028}'
    ||| c == '\u{2029}'
    ||| c == '\u{202f}'
    ||| c == '\u{205f}'
    ||| c == '\u{3000}'
}

/// The text without its leading white space.
pub open spec fn trim_start(s: Seq<char>) -> Seq<char>
    decreases s.len(),
{
    if s.len() > 0 && is_white_space(s[0]) {
        trim_start(s.drop_first())
    } else {
        s
    }
}

/// The text without its trailing white space.
pub open spec fn trim_end(s: Seq<char>) -> Seq<char>
    decreases s.len(),
{
    if s.len() > 0 && is_white_space(s.last()) {
        trim_end(s.drop_last())
    } else {
        s
    }
}

/// The text without its leading and trailing white space.
pub open spec fn trimmed(s: Seq<char>) -> Seq<char> {
    trim_end(trim_start(s))
}

/// Relies on `str::trim`: the text without leading and trailing
/// characters that have the White_Space property.
#[verifier::external_body]
fn trim(s: &str) -> (r: String)
    ensures
        r@ == trimmed(s@),
{
    s.trim().to_string()
}

/// Relies on `Itertools::collect_tuple`: a triple of the items, in order,
/// exactly when there are three.
#[verifier::external_body]
fn three_parts(parts: Vec<Option<u32>>) -> (r: Option<(Option<u32>, Option<u32>, Option<u32>)>)
    ensures
        match r {
            Some((a, b, c)) => parts@.len() == 3 && a == parts@[0] && b == parts@[1] && c
                == parts@[2],
            None => parts@.len() != 3,
        },
{
    parts.into_iter().collect_tuple()
}

pub open spec fn digit_value(c: char) -> Option<nat> {
    if '0' <= c && c <= '9' {
        Some((c as nat - '0' as nat) as nat)
    } else {
        None
    }
}

/// The value of a non-empty run of decimal digits.
pub open spec fn number_value(s: Seq<char>) -> Option<nat>
    decreases s.len(),
{
    if s.len() == 0 {
        None
    } else if s.len() == 1 {
        digit_value(s[0])
    } else {
        match (number_value(s.drop_last()), digit_value(s.last())) {
            (Some(a), Some(d)) => Some(10 * a + d),
            _ => None,
        }
    }
}

/// The parts of a text between dots.
pub open spec fn split_dots(s: Seq<char>) -> Seq<Seq<char>>
    decreases s.len(),
{
    if s.len() == 0 {
        seq![Seq::<char>::empty()]
    } else {
        let p = split_dots(s.drop_last());
        if s.last() == '.' {
            p.push(Seq::<char>::empty())
        } else {
            p.update(p.len() - 1, p.last().push(s.last()))
        }
    }
}

/// A part as a `u32`: decimal digits after an optional `+`, and small
/// enough.
pub open spec fn part_value(s: Seq<char>) -> Option<u32> {
    let digits = if s.len() > 0 && s[0] == '+' {
        s.drop_first()
    } else {
        s
    };
    match number_value(digits) {
        Some(v) => if v <= u32::MAX {
            Some(v as u32)
        } else {
            None
        },
        None => None,
    }
}

/// `major.minor.patch`: three parts between dots, each a `u32`.
pub open spec fn version_of(text: Seq<char>) -> Option<(u32, u32, u32)> {
    let parts = split_dots(text);
    if parts.len() == 3 {
        match (part_value(parts[0]), part_value(parts[1]), part_value(parts[2])) {
            (Some(a), Some(b), Some(c)) => Some((a, b, c)),
            _ => None,
        }
    } else {
        None
    }
}

proof fn lemma_split_nonempty(s: Seq<char>)
    ensures
        split_dots(s).len() >= 1,
    decreases s.len(),
{
    if s.len() > 0 {
        lemma_split_nonempty(s.drop_last());
    }
}

proof fn lemma_number_grows(s: Seq<char>, k: int)
    requires
        1 <= k <= s.len(),
        number_value(s) is Some,
    ensures
        number_value(s.take(k)) is Some,
        number_value(s.take(k)).unwrap() <= number_value(s).unwrap(),
    decreases s.len(),
{
    if k == s.len() {
        assert(s.take(k) =~= s);
    } else {
        lemma_number_grows(s.drop_last(), k);
        assert(s.drop_last().take(k) =~= s.take(k));
    }
}

proof fn lemma_parts_view(parts: &Vec<Vec<char>>)
    ensures
        parts.deep_view().len() == parts@.len(),
        forall|j: int| 0 <= j < parts@.len() ==> #[trigger] parts.deep_view()[j] == parts@[j]@,
{
    assert forall|j: int| 0 <= j < parts@.len() implies #[trigger] parts.deep_view()[j]
        == parts@[j]@ by {
        assert(parts@[j].deep_view() =~= parts@[j]@);
    }
}

fn parse_number(part: &Vec<char>) -> (r: Option<u32>)
    ensures
        r == part_value(part@),
{
    if part.len() > 0 && part[0] == '+' {
        let mut digits: Vec<char> = Vec::new();
        let mut i: usize = 1;
        while i < part.len()
            invariant
                1 <= i <= part@.len(),
                digits@ == part@.subrange(1, i as int),
            decreases part@.len() - i,
        {
            digits.push(part[i]);
            assert(digits@ =~= part@.subrange(1, i + 1));
            i = i + 1;
        }
        assert(digits@ =~= part@.drop_first());
        return parse_digits(&digits);
    }
    parse_digits(part)
}

/// The value of a run of decimal digits that fits in a `u32`.
fn parse_digits(part: &Vec<char>) -> (r: Option<u32>)
    ensures
        r == (match number_value(part@) {
            Some(v) => if v <= u32::MAX {
                Some(v as u32)
            } else {
                None
            },
            None => None,
        }),
{
    if part.len() == 0 {
        return None;
    }
    let mut acc: u64 = 0;
    let mut i: usize = 0;
    while i < part.len()
        invariant
            0 <= i <= part@.len(),
            part@.len() > 0,
            i == 0 ==> acc == 0,
            i > 0 ==> number_value(part@.take(i as int)) == Some(acc as nat),
            acc <= u32::MAX,
        decreases part@.len() - i,
    {
        let c = part[i];
        assert(part@.take(i + 1).drop_last() =~= part@.take(i as int));
        assert(part@.take(i + 1).last() == c);
        if !('0' <= c && c <= '9') {
            proof {
                if number_value(part@) is Some {
                    lemma_number_grows(part@, i + 1);
                }
            }
            return None;
        }
        let d = (c as u64) - ('0' as u64);
        let next = acc * 10 + d;
        if next > u32::MAX as u64 {
            proof {
                if number_value(part@) is Some {
                    lemma_number_grows(part@, i + 1);
                }
            }
            return None;
        }
        acc = next;
        i = i + 1;
    }
    assert(part@.take(i as int) =~= part@);
    Some(acc as u32)
}

/// `major.minor.patch` read from text that holds nothing else.
pub fn parse_version(text: &str) -> (r: Option<(u32, u32, u32)>)
    ensures
        r == version_of(text@),
{
    let n = text.unicode_len();
    let ghost s = text@;
    let mut parts: Vec<Vec<char>> = Vec::new();
    parts.push(Vec::new());
    proof {
        lemma_parts_view(&parts);
    }
    assert(parts.deep_view() =~= split_dots(s.take(0)));
    let mut i: usize = 0;
    while i < n
        invariant
            s == text@,
            n == s.len(),
            i <= n,
            parts.deep_view() == split_dots(s.take(i as int)),
        decreases n - i,
    {
        let c = text.get_char(i);
        let ghost before = parts.deep_view();
        proof {
            lemma_parts_view(&parts);
            lemma_split_nonempty(s.take(i as int));
            assert(s.take(i + 1).drop_last() =~= s.take(i as int));
            assert(s.take(i + 1).last() == c);
        }
        if c == '.' {
            parts.push(Vec::new());
            proof {
                lemma_parts_view(&parts);
            }
            assert(parts.deep_view() =~= before.push(Seq::<char>::empty()));
        } else {
            let mut cur = match parts.pop() {
                Some(cur) => cur,
                None => Vec::new(),
            };
            cur.push(c);
            parts.push(cur);
            proof {
                lemma_parts_view(&parts);
            }
            assert(parts.deep_view() =~= before.update(before.len() - 1, before.last().push(c)));
        }
        i = i + 1;
    }
    assert(s.take(n as int) =~= s);
    let mut numbers: Vec<Option<u32>> = Vec::new();
    let mut j: usize = 0;
    while j < parts.len()
        invariant
            j <= parts@.len(),
            numbers@.len() == j,
            forall|k: int| 0 <= k < j ==> numbers@[k] == part_value(#[trigger] parts@[k]@),
        decreases parts@.len() - j,
    {
        numbers.push(parse_number(&parts[j]));
        j = j + 1;
    }
    proof {
        lemma_parts_view(&parts);
    }
    match three_parts(numbers) {
        Some((Some(major), Some(minor), Some(patch))) => Some((major, minor, patch)),
        _ => None,
    }
}

/// The installation that the two outputs describe: the home is the first
/// output trimmed, the version the second output trimmed.
pub fn detect_r(r_home_output: &str, version_output: &str) -> (r: Option<RVersion>)
    ensures
        match r {
            Some(v) => v.r_home@ == trimmed(r_home_output@) && version_of(trimmed(version_output@))
                == Some((v.major, v.minor, v.patch)),
            None => version_of(trimmed(version_output@)) is None,
        },
{
    let r_home = trim(r_home_output);
    let version = trim(version_output);
    match parse_version(version.as_str()) {
        Some((major, minor, patch)) => Some(RVersion { major, minor, patch, r_home }),
        None => None,
    }
}

} // verus!
