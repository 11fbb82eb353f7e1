use vstd::prelude::*;
use vstd::string::StrSliceExecFns;

verus! {

/// The characters that `char::is_whitespace` accepts: those with Unicode's
/// White_Space property.
pub open spec fn is_white_space(c: char) -> bool {
    ||| '\u{9}' <= c <= '\u{d}'
    ||| c == ' ' || c == '\u{85}' || c == '\u{a0}' || c == '\u{1680}'
    ||| '\u{2000}' <= c <= '\u{200a}'
    ||| c == '\u{2028}' || c == '\u{2029}' || c == '\u{202f}' || c == '\u{205f}' || c == '\u{3000}'
}

/// The words of `s`, as `str::split_whitespace` gives them: its longest runs
/// of characters that are not white space, in order. A character that is not
/// white space extends the last word when the character before it is not
/// white space either, and starts a new word otherwise.
pub open spec fn whitespace_words(s: Seq<char>) -> Seq<Seq<char>>
    decreases s.len(),
{
    if s.len() == 0 {
        seq![]
    } else {
        let w = whitespace_words(s.drop_last());
        if is_white_space(s.last()) {
            w
        } else if s.len() >= 2 && !is_white_space(s[s.len() - 2]) && w.len() > 0 {
            w.drop_last().push(w.last().push(s.last()))
        } else {
            w.push(seq![s.last()])
        }
    }
}

/// Relies on `str::split_whitespace`: the longest runs of `s` of characters
/// for which `char::is_whitespace` is false, in order.
#[verifier::external_body]
fn split_words(s: &str) -> (r: Vec<String>)
    ensures
        r@.len() == whitespace_words(s@).len(),
        forall|i: int| 0 <= i < r@.len() ==> #[trigger] r@[i]@ == whitespace_words(s@)[i],
{
    s.split_whitespace().map(String::from).collect()
}

pub open spec fn is_digit(c: char) -> bool {
    '0' <= c <= '9'
}

pub open spec fn all_digits(s: Seq<char>) -> bool {
    forall|i: int| 0 <= i < s.len() ==> is_digit(#[trigger] s[i])
}

/// The number that a string of decimal digits writes.
pub open spec fn digits_value(s: Seq<char>) -> nat
    decreases s.len(),
{
    if s.len() == 0 {
        0
    } else {
        digits_value(s.drop_last()) * 10 + ((s.last() as u32 - '0' as u32) as nat)
    }
}

/// `s` without one leading `c`, if it has one.
pub open spec fn without_sign(s: Seq<char>, c: char) -> Seq<char> {
    if s.len() > 0 && s[0] == c { s.subrange(1, s.len() as int) } else { s }
}

/// What `u64::from_str` reads from `s`: an optional `+`, then one or more
/// decimal digits, of a value that fits.
pub open spec fn parsed_u64(s: Seq<char>) -> Option<u64> {
    let d = without_sign(s, '+');
    if d.len() > 0 && all_digits(d) && digits_value(d) <= u64::MAX {
        Some(digits_value(d) as u64)
    } else {
        None
    }
}

/// What `i32::from_str` reads from `s`: an optional `+` or `-`, then one or
/// more decimal digits, of a value that fits.
pub open spec fn parsed_i32(s: Seq<char>) -> Option<i32> {
    let neg = s.len() > 0 && s[0] == '-';
    let d = if neg { s.subrange(1, s.len() as int) } else { without_sign(s, '+') };
    let v: int = if neg { -digits_value(d) } else { digits_value(d) as int };
    if d.len() > 0 && all_digits(d) && i32::MIN <= v <= i32::MAX {
        Some(v as i32)
    } else {
        None
    }
}

proof fn lemma_digits_prefix(s: Seq<char>, i: int)
    requires
        0 <= i <= s.len(),
    ensures
        digits_value(s.subrange(0, i)) <= digits_value(s),
    decreases s.len(),
{
    if i < s.len() {
        assert(s.drop_last() == s.subrange(0, s.len() - 1));
        assert(s.drop_last().subrange(0, i) == s.subrange(0, i));
        lemma_digits_prefix(s.drop_last(), i);
    } else {
        assert(s.subrange(0, i) == s);
    }
}

/// Reads the decimal digits of `s` from position `start` to the end.
fn digits_from(s: &str, start: usize) -> (r: Option<u64>)
    requires
        start <= s@.len(),
    ensures
        ({
            let d = s@.subrange(start as int, s@.len() as int);
            r == if all_digits(d) && digits_value(d) <= u64::MAX {
                Some(digits_value(d) as u64)
            } else {
                None
            }
        }),
{
    let n = s.unicode_len();
    let ghost d = s@.subrange(start as int, n as int);
    let mut acc: u64 = 0;
    let mut i: usize = start;
    while i < n
        invariant
            n == s@.len(),
            start <= i <= n,
            d == s@.subrange(start as int, n as int),
            all_digits(d.subrange(0, i - start)),
            acc as nat == digits_value(d.subrange(0, i - start)),
        decreases n - i,
    {
        let c = s.get_char(i);
        let ghost p = d.subrange(0, i + 1 - start);
        assert(p.drop_last() == d.subrange(0, i - start));
        assert(p.last() == c);
        if c < '0' || c > '9' {
            assert(!is_digit(d[i - start]));
            return None;
        }
        let v = (c as u32 - '0' as u32) as u64;
        let next = match acc.checked_mul(10) {
            Some(m) => m.checked_add(v),
            None => None,
        };
        match next {
            Some(x) => {
                acc = x;
            },
            None => {
                proof {
                    assert(digits_value(p) == acc * 10 + v);
                    lemma_digits_prefix(d, i + 1 - start);
                }
                return None;
            },
        }
        i = i + 1;
    }
    assert(d.subrange(0, n - start) == d);
    Some(acc)
}

/// Reads an unsigned decimal number as `u64::from_str` does.
pub fn parse_u64(s: &str) -> (r: Option<u64>)
    ensures
        r == parsed_u64(s@),
{
    let n = s.unicode_len();
    let start: usize = if n > 0 && s.get_char(0) == '+' { 1 } else { 0 };
    assert(s@.subrange(0, n as int) == s@);
    if start == n {
        return None;
    }
    digits_from(s, start)
}

/// Reads a signed decimal number as `i32::from_str` does.
pub fn parse_i32(s: &str) -> (r: Option<i32>)
    ensures
        r == parsed_i32(s@),
{
    let n = s.unicode_len();
    let neg = n > 0 && s.get_char(0) == '-';
    let start: usize = if n > 0 && (s.get_char(0) == '-' || s.get_char(0) == '+') { 1 } else { 0 };
    assert(s@.subrange(0, n as int) == s@);
    if start == n {
        return None;
    }
    match digits_from(s, start) {
        None => None,
        Some(m) => {
            if neg {
                if m <= 2147483648 {
                    Some((0 - (m as i64)) as i32)
                } else {
                    None
                }
            } else if m <= 2147483647 {
                Some(m as i32)
            } else {
                None
            }
        },
    }
}

/// The index of the last `c` in `s`, or -1.
pub open spec fn last_index(s: Seq<char>, c: char) -> int
    decreases s.len(),
{
    if s.len() == 0 {
        -1
    } else if s.last() == c {
        s.len() - 1
    } else {
        last_index(s.drop_last(), c)
    }
}

/// Finds the last `c` in `s`.
pub fn find_last(s: &str, c: char) -> (r: Option<usize>)
    ensures
        match r {
            Some(i) => i < s@.len() && i as int == last_index(s@, c),
            None => last_index(s@, c) == -1,
        },
{
    let n = s.unicode_len();
    let mut i: usize = n;
    assert(s@.subrange(0, n as int) == s@);
    while i > 0
        invariant
            n == s@.len(),
            i <= n,
            last_index(s@, c) == last_index(s@.subrange(0, i as int), c),
        decreases i,
    {
        let ghost p = s@.subrange(0, i as int);
        assert(p.drop_last() == s@.subrange(0, i - 1));
        if s.get_char(i - 1) == c {
            return Some(i - 1);
        }
        i = i - 1;
    }
    None
}

/// The words of a process status line after the command name, which sits in
/// parentheses and may itself hold spaces or parentheses.
pub open spec fn stat_fields(stat: Seq<char>) -> Option<Seq<Seq<char>>> {
    let p = last_index(stat, ')');
    if p < 0 {
        None
    } else {
        Some(whitespace_words(stat.subrange(p + 1, stat.len() as int)))
    }
}

/// The parent id in the words after the command name: the second one.
pub open spec fn ppid_of_fields(f: Seq<Seq<char>>) -> Option<i32> {
    if f.len() >= 2 { parsed_i32(f[1]) } else { None }
}

/// User plus system CPU ticks in the words after the command name: the
/// twelfth and thirteenth.
pub open spec fn cpu_ticks_of_fields(f: Seq<Seq<char>>) -> Option<u64> {
    if f.len() >= 13 {
        match (parsed_u64(f[11]), parsed_u64(f[12])) {
            (Some(u), Some(s)) => if u + s <= u64::MAX { Some((u + s) as u64) } else { None },
            _ => None,
        }
    } else {
        None
    }
}

/// The words of a process status line after the command name.
pub fn split_stat_fields(stat: &str) -> (r: Option<Vec<String>>)
    ensures
        match r {
            None => stat_fields(stat@) is None,
            Some(v) => stat_fields(stat@) == Some(v@.map_values(|w: String| w@)),
        },
{
    let n = stat.unicode_len();
    match find_last(stat, ')') {
        None => None,
        Some(p) => {
            let rest = stat.substring_char(p + 1, n);
            let words = split_words(rest);
            assert(words@.map_values(|w: String| w@) =~= whitespace_words(rest@));
            Some(words)
        },
    }
}

/// Reads the parent id from the words after the command name.
pub fn ppid_from_fields(fields: &Vec<String>) -> (r: Option<i32>)
    ensures
        r == ppid_of_fields(fields@.map_values(|w: String| w@)),
{
    if fields.len() >= 2 {
        parse_i32(fields[1].as_str())
    } else {
        None
    }
}

/// Reads user plus system CPU ticks from the words after the command name;
/// `None` if either is not a number or the sum overflows.
pub fn cpu_ticks_from_fields(fields: &Vec<String>) -> (r: Option<u64>)
    ensures
        r == cpu_ticks_of_fields(fields@.map_values(|w: String| w@)),
{
    if fields.len() >= 13 {
        match (parse_u64(fields[11].as_str()), parse_u64(fields[12].as_str())) {
            (Some(u), Some(s)) => u.checked_add(s),
            _ => None,
        }
    } else {
        None
    }
}

/// The parent id in a process status line (`pid (comm) state ppid ...`).
pub fn parse_ppid_from_stat(stat: &str) -> (r: Option<i32>)
    ensures
        r == match stat_fields(stat@) {
            Some(f) => ppid_of_fields(f),
            None => None,
        },
{
    match split_stat_fields(stat) {
        Some(fields) => ppid_from_fields(&fields),
        None => None,
    }
}

/// User plus system CPU ticks in a process status line.
pub fn parse_cpu_ticks_from_stat(stat: &str) -> (r: Option<u64>)
    ensures
        r == match stat_fields(stat@) {
            Some(f) => cpu_ticks_of_fields(f),
            None => None,
        },
{
    match split_stat_fields(stat) {
        Some(fields) => cpu_ticks_from_fields(&fields),
        None => None,
    }
}

} // verus!
