use vstd::prelude::*;
use vstd::string::*;

verus! {

// The decoder works on the body as a sequence of characters, with a
// cursor.  Each scanning function has a specification twin over
// `Seq<char>`; together the twins fix the grammar the decoder accepts:
// JSON with two documented leniencies — numbers are any run of number
// characters after a digit or minus, and a skipped-over member is only
// scanned for balanced brackets and well-formed strings, not parsed.
/// JSON insignificant whitespace.
pub open spec fn is_json_ws(c: char) -> bool {
    c == ' ' || c == '\t' || c == '\n' || c == '\r'
}

/// The first position at or after `i` that does not hold whitespace.
pub open spec fn spec_skip_ws(s: Seq<char>, i: int) -> int
    decreases s.len() - i,
    when 0 <= i <= s.len()
{
    if i < s.len() && is_json_ws(s[i]) {
        spec_skip_ws(s, i + 1)
    } else {
        i
    }
}

pub proof fn lemma_skip_ws_bounds(s: Seq<char>, i: int)
    requires
        0 <= i <= s.len(),
    ensures
        i <= spec_skip_ws(s, i) <= s.len(),
    decreases s.len() - i,
{
    if i < s.len() && is_json_ws(s[i]) {
        lemma_skip_ws_bounds(s, i + 1);
    }
}

/// The position just after the closing quote of a string whose opening
/// quote stands at `i - 1`.  A backslash carries the following character
/// verbatim; the scan fails only on an unterminated string.
pub open spec fn spec_string_end(s: Seq<char>, i: int) -> Option<int>
    decreases s.len() - i,
    when 0 <= i <= s.len()
{
    if i >= s.len() {
        None
    } else if s[i] == '"' {
        Some(i + 1)
    } else if s[i] == '\\' {
        if i + 1 < s.len() {
            spec_string_end(s, i + 2)
        } else {
            None
        }
    } else {
        spec_string_end(s, i + 1)
    }
}

pub proof fn lemma_string_end_bounds(s: Seq<char>, i: int)
    requires
        0 <= i <= s.len(),
    ensures
        match spec_string_end(s, i) {
            Some(e) => i < e <= s.len(),
            None => true,
        },
    decreases s.len() - i,
{
    if i < s.len() {
        if s[i] == '\\' {
            if i + 1 < s.len() {
                lemma_string_end_bounds(s, i + 2);
            }
        } else if s[i] != '"' {
            lemma_string_end_bounds(s, i + 1);
        }
    }
}

/// A character that may continue a number token.
pub open spec fn is_number_char(c: char) -> bool {
    let u = c as u32;
    (48 <= u && u <= 57) || c == '-' || c == '+' || c == '.' || c == 'e' || c == 'E'
}

/// A character that may open a number token: a digit or a minus.
pub open spec fn is_number_start(c: char) -> bool {
    let u = c as u32;
    (48 <= u && u <= 57) || c == '-'
}

/// The end of the number token beginning at `i`: the first position at
/// or after `i` holding no number character.
pub open spec fn spec_number_end(s: Seq<char>, i: int) -> int
    decreases s.len() - i,
    when 0 <= i <= s.len()
{
    if i < s.len() && is_number_char(s[i]) {
        spec_number_end(s, i + 1)
    } else {
        i
    }
}

pub proof fn lemma_number_end_bounds(s: Seq<char>, i: int)
    requires
        0 <= i <= s.len(),
    ensures
        i <= spec_number_end(s, i) <= s.len(),
        i < s.len() && is_number_char(s[i]) ==> i < spec_number_end(s, i),
    decreases s.len() - i,
{
    if i < s.len() && is_number_char(s[i]) {
        lemma_number_end_bounds(s, i + 1);
    }
}

/// The position just after the bracket that closes a container opened
/// at `i - 1`, scanning by bracket count with strings honoured.  The
/// contents of a skipped container are not parsed.
pub open spec fn spec_container_end(
    s: Seq<char>,
    i: int,
    depth: int,
    in_str: bool,
    esc: bool,
) -> Option<int>
    decreases s.len() - i,
    when 0 <= i <= s.len() && depth >= 1
{
    if i >= s.len() {
        None
    } else if in_str {
        if esc {
            spec_container_end(s, i + 1, depth, true, false)
        } else if s[i] == '\\' {
            spec_container_end(s, i + 1, depth, true, true)
        } else if s[i] == '"' {
            spec_container_end(s, i + 1, depth, false, false)
        } else {
            spec_container_end(s, i + 1, depth, true, false)
        }
    } else if s[i] == '"' {
        spec_container_end(s, i + 1, depth, true, false)
    } else if s[i] == '{' || s[i] == '[' {
        spec_container_end(s, i + 1, depth + 1, false, false)
    } else if s[i] == '}' || s[i] == ']' {
        if depth == 1 {
            Some(i + 1)
        } else {
            spec_container_end(s, i + 1, depth - 1, false, false)
        }
    } else {
        spec_container_end(s, i + 1, depth, false, false)
    }
}

pub proof fn lemma_container_end_bounds(s: Seq<char>, i: int, depth: int, in_str: bool, esc: bool)
    requires
        0 <= i <= s.len(),
        depth >= 1,
    ensures
        match spec_container_end(s, i, depth, in_str, esc) {
            Some(e) => i < e <= s.len(),
            None => true,
        },
    decreases s.len() - i,
{
    if i < s.len() {
        if in_str {
            if esc {
                lemma_container_end_bounds(s, i + 1, depth, true, false);
            } else if s[i] == '\\' {
                lemma_container_end_bounds(s, i + 1, depth, true, true);
            } else if s[i] == '"' {
                lemma_container_end_bounds(s, i + 1, depth, false, false);
            } else {
                lemma_container_end_bounds(s, i + 1, depth, true, false);
            }
        } else if s[i] == '"' {
            lemma_container_end_bounds(s, i + 1, depth, true, false);
        } else if s[i] == '{' || s[i] == '[' {
            lemma_container_end_bounds(s, i + 1, depth + 1, false, false);
        } else if s[i] == '}' || s[i] == ']' {
            if depth != 1 {
                lemma_container_end_bounds(s, i + 1, depth - 1, false, false);
            }
        } else {
            lemma_container_end_bounds(s, i + 1, depth, false, false);
        }
    }
}

/// The position just after the JSON value beginning at `i`, or `None`
/// when no value of the accepted grammar begins there.
pub open spec fn spec_skip_value(s: Seq<char>, i: int) -> Option<int>
    decreases s.len() - i,
    when 0 <= i <= s.len()
{
    if i >= s.len() {
        None
    } else if s[i] == '"' {
        spec_string_end(s, i + 1)
    } else if s[i] == '{' || s[i] == '[' {
        spec_container_end(s, i + 1, 1, false, false)
    } else if s[i] == 't' {
        if i + 4 <= s.len() && s[i + 1] == 'r' && s[i + 2] == 'u' && s[i + 3] == 'e' {
            Some(i + 4)
        } else {
            None
        }
    } else if s[i] == 'f' {
        if i + 5 <= s.len() && s[i + 1] == 'a' && s[i + 2] == 'l' && s[i + 3] == 's' && s[i + 4]
            == 'e' {
            Some(i + 5)
        } else {
            None
        }
    } else if s[i] == 'n' {
        if i + 4 <= s.len() && s[i + 1] == 'u' && s[i + 2] == 'l' && s[i + 3] == 'l' {
            Some(i + 4)
        } else {
            None
        }
    } else if is_number_start(s[i]) {
        Some(spec_number_end(s, i))
    } else {
        None
    }
}

pub proof fn lemma_skip_value_bounds(s: Seq<char>, i: int)
    requires
        0 <= i <= s.len(),
    ensures
        match spec_skip_value(s, i) {
            Some(e) => i < e <= s.len(),
            None => true,
        },
{
    if i < s.len() {
        lemma_string_end_bounds(s, i + 1);
        lemma_container_end_bounds(s, i + 1, 1, false, false);
        lemma_number_end_bounds(s, i);
    }
}

/// The model of an optional cursor result.
pub open spec fn opt_index_model(o: Option<usize>) -> Option<int> {
    match o {
        Some(e) => Some(e as int),
        None => None,
    }
}

/// Advances the cursor past whitespace.
pub fn skip_ws(s: &str, n: usize, i: usize) -> (r: usize)
    requires
        n == s@.len(),
        i <= n,
    ensures
        r == spec_skip_ws(s@, i as int),
        i <= r <= n,
{
    let mut j = i;
    loop
        invariant
            n == s@.len(),
            i <= j <= n,
            spec_skip_ws(s@, i as int) == spec_skip_ws(s@, j as int),
        decreases n - j,
    {
        if j >= n {
            return j;
        }
        let c = s.get_char(j);
        if c == ' ' || c == '\t' || c == '\n' || c == '\r' {
            j = j + 1;
        } else {
            return j;
        }
    }
}

/// Scans to the end of a string whose opening quote stands at `i - 1`.
pub fn string_end(s: &str, n: usize, i: usize) -> (r: Option<usize>)
    requires
        n == s@.len(),
        i <= n,
    ensures
        opt_index_model(r) == spec_string_end(s@, i as int),
        r matches Some(e) ==> i < e <= n,
{
    proof {
        lemma_string_end_bounds(s@, i as int);
    }
    let mut j = i;
    loop
        invariant
            n == s@.len(),
            i <= j <= n,
            spec_string_end(s@, i as int) == spec_string_end(s@, j as int),
        decreases n - j,
    {
        if j >= n {
            return None;
        }
        let c = s.get_char(j);
        if c == '"' {
            return Some(j + 1);
        } else if c == '\\' {
            if j + 1 < n {
                j = j + 2;
            } else {
                return None;
            }
        } else {
            j = j + 1;
        }
    }
}

/// Scans to the end of the number token beginning at `i`.
pub fn number_end(s: &str, n: usize, i: usize) -> (r: usize)
    requires
        n == s@.len(),
        i <= n,
    ensures
        r == spec_number_end(s@, i as int),
        i <= r <= n,
{
    let mut j = i;
    loop
        invariant
            n == s@.len(),
            i <= j <= n,
            spec_number_end(s@, i as int) == spec_number_end(s@, j as int),
        decreases n - j,
    {
        if j >= n {
            return j;
        }
        let c = s.get_char(j);
        let u = c as u32;
        if (48 <= u && u <= 57) || c == '-' || c == '+' || c == '.' || c == 'e' || c == 'E' {
            j = j + 1;
        } else {
            return j;
        }
    }
}

/// Scans to the end of a container opened at `i - 1`.
pub fn container_end(s: &str, n: usize, i: usize) -> (r: Option<usize>)
    requires
        n == s@.len(),
        i <= n,
    ensures
        opt_index_model(r) == spec_container_end(s@, i as int, 1, false, false),
        r matches Some(e) ==> i < e <= n,
{
    proof {
        lemma_container_end_bounds(s@, i as int, 1, false, false);
    }
    let mut j = i;
    let mut depth: u128 = 1;
    let mut in_str = false;
    let mut esc = false;
    loop
        invariant
            n == s@.len(),
            i <= j <= n,
            1 <= depth <= j - i + 1,
            !in_str ==> !esc,
            spec_container_end(s@, i as int, 1, false, false) == spec_container_end(
                s@,
                j as int,
                depth as int,
                in_str,
                esc,
            ),
        decreases n - j,
    {
        if j >= n {
            return None;
        }
        let c = s.get_char(j);
        if in_str {
            if esc {
                esc = false;
            } else if c == '\\' {
                esc = true;
            } else if c == '"' {
                in_str = false;
            }
            j = j + 1;
        } else if c == '"' {
            in_str = true;
            j = j + 1;
        } else if c == '{' || c == '[' {
            depth = depth + 1;
            j = j + 1;
        } else if c == '}' || c == ']' {
            if depth == 1 {
                return Some(j + 1);
            }
            depth = depth - 1;
            j = j + 1;
        } else {
            j = j + 1;
        }
    }
}

/// Scans past the JSON value beginning at `i`.
pub fn skip_value(s: &str, n: usize, i: usize) -> (r: Option<usize>)
    requires
        n == s@.len(),
        i <= n,
    ensures
        opt_index_model(r) == spec_skip_value(s@, i as int),
        r matches Some(e) ==> i < e <= n,
{
    proof {
        lemma_skip_value_bounds(s@, i as int);
    }
    if i >= n {
        return None;
    }
    let c = s.get_char(i);
    if c == '"' {
        string_end(s, n, i + 1)
    } else if c == '{' || c == '[' {
        container_end(s, n, i + 1)
    } else if c == 't' {
        if n - i >= 4 && s.get_char(i + 1) == 'r' && s.get_char(i + 2) == 'u' && s.get_char(i + 3)
            == 'e' {
            Some(i + 4)
        } else {
            None
        }
    } else if c == 'f' {
        if n - i >= 5 && s.get_char(i + 1) == 'a' && s.get_char(i + 2) == 'l' && s.get_char(i + 3)
            == 's' && s.get_char(i + 4) == 'e' {
            Some(i + 5)
        } else {
            None
        }
    } else if c == 'n' {
        if n - i >= 4 && s.get_char(i + 1) == 'u' && s.get_char(i + 2) == 'l' && s.get_char(i + 3)
            == 'l' {
            Some(i + 4)
        } else {
            None
        }
    } else {
        let u = c as u32;
        if (48 <= u && u <= 57) || c == '-' {
            Some(number_end(s, n, i))
        } else {
            None
        }
    }
}

/// A character that may open a JSON value of some type.
pub open spec fn is_value_start(c: char) -> bool {
    c == '"' || c == '{' || c == '[' || c == 't' || c == 'f' || c == 'n' || is_number_start(c)
}

/// Whether every character of `t` is a decimal digit.
pub open spec fn spec_all_digits(t: Seq<char>) -> bool {
    forall|k: int| 0 <= k < t.len() ==> 48 <= (#[trigger] t[k]) as u32 <= 57
}

/// The value of a digit run read in base ten.
pub open spec fn spec_digits_value(t: Seq<char>) -> int
    decreases t.len(),
{
    if t.len() == 0 {
        0
    } else {
        spec_digits_value(t.drop_last()) * 10 + (t.last() as u32 - 48)
    }
}

pub proof fn lemma_digits_value_nonneg(t: Seq<char>)
    requires
        spec_all_digits(t),
    ensures
        spec_digits_value(t) >= 0,
    decreases t.len(),
{
    if t.len() > 0 {
        assert(spec_all_digits(t.drop_last()));
        lemma_digits_value_nonneg(t.drop_last());
    }
}

pub proof fn lemma_digits_prefix_le(t: Seq<char>, k: int)
    requires
        spec_all_digits(t),
        0 <= k <= t.len(),
    ensures
        spec_digits_value(t.take(k)) <= spec_digits_value(t),
    decreases t.len() - k,
{
    if k == t.len() {
        assert(t.take(k) =~= t);
    } else {
        assert(t.take(k + 1).drop_last() =~= t.take(k));
        assert(spec_all_digits(t.take(k)));
        lemma_digits_value_nonneg(t.take(k));
        assert(spec_digits_value(t.take(k + 1)) == spec_digits_value(t.take(k)) * 10 + (t[k] as u32
            - 48));
        lemma_digits_prefix_le(t, k + 1);
    }
}

/// The integer a number token stands for, when it is a plain decimal
/// integer in the range of `i32`: an optional minus, then digits only.
/// A fractional or exponent form, or a value out of range, has no
/// integer reading.
pub open spec fn spec_parse_i32(t: Seq<char>) -> Option<int> {
    if t.len() > 0 && t[0] == '-' {
        let d = t.subrange(1, t.len() as int);
        if d.len() > 0 && spec_all_digits(d) && spec_digits_value(d) <= 2147483648 {
            Some(-spec_digits_value(d))
        } else {
            None
        }
    } else if t.len() > 0 && spec_all_digits(t) && spec_digits_value(t) <= 2147483647 {
        Some(spec_digits_value(t))
    } else {
        None
    }
}

/// Reads a number token as an `i32`, exactly when the token has an
/// integer reading in range.
pub fn parse_i32_text(t: &str) -> (r: Option<i32>)
    ensures
        match spec_parse_i32(t@) {
            Some(v) => r matches Some(x) && x as int == v,
            None => r is None,
        },
{
    let n = t.unicode_len();
    if n == 0 {
        return None;
    }
    let neg = t.get_char(0) == '-';
    let start: usize = if neg {
        1
    } else {
        0
    };
    let ghost d = if neg {
        t@.subrange(1, t@.len() as int)
    } else {
        t@
    };
    if start >= n {
        return None;
    }
    let mut acc: u64 = 0;
    let mut k = start;
    while k < n
        invariant
            n == t@.len(),
            start <= k <= n,
            start < n,
            neg ==> t@[0] == '-' && d == t@.subrange(1, t@.len() as int),
            !neg ==> t@[0] != '-' && d == t@,
            d.len() == n - start,
            forall|p: int| 0 <= p < k - start ==> 48 <= (#[trigger] d[p]) as u32 <= 57,
            acc == spec_digits_value(d.take(k - start)),
            acc <= 2147483648,
        decreases n - k,
    {
        let c = t.get_char(k);
        let u = c as u32;
        proof {
            assert(d[k - start] == t@[k as int]);
        }
        if !(48 <= u && u <= 57) {
            proof {
                assert(!spec_all_digits(d));
            }
            return None;
        }
        let next: u64 = acc * 10 + (u - 48) as u64;
        proof {
            assert(d.take(k - start + 1).drop_last() =~= d.take(k - start));
            assert(d.take(k - start + 1).last() == d[k - start]);
        }
        if next > 2147483648 {
            proof {
                if spec_all_digits(d) {
                    lemma_digits_prefix_le(d, k - start + 1);
                }
            }
            return None;
        }
        acc = next;
        k = k + 1;
    }
    proof {
        assert(d.take(n - start) =~= d);
        assert(spec_all_digits(d));
    }
    if neg {
        let v: i64 = -(acc as i64);
        Some(v as i32)
    } else {
        if acc > 2147483647 {
            return None;
        }
        Some(acc as i32)
    }
}

/// Whether two texts hold the same characters.
pub fn str_eq(a: &str, b: &str) -> (r: bool)
    ensures
        r == (a@ == b@),
{
    let na = a.unicode_len();
    let nb = b.unicode_len();
    if na != nb {
        proof {
            assert(a@.len() != b@.len());
        }
        return false;
    }
    let mut k: usize = 0;
    while k < na
        invariant
            na == a@.len(),
            na == b@.len(),
            k <= na,
            forall|p: int| 0 <= p < k ==> a@[p] == b@[p],
        decreases na - k,
    {
        if a.get_char(k) != b.get_char(k) {
            return false;
        }
        k = k + 1;
    }
    proof {
        assert(a@ =~= b@);
    }
    true
}

} // verus!
