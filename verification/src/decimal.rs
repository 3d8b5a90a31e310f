//! Decimal rendering and reading of unsigned integers, the base of the
//! identity-mapping line format.

use vstd::prelude::*;

verus! {

/// The character for one decimal digit value.
pub open spec fn digit_char(d: int) -> char {
    if d == 0 {
        '0'
    } else if d == 1 {
        '1'
    } else if d == 2 {
        '2'
    } else if d == 3 {
        '3'
    } else if d == 4 {
        '4'
    } else if d == 5 {
        '5'
    } else if d == 6 {
        '6'
    } else if d == 7 {
        '7'
    } else if d == 8 {
        '8'
    } else {
        '9'
    }
}

/// The value of one decimal digit character, or -1 for any other character.
pub open spec fn digit_value(c: char) -> int {
    if c == '0' {
        0
    } else if c == '1' {
        1
    } else if c == '2' {
        2
    } else if c == '3' {
        3
    } else if c == '4' {
        4
    } else if c == '5' {
        5
    } else if c == '6' {
        6
    } else if c == '7' {
        7
    } else if c == '8' {
        8
    } else if c == '9' {
        9
    } else {
        -1
    }
}

pub open spec fn is_decimal_digit(c: char) -> bool {
    digit_value(c) >= 0
}

pub open spec fn all_decimal_digits(s: Seq<char>) -> bool {
    forall|i: int| 0 <= i < s.len() ==> is_decimal_digit(#[trigger] s[i])
}

/// The canonical decimal rendering of a nonnegative integer: no sign, no
/// leading zero except for the number zero itself.
pub open spec fn decimal_rep(n: nat) -> Seq<char>
    decreases n,
{
    if n < 10 {
        seq![digit_char(n as int)]
    } else {
        decimal_rep(n / 10).push(digit_char((n % 10) as int))
    }
}

/// The number a digit sequence denotes, most significant digit first.
pub open spec fn decimal_value(s: Seq<char>) -> int
    decreases s.len(),
{
    if s.len() == 0 {
        0
    } else {
        decimal_value(s.drop_last()) * 10 + digit_value(s.last())
    }
}

pub proof fn lemma_decimal_rep_digits(n: nat)
    ensures
        decimal_rep(n).len() >= 1,
        all_decimal_digits(decimal_rep(n)),
    decreases n,
{
    if n >= 10 {
        lemma_decimal_rep_digits(n / 10);
        assert forall|i: int| 0 <= i < decimal_rep(n).len() implies is_decimal_digit(
            #[trigger] decimal_rep(n)[i],
        ) by {
            if i < decimal_rep(n / 10).len() {
                assert(decimal_rep(n)[i] == decimal_rep(n / 10)[i]);
            }
        }
    }
}

/// Reading back the canonical rendering yields the number itself.
pub proof fn lemma_decimal_value_of_rep(n: nat)
    ensures
        decimal_value(decimal_rep(n)) == n,
    decreases n,
{
    if n < 10 {
        reveal_with_fuel(decimal_value, 2);
        assert(decimal_rep(n).drop_last() =~= Seq::<char>::empty());
        assert(decimal_rep(n).last() == digit_char(n as int));
        assert(digit_value(digit_char(n as int)) == n);
    } else {
        lemma_decimal_value_of_rep(n / 10);
        assert(decimal_rep(n).drop_last() =~= decimal_rep(n / 10));
        assert(decimal_rep(n).last() == digit_char((n % 10) as int));
        assert(digit_value(digit_char((n % 10) as int)) == n % 10);
        assert(decimal_value(decimal_rep(n)) == (n / 10) * 10 + n % 10);
        vstd::arithmetic::div_mod::lemma_fundamental_div_mod(n as int, 10);
    }
}

pub proof fn lemma_decimal_value_nonneg(s: Seq<char>)
    requires
        all_decimal_digits(s),
    ensures
        decimal_value(s) >= 0,
    decreases s.len(),
{
    if s.len() > 0 {
        assert(all_decimal_digits(s.drop_last())) by {
            assert(forall|i: int|
                0 <= i < s.drop_last().len() ==> s.drop_last()[i] == #[trigger] s[i]);
        }
        lemma_decimal_value_nonneg(s.drop_last());
    }
}

/// Extending a digit sequence never shrinks its value: the value of any
/// prefix bounds the value of the whole from below.
pub proof fn lemma_decimal_value_prefix_le(s: Seq<char>, j: int)
    requires
        all_decimal_digits(s),
        0 <= j <= s.len(),
    ensures
        decimal_value(s.subrange(0, j)) <= decimal_value(s),
    decreases s.len() - j,
{
    if j == s.len() {
        assert(s.subrange(0, j) =~= s);
    } else {
        lemma_decimal_value_prefix_le(s, j + 1);
        let p = s.subrange(0, j);
        let q = s.subrange(0, j + 1);
        assert(q.drop_last() =~= p);
        assert(all_decimal_digits(p)) by {
            assert(forall|i: int| 0 <= i < p.len() ==> p[i] == #[trigger] s[i]);
        }
        lemma_decimal_value_nonneg(p);
        assert(q.last() == s[j]);
        assert(decimal_value(q) == decimal_value(p) * 10 + digit_value(s[j]));
        assert(decimal_value(p) * 10 >= decimal_value(p));
    }
}

/// One decimal digit as a one-character string.
fn digit_string(d: u32) -> (s: String)
    requires
        d < 10,
    ensures
        s@ =~= seq![digit_char(d as int)],
{
    if d == 0 {
        proof {
            reveal_strlit("0");
        }
        String::from_str("0")
    } else if d == 1 {
        proof {
            reveal_strlit("1");
        }
        String::from_str("1")
    } else if d == 2 {
        proof {
            reveal_strlit("2");
        }
        String::from_str("2")
    } else if d == 3 {
        proof {
            reveal_strlit("3");
        }
        String::from_str("3")
    } else if d == 4 {
        proof {
            reveal_strlit("4");
        }
        String::from_str("4")
    } else if d == 5 {
        proof {
            reveal_strlit("5");
        }
        String::from_str("5")
    } else if d == 6 {
        proof {
            reveal_strlit("6");
        }
        String::from_str("6")
    } else if d == 7 {
        proof {
            reveal_strlit("7");
        }
        String::from_str("7")
    } else if d == 8 {
        proof {
            reveal_strlit("8");
        }
        String::from_str("8")
    } else {
        proof {
            reveal_strlit("9");
        }
        String::from_str("9")
    }
}

/// The whitespace characters that separate fields of a mapping line.
pub open spec fn is_space(c: char) -> bool {
    c == ' ' || c == '\t' || c == '\n' || c == '\r'
}

/// First position at or after `i` that does not hold whitespace.
pub open spec fn skip_spaces(s: Seq<char>, i: int) -> int
    decreases s.len() - i,
{
    if 0 <= i < s.len() && is_space(s[i]) {
        skip_spaces(s, i + 1)
    } else {
        i
    }
}

/// First position at or after `i` that ends the current run of
/// non-whitespace characters.
pub open spec fn token_end(s: Seq<char>, i: int) -> int
    decreases s.len() - i,
{
    if 0 <= i < s.len() && !is_space(s[i]) {
        token_end(s, i + 1)
    } else {
        i
    }
}

pub proof fn lemma_skip_spaces_bounds(s: Seq<char>, i: int)
    requires
        0 <= i <= s.len(),
    ensures
        i <= skip_spaces(s, i) <= s.len(),
    decreases s.len() - i,
{
    if i < s.len() && is_space(s[i]) {
        lemma_skip_spaces_bounds(s, i + 1);
    }
}

pub proof fn lemma_token_end_bounds(s: Seq<char>, i: int)
    requires
        0 <= i <= s.len(),
    ensures
        i <= token_end(s, i) <= s.len(),
    decreases s.len() - i,
{
    if i < s.len() && !is_space(s[i]) {
        lemma_token_end_bounds(s, i + 1);
    }
}

/// A run of whitespace from `i` up to a non-whitespace boundary `j` is
/// skipped exactly to `j`.
pub proof fn lemma_skip_spaces_segment(s: Seq<char>, i: int, j: int)
    requires
        0 <= i <= j <= s.len(),
        forall|k: int| i <= k < j ==> is_space(#[trigger] s[k]),
        j == s.len() || !is_space(s[j]),
    ensures
        skip_spaces(s, i) == j,
    decreases j - i,
{
    if i < j {
        lemma_skip_spaces_segment(s, i + 1, j);
    }
}

/// A run of non-whitespace from `i` up to a whitespace boundary `j` is a
/// token ending exactly at `j`.
pub proof fn lemma_token_end_segment(s: Seq<char>, i: int, j: int)
    requires
        0 <= i <= j <= s.len(),
        forall|k: int| i <= k < j ==> !is_space(#[trigger] s[k]),
        j == s.len() || is_space(s[j]),
    ensures
        token_end(s, i) == j,
    decreases j - i,
{
    if i < j {
        lemma_token_end_segment(s, i + 1, j);
    }
}

/// First position at or after `i` that ends the current line: the next
/// newline, or the end of the text.
pub open spec fn line_end(s: Seq<char>, i: int) -> int
    decreases s.len() - i,
{
    if 0 <= i < s.len() && s[i] != '\n' {
        line_end(s, i + 1)
    } else {
        i
    }
}

pub proof fn lemma_line_end_bounds(s: Seq<char>, i: int)
    requires
        0 <= i <= s.len(),
    ensures
        i <= line_end(s, i) <= s.len(),
    decreases s.len() - i,
{
    if i < s.len() && s[i] != '\n' {
        lemma_line_end_bounds(s, i + 1);
    }
}

/// Advances to the end of the current line.
pub fn find_line_end(s: &str, from: usize) -> (r: usize)
    requires
        from as int <= s@.len(),
    ensures
        from <= r,
        r as int == line_end(s@, from as int),
        r as int <= s@.len(),
{
    let n = s.unicode_len();
    let mut i = from;
    loop
        invariant
            from <= i <= n,
            n == s@.len(),
            line_end(s@, from as int) == line_end(s@, i as int),
        ensures
            from <= i <= n,
            i as int == line_end(s@, from as int),
        decreases n - i,
    {
        if i >= n {
            break ;
        }
        let c = s.get_char(i);
        if c == '\n' {
            break ;
        }
        i = i + 1;
    }
    i
}

/// Whether the whitespace-delimited token starting at `i` is a decimal
/// number that fits in a `u32`.
pub open spec fn number_token_ok(s: Seq<char>, i: int) -> bool {
    let t = s.subrange(i, token_end(s, i));
    t.len() > 0 && all_decimal_digits(t) && decimal_value(t) <= u32::MAX
}

/// The value of the whitespace-delimited token starting at `i`.
pub open spec fn token_value(s: Seq<char>, i: int) -> int {
    decimal_value(s.subrange(i, token_end(s, i)))
}

/// Reading of a line holding three whitespace-separated decimal numbers.
/// Anything after the third token is ignored, as a reader that takes the
/// first three whitespace-split fields would do.
pub open spec fn parse_three_numbers(s: Seq<char>) -> Option<(u32, u32, u32)> {
    let i1 = skip_spaces(s, 0);
    let i2 = skip_spaces(s, token_end(s, i1));
    let i3 = skip_spaces(s, token_end(s, i2));
    if number_token_ok(s, i1) && number_token_ok(s, i2) && number_token_ok(s, i3) {
        Some(
            (
                token_value(s, i1) as u32,
                token_value(s, i2) as u32,
                token_value(s, i3) as u32,
            ),
        )
    } else {
        None
    }
}

fn is_space_char(c: char) -> (r: bool)
    ensures
        r == is_space(c),
{
    c == ' ' || c == '\t' || c == '\n' || c == '\r'
}

fn digit_of(c: char) -> (r: Option<u32>)
    ensures
        r is Some <==> is_decimal_digit(c),
        r matches Some(d) ==> d as int == digit_value(c),
{
    if c == '0' {
        Some(0)
    } else if c == '1' {
        Some(1)
    } else if c == '2' {
        Some(2)
    } else if c == '3' {
        Some(3)
    } else if c == '4' {
        Some(4)
    } else if c == '5' {
        Some(5)
    } else if c == '6' {
        Some(6)
    } else if c == '7' {
        Some(7)
    } else if c == '8' {
        Some(8)
    } else if c == '9' {
        Some(9)
    } else {
        None
    }
}

/// Advances over whitespace.
pub fn skip_spaces_from(s: &str, from: usize) -> (r: usize)
    requires
        from as int <= s@.len(),
    ensures
        from <= r,
        r as int == skip_spaces(s@, from as int),
        r as int <= s@.len(),
{
    let n = s.unicode_len();
    let mut i = from;
    loop
        invariant
            from <= i <= n,
            n == s@.len(),
            skip_spaces(s@, from as int) == skip_spaces(s@, i as int),
        ensures
            from <= i <= n,
            i as int == skip_spaces(s@, from as int),
        decreases n - i,
    {
        if i >= n {
            break ;
        }
        let c = s.get_char(i);
        if !is_space_char(c) {
            break ;
        }
        i = i + 1;
    }
    i
}

/// Reads the whitespace-delimited token starting at `from` as a decimal
/// number, returning its value and the position one past the token, or
/// nothing when the token is empty, holds a non-digit, or does not fit.
pub fn scan_number(s: &str, from: usize) -> (r: Option<(u32, usize)>)
    requires
        from as int <= s@.len(),
    ensures
        ({
            let e = token_end(s@, from as int);
            let t = s@.subrange(from as int, e);
            match r {
                Some(p) => p.1 as int == e && p.1 as int <= s@.len() && t.len() > 0
                    && all_decimal_digits(t) && decimal_value(t) == p.0 as int,
                None => t.len() == 0 || !all_decimal_digits(t) || decimal_value(t) > u32::MAX,
            }
        }),
{
    let n = s.unicode_len();
    proof {
        lemma_token_end_bounds(s@, from as int);
    }
    let mut i = from;
    let mut val: u64 = 0;
    loop
        invariant
            from <= i <= n,
            n == s@.len(),
            token_end(s@, from as int) == token_end(s@, i as int),
            all_decimal_digits(s@.subrange(from as int, i as int)),
            decimal_value(s@.subrange(from as int, i as int)) == val as int,
            val <= u32::MAX as u64,
        ensures
            from <= i <= n,
            i as int == token_end(s@, from as int),
            all_decimal_digits(s@.subrange(from as int, i as int)),
            decimal_value(s@.subrange(from as int, i as int)) == val as int,
            val <= u32::MAX as u64,
        decreases n - i,
    {
        if i >= n {
            break ;
        }
        let c = s.get_char(i);
        if is_space_char(c) {
            break ;
        }
        let ghost e = token_end(s@, from as int);
        let ghost t = s@.subrange(from as int, e);
        proof {
            // The token reaches past the current character.
            assert(token_end(s@, i as int) == token_end(s@, i as int + 1));
            lemma_token_end_bounds(s@, i as int + 1);
            assert(t[i - from] == s@[i as int]);
        }
        match digit_of(c) {
            None => {
                proof {
                    assert(!all_decimal_digits(t));
                }
                return None;
            },
            Some(d) => {
                let next: u64 = val * 10 + d as u64;
                let ghost p = s@.subrange(from as int, i as int + 1);
                proof {
                    assert(p.drop_last() =~= s@.subrange(from as int, i as int));
                    assert(p.last() == s@[i as int]);
                    assert(all_decimal_digits(p)) by {
                        assert(forall|k: int|
                            0 <= k < p.len() - 1 ==> p[k] == #[trigger] s@.subrange(
                                from as int,
                                i as int,
                            )[k]);
                    }
                    assert(decimal_value(p) == next as int);
                }
                if next > u32::MAX as u64 {
                    proof {
                        if all_decimal_digits(t) {
                            assert(p =~= t.subrange(0, i as int + 1 - from));
                            lemma_decimal_value_prefix_le(t, i as int + 1 - from);
                        }
                    }
                    return None;
                }
                val = next;
                i = i + 1;
            },
        }
    }
    if i == from {
        proof {
            assert(s@.subrange(from as int, from as int).len() == 0);
        }
        return None;
    }
    Some((val as u32, i))
}

/// Reads three whitespace-separated decimal numbers from a line.
pub fn parse_numbers_line(s: &str) -> (r: Option<(u32, u32, u32)>)
    ensures
        r == parse_three_numbers(s@),
{
    proof {
        lemma_skip_spaces_bounds(s@, 0);
    }
    let i1 = skip_spaces_from(s, 0);
    match scan_number(s, i1) {
        None => None,
        Some((v1, e1)) => {
            proof {
                lemma_skip_spaces_bounds(s@, e1 as int);
            }
            let i2 = skip_spaces_from(s, e1);
            match scan_number(s, i2) {
                None => None,
                Some((v2, e2)) => {
                    proof {
                        lemma_skip_spaces_bounds(s@, e2 as int);
                    }
                    let i3 = skip_spaces_from(s, e2);
                    match scan_number(s, i3) {
                        None => None,
                        Some((v3, _e3)) => Some((v1, v2, v3)),
                    }
                },
            }
        },
    }
}

/// Renders a number in canonical decimal.
pub fn format_u32(n: u32) -> (s: String)
    ensures
        s@ == decimal_rep(n as nat),
    decreases n,
{
    if n < 10 {
        let s = digit_string(n);
        proof {
            assert(s@ =~= decimal_rep(n as nat));
        }
        s
    } else {
        let mut s = format_u32(n / 10);
        let d = digit_string(n % 10);
        s.append(d.as_str());
        proof {
            assert(s@ =~= decimal_rep(n as nat));
        }
        s
    }
}

} // verus!
