//! Text helpers shared by the patterns: comparison, reversal, decimal
//! numbers, and splitting and reading words.
use vstd::prelude::*;
use vstd::string::StringExecFns;

verus! {

/// Compares two strings character by character.
pub fn str_eq(a: &str, b: &str) -> (r: bool)
    ensures
        r == (a@ == b@),
{
    let n = a.unicode_len();
    if n != b.unicode_len() {
        return false;
    }
    let mut i: usize = 0;
    while i < n
        invariant
            n == a@.len(),
            n == b@.len(),
            i <= n,
            a@.subrange(0, i as int) == b@.subrange(0, i as int),
        decreases n - i,
    {
        if a.get_char(i) != b.get_char(i) {
            return false;
        }
        assert(a@.subrange(0, i + 1) == a@.subrange(0, i as int).push(a@[i as int]));
        assert(b@.subrange(0, i + 1) == b@.subrange(0, i as int).push(b@[i as int]));
        i = i + 1;
    }
    assert(a@ == a@.subrange(0, n as int));
    assert(b@ == b@.subrange(0, n as int));
    true
}

/// The characters of `s` in reverse order.
pub fn reversed(s: &str) -> (r: String)
    ensures
        r@ == s@.reverse(),
{
    let n = s.unicode_len();
    let mut out = String::new();
    let mut i: usize = n;
    while i > 0
        invariant
            n == s@.len(),
            i <= n,
            out@.len() == n - i,
            forall|k: int| 0 <= k < n - i ==> out@[k] == s@[n - 1 - k],
        decreases i,
    {
        let c = s.substring_char(i - 1, i);
        out.append(c);
        i = i - 1;
    }
    assert(out@ =~= s@.reverse());
    out
}

pub open spec fn digit_char(d: nat) -> char {
    if d == 0 {
        '0'
    } else if d == 1 {
        '1'
    } else if d == 2 {
        '2'
    } else if d == 3 {
        '3'
    } else if d == 4 {
        '4'
    } else if d == 5 {
        '5'
    } else if d == 6 {
        '6'
    } else if d == 7 {
        '7'
    } else if d == 8 {
        '8'
    } else {
        '9'
    }
}

/// The decimal digits of `n`, most significant first, without leading zeros.
pub open spec fn decimal(n: nat) -> Seq<char>
    decreases n,
{
    if n < 10 {
        seq![digit_char(n)]
    } else {
        decimal(n / 10).push(digit_char(n % 10))
    }
}

fn digit_str(d: u64) -> (r: &'static str)
    requires
        d < 10,
    ensures
        r@ == seq![digit_char(d as nat)],
{
    proof {
        reveal_strlit("0");
        reveal_strlit("1");
        reveal_strlit("2");
        reveal_strlit("3");
        reveal_strlit("4");
        reveal_strlit("5");
        reveal_strlit("6");
        reveal_strlit("7");
        reveal_strlit("8");
        reveal_strlit("9");
    }
    if d == 0 {
        "0"
    } else if d == 1 {
        "1"
    } else if d == 2 {
        "2"
    } else if d == 3 {
        "3"
    } else if d == 4 {
        "4"
    } else if d == 5 {
        "5"
    } else if d == 6 {
        "6"
    } else if d == 7 {
        "7"
    } else if d == 8 {
        "8"
    } else {
        proof {
            assert(seq!['9'] =~= "9"@);
        }
        "9"
    }
}

/// `n` written in decimal.
pub fn decimal_string(n: u64) -> (r: String)
    ensures
        r@ == decimal(n as nat),
    decreases n,
{
    if n < 10 {
        digit_str(n).to_string()
    } else {
        let mut s = decimal_string(n / 10);
        s.append(digit_str(n % 10));
        s
    }
}

/// A quantity given in tenths, written in decimal with its tenths when there are any.
pub open spec fn tenths(n: nat) -> Seq<char> {
    if n % 10 == 0 {
        decimal(n / 10)
    } else {
        decimal(n / 10).push('.').push(digit_char(n % 10))
    }
}

/// `n` tenths, written as `tenths` says.
pub fn tenths_string(n: u64) -> (r: String)
    ensures
        r@ == tenths(n as nat),
{
    let mut s = decimal_string(n / 10);
    if n % 10 != 0 {
        proof {
            reveal_strlit(".");
        }
        s.append(".");
        s.append(digit_str(n % 10));
    }
    s
}

/// The whitespace that separates words: space, tab, line feed, form feed and
/// carriage return.
pub open spec fn is_ascii_space(c: char) -> bool {
    c == ' ' || c == '\t' || c == '\n' || c == '\x0C' || c == '\r'
}

/// The maximal runs of characters of `s` that hold no whitespace, in order.
pub open spec fn words(s: Seq<char>) -> Seq<Seq<char>>
    decreases s.len(),
{
    if s.len() == 0 {
        Seq::empty()
    } else {
        let w = words(s.drop_last());
        let c = s.last();
        if is_ascii_space(c) {
            w
        } else if s.len() >= 2 && !is_ascii_space(s[s.len() - 2]) {
            w.drop_last().push(w.last().push(c))
        } else {
            w.push(seq![c])
        }
    }
}

/// The texts of a list of character vectors.
pub open spec fn char_texts(v: Seq<Vec<char>>) -> Seq<Seq<char>> {
    v.map_values(|w: Vec<char>| w@)
}

proof fn lemma_words_nonempty_end(s: Seq<char>)
    requires
        s.len() > 0,
        !is_ascii_space(s.last()),
    ensures
        words(s).len() > 0,
{
}

/// Splits `s` into its words, as `str::split_ascii_whitespace` does.
pub fn split_words(s: &str) -> (r: Vec<Vec<char>>)
    ensures
        char_texts(r@) == words(s@),
{
    let n = s.unicode_len();
    let mut out: Vec<Vec<char>> = Vec::new();
    let mut i: usize = 0;
    let mut prev_space = true;
    while i < n
        invariant
            n == s@.len(),
            i <= n,
            char_texts(out@) == words(s@.subrange(0, i as int)),
            prev_space == (i == 0 || is_ascii_space(s@[i - 1])),
        decreases n - i,
    {
        let c = s.get_char(i);
        let ghost pre = s@.subrange(0, i as int);
        let ghost cur = s@.subrange(0, i + 1);
        assert(cur.drop_last() =~= pre);
        let space = c == ' ' || c == '\t' || c == '\n' || c == '\x0C' || c == '\r';
        if !space {
            if prev_space {
                let mut w: Vec<char> = Vec::new();
                w.push(c);
                out.push(w);
                assert(char_texts(out@) =~= words(cur));
            } else {
                proof {
                    lemma_words_nonempty_end(pre);
                }
                let mut w = out.pop().unwrap();
                w.push(c);
                out.push(w);
                assert(char_texts(out@) =~= words(cur));
            }
        }
        prev_space = space;
        i = i + 1;
    }
    assert(s@.subrange(0, n as int) =~= s@);
    out
}

pub open spec fn is_digit(c: char) -> bool {
    '0' <= c && c <= '9'
}

pub open spec fn all_digits(d: Seq<char>) -> bool {
    forall|i: int| 0 <= i < d.len() ==> is_digit(#[trigger] d[i])
}

/// The value of a run of decimal digits.
pub open spec fn digits_value(d: Seq<char>) -> int
    decreases d.len(),
{
    if d.len() == 0 {
        0
    } else {
        digits_value(d.drop_last()) * 10 + (d.last() as int - '0' as int)
    }
}

/// The integer a word spells: an optional sign, then one or more decimal digits.
pub open spec fn int_of(w: Seq<char>) -> Option<int> {
    if w.len() > 0 && (w[0] == '-' || w[0] == '+') {
        let d = w.drop_first();
        if d.len() > 0 && all_digits(d) {
            Some(
                if w[0] == '-' {
                    -digits_value(d)
                } else {
                    digits_value(d)
                },
            )
        } else {
            None
        }
    } else if w.len() > 0 && all_digits(w) {
        Some(digits_value(w))
    } else {
        None
    }
}

/// The `i32` a word spells, if it spells one that fits.
pub open spec fn i32_of(w: Seq<char>) -> Option<i32> {
    match int_of(w) {
        Some(v) => if i32::MIN <= v <= i32::MAX {
            Some(v as i32)
        } else {
            None
        },
        None => None,
    }
}

proof fn lemma_digits_value_grows(d: Seq<char>, k: int)
    requires
        0 <= k <= d.len(),
        all_digits(d),
    ensures
        0 <= digits_value(d.subrange(0, k)) <= digits_value(d),
    decreases d.len() - k,
{
    if k < d.len() {
        let a = d.subrange(0, k);
        let b = d.subrange(0, k + 1);
        assert(b.drop_last() =~= a);
        assert(is_digit(d[k]));
        lemma_digits_value_grows(d, k + 1);
    } else {
        assert(d.subrange(0, k) =~= d);
        lemma_digits_value_nonneg(d);
    }
}

proof fn lemma_digits_value_nonneg(d: Seq<char>)
    requires
        all_digits(d),
    ensures
        digits_value(d) >= 0,
    decreases d.len(),
{
    if d.len() > 0 {
        assert(is_digit(d[d.len() - 1]));
        lemma_digits_value_nonneg(d.drop_last());
    }
}

/// Reads an `i32` from a word, as `str::parse::<i32>` does.
pub fn parse_i32(w: &Vec<char>) -> (r: Option<i32>)
    ensures
        r == i32_of(w@),
{
    let n = w.len();
    if n == 0 {
        return None;
    }
    let negative = w[0] == '-';
    let start: usize = if w[0] == '-' || w[0] == '+' {
        1
    } else {
        0
    };
    if start == n {
        return None;
    }
    let ghost d = w@.subrange(start as int, n as int);
    assert(start == 1 ==> d =~= w@.drop_first());
    assert(start == 0 ==> d =~= w@);
    let mut acc: i64 = 0;
    let mut i: usize = start;
    while i < n
        invariant
            n == w@.len(),
            n > 0,
            start < n,
            (start == 1) == (w@[0] == '-' || w@[0] == '+'),
            start <= 1,
            negative == (w@[0] == '-'),
            start == 1 ==> d == w@.drop_first(),
            start == 0 ==> d == w@,
            start <= i <= n,
            d == w@.subrange(start as int, n as int),
            all_digits(w@.subrange(start as int, i as int)),
            acc == digits_value(w@.subrange(start as int, i as int)),
            0 <= acc <= 2147483648,
        decreases n - i,
    {
        let c = w[i];
        if !('0' <= c && c <= '9') {
            assert(!all_digits(d)) by {
                assert(d[i - start] == c);
            }
            return None;
        }
        let ghost pre = w@.subrange(start as int, i as int);
        let ghost cur = w@.subrange(start as int, i + 1);
        assert(cur.drop_last() =~= pre);
        assert(all_digits(cur)) by {
            assert forall|j: int| 0 <= j < cur.len() implies is_digit(#[trigger] cur[j]) by {
                if j < pre.len() {
                    assert(cur[j] == pre[j]);
                }
            }
        }
        let digit = (c as u32 - '0' as u32) as i64;
        acc = acc * 10 + digit;
        i = i + 1;
        if acc > 2147483648 {
            proof {
                if all_digits(d) {
                    assert(cur =~= d.subrange(0, (i - start) as int));
                    lemma_digits_value_grows(d, (i - start) as int);
                }
            }
            return None;
        }
    }
    assert(w@.subrange(start as int, n as int) =~= d);
    if negative {
        Some((-acc) as i32)
    } else if acc <= 2147483647 {
        Some(acc as i32)
    } else {
        None
    }
}

} // verus!
