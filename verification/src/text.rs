//! Text helpers with the semantics of the corresponding `str` methods:
//! whitespace trimming, splitting, case-insensitive ASCII comparison and
//! decimal/hexadecimal number parsing.
use vstd::prelude::*;
use vstd::string::StrSliceExecFns;
use vstd::string::StringExecFns;

verus! {

/// Unicode `White_Space`, the set that `char::is_whitespace` tests.
pub open spec fn is_ws(c: char) -> bool {
    let u = c as u32;
    (0x09 <= u <= 0x0d) || u == 0x20 || u == 0x85 || u == 0xa0 || u == 0x1680 || (0x2000 <= u
        <= 0x200a) || u == 0x2028 || u == 0x2029 || u == 0x202f || u == 0x205f || u == 0x3000
}

/// `s` without its leading whitespace.
pub open spec fn trim_start_spec(s: Seq<char>) -> Seq<char>
    decreases s.len(),
{
    if s.len() > 0 && is_ws(s[0]) {
        trim_start_spec(s.drop_first())
    } else {
        s
    }
}

/// `s` without its trailing whitespace.
pub open spec fn trim_end_spec(s: Seq<char>) -> Seq<char>
    decreases s.len(),
{
    if s.len() > 0 && is_ws(s.last()) {
        trim_end_spec(s.drop_last())
    } else {
        s
    }
}

/// `s` without leading and trailing whitespace, as `str::trim` gives it.
pub open spec fn trim_spec(s: Seq<char>) -> Seq<char> {
    trim_end_spec(trim_start_spec(s))
}

/// Pieces of `s[start..]` cut at every `sep`, scanning from `i`.
pub open spec fn split_acc(s: Seq<char>, sep: char, start: int, i: int) -> Seq<Seq<char>>
    decreases s.len() - i,
{
    if i < 0 || i >= s.len() {
        seq![s.subrange(start, s.len() as int)]
    } else if s[i] == sep {
        seq![s.subrange(start, i)] + split_acc(s, sep, i + 1, i + 1)
    } else {
        split_acc(s, sep, start, i + 1)
    }
}

/// The pieces of `s` between occurrences of `sep`, as `str::split` gives them.
pub open spec fn split_spec(s: Seq<char>, sep: char) -> Seq<Seq<char>> {
    split_acc(s, sep, 0, 0)
}

/// ASCII lower-case of a character; other characters are unchanged.
pub open spec fn ascii_lower(c: char) -> char {
    if 'A' <= c <= 'Z' {
        ((c as u32) + 32) as char
    } else {
        c
    }
}

/// Equality up to ASCII case, as `str::eq_ignore_ascii_case` tests it.
pub open spec fn eq_ignore_ascii_case_spec(a: Seq<char>, b: Seq<char>) -> bool {
    a.len() == b.len() && forall|i: int| 0 <= i < a.len() ==> ascii_lower(a[i]) == ascii_lower(b[i])
}

/// Whether `s` begins with `prefix`.
pub open spec fn starts_with_spec(s: Seq<char>, prefix: Seq<char>) -> bool {
    prefix.len() <= s.len() && s.subrange(0, prefix.len() as int) == prefix
}

/// Value of an ASCII decimal digit.
pub open spec fn digit_value(c: char) -> int {
    (c as u32) - ('0' as u32)
}

/// `c` is an ASCII decimal digit.
pub open spec fn is_digit(c: char) -> bool {
    '0' <= c <= '9'
}

/// Every character of `s` is an ASCII decimal digit.
pub open spec fn all_digits(s: Seq<char>) -> bool {
    forall|i: int| 0 <= i < s.len() ==> is_digit(#[trigger] s[i])
}

/// Value of a string of decimal digits.
pub open spec fn decimal_value(s: Seq<char>) -> int
    decreases s.len(),
{
    if s.len() == 0 {
        0
    } else {
        decimal_value(s.drop_last()) * 10 + digit_value(s.last())
    }
}

/// Result of parsing `s` as an unsigned decimal integer of at most `max`,
/// as `str::parse` gives it for Rust's unsigned types: an optional `+`,
/// then at least one digit and nothing else.
pub open spec fn parse_unsigned_spec(s: Seq<char>, max: int) -> Option<int> {
    let digits = if s.len() > 0 && s[0] == '+' {
        s.drop_first()
    } else {
        s
    };
    if digits.len() > 0 && all_digits(digits) && decimal_value(digits) <= max {
        Some(decimal_value(digits))
    } else {
        None
    }
}

/// Pieces of `s[start..]` cut at every whitespace character, scanning from `i`.
pub open spec fn split_ws_acc(s: Seq<char>, start: int, i: int) -> Seq<Seq<char>>
    decreases s.len() - i,
{
    if i < 0 || i >= s.len() {
        seq![s.subrange(start, s.len() as int)]
    } else if is_ws(s[i]) {
        seq![s.subrange(start, i)] + split_ws_acc(s, i + 1, i + 1)
    } else {
        split_ws_acc(s, start, i + 1)
    }
}

/// The non-empty pieces of a list, in order.
pub open spec fn non_empty_pieces(ps: Seq<Seq<char>>) -> Seq<Seq<char>>
    decreases ps.len(),
{
    if ps.len() == 0 {
        seq![]
    } else if ps[0].len() > 0 {
        seq![ps[0]] + non_empty_pieces(ps.drop_first())
    } else {
        non_empty_pieces(ps.drop_first())
    }
}

/// The whitespace-separated words of `s`, as `str::split_whitespace` gives
/// them: the non-empty pieces between whitespace characters.
pub open spec fn words_spec(s: Seq<char>) -> Seq<Seq<char>> {
    non_empty_pieces(split_ws_acc(s, 0, 0))
}

/// Whether `c` is whitespace.
pub fn char_is_ws(c: char) -> (r: bool)
    ensures
        r == is_ws(c),
{
    let u = c as u32;
    (0x09 <= u && u <= 0x0d) || u == 0x20 || u == 0x85 || u == 0xa0 || u == 0x1680 || (0x2000 <= u
        && u <= 0x200a) || u == 0x2028 || u == 0x2029 || u == 0x202f || u == 0x205f || u == 0x3000
}

/// The characters of `s`.
pub fn chars_of(s: &str) -> (r: Vec<char>)
    ensures
        r@ == s@,
{
    let n = s.unicode_len();
    let mut out: Vec<char> = Vec::new();
    let mut i: usize = 0;
    while i < n
        invariant
            n == s@.len(),
            i <= n,
            out@ == s@.subrange(0, i as int),
        decreases n - i,
    {
        out.push(s.get_char(i));
        i = i + 1;
        assert(out@ =~= s@.subrange(0, i as int));
    }
    assert(out@ =~= s@);
    out
}

/// The characters `cs[from..to]` as a string.
pub fn string_of(s: &str, from: usize, to: usize) -> (r: String)
    requires
        from <= to <= s@.len(),
    ensures
        r@ == s@.subrange(from as int, to as int),
{
    s.substring_char(from, to).to_owned()
}

proof fn lemma_trim_start_step(s: Seq<char>, i: int)
    requires
        0 <= i < s.len(),
        is_ws(s[i]),
    ensures
        trim_start_spec(s.subrange(i, s.len() as int)) == trim_start_spec(
            s.subrange(i + 1, s.len() as int),
        ),
{
    assert(s.subrange(i, s.len() as int).drop_first() =~= s.subrange(i + 1, s.len() as int));
}

proof fn lemma_trim_end_step(s: Seq<char>, i: int, j: int)
    requires
        0 <= i < j <= s.len(),
        is_ws(s[j - 1]),
    ensures
        trim_end_spec(s.subrange(i, j)) == trim_end_spec(s.subrange(i, j - 1)),
{
    assert(s.subrange(i, j).drop_last() =~= s.subrange(i, j - 1));
}

/// `s` without leading and trailing whitespace.
pub fn trim(s: &str) -> (r: String)
    ensures
        r@ == trim_spec(s@),
{
    let cs = chars_of(s);
    let n = cs.len();
    let mut i: usize = 0;
    proof {
        assert(s@.subrange(0, n as int) =~= s@);
    }
    while i < n && char_is_ws(cs[i])
        invariant
            n == s@.len(),
            cs@ == s@,
            i <= n,
            trim_start_spec(s@) == trim_start_spec(s@.subrange(i as int, n as int)),
        decreases n - i,
    {
        proof {
            lemma_trim_start_step(s@, i as int);
        }
        i = i + 1;
    }
    assert(trim_start_spec(s@.subrange(i as int, n as int)) == s@.subrange(i as int, n as int));
    let mut j: usize = n;
    while j > i && char_is_ws(cs[j - 1])
        invariant
            n == s@.len(),
            cs@ == s@,
            i <= j <= n,
            trim_end_spec(s@.subrange(i as int, n as int)) == trim_end_spec(
                s@.subrange(i as int, j as int),
            ),
        decreases j,
    {
        proof {
            lemma_trim_end_step(s@, i as int, j as int);
        }
        j = j - 1;
    }
    assert(trim_end_spec(s@.subrange(i as int, j as int)) == s@.subrange(i as int, j as int));
    string_of(s, i, j)
}

/// Whether `s` contains the character `c`.
pub fn contains_char(s: &str, c: char) -> (r: bool)
    ensures
        r == s@.contains(c),
{
    let n = s.unicode_len();
    let mut i: usize = 0;
    while i < n
        invariant
            n == s@.len(),
            i <= n,
            forall|k: int| 0 <= k < i ==> s@[k] != c,
        decreases n - i,
    {
        if s.get_char(i) == c {
            assert(s@[i as int] == c);
            return true;
        }
        i = i + 1;
    }
    false
}

/// The pieces of `s` between occurrences of `sep`.
pub fn split(s: &str, sep: char) -> (r: Vec<String>)
    ensures
        r@.map_values(|p: String| p@) == split_spec(s@, sep),
{
    let n = s.unicode_len();
    let mut pieces: Vec<String> = Vec::new();
    let mut start: usize = 0;
    let mut i: usize = 0;
    while i < n
        invariant
            n == s@.len(),
            start <= i <= n,
            pieces@.map_values(|p: String| p@) + split_acc(s@, sep, start as int, i as int)
                == split_spec(s@, sep),
        decreases n - i,
    {
        if s.get_char(i) == sep {
            let piece = string_of(s, start, i);
            let ghost before = pieces@.map_values(|p: String| p@);
            pieces.push(piece);
            assert(pieces@.map_values(|p: String| p@) =~= before.push(piece@));
            assert(before.push(piece@) + split_acc(s@, sep, i + 1, i + 1) =~= before + (seq![
                piece@,
            ] + split_acc(s@, sep, i + 1, i + 1)));
            start = i + 1;
        }
        i = i + 1;
    }
    let piece = string_of(s, start, n);
    let ghost before = pieces@.map_values(|p: String| p@);
    pieces.push(piece);
    assert(pieces@.map_values(|p: String| p@) =~= before.push(piece@));
    assert(before + split_acc(s@, sep, start as int, n as int) =~= before.push(piece@));
    pieces
}

/// Equality of two strings up to ASCII case.
pub fn eq_ignore_ascii_case(a: &str, b: &str) -> (r: bool)
    ensures
        r == eq_ignore_ascii_case_spec(a@, b@),
{
    let n = a.unicode_len();
    if n != b.unicode_len() {
        return false;
    }
    let mut i: usize = 0;
    while i < n
        invariant
            n == a@.len(),
            n == b@.len(),
            i <= n,
            forall|k: int| 0 <= k < i ==> ascii_lower(a@[k]) == ascii_lower(b@[k]),
        decreases n - i,
    {
        let x = a.get_char(i);
        let y = b.get_char(i);
        let lx: u32 = if 'A' <= x && x <= 'Z' {
            x as u32 + 32
        } else {
            x as u32
        };
        let ly: u32 = if 'A' <= y && y <= 'Z' {
            y as u32 + 32
        } else {
            y as u32
        };
        if lx != ly {
            assert(ascii_lower(a@[i as int]) != ascii_lower(b@[i as int]));
            return false;
        }
        i = i + 1;
    }
    true
}

/// Whether `s` begins with `prefix`.
pub fn starts_with(s: &str, prefix: &str) -> (r: bool)
    ensures
        r == starts_with_spec(s@, prefix@),
{
    let n = prefix.unicode_len();
    if n > s.unicode_len() {
        return false;
    }
    let mut i: usize = 0;
    while i < n
        invariant
            n == prefix@.len(),
            n <= s@.len(),
            i <= n,
            forall|k: int| 0 <= k < i ==> s@[k] == prefix@[k],
        decreases n - i,
    {
        if s.get_char(i) != prefix.get_char(i) {
            assert(s@.subrange(0, n as int)[i as int] != prefix@[i as int]);
            return false;
        }
        i = i + 1;
    }
    assert(s@.subrange(0, n as int) =~= prefix@);
    true
}

proof fn lemma_decimal_monotone(s: Seq<char>, i: int, j: int)
    requires
        all_digits(s),
        0 <= i <= j <= s.len(),
    ensures
        decimal_value(s.subrange(0, i)) <= decimal_value(s.subrange(0, j)),
    decreases j - i,
{
    if i < j {
        lemma_decimal_monotone(s, i, j - 1);
        assert(s.subrange(0, j).drop_last() =~= s.subrange(0, j - 1));
        lemma_decimal_bound(s.subrange(0, j - 1));
        assert(is_digit(s[j - 1]));
    }
}

proof fn lemma_decimal_bound(s: Seq<char>)
    requires
        all_digits(s),
    ensures
        0 <= decimal_value(s),
    decreases s.len(),
{
    if s.len() > 0 {
        lemma_decimal_bound(s.drop_last());
    }
}

/// Parse `s` as an unsigned decimal integer of at most `max`, as
/// `str::parse` does for Rust's unsigned integer types.
pub fn parse_unsigned(s: &str, max: u64) -> (r: Option<u64>)
    ensures
        r matches Some(v) ==> parse_unsigned_spec(s@, max as int) == Some(v as int),
        r is None ==> parse_unsigned_spec(s@, max as int) is None,
{
    let n = s.unicode_len();
    let start: usize = if n > 0 && s.get_char(0) == '+' {
        1
    } else {
        0
    };
    let ghost digits = s@.subrange(start as int, n as int);
    proof {
        if start == 1 {
            assert(digits =~= s@.drop_first());
        } else {
            assert(digits =~= s@);
        }
    }
    if start >= n {
        return None;
    }
    let mut value: u64 = 0;
    let mut i: usize = start;
    while i < n
        invariant
            n == s@.len(),
            start <= i <= n,
            digits == s@.subrange(start as int, n as int),
            digits == (if s@.len() > 0 && s@[0] == '+' {
                s@.drop_first()
            } else {
                s@
            }),
            all_digits(s@.subrange(start as int, i as int)),
            value as int == decimal_value(s@.subrange(start as int, i as int)),
            value <= max,
        decreases n - i,
    {
        let c = s.get_char(i);
        proof {
            assert(s@.subrange(start as int, i + 1).drop_last() =~= s@.subrange(
                start as int,
                i as int,
            ));
        }
        if c < '0' || c > '9' {
            assert(!is_digit(digits[i - start]));
            return None;
        }
        let d: u128 = (c as u32 - '0' as u32) as u128;
        let wide: u128 = value as u128 * 10 + d;
        proof {
            assert(digits[i - start] == c);
            assert(s@.subrange(start as int, i + 1) =~= digits.subrange(0, i - start + 1));
            assert(all_digits(s@.subrange(start as int, i + 1)));
            assert(s@.subrange(start as int, i + 1).last() == c);
            assert(decimal_value(s@.subrange(start as int, i + 1)) == value * 10 + d);
        }
        if wide > max as u128 {
            proof {
                if all_digits(digits) {
                    lemma_decimal_monotone(digits, i - start + 1, digits.len() as int);
                    assert(digits.subrange(0, digits.len() as int) =~= digits);
                }
            }
            return None;
        }
        value = wide as u64;
        i = i + 1;
    }
    assert(s@.subrange(start as int, n as int) =~= digits);
    Some(value)
}

/// `s` without a leading `+`.
pub open spec fn sign_stripped(s: Seq<char>) -> Seq<char> {
    if s.len() > 0 && s[0] == '+' {
        s.drop_first()
    } else {
        s
    }
}

/// `k` is the position of the first character of `s` that is not a digit.
pub open spec fn first_non_digit_at(s: Seq<char>, k: int) -> bool {
    &&& 0 <= k < s.len()
    &&& !is_digit(s[k])
    &&& forall|j: int| 0 <= j < k ==> is_digit(#[trigger] s[j])
}

/// The message of the `ParseIntError` that `str::parse` gives for a text
/// that is not an unsigned integer of at most `max`: digits are read left to
/// right, and the first non-digit or the first overflow decides.
pub open spec fn unsigned_parse_error_spec(s: Seq<char>, max: int) -> Seq<char> {
    if s.len() == 0 {
        "cannot parse integer from empty string"@
    } else if sign_stripped(s).len() == 0 {
        "invalid digit found in string"@
    } else if exists|k: int|
        first_non_digit_at(sign_stripped(s), k) && decimal_value(sign_stripped(s).subrange(0, k)) > max {
        "number too large to fit in target type"@
    } else if exists|k: int| first_non_digit_at(sign_stripped(s), k) {
        "invalid digit found in string"@
    } else {
        "number too large to fit in target type"@
    }
}

/// The message of the error of parsing `s` as an unsigned integer of at
/// most `max`, for a text that does not parse.
pub fn unsigned_parse_error(s: &str, max: u64) -> (r: String)
    ensures
        r@ == unsigned_parse_error_spec(s@, max as int),
{
    let n = s.unicode_len();
    if n == 0 {
        return "cannot parse integer from empty string".to_owned();
    }
    let start: usize = if s.get_char(0) == '+' {
        1
    } else {
        0
    };
    let ghost digits = s@.subrange(start as int, n as int);
    proof {
        if start == 1 {
            assert(digits =~= s@.drop_first());
        } else {
            assert(digits =~= s@);
        }
    }
    if start >= n {
        return "invalid digit found in string".to_owned();
    }
    let mut value: u128 = 0;
    let mut big = false;
    let mut i: usize = start;
    while i < n
        invariant
            n == s@.len(),
            n > 0,
            start <= i <= n,
            start < n,
            digits == s@.subrange(start as int, n as int),
            digits == (if s@.len() > 0 && s@[0] == '+' {
                s@.drop_first()
            } else {
                s@
            }),
            all_digits(digits.subrange(0, i - start)),
            !big ==> value as int == decimal_value(digits.subrange(0, i - start)) && value <= max,
            big ==> decimal_value(digits.subrange(0, i - start)) > max,
        decreases n - i,
    {
        let c = s.get_char(i);
        proof {
            assert(digits[i - start] == c);
        }
        if c < '0' || c > '9' {
            proof {
                let k = i - start;
                assert(first_non_digit_at(digits, k)) by {
                    assert forall|j: int| 0 <= j < k implies is_digit(#[trigger] digits[j]) by {
                        assert(digits.subrange(0, k)[j] == digits[j]);
                    }
                }
                assert forall|k2: int| first_non_digit_at(digits, k2) implies k2 == k by {
                    if k2 < k {
                        assert(digits.subrange(0, k)[k2] == digits[k2]);
                    } else if k2 > k {
                        assert(is_digit(digits[k]));
                    }
                }
            }
            if big {
                return "number too large to fit in target type".to_owned();
            }
            return "invalid digit found in string".to_owned();
        }
        proof {
            let k = i - start;
            assert(digits.subrange(0, k + 1).drop_last() =~= digits.subrange(0, k));
            assert(digits.subrange(0, k + 1).last() == c);
            assert(all_digits(digits.subrange(0, k + 1))) by {
                assert forall|j: int| 0 <= j < k + 1 implies is_digit(#[trigger] digits.subrange(0, k + 1)[j]) by {
                    if j < k {
                        assert(digits.subrange(0, k + 1)[j] == digits.subrange(0, k)[j]);
                    }
                }
            }
            lemma_decimal_bound(digits.subrange(0, k));
        }
        if !big {
            let d: u128 = (c as u32 - '0' as u32) as u128;
            let wide: u128 = value * 10 + d;
            if wide > max as u128 {
                big = true;
            } else {
                value = wide;
            }
        }
        i = i + 1;
    }
    proof {
        assert(digits.subrange(0, n - start) =~= digits);
        assert(!exists|k: int| first_non_digit_at(digits, k));
    }
    "number too large to fit in target type".to_owned()
}

/// The whitespace-separated words of `s`.
pub fn words(s: &str) -> (r: Vec<String>)
    ensures
        r@.map_values(|p: String| p@) == words_spec(s@),
{
    let n = s.unicode_len();
    let mut out: Vec<String> = Vec::new();
    let mut start: usize = 0;
    let mut i: usize = 0;
    while i < n
        invariant
            n == s@.len(),
            start <= i <= n,
            out@.map_values(|p: String| p@) + non_empty_pieces(split_ws_acc(s@, start as int, i as int))
                == words_spec(s@),
        decreases n - i,
    {
        if char_is_ws(s.get_char(i)) {
            let ghost before = out@.map_values(|p: String| p@);
            let ghost rest = split_ws_acc(s@, i + 1, i + 1);
            let ghost piece = s@.subrange(start as int, i as int);
            assert(split_ws_acc(s@, start as int, i as int) == seq![piece] + rest);
            assert((seq![piece] + rest).drop_first() =~= rest);
            assert((seq![piece] + rest)[0] == piece);
            if start < i {
                let p = string_of(s, start, i);
                out.push(p);
                assert(out@.map_values(|p: String| p@) =~= before.push(piece));
                assert(before.push(piece) + non_empty_pieces(rest) =~= before + (seq![piece]
                    + non_empty_pieces(rest)));
            }
            start = i + 1;
        }
        i = i + 1;
    }
    let ghost before = out@.map_values(|p: String| p@);
    let ghost last = s@.subrange(start as int, n as int);
    assert(split_ws_acc(s@, start as int, n as int) == seq![last]);
    assert(seq![last].drop_first() =~= Seq::<Seq<char>>::empty());
    assert(non_empty_pieces(Seq::<Seq<char>>::empty()) == Seq::<Seq<char>>::empty());
    assert(seq![last][0] == last);
    if start < n {
        assert(non_empty_pieces(seq![last]) == seq![last] + Seq::<Seq<char>>::empty());
        let p = string_of(s, start, n);
        out.push(p);
        assert(out@.map_values(|p: String| p@) =~= before.push(last));
        assert(before + (seq![last] + Seq::<Seq<char>>::empty()) =~= before.push(last));
    } else {
        assert(non_empty_pieces(seq![last]) == Seq::<Seq<char>>::empty());
        assert(before + Seq::<Seq<char>>::empty() =~= before);
    }
    out
}


/// Lines joined with a newline between each two, as `[String]::join("\n")`
/// gives them.
pub open spec fn join_lines_spec(ls: Seq<Seq<char>>) -> Seq<char>
    decreases ls.len(),
{
    if ls.len() == 0 {
        seq![]
    } else if ls.len() == 1 {
        ls[0]
    } else {
        join_lines_spec(ls.drop_last()) + "\n"@ + ls.last()
    }
}

/// Whether two strings hold the same characters.
pub fn same_text(a: &str, b: &str) -> (r: bool)
    ensures
        r == (a@ == b@),
{
    a.to_owned() == b.to_owned()
}

/// `a` followed by `b`.
pub fn concat(a: &str, b: &str) -> (r: String)
    ensures
        r@ == a@ + b@,
{
    let mut out = a.to_owned();
    out.append(b);
    out
}

/// The lines joined with a newline between each two.
pub fn join_lines(lines: &Vec<String>) -> (r: String)
    ensures
        r@ == join_lines_spec(lines@.map_values(|s: String| s@)),
{
    let ghost ls = lines@.map_values(|s: String| s@);
    let n = lines.len();
    let mut out = String::new();
    let mut i: usize = 0;
    while i < n
        invariant
            n == lines@.len(),
            ls == lines@.map_values(|s: String| s@),
            i <= n,
            out@ == join_lines_spec(ls.subrange(0, i as int)),
        decreases n - i,
    {
        proof {
            assert(ls.subrange(0, i + 1).drop_last() =~= ls.subrange(0, i as int));
            assert(ls.subrange(0, i + 1).last() == lines@[i as int]@);
            if i == 0 {
                assert(Seq::<char>::empty() + lines@[0]@ =~= lines@[0]@);
            }
        }
        if i > 0 {
            out.append("\n");
        }
        out.append(lines[i].as_str());
        i = i + 1;
    }
    assert(ls.subrange(0, n as int) =~= ls);
    out
}


/// The ASCII character of a decimal digit.
pub open spec fn digit_char(d: int) -> char {
    if d == 0 {
        '0'
    } else if d == 1 {
        '1'
    } else if d == 2 {
        '2'
    } else if d == 3 {
        '3'
    } else if d == 4 {
        '4'
    } else if d == 5 {
        '5'
    } else if d == 6 {
        '6'
    } else if d == 7 {
        '7'
    } else if d == 8 {
        '8'
    } else {
        '9'
    }
}

/// The decimal notation of `n`, as `Display` writes an unsigned integer.
pub open spec fn decimal_text(n: nat) -> Seq<char>
    decreases n,
{
    if n < 10 {
        seq![digit_char(n as int)]
    } else {
        decimal_text(n / 10).push(digit_char(n as int % 10))
    }
}

/// The one-character string of a decimal digit.
fn digit_str(d: u64) -> (r: &'static str)
    requires
        d < 10,
    ensures
        r@ == seq![digit_char(d as int)],
{
    proof {
        reveal_strlit("0");
        reveal_strlit("1");
        reveal_strlit("2");
        reveal_strlit("3");
        reveal_strlit("4");
        reveal_strlit("5");
        reveal_strlit("6");
        reveal_strlit("7");
        reveal_strlit("8");
        reveal_strlit("9");
    }
    let r = if d == 0 {
        "0"
    } else if d == 1 {
        "1"
    } else if d == 2 {
        "2"
    } else if d == 3 {
        "3"
    } else if d == 4 {
        "4"
    } else if d == 5 {
        "5"
    } else if d == 6 {
        "6"
    } else if d == 7 {
        "7"
    } else if d == 8 {
        "8"
    } else {
        "9"
    };
    assert(r@ =~= seq![digit_char(d as int)]);
    r
}

/// The decimal notation of `n`.
pub fn decimal(n: u64) -> (r: String)
    ensures
        r@ == decimal_text(n as nat),
    decreases n,
{
    let d = digit_str(n % 10);
    if n < 10 {
        d.to_owned()
    } else {
        let head = decimal(n / 10);
        let r = concat(head.as_str(), d);
        assert(r@ =~= decimal_text(n as nat));
        r
    }
}


/// The lowercase form of a string, as `str::to_lowercase` computes it.
pub uninterp spec fn lowercase_spec(s: Seq<char>) -> Seq<char>;

/// `str::to_lowercase`: the string with every character in lowercase.
#[verifier::external_body]
pub(crate) fn to_lowercase(s: &str) -> (r: String)
    ensures
        r@ == lowercase_spec(s@),
{
    s.to_lowercase()
}


/// Result of parsing `s` as a signed decimal integer between `-min_abs`
/// and `max`, as `str::parse` gives it for Rust's signed types: an
/// optional `+` or `-`, then at least one digit and nothing else.
pub open spec fn parse_signed_spec(s: Seq<char>, min_abs: int, max: int) -> Option<int> {
    if s.len() > 0 && s[0] == '-' {
        let d = s.drop_first();
        if d.len() > 0 && d[0] != '+' {
            match parse_unsigned_spec(d, min_abs) {
                Some(v) => Some(-v),
                None => None,
            }
        } else {
            None
        }
    } else {
        parse_unsigned_spec(s, max)
    }
}

/// Parse `s` as an `i32`, as `str::parse::<i32>` does.
pub fn parse_i32(s: &str) -> (r: Option<i32>)
    ensures
        r matches Some(v) ==> parse_signed_spec(s@, 2147483648, 2147483647) == Some(v as int),
        r is None ==> parse_signed_spec(s@, 2147483648, 2147483647) is None,
{
    let n = s.unicode_len();
    if n > 0 && s.get_char(0) == '-' {
        let rest = string_of(s, 1, n);
        assert(rest@ =~= s@.drop_first());
        if rest.as_str().unicode_len() == 0 || rest.as_str().get_char(0) == '+' {
            return None;
        }
        match parse_unsigned(rest.as_str(), 2147483648) {
            Some(v) => {
                let neg: i64 = 0 - (v as i64);
                Some(neg as i32)
            },
            None => None,
        }
    } else {
        match parse_unsigned(s, 2147483647) {
            Some(v) => Some(v as i32),
            None => None,
        }
    }
}

} // verus!
