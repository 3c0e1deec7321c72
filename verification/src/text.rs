//! Character-level text helpers shared by the line classifier and the
//! properties parsing: literal search, runs of character classes,
//! trimming, and exact decimal parsing.

use vstd::prelude::*;
use vstd::string::StrSliceExecFns;

verus! {

/// The whitespace characters the classifier recognises.
pub open spec fn is_space_char(c: char) -> bool {
    c == ' ' || c == '\t' || c == '\r' || c == '\n' || c == '\x0b' || c == '\x0c'
}

/// Word characters: ASCII letters, digits and underscore.
pub open spec fn is_word_char(c: char) -> bool {
    ('a' as u32 <= c as u32 && c as u32 <= 'z' as u32) || ('A' as u32 <= c as u32 && c as u32
        <= 'Z' as u32) || is_digit_char(c) || c == '_'
}

/// ASCII decimal digits.
pub open spec fn is_digit_char(c: char) -> bool {
    '0' as u32 <= c as u32 && c as u32 <= '9' as u32
}

/// The literal `p` occurs in `s` starting at position `i`.
pub open spec fn lit_at(s: Seq<char>, p: Seq<char>, i: int) -> bool {
    &&& 0 <= i
    &&& i + p.len() <= s.len()
    &&& forall|k: int| 0 <= k < p.len() ==> s[i + k] == p[k]
}

/// The first position at or after `from` where `p` occurs in `s`.
pub open spec fn spec_find_lit(s: Seq<char>, p: Seq<char>, from: int) -> Option<int>
    decreases s.len() - from,
{
    if from < 0 || from + p.len() > s.len() {
        None
    } else if lit_at(s, p, from) {
        Some(from)
    } else {
        spec_find_lit(s, p, from + 1)
    }
}

/// The first position at or after `from` holding a non-space character,
/// or the length of `s` when only spaces remain.
pub open spec fn skip_spaces(s: Seq<char>, from: int) -> int
    decreases s.len() - from,
{
    if from < 0 || from >= s.len() {
        s.len() as int
    } else if is_space_char(s[from]) {
        skip_spaces(s, from + 1)
    } else {
        from
    }
}

/// The end of the run of word characters beginning at `from`.
pub open spec fn end_word(s: Seq<char>, from: int) -> int
    decreases s.len() - from,
{
    if from < 0 || from >= s.len() {
        s.len() as int
    } else if is_word_char(s[from]) {
        end_word(s, from + 1)
    } else {
        from
    }
}

/// The end of the run of digits beginning at `from`.
pub open spec fn end_digits(s: Seq<char>, from: int) -> int
    decreases s.len() - from,
{
    if from < 0 || from >= s.len() {
        s.len() as int
    } else if is_digit_char(s[from]) {
        end_digits(s, from + 1)
    } else {
        from
    }
}

/// Length of `s` with trailing spaces removed.
pub open spec fn rtrim_index(s: Seq<char>) -> int
    decreases s.len(),
{
    if s.len() == 0 {
        0
    } else if is_space_char(s.last()) {
        rtrim_index(s.drop_last())
    } else {
        s.len() as int
    }
}

/// `s` with leading and trailing spaces removed.
pub open spec fn spec_trimmed(s: Seq<char>) -> Seq<char> {
    let a = skip_spaces(s, 0);
    let b = rtrim_index(s);
    if a < b {
        s.subrange(a, b)
    } else {
        Seq::empty()
    }
}

/// All characters of `s` are decimal digits.
pub open spec fn all_digits(s: Seq<char>) -> bool {
    forall|i: int| 0 <= i < s.len() ==> is_digit_char(#[trigger] s[i])
}

/// The value of a digit string read as a decimal number.
pub open spec fn dec_val(s: Seq<char>) -> int
    decreases s.len(),
{
    if s.len() == 0 {
        0
    } else {
        dec_val(s.drop_last()) * 10 + (s.last() as u32 - '0' as u32)
    }
}

/// What exact decimal parsing yields: the value when `s` is a non-empty
/// digit string whose value fits, nothing otherwise.
pub open spec fn parse_u32_spec(s: Seq<char>) -> Option<u32> {
    if s.len() > 0 && all_digits(s) && dec_val(s) <= u32::MAX {
        Some(dec_val(s) as u32)
    } else {
        None
    }
}

/// The first position at or after `from` holding the character `c`.
pub open spec fn find_char(s: Seq<char>, c: char, from: int) -> Option<int>
    decreases s.len() - from,
{
    if from < 0 || from >= s.len() {
        None
    } else if s[from] == c {
        Some(from)
    } else {
        find_char(s, c, from + 1)
    }
}

/// The first occurrence of the character `c` at or after `from`.
pub fn find_char_from(s: &str, c: char, from: usize) -> (r: Option<usize>)
    requires
        from <= s@.len(),
    ensures
        match r {
            Some(i) => find_char(s@, c, from as int) == Some(i as int) && from <= i < s@.len(),
            None => find_char(s@, c, from as int) is None,
        },
{
    let slen = s.unicode_len();
    let mut i: usize = from;
    while i < slen
        invariant
            from <= i <= slen,
            slen == s@.len(),
            find_char(s@, c, from as int) == find_char(s@, c, i as int),
        decreases slen - i,
    {
        if s.get_char(i) == c {
            return Some(i);
        }
        i = i + 1;
    }
    None
}

/// Whether two strings hold the same characters.
pub fn str_eq(a: &str, b: &str) -> (r: bool)
    ensures
        r == (a@ == b@),
{
    let sa = a.to_owned();
    let sb = b.to_owned();
    sa.eq(&sb)
}

/// Whether the literal `p` occurs in `s` at position `i`.
pub fn lit_match_at(s: &str, p: &str, i: usize) -> (r: bool)
    requires
        i <= s@.len(),
    ensures
        r == lit_at(s@, p@, i as int),
{
    let slen = s.unicode_len();
    let plen = p.unicode_len();
    if plen > slen || i > slen - plen {
        proof {
            assert(!lit_at(s@, p@, i as int));
        }
        return false;
    }
    let mut k: usize = 0;
    while k < plen
        invariant
            i + plen <= slen,
            slen == s@.len(),
            plen == p@.len(),
            k <= plen,
            forall|j: int| 0 <= j < k ==> s@[i + j] == p@[j],
        decreases plen - k,
    {
        if s.get_char(i + k) != p.get_char(k) {
            return false;
        }
        k = k + 1;
    }
    true
}

/// The first occurrence of `p` in `s` at or after `from`.
pub fn find_lit(s: &str, p: &str, from: usize) -> (r: Option<usize>)
    requires
        from <= s@.len(),
    ensures
        match r {
            Some(i) => spec_find_lit(s@, p@, from as int) == Some(i as int) && i + p@.len()
                <= s@.len(),
            None => spec_find_lit(s@, p@, from as int) is None,
        },
{
    let slen = s.unicode_len();
    let plen = p.unicode_len();
    if plen > slen || from > slen - plen {
        return None;
    }
    let mut i: usize = from;
    while i <= slen - plen
        invariant
            from <= i,
            plen <= slen,
            slen == s@.len(),
            plen == p@.len(),
            i <= slen - plen + 1,
            spec_find_lit(s@, p@, from as int) == spec_find_lit(s@, p@, i as int),
        decreases slen - i,
    {
        if lit_match_at(s, p, i) {
            return Some(i);
        }
        i = i + 1;
    }
    None
}

/// The first non-space position at or after `from`.
pub fn skip_spaces_from(s: &str, from: usize) -> (r: usize)
    requires
        from <= s@.len(),
    ensures
        r == skip_spaces(s@, from as int),
        from <= r <= s@.len(),
{
    let slen = s.unicode_len();
    let mut i: usize = from;
    while i < slen
        invariant
            from <= i <= slen,
            slen == s@.len(),
            skip_spaces(s@, from as int) == skip_spaces(s@, i as int),
        decreases slen - i,
    {
        let c = s.get_char(i);
        if !(c == ' ' || c == '\t' || c == '\r' || c == '\n' || c == '\x0b' || c == '\x0c') {
            return i;
        }
        i = i + 1;
    }
    i
}

/// The end of the run of word characters beginning at `from`.
pub fn end_word_from(s: &str, from: usize) -> (r: usize)
    requires
        from <= s@.len(),
    ensures
        r == end_word(s@, from as int),
        from <= r <= s@.len(),
{
    let slen = s.unicode_len();
    let mut i: usize = from;
    while i < slen
        invariant
            from <= i <= slen,
            slen == s@.len(),
            end_word(s@, from as int) == end_word(s@, i as int),
        decreases slen - i,
    {
        let c = s.get_char(i) as u32;
        if !((97 <= c && c <= 122) || (65 <= c && c <= 90) || (48 <= c && c <= 57) || c == 95) {
            return i;
        }
        i = i + 1;
    }
    i
}

/// The end of the run of digits beginning at `from`.
pub fn end_digits_from(s: &str, from: usize) -> (r: usize)
    requires
        from <= s@.len(),
    ensures
        r == end_digits(s@, from as int),
        from <= r <= s@.len(),
{
    let slen = s.unicode_len();
    let mut i: usize = from;
    while i < slen
        invariant
            from <= i <= slen,
            slen == s@.len(),
            end_digits(s@, from as int) == end_digits(s@, i as int),
        decreases slen - i,
    {
        let c = s.get_char(i) as u32;
        if !(48 <= c && c <= 57) {
            return i;
        }
        i = i + 1;
    }
    i
}

/// Whether a character is classifier whitespace.
pub fn is_space_c(c: char) -> (r: bool)
    ensures
        r == is_space_char(c),
{
    c == ' ' || c == '\t' || c == '\r' || c == '\n' || c == '\x0b' || c == '\x0c'
}

proof fn lemma_rtrim_le(s: Seq<char>)
    ensures
        0 <= rtrim_index(s) <= s.len(),
    decreases s.len(),
{
    if s.len() > 0 && is_space_char(s.last()) {
        lemma_rtrim_le(s.drop_last());
    }
}

/// `s` with leading and trailing spaces removed.
pub fn trim_str(s: &str) -> (r: String)
    ensures
        r@ == spec_trimmed(s@),
{
    let slen = s.unicode_len();
    let a = skip_spaces_from(s, 0);
    let mut b: usize = slen;
    proof {
        assert(s@.subrange(0, slen as int) =~= s@);
    }
    while b > a && is_space_c(s.get_char(b - 1))
        invariant
            a <= b <= slen,
            slen == s@.len(),
            a == skip_spaces(s@, 0),
            rtrim_index(s@) == rtrim_index(s@.subrange(0, b as int)),
        decreases b,
    {
        proof {
            let sub = s@.subrange(0, b as int);
            assert(sub.last() == s@[b - 1]);
            assert(sub.drop_last() =~= s@.subrange(0, b - 1));
        }
        b = b - 1;
    }
    proof {
        let sub = s@.subrange(0, b as int);
        lemma_rtrim_le(sub);
        if b > a {
            assert(sub.last() == s@[b - 1]);
            assert(rtrim_index(sub) == b as int);
        }
    }
    if a < b {
        s.substring_char(a, b).to_owned()
    } else {
        String::new()
    }
}

proof fn lemma_dec_val_bounds(s: Seq<char>)
    requires
        all_digits(s),
    ensures
        dec_val(s) >= 0,
    decreases s.len(),
{
    if s.len() > 0 {
        assert(all_digits(s.drop_last())) by {
            assert(forall|i: int|
                0 <= i < s.drop_last().len() ==> s.drop_last()[i] == #[trigger] s[i]);
        }
        lemma_dec_val_bounds(s.drop_last());
    }
}

/// Extending a digit string to the right never shrinks its value.
proof fn lemma_dec_val_prefix_le(s: Seq<char>, k: int)
    requires
        all_digits(s),
        0 <= k <= s.len(),
    ensures
        dec_val(s.subrange(0, k)) <= dec_val(s),
    decreases s.len() - k,
{
    if k < s.len() {
        lemma_dec_val_prefix_le(s, k + 1);
        let a = s.subrange(0, k);
        let b = s.subrange(0, k + 1);
        assert(b.drop_last() =~= a);
        assert(all_digits(a)) by {
            assert(forall|i: int| 0 <= i < a.len() ==> a[i] == #[trigger] s[i]);
        }
        lemma_dec_val_bounds(a);
        assert(dec_val(b) == dec_val(a) * 10 + (b.last() as u32 - '0' as u32));
        assert(dec_val(a) * 10 >= dec_val(a));
    } else {
        assert(s.subrange(0, k) =~= s);
    }
}

/// Exact decimal parsing: the value of a non-empty all-digit string when
/// it fits a `u32`, nothing otherwise.
pub fn parse_u32(s: &str) -> (r: Option<u32>)
    ensures
        r == parse_u32_spec(s@),
{
    let slen = s.unicode_len();
    if slen == 0 {
        return None;
    }
    let mut i: usize = 0;
    while i < slen
        invariant
            i <= slen,
            slen == s@.len(),
            forall|j: int| 0 <= j < i ==> is_digit_char(#[trigger] s@[j]),
        decreases slen - i,
    {
        let c = s.get_char(i) as u32;
        if !(48 <= c && c <= 57) {
            proof {
                assert(!is_digit_char(s@[i as int]));
                assert(!all_digits(s@));
            }
            return None;
        }
        i = i + 1;
    }
    proof {
        assert(all_digits(s@));
    }
    let mut acc: u64 = 0;
    let mut k: usize = 0;
    while k < slen
        invariant
            k <= slen,
            slen == s@.len(),
            s@.len() > 0,
            all_digits(s@),
            acc == dec_val(s@.subrange(0, k as int)),
            acc <= u32::MAX,
        decreases slen - k,
    {
        let c = s.get_char(k) as u32;
        proof {
            assert(is_digit_char(s@[k as int]));
        }
        let d = (c - 48) as u64;
        acc = acc * 10 + d;
        proof {
            let pre = s@.subrange(0, k as int);
            let cur = s@.subrange(0, k + 1);
            assert(cur.drop_last() =~= pre);
            assert(cur.last() == s@[k as int]);
            assert(acc == dec_val(cur));
        }
        k = k + 1;
        if acc > 0xffff_ffff {
            proof {
                lemma_dec_val_prefix_le(s@, k as int);
                assert(s@.subrange(0, slen as int) =~= s@);
                assert(dec_val(s@) > u32::MAX);
            }
            return None;
        }
    }
    proof {
        assert(s@.subrange(0, slen as int) =~= s@);
    }
    Some(acc as u32)
}

/// The ten digit literals, one character each.
proof fn digit_literal_facts()
    ensures
        "0"@ =~= seq!['0'],
        "1"@ =~= seq!['1'],
        "2"@ =~= seq!['2'],
        "3"@ =~= seq!['3'],
        "4"@ =~= seq!['4'],
        "5"@ =~= seq!['5'],
        "6"@ =~= seq!['6'],
        "7"@ =~= seq!['7'],
        "8"@ =~= seq!['8'],
        "9"@ =~= seq!['9'],
{
    broadcast use vstd::string::group_string_axioms;

    reveal_strlit("0");
    reveal_strlit("1");
    reveal_strlit("2");
    reveal_strlit("3");
    reveal_strlit("4");
    reveal_strlit("5");
    reveal_strlit("6");
    reveal_strlit("7");
    reveal_strlit("8");
    reveal_strlit("9");
}

/// Render a number in decimal: a non-empty digit string without leading
/// zeroes that reads back as the same value.
pub fn u32_to_string(n: u32) -> (r: String)
    ensures
        all_digits(r@),
        r@.len() >= 1,
        dec_val(r@) == n,
        r@.len() > 1 ==> r@[0] != '0',
        parse_u32_spec(r@) == Some(n),
    decreases n,
{
    if n < 10 {
        let s: &str = match n {
            0 => "0",
            1 => "1",
            2 => "2",
            3 => "3",
            4 => "4",
            5 => "5",
            6 => "6",
            7 => "7",
            8 => "8",
            _ => "9",
        };
        let r = s.to_owned();
        proof {
            digit_literal_facts();
            assert(r@.len() == 1);
            assert(r@.drop_last().len() == 0);
            assert(dec_val(r@.drop_last()) == 0);
            assert(dec_val(r@) == r@.last() as u32 - '0' as u32);
            assert(dec_val(r@) == n);
        }
        r
    } else {
        let mut r = u32_to_string(n / 10);
        let ghost prefix = r@;
        let d = n % 10;
        let ds: &str = match d {
            0 => "0",
            1 => "1",
            2 => "2",
            3 => "3",
            4 => "4",
            5 => "5",
            6 => "6",
            7 => "7",
            8 => "8",
            _ => "9",
        };
        r.append(ds);
        proof {
            digit_literal_facts();
            assert(r@.len() == prefix.len() + 1);
            assert(r@.drop_last() =~= prefix);
            assert(r@.last() as u32 - '0' as u32 == d);
            assert(dec_val(r@) == dec_val(prefix) * 10 + d);
            assert(n / 10 * 10 + n % 10 == n);
            assert(r@[0] == prefix[0]);
            if prefix.len() == 1 {
                assert(prefix.last() == prefix[0]);
                assert(prefix.drop_last().len() == 0);
                assert(dec_val(prefix.drop_last()) == 0);
                assert(dec_val(prefix) == prefix[0] as u32 - '0' as u32);
                if prefix[0] == '0' {
                    assert(dec_val(prefix) == 0);
                    assert(false);
                }
            }
        }
        r
    }
}

/// Decimal parsing into `u16`: the value when it fits, nothing otherwise.
pub open spec fn parse_u16_spec(s: Seq<char>) -> Option<u16> {
    match parse_u32_spec(s) {
        Some(n) => if n <= u16::MAX as u32 {
            Some(n as u16)
        } else {
            None
        },
        None => None,
    }
}

/// Decimal parsing into `u8`: the value when it fits, nothing otherwise.
pub open spec fn parse_u8_spec(s: Seq<char>) -> Option<u8> {
    match parse_u32_spec(s) {
        Some(n) => if n <= u8::MAX as u32 {
            Some(n as u8)
        } else {
            None
        },
        None => None,
    }
}

/// Exact decimal parsing into `u16`.
pub fn parse_u16(s: &str) -> (r: Option<u16>)
    ensures
        r == parse_u16_spec(s@),
{
    match parse_u32(s) {
        Some(n) => if n <= 0xffff {
            Some(n as u16)
        } else {
            None
        },
        None => None,
    }
}

/// Exact decimal parsing into `u8`.
pub fn parse_u8(s: &str) -> (r: Option<u8>)
    ensures
        r == parse_u8_spec(s@),
{
    match parse_u32(s) {
        Some(n) => if n <= 0xff {
            Some(n as u8)
        } else {
            None
        },
        None => None,
    }
}

/// Exact parsing of `true` / `false`.
pub fn parse_bool(s: &str) -> (r: Option<bool>)
    ensures
        s@ == "true"@ ==> r == Some(true),
        s@ == "false"@ ==> r == Some(false),
        s@ != "true"@ && s@ != "false"@ ==> r is None,
{
    proof {
        broadcast use vstd::string::group_string_axioms;

        reveal_strlit("true");
        reveal_strlit("false");
        assert("true"@.len() == 4);
        assert("false"@.len() == 5);
        assert("true"@ != "false"@);
    }
    if str_eq(s, "true") {
        Some(true)
    } else if str_eq(s, "false") {
        Some(false)
    } else {
        None
    }
}

} // verus!
