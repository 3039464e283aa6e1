//! Verified text utilities: the character classes, equality, search,
//! splitting, trimming and number conversions that the output parsers and
//! command builders are specified and proved against.

use vstd::prelude::*;
use vstd::string::*;

verus! {

/// The whitespace characters, exactly the set that `char::is_whitespace`
/// recognises.
pub open spec fn is_space(c: char) -> bool {
    c == ' ' || c == '\t' || c == '\n' || c == '\r' || c == '\u{000B}' || c == '\u{000C}'
        || c == '\u{0085}' || c == '\u{00A0}' || c == '\u{1680}'
        || (0x2000 <= c as u32 && c as u32 <= 0x200A) || c == '\u{2028}' || c == '\u{2029}'
        || c == '\u{202F}' || c == '\u{205F}' || c == '\u{3000}'
}

pub fn is_space_char(c: char) -> (r: bool)
    ensures
        r == is_space(c),
{
    c == ' ' || c == '\t' || c == '\n' || c == '\r' || c == '\u{000B}' || c == '\u{000C}'
        || c == '\u{0085}' || c == '\u{00A0}' || c == '\u{1680}'
        || (0x2000 <= c as u32 && c as u32 <= 0x200A) || c == '\u{2028}' || c == '\u{2029}'
        || c == '\u{202F}' || c == '\u{205F}' || c == '\u{3000}'
}

/// The pattern `p` occurs in `s` starting at position `i`.
pub open spec fn contains_at(s: Seq<char>, p: Seq<char>, i: int) -> bool {
    0 <= i && i + p.len() <= s.len() && s.subrange(i, i + p.len() as int) == p
}

/// The pattern `p` occurs somewhere in `s`.
pub open spec fn contains_seq(s: Seq<char>, p: Seq<char>) -> bool {
    exists|i: int| contains_at(s, p, i)
}

pub open spec fn starts_with_seq(s: Seq<char>, p: Seq<char>) -> bool {
    p.len() <= s.len() && s.subrange(0, p.len() as int) == p
}

/// Character-for-character string equality.
pub fn str_eq(a: &str, b: &str) -> (r: bool)
    ensures
        r == (a@ == b@),
{
    let na = a.unicode_len();
    let nb = b.unicode_len();
    if na != nb {
        return false;
    }
    let mut i: usize = 0;
    while i < na
        invariant
            na == a@.len(),
            na == b@.len(),
            0 <= i <= na,
            forall|j: int| 0 <= j < i ==> a@[j] == b@[j],
        decreases na - i,
    {
        if a.get_char(i) != b.get_char(i) {
            return false;
        }
        i += 1;
    }
    proof {
        assert(a@ =~= b@);
    }
    true
}

/// Whether `p` matches `s` at position `i`.
fn match_at(s: &str, p: &str, i: usize) -> (r: bool)
    requires
        i + p@.len() <= s@.len(),
    ensures
        r == contains_at(s@, p@, i as int),
{
    let n = s.unicode_len();
    let m = p.unicode_len();
    let mut j: usize = 0;
    while j < m
        invariant
            n == s@.len(),
            m == p@.len(),
            i + m <= n,
            0 <= j <= m,
            forall|k: int| 0 <= k < j ==> s@[i + k] == p@[k],
        decreases m - j,
    {
        if s.get_char(i + j) != p.get_char(j) {
            proof {
                assert(s@.subrange(i as int, i + p@.len() as int)[j as int] != p@[j as int]);
            }
            return false;
        }
        j += 1;
    }
    proof {
        assert(s@.subrange(i as int, i + p@.len() as int) =~= p@);
    }
    true
}

pub fn str_starts_with(s: &str, p: &str) -> (r: bool)
    ensures
        r == starts_with_seq(s@, p@),
{
    let n = s.unicode_len();
    let m = p.unicode_len();
    if m > n {
        return false;
    }
    match_at(s, p, 0)
}

pub fn str_contains(s: &str, p: &str) -> (r: bool)
    ensures
        r == contains_seq(s@, p@),
{
    let n = s.unicode_len();
    let m = p.unicode_len();
    if m > n {
        proof {
            assert(forall|i: int| !contains_at(s@, p@, i));
        }
        return false;
    }
    if m == 0 {
        proof {
            assert(s@.subrange(0, 0) =~= p@);
            assert(contains_at(s@, p@, 0));
        }
        return true;
    }
    let last = n - m;
    let mut i: usize = 0;
    while i < last + 1
        invariant
            n == s@.len(),
            m == p@.len(),
            1 <= m <= n,
            last == n - m,
            0 <= i <= last + 1,
            forall|k: int| 0 <= k < i ==> !contains_at(s@, p@, k),
        decreases last + 1 - i,
    {
        if match_at(s, p, i) {
            proof {
                assert(contains_at(s@, p@, i as int));
            }
            return true;
        }
        i += 1;
    }
    proof {
        assert(forall|k: int| contains_at(s@, p@, k) ==> 0 <= k <= n - m);
        assert(forall|k: int| !contains_at(s@, p@, k));
    }
    false
}

/// What remains of `s` after a prefix `p`, when `s` starts with `p`.
pub fn strip_prefix_str(s: &str, p: &str) -> (r: Option<String>)
    ensures
        starts_with_seq(s@, p@) ==> (r matches Some(t) && t@ == s@.subrange(
            p@.len() as int,
            s@.len() as int,
        )),
        !starts_with_seq(s@, p@) ==> r is None,
{
    if str_starts_with(s, p) {
        let n = s.unicode_len();
        let m = p.unicode_len();
        Some(s.substring_char(m, n).to_owned())
    } else {
        None
    }
}

/// One trailing carriage return removed, as the line splitter does to a
/// piece that a line feed ended.
pub open spec fn strip_one_cr(l: Seq<char>) -> Seq<char> {
    if l.len() > 0 && l.last() == '\r' {
        l.drop_last()
    } else {
        l
    }
}

pub open spec fn lines_acc(s: Seq<char>, i: int, cur: Seq<char>) -> Seq<Seq<char>>
    decreases s.len() - i,
    when 0 <= i <= s.len()
{
    if i >= s.len() {
        if cur.len() > 0 {
            seq![cur]
        } else {
            Seq::empty()
        }
    } else if s[i] == '\n' {
        seq![strip_one_cr(cur)] + lines_acc(s, i + 1, Seq::empty())
    } else {
        lines_acc(s, i + 1, cur.push(s[i]))
    }
}

/// The lines of `s`: pieces split at line feeds, one trailing carriage
/// return removed from every piece that a line feed ended, and no piece
/// after a final line feed.
pub open spec fn lines_of(s: Seq<char>) -> Seq<Seq<char>> {
    lines_acc(s, 0, Seq::empty())
}

pub fn split_lines(s: &str) -> (r: Vec<String>)
    ensures
        r.deep_view() == lines_of(s@),
{
    let n = s.unicode_len();
    let mut out: Vec<String> = Vec::new();
    let mut start: usize = 0;
    let mut i: usize = 0;
    proof {
        assert(s@.subrange(0, 0) =~= Seq::<char>::empty());
        assert(out.deep_view() =~= Seq::<Seq<char>>::empty());
        assert(out.deep_view() + lines_acc(s@, 0, Seq::empty()) =~= lines_acc(s@, 0, Seq::empty()));
    }
    while i < n
        invariant
            n == s@.len(),
            0 <= start <= i <= n,
            lines_of(s@) == out.deep_view() + lines_acc(
                s@,
                i as int,
                s@.subrange(start as int, i as int),
            ),
        decreases n - i,
    {
        let ghost cur = s@.subrange(start as int, i as int);
        let c = s.get_char(i);
        if c == '\n' {
            let line: String = if i > start && s.get_char(i - 1) == '\r' {
                s.substring_char(start, i - 1).to_owned()
            } else {
                s.substring_char(start, i).to_owned()
            };
            proof {
                if i > start && s@[i - 1] == '\r' {
                    assert(s@.subrange(start as int, i - 1) =~= cur.drop_last());
                }
                assert(line@ == strip_one_cr(cur));
            }
            let ghost prev = out.deep_view();
            out.push(line);
            start = i + 1;
            proof {
                assert(out.deep_view() =~= prev.push(line@));
                assert(s@.subrange(start as int, start as int) =~= Seq::<char>::empty());
                assert(prev + (seq![strip_one_cr(cur)] + lines_acc(s@, i + 1, Seq::empty()))
                    =~= out.deep_view() + lines_acc(s@, i + 1, Seq::empty()));
            }
        } else {
            proof {
                assert(s@.subrange(start as int, i + 1) =~= cur.push(s@[i as int]));
            }
        }
        i += 1;
    }
    if start < n {
        let line = s.substring_char(start, n).to_owned();
        let ghost prev = out.deep_view();
        out.push(line);
        proof {
            assert(out.deep_view() =~= prev.push(line@));
            assert(prev + seq![line@] =~= out.deep_view());
        }
    } else {
        proof {
            assert(out.deep_view() + Seq::<Seq<char>>::empty() =~= out.deep_view());
        }
    }
    out
}

pub open spec fn split_char_acc(s: Seq<char>, sep: char, i: int, cur: Seq<char>) -> Seq<Seq<char>>
    decreases s.len() - i,
    when 0 <= i <= s.len()
{
    if i >= s.len() {
        seq![cur]
    } else if s[i] == sep {
        seq![cur] + split_char_acc(s, sep, i + 1, Seq::empty())
    } else {
        split_char_acc(s, sep, i + 1, cur.push(s[i]))
    }
}

/// The pieces of `s` between occurrences of `sep`; empty pieces are kept,
/// and there is always at least one piece.
pub open spec fn split_char_of(s: Seq<char>, sep: char) -> Seq<Seq<char>> {
    split_char_acc(s, sep, 0, Seq::empty())
}

/// A split on a character always yields at least one piece.
pub proof fn lemma_split_char_nonempty(s: Seq<char>, sep: char, i: int, cur: Seq<char>)
    requires
        0 <= i <= s.len(),
    ensures
        split_char_acc(s, sep, i, cur).len() >= 1,
    decreases s.len() - i,
{
    if i < s.len() {
        if s[i] == sep {
            lemma_split_char_nonempty(s, sep, i + 1, Seq::empty());
        } else {
            lemma_split_char_nonempty(s, sep, i + 1, cur.push(s[i]));
        }
    }
}

pub fn split_on_char(s: &str, sep: char) -> (r: Vec<String>)
    ensures
        r.deep_view() == split_char_of(s@, sep),
{
    let n = s.unicode_len();
    let mut out: Vec<String> = Vec::new();
    let mut start: usize = 0;
    let mut i: usize = 0;
    proof {
        assert(s@.subrange(0, 0) =~= Seq::<char>::empty());
        assert(out.deep_view() =~= Seq::<Seq<char>>::empty());
        assert(out.deep_view() + split_char_acc(s@, sep, 0, Seq::empty()) =~= split_char_acc(s@, sep, 0, Seq::empty()));
    }
    while i < n
        invariant
            n == s@.len(),
            0 <= start <= i <= n,
            split_char_of(s@, sep) == out.deep_view() + split_char_acc(
                s@,
                sep,
                i as int,
                s@.subrange(start as int, i as int),
            ),
        decreases n - i,
    {
        let ghost cur = s@.subrange(start as int, i as int);
        let c = s.get_char(i);
        if c == sep {
            let piece = s.substring_char(start, i).to_owned();
            let ghost prev = out.deep_view();
            out.push(piece);
            start = i + 1;
            proof {
                assert(out.deep_view() =~= prev.push(piece@));
                assert(s@.subrange(start as int, start as int) =~= Seq::<char>::empty());
                assert(prev + (seq![cur] + split_char_acc(s@, sep, i + 1, Seq::empty()))
                    =~= out.deep_view() + split_char_acc(s@, sep, i + 1, Seq::empty()));
            }
        } else {
            proof {
                assert(s@.subrange(start as int, i + 1) =~= cur.push(s@[i as int]));
            }
        }
        i += 1;
    }
    let piece = s.substring_char(start, n).to_owned();
    let ghost prev = out.deep_view();
    out.push(piece);
    proof {
        assert(out.deep_view() =~= prev.push(piece@));
        assert(prev + seq![piece@] =~= out.deep_view());
    }
    out
}

pub open spec fn fields_acc(s: Seq<char>, i: int, cur: Seq<char>) -> Seq<Seq<char>>
    decreases s.len() - i,
    when 0 <= i <= s.len()
{
    if i >= s.len() {
        if cur.len() > 0 {
            seq![cur]
        } else {
            Seq::empty()
        }
    } else if is_space(s[i]) {
        if cur.len() > 0 {
            seq![cur] + fields_acc(s, i + 1, Seq::empty())
        } else {
            fields_acc(s, i + 1, Seq::empty())
        }
    } else {
        fields_acc(s, i + 1, cur.push(s[i]))
    }
}

/// The maximal whitespace-free pieces of `s`, in order.
pub open spec fn fields_of(s: Seq<char>) -> Seq<Seq<char>> {
    fields_acc(s, 0, Seq::empty())
}

pub fn split_fields(s: &str) -> (r: Vec<String>)
    ensures
        r.deep_view() == fields_of(s@),
{
    let n = s.unicode_len();
    let mut out: Vec<String> = Vec::new();
    let mut start: usize = 0;
    let mut i: usize = 0;
    proof {
        assert(s@.subrange(0, 0) =~= Seq::<char>::empty());
        assert(out.deep_view() =~= Seq::<Seq<char>>::empty());
        assert(out.deep_view() + fields_acc(s@, 0, Seq::empty()) =~= fields_acc(s@, 0, Seq::empty()));
    }
    while i < n
        invariant
            n == s@.len(),
            0 <= start <= i <= n,
            fields_of(s@) == out.deep_view() + fields_acc(
                s@,
                i as int,
                s@.subrange(start as int, i as int),
            ),
        decreases n - i,
    {
        let ghost cur = s@.subrange(start as int, i as int);
        let c = s.get_char(i);
        if is_space_char(c) {
            if i > start {
                let piece = s.substring_char(start, i).to_owned();
                let ghost prev = out.deep_view();
                out.push(piece);
                proof {
                    assert(out.deep_view() =~= prev.push(piece@));
                    assert(prev + (seq![cur] + fields_acc(s@, i + 1, Seq::empty()))
                        =~= out.deep_view() + fields_acc(s@, i + 1, Seq::empty()));
                }
            }
            start = i + 1;
            proof {
                assert(s@.subrange(start as int, start as int) =~= Seq::<char>::empty());
            }
        } else {
            proof {
                assert(s@.subrange(start as int, i + 1) =~= cur.push(s@[i as int]));
            }
        }
        i += 1;
    }
    if start < n {
        let piece = s.substring_char(start, n).to_owned();
        let ghost prev = out.deep_view();
        out.push(piece);
        proof {
            assert(out.deep_view() =~= prev.push(piece@));
            assert(prev + seq![piece@] =~= out.deep_view());
        }
    } else {
        proof {
            assert(out.deep_view() + Seq::<Seq<char>>::empty() =~= out.deep_view());
        }
    }
    out
}


pub open spec fn trim_start_idx(s: Seq<char>, i: int) -> int
    decreases s.len() - i,
    when 0 <= i <= s.len()
{
    if i >= s.len() {
        i
    } else if is_space(s[i]) {
        trim_start_idx(s, i + 1)
    } else {
        i
    }
}

pub open spec fn trim_end_idx(s: Seq<char>, j: int) -> int
    decreases j,
    when 0 <= j <= s.len()
{
    if j <= 0 {
        0
    } else if is_space(s[j - 1]) {
        trim_end_idx(s, j - 1)
    } else {
        j
    }
}

/// `s` without leading and trailing whitespace.
pub open spec fn trimmed(s: Seq<char>) -> Seq<char> {
    let a = trim_start_idx(s, 0);
    let b = trim_end_idx(s, s.len() as int);
    if a < b {
        s.subrange(a, b)
    } else {
        Seq::empty()
    }
}

proof fn lemma_trim_end_le(s: Seq<char>, j: int)
    requires
        0 <= j <= s.len(),
    ensures
        0 <= trim_end_idx(s, j) <= j,
    decreases j,
{
    if j > 0 && is_space(s[j - 1]) {
        lemma_trim_end_le(s, j - 1);
    }
}

pub fn trim_str(s: &str) -> (r: String)
    ensures
        r@ == trimmed(s@),
{
    let n = s.unicode_len();
    let mut a: usize = 0;
    while a < n && is_space_char(s.get_char(a))
        invariant
            n == s@.len(),
            0 <= a <= n,
            trim_start_idx(s@, 0) == trim_start_idx(s@, a as int),
        decreases n - a,
    {
        a += 1;
    }
    let mut b: usize = n;
    while b > a && is_space_char(s.get_char(b - 1))
        invariant
            n == s@.len(),
            a <= b <= n,
            trim_end_idx(s@, n as int) == trim_end_idx(s@, b as int),
        decreases b,
    {
        b -= 1;
    }
    proof {
        assert(trim_start_idx(s@, 0) == a);
        if b == a {
            lemma_trim_end_le(s@, a as int);
        }
    }
    s.substring_char(a, b).to_owned()
}

proof fn lemma_trim_start_props(s: Seq<char>, i: int)
    requires
        0 <= i <= s.len(),
    ensures
        i <= trim_start_idx(s, i) <= s.len(),
        trim_start_idx(s, i) < s.len() ==> !is_space(s[trim_start_idx(s, i)]),
    decreases s.len() - i,
{
    if i < s.len() && is_space(s[i]) {
        lemma_trim_start_props(s, i + 1);
    }
}

proof fn lemma_trim_end_props(s: Seq<char>, j: int)
    requires
        0 <= j <= s.len(),
    ensures
        0 <= trim_end_idx(s, j) <= j,
        trim_end_idx(s, j) > 0 ==> !is_space(s[trim_end_idx(s, j) - 1]),
    decreases j,
{
    if j > 0 && is_space(s[j - 1]) {
        lemma_trim_end_props(s, j - 1);
    }
}

/// Trimming is idempotent: a trimmed string has nothing more to trim.
pub proof fn lemma_trimmed_idempotent(s: Seq<char>)
    ensures
        trimmed(trimmed(s)) == trimmed(s),
{
    let a = trim_start_idx(s, 0);
    let b = trim_end_idx(s, s.len() as int);
    lemma_trim_start_props(s, 0);
    lemma_trim_end_props(s, s.len() as int);
    if a < b {
        let t = s.subrange(a, b);
        assert(!is_space(t[0]));
        assert(!is_space(t[t.len() - 1]));
        assert(trim_start_idx(t, 0) == 0);
        assert(trim_end_idx(t, t.len() as int) == t.len() as int);
        assert(t.subrange(0, t.len() as int) =~= t);
    } else {
        assert(trimmed(s) == Seq::<char>::empty());
        assert(trim_start_idx(Seq::<char>::empty(), 0) == 0);
        assert(trim_end_idx(Seq::<char>::empty(), 0) == 0);
    }
}

/// `s` without any trailing occurrences of `c`.
pub open spec fn strip_trailing_of(s: Seq<char>, c: char) -> Seq<char>
    decreases s.len(),
{
    if s.len() > 0 && s.last() == c {
        strip_trailing_of(s.drop_last(), c)
    } else {
        s
    }
}

pub fn trim_end_matches_char(s: &str, c: char) -> (r: String)
    ensures
        r@ == strip_trailing_of(s@, c),
{
    let n = s.unicode_len();
    let mut b: usize = n;
    proof {
        assert(s@.subrange(0, n as int) =~= s@);
    }
    while b > 0 && s.get_char(b - 1) == c
        invariant
            n == s@.len(),
            0 <= b <= n,
            strip_trailing_of(s@, c) == strip_trailing_of(s@.subrange(0, b as int), c),
        decreases b,
    {
        proof {
            assert(s@.subrange(0, b as int).drop_last() =~= s@.subrange(0, b - 1));
        }
        b -= 1;
    }
    s.substring_char(0, b).to_owned()
}

/// Decimal digits and the values they denote.
pub open spec fn is_digit(c: char) -> bool {
    48 <= c as int && c as int <= 57
}

pub open spec fn digit_val(c: char) -> int {
    c as int - 48
}

pub open spec fn all_digits(s: Seq<char>) -> bool {
    forall|i: int| 0 <= i < s.len() ==> is_digit(s[i])
}

/// The number that an all-digit string denotes.
pub open spec fn dec_val(s: Seq<char>) -> int
    decreases s.len(),
{
    if s.len() == 0 {
        0
    } else {
        dec_val(s.drop_last()) * 10 + digit_val(s.last())
    }
}

/// The digit part of an unsigned decimal string: an optional leading plus
/// sign is allowed, as the standard integer parser allows it.
pub open spec fn uint_digits(s: Seq<char>) -> Seq<char> {
    if s.len() > 0 && s[0] == '+' {
        s.skip(1)
    } else {
        s
    }
}

pub open spec fn is_uint_str(s: Seq<char>) -> bool {
    uint_digits(s).len() > 0 && all_digits(uint_digits(s))
}

pub open spec fn uint_val(s: Seq<char>) -> int {
    dec_val(uint_digits(s))
}

pub open spec fn parse_u64_of(s: Seq<char>) -> Option<u64> {
    if is_uint_str(s) && uint_val(s) <= u64::MAX {
        Some(uint_val(s) as u64)
    } else {
        None
    }
}

pub open spec fn parse_u32_of(s: Seq<char>) -> Option<u32> {
    if is_uint_str(s) && uint_val(s) <= u32::MAX {
        Some(uint_val(s) as u32)
    } else {
        None
    }
}

/// The digit part of a signed decimal string: one leading plus or minus
/// sign is allowed.
pub open spec fn int_digits(s: Seq<char>) -> Seq<char> {
    if s.len() > 0 && (s[0] == '+' || s[0] == '-') {
        s.skip(1)
    } else {
        s
    }
}

pub open spec fn is_int_str(s: Seq<char>) -> bool {
    int_digits(s).len() > 0 && all_digits(int_digits(s))
}

pub open spec fn int_val(s: Seq<char>) -> int {
    if s.len() > 0 && s[0] == '-' {
        -dec_val(int_digits(s))
    } else {
        dec_val(int_digits(s))
    }
}

pub open spec fn parse_i32_of(s: Seq<char>) -> Option<i32> {
    if is_int_str(s) && i32::MIN <= int_val(s) && int_val(s) <= i32::MAX {
        Some(int_val(s) as i32)
    } else {
        None
    }
}

proof fn lemma_dec_val_nonneg(s: Seq<char>)
    requires
        all_digits(s),
    ensures
        dec_val(s) >= 0,
    decreases s.len(),
{
    if s.len() > 0 {
        assert(all_digits(s.drop_last()));
        lemma_dec_val_nonneg(s.drop_last());
    }
}

/// A longer all-digit string never denotes a smaller number than one of
/// its prefixes.
proof fn lemma_dec_val_prefix(s: Seq<char>, k: int)
    requires
        0 <= k <= s.len(),
        all_digits(s),
    ensures
        dec_val(s.take(k)) <= dec_val(s),
    decreases s.len() - k,
{
    if k < s.len() {
        assert(s.take(k + 1).drop_last() =~= s.take(k));
        assert(all_digits(s.take(k)));
        lemma_dec_val_nonneg(s.take(k));
        assert(dec_val(s.take(k + 1)) == dec_val(s.take(k)) * 10 + digit_val(s.take(k + 1).last()));
        lemma_dec_val_prefix(s, k + 1);
    } else {
        assert(s.take(k) =~= s);
    }
}

/// Parse an unsigned decimal, exactly as the standard parser does: an
/// optional plus sign, then at least one digit, and the value in range.
pub fn parse_u64(s: &str) -> (r: Option<u64>)
    ensures
        r == parse_u64_of(s@),
{
    let n = s.unicode_len();
    let mut i: usize = 0;
    if n > 0 && s.get_char(0) == '+' {
        i = 1;
    }
    if i >= n {
        return None;
    }
    let ghost t = s@.subrange(i as int, n as int);
    proof {
        assert(t =~= uint_digits(s@));
    }
    let start = i;
    let mut acc: u64 = 0;
    let mut j: usize = i;
    while j < n
        invariant
            n == s@.len(),
            start <= j <= n,
            start < n,
            t == s@.subrange(start as int, n as int),
            t =~= uint_digits(s@),
            all_digits(s@.subrange(start as int, j as int)),
            acc == dec_val(s@.subrange(start as int, j as int)),
        decreases n - j,
    {
        let c = s.get_char(j);
        let cv = c as u32;
        if cv < 48 || cv > 57 {
            proof {
                assert(t[j - start] == s@[j as int]);
                assert(!is_digit(t[j - start]));
            }
            return None;
        }
        let d = (cv - 48) as u64;
        proof {
            assert(s@.subrange(start as int, j + 1).drop_last() =~= s@.subrange(
                start as int,
                j as int,
            ));
            assert(digit_val(s@[j as int]) == d);
        }
        if acc > (u64::MAX - d) / 10 {
            proof {
                if is_uint_str(s@) {
                    assert(t.take(j + 1 - start) =~= s@.subrange(start as int, j + 1));
                    lemma_dec_val_prefix(t, j + 1 - start);
                    assert(dec_val(t) > u64::MAX);
                }
            }
            return None;
        }
        acc = acc * 10 + d;
        j += 1;
    }
    proof {
        assert(s@.subrange(start as int, n as int) =~= t);
        assert(is_uint_str(s@));
        assert(uint_val(s@) == acc);
    }
    Some(acc)
}

pub fn parse_u32(s: &str) -> (r: Option<u32>)
    ensures
        r == parse_u32_of(s@),
{
    proof {
        if is_uint_str(s@) {
            lemma_dec_val_nonneg(uint_digits(s@));
        }
    }
    match parse_u64(s) {
        Some(v) => {
            if v <= 0xffff_ffff {
                Some(v as u32)
            } else {
                None
            }
        },
        None => None,
    }
}

/// Parse a signed decimal, exactly as the standard parser does: one
/// optional sign, then at least one digit, and the value in range.
pub fn parse_i32(s: &str) -> (r: Option<i32>)
    ensures
        r == parse_i32_of(s@),
{
    let n = s.unicode_len();
    let mut i: usize = 0;
    let mut neg = false;
    if n > 0 && s.get_char(0) == '+' {
        i = 1;
    } else if n > 0 && s.get_char(0) == '-' {
        i = 1;
        neg = true;
    }
    if i >= n {
        return None;
    }
    let ghost t = s@.subrange(i as int, n as int);
    proof {
        assert(t =~= int_digits(s@));
    }
    let limit: u64 = if neg {
        2147483648
    } else {
        2147483647
    };
    let start = i;
    let mut acc: u64 = 0;
    let mut j: usize = i;
    while j < n
        invariant
            n == s@.len(),
            start <= j <= n,
            start < n,
            t == s@.subrange(start as int, n as int),
            t =~= int_digits(s@),
            all_digits(s@.subrange(start as int, j as int)),
            acc == dec_val(s@.subrange(start as int, j as int)),
            acc <= limit,
            limit == if neg { 2147483648u64 } else { 2147483647u64 },
            neg == (s@[0] == '-'),
        decreases n - j,
    {
        let c = s.get_char(j);
        let cv = c as u32;
        if cv < 48 || cv > 57 {
            proof {
                assert(t[j - start] == s@[j as int]);
                assert(!is_digit(t[j - start]));
            }
            return None;
        }
        let d = (cv - 48) as u64;
        proof {
            assert(s@.subrange(start as int, j + 1).drop_last() =~= s@.subrange(
                start as int,
                j as int,
            ));
            assert(digit_val(s@[j as int]) == d);
        }
        if acc > limit / 10 || acc * 10 > limit - d {
            proof {
                if is_int_str(s@) {
                    assert(t.take(j + 1 - start) =~= s@.subrange(start as int, j + 1));
                    lemma_dec_val_prefix(t, j + 1 - start);
                    assert(dec_val(t) > limit);
                }
            }
            return None;
        }
        acc = acc * 10 + d;
        j += 1;
    }
    proof {
        assert(s@.subrange(start as int, n as int) =~= t);
        assert(is_int_str(s@));
        assert(dec_val(int_digits(s@)) == acc);
    }
    if neg {
        Some((-(acc as i64)) as i32)
    } else {
        Some(acc as i32)
    }
}


pub open spec fn split_str_acc(s: Seq<char>, sep: Seq<char>, i: int, cur: Seq<char>) -> Seq<
    Seq<char>,
>
    decreases s.len() - i,
    when 0 <= i <= s.len() && sep.len() >= 1
{
    if i + sep.len() > s.len() {
        seq![cur + s.subrange(i, s.len() as int)]
    } else if s.subrange(i, i + sep.len() as int) == sep {
        seq![cur] + split_str_acc(s, sep, i + sep.len() as int, Seq::empty())
    } else {
        split_str_acc(s, sep, i + 1, cur.push(s[i]))
    }
}

/// The pieces of `s` between successive, non-overlapping, leftmost
/// occurrences of `sep`; empty pieces are kept, and there is always at
/// least one piece.
pub open spec fn split_str_of(s: Seq<char>, sep: Seq<char>) -> Seq<Seq<char>> {
    split_str_acc(s, sep, 0, Seq::empty())
}

pub fn split_on_str(s: &str, sep: &str) -> (r: Vec<String>)
    requires
        sep@.len() >= 1,
    ensures
        r.deep_view() == split_str_of(s@, sep@),
{
    let n = s.unicode_len();
    let m = sep.unicode_len();
    let mut out: Vec<String> = Vec::new();
    if m > n {
        out.push(s.to_owned());
        proof {
            assert(Seq::<char>::empty() + s@.subrange(0, n as int) =~= s@);
            assert(out.deep_view() =~= split_str_of(s@, sep@));
        }
        return out;
    }
    let mut start: usize = 0;
    let mut i: usize = 0;
    proof {
        assert(s@.subrange(0, 0) =~= Seq::<char>::empty());
        assert(out.deep_view() =~= Seq::<Seq<char>>::empty());
        assert(out.deep_view() + split_str_acc(s@, sep@, 0, Seq::empty()) =~= split_str_acc(
            s@,
            sep@,
            0,
            Seq::empty(),
        ));
    }
    while i <= n - m
        invariant
            n == s@.len(),
            m == sep@.len(),
            1 <= m <= n,
            0 <= start <= i <= n,
            split_str_of(s@, sep@) == out.deep_view() + split_str_acc(
                s@,
                sep@,
                i as int,
                s@.subrange(start as int, i as int),
            ),
        decreases n - i,
    {
        let ghost cur = s@.subrange(start as int, i as int);
        if match_at(s, sep, i) {
            let piece = s.substring_char(start, i).to_owned();
            let ghost prev = out.deep_view();
            out.push(piece);
            start = i + m;
            i = i + m;
            proof {
                assert(out.deep_view() =~= prev.push(piece@));
                assert(s@.subrange(start as int, start as int) =~= Seq::<char>::empty());
                assert(prev + (seq![cur] + split_str_acc(s@, sep@, i as int, Seq::empty()))
                    =~= out.deep_view() + split_str_acc(s@, sep@, i as int, Seq::empty()));
            }
        } else {
            proof {
                assert(s@.subrange(start as int, i + 1) =~= cur.push(s@[i as int]));
            }
            i += 1;
        }
    }
    let piece = s.substring_char(start, n).to_owned();
    let ghost prev = out.deep_view();
    out.push(piece);
    proof {
        assert(i + m > n);
        assert(s@.subrange(start as int, i as int) + s@.subrange(i as int, n as int) =~= s@
            .subrange(start as int, n as int));
        assert(out.deep_view() =~= prev.push(piece@));
        assert(prev + seq![piece@] =~= out.deep_view());
    }
    out
}

pub open spec fn dec_digit_char(d: int) -> char {
    if d == 0 {
        '0'
    } else if d == 1 {
        '1'
    } else if d == 2 {
        '2'
    } else if d == 3 {
        '3'
    } else if d == 4 {
        '4'
    } else if d == 5 {
        '5'
    } else if d == 6 {
        '6'
    } else if d == 7 {
        '7'
    } else if d == 8 {
        '8'
    } else {
        '9'
    }
}

/// The decimal rendering of a non-negative number, without sign or
/// leading zeros.
pub open spec fn dec_str_of(n: int) -> Seq<char>
    decreases n,
    when n >= 0
{
    if n < 10 {
        seq![dec_digit_char(n)]
    } else {
        dec_str_of(n / 10) + seq![dec_digit_char(n % 10)]
    }
}

/// The decimal rendering of a number, with a leading minus sign when it
/// is negative.
pub open spec fn int_str_of(v: int) -> Seq<char> {
    if v < 0 {
        seq!['-'] + dec_str_of(-v)
    } else {
        dec_str_of(v)
    }
}

fn push_dec_digit(out: &mut String, d: u64)
    requires
        d < 10,
    ensures
        final(out)@ == old(out)@ + seq![dec_digit_char(d as int)],
{
    if d == 0 {
        out.append("0");
        proof {
            reveal_strlit("0");
            assert(out@ =~= old(out)@ + seq![dec_digit_char(d as int)]);
        }
    } else if d == 1 {
        out.append("1");
        proof {
            reveal_strlit("1");
            assert(out@ =~= old(out)@ + seq![dec_digit_char(d as int)]);
        }
    } else if d == 2 {
        out.append("2");
        proof {
            reveal_strlit("2");
            assert(out@ =~= old(out)@ + seq![dec_digit_char(d as int)]);
        }
    } else if d == 3 {
        out.append("3");
        proof {
            reveal_strlit("3");
            assert(out@ =~= old(out)@ + seq![dec_digit_char(d as int)]);
        }
    } else if d == 4 {
        out.append("4");
        proof {
            reveal_strlit("4");
            assert(out@ =~= old(out)@ + seq![dec_digit_char(d as int)]);
        }
    } else if d == 5 {
        out.append("5");
        proof {
            reveal_strlit("5");
            assert(out@ =~= old(out)@ + seq![dec_digit_char(d as int)]);
        }
    } else if d == 6 {
        out.append("6");
        proof {
            reveal_strlit("6");
            assert(out@ =~= old(out)@ + seq![dec_digit_char(d as int)]);
        }
    } else if d == 7 {
        out.append("7");
        proof {
            reveal_strlit("7");
            assert(out@ =~= old(out)@ + seq![dec_digit_char(d as int)]);
        }
    } else if d == 8 {
        out.append("8");
        proof {
            reveal_strlit("8");
            assert(out@ =~= old(out)@ + seq![dec_digit_char(d as int)]);
        }
    } else {
        out.append("9");
        proof {
            reveal_strlit("9");
            assert(out@ =~= old(out)@ + seq![dec_digit_char(d as int)]);
        }
    }
}

pub fn append_u64_dec(out: &mut String, n: u64)
    ensures
        final(out)@ == old(out)@ + dec_str_of(n as int),
    decreases n,
{
    if n < 10 {
        push_dec_digit(out, n);
    } else {
        append_u64_dec(out, n / 10);
        push_dec_digit(out, n % 10);
        proof {
            assert(out@ =~= old(out)@ + dec_str_of(n as int));
        }
    }
}

pub fn u64_to_string(n: u64) -> (r: String)
    ensures
        r@ == dec_str_of(n as int),
{
    let mut out = String::new();
    append_u64_dec(&mut out, n);
    proof {
        assert(Seq::<char>::empty() + dec_str_of(n as int) =~= dec_str_of(n as int));
    }
    out
}

pub fn append_i32_dec(out: &mut String, n: i32)
    ensures
        final(out)@ == old(out)@ + int_str_of(n as int),
{
    if n < 0 {
        out.append("-");
        let mag: u64 = if n == i32::MIN {
            2147483648
        } else {
            (-n) as u64
        };
        append_u64_dec(out, mag);
        proof {
            reveal_strlit("-");
            assert("-"@ =~= seq!['-']);
            assert(out@ =~= old(out)@ + int_str_of(n as int));
        }
    } else {
        append_u64_dec(out, n as u64);
    }
}

pub fn i32_to_string(n: i32) -> (r: String)
    ensures
        r@ == int_str_of(n as int),
{
    let mut out = String::new();
    append_i32_dec(&mut out, n);
    proof {
        assert(Seq::<char>::empty() + int_str_of(n as int) =~= int_str_of(n as int));
    }
    out
}


proof fn lemma_dec_str_digits(n: int)
    requires
        n >= 0,
    ensures
        dec_str_of(n).len() >= 1,
        all_digits(dec_str_of(n)),
        dec_val(dec_str_of(n)) == n,
    decreases n,
{
    assert(digit_val(dec_digit_char(n % 10)) == n % 10);
    if n < 10 {
        assert(dec_str_of(n) =~= seq![dec_digit_char(n)]);
        assert(dec_str_of(n).drop_last() =~= Seq::<char>::empty());
        assert(dec_val(Seq::<char>::empty()) == 0);
    } else {
        lemma_dec_str_digits(n / 10);
        assert(dec_str_of(n).drop_last() =~= dec_str_of(n / 10));
        assert(dec_str_of(n).last() == dec_digit_char(n % 10));
    }
}

/// A rendered number reads back as itself: parsing the decimal rendering
/// of any machine word yields exactly that word.
pub proof fn lemma_u64_round_trip(n: u64)
    ensures
        parse_u64_of(dec_str_of(n as int)) == Some(n),
{
    lemma_dec_str_digits(n as int);
    assert(!is_digit('+'));
    assert(uint_digits(dec_str_of(n as int)) == dec_str_of(n as int));
}

/// A rendered signed number reads back as itself.
pub proof fn lemma_i32_round_trip(n: i32)
    ensures
        parse_i32_of(int_str_of(n as int)) == Some(n),
{
    lemma_dec_str_digits(if n >= 0 { n as int } else { -(n as int) });
    if n >= 0 {
        assert(!is_digit('+'));
        assert(int_digits(int_str_of(n as int)) == dec_str_of(n as int));
    } else {
        let s = int_str_of(n as int);
        assert(s[0] == '-');
        assert(s.skip(1) =~= dec_str_of(-(n as int)));
    }
}

} // verus!
