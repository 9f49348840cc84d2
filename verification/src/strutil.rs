//! Verified building blocks for the string work the provisioner does:
//! prefix tests, concatenation, searching, splitting, and digit parsing.

use vstd::prelude::*;

verus! {

/// `prefix` stands at the front of `s`.
pub open spec fn seq_is_prefix(s: Seq<char>, prefix: Seq<char>) -> bool {
    prefix.len() <= s.len() && s.subrange(0, prefix.len() as int) == prefix
}

/// Character-by-character prefix test over arbitrary strings.
pub fn str_starts_with(s: &str, prefix: &str) -> (r: bool)
    ensures
        r == seq_is_prefix(s@, prefix@),
{
    let n = prefix.unicode_len();
    let sn = s.unicode_len();
    if n > sn {
        assert(!seq_is_prefix(s@, prefix@));
        return false;
    }
    let mut i: usize = 0;
    while i < n
        invariant
            i <= n,
            n <= sn,
            n == prefix@.len(),
            sn == s@.len(),
            forall|j: int| 0 <= j < i ==> s@[j] == prefix@[j],
        decreases n - i,
    {
        if s.get_char(i) != prefix.get_char(i) {
            assert(s@.subrange(0, n as int)[i as int] != prefix@[i as int]);
            return false;
        }
        i += 1;
    }
    assert(s@.subrange(0, n as int) =~= prefix@);
    true
}

/// String equality by contents, for `&str` operands.
pub fn str_eq(a: &str, b: &str) -> (r: bool)
    ensures
        r == (a@ == b@),
{
    let n = a.unicode_len();
    if n != b.unicode_len() {
        return false;
    }
    let mut i: usize = 0;
    while i < n
        invariant
            i <= n,
            n == a@.len(),
            n == b@.len(),
            forall|j: int| 0 <= j < i ==> a@[j] == b@[j],
        decreases n - i,
    {
        if a.get_char(i) != b.get_char(i) {
            return false;
        }
        i += 1;
    }
    assert(a@ =~= b@);
    true
}

/// Concatenation of two string slices into a fresh `String`.
pub fn str_concat(a: &str, b: &str) -> (r: String)
    ensures
        r@ == a@ + b@,
{
    let mut r = String::from_str(a);
    r.append(b);
    r
}

/// Concatenation of three string slices into a fresh `String`.
pub fn str_concat3(a: &str, b: &str, c: &str) -> (r: String)
    ensures
        r@ == a@ + b@ + c@,
{
    let mut r = String::from_str(a);
    r.append(b);
    r.append(c);
    r
}

/// What stands behind `prefix` in `s`, when `s` begins with `prefix`.
pub fn str_strip_prefix<'a>(s: &'a str, prefix: &str) -> (r: Option<&'a str>)
    ensures
        r is Some <==> seq_is_prefix(s@, prefix@),
        r is Some ==> r->0@ == s@.skip(prefix@.len() as int),
{
    if str_starts_with(s, prefix) {
        let rest = s.substring_char(prefix.unicode_len(), s.unicode_len());
        assert(rest@ =~= s@.skip(prefix@.len() as int));
        Some(rest)
    } else {
        None
    }
}

/// Index of the first occurrence of `c` in `s` at or after position `i`.
pub open spec fn find_char_from(s: Seq<char>, c: char, i: int) -> Option<int>
    decreases s.len() - i,
{
    if i >= s.len() {
        None
    } else if s[i] == c {
        Some(i)
    } else {
        find_char_from(s, c, i + 1)
    }
}

/// The result of `find_char_from` is an occurrence of `c`, and the first one.
pub proof fn lemma_find_char_from(s: Seq<char>, c: char, i: int)
    requires
        0 <= i,
    ensures
        match find_char_from(s, c, i) {
            Some(k) => i <= k < s.len() && s[k] == c && forall|j: int| i <= j < k ==> s[j] != c,
            None => forall|j: int| i <= j < s.len() ==> s[j] != c,
        },
    decreases s.len() - i,
{
    if i >= s.len() {
    } else if s[i] == c {
    } else {
        lemma_find_char_from(s, c, i + 1);
    }
}

/// First occurrence of a character, scanning left to right.
pub fn find_char(s: &str, c: char) -> (r: Option<usize>)
    ensures
        match r {
            Some(k) => find_char_from(s@, c, 0) == Some(k as int),
            None => find_char_from(s@, c, 0) is None,
        },
{
    let n = s.unicode_len();
    let mut i: usize = 0;
    while i < n
        invariant
            i <= n,
            n == s@.len(),
            find_char_from(s@, c, 0) == find_char_from(s@, c, i as int),
        decreases n - i,
    {
        if s.get_char(i) == c {
            return Some(i);
        }
        i += 1;
    }
    None
}

/// Index of the last occurrence of `c` in `s`, or `-1` when there is none.
pub open spec fn last_index_of(s: Seq<char>, c: char) -> int
    decreases s.len(),
{
    if s.len() == 0 {
        -1
    } else if s.last() == c {
        s.len() - 1
    } else {
        last_index_of(s.drop_last(), c)
    }
}

/// What `last_index_of` returns is an occurrence, and the last one.
pub proof fn lemma_last_index_of(s: Seq<char>, c: char)
    ensures
        last_index_of(s, c) >= 0 ==> last_index_of(s, c) < s.len() && s[last_index_of(s, c)] == c
            && forall|j: int| last_index_of(s, c) < j < s.len() ==> s[j] != c,
        last_index_of(s, c) < 0 ==> last_index_of(s, c) == -1 && forall|j: int|
            0 <= j < s.len() ==> s[j] != c,
    decreases s.len(),
{
    if s.len() == 0 {
    } else if s.last() == c {
    } else {
        lemma_last_index_of(s.drop_last(), c);
        assert(forall|j: int| 0 <= j < s.len() - 1 ==> s[j] == s.drop_last()[j]);
    }
}

/// Last occurrence of a character, scanning right to left.
pub fn rfind_char(s: &str, c: char) -> (r: Option<usize>)
    ensures
        match r {
            Some(k) => last_index_of(s@, c) == k as int,
            None => last_index_of(s@, c) == -1,
        },
{
    let n = s.unicode_len();
    let mut i: usize = n;
    while i > 0
        invariant
            i <= n,
            n == s@.len(),
            forall|j: int| i <= j < s@.len() ==> s@[j] != c,
        decreases i,
    {
        i -= 1;
        if s.get_char(i) == c {
            proof {
                lemma_last_index_of(s@, c);
            }
            return Some(i);
        }
    }
    proof {
        lemma_last_index_of(s@, c);
    }
    None
}

/// `p` occurs in `s` starting at position `i`.
pub open spec fn match_at(s: Seq<char>, p: Seq<char>, i: int) -> bool {
    0 <= i && i + p.len() <= s.len() && s.subrange(i, i + p.len() as int) == p
}

/// Position of the first occurrence of `p` in `s` at or after position `i`.
/// An empty pattern matches immediately.
pub open spec fn first_match_from(s: Seq<char>, p: Seq<char>, i: int) -> Option<int>
    decreases s.len() - i,
{
    if i > s.len() {
        None
    } else if p.len() == 0 {
        Some(i)
    } else if i + p.len() > s.len() {
        None
    } else if s.subrange(i, i + p.len() as int) == p {
        Some(i)
    } else {
        first_match_from(s, p, i + 1)
    }
}

/// Position of the first occurrence of `p` in `s`, if any.
pub open spec fn first_match(s: Seq<char>, p: Seq<char>) -> Option<int> {
    first_match_from(s, p, 0)
}

/// The result of `first_match_from` is a match, and the first one.
pub proof fn lemma_first_match_from(s: Seq<char>, p: Seq<char>, i: int)
    requires
        0 <= i,
    ensures
        match first_match_from(s, p, i) {
            Some(k) => i <= k && match_at(s, p, k) && forall|j: int|
                i <= j < k ==> !match_at(s, p, j),
            None => forall|j: int| i <= j ==> !match_at(s, p, j),
        },
    decreases s.len() - i,
{
    if i > s.len() {
    } else if p.len() == 0 {
        assert(s.subrange(i, i) =~= p);
    } else if i + p.len() > s.len() {
    } else if s.subrange(i, i + p.len() as int) == p {
    } else {
        lemma_first_match_from(s, p, i + 1);
    }
}

/// Does `p` stand at position `i` of `s`?
fn match_at_exec(s: &str, p: &str, i: usize) -> (r: bool)
    requires
        i + p@.len() <= s@.len(),
    ensures
        r == match_at(s@, p@, i as int),
{
    let n = p.unicode_len();
    let sn = s.unicode_len();
    let mut j: usize = 0;
    while j < n
        invariant
            j <= n,
            n == p@.len(),
            sn == s@.len(),
            i + n <= sn,
            forall|k: int| 0 <= k < j ==> s@[i + k] == p@[k],
        decreases n - j,
    {
        if s.get_char(i + j) != p.get_char(j) {
            assert(s@.subrange(i as int, i + n as int)[j as int] != p@[j as int]);
            return false;
        }
        j += 1;
    }
    assert(s@.subrange(i as int, i + n as int) =~= p@);
    true
}

/// First occurrence of the pattern `p` in `s`, scanning left to right.
pub fn str_find(s: &str, p: &str) -> (r: Option<usize>)
    ensures
        match r {
            Some(k) => first_match(s@, p@) == Some(k as int),
            None => first_match(s@, p@) is None,
        },
{
    let n = s.unicode_len();
    let pn = p.unicode_len();
    if pn == 0 {
        return Some(0);
    }
    if pn > n {
        return None;
    }
    let mut i: usize = 0;
    while i <= n - pn
        invariant
            i <= n - pn + 1,
            1 <= pn <= n,
            n == s@.len(),
            pn == p@.len(),
            first_match(s@, p@) == first_match_from(s@, p@, i as int),
        decreases n - i,
    {
        if match_at_exec(s, p, i) {
            return Some(i);
        }
        assert(first_match_from(s@, p@, i as int) == first_match_from(s@, p@, i + 1));
        i += 1;
    }
    None
}

/// Does `p` occur anywhere in `s`?
pub fn str_contains(s: &str, p: &str) -> (r: bool)
    ensures
        r == (first_match(s@, p@) is Some),
{
    str_find(s, p).is_some()
}

/// `s` with the first occurrence of `p` replaced by `rep`; `s` itself when
/// `p` does not occur.
pub open spec fn replace_first_spec(s: Seq<char>, p: Seq<char>, rep: Seq<char>) -> Seq<char> {
    match first_match(s, p) {
        Some(i) => s.take(i) + rep + s.skip(i + p.len() as int),
        None => s,
    }
}

/// Replace the first occurrence of `pat` in `s` by `rep`.
pub fn replace_first(s: &str, pat: &str, rep: &str) -> (r: String)
    ensures
        r@ == replace_first_spec(s@, pat@, rep@),
{
    match str_find(s, pat) {
        Some(i) => {
            proof {
                lemma_first_match_from(s@, pat@, 0);
            }
            let n = s.unicode_len();
            let head = s.substring_char(0, i);
            let tail = s.substring_char(i + pat.unicode_len(), n);
            let mut r = String::from_str(head);
            r.append(rep);
            r.append(tail);
            assert(head@ =~= s@.take(i as int));
            assert(tail@ =~= s@.skip(i + pat@.len() as int));
            r
        },
        None => String::from_str(s),
    }
}

/// The pieces of `s` between occurrences of the separator `c`. Always at
/// least one piece; a separator at the very end yields a final empty piece.
pub open spec fn split_spec(s: Seq<char>, c: char) -> Seq<Seq<char>>
    decreases s.len(),
    via split_spec_decreases
{
    match find_char_from(s, c, 0) {
        None => seq![s],
        Some(i) => seq![s.take(i)] + split_spec(s.skip(i + 1), c),
    }
}

#[via_fn]
proof fn split_spec_decreases(s: Seq<char>, c: char) {
    lemma_find_char_from(s, c, 0);
}

/// A split has at least one piece, and none of the pieces holds the separator.
pub proof fn lemma_split_spec_len(s: Seq<char>, c: char)
    ensures
        split_spec(s, c).len() >= 1,
    decreases s.len(),
{
    lemma_find_char_from(s, c, 0);
    match find_char_from(s, c, 0) {
        None => {},
        Some(i) => {
            lemma_split_spec_len(s.skip(i + 1), c);
        },
    }
}

/// Split `s` at every occurrence of the separator `c`.
pub fn split_char(s: &str, c: char) -> (r: Vec<String>)
    ensures
        r.deep_view() == split_spec(s@, c),
        r.len() >= 1,
    decreases s@.len(),
{
    proof {
        lemma_find_char_from(s@, c, 0);
    }
    match find_char(s, c) {
        None => {
            let mut r: Vec<String> = Vec::new();
            r.push(String::from_str(s));
            assert(r.deep_view() =~= split_spec(s@, c));
            r
        },
        Some(i) => {
            let n = s.unicode_len();
            let head = s.substring_char(0, i);
            let tail = s.substring_char(i + 1, n);
            let mut r = split_char(tail, c);
            r.insert(0, String::from_str(head));
            assert(head@ =~= s@.take(i as int));
            assert(tail@ =~= s@.skip(i + 1));
            assert(r.deep_view() =~= split_spec(s@, c));
            r
        },
    }
}

/// A line with one trailing carriage return removed, as a text reader does.
pub open spec fn chomp_cr(l: Seq<char>) -> Seq<char> {
    if l.len() > 0 && l.last() == '\r' {
        l.drop_last()
    } else {
        l
    }
}

/// Every piece of `ls`, each stripped of one trailing carriage return.
pub open spec fn chomp_all(ls: Seq<Seq<char>>) -> Seq<Seq<char>> {
    ls.map_values(|l: Seq<char>| chomp_cr(l))
}

/// The lines of a text: pieces between newline characters, without a final
/// empty piece after a terminating newline, each stripped of one trailing
/// carriage return.
pub open spec fn lines_spec(s: Seq<char>) -> Seq<Seq<char>> {
    let raw = split_spec(s, '\n');
    let kept = if raw.last().len() == 0 {
        raw.drop_last()
    } else {
        raw
    };
    chomp_all(kept)
}

/// Split a text into its lines.
pub fn split_lines(s: &str) -> (r: Vec<String>)
    ensures
        r.deep_view() == lines_spec(s@),
{
    proof {
        lemma_split_spec_len(s@, '\n');
    }
    let mut raw = split_char(s, '\n');
    let last_len = raw[raw.len() - 1].as_str().unicode_len();
    if last_len == 0 {
        raw.pop();
    }
    let ghost kept = raw.deep_view();
    let mut r: Vec<String> = Vec::new();
    let mut i: usize = 0;
    while i < raw.len()
        invariant
            i <= raw.len(),
            raw.deep_view() == kept,
            r.deep_view() == chomp_all(kept.subrange(0, i as int)),
        decreases raw.len() - i,
    {
        let line = &raw[i];
        let n = line.as_str().unicode_len();
        let stripped: String = if n > 0 && line.as_str().get_char(n - 1) == '\r' {
            String::from_str(line.as_str().substring_char(0, n - 1))
        } else {
            String::from_str(line.as_str())
        };
        assert(stripped@ =~= chomp_cr(kept[i as int]));
        let ghost prev = r.deep_view();
        assert(chomp_all(kept.subrange(0, i as int)).len() == i);
        r.push(stripped);
        proof {
            let target = chomp_all(kept.subrange(0, i + 1));
            assert(r.deep_view().len() == i + 1);
            assert(target.len() == i + 1);
            assert forall|k: int| 0 <= k < i + 1 implies r.deep_view()[k] == target[k] by {
                assert(target[k] == chomp_cr(kept.subrange(0, i + 1)[k]));
                if k < i {
                    assert(r.deep_view()[k] == prev[k]);
                    assert(prev[k] == chomp_cr(kept.subrange(0, i as int)[k]));
                }
            }
            assert(r.deep_view() =~= target);
        }
        i += 1;
    }
    assert(kept.subrange(0, kept.len() as int) =~= kept);
    assert(r.deep_view() =~= lines_spec(s@));
    r
}

/// `c` is a decimal digit.
pub open spec fn is_digit_char(c: char) -> bool {
    48 <= c as u32 <= 57
}

/// Numeric value of a decimal digit.
pub open spec fn digit_val(c: char) -> int {
    c as u32 - 48
}

/// Numeric value of a sequence of decimal digits, most significant first.
pub open spec fn digits_val(s: Seq<char>) -> int
    decreases s.len(),
{
    if s.len() == 0 {
        0
    } else {
        digits_val(s.drop_last()) * 10 + digit_val(s.last())
    }
}

/// Every character of `s` is a decimal digit.
pub open spec fn all_digits(s: Seq<char>) -> bool {
    forall|i: int| 0 <= i < s.len() ==> is_digit_char(s[i])
}

/// `s` is a run of digits short enough that its value fits in a `u64`.
pub open spec fn is_dec_u64(s: Seq<char>) -> bool {
    1 <= s.len() <= 19 && all_digits(s)
}

/// Ten to the power `n`.
pub open spec fn pow10(n: nat) -> int
    decreases n,
{
    if n == 0 {
        1
    } else {
        10 * pow10((n - 1) as nat)
    }
}

/// `pow10` never shrinks as the exponent grows.
proof fn lemma_pow10_le(a: nat, b: nat)
    requires
        a <= b,
    ensures
        1 <= pow10(a) <= pow10(b),
    decreases b,
{
    if a == b {
        if b > 0 {
            lemma_pow10_le((a - 1) as nat, (b - 1) as nat);
        }
    } else {
        lemma_pow10_le(a, (b - 1) as nat);
    }
}

/// Extending a digit run by one digit multiplies its value by ten.
proof fn lemma_digits_val_step(s: Seq<char>, i: int)
    requires
        0 <= i < s.len(),
    ensures
        digits_val(s.take(i + 1)) == digits_val(s.take(i)) * 10 + digit_val(s[i]),
{
    assert(s.take(i + 1).drop_last() =~= s.take(i));
    assert(s.take(i + 1).last() == s[i]);
}

/// Parse a run of decimal digits as a `u64`. Rejects the empty string, any
/// non-digit, and runs of more than nineteen digits.
pub fn parse_u64(s: &str) -> (r: Option<u64>)
    ensures
        r is Some <==> is_dec_u64(s@),
        r is Some ==> r->0 as int == digits_val(s@),
{
    let n = s.unicode_len();
    if n == 0 || n > 19 {
        return None;
    }
    let mut acc: u64 = 0;
    let mut i: usize = 0;
    while i < n
        invariant
            i <= n,
            1 <= n <= 19,
            n == s@.len(),
            all_digits(s@.take(i as int)),
            acc as int == digits_val(s@.take(i as int)),
            (acc as int) < pow10(i as nat),
        decreases n - i,
    {
        let c = s.get_char(i);
        let cv = c as u32;
        if cv < 48 || cv > 57 {
            assert(!is_digit_char(s@[i as int]));
            return None;
        }
        let d = (cv - 48) as u64;
        proof {
            lemma_digits_val_step(s@, i as int);
            lemma_pow10_le((i + 1) as nat, 19);
            assert(pow10(19) == 10_000_000_000_000_000_000) by {
                reveal_with_fuel(pow10, 20);
            }
            assert(acc as int * 10 + d < pow10((i + 1) as nat)) by (nonlinear_arith)
                requires
                    0 <= (acc as int) < pow10(i as nat),
                    0 <= d <= 9,
                    pow10((i + 1) as nat) == 10 * pow10(i as nat),
            {}
            assert(s@.take(i + 1) =~= s@.take(i as int).push(s@[i as int]));
        }
        acc = acc * 10 + d;
        i += 1;
    }
    assert(s@.take(n as int) =~= s@);
    Some(acc)
}

} // verus!
