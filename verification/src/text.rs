//! Character-level text helpers shared by the IRC parser, the commands and
//! the JSON crawler.

use vstd::prelude::*;

verus! {

/// `s` starts with `prefix`.
pub open spec fn starts_with(s: Seq<char>, prefix: Seq<char>) -> bool {
    prefix.len() <= s.len() && s.subrange(0, prefix.len() as int) == prefix
}

/// The pieces of `s` between occurrences of `d`, as `str::split` with a
/// one-character pattern gives them (empty pieces included).
pub open spec fn split_on(s: Seq<char>, d: char) -> Seq<Seq<char>>
    decreases s.len(),
{
    if s.len() == 0 {
        seq![Seq::<char>::empty()]
    } else {
        let init = split_on(s.drop_last(), d);
        if s.last() == d {
            init.push(Seq::<char>::empty())
        } else {
            init.update(init.len() - 1, init.last().push(s.last()))
        }
    }
}

pub proof fn lemma_split_on_len(s: Seq<char>, d: char)
    ensures
        split_on(s, d).len() >= 1,
    decreases s.len(),
{
    if s.len() > 0 {
        lemma_split_on_len(s.drop_last(), d);
    }
}

/// The pieces of `pieces`, each followed by `sep` but the last.
pub open spec fn join_with(pieces: Seq<Seq<char>>, sep: Seq<char>) -> Seq<char>
    decreases pieces.len(),
{
    if pieces.len() == 0 {
        Seq::<char>::empty()
    } else if pieces.len() == 1 {
        pieces[0]
    } else {
        join_with(pieces.drop_last(), sep) + sep + pieces.last()
    }
}

/// The character is a one-byte (ASCII) character.
pub open spec fn is_ascii_char(c: char) -> bool {
    (c as u32) < 0x80
}

/// Number of bytes that UTF-8 uses for `c`.
pub open spec fn utf8_width(c: char) -> nat {
    if (c as u32) < 0x80 {
        1
    } else if (c as u32) < 0x800 {
        2
    } else if (c as u32) < 0x10000 {
        3
    } else {
        4
    }
}

/// Number of bytes that UTF-8 uses for `s`.
pub open spec fn utf8_len(s: Seq<char>) -> nat
    decreases s.len(),
{
    if s.len() == 0 {
        0
    } else {
        utf8_len(s.drop_last()) + utf8_width(s.last())
    }
}

/// Calls `String::push`: the string gains the character at its end.
#[verifier::external_body]
pub(crate) fn push_char(s: &mut String, c: char)
    ensures
        final(s)@ == old(s)@.push(c),
{
    s.push(c);
}

/// The characters of `s`.
pub fn chars_of(s: &str) -> (v: Vec<char>)
    ensures
        v@ == s@,
{
    let n = s.unicode_len();
    let mut v: Vec<char> = Vec::new();
    let mut i: usize = 0;
    while i < n
        invariant
            n == s@.len(),
            i <= n,
            v@ == s@.take(i as int),
        decreases n - i,
    {
        let c = s.get_char(i);
        v.push(c);
        i = i + 1;
        assert(v@ =~= s@.take(i as int));
    }
    assert(v@ =~= s@);
    v
}

/// A string made of the characters of `v`.
pub fn string_of(v: &Vec<char>) -> (s: String)
    ensures
        s@ == v@,
{
    let mut s = String::new();
    let mut i: usize = 0;
    while i < v.len()
        invariant
            i <= v.len(),
            s@ == v@.take(i as int),
        decreases v.len() - i,
    {
        push_char(&mut s, v[i]);
        i = i + 1;
        assert(s@ =~= v@.take(i as int));
    }
    assert(v@.take(v.len() as int) =~= v@);
    s
}

/// The characters `v[from..to]` as a string.
pub fn string_of_range(v: &Vec<char>, from: usize, to: usize) -> (s: String)
    requires
        from <= to <= v.len(),
    ensures
        s@ == v@.subrange(from as int, to as int),
{
    let mut s = String::new();
    let mut i: usize = from;
    while i < to
        invariant
            from <= i <= to <= v.len(),
            s@ == v@.subrange(from as int, i as int),
        decreases to - i,
    {
        push_char(&mut s, v[i]);
        i = i + 1;
        assert(s@ =~= v@.subrange(from as int, i as int));
    }
    s
}

/// Whether `s` starts with `prefix`.
pub fn begins_with(s: &str, prefix: &str) -> (r: bool)
    ensures
        r == starts_with(s@, prefix@),
{
    let n = s.unicode_len();
    let m = prefix.unicode_len();
    if m > n {
        return false;
    }
    let mut i: usize = 0;
    while i < m
        invariant
            n == s@.len(),
            m == prefix@.len(),
            m <= n,
            i <= m,
            forall|j: int| 0 <= j < i ==> s@[j] == prefix@[j],
        decreases m - i,
    {
        if s.get_char(i) != prefix.get_char(i) {
            assert(s@.subrange(0, m as int)[i as int] != prefix@[i as int]);
            return false;
        }
        i = i + 1;
    }
    assert(s@.subrange(0, m as int) =~= prefix@);
    true
}

/// Whether two strings hold the same characters.
pub fn str_equal(a: &str, b: &str) -> (r: bool)
    ensures
        r == (a@ == b@),
{
    let n = a.unicode_len();
    let m = b.unicode_len();
    if n != m {
        return false;
    }
    let mut i: usize = 0;
    while i < n
        invariant
            n == a@.len(),
            m == b@.len(),
            n == m,
            i <= n,
            forall|j: int| 0 <= j < i ==> a@[j] == b@[j],
        decreases n - i,
    {
        if a.get_char(i) != b.get_char(i) {
            return false;
        }
        i = i + 1;
    }
    assert(a@ =~= b@);
    true
}

/// Whether two character vectors are equal.
pub fn chars_equal(a: &Vec<char>, b: &Vec<char>) -> (r: bool)
    ensures
        r == (a@ == b@),
{
    if a.len() != b.len() {
        return false;
    }
    let mut i: usize = 0;
    while i < a.len()
        invariant
            a.len() == b.len(),
            i <= a.len(),
            forall|j: int| 0 <= j < i ==> a@[j] == b@[j],
        decreases a.len() - i,
    {
        if a[i] != b[i] {
            return false;
        }
        i = i + 1;
    }
    assert(a@ =~= b@);
    true
}

/// Splits `s` at every `d`, as `str::split` does with a one-character
/// pattern.
pub fn split_chars(s: &Vec<char>, d: char) -> (pieces: Vec<Vec<char>>)
    ensures
        pieces.deep_view() == split_on(s@, d),
{
    let mut pieces: Vec<Vec<char>> = Vec::new();
    let mut current: Vec<char> = Vec::new();
    let mut i: usize = 0;
    while i < s.len()
        invariant
            i <= s.len(),
            pieces.deep_view().push(current@) == split_on(s@.take(i as int), d),
        decreases s.len() - i,
    {
        let ghost before = pieces.deep_view().push(current@);
        assert(s@.take(i + 1).drop_last() =~= s@.take(i as int));
        let c = s[i];
        if c == d {
            let ghost pd = pieces.deep_view();
            let ghost cur = current@;
            assert(current.deep_view() =~= current@);
            pieces.push(current);
            assert(pieces.deep_view() =~= pd.push(cur));
            current = Vec::new();
            assert(pieces.deep_view().push(current@) =~= before.push(Seq::<char>::empty()));
        } else {
            current.push(c);
            assert(pieces.deep_view().push(current@) =~= before.update(
                before.len() - 1,
                before.last().push(c),
            ));
        }
        i = i + 1;
    }
    assert(s@.take(s.len() as int) =~= s@);
    let ghost pd = pieces.deep_view();
    let ghost cur = current@;
    assert(current.deep_view() =~= current@);
    pieces.push(current);
    assert(pieces.deep_view() =~= pd.push(cur));
    pieces
}

/// The pieces of `pieces` joined by `sep`.
pub fn join_chars(pieces: &Vec<Vec<char>>, sep: char) -> (r: Vec<char>)
    ensures
        r@ == join_with(pieces.deep_view(), seq![sep]),
{
    let mut r: Vec<char> = Vec::new();
    let mut i: usize = 0;
    while i < pieces.len()
        invariant
            i <= pieces.len(),
            r@ == join_with(pieces.deep_view().take(i as int), seq![sep]),
        decreases pieces.len() - i,
    {
        let ghost prev = pieces.deep_view().take(i as int);
        assert(pieces.deep_view().take(i + 1).drop_last() =~= prev);
        if i > 0 {
            r.push(sep);
        }
        let piece = &pieces[i];
        let mut j: usize = 0;
        let ghost start = r@;
        while j < piece.len()
            invariant
                j <= piece.len(),
                r@ == start + piece@.take(j as int),
            decreases piece.len() - j,
        {
            r.push(piece[j]);
            j = j + 1;
            assert(r@ =~= start + piece@.take(j as int));
        }
        assert(piece@.take(piece.len() as int) =~= piece@);
        i = i + 1;
        if i == 1 {
            assert(r@ =~= join_with(pieces.deep_view().take(i as int), seq![sep]));
        } else {
            assert(r@ =~= join_with(pieces.deep_view().take(i as int), seq![sep]));
        }
    }
    assert(pieces.deep_view().take(pieces.len() as int) =~= pieces.deep_view());
    r
}

} // verus!

verus! {

/// How many leading characters of `s` fit into `k` bytes of UTF-8.
pub open spec fn chars_within_bytes(s: Seq<char>, k: nat) -> nat
    decreases s.len(),
{
    if s.len() == 0 || utf8_width(s[0]) > k {
        0
    } else {
        1 + chars_within_bytes(s.drop_first(), (k - utf8_width(s[0])) as nat)
    }
}

/// Byte index `k` of `s` falls between two characters, with at least `k`
/// bytes before it: slicing `s` at byte `k` does not panic.
pub open spec fn is_char_boundary_at(s: Seq<char>, k: nat) -> bool {
    utf8_len(s.take(chars_within_bytes(s, k) as int)) == k
}

/// The characters of the first `k` bytes of `s`.
pub open spec fn byte_prefix(s: Seq<char>, k: nat) -> Seq<char> {
    s.take(chars_within_bytes(s, k) as int)
}

/// Number of bytes that UTF-8 uses for `c`.
pub fn char_width(c: char) -> (w: usize)
    ensures
        w == utf8_width(c),
{
    let x = c as u32;
    if x < 0x80 {
        1
    } else if x < 0x800 {
        2
    } else if x < 0x10000 {
        3
    } else {
        4
    }
}

/// Whether `c` is a one-byte character.
pub fn char_is_ascii(c: char) -> (r: bool)
    ensures
        r == is_ascii_char(c),
{
    (c as u32) < 0x80
}

proof fn lemma_chars_within_step(s: Seq<char>, k: nat, i: int, acc: nat)
    requires
        0 <= i < s.len(),
        acc <= k,
        utf8_width(s[i]) + acc <= k,
        chars_within_bytes(s, k) == i + chars_within_bytes(s.skip(i), (k - acc) as nat),
    ensures
        chars_within_bytes(s, k) == (i + 1) + chars_within_bytes(
            s.skip(i + 1),
            (k - acc - utf8_width(s[i])) as nat,
        ),
{
    assert(s.skip(i).drop_first() =~= s.skip(i + 1));
    assert(s.skip(i)[0] == s[i]);
}

/// The number of leading characters of `v` that fit into `k` bytes, and
/// how many bytes they take.
pub fn prefix_within_bytes(v: &Vec<char>, k: usize) -> (r: (usize, usize))
    requires
        k <= 4,
    ensures
        r.0 == chars_within_bytes(v@, k as nat),
        r.1 == utf8_len(v@.take(r.0 as int)),
        r.1 <= k,
        r.0 <= v.len(),
        r.0 < v.len() ==> r.1 + utf8_width(v@[r.0 as int]) > k,
{
    let mut i: usize = 0;
    let mut acc: usize = 0;
    assert(v@.skip(0) =~= v@);
    while i < v.len()
        invariant
            i <= v.len(),
            k <= 4,
            acc <= k,
            acc == utf8_len(v@.take(i as int)),
            chars_within_bytes(v@, k as nat) == i + chars_within_bytes(
                v@.skip(i as int),
                (k - acc) as nat,
            ),
        decreases v.len() - i,
    {
        let w = char_width(v[i]);
        if acc + w > k {
            assert(v@.skip(i as int)[0] == v@[i as int]);
            assert(chars_within_bytes(v@.skip(i as int), (k - acc) as nat) == 0);
            return (i, acc);
        }
        proof {
            lemma_chars_within_step(v@, k as nat, i as int, acc as nat);
            assert(v@.take(i + 1).drop_last() =~= v@.take(i as int));
        }
        acc = acc + w;
        i = i + 1;
    }
    assert(v@.skip(i as int).len() == 0);
    (i, acc)
}

} // verus!

verus! {

/// `s` with every run of spaces shortened to one space, and leading spaces
/// dropped.
pub open spec fn collapse_spaces(s: Seq<char>) -> Seq<char>
    decreases s.len(),
{
    if s.len() == 0 {
        Seq::<char>::empty()
    } else {
        let init = collapse_spaces(s.drop_last());
        let previous = if init.len() == 0 {
            ' '
        } else {
            init.last()
        };
        if s.last() == ' ' && previous == ' ' {
            init
        } else {
            init.push(s.last())
        }
    }
}

/// `s[start..]` with every run of spaces shortened to one space, and
/// leading spaces dropped.
pub fn collapse_spaces_from(s: &Vec<char>, start: usize) -> (r: Vec<char>)
    requires
        start <= s.len(),
    ensures
        r@ == collapse_spaces(s@.skip(start as int)),
{
    let mut r: Vec<char> = Vec::new();
    let mut previous = ' ';
    let mut i: usize = start;
    assert(s@.subrange(start as int, start as int) =~= Seq::<char>::empty());
    while i < s.len()
        invariant
            start <= i <= s.len(),
            r@ == collapse_spaces(s@.subrange(start as int, i as int)),
            previous == (if r@.len() == 0 {
                ' '
            } else {
                r@.last()
            }),
        decreases s.len() - i,
    {
        let c = s[i];
        assert(s@.subrange(start as int, i + 1).drop_last() =~= s@.subrange(start as int, i as int));
        if !(c == ' ' && previous == ' ') {
            r.push(c);
            previous = c;
        }
        i = i + 1;
    }
    assert(s@.subrange(start as int, i as int) =~= s@.skip(start as int));
    r
}

/// A copy of `v[from..]`.
pub fn pieces_from(v: &Vec<Vec<char>>, from: usize) -> (r: Vec<Vec<char>>)
    requires
        from <= v.len(),
    ensures
        r.deep_view() == v.deep_view().skip(from as int),
{
    let mut r: Vec<Vec<char>> = Vec::new();
    let mut i: usize = from;
    while i < v.len()
        invariant
            from <= i <= v.len(),
            r.deep_view() == v.deep_view().subrange(from as int, i as int),
        decreases v.len() - i,
    {
        let piece = copy_chars(&v[i]);
        let ghost before = r.deep_view();
        assert(piece.deep_view() =~= piece@);
        r.push(piece);
        assert(r.deep_view() =~= before.push(v[i as int]@));
        i = i + 1;
        assert(r.deep_view() =~= v.deep_view().subrange(from as int, i as int));
    }
    assert(v.deep_view().subrange(from as int, i as int) =~= v.deep_view().skip(from as int));
    r
}

/// A copy of `v`.
pub fn copy_chars(v: &Vec<char>) -> (r: Vec<char>)
    ensures
        r@ == v@,
{
    let mut r: Vec<char> = Vec::new();
    let mut i: usize = 0;
    while i < v.len()
        invariant
            i <= v.len(),
            r@ == v@.take(i as int),
        decreases v.len() - i,
    {
        r.push(v[i]);
        i = i + 1;
        assert(r@ =~= v@.take(i as int));
    }
    assert(v@.take(i as int) =~= v@);
    r
}

pub proof fn lemma_utf8_len_prefix(s: Seq<char>, i: int)
    requires
        0 <= i <= s.len(),
    ensures
        utf8_len(s.take(i)) <= utf8_len(s),
    decreases s.len(),
{
    if i < s.len() {
        assert(s.drop_last().take(i) =~= s.take(i));
        lemma_utf8_len_prefix(s.drop_last(), i);
    } else {
        assert(s.take(i) =~= s);
    }
}

pub proof fn lemma_utf8_len_step(s: Seq<char>, i: int)
    requires
        0 <= i < s.len(),
    ensures
        utf8_len(s.take(i + 1)) == utf8_len(s.take(i)) + utf8_width(s[i]),
{
    assert(s.take(i + 1).drop_last() =~= s.take(i));
}

/// Whether `s` takes fewer than `k` bytes of UTF-8.
pub fn utf8_len_below(v: &Vec<char>, k: usize) -> (r: bool)
    requires
        k <= 4,
        k >= 1,
    ensures
        r == (utf8_len(v@) < k),
{
    let (count, bytes) = prefix_within_bytes(v, k - 1);
    if count == v.len() {
        assert(v@.take(count as int) =~= v@);
        true
    } else {
        proof {
            lemma_utf8_len_step(v@, count as int);
            lemma_utf8_len_prefix(v@, count + 1);
        }
        false
    }
}

} // verus!

verus! {

/// The pieces `v[from..]` as strings.
pub fn strings_from(v: &Vec<Vec<char>>, from: usize) -> (r: Vec<String>)
    requires
        from <= v.len(),
    ensures
        r.deep_view() == v.deep_view().skip(from as int),
{
    let mut r: Vec<String> = Vec::new();
    let mut i: usize = from;
    while i < v.len()
        invariant
            from <= i <= v.len(),
            r.deep_view() == v.deep_view().subrange(from as int, i as int),
        decreases v.len() - i,
    {
        let s = string_of(&v[i]);
        let ghost before = r.deep_view();
        r.push(s);
        assert(r.deep_view() =~= before.push(v[i as int]@));
        assert(v[i as int].deep_view() =~= v[i as int]@);
        i = i + 1;
        assert(r.deep_view() =~= v.deep_view().subrange(from as int, i as int));
    }
    assert(v.deep_view().subrange(from as int, i as int) =~= v.deep_view().skip(from as int));
    r
}

/// A copy of `v[from..]`.
pub fn chars_from(v: &Vec<char>, from: usize) -> (r: Vec<char>)
    requires
        from <= v.len(),
    ensures
        r@ == v@.skip(from as int),
{
    let mut r: Vec<char> = Vec::new();
    let mut i: usize = from;
    while i < v.len()
        invariant
            from <= i <= v.len(),
            r@ == v@.subrange(from as int, i as int),
        decreases v.len() - i,
    {
        r.push(v[i]);
        i = i + 1;
        assert(r@ =~= v@.subrange(from as int, i as int));
    }
    assert(v@.subrange(from as int, i as int) =~= v@.skip(from as int));
    r
}

} // verus!

verus! {

/// Every character of `s` is a decimal digit.
pub open spec fn all_digits(s: Seq<char>) -> bool {
    forall|i: int| 0 <= i < s.len() ==> '0' <= #[trigger] s[i] <= '9'
}

/// The number that the decimal digits `s` write.
pub open spec fn digits_value(s: Seq<char>) -> int
    decreases s.len(),
{
    if s.len() == 0 {
        0
    } else {
        digits_value(s.drop_last()) * 10 + ((s.last() as int) - ('0' as int))
    }
}

/// What `str::parse::<u32>` gives for `s`: an optional `+`, then one or
/// more decimal digits whose value fits in a `u32`.
pub open spec fn parse_u32(s: Seq<char>) -> Option<u32> {
    let d = if s.len() > 0 && s[0] == '+' {
        s.drop_first()
    } else {
        s
    };
    if d.len() > 0 && all_digits(d) && digits_value(d) <= u32::MAX {
        Some(digits_value(d) as u32)
    } else {
        None
    }
}

/// What `str::parse::<bool>` gives for `s`.
pub open spec fn parse_bool(s: Seq<char>) -> Option<bool> {
    if s == "true"@ {
        Some(true)
    } else if s == "false"@ {
        Some(false)
    } else {
        None
    }
}

proof fn lemma_digits_value_prefix(s: Seq<char>, i: int)
    requires
        all_digits(s),
        0 <= i <= s.len(),
    ensures
        digits_value(s.take(i)) <= digits_value(s),
        digits_value(s) >= 0,
    decreases s.len(),
{
    if s.len() == 0 {
        assert(s.take(i) =~= s);
    } else if i == s.len() {
        assert(s.take(i) =~= s);
        lemma_digits_value_prefix(s.drop_last(), 0);
    } else {
        assert(s.drop_last().take(i) =~= s.take(i));
        lemma_digits_value_prefix(s.drop_last(), i);
    }
}

/// Reads a decimal `u32` the way `str::parse::<u32>` does.
pub fn parse_u32_chars(s: &Vec<char>) -> (r: Option<u32>)
    ensures
        r == parse_u32(s@),
{
    let start: usize = if s.len() > 0 && s[0] == '+' {
        1
    } else {
        0
    };
    let ghost d = s@.skip(start as int);
    assert(d =~= (if s@.len() > 0 && s@[0] == '+' {
        s@.drop_first()
    } else {
        s@
    }));
    if start == s.len() {
        return None;
    }
    let mut acc: u64 = 0;
    let mut i: usize = start;
    while i < s.len()
        invariant
            start <= i <= s.len(),
            d == s@.skip(start as int),
            d == (if s@.len() > 0 && s@[0] == '+' {
                s@.drop_first()
            } else {
                s@
            }),
            acc == digits_value(d.take(i - start)),
            acc <= u32::MAX,
            all_digits(d.take(i - start)),
        decreases s.len() - i,
    {
        let c = s[i];
        assert(d.take(i - start + 1).drop_last() =~= d.take(i - start));
        assert(d[i - start] == c);
        if c < '0' || c > '9' {
            assert(!all_digits(d));
            return None;
        }
        let digit = (c as u64) - ('0' as u64);
        let next = acc * 10 + digit;
        assert(all_digits(d.take(i - start + 1)));
        if next > u32::MAX as u64 {
            proof {
                let k = i - start + 1;
                assert(digits_value(d.take(k as int)) == next);
                if all_digits(d) {
                    lemma_digits_value_prefix(d, k as int);
                }
            }
            return None;
        }
        acc = next;
        i = i + 1;
    }
    assert(d.take(i - start) =~= d);
    Some(acc as u32)
}

/// Reads `true` or `false` the way `str::parse::<bool>` does.
pub fn parse_bool_str(s: &str) -> (r: Option<bool>)
    ensures
        r == parse_bool(s@),
{
    if str_equal(s, "true") {
        Some(true)
    } else if str_equal(s, "false") {
        Some(false)
    } else {
        None
    }
}

} // verus!

verus! {

/// The decimal digit character for `d`.
pub open spec fn digit_char(d: nat) -> char {
    ((d + ('0' as nat)) as u32) as char
}

/// The decimal text of `n`, without leading zeros.
pub open spec fn decimal_text(n: nat) -> Seq<char>
    decreases n,
{
    if n < 10 {
        seq![digit_char(n)]
    } else {
        decimal_text(n / 10).push(digit_char(n % 10))
    }
}

fn digit(d: u32) -> (c: char)
    requires
        d < 10,
    ensures
        c == digit_char(d as nat),
{
    let b: u8 = (d as u8) + 48;
    b as char
}

/// The decimal text of `n`.
pub fn decimal_chars(n: u32) -> (v: Vec<char>)
    ensures
        v@ == decimal_text(n as nat),
    decreases n,
{
    if n < 10 {
        let mut v: Vec<char> = Vec::new();
        v.push(digit(n));
        assert(v@ =~= seq![digit_char(n as nat)]);
        v
    } else {
        let mut v = decimal_chars(n / 10);
        v.push(digit(n % 10));
        v
    }
}

} // verus!

verus! {

/// `s` holds no `d`.
pub open spec fn lacks(s: Seq<char>, d: char) -> bool {
    forall|i: int| 0 <= i < s.len() ==> s[i] != d
}

/// `s` does not start with a space and never has two spaces in a row.
pub open spec fn single_spaced(s: Seq<char>) -> bool {
    &&& (s.len() > 0 ==> s[0] != ' ')
    &&& forall|i: int| 0 <= i < s.len() - 1 ==> !(s[i] == ' ' && #[trigger] s[i + 1] == ' ')
}

/// Text without `d` is one piece.
pub proof fn lemma_split_without(s: Seq<char>, d: char)
    requires
        lacks(s, d),
    ensures
        split_on(s, d) == seq![s],
    decreases s.len(),
{
    if s.len() == 0 {
        assert(s =~= Seq::<char>::empty());
    } else {
        assert(s[s.len() - 1] != d);
        lemma_split_without(s.drop_last(), d);
        assert(s.drop_last().push(s.last()) =~= s);
        assert(seq![s.drop_last()].update(0, s.drop_last().push(s.last())) =~= seq![s]);
    }
}

/// Splitting at an occurrence of `d` splits the two sides apart.
pub proof fn lemma_split_at(x: Seq<char>, y: Seq<char>, d: char)
    ensures
        split_on(x + seq![d] + y, d) == split_on(x, d) + split_on(y, d),
    decreases y.len(),
{
    let s = x + seq![d] + y;
    lemma_split_on_len(x, d);
    if y.len() == 0 {
        assert(s.drop_last() =~= x);
        assert(split_on(x, d).push(Seq::<char>::empty()) =~= split_on(x, d) + seq![
            Seq::<char>::empty(),
        ]);
    } else {
        let yl = y.drop_last();
        lemma_split_at(x, yl, d);
        lemma_split_on_len(yl, d);
        assert(s.drop_last() =~= x + seq![d] + yl);
        assert(s.last() == y.last());
        let a = split_on(x, d);
        let b = split_on(yl, d);
        if y.last() == d {
            assert((a + b).push(Seq::<char>::empty()) =~= a + b.push(Seq::<char>::empty()));
        } else {
            assert((a + b).update((a + b).len() - 1, (a + b).last().push(y.last())) =~= a
                + b.update(b.len() - 1, b.last().push(y.last())));
        }
    }
}

/// A first piece without `d` stays at the front of the first piece.
pub proof fn lemma_split_prefix(x: Seq<char>, y: Seq<char>, d: char)
    requires
        lacks(x, d),
    ensures
        split_on(x + y, d) == seq![x + split_on(y, d)[0]] + split_on(y, d).drop_first(),
    decreases y.len(),
{
    lemma_split_on_len(y, d);
    if y.len() == 0 {
        assert(x + y =~= x);
        lemma_split_without(x, d);
        assert(x + split_on(y, d)[0] =~= x);
        assert(seq![x] + split_on(y, d).drop_first() =~= seq![x]);
    } else {
        let yl = y.drop_last();
        lemma_split_prefix(x, yl, d);
        lemma_split_on_len(yl, d);
        assert((x + y).drop_last() =~= x + yl);
        assert((x + y).last() == y.last());
        let b = split_on(yl, d);
        let t = seq![x + b[0]] + b.drop_first();
        if y.last() == d {
            assert(split_on(y, d)[0] == b[0]);
            assert(split_on(y, d).drop_first() =~= b.drop_first().push(Seq::<char>::empty()));
            assert(t.push(Seq::<char>::empty()) =~= seq![x + split_on(y, d)[0]] + split_on(
                y,
                d,
            ).drop_first());
        } else {
            let c = y.last();
            if b.len() == 1 {
                assert(split_on(y, d) =~= seq![b[0].push(c)]);
                assert(t.update(t.len() - 1, t.last().push(c)) =~= seq![x + split_on(y, d)[0]]
                    + split_on(y, d).drop_first());
            } else {
                assert(split_on(y, d)[0] == b[0]);
                assert(t.update(t.len() - 1, t.last().push(c)) =~= seq![x + split_on(y, d)[0]]
                    + split_on(y, d).drop_first());
            }
        }
    }
}

/// Joining the pieces of a split with the separator gives the text back.
pub proof fn lemma_join_split(s: Seq<char>, c: char)
    ensures
        join_with(split_on(s, c), seq![c]) == s,
    decreases s.len(),
{
    if s.len() > 0 {
        let sl = s.drop_last();
        lemma_join_split(sl, c);
        lemma_split_on_len(sl, c);
        let p = split_on(sl, c);
        if s.last() == c {
            assert(p.push(Seq::<char>::empty()).drop_last() =~= p);
            assert(sl + seq![c] + Seq::<char>::empty() =~= s);
        } else {
            let u = p.update(p.len() - 1, p.last().push(s.last()));
            if p.len() == 1 {
                assert(u[0] =~= s);
            } else {
                assert(u.drop_last() =~= p.drop_last());
                assert(join_with(p.drop_last(), seq![c]) + seq![c] + p.last().push(s.last())
                    =~= (join_with(p.drop_last(), seq![c]) + seq![c] + p.last()).push(s.last()));
                assert(sl.push(s.last()) =~= s);
            }
        }
    }
}

/// Single-spaced text has no run of spaces to shorten.
pub proof fn lemma_collapse_single_spaced(s: Seq<char>)
    requires
        single_spaced(s),
    ensures
        collapse_spaces(s) == s,
    decreases s.len(),
{
    if s.len() > 0 {
        let t = s.drop_last();
        assert(single_spaced(t)) by {
            assert forall|i: int| 0 <= i < t.len() - 1 implies !(t[i] == ' ' && #[trigger] t[i + 1]
                == ' ') by {
                assert(t[i] == s[i] && t[i + 1] == s[i + 1]);
            }
        }
        lemma_collapse_single_spaced(t);
        if t.len() > 0 {
            assert(s[s.len() - 2] == t.last());
            assert(!(s[s.len() - 2] == ' ' && s[s.len() - 2 + 1] == ' '));
        }
        assert(t.push(s.last()) =~= s);
    }
}

} // verus!

verus! {

/// Text without `d` on both sides of a join has none.
pub proof fn lemma_lacks_concat(x: Seq<char>, y: Seq<char>, d: char)
    requires
        lacks(x, d),
        lacks(y, d),
    ensures
        lacks(x + y, d),
{
    assert forall|i: int| 0 <= i < (x + y).len() implies (x + y)[i] != d by {
        if i < x.len() {
            assert((x + y)[i] == x[i]);
        } else {
            assert((x + y)[i] == y[i - x.len()]);
        }
    }
}

/// Two single-spaced texts joined by one space are single-spaced.
pub proof fn lemma_single_spaced_join(x: Seq<char>, y: Seq<char>)
    requires
        single_spaced(x),
        x.len() > 0,
        x.last() != ' ',
        single_spaced(y),
    ensures
        single_spaced(x + seq![' '] + y),
{
    let s = x + seq![' '] + y;
    assert(s[0] == x[0]);
    assert forall|i: int| 0 <= i < s.len() - 1 implies !(s[i] == ' ' && #[trigger] s[i + 1]
        == ' ') by {
        if i < x.len() - 1 {
            assert(s[i] == x[i] && s[i + 1] == x[i + 1]);
            assert(!(x[i] == ' ' && x[i + 1] == ' '));
        } else if i == x.len() - 1 {
            assert(s[i] == x.last());
        } else if i == x.len() {
            assert(s[i + 1] == y[0]);
        } else {
            let j = i - x.len() - 1;
            assert(s[i] == y[j] && s[i + 1] == y[j + 1]);
            assert(!(y[j] == ' ' && y[j + 1] == ' '));
        }
    }
}

/// A text without spaces is single-spaced.
pub proof fn lemma_single_spaced_lacks(x: Seq<char>)
    requires
        lacks(x, ' '),
    ensures
        single_spaced(x),
{
}

/// A character other than a space put before a single-spaced text keeps it
/// single-spaced.
pub proof fn lemma_single_spaced_cons(c: char, t: Seq<char>)
    requires
        c != ' ',
        single_spaced(t),
    ensures
        single_spaced(seq![c] + t),
{
    let s = seq![c] + t;
    assert forall|i: int| 0 <= i < s.len() - 1 implies !(s[i] == ' ' && #[trigger] s[i + 1]
        == ' ') by {
        if i == 0 {
            assert(s[0] == c);
        } else {
            let j = i - 1;
            assert(s[i] == t[j] && s[i + 1] == t[j + 1]);
            assert(!(t[j] == ' ' && t[j + 1] == ' '));
        }
    }
}

/// The first piece of a text that does not start with `d` is not empty.
pub proof fn lemma_split_first_non_empty(t: Seq<char>, d: char)
    requires
        t.len() > 0,
        t[0] != d,
    ensures
        split_on(t, d)[0].len() > 0,
        split_on(t, d)[0][0] == t[0],
{
    assert(t =~= seq![t[0]] + t.drop_first());
    lemma_split_prefix(seq![t[0]], t.drop_first(), d);
}

} // verus!

verus! {

/// Pieces without `d` joined by `d` split back into those pieces.
pub proof fn lemma_split_join(pieces: Seq<Seq<char>>, d: char)
    requires
        pieces.len() >= 1,
        forall|i: int| 0 <= i < pieces.len() ==> lacks(#[trigger] pieces[i], d),
    ensures
        split_on(join_with(pieces, seq![d]), d) == pieces,
    decreases pieces.len(),
{
    if pieces.len() == 1 {
        lemma_split_without(pieces[0], d);
        assert(seq![pieces[0]] =~= pieces);
    } else {
        let init = pieces.drop_last();
        assert(lacks(pieces[pieces.len() - 1], d));
        lemma_split_join(init, d);
        lemma_split_at(join_with(init, seq![d]), pieces.last(), d);
        lemma_split_without(pieces.last(), d);
        assert(init + seq![pieces.last()] =~= pieces);
    }
}

/// Non-empty pieces without spaces joined by single spaces make
/// single-spaced text that starts with the first piece's first character
/// and ends with the last piece's last character.
pub proof fn lemma_join_single_spaced(pieces: Seq<Seq<char>>)
    requires
        pieces.len() >= 1,
        forall|i: int|
            0 <= i < pieces.len() ==> (#[trigger] pieces[i]).len() > 0 && lacks(pieces[i], ' '),
    ensures
        single_spaced(join_with(pieces, seq![' '])),
        join_with(pieces, seq![' ']).len() > 0,
        join_with(pieces, seq![' '])[0] == pieces[0][0],
        join_with(pieces, seq![' ']).last() == pieces.last().last(),
    decreases pieces.len(),
{
    if pieces.len() == 1 {
        assert(pieces[0].len() > 0 && lacks(pieces[0], ' '));
        lemma_single_spaced_lacks(pieces[0]);
    } else {
        let init = pieces.drop_last();
        let last = pieces.last();
        assert(pieces[pieces.len() - 1].len() > 0 && lacks(pieces[pieces.len() - 1], ' '));
        assert(pieces[0] == init[0]);
        lemma_join_single_spaced(init);
        let j = join_with(init, seq![' ']);
        assert(init.last() == pieces[pieces.len() - 2]);
        assert(pieces[pieces.len() - 2].len() > 0 && lacks(pieces[pieces.len() - 2], ' '));
        assert(init.last()[init.last().len() - 1] != ' ');
        lemma_single_spaced_lacks(last);
        lemma_single_spaced_join(j, last);
        assert((j + seq![' '] + last)[0] == j[0]);
        assert((j + seq![' '] + last).last() == last.last());
    }
}

} // verus!

verus! {

/// Shortening runs of spaces in `x + y` keeps what it makes of `x` in
/// front, and everything after it is a character of `y`.
pub proof fn lemma_collapse_concat(x: Seq<char>, y: Seq<char>)
    ensures
        collapse_spaces(x + y).len() >= collapse_spaces(x).len(),
        collapse_spaces(x + y).take(collapse_spaces(x).len() as int) == collapse_spaces(x),
        forall|i: int|
            collapse_spaces(x).len() <= i < collapse_spaces(x + y).len() ==> exists|j: int|
                0 <= j < y.len() && #[trigger] collapse_spaces(x + y)[i] == y[j],
    decreases y.len(),
{
    if y.len() == 0 {
        assert(x + y =~= x);
        assert(collapse_spaces(x).take(collapse_spaces(x).len() as int) =~= collapse_spaces(x));
    } else {
        let yl = y.drop_last();
        lemma_collapse_concat(x, yl);
        assert((x + y).drop_last() =~= x + yl);
        assert((x + y).last() == y.last());
        let c = collapse_spaces(x + yl);
        let n = collapse_spaces(x).len() as int;
        assert forall|i: int| n <= i < collapse_spaces(x + y).len() implies exists|j: int|
            0 <= j < y.len() && #[trigger] collapse_spaces(x + y)[i] == y[j] by {
            if i < c.len() {
                assert(collapse_spaces(x + y)[i] == c[i]);
                let j = choose|j: int| 0 <= j < yl.len() && c[i] == yl[j];
                assert(y[j] == yl[j]);
            } else {
                assert(collapse_spaces(x + y)[i] == y[y.len() - 1]);
            }
        }
        assert(collapse_spaces(x + y).take(n) =~= c.take(n));
    }
}

/// Shortening runs of spaces in `x + y`, where `y` holds a character other
/// than a space, keeps more than what it makes of `x`.
pub proof fn lemma_collapse_grows(x: Seq<char>, y: Seq<char>)
    requires
        exists|i: int| 0 <= i < y.len() && y[i] != ' ',
    ensures
        collapse_spaces(x + y).len() > collapse_spaces(x).len(),
    decreases y.len(),
{
    let yl = y.drop_last();
    assert((x + y).drop_last() =~= x + yl);
    assert((x + y).last() == y.last());
    lemma_collapse_concat(x, yl);
    if y.last() == ' ' {
        let i = choose|i: int| 0 <= i < y.len() && y[i] != ' ';
        assert(i < yl.len() && yl[i] == y[i]);
        lemma_collapse_grows(x, yl);
    }
}

/// Every character takes at least one byte.
pub proof fn lemma_utf8_len_at_least(s: Seq<char>)
    ensures
        utf8_len(s) >= s.len(),
    decreases s.len(),
{
    if s.len() > 0 {
        lemma_utf8_len_at_least(s.drop_last());
    }
}

/// Text that starts with three one-byte characters can be cut after its
/// third byte.
pub proof fn lemma_boundary_after_three_ascii(s: Seq<char>)
    requires
        s.len() >= 3,
        is_ascii_char(s[0]),
        is_ascii_char(s[1]),
        is_ascii_char(s[2]),
    ensures
        is_char_boundary_at(s, 3),
{
    let s1 = s.drop_first();
    let s2 = s1.drop_first();
    let s3 = s2.drop_first();
    assert(s1[0] == s[1] && s2[0] == s[2]);
    assert(chars_within_bytes(s3, 0) == 0);
    assert(chars_within_bytes(s2, 1) == 1);
    assert(chars_within_bytes(s1, 2) == 2);
    assert(chars_within_bytes(s, 3) == 3);
    assert(s.take(0) =~= Seq::<char>::empty());
    assert(utf8_len(s.take(0)) == 0);
    lemma_utf8_len_step(s, 0);
    lemma_utf8_len_step(s, 1);
    lemma_utf8_len_step(s, 2);
}

} // verus!
