use vstd::prelude::*;

verus! {

/// Whether `c` has the Unicode `White_Space` property, the test that
/// `char::is_whitespace` and `str::split_whitespace` apply.
pub open spec fn is_white_space(c: char) -> bool {
    let n = c as u32;
    ||| 0x9 <= n && n <= 0xD
    ||| n == 0x20
    ||| n == 0x85
    ||| n == 0xA0
    ||| n == 0x1680
    ||| 0x2000 <= n && n <= 0x200A
    ||| n == 0x2028
    ||| n == 0x2029
    ||| n == 0x202F
    ||| n == 0x205F
    ||| n == 0x3000
}

/// Executable form of [`is_white_space`].
pub fn white_space(c: char) -> (b: bool)
    ensures
        b == is_white_space(c),
{
    let n = c as u32;
    (0x9 <= n && n <= 0xD) || n == 0x20 || n == 0x85 || n == 0xA0 || n == 0x1680 || (0x2000
        <= n && n <= 0x200A) || n == 0x2028 || n == 0x2029 || n == 0x202F || n == 0x205F || n
        == 0x3000
}

/// The words of `s`: its maximal runs of characters that are not white space,
/// in order, as `str::split_whitespace` yields them.
pub open spec fn words(s: Seq<char>) -> Seq<Seq<char>>
    decreases s.len(),
{
    if s.len() == 0 {
        seq![]
    } else {
        let before = words(s.drop_last());
        let c = s.last();
        if is_white_space(c) {
            before
        } else if s.len() >= 2 && !is_white_space(s[s.len() - 2]) {
            before.drop_last().push(before.last().push(c))
        } else {
            before.push(seq![c])
        }
    }
}

/// Whether `needle` occurs in `hay` as a contiguous run (the empty run occurs everywhere).
pub open spec fn is_infix(needle: Seq<char>, hay: Seq<char>) -> bool {
    exists|k: int|
        0 <= k && k + needle.len() <= hay.len() && #[trigger] hay.subrange(k, k + needle.len())
            == needle
}

/// The lowercase form of a string, as `str::to_lowercase` gives it.
pub uninterp spec fn lowercase(s: Seq<char>) -> Seq<char>;

/// Calls `str::to_lowercase`; the contract only names the result, which
/// follows the Unicode lowercase mapping of each character of `s`.
#[verifier::external_body]
pub(crate) fn to_lowercase(s: &str) -> (lower: String)
    ensures
        lower@ == lowercase(s@),
{
    s.to_lowercase()
}

/// Collects characters into a `String` (std's `FromIterator<&char>` for `String`),
/// which keeps them in order.
#[verifier::external_body]
pub(crate) fn string_from_chars(chars: &Vec<char>) -> (s: String)
    ensures
        s@ == chars@,
{
    chars.iter().collect()
}

/// The characters of `s`, in order.
pub fn chars_of(s: &str) -> (chars: Vec<char>)
    ensures
        chars@ == s@,
{
    let n = s.unicode_len();
    let mut chars: Vec<char> = Vec::new();
    let mut i: usize = 0;
    while i < n
        invariant
            n == s@.len(),
            i <= n,
            chars@ == s@.take(i as int),
        decreases n - i,
    {
        let c = s.get_char(i);
        chars.push(c);
        i = i + 1;
        assert(chars@ =~= s@.take(i as int));
    }
    assert(chars@ =~= s@);
    chars
}

/// The character sequences held by a vector of character vectors.
pub open spec fn char_views(ws: Seq<Vec<char>>) -> Seq<Seq<char>> {
    ws.map_values(|w: Vec<char>| w@)
}

/// Splits `s` into its words, as `str::split_whitespace` does.
pub fn split_words(s: &str) -> (ws: Vec<Vec<char>>)
    ensures
        char_views(ws@) == words(s@),
{
    let chars = chars_of(s);
    let n = chars.len();
    let mut done: Vec<Vec<char>> = Vec::new();
    let mut current: Vec<char> = Vec::new();
    let mut i: usize = 0;
    assert(char_views(done@) =~= Seq::<Seq<char>>::empty());
    while i < n
        invariant
            n == chars@.len(),
            chars@ == s@,
            i <= n,
            current@.len() > 0 <==> (i > 0 && !is_white_space(chars@[i - 1])),
            words(chars@.take(i as int)) == if current@.len() == 0 {
                char_views(done@)
            } else {
                char_views(done@).push(current@)
            },
        decreases n - i,
    {
        let c = chars[i];
        let ghost prefix = chars@.take(i as int);
        let ghost next = chars@.take(i + 1);
        let ghost before = char_views(done@);
        let ghost cur = current@;
        assert(next.drop_last() =~= prefix);
        assert(next.last() == c);
        if white_space(c) {
            assert(words(next) == words(prefix));
            if current.len() > 0 {
                let word = current;
                current = Vec::new();
                done.push(word);
                assert(char_views(done@) =~= before.push(cur));
            }
        } else {
            if i >= 1 {
                assert(next[i - 1] == chars@[i - 1]);
            }
            if current.len() > 0 {
                let ghost prev_words = before.push(cur);
                assert(prev_words.drop_last() =~= before);
                assert(prev_words.last() == cur);
                assert(words(next) == before.push(cur.push(c)));
            } else {
                assert(words(next) == before.push(seq![c]));
                assert(cur.push(c) =~= seq![c]);
            }
            current.push(c);
            assert(char_views(done@) =~= before);
            assert(current@ =~= cur.push(c));
        }
        i = i + 1;
        assert(chars@.take(i as int) == next);
    }
    assert(chars@.take(n as int) =~= chars@);
    if current.len() > 0 {
        let ghost before = char_views(done@);
        let ghost cur = current@;
        done.push(current);
        assert(char_views(done@) =~= before.push(cur));
    }
    done
}

/// Whether `needle` starts at position `k` of `hay`.
fn occurs_at(hay: &Vec<char>, needle: &Vec<char>, k: usize) -> (b: bool)
    requires
        k + needle@.len() <= hay@.len(),
    ensures
        b == (hay@.subrange(k as int, k + needle@.len()) == needle@),
{
    let m = needle.len();
    let n = hay.len();
    let mut j: usize = 0;
    while j < m
        invariant
            m == needle@.len(),
            n == hay@.len(),
            k + m <= hay@.len(),
            j <= m,
            forall|t: int| 0 <= t < j ==> hay@[k + t] == needle@[t],
        decreases m - j,
    {
        if hay[k + j] != needle[j] {
            assert(hay@.subrange(k as int, k + m)[j as int] != needle@[j as int]);
            return false;
        }
        j = j + 1;
    }
    assert(hay@.subrange(k as int, k + m) =~= needle@);
    true
}

/// Whether `needle` occurs in `hay`, as `str::contains` answers for strings.
pub fn contains_run(hay: &Vec<char>, needle: &Vec<char>) -> (b: bool)
    ensures
        b == is_infix(needle@, hay@),
{
    let n = hay.len();
    let m = needle.len();
    if m > n {
        assert(!is_infix(needle@, hay@));
        return false;
    }
    let last = n - m;
    let mut k: usize = 0;
    loop
        invariant
            n == hay@.len(),
            m == needle@.len(),
            last == n - m,
            k <= last,
            forall|t: int|
                0 <= t < k ==> #[trigger] hay@.subrange(t, t + m) != needle@,
        decreases last - k,
    {
        if occurs_at(hay, needle, k) {
            return true;
        }
        if k == last {
            return false;
        }
        k = k + 1;
    }
}

/// The character of a decimal digit.
pub open spec fn digit(d: nat) -> char {
    if d == 0 {
        '0'
    } else if d == 1 {
        '1'
    } else if d == 2 {
        '2'
    } else if d == 3 {
        '3'
    } else if d == 4 {
        '4'
    } else if d == 5 {
        '5'
    } else if d == 6 {
        '6'
    } else if d == 7 {
        '7'
    } else if d == 8 {
        '8'
    } else {
        '9'
    }
}

/// The decimal numeral of `n`, without leading zeros.
pub open spec fn decimal(n: nat) -> Seq<char>
    decreases n,
{
    if n < 10 {
        seq![digit(n)]
    } else {
        decimal(n / 10).push(digit(n % 10))
    }
}

/// Appends the decimal numeral of `n`.
fn push_decimal(n: u64, out: &mut Vec<char>)
    ensures
        final(out)@ == old(out)@ + decimal(n as nat),
    decreases n,
{
    if n >= 10 {
        push_decimal(n / 10, out);
    }
    let d = n % 10;
    let c = if d == 0 {
        '0'
    } else if d == 1 {
        '1'
    } else if d == 2 {
        '2'
    } else if d == 3 {
        '3'
    } else if d == 4 {
        '4'
    } else if d == 5 {
        '5'
    } else if d == 6 {
        '6'
    } else if d == 7 {
        '7'
    } else if d == 8 {
        '8'
    } else {
        '9'
    };
    out.push(c);
    assert(out@ =~= old(out)@ + decimal(n as nat));
}

/// The decimal numeral of `n`, as `format!("{}", n)` writes it.
pub fn decimal_string(n: u64) -> (s: String)
    ensures
        s@ == decimal(n as nat),
{
    let mut chars: Vec<char> = Vec::new();
    push_decimal(n, &mut chars);
    assert(chars@ =~= decimal(n as nat));
    string_from_chars(&chars)
}

} // verus!
