//! Text helpers: decimal rendering of numbers and the byte order of strings.

use vstd::multiset::Multiset;
use vstd::prelude::*;
use vstd::string::*;
use vstd::seq_lib::{to_multiset_build, to_multiset_insert};
use vstd::utf8::encode_utf8;

verus! {

/// The character of one decimal digit.
pub open spec fn digit_char(d: int) -> char {
    if d == 0 {
        '0'
    } else if d == 1 {
        '1'
    } else if d == 2 {
        '2'
    } else if d == 3 {
        '3'
    } else if d == 4 {
        '4'
    } else if d == 5 {
        '5'
    } else if d == 6 {
        '6'
    } else if d == 7 {
        '7'
    } else if d == 8 {
        '8'
    } else {
        '9'
    }
}

/// The decimal digits of `n`, most significant first, without leading zeros.
pub open spec fn decimal(n: nat) -> Seq<char>
    decreases n,
{
    if n < 10 {
        seq![digit_char(n as int)]
    } else {
        decimal(n / 10).push(digit_char((n % 10) as int))
    }
}

fn digit_str(d: u128) -> (r: &'static str)
    requires
        d < 10,
    ensures
        r@ == seq![digit_char(d as int)],
{
    proof {
        reveal_strlit("0");
        reveal_strlit("1");
        reveal_strlit("2");
        reveal_strlit("3");
        reveal_strlit("4");
        reveal_strlit("5");
        reveal_strlit("6");
        reveal_strlit("7");
        reveal_strlit("8");
        reveal_strlit("9");
    }
    let r = if d == 0 {
        "0"
    } else if d == 1 {
        "1"
    } else if d == 2 {
        "2"
    } else if d == 3 {
        "3"
    } else if d == 4 {
        "4"
    } else if d == 5 {
        "5"
    } else if d == 6 {
        "6"
    } else if d == 7 {
        "7"
    } else if d == 8 {
        "8"
    } else {
        "9"
    };
    assert(r@ =~= seq![digit_char(d as int)]);
    r
}

/// Renders a number in decimal.
pub fn u128_to_string(n: u128) -> (r: String)
    ensures
        r@ == decimal(n as nat),
    decreases n,
{
    if n < 10 {
        String::from_str(digit_str(n))
    } else {
        let mut s = u128_to_string(n / 10);
        s.append(digit_str(n % 10));
        assert(s@ =~= decimal((n / 10) as nat).push(digit_char((n % 10) as int)));
        s
    }
}

/// Renders a number in decimal.
pub fn u64_to_string(n: u64) -> (r: String)
    ensures
        r@ == decimal(n as nat),
{
    u128_to_string(n as u128)
}

/// Joins two pieces of text.
pub fn concat2(a: &str, b: &str) -> (r: String)
    ensures
        r@ == a@ + b@,
{
    let mut s = String::from_str(a);
    s.append(b);
    s
}

/// Joins three pieces of text.
pub fn concat3(a: &str, b: &str, c: &str) -> (r: String)
    ensures
        r@ == a@ + b@ + c@,
{
    let mut s = String::from_str(a);
    s.append(b);
    s.append(c);
    s
}

/// Whether two pieces of text hold the same characters.
pub fn str_eq(a: &str, b: &str) -> (r: bool)
    ensures
        r == (a@ == b@),
{
    let x = String::from_str(a);
    let y = String::from_str(b);
    x == y
}

/// A name is hidden when it begins with a dot.
pub open spec fn is_hidden(name: Seq<char>) -> bool {
    name.len() > 0 && name[0] == '.'
}

/// Tells whether a name begins with a dot.
pub fn starts_with_dot(name: &str) -> (r: bool)
    ensures
        r == is_hidden(name@),
{
    if name.unicode_len() == 0 {
        false
    } else {
        name.get_char(0) == '.'
    }
}

/// `a` and `b` agree on their first `k` bytes.
pub open spec fn common_prefix(a: Seq<u8>, b: Seq<u8>, k: int) -> bool {
    &&& 0 <= k <= a.len()
    &&& k <= b.len()
    &&& forall|j: int| 0 <= j < k ==> a[j] == b[j]
}

/// Lexicographic order on byte strings: `a` comes no later than `b`.
pub open spec fn bytes_le(a: Seq<u8>, b: Seq<u8>) -> bool {
    exists|k: int| #[trigger]
        common_prefix(a, b, k) && (k == a.len() || (k < b.len() && a[k] < b[k]))
}

/// The order of strings: lexicographic by the bytes of their UTF-8 form.
pub open spec fn str_le(a: Seq<char>, b: Seq<char>) -> bool {
    bytes_le(encode_utf8(a), encode_utf8(b))
}

/// The byte order is transitive.
pub proof fn lemma_bytes_le_transitive(a: Seq<u8>, b: Seq<u8>, c: Seq<u8>)
    requires
        bytes_le(a, b),
        bytes_le(b, c),
    ensures
        bytes_le(a, c),
{
    let k1 = choose|k: int| #[trigger]
        common_prefix(a, b, k) && (k == a.len() || (k < b.len() && a[k] < b[k]));
    let k2 = choose|k: int| #[trigger]
        common_prefix(b, c, k) && (k == b.len() || (k < c.len() && b[k] < c[k]));
    let k = if k1 < k2 {
        k1
    } else {
        k2
    };
    assert(common_prefix(a, c, k));
}

/// Compares two strings in the order of their bytes.
pub fn str_le_exec(a: &str, b: &str) -> (r: bool)
    ensures
        r == str_le(a@, b@),
{
    let x = a.as_bytes();
    let y = b.as_bytes();
    let mut i: usize = 0;
    while i < x.len() && i < y.len() && x[i] == y[i]
        invariant
            common_prefix(x@, y@, i as int),
        decreases x.len() - i,
    {
        i += 1;
    }
    let r = i == x.len() || (i < y.len() && x[i] < y[i]);
    proof {
        if !r {
            assert forall|k: int| #[trigger] common_prefix(x@, y@, k) implies !(k == x@.len() || (k
                < y@.len() && x@[k] < y@[k])) by {
                if k > i as int {
                    if i < y@.len() {
                        assert(x@[i as int] == y@[i as int]);
                    }
                }
            }
        }
    }
    r
}

proof fn lemma_bytes_le_total_from(a: Seq<u8>, b: Seq<u8>, k: int)
    requires
        common_prefix(a, b, k),
    ensures
        bytes_le(a, b) || bytes_le(b, a),
    decreases a.len() - k,
{
    if k == a.len() {
    } else if k == b.len() {
        assert(common_prefix(b, a, k));
    } else if a[k] == b[k] {
        assert(common_prefix(a, b, k + 1));
        lemma_bytes_le_total_from(a, b, k + 1);
    } else if a[k] < b[k] {
    } else {
        assert(common_prefix(b, a, k));
    }
}

/// Of two byte strings one comes no later than the other.
pub proof fn lemma_bytes_le_total(a: Seq<u8>, b: Seq<u8>)
    ensures
        bytes_le(a, b) || bytes_le(b, a),
{
    assert(common_prefix(a, b, 0));
    lemma_bytes_le_total_from(a, b, 0);
}

/// A list without items holds nothing as a multiset either.
pub proof fn lemma_empty_to_multiset<A>(s: Seq<A>)
    requires
        s.len() == 0,
    ensures
        s.to_multiset() =~= Multiset::<A>::empty(),
{
    vstd::seq_lib::to_multiset_len(s);
    vstd::multiset::lemma_multiset_empty_len(s.to_multiset());
}

/// The characters of each string of a list.
pub open spec fn views(v: Seq<String>) -> Seq<Seq<char>> {
    v.map_values(|s: String| s@)
}

/// Each name comes no later than those behind it.
pub open spec fn sorted(names: Seq<Seq<char>>) -> bool {
    forall|i: int, j: int| 0 <= i < j < names.len() ==> str_le(names[i], names[j])
}

/// Where `x` goes into a sorted list: after what is smaller, before the rest.
pub open spec fn insertion_point(names: Seq<Seq<char>>, x: Seq<char>, p: int) -> bool {
    &&& 0 <= p <= names.len()
    &&& forall|i: int| 0 <= i < p ==> !str_le(x, #[trigger] names[i])
    &&& p < names.len() ==> str_le(x, names[p])
}

/// A sorted list stays sorted when a name is put in at its insertion point.
pub proof fn lemma_insert_keeps_sorted(names: Seq<Seq<char>>, x: Seq<char>, p: int)
    requires
        sorted(names),
        insertion_point(names, x, p),
    ensures
        sorted(names.insert(p, x)),
{
    let after = names.insert(p, x);
    assert forall|i: int, j: int| 0 <= i < j < after.len() implies str_le(after[i], after[j]) by {
        if j == p {
            assert(after[i] == names[i]);
            lemma_bytes_le_total(encode_utf8(x), encode_utf8(names[i]));
        } else if i == p {
            assert(after[j] == names[j - 1]);
            if j - 1 > p {
                assert(str_le(names[p], names[j - 1]));
                lemma_bytes_le_transitive(
                    encode_utf8(x),
                    encode_utf8(names[p]),
                    encode_utf8(names[j - 1]),
                );
            }
        } else {
            let i0 = if i < p {
                i
            } else {
                i - 1
            };
            let j0 = if j < p {
                j
            } else {
                j - 1
            };
            assert(after[i] == names[i0]);
            assert(after[j] == names[j0]);
        }
    }
}

/// Sorts names into the order of their bytes.
pub fn sort_strings(items: Vec<String>) -> (r: Vec<String>)
    ensures
        sorted(views(r@)),
        views(r@).to_multiset() == views(items@).to_multiset(),
{
    let ghost orig = views(items@);
    let mut rest = items;
    let mut out: Vec<String> = Vec::new();
    proof {
        broadcast use vstd::multiset::group_multiset_axioms;

        assert(views(out@) =~= Seq::<Seq<char>>::empty());
        lemma_empty_to_multiset(views(out@));
        assert(views(out@).to_multiset().add(views(rest@).to_multiset()) =~= orig.to_multiset());
    }
    while rest.len() > 0
        invariant
            sorted(views(out@)),
            views(out@).to_multiset().add(views(rest@).to_multiset()) == orig.to_multiset(),
        decreases rest.len(),
    {
        let ghost rest_before = views(rest@);
        let ghost out_before = views(out@);
        let x = rest.pop().unwrap();
        let mut p: usize = 0;
        while p < out.len() && !str_le_exec(x.as_str(), out[p].as_str())
            invariant
                p <= out.len(),
                forall|i: int| 0 <= i < p ==> !str_le(x@, #[trigger] views(out@)[i]),
            decreases out.len() - p,
        {
            p += 1;
        }
        proof {
            assert(rest_before =~= views(rest@).push(x@));
            to_multiset_build(views(rest@), x@);
            to_multiset_insert(out_before, p as int, x@);
            lemma_insert_keeps_sorted(out_before, x@, p as int);
        }
        out.insert(p, x);
        proof {
            assert(views(out@) =~= out_before.insert(p as int, x@));
            assert(views(out@).to_multiset().add(views(rest@).to_multiset())
                =~= out_before.to_multiset().add(rest_before.to_multiset()));
        }
    }
    proof {
        broadcast use vstd::multiset::group_multiset_axioms;

        assert(views(rest@) =~= Seq::<Seq<char>>::empty());
        lemma_empty_to_multiset(views(rest@));
        assert(views(out@).to_multiset() =~= orig.to_multiset());
    }
    out
}

/// The white space of Unicode.
pub open spec fn is_white_space(c: char) -> bool {
    let u = c as u32;
    (0x09 <= u <= 0x0D) || u == 0x20 || u == 0x85 || u == 0xA0 || u == 0x1680 || (0x2000 <= u
        <= 0x200A) || u == 0x2028 || u == 0x2029 || u == 0x202F || u == 0x205F || u == 0x3000
}

/// Nothing but white space stands in `s` from `from` up to `to`.
pub open spec fn all_white(s: Seq<char>, from: int, to: int) -> bool {
    forall|i: int| from <= i < to ==> is_white_space(#[trigger] s[i])
}

/// `s` without the white space at its two ends is `s` from `start` to `end`.
pub open spec fn trims_to(s: Seq<char>, start: int, end: int) -> bool {
    &&& 0 <= start <= end <= s.len()
    &&& all_white(s, 0, start)
    &&& all_white(s, end, s.len() as int)
    &&& start < end ==> !is_white_space(s[start]) && !is_white_space(s[end - 1])
}

/// A text without the white space at its two ends.
pub open spec fn trim_spec(s: Seq<char>) -> Seq<char> {
    let (start, end) = choose|start: int, end: int| #[trigger] trims_to(s, start, end);
    s.subrange(start, end)
}

/// However the ends are found, what is left between them is the same.
pub proof fn lemma_trim_unique(s: Seq<char>, a: int, b: int, c: int, d: int)
    requires
        trims_to(s, a, b),
        trims_to(s, c, d),
    ensures
        s.subrange(a, b) == s.subrange(c, d),
{
    if a < b {
        assert(!is_white_space(s[a]));
        assert(!is_white_space(s[b - 1]));
        if c < d {
            assert(!is_white_space(s[c]));
            assert(!is_white_space(s[d - 1]));
            assert(a == c && b == d);
        } else {
            assert(a < c || a >= d);
            assert(false);
        }
    } else if c < d {
        assert(!is_white_space(s[c]));
        assert(c < a || c >= b);
        assert(false);
    } else {
        assert(s.subrange(a, b) =~= s.subrange(c, d));
    }
}

/// Tells whether a character is white space.
pub fn is_white_space_exec(c: char) -> (r: bool)
    ensures
        r == is_white_space(c),
{
    let u: u32 = c as u32;
    (0x09 <= u && u <= 0x0D) || u == 0x20 || u == 0x85 || u == 0xA0 || u == 0x1680 || (0x2000 <= u
        && u <= 0x200A) || u == 0x2028 || u == 0x2029 || u == 0x202F || u == 0x205F || u == 0x3000
}

/// Cuts the white space off both ends of a text.
pub fn trim(s: &str) -> (r: String)
    ensures
        r@ == trim_spec(s@),
{
    let n = s.unicode_len();
    let mut start: usize = 0;
    while start < n && is_white_space_exec(s.get_char(start))
        invariant
            start <= n,
            n == s@.len(),
            all_white(s@, 0, start as int),
        decreases n - start,
    {
        start += 1;
    }
    let mut end: usize = n;
    while end > start && is_white_space_exec(s.get_char(end - 1))
        invariant
            start <= end <= n,
            n == s@.len(),
            all_white(s@, end as int, n as int),
        decreases end,
    {
        end -= 1;
    }
    proof {
        assert(trims_to(s@, start as int, end as int));
        let (a, b) = choose|a: int, b: int| #[trigger] trims_to(s@, a, b);
        lemma_trim_unique(s@, start as int, end as int, a, b);
    }
    String::from_str(s.substring_char(start, end))
}

/// `s` with every `from` turned into `to`.
pub open spec fn replaced(s: Seq<char>, from: char, to: char) -> Seq<char> {
    s.map_values(|c: char| if c == from { to } else { c })
}

/// Turns every hyphen of a text into an underscore.
pub fn hyphens_to_underscores(s: &str) -> (r: String)
    ensures
        r@ == replaced(s@, '-', '_'),
{
    let n = s.unicode_len();
    let mut out = String::new();
    let mut i: usize = 0;
    proof {
        reveal_strlit("_");
    }
    while i < n
        invariant
            i <= n,
            n == s@.len(),
            "_"@ == seq!['_'],
            out@ == replaced(s@.subrange(0, i as int), '-', '_'),
        decreases n - i,
    {
        if s.get_char(i) == '-' {
            out.append("_");
        } else {
            out.append(s.substring_char(i, i + 1));
        }
        assert(out@ =~= replaced(s@.subrange(0, i + 1), '-', '_'));
        i += 1;
    }
    assert(s@.subrange(0, i as int) =~= s@);
    out
}

/// The upper-case form of a text.
pub uninterp spec fn uppercase(s: Seq<char>) -> Seq<char>;

/// `str::to_uppercase` of std: the text in upper case, by the case mapping of
/// Unicode. The result is known by its name only.
#[verifier::external_body]
pub(crate) fn to_uppercase(s: &str) -> (r: String)
    ensures
        r@ == uppercase(s@),
{
    s.to_uppercase()
}

/// Whether a text ends with another.
pub open spec fn ends_with_spec(s: Seq<char>, tail: Seq<char>) -> bool {
    s.len() >= tail.len() && s.subrange(s.len() - tail.len(), s.len() as int) == tail
}

/// Tells whether a text ends with another.
pub fn ends_with(s: &str, tail: &str) -> (r: bool)
    ensures
        r == ends_with_spec(s@, tail@),
{
    let n = s.unicode_len();
    let m = tail.unicode_len();
    if n < m {
        return false;
    }
    str_eq(s.substring_char(n - m, n), tail)
}

/// Whether a text begins with another.
pub open spec fn starts_with_spec(s: Seq<char>, head: Seq<char>) -> bool {
    s.len() >= head.len() && s.subrange(0, head.len() as int) == head
}

/// Tells whether a text begins with another.
pub fn starts_with(s: &str, head: &str) -> (r: bool)
    ensures
        r == starts_with_spec(s@, head@),
{
    let n = s.unicode_len();
    let m = head.unicode_len();
    if n < m {
        return false;
    }
    str_eq(s.substring_char(0, m), head)
}

/// A text without the run of `c` at its end.
pub open spec fn without_trailing(s: Seq<char>, c: char) -> Seq<char>
    decreases s.len(),
{
    if s.len() > 0 && s.last() == c {
        without_trailing(s.drop_last(), c)
    } else {
        s
    }
}

/// Cuts the run of `c` off the end of a text.
pub fn trim_trailing(s: &str, c: char) -> (r: String)
    ensures
        r@ == without_trailing(s@, c),
{
    let n = s.unicode_len();
    let mut end: usize = n;
    assert(s@.subrange(0, n as int) =~= s@);
    while end > 0 && s.get_char(end - 1) == c
        invariant
            end <= n,
            n == s@.len(),
            without_trailing(s@, c) == without_trailing(s@.subrange(0, end as int), c),
        decreases end,
    {
        assert(s@.subrange(0, end as int).drop_last() =~= s@.subrange(0, end - 1));
        end -= 1;
    }
    String::from_str(s.substring_char(0, end))
}

} // verus!
