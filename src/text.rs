use vstd::prelude::*;
use vstd::string::StrSliceExecFns;
use vstd::string::StringExecFns;

verus! {

/// The character of a decimal digit `d < 10`.
pub open spec fn digit_char(d: nat) -> char {
    if d == 0 { '0' }
    else if d == 1 { '1' }
    else if d == 2 { '2' }
    else if d == 3 { '3' }
    else if d == 4 { '4' }
    else if d == 5 { '5' }
    else if d == 6 { '6' }
    else if d == 7 { '7' }
    else if d == 8 { '8' }
    else { '9' }
}

/// Decimal rendering of `n`, without leading zeros.
pub open spec fn decimal(n: nat) -> Seq<char>
    decreases n,
{
    if n < 10 {
        seq![digit_char(n)]
    } else {
        decimal(n / 10).push(digit_char(n % 10))
    }
}

fn digit_str(d: u32) -> (r: &'static str)
    requires
        d < 10,
    ensures
        r@ == seq![digit_char(d as nat)],
{
    proof {
        reveal_strlit("0");
        reveal_strlit("1");
        reveal_strlit("2");
        reveal_strlit("3");
        reveal_strlit("4");
        reveal_strlit("5");
        reveal_strlit("6");
        reveal_strlit("7");
        reveal_strlit("8");
        reveal_strlit("9");
    }
    if d == 0 { "0" }
    else if d == 1 { "1" }
    else if d == 2 { "2" }
    else if d == 3 { "3" }
    else if d == 4 { "4" }
    else if d == 5 { "5" }
    else if d == 6 { "6" }
    else if d == 7 { "7" }
    else if d == 8 { "8" }
    else { "9" }
}

/// Renders `n` in decimal.
pub fn decimal_string(n: u32) -> (r: String)
    ensures
        r@ == decimal(n as nat),
    decreases n,
{
    if n < 10 {
        String::from_str(digit_str(n))
    } else {
        let mut s = decimal_string(n / 10);
        s.append(digit_str(n % 10));
        s
    }
}

/// Whether `c` is an ASCII decimal digit.
pub open spec fn is_ascii_digit(c: char) -> bool {
    '0' <= c && c <= '9'
}

/// The value of a run of ASCII decimal digits.
pub open spec fn digits_value(s: Seq<char>) -> nat
    decreases s.len(),
{
    if s.len() == 0 {
        0
    } else {
        digits_value(s.drop_last()) * 10 + ((s.last() as nat) - ('0' as nat)) as nat
    }
}

/// The digits of an unsigned number written with an optional leading `+`.
pub open spec fn unsigned_digits(s: Seq<char>) -> Seq<char> {
    if s.len() > 0 && s[0] == '+' { s.drop_first() } else { s }
}

/// What reading `s` as a `u32` gives: `None` unless `s` is an optional `+`
/// followed by at least one ASCII digit, with a value that fits in 32 bits.
pub open spec fn u32_of(s: Seq<char>) -> Option<u32> {
    let d = unsigned_digits(s);
    if d.len() > 0 && (forall|i: int| 0 <= i < d.len() ==> is_ascii_digit(#[trigger] d[i]))
        && digits_value(d) <= u32::MAX {
        Some(digits_value(d) as u32)
    } else {
        None
    }
}

#[verifier::external_type_specification]
#[verifier::external_body]
pub struct ExParseIntError(std::num::ParseIntError);

/// Relies on `<u32 as FromStr>::from_str`: an optional `+` and then decimal
/// digits only, with an error when the text is empty, holds anything else,
/// or overflows.
#[verifier::external_body]
pub(crate) fn parse_u32(s: &str) -> (r: Result<u32, std::num::ParseIntError>)
    ensures
        match r {
            Ok(v) => u32_of(s@) == Some(v),
            Err(_) => u32_of(s@) is None,
        },
{
    s.parse::<u32>()
}

/// `path`, then a colon, then `base_path`: a search path with one more
/// directory in front.
pub fn prepend_to_path(path: &str, base_path: &str) -> (r: String)
    ensures
        r@ == path@ + seq![':'] + base_path@,
{
    proof { reveal_strlit(":"); }
    let mut r = String::from_str(path);
    r.append(":");
    r.append(base_path);
    r
}


/// The part that item `i` of a list of `n` items adds to a list of three or more:
/// `"x, "` for all but the last, `"and x"` for the last.
pub open spec fn list_piece(item: Seq<char>, i: int, n: int) -> Seq<char> {
    if i + 1 == n {
        seq!['a', 'n', 'd', ' '] + item
    } else {
        item + seq![',', ' ']
    }
}

/// The pieces of the first `k` of `items`, one after another.
pub open spec fn list_pieces(items: Seq<Seq<char>>, k: int) -> Seq<char>
    decreases k,
{
    if k <= 0 {
        Seq::empty()
    } else {
        list_pieces(items, k - 1) + list_piece(items[k - 1], k - 1, items.len() as int)
    }
}

/// A list in prose: one item alone, two joined by `" and "`, and otherwise
/// each item followed by `", "` but the last, which is preceded by `"and "`.
pub open spec fn list_text(items: Seq<Seq<char>>) -> Seq<char> {
    if items.len() == 1 {
        items[0]
    } else if items.len() == 2 {
        items[0] + seq![' ', 'a', 'n', 'd', ' '] + items[1]
    } else {
        list_pieces(items, items.len() as int)
    }
}

/// The views of a slice of strings.
pub open spec fn views(list: Seq<String>) -> Seq<Seq<char>> {
    list.map_values(|s: String| s@)
}

/// Writes `list` as a list in prose.
pub fn list_display(list: &[String]) -> (r: String)
    ensures
        r@ == list_text(views(list@)),
{
    proof {
        reveal_strlit(" and ");
        reveal_strlit("and ");
        reveal_strlit(", ");
    }
    let n = list.len();
    if n == 1 {
        list[0].clone()
    } else if n == 2 {
        let mut r = list[0].clone();
        r.append(" and ");
        r.append(list[1].as_str());
        r
    } else {
        let mut display = String::new();
        let mut idx: usize = 0;
        while idx < n
            invariant
                n == list@.len(),
                n != 1 && n != 2,
                idx <= n,
                display@ == list_pieces(views(list@), idx as int),
            decreases n - idx,
        {
            let ghost before = display@;
            proof {
                reveal_strlit("and ");
                reveal_strlit(", ");
            }
            if idx + 1 == n {
                display.append("and ");
                display.append(list[idx].as_str());
            } else {
                display.append(list[idx].as_str());
                display.append(", ");
            }
            proof {
                let v = views(list@);
                assert(v[idx as int] == list@[idx as int]@);
                assert(v.len() == n);
                assert(display@ =~= before + list_piece(v[idx as int], idx as int, n as int));
                assert(list_pieces(v, idx + 1) == list_pieces(v, idx as int) + list_piece(
                    v[idx as int],
                    idx as int,
                    v.len() as int,
                ));
            }
            idx = idx + 1;
        }
        display
    }
}

/// The position of the last `.` in `s`, if any.
pub open spec fn last_dot(s: Seq<char>) -> Option<int>
    decreases s.len(),
{
    if s.len() == 0 {
        None
    } else if s.last() == '.' {
        Some(s.len() - 1)
    } else {
        last_dot(s.drop_last())
    }
}

/// The dot-separated labels of `s` in reverse order, joined by dots again:
/// the last label, a dot, then the rest reversed the same way.
pub open spec fn reversed_domain(s: Seq<char>) -> Seq<char>
    decreases s.len(),
{
    match last_dot(s) {
        None => s,
        Some(k) => if 0 <= k < s.len() {
            s.subrange(k + 1, s.len() as int) + seq!['.'] + reversed_domain(s.subrange(0, k))
        } else {
            s
        },
    }
}

proof fn lemma_last_dot(s: Seq<char>, k: int)
    requires
        -1 <= k < s.len(),
        k >= 0 ==> s[k] == '.',
        forall|j: int| k < j < s.len() ==> s[j] != '.',
    ensures
        last_dot(s) == if k >= 0 { Some(k) } else { None::<int> },
    decreases s.len(),
{
    if s.len() > 0 && s.last() != '.' {
        lemma_last_dot(s.drop_last(), k);
    }
}

proof fn lemma_reverse_step(s: Seq<char>, i: int, end: int)
    requires
        0 < i <= end <= s.len(),
        s[i - 1] == '.',
        forall|j: int| i <= j < end ==> s[j] != '.',
    ensures
        reversed_domain(s.subrange(0, end)) == s.subrange(i, end) + seq!['.']
            + reversed_domain(s.subrange(0, i - 1)),
{
    let t = s.subrange(0, end);
    lemma_last_dot(t, i - 1);
    assert(t.subrange(i, end) =~= s.subrange(i, end));
    assert(t.subrange(0, i - 1) =~= s.subrange(0, i - 1));
}

/// Reverses the order of the dot-separated labels of `domain`
/// (`"example.com"` gives `"com.example"`).
pub fn reverse_domain(domain: &str) -> (r: String)
    ensures
        r@ == reversed_domain(domain@),
{
    proof { reveal_strlit("."); }
    let n = domain.unicode_len();
    let mut out = String::new();
    let mut end: usize = n;
    let mut i: usize = n;
    proof {
        assert(domain@.subrange(0, n as int) == domain@);
        assert(out@ + reversed_domain(domain@) == reversed_domain(domain@));
    }
    while i > 0
        invariant
            n == domain@.len(),
            i <= end <= n,
            forall|j: int| i <= j < end ==> domain@[j] != '.',
            reversed_domain(domain@) == out@ + reversed_domain(domain@.subrange(0, end as int)),
        decreases i,
    {
        let c = domain.get_char(i - 1);
        if c == '.' {
            let ghost before = out@;
            let ghost old_end = end as int;
            proof {
                reveal_strlit(".");
                lemma_reverse_step(domain@, i as int, end as int);
            }
            out.append(domain.substring_char(i, end));
            out.append(".");
            end = i - 1;
            proof {
                assert(out@ =~= before + (domain@.subrange(i as int, old_end) + seq!['.']));
                assert(before + (domain@.subrange(i as int, old_end) + seq!['.']
                    + reversed_domain(domain@.subrange(0, end as int)))
                    =~= out@ + reversed_domain(domain@.subrange(0, end as int)));
            }
        }
        i = i - 1;
    }
    proof {
        let t = domain@.subrange(0, end as int);
        lemma_last_dot(t, -1);
        assert(reversed_domain(t) == t);
    }
    out.append(domain.substring_char(0, end));
    out
}

} // verus!
