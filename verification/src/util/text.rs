//! Text building blocks: decimal rendering of integers and joining of parts.
use vstd::prelude::*;

verus! {

/// The decimal digit character for `d` (0 to 9).
pub open spec fn digit_char(d: int) -> char {
    if d == 0 { '0' }
    else if d == 1 { '1' }
    else if d == 2 { '2' }
    else if d == 3 { '3' }
    else if d == 4 { '4' }
    else if d == 5 { '5' }
    else if d == 6 { '6' }
    else if d == 7 { '7' }
    else if d == 8 { '8' }
    else { '9' }
}

/// Decimal text of a natural number, without leading zeros.
pub open spec fn nat_text(n: nat) -> Seq<char>
    decreases n,
{
    if n < 10 {
        seq![digit_char(n as int)]
    } else {
        nat_text(n / 10).push(digit_char((n % 10) as int))
    }
}

/// Decimal text of an integer, with a leading '-' when negative.
pub open spec fn int_text(i: int) -> Seq<char> {
    if i < 0 {
        seq!['-'] + nat_text((-i) as nat)
    } else {
        nat_text(i as nat)
    }
}

/// Decimal text: the digit of `d` is the character `d` places after '0';
/// a number under ten is its one digit; a larger one is the text of its
/// tenth followed by the digit of its last place; a negative integer is '-'
/// followed by the text of its magnitude.
pub proof fn law_decimal_text(d: int, n: nat, i: int)
    ensures
        0 <= d <= 9 ==> digit_char(d) as int == '0' as int + d,
        n < 10 ==> nat_text(n) == seq![digit_char(n as int)],
        n >= 10 ==> nat_text(n) == nat_text(n / 10) + seq![digit_char((n % 10) as int)],
        i < 0 ==> int_text(i) == seq!['-'] + nat_text((-i) as nat),
        i >= 0 ==> int_text(i) == nat_text(i as nat),
{
    if n >= 10 {
        assert(nat_text(n / 10).push(digit_char((n % 10) as int)) =~= nat_text(n / 10) + seq![digit_char((n % 10) as int)]);
    }
}

/// The parts joined with `sep` placed between each two neighbours.
pub open spec fn join_text(parts: Seq<Seq<char>>, sep: Seq<char>) -> Seq<char>
    decreases parts.len(),
{
    if parts.len() == 0 {
        Seq::empty()
    } else if parts.len() == 1 {
        parts[0]
    } else {
        join_text(parts.drop_last(), sep) + sep + parts.last()
    }
}

/// `n` question marks separated by commas: the placeholders of `n` values.
pub open spec fn placeholders(n: nat) -> Seq<char> {
    join_text(Seq::new(n, |i: int| "?"@), ","@)
}

/// The views of a vector of strings.
pub open spec fn string_views(v: Seq<String>) -> Seq<Seq<char>> {
    v.map_values(|s: String| s@)
}

/// The views of a vector of string slices.
pub open spec fn str_views<'a>(v: Seq<&'a str>) -> Seq<Seq<char>> {
    v.map_values(|s: &'a str| s@)
}

fn digit_str(d: u64) -> (r: &'static str)
    requires
        d < 10,
    ensures
        r@ == seq![digit_char(d as int)],
{
    proof {
        reveal_strlit("0");
        reveal_strlit("1");
        reveal_strlit("2");
        reveal_strlit("3");
        reveal_strlit("4");
        reveal_strlit("5");
        reveal_strlit("6");
        reveal_strlit("7");
        reveal_strlit("8");
        reveal_strlit("9");
    }
    if d == 0 { "0" }
    else if d == 1 { "1" }
    else if d == 2 { "2" }
    else if d == 3 { "3" }
    else if d == 4 { "4" }
    else if d == 5 { "5" }
    else if d == 6 { "6" }
    else if d == 7 { "7" }
    else if d == 8 { "8" }
    else { "9" }
}

/// Decimal text of an unsigned integer.
pub fn u64_text(x: u64) -> (r: String)
    ensures
        r@ == nat_text(x as nat),
    decreases x,
{
    if x < 10 {
        String::from_str(digit_str(x))
    } else {
        let mut s = u64_text(x / 10);
        s.append(digit_str(x % 10));
        s
    }
}

/// Decimal text of a signed integer.
pub fn i64_text(x: i64) -> (r: String)
    ensures
        r@ == int_text(x as int),
{
    if x < 0 {
        let m: u64 = if x == i64::MIN {
            9223372036854775808u64
        } else {
            (-x) as u64
        };
        let mut s = String::from_str("-");
        proof {
            reveal_strlit("-");
        }
        let digits = u64_text(m);
        s.append(digits.as_str());
        s
    } else {
        u64_text(x as u64)
    }
}

/// Joins the parts with `sep` between each two neighbours.
pub fn join(parts: &Vec<String>, sep: &str) -> (r: String)
    ensures
        r@ == join_text(string_views(parts@), sep@),
{
    let ghost views = string_views(parts@);
    let mut r = String::new();
    let mut i: usize = 0;
    while i < parts.len()
        invariant
            i <= parts.len(),
            views == string_views(parts@),
            r@ == join_text(views.take(i as int), sep@),
        decreases parts.len() - i,
    {
        if i > 0 {
            r.append(sep);
        }
        r.append(parts[i].as_str());
        proof {
            assert(views.take(i + 1).drop_last() =~= views.take(i as int));
        }
        i = i + 1;
    }
    proof {
        assert(views.take(parts.len() as int) =~= views);
    }
    r
}

/// Joins the string slices with `sep` between each two neighbours.
pub fn join_strs<'a>(parts: &Vec<&'a str>, sep: &str) -> (r: String)
    ensures
        r@ == join_text(str_views(parts@), sep@),
{
    let ghost views = str_views(parts@);
    let mut r = String::new();
    let mut i: usize = 0;
    while i < parts.len()
        invariant
            i <= parts.len(),
            views == str_views(parts@),
            r@ == join_text(views.take(i as int), sep@),
        decreases parts.len() - i,
    {
        if i > 0 {
            r.append(sep);
        }
        r.append(parts[i]);
        proof {
            assert(views.take(i + 1).drop_last() =~= views.take(i as int));
        }
        i = i + 1;
    }
    proof {
        assert(views.take(parts.len() as int) =~= views);
    }
    r
}

/// `n` question marks separated by commas.
pub fn placeholder_list(n: usize) -> (r: String)
    ensures
        r@ == placeholders(n as nat),
{
    let ghost views = Seq::new(n as nat, |i: int| "?"@);
    let mut r = String::new();
    let mut i: usize = 0;
    while i < n
        invariant
            i <= n,
            views == Seq::new(n as nat, |i: int| "?"@),
            r@ == join_text(views.take(i as int), ","@),
        decreases n - i,
    {
        if i > 0 {
            r.append(",");
        }
        r.append("?");
        proof {
            assert(views.take(i + 1).drop_last() =~= views.take(i as int));
        }
        i = i + 1;
    }
    proof {
        assert(views.take(n as int) =~= views);
    }
    r
}

/// Whether the two texts are the same.
pub fn str_equal(a: &str, b: &str) -> (r: bool)
    ensures
        r <==> a@ == b@,
{
    let n = a.unicode_len();
    if n != b.unicode_len() {
        return false;
    }
    let mut i: usize = 0;
    while i < n
        invariant
            n == a@.len(),
            n == b@.len(),
            i <= n,
            a@.take(i as int) == b@.take(i as int),
        decreases n - i,
    {
        if a.get_char(i) != b.get_char(i) {
            return false;
        }
        proof {
            assert(a@.take(i + 1) =~= a@.take(i as int).push(a@[i as int]));
            assert(b@.take(i + 1) =~= b@.take(i as int).push(b@[i as int]));
        }
        i = i + 1;
    }
    proof {
        assert(a@.take(n as int) =~= a@);
        assert(b@.take(n as int) =~= b@);
    }
    true
}

/// Whether the text is one of the texts of the vector.
pub fn contains_str<'a>(v: &Vec<&'a str>, s: &str) -> (r: bool)
    ensures
        r == str_views(v@).contains(s@),
{
    let mut i: usize = 0;
    while i < v.len()
        invariant
            i <= v.len(),
            forall|k: int| 0 <= k < i ==> v@[k]@ != s@,
        decreases v.len() - i,
    {
        if str_equal(v[i], s) {
            proof {
                assert(str_views(v@)[i as int] == s@);
            }
            return true;
        }
        i = i + 1;
    }
    proof {
        if str_views(v@).contains(s@) {
            let k = choose|k: int| 0 <= k < str_views(v@).len() && str_views(v@)[k] == s@;
            assert(v@[k]@ == s@);
        }
    }
    false
}

/// The two texts one after the other.
pub fn concat2(a: &str, b: &str) -> (r: String)
    ensures
        r@ == a@ + b@,
{
    let mut r = String::from_str(a);
    r.append(b);
    r
}

/// The three texts one after the other.
pub fn concat3(a: &str, b: &str, c: &str) -> (r: String)
    ensures
        r@ == a@ + b@ + c@,
{
    let mut r = String::from_str(a);
    r.append(b);
    r.append(c);
    r
}

} // verus!
