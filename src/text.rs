//! The text forms that query values take: decimal integers, booleans and
//! comma-joined lists.
use vstd::prelude::*;
use vstd::string::*;

verus! {

/// The character of a decimal digit.
pub open spec fn digit_char(d: nat) -> char {
    if d == 0 {
        '0'
    } else if d == 1 {
        '1'
    } else if d == 2 {
        '2'
    } else if d == 3 {
        '3'
    } else if d == 4 {
        '4'
    } else if d == 5 {
        '5'
    } else if d == 6 {
        '6'
    } else if d == 7 {
        '7'
    } else if d == 8 {
        '8'
    } else {
        '9'
    }
}

/// The decimal digits of `n`, most significant first, without leading zeros.
pub open spec fn digits(n: nat) -> Seq<char>
    decreases n,
{
    if n < 10 {
        seq![digit_char(n)]
    } else {
        digits(n / 10).push(digit_char(n % 10))
    }
}

/// The decimal text of an integer: a minus sign before the digits of a negative one.
pub open spec fn decimal(i: int) -> Seq<char> {
    if i < 0 {
        seq!['-'] + digits((-i) as nat)
    } else {
        digits(i as nat)
    }
}

/// The text of a boolean.
pub open spec fn bool_text(b: bool) -> Seq<char> {
    if b {
        "true"@
    } else {
        "false"@
    }
}

/// The views of a sequence of strings.
pub open spec fn texts(v: Seq<String>) -> Seq<Seq<char>> {
    v.map_values(|s: String| s@)
}

/// The items joined with commas between them, in their order.
pub open spec fn comma_joined(items: Seq<Seq<char>>) -> Seq<char>
    decreases items.len(),
{
    if items.len() == 0 {
        Seq::empty()
    } else if items.len() == 1 {
        items[0]
    } else {
        comma_joined(items.drop_last()) + ","@ + items.last()
    }
}

/// The decimal text of an optional integer.
pub open spec fn opt_i16_text(v: Option<i16>) -> Option<Seq<char>> {
    match v {
        Some(n) => Some(decimal(n as int)),
        None => None,
    }
}

/// The text of an optional boolean.
pub open spec fn opt_bool(v: Option<bool>) -> Option<Seq<char>> {
    match v {
        Some(b) => Some(bool_text(b)),
        None => None,
    }
}

/// The comma-joined text of an optional list.
pub open spec fn opt_joined(v: Option<Vec<String>>) -> Option<Seq<char>> {
    match v {
        Some(items) => Some(comma_joined(texts(items@))),
        None => None,
    }
}

/// The decimal text of an optional unsigned integer.
pub open spec fn opt_u32_text(v: Option<u32>) -> Option<Seq<char>> {
    match v {
        Some(n) => Some(digits(n as nat)),
        None => None,
    }
}

/// The decimal text of an optional unsigned integer.
pub open spec fn opt_u128_text(v: Option<u128>) -> Option<Seq<char>> {
    match v {
        Some(n) => Some(digits(n as nat)),
        None => None,
    }
}

/// The text of an optional string.
pub open spec fn opt_text(v: Option<String>) -> Option<Seq<char>> {
    match v {
        Some(t) => Some(t@),
        None => None,
    }
}

fn digit_str(d: u128) -> (r: &'static str)
    requires
        d < 10,
    ensures
        r@ == seq![digit_char(d as nat)],
{
    proof {
        reveal_strlit("0");
        reveal_strlit("1");
        reveal_strlit("2");
        reveal_strlit("3");
        reveal_strlit("4");
        reveal_strlit("5");
        reveal_strlit("6");
        reveal_strlit("7");
        reveal_strlit("8");
        reveal_strlit("9");
    }
    if d == 0 {
        "0"
    } else if d == 1 {
        "1"
    } else if d == 2 {
        "2"
    } else if d == 3 {
        "3"
    } else if d == 4 {
        "4"
    } else if d == 5 {
        "5"
    } else if d == 6 {
        "6"
    } else if d == 7 {
        "7"
    } else if d == 8 {
        "8"
    } else {
        "9"
    }
}

/// The decimal text of an unsigned integer.
pub fn unsigned_text(n: u128) -> (r: String)
    ensures
        r@ == digits(n as nat),
    decreases n,
{
    if n < 10 {
        String::from_str(digit_str(n))
    } else {
        let mut r = unsigned_text(n / 10);
        r.append(digit_str(n % 10));
        r
    }
}

/// The decimal text of a signed integer.
pub fn signed_text(n: i64) -> (r: String)
    ensures
        r@ == decimal(n as int),
{
    if n < 0 {
        let magnitude: u128 = (0i128 - n as i128) as u128;
        proof {
            reveal_strlit("-");
        }
        let mut r = String::from_str("-");
        let digits_text = unsigned_text(magnitude);
        r.append(digits_text.as_str());
        r
    } else {
        unsigned_text(n as u128)
    }
}

/// The text of a boolean: `true` or `false`.
pub fn boolean_text(b: bool) -> (r: String)
    ensures
        r@ == bool_text(b),
{
    if b {
        String::from_str("true")
    } else {
        String::from_str("false")
    }
}

/// The items joined with commas, in the order given.
pub fn join_with_commas(items: &Vec<String>) -> (r: String)
    ensures
        r@ == comma_joined(texts(items@)),
{
    proof {
        reveal_strlit(",");
    }
    let mut r = String::new();
    let n = items.len();
    let mut i: usize = 0;
    while i < n
        invariant
            n == items@.len(),
            0 <= i <= n,
            r@ == comma_joined(texts(items@).take(i as int)),
        decreases n - i,
    {
        let ghost done = texts(items@).take(i as int);
        let ghost next = texts(items@).take(i as int + 1);
        assert(next.drop_last() =~= done);
        if i > 0 {
            r.append(",");
        } else {
            assert(done =~= Seq::<Seq<char>>::empty());
        }
        r.append(items[i].as_str());
        i = i + 1;
    }
    assert(texts(items@).take(n as int) =~= texts(items@));
    r
}

/// Whether two texts are the same.
pub fn same_text(a: &str, b: &str) -> (r: bool)
    ensures
        r == (a@ == b@),
{
    let n = a.unicode_len();
    if n != b.unicode_len() {
        return false;
    }
    let mut i: usize = 0;
    while i < n
        invariant
            n == a@.len(),
            n == b@.len(),
            0 <= i <= n,
            forall|j: int| 0 <= j < i ==> a@[j] == b@[j],
        decreases n - i,
    {
        if a.get_char(i) != b.get_char(i) {
            return false;
        }
        i = i + 1;
    }
    assert(a@ =~= b@);
    true
}

/// Joining keeps the order of the items: the join of two non-empty lists,
/// one after the other, is the join of the first, a comma, and the join of
/// the second.
pub proof fn lemma_comma_joined_append(first: Seq<Seq<char>>, second: Seq<Seq<char>>)
    requires
        first.len() > 0,
        second.len() > 0,
    ensures
        comma_joined(first + second) == comma_joined(first) + ","@ + comma_joined(second),
    decreases second.len(),
{
    let whole = first + second;
    if second.len() == 1 {
        assert(whole.drop_last() =~= first);
    } else {
        let shorter = second.drop_last();
        lemma_comma_joined_append(first, shorter);
        assert(whole.drop_last() =~= first + shorter);
        assert(comma_joined(whole) == comma_joined(first + shorter) + ","@ + second.last());
        assert(comma_joined(second) == comma_joined(shorter) + ","@ + second.last());
        assert(comma_joined(whole) =~= comma_joined(first) + ","@ + comma_joined(second));
    }
}

} // verus!
