//! Numbers and paths as text.
use vstd::prelude::*;
use vstd::string::*;

verus! {

/// The decimal digit of `d`.
pub open spec fn digit(d: nat) -> char
    recommends
        d < 10,
{
    ('0' as nat + d) as char
}

/// `n` in decimal, without leading zeros.
pub open spec fn decimal(n: nat) -> Seq<char>
    decreases n,
{
    if n < 10 {
        seq![digit(n)]
    } else {
        decimal(n / 10).push(digit(n % 10))
    }
}

fn digit_str(d: u64) -> (r: &'static str)
    requires
        d < 10,
    ensures
        r@ == seq![digit(d as nat)],
{
    proof {
        reveal_strlit("0");
        reveal_strlit("1");
        reveal_strlit("2");
        reveal_strlit("3");
        reveal_strlit("4");
        reveal_strlit("5");
        reveal_strlit("6");
        reveal_strlit("7");
        reveal_strlit("8");
        reveal_strlit("9");
    }
    match d {
        0 => "0",
        1 => "1",
        2 => "2",
        3 => "3",
        4 => "4",
        5 => "5",
        6 => "6",
        7 => "7",
        8 => "8",
        _ => "9",
    }
}

/// Appends `n` in decimal.
pub fn append_decimal(s: &mut String, n: u64)
    ensures
        final(s)@ == old(s)@ + decimal(n as nat),
    decreases n,
{
    if n >= 10 {
        append_decimal(s, n / 10);
    }
    s.append(digit_str(n % 10));
    assert(s@ =~= old(s)@ + decimal(n as nat));
}

/// A number below ten is its digit, and a digit written behind a number makes ten times the
/// number and the digit.
pub proof fn law_decimal(m: nat, d: nat)
    requires
        d < 10,
    ensures
        decimal(d).len() == 1,
        decimal(d)[0] as int == '0' as int + d,
        m > 0 ==> decimal(10 * m + d) == decimal(m) + decimal(d),
{
    if m > 0 {
        assert((10 * m + d) / 10 == m);
        assert((10 * m + d) % 10 == d);
        assert(decimal(10 * m + d) =~= decimal(m) + decimal(d));
    }
}

/// A number in decimal is made of digits only, and of no more than it needs.
pub proof fn law_decimal_digits(n: nat)
    ensures
        decimal(n).len() > 0,
        forall|i: int| 0 <= i < decimal(n).len() ==> '0' <= #[trigger] decimal(n)[i] <= '9',
        decimal(n)[0] == '0' ==> n == 0,
    decreases n,
{
    law_decimal(n / 10, n % 10);
    if n >= 10 {
        let front = decimal(n / 10);
        law_decimal_digits(n / 10);
        assert(decimal(n) == front + decimal(n % 10));
        assert forall|i: int| 0 <= i < decimal(n).len() implies '0' <= #[trigger] decimal(n)[i]
            <= '9' by {
            if i < front.len() {
                assert(decimal(n)[i] == front[i]);
            } else {
                assert(decimal(n)[i] == decimal(n % 10)[0]);
            }
        }
        assert(decimal(n)[0] == front[0]);
    }
}

/// Different numbers are different texts.
pub proof fn law_decimal_tells_apart(a: nat, b: nat)
    requires
        decimal(a) == decimal(b),
    ensures
        a == b,
    decreases a,
{
    law_decimal(a / 10, a % 10);
    law_decimal(b / 10, b % 10);
    law_decimal_digits(a / 10);
    law_decimal_digits(b / 10);
    if a >= 10 && b >= 10 {
        assert(decimal(a / 10) =~= decimal(a).drop_last());
        assert(decimal(b / 10) =~= decimal(b).drop_last());
        assert(decimal(a).last() == decimal(a % 10)[0]);
        assert(decimal(b).last() == decimal(b % 10)[0]);
        law_decimal_tells_apart(a / 10, b / 10);
    } else {
        assert(a >= 10 ==> decimal(a).len() > 1);
        assert(b >= 10 ==> decimal(b).len() > 1);
    }
}

/// Whether two texts are the same.
pub fn str_eq(a: &str, b: &str) -> (r: bool)
    ensures
        r == (a@ == b@),
{
    let x = a.as_bytes();
    let y = b.as_bytes();
    proof {
        vstd::utf8::encode_utf8_decode_utf8(a@);
        vstd::utf8::encode_utf8_decode_utf8(b@);
        assert(x@ == y@ <==> a@ == b@);
    }
    if x.len() != y.len() {
        return false;
    }
    for i in 0..x.len()
        invariant
            x@.len() == y@.len(),
            x@ == y@ <==> a@ == b@,
            forall|j: int| 0 <= j < i ==> x@[j] == y@[j],
    {
        if x[i] != y[i] {
            return false;
        }
    }
    assert(x@ =~= y@);
    true
}

/// Whether a text can be handed to the kernel as a path: none of its characters would end it
/// early.
pub open spec fn is_path(s: Seq<char>) -> bool {
    forall|i: int| 0 <= i < s.len() ==> #[trigger] s[i] != '\0'
}

/// A text is a path exactly if it has no NUL, whatever else it has.
pub proof fn law_path(s: Seq<char>)
    ensures
        is_path(s) <==> !s.contains('\0'),
{
    if is_path(s) {
        assert(!s.contains('\0'));
    } else {
        let i = choose|i: int| 0 <= i < s.len() && #[trigger] s[i] == '\0';
        assert(s[i] == '\0');
    }
}

/// Two texts make a path exactly if each of them is one.
pub proof fn law_path_joined(a: Seq<char>, b: Seq<char>)
    ensures
        is_path(a + b) <==> is_path(a) && is_path(b),
{
    if is_path(a + b) {
        assert forall|i: int| 0 <= i < a.len() implies #[trigger] a[i] != '\0' by {
            assert((a + b)[i] == a[i]);
        }
        assert forall|i: int| 0 <= i < b.len() implies #[trigger] b[i] != '\0' by {
            assert((a + b)[a.len() + i] == b[i]);
        }
    }
}

/// Whether a text can be handed to the kernel as a path.
pub fn check_path(s: &str) -> (r: bool)
    ensures
        r == is_path(s@),
        r <==> !s@.contains('\0'),
{
    proof {
        law_path(s@);
    }
    let n = s.unicode_len();
    for i in 0..n
        invariant
            n == s@.len(),
            forall|j: int| 0 <= j < i ==> #[trigger] s@[j] != '\0',
    {
        if s.get_char(i) == '\0' {
            return false;
        }
    }
    true
}

} // verus!
