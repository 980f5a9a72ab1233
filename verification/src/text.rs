//! Decimal rendering of integers and `host:port` address text.

use vstd::arithmetic::div_mod::lemma_fundamental_div_mod;
use vstd::prelude::*;

verus! {

/// The character of a decimal digit.
pub open spec fn digit_char(d: nat) -> char {
    if d == 0 {
        '0'
    } else if d == 1 {
        '1'
    } else if d == 2 {
        '2'
    } else if d == 3 {
        '3'
    } else if d == 4 {
        '4'
    } else if d == 5 {
        '5'
    } else if d == 6 {
        '6'
    } else if d == 7 {
        '7'
    } else if d == 8 {
        '8'
    } else {
        '9'
    }
}

/// The decimal representation of a natural number, without leading zeros.
pub open spec fn decimal_text(n: nat) -> Seq<char>
    decreases n,
{
    if n < 10 {
        seq![digit_char(n)]
    } else {
        decimal_text(n / 10).push(digit_char(n % 10))
    }
}

/// The decimal representation of an integer, with a leading `-` when negative.
pub open spec fn integer_text(i: int) -> Seq<char> {
    if i < 0 {
        seq!['-'] + decimal_text((-i) as nat)
    } else {
        decimal_text(i as nat)
    }
}

/// The text `host:port`.
pub open spec fn address_text(host: Seq<char>, port: int) -> Seq<char> {
    host + seq![':'] + integer_text(port)
}

/// Whether `c` is one of the ten decimal digits.
pub open spec fn is_digit(c: char) -> bool {
    '0' <= c && c <= '9'
}

/// The number that a string of decimal digits denotes, most significant
/// digit first.
pub open spec fn digits_value(s: Seq<char>) -> int
    decreases s.len(),
{
    if s.len() == 0 {
        0
    } else {
        digits_value(s.drop_last()) * 10 + (s.last() as int - '0' as int)
    }
}

/// A non-empty string of decimal digits with no leading zero, unless it is
/// the single digit `0`.
pub open spec fn is_plain_digits(s: Seq<char>) -> bool {
    &&& s.len() >= 1
    &&& forall|k: int| 0 <= k < s.len() ==> #[trigger] is_digit(s[k])
    &&& s.len() > 1 ==> s[0] != '0'
}

/// `s` is the usual text of the integer `i`: plain digits, preceded by `-`
/// exactly when `i` is negative, that denote `i`.
pub open spec fn denotes_integer(s: Seq<char>, i: int) -> bool {
    if i < 0 {
        &&& s.len() >= 1
        &&& s[0] == '-'
        &&& is_plain_digits(s.drop_first())
        &&& digits_value(s.drop_first()) == -i
    } else {
        &&& is_plain_digits(s)
        &&& digits_value(s) == i
    }
}

/// The decimal text of `n` is plain digits that denote `n`.
pub proof fn lemma_decimal_text_denotes(n: nat)
    ensures
        is_plain_digits(decimal_text(n)),
        digits_value(decimal_text(n)) == n,
        n > 0 ==> decimal_text(n)[0] != '0',
    decreases n,
{
    let t = decimal_text(n);
    if n < 10 {
        assert(t.drop_last() =~= Seq::<char>::empty());
        assert(digits_value(t.drop_last()) == 0);
    } else {
        let q = n / 10;
        let r = n % 10;
        lemma_fundamental_div_mod(n as int, 10);
        lemma_decimal_text_denotes(q);
        let head = decimal_text(q);
        assert(t == head.push(digit_char(r)));
        assert(t.drop_last() =~= head);
        assert forall|k: int| 0 <= k < t.len() implies #[trigger] is_digit(t[k]) by {
            if k < head.len() {
                assert(t[k] == head[k]);
                assert(is_digit(head[k]));
            }
        }
        assert(t[0] == head[0]);
    }
}

/// The text of an integer is its usual decimal text.
pub proof fn lemma_integer_text_denotes(i: int)
    ensures
        denotes_integer(integer_text(i), i),
{
    if i < 0 {
        lemma_decimal_text_denotes((-i) as nat);
        assert(integer_text(i).drop_first() =~= decimal_text((-i) as nat));
    } else {
        lemma_decimal_text_denotes(i as nat);
    }
}

/// The address text is the host, a colon, and then the usual decimal text of
/// the port itself.
pub proof fn lemma_address_text_parts(host: Seq<char>, port: int)
    ensures
        address_text(host, port).len() > host.len() + 1int,
        address_text(host, port).subrange(0, host.len() + 1int) == host.push(':'),
        denotes_integer(
            address_text(host, port).subrange(host.len() + 1int, address_text(host, port).len() as int),
            port,
        ),
{
    let a = address_text(host, port);
    lemma_integer_text_denotes(port);
    assert(a.subrange(0, host.len() + 1int) =~= host.push(':'));
    assert(a.subrange(host.len() + 1int, a.len() as int) =~= integer_text(port));
}

fn digit_str(d: u64) -> (s: &'static str)
    requires
        d < 10,
    ensures
        s@ == seq![digit_char(d as nat)],
{
    if d == 0 {
        proof {
            reveal_strlit("0");
        }
        "0"
    } else if d == 1 {
        proof {
            reveal_strlit("1");
        }
        "1"
    } else if d == 2 {
        proof {
            reveal_strlit("2");
        }
        "2"
    } else if d == 3 {
        proof {
            reveal_strlit("3");
        }
        "3"
    } else if d == 4 {
        proof {
            reveal_strlit("4");
        }
        "4"
    } else if d == 5 {
        proof {
            reveal_strlit("5");
        }
        "5"
    } else if d == 6 {
        proof {
            reveal_strlit("6");
        }
        "6"
    } else if d == 7 {
        proof {
            reveal_strlit("7");
        }
        "7"
    } else if d == 8 {
        proof {
            reveal_strlit("8");
        }
        "8"
    } else {
        proof {
            reveal_strlit("9");
        }
        "9"
    }
}

fn push_decimal(out: &mut String, n: u64)
    ensures
        final(out)@ == old(out)@ + decimal_text(n as nat),
    decreases n,
{
    if n >= 10 {
        push_decimal(out, n / 10);
    }
    out.append(digit_str(n % 10));
}

fn push_integer(out: &mut String, i: i64)
    ensures
        final(out)@ == old(out)@ + integer_text(i as int),
{
    if i < 0 {
        proof {
            reveal_strlit("-");
        }
        out.append("-");
        let magnitude: u64 = if i == i64::MIN {
            9223372036854775808u64
        } else {
            (-i) as u64
        };
        push_decimal(out, magnitude);
    } else {
        push_decimal(out, i as u64);
    }
}

/// The socket address text `host:port` that the client connects to.
pub fn address(host: &str, port: i64) -> (s: String)
    ensures
        s@ == address_text(host@, port as int),
{
    let mut s = String::from_str(host);
    proof {
        reveal_strlit(":");
    }
    s.append(":");
    push_integer(&mut s, port);
    s
}

} // verus!
