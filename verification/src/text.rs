//! Decimal numbers written into strings.

use vstd::prelude::*;
use vstd::string::*;

verus! {

/// The character that stands for the decimal digit `d`.
pub open spec fn digit(d: nat) -> char
    recommends
        d < 10,
{
    (48 + d) as char
}

/// `n` in base ten, most significant digit first and without leading zeros.
pub open spec fn decimal(n: nat) -> Seq<char>
    decreases n,
{
    if n < 10 {
        seq![digit(n)]
    } else {
        decimal(n / 10).push(digit(n % 10))
    }
}

/// `n` in base ten, behind a minus sign where it is negative.
pub open spec fn signed_decimal(n: int) -> Seq<char> {
    if n < 0 {
        seq!['-'] + decimal((-n) as nat)
    } else {
        decimal(n as nat)
    }
}

/// The one-character text of a digit.
fn digit_text(d: u32) -> (r: &'static str)
    requires
        d < 10,
    ensures
        r@ == seq![digit(d as nat)],
{
    proof {
        reveal_strlit("0");
        reveal_strlit("1");
        reveal_strlit("2");
        reveal_strlit("3");
        reveal_strlit("4");
        reveal_strlit("5");
        reveal_strlit("6");
        reveal_strlit("7");
        reveal_strlit("8");
        reveal_strlit("9");
    }
    match d {
        0 => "0",
        1 => "1",
        2 => "2",
        3 => "3",
        4 => "4",
        5 => "5",
        6 => "6",
        7 => "7",
        8 => "8",
        _ => "9",
    }
}

/// Appends `n` in base ten.
pub fn push_decimal(out: &mut String, n: u32)
    ensures
        final(out)@ == old(out)@ + decimal(n as nat),
    decreases n,
{
    if n >= 10 {
        push_decimal(out, n / 10);
    }
    out.append(digit_text(n % 10));
    proof {
        let head = if n >= 10 {
            decimal(n as nat / 10)
        } else {
            Seq::<char>::empty()
        };
        assert(head + seq![digit((n % 10) as nat)] =~= decimal(n as nat));
        assert(out@ =~= old(out)@ + decimal(n as nat));
    }
}

/// Appends `n` in base ten, with a minus sign where it is negative.
pub fn push_signed_decimal(out: &mut String, n: i32)
    ensures
        final(out)@ == old(out)@ + signed_decimal(n as int),
{
    if n < 0 {
        proof {
            reveal_strlit("-");
            assert("-"@ =~= seq!['-']);
        }
        out.append("-");
        let magnitude: i64 = -(n as i64);
        push_decimal(out, magnitude as u32);
        assert(out@ =~= old(out)@ + signed_decimal(n as int));
    } else {
        push_decimal(out, n as u32);
    }
}

/// Two numbers with the same decimal text are the same number.
pub proof fn decimal_is_injective(a: nat, b: nat)
    requires
        decimal(a) == decimal(b),
    ensures
        a == b,
    decreases a,
{
    assert(decimal(a).last() == digit(a % 10));
    assert(decimal(b).last() == digit(b % 10));
    assert(a % 10 == b % 10);
    assert(decimal(a).drop_last() == decimal(b).drop_last());
    if a >= 10 && b >= 10 {
        assert(decimal(a).drop_last() =~= decimal(a / 10));
        assert(decimal(b).drop_last() =~= decimal(b / 10));
        decimal_is_injective(a / 10, b / 10);
    } else {
        decimal_is_not_empty(a / 10);
        decimal_is_not_empty(b / 10);
    }
}

/// Every number has at least one digit.
pub proof fn decimal_is_not_empty(n: nat)
    ensures
        decimal(n).len() > 0,
{
}

/// The decimal text of a number is written as people write it: digits only, at least one of them,
/// no zero in front of others; and read digit by digit in base ten it gives the number back.
pub proof fn decimal_reads_back(n: nat)
    ensures
        decimal(n).len() > 0,
        forall|i: int| 0 <= i < decimal(n).len() ==> '0' <= #[trigger] decimal(n)[i] <= '9',
        decimal(n).len() > 1 ==> decimal(n)[0] != '0',
        decimal(n).fold_left(0int, |value: int, c: char| 10 * value + (c as int - '0' as int)) == n,
    decreases n,
{
    if n < 10 {
        assert(decimal(n).drop_last() =~= Seq::empty());
        reveal_with_fuel(Seq::fold_left, 2);
    } else {
        decimal_reads_back(n / 10);
        let head = decimal(n / 10);
        assert(decimal(n).drop_last() =~= head);
        assert(decimal(n)[0] == head[0]);
        assert forall|i: int| 0 <= i < decimal(n).len() implies '0' <= #[trigger] decimal(n)[i]
            <= '9' by {
            if i < head.len() {
                assert(decimal(n)[i] == head[i]);
            }
        }
        if head.len() == 1 {
            assert(head.drop_last() =~= Seq::empty());
            reveal_with_fuel(Seq::fold_left, 2);
            assert(head[0] == digit(n / 10));
        }
    }
}

/// There is no other way to write a number so.
pub proof fn decimal_is_the_only_text(n: nat, text: Seq<char>)
    requires
        text.len() > 0,
        forall|i: int| 0 <= i < text.len() ==> '0' <= #[trigger] text[i] <= '9',
        text.len() > 1 ==> text[0] != '0',
        text.fold_left(0int, |value: int, c: char| 10 * value + (c as int - '0' as int)) == n,
    ensures
        text == decimal(n),
    decreases text.len(),
{
    let head = text.drop_last();
    let units = text.last() as int - '0' as int;
    if head.len() == 0 {
        reveal_with_fuel(Seq::fold_left, 2);
        assert(n == units);
        assert(text =~= decimal(n));
    } else {
        digits_are_not_negative(head);
        let rest = head.fold_left(
            0int,
            |value: int, c: char| 10 * value + (c as int - '0' as int),
        );
        assert(n == 10 * rest + units);
        assert(n / 10 == rest && n % 10 == units);
        assert(forall|i: int| 0 <= i < head.len() ==> head[i] == #[trigger] text[i]);
        decimal_is_the_only_text(n / 10, head);
        if n < 10 {
            assert(head == decimal(0));
            assert(head[0] == '0');
        }
        assert(text =~= decimal(n));
    }
}

/// What is read of digits is no negative number.
proof fn digits_are_not_negative(text: Seq<char>)
    requires
        forall|i: int| 0 <= i < text.len() ==> '0' <= #[trigger] text[i] <= '9',
    ensures
        text.fold_left(0int, |value: int, c: char| 10 * value + (c as int - '0' as int)) >= 0,
    decreases text.len(),
{
    if text.len() > 0 {
        assert(forall|i: int|
            0 <= i < text.drop_last().len() ==> #[trigger] text.drop_last()[i] == text[i]);
        digits_are_not_negative(text.drop_last());
        assert(text.last() == text[text.len() - 1]);
    }
}

/// A minus sign stands in front of a negative number and of no other; behind it, or at once, comes
/// the decimal text of the magnitude.
pub proof fn sign_stands_in_front_of_the_magnitude(n: int)
    ensures
        n < 0 <==> signed_decimal(n)[0] == '-',
        n < 0 ==> signed_decimal(n).skip(1) == decimal((0 - n) as nat),
        n >= 0 ==> signed_decimal(n) == decimal(n as nat),
{
    if n < 0 {
        assert(signed_decimal(n).skip(1) =~= decimal((0 - n) as nat));
    } else {
        decimal_reads_back(n as nat);
    }
}

} // verus!
