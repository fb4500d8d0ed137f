//! Numbers as text.
use vstd::prelude::*;

verus! {

/// A digit as a character.
pub open spec fn digit(d: nat) -> char {
    seq!['0', '1', '2', '3', '4', '5', '6', '7', '8', '9'][d as int]
}

/// A number in decimal notation, without leading zeros.
pub open spec fn decimal(n: nat) -> Seq<char>
    decreases n,
{
    if n < 10 {
        seq![digit(n)]
    } else {
        decimal(n / 10).push(digit(n % 10))
    }
}

/// A digit as a text of its own.
fn digit_text(d: u64) -> (r: &'static str)
    requires
        d < 10,
    ensures
        r@ == seq![digit(d as nat)],
{
    proof {
        reveal_strlit("0");
        reveal_strlit("1");
        reveal_strlit("2");
        reveal_strlit("3");
        reveal_strlit("4");
        reveal_strlit("5");
        reveal_strlit("6");
        reveal_strlit("7");
        reveal_strlit("8");
        reveal_strlit("9");
    }
    match d {
        0 => "0",
        1 => "1",
        2 => "2",
        3 => "3",
        4 => "4",
        5 => "5",
        6 => "6",
        7 => "7",
        8 => "8",
        _ => "9",
    }
}

/// Appends a number in decimal notation to a text.
pub fn append_decimal(text: &mut String, n: u64)
    ensures
        final(text)@ == old(text)@ + decimal(n as nat),
    decreases n,
{
    let ghost before = text@;
    if n >= 10 {
        append_decimal(text, n / 10);
    }
    text.append(digit_text(n % 10));
    assert(text@ =~= before + decimal(n as nat));
}

/// The number that a text of digits stands for.
pub open spec fn value(text: Seq<char>) -> int
    decreases text.len(),
{
    if text.len() == 0 {
        0
    } else {
        value(text.drop_last()) * 10 + (text.last() as int - '0' as int)
    }
}

/// The decimal notation of a number reads back as that number. It consists of digits alone,
/// and the first one is not zero unless the number is.
pub proof fn law_decimal_reads_back(n: nat)
    ensures
        value(decimal(n)) == n,
        decimal(n).len() > 0,
        forall|i: int| 0 <= i < decimal(n).len() ==> '0' <= #[trigger] decimal(n)[i] <= '9',
        n > 0 ==> decimal(n)[0] != '0',
        n == 0 ==> decimal(n).len() == 1,
    decreases n,
{
    if n < 10 {
        assert(decimal(n).drop_last() =~= Seq::<char>::empty());
        assert(value(decimal(n).drop_last()) == 0);
    } else {
        law_decimal_reads_back(n / 10);
        assert(decimal(n).drop_last() =~= decimal(n / 10));
    }
}

/// A number is appended to a text: the text stays in front, and what comes behind it reads back as
/// the number.
pub proof fn law_number_is_appended(n: u64)
    ensures
        forall|text: &mut String| #[trigger]
            call_ensures(append_decimal, (text, n), ()) ==> {
                let added = final(text)@.skip(text@.len() as int);
                &&& text@.is_prefix_of(final(text)@)
                &&& added.len() > 0
                &&& value(added) == n
                &&& forall|i: int| 0 <= i < added.len() ==> '0' <= #[trigger] added[i] <= '9'
                &&& n > 0 ==> added[0] != '0'
                &&& n == 0 ==> added.len() == 1
            },
        forall|text: &mut String| #[trigger] call_requires(append_decimal, (text, n)),
{
    law_decimal_reads_back(n as nat);
    assert forall|text: &mut String| #[trigger]
        call_ensures(append_decimal, (text, n), ()) implies final(text)@.skip(text@.len() as int)
        == decimal(n as nat) by {
        assert((text@ + decimal(n as nat)).skip(text@.len() as int) =~= decimal(n as nat));
    }
}

} // verus!
