//! Building text: characters appended one at a time, and integers in decimal.

use vstd::prelude::*;

verus! {

/// `String::push` of std: the character is added at the end, the rest stays.
#[verifier::external_body]
pub(crate) fn push_char(s: &mut String, c: char)
    ensures
        final(s)@ == old(s)@.push(c),
{
    s.push(c)
}

/// The character of a decimal digit.
pub open spec fn digit_char(d: nat) -> char {
    if d == 0 {
        '0'
    } else if d == 1 {
        '1'
    } else if d == 2 {
        '2'
    } else if d == 3 {
        '3'
    } else if d == 4 {
        '4'
    } else if d == 5 {
        '5'
    } else if d == 6 {
        '6'
    } else if d == 7 {
        '7'
    } else if d == 8 {
        '8'
    } else {
        '9'
    }
}

/// A natural number in decimal, without leading zeros.
pub open spec fn decimal_text(n: nat) -> Seq<char>
    decreases n,
{
    if n < 10 {
        seq![digit_char(n)]
    } else {
        decimal_text(n / 10).push(digit_char(n % 10))
    }
}

/// An integer in decimal, with a minus sign where it is negative.
pub open spec fn int_text(i: int) -> Seq<char> {
    if i < 0 {
        seq!['-'] + decimal_text((-i) as nat)
    } else {
        decimal_text(i as nat)
    }
}

/// The character of the digit `d`.
pub fn digit(d: u8) -> (c: char)
    requires
        d < 10,
    ensures
        c == digit_char(d as nat),
{
    if d == 0 {
        '0'
    } else if d == 1 {
        '1'
    } else if d == 2 {
        '2'
    } else if d == 3 {
        '3'
    } else if d == 4 {
        '4'
    } else if d == 5 {
        '5'
    } else if d == 6 {
        '6'
    } else if d == 7 {
        '7'
    } else if d == 8 {
        '8'
    } else {
        '9'
    }
}

/// Appends `n` in decimal.
pub fn append_decimal(s: &mut String, n: u64)
    ensures
        final(s)@ == old(s)@ + decimal_text(n as nat),
    decreases n,
{
    if n >= 10 {
        append_decimal(s, n / 10);
    }
    let d: u8 = (n % 10) as u8;
    push_char(s, digit(d));
    assert(final(s)@ =~= old(s)@ + decimal_text(n as nat));
}

/// Appends `i` in decimal, with its sign.
pub fn append_int(s: &mut String, i: i64)
    ensures
        final(s)@ == old(s)@ + int_text(i as int),
{
    if i < 0 {
        push_char(s, '-');
        let magnitude: u64 = if i == i64::MIN {
            9223372036854775808u64
        } else {
            (-i) as u64
        };
        append_decimal(s, magnitude);
        assert(final(s)@ =~= old(s)@ + int_text(i as int));
    } else {
        append_decimal(s, i as u64);
    }
}

/// Appends the text of `part`.
pub fn append_str(s: &mut String, part: &str)
    ensures
        final(s)@ == old(s)@ + part@,
{
    s.append(part);
}

/// The text of `n` in decimal.
pub fn decimal_string(n: u64) -> (s: String)
    ensures
        s@ == decimal_text(n as nat),
{
    let mut s = String::new();
    append_decimal(&mut s, n);
    assert(s@ =~= decimal_text(n as nat));
    s
}

/// Whether two texts hold the same characters.
pub fn same_text(a: &str, b: &str) -> (r: bool)
    ensures
        r == (a@ == b@),
{
    let n = a.unicode_len();
    if n != b.unicode_len() {
        return false;
    }
    let mut i: usize = 0;
    while i < n
        invariant
            i <= n,
            n == a@.len(),
            n == b@.len(),
            forall|j: int| 0 <= j < i ==> a@[j] == b@[j],
        decreases n - i,
    {
        if a.get_char(i) != b.get_char(i) {
            return false;
        }
        i += 1;
    }
    assert(a@ =~= b@);
    true
}

/// The numbers of a path in decimal, separated by a comma and a blank.
pub open spec fn list_text(path: Seq<u16>) -> Seq<char>
    decreases path.len(),
{
    if path.len() == 0 {
        Seq::<char>::empty()
    } else if path.len() == 1 {
        decimal_text(path[0] as nat)
    } else {
        list_text(path.drop_last()) + ", "@ + decimal_text(path.last() as nat)
    }
}

/// A path as a list in square brackets.
pub open spec fn path_text(path: Seq<u16>) -> Seq<char> {
    "["@ + list_text(path) + "]"@
}

/// Appends a path as a list in square brackets.
pub fn append_path(s: &mut String, path: &Vec<u16>)
    ensures
        final(s)@ == old(s)@ + path_text(path@),
{
    s.append("[");
    let mut i: usize = 0;
    while i < path.len()
        invariant
            i <= path.len(),
            s@ == old(s)@ + "["@ + list_text(path@.take(i as int)),
        decreases path.len() - i,
    {
        if i > 0 {
            s.append(", ");
        }
        append_decimal(s, path[i] as u64);
        proof {
            let next = path@.take(i + 1);
            assert(next.drop_last() =~= path@.take(i as int));
            assert(next.last() == path@[i as int]);
            if i == 0 {
                assert(list_text(path@.take(0)) =~= Seq::<char>::empty());
                assert(s@ =~= old(s)@ + "["@ + list_text(next));
            } else {
                assert(s@ =~= old(s)@ + "["@ + list_text(next));
            }
        }
        i += 1;
    }
    s.append("]");
    proof {
        assert(path@.take(path@.len() as int) =~= path@);
        assert(s@ =~= old(s)@ + path_text(path@));
    }
}

} // verus!
