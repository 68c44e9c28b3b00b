//! What holds of numbers as decimal text.

use vstd::prelude::*;

use crate::text::append_decimal;
use crate::text::decimal;
use crate::text::decimal_value;
use crate::text::decimal_value_of_decimal;

verus! {

/// A number of one digit is that digit. A longer number is what remains of it without its last
/// digit, followed by that digit. So there are no leading zeros.
pub proof fn numbers_end_in_their_last_digit(tens: nat, ones: nat)
    requires
        ones < 10,
    ensures
        decimal(10 * tens + ones).last() as nat == '0' as nat + ones,
        tens == 0 ==> decimal(10 * tens + ones).len() == 1,
        tens > 0 ==> decimal(10 * tens + ones).drop_last() == decimal(tens),
{
    let n = 10 * tens + ones;
    assert(n / 10 == tens && n % 10 == ones);
    assert(('0' as u32 + ones) as char as nat == '0' as nat + ones);
    if tens > 0 {
        assert(decimal(n).drop_last() =~= decimal(tens));
    }
}

/// Every character of a number is a digit, and only zero starts with one.
pub proof fn numbers_are_made_of_digits(n: nat)
    ensures
        decimal(n).len() > 0,
        forall|i: int|
            0 <= i < decimal(n).len() ==> '0' as nat <= #[trigger] decimal(n)[i] as nat <= '9' as nat,
        n > 0 ==> decimal(n)[0] as nat > '0' as nat,
    decreases n,
{
    assert(10 * (n / 10) + n % 10 == n);
    numbers_end_in_their_last_digit(n / 10, n % 10);
    if n >= 10 {
        numbers_are_made_of_digits(n / 10);
        let rest = decimal(n / 10);
        assert(decimal(n)[0] == rest[0]);
        assert forall|i: int| 0 <= i < decimal(n).len() implies '0' as nat <= #[trigger] decimal(
            n,
        )[i] as nat <= '9' as nat by {
            if i < rest.len() {
                assert(decimal(n)[i] == rest[i]);
            }
        }
    }
}

/// A number is put behind the text, which stays as it was, and can be read back.
pub proof fn numbers_are_appended(text: &mut String, n: usize)
    requires
        call_ensures(append_decimal, (text, n), ()),
    ensures
        final(text)@.len() > old(text)@.len(),
        final(text)@.take(old(text)@.len() as int) == old(text)@,
        final(text)@.skip(old(text)@.len() as int) == decimal(n as nat),
        decimal_value(final(text)@.skip(old(text)@.len() as int)) == n,
{
    numbers_are_made_of_digits(n as nat);
    decimal_value_of_decimal(n as nat);
    assert(final(text)@.take(old(text)@.len() as int) =~= old(text)@);
    assert(final(text)@.skip(old(text)@.len() as int) =~= decimal(n as nat));
}

} // verus!
