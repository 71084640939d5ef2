//! What text promises: that a number that was written reads back, and that each value says
//! what it is.

use vstd::prelude::*;

use crate::cid::ConnectionId;
use crate::error::{ApplicationErrorCode, Error, NativeCode, TransportErrorCode};
use crate::stream::StreamId;
use crate::text::{
    append, append_decimal, append_hex, append_hex_bytes, append_signed, digit_char, digits,
    hex_bytes, owned,
};
use crate::time::{Duration, Timestamp};

verus! {

/// What a digit is worth.
pub open spec fn worth(mark: char) -> int {
    if '0' <= mark && mark <= '9' {
        mark as int - '0' as int
    } else {
        mark as int - 'a' as int + 10
    }
}

/// Whether a character is a digit in a base.
pub open spec fn is_digit(mark: char, base: int) -> bool {
    ('0' <= mark && mark <= '9' || 'a' <= mark && mark <= 'f') && worth(mark) < base
}

/// The number digits stand for, the last worth the least.
pub open spec fn number_in(marks: Seq<char>, base: int) -> int
    decreases marks.len(),
{
    if marks.len() == 0 {
        0
    } else {
        number_in(marks.drop_last(), base) * base + worth(marks.last())
    }
}

/// Whether text is the one way of writing a number: digits only, at least one, none wasted.
pub open spec fn writes(marks: Seq<char>, number: int, base: int) -> bool {
    &&& number_in(marks, base) == number
    &&& marks.len() > 0
    &&& marks.len() > 1 ==> marks[0] != '0'
    &&& forall|i: int| 0 <= i < marks.len() ==> is_digit(#[trigger] marks[i], base)
}

proof fn lemma_digit(digit: nat)
    requires
        digit < 16,
    ensures
        worth(digit_char(digit)) == digit,
        is_digit(digit_char(digit), 16),
        digit < 10 ==> is_digit(digit_char(digit), 10),
        digit_char(digit) == '0' <==> digit == 0,
{
}

proof fn lemma_digits_write(value: nat, base: nat)
    requires
        base == 10 || base == 16,
    ensures
        writes(digits(value, base), value as int, base as int),
        value > 0 ==> digits(value, base)[0] != '0',
    decreases value,
{
    let marks = digits(value, base);
    if value < base {
        lemma_digit(value);
        assert(marks.drop_last() =~= Seq::empty());
        assert(number_in(marks.drop_last(), base as int) == 0);
    } else {
        assert(value / base < value && value / base > 0 && value == (value / base) * base + value
            % base && value % base < base) by (nonlinear_arith)
            requires
                base >= 2,
                value >= base,
        ;
        lemma_digits_write(value / base, base);
        lemma_digit(value % base);
        let before = digits(value / base, base);
        assert(marks.drop_last() =~= before);
        assert(marks.last() == digit_char(value % base));
        assert(marks[0] == before[0]);
        assert forall|i: int| 0 <= i < marks.len() implies is_digit(
            #[trigger] marks[i],
            base as int,
        ) by {
            if i < before.len() {
                assert(marks[i] == before[i]);
            }
        }
    }
}

proof fn lemma_bytes_write(bytes: Seq<u8>, at: int)
    requires
        0 <= at < bytes.len(),
    ensures
        hex_bytes(bytes).len() == 2 * bytes.len(),
        is_digit(hex_bytes(bytes)[2 * at], 16),
        is_digit(hex_bytes(bytes)[2 * at + 1], 16),
        16 * worth(hex_bytes(bytes)[2 * at]) + worth(hex_bytes(bytes)[2 * at + 1]) == bytes[at],
    decreases bytes.len(),
{
    let shorter = bytes.drop_last();
    lemma_digit((bytes.last() / 16) as nat);
    lemma_digit((bytes.last() % 16) as nat);
    lemma_bytes_len(shorter);
    lemma_bytes_len(bytes);
    if at < shorter.len() {
        lemma_bytes_write(shorter, at);
    }
}

proof fn lemma_bytes_len(bytes: Seq<u8>)
    ensures
        hex_bytes(bytes).len() == 2 * bytes.len(),
    decreases bytes.len(),
{
    if bytes.len() > 0 {
        lemma_bytes_len(bytes.drop_last());
    }
}

/// Text is copied and joined as it is.
pub proof fn law_text_is_kept(
    words: &str,
    copy: String,
    string: &mut String,
    more: &str,
)
    requires
        call_ensures(owned, (words,), copy),
        call_ensures(append, (string, more), ()),
    ensures
        copy@ == words@,
        final(string)@.take(old(string)@.len() as int) == old(string)@,
        final(string)@.skip(old(string)@.len() as int) == more@,
{
    assert(final(string)@.take(old(string)@.len() as int) =~= old(string)@);
    assert(final(string)@.skip(old(string)@.len() as int) =~= more@);
}

/// A number that was appended reads back, in decimal and in hexadecimal, behind what stood
/// there.
pub proof fn law_a_number_reads_back(
    decimal: &mut String,
    hex: &mut String,
    value: u64,
)
    requires
        call_ensures(append_decimal, (decimal, value), ()),
        call_ensures(append_hex, (hex, value), ()),
    ensures
        final(decimal)@.take(old(decimal)@.len() as int) == old(decimal)@,
        writes(final(decimal)@.skip(old(decimal)@.len() as int), value as int, 10),
        final(hex)@.take(old(hex)@.len() as int) == old(hex)@,
        writes(final(hex)@.skip(old(hex)@.len() as int), value as int, 16),
{
    lemma_digits_write(value as nat, 10);
    lemma_digits_write(value as nat, 16);
    assert(final(decimal)@.take(old(decimal)@.len() as int) =~= old(decimal)@);
    assert(final(hex)@.take(old(hex)@.len() as int) =~= old(hex)@);
    assert(final(decimal)@.skip(old(decimal)@.len() as int) =~= digits(value as nat, 10));
    assert(final(hex)@.skip(old(hex)@.len() as int) =~= digits(value as nat, 16));
}

/// A number below zero reads back behind its sign, and any other without one.
pub proof fn law_a_signed_number_reads_back(string: &mut String, value: i64)
    requires
        call_ensures(append_signed, (string, value), ()),
    ensures
        final(string)@.take(old(string)@.len() as int) == old(string)@,
        ({
            let said = final(string)@.skip(old(string)@.len() as int);
            &&& value >= 0 ==> writes(said, value as int, 10)
            &&& value < 0 ==> said.len() > 0 && said[0] == '-' && writes(
                said.skip(1),
                -(value as int),
                10,
            )
        }),
{
    reveal_strlit("-");
    let size = (if value < 0 {
        -(value as int)
    } else {
        value as int
    }) as nat;
    lemma_digits_write(size, 10);
    let said = final(string)@.skip(old(string)@.len() as int);
    assert(final(string)@.take(old(string)@.len() as int) =~= old(string)@);
    if value < 0 {
        assert(said =~= "-"@ + digits(size, 10));
        assert(said.skip(1) =~= digits(size, 10));
    } else {
        assert(said =~= digits(size, 10));
    }
}

/// Bytes read back, each from its own two digits.
pub proof fn law_bytes_read_back(string: &mut String, bytes: &[u8], at: int)
    requires
        call_ensures(append_hex_bytes, (string, bytes), ()),
        0 <= at < bytes@.len(),
    ensures
        final(string)@.take(old(string)@.len() as int) == old(string)@,
        final(string)@.len() == old(string)@.len() + 2 * bytes@.len(),
        ({
            let high = final(string)@[old(string)@.len() + 2 * at];
            let low = final(string)@[old(string)@.len() + 2 * at + 1];
            is_digit(high, 16) && is_digit(low, 16) && 16 * worth(high) + worth(low) == bytes@[at]
        }),
{
    lemma_bytes_write(bytes@, at);
    assert(final(string)@.take(old(string)@.len() as int) =~= old(string)@);
}

/// An error code says whose it is, and its number in hexadecimal.
pub proof fn law_a_code_says_whose_it_is(
    transport: TransportErrorCode,
    application: ApplicationErrorCode,
    value: u64,
    shown: String,
    said: String,
    written: &mut String,
)
    requires
        call_ensures(TransportErrorCode::new, (value,), transport),
        call_ensures(ApplicationErrorCode::new, (value,), application),
        call_ensures(TransportErrorCode::display_text, (transport,), shown),
        call_ensures(ApplicationErrorCode::display_text, (application,), said),
        old(written)@.len() == 0,
        call_ensures(append_hex, (written, value), ()),
    ensures
        shown@ == "transport error 0x"@ + final(written)@,
        said@ == "application error 0x"@ + final(written)@,
{
    assert(final(written)@ =~= digits(value as nat, 16));
}

/// A native code is shown with its words, or with words that say there are none, and its number.
/// An error is shown with its context, and with its code where it has one.
pub proof fn law_an_error_says_what_happened(
    value: i32,
    code: NativeCode,
    worded: Option<&'static str>,
    words: &'static str,
    shown: String,
    context: &'static str,
    error: Error,
    told: String,
    refusal: Error,
    refused: String,
    written: &mut String,
)
    requires
        call_ensures(NativeCode::new, (value,), code),
        call_ensures(NativeCode::describe, (code, worded), words),
        call_ensures(NativeCode::display_text, (code, worded), shown),
        call_ensures(Error::native, (value, context), error),
        call_ensures(Error::display_text, (&error, worded), told),
        call_ensures(Error::invalid_input, (context,), refusal),
        call_ensures(Error::display_text, (&refusal, worded), refused),
        old(written)@.len() == 0,
        call_ensures(append_signed, (written, value as i64), ()),
    ensures
        worded matches Some(text) ==> words@ == text@,
        worded is None ==> words@ == "unknown error"@,
        shown@ == words@ + " ("@ + final(written)@ + ")"@,
        told@ == context@ + ": "@ + shown@,
        refused@ == context@,
{
    assert(old(written)@ =~= Seq::empty());
    assert(final(written)@ =~= crate::text::signed_decimal(value as int));
}

/// The endpoint's errors are shown with their context, and with how the connection closed where
/// it did.
pub proof fn law_an_endpoint_error_says_how_it_closed(
    error: crate::endpoint::error::Error,
    close: &str,
    shown: String,
)
    requires
        call_ensures(crate::endpoint::error::Error::display_text, (&error, close), shown),
    ensures
        error@.close is None ==> shown@ == error@.context,
        error@.close is Some ==> shown@ == error@.context + ": "@ + close@,
{
}

/// A stream is shown by its number, and in full with who opened it and which way it goes.
pub proof fn law_a_stream_says_what_it_is(
    stream: StreamId,
    shown: String,
    said: String,
    written: &mut String,
)
    requires
        call_ensures(StreamId::display_text, (stream,), shown),
        call_ensures(StreamId::debug_text, (stream,), said),
        0 <= stream@ <= u64::MAX,
        old(written)@.len() == 0,
        call_ensures(append_decimal, (written, stream@ as u64), ()),
    ensures
        shown@ == final(written)@,
        stream@ % 4 == 0 ==> said@ == "StreamId("@ + final(written)@ + ", "@ + "client"@ + " "@
            + "bidi"@ + ")"@,
        stream@ % 4 == 1 ==> said@ == "StreamId("@ + final(written)@ + ", "@ + "server"@ + " "@
            + "bidi"@ + ")"@,
        stream@ % 4 == 2 ==> said@ == "StreamId("@ + final(written)@ + ", "@ + "client"@ + " "@
            + "uni"@ + ")"@,
        stream@ % 4 == 3 ==> said@ == "StreamId("@ + final(written)@ + ", "@ + "server"@ + " "@
            + "uni"@ + ")"@,
{
    assert(final(written)@ =~= digits(stream@ as nat, 10));
}

/// A point in time and a length of time are shown in nanoseconds, each as what it is.
pub proof fn law_times_say_which_they_are(
    at: Timestamp,
    shown: String,
    length: Duration,
    said: String,
    written: &mut String,
    spelled: &mut String,
)
    requires
        call_ensures(Timestamp::debug_text, (at,), shown),
        call_ensures(Duration::debug_text, (length,), said),
        at@ <= u64::MAX && length@ <= u64::MAX,
        old(written)@.len() == 0 && old(spelled)@.len() == 0,
        call_ensures(append_decimal, (written, at@ as u64), ()),
        call_ensures(append_decimal, (spelled, length@ as u64), ()),
    ensures
        shown@ == "Timestamp("@ + final(written)@ + "ns)"@,
        said@ == "Duration("@ + final(spelled)@ + "ns)"@,
{
    assert(final(written)@ =~= digits(at@, 10));
    assert(final(spelled)@ =~= digits(length@, 10));
}

/// A connection ID is shown by its bytes.
pub proof fn law_a_connection_id_is_shown_by_its_bytes(
    id: ConnectionId,
    bytes: &[u8],
    shown: String,
    written: &mut String,
)
    requires
        call_ensures(ConnectionId::as_bytes, (&id,), bytes),
        call_ensures(ConnectionId::debug_text, (&id,), shown),
        old(written)@.len() == 0,
        call_ensures(append_hex_bytes, (written, bytes), ()),
    ensures
        shown@ == "ConnectionId("@ + final(written)@ + ")"@,
{
    assert(final(written)@ =~= hex_bytes(bytes@));
}

} // verus!
