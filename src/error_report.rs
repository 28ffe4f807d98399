use vstd::prelude::*;

verus! {

/// Start of the name of the file an unhandled error is written to.
pub const ERROR_FILE_PREFIX: &'static str = "error_";

/// End of the name of the file an unhandled error is written to.
pub const ERROR_FILE_SUFFIX: &'static str = ".log";

/// Start of the text written to that file.
pub const ERROR_TEXT_PREFIX: &'static str = "Error in window_proc: ";

pub open spec fn error_file_name_of(stamp: Seq<char>) -> Seq<char> {
    ERROR_FILE_PREFIX@ + stamp + ERROR_FILE_SUFFIX@
}

pub open spec fn error_text_of(message: Seq<char>) -> Seq<char> {
    ERROR_TEXT_PREFIX@ + message + "\n"@
}

pub open spec fn digit_char(d: nat) -> char {
    if d == 0 { '0' }
    else if d == 1 { '1' }
    else if d == 2 { '2' }
    else if d == 3 { '3' }
    else if d == 4 { '4' }
    else if d == 5 { '5' }
    else if d == 6 { '6' }
    else if d == 7 { '7' }
    else if d == 8 { '8' }
    else { '9' }
}

/// The last `width` decimal digits of `n`, zero-padded on the left.
pub open spec fn padded(n: nat, width: nat) -> Seq<char>
    decreases width,
{
    if width == 0 {
        Seq::empty()
    } else {
        padded(n / 10, (width - 1) as nat) + seq![digit_char(n % 10)]
    }
}

/// A local date and time written `YYYYMMDD_HHMMSS`.
pub open spec fn stamp_of(year: nat, month: nat, day: nat, hour: nat, minute: nat, second: nat) -> Seq<char> {
    padded(year, 4) + padded(month, 2) + padded(day, 2) + seq!['_'] + padded(hour, 2) + padded(minute, 2)
        + padded(second, 2)
}

/// The one-character text of a decimal digit.
fn digit_text(d: u32) -> (r: &'static str)
    requires
        d < 10,
    ensures
        r@ == seq![digit_char(d as nat)],
{
    proof {
        reveal_strlit("0");
        reveal_strlit("1");
        reveal_strlit("2");
        reveal_strlit("3");
        reveal_strlit("4");
        reveal_strlit("5");
        reveal_strlit("6");
        reveal_strlit("7");
        reveal_strlit("8");
        reveal_strlit("9");
    }
    let r = if d == 0 { "0" }
    else if d == 1 { "1" }
    else if d == 2 { "2" }
    else if d == 3 { "3" }
    else if d == 4 { "4" }
    else if d == 5 { "5" }
    else if d == 6 { "6" }
    else if d == 7 { "7" }
    else if d == 8 { "8" }
    else { "9" };
    assert(r@ =~= seq![digit_char(d as nat)]);
    r
}

/// Appends the last `width` digits of `n` to `s`, zero-padded.
fn push_padded(s: &mut String, n: u32, width: u32)
    ensures
        final(s)@ == old(s)@ + padded(n as nat, width as nat),
    decreases width,
{
    if width > 0 {
        push_padded(s, n / 10, width - 1);
        s.append(digit_text(n % 10));
        assert(final(s)@ =~= old(s)@ + padded(n as nat, width as nat));
    } else {
        assert(padded(n as nat, 0) =~= Seq::<char>::empty());
        assert(final(s)@ =~= old(s)@ + padded(n as nat, width as nat));
    }
}

/// The local time of an error written `YYYYMMDD_HHMMSS`, as it stands in the
/// name of the error file. Each field must fit its digits.
pub fn error_stamp(year: u32, month: u32, day: u32, hour: u32, minute: u32, second: u32) -> (r: String)
    requires
        year <= 9999,
        month <= 99,
        day <= 99,
        hour <= 99,
        minute <= 99,
        second <= 99,
    ensures
        r@ == stamp_of(year as nat, month as nat, day as nat, hour as nat, minute as nat, second as nat),
{
    let mut r = String::new();
    push_padded(&mut r, year, 4);
    push_padded(&mut r, month, 2);
    push_padded(&mut r, day, 2);
    proof {
        reveal_strlit("_");
    }
    r.append("_");
    push_padded(&mut r, hour, 2);
    push_padded(&mut r, minute, 2);
    push_padded(&mut r, second, 2);
    assert(r@ =~= stamp_of(year as nat, month as nat, day as nat, hour as nat, minute as nat, second as nat));
    r
}

/// The name of the file for an error raised while handling a notification,
/// from the local time `stamp` written as `YYYYMMDD_HHMMSS`.
pub fn error_file_name(stamp: &str) -> (r: String)
    ensures
        r@ == error_file_name_of(stamp@),
{
    let mut r = String::from_str(ERROR_FILE_PREFIX);
    r.append(stamp);
    r.append(ERROR_FILE_SUFFIX);
    r
}

/// The text written to that file for an error whose message is `message`.
pub fn error_text(message: &str) -> (r: String)
    ensures
        r@ == error_text_of(message@),
{
    let mut r = String::from_str(ERROR_TEXT_PREFIX);
    r.append(message);
    r.append("\n");
    r
}

} // verus!
