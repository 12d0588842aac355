//! The log file.

use vstd::prelude::*;

verus! {

/// How the log writes a point in time.
pub const STAMP_FORMAT: &'static str = "%Y-%m-%d %H:%M:%S";

/// What precedes a message of the market filter script in the log.
pub const FRONTEND_LABEL: &'static str = "市场过滤脚本: ";

/// Whether `c` is a decimal digit.
pub open spec fn is_digit(c: char) -> bool {
    '0' <= c <= '9'
}

/// Whether `s` reads `-MM-DD hh:mm:ss`.
pub open spec fn is_stamp_tail(s: Seq<char>) -> bool {
    &&& s.len() == 15
    &&& s[0] == '-' && is_digit(s[1]) && is_digit(s[2])
    &&& s[3] == '-' && is_digit(s[4]) && is_digit(s[5])
    &&& s[6] == ' ' && is_digit(s[7]) && is_digit(s[8])
    &&& s[9] == ':' && is_digit(s[10]) && is_digit(s[11])
    &&& s[12] == ':' && is_digit(s[13]) && is_digit(s[14])
}

/// Whether `s` is a year: at least four digits, behind a sign where four do not do.
pub open spec fn is_stamp_year(s: Seq<char>) -> bool {
    &&& s.len() >= 4
    &&& forall|i: int| 1 <= i < s.len() ==> is_digit(#[trigger] s[i])
    &&& is_digit(s[0]) || s[0] == '+' || s[0] == '-'
}

/// Whether `s` is a date and a time of day as the log writes them.
pub open spec fn is_stamp(s: Seq<char>) -> bool {
    &&& s.len() >= 19
    &&& is_stamp_year(s.take(s.len() - 15))
    &&& is_stamp_tail(s.skip(s.len() - 15))
}

/// The present local time by `chrono::Local::now`, written by
/// `chrono::DateTime::format` in the log's format. The text is not determined
/// by anything here: it is claimed to be a year, which `%Y` pads to four digits
/// and signs outside of 0 to 9999, and two digits for each of the other fields,
/// with the format's own characters between them. Another format is left out,
/// as rendering an invalid one panics. Nothing is said of a clock that stands
/// before 1970, on which `chrono` panics.
#[verifier::external_body]
fn local_timestamp(format: &str) -> (stamp: String)
    requires
        format@ == STAMP_FORMAT@,
    ensures
        is_stamp(stamp@),
{
    chrono::Local::now().format(format).to_string()
}

/// A line of the log.
pub open spec fn line_data(stamp: Seq<char>, message: Seq<char>) -> Seq<char> {
    "["@ + stamp + "] "@ + message + "\n"@
}

/// The line that records `message` at the time `stamp`.
pub fn log_line(stamp: &str, message: &str) -> (line: String)
    ensures
        line@ == line_data(stamp@, message@),
{
    "[".to_owned().concat(stamp).concat("] ").concat(message).concat("\n")
}

/// The line to append to the log for `message`, stamped with the present time.
pub fn log_error(message: &str) -> (line: String)
    ensures
        exists|stamp: Seq<char>| #[trigger] is_stamp(stamp) && line@ == line_data(stamp, message@),
{
    let stamp = local_timestamp(STAMP_FORMAT);
    assert(is_stamp(stamp@));
    log_line(stamp.as_str(), message)
}

/// The message to log for an error that the market filter script reported.
pub fn log_frontend_error(message: &str) -> (text: String)
    ensures
        text@ == "市场过滤脚本: "@ + message@,
{
    crate::failure::labelled(FRONTEND_LABEL, message)
}

/// A message without line breaks takes one line of the log.
pub proof fn law_message_takes_one_line(stamp: Seq<char>, message: Seq<char>)
    requires
        is_stamp(stamp),
        forall|i: int| 0 <= i < message.len() ==> #[trigger] message[i] != '\n',
    ensures
        line_data(stamp, message).last() == '\n',
        forall|i: int|
            0 <= i < line_data(stamp, message).len() - 1 ==> #[trigger] line_data(stamp, message)[i]
                != '\n',
{
    reveal_strlit("[");
    reveal_strlit("] ");
    reveal_strlit("\n");
    let line = line_data(stamp, message);
    let year = stamp.take(stamp.len() - 15);
    let tail = stamp.skip(stamp.len() - 15);
    assert forall|i: int| 0 <= i < line.len() - 1 implies #[trigger] line[i] != '\n' by {
        if 1 <= i < 1 + stamp.len() {
            let j = i - 1;
            assert(line[i] == stamp[j]);
            if j < year.len() {
                assert(stamp[j] == year[j]);
            } else {
                assert(stamp[j] == tail[j - year.len()]);
            }
        } else if i >= stamp.len() + 3 {
            assert(line[i] == message[i - stamp.len() - 3]);
        }
    }
}

/// A line of the log is the time in brackets, the whole message and a line break.
pub proof fn law_log_line_holds_its_message(stamp: Seq<char>, message: Seq<char>)
    ensures
        line_data(stamp, message) == seq!['['] + stamp + seq![']', ' '] + message + seq!['\n'],
{
    reveal_strlit("[");
    reveal_strlit("] ");
    reveal_strlit("\n");
    assert("["@ =~= seq!['[']);
    assert("] "@ =~= seq![']', ' ']);
    assert("\n"@ =~= seq!['\n']);
}

} // verus!
