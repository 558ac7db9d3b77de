use vstd::prelude::*;

verus! {

/// The file that the optional persistent logger appends to.
pub const LOG_FILE_NAME: &'static str = "chat_log.txt";

/// The layout of the timestamp of a persistent log record.
pub const TIMESTAMP_FORMAT: &'static str = "%Y-%m-%d %H:%M:%S";

/// A persistent log record: the timestamp in brackets, a space, the line.
pub open spec fn log_record(timestamp: Seq<char>, line: Seq<char>) -> Seq<char> {
    seq!['['] + timestamp + seq![']', ' '] + line
}

/// Builds `"[<timestamp>] <line>"`.
pub fn format_record(timestamp: &str, line: &str) -> (r: String)
    ensures
        r@ == log_record(timestamp@, line@),
{
    let mut r = String::from_str("[");
    r.append(timestamp);
    r.append("] ");
    r.append(line);
    proof {
        reveal_strlit("[");
        reveal_strlit("] ");
        assert(r@ =~= log_record(timestamp@, line@));
    }
    r
}

/// Relies on `chrono::Local::now` and `DateTime::format`: the local time now,
/// laid out by the pattern. The pattern is the library's own, which chrono
/// accepts; the time itself is unknown.
#[verifier::external_body]
fn local_time_text(pattern: &str) -> (r: String)
    requires
        pattern@ == TIMESTAMP_FORMAT@,
{
    chrono::Local::now().format(pattern).to_string()
}

/// A persistent log record of `line`, stamped with the local time now.
pub fn timestamped_record(line: &str) -> (r: String)
    ensures
        exists|timestamp: Seq<char>| r@ == log_record(timestamp, line@),
{
    let stamp = local_time_text(TIMESTAMP_FORMAT);
    format_record(stamp.as_str(), line)
}

} // verus!
