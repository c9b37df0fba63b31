//! The progress messages that background runs send to the screen:
//! `Progress|<done>|<total>`.
use vstd::prelude::*;
use crate::text::{
    all_digits, cat, chars_of, decimal, decimal_string, int_decimal, int_decimal_string,
    lemma_decimal_digits, lemma_parse_int_decimal, parse_i32, parse_i32_str, split_char,
    split_on_char, string_of,
};

verus! {

/// The message a run sends after `done` of `total` items.
pub open spec fn progress_report_spec(done: nat, total: nat) -> Seq<char> {
    "Progress|"@ + decimal(done) + "|"@ + decimal(total)
}

/// A number read from a progress field; the screen reads `-9999` as "not a
/// number", as it does a field that does not parse.
pub open spec fn progress_number(s: Seq<char>) -> Option<i32> {
    match parse_i32(s) {
        Some(v) => if v == -9999 {
            None
        } else {
            Some(v)
        },
        None => None,
    }
}

/// What the screen reads from a progress message: the two numbers, where the
/// message has three `|`-separated fields, the first is `Progress` and both
/// others are numbers.
pub open spec fn progress_reading(msg: Seq<char>) -> Option<(i32, i32)> {
    let f = split_char(msg, '|');
    if f.len() == 3 && f[0] == "Progress"@ {
        match (progress_number(f[1]), progress_number(f[2])) {
            (Some(n), Some(d)) => Some((n, d)),
            _ => None,
        }
    } else {
        None
    }
}

/// What the screen reads from the messages drained from the progress
/// channel: only the last one counts.
pub open spec fn latest_reading(msgs: Seq<String>) -> Option<(i32, i32)> {
    if msgs.len() > 0 {
        progress_reading(msgs.last()@)
    } else {
        None
    }
}

/// The line the screen prints for a message that it does not read as
/// progress: one for a `Progress` message whose numbers do not read, another
/// for any other message; nothing for a message it reads.
pub open spec fn progress_complaint_spec(msg: Seq<char>) -> Option<Seq<char>> {
    let f = split_char(msg, '|');
    if f.len() == 3 && f[0] == "Progress"@ {
        if progress_reading(msg) is Some {
            None
        } else {
            Some("progress numeric not numeric: "@ + msg)
        }
    } else {
        Some("message not progress: "@ + msg)
    }
}

/// The message line shown for a progress reading.
pub open spec fn progress_line_spec(n: i32, d: i32) -> Seq<char> {
    "Convert progress: "@ + int_decimal(n as int) + " of "@ + int_decimal(d as int)
}

/// `c` does not occur in `s`.
pub open spec fn no_char(s: Seq<char>, c: char) -> bool {
    forall|i: int| 0 <= i < s.len() ==> s[i] != c
}

/// A text without the separator splits into itself alone.
pub proof fn lemma_split_without_sep(b: Seq<char>, c: char)
    requires
        no_char(b, c),
    ensures
        split_char(b, c) == seq![b],
    decreases b.len(),
{
    if b.len() > 0 {
        lemma_split_without_sep(b.drop_last(), c);
        assert(b.drop_last().push(b.last()) =~= b);
        assert(seq![b.drop_last()].update(0, b.drop_last().push(b.last())) =~= seq![b]);
    } else {
        assert(b =~= Seq::<char>::empty());
    }
}

/// A separator followed by text without it adds that text as the last piece.
pub proof fn lemma_split_after_sep(a: Seq<char>, b: Seq<char>, c: char)
    requires
        no_char(b, c),
    ensures
        split_char(a.push(c) + b, c) == split_char(a, c).push(b),
    decreases b.len(),
{
    if b.len() == 0 {
        assert(a.push(c) + b =~= a.push(c));
        assert((a.push(c)).drop_last() =~= a);
        assert(b =~= Seq::<char>::empty());
    } else {
        let b0 = b.drop_last();
        lemma_split_after_sep(a, b0, c);
        let s = a.push(c) + b;
        assert(s.drop_last() =~= a.push(c) + b0);
        assert(s.last() == b.last());
        assert(b0.push(b.last()) =~= b);
        assert(split_char(a, c).push(b0).update(split_char(a, c).len() as int, b0.push(b.last()))
            =~= split_char(a, c).push(b));
    }
}

/// A decimal rendering holds no `|`.
proof fn lemma_digits_no_bar(n: nat)
    ensures
        no_char(decimal(n), '|'),
{
    lemma_decimal_digits(n);
    assert forall|i: int| 0 <= i < decimal(n).len() implies decimal(n)[i] != '|' by {
        assert(all_digits(decimal(n)));
    }
}

/// Reading a report back gives the numbers it was written with, when they fit
/// in an `i32`.
pub proof fn lemma_progress_roundtrip(done: nat, total: nat)
    requires
        done <= i32::MAX,
        total <= i32::MAX,
    ensures
        progress_reading(progress_report_spec(done, total)) == Some((done as i32, total as i32)),
{
    reveal_strlit("Progress");
    reveal_strlit("Progress|");
    reveal_strlit("|");
    let p = "Progress"@;
    let d1 = decimal(done);
    let d2 = decimal(total);
    assert(p =~= seq!['P', 'r', 'o', 'g', 'r', 'e', 's', 's']);
    assert("Progress|"@ =~= p.push('|'));
    assert("|"@ =~= seq!['|']);
    lemma_digits_no_bar(done);
    lemma_digits_no_bar(total);
    assert(no_char(p, '|'));
    lemma_split_without_sep(p, '|');
    lemma_split_after_sep(p, d1, '|');
    let a = p.push('|') + d1;
    lemma_split_after_sep(a, d2, '|');
    assert(progress_report_spec(done, total) =~= a.push('|') + d2);
    let f = split_char(progress_report_spec(done, total), '|');
    assert(f =~= seq![p, d1, d2]);
    lemma_parse_int_decimal(done as i32);
    lemma_parse_int_decimal(total as i32);
    assert(int_decimal(done as i32 as int) == d1);
    assert(int_decimal(total as i32 as int) == d2);
}

/// The message a run sends after `done` of `total` items.
pub fn progress_report(done: usize, total: usize) -> (s: String)
    ensures
        s@ == progress_report_spec(done as nat, total as nat),
{
    let s = cat(String::from_str("Progress|"), decimal_string(done as u64).as_str());
    let s = cat(s, "|");
    cat(s, decimal_string(total as u64).as_str())
}

/// What the screen reads from a progress message.
pub fn read_progress(msg: &str) -> (r: Option<(i32, i32)>)
    ensures
        r == progress_reading(msg@),
{
    let cs = chars_of(msg);
    let f = split_on_char(&cs, '|');
    if f.len() != 3 {
        return None;
    }
    let first = string_of(&f[0]);
    proof {
        assert(f@[0]@ == split_char(msg@, '|')[0]);
    }
    if first != String::from_str("Progress") {
        return None;
    }
    let a = string_of(&f[1]);
    let b = string_of(&f[2]);
    proof {
        assert(f@[1]@ == split_char(msg@, '|')[1]);
        assert(f@[2]@ == split_char(msg@, '|')[2]);
    }
    let n = match parse_i32_str(a.as_str()) {
        Some(v) => v,
        None => -9999,
    };
    if n == -9999 {
        return None;
    }
    let d = match parse_i32_str(b.as_str()) {
        Some(v) => v,
        None => -9999,
    };
    if d == -9999 {
        return None;
    }
    Some((n, d))
}

/// The last of the messages drained from the progress channel, where there
/// was one.
pub fn last_message(msgs: Vec<String>) -> (r: Option<String>)
    ensures
        match r {
            Some(m) => msgs@.len() > 0 && m == msgs@.last(),
            None => msgs@.len() == 0,
        },
{
    let mut msgs = msgs;
    msgs.pop()
}

/// What the screen reads from the messages drained from the progress
/// channel: the last one, read as a progress report.
pub fn read_latest(msgs: Vec<String>) -> (r: Option<(i32, i32)>)
    ensures
        r == latest_reading(msgs@),
{
    match last_message(msgs) {
        Some(m) => read_progress(m.as_str()),
        None => None,
    }
}

/// The line the screen prints for a message that it does not read as
/// progress, where it does not.
pub fn progress_complaint(msg: &str) -> (r: Option<String>)
    ensures
        match r {
            Some(c) => progress_complaint_spec(msg@) == Some(c@),
            None => progress_complaint_spec(msg@) is None,
        },
{
    let cs = chars_of(msg);
    let f = split_on_char(&cs, '|');
    if f.len() == 3 {
        let first = string_of(&f[0]);
        proof {
            assert(f@[0]@ == split_char(msg@, '|')[0]);
        }
        if first == String::from_str("Progress") {
            if read_progress(msg).is_some() {
                return None;
            }
            return Some(cat(String::from_str("progress numeric not numeric: "), msg));
        }
    }
    Some(cat(String::from_str("message not progress: "), msg))
}

/// The message line shown for a progress reading.
pub fn progress_line(n: i32, d: i32) -> (s: String)
    ensures
        s@ == progress_line_spec(n, d),
{
    let s = cat(String::from_str("Convert progress: "), int_decimal_string(n as i64).as_str());
    let s = cat(s, " of ");
    cat(s, int_decimal_string(d as i64).as_str())
}

} // verus!
