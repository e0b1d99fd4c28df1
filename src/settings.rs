//! What the project settings mean once read: custom switch lists, insecure
//! switches, and the numeric settings' valid ranges.
use vstd::prelude::*;
use vstd::string::StringExecFns;
use vstd::string::StrSliceExecFns;
use crate::config::strings_view;
use crate::text::{trimmed, strip_leading, trim, strip_leading_char, same_text};

verus! {

/// Splits text at each newline: the lines read so far and the line still
/// being read.
pub open spec fn split_lines(s: Seq<char>) -> (Seq<Seq<char>>, Seq<char>)
    decreases s.len(),
{
    if s.len() == 0 {
        (Seq::empty(), Seq::empty())
    } else {
        let prev = split_lines(s.drop_last());
        if s.last() == '\n' {
            (prev.0.push(prev.1), Seq::empty())
        } else {
            (prev.0, prev.1.push(s.last()))
        }
    }
}

/// A line of the custom switch setting that names a switch: not blank and
/// not a `#` comment.
pub open spec fn keep_line(l: Seq<char>) -> bool {
    trimmed(l).len() > 0 && trimmed(l)[0] != '#'
}

/// The kept lines of `ls`, trimmed, in order.
pub open spec fn kept_lines(ls: Seq<Seq<char>>) -> Seq<Seq<char>>
    decreases ls.len(),
{
    if ls.len() == 0 {
        Seq::empty()
    } else if keep_line(ls.last()) {
        kept_lines(ls.drop_last()).push(trimmed(ls.last()))
    } else {
        kept_lines(ls.drop_last())
    }
}

/// The custom switches a multi-line setting lists: one per line, trimmed,
/// without blank lines and `#` comments.
pub open spec fn custom_switch_list(raw: Seq<char>) -> Seq<Seq<char>> {
    let parts = split_lines(raw);
    kept_lines(parts.0.push(parts.1))
}

fn keep_trimmed(out: &mut Vec<String>, line: &str, Ghost(done): Ghost<Seq<Seq<char>>>)
    requires
        strings_view(old(out)@) == kept_lines(done),
    ensures
        strings_view(final(out)@) == kept_lines(done.push(line@)),
{
    let t = trim(line);
    assert(done.push(line@).drop_last() =~= done);
    if t.unicode_len() > 0 && t.get_char(0) != '#' {
        out.push(String::from_str(t));
        assert(strings_view(out@) =~= strings_view(old(out)@).push(t@));
    }
}

/// Parses the custom command-line switch setting.
pub fn parse_custom_switches(raw: &str) -> (r: Vec<String>)
    ensures
        strings_view(r@) == custom_switch_list(raw@),
{
    let n = raw.unicode_len();
    let mut out: Vec<String> = Vec::new();
    let mut start: usize = 0;
    let mut i: usize = 0;
    let ghost mut done: Seq<Seq<char>> = Seq::empty();
    assert(strings_view(out@) =~= Seq::<Seq<char>>::empty());
    assert(raw@.subrange(0, 0) =~= Seq::<char>::empty());
    while i < n
        invariant
            n == raw@.len(),
            start <= i <= n,
            split_lines(raw@.subrange(0, i as int)) == (done, raw@.subrange(start as int, i as int)),
            strings_view(out@) == kept_lines(done),
        decreases n - i,
    {
        let c = raw.get_char(i);
        assert(raw@.subrange(0, i + 1).drop_last() =~= raw@.subrange(0, i as int));
        if c == '\n' {
            let line = raw.substring_char(start, i);
            keep_trimmed(&mut out, line, Ghost(done));
            proof {
                done = done.push(line@);
            }
            start = i + 1;
            assert(raw@.subrange(start as int, i + 1) =~= Seq::<char>::empty());
        } else {
            assert(raw@.subrange(start as int, i as int).push(c) =~= raw@.subrange(start as int, i + 1));
        }
        i = i + 1;
    }
    let last = raw.substring_char(start, n);
    keep_trimmed(&mut out, last, Ghost(done));
    assert(raw@.subrange(0, n as int) =~= raw@);
    out
}

/// Whether a custom switch weakens browser security.
pub open spec fn is_insecure_spec(switch: Seq<char>) -> bool {
    let body = strip_leading(trimmed(switch), '-');
    starts_with(body, "disable-web-security"@) || starts_with(body, "ignore-certificate-errors"@)
        || starts_with(body, "allow-running-insecure-content"@)
}

pub open spec fn starts_with(s: Seq<char>, prefix: Seq<char>) -> bool {
    prefix.len() <= s.len() && s.subrange(0, prefix.len() as int) == prefix
}

fn has_prefix(s: &str, prefix: &str) -> (r: bool)
    ensures
        r == starts_with(s@, prefix@),
{
    let n = prefix.unicode_len();
    if n > s.unicode_len() {
        return false;
    }
    same_text(s.substring_char(0, n), prefix)
}

/// Whether a custom switch weakens browser security: it disables web
/// security, ignores certificate errors or allows insecure content.
pub fn is_insecure_switch(switch: &str) -> (r: bool)
    ensures
        r == is_insecure_spec(switch@),
{
    let body = strip_leading_char(trim(switch), '-');
    has_prefix(body, "disable-web-security") || has_prefix(body, "ignore-certificate-errors")
        || has_prefix(body, "allow-running-insecure-content")
}

/// The remote developer-tools port, clamped to the valid port range.
pub fn devtools_port(setting: i64) -> (r: u16)
    ensures
        setting < 1 ==> r == 1,
        setting > 65535 ==> r == 65535,
        1 <= setting <= 65535 ==> r == setting,
{
    if setting < 1 {
        1
    } else if setting > 65535 {
        65535
    } else {
        setting as u16
    }
}

/// A count setting where negative values mean 0, narrowed to `i32` by
/// truncation as an `as` cast does.
pub fn non_negative_setting(setting: i64) -> (r: i32)
    ensures
        r == (if setting < 0 { 0 } else { setting }) as i32,
{
    let v: i64 = if setting < 0 { 0 } else { setting };
    #[verifier::truncate]
    (v as i32)
}

} // verus!
