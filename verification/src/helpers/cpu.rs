//! Reading the CPU vendor and feature flags out of `/proc/cpuinfo` text.
use vstd::prelude::*;

use crate::text::{char_views, chars_eq, chars_of, lines, lines_exec, split, split_exec, starts_with, starts_with_exec, string_of, trim, trim_exec, words, words_exec};

verus! {

/// The second `':'`-separated piece of `line`, when there is one.
pub open spec fn second_field(line: Seq<char>) -> Option<Seq<char>> {
    let parts = split(line, ':');
    if parts.len() > 1 {
        Some(parts[1])
    } else {
        None
    }
}

/// The trimmed value of the first line of `ls` that starts with `key` and has a value
/// after a `':'`.
pub open spec fn first_field(ls: Seq<Seq<char>>, key: Seq<char>) -> Option<Seq<char>>
    decreases ls.len(),
{
    if ls.len() == 0 {
        None
    } else if starts_with(ls[0], key) && second_field(ls[0]) is Some {
        Some(trim(second_field(ls[0])->0))
    } else {
        first_field(ls.drop_first(), key)
    }
}

/// The value that `cpuinfo` gives for `key`.
pub open spec fn cpuinfo_field(cpuinfo: Seq<char>, key: Seq<char>) -> Option<Seq<char>> {
    first_field(lines(cpuinfo), key)
}

/// The value of the first `key` line of `cpuinfo`, if any.
fn find_field(cpuinfo: &str, key: &str) -> (r: Option<String>)
    ensures
        opt_chars(r) == cpuinfo_field(cpuinfo@, key@),
{
    let ls = lines_exec(cpuinfo);
    let k = chars_of(key);
    let ghost all = char_views(ls@);
    let mut i: usize = 0;
    assert(all.skip(0) =~= all);
    while i < ls.len()
        invariant
            i <= ls.len(),
            all == char_views(ls@),
            all == lines(cpuinfo@),
            k@ == key@,
            first_field(all, key@) == first_field(all.skip(i as int), key@),
        decreases ls.len() - i,
    {
        assert(all.skip(i as int)[0] == ls@[i as int]@);
        assert(all.skip(i as int).drop_first() =~= all.skip(i + 1));
        if starts_with_exec(&ls[i], &k) {
            let parts = split_exec(&ls[i], ':');
            if parts.len() > 1 {
                let v = trim_exec(&parts[1]);
                return Some(string_of(&v));
            }
        }
        i = i + 1;
    }
    None
}

/// The view of an optional string.
pub open spec fn opt_chars(o: Option<String>) -> Option<Seq<char>> {
    match o {
        Some(s) => Some(s@),
        None => None,
    }
}

/// The CPU vendor named by the first `vendor_id` line of `cpuinfo`, or "Unknown".
pub fn extract_cpu_vendor(cpuinfo: &str) -> (r: String)
    ensures
        r@ == (match cpuinfo_field(cpuinfo@, "vendor_id"@) {
            Some(v) => v,
            None => "Unknown"@,
        }),
{
    match find_field(cpuinfo, "vendor_id") {
        Some(v) => v,
        None => String::from_str("Unknown"),
    }
}

/// The feature flags listed by the first `flags` line of `cpuinfo`, or the empty string.
pub fn extract_flags(cpuinfo: &str) -> (r: String)
    ensures
        r@ == (match cpuinfo_field(cpuinfo@, "flags"@) {
            Some(v) => v,
            None => Seq::empty(),
        }),
{
    match find_field(cpuinfo, "flags") {
        Some(v) => v,
        None => String::new(),
    }
}

/// Whether `word` is one of the whitespace-separated words of `flags`.
pub fn has_flag(flags: &str, word: &str) -> (r: bool)
    ensures
        r == words(flags@).contains(word@),
{
    let f = chars_of(flags);
    let w = chars_of(word);
    let ws = words_exec(&f);
    let ghost all = char_views(ws@);
    let mut i: usize = 0;
    while i < ws.len()
        invariant
            i <= ws.len(),
            all == char_views(ws@),
            all == words(flags@),
            w@ == word@,
            forall|j: int| 0 <= j < i ==> all[j] != word@,
        decreases ws.len() - i,
    {
        if chars_eq(&ws[i], &w) {
            assert(all[i as int] == word@);
            return true;
        }
        i = i + 1;
    }
    false
}

} // verus!
