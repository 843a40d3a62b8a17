//! The default rendering adapter's decision logic.
//!
//! The ready-made capability renders a native log event through the
//! native library's own formatter and forwards the text to a general
//! logging framework.  Everything around the two opaque calls — which
//! events to drop, and at which filter rank to emit — is decided here,
//! on plain values.

use vstd::prelude::*;
use vstd::string::StrSliceExecFns;

use crate::level::decoded_level;
use crate::level::filter_of;
use crate::level::severity_rank;
use crate::level::FilterLevel;
use crate::level::Level;

verus! {

/// The emission decision for a native log event: the filter rank to
/// emit at, or `None` when the event is to be dropped.
///
/// The event's native numeric level is decoded with the fallback-safe
/// conversion (undefined values count as `Info`).  The event is dropped
/// when a threshold is respected and the event is less urgent than it,
/// or when the decoded severity coarsens to `Off`.
pub open spec fn emission_filter_spec(native_level: int, threshold: Option<Level>) -> Option<
    FilterLevel,
> {
    let level = decoded_level(native_level);
    if threshold matches Some(t) && severity_rank(level) < severity_rank(t) {
        None
    } else if filter_of(level) == FilterLevel::Off {
        None
    } else {
        Some(filter_of(level))
    }
}

/// Decides whether and at which filter rank a native log event is to be
/// emitted to the general logging framework.
///
/// `threshold` is the native library's configured severity threshold,
/// where the adapter is set to respect it and the threshold could be
/// read back; `None` otherwise.  Respecting the threshold is an
/// optimization, not a correctness requirement: an unreadable threshold
/// drops nothing.
pub fn emission_filter(native_level: i32, threshold: Option<Level>) -> (r: Option<FilterLevel>)
    ensures
        r == emission_filter_spec(native_level as int, threshold),
{
    let level = Level::from_native_or_default(native_level);
    if let Some(t) = threshold {
        if level.rank() < t.rank() {
            return None;
        }
    }
    let f = level.to_filter();
    if f == FilterLevel::Off {
        None
    } else {
        Some(f)
    }
}

/// Whether `c` is whitespace to the trimming step: the Unicode
/// white-space characters, the set `str::trim` removes.
pub open spec fn is_render_ws(c: char) -> bool {
    ||| c == ' '
    ||| c == '\t'
    ||| c == '\n'
    ||| c == '\u{b}'
    ||| c == '\u{c}'
    ||| c == '\r'
    ||| c == '\u{85}'
    ||| c == '\u{a0}'
    ||| c == '\u{1680}'
    ||| c == '\u{2000}'
    ||| c == '\u{2001}'
    ||| c == '\u{2002}'
    ||| c == '\u{2003}'
    ||| c == '\u{2004}'
    ||| c == '\u{2005}'
    ||| c == '\u{2006}'
    ||| c == '\u{2007}'
    ||| c == '\u{2008}'
    ||| c == '\u{2009}'
    ||| c == '\u{200a}'
    ||| c == '\u{2028}'
    ||| c == '\u{2029}'
    ||| c == '\u{202f}'
    ||| c == '\u{205f}'
    ||| c == '\u{3000}'
}

/// The number of whitespace characters at the back of `s`.
pub open spec fn count_trailing_ws(s: Seq<char>) -> int
    decreases s.len(),
{
    if s.len() == 0 {
        0
    } else if is_render_ws(s[s.len() - 1]) {
        1 + count_trailing_ws(s.subrange(0, s.len() - 1))
    } else {
        0
    }
}

/// `s` with its trailing whitespace removed — only trailing: the
/// adapter forwards the rendered message otherwise as the formatter
/// produced it, leading whitespace included.
pub open spec fn trimmed(s: Seq<char>) -> Seq<char> {
    s.subrange(0, s.len() - count_trailing_ws(s))
}

proof fn lemma_count_trailing_ws(s: Seq<char>, j: int)
    requires
        0 <= j <= s.len(),
        forall|k: int| j <= k < s.len() ==> is_render_ws(s[k]),
        j > 0 ==> !is_render_ws(s[j - 1]),
    ensures
        count_trailing_ws(s) == s.len() - j,
    decreases s.len() - j,
{
    if j == s.len() {
    } else {
        let rest = s.subrange(0, s.len() - 1);
        assert(forall|k: int| j <= k < rest.len() ==> is_render_ws(rest[k]));
        lemma_count_trailing_ws(rest, j);
    }
}

/// Whether `c` is whitespace to the trimming step.
pub fn is_render_ws_char(c: char) -> (r: bool)
    ensures
        r == is_render_ws(c),
{
    c == ' ' || c == '\t' || c == '\n' || c == '\u{b}' || c == '\u{c}' || c == '\r' || c == '\u{85}'
        || c == '\u{a0}' || c == '\u{1680}' || c == '\u{2000}' || c == '\u{2001}' || c
        == '\u{2002}' || c == '\u{2003}' || c == '\u{2004}' || c == '\u{2005}' || c == '\u{2006}'
        || c == '\u{2007}' || c == '\u{2008}' || c == '\u{2009}' || c == '\u{200a}' || c
        == '\u{2028}' || c == '\u{2029}' || c == '\u{202f}' || c == '\u{205f}' || c == '\u{3000}'
}

/// Removes trailing whitespace and newlines from a rendered message
/// before it is forwarded to the logging framework.  Trailing only:
/// leading whitespace is part of the message.
pub fn trim_message<'a>(s: &'a str) -> (r: &'a str)
    ensures
        r@ == trimmed(s@),
{
    let len = s.unicode_len();
    let mut hi: usize = len;
    while hi > 0 && is_render_ws_char(s.get_char(hi - 1))
        invariant
            hi <= len,
            len == s@.len(),
            forall|k: int| hi <= k < len ==> is_render_ws(s@[k]),
        decreases hi,
    {
        hi = hi - 1;
    }
    proof {
        lemma_count_trailing_ws(s@, hi as int);
    }
    let r = s.substring_char(0, hi);
    proof {
        assert(r@ =~= trimmed(s@));
    }
    r
}

/// Law: a trimmed message does not end with whitespace.
pub proof fn lemma_trimmed_has_clean_end(s: Seq<char>)
    ensures
        trimmed(s).len() > 0 ==> !is_render_ws(trimmed(s)[trimmed(s).len() - 1]),
{
    lemma_count_trailing_ws_bound(s);
}

proof fn lemma_count_trailing_ws_bound(s: Seq<char>)
    ensures
        0 <= count_trailing_ws(s) <= s.len(),
        count_trailing_ws(s) < s.len() ==> !is_render_ws(
            s[s.len() - count_trailing_ws(s) - 1],
        ),
    decreases s.len(),
{
    if s.len() > 0 && is_render_ws(s[s.len() - 1]) {
        lemma_count_trailing_ws_bound(s.subrange(0, s.len() - 1));
    }
}

/// Law: the decision is total — for every native numeric value and
/// every threshold it either names a filter rank or drops the event,
/// and the rank it names is never `Off`.
pub proof fn lemma_emission_filter_total(native_level: int, threshold: Option<Level>)
    ensures
        (emission_filter_spec(native_level, threshold) matches Some(f) ==> f != FilterLevel::Off),
        emission_filter_spec(native_level, threshold) matches Some(f) ==> f == filter_of(
            decoded_level(native_level),
        ),
{
}

} // verus!
