//! Inserting a directory into a `PATH`-style list of directories. Reading the
//! variable from the process environment and writing it back happen around
//! this edit, and are not synchronised: callers keep to a single writer.
use vstd::prelude::*;
use crate::platform::{list_separator, Platform};

verus! {

/// Why a `PATH` list could not be edited.
#[derive(Debug, Clone, Copy, PartialEq, Eq, Structural)]
pub enum PathError {
    /// The variable is not set.
    Unset,
    /// On POSIX hosts: the new entry holds the list separator `:`, so it
    /// cannot be one entry.
    SeparatorInEntry,
    /// On Windows: the new entry holds a double quote, which the list syntax
    /// has no way to write inside an entry.
    QuoteInEntry,
}

/// Why `entry` cannot be added to a list on `platform`, if it cannot.
pub open spec fn entry_refusal(entry: Seq<char>, platform: Platform) -> Option<PathError> {
    match platform {
        Platform::Posix => if entry.contains(':') {
            Some(PathError::SeparatorInEntry)
        } else {
            None
        },
        Platform::Windows => if entry.contains('"') {
            Some(PathError::QuoteInEntry)
        } else {
            None
        },
    }
}

/// How `entry` is written in a list on `platform`: as it is, but on Windows
/// in double quotes when it holds the separator `;`.
pub open spec fn entry_text(entry: Seq<char>, platform: Platform) -> Seq<char> {
    match platform {
        Platform::Posix => entry,
        Platform::Windows => if entry.contains(';') {
            seq!['"'] + entry + seq!['"']
        } else {
            entry
        },
    }
}

/// The entries of the list `s`, split at each `sep`. The empty list has one
/// empty entry.
pub open spec fn segments(s: Seq<char>, sep: char) -> Seq<Seq<char>>
    decreases s.len(),
{
    if s.len() == 0 {
        seq![Seq::<char>::empty()]
    } else {
        let rest = segments(s.drop_first(), sep);
        if s[0] == sep {
            seq![Seq::<char>::empty()] + rest
        } else {
            rest.update(0, seq![s[0]] + rest[0])
        }
    }
}

/// The list `current` with `entry` added, at the end when `append` holds and
/// at the front otherwise.
pub open spec fn with_entry(current: Seq<char>, entry: Seq<char>, append: bool, sep: char) -> Seq<char> {
    if append {
        current + seq![sep] + entry
    } else {
        entry + seq![sep] + current
    }
}

proof fn lemma_segments_nonempty(s: Seq<char>, sep: char)
    ensures
        segments(s, sep).len() >= 1,
    decreases s.len(),
{
    if s.len() > 0 {
        lemma_segments_nonempty(s.drop_first(), sep);
    }
}

/// Splitting two lists joined by a separator gives the entries of the first
/// followed by those of the second.
pub proof fn lemma_segments_of_joined(a: Seq<char>, b: Seq<char>, sep: char)
    ensures
        segments(a + seq![sep] + b, sep) == segments(a, sep) + segments(b, sep),
    decreases a.len(),
{
    let x = a + seq![sep] + b;
    if a.len() == 0 {
        assert(x.drop_first() == b);
        assert(segments(a, sep) == seq![Seq::<char>::empty()]);
    } else {
        let a1 = a.drop_first();
        assert(x.drop_first() == a1 + seq![sep] + b);
        lemma_segments_of_joined(a1, b, sep);
        lemma_segments_nonempty(a1, sep);
        let sa = segments(a1, sep);
        let sb = segments(b, sep);
        if a[0] == sep {
            assert(seq![Seq::<char>::empty()] + (sa + sb) == (seq![Seq::<char>::empty()] + sa) + sb);
        } else {
            assert((sa + sb).update(0, seq![a[0]] + (sa + sb)[0]) == sa.update(0, seq![a[0]] + sa[0]) + sb);
        }
    }
}

/// A text without the separator is a single entry.
pub proof fn lemma_segments_of_single(a: Seq<char>, sep: char)
    requires
        !a.contains(sep),
    ensures
        segments(a, sep) == seq![a],
    decreases a.len(),
{
    if a.len() == 0 {
        assert(a == Seq::<char>::empty());
    } else {
        let a1 = a.drop_first();
        assert(!a1.contains(sep)) by {
            if a1.contains(sep) {
                let k = choose|k: int| 0 <= k < a1.len() && a1[k] == sep;
                assert(a[k + 1] == sep);
            }
        }
        assert(a[0] != sep);
        lemma_segments_of_single(a1, sep);
        assert(seq![a[0]] + a1 == a);
    }
}

/// Adding an entry without the separator adds exactly that entry to the list
/// split at the separator: at the front, or at the end when appending; the
/// other entries stay, in their order. This is every edit that
/// `edit_path_list` accepts on POSIX hosts, and on Windows every one whose
/// entry holds no `;`.
pub proof fn lemma_entries_after_edit(current: Seq<char>, entry: Seq<char>, append: bool, sep: char)
    requires
        !entry.contains(sep),
    ensures
        segments(with_entry(current, entry, append, sep), sep) == if append {
            segments(current, sep).push(entry)
        } else {
            seq![entry] + segments(current, sep)
        },
{
    lemma_segments_of_single(entry, sep);
    if append {
        lemma_segments_of_joined(current, entry, sep);
        assert(segments(current, sep) + seq![entry] == segments(current, sep).push(entry));
    } else {
        lemma_segments_of_joined(entry, current, sep);
    }
}

/// Whether `c` occurs in `s`.
fn holds_char(s: &str, c: char) -> (r: bool)
    ensures
        r == s@.contains(c),
{
    let n = s.unicode_len();
    let mut i: usize = 0;
    while i < n
        invariant
            n == s@.len(),
            i <= n,
            forall|j: int| 0 <= j < i ==> s@[j] != c,
        decreases n - i,
    {
        if s.get_char(i) == c {
            return true;
        }
        i = i + 1;
    }
    false
}

/// The value of a `PATH`-style variable after adding `entry` to it on
/// `platform`: at the end when `append` holds, at the front otherwise. The
/// entries already in the list are kept as written. An unset variable is an
/// error; so is an entry that holds `:` on POSIX hosts, or a double quote on
/// Windows. On Windows an entry that holds `;` is written in double quotes.
pub fn edit_path_list(current: Option<&str>, entry: &str, append: bool, platform: Platform) -> (r: Result<String, PathError>)
    ensures
        current is None ==> r == Err::<String, PathError>(PathError::Unset),
        current is Some && entry_refusal(entry@, platform) is Some
            ==> r == Err::<String, PathError>(entry_refusal(entry@, platform)->Some_0),
        current is Some && entry_refusal(entry@, platform) is None ==> r is Ok
            && r->Ok_0@ == with_entry(
                current->Some_0@,
                entry_text(entry@, platform),
                append,
                list_separator(platform),
            ),
{
    let cur = match current {
        Some(c) => c,
        None => return Err(PathError::Unset),
    };
    proof {
        reveal_strlit(":");
        reveal_strlit(";");
        reveal_strlit("\"");
    }
    let (sep_text, quoted): (&str, bool) = match platform {
        Platform::Posix => {
            if holds_char(entry, ':') {
                return Err(PathError::SeparatorInEntry);
            }
            (":", false)
        },
        Platform::Windows => {
            if holds_char(entry, '"') {
                return Err(PathError::QuoteInEntry);
            }
            (";", holds_char(entry, ';'))
        },
    };
    assert(sep_text@ == seq![list_separator(platform)]);
    let piece = if quoted {
        String::from_str("\"").concat(entry).concat("\"")
    } else {
        String::from_str(entry)
    };
    assert(piece@ == entry_text(entry@, platform));
    let r = if append {
        String::from_str(cur).concat(sep_text).concat(piece.as_str())
    } else {
        piece.concat(sep_text).concat(cur)
    };
    Ok(r)
}

} // verus!
