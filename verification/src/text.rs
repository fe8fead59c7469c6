//! Character-based truncation of display strings.

use vstd::prelude::*;
use vstd::string::StrSliceExecFns;
use vstd::string::StringExecFns;

verus! {

/// Greatest number of characters a presence text line may hold.
pub const MAX_STR_LEN: usize = 128;

/// The first `n` characters of `s`; all of `s` when it is already short enough.
pub open spec fn trunc_plain(s: Seq<char>, n: int) -> Seq<char> {
    if s.len() <= n {
        s
    } else {
        s.subrange(0, n)
    }
}

/// The marker appended to a line that had to be shortened.
pub open spec fn ellipsis() -> Seq<char> {
    seq!['.', '.', '.']
}

/// `s` shortened to at most `n` characters: untouched when short enough,
/// otherwise cut to `n - 3` characters with the ellipsis marker appended.
pub open spec fn trunc_marked(s: Seq<char>, n: int) -> Seq<char> {
    if s.len() <= n {
        s
    } else {
        trunc_plain(s, n - 3) + ellipsis()
    }
}

/// Keep only the first `length` characters of `current`.
pub fn truncate_string(current: &mut String, length: usize)
    ensures
        final(current)@ == trunc_plain(old(current)@, length as int),
{
    let n: usize = current.as_str().unicode_len();
    if n > length {
        let shortened: String = String::from_str(current.as_str().substring_char(0, length));
        *current = shortened;
    }
}

/// Shorten `current` to at most `length` characters, marking a shortened
/// line with a trailing ellipsis.
pub fn truncate_string_fmt(current: &mut String, length: usize)
    requires
        3 <= length,
    ensures
        final(current)@ == trunc_marked(old(current)@, length as int),
{
    let n: usize = current.as_str().unicode_len();
    if n <= length {
        return ;
    }
    truncate_string(current, length - 3);
    current.append("...");
    proof {
        reveal_strlit("...");
        assert("..."@ =~= ellipsis());
        assert(current@ =~= trunc_marked(old(current)@, length as int));
    }
}

/// The character sequences held by a sequence of owned strings.
pub open spec fn texts_of(parts: Seq<String>) -> Seq<Seq<char>> {
    parts.map_values(|p: String| p@)
}

/// Whether `s` begins with `prefix`.
pub open spec fn spec_starts_with(s: Seq<char>, prefix: Seq<char>) -> bool {
    prefix.len() <= s.len() && s.subrange(0, prefix.len() as int) == prefix
}

/// Whether the string `s` begins with `prefix`, compared character-wise.
pub fn str_starts_with(s: &str, prefix: &str) -> (r: bool)
    ensures
        r == spec_starts_with(s@, prefix@),
{
    let n: usize = prefix.unicode_len();
    let m: usize = s.unicode_len();
    if n > m {
        return false;
    }
    let mut i: usize = 0;
    while i < n
        invariant
            i <= n,
            n == prefix@.len(),
            n <= m,
            m == s@.len(),
            forall|j: int| 0 <= j < i ==> s@[j] == prefix@[j],
        decreases n - i,
    {
        if s.get_char(i) != prefix.get_char(i) {
            proof {
                assert(!spec_starts_with(s@, prefix@)) by {
                    if spec_starts_with(s@, prefix@) {
                        assert(s@.subrange(0, prefix@.len() as int)[i as int] == s@[i as int]);
                    }
                }
            }
            return false;
        }
        i += 1;
    }
    proof {
        assert(s@.subrange(0, prefix@.len() as int) =~= prefix@);
    }
    true
}

/// `parts` joined by `sep`: empty for no parts, and no leading, trailing
/// or doubled separator otherwise.
pub open spec fn join_sep(parts: Seq<Seq<char>>, sep: Seq<char>) -> Seq<char>
    decreases parts.len(),
{
    if parts.len() == 0 {
        Seq::<char>::empty()
    } else if parts.len() == 1 {
        parts[0]
    } else {
        join_sep(parts.drop_last(), sep) + sep + parts.last()
    }
}

/// Join the strings of `parts` with the separator `sep` between them.
pub fn join_with(parts: &Vec<String>, sep: &str) -> (r: String)
    ensures
        r@ == join_sep(texts_of(parts@), sep@),
{
    let mut r = String::new();
    let mut i: usize = 0;
    while i < parts.len()
        invariant
            i <= parts@.len(),
            r@ == join_sep(texts_of(parts@).subrange(0, i as int), sep@),
        decreases parts@.len() - i,
    {
        if i > 0 {
            r.append(sep);
        }
        r.append(parts[i].as_str());
        proof {
            let t = texts_of(parts@);
            assert(t.subrange(0, i + 1).drop_last() =~= t.subrange(0, i as int));
            assert(t.subrange(0, i + 1).last() == t[i as int]);
            if i == 0 {
                assert(r@ =~= t.subrange(0, 1)[0]);
            }
            assert(r@ == join_sep(t.subrange(0, i + 1), sep@));
        }
        i += 1;
    }
    proof {
        assert(texts_of(parts@).subrange(0, parts@.len() as int) =~= texts_of(parts@));
    }
    r
}

/// Truncation is idempotent, bounds the length, and marks every line it
/// actually shortened with a trailing ellipsis.
pub proof fn lemma_trunc_marked_properties(s: Seq<char>, n: int)
    requires
        3 <= n,
    ensures
        s.len() <= n ==> trunc_marked(s, n) == s,
        trunc_marked(s, n).len() <= n,
        s.len() > n ==> trunc_marked(s, n).len() == n && trunc_marked(s, n).skip(n - 3)
            == ellipsis(),
        trunc_marked(trunc_marked(s, n), n) == trunc_marked(s, n),
{
    if s.len() > n {
        assert(trunc_marked(s, n).skip(n - 3) =~= ellipsis());
    }
}

} // verus!
