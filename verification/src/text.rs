//! Text utilities for the extractors: slicing a source text by a node's byte
//! range, comparing kind tags, stripping the quotes of a module specifier and
//! splitting a file path into its directory part.

use vstd::prelude::*;

verus! {

use vstd::utf8::decode_utf8;
use vstd::utf8::is_char_boundary;
use vstd::utf8::valid_utf8;
use vstd::string::StringSliceAdditionalSpecFns;
use vstd::string::StrSliceExecFns;
use vstd::string::StringExecFns;

/// The characters of the text that a byte range denotes: defined exactly when
/// the range lies within the text and both ends fall on character boundaries
/// of its UTF-8 encoding; a range that does not is rejected, never read.
pub open spec fn token_of(b: Seq<u8>, start: int, end: int) -> Option<Seq<char>> {
    if 0 <= start && start <= end && end <= b.len() && is_char_boundary(b, start)
        && is_char_boundary(b, end) {
        Some(decode_utf8(b.subrange(start, end)))
    } else {
        None
    }
}

/// The slice of `text` between the byte offsets `start` and `end`, or `None`
/// when the range is out of bounds or cuts a character in half.
pub fn slice_text<'a>(text: &'a str, start: usize, end: usize) -> (r: Option<&'a str>)
    ensures
        r is Some <==> token_of(text.spec_bytes(), start as int, end as int) is Some,
        r matches Some(s) ==> Some(s@) == token_of(text.spec_bytes(), start as int, end as int),
{
    proof {
        vstd::utf8::encode_utf8_valid_utf8(text@);
    }
    if start > end {
        return None;
    }
    if !text.is_char_boundary(start) || !text.is_char_boundary(end) {
        return None;
    }
    let ghost b: Seq<u8> = text.spec_bytes();
    proof {
        assert(end as int <= b.len()) by {
            if (end as int) > b.len() {
                assert(!is_char_boundary(b, end as int));
            }
        }
    }
    let (_, suffix) = text.split_at(start);
    proof {
        assert(suffix.spec_bytes() =~= b.subrange(start as int, b.len() as int));
        vstd::utf8::valid_utf8_split(b, start as int);
        lemma_boundary_in_suffix(b, start as int, end as int);
    }
    let tok = suffix.split_at(end - start).0;
    proof {
        assert(tok.spec_bytes() =~= suffix.spec_bytes().subrange(0, end - start));
        assert(tok.spec_bytes() =~= b.subrange(start as int, end as int));
        vstd::utf8::encode_utf8_decode_utf8(tok@);
    }
    Some(tok)
}

/// A boundary of the whole text at `end` is a boundary of its suffix from
/// `start` at `end - start`.
proof fn lemma_boundary_in_suffix(b: Seq<u8>, start: int, end: int)
    requires
        valid_utf8(b),
        0 <= start <= end <= b.len(),
        is_char_boundary(b, start),
        is_char_boundary(b, end),
    ensures
        is_char_boundary(b.subrange(start, b.len() as int), end - start),
{
    let suffix = b.subrange(start, b.len() as int);
    vstd::utf8::valid_utf8_split(b, start);
    if end == start {
        vstd::utf8::is_char_boundary_start_end_of_seq(suffix);
    } else if end == b.len() {
        vstd::utf8::is_char_boundary_start_end_of_seq(suffix);
    } else {
        vstd::utf8::is_char_boundary_iff_not_is_continuation_byte(b, end);
        assert(suffix[end - start] == b[end]);
        vstd::utf8::is_char_boundary_iff_not_is_continuation_byte(suffix, end - start);
    }
}

/// Character-for-character equality of two strings.
pub fn str_eq(a: &str, b: &str) -> (r: bool)
    ensures
        r == (a@ == b@),
{
    let alen = a.unicode_len();
    let blen = b.unicode_len();
    if alen != blen {
        return false;
    }
    let mut i: usize = 0;
    while i < alen
        invariant
            a@.len() == alen,
            b@.len() == blen,
            alen == blen,
            i <= alen,
            forall|j: int| 0 <= j < i ==> a@[j] == b@[j],
        decreases alen - i,
    {
        if a.get_char(i) != b.get_char(i) {
            return false;
        }
        i = i + 1;
    }
    proof {
        assert(a@ =~= b@);
    }
    true
}

/// Quoting characters of a module specifier literal.
pub open spec fn is_quote(c: char) -> bool {
    c == '"' || c == '\''
}

/// The characters of `s` that are not quotes, in order.
pub open spec fn unquoted(s: Seq<char>) -> Seq<char>
    decreases s.len(),
{
    if s.len() == 0 {
        Seq::empty()
    } else {
        unquoted(s.drop_last()) + (if is_quote(s.last()) {
            Seq::empty()
        } else {
            seq![s.last()]
        })
    }
}

/// Removes every quoting character from a specifier literal's text.
pub fn strip_quotes(s: &str) -> (r: String)
    ensures
        r@ == unquoted(s@),
{
    let n = s.unicode_len();
    let mut out = String::new();
    let mut i: usize = 0;
    while i < n
        invariant
            n == s@.len(),
            i <= n,
            out@ == unquoted(s@.take(i as int)),
        decreases n - i,
    {
        let c = s.get_char(i);
        if !(c == '"' || c == '\'') {
            let piece = s.substring_char(i, i + 1);
            proof {
                assert(piece@ =~= seq![s@[i as int]]);
            }
            out.append(piece);
        }
        proof {
            assert(s@.take(i + 1 as int).drop_last() =~= s@.take(i as int));
            assert(s@.take(i + 1 as int).last() == s@[i as int]);
        }
        i = i + 1;
    }
    proof {
        assert(s@.take(n as int) =~= s@);
    }
    out
}

/// The index of the last `/` in `p`, or `-1` when there is none.
pub open spec fn last_slash(p: Seq<char>) -> int
    decreases p.len(),
{
    if p.len() == 0 {
        -1
    } else if p.last() == '/' {
        p.len() - 1
    } else {
        last_slash(p.drop_last())
    }
}

/// The directory part of a file path: everything up to and including the last
/// `/`, or empty when the path has no separator.
pub open spec fn spec_dir_of(p: Seq<char>) -> Seq<char> {
    p.take(last_slash(p) + 1)
}

proof fn lemma_last_slash_found(p: Seq<char>, k: int)
    requires
        0 <= k < p.len(),
        p[k] == '/',
        forall|j: int| k < j < p.len() ==> p[j] != '/',
    ensures
        last_slash(p) == k,
    decreases p.len(),
{
    if k == p.len() - 1 {
    } else {
        assert(p.drop_last()[k] == '/');
        lemma_last_slash_found(p.drop_last(), k);
    }
}

proof fn lemma_last_slash_none(p: Seq<char>)
    requires
        forall|j: int| 0 <= j < p.len() ==> p[j] != '/',
    ensures
        last_slash(p) == -1,
    decreases p.len(),
{
    if p.len() > 0 {
        lemma_last_slash_none(p.drop_last());
    }
}

/// The directory containing the file at `path`, kept with its trailing
/// separator so that a relative specifier can be appended to it directly.
pub fn dir_of(path: &str) -> (r: String)
    ensures
        r@ == spec_dir_of(path@),
{
    let n = path.unicode_len();
    let mut i: usize = n;
    while i > 0
        invariant
            n == path@.len(),
            i <= n,
            forall|j: int| i <= j < n ==> path@[j] != '/',
        decreases i,
    {
        if path.get_char(i - 1) == '/' {
            proof {
                lemma_last_slash_found(path@, i - 1);
                assert(path@.subrange(0, i as int) =~= path@.take(i as int));
            }
            let d = path.substring_char(0, i);
            return d.to_owned();
        }
        i = i - 1;
    }
    proof {
        lemma_last_slash_none(path@);
        assert(path@.take(0) =~= Seq::<char>::empty());
    }
    String::new()
}

} // verus!
