//! Telling the `owner/repo[#commit-ish]` shorthand apart from a URL.

use crate::text::{
    chars_of, find_first, find_from, find_whitespace, first_from, first_whitespace, is_whitespace,
    lemma_first, lemma_first_from, lemma_first_is, lemma_first_whitespace, position,
};
use vstd::prelude::*;

verus! {

/// A remote specifier together with the options that govern how it is read.
pub struct FromUrl {
    pub url: String,
    pub no_commitish: bool,
    pub no_git_plus: bool,
}

/// Whether a delimiter was found, at `pos`, before the first `#` of `s`.
/// Without a `#` the whole of `s` counts.
pub open spec fn before_hash(s: Seq<char>, pos: Option<int>) -> bool {
    match pos {
        None => false,
        Some(p) => match s.index_of_first('#') {
            None => true,
            Some(h) => p < h,
        },
    }
}

/// Position of the second `/` of `s`, searched after the first.
pub open spec fn second_slash(s: Seq<char>) -> Option<int> {
    match s.index_of_first('/') {
        Some(f) => first_from(s, '/', f + 1),
        None => None,
    }
}

/// A relative filesystem path: `s` starts with a dot.
pub open spec fn starts_with_dot(s: Seq<char>) -> bool {
    s.len() > 0 && s[0] == '.'
}

/// An `@` before the commit-ish marks SCP-like authentication.
pub open spec fn at_before_hash(s: Seq<char>) -> bool {
    before_hash(s, s.index_of_first('@'))
}

/// A `:` before the commit-ish marks a scheme or a port.
pub open spec fn colon_before_hash(s: Seq<char>) -> bool {
    before_hash(s, s.index_of_first(':'))
}

/// A second `/` before the commit-ish: more than `owner/repo`.
pub open spec fn second_slash_before_hash(s: Seq<char>) -> bool {
    before_hash(s, second_slash(s))
}

/// Whitespace before the commit-ish.
pub open spec fn whitespace_before_hash(s: Seq<char>) -> bool {
    before_hash(s, first_whitespace(s))
}

/// No owner segment: no `/` before the commit-ish, or a `/` in front.
pub open spec fn lacks_owner(s: Seq<char>) -> bool {
    match s.index_of_first('/') {
        None => true,
        Some(p) => p == 0 || !before_hash(s, Some(p)),
    }
}

/// No repo segment: a `/` stands right before the `#`, or at the end of a
/// string without `#`.
pub open spec fn lacks_repo(s: Seq<char>) -> bool {
    match s.index_of_first('#') {
        None => s.len() > 0 && s.last() == '/',
        Some(h) => h > 0 && s[h - 1] == '/',
    }
}

/// The rules that deny a specifier the reading as shorthand.
#[derive(Debug, Clone, Copy, PartialEq, Eq, Structural)]
pub enum Rejection {
    LeadingDot,
    At,
    Colon,
    SecondSlash,
    Whitespace,
    NoOwner,
    NoRepo,
}

/// The first rule, in their order, that applies to `s`.
pub open spec fn rejection(s: Seq<char>) -> Option<Rejection> {
    if starts_with_dot(s) {
        Some(Rejection::LeadingDot)
    } else if at_before_hash(s) {
        Some(Rejection::At)
    } else if colon_before_hash(s) {
        Some(Rejection::Colon)
    } else if second_slash_before_hash(s) {
        Some(Rejection::SecondSlash)
    } else if whitespace_before_hash(s) {
        Some(Rejection::Whitespace)
    } else if lacks_owner(s) {
        Some(Rejection::NoOwner)
    } else if lacks_repo(s) {
        Some(Rejection::NoRepo)
    } else {
        None
    }
}

/// `s` is `owner/repo`, optionally followed by `#` and a commit-ish: none of the
/// rejection rules applies.
pub open spec fn shorthand(s: Seq<char>) -> bool {
    &&& !starts_with_dot(s)
    &&& !at_before_hash(s)
    &&& !colon_before_hash(s)
    &&& !second_slash_before_hash(s)
    &&& !whitespace_before_hash(s)
    &&& !lacks_owner(s)
    &&& !lacks_repo(s)
}

/// The part of `s` in front of its first `#`; all of `s` where it has none.
pub open spec fn before_fragment(s: Seq<char>) -> Seq<char> {
    match s.index_of_first('#') {
        Some(h) => s.take(h),
        None => s,
    }
}

/// `s` reads `owner/repo`: exactly one `/`, with something on either side, and no
/// `@`, `:`, `#` or whitespace anywhere, nor a dot in front.
pub open spec fn owner_and_repo(s: Seq<char>) -> bool {
    exists|k: int|
        {
            &&& 0 < k < s.len() - 1
            &&& s[0] != '.'
            &&& #[trigger] s[k] == '/'
            &&& forall|j: int|
                0 <= j < s.len() ==> {
                    &&& j != k ==> s[j] != '/'
                    &&& s[j] != '@'
                    &&& s[j] != ':'
                    &&& s[j] != '#'
                    &&& !is_whitespace(s[j])
                }
        }
}

/// A specifier that starts with a dot is never shorthand.
pub proof fn lemma_leading_dot_is_not_shorthand(s: Seq<char>)
    requires
        s.len() > 0,
        s[0] == '.',
    ensures
        !shorthand(s),
{
}

/// Shorthand is exactly a specifier whose part in front of the commit-ish reads
/// `owner/repo`.
pub proof fn lemma_shorthand_reads_owner_and_repo(s: Seq<char>)
    ensures
        shorthand(s) <==> owner_and_repo(before_fragment(s)),
{
    let head = before_fragment(s);
    lemma_first(s, '#');
    lemma_first(s, '@');
    lemma_first(s, ':');
    lemma_first(s, '/');
    lemma_first_whitespace(s);
    let end = head.len() as int;
    assert(forall|j: int| 0 <= j < end ==> head[j] == s[j]);
    if let Some(f) = s.index_of_first('/') {
        lemma_first_from(s, '/', f + 1);
    }
    if shorthand(s) {
        let f = s.index_of_first('/')->0;
        assert(0 < f < end - 1);
        assert(head[f] == '/');
        assert forall|j: int| 0 <= j < end implies ({
            &&& j != f ==> head[j] != '/'
            &&& head[j] != '@'
            &&& head[j] != ':'
            &&& head[j] != '#'
            &&& !is_whitespace(head[j])
        }) by {
        }
        assert(owner_and_repo(head));
    }
    if owner_and_repo(head) {
        let k = choose|k: int|
            {
                &&& 0 < k < head.len() - 1
                &&& head[0] != '.'
                &&& #[trigger] head[k] == '/'
                &&& forall|j: int|
                    0 <= j < head.len() ==> {
                        &&& j != k ==> head[j] != '/'
                        &&& head[j] != '@'
                        &&& head[j] != ':'
                        &&& head[j] != '#'
                        &&& !is_whitespace(head[j])
                    }
            };
        assert(s[k] == '/');
        assert(s.index_of_first('/') == Some(k)) by {
            assert(forall|j: int| 0 <= j < k ==> head[j] != '/');
            lemma_first_is(s, '/', k);
        }
        assert(shorthand(s));
    }
}

/// What follows the first `#` never bears on the classification.
pub proof fn lemma_fragment_is_ignored(s: Seq<char>)
    ensures
        shorthand(s) == shorthand(before_fragment(s)),
{
    let head = before_fragment(s);
    lemma_first(s, '#');
    assert(head.index_of_first('#') is None) by {
        lemma_first(head, '#');
        if let Some(i) = head.index_of_first('#') {
            assert(head[i] == s[i]);
        }
    }
    assert(before_fragment(head) == head);
    lemma_shorthand_reads_owner_and_repo(s);
    lemma_shorthand_reads_owner_and_repo(head);
}

fn found_before(pos: Option<usize>, hash: Option<usize>, Ghost(s): Ghost<Seq<char>>) -> (r: bool)
    requires
        position(hash) == s.index_of_first('#'),
    ensures
        r == before_hash(s, position(pos)),
{
    match pos {
        None => false,
        Some(p) => match hash {
            None => true,
            Some(h) => p < h,
        },
    }
}

/// Finds the first rule, in their order, that keeps `url` from being read as
/// `owner/repo[#commit-ish]`.
pub fn shorthand_rejection(url: &str) -> (r: Option<Rejection>)
    ensures
        r == rejection(url@),
{
    let chars = chars_of(url);
    let ghost s = chars@;
    let at_idx = find_first(&chars, '@');
    let hash_idx = find_first(&chars, '#');
    let colon_idx = find_first(&chars, ':');
    let first_slash_idx = find_first(&chars, '/');
    let second_slash_idx = match first_slash_idx {
        Some(f) => find_from(&chars, '/', f + 1),
        None => None,
    };
    let space_idx = find_whitespace(&chars);

    if chars.len() > 0 && chars[0] == '.' {
        return Some(Rejection::LeadingDot);
    }
    if found_before(at_idx, hash_idx, Ghost(s)) {
        return Some(Rejection::At);
    }
    if found_before(colon_idx, hash_idx, Ghost(s)) {
        return Some(Rejection::Colon);
    }
    if found_before(second_slash_idx, hash_idx, Ghost(s)) {
        return Some(Rejection::SecondSlash);
    }
    if found_before(space_idx, hash_idx, Ghost(s)) {
        return Some(Rejection::Whitespace);
    }
    let has_owner = match first_slash_idx {
        None => false,
        Some(p) => p > 0 && found_before(first_slash_idx, hash_idx, Ghost(s)),
    };
    if !has_owner {
        return Some(Rejection::NoOwner);
    }
    let has_repo = match hash_idx {
        None => !(chars.len() > 0 && chars[chars.len() - 1] == '/'),
        Some(h) => !(h > 0 && chars[h - 1] == '/'),
    };
    if !has_repo {
        return Some(Rejection::NoRepo);
    }
    None
}

/// Decides whether `url` is to be read as `owner/repo[#commit-ish]` rather than
/// as a URL: whether no rule rejects it.
pub fn is_github_shorthand(url: &str) -> (r: bool)
    ensures
        r == shorthand(url@),
        starts_with_dot(url@) ==> !r,
{
    shorthand_rejection(url).is_none()
}

} // verus!
