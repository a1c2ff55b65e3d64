//! Reading single variables of the environment, and what git prints of the
//! checkout.

use crate::env_ci::environment::Environment;
use crate::text::{chars_of, same_text, text_of, trim, trimmed};
use vstd::prelude::*;
use vstd::string::{StrSliceExecFns, StringExecFns};

verus! {

/// The value of `variable` in `env`, where it is set and not empty.
pub open spec fn var(env: Map<Seq<char>, Seq<char>>, variable: Seq<char>) -> Option<Seq<char>> {
    if env.contains_key(variable) && env[variable].len() > 0 {
        Some(env[variable])
    } else {
        None
    }
}

/// Whether `variable` is set to something other than the empty string.
pub fn env_var_exists(env: &Environment, variable: &str) -> (r: bool)
    ensures
        r == var(env@, variable@) is Some,
{
    match env.get(variable) {
        Some(v) => !v.as_str().is_empty(),
        None => false,
    }
}

/// The value of `variable`, unless it is unset or empty.
pub fn get_env_var(env: &Environment, variable: &str) -> (r: Option<String>)
    ensures
        text_of(r) == var(env@, variable@),
{
    match env.get(variable) {
        Some(v) => if v.as_str().is_empty() {
            None
        } else {
            Some(v.clone())
        },
        None => None,
    }
}

/// A text that may be absent, as a character sequence.
pub open spec fn output_of(output: Option<&str>) -> Option<Seq<char>> {
    match output {
        Some(o) => Some(o@),
        None => None,
    }
}

/// The commit that `git rev-parse HEAD` names in its output `output`: the
/// output without the whitespace around it; nothing where git gave no output.
pub fn get_commit(output: Option<&str>) -> (r: Option<String>)
    ensures
        text_of(r) == match output_of(output) {
            Some(o) => Some(trimmed(o)),
            None => None,
        },
{
    match output {
        Some(o) => Some(trim(o)),
        None => None,
    }
}

/// What `git rev-parse --abbrev-ref HEAD` settles of the branch.
#[derive(Debug)]
pub enum HeadBranch {
    /// The branch is known, or known to be unknown.
    Settled(Option<String>),
    /// The checkout is detached: the branch is to be read from the names that
    /// `git show -s --pretty=%d HEAD` prints for the commit.
    Detached,
}

/// A `HeadBranch` with its text as a character sequence.
pub enum HeadBranchView {
    Settled(Option<Seq<char>>),
    Detached,
}

impl View for HeadBranch {
    type V = HeadBranchView;

    open spec fn view(&self) -> HeadBranchView {
        match self {
            HeadBranch::Settled(branch) => HeadBranchView::Settled(text_of(*branch)),
            HeadBranch::Detached => HeadBranchView::Detached,
        }
    }
}

/// What the output `output` of `git rev-parse --abbrev-ref HEAD` settles.
pub open spec fn head_branch(output: Option<Seq<char>>) -> HeadBranchView {
    match output {
        None => HeadBranchView::Settled(None),
        Some(o) => if trimmed(o) == "HEAD"@ {
            HeadBranchView::Detached
        } else {
            HeadBranchView::Settled(Some(trimmed(o)))
        },
    }
}

/// Reads the branch from the output of `git rev-parse --abbrev-ref HEAD`: the
/// output without the whitespace around it, unless that is `HEAD`, the sign of
/// a detached checkout. Without output the branch is unknown.
pub fn get_branch(output: Option<&str>) -> (r: HeadBranch)
    ensures
        r@ == head_branch(output_of(output)),
{
    match output {
        None => HeadBranch::Settled(None),
        Some(o) => {
            let head_ref = trim(o);
            if same_text(head_ref.as_str(), "HEAD") {
                HeadBranch::Detached
            } else {
                HeadBranch::Settled(Some(head_ref))
            }
        },
    }
}

/// Whether `c` is a round bracket.
pub open spec fn is_bracket(c: char) -> bool {
    c == '(' || c == ')'
}

/// `s` without its round brackets.
pub open spec fn without_brackets(s: Seq<char>) -> Seq<char> {
    s.filter(|c: char| !is_bracket(c))
}

/// Whether a comma and a space, the separator of names, start at `i`.
pub open spec fn separator_at(s: Seq<char>, i: int) -> bool {
    0 <= i && i + 1 < s.len() && s[i] == ',' && s[i + 1] == ' '
}

/// Position of the first separator of `s` at or after `from`; the length of `s`
/// where there is none.
pub open spec fn next_separator(s: Seq<char>, from: int) -> int
    decreases s.len() - from,
{
    if from >= s.len() {
        s.len() as int
    } else if separator_at(s, from) {
        from
    } else {
        next_separator(s, from + 1)
    }
}

/// The names that the separators of `s` part, from `from` on.
pub open spec fn names_from(s: Seq<char>, from: int) -> Seq<Seq<char>>
    decreases s.len() - from,
{
    if 0 <= from <= s.len() {
        let end = next_separator(s, from);
        if from <= end && end + 2 <= s.len() {
            seq![s.subrange(from, end)] + names_from(s, end + 2)
        } else {
            seq![s.subrange(from, s.len() as int)]
        }
    } else {
        Seq::empty()
    }
}

/// The branch that the first of `names` on the remote `origin` names: what
/// follows `origin/` in it.
pub open spec fn origin_branch(names: Seq<Seq<char>>) -> Option<Seq<char>>
    decreases names.len(),
{
    if names.len() == 0 {
        None
    } else if "origin/"@.is_prefix_of(names[0]) {
        Some(names[0].skip("origin/"@.len() as int))
    } else {
        origin_branch(names.drop_first())
    }
}

/// The branch that the output `output` of `git show -s --pretty=%d HEAD`
/// gives: the brackets are dropped, and what is left is a list of names.
pub open spec fn decorated_branch(output: Option<Seq<char>>) -> Option<Seq<char>> {
    match output {
        Some(o) => origin_branch(names_from(without_brackets(o), 0)),
        None => None,
    }
}

/// `next_separator` gives a position from `from` up to the length, a separator
/// where it is below the length, with no separator between `from` and it.
pub proof fn lemma_next_separator(s: Seq<char>, from: int)
    requires
        0 <= from <= s.len(),
    ensures
        from <= next_separator(s, from) <= s.len(),
        next_separator(s, from) < s.len() ==> separator_at(s, next_separator(s, from)),
        forall|j: int| from <= j < next_separator(s, from) ==> !separator_at(s, j),
    decreases s.len() - from,
{
    if from < s.len() && !separator_at(s, from) {
        lemma_next_separator(s, from + 1);
    }
}

/// Dropping the brackets goes character by character.
pub proof fn lemma_without_brackets_step(s: Seq<char>, i: int)
    requires
        0 <= i < s.len(),
    ensures
        without_brackets(s.take(i + 1)) == if is_bracket(s[i]) {
            without_brackets(s.take(i))
        } else {
            without_brackets(s.take(i)).push(s[i])
        },
{
    reveal(Seq::filter);
    assert(s.take(i + 1).drop_last() =~= s.take(i));
    assert(s.take(i + 1).last() == s[i]);
}

fn strip_brackets(s: &str) -> (r: String)
    ensures
        r@ == without_brackets(s@),
{
    let chars = chars_of(s);
    let len: usize = chars.len();
    let mut out = String::new();
    let mut start: usize = 0;
    let mut i: usize = 0;
    proof {
        reveal(Seq::filter);
        assert(s@.take(0) =~= Seq::empty());
        assert(out@ + s@.subrange(0, 0) =~= Seq::empty());
    }
    while i < len
        invariant
            start <= i <= len,
            len == chars.len(),
            chars@ == s@,
            out@ + s@.subrange(start as int, i as int) == without_brackets(s@.take(i as int)),
        decreases len - i,
    {
        proof {
            lemma_without_brackets_step(s@, i as int);
        }
        if chars[i] == '(' || chars[i] == ')' {
            out.append(s.substring_char(start, i));
            start = i + 1;
            assert(s@.subrange(start as int, start as int) =~= Seq::empty());
            assert(out@ + Seq::<char>::empty() =~= out@);
        } else {
            assert(s@.subrange(start as int, i + 1) =~= s@.subrange(start as int, i as int).push(
                s@[i as int],
            ));
            assert(out@ + s@.subrange(start as int, i + 1) =~= (out@ + s@.subrange(
                start as int,
                i as int,
            )).push(s@[i as int]));
        }
        i += 1;
    }
    assert(s@.take(len as int) =~= s@);
    out.append(s.substring_char(start, len));
    out
}

fn find_separator(chars: &Vec<char>, from: usize) -> (end: usize)
    requires
        from <= chars.len(),
    ensures
        end == next_separator(chars@, from as int),
        from <= end <= chars.len(),
{
    let len: usize = chars.len();
    let mut i: usize = from;
    while i < len
        invariant
            from <= i <= len,
            len == chars.len(),
            next_separator(chars@, from as int) == next_separator(chars@, i as int),
        decreases len - i,
    {
        if chars[i] == ',' && len - i > 1 && chars[i + 1] == ' ' {
            return i;
        }
        i += 1;
    }
    i
}

fn has_prefix(chars: &Vec<char>, from: usize, end: usize, prefix: &Vec<char>) -> (r: bool)
    requires
        from <= end <= chars.len(),
    ensures
        r == prefix@.is_prefix_of(chars@.subrange(from as int, end as int)),
{
    if prefix.len() > end - from {
        return false;
    }
    let ghost piece = chars@.subrange(from as int, end as int);
    let mut k: usize = 0;
    while k < prefix.len()
        invariant
            k <= prefix.len() <= end - from,
            from <= end <= chars.len(),
            piece == chars@.subrange(from as int, end as int),
            forall|j: int| 0 <= j < k ==> prefix@[j] == piece[j],
        decreases prefix.len() - k,
    {
        if prefix[k] != chars[from + k] {
            assert(piece[k as int] == chars@[from + k]);
            assert(piece.subrange(0, prefix@.len() as int)[k as int] != prefix@[k as int]);
            return false;
        }
        assert(piece[k as int] == chars@[from + k]);
        k += 1;
    }
    assert(prefix@ =~= piece.subrange(0, prefix@.len() as int));
    true
}

/// Reads the branch from the output of `git show -s --pretty=%d HEAD`, the
/// names that point to the commit: the first name on the remote `origin`,
/// without `origin/`. Without output, or without such a name, the branch is
/// unknown.
pub fn branch_from_decorations(output: Option<&str>) -> (r: Option<String>)
    ensures
        text_of(r) == decorated_branch(output_of(output)),
{
    let names = match output {
        Some(o) => strip_brackets(o),
        None => {
            return None;
        },
    };
    let chars = chars_of(names.as_str());
    let prefix = chars_of("origin/");
    let len: usize = chars.len();
    let mut from: usize = 0;
    loop
        invariant
            from <= len,
            len == chars.len(),
            chars@ == names@,
            prefix@ == "origin/"@,
            decorated_branch(output_of(output)) == origin_branch(names_from(chars@, from as int)),
        decreases len - from,
    {
        let end = find_separator(&chars, from);
        proof {
            lemma_next_separator(chars@, from as int);
            let rest = names_from(chars@, from as int);
            assert(rest[0] == chars@.subrange(from as int, end as int));
            if end < len {
                assert(rest.drop_first() =~= names_from(chars@, end + 2));
            } else {
                assert(rest.drop_first() =~= Seq::empty());
                assert(origin_branch(rest.drop_first()) is None);
            }
        }
        if has_prefix(&chars, from, end, &prefix) {
            let branch = names.as_str().substring_char(from + prefix.len(), end);
            assert(branch@ =~= chars@.subrange(from as int, end as int).skip(prefix@.len() as int));
            return Some(branch.to_owned());
        }
        if end >= len {
            return None;
        }
        from = end + 2;
    }
}

} // verus!
