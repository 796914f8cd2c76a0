//! Small string and path helpers used throughout the core: appending a
//! character, POSIX-style path joining, and the parent directory of a path.

use vstd::prelude::*;

verus! {

/// Relies on std's String::push: appends exactly one character.
#[verifier::external_body]
pub fn string_push(s: &mut String, c: char)
    ensures
        final(s)@ == old(s)@.push(c),
{
    s.push(c);
}

/// A path is absolute when it starts with a separator.
pub open spec fn spec_is_absolute(p: Seq<char>) -> bool {
    p.len() > 0 && p[0] == '/'
}

/// Joining a working directory with a relative path; an absolute path stands
/// on its own.
pub open spec fn spec_join_path(cwd: Seq<char>, rel: Seq<char>) -> Seq<char> {
    if spec_is_absolute(rel) {
        rel
    } else {
        cwd + seq!['/'] + rel
    }
}

pub fn join_path(cwd: &str, rel: &str) -> (r: String)
    ensures
        r@ == spec_join_path(cwd@, rel@),
{
    if rel.unicode_len() > 0 && rel.get_char(0) == '/' {
        String::from_str(rel)
    } else {
        let mut r = String::from_str(cwd);
        r.append("/");
        r.append(rel);
        proof {
            reveal_strlit("/");
            assert(r@ =~= cwd@ + seq!['/'] + rel@);
        }
        r
    }
}

/// The index of the last separator in `p`, or -1 when there is none.
pub open spec fn spec_last_slash(p: Seq<char>) -> int
    decreases p.len(),
{
    if p.len() == 0 {
        -1
    } else if p[p.len() - 1] == '/' {
        p.len() - 1
    } else {
        spec_last_slash(p.drop_last())
    }
}

proof fn lemma_last_slash(p: Seq<char>)
    ensures
        -1 <= spec_last_slash(p) < p.len(),
        spec_last_slash(p) >= 0 ==> p[spec_last_slash(p)] == '/',
        forall|j: int| spec_last_slash(p) < j < p.len() ==> p[j] != '/',
        spec_last_slash(p) == -1 ==> forall|j: int| 0 <= j < p.len() ==> p[j] != '/',
    decreases p.len(),
{
    if p.len() > 0 && p[p.len() - 1] != '/' {
        lemma_last_slash(p.drop_last());
        assert(forall|j: int| 0 <= j < p.len() - 1 ==> (#[trigger] p[j]) == p.drop_last()[j]);
    }
}

/// The directory part of a path: what stands before the last separator, the
/// empty path when there is no separator, and nothing at all for the bare
/// root or the empty path.
pub open spec fn spec_parent_dir(p: Seq<char>) -> Option<Seq<char>> {
    if p.len() == 0 {
        Option::None
    } else if spec_last_slash(p) == -1 {
        Option::Some(Seq::empty())
    } else if spec_last_slash(p) == 0 {
        if p.len() == 1 {
            Option::None
        } else {
            Option::Some(seq!['/'])
        }
    } else {
        Option::Some(p.take(spec_last_slash(p)))
    }
}

/// The directory a path's file lives in, where the path has one.
pub fn parent_dir(p: &str) -> (r: Option<String>)
    ensures
        match r {
            Option::Some(d) => spec_parent_dir(p@) == Option::Some(d@),
            Option::None => spec_parent_dir(p@) == Option::<Seq<char>>::None,
        },
{
    proof {
        lemma_last_slash(p@);
    }
    let n = p.unicode_len();
    if n == 0 {
        return Option::None;
    }
    let mut i = n;
    while i > 0
        invariant
            n == p@.len(),
            i <= n,
            forall|j: int| i <= j < n ==> p@[j] != '/',
        decreases i,
    {
        if p.get_char(i - 1) == '/' {
            proof {
                lemma_last_slash(p@);
                assert(spec_last_slash(p@) == i - 1);
            }
            if i - 1 == 0 {
                if n == 1 {
                    return Option::None;
                }
                proof {
                    reveal_strlit("/");
                }
                return Option::Some(String::from_str("/"));
            }
            let d = p.substring_char(0, i - 1);
            proof {
                assert(d@ =~= p@.take(i - 1));
            }
            return Option::Some(String::from_str(d));
        }
        i -= 1;
    }
    proof {
        lemma_last_slash(p@);
        assert(spec_last_slash(p@) == -1);
    }
    Option::Some(String::new())
}

} // verus!
