//! Shape validation for a remote-origin address.
//!
//! An address is accepted exactly when the whole string has the shape
//! `git@github.com:<owner>/<repo>.git`, where owner and repo are non-empty
//! runs of ASCII alphanumerics and hyphens.  The character class is
//! deliberately exact: no punctuation besides the hyphen is admitted in the
//! names.  Anchoring is total: a string that merely contains such an
//! address, with anything prepended or appended, is rejected.

use vstd::prelude::*;

verus! {

/// Characters admitted in the owner and repository names: ASCII letters,
/// digits, and the hyphen.
pub open spec fn is_name_char(c: char) -> bool {
    ||| 'a' as int <= c as int && c as int <= 'z' as int
    ||| 'A' as int <= c as int && c as int <= 'Z' as int
    ||| '0' as int <= c as int && c as int <= '9' as int
    ||| c == '-'
}

/// A non-empty run of name characters.
pub open spec fn valid_name(s: Seq<char>) -> bool {
    s.len() > 0 && forall|i: int| 0 <= i < s.len() ==> is_name_char(#[trigger] s[i])
}

/// The fixed leading part of every accepted address.
pub open spec fn origin_prefix() -> Seq<char> {
    "git@github.com:"@
}

/// The fixed trailing part of every accepted address.
pub open spec fn origin_suffix() -> Seq<char> {
    ".git"@
}

/// `s` is exactly the address formed from the given owner and repository.
pub open spec fn is_origin_of(s: Seq<char>, owner: Seq<char>, repo: Seq<char>) -> bool {
    &&& valid_name(owner)
    &&& valid_name(repo)
    &&& s == origin_prefix() + owner + seq!['/'] + repo + origin_suffix()
}

/// The whole string is an accepted origin address for some owner and
/// repository name.
pub open spec fn is_valid_origin(s: Seq<char>) -> bool {
    exists|owner: Seq<char>, repo: Seq<char>| is_origin_of(s, owner, repo)
}

/// `k` marks the slash between owner and repository, and the string has the
/// accepted shape around it: the fixed prefix, a non-empty run of name
/// characters on either side of the slash, and the fixed suffix.
pub open spec fn shape_with_slash(s: Seq<char>, k: int) -> bool {
    &&& s.len() >= 22
    &&& 16 <= k <= s.len() - 6
    &&& s.subrange(0, 15) == origin_prefix()
    &&& s[k] == '/'
    &&& forall|i: int| 15 <= i < k ==> is_name_char(#[trigger] s[i])
    &&& forall|i: int| k < i < s.len() - 4 ==> is_name_char(#[trigger] s[i])
    &&& s.subrange(s.len() - 4, s.len() as int) == origin_suffix()
}

proof fn lemma_shape_implies_valid(s: Seq<char>, k: int)
    requires
        shape_with_slash(s, k),
    ensures
        is_valid_origin(s),
{
    reveal_strlit("git@github.com:");
    reveal_strlit(".git");
    let owner = s.subrange(15, k);
    let repo = s.subrange(k + 1, s.len() - 4);
    assert forall|i: int| 0 <= i < owner.len() implies is_name_char(#[trigger] owner[i]) by {
        assert(owner[i] == s[15 + i]);
    }
    assert forall|i: int| 0 <= i < repo.len() implies is_name_char(#[trigger] repo[i]) by {
        assert(repo[i] == s[k + 1 + i]);
    }
    assert(s =~= origin_prefix() + owner + seq!['/'] + repo + origin_suffix()) by {
        assert forall|i: int| 0 <= i < 15 implies s[i] == origin_prefix()[i] by {
            assert(s.subrange(0, 15)[i] == s[i]);
        }
        assert forall|i: int| s.len() - 4 <= i < s.len() implies (s[i]
            == origin_suffix()[i - (s.len() - 4)]) by {
            assert(s.subrange(s.len() - 4, s.len() as int)[i - (s.len() - 4)] == s[i]);
        }
    }
    assert(is_origin_of(s, owner, repo));
}

proof fn lemma_valid_implies_shape(s: Seq<char>)
    requires
        is_valid_origin(s),
    ensures
        exists|k: int| shape_with_slash(s, k),
{
    reveal_strlit("git@github.com:");
    reveal_strlit(".git");
    let (owner, repo) = choose|owner: Seq<char>, repo: Seq<char>| is_origin_of(s, owner, repo);
    let k = 15 + owner.len() as int;
    assert(origin_prefix().len() == 15);
    assert(origin_suffix().len() == 4);
    assert(s.len() == 20 + owner.len() + repo.len());
    assert(s.subrange(0, 15) =~= origin_prefix());
    assert(s[k] == '/');
    assert forall|i: int| 15 <= i < k implies is_name_char(#[trigger] s[i]) by {
        assert(s[i] == owner[i - 15]);
    }
    assert forall|i: int| k < i < s.len() - 4 implies is_name_char(#[trigger] s[i]) by {
        assert(s[i] == repo[i - k - 1]);
    }
    assert(s.subrange(s.len() - 4, s.len() as int) =~= origin_suffix());
    assert(shape_with_slash(s, k));
}

proof fn lemma_shape_char_positions(s: Seq<char>, k: int)
    requires
        shape_with_slash(s, k),
    ensures
        forall|i: int| 0 <= i < s.len() ==> ((#[trigger] s[i]) == ':' <==> i == 14),
        forall|i: int| 0 <= i < s.len() ==> ((#[trigger] s[i]) == '/' <==> i == k),
        forall|i: int| 0 <= i < s.len() ==> ((#[trigger] s[i]) == '.' <==> i == 10 || i == s.len()
            - 4),
{
    reveal_strlit("git@github.com:");
    reveal_strlit(".git");
    assert forall|i: int| 0 <= i < 15 implies s[i] == origin_prefix()[i] by {
        assert(s.subrange(0, 15)[i] == s[i]);
    }
    assert forall|i: int| s.len() - 4 <= i < s.len() implies (s[i] == origin_suffix()[i - (s.len()
        - 4)]) by {
        assert(s.subrange(s.len() - 4, s.len() as int)[i - (s.len() - 4)] == s[i]);
    }
}

/// Every string assembled as `git@github.com:` + owner + `/` + repo +
/// `.git`, with non-empty alphanumeric-or-hyphen owner and repository
/// names, is accepted by the validator's specification.
pub proof fn lemma_well_shaped_origin_accepted(owner: Seq<char>, repo: Seq<char>)
    requires
        valid_name(owner),
        valid_name(repo),
    ensures
        is_valid_origin(origin_prefix() + owner + seq!['/'] + repo + origin_suffix()),
{
    let s = origin_prefix() + owner + seq!['/'] + repo + origin_suffix();
    assert(is_origin_of(s, owner, repo));
}

/// Anchoring is total: surrounding an accepted origin address with any
/// prefix and suffix, at least one of them non-empty, yields a string the
/// specification rejects.
pub proof fn lemma_anchoring(s: Seq<char>, before: Seq<char>, after: Seq<char>)
    requires
        is_valid_origin(s),
        before.len() + after.len() > 0,
    ensures
        !is_valid_origin(before + s + after),
{
    lemma_valid_implies_shape(s);
    let k = choose|k: int| shape_with_slash(s, k);
    lemma_shape_char_positions(s, k);
    if is_valid_origin(before + s + after) {
        let t = before + s + after;
        lemma_valid_implies_shape(t);
        let k2 = choose|k2: int| shape_with_slash(t, k2);
        lemma_shape_char_positions(t, k2);
        let b = before.len() as int;
        if b > 0 {
            assert(t[b + 14] == s[14]);
        } else {
            assert(t[s.len() - 4] == s[s.len() - 4]);
        }
        assert(false);
    }
}

fn name_char(c: char) -> (r: bool)
    ensures
        r == is_name_char(c),
{
    let u = c as u32;
    (97 <= u && u <= 122) || (65 <= u && u <= 90) || (48 <= u && u <= 57) || u == 45
}

/// Decides whether the whole string is an accepted origin address of the
/// shape `git@github.com:<owner>/<repo>.git`.
pub fn is_github_origin(origin: &str) -> (r: bool)
    ensures
        r == is_valid_origin(origin@),
{
    proof {
        reveal_strlit("git@github.com:");
        reveal_strlit(".git");
    }
    let s_len = origin.unicode_len();
    if s_len < 22 {
        proof {
            if is_valid_origin(origin@) {
                lemma_valid_implies_shape(origin@);
            }
        }
        return false;
    }
    let p = "git@github.com:";
    let mut i: usize = 0;
    while i < 15
        invariant
            s_len == origin@.len(),
            22 <= s_len,
            i <= 15,
            p@ == origin_prefix(),
            origin_prefix().len() == 15,
            forall|q: int| 0 <= q < i ==> origin@[q] == origin_prefix()[q],
        decreases 15 - i,
    {
        if origin.get_char(i) != p.get_char(i) {
            proof {
                if is_valid_origin(origin@) {
                    lemma_valid_implies_shape(origin@);
                    let k = choose|k: int| shape_with_slash(origin@, k);
                    assert(origin@.subrange(0, 15)[i as int] == origin@[i as int]);
                }
            }
            return false;
        }
        i += 1;
    }
    let mut j: usize = 15;
    while j < s_len && name_char(origin.get_char(j))
        invariant
            s_len == origin@.len(),
            22 <= s_len,
            15 <= j <= s_len,
            forall|q: int| 0 <= q < 15 ==> origin@[q] == origin_prefix()[q],
            forall|q: int| 15 <= q < j ==> is_name_char(#[trigger] origin@[q]),
        decreases s_len - j,
    {
        j += 1;
    }
    proof {
        if is_valid_origin(origin@) {
            lemma_valid_implies_shape(origin@);
        }
    }
    if j == s_len {
        proof {
            if is_valid_origin(origin@) {
                let k = choose|k: int| shape_with_slash(origin@, k);
                assert(!is_name_char('/'));
            }
        }
        return false;
    }
    if origin.get_char(j) != '/' || j == 15 {
        proof {
            if is_valid_origin(origin@) {
                let k = choose|k: int| shape_with_slash(origin@, k);
                assert(!is_name_char('/'));
            }
        }
        return false;
    }
    let mut m: usize = j + 1;
    while m < s_len && name_char(origin.get_char(m))
        invariant
            s_len == origin@.len(),
            22 <= s_len,
            15 < j < s_len,
            origin@[j as int] == '/',
            j + 1 <= m <= s_len,
            forall|q: int| 0 <= q < 15 ==> origin@[q] == origin_prefix()[q],
            forall|q: int| 15 <= q < j ==> is_name_char(#[trigger] origin@[q]),
            !is_name_char(origin@[j as int]),
            forall|q: int| j < q < m ==> is_name_char(#[trigger] origin@[q]),
        decreases s_len - m,
    {
        m += 1;
    }
    proof {
        if is_valid_origin(origin@) {
            let k = choose|k: int| shape_with_slash(origin@, k);
            assert(!is_name_char('/'));
            assert(k == j);
            assert(origin@.subrange(s_len - 4, s_len as int)[0] == origin@[s_len - 4]);
            assert(origin@[s_len - 4] == '.');
            assert(!is_name_char('.'));
        }
    }
    if m != s_len - 4 || m == j + 1 {
        return false;
    }
    let c0 = origin.get_char(m);
    let c1 = origin.get_char(m + 1);
    let c2 = origin.get_char(m + 2);
    let c3 = origin.get_char(m + 3);
    if c0 != '.' || c1 != 'g' || c2 != 'i' || c3 != 't' {
        proof {
            if is_valid_origin(origin@) {
                let k = choose|k: int| shape_with_slash(origin@, k);
                assert forall|d: int| 0 <= d < 4 implies (origin@[s_len - 4 + d]
                    == origin_suffix()[d]) by {
                    assert(origin@.subrange(s_len - 4, s_len as int)[d] == origin@[s_len - 4 + d]);
                }
            }
        }
        return false;
    }
    proof {
        assert(origin@.subrange(0, 15) =~= origin_prefix());
        assert(origin@.subrange(s_len - 4, s_len as int) =~= origin_suffix());
        assert(shape_with_slash(origin@, j as int));
        lemma_shape_implies_valid(origin@, j as int);
    }
    true
}

} // verus!
