//! The context grammar: the resource path inside a slug. A context names a
//! user (`user`), a repository (`user/repo`) or a tag of a repository
//! (`user/repo:tag`).
//!
//! A user name is one or more ASCII letters and digits. A repository name
//! also allows `-`. A tag name is a semantic version (see [`crate::version`]).
//! Composite contexts split at the last `/` or `:` of the string, so either
//! separator is accepted on input; the canonical form uses `/` before the
//! repository name and `:` before the tag name.

use vstd::prelude::*;

use crate::version::{
    ident_char, is_alpha, is_digit, is_ident_char, is_semver, is_semver_char, lemma_semver_chars,
    semver_ok,
};

verus! {

/// Why a slug or context string was rejected.
#[derive(Debug, Clone, Copy, PartialEq, Eq, Structural)]
pub enum SlugParseError {
    /// A composite context had no `/` or `:` separator.
    MissingSeparator,
    /// The user-name segment was empty or held a character that is not an
    /// ASCII letter or digit.
    InvalidUserName,
    /// The repository-name segment was empty or held a character that is not
    /// an ASCII letter, digit or `-`.
    InvalidRepositoryName,
    /// The tag segment was not a semantic version.
    InvalidTagName,
}

/// ASCII letter or digit.
pub open spec fn is_alnum(c: char) -> bool {
    is_digit(c) || is_alpha(c)
}

/// A valid user name: non-empty, letters and digits only.
pub open spec fn user_name_ok(s: Seq<char>) -> bool {
    s.len() > 0 && forall|i: int| 0 <= i < s.len() ==> is_alnum(#[trigger] s[i])
}

/// A valid repository name: non-empty; letters, digits and `-` only.
pub open spec fn repo_name_ok(s: Seq<char>) -> bool {
    s.len() > 0 && forall|i: int| 0 <= i < s.len() ==> is_ident_char(#[trigger] s[i])
}

/// A context separator.
pub open spec fn is_sep(c: char) -> bool {
    c == '/' || c == ':'
}

/// Position of the last `/` or `:` in `s`, or `-1` if there is none.
pub open spec fn last_sep(s: Seq<char>) -> int
    decreases s.len(),
{
    if s.len() == 0 {
        -1
    } else if is_sep(s.last()) {
        s.len() - 1
    } else {
        last_sep(s.drop_last())
    }
}

/// `last_sep` finds the last separator, if any.
pub proof fn lemma_last_sep(s: Seq<char>)
    ensures
        -1 <= last_sep(s) < s.len(),
        last_sep(s) >= 0 ==> is_sep(s[last_sep(s)]),
        forall|k: int| last_sep(s) < k < s.len() ==> !is_sep(#[trigger] s[k]),
    decreases s.len(),
{
    if s.len() > 0 && !is_sep(s.last()) {
        lemma_last_sep(s.drop_last());
        assert(forall|k: int|
            0 <= k < s.len() - 1 ==> s.drop_last()[k] == #[trigger] s[k]);
    }
}

/// Exec mirror of [`is_alnum`].
fn alnum_char(c: char) -> (b: bool)
    ensures
        b == is_alnum(c),
{
    let u = c as u32;
    (48 <= u && u <= 57) || (65 <= u && u <= 90) || (97 <= u && u <= 122)
}

/// Exec mirror of [`user_name_ok`].
fn user_name_valid(s: &str) -> (b: bool)
    ensures
        b == user_name_ok(s@),
{
    let n = s.unicode_len();
    if n == 0 {
        return false;
    }
    let mut i: usize = 0;
    while i < n
        invariant
            i <= n,
            n == s@.len(),
            forall|k: int| 0 <= k < i ==> is_alnum(#[trigger] s@[k]),
        decreases n - i,
    {
        if !alnum_char(s.get_char(i)) {
            return false;
        }
        i = i + 1;
    }
    true
}

/// Exec mirror of [`repo_name_ok`].
fn repo_name_valid(s: &str) -> (b: bool)
    ensures
        b == repo_name_ok(s@),
{
    let n = s.unicode_len();
    if n == 0 {
        return false;
    }
    let mut i: usize = 0;
    while i < n
        invariant
            i <= n,
            n == s@.len(),
            forall|k: int| 0 <= k < i ==> is_ident_char(#[trigger] s@[k]),
        decreases n - i,
    {
        if !ident_char(s.get_char(i)) {
            return false;
        }
        i = i + 1;
    }
    true
}

/// Position of the last `/` or `:` in `s`, if any.
fn rfind_sep(s: &str, n: usize) -> (r: Option<usize>)
    requires
        n == s@.len(),
    ensures
        r matches Some(d) ==> last_sep(s@) == d,
        r is None ==> last_sep(s@) == -1,
{
    let mut i = n;
    loop
        invariant
            i <= n,
            n == s@.len(),
            forall|k: int| i <= k < n ==> !is_sep(#[trigger] s@[k]),
        decreases i,
    {
        if i == 0 {
            proof {
                lemma_last_sep(s@);
                if last_sep(s@) >= 0 {
                    assert(is_sep(s@[last_sep(s@)]));
                }
            }
            return None;
        }
        let c = s.get_char(i - 1);
        if c == '/' || c == ':' {
            proof {
                lemma_last_sep(s@);
                if last_sep(s@) > i - 1 {
                    assert(is_sep(s@[last_sep(s@)]));
                }
                assert(last_sep(s@) == i - 1);
            }
            return Some(i - 1);
        }
        i = i - 1;
    }
}

/// A user name.
#[derive(Debug, Clone)]
pub struct UserName {
    pub text: String,
}

/// A repository name.
#[derive(Debug, Clone)]
pub struct RepoName {
    pub text: String,
}

/// A tag name: a semantic version string.
#[derive(Debug, Clone)]
pub struct TagName {
    pub text: String,
}

/// The context of a user: its name.
#[derive(Debug, Clone)]
pub struct UserContext {
    pub name: UserName,
}

/// The context of a repository: its owner and its name.
#[derive(Debug, Clone)]
pub struct RepositoryContext {
    pub owner: UserContext,
    pub name: RepoName,
}

/// The context of a tag: its repository and its name.
#[derive(Debug, Clone)]
pub struct TagContext {
    pub repository: RepositoryContext,
    pub name: TagName,
}

/// A context type that the resource part of a slug can be parsed into.
pub trait SlugTarget: Sized {
    /// Does `s` parse as this kind of context?
    spec fn ok(s: Seq<char>) -> bool;

    /// Canonical text of the context parsed from a valid `s`.
    spec fn canon(s: Seq<char>) -> Seq<char>;

    /// The error reported for a string that does not parse.
    spec fn err_for(s: Seq<char>) -> SlugParseError;

    /// Validity of a context value.
    spec fn wf(&self) -> bool;

    /// Canonical text of a context value.
    spec fn text(&self) -> Seq<char>;

    /// Parse the resource part of a slug.
    fn from_name(s: &str) -> (r: Result<Self, SlugParseError>)
        ensures
            r matches Ok(v) ==> Self::ok(s@) && v.wf() && v.text() == Self::canon(s@),
            r matches Err(e) ==> !Self::ok(s@) && e == Self::err_for(s@),
            Self::ok(s@) ==> r is Ok;

    /// Format the context canonically.
    fn to_text(&self) -> (r: String)
        requires
            self.wf(),
        ensures
            r@ == self.text();

    /// The canonical text of a well-formed context parses back to the same
    /// context.
    proof fn lemma_text_round_trip(&self)
        requires
            self.wf(),
        ensures
            Self::ok(self.text()),
            Self::canon(self.text()) == self.text();
}

impl SlugTarget for UserContext {
    open spec fn ok(s: Seq<char>) -> bool {
        user_name_ok(s)
    }

    open spec fn canon(s: Seq<char>) -> Seq<char> {
        s
    }

    open spec fn err_for(s: Seq<char>) -> SlugParseError {
        SlugParseError::InvalidUserName
    }

    open spec fn wf(&self) -> bool {
        user_name_ok(self.name.text@)
    }

    open spec fn text(&self) -> Seq<char> {
        self.name.text@
    }

    fn from_name(s: &str) -> (r: Result<Self, SlugParseError>) {
        if user_name_valid(s) {
            Ok(UserContext { name: UserName { text: s.to_owned() } })
        } else {
            Err(SlugParseError::InvalidUserName)
        }
    }

    fn to_text(&self) -> (r: String) {
        self.name.text.clone()
    }

    proof fn lemma_text_round_trip(&self) {
    }
}

impl SlugTarget for RepositoryContext {
    open spec fn ok(s: Seq<char>) -> bool {
        let d = last_sep(s);
        &&& d >= 0
        &&& user_name_ok(s.subrange(0, d))
        &&& repo_name_ok(s.subrange(d + 1, s.len() as int))
    }

    open spec fn canon(s: Seq<char>) -> Seq<char> {
        let d = last_sep(s);
        s.subrange(0, d) + seq!['/'] + s.subrange(d + 1, s.len() as int)
    }

    open spec fn err_for(s: Seq<char>) -> SlugParseError {
        let d = last_sep(s);
        if d < 0 {
            SlugParseError::MissingSeparator
        } else if !user_name_ok(s.subrange(0, d)) {
            SlugParseError::InvalidUserName
        } else {
            SlugParseError::InvalidRepositoryName
        }
    }

    open spec fn wf(&self) -> bool {
        self.owner.wf() && repo_name_ok(self.name.text@)
    }

    open spec fn text(&self) -> Seq<char> {
        self.owner.text() + seq!['/'] + self.name.text@
    }

    fn from_name(s: &str) -> (r: Result<Self, SlugParseError>) {
        let n = s.unicode_len();
        proof {
            lemma_last_sep(s@);
        }
        match rfind_sep(s, n) {
            None => Err(SlugParseError::MissingSeparator),
            Some(d) => {
                let owner_s = s.substring_char(0, d);
                let name_s = s.substring_char(d + 1, n);
                match UserContext::from_name(owner_s) {
                    Err(e) => Err(e),
                    Ok(owner) => {
                        if repo_name_valid(name_s) {
                            Ok(RepositoryContext { owner, name: RepoName { text: name_s.to_owned() } })
                        } else {
                            Err(SlugParseError::InvalidRepositoryName)
                        }
                    },
                }
            },
        }
    }

    fn to_text(&self) -> (r: String) {
        proof {
            reveal_strlit("/");
            assert("/"@ =~= seq!['/']);
        }
        let mut out = self.owner.to_text();
        out.append("/");
        out.append(self.name.text.as_str());
        assert(out@ =~= self.text());
        out
    }

    proof fn lemma_text_round_trip(&self) {
        let t = self.text();
        let ot = self.owner.text();
        let nt = self.name.text@;
        lemma_last_sep(t);
        assert(t[ot.len() as int] == '/');
        assert forall|k: int| ot.len() < k < t.len() implies !is_sep(#[trigger] t[k]) by {
            assert(t[k] == nt[k - ot.len() - 1]);
            assert(is_ident_char(nt[k - ot.len() - 1]));
        }
        assert(last_sep(t) == ot.len()) by {
            if last_sep(t) < ot.len() {
                assert(!is_sep(t[ot.len() as int]));
            }
            if last_sep(t) > ot.len() {
                assert(is_sep(t[last_sep(t)]));
            }
        }
        assert(t.subrange(0, ot.len() as int) =~= ot);
        assert(t.subrange(ot.len() + 1 as int, t.len() as int) =~= nt);
        assert(Self::canon(t) =~= t);
    }
}

impl SlugTarget for TagContext {
    open spec fn ok(s: Seq<char>) -> bool {
        let d = last_sep(s);
        &&& d >= 0
        &&& RepositoryContext::ok(s.subrange(0, d))
        &&& semver_ok(s.subrange(d + 1, s.len() as int))
    }

    open spec fn canon(s: Seq<char>) -> Seq<char> {
        let d = last_sep(s);
        RepositoryContext::canon(s.subrange(0, d)) + seq![':'] + s.subrange(d + 1, s.len() as int)
    }

    open spec fn err_for(s: Seq<char>) -> SlugParseError {
        let d = last_sep(s);
        if d < 0 {
            SlugParseError::MissingSeparator
        } else if !RepositoryContext::ok(s.subrange(0, d)) {
            RepositoryContext::err_for(s.subrange(0, d))
        } else {
            SlugParseError::InvalidTagName
        }
    }

    open spec fn wf(&self) -> bool {
        self.repository.wf() && semver_ok(self.name.text@)
    }

    open spec fn text(&self) -> Seq<char> {
        self.repository.text() + seq![':'] + self.name.text@
    }

    fn from_name(s: &str) -> (r: Result<Self, SlugParseError>) {
        let n = s.unicode_len();
        proof {
            lemma_last_sep(s@);
        }
        match rfind_sep(s, n) {
            None => Err(SlugParseError::MissingSeparator),
            Some(d) => {
                let repo_s = s.substring_char(0, d);
                let name_s = s.substring_char(d + 1, n);
                match RepositoryContext::from_name(repo_s) {
                    Err(e) => Err(e),
                    Ok(repository) => {
                        if is_semver(name_s) {
                            Ok(TagContext { repository, name: TagName { text: name_s.to_owned() } })
                        } else {
                            Err(SlugParseError::InvalidTagName)
                        }
                    },
                }
            },
        }
    }

    fn to_text(&self) -> (r: String) {
        proof {
            reveal_strlit(":");
            assert(":"@ =~= seq![':']);
        }
        let mut out = self.repository.to_text();
        out.append(":");
        out.append(self.name.text.as_str());
        assert(out@ =~= self.text());
        out
    }

    proof fn lemma_text_round_trip(&self) {
        let t = self.text();
        let rt = self.repository.text();
        let vt = self.name.text@;
        lemma_last_sep(t);
        lemma_semver_chars(vt);
        assert(t[rt.len() as int] == ':');
        assert forall|k: int| rt.len() < k < t.len() implies !is_sep(#[trigger] t[k]) by {
            assert(t[k] == vt[k - rt.len() - 1]);
            assert(is_semver_char(vt[k - rt.len() - 1]));
        }
        assert(last_sep(t) == rt.len()) by {
            if last_sep(t) < rt.len() {
                assert(!is_sep(t[rt.len() as int]));
            }
            if last_sep(t) > rt.len() {
                assert(is_sep(t[last_sep(t)]));
            }
        }
        assert(t.subrange(0, rt.len() as int) =~= rt);
        assert(t.subrange(rt.len() + 1 as int, t.len() as int) =~= vt);
        self.repository.lemma_text_round_trip();
        assert(Self::canon(t) =~= t);
    }
}

} // verus!
