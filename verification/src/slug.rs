//! The slug grammar: `[host+]context`. The part before the first `+` names
//! the registry host; when there is no `+` a fixed placeholder host is used
//! (a CLI ergonomics default, not a registry concept). The rest is parsed
//! with the grammar of the wanted context type.

use vstd::prelude::*;

use crate::context::{RepositoryContext, SlugParseError, SlugTarget, TagContext, UserContext};
use crate::version::{lemma_seek, scan_to, seek};

verus! {

/// The host assumed when a slug does not name one.
pub open spec fn default_host() -> Seq<char> {
    "example.com"@
}

/// Exec mirror of [`default_host`].
pub fn default_host_str() -> (r: &'static str)
    ensures
        r@ == default_host(),
{
    "example.com"
}

/// Does the slug name a host of its own?
pub open spec fn slug_has_host(s: Seq<char>) -> bool {
    seek(s, 0, '+') < s.len()
}

/// The host part of a slug.
pub open spec fn slug_host(s: Seq<char>) -> Seq<char> {
    if slug_has_host(s) {
        s.subrange(0, seek(s, 0, '+'))
    } else {
        default_host()
    }
}

/// The resource part of a slug.
pub open spec fn slug_name(s: Seq<char>) -> Seq<char> {
    if slug_has_host(s) {
        s.subrange(seek(s, 0, '+') + 1, s.len() as int)
    } else {
        s
    }
}

/// Split a slug on its first `+` and parse the resource part with the
/// grammar of the wanted context type. Parsing is pure string processing: no
/// network access occurs.
pub fn parse_slug<T: SlugTarget>(s: &str) -> (r: Result<(String, T), SlugParseError>)
    ensures
        r matches Ok((h, v)) ==> h@ == slug_host(s@) && T::ok(slug_name(s@)) && v.wf()
            && v.text() == T::canon(slug_name(s@)),
        r matches Err(e) ==> !T::ok(slug_name(s@)) && e == T::err_for(slug_name(s@)),
        T::ok(slug_name(s@)) ==> r is Ok,
{
    let n = s.unicode_len();
    let p = scan_to(s, 0, n, '+');
    proof {
        lemma_seek(s@, 0, '+');
    }
    if p < n {
        let host = s.substring_char(0, p);
        let name = s.substring_char(p + 1, n);
        match T::from_name(name) {
            Ok(v) => Ok((host.to_owned(), v)),
            Err(e) => Err(e),
        }
    } else {
        match T::from_name(s) {
            Ok(v) => Ok((default_host_str().to_owned(), v)),
            Err(e) => Err(e),
        }
    }
}

/// A parsed user slug.
#[derive(Debug, Clone)]
pub struct UserSpec {
    pub host: String,
    pub ctx: UserContext,
}

/// A parsed repository slug.
#[derive(Debug, Clone)]
pub struct RepoSpec {
    pub host: String,
    pub ctx: RepositoryContext,
}

/// A parsed tag slug.
#[derive(Debug, Clone)]
pub struct TagSpec {
    pub host: String,
    pub ctx: TagContext,
}

impl UserSpec {
    pub open spec fn wf(&self) -> bool {
        self.ctx.wf()
    }

    /// Parse a user slug.
    pub fn from_str(s: &str) -> (r: Result<Self, SlugParseError>)
        ensures
            r matches Ok(v) ==> v.host@ == slug_host(s@) && UserContext::ok(slug_name(s@))
                && v.wf() && v.ctx.text() == UserContext::canon(slug_name(s@)),
            r matches Err(e) ==> !UserContext::ok(slug_name(s@)) && e == UserContext::err_for(
                slug_name(s@),
            ),
            UserContext::ok(slug_name(s@)) ==> r is Ok,
    {
        match parse_slug::<UserContext>(s) {
            Ok((host, ctx)) => Ok(UserSpec { host, ctx }),
            Err(e) => Err(e),
        }
    }

    /// Format the spec back into a slug with an explicit host.
    pub fn to_slug(&self) -> (r: String)
        requires
            self.wf(),
        ensures
            r@ == self.host@ + seq!['+'] + self.ctx.text(),
    {
        format_slug_parts(&self.host, self.ctx.to_text())
    }
}

impl RepoSpec {
    pub open spec fn wf(&self) -> bool {
        self.ctx.wf()
    }

    /// Parse a repository slug.
    pub fn from_str(s: &str) -> (r: Result<Self, SlugParseError>)
        ensures
            r matches Ok(v) ==> v.host@ == slug_host(s@) && RepositoryContext::ok(slug_name(s@))
                && v.wf() && v.ctx.text() == RepositoryContext::canon(slug_name(s@)),
            r matches Err(e) ==> !RepositoryContext::ok(slug_name(s@)) && e
                == RepositoryContext::err_for(slug_name(s@)),
            RepositoryContext::ok(slug_name(s@)) ==> r is Ok,
    {
        match parse_slug::<RepositoryContext>(s) {
            Ok((host, ctx)) => Ok(RepoSpec { host, ctx }),
            Err(e) => Err(e),
        }
    }

    /// Format the spec back into a slug with an explicit host.
    pub fn to_slug(&self) -> (r: String)
        requires
            self.wf(),
        ensures
            r@ == self.host@ + seq!['+'] + self.ctx.text(),
    {
        format_slug_parts(&self.host, self.ctx.to_text())
    }
}

impl TagSpec {
    pub open spec fn wf(&self) -> bool {
        self.ctx.wf()
    }

    /// Parse a tag slug.
    pub fn from_str(s: &str) -> (r: Result<Self, SlugParseError>)
        ensures
            r matches Ok(v) ==> v.host@ == slug_host(s@) && TagContext::ok(slug_name(s@))
                && v.wf() && v.ctx.text() == TagContext::canon(slug_name(s@)),
            r matches Err(e) ==> !TagContext::ok(slug_name(s@)) && e == TagContext::err_for(
                slug_name(s@),
            ),
            TagContext::ok(slug_name(s@)) ==> r is Ok,
    {
        match parse_slug::<TagContext>(s) {
            Ok((host, ctx)) => Ok(TagSpec { host, ctx }),
            Err(e) => Err(e),
        }
    }

    /// Format the spec back into a slug with an explicit host.
    pub fn to_slug(&self) -> (r: String)
        requires
            self.wf(),
        ensures
            r@ == self.host@ + seq!['+'] + self.ctx.text(),
    {
        format_slug_parts(&self.host, self.ctx.to_text())
    }
}

/// Join a host and a formatted context with `+`.
fn format_slug_parts(host: &String, ctx_text: String) -> (r: String)
    ensures
        r@ == host@ + seq!['+'] + ctx_text@,
{
    proof {
        reveal_strlit("+");
        assert("+"@ =~= seq!['+']);
    }
    let mut out = host.clone();
    out.append("+");
    out.append(ctx_text.as_str());
    assert(out@ =~= host@ + seq!['+'] + ctx_text@);
    out
}

/// Formatting a well-formed `(host, context)` pair into a slug and parsing
/// it again yields the same host and the same context, for every host
/// without a `+` of its own (a host with one cannot survive the split on the
/// first `+`).
pub proof fn lemma_slug_round_trip<T: SlugTarget>(host: Seq<char>, ctx: T)
    requires
        ctx.wf(),
        forall|i: int| 0 <= i < host.len() ==> #[trigger] host[i] != '+',
    ensures
        ({
            let slug = host + seq!['+'] + ctx.text();
            &&& slug_has_host(slug)
            &&& slug_host(slug) == host
            &&& T::ok(slug_name(slug))
            &&& T::canon(slug_name(slug)) == ctx.text()
        }),
{
    let slug = host + seq!['+'] + ctx.text();
    lemma_seek(slug, 0, '+');
    let p = seek(slug, 0, '+');
    assert(slug[host.len() as int] == '+');
    assert(p == host.len()) by {
        if p < host.len() {
            assert(slug[p] == host[p]);
        }
    }
    assert(slug.subrange(0, p) =~= host);
    assert(slug.subrange(p + 1, slug.len() as int) =~= ctx.text());
    ctx.lemma_text_round_trip();
}

} // verus!
