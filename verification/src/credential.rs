//! Credential resolution policy: a bearer token comes either from an
//! explicitly supplied token file or from a fixed entry in the platform's
//! secure credential store, with no fallback between the two.

use vstd::prelude::*;

verus! {

/// The bearer token could not be resolved. Produced at the I/O boundary
/// when the chosen source cannot yield a token.
#[derive(Debug, Clone, Copy, PartialEq, Eq, Structural)]
pub enum CredentialError {
    /// The supplied token file could not be read.
    Read,
    /// The secure-store entry was absent or inaccessible.
    Lookup,
}

/// Where a bearer token is to be read from.
///
/// The actual read is I/O and happens outside the library; this type is the
/// library's decision about which source that read must use.
#[derive(Debug, Clone, PartialEq, Eq)]
pub enum CredentialSource {
    /// Read the token from this file.
    File { path: String },
    /// Look the token up in the platform secure store under this
    /// service/account pair.
    SecureStore { service: String, account: String },
}

/// Service name of the fixed secure-store entry.
pub fn keyring_service() -> (r: &'static str)
    ensures
        r@ == "enarx"@,
{
    "enarx"
}

/// Account name of the fixed secure-store entry.
pub fn keyring_account() -> (r: &'static str)
    ensures
        r@ == "drawbridge"@,
{
    "drawbridge"
}

/// Decide where the bearer token must come from: the supplied file when one
/// is given, otherwise the fixed secure-store entry. There is no fallback,
/// so when a file is supplied the secure store is never consulted, even if
/// it is unreachable.
pub fn credential_source(token_file: &Option<String>) -> (r: CredentialSource)
    ensures
        token_file matches Some(p) ==> (r matches CredentialSource::File { path } && path@
            == p@),
        token_file is None ==> (r matches CredentialSource::SecureStore { service, account }
            && service@ == "enarx"@ && account@ == "drawbridge"@),
{
    match token_file {
        Some(path) => CredentialSource::File { path: path.clone() },
        None => CredentialSource::SecureStore {
            service: keyring_service().to_owned(),
            account: keyring_account().to_owned(),
        },
    }
}

/// Whitespace as `str::trim` understands it: the Unicode `White_Space`
/// characters.
pub open spec fn is_space(c: char) -> bool {
    ||| c as u32 == 0x20
    ||| (0x9 <= c as u32 <= 0xD)
    ||| c as u32 == 0x85
    ||| c as u32 == 0xA0
    ||| c as u32 == 0x1680
    ||| (0x2000 <= c as u32 <= 0x200A)
    ||| c as u32 == 0x2028
    ||| c as u32 == 0x2029
    ||| c as u32 == 0x202F
    ||| c as u32 == 0x205F
    ||| c as u32 == 0x3000
}

/// First position from the left that does not hold whitespace.
pub open spec fn space_run_end(s: Seq<char>, i: int) -> int
    decreases s.len() - i,
{
    if i < 0 || i >= s.len() || !is_space(s[i]) {
        i
    } else {
        space_run_end(s, i + 1)
    }
}

/// Length of `s` without its trailing whitespace.
pub open spec fn rtrim_len(s: Seq<char>) -> int
    decreases s.len(),
{
    if s.len() == 0 || !is_space(s.last()) {
        s.len() as int
    } else {
        rtrim_len(s.drop_last())
    }
}

/// `s` without leading and trailing whitespace.
pub open spec fn trimmed(s: Seq<char>) -> Seq<char> {
    let a = space_run_end(s, 0);
    let b = rtrim_len(s);
    if a <= b {
        s.subrange(a, b)
    } else {
        Seq::empty()
    }
}

/// Exec mirror of [`is_space`].
fn space_char(c: char) -> (b: bool)
    ensures
        b == is_space(c),
{
    let u = c as u32;
    u == 0x20 || (0x9 <= u && u <= 0xD) || u == 0x85 || u == 0xA0 || u == 0x1680 || (0x2000 <= u
        && u <= 0x200A) || u == 0x2028 || u == 0x2029 || u == 0x202F || u == 0x205F || u == 0x3000
}

/// First position from the left that does not hold whitespace.
fn scan_spaces_left(s: &str, n: usize) -> (a: usize)
    requires
        n == s@.len(),
    ensures
        a == space_run_end(s@, 0),
        a <= n,
{
    let mut i: usize = 0;
    loop
        invariant
            i <= n,
            n == s@.len(),
            space_run_end(s@, 0) == space_run_end(s@, i as int),
        decreases n - i,
    {
        if i < n {
            let c = s.get_char(i);
            if space_char(c) {
                assert(space_run_end(s@, i as int) == space_run_end(s@, i + 1));
                i = i + 1;
            } else {
                assert(space_run_end(s@, i as int) == i);
                return i;
            }
        } else {
            assert(space_run_end(s@, i as int) == i);
            return i;
        }
    }
}

/// Length of `s` without its trailing whitespace.
fn scan_spaces_right(s: &str, n: usize) -> (b: usize)
    requires
        n == s@.len(),
    ensures
        b == rtrim_len(s@),
        b <= n,
{
    let mut i: usize = n;
    assert(s@.subrange(0, n as int) =~= s@);
    loop
        invariant
            i <= n,
            n == s@.len(),
            rtrim_len(s@) == rtrim_len(s@.subrange(0, i as int)),
        decreases i,
    {
        if i > 0 {
            let c = s.get_char(i - 1);
            proof {
                let t = s@.subrange(0, i as int);
                assert(t.last() == s@[i - 1]);
                assert(t.drop_last() =~= s@.subrange(0, i - 1));
            }
            if space_char(c) {
                i = i - 1;
            } else {
                return i;
            }
        } else {
            assert(s@.subrange(0, 0) =~= Seq::<char>::empty());
            return 0;
        }
    }
}

/// Strip leading and trailing whitespace from a token.
pub fn trim_token(s: &str) -> (r: String)
    ensures
        r@ == trimmed(s@),
{
    let n = s.unicode_len();
    let a = scan_spaces_left(s, n);
    let b = scan_spaces_right(s, n);
    if a <= b {
        s.substring_char(a, b).to_owned()
    } else {
        String::new()
    }
}

/// A resolved bearer token: the trimmed token text and where it came from.
/// The token is an opaque secret: nothing in the library formats or logs it.
#[derive(Debug, Clone)]
pub struct Credential {
    pub token: String,
    pub source: CredentialSource,
}

/// Build the credential from the raw text that the chosen source yielded,
/// trimming surrounding whitespace before use.
pub fn credential_from_raw(raw: &str, source: CredentialSource) -> (c: Credential)
    ensures
        c.token@ == trimmed(raw@),
        c.source == source,
{
    Credential { token: trim_token(raw), source }
}

} // verus!
