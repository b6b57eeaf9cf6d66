use vstd::prelude::*;
use crate::error::RouterError;
use crate::value::Value;
use vstd::string::*;

verus! {

/// A semantic version: three numbers, a pre-release tag and build metadata
/// (empty when absent).
#[derive(Debug)]
pub struct SemVersion {
    pub major: u64,
    pub minor: u64,
    pub patch: u64,
    pub pre: String,
    pub build: String,
}

/// What the semver grammar makes of a text: the three numbers, the
/// pre-release tag and the build metadata, or nothing when it is malformed.
pub uninterp spec fn semver_of(s: Seq<char>) -> Option<(u64, u64, u64, Seq<char>, Seq<char>)>;

/// `v` holds the parts that `semver_of` gives.
pub open spec fn version_parts(v: SemVersion, parts: (u64, u64, u64, Seq<char>, Seq<char>)) -> bool {
    &&& v.major == parts.0
    &&& v.minor == parts.1
    &&& v.patch == parts.2
    &&& v.pre@ == parts.3
    &&& v.build@ == parts.4
}

/// Relies on semver::Version::parse: the outcome depends on the text alone,
/// and an empty text is refused.
#[verifier::external_body]
fn parse_semver(s: &str) -> (r: Result<SemVersion, String>)
    ensures
        r is Ok <==> semver_of(s@) is Some,
        r matches Ok(v) ==> version_parts(v, semver_of(s@)->Some_0),
        s@.len() == 0 ==> r is Err,
{
    match semver::Version::parse(s) {
        Ok(v) => Ok(SemVersion {
            major: v.major,
            minor: v.minor,
            patch: v.patch,
            pre: v.pre.as_str().to_owned(),
            build: v.build.as_str().to_owned(),
        }),
        Err(e) => Err(e.to_string()),
    }
}

/// The prefix that the backend puts before its version number.
pub open spec fn product_prefix() -> Seq<char> {
    "surrealdb-"@
}

/// `s` with every leading copy of a non-empty `p` taken off.
pub open spec fn strip_prefixes(s: Seq<char>, p: Seq<char>) -> Seq<char>
    decreases s.len(),
{
    if p.len() > 0 && p.len() <= s.len() && s.subrange(0, p.len() as int) == p {
        strip_prefixes(s.subrange(p.len() as int, s.len() as int), p)
    } else {
        s
    }
}

/// Whether `s` starts with `p` at position `at`.
fn starts_at(s: &str, at: usize, p: &str) -> (r: bool)
    requires
        at <= s@.len(),
    ensures
        r == (p@.len() <= s@.len() - at && s@.subrange(at as int, at + p@.len()) == p@),
{
    let n = s.unicode_len();
    let m = p.unicode_len();
    if m > n - at {
        return false;
    }
    let mut i: usize = 0;
    while i < m
        invariant
            n == s@.len(),
            m == p@.len(),
            m <= n - at,
            i <= m,
            forall|j: int| 0 <= j < i ==> s@[at + j] == p@[j],
        decreases m - i,
    {
        if s.get_char(at + i) != p.get_char(i) {
            assert(s@.subrange(at as int, at + m)[i as int] != p@[i as int]);
            return false;
        }
        i = i + 1;
    }
    assert(s@.subrange(at as int, at + m) =~= p@);
    true
}

/// Takes every leading copy of `p` off `s`.
pub fn trim_prefixes<'a>(s: &'a str, p: &str) -> (r: &'a str)
    ensures
        r@ == strip_prefixes(s@, p@),
{
    let n = s.unicode_len();
    let m = p.unicode_len();
    if m == 0 {
        return s;
    }
    let mut at: usize = 0;
    assert(s@.subrange(0, n as int) =~= s@);
    while at <= n && starts_at(s, at, p)
        invariant
            n == s@.len(),
            m == p@.len(),
            m > 0,
            at <= n,
            strip_prefixes(s@, p@) == strip_prefixes(s@.subrange(at as int, n as int), p@),
        decreases n - at,
    {
        assert(s@.subrange(at as int, n as int).subrange(0, m as int) =~= s@.subrange(at as int, at + m));
        assert(s@.subrange(at as int, n as int).subrange(m as int, n - at) =~= s@.subrange(at + m, n as int));
        at = at + m;
    }
    if m <= n - at {
        assert(s@.subrange(at as int, n as int).subrange(0, m as int) =~= s@.subrange(at as int, at + m));
    }
    s.substring_char(at, n)
}

/// `r` is what a version reply gives: for a text, the text without its
/// leading product prefixes read as a semantic version, or an error that
/// carries that remainder; for anything else, a reply of the wrong shape.
pub open spec fn reads_version(reply: Value, r: Result<SemVersion, RouterError>) -> bool {
    match reply {
        Value::Strand(text) => {
            let number = strip_prefixes(text@, product_prefix());
            &&& (r is Ok <==> semver_of(number) is Some)
            &&& (r matches Ok(v) ==> version_parts(v, semver_of(number)->Some_0))
            &&& (r matches Err(e) ==> (e matches RouterError::InvalidVersion(t) && t@ == number))
        },
        _ => r == Err::<SemVersion, RouterError>(RouterError::UnexpectedResponse),
    }
}

/// The version that the backend's version reply names: the reply's text
/// without its leading product prefixes, read as a semantic version.
pub fn version_from_reply(reply: Value) -> (r: Result<SemVersion, RouterError>)
    ensures
        reads_version(reply, r),
{
    match reply {
        Value::Strand(text) => {
            let number = trim_prefixes(text.as_str(), "surrealdb-");
            match parse_semver(number) {
                Ok(v) => Ok(v),
                Err(_) => Err(RouterError::InvalidVersion(number.to_owned())),
            }
        },
        _ => Err(RouterError::UnexpectedResponse),
    }
}

/// What `str::trim` leaves of a text: the text without leading and trailing
/// whitespace.
pub uninterp spec fn trim_of(s: Seq<char>) -> Seq<char>;

/// Relies on str::trim: the result depends on the text alone, and an empty
/// text stays empty.
#[verifier::external_body]
fn trim(s: &str) -> (r: &str)
    ensures
        r@ == trim_of(s@),
        s@.len() == 0 ==> r@.len() == 0,
{
    s.trim()
}

/// The build metadata is given and holds more than whitespace.
pub open spec fn has_metadata(metadata: Option<&str>) -> bool {
    metadata matches Some(m) && trim_of(m@).len() > 0
}

/// The version reply of an embedded engine of version `version`: the product
/// prefix, the version, and `+metadata` when build metadata is given and not
/// blank.
pub fn version_reply(version: &str, metadata: Option<&str>) -> (r: String)
    ensures
        r@ == product_prefix() + version@ + (if has_metadata(metadata) {
            "+"@ + metadata->Some_0@
        } else {
            Seq::<char>::empty()
        }),
{
    let mut text = <String as StringExecFns>::from_str("surrealdb-");
    text.append(version);
    match metadata {
        Some(m) => {
            if trim(m).unicode_len() > 0 {
                text.append("+");
                text.append(m);
            } else {
                assert(text@ =~= text@ + Seq::<char>::empty());
            }
        },
        None => {
            assert(text@ =~= text@ + Seq::<char>::empty());
        },
    }
    text
}

} // verus!
