//! Where a Parquet file comes from: a local path, or an `s3://` URL of an
//! object store.
use vstd::prelude::*;
use url::Url;

verus! {

/// A parsed URL as its text, its host when it has one, and its path.
pub type UrlParts = (Seq<char>, Option<Seq<char>>, Seq<char>);

/// What `url::Url::parse` makes of a text: the parsed URL's serialization
/// (`as_str`), host (`host_str`) and path (`path`), or the message of its error.
pub uninterp spec fn url_parse(input: Seq<char>) -> Result<UrlParts, Seq<char>>;

/// A parsed URL, by the parts of it that loading reads.
#[derive(Debug, Clone, PartialEq, Eq)]
pub struct ParsedUrl {
    pub text: String,
    pub host: Option<String>,
    pub path: String,
}

impl View for ParsedUrl {
    type V = UrlParts;

    open spec fn view(&self) -> UrlParts {
        (self.text@, match self.host { Some(h) => Some(h@), None => None }, self.path@)
    }
}

/// Parses a URL with `url::Url::parse`, keeping its serialization, host and
/// path, or the `Display` message of its error. The contract names that
/// outcome as a function of the text alone.
#[verifier::external_body]
fn parse_url(input: &str) -> (r: Result<ParsedUrl, String>)
    ensures
        match r {
            Ok(u) => url_parse(input@) == Ok::<UrlParts, Seq<char>>(u@),
            Err(m) => url_parse(input@) == Err::<UrlParts, Seq<char>>(m@),
        },
{
    match Url::parse(input) {
        Ok(u) => Ok(ParsedUrl {
            text: u.as_str().to_string(),
            host: match u.host_str() { Some(h) => Some(h.to_string()), None => None },
            path: u.path().to_string(),
        }),
        Err(e) => Err(e.to_string()),
    }
}

/// Why a file source could not be used: a URL that does not parse (with the
/// parser's message), or one that names no object of a bucket.
#[derive(Debug, Clone, PartialEq, Eq)]
pub enum SourceError {
    UrlParseError(String),
    InvalidUrl(String),
}

/// A file on the local disk, by its path, or an object in an object store.
#[derive(Debug, Clone, PartialEq, Eq)]
pub enum FileSource<'a> {
    Local(&'a str),
    ObjectStore(ParsedUrl),
}

/// `s` begins with `prefix`.
pub open spec fn has_prefix(s: Seq<char>, prefix: Seq<char>) -> bool {
    prefix.len() <= s.len() && s.subrange(0, prefix.len() as int) == prefix
}

/// Whether a text begins with a prefix.
pub fn starts_with(s: &str, prefix: &str) -> (b: bool)
    ensures
        b == has_prefix(s@, prefix@),
{
    let n = prefix.unicode_len();
    if n > s.unicode_len() {
        return false;
    }
    let mut i: usize = 0;
    while i < n
        invariant
            n == prefix@.len(),
            n <= s@.len(),
            i <= n,
            forall|j: int| 0 <= j < i ==> s@[j] == prefix@[j],
        decreases n - i,
    {
        if s.get_char(i) != prefix.get_char(i) {
            assert(s@.subrange(0, n as int)[i as int] != prefix@[i as int]);
            return false;
        }
        i = i + 1;
    }
    assert(s@.subrange(0, n as int) =~= prefix@);
    true
}

impl<'a> FileSource<'a> {
    /// `s3://` URLs name objects in an object store; a `file://` prefix is
    /// dropped; anything else is a local path.
    pub fn parse(path: &'a str) -> (r: Result<Self, SourceError>)
        ensures
            has_prefix(path@, "s3://"@) ==> match url_parse(path@) {
                Ok(parts) => r matches Ok(FileSource::ObjectStore(u)) && u@ == parts,
                Err(msg) => r matches Err(SourceError::UrlParseError(m)) && m@ == msg,
            },
            !has_prefix(path@, "s3://"@) && has_prefix(path@, "file://"@) ==>
                (r matches Ok(FileSource::Local(p)) && p@ == path@.skip(7)),
            !has_prefix(path@, "s3://"@) && !has_prefix(path@, "file://"@) ==>
                (r matches Ok(FileSource::Local(p)) && p@ == path@),
    {
        if starts_with(path, "s3://") {
            match parse_url(path) {
                Ok(url) => Ok(FileSource::ObjectStore(url)),
                Err(e) => Err(SourceError::UrlParseError(e)),
            }
        } else if starts_with(path, "file://") {
            proof {
                reveal_strlit("file://");
            }
            let stripped = path.substring_char(7, path.unicode_len());
            Ok(FileSource::Local(stripped))
        } else {
            Ok(FileSource::Local(path))
        }
    }
}

/// A text with its leading slashes removed.
pub open spec fn trim_leading_slashes(s: Seq<char>) -> Seq<char>
    decreases s.len(),
{
    if s.len() > 0 && s[0] == '/' {
        trim_leading_slashes(s.drop_first())
    } else {
        s
    }
}

/// Removes the leading slashes of a text, as `trim_start_matches('/')` does.
pub fn trim_start_slashes(s: &str) -> (t: &str)
    ensures
        t@ == trim_leading_slashes(s@),
{
    let n = s.unicode_len();
    let mut i: usize = 0;
    assert(s@.skip(0) =~= s@);
    while i < n && s.get_char(i) == '/'
        invariant
            n == s@.len(),
            i <= n,
            trim_leading_slashes(s@) == trim_leading_slashes(s@.skip(i as int)),
        decreases n - i,
    {
        assert(s@.skip(i as int).drop_first() =~= s@.skip(i + 1));
        i = i + 1;
    }
    let t = s.substring_char(i, n);
    assert(t@ =~= s@.skip(i as int));
    t
}

/// A URL with this host and path names an object of a bucket: it has a host,
/// and its path is neither empty nor `/`.
pub open spec fn names_bucket_object(host: Option<String>, path: Seq<char>) -> bool {
    host is Some && path.len() > 0 && path != "/"@
}

/// The bucket and the key of an object store URL: the host is the bucket when
/// the path names an object (it is neither empty nor `/`), and the key is the
/// path without its leading slashes.
pub fn object_store_location(url: &ParsedUrl) -> (r: Result<(String, String), SourceError>)
    ensures
        names_bucket_object(url.host, url.path@) ==>
            (r matches Ok((b, k)) && b@ == url.host->0@ && k@ == trim_leading_slashes(url.path@)),
        !names_bucket_object(url.host, url.path@) ==>
            (r matches Err(SourceError::InvalidUrl(m)) && m@ == "no bucket in URL: "@ + url.text@),
{
    let path = url.path.as_str();
    let names_object = !path.is_empty() && !starts_with_only_slash(path);
    match &url.host {
        Some(h) => {
            if names_object {
                let key = trim_start_slashes(path);
                return Ok((h.clone(), key.to_owned()));
            }
        },
        None => {},
    }
    let mut m = String::from_str("no bucket in URL: ");
    m.append(url.text.as_str());
    Err(SourceError::InvalidUrl(m))
}

/// Whether a text is exactly `/`.
fn starts_with_only_slash(s: &str) -> (b: bool)
    ensures
        b == (s@ == "/"@),
{
    proof {
        reveal_strlit("/");
    }
    if s.unicode_len() == 1 {
        let c = s.get_char(0);
        assert(c == '/' ==> s@ =~= "/"@);
        c == '/'
    } else {
        false
    }
}

/// Trimming removes exactly the leading slashes: what is left does not start
/// with a slash, and the text is some slashes followed by it.
pub proof fn lemma_trim_leading_slashes(s: Seq<char>)
    ensures
        trim_leading_slashes(s).len() > 0 ==> trim_leading_slashes(s)[0] != '/',
        trim_leading_slashes(s).len() <= s.len(),
        s.skip(s.len() - trim_leading_slashes(s).len()) == trim_leading_slashes(s),
        forall|i: int| 0 <= i < s.len() - trim_leading_slashes(s).len() ==> s[i] == '/',
    decreases s.len(),
{
    if s.len() > 0 && s[0] == '/' {
        lemma_trim_leading_slashes(s.drop_first());
        let t = trim_leading_slashes(s.drop_first());
        assert(s.drop_first().skip(s.drop_first().len() - t.len()) =~= s.skip(s.len() - t.len()));
        assert forall|i: int| 0 <= i < s.len() - t.len() implies s[i] == '/' by {
            if i > 0 {
                assert(s.drop_first()[i - 1] == s[i]);
            }
        }
    } else {
        assert(s.skip(0) =~= s);
    }
}

/// An object store URL names an object of a bucket exactly when it has a host
/// and its path is neither empty nor the root `/`.
pub proof fn lemma_bucket_rule(host: Option<String>, path: Seq<char>)
    ensures
        host is None ==> !names_bucket_object(host, path),
        path.len() == 0 ==> !names_bucket_object(host, path),
        path == "/"@ ==> !names_bucket_object(host, path),
        host is Some && path.len() > 0 && path != "/"@ ==> names_bucket_object(host, path),
{
}

} // verus!
