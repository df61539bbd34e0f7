use vstd::prelude::*;
use vstd::string::*;

verus! {

#[verifier::external_type_specification]
#[verifier::external_body]
pub struct ExInvalidUri(http::uri::InvalidUri);

/// Why a connection target yields no host to connect to.
#[derive(Debug, Clone, Copy, PartialEq, Eq, Structural)]
pub enum TargetError {
    /// The target is not a URI.
    InvalidUri,
    /// The URI has no authority component.
    NoHostName,
    /// The authority is empty once its userinfo is stripped.
    EmptyHostName,
}

/// The authority component that `http::Uri`'s parser finds in a text:
/// `None` where the parser rejects the text, `Some(None)` where it accepts
/// it and finds no authority.
pub uninterp spec fn uri_authority(text: Seq<char>) -> Option<Option<Seq<char>>>;

/// `i` is the position of the first `'@'` in `a`.
pub open spec fn is_first_at(a: Seq<char>, i: int) -> bool {
    &&& 0 <= i < a.len()
    &&& a[i] == '@'
    &&& forall|j: int| 0 <= j < i ==> a[j] != '@'
}

/// An authority without its userinfo: what follows the first `'@'`, or the
/// whole authority where it holds none.
pub open spec fn strip_userinfo(a: Seq<char>) -> Seq<char> {
    if exists|i: int| is_first_at(a, i) {
        let i = choose|i: int| is_first_at(a, i);
        a.subrange(i + 1, a.len() as int)
    } else {
        a
    }
}

/// The host that an authority names, or `EmptyHostName`.
pub open spec fn host_of(a: Seq<char>) -> Result<Seq<char>, TargetError> {
    if strip_userinfo(a).len() == 0 {
        Err(TargetError::EmptyHostName)
    } else {
        Ok(strip_userinfo(a))
    }
}

/// The host that a target URI names, or why it names none.
pub open spec fn resolved_host(target: Seq<char>) -> Result<Seq<char>, TargetError> {
    match uri_authority(target) {
        None => Err(TargetError::InvalidUri),
        Some(None) => Err(TargetError::NoHostName),
        Some(Some(a)) => host_of(a),
    }
}

/// A host result with the text in its view.
pub open spec fn host_view(r: Result<String, TargetError>) -> Result<Seq<char>, TargetError> {
    match r {
        Ok(h) => Ok(h@),
        Err(e) => Err(e),
    }
}

proof fn lemma_first_at_unique(a: Seq<char>, i: int, k: int)
    requires
        is_first_at(a, i),
        is_first_at(a, k),
    ensures
        i == k,
{
    if i < k {
        assert(a[i] != '@');
    } else if k < i {
        assert(a[k] != '@');
    }
}

/// The position of the first `'@'` in `a`, if any.
fn first_at(a: &str) -> (r: Option<usize>)
    ensures
        match r {
            Some(i) => is_first_at(a@, i as int),
            None => forall|j: int| 0 <= j < a@.len() ==> a@[j] != '@',
        },
{
    let n = a.unicode_len();
    let mut i: usize = 0;
    while i < n
        invariant
            n == a@.len(),
            i <= n,
            forall|j: int| 0 <= j < i ==> a@[j] != '@',
        decreases n - i,
    {
        if a.get_char(i) == '@' {
            return Some(i);
        }
        i += 1;
    }
    None
}

/// The host named by an authority: the part after the first `'@'`, where
/// there is one, else the whole authority; `EmptyHostName` where that part
/// is empty.
pub fn host_from_authority(authority: &str) -> (r: Result<String, TargetError>)
    ensures
        host_view(r) == host_of(authority@),
{
    let n = authority.unicode_len();
    let host = match first_at(authority) {
        Some(i) => {
            proof {
                let k = choose|k: int| is_first_at(authority@, k);
                lemma_first_at_unique(authority@, i as int, k);
            }
            authority.substring_char(i + 1, n)
        },
        None => authority,
    };
    if host.unicode_len() == 0 {
        Err(TargetError::EmptyHostName)
    } else {
        Ok(String::from_str(host))
    }
}

/// Relies on `http::Uri`'s `FromStr` to parse the target and on
/// `Uri::authority`, which is `None` where the authority is empty, to take
/// its authority component.
#[verifier::external_body]
fn parse_authority(target: &str) -> (r: Result<Option<String>, http::uri::InvalidUri>)
    ensures
        match r {
            Ok(Some(a)) => uri_authority(target@) == Some(Some(a@)) && a@.len() > 0,
            Ok(None) => uri_authority(target@) == Some(None::<Seq<char>>),
            Err(_) => uri_authority(target@) is None,
        },
{
    let uri = target.parse::<http::Uri>()?;
    Ok(uri.authority().map(|a| a.as_str().to_string()))
}

/// The host that a target URI names, with any userinfo stripped; or why it
/// names none.
pub fn resolve_host(target: &str) -> (r: Result<String, TargetError>)
    ensures
        host_view(r) == resolved_host(target@),
{
    match parse_authority(target) {
        Err(_) => Err(TargetError::InvalidUri),
        Ok(None) => Err(TargetError::NoHostName),
        Ok(Some(a)) => host_from_authority(a.as_str()),
    }
}

} // verus!
