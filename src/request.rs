//! The URLs of the service's requests.
use vstd::prelude::*;
use vstd::string::StringExecFns;

verus! {

/// The protocol that requests use, chosen once for a client.
#[derive(Debug, Clone, Copy, PartialEq, Eq, Structural)]
pub enum Scheme {
    /// `http`
    Plain,
    /// `https`
    Encrypted,
}

/// Which joke a request asks for.
#[derive(Debug, Clone, Copy, PartialEq, Eq, Structural)]
pub enum Target {
    /// A joke picked by the service.
    Random,
    /// The joke with this id.
    ById(u64),
}

/// The scheme as it stands at the start of a URL.
pub open spec fn scheme_text(scheme: Scheme) -> Seq<char> {
    match scheme {
        Scheme::Plain => "http"@,
        Scheme::Encrypted => "https"@,
    }
}

/// The character of a decimal digit.
pub open spec fn digit_char(d: nat) -> char {
    if d == 0 { '0' }
    else if d == 1 { '1' }
    else if d == 2 { '2' }
    else if d == 3 { '3' }
    else if d == 4 { '4' }
    else if d == 5 { '5' }
    else if d == 6 { '6' }
    else if d == 7 { '7' }
    else if d == 8 { '8' }
    else { '9' }
}

/// `n` written in decimal, without leading zeros.
pub open spec fn decimal(n: nat) -> Seq<char>
    decreases n,
{
    if n < 10 {
        seq![digit_char(n)]
    } else {
        decimal(n / 10).push(digit_char(n % 10))
    }
}

/// The last segment of a request's path.
pub open spec fn target_path(target: Target) -> Seq<char> {
    match target {
        Target::Random => "random"@,
        Target::ById(id) => decimal(id as nat),
    }
}

/// The query that puts other names in place of the default one. The names
/// go in as they are, without percent-encoding.
pub open spec fn names_query(first: Seq<char>, last: Seq<char>) -> Seq<char> {
    "?firstName="@ + first + "&lastName="@ + last
}

/// The URL of a request: `{scheme}://api.icndb.com/jokes/{random or id}`,
/// followed by the names' query where names are given.
pub open spec fn url_of(scheme: Scheme, target: Target, names: Option<(Seq<char>, Seq<char>)>) -> Seq<char> {
    scheme_text(scheme) + "://api.icndb.com/jokes/"@ + target_path(target) + match names {
        Some((first, last)) => names_query(first, last),
        None => Seq::empty(),
    }
}

/// The texts of optional names.
pub open spec fn names_view(names: Option<(&str, &str)>) -> Option<(Seq<char>, Seq<char>)> {
    match names {
        Some((first, last)) => Some((first@, last@)),
        None => None,
    }
}

/// The URL of a request; see `url_of`.
pub fn request_url(scheme: Scheme, target: Target, names: Option<(&str, &str)>) -> (r: String)
    ensures
        r@ == url_of(scheme, target, names_view(names)),
{
    let mut url = match scheme {
        Scheme::Plain => String::from_str("http"),
        Scheme::Encrypted => String::from_str("https"),
    };
    url.append("://api.icndb.com/jokes/");
    match target {
        Target::Random => url.append("random"),
        Target::ById(id) => push_decimal(&mut url, id),
    }
    match names {
        Some((first, last)) => {
            url.append("?firstName=");
            url.append(first);
            url.append("&lastName=");
            url.append(last);
        },
        None => {},
    }
    url
}

/// Appends `n` in decimal to `out`.
fn push_decimal(out: &mut String, n: u64)
    ensures
        final(out)@ == old(out)@ + decimal(n as nat),
    decreases n,
{
    if n >= 10 {
        push_decimal(out, n / 10);
    }
    out.append(digit_str(n % 10));
    assert(final(out)@ =~= old(out)@ + decimal(n as nat));
}

/// The one-character text of a decimal digit.
fn digit_str(d: u64) -> (r: &'static str)
    requires
        d < 10,
    ensures
        r@ == seq![digit_char(d as nat)],
{
    match d {
        0 => { proof { reveal_strlit("0"); } "0" },
        1 => { proof { reveal_strlit("1"); } "1" },
        2 => { proof { reveal_strlit("2"); } "2" },
        3 => { proof { reveal_strlit("3"); } "3" },
        4 => { proof { reveal_strlit("4"); } "4" },
        5 => { proof { reveal_strlit("5"); } "5" },
        6 => { proof { reveal_strlit("6"); } "6" },
        7 => { proof { reveal_strlit("7"); } "7" },
        8 => { proof { reveal_strlit("8"); } "8" },
        _ => { proof { reveal_strlit("9"); } "9" },
    }
}

} // verus!
