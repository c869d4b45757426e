use vstd::prelude::*;

use crate::error::PersonError;
use crate::source::Person;

verus! {

/// The serialisation of the URL that url's parser reads from the text, or
/// none where the text is not a valid URL.
pub uninterp spec fn parsed_url(s: Seq<char>) -> Option<Seq<char>>;

/// Relies on `url::Url::parse`, and on `String::from` of the parsed `Url`
/// for its serialisation; the outcome depends on the text alone.
#[verifier::external_body]
fn parse_url(s: &str) -> (r: Option<String>)
    ensures
        match r {
            Some(u) => parsed_url(s@) == Some(u@),
            None => parsed_url(s@) is None,
        },
{
    url::Url::parse(s).ok().map(String::from)
}

/// The text of a local profile URL: `<protocol and host>/u/<name>`.
pub open spec fn profile_text(protocol_and_hostname: Seq<char>, name: Seq<char>) -> Seq<char> {
    protocol_and_hostname + "/u/"@ + name
}

/// Builds the text of a local profile URL.
pub fn profile_path(protocol_and_hostname: &str, name: &str) -> (r: String)
    ensures
        r@ == profile_text(protocol_and_hostname@, name@),
{
    let mut s = String::from_str(protocol_and_hostname);
    s.append("/u/");
    s.append(name);
    s
}

impl Person {
    /// The profile URL of a local person, under the protocol and host name of
    /// this server; fails where the text is no valid URL.
    pub fn local_url(name: &str, protocol_and_hostname: &str) -> (r: Result<String, PersonError>)
        ensures
            match r {
                Ok(u) => parsed_url(profile_text(protocol_and_hostname@, name@)) == Some(u@),
                Err(e) => e == PersonError::ConstructionError && parsed_url(
                    profile_text(protocol_and_hostname@, name@),
                ) is None,
            },
    {
        let text = profile_path(protocol_and_hostname, name);
        match parse_url(text.as_str()) {
            Some(u) => Ok(u),
            None => Err(PersonError::ConstructionError),
        }
    }
}

} // verus!
