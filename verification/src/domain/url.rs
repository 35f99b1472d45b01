//! The URL value type: a string that is known to be an absolute URL.

use vstd::prelude::*;

use crate::domain::text::chars_of;
use crate::exception::UrlParseFailed;

verus! {

pub open spec fn is_letter(c: char) -> bool {
    ('a' <= c && c <= 'z') || ('A' <= c && c <= 'Z')
}

pub open spec fn is_digit(c: char) -> bool {
    '0' <= c && c <= '9'
}

/// A character that may follow the first letter of a scheme.
pub open spec fn is_scheme_char(c: char) -> bool {
    is_letter(c) || is_digit(c) || c == '+' || c == '-' || c == '.'
}

/// A character that may occur anywhere in a URL: unreserved, a delimiter, or
/// the percent sign of an escape.
pub open spec fn is_url_char(c: char) -> bool {
    is_letter(c) || is_digit(c) || c == '-' || c == '.' || c == '_' || c == '~' || c == ':'
        || c == '/' || c == '?' || c == '#' || c == '[' || c == ']' || c == '@' || c == '!'
        || c == '$' || c == '&' || c == '\'' || c == '(' || c == ')' || c == '*' || c == '+'
        || c == ',' || c == ';' || c == '=' || c == '%'
}

/// A character that ends the authority.
pub open spec fn ends_authority(c: char) -> bool {
    c == '/' || c == '?' || c == '#'
}

/// `text` is a scheme of `colon` characters, then `://`, then an authority of
/// at least one character, then anything; and holds URL characters only.
pub open spec fn splits_at(text: Seq<char>, colon: int) -> bool {
    &&& 1 <= colon
    &&& colon + 3 < text.len()
    &&& is_letter(text[0])
    &&& forall|i: int| 0 <= i < colon ==> is_scheme_char(#[trigger] text[i])
    &&& text[colon] == ':'
    &&& text[colon + 1] == '/'
    &&& text[colon + 2] == '/'
    &&& !ends_authority(text[colon + 3])
    &&& forall|i: int| 0 <= i < text.len() ==> is_url_char(#[trigger] text[i])
}

/// `text` is an absolute URL: it has a scheme and an authority.
pub open spec fn is_absolute_url(text: Seq<char>) -> bool {
    exists|colon: int| splits_at(text, colon)
}

fn letter(c: char) -> (yes: bool)
    ensures
        yes == is_letter(c),
{
    ('a' <= c && c <= 'z') || ('A' <= c && c <= 'Z')
}

fn digit(c: char) -> (yes: bool)
    ensures
        yes == is_digit(c),
{
    '0' <= c && c <= '9'
}

fn scheme_char(c: char) -> (yes: bool)
    ensures
        yes == is_scheme_char(c),
{
    letter(c) || digit(c) || c == '+' || c == '-' || c == '.'
}

fn url_char(c: char) -> (yes: bool)
    ensures
        yes == is_url_char(c),
{
    letter(c) || digit(c) || c == '-' || c == '.' || c == '_' || c == '~' || c == ':' || c == '/'
        || c == '?' || c == '#' || c == '[' || c == ']' || c == '@' || c == '!' || c == '$'
        || c == '&' || c == '\'' || c == '(' || c == ')' || c == '*' || c == '+' || c == ','
        || c == ';' || c == '=' || c == '%'
}

/// Whether `text` holds URL characters only.
fn all_url_chars(text: &Vec<char>) -> (yes: bool)
    ensures
        yes == (forall|i: int| 0 <= i < text.len() ==> is_url_char(#[trigger] text[i])),
{
    let mut at: usize = 0;
    while at < text.len()
        invariant
            at <= text.len(),
            forall|i: int| 0 <= i < at ==> is_url_char(#[trigger] text[i]),
        decreases text.len() - at,
    {
        if !url_char(text[at]) {
            return false;
        }
        at += 1;
    }
    true
}

/// The length of the longest prefix of `text` made of scheme characters.
fn scheme_end(text: &Vec<char>) -> (end: usize)
    ensures
        end <= text.len(),
        forall|i: int| 0 <= i < end ==> is_scheme_char(#[trigger] text[i]),
        end < text.len() ==> !is_scheme_char(text[end as int]),
{
    let mut end: usize = 0;
    while end < text.len() && scheme_char(text[end])
        invariant
            end <= text.len(),
            forall|i: int| 0 <= i < end ==> is_scheme_char(#[trigger] text[i]),
        decreases text.len() - end,
    {
        end += 1;
    }
    end
}

/// Decides whether `text` is an absolute URL.
pub fn is_valid(text: &Vec<char>) -> (valid: bool)
    ensures
        valid == is_absolute_url(text@),
{
    let size = text.len();
    let colon = scheme_end(text);
    let valid = all_url_chars(text) && 1 <= colon && size >= 4 && colon < size - 3 && letter(
        text[0],
    ) && text[colon] == ':' && text[colon + 1] == '/' && text[colon + 2] == '/' && !(text[colon
        + 3] == '/' || text[colon + 3] == '?' || text[colon + 3] == '#');
    proof {
        if valid {
            assert(splits_at(text@, colon as int));
        } else {
            assert forall|other: int| !splits_at(text@, other) by {
                if splits_at(text@, other) {
                    // the scheme ends at the first character that no scheme holds
                    if other < colon {
                        assert(is_scheme_char(text@[other]));
                    } else if other > colon {
                        assert(is_scheme_char(text@[colon as int]));
                    }
                    assert(other == colon);
                }
            }
        }
    }
    valid
}

/// A string that is an absolute URL. A value exists only through
/// validation, so whoever holds one may rely on it.
#[derive(Debug, PartialEq, Eq, PartialOrd, Ord, Hash)]
pub struct Url(String);

impl View for Url {
    type V = Seq<char>;

    /// The URL as it was given.
    closed spec fn view(&self) -> Seq<char> {
        self.0@
    }
}

impl Url {
    #[verifier::type_invariant]
    spec fn well_formed(self) -> bool {
        is_absolute_url(self.0@)
    }

    /// Validates `raw`: an absolute URL is kept as it stands, anything else
    /// comes back inside the failure.
    pub fn parse(raw: String) -> (parsed: Result<Url, UrlParseFailed>)
        ensures
            is_absolute_url(raw@) ==> parsed is Ok && parsed->Ok_0@ == raw@,
            !is_absolute_url(raw@) ==> parsed is Err && parsed->Err_0@ == raw@,
    {
        let text = chars_of(raw.as_str());
        if is_valid(&text) {
            Ok(Url(raw))
        } else {
            Err(UrlParseFailed::new(raw))
        }
    }

    /// The canonical string form, which is the string that was validated.
    pub fn as_str(&self) -> (raw: &str)
        ensures
            raw@ == self@,
            is_absolute_url(self@),
    {
        proof {
            use_type_invariant(self);
        }
        self.0.as_str()
    }

    /// The canonical string form, owned.
    pub fn to_string(&self) -> (raw: String)
        ensures
            raw@ == self@,
            is_absolute_url(self@),
    {
        proof {
            use_type_invariant(self);
        }
        self.0.clone()
    }
}

impl TryFrom<String> for Url {
    type Error = UrlParseFailed;

    fn try_from(value: String) -> (parsed: Result<Url, UrlParseFailed>)
        ensures
            is_absolute_url(value@) ==> parsed is Ok && parsed->Ok_0@ == value@,
            !is_absolute_url(value@) ==> parsed is Err && parsed->Err_0@ == value@,
    {
        Url::parse(value)
    }
}

impl vstd::std_specs::convert::TryFromSpecImpl<String> for Url {
    /// `try_from` is described by its own contract.
    open spec fn obeys_try_from_spec() -> bool {
        false
    }

    open spec fn try_from_spec(value: String) -> Result<Url, UrlParseFailed> {
        arbitrary()
    }
}

impl<'a> TryFrom<&'a str> for Url {
    type Error = UrlParseFailed;

    fn try_from(value: &'a str) -> (parsed: Result<Url, UrlParseFailed>)
        ensures
            is_absolute_url(value@) ==> parsed is Ok && parsed->Ok_0@ == value@,
            !is_absolute_url(value@) ==> parsed is Err && parsed->Err_0@ == value@,
    {
        Url::parse(value.to_owned())
    }
}

impl<'a> vstd::std_specs::convert::TryFromSpecImpl<&'a str> for Url {
    /// `try_from` is described by its own contract.
    open spec fn obeys_try_from_spec() -> bool {
        false
    }

    open spec fn try_from_spec(value: &'a str) -> Result<Url, UrlParseFailed> {
        arbitrary()
    }
}

impl Clone for Url {
    fn clone(&self) -> (copy: Self)
        ensures
            copy@ == self@,
            is_absolute_url(copy@),
    {
        proof {
            use_type_invariant(self);
        }
        Url(self.0.clone())
    }
}

} // verus!
