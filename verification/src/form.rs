//! The declared content type of a body, and url-encoded form fields.

use vstd::prelude::*;
use crate::types::{pairs_model, FormData};

verus! {

/// The top-level type and the subtype that a declared content type parses
/// to, both in lower case, or `None` where it is no media type.
pub uninterp spec fn mime_essence(declared: Seq<char>) -> Option<(Seq<char>, Seq<char>)>;

/// `mime::Mime::from_str`, reached through `str::parse`, with `Mime::type_`
/// and `Mime::subtype` of what was parsed, each as its string. The contract
/// names the result and claims nothing more of it.
#[verifier::external_body]
pub(crate) fn parse_mime(declared: &str) -> (essence: Option<(String, String)>)
    ensures
        essence_model(essence) == mime_essence(declared@),
{
    match declared.parse::<mime::Mime>() {
        Ok(m) => Some((m.type_().as_str().to_owned(), m.subtype().as_str().to_owned())),
        Err(_) => None,
    }
}

/// A parsed content type over sequences of characters.
pub open spec fn essence_model(essence: Option<(String, String)>) -> Option<
    (Seq<char>, Seq<char>),
> {
    match essence {
        Some(pair) => Some((pair.0@, pair.1@)),
        None => None,
    }
}

/// Whether a parsed content type is the one under which a body holds form
/// fields: `application/x-www-form-urlencoded`.
pub open spec fn is_form_urlencoded(essence: Option<(Seq<char>, Seq<char>)>) -> bool {
    essence == Some(("application"@, "x-www-form-urlencoded"@))
}

/// Decides whether a parsed content type admits form fields.
pub fn accepts_form_fields(essence: &Option<(String, String)>) -> (accepted: bool)
    ensures
        accepted == is_form_urlencoded(essence_model(*essence)),
{
    match essence {
        Some(pair) => {
            let top = "application".to_owned();
            let sub = "x-www-form-urlencoded".to_owned();
            pair.0 == top && pair.1 == sub
        },
        None => false,
    }
}

/// The fields that url-encoded bytes hold: names and values
/// percent-decoded, in the order of the bytes.
pub uninterp spec fn form_pairs(bytes: Seq<u8>) -> Seq<(Seq<char>, Seq<char>)>;

/// `url::form_urlencoded::parse`, its pairs collected as owned strings. The
/// contract names the list and claims nothing more of it.
#[verifier::external_body]
pub(crate) fn parse_urlencoded(bytes: &[u8]) -> (pairs: Vec<(String, String)>)
    ensures
        pairs_model(pairs@) == form_pairs(bytes@),
{
    url::form_urlencoded::parse(bytes).into_owned().collect()
}

/// Fills a form with the given fields, in their order, keeping every one.
pub fn form_data_from_pairs(pairs: &Vec<(String, String)>) -> (form: FormData)
    ensures
        form@ == pairs_model(pairs@),
{
    let mut form = FormData::new();
    let mut i: usize = 0;
    while i < pairs.len()
        invariant
            i <= pairs.len(),
            form@ == pairs_model(pairs@.take(i as int)),
        decreases pairs.len() - i,
    {
        let name = pairs[i].0.clone();
        let value = pairs[i].1.clone();
        form.append(name, value);
        assert(form@ =~= pairs_model(pairs@.take(i + 1)));
        i = i + 1;
    }
    assert(pairs@.take(pairs.len() as int) =~= pairs@);
    form
}

} // verus!
