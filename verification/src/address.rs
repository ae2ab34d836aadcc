//! Addresses with a query string, which the `url` crate writes.

use vstd::prelude::*;
use vstd::string::*;
use vstd::utf8::encode_utf8;
use crate::errors::{ErrorView, SignalWireError};

verus! {

/// The address that `Url::parse_with_params` writes for a base address and
/// the pairs of a query, or `None` where it refuses the base address.
pub uninterp spec fn url_with_params(base: Seq<char>, params: Seq<(Seq<char>, Seq<char>)>) -> Option<Seq<char>>;

/// The words that `Display` writes for the error with which
/// `Url::parse_with_params` refuses a base address.
pub uninterp spec fn url_refusal(base: Seq<char>, params: Seq<(Seq<char>, Seq<char>)>) -> Seq<char>;

/// The most bytes of base address and query pairs that are handed to the
/// parser. Its addresses end at 4 GB; this leaves room for what it escapes.
pub const MAX_QUERY_BYTES: usize = 0x100_0000;

/// The length of a text in bytes.
pub open spec fn byte_len(text: Seq<char>) -> nat {
    encode_utf8(text).len()
}

/// The bytes that one pair of a query takes before escaping, separators included.
pub open spec fn pair_bytes(pair: (Seq<char>, Seq<char>)) -> nat {
    byte_len(pair.0) + byte_len(pair.1) + 2
}

/// The bytes that the pairs of a query take before escaping.
pub open spec fn params_bytes(params: Seq<(Seq<char>, Seq<char>)>) -> nat
    decreases params.len(),
{
    if params.len() == 0 {
        0
    } else {
        params_bytes(params.drop_last()) + pair_bytes(params.last())
    }
}

/// Whether a base address and the pairs of a query are short enough to be
/// handed to the parser.
pub open spec fn query_fits(base: Seq<char>, params: Seq<(Seq<char>, Seq<char>)>) -> bool {
    byte_len(base) + params_bytes(params) <= MAX_QUERY_BYTES
}

/// The text of the error for a base address and query pairs that are too long.
pub open spec fn too_long_text() -> Seq<char> {
    "address and query parameters are too long"@
}

/// What `with_query` returns, given what the parser makes of the base address.
pub open spec fn with_query_view(
    base: Seq<char>,
    params: Seq<(Seq<char>, Seq<char>)>,
    result: Result<Seq<char>, ErrorView>,
) -> bool {
    if !query_fits(base, params) {
        result == Err::<Seq<char>, ErrorView>(ErrorView::Unexpected(too_long_text()))
    } else {
        match url_with_params(base, params) {
            Some(address) => result == Ok::<Seq<char>, ErrorView>(address),
            None => result == Err::<Seq<char>, ErrorView>(
                ErrorView::Unexpected(url_refusal(base, params)),
            ),
        }
    }
}

proof fn lemma_params_bytes_step(params: Seq<(Seq<char>, Seq<char>)>, upto: int)
    requires
        0 <= upto < params.len(),
    ensures
        params_bytes(params.subrange(0, upto + 1)) == params_bytes(params.subrange(0, upto))
            + pair_bytes(params[upto]),
{
    let longer = params.subrange(0, upto + 1);
    assert(longer.drop_last() =~= params.subrange(0, upto));
}

proof fn lemma_params_bytes_grows(params: Seq<(Seq<char>, Seq<char>)>, upto: int)
    requires
        0 <= upto <= params.len(),
    ensures
        params_bytes(params.subrange(0, upto)) <= params_bytes(params),
    decreases params.len() - upto,
{
    if upto == params.len() {
        assert(params.subrange(0, upto) =~= params);
    } else {
        lemma_params_bytes_step(params, upto);
        lemma_params_bytes_grows(params, upto + 1);
    }
}

/// Whether a base address and the pairs of a query are short enough to be
/// handed to the parser.
pub fn fits(base: &str, params: &[(String, String)]) -> (yes: bool)
    ensures
        yes == query_fits(base@, params.deep_view()),
{
    let ghost pairs = params.deep_view();
    let base_len = base.as_bytes().len();
    if base_len > MAX_QUERY_BYTES {
        return false;
    }
    let mut room: usize = MAX_QUERY_BYTES - base_len;
    let mut done: usize = 0;
    while done < params.len()
        invariant
            done <= params.len(),
            pairs == params.deep_view(),
            room + byte_len(base@) + params_bytes(pairs.subrange(0, done as int))
                == MAX_QUERY_BYTES,
        decreases params.len() - done,
    {
        let name_len = params[done].0.as_str().as_bytes().len();
        let value_len = params[done].1.as_str().as_bytes().len();
        proof {
            lemma_params_bytes_step(pairs, done as int);
            lemma_params_bytes_grows(pairs, done + 1);
        }
        if name_len > room || value_len > room - name_len || 2 > room - name_len - value_len {
            return false;
        }
        room = room - name_len - value_len - 2;
        done = done + 1;
    }
    assert(pairs.subrange(0, done as int) =~= pairs);
    true
}

/// Calls `Url::parse_with_params` and hands back the address as text, or
/// the words of `to_string` for the error. The contract gives both a name
/// and claims no more than that: equal input gives equal output, an address
/// or a refusal with its words. The parser keeps its positions in 32 bits and
/// panics on an address beyond them; the bound on the input stays far below
/// that.
#[verifier::external_body]
fn parse_with_params(base: &str, params: &[(String, String)]) -> (r: Result<String, String>)
    requires
        query_fits(base@, params.deep_view()),
    ensures
        (match r {
            Ok(address) => url_with_params(base@, params.deep_view()) == Some(address@),
            Err(words) => url_with_params(base@, params.deep_view()) is None && url_refusal(
                base@,
                params.deep_view(),
            ) == words@,
        }),
{
    match reqwest::Url::parse_with_params(base, params) {
        Ok(address) => Ok(String::from(address)),
        Err(error) => Err(error.to_string()),
    }
}

/// Ends the writing of an address: the address that the parser wrote, or
/// `Unexpected` with the parser's words.
pub fn address_or_error(parsed: Result<String, String>) -> (r: Result<String, SignalWireError>)
    ensures
        (match parsed {
            Ok(address) => r matches Ok(text) && text@ == address@,
            Err(reason) => r matches Err(e) && e@ == ErrorView::Unexpected(reason@),
        }),
{
    match parsed {
        Ok(address) => Ok(address),
        Err(reason) => Err(SignalWireError::Unexpected(reason)),
    }
}

/// Writes the address for a base address and the pairs of a query, in their
/// order. A base address that the parser refuses ends in `Unexpected` with
/// the parser's words, and input that is too long in `Unexpected` too.
pub fn with_query(base: &str, params: &[(String, String)]) -> (r: Result<String, SignalWireError>)
    ensures
        with_query_view(base@, params.deep_view(), crate::http::text_result_view(r)),
{
    if !fits(base, params) {
        return Err(
            SignalWireError::Unexpected(
                String::from_str("address and query parameters are too long"),
            ),
        );
    }
    address_or_error(parse_with_params(base, params))
}

} // verus!
