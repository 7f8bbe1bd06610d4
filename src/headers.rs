use vstd::prelude::*;
use reqwest::header::{HeaderName, HeaderValue, InvalidHeaderName, InvalidHeaderValue};

verus! {

#[verifier::external_type_specification]
#[verifier::external_body]
pub struct ExHeaderName(HeaderName);

#[verifier::external_type_specification]
#[verifier::external_body]
pub struct ExHeaderValue(HeaderValue);

#[verifier::external_type_specification]
#[verifier::external_body]
pub struct ExInvalidHeaderName(InvalidHeaderName);

#[verifier::external_type_specification]
#[verifier::external_body]
pub struct ExInvalidHeaderValue(InvalidHeaderValue);

/// A configuration error in the shared header set: the pair at `index` has a
/// name, or a value, that HTTP does not accept.
#[derive(PartialEq, Eq, Structural, Clone, Copy, Debug)]
pub enum ConfigError {
    BadHeaderName { index: usize },
    BadHeaderValue { index: usize },
}

/// Whether the http crate accepts the text as a header name.
pub uninterp spec fn header_name_accepted(name: Seq<char>) -> bool;

/// A header value may hold any character but the ASCII control characters
/// other than horizontal tab.
pub open spec fn header_value_accepted(value: Seq<char>) -> bool {
    forall|i: int|
        0 <= i < value.len() ==> {
            let c = #[trigger] value[i] as u32;
            (32 <= c && c != 127) || c == 9
        }
}

/// Relies on HeaderName::from_str: it accepts or refuses the name on its text
/// alone, and refuses the empty name.
#[verifier::external_body]
fn parse_header_name(s: &str) -> (r: Result<HeaderName, InvalidHeaderName>)
    ensures
        r is Ok <==> header_name_accepted(s@),
        s@.len() == 0 ==> r is Err,
{
    <HeaderName as std::str::FromStr>::from_str(s)
}

/// Relies on HeaderValue::from_str: it refuses exactly the texts holding a
/// byte below 32 other than tab, or the byte 127 (the bytes of a non-ASCII
/// character are all above 127).
#[verifier::external_body]
fn parse_header_value(s: &str) -> (r: Result<HeaderValue, InvalidHeaderValue>)
    ensures
        r is Ok <==> header_value_accepted(s@),
{
    HeaderValue::from_str(s)
}

pub open spec fn pair_accepted(p: (String, String)) -> bool {
    header_name_accepted(p.0@) && header_value_accepted(p.1@)
}

/// Turns the configured header pairs into typed headers, in order, or reports
/// the first pair whose name (checked first) or value is refused.
pub fn build_headers(pairs: &Vec<(String, String)>) -> (r: Result<Vec<(HeaderName, HeaderValue)>, ConfigError>)
    ensures
        r is Ok <==> forall|i: int| 0 <= i < pairs@.len() ==> pair_accepted(#[trigger] pairs@[i]),
        r is Ok ==> r->Ok_0@.len() == pairs@.len(),
        r matches Err(ConfigError::BadHeaderName { index }) ==> {
            &&& index < pairs@.len()
            &&& forall|j: int| 0 <= j < index ==> pair_accepted(#[trigger] pairs@[j])
            &&& !header_name_accepted(pairs@[index as int].0@)
        },
        r matches Err(ConfigError::BadHeaderValue { index }) ==> {
            &&& index < pairs@.len()
            &&& forall|j: int| 0 <= j < index ==> pair_accepted(#[trigger] pairs@[j])
            &&& header_name_accepted(pairs@[index as int].0@)
            &&& !header_value_accepted(pairs@[index as int].1@)
        },
{
    let mut out: Vec<(HeaderName, HeaderValue)> = Vec::new();
    let mut i: usize = 0;
    while i < pairs.len()
        invariant
            i <= pairs@.len(),
            out@.len() == i,
            forall|j: int| 0 <= j < i ==> pair_accepted(#[trigger] pairs@[j]),
        decreases pairs@.len() - i,
    {
        let name = match parse_header_name(pairs[i].0.as_str()) {
            Ok(n) => n,
            Err(_) => {
                return Err(ConfigError::BadHeaderName { index: i });
            },
        };
        let value = match parse_header_value(pairs[i].1.as_str()) {
            Ok(v) => v,
            Err(_) => {
                return Err(ConfigError::BadHeaderValue { index: i });
            },
        };
        out.push((name, value));
        i = i + 1;
    }
    Ok(out)
}

} // verus!
