//! Reading the owner of a request from its header fields.

use crate::error::outcome_view;
use crate::error::ApiError;
use crate::error::ApiErrorView;
use axum::http::HeaderMap;
use axum::http::HeaderValue;
use vstd::prelude::*;

verus! {

/// The header field that names the owner of a request.
pub const OWNER_HEADER: &'static str = "x-owner";

/// `http::HeaderMap`, the multimap of header fields that axum hands to a
/// handler. Nothing is claimed of what is inside; it is carried through to
/// the lookup.
#[verifier::external_type_specification]
#[verifier::external_body]
#[verifier::reject_recursive_types(T)]
pub struct ExHeaderMap<T>(HeaderMap<T>);

/// `http::HeaderValue`, the value type of a header map. Nothing is claimed of
/// what is inside.
#[verifier::external_type_specification]
#[verifier::external_body]
pub struct ExHeaderValue(HeaderValue);

/// What a header map holds, as far as `HeaderMap::get` can tell: for each
/// field name, in the lower-case form in which the map stores it, the bytes
/// of the first value filed under it. Nothing more is taken on trust of it
/// than what the lookup below says.
pub uninterp spec fn header_values(headers: HeaderMap) -> Map<Seq<char>, Seq<u8>>;

/// A field name in the form in which a header map stores it: lower-case
/// letters, digits and hyphens, at least one and at most 64 of them.
pub open spec fn is_stored_name(name: Seq<char>) -> bool {
    &&& 0 < name.len() <= 64
    &&& forall|i: int|
        0 <= i < name.len() ==> {
            let c = #[trigger] name[i];
            ('a' <= c && c <= 'z') || ('0' <= c && c <= '9') || c == '-'
        }
}

/// Looks a field up with `HeaderMap::get` and copies the bytes that
/// `HeaderValue::as_bytes` gives for the value found.
///
/// Taken on trust: the map matches names without regard to letter case by
/// storing them in lower case, so for a name already in that form the lookup
/// finds a value exactly when one is filed under that name, and where several
/// are, it is the first.
#[verifier::external_body]
fn first_value(headers: &HeaderMap, name: &str) -> (r: Option<Vec<u8>>)
    requires
        is_stored_name(name@),
    ensures
        r matches Some(bytes) ==> header_values(*headers).contains_key(name@) && bytes@
            == header_values(*headers)[name@],
        r is None ==> !header_values(*headers).contains_key(name@),
{
    headers.get(name).map(|value| value.as_bytes().to_vec())
}

/// Whether a byte is an ASCII decimal digit.
pub open spec fn is_digit(byte: u8) -> bool {
    48 <= byte <= 57
}

/// Whether every byte of a text is a decimal digit.
pub open spec fn all_digits(text: Seq<u8>) -> bool {
    forall|i: int| 0 <= i < text.len() ==> is_digit(#[trigger] text[i])
}

/// The number that a run of decimal digits writes, most significant digit
/// first. Leading zeros count for nothing.
pub open spec fn decimal_value(digits: Seq<u8>) -> nat
    decreases digits.len(),
{
    if digits.len() == 0 {
        0
    } else {
        decimal_value(digits.drop_last()) * 10 + (digits.last() - 48) as nat
    }
}

/// A header value without the plus sign that may lead it.
pub open spec fn unsigned_part(value: Seq<u8>) -> Seq<u8> {
    if value.len() > 0 && value[0] == 43 {
        value.skip(1)
    } else {
        value
    }
}

/// The owner that a header value names: the value is an optional plus sign
/// followed by one or more decimal digits and nothing else, and the number
/// written is positive and fits the identifier type. Any other value names no
/// owner.
pub open spec fn owner_id_of(value: Seq<u8>) -> Option<i32> {
    let digits = unsigned_part(value);
    if digits.len() > 0 && all_digits(digits) && 0 < decimal_value(digits) <= i32::MAX {
        Some(decimal_value(digits) as i32)
    } else {
        None
    }
}

/// The outcome of the ownership check on a set of header fields: the owner
/// named by the owner header, or the reason why there is none.
pub open spec fn owner_of(fields: Map<Seq<char>, Seq<u8>>) -> Result<i32, ApiErrorView> {
    if !fields.contains_key(OWNER_HEADER@) {
        Err(ApiErrorView::MissingOwnerHeader)
    } else {
        match owner_id_of(fields[OWNER_HEADER@]) {
            Some(owner_id) => Ok(owner_id),
            None => Err(ApiErrorView::InvalidOwnerHeader),
        }
    }
}

/// A run of digits is worth at least as much as any of its prefixes.
proof fn lemma_prefix_value(digits: Seq<u8>, k: int)
    requires
        all_digits(digits),
        0 <= k <= digits.len(),
    ensures
        decimal_value(digits.take(k)) <= decimal_value(digits),
    decreases digits.len(),
{
    if k == digits.len() {
        assert(digits.take(k) == digits);
    } else {
        let shorter = digits.drop_last();
        assert(all_digits(shorter));
        lemma_prefix_value(shorter, k);
        assert(shorter.take(k) == digits.take(k));
    }
}

/// Reads the owner identifier that a header value names.
pub fn parse_owner_id(value: &[u8]) -> (r: Option<i32>)
    ensures
        r == owner_id_of(value@),
{
    let n: usize = value.len();
    let start: usize = if n > 0 && value[0] == 43 {
        1
    } else {
        0
    };
    if start == n {
        return None;
    }
    let ghost digits = unsigned_part(value@);
    let mut acc: i32 = 0;
    let mut i: usize = start;
    while i < n
        invariant
            start <= i <= n,
            n == value@.len(),
            digits == unsigned_part(value@),
            digits == value@.skip(start as int),
            all_digits(digits.take(i - start)),
            acc == decimal_value(digits.take(i - start)),
        decreases n - i,
    {
        let byte: u8 = value[i];
        let ghost k = i - start;
        if byte < 48 || byte > 57 {
            assert(!is_digit(digits[k]));
            return None;
        }
        let digit: i32 = (byte - 48) as i32;
        proof {
            let longer = digits.take(k + 1);
            assert(longer.drop_last() == digits.take(k));
            assert(all_digits(longer));
        }
        if acc > (i32::MAX - digit) / 10 {
            proof {
                if all_digits(digits) {
                    lemma_prefix_value(digits, k + 1);
                }
            }
            return None;
        }
        acc = acc * 10 + digit;
        i += 1;
    }
    assert(digits.take(n - start) == digits);
    if acc == 0 {
        None
    } else {
        Some(acc)
    }
}

/// The ownership check that runs before every workspace operation: finds the
/// owner header among the request's header fields and reads the owner from it.
/// A request without the header, or with a value that names no owner, is
/// refused here and reaches no handler.
pub fn check_owner_id_middleware(headers: &HeaderMap) -> (r: Result<i32, ApiError>)
    ensures
        outcome_view(r) == owner_of(header_values(*headers)),
{
    proof {
        reveal_strlit("x-owner");
    }
    match first_value(headers, OWNER_HEADER) {
        None => Err(ApiError::MissingOwnerHeader),
        Some(bytes) => match parse_owner_id(bytes.as_slice()) {
            Some(owner_id) => Ok(owner_id),
            None => Err(ApiError::InvalidOwnerHeader),
        },
    }
}

} // verus!
