//! What holds of the service as a whole, stated over the spec functions that
//! the contracts of `auth`, `routes` and `handlers` use, and proved from them.

use vstd::prelude::*;
use vstd::utf8::*;
use crate::auth::{
    accepts, base64_decoded, first_colon_at, pair_in, pair_in_header, scheme, scheme_bytes,
    token_of, CredentialPair, COLON,
};
use crate::handlers::{
    hello_response, listing_response, lookup_response, not_auth_response, outcome_response,
    removal_response, write_response,
};
use crate::models::{NewRustaceanView, RustaceanView};
use crate::response::{no_content_response, record_response, text_response, BodyView, Status};
use crate::routes::{first_step, EndpointView, StepView};
use crate::storage::{
    driver_failure, driver_row_missing, driver_text, OutcomeView, QueryView, StorageErrorView,
};

verus! {

/// The decoded form of a pair: the username's UTF-8, a colon, the password's
/// UTF-8.
pub open spec fn spelled(pair: CredentialPair) -> Seq<u8> {
    encode_utf8(pair.username) + seq![COLON] + encode_utf8(pair.password)
}

proof fn lemma_ascii_byte_is_itself(scalar: u32)
    by (bit_vector)
    requires
        scalar <= 0x7f,
        scalar != 0x3a,
    ensures
        (scalar & 0x7f) as u8 != 0x3au8,
{
}

proof fn lemma_marked_byte_is_no_colon(low: u8)
    by (bit_vector)
    ensures
        0x80u8 | low != 0x3au8,
        0xc0u8 | low != 0x3au8,
        0xe0u8 | low != 0x3au8,
        0xf0u8 | low != 0x3au8,
{
}

/// The encoding of a scalar other than the colon holds no colon byte.
proof fn lemma_scalar_without_colon(scalar: u32)
    requires
        scalar != 0x3a,
    ensures
        !encode_scalar(scalar).contains(COLON),
{
    if has_width_1_encoding(scalar) {
        lemma_ascii_byte_is_itself(scalar);
    }
    lemma_marked_byte_is_no_colon((scalar & 0x3f) as u8);
    lemma_marked_byte_is_no_colon(((scalar >> 6) & 0x3f) as u8);
    lemma_marked_byte_is_no_colon(((scalar >> 12) & 0x3f) as u8);
    lemma_marked_byte_is_no_colon(((scalar >> 6) & 0x1f) as u8);
    lemma_marked_byte_is_no_colon(((scalar >> 12) & 0x0f) as u8);
    lemma_marked_byte_is_no_colon(((scalar >> 18) & 0x7) as u8);
}

/// The encoding of a text without a colon holds no colon byte.
proof fn lemma_text_without_colon(text: Seq<char>)
    requires
        !text.contains(':'),
    ensures
        !encode_utf8(text).contains(COLON),
    decreases text.len(),
{
    if text.len() > 0 {
        let head = encode_scalar(text[0] as u32);
        let tail = encode_utf8(text.drop_first());
        assert(text[0] as u32 != 0x3a) by {
            assert(text[0] != ':');
            if text[0] as u32 == 0x3a {
                char_u32_cast(text[0], 0x3a);
                char_u32_cast(':', 0x3a);
            }
        }
        char_is_scalar(text[0]);
        lemma_scalar_without_colon(text[0] as u32);
        assert(!text.drop_first().contains(':')) by {
            if text.drop_first().contains(':') {
                let i = choose|i: int|
                    0 <= i < text.drop_first().len() && text.drop_first()[i] == ':';
                assert(text[i + 1] == ':');
            }
        }
        lemma_text_without_colon(text.drop_first());
        assert(!(head + tail).contains(COLON)) by {
            if (head + tail).contains(COLON) {
                let i = choose|i: int| 0 <= i < (head + tail).len() && (head + tail)[i] == COLON;
                if i < head.len() {
                    assert(head[i] == COLON);
                } else {
                    assert(tail[i - head.len()] == COLON);
                }
            }
        }
    }
}

/// A pair whose username holds no colon is read back from its spelled form,
/// whatever the password.
pub proof fn spelled_pair_reads_back(pair: CredentialPair)
    requires
        !pair.username.contains(':'),
    ensures
        pair_in(spelled(pair)) == Some(pair),
{
    let username = encode_utf8(pair.username);
    let password = encode_utf8(pair.password);
    let decoded = spelled(pair);
    let at = username.len() as int;
    lemma_text_without_colon(pair.username);
    assert(forall|j: int| 0 <= j < at ==> decoded[j] == username[j]);
    first_colon_at(decoded, at);
    assert(decoded.subrange(0, at) =~= username);
    assert(decoded.subrange(at + 1, decoded.len() as int) =~= password);
    encode_utf8_valid_utf8(pair.username);
    encode_utf8_valid_utf8(pair.password);
    encode_utf8_decode_utf8(pair.username);
    encode_utf8_decode_utf8(pair.password);
}

/// A header that reads `Basic `, then a token that decodes to the spelled form
/// of the configured pair, is accepted.
pub proof fn configured_pair_is_accepted(token: Seq<u8>, expected: CredentialPair)
    requires
        !expected.username.contains(':'),
    ensures
        base64_decoded(token) == Some(spelled(expected)) ==> accepts(
            Some(scheme() + token),
            Some(expected),
        ),
{
    let header = scheme() + token;
    scheme_bytes();
    assert(header.subrange(0, scheme().len() as int) =~= scheme());
    assert(header.skip(scheme().len() as int) =~= token);
    spelled_pair_reads_back(expected);
}

/// Nothing else is accepted: no header, no configured pair, another scheme, a
/// token that is not base64, decoded bytes that hold no pair, or a pair that is
/// not the configured one.
pub proof fn other_headers_are_refused(
    header: Seq<u8>,
    expected: CredentialPair,
    any: Option<CredentialPair>,
)
    ensures
        !accepts(None, any),
        !accepts(Some(header), None),
        token_of(header) is None ==> !accepts(Some(header), any),
        token_of(header) matches Some(token) && base64_decoded(token) is None ==> !accepts(
            Some(header),
            any,
        ),
        token_of(header) matches Some(token) && base64_decoded(token) matches Some(decoded)
            && pair_in(decoded) is None ==> !accepts(Some(header), any),
        pair_in_header(header) matches Some(pair) && pair != expected ==> !accepts(
            Some(header),
            Some(expected),
        ),
{
}

/// Every guarded endpoint treats a request alike: with an accepted header it
/// goes on to the endpoint's query, and without one it is answered 401 with
/// the fixed body and no query is run.
pub proof fn guard_decides_every_guarded_endpoint(
    endpoint: EndpointView,
    authorization: Option<Seq<u8>>,
    expected: Option<CredentialPair>,
)
    requires
        endpoint.is_guarded(),
    ensures
        endpoint.query() is Some,
        accepts(authorization, expected) ==> first_step(endpoint, authorization, expected)
            == StepView::Run(endpoint.query()->0),
        !accepts(authorization, expected) ==> first_step(endpoint, authorization, expected)
            == StepView::Respond(not_auth_response()),
        not_auth_response().status.spec_code() == 401,
        not_auth_response().body == BodyView::Text("Not auth!"@),
{
}

/// The greeting is answered at once, whatever the header and whatever is
/// configured.
pub proof fn greeting_is_open(authorization: Option<Seq<u8>>, expected: Option<CredentialPair>)
    ensures
        !EndpointView::Hello.is_guarded(),
        first_step(EndpointView::Hello, authorization, expected) == StepView::Respond(
            hello_response(),
        ),
{
}

/// A creation hands storage the payload's name and email and nothing else:
/// the client supplies neither id nor timestamp. The answer to a successful
/// insert is 200 with the record that storage populated, as it is.
pub proof fn creation_leaves_identity_to_storage(
    new_rustacean: NewRustaceanView,
    stored: RustaceanView,
)
    ensures
        (EndpointView::CreateRustacean { new_rustacean }).query() == Some(
            QueryView::Create { new_rustacean },
        ),
        outcome_response(OutcomeView::Created(Ok(stored))) == record_response(stored),
        record_response(stored).status.spec_code() == 200,
{
}

/// A record answers alike whether storage returned it from the insert or from
/// a later lookup: 200, and the record as it is.
pub proof fn stored_record_is_answered_as_it_is(record: RustaceanView)
    ensures
        outcome_response(OutcomeView::Created(Ok(record))) == record_response(record),
        outcome_response(OutcomeView::Found(Ok(record))) == record_response(record),
        outcome_response(OutcomeView::Saved(Ok(record))) == record_response(record),
        record_response(record).status.spec_code() == 200,
        record_response(record).body == BodyView::Record(record),
{
}

/// A lookup that matched no row answers 404 with the driver's text.
pub proof fn missing_record_is_not_found(message: Seq<char>)
    ensures
        lookup_response(Err(StorageErrorView::NotFound { message })) == text_response(
            Status::NotFound,
            message,
        ),
        Status::NotFound.spec_code() == 404,
{
}

/// A failure of the driver shows as 404 exactly where a lookup by id matched
/// no row. Everywhere else, and for every other failure, it shows as 500. The
/// body is the driver's text in each case.
pub proof fn driver_failure_is_answered_by_kind(error: diesel::result::Error)
    ensures
        lookup_response(Err(driver_failure(error))) == text_response(
            if driver_row_missing(error) {
                Status::NotFound
            } else {
                Status::InternalServerError
            },
            driver_text(error),
        ),
        listing_response(Err(driver_failure(error))) == text_response(
            Status::InternalServerError,
            driver_text(error),
        ),
        write_response(Err(driver_failure(error))) == text_response(
            Status::InternalServerError,
            driver_text(error),
        ),
        removal_response(Err(driver_failure(error))) == text_response(
            Status::InternalServerError,
            driver_text(error),
        ),
        Status::InternalServerError.spec_code() == 500,
{
}

/// An update runs on the id of the path and takes name and email from the
/// body: two bodies that agree on both ask for the same query, whatever id and
/// timestamp they carry.
pub proof fn update_goes_by_the_path(id: int, first: RustaceanView, second: RustaceanView)
    requires
        first.name == second.name,
        first.email == second.email,
    ensures
        (EndpointView::UpdateRustacean { id, rustacean: first }).query() == Some(
            QueryView::Save { id, name: first.name, email: first.email },
        ),
        (EndpointView::UpdateRustacean { id, rustacean: first }).query() == (
        EndpointView::UpdateRustacean { id, rustacean: second }).query(),
{
}

/// A listing asks storage for 100 records at most, and answers with the
/// records that storage returned, all of them and in their order: as many as
/// storage returned, so at most 100 where storage kept to the limit, and an
/// empty array, not a failure, where it returned none.
pub proof fn listing_is_capped(records: Seq<RustaceanView>)
    ensures
        EndpointView::GetRustaceans.query() == Some(QueryView::FindMultiple { limit: 100 }),
        listing_response(Ok(records)).body == BodyView::Records(records),
        listing_response(Ok(records)).status.spec_code() == 200,
        records.len() <= 100 ==> (listing_response(Ok(records)).body matches BodyView::Records(
            listed,
        ) && listed.len() <= 100),
        listing_response(Ok(Seq::empty())).body == BodyView::Records(Seq::empty()),
{
}

/// A removal answers 204 without a body whether it removed a row or none, so
/// removing the same id twice answers alike both times.
pub proof fn removal_is_idempotent(first: nat, second: nat)
    ensures
        removal_response(Ok(first)) == no_content_response(),
        removal_response(Ok(first)) == removal_response(Ok(second)),
        no_content_response().status.spec_code() == 204,
        no_content_response().body == BodyView::Empty,
{
}

} // verus!
