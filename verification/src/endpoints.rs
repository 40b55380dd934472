//! The two request pipelines: the permissive one, which trusts what a
//! sender adds to the state, and the strict one, which does not.
//!
//! Both decode the text, bind the bytes and format the outcome. Only the
//! strict pipeline validates the bound state; the permissive one leaves
//! value ranges unchecked.

use crate::binder::{
    alike_but_for_undeclared_values, bind, bind_document, bound, bound_bytes, document_of,
    lemma_document_binds_to_its_state, lemma_strict_binding_ignores_undeclared_values,
    result_view, BindError, BindErrorView,
};
use crate::decoder::{base64_decoded, decode, has_base64_shape, DecodeError};
use crate::json::{json_of, json_parsed, Json};
use crate::response::{
    echo, format_response, reply, Outcome, OutcomeView, Response, ResponseView, STATUS_OK,
};
use crate::schema::{
    Binding, BindingView, EncodedEnvelope, Mode, PlayerStateView, UndeclaredAttributes,
    ITEM_SLOTS, MAX_SWORD_LEVEL,
};
use crate::validator::{validate, validated};
use vstd::prelude::*;

verus! {

/// The outcome for a bound state: the strict mode validates it, the
/// permissive mode accepts it as it is.
pub open spec fn settled(binding: BindingView, mode: Mode) -> OutcomeView {
    match mode {
        Mode::Permissive => OutcomeView::Accepted(binding),
        Mode::Strict => match validated(binding.state) {
            Err(error) => OutcomeView::ValidationFailed(error),
            Ok(_) => OutcomeView::Accepted(binding),
        },
    }
}

/// The outcome for the result of a binding.
pub open spec fn concluded(result: Result<BindingView, BindErrorView>, mode: Mode) -> OutcomeView {
    match result {
        Err(error) => OutcomeView::BindFailed(error),
        Ok(binding) => settled(binding, mode),
    }
}

/// The outcome for a parsed document.
pub open spec fn resolved(doc: Json, mode: Mode) -> OutcomeView {
    concluded(bound(doc, mode), mode)
}

/// The outcome for the text of a request.
pub open spec fn resolved_text(text: Seq<char>, mode: Mode) -> OutcomeView {
    match base64_decoded(text) {
        None => OutcomeView::DecodeFailed(DecodeError),
        Some(bytes) => concluded(bound_bytes(bytes, mode), mode),
    }
}

/// The document inside the text of a request, where the text decodes and
/// the bytes parse.
pub open spec fn document_in(text: Seq<char>) -> Option<Json> {
    match base64_decoded(text) {
        None => None,
        Some(bytes) => match json_parsed(bytes) {
            Err(_) => None,
            Ok(doc) => Some(doc),
        },
    }
}

/// Decides on a bound state: validates it in strict mode, accepts it
/// unchecked in permissive mode.
pub fn settle(binding: Binding, mode: Mode) -> (r: Outcome)
    ensures
        r@ == settled(binding@, mode),
{
    match mode {
        Mode::Permissive => Outcome::Accepted(binding),
        Mode::Strict => match validate(&binding.state) {
            Err(error) => Outcome::ValidationFailed(error),
            Ok(_) => Outcome::Accepted(binding),
        },
    }
}

/// Decides on the result of a binding.
pub fn conclude(result: Result<Binding, BindError>, mode: Mode) -> (r: Outcome)
    ensures
        r@ == concluded(result_view(result), mode),
{
    match result {
        Err(error) => Outcome::BindFailed(error),
        Ok(binding) => settle(binding, mode),
    }
}

/// Runs a parsed document through binding and, in strict mode,
/// validation.
pub fn resolve_document(doc: &serde_json::Value, mode: Mode) -> (r: Outcome)
    ensures
        r@ == resolved(json_of(*doc), mode),
{
    conclude(bind_document(doc, mode), mode)
}

/// Runs the text of a request through decoding, binding and, in strict
/// mode, validation.
///
/// Text that lacks the shape of padded base64 always ends in
/// `DecodeFailed`.
pub fn resolve(player_state: &str, mode: Mode) -> (r: Outcome)
    ensures
        r@ == resolved_text(player_state@, mode),
        !has_base64_shape(player_state@) ==> r@ == OutcomeView::DecodeFailed(DecodeError),
{
    match decode(player_state) {
        Err(error) => Outcome::DecodeFailed(error),
        Ok(bytes) => conclude(bind(bytes.as_slice(), mode), mode),
    }
}

/// Answers a request for a parsed document, in either mode.
pub fn respond_to_document(user_id: u32, mode: Mode, doc: &serde_json::Value) -> (r: Response)
    ensures
        r@ == reply(user_id, mode, resolved(json_of(*doc), mode)),
{
    let outcome = resolve_document(doc, mode);
    format_response(user_id, mode, &outcome)
}

/// The permissive pipeline. It binds with the schema that holds the
/// optional fields `isAdmin` and `gold`, validates nothing, and announces
/// in the response what those fields granted.
pub fn vulnerable_state_update(user_id: u32, envelope: EncodedEnvelope) -> (r: Response)
    ensures
        r@ == reply(user_id, Mode::Permissive, resolved_text(envelope@, Mode::Permissive)),
        !has_base64_shape(envelope@) ==> r@ == reply(
            user_id,
            Mode::Permissive,
            OutcomeView::DecodeFailed(DecodeError),
        ),
{
    let outcome = resolve(envelope.player_state.as_str(), Mode::Permissive);
    format_response(user_id, Mode::Permissive, &outcome)
}

/// The strict pipeline. It rejects any field beyond the declared ones
/// before anything reads the state, then checks the value ranges, and
/// echoes the sword level only.
pub fn secure_state_update(user_id: u32, envelope: EncodedEnvelope) -> (r: Response)
    ensures
        r@ == reply(user_id, Mode::Strict, resolved_text(envelope@, Mode::Strict)),
        !has_base64_shape(envelope@) ==> r@ == reply(
            user_id,
            Mode::Strict,
            OutcomeView::DecodeFailed(DecodeError),
        ),
{
    let outcome = resolve(envelope.player_state.as_str(), Mode::Strict);
    format_response(user_id, Mode::Strict, &outcome)
}

/// Every state that binds in strict mode with a sword level within the
/// bound is answered with success, and the message echoes that level
/// and nothing of the optional fields.
pub proof fn lemma_valid_state_is_echoed(user_id: u32, doc: Json)
    requires
        bound(doc, Mode::Strict) is Ok,
        bound(doc, Mode::Strict)->Ok_0.state.sword_level() <= MAX_SWORD_LEVEL,
    ensures
        reply(user_id, Mode::Strict, resolved(doc, Mode::Strict)) == (ResponseView {
            status: STATUS_OK,
            body: echo(user_id, Mode::Strict, bound(doc, Mode::Strict)->Ok_0.state.sword_level()),
        }),
{
}

/// Round trip. The document of a state whose sword level is within the
/// bound goes through strict binding and validation unchanged: the
/// response is a success that echoes the very sword level of the state.
pub proof fn lemma_round_trip(user_id: u32, state: PlayerStateView)
    requires
        state.items.len() == ITEM_SLOTS,
        state.sword_level() <= MAX_SWORD_LEVEL,
    ensures
        resolved(document_of(state), Mode::Strict) == OutcomeView::Accepted(
            BindingView { state, undeclared: UndeclaredAttributes::none() },
        ),
        reply(user_id, Mode::Strict, resolved(document_of(state), Mode::Strict)) == (ResponseView {
            status: STATUS_OK,
            body: echo(user_id, Mode::Strict, state.sword_level()),
        }),
{
    lemma_document_binds_to_its_state(state);
}

/// The strict response tells nothing of the value of an undeclared
/// field. Two documents that differ at most in such values get the same
/// response from the strict pipeline.
pub proof fn lemma_strict_response_hides_undeclared_values(
    user_id: u32,
    first: Json,
    second: Json,
)
    requires
        alike_but_for_undeclared_values(first, second),
    ensures
        resolved(first, Mode::Strict) == resolved(second, Mode::Strict),
        reply(user_id, Mode::Strict, resolved(first, Mode::Strict)) == reply(
            user_id,
            Mode::Strict,
            resolved(second, Mode::Strict),
        ),
{
    lemma_strict_binding_ignores_undeclared_values(first, second);
}

/// The same of whole requests. Where two texts decode to documents that
/// differ at most in the values of undeclared fields, the strict
/// pipeline answers both alike.
pub proof fn lemma_strict_pipeline_hides_undeclared_values(
    user_id: u32,
    first: Seq<char>,
    second: Seq<char>,
)
    ensures
        document_in(first) is Some && document_in(second) is Some
            && alike_but_for_undeclared_values(
            document_in(first)->Some_0,
            document_in(second)->Some_0,
        ) ==> reply(user_id, Mode::Strict, resolved_text(first, Mode::Strict)) == reply(
            user_id,
            Mode::Strict,
            resolved_text(second, Mode::Strict),
        ),
{
    if document_in(first) is Some && document_in(second) is Some
        && alike_but_for_undeclared_values(
        document_in(first)->Some_0,
        document_in(second)->Some_0,
    ) {
        lemma_strict_binding_ignores_undeclared_values(
            document_in(first)->Some_0,
            document_in(second)->Some_0,
        );
    }
}

} // verus!
