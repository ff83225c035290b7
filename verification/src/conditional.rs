//! The conditional-read rule: deciding between a full and an abbreviated
//! response from the stamp a poller last observed.
//!
//! Each polled state category owns one version stamp, advanced by the
//! single writer after every mutation. A read request may carry the text
//! form of a previously observed stamp; the handler answers with an
//! abbreviated "unchanged" payload exactly when both identifiers match the
//! current ones, and with the full payload otherwise — so an unknown
//! caller state, a restart, or a clock anomaly always forces a refresh.

use crate::encoding::{encode_u128, lemma_encode_injective};
use crate::stamp::UuidST;
use vstd::prelude::*;

verus! {

/// What a read handler sends back: the full payload, or an abbreviated
/// response signalling that nothing changed since the caller last looked.
#[derive(Clone, Copy, Debug, PartialEq, Eq)]
pub enum ReadOutcome {
    /// Return the full payload plus the current stamp.
    Full,
    /// Return the abbreviated payload, still carrying the (unchanged) stamp.
    Unchanged,
}

/// Decide the response shape for one poll: `prior_method` and
/// `prior_data` are the identifiers the caller observed last, in their
/// text form, or absent when the caller knows nothing yet. The outcome is
/// abbreviated exactly when both are present and both equal the text form
/// of the current stamp.
pub fn classify_poll(
    current: &UuidST,
    prior_method: Option<String>,
    prior_data: Option<String>,
) -> (r: ReadOutcome)
    ensures
        r is Unchanged <==> ({
            &&& prior_method matches Some(m)
            &&& m@ == encode_u128(current.spec_method_id())
            &&& prior_data matches Some(d)
            &&& d@ == encode_u128(current.spec_data_id())
        }),
{
    match (prior_method, prior_data) {
        (Some(m), Some(d)) => {
            let current_method = current.get_method_uuid();
            let current_data = current.get_data_uuid();
            if m.eq(&current_method) && d.eq(&current_data) {
                ReadOutcome::Unchanged
            } else {
                ReadOutcome::Full
            }
        },
        _ => ReadOutcome::Full,
    }
}

/// Law: for a poller that holds the text form of a stamp it previously
/// observed, the abbreviated outcome occurs exactly when that stamp's
/// identifiers equal the current ones — text equality neither misses a
/// change nor reports a phantom one.
pub proof fn lemma_text_equality_exact(current: &UuidST, prior_method: u128, prior_data: u128)
    ensures
        (encode_u128(prior_method) == encode_u128(current.spec_method_id()) && encode_u128(
            prior_data,
        ) == encode_u128(current.spec_data_id())) <==> (prior_method == current.spec_method_id()
            && prior_data == current.spec_data_id()),
{
    if encode_u128(prior_method) == encode_u128(current.spec_method_id()) {
        lemma_encode_injective(prior_method, current.spec_method_id());
    }
    if encode_u128(prior_data) == encode_u128(current.spec_data_id()) {
        lemma_encode_injective(prior_data, current.spec_data_id());
    }
}

} // verus!
