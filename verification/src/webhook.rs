//! Delivery decisions of the webhook forwarder, the downstream connector
//! that posts produced batches to a configured URL.
//!
//! The HTTP client, the headers and the JSON encoding live in the host;
//! this module holds the connector's decisions: what to send for a batch
//! or an invalidation, and whether the engine should persist its
//! resumption checkpoint afterwards.

use vstd::prelude::*;

verus! {

/// Whether the engine persists its resumption checkpoint after a batch
/// was handled.
#[derive(Clone, Copy, Debug, PartialEq, Eq)]
pub enum CursorAction {
    Persist,
    Skip,
}

/// What the forwarder sends for one batch of data.
#[derive(Clone, Copy, Debug, PartialEq, Eq)]
pub enum WebhookDataPlan {
    /// Raw mode on an array batch: one request per element, the bare
    /// element as the body.
    SendEachValue,
    /// Raw mode on a batch that is no array: send nothing, only warn.
    SkipMalformedBatch,
    /// Envelope mode: one request wrapping the cursors, the finality and
    /// the whole batch.
    SendWrappedBatch,
}

/// Decides what to send for a batch: raw mode posts each element of an
/// array batch on its own and refuses other shapes with a warning;
/// envelope mode posts one wrapped body.
pub fn plan_data_delivery(raw: bool, batch_is_array: bool) -> (p: WebhookDataPlan)
    ensures
        raw && batch_is_array ==> p == WebhookDataPlan::SendEachValue,
        raw && !batch_is_array ==> p == WebhookDataPlan::SkipMalformedBatch,
        !raw ==> p == WebhookDataPlan::SendWrappedBatch,
{
    if raw {
        if batch_is_array {
            WebhookDataPlan::SendEachValue
        } else {
            WebhookDataPlan::SkipMalformedBatch
        }
    } else {
        WebhookDataPlan::SendWrappedBatch
    }
}

/// The checkpoint is persisted after every handled batch, also after a
/// malformed raw batch that sent nothing.
pub fn data_cursor_action(_plan: &WebhookDataPlan) -> (a: CursorAction)
    ensures
        a == CursorAction::Persist,
{
    CursorAction::Persist
}

/// Decides whether an invalidation is posted at all: raw mode sends
/// nothing for invalidations, envelope mode posts the invalidated
/// cursor.
pub fn plan_invalidate_delivery(raw: bool) -> (send: bool)
    ensures
        send == !raw,
{
    !raw
}

/// The label an absent cursor gets in diagnostics around an
/// invalidation.
pub fn genesis_label() -> (r: &'static str)
    ensures
        r@ == "genesis"@,
{
    "genesis"
}

} // verus!
