//! The decoding laws, stated over the envelope model and proved once for
//! every payload shape.

use vstd::prelude::*;

use crate::envelope::{verdict_of, EnvelopeView, Verdict};
use crate::error::normalized;

verus! {

/// A successful envelope decodes to its payload: whenever `success` is true
/// and `data` is present, the verdict is exactly the decoded payload — which
/// the payload decoders build field for field from the `data` value, mapping
/// an omitted or `null` optional field to `None`.
pub proof fn lemma_success_envelope_yields_payload<P>(e: EnvelopeView<P>)
    requires
        e.success,
        e.data is Some,
    ensures
        verdict_of(Some(e)) == Verdict::Payload(e.data.unwrap()),
{
}

/// A failing envelope decodes to its reported errors, normalized one for
/// one: whenever `success` is false and `errors` carries N entries, the
/// verdict carries exactly those N entries, and normalization keeps the
/// length and order, copies every field verbatim, and marks no entry as
/// internal.
pub proof fn lemma_failing_envelope_yields_normalized_errors<P>(e: EnvelopeView<P>)
    requires
        !e.success,
        e.errors is Some,
    ensures
        verdict_of(Some(e)) == Verdict::Reported::<P>(e.errors.unwrap()),
        normalized(e.errors.unwrap()).len() == e.errors.unwrap().len(),
        forall|i: int|
            0 <= i < e.errors.unwrap().len() ==> {
                let n = #[trigger] normalized(e.errors.unwrap())[i];
                n.error_type == e.errors.unwrap()[i].error_type && n.code == e.errors.unwrap()[i].code
                    && n.message == e.errors.unwrap()[i].message && !n.internal
            },
{
}

/// An envelope that contradicts itself is malformed: `success` true without
/// `data`, or `success` false without `errors`, never yields a payload or a
/// reported-error list.
pub proof fn lemma_contradictory_envelope_is_malformed<P>(e: EnvelopeView<P>)
    requires
        (e.success && e.data is None) || (!e.success && e.errors is None),
    ensures
        verdict_of(Some(e)) == Verdict::Malformed::<P>,
{
}

} // verus!
