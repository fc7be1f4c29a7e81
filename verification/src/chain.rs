//! What the workflow takes from `grin_core`: the transaction type of a slate
//! and the check that such a transaction is valid.

use vstd::prelude::*;
use grin_core::global::ChainTypes;

verus! {

#[verifier::external_type_specification]
#[verifier::external_body]
pub struct ExTransaction(grin_core::core::transaction::Transaction);

#[verifier::external_type_specification]
#[verifier::external_body]
pub struct ExChainTypes(ChainTypes);

/// Whether `grin_core::core::transaction::Transaction::validate`, with
/// `Weighting::AsTransaction`, accepts `tx` on a thread whose chain type is
/// `chain` and whose NRD-kernel flag is `nrd`.
pub uninterp spec fn tx_validates(
    tx: grin_core::core::transaction::Transaction,
    chain: ChainTypes,
    nrd: bool,
) -> bool;

/// Validates `tx` as a stand-alone transaction (`Weighting::AsTransaction`)
/// under the rules of `chain`, with NRD kernels allowed exactly when `nrd`,
/// through `grin_core::global::set_local_chain_type`,
/// `grin_core::global::set_local_nrd_enabled` and
/// `grin_core::core::transaction::Transaction::validate`.
///
/// `validate` reads the weight limit from the thread's chain type (and panics
/// when none is set) and the NRD rules from the thread's NRD flag; both are set
/// here for the calling thread, which keeps them after the call: later
/// `grin_core` calls on that thread follow `chain` and `nrd`, not the
/// process-wide settings. With them
/// fixed, the answer depends on the transaction alone: it is `true` exactly
/// when `validate` returns `Ok`, which is what `tx_validates` names.
#[verifier::external_body]
pub(crate) fn transaction_validates(
    tx: &grin_core::core::transaction::Transaction,
    chain: ChainTypes,
    nrd: bool,
) -> (valid: bool)
    ensures
        valid == tx_validates(*tx, chain, nrd),
{
    grin_core::global::set_local_chain_type(chain);
    grin_core::global::set_local_nrd_enabled(nrd);
    tx.validate(grin_core::core::transaction::Weighting::AsTransaction).is_ok()
}

} // verus!
