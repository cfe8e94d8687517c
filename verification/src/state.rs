//! Identities, transaction status, and the platform configuration.

use vstd::prelude::*;

verus! {

/// Identity of a custodial account or of a party (renter, owner,
/// administrator). The engine only ever compares identities for equality.
#[derive(Clone, Copy, PartialEq, Eq, Structural, Debug, Hash)]
pub struct AccountId(pub u64);

/// Lifecycle status of a rental transaction.
///
/// `Created -> Paid -> {Completed | Resolved}`, `Created -> Cancelled`,
/// `Paid -> Cancelled`. `Completed`, `Cancelled` and `Resolved` are terminal.
#[derive(Clone, Copy, PartialEq, Eq, Structural, Debug)]
pub enum TransactionStatus {
    Created,
    Paid,
    Completed,
    Cancelled,
    Resolved,
}

impl TransactionStatus {
    /// A terminal status has no outgoing transitions.
    pub open spec fn is_terminal(self) -> bool {
        self == TransactionStatus::Completed || self == TransactionStatus::Cancelled
            || self == TransactionStatus::Resolved
    }
}

/// The platform fee retained on normal completion, in basis points.
pub const DEFAULT_PLATFORM_FEE_BPS: u16 = 1000;

/// Process-wide platform configuration: the administrator identity and the
/// platform fee rate in basis points. Written once at bootstrap; the state
/// machine only reads it.
#[derive(Clone, Copy, PartialEq, Eq, Structural, Debug)]
pub struct GlobalState {
    pub admin: AccountId,
    pub platform_fee_rate: u16,
}

impl GlobalState {
    /// The fee rate never exceeds the whole (10000 basis points).
    pub open spec fn wf(self) -> bool {
        self.platform_fee_rate <= crate::shares::BPS_DENOMINATOR
    }
}

/// Bootstrap the platform configuration with the given administrator and the
/// default platform fee rate.
pub fn initialize(admin: AccountId) -> (r: GlobalState)
    ensures
        r.admin == admin,
        r.platform_fee_rate == DEFAULT_PLATFORM_FEE_BPS,
        r.wf(),
{
    GlobalState { admin, platform_fee_rate: DEFAULT_PLATFORM_FEE_BPS }
}

/// The length `str::len` reports for a text: the size in bytes of its UTF-8
/// encoding. The size bounds on booking identifiers and resolution reasons
/// are byte bounds.
pub open spec fn byte_len(text: Seq<char>) -> usize {
    vstd::utf8::encode_utf8(text).len() as usize
}

} // verus!
