use vstd::prelude::*;

verus! {

/// Lifecycle state of a payment intent.
#[derive(Clone, Copy, Debug, PartialEq, Eq, Structural)]
pub enum IntentStatus {
    Succeeded,
    Failed,
    Cancelled,
    Processing,
    RequiresCustomerAction,
    RequiresPaymentMethod,
    RequiresConfirmation,
    RequiresCapture,
}

/// ISO 4217 currency of a payment amount.
#[derive(Clone, Copy, Debug, PartialEq, Eq, Structural)]
pub enum Currency {
    AED,
    AUD,
    BRL,
    CAD,
    CHF,
    CNY,
    DKK,
    EUR,
    GBP,
    HKD,
    INR,
    JPY,
    MXN,
    NOK,
    NZD,
    SEK,
    SGD,
    USD,
}

/// Whether a payment method is set up for later use by the merchant.
#[derive(Clone, Copy, Debug, PartialEq, Eq, Structural)]
pub enum FutureUsage {
    OffSession,
    OnSession,
}

} // verus!
