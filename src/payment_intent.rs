use vstd::prelude::*;

use crate::enums::{Currency, FutureUsage, IntentStatus};
use crate::time_util::{now, Timestamp};

verus! {

/// The stored record of one payment attempt in progress.
#[derive(Clone, Debug, PartialEq, Eq)]
pub struct PaymentIntent {
    pub id: i32,
    pub payment_id: String,
    pub merchant_id: String,
    pub status: IntentStatus,
    pub amount: i32,
    pub currency: Option<Currency>,
    pub amount_captured: Option<i32>,
    pub customer_id: Option<String>,
    pub description: Option<String>,
    pub return_url: Option<String>,
    pub metadata: Option<serde_json::Value>,
    pub connector_id: Option<String>,
    pub shipping_address_id: Option<String>,
    pub billing_address_id: Option<String>,
    pub statement_descriptor_name: Option<String>,
    pub statement_descriptor_suffix: Option<String>,
    pub created_at: Timestamp,
    pub modified_at: Timestamp,
    pub last_synced: Option<Timestamp>,
    pub setup_future_usage: Option<FutureUsage>,
    pub off_session: Option<bool>,
    pub client_secret: Option<String>,
}

/// A payment intent as a caller creates it; the store assigns the rest.
#[derive(Clone, Debug, PartialEq, Eq)]
pub struct PaymentIntentNew {
    pub payment_id: String,
    pub merchant_id: String,
    pub status: IntentStatus,
    pub amount: i32,
    pub currency: Option<Currency>,
    pub amount_captured: Option<i32>,
    pub customer_id: Option<String>,
    pub description: Option<String>,
    pub return_url: Option<String>,
    pub metadata: Option<serde_json::Value>,
    pub connector_id: Option<String>,
    pub shipping_address_id: Option<String>,
    pub billing_address_id: Option<String>,
    pub statement_descriptor_name: Option<String>,
    pub statement_descriptor_suffix: Option<String>,
    pub created_at: Option<Timestamp>,
    pub modified_at: Option<Timestamp>,
    pub last_synced: Option<Timestamp>,
    pub client_secret: Option<String>,
    pub setup_future_usage: Option<FutureUsage>,
    pub off_session: Option<bool>,
}

/// The named ways in which a payment intent may change; each carries only
/// the fields that its operation may touch.
#[derive(Debug)]
#[allow(inconsistent_fields)]
pub enum PaymentIntentUpdate {
    ResponseUpdate {
        status: IntentStatus,
        amount_captured: Option<i32>,
        return_url: Option<String>,
    },
    MetadataUpdate {
        metadata: serde_json::Value,
    },
    ReturnUrlUpdate {
        return_url: Option<String>,
        status: Option<IntentStatus>,
        customer_id: Option<String>,
        shipping_address_id: Option<String>,
        billing_address_id: Option<String>,
    },
    MerchantStatusUpdate {
        status: IntentStatus,
        shipping_address_id: Option<String>,
        billing_address_id: Option<String>,
    },
    PGStatusUpdate {
        status: IntentStatus,
    },
    Update {
        amount: i32,
        currency: Currency,
        status: IntentStatus,
        customer_id: Option<String>,
        shipping_address_id: Option<String>,
        billing_address_id: Option<String>,
    },
}

/// The partial-update record of one update: `None` leaves a column as it is.
/// `client_secret` is `Some(None)` where the secret must be cleared.
#[derive(Clone, Debug)]
pub struct PaymentIntentUpdateInternal {
    pub amount: Option<i32>,
    pub currency: Option<Currency>,
    pub status: Option<IntentStatus>,
    pub amount_captured: Option<i32>,
    pub customer_id: Option<String>,
    pub return_url: Option<String>,
    pub setup_future_usage: Option<FutureUsage>,
    pub off_session: Option<bool>,
    pub metadata: Option<serde_json::Value>,
    pub client_secret: Option<Option<String>>,
    pub billing_address_id: Option<String>,
    pub shipping_address_id: Option<String>,
    pub modified_at: Option<Timestamp>,
}

/// The new value where one is given, else the old one.
pub open spec fn or_keep<T>(new: Option<T>, old: Option<T>) -> Option<T> {
    match new {
        Some(v) => Some(v),
        None => old,
    }
}

/// The override of the client secret that a resulting status calls for:
/// cleared once the status is `Succeeded`, else none.
pub open spec fn secret_override(status: Option<IntentStatus>) -> Option<Option<String>> {
    if status == Some(IntentStatus::Succeeded) {
        Some(None)
    } else {
        None
    }
}

/// The client secret after an update that may move the status to `status`.
pub open spec fn secret_after(status: Option<IntentStatus>, old: Option<String>) -> Option<String> {
    if status == Some(IntentStatus::Succeeded) {
        None
    } else {
        old
    }
}

/// The partial-update record that an update stands for, stamped `now`.
pub open spec fn internal_of(u: PaymentIntentUpdate, now: Timestamp) -> PaymentIntentUpdateInternal {
    let blank = PaymentIntentUpdateInternal {
        amount: None,
        currency: None,
        status: None,
        amount_captured: None,
        customer_id: None,
        return_url: None,
        setup_future_usage: None,
        off_session: None,
        metadata: None,
        client_secret: None,
        billing_address_id: None,
        shipping_address_id: None,
        modified_at: Some(now),
    };
    match u {
        PaymentIntentUpdate::Update {
            amount,
            currency,
            status,
            customer_id,
            shipping_address_id,
            billing_address_id,
        } => PaymentIntentUpdateInternal {
            amount: Some(amount),
            currency: Some(currency),
            status: Some(status),
            customer_id,
            client_secret: secret_override(Some(status)),
            shipping_address_id,
            billing_address_id,
            ..blank
        },
        PaymentIntentUpdate::MetadataUpdate { metadata } => PaymentIntentUpdateInternal {
            metadata: Some(metadata),
            ..blank
        },
        PaymentIntentUpdate::ReturnUrlUpdate {
            return_url,
            status,
            customer_id,
            shipping_address_id,
            billing_address_id,
        } => PaymentIntentUpdateInternal {
            return_url,
            status,
            client_secret: secret_override(status),
            customer_id,
            shipping_address_id,
            billing_address_id,
            ..blank
        },
        PaymentIntentUpdate::PGStatusUpdate { status } => PaymentIntentUpdateInternal {
            status: Some(status),
            client_secret: secret_override(Some(status)),
            ..blank
        },
        PaymentIntentUpdate::MerchantStatusUpdate {
            status,
            shipping_address_id,
            billing_address_id,
        } => PaymentIntentUpdateInternal {
            status: Some(status),
            client_secret: secret_override(Some(status)),
            shipping_address_id,
            billing_address_id,
            ..blank
        },
        PaymentIntentUpdate::ResponseUpdate { status, amount_captured, return_url } =>
            PaymentIntentUpdateInternal {
            status: Some(status),
            amount_captured,
            return_url,
            client_secret: secret_override(Some(status)),
            ..blank
        },
    }
}

/// The fields that an update names merged onto `s` at `now`, stated per
/// variant: the named fields change, `modified_at` becomes `now`, and every
/// other field keeps its value.
pub open spec fn merged_intent(u: PaymentIntentUpdate, s: PaymentIntent, now: Timestamp) -> PaymentIntent {
    match u {
        PaymentIntentUpdate::ResponseUpdate { status, amount_captured, return_url } =>
            PaymentIntent {
            status,
            amount_captured: or_keep(amount_captured, s.amount_captured),
            return_url: or_keep(return_url, s.return_url),
            client_secret: secret_after(Some(status), s.client_secret),
            modified_at: now,
            ..s
        },
        PaymentIntentUpdate::MetadataUpdate { metadata } => PaymentIntent {
            metadata: Some(metadata),
            modified_at: now,
            ..s
        },
        PaymentIntentUpdate::ReturnUrlUpdate {
            return_url,
            status,
            customer_id,
            shipping_address_id,
            billing_address_id,
        } => PaymentIntent {
            return_url: or_keep(return_url, s.return_url),
            status: match status {
                Some(st) => st,
                None => s.status,
            },
            customer_id: or_keep(customer_id, s.customer_id),
            shipping_address_id: or_keep(shipping_address_id, s.shipping_address_id),
            billing_address_id: or_keep(billing_address_id, s.billing_address_id),
            client_secret: secret_after(status, s.client_secret),
            modified_at: now,
            ..s
        },
        PaymentIntentUpdate::MerchantStatusUpdate {
            status,
            shipping_address_id,
            billing_address_id,
        } => PaymentIntent {
            status,
            shipping_address_id: or_keep(shipping_address_id, s.shipping_address_id),
            billing_address_id: or_keep(billing_address_id, s.billing_address_id),
            client_secret: secret_after(Some(status), s.client_secret),
            modified_at: now,
            ..s
        },
        PaymentIntentUpdate::PGStatusUpdate { status } => PaymentIntent {
            status,
            client_secret: secret_after(Some(status), s.client_secret),
            modified_at: now,
            ..s
        },
        PaymentIntentUpdate::Update {
            amount,
            currency,
            status,
            customer_id,
            shipping_address_id,
            billing_address_id,
        } => PaymentIntent {
            amount,
            currency: Some(currency),
            status,
            customer_id: or_keep(customer_id, s.customer_id),
            shipping_address_id: or_keep(shipping_address_id, s.shipping_address_id),
            billing_address_id: or_keep(billing_address_id, s.billing_address_id),
            client_secret: secret_after(Some(status), s.client_secret),
            modified_at: now,
            ..s
        },
    }
}

/// An intent with the success rule applied: once its status is `Succeeded`
/// it holds no client secret, whatever it held before.
pub open spec fn settled(p: PaymentIntent) -> PaymentIntent {
    PaymentIntent { client_secret: secret_after(Some(p.status), p.client_secret), ..p }
}

/// An intent after an update applied at `now`: the update's fields merged
/// onto the source, then the client secret forced absent wherever the
/// resulting status is `Succeeded`.
pub open spec fn updated_intent(u: PaymentIntentUpdate, s: PaymentIntent, now: Timestamp) -> PaymentIntent {
    settled(merged_intent(u, s, now))
}

fn keep_or<T>(new: Option<T>, old: Option<T>) -> (r: Option<T>)
    ensures
        r == or_keep(new, old),
{
    match new {
        Some(v) => Some(v),
        None => old,
    }
}

/// `Some(None)` (clear the client secret) where the status is `Succeeded`,
/// else `None` (leave it as it is).
pub fn make_client_secret_null_if_success(status: Option<IntentStatus>) -> (r: Option<Option<String>>)
    ensures
        r == secret_override(status),
{
    match status {
        Some(IntentStatus::Succeeded) => Some(None),
        _ => None,
    }
}

impl PaymentIntentUpdateInternal {
    /// The partial-update record of `update`, stamped with `now`.
    pub fn from_update(update: PaymentIntentUpdate, now: Timestamp) -> (r: Self)
        ensures
            r == internal_of(update, now),
    {
        match update {
            PaymentIntentUpdate::Update {
                amount,
                currency,
                status,
                customer_id,
                shipping_address_id,
                billing_address_id,
            } => PaymentIntentUpdateInternal {
                amount: Some(amount),
                currency: Some(currency),
                status: Some(status),
                amount_captured: None,
                customer_id,
                return_url: None,
                setup_future_usage: None,
                off_session: None,
                metadata: None,
                client_secret: make_client_secret_null_if_success(Some(status)),
                billing_address_id,
                shipping_address_id,
                modified_at: Some(now),
            },
            PaymentIntentUpdate::MetadataUpdate { metadata } => PaymentIntentUpdateInternal {
                amount: None,
                currency: None,
                status: None,
                amount_captured: None,
                customer_id: None,
                return_url: None,
                setup_future_usage: None,
                off_session: None,
                metadata: Some(metadata),
                client_secret: None,
                billing_address_id: None,
                shipping_address_id: None,
                modified_at: Some(now),
            },
            PaymentIntentUpdate::ReturnUrlUpdate {
                return_url,
                status,
                customer_id,
                shipping_address_id,
                billing_address_id,
            } => PaymentIntentUpdateInternal {
                amount: None,
                currency: None,
                status,
                amount_captured: None,
                customer_id,
                return_url,
                setup_future_usage: None,
                off_session: None,
                metadata: None,
                client_secret: make_client_secret_null_if_success(status),
                billing_address_id,
                shipping_address_id,
                modified_at: Some(now),
            },
            PaymentIntentUpdate::PGStatusUpdate { status } => PaymentIntentUpdateInternal {
                amount: None,
                currency: None,
                status: Some(status),
                amount_captured: None,
                customer_id: None,
                return_url: None,
                setup_future_usage: None,
                off_session: None,
                metadata: None,
                client_secret: make_client_secret_null_if_success(Some(status)),
                billing_address_id: None,
                shipping_address_id: None,
                modified_at: Some(now),
            },
            PaymentIntentUpdate::MerchantStatusUpdate {
                status,
                shipping_address_id,
                billing_address_id,
            } => PaymentIntentUpdateInternal {
                amount: None,
                currency: None,
                status: Some(status),
                amount_captured: None,
                customer_id: None,
                return_url: None,
                setup_future_usage: None,
                off_session: None,
                metadata: None,
                client_secret: make_client_secret_null_if_success(Some(status)),
                billing_address_id,
                shipping_address_id,
                modified_at: Some(now),
            },
            PaymentIntentUpdate::ResponseUpdate { status, amount_captured, return_url } =>
                PaymentIntentUpdateInternal {
                amount: None,
                currency: None,
                status: Some(status),
                amount_captured,
                customer_id: None,
                return_url,
                setup_future_usage: None,
                off_session: None,
                metadata: None,
                client_secret: make_client_secret_null_if_success(Some(status)),
                billing_address_id: None,
                shipping_address_id: None,
                modified_at: Some(now),
            },
        }
    }
}

impl PaymentIntentUpdate {
    /// This update applied to `source` at the instant `now`.
    pub fn apply_changeset_at(self, source: PaymentIntent, now: Timestamp) -> (r: PaymentIntent)
        ensures
            r == updated_intent(self, source, now),
    {
        let internal = PaymentIntentUpdateInternal::from_update(self, now);
        let status = match internal.status {
            Some(st) => st,
            None => source.status,
        };
        let amount = match internal.amount {
            Some(a) => a,
            None => source.amount,
        };
        let merged_secret = match internal.client_secret {
            Some(cs) => cs,
            None => source.client_secret,
        };
        let client_secret = match status {
            IntentStatus::Succeeded => None,
            _ => merged_secret,
        };
        PaymentIntent {
            id: source.id,
            payment_id: source.payment_id,
            merchant_id: source.merchant_id,
            status,
            amount,
            currency: keep_or(internal.currency, source.currency),
            amount_captured: keep_or(internal.amount_captured, source.amount_captured),
            customer_id: keep_or(internal.customer_id, source.customer_id),
            description: source.description,
            return_url: keep_or(internal.return_url, source.return_url),
            metadata: keep_or(internal.metadata, source.metadata),
            connector_id: source.connector_id,
            shipping_address_id: keep_or(internal.shipping_address_id, source.shipping_address_id),
            billing_address_id: keep_or(internal.billing_address_id, source.billing_address_id),
            statement_descriptor_name: source.statement_descriptor_name,
            statement_descriptor_suffix: source.statement_descriptor_suffix,
            created_at: source.created_at,
            modified_at: now,
            last_synced: source.last_synced,
            setup_future_usage: keep_or(internal.setup_future_usage, source.setup_future_usage),
            off_session: keep_or(internal.off_session, source.off_session),
            client_secret,
        }
    }

    /// This update applied to `source` now: the result is the intent after
    /// the update, stamped with the instant read from the clock.
    pub fn apply_changeset(self, source: PaymentIntent) -> (r: PaymentIntent)
        ensures
            r == updated_intent(self, source, r.modified_at),
    {
        let at = now();
        self.apply_changeset_at(source, at)
    }
}

/// The invariant of a stored intent: once it has succeeded, it holds no
/// client secret.
pub open spec fn secret_invariant(p: PaymentIntent) -> bool {
    p.status == IntentStatus::Succeeded ==> p.client_secret is None
}

/// An update touches only the fields that its variant names: `modified_at`
/// becomes the update's instant, the identity, descriptors, creation data and
/// every field that the variant does not name keep their values.
pub proof fn lemma_changeset_touches_only_named_fields(
    u: PaymentIntentUpdate,
    s: PaymentIntent,
    now: Timestamp,
)
    ensures
        ({
            let r = updated_intent(u, s, now);
            &&& r.modified_at == now
            &&& r.id == s.id
            &&& r.payment_id == s.payment_id
            &&& r.merchant_id == s.merchant_id
            &&& r.description == s.description
            &&& r.connector_id == s.connector_id
            &&& r.statement_descriptor_name == s.statement_descriptor_name
            &&& r.statement_descriptor_suffix == s.statement_descriptor_suffix
            &&& r.created_at == s.created_at
            &&& r.last_synced == s.last_synced
            &&& r.setup_future_usage == s.setup_future_usage
            &&& r.off_session == s.off_session
            &&& !(u is MetadataUpdate) ==> r.metadata == s.metadata
            &&& !(u is Update) ==> r.amount == s.amount && r.currency == s.currency
            &&& !(u is ResponseUpdate) ==> r.amount_captured == s.amount_captured
            &&& !(u is ResponseUpdate || u is ReturnUrlUpdate) ==> r.return_url == s.return_url
            &&& !(u is ReturnUrlUpdate || u is Update) ==> r.customer_id == s.customer_id
            &&& !(u is ReturnUrlUpdate || u is MerchantStatusUpdate || u is Update) ==> {
                &&& r.shipping_address_id == s.shipping_address_id
                &&& r.billing_address_id == s.billing_address_id
            }
            &&& u is MetadataUpdate ==> r.status == s.status
            &&& (u is MetadataUpdate && s.status != IntentStatus::Succeeded) ==> r.client_secret
                == s.client_secret
        }),
{
}

/// Once an update leaves an intent in the `Succeeded` state, the intent holds
/// no client secret, whether or not the source had one and whether or not the
/// update named it; an update whose result has not succeeded keeps the
/// secret that the merge leaves.
pub proof fn lemma_success_clears_client_secret(
    u: PaymentIntentUpdate,
    s: PaymentIntent,
    now: Timestamp,
)
    ensures
        updated_intent(u, s, now).status == IntentStatus::Succeeded
            ==> updated_intent(u, s, now).client_secret is None,
        updated_intent(u, s, now).status != IntentStatus::Succeeded
            ==> updated_intent(u, s, now).client_secret == merged_intent(u, s, now).client_secret,
        secret_invariant(updated_intent(u, s, now)),
{
}

} // verus!
