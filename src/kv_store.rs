//! The decisions of the cache backend of the payment intent store. Each
//! intent is one Redis hash at key `"{payment_id}_{merchant_id}"`, holding the
//! serialized intent under one field; the caller sends the commands and hands
//! the replies back here.

use vstd::prelude::*;

use crate::enums::IntentStatus;
use crate::errors::StorageError;
use crate::payment_intent::{PaymentIntent, PaymentIntentNew};
use crate::time_util::{now, Timestamp};

verus! {

/// The kind of a failed cache command, as the Redis client reports it.
#[derive(Clone, Copy, Debug, PartialEq, Eq, Structural)]
pub enum KvErrorKind {
    Config,
    Auth,
    IO,
    InvalidCommand,
    InvalidArgument,
    UrlError,
    ProtocolError,
    Tls,
    Canceled,
    Unknown,
    Timeout,
    Cluster,
    Parse,
    Sentinel,
    NotFound,
    Backpressure,
}

/// Filters of a payment intent listing.
#[derive(Clone, Debug, PartialEq, Eq)]
pub struct PaymentListConstraints {
    pub customer_id: Option<String>,
    pub starting_after: Option<String>,
    pub ending_before: Option<String>,
    pub limit: i64,
    pub created: Option<Timestamp>,
    pub created_lt: Option<Timestamp>,
    pub created_gt: Option<Timestamp>,
    pub created_lte: Option<Timestamp>,
    pub created_gte: Option<Timestamp>,
}

/// The cache key of the intent with this natural key.
pub open spec fn key_of(payment_id: Seq<char>, merchant_id: Seq<char>) -> Seq<char> {
    payment_id + seq!['_'] + merchant_id
}

/// The hash field that holds the serialized intent, for writes and reads alike.
pub open spec fn intent_field_name() -> Seq<char> {
    seq!['p', 'i']
}

/// The cache key of the intent with this natural key.
pub fn intent_key(payment_id: &str, merchant_id: &str) -> (r: String)
    ensures
        r@ == key_of(payment_id@, merchant_id@),
{
    let mut key = String::from_str(payment_id);
    let sep = "_";
    proof {
        reveal_strlit("_");
    }
    key.append(sep);
    key.append(merchant_id);
    key
}

/// The hash field that holds the serialized intent.
pub fn intent_field() -> (r: &'static str)
    ensures
        r@ == intent_field_name(),
{
    proof {
        reveal_strlit("pi");
    }
    "pi"
}

/// The record that an insert stores: the fields of `new`, id 0, both
/// timestamps taken from `new.created_at`, or `now` where it is unset, and no
/// client secret where the intent is created as `Succeeded`.
pub open spec fn created_from(new: PaymentIntentNew, now: Timestamp) -> PaymentIntent {
    let at = match new.created_at {
        Some(t) => t,
        None => now,
    };
    PaymentIntent {
        id: 0,
        payment_id: new.payment_id,
        merchant_id: new.merchant_id,
        status: new.status,
        amount: new.amount,
        currency: new.currency,
        amount_captured: new.amount_captured,
        customer_id: new.customer_id,
        description: new.description,
        return_url: new.return_url,
        metadata: new.metadata,
        connector_id: new.connector_id,
        shipping_address_id: new.shipping_address_id,
        billing_address_id: new.billing_address_id,
        statement_descriptor_name: new.statement_descriptor_name,
        statement_descriptor_suffix: new.statement_descriptor_suffix,
        created_at: at,
        modified_at: at,
        last_synced: new.last_synced,
        setup_future_usage: new.setup_future_usage,
        off_session: new.off_session,
        client_secret: if new.status == IntentStatus::Succeeded {
            None
        } else {
            new.client_secret
        },
    }
}

/// The record that inserting `new` at `now` stores.
pub fn new_intent_record(new: PaymentIntentNew, now: Timestamp) -> (r: PaymentIntent)
    ensures
        r == created_from(new, now),
{
    let at = match new.created_at {
        Some(t) => t,
        None => now,
    };
    let client_secret = match new.status {
        IntentStatus::Succeeded => None,
        _ => new.client_secret,
    };
    PaymentIntent {
        id: 0,
        payment_id: new.payment_id,
        merchant_id: new.merchant_id,
        status: new.status,
        amount: new.amount,
        currency: new.currency,
        amount_captured: new.amount_captured,
        customer_id: new.customer_id,
        description: new.description,
        return_url: new.return_url,
        metadata: new.metadata,
        connector_id: new.connector_id,
        shipping_address_id: new.shipping_address_id,
        billing_address_id: new.billing_address_id,
        statement_descriptor_name: new.statement_descriptor_name,
        statement_descriptor_suffix: new.statement_descriptor_suffix,
        created_at: at,
        modified_at: at,
        last_synced: new.last_synced,
        setup_future_usage: new.setup_future_usage,
        off_session: new.off_session,
        client_secret,
    }
}

/// The record that inserting `new` stores, stamped with the instant read
/// from the clock where `new` has no creation time.
pub fn new_intent_record_now(new: PaymentIntentNew) -> (r: PaymentIntent)
    ensures
        r == created_from(new, r.modified_at),
{
    let at = now();
    new_intent_record(new, at)
}

/// Message of the conflict that an insert on a taken key reports.
pub open spec fn duplicate_message(key: Seq<char>) -> Seq<char> {
    "Payment Intent already exists for payment_id: "@ + key
}

/// Message of a read of a key that holds no intent.
pub open spec fn not_found_message(key: Seq<char>) -> Seq<char> {
    "Payment Intent does not exist for "@ + key
}

/// Whether `r` is what an insert returns for the reply to its
/// set-if-absent write: 1 means written, 0 means the field was already there.
pub open spec fn is_insert_result(
    reply: Result<u8, KvErrorKind>,
    created: PaymentIntent,
    key: Seq<char>,
    r: Result<PaymentIntent, StorageError>,
) -> bool {
    match reply {
        Ok(0) => match r {
            Err(StorageError::DuplicateValue(msg)) => msg@ == duplicate_message(key),
            _ => false,
        },
        Ok(1) => r == Ok::<PaymentIntent, StorageError>(created),
        _ => r == Err::<PaymentIntent, StorageError>(StorageError::KVError),
    }
}

/// Whether `r` is what a read returns for the reply to its field read.
pub open spec fn is_find_result(
    reply: Result<String, KvErrorKind>,
    key: Seq<char>,
    r: Result<String, StorageError>,
) -> bool {
    match reply {
        Ok(v) => r == Ok::<String, StorageError>(v),
        Err(KvErrorKind::NotFound) => match r {
            Err(StorageError::ValueNotFound(msg)) => msg@ == not_found_message(key),
            _ => false,
        },
        Err(_) => r == Err::<String, StorageError>(StorageError::KVError),
    }
}

fn prefixed(prefix: &str, key: &str) -> (r: String)
    ensures
        r@ == prefix@ + key@,
{
    let mut msg = String::from_str(prefix);
    msg.append(key);
    msg
}

/// The outcome of an insert, from the reply to its set-if-absent write of
/// `created` at `key`.
pub fn insert_outcome(reply: Result<u8, KvErrorKind>, created: PaymentIntent, key: &str) -> (r:
    Result<PaymentIntent, StorageError>)
    ensures
        is_insert_result(reply, created, key@, r),
{
    match reply {
        Ok(0) => {
            let prefix = "Payment Intent already exists for payment_id: ";
            proof {
                reveal_strlit("Payment Intent already exists for payment_id: ");
            }
            Err(StorageError::DuplicateValue(prefixed(prefix, key)))
        },
        Ok(1) => Ok(created),
        _ => Err(StorageError::KVError),
    }
}

/// The outcome of a read at `key`, from the reply to its field read: the
/// serialized intent, `ValueNotFound` where nothing is there, `KVError` for any
/// other failure.
pub fn find_outcome(reply: Result<String, KvErrorKind>, key: &str) -> (r: Result<String, StorageError>)
    ensures
        is_find_result(reply, key@, r),
{
    match reply {
        Ok(v) => Ok(v),
        Err(KvErrorKind::NotFound) => {
            let prefix = "Payment Intent does not exist for ";
            proof {
                reveal_strlit("Payment Intent does not exist for ");
            }
            Err(StorageError::ValueNotFound(prefixed(prefix, key)))
        },
        Err(_) => Err(StorageError::KVError),
    }
}

/// The outcome of an update, from the reply to its overwrite of the field
/// with the serialized `updated` intent.
pub fn update_outcome(reply: Result<u8, KvErrorKind>, updated: PaymentIntent) -> (r: Result<
    PaymentIntent,
    StorageError,
>)
    ensures
        r == match reply {
            Ok(_) => Ok::<PaymentIntent, StorageError>(updated),
            Err(_) => Err(StorageError::KVError),
        },
{
    match reply {
        Ok(_) => Ok(updated),
        Err(_) => Err(StorageError::KVError),
    }
}

/// Encoding or decoding of an intent: what was produced, or `KVError` where
/// the conversion failed.
pub fn coded_outcome<T>(coded: Option<T>) -> (r: Result<T, StorageError>)
    ensures
        r == match coded {
            Some(v) => Ok::<T, StorageError>(v),
            None => Err(StorageError::KVError),
        },
{
    match coded {
        Some(v) => Ok(v),
        None => Err(StorageError::KVError),
    }
}

/// Listing on the cache backend: it has no secondary index, so the
/// operation is refused with `KVError` whatever the input.
pub fn filter_payment_intent_by_constraints(merchant_id: &str, pc: &PaymentListConstraints) -> (r:
    Result<Vec<PaymentIntent>, StorageError>)
    ensures
        r == Err::<Vec<PaymentIntent>, StorageError>(StorageError::KVError),
{
    Err(StorageError::KVError)
}

/// Redis hashes as the backend relies on them: key, then field, then value.
pub type KvContents = Map<Seq<char>, Map<Seq<char>, Seq<char>>>;

/// Whether `field` of hash `key` holds a value.
pub open spec fn has_field(m: KvContents, key: Seq<char>, field: Seq<char>) -> bool {
    m.contains_key(key) && m[key].contains_key(field)
}

/// Reply of HSETNX: 1 where the field was absent and is now written, else 0.
pub open spec fn hsetnx_reply(m: KvContents, key: Seq<char>, field: Seq<char>) -> u8 {
    if has_field(m, key, field) {
        0
    } else {
        1
    }
}

/// Contents after HSETNX: the field is written only where it was absent.
pub open spec fn hsetnx_after(
    m: KvContents,
    key: Seq<char>,
    field: Seq<char>,
    value: Seq<char>,
) -> KvContents {
    if has_field(m, key, field) {
        m
    } else {
        let hash = if m.contains_key(key) {
            m[key]
        } else {
            Map::empty()
        };
        m.insert(key, hash.insert(field, value))
    }
}

/// Contents after HSET: the field is written whether or not it was there.
pub open spec fn hset_after(
    m: KvContents,
    key: Seq<char>,
    field: Seq<char>,
    value: Seq<char>,
) -> KvContents {
    let hash = if m.contains_key(key) {
        m[key]
    } else {
        Map::empty()
    };
    m.insert(key, hash.insert(field, value))
}

/// Reply of HGET read as a string: the value, or `NotFound` for nil.
pub open spec fn hget_reply(m: KvContents, key: Seq<char>, field: Seq<char>) -> Result<
    Seq<char>,
    KvErrorKind,
> {
    if has_field(m, key, field) {
        Ok(m[key][field])
    } else {
        Err(KvErrorKind::NotFound)
    }
}

/// A second insert of an intent with the same natural key fails with
/// `DuplicateValue` and leaves the record of the first as it was.
pub proof fn lemma_second_insert_is_duplicate(
    m: KvContents,
    first: PaymentIntentNew,
    second: PaymentIntentNew,
    now: Timestamp,
    value1: Seq<char>,
    value2: Seq<char>,
    r: Result<PaymentIntent, StorageError>,
)
    requires
        first.payment_id@ == second.payment_id@,
        first.merchant_id@ == second.merchant_id@,
        is_insert_result(
            Ok(
                hsetnx_reply(
                    hsetnx_after(
                        m,
                        key_of(first.payment_id@, first.merchant_id@),
                        intent_field_name(),
                        value1,
                    ),
                    key_of(second.payment_id@, second.merchant_id@),
                    intent_field_name(),
                ),
            ),
            created_from(second, now),
            key_of(second.payment_id@, second.merchant_id@),
            r,
        ),
    ensures
        r is Err,
        r->Err_0 is DuplicateValue,
        ({
            let key = key_of(first.payment_id@, first.merchant_id@);
            let m1 = hsetnx_after(m, key, intent_field_name(), value1);
            hsetnx_after(m1, key, intent_field_name(), value2) == m1
        }),
{
}

/// An insert that succeeds, read back at once by its natural key, yields
/// exactly the value written; the record written keeps every field of the
/// new intent but the assigned ones (id and timestamps).
pub proof fn lemma_insert_then_find(
    m: KvContents,
    new: PaymentIntentNew,
    now: Timestamp,
    value: String,
    inserted: Result<PaymentIntent, StorageError>,
    found: Result<String, StorageError>,
)
    requires
        is_insert_result(
            Ok(hsetnx_reply(m, key_of(new.payment_id@, new.merchant_id@), intent_field_name())),
            created_from(new, now),
            key_of(new.payment_id@, new.merchant_id@),
            inserted,
        ),
        inserted is Ok,
        ({
            let key = key_of(new.payment_id@, new.merchant_id@);
            let m1 = hsetnx_after(m, key, intent_field_name(), value@);
            match hget_reply(m1, key, intent_field_name()) {
                Ok(v) => forall|read: String| read@ == v ==> is_find_result(Ok(read), key, found),
                Err(kind) => false,
            }
        }),
    ensures
        inserted == Ok::<PaymentIntent, StorageError>(created_from(new, now)),
        found is Ok,
        found->Ok_0@ == value@,
        ({
            let c = created_from(new, now);
            &&& c.payment_id == new.payment_id && c.merchant_id == new.merchant_id
            &&& c.status == new.status && c.amount == new.amount && c.currency == new.currency
            &&& c.amount_captured == new.amount_captured && c.customer_id == new.customer_id
            &&& c.description == new.description && c.return_url == new.return_url
            &&& c.metadata == new.metadata && c.connector_id == new.connector_id
            &&& c.shipping_address_id == new.shipping_address_id
            &&& c.billing_address_id == new.billing_address_id
            &&& c.statement_descriptor_name == new.statement_descriptor_name
            &&& c.statement_descriptor_suffix == new.statement_descriptor_suffix
            &&& c.last_synced == new.last_synced
            &&& new.status != IntentStatus::Succeeded ==> c.client_secret == new.client_secret
            &&& new.status == IntentStatus::Succeeded ==> c.client_secret is None
            &&& c.setup_future_usage == new.setup_future_usage
            &&& c.off_session == new.off_session
        }),
{
    let key = key_of(new.payment_id@, new.merchant_id@);
    let m1 = hsetnx_after(m, key, intent_field_name(), value@);
    assert(hget_reply(m1, key, intent_field_name()) == Ok::<Seq<char>, KvErrorKind>(value@));
    assert(is_find_result(Ok(value), key, found));
}

/// A read of a key that holds no intent yields `ValueNotFound`, never
/// `KVError`.
pub proof fn lemma_find_missing_is_not_found(
    m: KvContents,
    payment_id: Seq<char>,
    merchant_id: Seq<char>,
    r: Result<String, StorageError>,
)
    requires
        !has_field(m, key_of(payment_id, merchant_id), intent_field_name()),
        hget_reply(m, key_of(payment_id, merchant_id), intent_field_name()) matches Err(kind)
            && is_find_result(Err(kind), key_of(payment_id, merchant_id), r),
    ensures
        r is Err,
        r->Err_0 is ValueNotFound,
        !(r->Err_0 is KVError),
{
}

/// An update overwrites the stored intent: a read by the same natural key
/// right after it yields exactly the value that the update wrote, whatever
/// was stored before.
pub proof fn lemma_update_then_find(
    m: KvContents,
    payment_id: Seq<char>,
    merchant_id: Seq<char>,
    value: String,
    found: Result<String, StorageError>,
)
    requires
        ({
            let key = key_of(payment_id, merchant_id);
            let m1 = hset_after(m, key, intent_field_name(), value@);
            match hget_reply(m1, key, intent_field_name()) {
                Ok(v) => forall|read: String| read@ == v ==> is_find_result(Ok(read), key, found),
                Err(kind) => false,
            }
        }),
    ensures
        found is Ok,
        found->Ok_0@ == value@,
{
    let key = key_of(payment_id, merchant_id);
    let m1 = hset_after(m, key, intent_field_name(), value@);
    assert(hget_reply(m1, key, intent_field_name()) == Ok::<Seq<char>, KvErrorKind>(value@));
    assert(is_find_result(Ok(value), key, found));
}

} // verus!
