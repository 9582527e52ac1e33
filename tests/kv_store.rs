use std::collections::HashMap;

use payment_core::enums::{Currency, IntentStatus};
use payment_core::errors::StorageError;
use payment_core::kv_store::{
    coded_outcome, filter_payment_intent_by_constraints, find_outcome, insert_outcome,
    intent_field, intent_key, new_intent_record, new_intent_record_now, update_outcome, KvErrorKind,
    PaymentListConstraints,
};
use payment_core::payment_intent::PaymentIntentNew;
use payment_core::time_util::Timestamp;

fn new_intent(payment_id: &str, merchant_id: &str) -> PaymentIntentNew {
    PaymentIntentNew {
        payment_id: payment_id.to_string(),
        merchant_id: merchant_id.to_string(),
        status: IntentStatus::RequiresPaymentMethod,
        amount: 4200,
        currency: Some(Currency::INR),
        amount_captured: None,
        customer_id: Some("cus_9".to_string()),
        description: None,
        return_url: None,
        metadata: None,
        connector_id: None,
        shipping_address_id: None,
        billing_address_id: None,
        statement_descriptor_name: None,
        statement_descriptor_suffix: None,
        created_at: None,
        modified_at: None,
        last_synced: None,
        client_secret: Some("secret".to_string()),
        setup_future_usage: None,
        off_session: None,
    }
}

/// Redis hashes, as HSETNX and HGET treat them.
struct Hashes(HashMap<(String, String), String>);

impl Hashes {
    fn hsetnx(&mut self, key: &str, field: &str, value: &str) -> u8 {
        let k = (key.to_string(), field.to_string());
        if self.0.contains_key(&k) {
            0
        } else {
            self.0.insert(k, value.to_string());
            1
        }
    }

    fn hget(&self, key: &str, field: &str) -> Result<String, KvErrorKind> {
        self.0
            .get(&(key.to_string(), field.to_string()))
            .cloned()
            .ok_or(KvErrorKind::NotFound)
    }
}

#[test]
fn key_joins_payment_and_merchant() {
    assert_eq!(intent_key("pay_1", "merchant_1"), "pay_1_merchant_1");
    assert_eq!(intent_key("", ""), "_");
}

#[test]
fn one_field_for_reads_and_writes() {
    assert_eq!(intent_field(), "pi");
}

#[test]
fn record_defaults_timestamps_to_now() {
    let record = new_intent_record(new_intent("pay_1", "m_1"), Timestamp { unix_nanos: 55 });
    assert_eq!(record.id, 0);
    assert_eq!(record.created_at, Timestamp { unix_nanos: 55 });
    assert_eq!(record.modified_at, Timestamp { unix_nanos: 55 });
    assert_eq!(record.amount, 4200);
    assert_eq!(record.client_secret, Some("secret".to_string()));
}

#[test]
fn record_keeps_given_creation_time() {
    let mut new = new_intent("pay_1", "m_1");
    new.created_at = Some(Timestamp { unix_nanos: 11 });
    let record = new_intent_record(new, Timestamp { unix_nanos: 55 });
    assert_eq!(record.created_at, Timestamp { unix_nanos: 11 });
    assert_eq!(record.modified_at, Timestamp { unix_nanos: 11 });
}

#[test]
fn insert_replies_map_to_outcomes() {
    let record = new_intent_record(new_intent("pay_1", "m_1"), Timestamp { unix_nanos: 1 });
    assert_eq!(insert_outcome(Ok(1), record.clone(), "pay_1_m_1"), Ok(record.clone()));
    assert_eq!(
        insert_outcome(Ok(0), record.clone(), "pay_1_m_1"),
        Err(StorageError::DuplicateValue(
            "Payment Intent already exists for payment_id: pay_1_m_1".to_string()
        ))
    );
    assert_eq!(insert_outcome(Ok(2), record.clone(), "pay_1_m_1"), Err(StorageError::KVError));
    assert_eq!(
        insert_outcome(Err(KvErrorKind::IO), record, "pay_1_m_1"),
        Err(StorageError::KVError)
    );
}

#[test]
fn second_insert_is_duplicate_and_keeps_first() {
    let mut hashes = Hashes(HashMap::new());
    let first = new_intent_record(new_intent("pay_1", "m_1"), Timestamp { unix_nanos: 1 });
    let key = intent_key("pay_1", "m_1");
    let reply = hashes.hsetnx(&key, intent_field(), "first");
    assert!(insert_outcome(Ok(reply), first, &key).is_ok());
    let mut second_new = new_intent("pay_1", "m_1");
    second_new.amount = 1;
    let second = new_intent_record(second_new, Timestamp { unix_nanos: 2 });
    let reply = hashes.hsetnx(&key, intent_field(), "second");
    assert!(matches!(
        insert_outcome(Ok(reply), second, &key),
        Err(StorageError::DuplicateValue(_))
    ));
    assert_eq!(hashes.hget(&key, intent_field()), Ok("first".to_string()));
}

#[test]
fn insert_then_find_reads_what_was_written() {
    let mut hashes = Hashes(HashMap::new());
    let record = new_intent_record(new_intent("pay_2", "m_2"), Timestamp { unix_nanos: 3 });
    let key = intent_key("pay_2", "m_2");
    let reply = hashes.hsetnx(&key, intent_field(), "{\"payment_id\":\"pay_2\"}");
    assert_eq!(insert_outcome(Ok(reply), record.clone(), &key), Ok(record));
    let read = find_outcome(hashes.hget(&intent_key("pay_2", "m_2"), intent_field()), &key);
    assert_eq!(read, Ok("{\"payment_id\":\"pay_2\"}".to_string()));
}

#[test]
fn find_missing_is_value_not_found() {
    let hashes = Hashes(HashMap::new());
    let key = intent_key("pay_x", "m_x");
    assert_eq!(
        find_outcome(hashes.hget(&key, intent_field()), &key),
        Err(StorageError::ValueNotFound("Payment Intent does not exist for pay_x_m_x".to_string()))
    );
}

#[test]
fn find_other_failure_is_kv_error() {
    assert_eq!(find_outcome(Err(KvErrorKind::Timeout), "k"), Err(StorageError::KVError));
    assert_eq!(find_outcome(Err(KvErrorKind::Parse), "k"), Err(StorageError::KVError));
}

#[test]
fn update_replies_map_to_outcomes() {
    let record = new_intent_record(new_intent("pay_3", "m_3"), Timestamp { unix_nanos: 4 });
    assert_eq!(update_outcome(Ok(0), record.clone()), Ok(record.clone()));
    assert_eq!(update_outcome(Err(KvErrorKind::IO), record), Err(StorageError::KVError));
}

#[test]
fn failed_coding_is_kv_error() {
    assert_eq!(coded_outcome(Some("x".to_string())), Ok("x".to_string()));
    assert_eq!(coded_outcome::<String>(None), Err(StorageError::KVError));
}

#[test]
fn listing_on_cache_backend_is_refused() {
    let constraints = PaymentListConstraints {
        customer_id: Some("cus_1".to_string()),
        starting_after: None,
        ending_before: None,
        limit: 10,
        created: None,
        created_lt: None,
        created_gt: Some(Timestamp { unix_nanos: 0 }),
        created_lte: None,
        created_gte: None,
    };
    assert_eq!(
        filter_payment_intent_by_constraints("merchant_1", &constraints),
        Err(StorageError::KVError)
    );
    let empty = PaymentListConstraints {
        customer_id: None,
        starting_after: None,
        ending_before: None,
        limit: 0,
        created: None,
        created_lt: None,
        created_gt: None,
        created_lte: None,
        created_gte: None,
    };
    assert_eq!(filter_payment_intent_by_constraints("", &empty), Err(StorageError::KVError));
}

#[test]
fn intent_created_succeeded_holds_no_secret() {
    let mut new = new_intent("pay_4", "m_4");
    new.status = IntentStatus::Succeeded;
    let record = new_intent_record(new, Timestamp { unix_nanos: 5 });
    assert_eq!(record.client_secret, None);
    assert_eq!(record.status, IntentStatus::Succeeded);
}

#[test]
fn record_now_reads_the_clock() {
    let record = new_intent_record_now(new_intent("pay_5", "m_5"));
    assert!(record.created_at.unix_nanos > 0);
    assert_eq!(record.created_at, record.modified_at);
    let mut given = new_intent("pay_5", "m_5");
    given.created_at = Some(Timestamp { unix_nanos: 12 });
    assert_eq!(new_intent_record_now(given).modified_at, Timestamp { unix_nanos: 12 });
}

#[test]
fn update_then_find_reads_new_value() {
    let mut hashes = Hashes(HashMap::new());
    let key = intent_key("pay_6", "m_6");
    hashes.hsetnx(&key, intent_field(), "old");
    hashes.0.insert((key.clone(), intent_field().to_string()), "new".to_string());
    assert_eq!(find_outcome(hashes.hget(&key, intent_field()), &key), Ok("new".to_string()));
}
