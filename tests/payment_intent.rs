use payment_core::enums::{Currency, FutureUsage, IntentStatus};
use payment_core::payment_intent::{
    make_client_secret_null_if_success, PaymentIntent, PaymentIntentUpdate,
    PaymentIntentUpdateInternal,
};
use payment_core::time_util::Timestamp;

fn at(n: i128) -> Timestamp {
    Timestamp { unix_nanos: n }
}

fn sample_intent() -> PaymentIntent {
    PaymentIntent {
        id: 7,
        payment_id: "pay_1".to_string(),
        merchant_id: "merchant_1".to_string(),
        status: IntentStatus::RequiresConfirmation,
        amount: 1000,
        currency: Some(Currency::USD),
        amount_captured: None,
        customer_id: Some("cus_1".to_string()),
        description: Some("order 42".to_string()),
        return_url: Some("https://shop.example/return".to_string()),
        metadata: Some(serde_json::Value::String("meta".to_string())),
        connector_id: Some("stripe".to_string()),
        shipping_address_id: Some("addr_ship".to_string()),
        billing_address_id: Some("addr_bill".to_string()),
        statement_descriptor_name: Some("SHOP".to_string()),
        statement_descriptor_suffix: Some("42".to_string()),
        created_at: at(100),
        modified_at: at(100),
        last_synced: None,
        setup_future_usage: Some(FutureUsage::OnSession),
        off_session: Some(false),
        client_secret: Some("pay_1_secret_abc".to_string()),
    }
}

#[test]
fn metadata_update_touches_only_metadata() {
    let source = sample_intent();
    let meta = serde_json::Value::Bool(true);
    let update = PaymentIntentUpdate::MetadataUpdate { metadata: meta.clone() };
    let result = update.apply_changeset_at(source.clone(), at(500));
    let mut expected = source;
    expected.metadata = Some(meta);
    expected.modified_at = at(500);
    assert_eq!(result, expected);
}

#[test]
fn changeset_is_deterministic() {
    let first = PaymentIntentUpdate::PGStatusUpdate { status: IntentStatus::Processing }
        .apply_changeset_at(sample_intent(), at(9));
    let second = PaymentIntentUpdate::PGStatusUpdate { status: IntentStatus::Processing }
        .apply_changeset_at(sample_intent(), at(9));
    assert_eq!(first, second);
    assert_eq!(first.status, IntentStatus::Processing);
    assert_eq!(first.client_secret, Some("pay_1_secret_abc".to_string()));
}

#[test]
fn response_update_to_success_clears_secret() {
    let update = PaymentIntentUpdate::ResponseUpdate {
        status: IntentStatus::Succeeded,
        amount_captured: Some(1000),
        return_url: None,
    };
    let result = update.apply_changeset_at(sample_intent(), at(200));
    assert_eq!(result.status, IntentStatus::Succeeded);
    assert_eq!(result.client_secret, None);
    assert_eq!(result.amount_captured, Some(1000));
    assert_eq!(result.return_url, Some("https://shop.example/return".to_string()));
}

#[test]
fn every_status_variant_to_success_clears_secret() {
    let updates = vec![
        PaymentIntentUpdate::PGStatusUpdate { status: IntentStatus::Succeeded },
        PaymentIntentUpdate::MerchantStatusUpdate {
            status: IntentStatus::Succeeded,
            shipping_address_id: None,
            billing_address_id: None,
        },
        PaymentIntentUpdate::ReturnUrlUpdate {
            return_url: None,
            status: Some(IntentStatus::Succeeded),
            customer_id: None,
            shipping_address_id: None,
            billing_address_id: None,
        },
        PaymentIntentUpdate::Update {
            amount: 5,
            currency: Currency::EUR,
            status: IntentStatus::Succeeded,
            customer_id: None,
            shipping_address_id: None,
            billing_address_id: None,
        },
    ];
    for update in updates {
        let result = update.apply_changeset_at(sample_intent(), at(300));
        assert_eq!(result.status, IntentStatus::Succeeded);
        assert_eq!(result.client_secret, None);
    }
}

#[test]
fn non_success_status_keeps_secret() {
    let update = PaymentIntentUpdate::MerchantStatusUpdate {
        status: IntentStatus::Failed,
        shipping_address_id: Some("addr_new".to_string()),
        billing_address_id: None,
    };
    let result = update.apply_changeset_at(sample_intent(), at(300));
    assert_eq!(result.status, IntentStatus::Failed);
    assert_eq!(result.client_secret, Some("pay_1_secret_abc".to_string()));
    assert_eq!(result.shipping_address_id, Some("addr_new".to_string()));
    assert_eq!(result.billing_address_id, Some("addr_bill".to_string()));
}

#[test]
fn return_url_update_without_status_keeps_status() {
    let update = PaymentIntentUpdate::ReturnUrlUpdate {
        return_url: Some("https://new.example".to_string()),
        status: None,
        customer_id: None,
        shipping_address_id: None,
        billing_address_id: None,
    };
    let result = update.apply_changeset_at(sample_intent(), at(301));
    assert_eq!(result.status, IntentStatus::RequiresConfirmation);
    assert_eq!(result.return_url, Some("https://new.example".to_string()));
    assert_eq!(result.customer_id, Some("cus_1".to_string()));
    assert_eq!(result.client_secret, Some("pay_1_secret_abc".to_string()));
    assert_eq!(result.modified_at, at(301));
}

#[test]
fn full_update_overwrites_amount_currency_status() {
    let update = PaymentIntentUpdate::Update {
        amount: 2500,
        currency: Currency::GBP,
        status: IntentStatus::RequiresCapture,
        customer_id: Some("cus_2".to_string()),
        shipping_address_id: None,
        billing_address_id: Some("addr_b2".to_string()),
    };
    let result = update.apply_changeset_at(sample_intent(), at(400));
    assert_eq!(result.amount, 2500);
    assert_eq!(result.currency, Some(Currency::GBP));
    assert_eq!(result.status, IntentStatus::RequiresCapture);
    assert_eq!(result.customer_id, Some("cus_2".to_string()));
    assert_eq!(result.shipping_address_id, Some("addr_ship".to_string()));
    assert_eq!(result.billing_address_id, Some("addr_b2".to_string()));
    assert_eq!(result.id, 7);
    assert_eq!(result.created_at, at(100));
    assert_eq!(result.description, Some("order 42".to_string()));
}

#[test]
fn apply_changeset_stamps_modified_at() {
    let update = PaymentIntentUpdate::PGStatusUpdate { status: IntentStatus::Processing };
    let result = update.apply_changeset(sample_intent());
    assert_eq!(result.status, IntentStatus::Processing);
    assert!(result.modified_at.unix_nanos > 100);
    assert_eq!(result.created_at, at(100));
}

#[test]
fn client_secret_override_only_on_success() {
    assert_eq!(make_client_secret_null_if_success(Some(IntentStatus::Succeeded)), Some(None));
    assert_eq!(make_client_secret_null_if_success(Some(IntentStatus::Failed)), None);
    assert_eq!(make_client_secret_null_if_success(None), None);
}

#[test]
fn internal_record_of_metadata_update() {
    let internal = PaymentIntentUpdateInternal::from_update(
        PaymentIntentUpdate::MetadataUpdate { metadata: serde_json::Value::Null },
        at(77),
    );
    assert_eq!(internal.metadata, Some(serde_json::Value::Null));
    assert_eq!(internal.status, None);
    assert_eq!(internal.client_secret, None);
    assert_eq!(internal.modified_at, Some(at(77)));
}

#[test]
fn internal_record_of_success_response() {
    let internal = PaymentIntentUpdateInternal::from_update(
        PaymentIntentUpdate::ResponseUpdate {
            status: IntentStatus::Succeeded,
            amount_captured: Some(10),
            return_url: None,
        },
        at(78),
    );
    assert_eq!(internal.status, Some(IntentStatus::Succeeded));
    assert_eq!(internal.client_secret, Some(None));
    assert_eq!(internal.amount_captured, Some(10));
}

fn succeeded_with_secret() -> PaymentIntent {
    let mut p = sample_intent();
    p.status = IntentStatus::Succeeded;
    p
}

#[test]
fn success_kept_by_update_without_status_clears_secret() {
    let update = PaymentIntentUpdate::ReturnUrlUpdate {
        return_url: Some("https://after.example".to_string()),
        status: None,
        customer_id: None,
        shipping_address_id: None,
        billing_address_id: None,
    };
    let result = update.apply_changeset_at(succeeded_with_secret(), at(600));
    assert_eq!(result.status, IntentStatus::Succeeded);
    assert_eq!(result.client_secret, None);
    let result = PaymentIntentUpdate::MetadataUpdate { metadata: serde_json::Value::Null }
        .apply_changeset_at(succeeded_with_secret(), at(601));
    assert_eq!(result.status, IntentStatus::Succeeded);
    assert_eq!(result.client_secret, None);
}

#[test]
fn leaving_success_keeps_no_secret_back() {
    let mut source = succeeded_with_secret();
    source.client_secret = None;
    let result = PaymentIntentUpdate::PGStatusUpdate { status: IntentStatus::Processing }
        .apply_changeset_at(source, at(602));
    assert_eq!(result.client_secret, None);
}
