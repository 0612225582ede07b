use block_payload::budget::{MAX_BITCOIN_BLOCK_SIZE, MAX_XNET_PAYLOAD_IN_BYTES};
use block_payload::metrics::PayloadBuilderMetrics;
use block_payload::payload_builder::{
    PayloadBuilder, PayloadBuilderImpl, PayloadPermanentError, PayloadTransientError,
    ValidationError,
};
use block_payload::pool::MessagePool;
use block_payload::registry::{LocalRegistry, RegistryError};
use block_payload::section::SectionError;
use block_payload::time::Time;
use block_payload::types::{
    BatchPayload, Height, NumBytes, Payload, RegistryVersion, SectionKind, SectionPayload,
    SubnetId, SubnetRecord, SubnetRecords, ValidationContext,
};

const MIB: u64 = 1024 * 1024;

/// A registry that answers every lookup at version 1 for subnet 0 as given.
fn registry_that_answers(answer: Result<SubnetRecord, RegistryError>) -> LocalRegistry {
    match answer {
        Ok(record) => {
            let mut registry = LocalRegistry::new(RegistryVersion::new(0));
            registry.insert(SubnetId(0), RegistryVersion::new(1), record);
            registry
        }
        Err(RegistryError::NotFound) => LocalRegistry::new(RegistryVersion::new(1)),
        Err(RegistryError::Unavailable) => LocalRegistry::new(RegistryVersion::new(0)),
    }
}

type TestBuilder =
    PayloadBuilderImpl<LocalRegistry, MessagePool, MessagePool, MessagePool, MessagePool>;

fn default_record() -> SubnetRecord {
    SubnetRecord { max_block_payload_size: 4 * MIB, max_ingress_bytes_per_message: 2 * MIB }
}

fn mock_time() -> Time {
    Time::from_nanos_since_unix_epoch(0)
}

fn context() -> ValidationContext {
    ValidationContext {
        certified_height: Height::new(0),
        registry_version: RegistryVersion::new(1),
        time: mock_time(),
    }
}

fn records(record: SubnetRecord) -> SubnetRecords {
    SubnetRecords { membership_version: record, context_version: record }
}

/// Builds a payload builder whose sources hold the given messages.
fn make_test_payload_impl(
    answer: Result<SubnetRecord, RegistryError>,
    ingress_messages: Vec<Vec<u8>>,
    certified_streams: Vec<Vec<u8>>,
    responses_from_adapter: Vec<Vec<u8>>,
    canister_http_responses: Vec<Vec<u8>>,
) -> TestBuilder {
    PayloadBuilderImpl::new(
        SubnetId(0),
        registry_that_answers(answer),
        MessagePool::new(SectionKind::Ingress, ingress_messages),
        MessagePool::new(SectionKind::XNet, certified_streams),
        MessagePool::new(SectionKind::SelfValidating, responses_from_adapter),
        MessagePool::new(SectionKind::CanisterHttp, canister_http_responses),
    )
}

fn message(tag: u8, size: usize) -> Vec<u8> {
    vec![tag; size]
}

fn batch(ingress: Vec<Vec<u8>>, self_validating: Vec<Vec<u8>>, xnet: Vec<Vec<u8>>, http: Vec<Vec<u8>>) -> BatchPayload {
    BatchPayload {
        ingress: SectionPayload::new(ingress),
        self_validating: SectionPayload::new(self_validating),
        xnet: SectionPayload::new(xnet),
        canister_http: SectionPayload::new(http),
    }
}

// Confirms that the payload holds the messages that the sources provided.
fn test_get_messages(
    provided_ingress_messages: Vec<Vec<u8>>,
    provided_certified_streams: Vec<Vec<u8>>,
    provided_responses_from_adapter: Vec<Vec<u8>>,
    provided_canister_http_responses: Vec<Vec<u8>>,
) {
    let subnet_record = default_record();
    let mut payload_builder = make_test_payload_impl(
        Ok(subnet_record),
        provided_ingress_messages.clone(),
        provided_certified_streams.clone(),
        provided_responses_from_adapter.clone(),
        provided_canister_http_responses.clone(),
    );
    let prev_payloads = Vec::new();
    let (ingress_msgs, stream_msgs, responses_from_adapter, http_responses) = payload_builder
        .get_payload(Height::new(1), &prev_payloads, &context(), &records(subnet_record))
        .into_messages();
    assert_eq!(ingress_msgs, provided_ingress_messages);
    assert_eq!(stream_msgs, provided_certified_streams);
    assert_eq!(responses_from_adapter, provided_responses_from_adapter);
    assert_eq!(http_responses, provided_canister_http_responses);
}

// Varies the number of ingress messages and of streams that the sources provide.
fn param_msgs_test(in_count: u64, stream_count: u64) {
    let inputs = (0..in_count).map(|nonce| nonce.to_le_bytes().to_vec()).collect();
    let certified_streams = (0..stream_count).map(|subnet| vec![subnet as u8 + 1]).collect();
    let responses_from_adapter = vec![vec![0u8; 8]];
    test_get_messages(inputs, certified_streams, responses_from_adapter, vec![])
}

#[test]
fn test_get_messages_interface() {
    for i in 0..3 {
        for j in 0..3 {
            param_msgs_test(i, j);
        }
    }
}

#[test]
fn summary_payload_is_valid_without_registry() {
    let mut builder =
        make_test_payload_impl(Err(RegistryError::Unavailable), vec![], vec![], vec![], vec![]);
    let past = [(Height::new(3), mock_time(), Payload::Summary)];
    assert_eq!(builder.validate_payload(Height::new(4), &Payload::Summary, &past, &context()), Ok(()));
    assert_eq!(builder.validate_payload(Height::new(0), &Payload::Summary, &[], &context()), Ok(()));
}

#[test]
fn registry_failures_are_transient() {
    let payload = Payload::Data(BatchPayload::default());
    let mut builder =
        make_test_payload_impl(Err(RegistryError::Unavailable), vec![], vec![], vec![], vec![]);
    assert_eq!(
        builder.validate_payload(Height::new(1), &payload, &[], &context()),
        Err(ValidationError::Transient(PayloadTransientError::RegistryUnavailable))
    );
    let mut builder =
        make_test_payload_impl(Err(RegistryError::NotFound), vec![], vec![], vec![], vec![]);
    assert_eq!(
        builder.validate_payload(Height::new(1), &payload, &[], &context()),
        Err(ValidationError::Transient(PayloadTransientError::SubnetNotFound(
            SubnetId(0),
            RegistryVersion::new(1)
        )))
    );
}

#[test]
fn empty_payload_is_valid() {
    let mut builder = make_test_payload_impl(Ok(default_record()), vec![], vec![], vec![], vec![]);
    let payload = Payload::Data(BatchPayload::default());
    assert_eq!(builder.validate_payload(Height::new(1), &payload, &[], &context()), Ok(()));
}

#[test]
fn early_rejection_reports_the_first_section() {
    let mut builder = make_test_payload_impl(Ok(default_record()), vec![], vec![], vec![], vec![]);
    let size = (4 * MIB + 1) as usize;
    // The later sections hold messages that are not valid: they are not reached.
    let payload = Payload::Data(batch(vec![message(1, size)], vec![vec![]], vec![vec![]], vec![]));
    assert_eq!(
        builder.validate_payload(Height::new(1), &payload, &[], &context()),
        Err(ValidationError::Permanent(PayloadPermanentError::PayloadTooBig {
            expected: NumBytes::new(4 * MIB),
            received: NumBytes::new(4 * MIB + 1),
        }))
    );
}

#[test]
fn oversize_is_found_after_the_section_that_exceeds() {
    let mut builder = make_test_payload_impl(Ok(default_record()), vec![], vec![], vec![], vec![]);
    let half = (2 * MIB) as usize;
    let payload = Payload::Data(batch(
        vec![message(1, half)],
        vec![message(2, half)],
        vec![message(3, 1)],
        vec![vec![]],
    ));
    assert_eq!(
        builder.validate_payload(Height::new(1), &payload, &[], &context()),
        Err(ValidationError::Permanent(PayloadPermanentError::PayloadTooBig {
            expected: NumBytes::new(4 * MIB),
            received: NumBytes::new(4 * MIB + 1),
        }))
    );
    let fits = Payload::Data(batch(vec![message(1, half)], vec![message(2, half)], vec![], vec![]));
    assert_eq!(builder.validate_payload(Height::new(1), &fits, &[], &context()), Ok(()));
}

#[test]
fn invalid_section_is_a_permanent_error() {
    let mut builder = make_test_payload_impl(Ok(default_record()), vec![], vec![], vec![], vec![]);
    let payload = Payload::Data(batch(vec![message(1, 10)], vec![], vec![vec![], vec![1]], vec![]));
    assert_eq!(
        builder.validate_payload(Height::new(1), &payload, &[], &context()),
        Err(ValidationError::Permanent(PayloadPermanentError::SectionInvalid {
            section: SectionKind::XNet,
            error: SectionError::Malformed,
        }))
    );
}

#[test]
fn floors_are_as_documented() {
    assert_eq!(MAX_BITCOIN_BLOCK_SIZE, 4_194_304);
    assert_eq!(MAX_XNET_PAYLOAD_IN_BYTES, 2_202_009);
}

#[test]
fn get_payload_stays_within_the_payload_size() {
    let record = default_record();
    let three_quarters = (3 * MIB) as usize;
    let mut builder = make_test_payload_impl(
        Ok(record),
        vec![message(1, three_quarters)],
        vec![message(2, three_quarters)],
        vec![],
        vec![],
    );
    // At height 0 the ingress section is filled first and leaves too little for the streams.
    let payload = builder.get_payload(Height::new(0), &[], &context(), &records(record));
    assert_eq!(payload.ingress.messages, vec![message(1, three_quarters)]);
    assert!(payload.xnet.is_empty());
    let wrapped = Payload::Data(payload);
    assert_eq!(builder.validate_payload(Height::new(0), &wrapped, &[], &context()), Ok(()));
    // At height 2 the streams are filled before the ingress messages.
    let past = [(Height::new(0), mock_time(), wrapped)];
    let payload = builder.get_payload(Height::new(2), &past, &context(), &records(record));
    assert!(payload.ingress.is_empty());
    assert_eq!(payload.xnet.messages, vec![message(2, three_quarters)]);
    assert_eq!(builder.metrics().past_payloads_length.count, 2);
    assert_eq!(builder.metrics().past_payloads_length.sum, 1);
    assert_eq!(builder.metrics().get_payload_duration.count, 2);
    assert_eq!(builder.metrics().validate_payload_duration.count, 1);
    assert_eq!(
        builder.validate_payload(Height::new(2), &Payload::Data(payload), &past, &context()),
        Ok(())
    );
}

#[test]
fn build_sections_reports_the_bytes_used() {
    let mut builder = make_test_payload_impl(
        Ok(default_record()),
        vec![message(1, 40), message(2, 40), message(3, 40)],
        vec![message(4, 30)],
        vec![message(5, 25)],
        vec![message(6, 10)],
    );
    // Order at height 0: ingress, adapter responses, streams, HTTP responses.
    let (payload, used) = builder.build_sections(Height::new(0), &[], &context(), NumBytes::new(100));
    assert_eq!(payload.ingress.messages, vec![message(1, 40), message(2, 40)]);
    assert!(payload.self_validating.is_empty());
    assert!(payload.xnet.is_empty());
    assert_eq!(payload.canister_http.messages, vec![message(6, 10)]);
    assert_eq!(used, NumBytes::new(90));
    // Order at height 1: HTTP responses, ingress, adapter responses, streams.
    let (payload, used) = builder.build_sections(Height::new(1), &[], &context(), NumBytes::new(100));
    assert_eq!(payload.canister_http.messages, vec![message(6, 10)]);
    assert_eq!(payload.ingress.messages, vec![message(1, 40), message(2, 40)]);
    assert!(payload.self_validating.is_empty());
    assert!(payload.xnet.is_empty());
    assert_eq!(used, NumBytes::new(90));
    // Order at height 7: adapter responses, streams, HTTP responses, ingress.
    let (payload, used) = builder.build_sections(Height::new(7), &[], &context(), NumBytes::new(100));
    assert_eq!(payload.self_validating.messages, vec![message(5, 25)]);
    assert_eq!(payload.xnet.messages, vec![message(4, 30)]);
    assert_eq!(payload.canister_http.messages, vec![message(6, 10)]);
    assert!(payload.ingress.is_empty());
    assert_eq!(used, NumBytes::new(65));
    // Nothing fits in no bytes.
    let (payload, used) = builder.build_sections(Height::new(3), &[], &context(), NumBytes::new(0));
    assert!(payload.is_empty());
    assert_eq!(used, NumBytes::new(0));
}

#[test]
fn validate_sections_holds_the_sum_against_the_size() {
    let builder = make_test_payload_impl(Ok(default_record()), vec![], vec![], vec![], vec![]);
    let payload = batch(vec![message(1, 40)], vec![message(2, 30)], vec![message(3, 20)], vec![message(4, 10)]);
    assert_eq!(builder.validate_sections(Height::new(1), &payload, &[], &context(), NumBytes::new(100)), Ok(()));
    assert_eq!(
        builder.validate_sections(Height::new(1), &payload, &[], &context(), NumBytes::new(99)),
        Err(ValidationError::Permanent(PayloadPermanentError::PayloadTooBig {
            expected: NumBytes::new(99),
            received: NumBytes::new(100),
        }))
    );
    assert_eq!(
        builder.validate_sections(Height::new(1), &payload, &[], &context(), NumBytes::new(69)),
        Err(ValidationError::Permanent(PayloadPermanentError::PayloadTooBig {
            expected: NumBytes::new(69),
            received: NumBytes::new(70),
        }))
    );
    assert_eq!(
        builder.validate_sections(Height::new(1), &payload, &[], &context(), NumBytes::new(0)),
        Err(ValidationError::Permanent(PayloadPermanentError::PayloadTooBig {
            expected: NumBytes::new(0),
            received: NumBytes::new(40),
        }))
    );
}

#[test]
fn a_section_that_fails_its_validation_is_dropped() {
    let record = default_record();
    // The adapter source offers a message without bytes, which no section may hold.
    let mut builder = make_test_payload_impl(
        Ok(record),
        vec![message(1, 10)],
        vec![message(2, 10)],
        vec![message(3, 10), vec![]],
        vec![],
    );
    let payload = builder.get_payload(Height::new(0), &[], &context(), &records(record));
    assert_eq!(payload.ingress.messages, vec![message(1, 10)]);
    assert_eq!(payload.xnet.messages, vec![message(2, 10)]);
    assert!(payload.self_validating.is_empty());
    assert_eq!(builder.metrics().critical_error_validation_not_passed, 1);
    assert_eq!(
        builder.validate_payload(Height::new(0), &Payload::Data(payload), &[], &context()),
        Ok(())
    );
}

#[test]
fn misconfigured_record_is_clamped_and_the_alarm_raised_once() {
    let mut builder = make_test_payload_impl(Ok(default_record()), vec![], vec![], vec![], vec![]);
    let record = SubnetRecord { max_block_payload_size: 500, max_ingress_bytes_per_message: 8 * MIB };
    assert_eq!(builder.get_max_block_payload_size_bytes(&record), NumBytes::new(8 * MIB));
    assert_eq!(builder.get_max_block_payload_size_bytes(&record), NumBytes::new(8 * MIB));
    assert_eq!(builder.get_max_block_payload_size_bytes(&record), NumBytes::new(8 * MIB));
    assert_eq!(builder.metrics().critical_error_subnet_record_data_issue.count(), 1);
    let record = SubnetRecord { max_block_payload_size: 500, max_ingress_bytes_per_message: 100 };
    assert_eq!(builder.get_max_block_payload_size_bytes(&record), NumBytes::new(4 * MIB));
    assert_eq!(builder.metrics().critical_error_subnet_record_data_issue.count(), 1);
}

#[test]
fn well_configured_record_raises_no_alarm() {
    let mut builder = make_test_payload_impl(Ok(default_record()), vec![], vec![], vec![], vec![]);
    let record = SubnetRecord { max_block_payload_size: 5 * MIB, max_ingress_bytes_per_message: 2 * MIB };
    assert_eq!(builder.get_max_block_payload_size_bytes(&record), NumBytes::new(5 * MIB));
    assert_eq!(builder.get_max_block_payload_size_bytes(&default_record()), NumBytes::new(4 * MIB));
    assert_eq!(builder.metrics().critical_error_subnet_record_data_issue.count(), 0);
    assert_eq!(builder.metrics().critical_error_subnet_record_data_issue.last_raised, None);
}

#[test]
fn get_subnet_record_maps_the_answers_of_the_registry() {
    let builder = make_test_payload_impl(Ok(default_record()), vec![], vec![], vec![], vec![]);
    assert_eq!(builder.get_subnet_record(&context()), Ok(default_record()));
    let builder = make_test_payload_impl(Err(RegistryError::NotFound), vec![], vec![], vec![], vec![]);
    assert_eq!(
        builder.get_subnet_record(&context()),
        Err(ValidationError::Transient(PayloadTransientError::SubnetNotFound(
            SubnetId(0),
            RegistryVersion::new(1)
        )))
    );
}

#[test]
fn validate_with_record_passes_the_error_of_the_lookup_on() {
    let mut builder = make_test_payload_impl(Ok(default_record()), vec![], vec![], vec![], vec![]);
    let payload = Payload::Data(BatchPayload::default());
    let error = ValidationError::Transient(PayloadTransientError::RegistryUnavailable);
    assert_eq!(
        builder.validate_with_record(Height::new(1), &payload, &[], &context(), Err(error)),
        Err(error)
    );
    assert_eq!(
        builder.validate_with_record(Height::new(1), &Payload::Summary, &[], &context(), Err(error)),
        Ok(())
    );
    assert_eq!(
        builder.validate_with_record(Height::new(1), &payload, &[], &context(), Ok(default_record())),
        Ok(())
    );
}

#[test]
fn a_builder_has_one_section_for_each_class_of_messages() {
    let builder = make_test_payload_impl(Ok(default_record()), vec![], vec![], vec![], vec![]);
    assert_eq!(builder.section_count(), 4);
    assert_eq!(builder.metrics(), PayloadBuilderMetrics::new());
    assert_eq!(builder.metrics().critical_error_validation_not_passed, 0);
}

#[test]
fn a_message_that_occurs_twice_is_a_duplicate() {
    let mut builder = make_test_payload_impl(Ok(default_record()), vec![], vec![], vec![], vec![]);
    let payload = Payload::Data(batch(
        vec![message(1, 10), message(2, 10), message(1, 10)],
        vec![],
        vec![],
        vec![],
    ));
    assert_eq!(
        builder.validate_payload(Height::new(1), &payload, &[], &context()),
        Err(ValidationError::Permanent(PayloadPermanentError::SectionInvalid {
            section: SectionKind::Ingress,
            error: SectionError::DuplicateMessage,
        }))
    );
    // The same bytes in two sections are two messages.
    let payload = Payload::Data(batch(vec![message(1, 10)], vec![], vec![message(1, 10)], vec![]));
    assert_eq!(builder.validate_payload(Height::new(1), &payload, &[], &context()), Ok(()));
    // An empty message is malformed, duplicate or not.
    let payload = Payload::Data(batch(vec![], vec![], vec![], vec![vec![], vec![]]));
    assert_eq!(
        builder.validate_payload(Height::new(1), &payload, &[], &context()),
        Err(ValidationError::Permanent(PayloadPermanentError::SectionInvalid {
            section: SectionKind::CanisterHttp,
            error: SectionError::Malformed,
        }))
    );
}

#[test]
fn a_message_of_a_past_payload_is_a_duplicate() {
    let mut builder = make_test_payload_impl(Ok(default_record()), vec![], vec![], vec![], vec![]);
    let past = [
        (Height::new(3), mock_time(), Payload::Summary),
        (
            Height::new(2),
            mock_time(),
            Payload::Data(batch(vec![message(1, 10)], vec![], vec![message(2, 10)], vec![])),
        ),
    ];
    let repeated = Payload::Data(batch(vec![], vec![], vec![message(3, 10), message(2, 10)], vec![]));
    assert_eq!(
        builder.validate_payload(Height::new(4), &repeated, &past, &context()),
        Err(ValidationError::Permanent(PayloadPermanentError::SectionInvalid {
            section: SectionKind::XNet,
            error: SectionError::DuplicateMessage,
        }))
    );
    assert_eq!(builder.validate_payload(Height::new(4), &repeated, &[], &context()), Ok(()));
    // What a past payload holds in another section is no duplicate.
    let fresh = Payload::Data(batch(vec![message(2, 10)], vec![], vec![message(1, 10)], vec![]));
    assert_eq!(builder.validate_payload(Height::new(4), &fresh, &past, &context()), Ok(()));
}

#[test]
fn get_payload_leaves_out_what_past_payloads_hold() {
    let record = default_record();
    let mut builder = make_test_payload_impl(
        Ok(record),
        vec![message(1, 10), message(2, 10), message(1, 10), message(3, 10)],
        vec![message(4, 10)],
        vec![],
        vec![],
    );
    let first = builder.get_payload(Height::new(1), &[], &context(), &records(record));
    assert_eq!(first.ingress.messages, vec![message(1, 10), message(2, 10), message(3, 10)]);
    assert_eq!(first.xnet.messages, vec![message(4, 10)]);
    let past = [(
        Height::new(1),
        mock_time(),
        Payload::Data(batch(vec![message(2, 10)], vec![], vec![message(4, 10)], vec![])),
    )];
    let second = builder.get_payload(Height::new(2), &past, &context(), &records(record));
    assert_eq!(second.ingress.messages, vec![message(1, 10), message(3, 10)]);
    assert!(second.xnet.is_empty());
    assert_eq!(builder.metrics().critical_error_validation_not_passed, 0);
    assert_eq!(
        builder.validate_payload(Height::new(2), &Payload::Data(second), &past, &context()),
        Ok(())
    );
}

#[test]
fn a_pool_takes_messages_in_their_order() {
    let mut pool = MessagePool::new(SectionKind::Ingress, vec![message(1, 4)]);
    pool.enqueue(message(2, 4));
    pool.enqueue(message(3, 1));
    assert_eq!(pool.messages, vec![message(1, 4), message(2, 4), message(3, 1)]);
    let mut builder = PayloadBuilderImpl::new(
        SubnetId(0),
        registry_that_answers(Ok(default_record())),
        pool,
        MessagePool::new(SectionKind::XNet, vec![]),
        MessagePool::new(SectionKind::SelfValidating, vec![]),
        MessagePool::new(SectionKind::CanisterHttp, vec![]),
    );
    // The second message does not fit, and the third is not tried in its place.
    let (payload, used) = builder.build_sections(Height::new(0), &[], &context(), NumBytes::new(7));
    assert_eq!(payload.ingress.messages, vec![message(1, 4)]);
    assert_eq!(payload.ingress.message_count(), 1);
    assert_eq!(used, NumBytes::new(4));
}
