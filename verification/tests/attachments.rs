use futures::AsyncReadExt;
use presage::attachments::{
    accept_attachment_ciphertext, attachment_ciphertext_size_limit, finish_attachment,
    is_valid_attachment_ciphertext_size, plan_attachment_read, AttachmentPointer,
    ATTACHMENT_CIPHER_BLOCK_SIZE, ATTACHMENT_IV_SIZE, ATTACHMENT_MAC_SIZE,
    ATTACHMENT_MIN_PADDED_PLAINTEXT_SIZE,
};
use presage::error::Error;
use presage::registration::{
    Manager, ProfileKey, Registered, RegistrationData, ServiceIds, SignalServers,
};

fn signal_sender_ciphertext_size(plaintext_size: usize) -> usize {
    let padded_size = std::cmp::max(
        ATTACHMENT_MIN_PADDED_PLAINTEXT_SIZE as usize,
        1.05f64
            .powf((plaintext_size as f64).log(1.05).ceil())
            .floor() as usize,
    );
    ATTACHMENT_IV_SIZE as usize
        + (padded_size / ATTACHMENT_CIPHER_BLOCK_SIZE as usize + 1)
            * ATTACHMENT_CIPHER_BLOCK_SIZE as usize
        + ATTACHMENT_MAC_SIZE as usize
}

#[test]
fn attachment_ciphertext_limit_includes_signal_padding_and_encryption_overhead() {
    assert_eq!(attachment_ciphertext_size_limit(0), 592);
    assert_eq!(attachment_ciphertext_size_limit(1), 592);
    assert_eq!(
        attachment_ciphertext_size_limit(25 * 1024 * 1024),
        27_525_184
    );

    for plaintext_size in [
        0,
        1,
        540,
        541,
        542,
        1024,
        100 * 1024,
        25 * 1024 * 1024,
        u32::MAX as usize,
    ] {
        assert!(
            signal_sender_ciphertext_size(plaintext_size)
                <= attachment_ciphertext_size_limit(plaintext_size),
            "ciphertext bound was too small for {plaintext_size} plaintext bytes"
        );
    }

    let mut exponent = 0;
    loop {
        let boundary = 1.05f64.powi(exponent);
        if boundary > u32::MAX as f64 + 2.0 {
            break;
        }
        let first_candidate = boundary.floor() as i64 - 2;
        let last_candidate = boundary.ceil() as i64 + 2;
        for plaintext_size in first_candidate..=last_candidate {
            if !(0..=u32::MAX as i64).contains(&plaintext_size) {
                continue;
            }
            let plaintext_size = plaintext_size as usize;
            assert!(
                signal_sender_ciphertext_size(plaintext_size)
                    <= attachment_ciphertext_size_limit(plaintext_size),
                "ciphertext bound was too small at bucket edge {plaintext_size}"
            );
        }
        exponent += 1;
    }
}

#[test]
fn attachment_ciphertext_framing_rejects_lengths_that_cannot_be_decrypted() {
    for ciphertext_size in [0, 31, 32, 47, 48, 63, 65, 79] {
        assert!(!is_valid_attachment_ciphertext_size(ciphertext_size));
    }
    for ciphertext_size in [64, 80, 96, 592] {
        assert!(is_valid_attachment_ciphertext_size(ciphertext_size));
    }
}

fn read_bounded(
    reader: &mut futures::io::Cursor<Vec<u8>>,
    initial_capacity: usize,
    max_ciphertext_size: Option<usize>,
) -> Option<Vec<u8>> {
    let plan = plan_attachment_read(initial_capacity, max_ciphertext_size);
    let mut ciphertext = Vec::with_capacity(plan.initial_capacity);
    futures::executor::block_on(async {
        match plan.read_limit {
            Some(limit) => reader.take(limit).read_to_end(&mut ciphertext).await,
            None => reader.read_to_end(&mut ciphertext).await,
        }
    })
    .unwrap();
    accept_attachment_ciphertext(ciphertext, max_ciphertext_size)
}

#[test]
fn bounded_attachment_reader_stops_after_first_excess_byte() {
    let max_ciphertext_size = 64;
    let mut reader = futures::io::Cursor::new(vec![7; max_ciphertext_size + 32]);

    let ciphertext = read_bounded(&mut reader, 0, Some(max_ciphertext_size));

    assert!(ciphertext.is_none());
    assert_eq!(reader.position(), (max_ciphertext_size + 1) as u64);
}

#[test]
fn bounded_attachment_reader_accepts_the_exact_limit() {
    let expected = vec![7; 64];
    let mut reader = futures::io::Cursor::new(expected.clone());

    let ciphertext = read_bounded(&mut reader, 0, Some(expected.len())).unwrap();

    assert_eq!(ciphertext, expected);
    assert_eq!(reader.position(), expected.len() as u64);
}

#[test]
fn unbounded_attachment_reader_reads_everything() {
    let expected = vec![7; 4096];
    let mut reader = futures::io::Cursor::new(expected.clone());
    assert_eq!(read_bounded(&mut reader, 10, None).unwrap(), expected);
    assert_eq!(plan_attachment_read(10, None).initial_capacity, 10);
    assert_eq!(plan_attachment_read(1000, Some(64)).initial_capacity, 64);
    assert_eq!(plan_attachment_read(0, Some(64)).read_limit, Some(65));
    assert_eq!(
        plan_attachment_read(0, Some(usize::MAX)).read_limit,
        Some(u64::MAX)
    );
}

fn manager() -> Manager<(), Registered> {
    let data = RegistrationData {
        signal_servers: SignalServers::Production,
        device_name: None,
        phone_number: "+12025550123".to_string(),
        service_ids: ServiceIds { aci: 1, pni: 2 },
        password: "password".to_string(),
        device_id: None,
        registration_id: 3,
        pni_registration_id: Some(4),
        profile_key: ProfileKey::create([5; 32]),
    };
    Manager::load_registered((), Some(data), None).unwrap()
}

// The SHA-256 digest of 64 zero bytes.
const ZERO_DIGEST: [u8; 32] = [
    0xf5, 0xa5, 0xfd, 0x42, 0xd1, 0x6a, 0x20, 0x30, 0x27, 0x98, 0xef, 0x6e, 0xd3, 0x09, 0x97, 0x9b,
    0x43, 0x00, 0x3d, 0x23, 0x20, 0xd9, 0xf0, 0xe8, 0xea, 0x98, 0x31, 0xa9, 0x27, 0x59, 0xfb, 0x4b,
];

fn pointer() -> AttachmentPointer {
    AttachmentPointer {
        digest: Some(ZERO_DIGEST.to_vec()),
        size: Some(10),
        key: Some(vec![9; 64]),
    }
}

#[test]
fn attachment_with_the_announced_digest_is_decrypted() {
    let download = manager().get_attachment(&pointer()).unwrap();
    assert_eq!(download.ciphertext_limit(), None);
    assert_eq!(download.read_plan().initial_capacity, 10);
    let decryption = download.ciphertext_received(vec![0; 64]).unwrap();
    assert_eq!(decryption.ciphertext, vec![0; 64]);
    assert_eq!(decryption.key, vec![9; 64]);
    assert!(!decryption.in_thread);
    assert_eq!(decryption.plaintext_len, Some(10));
}

#[test]
fn attachment_with_another_digest_is_refused() {
    let download = manager().get_attachment(&pointer()).unwrap();
    assert!(matches!(
        download.ciphertext_received(vec![1; 64]),
        Err(Error::UnexpectedAttachmentChecksum)
    ));
    let mut unmarked = pointer();
    unmarked.digest = None;
    assert!(matches!(
        manager().get_attachment(&unmarked),
        Err(Error::UnexpectedAttachmentChecksum)
    ));
}

#[test]
fn attachment_checks_come_in_order() {
    let digest = vec![1; 32];
    let mut pointer = pointer();
    pointer.digest = Some(digest.clone());
    pointer.key = Some(vec![9; 63]);
    let start = |pointer: &AttachmentPointer| {
        manager()
            .get_attachment_with_size_limit(pointer, 10)
            .unwrap()
    };
    assert_eq!(start(&pointer).ciphertext_limit(), Some(592));
    assert!(matches!(
        start(&pointer).check_ciphertext(vec![0; 593], &digest),
        Err(Error::AttachmentSizeLimitExceeded { max_size: 10 })
    ));
    assert!(matches!(
        start(&pointer).check_ciphertext(vec![0; 65], &vec![2; 32]),
        Err(Error::UnexpectedAttachmentChecksum)
    ));
    assert!(matches!(
        start(&pointer).check_ciphertext(vec![0; 65], &digest),
        Err(Error::InvalidAttachmentCiphertext)
    ));
    assert!(matches!(
        start(&pointer).check_ciphertext(vec![0; 64], &digest),
        Err(Error::InvalidKeyLength)
    ));
    pointer.key = Some(vec![9; 64]);
    assert!(start(&pointer)
        .check_ciphertext(vec![0; 592], &digest)
        .is_ok());
    pointer.size = Some(11);
    assert!(matches!(
        manager().get_attachment_with_size_limit(&pointer, 10),
        Err(Error::AttachmentSizeLimitExceeded { max_size: 10 })
    ));
}

#[test]
fn large_attachments_are_decrypted_on_a_thread() {
    let digest = vec![1; 32];
    let mut pointer = pointer();
    pointer.digest = Some(digest.clone());
    let at_threshold = manager()
        .get_attachment(&pointer)
        .unwrap()
        .check_ciphertext(vec![0; 102_400], &digest)
        .unwrap();
    let above = manager()
        .get_attachment(&pointer)
        .unwrap()
        .check_ciphertext(vec![0; 102_416], &digest)
        .unwrap();
    assert!(!at_threshold.in_thread);
    assert!(above.in_thread);
}

#[test]
fn padding_is_removed_before_the_limit_applies() {
    assert_eq!(
        finish_attachment(vec![1, 2, 3, 0, 0], Some(3), Some(3)).unwrap(),
        vec![1, 2, 3]
    );
    assert_eq!(
        finish_attachment(vec![1, 2, 3], Some(5), Some(3)).unwrap(),
        vec![1, 2, 3]
    );
    assert_eq!(
        finish_attachment(vec![1, 2, 3], None, None).unwrap(),
        vec![1, 2, 3]
    );
    assert!(matches!(
        finish_attachment(vec![1, 2, 3], None, Some(2)),
        Err(Error::AttachmentSizeLimitExceeded { max_size: 2 })
    ));
}

#[test]
fn limits_grow_with_the_plaintext_and_are_valid_sizes() {
    let mut previous = 0;
    for size in [0, 100, 541, 542, 600, 10_000, 1_000_000] {
        let limit = attachment_ciphertext_size_limit(size);
        assert!(limit >= previous);
        assert!(is_valid_attachment_ciphertext_size(limit));
        previous = limit;
    }
    assert_eq!(attachment_ciphertext_size_limit(usize::MAX), usize::MAX);
}
