//! Size rules and integrity checks of attachments.
//!
//! An attachment is padded to a privacy bucket, encrypted with AES-CBC under PKCS#7 padding, and
//! framed by an initialization vector and an authentication code. Downloads are bounded by the
//! largest ciphertext that an accepted plaintext can have.

use vstd::arithmetic::div_mod::*;
use vstd::arithmetic::mul::*;
use vstd::arithmetic::power::*;
use vstd::prelude::*;

use crate::bytes::{copy_bytes, same_bytes};
use crate::error::Error;
use crate::registration::{Manager, Registered};

verus! {

/// No plaintext is padded to fewer bytes than this.
pub const ATTACHMENT_MIN_PADDED_PLAINTEXT_SIZE: u128 = 541;

/// Padding adds at most one byte per this many plaintext bytes, rounded up.
pub const ATTACHMENT_PRIVACY_PADDING_DENOMINATOR: u128 = 20;

pub const ATTACHMENT_CIPHER_BLOCK_SIZE: u128 = 16;

pub const ATTACHMENT_IV_SIZE: u128 = 16;

pub const ATTACHMENT_MAC_SIZE: u128 = 32;

/// The smallest ciphertext: the initialization vector, one block and the authentication code.
pub const ATTACHMENT_MIN_CIPHERTEXT_SIZE: usize = 64;

/// Ciphertexts larger than this are decrypted on a thread of their own.
pub const DECRYPT_IN_THREAD_THRESHOLD: usize = 102400;

/// `numerator / denominator`, rounded up.
pub open spec fn ceil_div(numerator: int, denominator: int) -> int {
    (numerator + denominator - 1) / denominator
}

/// The most bytes to which a plaintext of `size` bytes is padded before encryption.
pub open spec fn padded_size_bound(size: int) -> int {
    let with_padding = size + ceil_div(size, 20);
    if with_padding < 541 {
        541
    } else {
        with_padding
    }
}

/// The number of bytes in the ciphertext of `padded` bytes: whole blocks, at least one byte of
/// which is block padding, between the initialization vector and the authentication code.
pub open spec fn ciphertext_size(padded: int) -> int {
    16 + (padded / 16 + 1) * 16 + 32
}

/// The bound on ciphertexts of plaintexts of at most `size` bytes, as far as `usize` can hold it.
pub open spec fn ciphertext_size_bound(size: int) -> int {
    let bound = ciphertext_size(padded_size_bound(size));
    if bound > usize::MAX {
        usize::MAX as int
    } else {
        bound
    }
}

/// Whether a ciphertext of this many bytes is whole blocks between the initialization vector and
/// the authentication code.
pub open spec fn valid_ciphertext_size(size: int) -> bool {
    exists|blocks: int| blocks >= 1 && size == 16 + #[trigger] (blocks * 16) + 32
}

/// The most ciphertext bytes that an attachment of at most `max_plaintext_size` bytes can have.
pub fn attachment_ciphertext_size_limit(max_plaintext_size: usize) -> (limit: usize)
    ensures
        limit == ciphertext_size_bound(max_plaintext_size as int),
{
    let size: u128 = max_plaintext_size as u128;
    let padding: u128 = (size + (ATTACHMENT_PRIVACY_PADDING_DENOMINATOR - 1))
        / ATTACHMENT_PRIVACY_PADDING_DENOMINATOR;
    let with_padding: u128 = size + padding;
    let privacy_padded_size: u128 = if with_padding < ATTACHMENT_MIN_PADDED_PLAINTEXT_SIZE {
        ATTACHMENT_MIN_PADDED_PLAINTEXT_SIZE
    } else {
        with_padding
    };
    let encrypted_size: u128 = ATTACHMENT_IV_SIZE + (privacy_padded_size
        / ATTACHMENT_CIPHER_BLOCK_SIZE + 1) * ATTACHMENT_CIPHER_BLOCK_SIZE + ATTACHMENT_MAC_SIZE;
    if encrypted_size > usize::MAX as u128 {
        usize::MAX
    } else {
        encrypted_size as usize
    }
}

/// Whether a ciphertext of this many bytes can be decrypted at all.
pub fn is_valid_attachment_ciphertext_size(size: usize) -> (valid: bool)
    ensures
        valid == valid_ciphertext_size(size as int),
{
    let overhead: usize = (ATTACHMENT_IV_SIZE + ATTACHMENT_MAC_SIZE) as usize;
    let valid = size >= ATTACHMENT_MIN_CIPHERTEXT_SIZE && (size - overhead)
        % (ATTACHMENT_CIPHER_BLOCK_SIZE as usize) == 0;
    proof {
        if valid {
            let blocks = (size - overhead) / 16;
            assert(size as int == 16 + (blocks * 16) + 32);
        }
        if valid_ciphertext_size(size as int) {
            let blocks = choose|blocks: int|
                blocks >= 1 && size as int == 16 + #[trigger] (blocks * 16) + 32;
            assert(size - overhead == blocks * 16);
            assert((blocks * 16) % 16 == 0);
        }
    }
    valid
}

/// How an attachment's ciphertext is to be read from its stream.
#[derive(Clone, Copy, Debug, PartialEq, Eq)]
pub struct CiphertextReadPlan {
    /// The number of bytes to reserve beforehand.
    pub initial_capacity: usize,
    /// The number of bytes after which reading stops, if it is bounded.
    pub read_limit: Option<u64>,
}

/// The bytes that a reader takes from a stream when it stops after `read_limit` bytes.
pub open spec fn bytes_read(stream: Seq<u8>, read_limit: Option<u64>) -> Seq<u8> {
    match read_limit {
        Some(limit) if limit < stream.len() => stream.take(limit as int),
        _ => stream,
    }
}

/// Plans the reading of a ciphertext that is rejected beyond `max_ciphertext_size` bytes.
///
/// One byte more than the maximum is read, so that an excess shows, and nothing after that.
pub fn plan_attachment_read(
    initial_capacity: usize,
    max_ciphertext_size: Option<usize>,
) -> (plan: CiphertextReadPlan)
    ensures
        match max_ciphertext_size {
            Some(max) => {
                &&& plan.initial_capacity == if initial_capacity < max {
                    initial_capacity
                } else {
                    max
                }
                &&& plan.read_limit == Some(
                    if max == u64::MAX {
                        u64::MAX
                    } else {
                        (max + 1) as u64
                    },
                )
            },
            None => {
                &&& plan.initial_capacity == initial_capacity
                &&& plan.read_limit is None
            },
        },
{
    match max_ciphertext_size {
        Some(max) => CiphertextReadPlan {
            initial_capacity: if initial_capacity < max {
                initial_capacity
            } else {
                max
            },
            read_limit: Some((max as u64).saturating_add(1)),
        },
        None => CiphertextReadPlan { initial_capacity, read_limit: None },
    }
}

/// Accepts the bytes that were read from an attachment's stream unless they exceed the maximum.
pub fn accept_attachment_ciphertext(
    ciphertext: Vec<u8>,
    max_ciphertext_size: Option<usize>,
) -> (accepted: Option<Vec<u8>>)
    ensures
        accepted == if (max_ciphertext_size matches Some(max) && ciphertext@.len() > max) {
            None
        } else {
            Some(ciphertext)
        },
{
    if let Some(max) = max_ciphertext_size {
        if ciphertext.len() > max {
            return None;
        }
    }
    Some(ciphertext)
}

/// What a message says of an attachment.
#[derive(Clone, Debug)]
pub struct AttachmentPointer {
    /// The SHA-256 digest of the ciphertext.
    pub digest: Option<Vec<u8>>,
    /// The length of the plaintext before padding.
    pub size: Option<u32>,
    /// The decryption and authentication keys.
    pub key: Option<Vec<u8>>,
}

impl AttachmentPointer {
    /// The key bytes, which are none when the pointer has no key.
    pub open spec fn key_bytes(self) -> Seq<u8> {
        match self.key {
            Some(key) => key@,
            None => Seq::empty(),
        }
    }
}

/// The SHA-256 digest of a byte string.
pub uninterp spec fn sha256(data: Seq<u8>) -> Seq<u8>;

/// Calls `Digest::digest` of `sha2::Sha256`: the digest is a function of the data alone and has
/// 32 bytes.
#[verifier::external_body]
fn sha256_digest(data: &Vec<u8>) -> (digest: Vec<u8>)
    ensures
        digest@ == sha256(data@),
        digest@.len() == 32,
{
    <sha2::Sha256 as sha2::Digest>::digest(data).to_vec()
}

/// An attachment whose ciphertext is to be downloaded.
#[derive(Clone, Debug)]
pub struct AttachmentDownload {
    pub expected_digest: Vec<u8>,
    pub plaintext_len: Option<usize>,
    pub key: Vec<u8>,
    pub max_size: Option<usize>,
}

/// A ciphertext that passed every check and is to be decrypted.
#[derive(Clone, Debug)]
pub struct AttachmentDecryption {
    pub ciphertext: Vec<u8>,
    pub key: Vec<u8>,
    /// Whether decryption is offloaded to another thread.
    pub in_thread: bool,
    pub plaintext_len: Option<usize>,
    pub max_size: Option<usize>,
}

impl AttachmentDownload {
    /// The error that a ciphertext with the given digest is refused with, if it is.
    pub open spec fn refusal(self, ciphertext: Seq<u8>, digest: Seq<u8>) -> Option<Error> {
        if self.max_size matches Some(max) && ciphertext.len() > ciphertext_size_bound(max as int) {
            Some(Error::AttachmentSizeLimitExceeded { max_size: self.max_size->0 })
        } else if digest != self.expected_digest@ {
            Some(Error::UnexpectedAttachmentChecksum)
        } else if !valid_ciphertext_size(ciphertext.len() as int) {
            Some(Error::InvalidAttachmentCiphertext)
        } else if self.key@.len() != 64 {
            Some(Error::InvalidKeyLength)
        } else {
            None
        }
    }

    /// The decryption of a ciphertext that is not refused.
    pub open spec fn leads_to(self, ciphertext: Seq<u8>, next: AttachmentDecryption) -> bool {
        &&& next.ciphertext@ == ciphertext
        &&& next.key@ == self.key@
        &&& next.in_thread == (ciphertext.len() > 102400)
        &&& next.plaintext_len == self.plaintext_len
        &&& next.max_size == self.max_size
    }

    /// Begins the download of an attachment whose plaintext may have at most `max_size` bytes.
    ///
    /// A pointer without a digest is refused, and so is one that announces too large a plaintext.
    pub fn start(pointer: &AttachmentPointer, max_size: Option<usize>) -> (download: Result<
        AttachmentDownload,
        Error,
    >)
        ensures
            is_download_of(download, *pointer, max_size),
    {
        let expected_digest = match &pointer.digest {
            Some(digest) => copy_bytes(digest),
            None => {
                return Err(Error::UnexpectedAttachmentChecksum);
            },
        };
        let plaintext_len: Option<usize> = match pointer.size {
            Some(size) => Some(size as usize),
            None => None,
        };
        if let Some(max) = max_size {
            if let Some(len) = plaintext_len {
                if len > max {
                    return Err(Error::AttachmentSizeLimitExceeded { max_size: max });
                }
            }
        }
        let key = match &pointer.key {
            Some(key) => copy_bytes(key),
            None => Vec::new(),
        };
        Ok(AttachmentDownload { expected_digest, plaintext_len, key, max_size })
    }

    /// The largest ciphertext that is accepted, if there is a limit.
    pub fn ciphertext_limit(&self) -> (limit: Option<usize>)
        ensures
            limit == match self.max_size {
                Some(max) => Some(ciphertext_size_bound(max as int) as usize),
                None => None,
            },
    {
        match self.max_size {
            Some(max) => Some(attachment_ciphertext_size_limit(max)),
            None => None,
        }
    }

    /// How the ciphertext is to be read.
    pub fn read_plan(&self) -> (plan: CiphertextReadPlan)
        ensures
            match self.max_size {
                Some(max) => {
                    let limit = ciphertext_size_bound(max as int);
                    &&& plan.initial_capacity == if self.expected_len() < limit {
                        self.expected_len()
                    } else {
                        limit
                    }
                    &&& plan.read_limit == Some(
                        if limit == u64::MAX {
                            u64::MAX
                        } else {
                            (limit + 1) as u64
                        },
                    )
                },
                None => plan.initial_capacity == self.expected_len() && plan.read_limit is None,
            },
    {
        plan_attachment_read(
            match self.plaintext_len {
                Some(len) => len,
                None => 0,
            },
            self.ciphertext_limit(),
        )
    }

    /// The plaintext length that was announced, or zero.
    pub open spec fn expected_len(self) -> int {
        match self.plaintext_len {
            Some(len) => len as int,
            None => 0,
        }
    }

    /// Checks a downloaded ciphertext whose digest is `digest`.
    pub fn check_ciphertext(self, ciphertext: Vec<u8>, digest: &Vec<u8>) -> (checked: Result<
        AttachmentDecryption,
        Error,
    >)
        ensures
            match checked {
                Ok(next) => {
                    &&& self.refusal(ciphertext@, digest@) is None
                    &&& self.leads_to(ciphertext@, next)
                },
                Err(error) => self.refusal(ciphertext@, digest@) == Some(error),
            },
    {
        let limit = self.ciphertext_limit();
        let ciphertext = match accept_attachment_ciphertext(ciphertext, limit) {
            Some(ciphertext) => ciphertext,
            None => {
                return Err(
                    Error::AttachmentSizeLimitExceeded {
                        max_size: match self.max_size {
                            Some(max) => max,
                            None => 0,
                        },
                    },
                );
            },
        };
        if !same_bytes(digest, &self.expected_digest) {
            return Err(Error::UnexpectedAttachmentChecksum);
        }
        if !is_valid_attachment_ciphertext_size(ciphertext.len()) {
            return Err(Error::InvalidAttachmentCiphertext);
        }
        if self.key.len() != 64 {
            return Err(Error::InvalidKeyLength);
        }
        let in_thread = ciphertext.len() > DECRYPT_IN_THREAD_THRESHOLD;
        Ok(
            AttachmentDecryption {
                ciphertext,
                key: self.key,
                in_thread,
                plaintext_len: self.plaintext_len,
                max_size: self.max_size,
            },
        )
    }

    /// Checks a downloaded ciphertext against the announced digest, the size limit, the framing
    /// of ciphertexts and the length of keys.
    pub fn ciphertext_received(self, ciphertext: Vec<u8>) -> (checked: Result<
        AttachmentDecryption,
        Error,
    >)
        ensures
            match checked {
                Ok(next) => {
                    &&& self.refusal(ciphertext@, sha256(ciphertext@)) is None
                    &&& self.leads_to(ciphertext@, next)
                },
                Err(error) => self.refusal(ciphertext@, sha256(ciphertext@)) == Some(error),
            },
    {
        let digest = sha256_digest(&ciphertext);
        self.check_ciphertext(ciphertext, &digest)
    }
}

/// What is left of a decrypted attachment when its padding is removed.
pub open spec fn unpadded(plaintext: Seq<u8>, plaintext_len: Option<usize>) -> Seq<u8> {
    match plaintext_len {
        Some(len) if len < plaintext.len() => plaintext.take(len as int),
        _ => plaintext,
    }
}

/// Removes the padding of a decrypted attachment and applies the size limit to what remains.
pub fn finish_attachment(
    plaintext: Vec<u8>,
    plaintext_len: Option<usize>,
    max_size: Option<usize>,
) -> (finished: Result<Vec<u8>, Error>)
    ensures
        match finished {
            Ok(attachment) => {
                &&& attachment@ == unpadded(plaintext@, plaintext_len)
                &&& max_size matches Some(max) ==> attachment@.len() <= max
            },
            Err(error) => {
                &&& max_size is Some
                &&& unpadded(plaintext@, plaintext_len).len() > max_size->0
                &&& error == (Error::AttachmentSizeLimitExceeded { max_size: max_size->0 })
            },
        },
{
    let mut attachment = plaintext;
    if let Some(len) = plaintext_len {
        if len < attachment.len() {
            attachment.truncate(len);
        }
    }
    if let Some(max) = max_size {
        if attachment.len() > max {
            return Err(Error::AttachmentSizeLimitExceeded { max_size: max });
        }
    }
    Ok(attachment)
}

/// Whether the download of an attachment is what a pointer and a size limit call for, or the error
/// with which it is refused.
pub open spec fn is_download_of(
    download: Result<AttachmentDownload, Error>,
    pointer: AttachmentPointer,
    max_size: Option<usize>,
) -> bool {
    let too_large = max_size is Some && pointer.size is Some && pointer.size->0 > max_size->0;
    match download {
        Ok(d) => {
            &&& pointer.digest is Some
            &&& !too_large
            &&& d.expected_digest@ == pointer.digest->0@
            &&& d.plaintext_len == match pointer.size {
                Some(size) => Some(size as usize),
                None => None,
            }
            &&& d.key@ == pointer.key_bytes()
            &&& d.max_size == max_size
        },
        Err(Error::UnexpectedAttachmentChecksum) => pointer.digest is None,
        Err(Error::AttachmentSizeLimitExceeded { max_size: reported }) => {
            &&& pointer.digest is Some
            &&& too_large
            &&& reported == max_size->0
        },
        Err(_) => false,
    }
}

impl<S> Manager<S, Registered> {
    /// Downloads and decrypts a single attachment.
    pub fn get_attachment(&self, pointer: &AttachmentPointer) -> (download: Result<
        AttachmentDownload,
        Error,
    >)
        ensures
            is_download_of(download, *pointer, None),
    {
        AttachmentDownload::start(pointer, None)
    }

    /// Downloads and decrypts a single attachment, rejecting it when its plaintext exceeds
    /// `max_size`.
    ///
    /// The download itself is bounded to cover Signal's privacy padding and attachment encryption
    /// overhead. The encrypted stream is stopped as soon as it exceeds that bound.
    pub fn get_attachment_with_size_limit(&self, pointer: &AttachmentPointer, max_size: usize) -> (
    download: Result<AttachmentDownload, Error>)
        ensures
            is_download_of(download, *pointer, Some(max_size)),
    {
        AttachmentDownload::start(pointer, Some(max_size))
    }
}

/// Whether `exponent` is the least one for which `1.05` to its power is at least `size`.
pub open spec fn is_privacy_bucket(size: int, exponent: nat) -> bool {
    &&& pow(21, exponent) >= size * pow(20, exponent)
    &&& forall|smaller: nat|
        smaller < exponent ==> #[trigger] pow(21, smaller) < size * pow(20, smaller)
}

/// The size of a privacy bucket: `1.05` to the power of its exponent, rounded down.
pub open spec fn privacy_bucket_size(exponent: nat) -> int {
    pow(21, exponent) / pow(20, exponent)
}

/// Adding a twentieth, rounded up, is an upper bound for the privacy bucket of a plaintext.
pub proof fn law_padding_bound_covers_privacy_bucket(size: int, exponent: nat)
    requires
        size >= 0,
        is_privacy_bucket(size, exponent),
    ensures
        privacy_bucket_size(exponent) <= size + ceil_div(size, 20) || privacy_bucket_size(exponent)
            <= 1,
{
    if exponent == 0 {
        reveal(pow);
        assert(pow(21, 0) == 1);
        assert(pow(20, 0) == 1);
    } else {
        let less = (exponent - 1) as nat;
        let above = pow(21, less);
        let below = pow(20, less);
        assert(pow(21, less) < size * pow(20, less));
        reveal(pow);
        assert(pow(21, exponent) == 21 * above);
        assert(pow(20, exponent) == 20 * below);
        lemma_pow_positive(20, less);
        assert(privacy_bucket_size(exponent) == (21 * above) / (20 * below));
        assert(21 * above <= (21 * size) * below) by (nonlinear_arith)
            requires
                above < size * below,
        ;
        lemma_div_is_ordered(21 * above, (21 * size) * below, 20 * below);
        assert(((21 * size) * below) / (20 * below) == (21 * size) / 20) by {
            lemma_mul_is_commutative(21 * size, below);
            lemma_mul_is_commutative(20, below);
            lemma_div_multiples_vanish_quotient(below, 21 * size, 20);
        }
        assert((21 * size) / 20 <= size + ceil_div(size, 20));
    }
}

/// The limit for a plaintext size admits every ciphertext of plaintexts of at most that size,
/// privacy padding included.
pub proof fn law_limit_admits_every_padded_ciphertext(size: int, max_size: usize, exponent: nat)
    requires
        0 <= size <= max_size,
        is_privacy_bucket(size, exponent),
    ensures
        ({
            let bucket = privacy_bucket_size(exponent);
            let padded = if bucket < 541 {
                541
            } else {
                bucket
            };
            ciphertext_size(padded) <= usize::MAX ==> ciphertext_size(padded)
                <= ciphertext_size_bound(max_size as int)
        }),
{
    law_padding_bound_covers_privacy_bucket(size, exponent);
}

/// The limit never shrinks when larger plaintexts are accepted.
pub proof fn law_limit_is_monotonic(smaller: usize, larger: usize)
    requires
        smaller <= larger,
    ensures
        ciphertext_size_bound(smaller as int) <= ciphertext_size_bound(larger as int),
{
}

/// A limit that `usize` can hold is itself the length of a ciphertext that can be decrypted.
pub proof fn law_limit_is_a_valid_ciphertext_size(max_size: usize)
    requires
        ciphertext_size(padded_size_bound(max_size as int)) <= usize::MAX,
    ensures
        valid_ciphertext_size(ciphertext_size_bound(max_size as int)),
{
    let blocks = padded_size_bound(max_size as int) / 16 + 1;
    assert(ciphertext_size_bound(max_size as int) == 16 + (blocks * 16) + 32);
}

/// A bounded read sees the whole stream exactly when the stream is within the bound, and it stops
/// after the first byte in excess.
pub proof fn law_bounded_read_is_exact(stream: Seq<u8>, max: usize, plan: CiphertextReadPlan)
    requires
        stream.len() <= usize::MAX,
        plan.read_limit == Some(
            if max == u64::MAX {
                u64::MAX
            } else {
                (max + 1) as u64
            },
        ),
    ensures
        stream.len() <= max ==> bytes_read(stream, plan.read_limit) == stream,
        stream.len() > max ==> bytes_read(stream, plan.read_limit).len() == max + 1,
        bytes_read(stream, plan.read_limit).len() <= max <==> stream.len() <= max,
{
}

/// The limit for plaintexts of at most some size is what their encryption comes to: with a twentieth
/// added, rounded up, but at least the smallest padded size, then in whole blocks of which at least
/// one byte is padding, and with the vector and the code around it.
pub proof fn law_limit_is_the_largest_ciphertext(max_size: usize, limit: usize)
    requires
        call_ensures(attachment_ciphertext_size_limit, (max_size,), limit),
    ensures
        ({
            let added = max_size + (max_size + 19) / 20;
            let padded = if added > 541 {
                added
            } else {
                541
            };
            let blocks = padded / 16 + 1;
            &&& 16 * (blocks - 1) <= padded < 16 * blocks
            &&& 16 + 16 * blocks + 32 <= usize::MAX ==> limit == 16 + 16 * blocks + 32
            &&& 16 + 16 * blocks + 32 > usize::MAX ==> limit == usize::MAX
        }),
        limit > max_size || limit == usize::MAX,
{
}

/// A ciphertext can be decrypted exactly if it is at least one block beside the vector and the code,
/// and nothing but whole blocks.
pub proof fn law_ciphertexts_are_whole_blocks(size: usize, valid: bool)
    requires
        call_ensures(is_valid_attachment_ciphertext_size, (size,), valid),
    ensures
        valid <==> size >= 64 && (size - 48) % 16 == 0,
{
    if size >= 64 && (size - 48) % 16 == 0 {
        let blocks = (size - 48) / 16;
        assert(size as int == 16 + (blocks * 16) + 32);
    }
}

/// A download is that of the announced attachment: the digest, the length and the key are those of the
/// pointer, and the limit is the given one. It is refused exactly without a digest, or if the announced
/// length is over the limit.
pub proof fn law_download_is_that_of_the_pointer<S>(
    manager: &Manager<S, Registered>,
    pointer: &AttachmentPointer,
    max_size: usize,
    unlimited: Result<AttachmentDownload, Error>,
    limited: Result<AttachmentDownload, Error>,
)
    requires
        call_ensures(Manager::<S, Registered>::get_attachment, (manager, pointer), unlimited),
        call_ensures(
            Manager::<S, Registered>::get_attachment_with_size_limit,
            (manager, pointer, max_size),
            limited,
        ),
    ensures
        unlimited is Ok <==> pointer.digest is Some,
        limited is Ok <==> pointer.digest is Some && (pointer.size matches Some(size) ==> size
            <= max_size),
        pointer.digest is None ==> (unlimited matches Err(Error::UnexpectedAttachmentChecksum)) && (
        limited matches Err(Error::UnexpectedAttachmentChecksum)),
        pointer.digest is Some && limited is Err ==> (
        limited matches Err(Error::AttachmentSizeLimitExceeded { max_size: told }) && told
            == max_size),
        unlimited matches Ok(download) ==> download.max_size is None && download.expected_digest@
            == pointer.digest->0@,
        limited matches Ok(download) ==> {
            &&& download.max_size == Some(max_size)
            &&& download.expected_digest@ == pointer.digest->0@
            &&& match (pointer.size, download.plaintext_len) {
                (Some(size), Some(length)) => length == size,
                (None, None) => true,
                _ => false,
            }
            &&& match pointer.key {
                Some(key) => download.key@ == key@,
                None => download.key@.len() == 0,
            }
            &&& unlimited->Ok_0.plaintext_len == download.plaintext_len
            &&& unlimited->Ok_0.key@ == download.key@
        },
{
}

/// A ciphertext is decrypted, as it came and with the key of the download, exactly if it is within the
/// limit, has the expected digest and a length that encryption can produce, and the key is whole.
pub proof fn law_only_the_expected_ciphertext_is_decrypted(
    download: AttachmentDownload,
    ciphertext: Vec<u8>,
    digest: &Vec<u8>,
    limit: Option<usize>,
    valid: bool,
    checked: Result<AttachmentDecryption, Error>,
    received: Result<AttachmentDecryption, Error>,
)
    requires
        call_ensures(AttachmentDownload::ciphertext_limit, (&download,), limit),
        ciphertext@.len() <= usize::MAX,
        call_ensures(
            is_valid_attachment_ciphertext_size,
            (ciphertext@.len() as usize,),
            valid,
        ),
        call_ensures(
            AttachmentDownload::check_ciphertext,
            (download, ciphertext, digest),
            checked,
        ),
        call_ensures(AttachmentDownload::ciphertext_received, (download, ciphertext), received),
    ensures
        limit is Some <==> download.max_size is Some,
        ({
            let too_large = limit matches Some(most) && ciphertext@.len() > most;
            let refused = |other: Seq<u8>|
                too_large || other != download.expected_digest@ || !valid || download.key@.len()
                    != 64;
            &&& checked is Err <==> refused(digest@)
            &&& received is Err <==> refused(sha256(ciphertext@))
            &&& checked is Err ==> match checked->Err_0 {
                Error::AttachmentSizeLimitExceeded { max_size } => too_large && download.max_size
                    == Some(max_size),
                Error::UnexpectedAttachmentChecksum => !too_large && digest@
                    != download.expected_digest@,
                Error::InvalidAttachmentCiphertext => !too_large && digest@
                    == download.expected_digest@ && !valid,
                Error::InvalidKeyLength => !too_large && digest@ == download.expected_digest@
                    && valid,
                _ => false,
            }
            &&& checked matches Ok(next) ==> {
                &&& next.ciphertext@ == ciphertext@
                &&& next.key@ == download.key@
                &&& next.in_thread <==> ciphertext@.len() > 102400
                &&& next.plaintext_len == download.plaintext_len
                &&& next.max_size == download.max_size
            }
            &&& received matches Ok(next) ==> {
                &&& next.ciphertext@ == ciphertext@
                &&& next.key@ == download.key@
                &&& next.in_thread <==> ciphertext@.len() > 102400
                &&& next.plaintext_len == download.plaintext_len
                &&& next.max_size == download.max_size
            }
        }),
{
}

/// What is read of a stream is enough to see an excess, and no more than one byte over the limit. The
/// announced length is reserved beforehand, up to the limit.
pub proof fn law_reading_stops_after_an_excess(
    download: AttachmentDownload,
    limit: Option<usize>,
    plan: CiphertextReadPlan,
)
    requires
        call_ensures(AttachmentDownload::ciphertext_limit, (&download,), limit),
        call_ensures(AttachmentDownload::read_plan, (&download,), plan),
    ensures
        match limit {
            Some(most) => {
                &&& most < u64::MAX ==> (plan.read_limit matches Some(bytes) && bytes == most + 1)
                &&& most == u64::MAX ==> plan.read_limit == Some(u64::MAX)
                &&& plan.initial_capacity <= most
            },
            None => plan.read_limit is None,
        },
        plan.initial_capacity <= match download.plaintext_len {
            Some(length) => length,
            None => 0,
        },
        plan.initial_capacity < match download.plaintext_len {
            Some(length) => length,
            None => 0,
        } ==> limit == Some(plan.initial_capacity),
{
}

/// The attachment is the start of the plaintext, as long as it was announced, or all of it if it is
/// shorter or no length was announced. It is refused exactly if that is over the limit.
pub proof fn law_attachment_is_the_announced_start(
    plaintext: Vec<u8>,
    plaintext_len: Option<usize>,
    max_size: Option<usize>,
    finished: Result<Vec<u8>, Error>,
)
    requires
        call_ensures(finish_attachment, (plaintext, plaintext_len, max_size), finished),
    ensures
        ({
            let length = match plaintext_len {
                Some(announced) => if announced < plaintext@.len() {
                    announced as int
                } else {
                    plaintext@.len() as int
                },
                None => plaintext@.len() as int,
            };
            &&& finished is Err <==> (max_size matches Some(most) && length > most)
            &&& finished matches Err(error) ==> (error matches Error::AttachmentSizeLimitExceeded {
                max_size: told,
            } && max_size == Some(told))
            &&& finished matches Ok(attachment) ==> {
                &&& attachment@.len() == length
                &&& forall|i: int|
                    0 <= i < length ==> #[trigger] attachment@[i] == plaintext@[i]
            }
        }),
{
}

} // verus!
