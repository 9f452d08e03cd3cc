//! What the store of payments decides for itself: the names of its
//! streams, its keys, and the store that stands in for a database where
//! none is at hand.

use vstd::prelude::*;
use crate::currency::Currency;
use crate::enums::{AttemptStatus, IntentStatus};
use crate::text::join3;

verus! {

/// Why the store could not do what it was asked.
#[derive(Clone, Copy, Debug, PartialEq, Eq)]
pub enum StorageError {
    /// The stand-in store does not provide for the request.
    MockDbError,
    /// Nothing is on record under the key.
    ValueNotFound(&'static str),
    /// The entry could not be handed to the stream.
    KVError,
}

/// Why the store could not reach its cache.
#[derive(Clone, Copy, Debug, PartialEq, Eq, Hash, Structural)]
pub enum RedisError {
    RedisConnectionError,
    SubscribeError,
    OnMessageError,
}

/// Why a key could not be made.
#[derive(Clone, Copy, Debug, PartialEq, Eq, Hash, Structural)]
pub enum CryptoError {
    EncodingFailed,
}

/// How the entries that wait to be written to the database are spread
/// over streams.
#[derive(Clone, Debug, PartialEq, Eq)]
pub struct StoreConfig {
    pub drainer_stream_name: String,
    pub drainer_num_partitions: u8,
}

/// What the store knows without asking its database or its cache.
#[derive(Clone, Debug, PartialEq, Eq)]
pub struct Store {
    pub config: StoreConfig,
    pub master_key: Vec<u8>,
    /// Whether the cache answers.
    pub is_redis_available: bool,
}

/// The name of the stream of a shard: the key of the shard in braces, an
/// underscore, and the name that all streams share.
pub open spec fn spec_drainer_stream_name(shard_key: Seq<char>, stream_name: Seq<char>) -> Seq<
    char,
> {
    "{"@ + shard_key + "}_"@ + stream_name
}

impl Store {
    /// Tells the name of the stream of a shard.
    pub fn get_drainer_stream_name(&self, shard_key: &str) -> (res: String)
        ensures
            res@ == spec_drainer_stream_name(shard_key@, self.config.drainer_stream_name@),
    {
        let mut name = join3("{", shard_key, "}_");
        name.append(self.config.drainer_stream_name.as_str());
        name
    }

    /// Tells whether the cache can be used: it can where it answers, and
    /// the connection counts as lost where it does not.
    pub fn redis_conn(&self) -> (res: Result<(), RedisError>)
        ensures
            res == (if self.is_redis_available {
                Ok::<(), RedisError>(())
            } else {
                Err::<(), RedisError>(RedisError::RedisConnectionError)
            }),
    {
        if self.is_redis_available {
            Ok(())
        } else {
            Err(RedisError::RedisConnectionError)
        }
    }
}

/// The number that a hexadecimal digit stands for, in either case.
pub open spec fn spec_hex_value(c: u8) -> Option<int> {
    if 0x30 <= c <= 0x39 {
        Some(c - 0x30)
    } else if 0x41 <= c <= 0x46 {
        Some(c - 0x41 + 10)
    } else if 0x61 <= c <= 0x66 {
        Some(c - 0x61 + 10)
    } else {
        None
    }
}

/// Whether a text writes bytes out in hexadecimal: two digits for each
/// byte, and nothing else.
pub open spec fn spec_is_hex(data: Seq<u8>) -> bool {
    &&& data.len() % 2 == 0
    &&& forall|i: int| 0 <= i < data.len() ==> (#[trigger] spec_hex_value(data[i])) is Some
}

/// The bytes that a text in hexadecimal writes out, the high digit of
/// each byte first.
pub open spec fn spec_hex_decoded(data: Seq<u8>) -> Seq<u8> {
    Seq::new(
        data.len() / 2,
        |i: int|
            (16 * spec_hex_value(data[2 * i]).unwrap_or(0) + spec_hex_value(
                data[2 * i + 1],
            ).unwrap_or(0)) as u8,
    )
}

/// Calls `hex::decode`. A text of an even number of hexadecimal digits,
/// in either case, is read two digits to the byte, the high digit first;
/// any other text is rejected.
#[verifier::external_body]
fn hex_decode(data: &Vec<u8>) -> (res: Option<Vec<u8>>)
    ensures
        match res {
            Some(bytes) => spec_is_hex(data@) && bytes@ == spec_hex_decoded(data@),
            None => !spec_is_hex(data@),
        },
{
    match hex::decode(data) {
        Ok(bytes) => Some(bytes),
        Err(_) => None,
    }
}

/// Reads the master key of the store from its text in hexadecimal.
pub fn master_key_from_hex(data: &Vec<u8>) -> (res: Option<Vec<u8>>)
    ensures
        match res {
            Some(key) => spec_is_hex(data@) && key@ == spec_hex_decoded(data@),
            None => !spec_is_hex(data@),
        },
{
    hex_decode(data)
}

/// Calls `ring::rand::SystemRandom::new` and `SecureRandom::fill` on 32
/// bytes. Nothing is promised of the bytes: they are drawn at random, and
/// the draw can fail.
#[verifier::external_body]
fn random_key_bytes() -> (res: Option<[u8; 32]>) {
    let rng = ring::rand::SystemRandom::new();
    let mut key = [0_u8; 32];
    match ring::rand::SecureRandom::fill(&rng, &mut key) {
        Ok(()) => Some(key),
        Err(_) => None,
    }
}

/// The key that a draw of random bytes comes to. A draw that failed is a
/// key that could not be made.
pub fn key_from_random(drawn: Option<[u8; 32]>) -> (res: Result<[u8; 32], CryptoError>)
    ensures
        res == (match drawn {
            Some(key) => Ok::<[u8; 32], CryptoError>(key),
            None => Err::<[u8; 32], CryptoError>(CryptoError::EncodingFailed),
        }),
{
    match drawn {
        Some(key) => Ok(key),
        None => Err(CryptoError::EncodingFailed),
    }
}

/// Makes a key for AES-256 of random bytes.
pub fn generate_aes256_key() -> (res: Result<[u8; 32], CryptoError>)
    ensures
        res matches Err(e) ==> e == CryptoError::EncodingFailed,
{
    key_from_random(random_key_bytes())
}

/// An attempt at a payment, as the stand-in store holds it.
#[derive(Clone, Debug, PartialEq, Eq)]
pub struct PaymentAttempt {
    pub attempt_id: String,
    pub payment_id: String,
    pub merchant_id: String,
    pub status: AttemptStatus,
    pub amount: i64,
}

/// The attempt that a payment is at: the attempt itself, or the id under
/// which it is on record.
#[derive(Clone, Debug, PartialEq, Eq)]
pub enum RemoteStorageObject {
    ForeignID(String),
    Object(PaymentAttempt),
}

/// A payment, as the stand-in store holds it.
#[derive(Clone, Debug, PartialEq, Eq)]
pub struct PaymentIntent {
    pub id: i32,
    pub payment_id: String,
    pub merchant_id: String,
    pub status: IntentStatus,
    pub amount: i64,
    pub currency: Option<Currency>,
    pub amount_captured: Option<i64>,
    pub customer_id: Option<String>,
    pub description: Option<String>,
    pub return_url: Option<String>,
    /// Seconds since the epoch.
    pub created_at: i64,
    /// Seconds since the epoch.
    pub modified_at: i64,
    pub active_attempt: RemoteStorageObject,
    pub attempt_count: i16,
    pub updated_by: String,
}

/// A payment that is to be put on record.
#[derive(Clone, Debug, PartialEq, Eq)]
pub struct PaymentIntentNew {
    pub payment_id: String,
    pub merchant_id: String,
    pub status: IntentStatus,
    pub amount: i64,
    pub currency: Option<Currency>,
    pub amount_captured: Option<i64>,
    pub customer_id: Option<String>,
    pub description: Option<String>,
    pub return_url: Option<String>,
    pub created_at: Option<i64>,
    pub modified_at: Option<i64>,
    pub active_attempt: RemoteStorageObject,
    pub attempt_count: i16,
}

impl PaymentAttempt {
    /// A copy of the attempt.
    pub fn duplicate(&self) -> (res: Self)
        ensures
            res == *self,
    {
        PaymentAttempt {
            attempt_id: self.attempt_id.clone(),
            payment_id: self.payment_id.clone(),
            merchant_id: self.merchant_id.clone(),
            status: self.status,
            amount: self.amount,
        }
    }
}

impl PaymentIntent {
    /// A copy of the payment.
    pub fn duplicate(&self) -> (res: Self)
        ensures
            res == *self,
    {
        PaymentIntent {
            id: self.id,
            payment_id: self.payment_id.clone(),
            merchant_id: self.merchant_id.clone(),
            status: self.status,
            amount: self.amount,
            currency: self.currency,
            amount_captured: self.amount_captured,
            customer_id: self.customer_id.clone(),
            description: self.description.clone(),
            return_url: self.return_url.clone(),
            created_at: self.created_at,
            modified_at: self.modified_at,
            active_attempt: match &self.active_attempt {
                RemoteStorageObject::ForeignID(id) => RemoteStorageObject::ForeignID(id.clone()),
                RemoteStorageObject::Object(attempt) => RemoteStorageObject::Object(
                    attempt.duplicate(),
                ),
            },
            attempt_count: self.attempt_count,
            updated_by: self.updated_by.clone(),
        }
    }
}

/// The store that stands in for a database where none is at hand: what
/// is put on record is kept in memory, in the order in which it came.
#[derive(Clone, Debug, PartialEq, Eq)]
pub struct MockDb {
    pub payment_attempts: Vec<PaymentAttempt>,
    pub payment_intents: Vec<PaymentIntent>,
}

/// The payment that is put on record for a new payment at a given time
/// under a given number. A payment that does not say when it was made or
/// changed was made or changed now.
pub open spec fn spec_new_intent(
    new: PaymentIntentNew,
    id: i32,
    updated_by: String,
    now: i64,
) -> PaymentIntent {
    PaymentIntent {
        id,
        payment_id: new.payment_id,
        merchant_id: new.merchant_id,
        status: new.status,
        amount: new.amount,
        currency: new.currency,
        amount_captured: new.amount_captured,
        customer_id: new.customer_id,
        description: new.description,
        return_url: new.return_url,
        created_at: match new.created_at {
            Some(at) => at,
            None => now,
        },
        modified_at: match new.modified_at {
            Some(at) => at,
            None => now,
        },
        active_attempt: new.active_attempt,
        attempt_count: new.attempt_count,
        updated_by,
    }
}

/// Whether a payment is the payment of a merchant under an id.
pub open spec fn spec_is_intent_of(
    intent: PaymentIntent,
    payment_id: Seq<char>,
    merchant_id: Seq<char>,
) -> bool {
    intent.payment_id@ == payment_id && intent.merchant_id@ == merchant_id
}

/// Whether an attempt is the attempt of a merchant under an id.
pub open spec fn spec_is_attempt_of(
    attempt: PaymentAttempt,
    attempt_id: Seq<char>,
    merchant_id: Seq<char>,
) -> bool {
    attempt.attempt_id@ == attempt_id && attempt.merchant_id@ == merchant_id
}

impl MockDb {
    /// Whether every payment is on record under its place in the store.
    pub open spec fn wf(self) -> bool {
        &&& self.payment_intents@.len() <= i32::MAX
        &&& forall|i: int|
            0 <= i < self.payment_intents@.len() ==> (#[trigger] self.payment_intents@[i]).id == i
    }

    /// A store with nothing on record.
    pub fn new() -> (res: Self)
        ensures
            res.wf(),
            res.payment_intents@.len() == 0,
            res.payment_attempts@.len() == 0,
    {
        MockDb { payment_attempts: Vec::new(), payment_intents: Vec::new() }
    }

    /// Puts a payment on record, at the time `now`, under the next free
    /// number. A store that has run out of numbers takes no more
    /// payments.
    pub fn insert_payment_intent(
        &mut self,
        new: PaymentIntentNew,
        updated_by: String,
        now: i64,
    ) -> (res: Result<PaymentIntent, StorageError>)
        requires
            old(self).wf(),
        ensures
            final(self).wf(),
            final(self).payment_attempts == old(self).payment_attempts,
            match res {
                Ok(intent) => {
                    &&& old(self).payment_intents@.len() < i32::MAX
                    &&& intent == spec_new_intent(
                        new,
                        old(self).payment_intents@.len() as i32,
                        updated_by,
                        now,
                    )
                    &&& final(self).payment_intents@ == old(self).payment_intents@.push(intent)
                },
                Err(e) => {
                    &&& old(self).payment_intents@.len() >= i32::MAX
                    &&& e == StorageError::MockDbError
                    &&& *final(self) == *old(self)
                },
            },
    {
        let len = self.payment_intents.len();
        if len >= 0x7fff_ffff {
            return Err(StorageError::MockDbError);
        }
        let payment_intent = PaymentIntent {
            id: len as i32,
            payment_id: new.payment_id,
            merchant_id: new.merchant_id,
            status: new.status,
            amount: new.amount,
            currency: new.currency,
            amount_captured: new.amount_captured,
            customer_id: new.customer_id,
            description: new.description,
            return_url: new.return_url,
            created_at: match new.created_at {
                Some(at) => at,
                None => now,
            },
            modified_at: match new.modified_at {
                Some(at) => at,
                None => now,
            },
            active_attempt: new.active_attempt,
            attempt_count: new.attempt_count,
            updated_by,
        };
        let copy = payment_intent.duplicate();
        self.payment_intents.push(payment_intent);
        Ok(copy)
    }

    /// Puts the changed form of a payment on record in place of the
    /// payment. The payment has to be on record, and a change leaves its
    /// number alone.
    pub fn update_payment_intent(&mut self, this: &PaymentIntent, updated: PaymentIntent) -> (res:
        Result<PaymentIntent, StorageError>)
        requires
            old(self).wf(),
            0 <= this.id < old(self).payment_intents@.len(),
            updated.id == this.id,
        ensures
            final(self).wf(),
            final(self).payment_attempts == old(self).payment_attempts,
            res == Ok::<PaymentIntent, StorageError>(updated),
            final(self).payment_intents@ == old(self).payment_intents@.update(
                this.id as int,
                updated,
            ),
    {
        let copy = updated.duplicate();
        self.payment_intents[this.id as usize] = updated;
        Ok(copy)
    }

    /// Whether a payment of a merchant is on record under an id.
    pub open spec fn spec_has_intent(self, payment_id: Seq<char>, merchant_id: Seq<char>) -> bool {
        exists|i: int|
            0 <= i < self.payment_intents@.len() && spec_is_intent_of(
                #[trigger] self.payment_intents@[i],
                payment_id,
                merchant_id,
            )
    }

    /// Looks for the payment of a merchant under an id, and hands out the
    /// first that is on record.
    pub fn find_payment_intent_by_payment_id_merchant_id(
        &self,
        payment_id: &str,
        merchant_id: &str,
    ) -> (res: Option<PaymentIntent>)
        ensures
            match res {
                Some(intent) => exists|i: int|
                    {
                        &&& 0 <= i < self.payment_intents@.len()
                        &&& #[trigger] self.payment_intents@[i] == intent
                        &&& spec_is_intent_of(intent, payment_id@, merchant_id@)
                        &&& forall|j: int|
                            0 <= j < i ==> !spec_is_intent_of(
                                #[trigger] self.payment_intents@[j],
                                payment_id@,
                                merchant_id@,
                            )
                    },
                None => !self.spec_has_intent(payment_id@, merchant_id@),
            },
    {
        let mut i: usize = 0;
        while i < self.payment_intents.len()
            invariant
                i <= self.payment_intents@.len(),
                forall|j: int|
                    0 <= j < i ==> !spec_is_intent_of(
                        #[trigger] self.payment_intents@[j],
                        payment_id@,
                        merchant_id@,
                    ),
            decreases self.payment_intents@.len() - i,
        {
            let intent = &self.payment_intents[i];
            if crate::text::str_eq(intent.payment_id.as_str(), payment_id) && crate::text::str_eq(
                intent.merchant_id.as_str(),
                merchant_id,
            ) {
                return Some(intent.duplicate());
            }
            i += 1;
        }
        None
    }

    /// Whether an attempt of a merchant is on record under an id.
    pub open spec fn spec_has_attempt(self, attempt_id: Seq<char>, merchant_id: Seq<char>) -> bool {
        exists|i: int|
            0 <= i < self.payment_attempts@.len() && spec_is_attempt_of(
                #[trigger] self.payment_attempts@[i],
                attempt_id,
                merchant_id,
            )
    }

    /// Tells the attempt that a payment is at, and notes it in the
    /// payment. A payment that holds its attempt is left as it is. A
    /// payment that refers to its attempt gets the first attempt of its
    /// merchant that is on record under the id.
    pub fn get_active_payment_attempt(&self, payment: &mut PaymentIntent) -> (res: Result<
        PaymentAttempt,
        StorageError,
    >)
        ensures
            match old(payment).active_attempt {
                RemoteStorageObject::Object(attempt) => {
                    &&& res == Ok::<PaymentAttempt, StorageError>(attempt)
                    &&& *final(payment) == *old(payment)
                },
                RemoteStorageObject::ForeignID(id) => match res {
                    Ok(attempt) => {
                        &&& exists|i: int|
                            {
                                &&& 0 <= i < self.payment_attempts@.len()
                                &&& #[trigger] self.payment_attempts@[i] == attempt
                                &&& forall|j: int|
                                    0 <= j < i ==> !spec_is_attempt_of(
                                        #[trigger] self.payment_attempts@[j],
                                        id@,
                                        old(payment).merchant_id@,
                                    )
                            }
                        &&& spec_is_attempt_of(attempt, id@, old(payment).merchant_id@)
                        &&& *final(payment) == (PaymentIntent {
                            active_attempt: RemoteStorageObject::Object(attempt),
                            ..*old(payment)
                        })
                    },
                    Err(e) => {
                        &&& !self.spec_has_attempt(id@, old(payment).merchant_id@)
                        &&& e == StorageError::ValueNotFound("Attempt not found")
                        &&& *final(payment) == *old(payment)
                    },
                },
            },
    {
        match &payment.active_attempt {
            RemoteStorageObject::ForeignID(id) => {
                let mut i: usize = 0;
                while i < self.payment_attempts.len()
                    invariant
                        i <= self.payment_attempts@.len(),
                        payment == old(payment),
                        payment.active_attempt == RemoteStorageObject::ForeignID(*id),
                        forall|j: int|
                            0 <= j < i ==> !spec_is_attempt_of(
                                #[trigger] self.payment_attempts@[j],
                                id@,
                                payment.merchant_id@,
                            ),
                    decreases self.payment_attempts@.len() - i,
                {
                    let attempt = &self.payment_attempts[i];
                    if crate::text::str_eq(attempt.attempt_id.as_str(), id.as_str())
                        && crate::text::str_eq(
                        attempt.merchant_id.as_str(),
                        payment.merchant_id.as_str(),
                    ) {
                        let found = attempt.duplicate();
                        payment.active_attempt = RemoteStorageObject::Object(found.duplicate());
                        return Ok(found);
                    }
                    i += 1;
                }
                Err(StorageError::ValueNotFound("Attempt not found"))
            },
            RemoteStorageObject::Object(pa) => Ok(pa.duplicate()),
        }
    }
}

} // verus!
