//! The text side of the storage bridge: values are stored as raw bytes and
//! read back as text, leniently.
use vstd::prelude::*;
use vstd::string::StringSliceAdditionalSpecFns;

verus! {

/// A read from the keyspace failed.
#[derive(Clone, Copy, Debug, PartialEq, Eq)]
pub struct StoreError;

/// The text that a byte string decodes to when each invalid UTF-8 sequence is
/// replaced by U+FFFD.
pub uninterp spec fn utf8_lossy(b: Seq<u8>) -> Seq<char>;

/// Relies on `String::from_utf8_lossy`: it decodes the bytes, replacing
/// invalid sequences rather than failing; the text depends on the bytes alone,
/// and no bytes give no text.
#[verifier::external_body]
fn decode_lossy(b: &Vec<u8>) -> (r: String)
    ensures
        r@ == utf8_lossy(b@),
        b@.len() == 0 ==> r@.len() == 0,
{
    String::from_utf8_lossy(b.as_slice()).into_owned()
}

/// What `get_state` hands the plugin for a keyspace read: the stored value
/// as text when there is one, and none when the key is absent or the read
/// failed.
pub fn decode_stored(read: Result<Option<Vec<u8>>, StoreError>) -> (r: Option<String>)
    ensures
        match read {
            Ok(Some(b)) => r is Some && r->0@ == utf8_lossy(b@),
            _ => r is None,
        },
{
    match read {
        Ok(Some(b)) => Some(decode_lossy(&b)),
        _ => None,
    }
}

#[verifier::external_type_specification]
#[verifier::external_body]
pub struct ExKeyspace(fjall::Keyspace);

#[verifier::external_type_specification]
#[verifier::external_body]
pub struct ExFjallError(fjall::Error);

/// The longest key, in bytes, that the keyspace takes.
pub const MAX_KEY_BYTES: usize = 65535;

/// The longest value, in bytes, that the keyspace takes.
pub const MAX_VALUE_BYTES: u64 = 4294967295;

/// Whether the keyspace takes `key`: it is not empty and its UTF-8 encoding
/// fits in 16 bits of length.
pub open spec fn is_storable_key(key: &str) -> bool {
    0 < key.spec_bytes().len() <= MAX_KEY_BYTES
}

/// Whether the keyspace takes `value`: its UTF-8 encoding fits in 32 bits of
/// length.
pub open spec fn is_storable_value(value: &str) -> bool {
    value.spec_bytes().len() <= MAX_VALUE_BYTES
}

/// Relies on `fjall::Keyspace::get`: reads the value stored under a key, as
/// bytes. What it returns depends on what was written to the keyspace, and on
/// the disk, so nothing is stated of it. It panics on a key longer than
/// 65535 bytes; an empty key is left out as well.
#[verifier::external_body]
fn keyspace_get(db: &fjall::Keyspace, key: &str) -> (r: Result<Option<Vec<u8>>, fjall::Error>)
    requires
        is_storable_key(key),
{
    db.get(key).map(|v| v.map(|s| s.to_vec()))
}

/// Relies on `fjall::Keyspace::insert`: stores a value under a key, replacing
/// any earlier one; it may fail on an I/O error. It panics on an empty key, a
/// key longer than 65535 bytes or a value longer than 2^32 - 1 bytes.
#[verifier::external_body]
fn keyspace_insert(db: &fjall::Keyspace, key: &str, value: &str) -> (r: Result<(), fjall::Error>)
    requires
        is_storable_key(key),
        is_storable_value(value),
{
    db.insert(key, value)
}

/// Relies on `fjall::Keyspace::remove`: removes a key; it may fail on an I/O
/// error. It panics on an empty key or a key longer than 65535 bytes.
#[verifier::external_body]
fn keyspace_remove(db: &fjall::Keyspace, key: &str) -> (r: Result<(), fjall::Error>)
    requires
        is_storable_key(key),
{
    db.remove(key)
}

/// Whether the keyspace takes `key`.
pub fn storable_key(key: &str) -> (r: bool)
    ensures
        r == is_storable_key(key),
{
    let n = key.as_bytes().len();
    0 < n && n <= MAX_KEY_BYTES
}

/// Whether the keyspace takes `value`.
pub fn storable_value(value: &str) -> (r: bool)
    ensures
        r == is_storable_value(value),
{
    (value.as_bytes().len() as u64) <= MAX_VALUE_BYTES
}

/// The storage capability handed to a plugin invocation: get, set and delete
/// on the shared keyspace. It adds no locking: concurrent writers race and
/// the last write wins. A key the keyspace cannot take (empty, or longer than
/// 65535 bytes) is never stored: reading it gives none, and writing or
/// removing it is dropped, as is a value longer than 2^32 - 1 bytes.
pub struct StorageBridge {
    db: fjall::Keyspace,
}

impl StorageBridge {
    /// A bridge over a keyspace handle.
    pub fn new(db: fjall::Keyspace) -> (r: StorageBridge) {
        StorageBridge { db }
    }

    /// The value stored under `key`, decoded leniently as text; none when the
    /// key cannot be stored, is absent, or the read failed.
    pub fn get_state(&self, key: &str) -> (r: Option<String>)
        ensures
            !is_storable_key(key) ==> r is None,
            r matches Some(s) ==> exists|b: Seq<u8>| s@ == #[trigger] utf8_lossy(b),
    {
        if !storable_key(key) {
            return None;
        }
        let read = match keyspace_get(&self.db, key) {
            Ok(v) => Ok(v),
            Err(_) => Err(StoreError),
        };
        decode_stored(read)
    }

    /// Stores `value` under `key`; a failed write, or one the keyspace cannot
    /// take, is dropped.
    pub fn set_state(&self, key: &str, value: &str) {
        if storable_key(key) && storable_value(value) {
            let _ = keyspace_insert(&self.db, key, value);
        }
    }

    /// Removes `key`; a failed removal, or a key the keyspace cannot take, is
    /// dropped.
    pub fn delete_state(&self, key: &str) {
        if storable_key(key) {
            let _ = keyspace_remove(&self.db, key);
        }
    }
}

} // verus!
