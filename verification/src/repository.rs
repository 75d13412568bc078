//! Counters kept in contract storage, behind a small repository interface.
use vstd::prelude::*;

verus! {

/// Errors of storage operations.
#[derive(Copy, Clone, Debug, PartialEq, Eq, Structural)]
pub enum StorageError {
    NotFound,
    AlreadyExists,
    SerializationError,
    DeserializationError,
    Unauthorized,
    InvalidKey,
    StorageFull,
}

/// A counter: read it, count one up, or set it back to zero.
pub trait CounterRepository {
    type Error;

    /// The value the counter holds.
    spec fn value(&self) -> u64;

    /// The current value.
    fn get(&self) -> (r: Result<u64, Self::Error>)
        ensures
            r == Ok::<u64, Self::Error>(self.value());

    /// Count one up and hand back the new value.
    fn increment(&mut self) -> (r: Result<u64, Self::Error>)
        requires
            old(self).value() < u64::MAX,
        ensures
            final(self).value() == old(self).value() + 1,
            r == Ok::<u64, Self::Error>(final(self).value());

    /// Set the counter back to zero.
    fn reset(&mut self) -> (r: Result<(), Self::Error>)
        ensures
            final(self).value() == 0,
            r == Ok::<(), Self::Error>(()),
    ;
}

/// A counter in one storage slot; an empty slot reads as zero.
#[derive(Clone)]
pub struct GenericCounterRepository {
    pub stored: Option<u64>,
}

impl GenericCounterRepository {
    /// What the slot reads as.
    pub open spec fn current(&self) -> u64 {
        match self.stored {
            Some(v) => v,
            None => 0,
        }
    }

    /// A counter over an empty slot.
    pub fn new() -> (c: Self)
        ensures
            c.stored is None,
    {
        GenericCounterRepository { stored: None }
    }

    /// The current value: what the slot holds, or zero.
    pub fn get(&self) -> (r: Result<u64, StorageError>)
        ensures
            r == Ok::<u64, StorageError>(self.current()),
    {
        match self.stored {
            Some(v) => Ok(v),
            None => Ok(0),
        }
    }

    /// Count one up and hand back the new value.
    pub fn increment(&mut self) -> (r: Result<u64, StorageError>)
        requires
            old(self).current() < u64::MAX,
        ensures
            final(self).stored == Some((old(self).current() + 1) as u64),
            r == Ok::<u64, StorageError>((old(self).current() + 1) as u64),
    {
        let current = match self.stored {
            Some(v) => v,
            None => 0,
        };
        let next = current + 1;
        self.stored = Some(next);
        Ok(next)
    }

    /// Count `amount` up and hand back the new value.
    pub fn increment_by(&mut self, amount: u64) -> (r: Result<u64, StorageError>)
        requires
            old(self).current() + amount <= u64::MAX,
        ensures
            final(self).stored == Some((old(self).current() + amount) as u64),
            r == Ok::<u64, StorageError>((old(self).current() + amount) as u64),
    {
        let current = match self.stored {
            Some(v) => v,
            None => 0,
        };
        let next = current + amount;
        self.stored = Some(next);
        Ok(next)
    }

    /// Count one down, stopping at zero, and hand back the new value.
    pub fn decrement(&mut self) -> (r: Result<u64, StorageError>)
        ensures
            final(self).stored == Some(if old(self).current() == 0 { 0u64 } else { (old(self).current() - 1) as u64 }),
            r == Ok::<u64, StorageError>(final(self).current()),
    {
        let current = match self.stored {
            Some(v) => v,
            None => 0,
        };
        let next = current.saturating_sub(1);
        self.stored = Some(next);
        Ok(next)
    }

    /// Set the counter back to zero.
    pub fn reset(&mut self) -> (r: Result<(), StorageError>)
        ensures
            final(self).stored == Some(0u64),
            r == Ok::<(), StorageError>(()),
    {
        self.stored = Some(0);
        Ok(())
    }

    /// Set the counter to `value`.
    pub fn set(&mut self, value: u64) -> (r: Result<(), StorageError>)
        ensures
            final(self).stored == Some(value),
            r == Ok::<(), StorageError>(()),
    {
        self.stored = Some(value);
        Ok(())
    }
}

impl CounterRepository for GenericCounterRepository {
    type Error = StorageError;

    open spec fn value(&self) -> u64 {
        self.current()
    }

    fn get(&self) -> (r: Result<u64, StorageError>) {
        GenericCounterRepository::get(self)
    }

    fn increment(&mut self) -> (r: Result<u64, StorageError>) {
        GenericCounterRepository::increment(self)
    }

    fn reset(&mut self) -> (r: Result<(), StorageError>) {
        GenericCounterRepository::reset(self)
    }
}

/// What `set` writes, `get` reads back; and a counter read after `increment`
/// is one more than before.
pub proof fn law_counter_reads_back_writes(c: GenericCounterRepository, value: u64)
    ensures
        (GenericCounterRepository { stored: Some(value) }).current() == value,
        c.current() < u64::MAX ==> (GenericCounterRepository { stored: Some((c.current() + 1) as u64) }).current() == c.current() + 1,
{
}

} // verus!
