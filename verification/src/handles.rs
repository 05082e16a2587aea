//! Tokens for the resources that the driver keeps.
//!
//! The controller speaks of modules and tasks by token only. A
//! [`HandleTable`] is where the driver keeps what the tokens stand for: it
//! issues a token for each resource handed to it, and gives the resource
//! back, once, to whoever redeems the token.

use vstd::prelude::*;

verus! {

/// Resources on deposit, each under the token issued for it.
pub struct HandleTable<T> {
    slots: Vec<Option<T>>,
}

impl<T> HandleTable<T> {
    /// The resources on deposit, by token.
    pub closed spec fn entries(&self) -> Map<u64, T> {
        Map::new(
            |token: u64| token < self.slots.len() && self.slots[token as int] is Some,
            |token: u64| self.slots[token as int]->Some_0,
        )
    }

    /// Number of tokens issued so far. It is also the token issued next.
    pub closed spec fn issued(&self) -> nat {
        self.slots.len() as nat
    }

    /// Every token on deposit was issued.
    pub proof fn lemma_entries_were_issued(&self)
        ensures
            forall|token: u64| self.entries().contains_key(token) ==> token < self.issued(),
    {
    }

    /// An empty table.
    pub fn new() -> (table: HandleTable<T>)
        ensures
            table.entries() == Map::<u64, T>::empty(),
            table.issued() == 0,
    {
        let table = HandleTable { slots: Vec::new() };
        assert(table.entries() =~= Map::<u64, T>::empty());
        table
    }

    /// Takes `resource` on deposit and issues a token for it. The token was
    /// never issued before. `Err` hands the resource back where the tokens
    /// have run out.
    pub fn issue(&mut self, resource: T) -> (token: Result<u64, T>)
        ensures
            match token {
                Ok(token) => {
                    &&& token == old(self).issued()
                    &&& final(self).issued() == old(self).issued() + 1
                    &&& final(self).entries() == old(self).entries().insert(token, resource)
                },
                Err(returned) => {
                    &&& returned == resource
                    &&& old(self).issued() >= u64::MAX
                    &&& final(self).issued() == old(self).issued()
                    &&& final(self).entries() == old(self).entries()
                },
            },
    {
        let count = self.slots.len();
        if count as u64 >= u64::MAX {
            return Err(resource);
        }
        self.slots.push(Some(resource));
        assert(final(self).entries() =~= old(self).entries().insert(count as u64, resource));
        Ok(count as u64)
    }

    /// The resource on deposit under `token`, if there is one.
    pub fn get(&self, token: u64) -> (resource: Option<&T>)
        ensures
            match resource {
                Some(resource) => self.entries().contains_key(token) && *resource
                    == self.entries()[token],
                None => !self.entries().contains_key(token),
            },
    {
        if token >= self.slots.len() as u64 {
            return None;
        }
        self.slots[token as usize].as_ref()
    }

    /// Hands out the resource on deposit under `token` and takes it off the
    /// table, so that the token cannot be redeemed again.
    pub fn redeem(&mut self, token: u64) -> (resource: Option<T>)
        ensures
            final(self).issued() == old(self).issued(),
            final(self).entries() == old(self).entries().remove(token),
            match resource {
                Some(resource) => old(self).entries().contains_key(token) && resource
                    == old(self).entries()[token],
                None => !old(self).entries().contains_key(token),
            },
    {
        if token >= self.slots.len() as u64 {
            assert(final(self).entries() =~= old(self).entries().remove(token));
            return None;
        }
        let mut slot: Option<T> = None;
        core::mem::swap(&mut self.slots[token as usize], &mut slot);
        assert(final(self).entries() =~= old(self).entries().remove(token));
        slot
    }
}

} // verus!
