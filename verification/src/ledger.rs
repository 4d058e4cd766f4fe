use crate::address::Address;
use crate::error::Error;
use vstd::prelude::*;

verus! {

/// An amount of the ledger's currency.
pub type Amount = u64;

/// What the ledger keeps for one address.
#[derive(Debug)]
pub struct Account {
    pub nonce: u64,
    pub amount: Amount,
    pub contract_code: Option<String>,
}

/// The accounts that a sequence of records leaves: each record replaces the
/// account recorded before at the same address.
pub open spec fn accounts_of(records: Seq<(Address, Account)>) -> Map<Seq<u8>, Account>
    decreases records.len(),
{
    if records.len() == 0 {
        Map::empty()
    } else {
        accounts_of(records.drop_last()).insert(records.last().0@, records.last().1)
    }
}

/// The nonce that `accounts` hold for `address`: zero where there is no
/// account.
pub open spec fn nonce_of(accounts: Map<Seq<u8>, Account>, address: Seq<u8>) -> u64 {
    if accounts.contains_key(address) {
        accounts[address].nonce
    } else {
        0
    }
}

/// The code that `accounts` hold for `address`, if any.
pub open spec fn code_of(accounts: Map<Seq<u8>, Account>, address: Seq<u8>) -> Option<String> {
    if accounts.contains_key(address) {
        accounts[address].contract_code
    } else {
        None
    }
}

/// The accounts of all addresses.
#[derive(Debug)]
pub struct Ledger {
    records: Vec<(Address, Account)>,
}

impl View for Ledger {
    type V = Map<Seq<u8>, Account>;

    closed spec fn view(&self) -> Map<Seq<u8>, Account> {
        accounts_of(self.records@)
    }
}

impl Ledger {
    /// A ledger without accounts.
    pub fn new() -> (ledger: Ledger)
        ensures
            ledger@ == Map::<Seq<u8>, Account>::empty(),
    {
        Ledger { records: Vec::new() }
    }

    /// The account at `address`, if there is one.
    pub fn account(&self, address: &Address) -> (found: Option<&Account>)
        ensures
            match found {
                Some(account) => self@.contains_key(address@) && self@[address@] == *account,
                None => !self@.contains_key(address@),
            },
    {
        let mut i: usize = self.records.len();
        assert(self.records@.subrange(0, i as int) =~= self.records@);
        while i > 0
            invariant
                i <= self.records@.len(),
                accounts_of(self.records@).contains_key(address@) == accounts_of(
                    self.records@.subrange(0, i as int),
                ).contains_key(address@),
                accounts_of(self.records@).contains_key(address@) ==> accounts_of(
                    self.records@,
                )[address@] == accounts_of(self.records@.subrange(0, i as int))[address@],
            decreases i,
        {
            proof {
                let head = self.records@.subrange(0, i as int);
                assert(head.drop_last() =~= self.records@.subrange(0, i - 1));
                assert(head.last() == self.records@[i - 1]);
            }
            i -= 1;
            if self.records[i].0.same(address) {
                return Some(&self.records[i].1);
            }
        }
        assert(self.records@.subrange(0, 0).len() == 0);
        None
    }

    /// The code of the function stored at `address`, if one is stored there.
    pub fn contract_code(&self, address: &Address) -> (code: Option<&String>)
        ensures
            match code {
                Some(text) => code_of(self@, address@) == Some(*text),
                None => code_of(self@, address@) is None,
            },
    {
        match self.account(address) {
            Some(account) => account.contract_code.as_ref(),
            None => None,
        }
    }

    /// The nonce of `address`: zero where it has no account.
    pub fn nonce(&self, address: &Address) -> (nonce: u64)
        ensures
            nonce == nonce_of(self@, address@),
    {
        match self.account(address) {
            Some(account) => account.nonce,
            None => 0,
        }
    }

    /// Creates the account of `address` with `amount` and `contract_code`,
    /// unless the address has an account already.
    pub fn create(
        &mut self,
        address: &Address,
        amount: Amount,
        contract_code: Option<String>,
    ) -> (created: Result<(), Error>)
        ensures
            old(self)@.contains_key(address@) ==> created == Err::<(), Error>(
                Error::AccountExists,
            ) && final(self)@ == old(self)@,
            !old(self)@.contains_key(address@) ==> created is Ok && final(self)@ == old(
                self,
            )@.insert(address@, Account { nonce: 0, amount, contract_code }),
    {
        if self.account(address).is_some() {
            return Err(Error::AccountExists);
        }
        let ghost before = self.records@;
        self.records.push((address.clone(), Account { nonce: 0, amount, contract_code }));
        assert(self.records@.drop_last() =~= before);
        Ok(())
    }

    /// Advances the nonce of `address` by one, creating an empty account
    /// where it has none. A nonce that cannot advance stays, and `None` says
    /// so.
    pub fn increment_nonce(&mut self, address: &Address) -> (advanced: Option<u64>)
        ensures
            nonce_of(old(self)@, address@) == u64::MAX ==> advanced is None && final(self)@
                == old(self)@,
            nonce_of(old(self)@, address@) < u64::MAX ==> advanced == Some(
                (nonce_of(old(self)@, address@) + 1) as u64,
            ) && final(self)@ == old(self)@.insert(
                address@,
                Account {
                    nonce: (nonce_of(old(self)@, address@) + 1) as u64,
                    amount: if old(self)@.contains_key(address@) {
                        old(self)@[address@].amount
                    } else {
                        0
                    },
                    contract_code: code_of(old(self)@, address@),
                },
            ),
    {
        let (nonce, amount, contract_code) = match self.account(address) {
            Some(account) => (account.nonce, account.amount, account.contract_code.clone()),
            None => (0, 0, None),
        };
        if nonce == u64::MAX {
            return None;
        }
        let ghost before = self.records@;
        self.records.push((address.clone(), Account { nonce: nonce + 1, amount, contract_code }));
        assert(self.records@.drop_last() =~= before);
        Some(nonce + 1)
    }
}

} // verus!
