//! An on-chain counter: the state of an account is one little-endian `u32`,
//! which each authorised invocation increments by one, wrapping at `u32::MAX`.
use vstd::prelude::*;

pub mod error;
pub mod layout;

pub use error::CounterError;
pub use layout::CounterAccount;

use layout::{le_bytes, le_value};

verus! {

/// The identity of a program or of an account's owner: 32 opaque bytes.
pub type Identity = [u8; 32];

/// An account as handed to the program for one invocation: its owner and the
/// bytes it stores.
pub struct Account {
    pub owner: Identity,
    pub data: Vec<u8>,
}

/// The counter after `v`: one more, and zero after `u32::MAX`.
pub open spec fn next_counter(v: u32) -> u32 {
    if v == u32::MAX {
        0
    } else {
        (v + 1) as u32
    }
}

/// Whether two identities are the same 32 bytes.
pub fn same_identity(a: &Identity, b: &Identity) -> (r: bool)
    ensures
        r == (a@ == b@),
{
    let mut i: usize = 0;
    while i < 32
        invariant
            i <= 32,
            a@.len() == 32,
            b@.len() == 32,
            forall|j: int| 0 <= j < i ==> a@[j] == b@[j],
        decreases 32 - i,
    {
        if a[i] != b[i] {
            return false;
        }
        i = i + 1;
    }
    assert(a@ =~= b@);
    true
}

/// Increments the counter stored in the first account, which must be owned by
/// `program_id`, and returns its new value. The instruction data is not read.
pub fn process_instruction(
    program_id: &Identity,
    accounts: &mut Vec<Account>,
    _instruction_data: &[u8],
) -> (r: Result<u32, CounterError>)
    ensures
        old(accounts)@.len() == 0 ==> r == Err::<u32, CounterError>(CounterError::MissingAccount),
        old(accounts)@.len() > 0 && old(accounts)@[0].owner@ != program_id@ ==> r == Err::<
            u32,
            CounterError,
        >(CounterError::IncorrectOwner),
        old(accounts)@.len() > 0 && old(accounts)@[0].owner@ == program_id@
            && old(accounts)@[0].data@.len() != 4 ==> r == Err::<u32, CounterError>(
            CounterError::DecodeError,
        ),
        r is Err ==> *final(accounts) == *old(accounts),
        old(accounts)@.len() > 0 && old(accounts)@[0].owner@ == program_id@
            && old(accounts)@[0].data@.len() == 4 ==> {
            let v = le_value(old(accounts)@[0].data@);
            &&& r == Ok::<u32, CounterError>(next_counter(v))
            &&& final(accounts)@.len() == old(accounts)@.len()
            &&& final(accounts)@[0].owner == old(accounts)@[0].owner
            &&& final(accounts)@[0].data@ == le_bytes(next_counter(v))
            &&& le_value(final(accounts)@[0].data@) == next_counter(v)
            &&& v < u32::MAX ==> le_value(final(accounts)@[0].data@) == v + 1
            &&& v == u32::MAX ==> le_value(final(accounts)@[0].data@) == 0
            &&& forall|i: int|
                1 <= i < old(accounts)@.len() ==> final(accounts)@[i] == old(accounts)@[i]
        },
{
    if accounts.len() == 0 {
        return Err(CounterError::MissingAccount);
    }
    if !same_identity(&accounts[0].owner, program_id) {
        return Err(CounterError::IncorrectOwner);
    }
    let mut counter_account = CounterAccount::try_from_slice(accounts[0].data.as_slice())?;
    counter_account.counter = counter_account.counter.wrapping_add(1);
    let account = &mut accounts[0];
    counter_account.serialize(&mut account.data)?;
    proof {
        layout::lemma_decode_encode(counter_account.counter);
    }
    Ok(counter_account.counter)
}

} // verus!
