//! The entry point: one invocation adds one to the count in the first account.

use vstd::prelude::*;
use crate::account::{views, Account, AccountView, Identity};
use crate::error::CounterError;
use crate::record::{lemma_decode_encode, CounterAccount};

verus! {

/// What one invocation by `program_id` does to `accounts`: the accounts as they
/// are afterwards, or the reason why they stay as they were. The ownership of the
/// first account is checked before its bytes are looked at.
pub open spec fn outcome(program_id: Seq<u8>, accounts: Seq<AccountView>) -> Result<
    Seq<AccountView>,
    CounterError,
> {
    if accounts.len() == 0 {
        Err(CounterError::MissingAccount)
    } else if accounts[0].owner != program_id {
        Err(CounterError::IncorrectOwner)
    } else {
        match CounterAccount::decoding(accounts[0].data) {
            None => Err(CounterError::DecodeError),
            Some(record) => Ok(
                accounts.update(
                    0,
                    AccountView { owner: accounts[0].owner, data: record.successor().encoding() },
                ),
            ),
        }
    }
}

/// Adds one to the count stored in the first of `accounts`, in place, if
/// `program_id` owns that account. The accounts after the first and the
/// instruction data are not looked at. On any failure every account is left
/// exactly as it was.
pub fn process_instruction(
    program_id: &Identity,
    accounts: &mut [Account],
    _instruction_data: &[u8],
) -> (r: Result<(), CounterError>)
    ensures
        match outcome(program_id@, views(old(accounts)@)) {
            Ok(after) => r is Ok && views(final(accounts)@) == after,
            Err(e) => r == Err::<(), CounterError>(e),
        },
        r is Err ==> final(accounts)@ == old(accounts)@,
        old(accounts)@.len() == 0 ==> r == Err::<(), CounterError>(CounterError::MissingAccount),
        old(accounts)@.len() > 0 && old(accounts)@[0].owner@ != program_id@ ==> r == Err::<
            (),
            CounterError,
        >(CounterError::IncorrectOwner),
        r is Ok ==> CounterAccount::decoding(final(accounts)@[0].data@) == Some(
            CounterAccount::decoding(old(accounts)@[0].data@)->Some_0.successor(),
        ),
        final(accounts)@.len() == old(accounts)@.len(),
        forall|i: int|
            0 <= i < old(accounts)@.len() ==> (#[trigger] final(accounts)@[i]).data@.len() == old(
                accounts,
            )@[i].data@.len(),
        forall|i: int|
            1 <= i < old(accounts)@.len() ==> #[trigger] final(accounts)@[i] == old(accounts)@[i],
{
    match accounts.first_mut() {
        None => Err(CounterError::MissingAccount),
        Some(account) => {
            if !account.owner.matches(program_id) {
                return Err(CounterError::IncorrectOwner);
            }
            let mut counter = match CounterAccount::try_from_slice(account.data.as_slice()) {
                Ok(counter) => counter,
                Err(e) => { return Err(e); },
            };
            counter.increment();
            proof {
                lemma_decode_encode(counter);
            }
            match counter.serialize(account.data.as_mut_slice()) {
                Ok(()) => Ok(()),
                Err(e) => Err(e),
            }
        },
    }
}

/// With no account listed, the invocation is refused for that reason.
pub proof fn lemma_no_account_is_refused(program_id: Seq<u8>)
    ensures
        outcome(program_id, Seq::<AccountView>::empty()) == Err::<Seq<AccountView>, CounterError>(
            CounterError::MissingAccount,
        ),
{
}

/// Where the first account belongs to another program, the invocation is refused
/// for that reason, whatever the account's bytes are.
pub proof fn lemma_foreign_owner_is_refused(program_id: Seq<u8>, accounts: Seq<AccountView>)
    requires
        accounts.len() > 0,
        accounts[0].owner != program_id,
    ensures
        outcome(program_id, accounts) == Err::<Seq<AccountView>, CounterError>(
            CounterError::IncorrectOwner,
        ),
{
}

/// Where the first account belongs to the program and stores a count `n` below
/// the largest, the invocation succeeds and the account then stores `n + 1`.
pub proof fn lemma_invocation_adds_one(program_id: Seq<u8>, accounts: Seq<AccountView>, n: u32)
    requires
        accounts.len() > 0,
        accounts[0].owner == program_id,
        CounterAccount::decoding(accounts[0].data) == Some(CounterAccount { count: n }),
        n < u32::MAX,
    ensures
        outcome(program_id, accounts) is Ok,
        CounterAccount::decoding(outcome(program_id, accounts)->Ok_0[0].data) == Some(
            CounterAccount { count: (n + 1) as u32 },
        ),
{
    lemma_decode_encode(CounterAccount { count: n }.successor());
}

/// A successful invocation changes nothing but the bytes of the first account:
/// the number of accounts, each owner, every later account, and the length of
/// every account's bytes stay as they were.
pub proof fn lemma_invocation_keeps_shape(program_id: Seq<u8>, accounts: Seq<AccountView>)
    requires
        outcome(program_id, accounts) is Ok,
    ensures
        outcome(program_id, accounts)->Ok_0.len() == accounts.len(),
        forall|i: int|
            0 <= i < accounts.len() ==> {
                let after = #[trigger] outcome(program_id, accounts)->Ok_0[i];
                &&& after.owner == accounts[i].owner
                &&& after.data.len() == accounts[i].data.len()
                &&& i >= 1 ==> after == accounts[i]
            },
{
    let record = CounterAccount::decoding(accounts[0].data)->Some_0;
    lemma_decode_encode(record.successor());
}

/// Invocations are not deduplicated: a second successful invocation starts from
/// what the first one left, so two of them advance the record twice.
pub proof fn lemma_invocations_add_up(program_id: Seq<u8>, accounts: Seq<AccountView>)
    requires
        outcome(program_id, accounts) is Ok,
    ensures
        outcome(program_id, outcome(program_id, accounts)->Ok_0) is Ok,
        CounterAccount::decoding(outcome(program_id, outcome(program_id, accounts)->Ok_0)->Ok_0[0].data) == Some(
            CounterAccount::decoding(accounts[0].data)->Some_0.successor().successor(),
        ),
{
    let record = CounterAccount::decoding(accounts[0].data)->Some_0;
    lemma_decode_encode(record.successor());
    lemma_decode_encode(record.successor().successor());
}

} // verus!
