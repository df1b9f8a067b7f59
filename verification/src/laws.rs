//! What holds of a bank whatever is asked of it, proved of the model that
//! the bank's operations are specified by.

use vstd::prelude::*;
use crate::account::Account;
use crate::error::BankError;
use crate::state::BankState;
use crate::state::Request;

verus! {

/// A bank that was just opened is well formed.
pub proof fn empty_is_wf<B>()
    ensures
        BankState::<B>::empty().wf(),
{
}

/// No request that the bank accepts breaks its well-formedness, as long as
/// the request leaves accounts under their own identifiers.
pub proof fn step_preserves_wf<B>(state: BankState<B>, request: Request<B>)
    requires
        state.wf(),
        state.accepts(request),
        request.keeps_id(),
    ensures
        state.step(request).wf(),
{
}

/// No sequence of requests that the bank accepts breaks its
/// well-formedness, as long as each leaves accounts under their own
/// identifiers.
pub proof fn run_preserves_wf<B>(state: BankState<B>, requests: Seq<Request<B>>)
    requires
        state.wf(),
        state.accepts_all(requests),
        forall|i: int| 0 <= i < requests.len() ==> (#[trigger] requests[i]).keeps_id(),
    ensures
        state.run(requests).wf(),
    decreases requests.len(),
{
    if requests.len() > 0 {
        accepts_all_of_prefix(state, requests, requests.len() - 1);
        run_preserves_wf(state, requests.drop_last());
        step_preserves_wf(state.run(requests.drop_last()), requests.last());
    }
}

/// In a well-formed bank no two stored accounts share an identifier.
pub proof fn stored_ids_are_unique<B>(state: BankState<B>, first: u32, second: u32)
    requires
        state.wf(),
        state.accounts.contains_key(first),
        state.accounts.contains_key(second),
        first != second,
    ensures
        state.accounts[first].id != state.accounts[second].id,
{
}

/// The counter never falls: after any accepted requests the next automatic
/// identifier is at least what it was.
pub proof fn counter_never_falls<B>(state: BankState<B>, requests: Seq<Request<B>>)
    requires
        state.accepts_all(requests),
    ensures
        state.run(requests).next_id >= state.next_id,
    decreases requests.len(),
{
    if requests.len() > 0 {
        accepts_all_of_prefix(state, requests, requests.len() - 1);
        counter_never_falls(state, requests.drop_last());
        assert(state.run(requests.drop_last()).accepts(requests.last()));
    }
}

/// The counter stays above every automatic identifier that was handed out:
/// after a sequence of requests it is greater than the identifier given to
/// any request in the sequence that asked for an automatic one.
pub proof fn counter_exceeds_automatic_ids<B>(
    state: BankState<B>,
    requests: Seq<Request<B>>,
    i: int,
)
    requires
        state.accepts_all(requests),
        0 <= i < requests.len(),
        requests[i] matches Request::Add(account) && account.id == 0,
    ensures
        state.run(requests.take(i)).issued_id(requests[i]->Add_0) < state.run(requests).next_id,
{
    let before = state.run(requests.take(i));
    let after = state.run(requests.take(i + 1));
    assert(before.accepts(requests[i]));
    assert(requests.take(i + 1).drop_last() == requests.take(i));
    // what follows the request, seen from the state that it leaves
    let rest = requests.skip(i + 1);
    assert(requests.take(i + 1) + rest == requests);
    run_of_concatenation(state, requests.take(i + 1), rest);
    accepts_all_of_suffix(state, requests.take(i + 1), rest);
    counter_never_falls(after, rest);
}

/// Automatic identifiers strictly increase: of two requests in a sequence
/// that both ask for an automatic identifier, the later one is given a
/// greater identifier than the earlier one, whatever was added, changed or
/// removed in between. So no automatic identifier is ever given twice.
pub proof fn automatic_ids_increase<B>(
    state: BankState<B>,
    requests: Seq<Request<B>>,
    i: int,
    j: int,
)
    requires
        state.accepts_all(requests),
        0 <= i < j < requests.len(),
        requests[i] matches Request::Add(account) && account.id == 0,
        requests[j] matches Request::Add(account) && account.id == 0,
    ensures
        state.run(requests.take(i)).issued_id(requests[i]->Add_0) < state.run(
            requests.take(j),
        ).issued_id(requests[j]->Add_0),
{
    accepts_all_of_prefix(state, requests, j);
    assert(requests.take(j).take(i) == requests.take(i));
    counter_exceeds_automatic_ids(state, requests.take(j), i);
}

/// Adding an account whose own identifier is taken is refused with
/// `DuplicateId` and changes nothing: every stored account, the one under
/// that identifier too, is as it was.
pub proof fn add_of_stored_id_changes_nothing<B>(state: BankState<B>, account: Account<B>)
    requires
        account.id != 0,
        state.accounts.contains_key(account.id),
    ensures
        state.add_outcome(account) == Err::<u32, BankError>(BankError::DuplicateId(account.id)),
        state.after_add(account) == state,
{
}

/// Once an account is removed, no account is stored under its identifier.
pub proof fn removed_id_is_absent<B>(state: BankState<B>, id: u32)
    ensures
        !state.after_remove(id).accounts.contains_key(id),
{
}

/// Setting the balance of an account that is not stored is refused with
/// `NotFound` and changes nothing.
pub proof fn update_of_absent_id_changes_nothing<B>(state: BankState<B>, id: u32, balance: B)
    requires
        !state.accounts.contains_key(id),
    ensures
        state.update_outcome(id) == Err::<(), BankError>(BankError::NotFound(id)),
        state.after_update(id, balance) == state,
{
}

/// Setting the balance of a stored account succeeds and leaves that balance
/// stored, and setting it a second time to the same balance changes nothing
/// more.
pub proof fn update_is_idempotent<B>(state: BankState<B>, id: u32, balance: B)
    requires
        state.accounts.contains_key(id),
    ensures
        state.update_outcome(id) is Ok,
        state.after_update(id, balance).accounts.contains_key(id),
        state.after_update(id, balance).accounts[id].balance == balance,
        state.after_update(id, balance).update_outcome(id) is Ok,
        state.after_update(id, balance).after_update(id, balance) == state.after_update(
            id,
            balance,
        ),
{
    let once = state.after_update(id, balance);
    assert(once.after_update(id, balance).accounts =~= once.accounts);
}

/// The number of stored accounts grows by one with each successful request
/// to add, falls by one with each successful request to remove, and changes
/// with no other request.
pub proof fn count_follows_adds_and_removes<B>(state: BankState<B>, requests: Seq<Request<B>>)
    requires
        state.accounts.dom().finite(),
    ensures
        state.run(requests).accounts.dom().finite(),
        state.run(requests).accounts.len() == state.accounts.len() + state.added(requests)
            - state.removed(requests),
    decreases requests.len(),
{
    if requests.len() > 0 {
        count_follows_adds_and_removes(state, requests.drop_last());
        let before = state.run(requests.drop_last());
        match requests.last() {
            Request::Add(account) => {},
            Request::Remove(id) => {},
            Request::UpdateBalance(id, balance) => {
                assert(before.after_update(id, balance).accounts.dom()
                    =~= before.accounts.dom());
            },
            Request::Edit(id, account) => {
                assert(before.after_edit(id, account).accounts.dom() =~= before.accounts.dom());
            },
        }
    }
}

/// In a bank that started empty, the number of stored accounts is the
/// number of successful requests to add less the number of successful
/// requests to remove.
pub proof fn count_is_adds_less_removes<B>(requests: Seq<Request<B>>)
    ensures
        BankState::<B>::empty().run(requests).accounts.len() == BankState::<B>::empty().added(
            requests,
        ) - BankState::<B>::empty().removed(requests),
{
    count_follows_adds_and_removes(BankState::<B>::empty(), requests);
}

/// A listing holds as many accounts as are stored: each stored account, and
/// nothing that is not stored.
pub proof fn listing_is_complete<B>(state: BankState<B>, listed: Seq<Account<B>>)
    requires
        state.lists(listed),
    ensures
        listed.len() == state.accounts.len(),
        forall|id: u32|
            state.accounts.contains_key(id) ==> listed.contains(#[trigger] state.accounts[id]),
        forall|i: int|
            0 <= i < listed.len() ==> state.accounts.values().contains(#[trigger] listed[i]),
{
    let ids = choose|ids: Seq<u32>| state.lists_along(ids, listed);
    ids.unique_seq_to_set();
    assert forall|id: u32| state.accounts.contains_key(id) implies listed.contains(
        #[trigger] state.accounts[id],
    ) by {
        assert(ids.to_set().contains(id));
        let i = choose|i: int| 0 <= i < ids.len() && ids[i] == id;
        assert(listed[i] == state.accounts[id]);
    }
    assert forall|i: int| 0 <= i < listed.len() implies state.accounts.values().contains(
        #[trigger] listed[i],
    ) by {
        assert(ids.to_set().contains(ids[i]));
    }
}

/// In a bank that started empty, a listing holds as many accounts as
/// requests to add have succeeded, less the requests to remove that have
/// succeeded.
pub proof fn listing_counts_adds_less_removes<B>(
    requests: Seq<Request<B>>,
    listed: Seq<Account<B>>,
)
    requires
        BankState::<B>::empty().run(requests).lists(listed),
    ensures
        listed.len() == BankState::<B>::empty().added(requests) - BankState::<B>::empty().removed(
            requests,
        ),
{
    count_is_adds_less_removes(requests);
    listing_is_complete(BankState::<B>::empty().run(requests), listed);
}

// How sequences of requests split and join.

/// A bank that accepts a sequence of requests accepts each of its prefixes.
pub proof fn accepts_all_of_prefix<B>(state: BankState<B>, requests: Seq<Request<B>>, n: int)
    requires
        state.accepts_all(requests),
        0 <= n <= requests.len(),
    ensures
        state.accepts_all(requests.take(n)),
{
    assert forall|i: int| 0 <= i < n implies #[trigger] state.run(requests.take(n).take(i)).accepts(
        requests.take(n)[i],
    ) by {
        assert(requests.take(n).take(i) == requests.take(i));
    }
}

/// Running two sequences of requests one after the other is running their
/// concatenation.
pub proof fn run_of_concatenation<B>(
    state: BankState<B>,
    first: Seq<Request<B>>,
    second: Seq<Request<B>>,
)
    ensures
        state.run(first + second) == state.run(first).run(second),
    decreases second.len(),
{
    if second.len() > 0 {
        run_of_concatenation(state, first, second.drop_last());
        assert((first + second).drop_last() == first + second.drop_last());
    }
}

/// A bank that accepts a concatenation accepts its second part from the
/// state that the first part leaves.
pub proof fn accepts_all_of_suffix<B>(
    state: BankState<B>,
    first: Seq<Request<B>>,
    second: Seq<Request<B>>,
)
    requires
        state.accepts_all(first + second),
    ensures
        state.run(first).accepts_all(second),
{
    assert forall|k: int| 0 <= k < second.len() implies #[trigger] state.run(first).run(
        second.take(k),
    ).accepts(second[k]) by {
        run_of_concatenation(state, first, second.take(k));
        assert((first + second).take(first.len() + k) == first + second.take(k));
        assert(state.run((first + second).take(first.len() + k)).accepts(
            (first + second)[first.len() + k],
        ));
    }
}

} // verus!
