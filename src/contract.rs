//! The reputation contract: the score rules applied to the contract's
//! persistent storage, keyed by address.
//!
//! Authorisation is the host's concern: the entry point that the host
//! invokes asks `user` for it before calling `add_points`.
use crate::score::{raise_score, raised, ReputationError};
use soroban_sdk::storage::Persistent;
use soroban_sdk::{Address, Val};
use vstd::prelude::*;

verus! {

/// An account or contract address on the ledger.
#[verifier::external_type_specification]
#[verifier::external_body]
pub struct ExAddress(soroban_sdk::Address);

/// A handle on the persistent storage of the executing contract.
#[verifier::external_type_specification]
#[verifier::external_body]
pub struct ExPersistent(soroban_sdk::storage::Persistent);

/// What the persistent storage behind `p` holds under address keys: for each
/// address that has an entry, the `u32` it holds, or `None` where the entry
/// holds a value of another type.
pub uninterp spec fn stored_scores(p: Persistent) -> Map<Address, Option<u32>>;

/// The entry of `user` in `m`: `None` where there is none.
pub open spec fn entry(m: Map<Address, Option<u32>>, user: Address) -> Option<Option<u32>> {
    if m.contains_key(user) {
        Some(m[user])
    } else {
        None
    }
}

/// The score of `user` in `m`, counting an address without a readable entry
/// as zero.
pub open spec fn score_in(m: Map<Address, Option<u32>>, user: Address) -> nat {
    match entry(m, user) {
        Some(Some(s)) => s as nat,
        _ => 0,
    }
}

/// What `get_score` returns for `user` when the storage holds `m`.
pub open spec fn read_result(m: Map<Address, Option<u32>>, user: Address) -> Result<u32, ReputationError> {
    match entry(m, user) {
        None => Ok(0),
        Some(Some(s)) => Ok(s),
        Some(None) => Err(ReputationError::NotAScore),
    }
}

/// What raising the score of `user` by `amount` gives when the storage holds
/// `m`: the new score, or the reason it is refused. A zero amount is refused
/// before the entry is read.
pub open spec fn add_result(m: Map<Address, Option<u32>>, user: Address, amount: u32) -> Result<u32, ReputationError> {
    if amount == 0 {
        Err(ReputationError::ZeroAmount)
    } else {
        match entry(m, user) {
            Some(None) => Err(ReputationError::NotAScore),
            Some(Some(s)) => raised(Some(s), amount),
            None => raised(None, amount),
        }
    }
}

/// The storage after `add_points(user, amount)` on `m`: the new score
/// written under `user`, or `m` unchanged where the raise is refused.
pub open spec fn after_add(m: Map<Address, Option<u32>>, user: Address, amount: u32) -> Map<Address, Option<u32>> {
    match add_result(m, user, amount) {
        Ok(n) => m.insert(user, Some(n)),
        Err(_) => m,
    }
}

/// Relies on `soroban_sdk::storage::Persistent::get`, read as a raw `Val`,
/// and on `u32::try_from(Val)`: `get` returns the value stored under `user`,
/// `None` where there is none; the conversion succeeds exactly on a value
/// that holds a `u32`.
#[verifier::external_body]
fn load_score(p: &Persistent, user: &Address) -> (r: Option<Option<u32>>)
    ensures
        r == entry(stored_scores(*p), *user),
{
    match p.get::<Address, Val>(user) {
        Some(v) => Some(u32::try_from(v).ok()),
        None => None,
    }
}

/// Relies on `soroban_sdk::storage::Persistent::set`: stores `score` under
/// `user`, replacing what was there, and leaves every other entry as it was.
#[verifier::external_body]
fn store_score(p: &mut Persistent, user: &Address, score: u32)
    ensures
        stored_scores(*final(p)) == stored_scores(*old(p)).insert(*user, Some(score)),
{
    p.set(user, &score)
}

/// The contract that keeps a reputation score for each address.
pub struct ReputationContract;

impl ReputationContract {
    /// Raises the score of `user` by `amount`.
    ///
    /// A zero `amount` is refused with `ZeroAmount`, an entry that holds no
    /// score with `NotAScore`, and a sum that does not fit in a `u32` with
    /// `Overflow`; a refusal writes nothing. Otherwise the stored score
    /// (zero where none is stored) plus `amount` is written under `user`.
    pub fn add_points(p: &mut Persistent, user: Address, amount: u32) -> (r: Result<(), ReputationError>)
        ensures
            r is Ok <==> add_result(stored_scores(*old(p)), user, amount) is Ok,
            add_result(stored_scores(*old(p)), user, amount) matches Err(e) ==> r == Err::<(), ReputationError>(e),
            stored_scores(*final(p)) == after_add(stored_scores(*old(p)), user, amount),
    {
        if amount == 0 {
            return Err(ReputationError::ZeroAmount);
        }
        let stored = match load_score(p, &user) {
            Some(Some(s)) => Some(s),
            Some(None) => {
                return Err(ReputationError::NotAScore);
            },
            None => None,
        };
        match raise_score(stored, amount) {
            Ok(new_score) => {
                store_score(p, &user, new_score);
                Ok(())
            },
            Err(e) => Err(e),
        }
    }

    /// The score of `user`: the stored score, zero where none is stored, or
    /// `NotAScore` where the entry holds no score.
    pub fn get_score(p: &Persistent, user: Address) -> (r: Result<u32, ReputationError>)
        ensures
            r == read_result(stored_scores(*p), user),
            r matches Ok(n) ==> n == score_in(stored_scores(*p), user),
    {
        match load_score(p, &user) {
            None => Ok(0),
            Some(Some(s)) => Ok(s),
            Some(None) => Err(ReputationError::NotAScore),
        }
    }
}

/// Two raises of one address by `a` and then `b` leave the storage as one
/// raise by `a + b` does, where the entry holds no other value and the sum
/// fits in a `u32`.
pub proof fn lemma_raises_compose(m: Map<Address, Option<u32>>, user: Address, a: u32, b: u32)
    requires
        a > 0,
        b > 0,
        entry(m, user) != Some(None::<u32>),
        score_in(m, user) + a + b <= u32::MAX,
    ensures
        add_result(m, user, a) is Ok,
        add_result(after_add(m, user, a), user, b) is Ok,
        after_add(after_add(m, user, a), user, b) == after_add(m, user, (a + b) as u32),
{
    let m1 = after_add(m, user, a);
    assert(entry(m1, user) == Some(Some((score_in(m, user) + a) as u32)));
    assert(m1.insert(user, Some((score_in(m, user) + a + b) as u32)) =~= m.insert(
        user,
        Some((score_in(m, user) + a + b) as u32),
    ));
}

/// Raises of two different addresses give the same storage in either order;
/// for one address, so do two raises whose sum fits.
pub proof fn lemma_raises_commute(
    m: Map<Address, Option<u32>>,
    u1: Address,
    a: u32,
    u2: Address,
    b: u32,
)
    requires
        u1 == u2 ==> a > 0 && b > 0 && entry(m, u1) != Some(None::<u32>) && score_in(m, u1) + a + b <= u32::MAX,
    ensures
        after_add(after_add(m, u1, a), u2, b) == after_add(after_add(m, u2, b), u1, a),
{
    if u1 == u2 {
        lemma_raises_compose(m, u1, a, b);
        lemma_raises_compose(m, u1, b, a);
        assert((a + b) as u32 == (b + a) as u32);
    } else {
        let m1 = after_add(m, u1, a);
        let m2 = after_add(m, u2, b);
        assert(entry(m1, u2) == entry(m, u2));
        assert(entry(m2, u1) == entry(m, u1));
        assert(add_result(m1, u2, b) == add_result(m, u2, b));
        assert(add_result(m2, u1, a) == add_result(m, u1, a));
        assert(after_add(m1, u2, b) =~= after_add(m2, u1, a));
    }
}

/// No raise lowers a score, and a raise that succeeds makes the score of its
/// address grow by the amount.
pub proof fn lemma_scores_never_decrease(m: Map<Address, Option<u32>>, user: Address, amount: u32)
    ensures
        forall|u: Address| score_in(after_add(m, user, amount), u) >= #[trigger] score_in(m, u),
        add_result(m, user, amount) is Ok ==> score_in(after_add(m, user, amount), user) == score_in(m, user) + amount,
{
    assert forall|u: Address| score_in(after_add(m, user, amount), u) >= #[trigger] score_in(m, u) by {
        if u != user {
            assert(entry(after_add(m, user, amount), u) == entry(m, u));
        }
    }
}

/// Every score that a raise stores is positive: where each stored score is
/// positive before, each is positive after.
pub proof fn lemma_stored_scores_positive(m: Map<Address, Option<u32>>, user: Address, amount: u32)
    requires
        forall|u: Address| #[trigger] entry(m, u) matches Some(Some(s)) ==> s > 0,
    ensures
        forall|u: Address| #[trigger] entry(after_add(m, user, amount), u) matches Some(Some(s)) ==> s > 0,
{
    assert forall|u: Address| #[trigger] entry(after_add(m, user, amount), u) matches Some(Some(s)) ==> s > 0 by {
        if u != user {
            assert(entry(after_add(m, user, amount), u) == entry(m, u));
        }
    }
}

/// A score read after a successful raise is the score before plus the
/// amount.
pub proof fn lemma_read_after_add(m: Map<Address, Option<u32>>, user: Address, amount: u32)
    requires
        add_result(m, user, amount) is Ok,
    ensures
        read_result(after_add(m, user, amount), user) == Ok::<u32, ReputationError>(
            (score_in(m, user) + amount) as u32,
        ),
{
}

} // verus!
