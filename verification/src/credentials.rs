//! The credential store: the one place that holds the service's own
//! credential. It starts empty, is claimed once, and is only rewritten in
//! place after that.
//!
//! The store is an ordinary value. A program that shares it between requests
//! puts it behind a lock and holds that lock for one call at a time, so the
//! calls take place one after another in some order; the laws below hold of
//! every such order.

use crate::model::{GlobalAuth, MaybeAuth, MaybeAuthView, TokenPair, TokenPairView};
use vstd::prelude::*;

verus! {

/// The store's state: `None` while empty, the elected credential once claimed.
pub type Slot = Option<TokenPairView>;

/// The state after one claim with `candidate`.
pub open spec fn claimed(slot: Slot, candidate: TokenPairView) -> Slot {
    match slot {
        None => Some(candidate),
        Some(_) => slot,
    }
}

/// The state after a claim with each of `candidates` in turn.
pub open spec fn claimed_all(slot: Slot, candidates: Seq<TokenPairView>) -> Slot
    decreases candidates.len(),
{
    if candidates.len() == 0 {
        slot
    } else {
        claimed(claimed_all(slot, candidates.drop_last()), candidates.last())
    }
}

/// Whether claim number `i` of the run `candidates` finds the store empty, and
/// so is the one that `claim_if_empty` answers with `true`.
pub open spec fn claim_succeeds(slot: Slot, candidates: Seq<TokenPairView>, i: int) -> bool {
    claimed_all(slot, candidates.take(i)) is None
}

/// A credential after a refresh: the new access token, and the new refresh
/// token where the answer carries one, else the old one.
pub open spec fn refreshed_pair(current: TokenPairView, fresh: MaybeAuthView) -> TokenPairView {
    TokenPairView {
        access_token: fresh.access_token,
        refresh_token: match fresh.refresh_token {
            Some(token) => token,
            None => current.refresh_token,
        },
    }
}

/// The state after an update: an empty store stays empty.
pub open spec fn updated(slot: Slot, fresh: MaybeAuthView) -> Slot {
    match slot {
        None => None,
        Some(current) => Some(refreshed_pair(current, fresh)),
    }
}

/// An operation needed the service's credential, and there is none yet.
#[derive(Debug, PartialEq, Eq)]
pub struct AuthUnavailable;

/// Holds at most one credential for the whole service.
#[derive(Debug, PartialEq, Eq)]
pub struct CredentialStore {
    slot: Option<GlobalAuth>,
}

impl View for CredentialStore {
    type V = Slot;

    closed spec fn view(&self) -> Slot {
        match self.slot {
            Some(auth) => Some(auth@),
            None => None,
        }
    }
}

/// The view of a snapshot.
pub open spec fn snapshot_view(snapshot: Option<GlobalAuth>) -> Slot {
    match snapshot {
        Some(auth) => Some(auth@),
        None => None,
    }
}

impl CredentialStore {
    /// An empty store.
    pub fn new() -> (store: CredentialStore)
        ensures
            store@ is None,
    {
        CredentialStore { slot: None }
    }

    /// A copy of what the store holds now.
    pub fn read(&self) -> (snapshot: Option<GlobalAuth>)
        ensures
            snapshot_view(snapshot) == self@,
    {
        match &self.slot {
            Some(auth) => Some(auth.clone()),
            None => None,
        }
    }

    /// Whether the store holds a credential.
    pub fn is_claimed(&self) -> (claimed: bool)
        ensures
            claimed == (self@ is Some),
    {
        self.slot.is_some()
    }

    /// Puts `candidate` into the store if the store is empty, and says whether
    /// it did. A store that has been claimed is left as it is.
    pub fn claim_if_empty(&mut self, candidate: TokenPair) -> (won: bool)
        ensures
            won == (old(self)@ is None),
            final(self)@ == claimed(old(self)@, candidate@),
    {
        if self.slot.is_none() {
            self.slot = Some(GlobalAuth(candidate));
            true
        } else {
            false
        }
    }

    /// Rewrites the stored credential from the answer to a refresh: the access
    /// token always, the refresh token only where the answer carries one.
    /// Fails on an empty store, which stays empty.
    pub fn update(&mut self, fresh: MaybeAuth) -> (r: Result<(), AuthUnavailable>)
        ensures
            r is Ok <==> old(self)@ is Some,
            final(self)@ == updated(old(self)@, fresh@),
    {
        let current = match self.slot.take() {
            Some(auth) => auth,
            None => {
                return Err(AuthUnavailable);
            },
        };
        let refresh_token = match fresh.refresh_token {
            Some(token) => token,
            None => current.0.refresh_token,
        };
        self.slot = Some(
            GlobalAuth(TokenPair { access_token: fresh.access_token, refresh_token }),
        );
        Ok(())
    }
}

/// A claim on a store that holds a credential changes nothing, however many
/// follow one another.
pub proof fn claims_leave_a_claimed_store(slot: Slot, candidates: Seq<TokenPairView>)
    requires
        slot is Some,
    ensures
        claimed_all(slot, candidates) == slot,
    decreases candidates.len(),
{
    if candidates.len() > 0 {
        claims_leave_a_claimed_store(slot, candidates.drop_last());
    }
}

/// Once one claim of a run has been made on an empty store, the store holds
/// the first candidate of the run.
pub proof fn first_claim_wins(candidates: Seq<TokenPairView>)
    requires
        candidates.len() > 0,
    ensures
        claimed_all(None, candidates) == Some(candidates[0]),
    decreases candidates.len(),
{
    if candidates.len() == 1 {
        assert(candidates.drop_last().len() == 0);
        assert(claimed_all(None, candidates.drop_last()) == None::<TokenPairView>);
    } else {
        first_claim_wins(candidates.drop_last());
        assert(candidates.drop_last()[0] == candidates[0]);
    }
}

/// Election: of any number of claims on an empty store, made in any order,
/// exactly one succeeds, and the store ends up holding that claim's candidate.
/// The winner is the claim that comes first in the order.
pub proof fn exactly_one_claim_succeeds(candidates: Seq<TokenPairView>)
    requires
        candidates.len() > 0,
    ensures
        exists|w: int|
            0 <= w < candidates.len() && #[trigger] claim_succeeds(None, candidates, w)
                && claimed_all(None, candidates) == Some(candidates[w]) && forall|i: int|
                0 <= i < candidates.len() && i != w ==> !#[trigger] claim_succeeds(
                    None,
                    candidates,
                    i,
                ),
{
    first_claim_wins(candidates);
    assert(candidates.take(0).len() == 0);
    assert(claim_succeeds(None, candidates, 0));
    assert forall|i: int| 0 <= i < candidates.len() && i != 0 implies !#[trigger] claim_succeeds(
        None,
        candidates,
        i,
    ) by {
        first_claim_wins(candidates.take(i));
    }
}

/// No claim succeeds on a store that holds a credential, and the credential
/// stays what it was.
pub proof fn no_claim_succeeds_once_claimed(slot: Slot, candidates: Seq<TokenPairView>, i: int)
    requires
        slot is Some,
        0 <= i < candidates.len(),
    ensures
        !claim_succeeds(slot, candidates, i),
        claimed_all(slot, candidates) == slot,
{
    claims_leave_a_claimed_store(slot, candidates.take(i));
    claims_leave_a_claimed_store(slot, candidates);
}

/// A refresh always replaces the access token; it replaces the refresh token
/// if and only if the answer carries one, and else the old one survives.
pub proof fn refresh_keeps_an_absent_refresh_token(current: TokenPairView, fresh: MaybeAuthView)
    ensures
        refreshed_pair(current, fresh).access_token == fresh.access_token,
        fresh.refresh_token is Some ==> refreshed_pair(current, fresh).refresh_token
            == fresh.refresh_token->0,
        fresh.refresh_token is None ==> refreshed_pair(current, fresh).refresh_token
            == current.refresh_token,
{
}

} // verus!
