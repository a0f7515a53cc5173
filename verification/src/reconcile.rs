//! The decision whether a domain's record has drifted, and what to do then.
//!
//! Reconciling one domain takes one or two steps. Given the machine's
//! address and what the provider said it publishes, [`decide`] either settles
//! the matter or asks for one update; given what became of that update,
//! [`conclude`] settles it. Nothing is kept from one cycle to the next.

use crate::address::blank_ip;
use crate::address::Ipv4Address;
use crate::provider::ProviderQueryError;
use crate::provider::ProviderUpdateError;
use vstd::prelude::*;

verus! {

/// What one cycle came to for one domain.
#[derive(Clone, Debug, PartialEq, Eq)]
pub enum ReconcileOutcome {
    /// The provider publishes the machine's address already.
    UpToDate,
    /// The provider published another address and now has the machine's.
    Updated,
    /// The provider publishes another address, and the update failed.
    UpdateFailed(ProviderUpdateError),
    /// What the provider publishes could not be had; no update was tried.
    QueryFailed(ProviderQueryError),
}

/// What is to happen once the published address is known, or known to be out
/// of reach.
#[derive(Clone, Debug, PartialEq, Eq)]
pub enum Decision {
    /// Nothing more is done for the domain in this cycle.
    Settled(ReconcileOutcome),
    /// The provider is to publish this address.
    Publish(Ipv4Address),
}

/// The decision for a domain whose provider answered `current` while the
/// machine has `machine_ip`: a failed query settles as failed, the machine's
/// own address as up to date, and any other address asks for the machine's to
/// be published.
pub open spec fn decision_of(
    machine_ip: Ipv4Address,
    current: Result<Ipv4Address, ProviderQueryError>,
) -> Decision {
    match current {
        Err(error) => Decision::Settled(ReconcileOutcome::QueryFailed(error)),
        Ok(published) => if published == machine_ip {
            Decision::Settled(ReconcileOutcome::UpToDate)
        } else {
            Decision::Publish(machine_ip)
        },
    }
}

/// The outcome for a domain whose update ended as `updated`.
pub open spec fn conclusion_of(updated: Result<(), ProviderUpdateError>) -> ReconcileOutcome {
    match updated {
        Ok(_) => ReconcileOutcome::Updated,
        Err(error) => ReconcileOutcome::UpdateFailed(error),
    }
}

/// The addresses that the provider is asked to publish, in order, while one
/// domain is reconciled.
pub open spec fn updates_of(
    machine_ip: Ipv4Address,
    current: Result<Ipv4Address, ProviderQueryError>,
) -> Seq<Ipv4Address> {
    match decision_of(machine_ip, current) {
        Decision::Settled(_) => seq![],
        Decision::Publish(ip) => seq![ip],
    }
}

/// The outcome of reconciling one domain, where `updated` is what became of
/// the update if one was asked for.
pub open spec fn outcome_of(
    machine_ip: Ipv4Address,
    current: Result<Ipv4Address, ProviderQueryError>,
    updated: Result<(), ProviderUpdateError>,
) -> ReconcileOutcome {
    match decision_of(machine_ip, current) {
        Decision::Settled(outcome) => outcome,
        Decision::Publish(_) => conclusion_of(updated),
    }
}

/// Decides what to do for a domain whose provider answered `current` while
/// the machine has `machine_ip`.
pub fn decide(machine_ip: Ipv4Address, current: Result<Ipv4Address, ProviderQueryError>) -> (decision:
    Decision)
    ensures
        decision == decision_of(machine_ip, current),
{
    match current {
        Err(error) => Decision::Settled(ReconcileOutcome::QueryFailed(error)),
        Ok(published) => if published == machine_ip {
            Decision::Settled(ReconcileOutcome::UpToDate)
        } else {
            Decision::Publish(machine_ip)
        },
    }
}

/// Settles a domain whose update ended as `updated`.
pub fn conclude(updated: Result<(), ProviderUpdateError>) -> (outcome: ReconcileOutcome)
    ensures
        outcome == conclusion_of(updated),
{
    match updated {
        Ok(_) => ReconcileOutcome::Updated,
        Err(error) => ReconcileOutcome::UpdateFailed(error),
    }
}

/// A domain whose provider publishes the machine's address is up to date,
/// and its provider is asked for no update.
pub proof fn lemma_same_address_is_up_to_date(
    machine_ip: Ipv4Address,
    updated: Result<(), ProviderUpdateError>,
)
    ensures
        decision_of(machine_ip, Ok(machine_ip)) == Decision::Settled(ReconcileOutcome::UpToDate),
        outcome_of(machine_ip, Ok(machine_ip), updated) == ReconcileOutcome::UpToDate,
        updates_of(machine_ip, Ok(machine_ip)) == Seq::<Ipv4Address>::empty(),
{
}

/// A domain whose provider publishes another address than the machine's has
/// its provider asked for exactly one update, to the machine's address, and
/// ends as that update ends.
pub proof fn lemma_drift_asks_for_one_update(
    machine_ip: Ipv4Address,
    published: Ipv4Address,
    updated: Result<(), ProviderUpdateError>,
)
    requires
        published != machine_ip,
    ensures
        decision_of(machine_ip, Ok(published)) == Decision::Publish(machine_ip),
        updates_of(machine_ip, Ok(published)) == seq![machine_ip],
        outcome_of(machine_ip, Ok(published), updated) == conclusion_of(updated),
        updated is Ok ==> outcome_of(machine_ip, Ok(published), updated)
            == ReconcileOutcome::Updated,
        updated matches Err(error) ==> outcome_of(machine_ip, Ok(published), updated)
            == ReconcileOutcome::UpdateFailed(error),
{
}

/// A domain for which nothing is published yet, so that its provider answers
/// with the blank address, is updated whenever the machine has an address
/// other than the blank one: it ends as updated or as failed to update.
pub proof fn lemma_blank_is_updated(
    machine_ip: Ipv4Address,
    updated: Result<(), ProviderUpdateError>,
)
    requires
        machine_ip != blank_ip(),
    ensures
        updates_of(machine_ip, Ok(blank_ip())) == seq![machine_ip],
        outcome_of(machine_ip, Ok(blank_ip()), updated) is Updated || outcome_of(
            machine_ip,
            Ok(blank_ip()),
            updated,
        ) is UpdateFailed,
{
}

/// A domain whose provider could not say what it publishes ends as failed to
/// query, whatever the machine's address, and its provider is asked for no
/// update.
pub proof fn lemma_failed_query_asks_for_nothing(
    machine_ip: Ipv4Address,
    error: ProviderQueryError,
    updated: Result<(), ProviderUpdateError>,
)
    ensures
        outcome_of(machine_ip, Err(error), updated) == ReconcileOutcome::QueryFailed(error),
        updates_of(machine_ip, Err(error)) == Seq::<Ipv4Address>::empty(),
{
}

} // verus!
