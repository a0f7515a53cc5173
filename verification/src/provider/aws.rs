//! The provider for zones hosted by AWS Route 53.

use crate::address::blank_ip;
use crate::address::parsed;
use crate::address::Ipv4Address;
use crate::address::lemma_parsed_text;
use crate::provider::ProviderQueryError;
use crate::provider::ProviderUpdateError;
use crate::reconcile::decision_of;
use crate::reconcile::updates_of;
use crate::reconcile::Decision;
use crate::reconcile::ReconcileOutcome;
use vstd::prelude::*;
use vstd::string::StringExecFns;

verus! {

/// The type of the records that hold IPv4 addresses.
pub const RECORD_TYPE: &'static str = "A";

/// The action that creates a record set or replaces the one that is there.
pub const UPSERT: &'static str = "UPSERT";

/// One domain in one hosted zone, and the time to live of its record.
#[derive(Clone, Debug, PartialEq, Eq)]
pub struct Aws {
    pub domain: String,
    pub hosted_zone_id: String,
    pub ttl: i64,
}

/// What an [`Aws`] holds, with its texts as sequences of characters.
pub struct AwsView {
    pub domain: Seq<char>,
    pub hosted_zone_id: Seq<char>,
    pub ttl: i64,
}

impl View for Aws {
    type V = AwsView;

    open spec fn view(&self) -> AwsView {
        AwsView { domain: self.domain@, hosted_zone_id: self.hosted_zone_id@, ttl: self.ttl }
    }
}

/// The question to the zone which records it would answer with.
#[derive(Clone, Debug, PartialEq, Eq)]
pub struct AnswerQuery {
    pub hosted_zone_id: String,
    pub record_name: String,
    pub record_type: String,
}

/// What an [`AnswerQuery`] holds, with its texts as sequences of characters.
pub struct AnswerQueryView {
    pub hosted_zone_id: Seq<char>,
    pub record_name: Seq<char>,
    pub record_type: Seq<char>,
}

impl View for AnswerQuery {
    type V = AnswerQueryView;

    open spec fn view(&self) -> AnswerQueryView {
        AnswerQueryView {
            hosted_zone_id: self.hosted_zone_id@,
            record_name: self.record_name@,
            record_type: self.record_type@,
        }
    }
}

/// One change to the record sets of a zone.
#[derive(Clone, Debug, PartialEq, Eq)]
pub struct RecordChange {
    pub action: String,
    pub name: String,
    pub record_type: String,
    pub ttl: i64,
    pub values: Vec<String>,
}

/// What a [`RecordChange`] holds, with its texts as sequences of characters.
pub struct RecordChangeView {
    pub action: Seq<char>,
    pub name: Seq<char>,
    pub record_type: Seq<char>,
    pub ttl: i64,
    pub values: Seq<Seq<char>>,
}

impl View for RecordChange {
    type V = RecordChangeView;

    open spec fn view(&self) -> RecordChangeView {
        RecordChangeView {
            action: self.action@,
            name: self.name@,
            record_type: self.record_type@,
            ttl: self.ttl,
            values: self.values@.map_values(|value: String| value@),
        }
    }
}

/// The changes that a zone is asked to take together.
#[derive(Clone, Debug, PartialEq, Eq)]
pub struct ChangeBatch {
    pub hosted_zone_id: String,
    pub changes: Vec<RecordChange>,
}

/// What a [`ChangeBatch`] holds, with its texts as sequences of characters.
pub struct ChangeBatchView {
    pub hosted_zone_id: Seq<char>,
    pub changes: Seq<RecordChangeView>,
}

impl View for ChangeBatch {
    type V = ChangeBatchView;

    open spec fn view(&self) -> ChangeBatchView {
        ChangeBatchView {
            hosted_zone_id: self.hosted_zone_id@,
            changes: self.changes@.map_values(|change: RecordChange| change@),
        }
    }
}

impl AwsView {
    /// The question for the address records of the domain.
    pub open spec fn current_query(self) -> AnswerQueryView {
        AnswerQueryView {
            hosted_zone_id: self.hosted_zone_id,
            record_name: self.domain,
            record_type: RECORD_TYPE@,
        }
    }

    /// The batch that publishes `ip` for the domain: one change, an upsert of
    /// the domain's address record to the text of `ip` alone.
    pub open spec fn upsert(self, ip: Ipv4Address) -> ChangeBatchView {
        ChangeBatchView {
            hosted_zone_id: self.hosted_zone_id,
            changes: seq![
                RecordChangeView {
                    action: UPSERT@,
                    name: self.domain,
                    record_type: RECORD_TYPE@,
                    ttl: self.ttl,
                    values: seq![ip.text()],
                },
            ],
        }
    }
}

impl RecordChangeView {
    /// The record data that the zone holds under the change's name and type
    /// once it has taken the change, where it held `before`: an upsert puts
    /// its own values in the place of whatever was there.
    pub open spec fn applied(self, before: Seq<Seq<char>>) -> Seq<Seq<char>> {
        if self.action == UPSERT@ {
            self.values
        } else {
            before
        }
    }
}

/// The record data `records`, as sequences of characters.
pub open spec fn record_views(records: Seq<String>) -> Seq<Seq<char>> {
    records.map_values(|record: String| record@)
}

/// The address that a zone publishes, going by its answer to a query: the
/// records it holds, or the words in which the query failed. No record is the
/// blank address, one record is the address that it writes, and more than one
/// is an error, as is one that writes no address.
pub open spec fn current_of(answer: Result<Vec<String>, String>) -> Result<
    Ipv4Address,
    ProviderQueryError,
> {
    match answer {
        Err(message) => Err(ProviderQueryError::Backend(message)),
        Ok(records) => {
            if records@.len() == 0 {
                Ok(blank_ip())
            } else if records@.len() == 1 {
                match parsed(records@[0]@) {
                    Some(addr) => Ok(addr),
                    None => Err(ProviderQueryError::MalformedRecord(records@[0])),
                }
            } else {
                Err(ProviderQueryError::AmbiguousRecordSet)
            }
        },
    }
}

/// What became of a change, going by the words in which it failed, if it did.
pub open spec fn updated_of(result: Result<(), String>) -> Result<(), ProviderUpdateError> {
    match result {
        Ok(_) => Ok(()),
        Err(message) => Err(ProviderUpdateError::Backend(message)),
    }
}

impl Aws {
    /// The provider for `domain` in the zone `hosted_zone_id`, with records
    /// that live `ttl` seconds.
    pub fn new(domain: &str, hosted_zone_id: &str, ttl: i64) -> (aws: Self)
        ensures
            aws@ == (AwsView { domain: domain@, hosted_zone_id: hosted_zone_id@, ttl }),
    {
        Self {
            domain: String::from_str(domain),
            hosted_zone_id: String::from_str(hosted_zone_id),
            ttl,
        }
    }

    /// The question that is put to the zone to learn the published address.
    pub fn current_query(&self) -> (query: AnswerQuery)
        ensures
            query@ == self@.current_query(),
    {
        AnswerQuery {
            hosted_zone_id: self.hosted_zone_id.clone(),
            record_name: self.domain.clone(),
            record_type: String::from_str(RECORD_TYPE),
        }
    }

    /// Reads the published address off the zone's answer to
    /// [`current_query`](Self::current_query): the record data it returned,
    /// or the words in which the query failed.
    pub fn current(answer: Result<Vec<String>, String>) -> (current: Result<
        Ipv4Address,
        ProviderQueryError,
    >)
        ensures
            current == current_of(answer),
    {
        match answer {
            Err(message) => Err(ProviderQueryError::Backend(message)),
            Ok(records) => {
                if records.len() == 0 {
                    Ok(Ipv4Address::blank())
                } else if records.len() == 1 {
                    match Ipv4Address::parse(records[0].as_str()) {
                        Some(addr) => Ok(addr),
                        None => Err(ProviderQueryError::MalformedRecord(records[0].clone())),
                    }
                } else {
                    Err(ProviderQueryError::AmbiguousRecordSet)
                }
            },
        }
    }

    /// The batch that is sent to the zone to publish `ip`.
    pub fn upsert(&self, ip: &Ipv4Address) -> (batch: ChangeBatch)
        ensures
            batch@ == self@.upsert(*ip),
    {
        let mut values: Vec<String> = Vec::new();
        values.push(ip.to_text());
        let change = RecordChange {
            action: String::from_str(UPSERT),
            name: self.domain.clone(),
            record_type: String::from_str(RECORD_TYPE),
            ttl: self.ttl,
            values,
        };
        assert(change@.values =~= seq![ip.text()]);
        let mut changes: Vec<RecordChange> = Vec::new();
        changes.push(change);
        let batch = ChangeBatch { hosted_zone_id: self.hosted_zone_id.clone(), changes };
        assert(batch@.changes =~= self@.upsert(*ip).changes);
        batch
    }

    /// Reads what became of a change off the backend's answer: nothing, or
    /// the words in which the change failed.
    pub fn updated(result: Result<(), String>) -> (updated: Result<(), ProviderUpdateError>)
        ensures
            updated == updated_of(result),
    {
        match result {
            Ok(_) => Ok(()),
            Err(message) => Err(ProviderUpdateError::Backend(message)),
        }
    }
}

/// A zone that answers with more than one record makes the query fail as
/// ambiguous: no record is picked, and no update is asked for.
pub proof fn lemma_many_records_are_ambiguous(records: Vec<String>, machine_ip: Ipv4Address)
    requires
        records@.len() > 1,
    ensures
        current_of(Ok(records)) == Err::<Ipv4Address, ProviderQueryError>(
            ProviderQueryError::AmbiguousRecordSet,
        ),
        decision_of(machine_ip, current_of(Ok(records))) == Decision::Settled(
            ReconcileOutcome::QueryFailed(ProviderQueryError::AmbiguousRecordSet),
        ),
        updates_of(machine_ip, current_of(Ok(records))) == Seq::<Ipv4Address>::empty(),
{
}

/// A zone that answers with no record publishes the blank address.
pub proof fn lemma_no_record_is_blank(records: Vec<String>)
    requires
        records@.len() == 0,
    ensures
        current_of(Ok(records)) == Ok::<Ipv4Address, ProviderQueryError>(blank_ip()),
{
}

/// Publishing an address twice leaves the zone as publishing it once does,
/// and a zone that holds what the upsert put there answers the next query
/// with that address, so that the domain then counts as up to date.
pub proof fn lemma_upsert_is_idempotent(
    aws: AwsView,
    ip: Ipv4Address,
    before: Seq<Seq<char>>,
    records: Vec<String>,
)
    requires
        record_views(records@) == aws.upsert(ip).changes[0].applied(before),
    ensures
        aws.upsert(ip).changes.len() == 1,
        aws.upsert(ip).changes[0].applied(aws.upsert(ip).changes[0].applied(before))
            == aws.upsert(ip).changes[0].applied(before),
        current_of(Ok(records)) == Ok::<Ipv4Address, ProviderQueryError>(ip),
        decision_of(ip, current_of(Ok(records))) == Decision::Settled(ReconcileOutcome::UpToDate),
{
    lemma_parsed_text(ip);
    assert(record_views(records@).len() == 1);
    assert(record_views(records@)[0] == records@[0]@);
}

} // verus!
