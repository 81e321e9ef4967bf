//! The enumerator's deciding half. The host performs the two-phase
//! enumeration against the service registry: a first call with no buffer
//! that only reports the byte count needed, then the authoritative call
//! with a buffer of exactly that size, and one status query per decoded
//! record. What those privileged calls returned comes here as a
//! `ServiceListing`, and this module turns it into the final record list
//! or the single aggregate error.

use vstd::prelude::*;

use crate::classify::spec_classify_type;
use crate::classify::spec_eligible;
use crate::classify::spec_state_label;
use crate::classify::spec_type_label;
use crate::classify::category_text;
use crate::classify::state_text;
use crate::decode::decode_service_text;
use crate::decode::spec_decoded_text;
use crate::decode::spec_opt_units;
use crate::status::ServiceSnapshot;
use crate::status::classify_status;

verus! {

/// One external-facing service record: created fresh on every
/// enumeration, immutable once returned.
#[derive(Clone, Debug)]
pub struct ServiceInfo {
    /// Unique stable identifier, assigned by the operating system.
    pub name: String,
    /// Human label; may duplicate across services.
    pub display_name: String,
    /// Lifecycle label of the service's current state.
    pub status: String,
    /// Category label of the service's type.
    pub service_type: String,
    /// Whether control operations may touch this service.
    pub can_interact: bool,
}

/// One record of the authoritative enumeration call, together with the
/// outcome of the status query made under the record's decoded name: the
/// raw type bitmask and state code that the query read, or the text of
/// the error that ended it.
pub struct ServiceEntry {
    /// The record's decoded service name.
    pub name: String,
    /// The record's display name field, as wide code units, when the
    /// native field was present.
    pub display_units: Option<Vec<u16>>,
    /// The status query's outcome for this record.
    pub query: Result<(u32, u32), String>,
}

/// Everything the host's enumeration calls came back with.
pub enum ServiceListing {
    /// The service registry could not be opened; the underlying error
    /// text follows.
    ManagerUnavailable { detail: String },
    /// The authoritative enumeration call failed; its error text is
    /// surfaced unchanged.
    FetchFailed { message: String },
    /// The enumeration succeeded and each record's status query was
    /// attempted, in registry order.
    Entries { entries: Vec<ServiceEntry> },
}

/// The view of an optional owned unit vector.
pub open spec fn spec_owned_units(units: Option<Vec<u16>>) -> Option<Seq<u16>> {
    match units {
        Option::None => Option::None,
        Option::Some(u) => Option::Some(u@),
    }
}

/// What a finished record says, given the facts it was built from: the
/// decoded name, the display field's decoding with the placeholder rule
/// applied, and the classifier's labels and eligibility on the raw
/// status.
pub open spec fn spec_record_matches(
    record: ServiceInfo,
    name: Seq<char>,
    display_units: Option<Seq<u16>>,
    raw_type: u32,
    raw_state: u32,
) -> bool {
    &&& record.name@ == name
    &&& record.display_name@ == spec_decoded_text(display_units)
    &&& record.status@ == spec_state_label(raw_state)
    &&& record.service_type@ == spec_type_label(raw_type)
    &&& record.can_interact == spec_eligible(spec_classify_type(raw_type))
}

/// The record assembled from one successfully queried entry.
pub open spec fn spec_entry_record(record: ServiceInfo, entry: ServiceEntry) -> bool {
    &&& entry.query is Ok
    &&& spec_record_matches(
        record,
        entry.name@,
        spec_owned_units(entry.display_units),
        entry.query->Ok_0.0,
        entry.query->Ok_0.1,
    )
}

/// Whether every entry's status query succeeded.
pub open spec fn spec_all_queries_ok(entries: Seq<ServiceEntry>) -> bool {
    forall|i: int| 0 <= i < entries.len() ==> (#[trigger] entries[i].query) is Ok
}

/// The aggregate error text when the registry cannot be opened.
pub open spec fn spec_manager_open_message(detail: Seq<char>) -> Seq<char> {
    "Failed to open service manager: "@ + detail
}

/// Relies on std's format macro to join two text fragments.
#[verifier::external_body]
fn concat_text(prefix: &str, rest: &str) -> (joined: String)
    ensures
        joined@ == prefix@ + rest@,
{
    format!("{}{}", prefix, rest)
}

/// The buffer length for the authoritative enumeration call: exactly the
/// byte count the sizing call reported, no more and no less. The sizing
/// call's own size-needed failure is part of the protocol and not an
/// error.
pub fn fetch_buffer_len(bytes_needed: u32) -> (len: usize)
    ensures
        len == bytes_needed as usize,
{
    bytes_needed as usize
}

/// The error text reported when the service registry could not be opened
/// for enumeration.
pub fn manager_open_error(detail: &str) -> (message: String)
    ensures
        message@ == spec_manager_open_message(detail@),
{
    concat_text("Failed to open service manager: ", detail)
}

/// Assemble one record from its entry's decoded name, native display
/// field, and classified snapshot.
pub fn build_service_record(
    name: String,
    display_units: Option<&Vec<u16>>,
    snapshot: &ServiceSnapshot,
) -> (record: ServiceInfo)
    requires
        snapshot.wf(),
    ensures
        spec_record_matches(
            record,
            name@,
            spec_opt_units(display_units),
            snapshot.raw_type,
            snapshot.raw_state,
        ),
{
    ServiceInfo {
        name,
        display_name: decode_service_text(display_units),
        status: state_text(&snapshot.state),
        service_type: category_text(&snapshot.category),
        can_interact: snapshot.can_interact,
    }
}

/// Turn the host's enumeration outcome into the full record list, in the
/// order the registry returned records, or into the single aggregate
/// error. A registry that cannot be opened is reported with its own
/// prefixed message; a failed authoritative call and a failed status
/// query are surfaced with their error text unchanged, the latter ending
/// the whole enumeration at the first failing entry. Zero services is a
/// success with an empty list, never an error.
pub fn enumerate_services(listing: ServiceListing) -> (outcome: Result<
    Vec<ServiceInfo>,
    String,
>)
    ensures
        listing matches ServiceListing::ManagerUnavailable { detail } ==> (outcome matches Err(
            message,
        ) && message@ == spec_manager_open_message(detail@)),
        listing matches ServiceListing::FetchFailed { message } ==> (outcome matches Err(reported)
            && reported == message),
        listing matches ServiceListing::Entries { entries } ==> {
            &&& (outcome is Ok <==> spec_all_queries_ok(entries@))
            &&& (outcome matches Ok(records) ==> records@.len() == entries@.len() && forall|
                i: int,
            |
                0 <= i < entries@.len() ==> spec_entry_record(
                    #[trigger] records@[i],
                    entries@[i],
                ))
            &&& (outcome matches Err(message) ==> exists|j: int|
                {
                    &&& 0 <= j < entries@.len()
                    &&& (#[trigger] entries@[j].query) is Err
                    &&& forall|k: int| 0 <= k < j ==> (#[trigger] entries@[k].query) is Ok
                    &&& message@ == entries@[j].query->Err_0@
                })
        },
        listing matches ServiceListing::Entries { entries } && entries@.len() == 0 ==> (
        outcome matches Ok(records) && records@.len() == 0),
{
    match listing {
        ServiceListing::ManagerUnavailable { detail } => Err(
            manager_open_error(detail.as_str()),
        ),
        ServiceListing::FetchFailed { message } => Err(message),
        ServiceListing::Entries { entries } => {
            let mut records: Vec<ServiceInfo> = Vec::new();
            let mut i: usize = 0;
            while i < entries.len()
                invariant
                    listing matches ServiceListing::Entries { entries: all } && all@
                        == entries@,
                    0 <= i <= entries@.len(),
                    records@.len() == i,
                    forall|k: int| 0 <= k < i ==> (#[trigger] entries@[k].query) is Ok,
                    forall|k: int|
                        0 <= k < i ==> spec_entry_record(#[trigger] records@[k], entries@[k]),
                decreases entries@.len() - i,
            {
                let entry = &entries[i];
                match &entry.query {
                    Result::Err(message) => {
                        proof {
                            assert(entries@[i as int].query is Err);
                            assert(!spec_all_queries_ok(entries@));
                        }
                        return Err(message.clone());
                    },
                    Result::Ok(raw) => {
                        let snapshot = classify_status(raw.0, raw.1);
                        let record = build_service_record(
                            entry.name.clone(),
                            entry.display_units.as_ref(),
                            &snapshot,
                        );
                        records.push(record);
                    },
                }
                i = i + 1;
            }
            Ok(records)
        },
    }
}

} // verus!
