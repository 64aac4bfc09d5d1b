//! Decoding the reply's body: from the nested envelope
//! `data.viewer.zones[..].httpRequestsAdaptiveGroups[..]` to the flat list of
//! metrics of the first zone.

use vstd::prelude::*;
use crate::error::{FetchError, FetchFailure};
use crate::json::{elements, json_model, member, parse, parsed_json, unsigned, JsonModel};
use crate::metric::CfStatusMetric;

verus! {

/// The member of the object `doc` under `key`; `None` where `doc` is no
/// object or has no such member.
pub open spec fn field(doc: JsonModel, key: Seq<char>) -> Option<JsonModel> {
    match doc {
        JsonModel::Object(members) => if members.contains_key(key) {
            Some(members[key])
        } else {
            None
        },
        _ => None,
    }
}

/// The metric that one group denotes: its `count` and its
/// `dimensions.edgeResponseStatus`, both unsigned integers, the status one
/// that fits 16 bits. Members beyond these are ignored.
pub open spec fn group_metric(group: JsonModel) -> Option<CfStatusMetric> {
    match (field(group, "count"@), field(group, "dimensions"@)) {
        (Some(JsonModel::Unsigned(count)), Some(dimensions)) => match field(
            dimensions,
            "edgeResponseStatus"@,
        ) {
            Some(JsonModel::Unsigned(status)) => if status <= u16::MAX {
                Some(CfStatusMetric { status: status as u16, count })
            } else {
                None
            },
            _ => None,
        },
        _ => None,
    }
}

/// The groups of one zone: the array under `httpRequestsAdaptiveGroups`.
pub open spec fn zone_groups(zone: JsonModel) -> Option<Seq<JsonModel>> {
    match field(zone, "httpRequestsAdaptiveGroups"@) {
        Some(JsonModel::Array(groups)) => Some(groups),
        _ => None,
    }
}

/// The metrics of one zone, group by group and in the groups' order; `None`
/// unless every group denotes a metric.
pub open spec fn zone_metrics(zone: JsonModel) -> Option<Seq<CfStatusMetric>> {
    match zone_groups(zone) {
        Some(groups) => if forall|i: int| 0 <= i < groups.len() ==> group_metric(groups[i]) is Some {
            Some(Seq::new(groups.len(), |i: int| group_metric(groups[i])->0))
        } else {
            None
        },
        None => None,
    }
}

/// The zones of an envelope: the array under `data.viewer.zones`.
pub open spec fn envelope_zones(doc: JsonModel) -> Option<Seq<JsonModel>> {
    match field(doc, "data"@) {
        Some(data) => match field(data, "viewer"@) {
            Some(viewer) => match field(viewer, "zones"@) {
                Some(JsonModel::Array(zones)) => Some(zones),
                _ => None,
            },
            None => None,
        },
        None => None,
    }
}

/// Whether `doc` has the shape of an envelope: the zones are there and each
/// of them, not only the first, has well-formed groups.
pub open spec fn is_envelope(doc: JsonModel) -> bool {
    envelope_zones(doc) matches Some(zones) && forall|i: int|
        0 <= i < zones.len() ==> zone_metrics(zones[i]) is Some
}

/// What a document decodes to: a decode failure unless it is an envelope, a
/// failure for want of zones if it lists none, and else the metrics of its
/// first zone. An `errors` member is not looked at.
pub open spec fn decoded(doc: JsonModel) -> Result<Seq<CfStatusMetric>, FetchFailure> {
    if !is_envelope(doc) {
        Err(FetchFailure::Decode)
    } else if envelope_zones(doc)->0.len() == 0 {
        Err(FetchFailure::EmptyZones)
    } else {
        Ok(zone_metrics(envelope_zones(doc)->0[0])->0)
    }
}

/// What a body decodes to: a decode failure where it is no JSON text, and
/// else what its document decodes to.
pub open spec fn body_outcome(body: Seq<u8>) -> Result<Seq<CfStatusMetric>, FetchFailure> {
    match parsed_json(body) {
        Some(doc) => decoded(doc),
        None => Err(FetchFailure::Decode),
    }
}

/// What decodes at all decodes to one metric per group of the first zone,
/// each the metric of its group, in the groups' order.
pub proof fn lemma_decoded_follows_first_zone(doc: JsonModel)
    requires
        decoded(doc) is Ok,
    ensures
        envelope_zones(doc) matches Some(zones) && zones.len() > 0 && (zone_groups(zones[0])
            matches Some(groups) && decoded(doc)->Ok_0.len() == groups.len() && forall|i: int|
            0 <= i < groups.len() ==> group_metric(groups[i]) == Some(
                #[trigger] decoded(doc)->Ok_0[i],
            )),
{
    let zones = envelope_zones(doc)->0;
    assert(zone_metrics(zones[0]) is Some);
}

/// An envelope that lists no zone fails for want of zones, whatever else it
/// holds.
pub proof fn lemma_no_zones_is_an_error(doc: JsonModel)
    requires
        envelope_zones(doc) == Some(Seq::<JsonModel>::empty()),
    ensures
        decoded(doc) == Err::<Seq<CfStatusMetric>, FetchFailure>(FetchFailure::EmptyZones),
{
}

/// Decoding a body fails only as a decode failure or for want of zones.
pub proof fn lemma_body_never_fails_in_transport(body: Seq<u8>)
    ensures
        body_outcome(body) matches Err(failure) ==> failure is Decode || failure is EmptyZones,
{
}

/// A result of the library as its model: the metrics as a sequence, the
/// error by its view.
pub open spec fn outcome_view(outcome: Result<Vec<CfStatusMetric>, FetchError>) -> Result<
    Seq<CfStatusMetric>,
    FetchFailure,
> {
    match outcome {
        Ok(metrics) => Ok(metrics@),
        Err(error) => Err(error@),
    }
}

/// Reads one group.
pub fn decode_group(group: &serde_json::Value) -> (metric: Option<CfStatusMetric>)
    ensures
        metric == group_metric(json_model(*group)),
{
    let count = match member(group, "count") {
        Some(value) => unsigned(value),
        None => None,
    };
    let status = match member(group, "dimensions") {
        Some(dimensions) => match member(dimensions, "edgeResponseStatus") {
            Some(value) => unsigned(value),
            None => None,
        },
        None => None,
    };
    match (count, status) {
        (Some(count), Some(status)) => if status <= 65535 {
            Some(CfStatusMetric { status: status as u16, count })
        } else {
            None
        },
        _ => None,
    }
}

/// Reads the groups of one zone, in their order.
pub fn decode_zone(zone: &serde_json::Value) -> (metrics: Option<Vec<CfStatusMetric>>)
    ensures
        match metrics {
            Some(list) => zone_metrics(json_model(*zone)) == Some(list@),
            None => zone_metrics(json_model(*zone)) is None,
        },
{
    let groups = match member(zone, "httpRequestsAdaptiveGroups") {
        Some(value) => match elements(value) {
            Some(groups) => groups,
            None => return None,
        },
        None => return None,
    };
    let ghost models = zone_groups(json_model(*zone))->0;
    let mut list: Vec<CfStatusMetric> = Vec::new();
    let mut i: usize = 0;
    while i < groups.len()
        invariant
            i <= groups.len(),
            zone_groups(json_model(*zone)) == Some(models),
            models.len() == groups.len(),
            forall|k: int| 0 <= k < models.len() ==> models[k] == json_model(groups@[k]),
            list@.len() == i,
            forall|k: int| 0 <= k < i ==> group_metric(models[k]) == Some(#[trigger] list@[k]),
        decreases groups.len() - i,
    {
        match decode_group(&groups[i]) {
            Some(metric) => list.push(metric),
            None => {
                assert(group_metric(models[i as int]) is None);
                return None;
            },
        }
        i += 1;
    }
    assert forall|k: int| 0 <= k < models.len() implies group_metric(models[k]) is Some by {
        assert(group_metric(models[k]) == Some(list@[k]));
    }
    assert(list@ =~= Seq::new(models.len(), |k: int| group_metric(models[k])->0));
    Some(list)
}

/// Flattens an envelope into the metrics of its first zone.
///
/// The whole envelope has to be well-formed, its later zones too; then the
/// metrics are those of the first zone, one per group and in the groups'
/// order, with nothing sorted, merged or dropped.
pub fn decode_envelope(doc: &serde_json::Value) -> (outcome: Result<Vec<CfStatusMetric>, FetchError>)
    ensures
        outcome_view(outcome) == decoded(json_model(*doc)),
        outcome matches Ok(metrics) ==> (zone_groups(envelope_zones(json_model(*doc))->0[0])
            matches Some(groups) && metrics@.len() == groups.len()),
{
    let data = match member(doc, "data") {
        Some(value) => value,
        None => return Err(FetchError::Decode),
    };
    let viewer = match member(data, "viewer") {
        Some(value) => value,
        None => return Err(FetchError::Decode),
    };
    let zones = match member(viewer, "zones") {
        Some(value) => match elements(value) {
            Some(zones) => zones,
            None => return Err(FetchError::Decode),
        },
        None => return Err(FetchError::Decode),
    };
    let ghost models = envelope_zones(json_model(*doc))->0;
    let mut first: Option<Vec<CfStatusMetric>> = None;
    let mut i: usize = 0;
    while i < zones.len()
        invariant
            i <= zones.len(),
            envelope_zones(json_model(*doc)) == Some(models),
            models.len() == zones.len(),
            forall|k: int| 0 <= k < models.len() ==> models[k] == json_model(zones@[k]),
            forall|k: int| 0 <= k < i ==> zone_metrics(models[k]) is Some,
            i == 0 ==> first is None,
            i > 0 ==> (first matches Some(list) && zone_metrics(models[0]) == Some(list@)),
        decreases zones.len() - i,
    {
        match decode_zone(&zones[i]) {
            Some(list) => if i == 0 {
                first = Some(list);
            },
            None => {
                assert(zone_metrics(models[i as int]) is None);
                return Err(FetchError::Decode);
            },
        }
        i += 1;
    }
    match first {
        Some(list) => Ok(list),
        None => Err(FetchError::EmptyZones),
    }
}

/// Decodes a reply's body: parses it as JSON and flattens the envelope.
pub fn decode_body(body: &[u8]) -> (outcome: Result<Vec<CfStatusMetric>, FetchError>)
    ensures
        outcome_view(outcome) == body_outcome(body@),
{
    match parse(body) {
        Ok(doc) => decode_envelope(&doc),
        Err(_) => Err(FetchError::Decode),
    }
}

} // verus!
