//! The notification path: the outer delivery envelope yields an embedded
//! message string, which is itself decoded a second time as JSON into the
//! alarm details. The double decode is load-bearing — the provider
//! double-encodes payloads — so the two passes are separate functions, and a
//! failure of the second pass is an ordinary JSON decode error. Alarm-state
//! fields go through a string-then-registry adapter: a non-string value there
//! is a decode error, a string outside the domain a registry miss, and both
//! surface as the JSON error kind.
use vstd::prelude::*;

use crate::digits::dec_u8;
use crate::digits::parse_u8_decimal;
use crate::errors::CloudwatchNotifierError;
use crate::errors::JsonError;
use crate::errors::enum_error_render;
use crate::json::JsonSpecValue;
use crate::json::JsonValue;
use crate::json::arr_field;
use crate::json::deep_view_arr;
use crate::json::deep_view_obj;
use crate::json::get_array_field;
use crate::json::get_field;
use crate::json::get_number_field;
use crate::json::get_string_field;
use crate::json::json_of;
use crate::json::lemma_deep_view_arr;
use crate::json::num_field;
use crate::json::obj_get;
use crate::json::parse_json;
use crate::json::str_field;
use crate::registry::AlarmState;
use crate::registry::alarm_state_mapping;
use crate::registry::alarm_state_table;
use crate::registry::lookup;
use crate::registry::table_tags;
use crate::registry::tag_lookup;

verus! {

/// The outer notification envelope: it exists only to carry the embedded
/// message string to the second decode pass.
#[derive(Debug, Clone)]
pub struct Notification {
    pub message: String,
}

/// One dimension of the monitored metric, in delivery order.
#[derive(Debug, Clone)]
pub struct Dimension {
    pub name: String,
    pub value: String,
}

pub struct DimensionView {
    pub name: Seq<char>,
    pub value: Seq<char>,
}

impl View for Dimension {
    type V = DimensionView;

    open spec fn view(&self) -> DimensionView {
        DimensionView { name: self.name@, value: self.value@ }
    }
}

/// The trigger of an alarm. The threshold is carried as the decimal
/// rendering of the delivered number.
#[derive(Debug, Clone)]
pub struct AlarmTrigger {
    pub metric_name: String,
    pub namespace: String,
    pub statistic: String,
    pub dimensions: Vec<Dimension>,
    pub op: String,
    pub period: u8,
    pub nb_periods: u8,
    pub threshold: String,
}

pub struct AlarmTriggerView {
    pub metric_name: Seq<char>,
    pub namespace: Seq<char>,
    pub statistic: Seq<char>,
    pub dimensions: Seq<DimensionView>,
    pub op: Seq<char>,
    pub period: u8,
    pub nb_periods: u8,
    pub threshold: Seq<char>,
}

pub open spec fn dims_view(s: Seq<Dimension>) -> Seq<DimensionView> {
    s.map_values(|d: Dimension| d@)
}

impl View for AlarmTrigger {
    type V = AlarmTriggerView;

    open spec fn view(&self) -> AlarmTriggerView {
        AlarmTriggerView {
            metric_name: self.metric_name@,
            namespace: self.namespace@,
            statistic: self.statistic@,
            dimensions: dims_view(self.dimensions@),
            op: self.op@,
            period: self.period,
            nb_periods: self.nb_periods,
            threshold: self.threshold@,
        }
    }
}

/// One alarm state transition, decoded from the embedded message.
#[derive(Debug, Clone)]
pub struct AlarmDetails {
    pub name: String,
    pub description: String,
    pub new_state: AlarmState,
    pub reason: String,
    pub timestamp: String,
    pub previous_state: AlarmState,
    pub trigger: AlarmTrigger,
}

pub struct AlarmDetailsView {
    pub name: Seq<char>,
    pub description: Seq<char>,
    pub new_state: AlarmState,
    pub reason: Seq<char>,
    pub timestamp: Seq<char>,
    pub previous_state: AlarmState,
    pub trigger: AlarmTriggerView,
}

impl View for AlarmDetails {
    type V = AlarmDetailsView;

    open spec fn view(&self) -> AlarmDetailsView {
        AlarmDetailsView {
            name: self.name@,
            description: self.description@,
            new_state: self.new_state,
            reason: self.reason@,
            timestamp: self.timestamp@,
            previous_state: self.previous_state,
            trigger: self.trigger@,
        }
    }
}

/// The alarm state denoted by a JSON value: a string routed through the
/// alarm-state registry; anything else denotes nothing.
pub open spec fn state_of(v: JsonSpecValue) -> Option<AlarmState> {
    match v {
        JsonSpecValue::Str(s) => tag_lookup(alarm_state_table(), s),
        _ => None,
    }
}

pub open spec fn state_field(fields: Seq<(Seq<char>, JsonSpecValue)>, key: Seq<char>) -> Option<
    AlarmState,
> {
    match obj_get(fields, key) {
        Some(v) => state_of(v),
        None => None,
    }
}

/// The string-then-registry adapter for alarm-state fields embedded in JSON.
/// A non-string value is a decode error; a string outside the domain is a
/// registry miss rendered with the full allowed-value set.
pub fn decode_alarm_state(v: &JsonValue) -> (r: Result<AlarmState, JsonError>)
    ensures
        (r is Ok) == (state_of(v.deep_view()) is Some),
        r matches Ok(st) ==> state_of(v.deep_view()) == Some(st),
        r matches Err(e) ==> {
            &&& e.path is None
            &&& e.message@ == (match v.deep_view() {
                JsonSpecValue::Str(s) => enum_error_render(s, table_tags(alarm_state_table())),
                _ => "AlarmState expects a string"@,
            })
        },
{
    match v {
        JsonValue::Str(s) => match lookup(alarm_state_mapping(), s.as_str()) {
            Ok(st) => Ok(st),
            Err(pe) => {
                let message = pe.render();
                Err(JsonError { message, path: None })
            },
        },
        _ => Err(JsonError { message: String::from_str("AlarmState expects a string"), path: None }),
    }
}

/// Reads the required alarm-state field `key` through the adapter.
pub fn get_state_field(fields: &Vec<(String, JsonValue)>, key: &str) -> (r: Result<
    AlarmState,
    JsonError,
>)
    ensures
        (r is Ok) == (state_field(deep_view_obj(fields@), key@) is Some),
        r matches Ok(st) ==> state_field(deep_view_obj(fields@), key@) == Some(st),
{
    match get_field(fields, key) {
        Some(v) => decode_alarm_state(v),
        None => Err(
            JsonError {
                message: String::from_str("missing field"),
                path: Some(String::from_str(key)),
            },
        ),
    }
}

/// The dimension denoted by a JSON value: an object with string fields
/// "name" and "value".
pub open spec fn dimension_of(j: JsonSpecValue) -> Option<DimensionView> {
    match j {
        JsonSpecValue::Obj(f) => match (str_field(f, "name"@), str_field(f, "value"@)) {
            (Some(n), Some(v)) => Some(DimensionView { name: n, value: v }),
            _ => None,
        },
        _ => None,
    }
}

/// The dimension list denoted by a JSON array: every element must denote a
/// dimension, and source order is preserved.
pub open spec fn dimensions_of(elems: Seq<JsonSpecValue>) -> Option<Seq<DimensionView>>
    decreases elems.len(),
{
    if elems.len() == 0 {
        Some(Seq::empty())
    } else {
        match (dimension_of(elems[0]), dimensions_of(elems.drop_first())) {
            (Some(d), Some(rest)) => Some(seq![d] + rest),
            _ => None,
        }
    }
}

pub proof fn lemma_dimensions_of(elems: Seq<JsonSpecValue>)
    ensures
        (dimensions_of(elems) is Some) == (forall|k: int|
            0 <= k < elems.len() ==> #[trigger] dimension_of(elems[k]) is Some),
        dimensions_of(elems) matches Some(ds) ==> ds.len() == elems.len() && (forall|k: int|
            0 <= k < elems.len() ==> Some(ds[k]) == #[trigger] dimension_of(elems[k])),
    decreases elems.len(),
{
    if elems.len() > 0 {
        lemma_dimensions_of(elems.drop_first());
        assert(forall|k: int|
            1 <= k < elems.len() ==> #[trigger] dimension_of(elems[k]) == dimension_of(
                elems.drop_first()[k - 1],
            ));
    }
}

/// Reads one dimension out of a decoded JSON document.
pub fn extract_dimension(v: &JsonValue) -> (r: Result<Dimension, JsonError>)
    ensures
        (r is Ok) == (dimension_of(v.deep_view()) is Some),
        r matches Ok(d) ==> Some(d@) == dimension_of(v.deep_view()),
{
    match v {
        JsonValue::Object(fields) => {
            let name = get_string_field(fields, "name")?;
            let value = get_string_field(fields, "value")?;
            Ok(Dimension { name, value })
        },
        _ => Err(JsonError { message: String::from_str("expected a JSON object"), path: None }),
    }
}

/// Reads the dimension list out of a decoded JSON array, in source order.
pub fn extract_dimensions(arr: &Vec<JsonValue>) -> (r: Result<Vec<Dimension>, JsonError>)
    ensures
        (r is Ok) == (dimensions_of(deep_view_arr(arr@)) is Some),
        r matches Ok(ds) ==> Some(dims_view(ds@)) == dimensions_of(deep_view_arr(arr@)),
{
    let ghost dv = deep_view_arr(arr@);
    proof {
        lemma_deep_view_arr(arr@);
        lemma_dimensions_of(dv);
    }
    let mut out: Vec<Dimension> = Vec::new();
    let mut i: usize = 0;
    while i < arr.len()
        invariant
            i <= arr@.len(),
            dv == deep_view_arr(arr@),
            dv.len() == arr@.len(),
            forall|k: int| 0 <= k < arr@.len() ==> #[trigger] dv[k] == arr@[k].deep_view(),
            out@.len() == i,
            forall|k: int| 0 <= k < i ==> #[trigger] dimension_of(dv[k]) == Some(out@[k]@),
        decreases arr@.len() - i,
    {
        match extract_dimension(&arr[i]) {
            Ok(d) => {
                out.push(d);
            },
            Err(e) => {
                proof {
                    lemma_dimensions_of(dv);
                    assert(dimension_of(dv[i as int]) is None);
                }
                return Err(e);
            },
        }
        i += 1;
    }
    proof {
        lemma_dimensions_of(dv);
        assert(forall|k: int| 0 <= k < dv.len() ==> #[trigger] dimension_of(dv[k]) is Some);
        let ds = dimensions_of(dv)->Some_0;
        assert forall|k: int| 0 <= k < out@.len() implies dims_view(out@)[k] == ds[k] by {
            assert(dimension_of(dv[k]) == Some(out@[k]@));
            assert(Some(ds[k]) == dimension_of(dv[k]));
        }
        assert(dims_view(out@) =~= ds);
    }
    Ok(out)
}

pub open spec fn dims_of_field(fields: Seq<(Seq<char>, JsonSpecValue)>) -> Option<
    Seq<DimensionView>,
> {
    match arr_field(fields, "Dimensions"@) {
        Some(a) => dimensions_of(a),
        None => None,
    }
}

pub open spec fn u8_field(fields: Seq<(Seq<char>, JsonSpecValue)>, key: Seq<char>) -> Option<u8> {
    match num_field(fields, key) {
        Some(lex) => dec_u8(lex),
        None => None,
    }
}

/// The trigger denoted by the fields of a JSON object: every declared field
/// is required, the periods must be decimal numbers that fit in a byte, and
/// the threshold keeps its delivered decimal rendering.
pub open spec fn trigger_of_fields(f: Seq<(Seq<char>, JsonSpecValue)>) -> Option<AlarmTriggerView> {
    if {
        &&& str_field(f, "MetricName"@) is Some
        &&& str_field(f, "Namespace"@) is Some
        &&& str_field(f, "Statistic"@) is Some
        &&& dims_of_field(f) is Some
        &&& str_field(f, "ComparisonOperator"@) is Some
        &&& u8_field(f, "Period"@) is Some
        &&& u8_field(f, "EvaluationPeriods"@) is Some
        &&& num_field(f, "Threshold"@) is Some
    } {
        Some(
            AlarmTriggerView {
                metric_name: str_field(f, "MetricName"@)->Some_0,
                namespace: str_field(f, "Namespace"@)->Some_0,
                statistic: str_field(f, "Statistic"@)->Some_0,
                dimensions: dims_of_field(f)->Some_0,
                op: str_field(f, "ComparisonOperator"@)->Some_0,
                period: u8_field(f, "Period"@)->Some_0,
                nb_periods: u8_field(f, "EvaluationPeriods"@)->Some_0,
                threshold: num_field(f, "Threshold"@)->Some_0,
            },
        )
    } else {
        None
    }
}

pub open spec fn trigger_of(j: JsonSpecValue) -> Option<AlarmTriggerView> {
    match j {
        JsonSpecValue::Obj(f) => trigger_of_fields(f),
        _ => None,
    }
}

/// Reads the trigger out of a decoded JSON document.
pub fn extract_trigger(v: &JsonValue) -> (r: Result<AlarmTrigger, JsonError>)
    ensures
        (r is Ok) == (trigger_of(v.deep_view()) is Some),
        r matches Ok(t) ==> Some(t@) == trigger_of(v.deep_view()),
{
    match v {
        JsonValue::Object(fields) => {
            let metric_name = get_string_field(fields, "MetricName")?;
            let namespace = get_string_field(fields, "Namespace")?;
            let statistic = get_string_field(fields, "Statistic")?;
            let dims_arr = get_array_field(fields, "Dimensions")?;
            let dimensions = extract_dimensions(dims_arr)?;
            let op = get_string_field(fields, "ComparisonOperator")?;
            let period_lex = get_number_field(fields, "Period")?;
            let period = match parse_u8_decimal(period_lex.as_str()) {
                Some(p) => p,
                None => {
                    return Err(
                        JsonError {
                            message: String::from_str("expected a small unsigned integer"),
                            path: Some(String::from_str("Period")),
                        },
                    );
                },
            };
            let nb_periods_lex = get_number_field(fields, "EvaluationPeriods")?;
            let nb_periods = match parse_u8_decimal(nb_periods_lex.as_str()) {
                Some(p) => p,
                None => {
                    return Err(
                        JsonError {
                            message: String::from_str("expected a small unsigned integer"),
                            path: Some(String::from_str("EvaluationPeriods")),
                        },
                    );
                },
            };
            let threshold = get_number_field(fields, "Threshold")?;
            Ok(
                AlarmTrigger {
                    metric_name,
                    namespace,
                    statistic,
                    dimensions,
                    op,
                    period,
                    nb_periods,
                    threshold,
                },
            )
        },
        _ => Err(JsonError { message: String::from_str("expected a JSON object"), path: None }),
    }
}

pub open spec fn trig_field(fields: Seq<(Seq<char>, JsonSpecValue)>) -> Option<AlarmTriggerView> {
    match obj_get(fields, "Trigger"@) {
        Some(tj) => trigger_of(tj),
        None => None,
    }
}

/// The alarm details denoted by the fields of a JSON object: every declared
/// field is required, with no defaulting.
pub open spec fn alarm_of_fields(f: Seq<(Seq<char>, JsonSpecValue)>) -> Option<AlarmDetailsView> {
    if {
        &&& str_field(f, "AlarmName"@) is Some
        &&& str_field(f, "AlarmDescription"@) is Some
        &&& state_field(f, "NewStateValue"@) is Some
        &&& str_field(f, "NewStateReason"@) is Some
        &&& str_field(f, "StateChangeTime"@) is Some
        &&& state_field(f, "OldStateValue"@) is Some
        &&& trig_field(f) is Some
    } {
        Some(
            AlarmDetailsView {
                name: str_field(f, "AlarmName"@)->Some_0,
                description: str_field(f, "AlarmDescription"@)->Some_0,
                new_state: state_field(f, "NewStateValue"@)->Some_0,
                reason: str_field(f, "NewStateReason"@)->Some_0,
                timestamp: str_field(f, "StateChangeTime"@)->Some_0,
                previous_state: state_field(f, "OldStateValue"@)->Some_0,
                trigger: trig_field(f)->Some_0,
            },
        )
    } else {
        None
    }
}

pub open spec fn alarm_of(j: JsonSpecValue) -> Option<AlarmDetailsView> {
    match j {
        JsonSpecValue::Obj(f) => alarm_of_fields(f),
        _ => None,
    }
}

/// Reads the alarm details out of a decoded JSON document.
pub fn extract_alarm(v: &JsonValue) -> (r: Result<AlarmDetails, JsonError>)
    ensures
        (r is Ok) == (alarm_of(v.deep_view()) is Some),
        r matches Ok(a) ==> Some(a@) == alarm_of(v.deep_view()),
{
    match v {
        JsonValue::Object(fields) => {
            let name = get_string_field(fields, "AlarmName")?;
            let description = get_string_field(fields, "AlarmDescription")?;
            let new_state = get_state_field(fields, "NewStateValue")?;
            let reason = get_string_field(fields, "NewStateReason")?;
            let timestamp = get_string_field(fields, "StateChangeTime")?;
            let previous_state = get_state_field(fields, "OldStateValue")?;
            let trigger = match get_field(fields, "Trigger") {
                Some(tv) => extract_trigger(tv)?,
                None => {
                    return Err(
                        JsonError {
                            message: String::from_str("missing field"),
                            path: Some(String::from_str("Trigger")),
                        },
                    );
                },
            };
            Ok(
                AlarmDetails {
                    name,
                    description,
                    new_state,
                    reason,
                    timestamp,
                    previous_state,
                    trigger,
                },
            )
        },
        _ => Err(JsonError { message: String::from_str("expected a JSON object"), path: None }),
    }
}

/// The embedded message string denoted by a JSON document: defined exactly
/// when the document is an object whose "Message" field is a string.
pub open spec fn message_of(j: JsonSpecValue) -> Option<Seq<char>> {
    match j {
        JsonSpecValue::Obj(f) => str_field(f, "Message"@),
        _ => None,
    }
}

/// The embedded message denoted by a request body.
pub open spec fn notification_from_body(s: Seq<char>) -> Option<Seq<char>> {
    match json_of(s) {
        Some(j) => message_of(j),
        None => None,
    }
}

/// The alarm details denoted by a request body: the outer decode, the
/// extraction of the embedded message, and the second decode, in that order.
pub open spec fn alarm_from_body(s: Seq<char>) -> Option<AlarmDetailsView> {
    match json_of(s) {
        Some(j) => match message_of(j) {
            Some(m) => match json_of(m) {
                Some(j2) => alarm_of(j2),
                None => None,
            },
            None => None,
        },
        None => None,
    }
}

impl Notification {
    /// Decodes a request body as the outer notification envelope, yielding
    /// the embedded message string.
    pub fn parse(body: &str) -> (r: Result<Notification, CloudwatchNotifierError>)
        ensures
            (r is Ok) == (notification_from_body(body@) is Some),
            r matches Ok(n) ==> Some(n.message@) == notification_from_body(body@),
            r matches Err(e) ==> e matches CloudwatchNotifierError::Json(_),
    {
        match parse_json(body) {
            Ok(v) => match &v {
                JsonValue::Object(fields) => match get_string_field(fields, "Message") {
                    Ok(message) => Ok(Notification { message }),
                    Err(je) => Err(CloudwatchNotifierError::Json(je)),
                },
                _ => Err(
                    CloudwatchNotifierError::Json(
                        JsonError {
                            message: String::from_str("expected a JSON object"),
                            path: None,
                        },
                    ),
                ),
            },
            Err(m) => Err(CloudwatchNotifierError::Json(JsonError { message: m, path: None })),
        }
    }
}

impl AlarmDetails {
    /// Decodes a request body as alarm details: the outer envelope first,
    /// then its embedded message string as JSON again.
    pub fn from_str(body: &str) -> (r: Result<AlarmDetails, CloudwatchNotifierError>)
        ensures
            (r is Ok) == (alarm_from_body(body@) is Some),
            r matches Ok(a) ==> Some(a@) == alarm_from_body(body@),
            r matches Err(e) ==> e matches CloudwatchNotifierError::Json(_),
    {
        let envelope = Notification::parse(body)?;
        match parse_json(envelope.message.as_str()) {
            Ok(v2) => match extract_alarm(&v2) {
                Ok(a) => Ok(a),
                Err(je) => Err(CloudwatchNotifierError::Json(je)),
            },
            Err(m) => Err(CloudwatchNotifierError::Json(JsonError { message: m, path: None })),
        }
    }
}

/// A notification whose embedded message is itself a JSON object of the
/// alarm schema decodes successfully, and the state tags "OK" and "ALARM"
/// map to their variants through the alarm-state registry.
pub proof fn lemma_notification_double_decode(
    body: Seq<char>,
    f: Seq<(Seq<char>, JsonSpecValue)>,
    m: Seq<char>,
    g: Seq<(Seq<char>, JsonSpecValue)>,
)
    ensures
        ({
            &&& json_of(body) == Some(JsonSpecValue::Obj(f))
            &&& str_field(f, "Message"@) == Some(m)
            &&& json_of(m) == Some(JsonSpecValue::Obj(g))
            &&& alarm_of_fields(g) is Some
            &&& obj_get(g, "NewStateValue"@) == Some(JsonSpecValue::Str("OK"@))
            &&& obj_get(g, "OldStateValue"@) == Some(JsonSpecValue::Str("ALARM"@))
        }) ==> {
            &&& alarm_from_body(body) is Some
            &&& alarm_from_body(body)->Some_0.new_state == AlarmState::Okay
            &&& alarm_from_body(body)->Some_0.previous_state == AlarmState::Alarm
        },
{
    reveal_strlit("OK");
    reveal_strlit("ALARM");
    assert("OK"@.len() == 2);
    assert("ALARM"@.len() == 5);
    assert("OK"@ != "ALARM"@);
    crate::registry::lemma_alarm_state_registry_exact("OK"@);
    crate::registry::lemma_alarm_state_registry_exact("ALARM"@);
    if {
        &&& json_of(body) == Some(JsonSpecValue::Obj(f))
        &&& str_field(f, "Message"@) == Some(m)
        &&& json_of(m) == Some(JsonSpecValue::Obj(g))
        &&& alarm_of_fields(g) is Some
        &&& obj_get(g, "NewStateValue"@) == Some(JsonSpecValue::Str("OK"@))
        &&& obj_get(g, "OldStateValue"@) == Some(JsonSpecValue::Str("ALARM"@))
    } {
        assert(message_of(JsonSpecValue::Obj(f)) == Some(m));
        assert(alarm_from_body(body) == alarm_of_fields(g));
        assert(state_field(g, "NewStateValue"@) == tag_lookup(alarm_state_table(), "OK"@));
        assert(state_field(g, "OldStateValue"@) == tag_lookup(alarm_state_table(), "ALARM"@));
        assert(state_field(g, "NewStateValue"@) == Some(AlarmState::Okay));
        assert(state_field(g, "OldStateValue"@) == Some(AlarmState::Alarm));
    }
}

/// A notification whose "Message" field holds a non-string JSON value
/// decodes to nothing on either path.
pub proof fn lemma_notification_message_not_string(
    body: Seq<char>,
    f: Seq<(Seq<char>, JsonSpecValue)>,
    v: JsonSpecValue,
)
    ensures
        ({
            &&& json_of(body) == Some(JsonSpecValue::Obj(f))
            &&& obj_get(f, "Message"@) == Some(v)
            &&& !(v is Str)
        }) ==> notification_from_body(body) is None && alarm_from_body(body) is None,
{
}

/// A notification whose embedded message string is not itself valid JSON
/// yields no alarm details.
pub proof fn lemma_notification_message_not_json(
    body: Seq<char>,
    f: Seq<(Seq<char>, JsonSpecValue)>,
    m: Seq<char>,
)
    ensures
        ({
            &&& json_of(body) == Some(JsonSpecValue::Obj(f))
            &&& str_field(f, "Message"@) == Some(m)
            &&& json_of(m) is None
        }) ==> alarm_from_body(body) is None,
{
}

} // verus!
