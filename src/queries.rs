//! The analytical queries: each is a fixed recipe of builder calls whose
//! result the store then runs against its collection.
//!
//! Decisions where the recipes could be read two ways:
//! - time ranges include their start and exclude their end;
//! - the hourly status counts honour the `armed`, `device` and `plugin`
//!   filters, on the references that an event stores in its metadata;
//! - the search bounds its candidates to `SEARCH_LIMIT` before the
//!   attribute filters run, so it returns those of the first candidates in
//!   the time range that pass the filters, not the first that pass.

use vstd::prelude::*;
use crate::pipeline::{
    bound_of, bound_parses, match_stages, opt_view, FilterValue, FilterValueView, Match, MatchView,
    PipelineBuilder, QueryError, Stage, StageView, stages_view,
};

verus! {

/// How many candidates a search takes from each collection.
pub const SEARCH_LIMIT: i64 = 50;

pub const EVENTS: &'static str = "events";

pub const COMMANDS: &'static str = "commands";

pub const PLUGINS: &'static str = "plugins";

pub const DEVICES: &'static str = "devices";

/// Splits each event's timestamp into its parts and its telemetry map into
/// key/value pairs.
pub const STATS_PROJECT: &'static str = r#"{"$project":{"date":{"$dateToParts":{"date":"$timestamp"}},"data":{"$objectToArray":"$data"}}}"#;

/// One row per telemetry key of each event.
pub const STATS_UNWIND: &'static str = r#"{"$unwind":{"path":"$data"}}"#;

/// Counts the rows of each hour and key, and averages each variant of the
/// telemetry value over the rows that hold that variant.
pub const STATS_GROUP: &'static str = r#"{"$group":{"_id":{"date":{"year":"$date.year","month":"$date.month","day":"$date.day","hour":"$date.hour"},"data":"$data.k"},"total_occurences":{"$count":{}},"float_avg":{"$avg":"$data.v.float_value"},"int_avg":{"$avg":"$data.v.int_value"},"binary_avg":{"$avg":"$data.v.binary_value"}}}"#;

/// Splits each event's timestamp into its parts and keeps its armed flag.
pub const STATUS_PROJECT: &'static str = r#"{"$project":{"date":{"$dateToParts":{"date":"$timestamp"}},"armed":"$metadata.armed"}}"#;

/// Counts the events of each hour and armed flag.
pub const STATUS_GROUP: &'static str = r#"{"$group":{"_id":{"date":{"year":"$date.year","month":"$date.month","day":"$date.day","hour":"$date.hour"},"armed":"$armed"},"count":{"$count":{}}}}"#;

/// Turns each bucket back into a timestamp, its armed flag and its count.
pub const STATUS_RESHAPE: &'static str = r#"{"$project":{"_id":0,"timestamp":{"$dateFromParts":{"year":"$_id.date.year","month":"$_id.date.month","day":"$_id.date.day","hour":"$_id.date.hour"}},"armed":"$_id.armed","count":"$count"}}"#;

/// Newest first.
pub const NEWEST_FIRST: &'static str = r#"{"$sort":{"timestamp":-1}}"#;

/// The two pipelines of a query that reads events and commands.
#[derive(Debug, PartialEq, Eq)]
pub struct PipelinePair {
    pub events: Vec<Stage>,
    pub commands: Vec<Stage>,
}

pub open spec fn bool_filter(key: Seq<char>, v: Option<bool>) -> MatchView {
    MatchView {
        key,
        value: match v {
            Some(b) => Some(FilterValueView::Bool(b)),
            None => None,
        },
    }
}

pub open spec fn str_filter(key: Seq<char>, v: Option<Seq<char>>) -> MatchView {
    MatchView {
        key,
        value: match v {
            Some(s) => Some(FilterValueView::Str(s)),
            None => None,
        },
    }
}

pub open spec fn lookup_view(from: &str, local: &str, foreign: &str, out: &str) -> StageView {
    StageView::Lookup { from: from@, local_field: local@, foreign_field: foreign@, as_field: out@ }
}

/// Unarmed events, one row per telemetry key, grouped by hour and key.
pub open spec fn event_statistics_spec() -> Seq<StageView> {
    match_stages(seq![bool_filter("metadata.armed"@, Some(false))], None, None) + seq![
        StageView::Custom(STATS_PROJECT@),
        StageView::Custom(STATS_UNWIND@),
        StageView::Custom(STATS_GROUP@),
    ]
}

pub open spec fn status_filters(
    armed: Option<bool>,
    device: Option<Seq<char>>,
    plugin: Option<Seq<char>>,
) -> Seq<MatchView> {
    seq![
        bool_filter("metadata.armed"@, armed),
        str_filter("metadata.device_id"@, device),
        str_filter("metadata.plugin_id"@, plugin),
    ]
}

/// Events in the range that pass the filters, counted by hour and armed flag.
pub open spec fn count_status_time_spec(
    start: Option<i64>,
    end: Option<i64>,
    armed: Option<bool>,
    device: Option<Seq<char>>,
    plugin: Option<Seq<char>>,
) -> Seq<StageView> {
    match_stages(status_filters(armed, device, plugin), start, end) + seq![
        StageView::Custom(STATUS_PROJECT@),
        StageView::Custom(STATUS_GROUP@),
        StageView::Custom(STATUS_RESHAPE@),
    ]
}

/// The `n` newest events, with their plugin and device joined in as arrays.
pub open spec fn last_n_events_spec(n: i64) -> Seq<StageView> {
    seq![
        StageView::Custom(NEWEST_FIRST@),
        StageView::Limit(n),
        lookup_view(PLUGINS, "metadata.plugin_id", "_id", "plugin"),
        lookup_view(DEVICES, "metadata.device_id", "_id", "device"),
    ]
}

/// The `n` newest commands, with their plugin joined in as an array.
pub open spec fn last_n_commands_spec(n: i64) -> Seq<StageView> {
    seq![
        StageView::Custom(NEWEST_FIRST@),
        StageView::Limit(n),
        lookup_view(PLUGINS, "metadata.plugin_id", "_id", "plugin"),
    ]
}

pub open spec fn search_filters(
    armed: Option<bool>,
    device: Option<Seq<char>>,
    plugin: Option<Seq<char>>,
) -> Seq<MatchView> {
    seq![
        bool_filter("metadata.armed"@, armed),
        str_filter("device.id"@, device),
        str_filter("plugin.name"@, plugin),
    ]
}

/// At most `SEARCH_LIMIT` events, then the time range, then the joined
/// device and plugin as single documents, then the attribute filters.
pub open spec fn search_events_spec(
    start: Option<i64>,
    end: Option<i64>,
    armed: Option<bool>,
    device: Option<Seq<char>>,
    plugin: Option<Seq<char>>,
) -> Seq<StageView> {
    seq![StageView::Limit(SEARCH_LIMIT)] + match_stages(Seq::empty(), start, end) + seq![
        lookup_view(DEVICES, "metadata.device_id", "_id", "device"),
        lookup_view(PLUGINS, "metadata.plugin_id", "_id", "plugin"),
        StageView::ReplaceField("device"@),
        StageView::ReplaceField("plugin"@),
    ] + match_stages(search_filters(armed, device, plugin), None, None)
}

/// At most `SEARCH_LIMIT` commands, then the time range, then the joined
/// plugin as a single document.
pub open spec fn search_commands_spec(start: Option<i64>, end: Option<i64>) -> Seq<StageView> {
    seq![StageView::Limit(SEARCH_LIMIT)] + match_stages(Seq::empty(), start, end) + seq![
        lookup_view(PLUGINS, "metadata.plugin_id", "_id", "plugin"),
        StageView::ReplaceField("plugin"@),
    ]
}

fn bool_match(key: &str, v: Option<bool>) -> (r: Match)
    ensures
        r@ == bool_filter(key@, v),
{
    match v {
        Some(b) => Match::new(key, Some(FilterValue::Bool(b))),
        None => Match::new(key, None),
    }
}

fn str_match(key: &str, v: Option<String>) -> (r: Match)
    ensures
        r@ == str_filter(key@, opt_view(v)),
{
    match v {
        Some(s) => Match::new(key, Some(FilterValue::Str(s))),
        None => Match::new(key, None),
    }
}

/// The pipeline of the telemetry statistics over the events.
pub fn event_statistics_pipeline() -> (r: Vec<Stage>)
    ensures
        stages_view(r@) == event_statistics_spec(),
{
    let mut b = PipelineBuilder::new();
    let filters = vec![bool_match("metadata.armed", Some(false))];
    proof {
        assert(filters@.map_values(|m: Match| m@) =~= seq![
            bool_filter("metadata.armed"@, Some(false)),
        ]);
    }
    b.find_millis(Some(filters.as_slice()), None, None)
        .custom(STATS_PROJECT)
        .custom(STATS_UNWIND)
        .custom(STATS_GROUP);
    proof {
        assert(b@ =~= event_statistics_spec());
    }
    b.build()
}

/// The pipeline of the hourly event counts by armed flag, restricted to
/// the time range from `start` (inclusive) to `end` (exclusive), given as
/// RFC 3339 texts, and to the filters that have a value. Fails with
/// `Parse` where a bound does not parse.
pub fn count_status_time_pipeline(
    start: Option<String>,
    end: Option<String>,
    armed: Option<bool>,
    device: Option<String>,
    plugin: Option<String>,
) -> (r: Result<Vec<Stage>, QueryError>)
    ensures
        r is Err <==> !(bound_parses(opt_view(start)) && bound_parses(opt_view(end))),
        r is Err ==> r == Err::<Vec<Stage>, QueryError>(QueryError::Parse),
        r matches Ok(p) ==> stages_view(p@) == count_status_time_spec(
            bound_of(opt_view(start)),
            bound_of(opt_view(end)),
            armed,
            opt_view(device),
            opt_view(plugin),
        ),
{
    let ghost (dv, pv) = (opt_view(device), opt_view(plugin));
    let mut b = PipelineBuilder::new();
    let filters = vec![
        bool_match("metadata.armed", armed),
        str_match("metadata.device_id", device),
        str_match("metadata.plugin_id", plugin),
    ];
    proof {
        assert(filters@.map_values(|m: Match| m@) =~= status_filters(armed, dv, pv));
    }
    match b.find(Some(filters.as_slice()), start, end) {
        Ok(found) => {
            found.custom(STATUS_PROJECT).custom(STATUS_GROUP).custom(STATUS_RESHAPE);
        },
        Err(e) => return Err(e),
    }
    Ok(b.build())
}

/// The pipelines of the `n` newest events and the `n` newest commands.
/// Fails with `Validation`, before any pipeline exists, where `n` is
/// negative.
pub fn last_n_pipelines(n: i64) -> (r: Result<PipelinePair, QueryError>)
    ensures
        r is Err <==> n < 0,
        r is Err ==> r == Err::<PipelinePair, QueryError>(QueryError::Validation),
        r matches Ok(p) ==> stages_view(p.events@) == last_n_events_spec(n) && stages_view(
            p.commands@,
        ) == last_n_commands_spec(n),
{
    if n < 0 {
        return Err(QueryError::Validation);
    }
    let mut events = PipelineBuilder::new();
    events.custom(NEWEST_FIRST)
        .limit(n)
        .lookup(PLUGINS, "metadata.plugin_id", "_id", "plugin")
        .lookup(DEVICES, "metadata.device_id", "_id", "device");
    let mut commands = PipelineBuilder::new();
    commands.custom(NEWEST_FIRST).limit(n).lookup(PLUGINS, "metadata.plugin_id", "_id", "plugin");
    proof {
        assert(events@ =~= last_n_events_spec(n));
        assert(commands@ =~= last_n_commands_spec(n));
    }
    Ok(PipelinePair { events: events.build(), commands: commands.build() })
}

/// The pipelines of a search over events and commands: at most
/// `SEARCH_LIMIT` candidates of each, restricted to the time range from
/// `start` (inclusive) to `end` (exclusive), given as RFC 3339 texts, with
/// their references joined in; the events are then restricted to the
/// attribute filters that have a value. Fails with `Parse` where a bound
/// does not parse.
pub fn search_pipelines(
    start: Option<String>,
    end: Option<String>,
    armed: Option<bool>,
    device: Option<String>,
    plugin: Option<String>,
) -> (r: Result<PipelinePair, QueryError>)
    ensures
        r is Err <==> !(bound_parses(opt_view(start)) && bound_parses(opt_view(end))),
        r is Err ==> r == Err::<PipelinePair, QueryError>(QueryError::Parse),
        r matches Ok(p) ==> stages_view(p.events@) == search_events_spec(
            bound_of(opt_view(start)),
            bound_of(opt_view(end)),
            armed,
            opt_view(device),
            opt_view(plugin),
        ) && stages_view(p.commands@) == search_commands_spec(
            bound_of(opt_view(start)),
            bound_of(opt_view(end)),
        ),
{
    let ghost (sv, ev, dv, pv) = (opt_view(start), opt_view(end), opt_view(device), opt_view(plugin));
    let filters = vec![
        bool_match("metadata.armed", armed),
        str_match("device.id", device),
        str_match("plugin.name", plugin),
    ];
    proof {
        assert(filters@.map_values(|m: Match| m@) =~= search_filters(armed, dv, pv));
    }
    let mut events = PipelineBuilder::new();
    match events.limit(SEARCH_LIMIT).find(None, start.clone(), end.clone()) {
        Ok(found) => {
            found.lookup(DEVICES, "metadata.device_id", "_id", "device")
                .lookup(PLUGINS, "metadata.plugin_id", "_id", "plugin")
                .replace_field(&["device", "plugin"])
                .find_millis(Some(filters.as_slice()), None, None);
        },
        Err(e) => return Err(e),
    }
    let mut commands = PipelineBuilder::new();
    match commands.limit(SEARCH_LIMIT).find(None, start, end) {
        Ok(found) => {
            found.lookup(PLUGINS, "metadata.plugin_id", "_id", "plugin").replace_field(&["plugin"]);
        },
        Err(e) => return Err(e),
    }
    proof {
        assert(events@ =~= search_events_spec(bound_of(sv), bound_of(ev), armed, dv, pv));
        assert(commands@ =~= search_commands_spec(bound_of(sv), bound_of(ev)));
    }
    Ok(PipelinePair { events: events.build(), commands: commands.build() })
}

/// What a query over events and commands found.
pub struct EventCommandN<D> {
    pub events: Vec<D>,
    pub commands: Vec<D>,
}

/// Joins the results of the two reads of a query, all or nothing: both
/// lists where both reads succeeded, else the error of the first read that
/// failed.
pub fn pair_results<D>(
    events: Result<Vec<D>, QueryError>,
    commands: Result<Vec<D>, QueryError>,
) -> (r: Result<EventCommandN<D>, QueryError>)
    ensures
        match (events, commands) {
            (Ok(e), Ok(c)) => r matches Ok(p) && p.events == e && p.commands == c,
            (Err(x), _) => r == Err::<EventCommandN<D>, QueryError>(x),
            (Ok(_), Err(y)) => r == Err::<EventCommandN<D>, QueryError>(y),
        },
{
    match events {
        Err(x) => Err(x),
        Ok(e) => match commands {
            Err(y) => Err(y),
            Ok(c) => Ok(EventCommandN { events: e, commands: c }),
        },
    }
}

} // verus!
