use anzen_web::pipeline::{Equals, FilterValue, Match, PipelineBuilder, QueryError, Stage};

fn armed(v: Option<bool>) -> Match {
    Match::new("metadata.armed", v.map(FilterValue::Bool))
}

#[test]
fn new_builder_is_empty() {
    assert!(PipelineBuilder::new().build().is_empty());
}

#[test]
fn absent_filter_adds_no_constraint() {
    let mut b = PipelineBuilder::new();
    let filters = [
        armed(None),
        Match::new("device.id", Some(FilterValue::Str("da".to_string()))),
        Match::new("plugin.name", None),
    ];
    b.find(Some(&filters[..]), None, None).unwrap();
    let stages = b.build();
    assert_eq!(
        stages,
        vec![Stage::Match {
            start: None,
            end: None,
            constraints: vec![Equals {
                key: "device.id".to_string(),
                value: FilterValue::Str("da".to_string()),
            }],
        }]
    );
}

#[test]
fn absent_filter_same_stages_as_without_it() {
    let mut with = PipelineBuilder::new();
    let mut without = PipelineBuilder::new();
    let a = [armed(None), Match::new("k", Some(FilterValue::Int(4)))];
    let b = [Match::new("k", Some(FilterValue::Int(4)))];
    with.find_millis(Some(&a[..]), Some(1), None);
    without.find_millis(Some(&b[..]), Some(1), None);
    assert_eq!(with.build(), without.build());
}

#[test]
fn match_with_nothing_appends_no_stage() {
    let mut b = PipelineBuilder::new();
    b.limit(5);
    b.find(None, None, None).unwrap();
    let filters = [armed(None), Match::new("device.id", None)];
    b.find(Some(&filters[..]), None, None).unwrap();
    assert_eq!(b.build(), vec![Stage::Limit(5)]);
}

#[test]
fn malformed_start_is_a_parse_error() {
    let mut b = PipelineBuilder::new();
    b.limit(1);
    let r = b.find(None, Some("not-a-timestamp".to_string()), None);
    assert!(matches!(r, Err(QueryError::Parse)));
    assert_eq!(b.build(), vec![Stage::Limit(1)]);
}

#[test]
fn malformed_end_is_a_parse_error() {
    let mut b = PipelineBuilder::new();
    let r = b.find(
        Some(&[armed(Some(true))][..]),
        Some("2023-01-01T00:00:00Z".to_string()),
        Some("yesterday".to_string()),
    );
    assert!(matches!(r, Err(QueryError::Parse)));
    assert!(b.build().is_empty());
}

#[test]
fn time_bounds_are_parsed_to_millis() {
    let mut b = PipelineBuilder::new();
    b.find(
        Some(&[armed(Some(false))][..]),
        Some("2023-01-01T00:00:00Z".to_string()),
        Some("2023-01-01T01:00:00.500+00:00".to_string()),
    )
    .unwrap();
    assert_eq!(
        b.build(),
        vec![Stage::Match {
            start: Some(1_672_531_200_000),
            end: Some(1_672_534_800_500),
            constraints: vec![Equals {
                key: "metadata.armed".to_string(),
                value: FilterValue::Bool(false),
            }],
        }]
    );
}

#[test]
fn time_bound_with_offset() {
    let mut b = PipelineBuilder::new();
    b.find(None, None, Some("1970-01-01T01:00:00+01:00".to_string())).unwrap();
    assert_eq!(
        b.build(),
        vec![Stage::Match { start: None, end: Some(0), constraints: vec![] }]
    );
}

#[test]
fn build_twice_equal_and_snapshot_unchanged() {
    let mut b = PipelineBuilder::new();
    b.custom(r#"{"$sort":{"timestamp":-1}}"#);
    b.limit(10);
    let first = b.build();
    let second = b.build();
    assert_eq!(first, second);
    b.lookup("plugins", "metadata.plugin_id", "_id", "plugin");
    b.replace_field(&["plugin"]);
    assert_eq!(first, second);
    assert_eq!(
        first,
        vec![Stage::Custom(r#"{"$sort":{"timestamp":-1}}"#.to_string()), Stage::Limit(10)]
    );
    assert_eq!(b.build().len(), 4);
}

#[test]
fn lookup_stage_fields() {
    let mut b = PipelineBuilder::new();
    b.lookup("devices", "metadata.device_id", "_id", "device");
    assert_eq!(
        b.build(),
        vec![Stage::Lookup {
            from: "devices".to_string(),
            local_field: "metadata.device_id".to_string(),
            foreign_field: "_id".to_string(),
            as_field: "device".to_string(),
        }]
    );
}

#[test]
fn replace_field_one_stage_per_name() {
    let mut b = PipelineBuilder::new();
    b.replace_field(&["device", "plugin"]);
    b.replace_field(&[]);
    assert_eq!(
        b.build(),
        vec![
            Stage::ReplaceField("device".to_string()),
            Stage::ReplaceField("plugin".to_string()),
        ]
    );
}

#[test]
fn negative_limit_is_passed_on() {
    let mut b = PipelineBuilder::new();
    b.limit(-3);
    assert_eq!(b.build(), vec![Stage::Limit(-3)]);
}

#[test]
fn filter_value_duplicate_keeps_value() {
    let v = FilterValue::Str("x".to_string());
    assert_eq!(v.duplicate(), v);
    let s = Stage::Match {
        start: Some(1),
        end: None,
        constraints: vec![Equals { key: "a".to_string(), value: FilterValue::Int(-2) }],
    };
    assert_eq!(s.duplicate(), s);
}

#[test]
fn filter_values_convert() {
    assert_eq!(FilterValue::from(true), FilterValue::Bool(true));
    assert_eq!(FilterValue::from(7i64), FilterValue::Int(7));
    assert_eq!(FilterValue::from("x".to_string()), FilterValue::Str("x".to_string()));
    let m = Match::new("metadata.armed", Some(FilterValue::from(false)));
    assert_eq!(m.key, "metadata.armed");
    assert_eq!(m.value, Some(FilterValue::Bool(false)));
}

#[test]
fn operations_chain() -> Result<(), QueryError> {
    let mut b = PipelineBuilder::new();
    b.limit(50)
        .find(None, Some("2023-01-01T00:00:00Z".to_string()), None)?
        .lookup("plugins", "metadata.plugin_id", "_id", "plugin")
        .replace_field(&["plugin"])
        .custom(r#"{"$sort":{"timestamp":-1}}"#);
    let stages = b.build();
    assert_eq!(stages.len(), 5);
    assert_eq!(stages[0], Stage::Limit(50));
    assert_eq!(
        stages[1],
        Stage::Match { start: Some(1_672_531_200_000), end: None, constraints: vec![] }
    );
    assert_eq!(stages[3], Stage::ReplaceField("plugin".to_string()));
    Ok(())
}
