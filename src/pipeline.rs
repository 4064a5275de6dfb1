//! The stage-sequence builder.
//!
//! A pipeline is an ordered sequence of stages that the store runs one after
//! the other. The builder only appends: every operation leaves the stages that
//! were there before untouched, so a sequence taken by `build` stays a prefix
//! of everything built later.

use vstd::prelude::*;

verus! {

/// The errors of a query: a malformed timestamp, a rejected argument, or a
/// failure of the store itself.
#[derive(Debug, Clone, Copy, PartialEq, Eq, Structural)]
pub enum QueryError {
    Parse,
    Validation,
    Execution,
}

/// A value that a field is compared with.
#[derive(Debug, PartialEq, Eq)]
pub enum FilterValue {
    Bool(bool),
    Int(i64),
    Str(String),
}

pub enum FilterValueView {
    Bool(bool),
    Int(i64),
    Str(Seq<char>),
}

impl View for FilterValue {
    type V = FilterValueView;

    open spec fn view(&self) -> FilterValueView {
        match self {
            FilterValue::Bool(b) => FilterValueView::Bool(*b),
            FilterValue::Int(i) => FilterValueView::Int(*i),
            FilterValue::Str(s) => FilterValueView::Str(s@),
        }
    }
}

impl FilterValue {
    pub fn duplicate(&self) -> (r: FilterValue)
        ensures
            r@ == self@,
    {
        match self {
            FilterValue::Bool(b) => FilterValue::Bool(*b),
            FilterValue::Int(i) => FilterValue::Int(*i),
            FilterValue::Str(s) => FilterValue::Str(s.clone()),
        }
    }
}

impl From<bool> for FilterValue {
    fn from(b: bool) -> (r: FilterValue)
        ensures
            r == FilterValue::Bool(b),
    {
        FilterValue::Bool(b)
    }
}

impl vstd::std_specs::convert::FromSpecImpl<bool> for FilterValue {
    open spec fn obeys_from_spec() -> bool {
        true
    }

    open spec fn from_spec(b: bool) -> FilterValue {
        FilterValue::Bool(b)
    }
}

impl From<i64> for FilterValue {
    fn from(i: i64) -> (r: FilterValue)
        ensures
            r == FilterValue::Int(i),
    {
        FilterValue::Int(i)
    }
}

impl vstd::std_specs::convert::FromSpecImpl<i64> for FilterValue {
    open spec fn obeys_from_spec() -> bool {
        true
    }

    open spec fn from_spec(i: i64) -> FilterValue {
        FilterValue::Int(i)
    }
}

impl From<String> for FilterValue {
    fn from(s: String) -> (r: FilterValue)
        ensures
            r == FilterValue::Str(s),
    {
        FilterValue::Str(s)
    }
}

impl vstd::std_specs::convert::FromSpecImpl<String> for FilterValue {
    open spec fn obeys_from_spec() -> bool {
        true
    }

    open spec fn from_spec(s: String) -> FilterValue {
        FilterValue::Str(s)
    }
}

/// One conditional equality filter: the field at `key` must equal `value`,
/// and an absent value asks for nothing.
#[derive(Debug, PartialEq, Eq)]
pub struct Match {
    pub key: String,
    pub value: Option<FilterValue>,
}

pub struct MatchView {
    pub key: Seq<char>,
    pub value: Option<FilterValueView>,
}

impl View for Match {
    type V = MatchView;

    open spec fn view(&self) -> MatchView {
        MatchView {
            key: self.key@,
            value: match self.value {
                Some(v) => Some(v@),
                None => None,
            },
        }
    }
}

impl Match {
    pub fn new(key: &str, value: Option<FilterValue>) -> (r: Match)
        ensures
            r.key@ == key@,
            r.value == value,
    {
        Match { key: String::from_str(key), value }
    }
}

/// An equality constraint of a match stage: field path and value.
#[derive(Debug, PartialEq, Eq)]
pub struct Equals {
    pub key: String,
    pub value: FilterValue,
}

impl View for Equals {
    type V = (Seq<char>, FilterValueView);

    open spec fn view(&self) -> (Seq<char>, FilterValueView) {
        (self.key@, self.value@)
    }
}

/// One stage of a pipeline.
#[derive(Debug, PartialEq, Eq)]
pub enum Stage {
    /// Keeps the documents whose `timestamp` is at or after `start` and
    /// before `end` (milliseconds since the Unix epoch; an absent bound
    /// does not restrict) and whose fields equal every constraint.
    Match { start: Option<i64>, end: Option<i64>, constraints: Vec<Equals> },
    /// Keeps the first `n` documents.
    Limit(i64),
    /// Left outer join: stores under `as_field` every document of `from`
    /// whose `foreign_field` equals the input's `local_field`.
    Lookup { from: String, local_field: String, foreign_field: String, as_field: String },
    /// Replaces the array held by the named field with its first element.
    ReplaceField(String),
    /// A stage written out in the store's own JSON form.
    Custom(String),
}

pub enum StageView {
    Match { start: Option<i64>, end: Option<i64>, constraints: Seq<(Seq<char>, FilterValueView)> },
    Limit(i64),
    Lookup { from: Seq<char>, local_field: Seq<char>, foreign_field: Seq<char>, as_field: Seq<char> },
    ReplaceField(Seq<char>),
    Custom(Seq<char>),
}

pub open spec fn equals_view(c: Seq<Equals>) -> Seq<(Seq<char>, FilterValueView)> {
    c.map_values(|e: Equals| e@)
}

impl View for Stage {
    type V = StageView;

    open spec fn view(&self) -> StageView {
        match self {
            Stage::Match { start, end, constraints } => StageView::Match {
                start: *start,
                end: *end,
                constraints: equals_view(constraints@),
            },
            Stage::Limit(n) => StageView::Limit(*n),
            Stage::Lookup { from, local_field, foreign_field, as_field } => StageView::Lookup {
                from: from@,
                local_field: local_field@,
                foreign_field: foreign_field@,
                as_field: as_field@,
            },
            Stage::ReplaceField(name) => StageView::ReplaceField(name@),
            Stage::Custom(text) => StageView::Custom(text@),
        }
    }
}

pub open spec fn stages_view(s: Seq<Stage>) -> Seq<StageView> {
    s.map_values(|st: Stage| st@)
}

fn duplicate_equals(c: &Vec<Equals>) -> (r: Vec<Equals>)
    ensures
        equals_view(r@) == equals_view(c@),
{
    let mut r: Vec<Equals> = Vec::new();
    let mut i: usize = 0;
    while i < c.len()
        invariant
            i <= c.len(),
            r@.len() == i,
            forall|k: int| 0 <= k < i ==> #[trigger] r@[k]@ == c@[k]@,
        decreases c.len() - i,
    {
        r.push(Equals { key: c[i].key.clone(), value: c[i].value.duplicate() });
        i = i + 1;
    }
    assert(equals_view(r@) =~= equals_view(c@));
    r
}

impl Stage {
    pub fn duplicate(&self) -> (r: Stage)
        ensures
            r@ == self@,
    {
        match self {
            Stage::Match { start, end, constraints } => Stage::Match {
                start: *start,
                end: *end,
                constraints: duplicate_equals(constraints),
            },
            Stage::Limit(n) => Stage::Limit(*n),
            Stage::Lookup { from, local_field, foreign_field, as_field } => Stage::Lookup {
                from: from.clone(),
                local_field: local_field.clone(),
                foreign_field: foreign_field.clone(),
                as_field: as_field.clone(),
            },
            Stage::ReplaceField(name) => Stage::ReplaceField(name.clone()),
            Stage::Custom(text) => Stage::Custom(text.clone()),
        }
    }
}

/// The instant that an RFC 3339 text denotes, in milliseconds since the Unix
/// epoch, or `None` where the text is not such a timestamp.
pub uninterp spec fn rfc3339_millis(s: Seq<char>) -> Option<i64>;

/// Relies on `bson::DateTime::parse_rfc3339_str`, which parses an RFC 3339
/// text, and on `DateTime::timestamp_millis`, which gives its instant in
/// milliseconds since the Unix epoch.
#[verifier::external_body]
fn parse_timestamp(s: &str) -> (r: Option<i64>)
    ensures
        r == rfc3339_millis(s@),
{
    match mongodb::bson::DateTime::parse_rfc3339_str(s) {
        Ok(d) => Some(d.timestamp_millis()),
        Err(_) => None,
    }
}

pub open spec fn opt_view(t: Option<String>) -> Option<Seq<char>> {
    match t {
        Some(s) => Some(s@),
        None => None,
    }
}

/// A time bound is well formed when it is absent or parses.
pub open spec fn bound_parses(t: Option<Seq<char>>) -> bool {
    match t {
        Some(s) => rfc3339_millis(s) is Some,
        None => true,
    }
}

/// The instant of a time bound, absent where the bound is absent.
pub open spec fn bound_of(t: Option<Seq<char>>) -> Option<i64> {
    match t {
        Some(s) => rfc3339_millis(s),
        None => None,
    }
}

pub open spec fn filters_view(find: Option<&[Match]>) -> Seq<MatchView> {
    match find {
        Some(f) => f@.map_values(|m: Match| m@),
        None => Seq::empty(),
    }
}

/// The equality constraints that a list of filters asks for: one for each
/// filter with a value, in the order of the filters.
pub open spec fn constraints_of(filters: Seq<MatchView>) -> Seq<(Seq<char>, FilterValueView)>
    decreases filters.len(),
{
    if filters.len() == 0 {
        Seq::empty()
    } else {
        let rest = constraints_of(filters.drop_last());
        match filters.last().value {
            Some(v) => rest.push((filters.last().key, v)),
            None => rest,
        }
    }
}

/// The stages that a match on these filters and bounds appends: none when
/// it would not restrict anything, else one match stage.
pub open spec fn match_stages(filters: Seq<MatchView>, start: Option<i64>, end: Option<i64>) -> Seq<
    StageView,
> {
    let c = constraints_of(filters);
    if start is None && end is None && c.len() == 0 {
        Seq::empty()
    } else {
        seq![StageView::Match { start, end, constraints: c }]
    }
}

pub open spec fn replace_stages(names: Seq<&str>) -> Seq<StageView> {
    names.map_values(|n: &str| StageView::ReplaceField(n@))
}

/// A filter without a value adds no constraint: taking it out of the list
/// changes neither the constraints nor the stages that a match appends.
pub proof fn lemma_absent_filter_adds_nothing(filters: Seq<MatchView>, i: int)
    requires
        0 <= i < filters.len(),
        filters[i].value is None,
    ensures
        constraints_of(filters.remove(i)) == constraints_of(filters),
        forall|start: Option<i64>, end: Option<i64>|
            match_stages(filters.remove(i), start, end) == #[trigger] match_stages(
                filters,
                start,
                end,
            ),
    decreases filters.len(),
{
    if i == filters.len() - 1 {
        assert(filters.remove(i) =~= filters.drop_last());
    } else {
        let d = filters.drop_last();
        lemma_absent_filter_adds_nothing(d, i);
        assert(filters.remove(i).drop_last() =~= d.remove(i));
        assert(filters.remove(i).last() == filters.last());
    }
}

/// With no time bound and no filter that has a value, a match appends no
/// stage at all.
pub proof fn lemma_unrestricted_match_is_elided(filters: Seq<MatchView>)
    requires
        forall|i: int| 0 <= i < filters.len() ==> (#[trigger] filters[i]).value is None,
    ensures
        match_stages(filters, None, None) == Seq::<StageView>::empty(),
    decreases filters.len(),
{
    if filters.len() > 0 {
        let d = filters.drop_last();
        assert forall|i: int| 0 <= i < d.len() implies (#[trigger] d[i]).value is None by {
            assert(d[i] == filters[i]);
        }
        lemma_unrestricted_match_is_elided(d);
        assert(filters.last() == filters[filters.len() - 1]);
    }
}

/// A built sequence is a snapshot: two builds of one state agree, and
/// whatever is appended to the builder afterwards leaves the earlier
/// snapshot as the unchanged prefix of the new state.
pub proof fn lemma_build_is_snapshot(
    state: Seq<StageView>,
    first: Seq<StageView>,
    second: Seq<StageView>,
    appended: Seq<StageView>,
)
    requires
        first == state,
        second == state,
    ensures
        first == second,
        (state + appended).subrange(0, first.len() as int) == first,
{
    assert((state + appended).subrange(0, first.len() as int) =~= first);
}

/// Accumulates a pipeline stage by stage.
#[derive(Debug)]
pub struct PipelineBuilder {
    pipeline: Vec<Stage>,
}

impl View for PipelineBuilder {
    type V = Seq<StageView>;

    closed spec fn view(&self) -> Seq<StageView> {
        stages_view(self.pipeline@)
    }
}

impl PipelineBuilder {
    pub fn new() -> (r: PipelineBuilder)
        ensures
            r@ == Seq::<StageView>::empty(),
    {
        PipelineBuilder { pipeline: Vec::new() }
    }

    /// Appends a stage given in the store's own JSON form.
    pub fn custom(&mut self, stage: &str) -> (r: &mut Self)
        ensures
            (*r)@ == old(self)@.push(StageView::Custom(stage@)),
            *final(self) == *final(r),
    {
        self.pipeline.push(Stage::Custom(String::from_str(stage)));
        assert(self@ =~= old(self)@.push(StageView::Custom(stage@)));
        self
    }

    /// Appends a bound on the number of documents. A negative bound is
    /// passed on as it is.
    pub fn limit(&mut self, limit: i64) -> (r: &mut Self)
        ensures
            (*r)@ == old(self)@.push(StageView::Limit(limit)),
            *final(self) == *final(r),
    {
        self.pipeline.push(Stage::Limit(limit));
        assert(self@ =~= old(self)@.push(StageView::Limit(limit)));
        self
    }

    /// Appends a left outer join with `collection`.
    pub fn lookup(&mut self, collection: &str, local: &str, foreign: &str, out: &str) -> (r:
        &mut Self)
        ensures
            *final(self) == *final(r),
            (*r)@ == old(self)@.push(
                StageView::Lookup {
                    from: collection@,
                    local_field: local@,
                    foreign_field: foreign@,
                    as_field: out@,
                },
            ),
    {
        self.pipeline.push(
            Stage::Lookup {
                from: String::from_str(collection),
                local_field: String::from_str(local),
                foreign_field: String::from_str(foreign),
                as_field: String::from_str(out),
            },
        );
        assert(self@ =~= old(self)@.push(
            StageView::Lookup {
                from: collection@,
                local_field: local@,
                foreign_field: foreign@,
                as_field: out@,
            },
        ));
        self
    }

    /// Appends the match stage for `filters` and the time bounds `start`
    /// (inclusive) and `end` (exclusive), given in milliseconds since the
    /// Unix epoch. Filters without a value are dropped; where nothing is
    /// left to restrict, no stage is appended.
    pub fn find_millis(&mut self, find: Option<&[Match]>, start: Option<i64>, end: Option<i64>) -> (r:
        &mut Self)
        ensures
            (*r)@ == old(self)@ + match_stages(filters_view(find), start, end),
            *final(self) == *final(r),
    {
        let ghost fv = filters_view(find);
        let mut constraints: Vec<Equals> = Vec::new();
        match find {
            Some(filters) => {
                let mut i: usize = 0;
                while i < filters.len()
                    invariant
                        i <= filters@.len(),
                        fv == filters@.map_values(|m: Match| m@),
                        equals_view(constraints@) == constraints_of(fv.subrange(0, i as int)),
                    decreases filters.len() - i,
                {
                    let ghost prev = constraints@;
                    assert(fv.subrange(0, i + 1).drop_last() =~= fv.subrange(0, i as int));
                    assert(fv.subrange(0, i + 1).last() == filters@[i as int]@);
                    match &filters[i].value {
                        Some(v) => {
                            constraints.push(
                                Equals { key: filters[i].key.clone(), value: v.duplicate() },
                            );
                            assert(equals_view(constraints@) =~= equals_view(prev).push(
                                constraints@[prev.len() as int]@,
                            ));
                        },
                        None => {},
                    }
                    i = i + 1;
                }
                assert(fv.subrange(0, filters@.len() as int) =~= fv);
            },
            None => {
                assert(equals_view(constraints@) =~= constraints_of(fv));
            },
        }
        if start.is_none() && end.is_none() && constraints.len() == 0 {
            assert(self@ =~= old(self)@ + match_stages(fv, start, end));
        } else {
            self.pipeline.push(Stage::Match { start, end, constraints });
            assert(self@ =~= old(self)@ + match_stages(fv, start, end));
        }
        self
    }

    /// Appends the match stage for `filters` and the time bounds `start`
    /// (inclusive) and `end` (exclusive), given as RFC 3339 texts. Fails
    /// with `Parse`, appending nothing, where a bound does not parse.
    pub fn find(&mut self, find: Option<&[Match]>, start: Option<String>, end: Option<String>) -> (r:
        Result<&mut Self, QueryError>)
        ensures
            r is Err <==> !(bound_parses(opt_view(start)) && bound_parses(opt_view(end))),
            r is Err ==> r == Err::<&mut Self, QueryError>(QueryError::Parse) && final(self)@ == old(
                self,
            )@,
            r matches Ok(b) ==> (*b)@ == old(self)@ + match_stages(
                filters_view(find),
                bound_of(opt_view(start)),
                bound_of(opt_view(end)),
            ) && *final(self) == *final(b),
    {
        let start_ms = match &start {
            Some(t) => match parse_timestamp(t.as_str()) {
                Some(ms) => Some(ms),
                None => return Err(QueryError::Parse),
            },
            None => None,
        };
        let end_ms = match &end {
            Some(t) => match parse_timestamp(t.as_str()) {
                Some(ms) => Some(ms),
                None => return Err(QueryError::Parse),
            },
            None => None,
        };
        Ok(self.find_millis(find, start_ms, end_ms))
    }

    /// Appends, for each name in turn, a stage that replaces the array held
    /// by that field with its first element.
    pub fn replace_field(&mut self, names: &[&str]) -> (r: &mut Self)
        ensures
            (*r)@ == old(self)@ + replace_stages(names@),
            *final(self) == *final(r),
    {
        let mut i: usize = 0;
        while i < names.len()
            invariant
                i <= names@.len(),
                self@ == old(self)@ + replace_stages(names@.subrange(0, i as int)),
            decreases names.len() - i,
        {
            let ghost prev = self@;
            self.pipeline.push(Stage::ReplaceField(String::from_str(names[i])));
            assert(self@ =~= prev.push(StageView::ReplaceField(names@[i as int]@)));
            assert(replace_stages(names@.subrange(0, i + 1)) =~= replace_stages(
                names@.subrange(0, i as int),
            ).push(StageView::ReplaceField(names@[i as int]@)));
            i = i + 1;
            assert(self@ =~= old(self)@ + replace_stages(names@.subrange(0, i as int)));
        }
        assert(names@.subrange(0, names@.len() as int) =~= names@);
        self
    }

    /// Returns the stages accumulated so far, as a sequence of its own.
    pub fn build(&self) -> (r: Vec<Stage>)
        ensures
            stages_view(r@) == self@,
    {
        let mut r: Vec<Stage> = Vec::new();
        let mut i: usize = 0;
        while i < self.pipeline.len()
            invariant
                i <= self.pipeline.len(),
                r@.len() == i,
                forall|k: int| 0 <= k < i ==> #[trigger] r@[k]@ == self.pipeline@[k]@,
            decreases self.pipeline.len() - i,
        {
            r.push(self.pipeline[i].duplicate());
            i = i + 1;
        }
        assert(stages_view(r@) =~= stages_view(self.pipeline@));
        r
    }
}

} // verus!
