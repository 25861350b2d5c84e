//! Building the requests the client sends: filter query parameters, endpoint
//! URLs, required headers and request bodies.
//!
//! Each filter struct serializes into a list of query parameters following
//! fixed rules: list-valued filters appear exactly once as a comma-joined
//! value in insertion order, explicit booleans appear as `true` or `false`
//! only when set, pure flags append a bare key only when true, and an empty
//! filter produces no parameters at all.

use vstd::prelude::*;

use crate::json::JsonValue;
use crate::num::{dec_digits, u64_to_string};
use crate::query::{QueryParam, params_deep, query_string, encode_query};
use crate::subject::{SubjectType, subject_type_name};
use crate::timestamp::{Timestamp, rfc3339};

verus! {

/// A comma-joined list: the items in order, a single comma between each
/// two.
pub open spec fn join_comma(items: Seq<Seq<char>>) -> Seq<char>
    decreases items.len(),
{
    if items.len() == 0 {
        Seq::empty()
    } else if items.len() == 1 {
        items[0]
    } else {
        items[0] + seq![','] + join_comma(items.drop_first())
    }
}

proof fn lemma_join_comma_snoc(items: Seq<Seq<char>>, i: int)
    requires
        0 <= i < items.len(),
    ensures
        join_comma(items.take(i + 1)) == if i == 0 {
            items[0]
        } else {
            join_comma(items.take(i)) + seq![','] + items[i]
        },
    decreases i,
{
    reveal_with_fuel(join_comma, 3);
    if i == 0 {
        assert(items.take(1) =~= seq![items[0]]);
    } else {
        lemma_join_comma_snoc(items.drop_first(), i - 1);
        assert(items.take(i + 1).drop_first() =~= items.drop_first().take(i));
        assert(items.take(i).drop_first() =~= items.drop_first().take(i - 1));
        assert(items.take(i + 1)[0] == items[0]);
        assert(items.take(i)[0] == items[0]);
        assert(items.drop_first()[i - 1] == items[i]);
        if i == 1 {
            assert(join_comma(items.take(2)) == items[0] + seq![','] + join_comma(
                items.drop_first().take(1),
            ));
            assert(join_comma(items.drop_first().take(1)) == items[1]);
            assert(join_comma(items.take(1)) == items[0]);
        } else {
            assert(join_comma(items.take(i + 1)) == items[0] + seq![','] + join_comma(
                items.drop_first().take(i),
            ));
            assert(join_comma(items.take(i)) == items[0] + seq![','] + join_comma(
                items.drop_first().take(i - 1),
            ));
            assert(join_comma(items.drop_first().take(i)) == join_comma(
                items.drop_first().take(i - 1),
            ) + seq![','] + items[i]);
            assert((items[0] + seq![',']) + (join_comma(items.drop_first().take(i - 1))
                + seq![','] + items[i]) =~= ((items[0] + seq![','] + join_comma(
                items.drop_first().take(i - 1),
            )) + seq![',']) + items[i]);
        }
    }
}

/// The decimal notations of a list of identifiers.
pub open spec fn dec_seq_u64(xs: Seq<u64>) -> Seq<Seq<char>> {
    xs.map_values(|x: u64| dec_digits(x as int))
}

/// The decimal notations of a list of levels or stages.
pub open spec fn dec_seq_u32(xs: Seq<u32>) -> Seq<Seq<char>> {
    xs.map_values(|x: u32| dec_digits(x as int))
}

/// The views of a list of strings.
pub open spec fn str_seq(xs: Seq<String>) -> Seq<Seq<char>> {
    xs.map_values(|s: String| s@)
}

/// The wire tags of a list of subject types.
pub open spec fn subject_type_seq(xs: Seq<SubjectType>) -> Seq<Seq<char>> {
    xs.map_values(|t: SubjectType| subject_type_name(t))
}

/// Writes identifiers comma-joined, in order.
pub fn csv_u64(xs: &Vec<u64>) -> (r: String)
    ensures
        r@ == join_comma(dec_seq_u64(xs@)),
{
    let ghost items = dec_seq_u64(xs@);
    let mut r = String::new();
    let mut i: usize = 0;
    while i < xs.len()
        invariant
            i <= xs@.len(),
            items == dec_seq_u64(xs@),
            items.len() == xs@.len(),
            forall|k: int| 0 <= k < xs@.len() ==> items[k] == dec_digits(#[trigger] xs@[k] as int),
            r@ == join_comma(items.take(i as int)),
        decreases xs@.len() - i,
    {
        if i > 0 {
            r.append(",");
        }
        let d = u64_to_string(xs[i]);
        r.append(d.as_str());
        proof {
            reveal_strlit(",");
            assert(","@ =~= seq![',']);
            lemma_join_comma_snoc(items, i as int);
        }
        i = i + 1;
    }
    proof {
        assert(items.take(items.len() as int) =~= items);
    }
    r
}

/// Writes levels or stages comma-joined, in order.
pub fn csv_u32(xs: &Vec<u32>) -> (r: String)
    ensures
        r@ == join_comma(dec_seq_u32(xs@)),
{
    let ghost items = dec_seq_u32(xs@);
    let mut r = String::new();
    let mut i: usize = 0;
    while i < xs.len()
        invariant
            i <= xs@.len(),
            items == dec_seq_u32(xs@),
            items.len() == xs@.len(),
            forall|k: int| 0 <= k < xs@.len() ==> items[k] == dec_digits(#[trigger] xs@[k] as int),
            r@ == join_comma(items.take(i as int)),
        decreases xs@.len() - i,
    {
        if i > 0 {
            r.append(",");
        }
        let d = u64_to_string(xs[i] as u64);
        r.append(d.as_str());
        proof {
            reveal_strlit(",");
            assert(","@ =~= seq![',']);
            lemma_join_comma_snoc(items, i as int);
        }
        i = i + 1;
    }
    proof {
        assert(items.take(items.len() as int) =~= items);
    }
    r
}

/// Writes strings comma-joined, in order.
pub fn csv_strings(xs: &Vec<String>) -> (r: String)
    ensures
        r@ == join_comma(str_seq(xs@)),
{
    let ghost items = str_seq(xs@);
    let mut r = String::new();
    let mut i: usize = 0;
    while i < xs.len()
        invariant
            i <= xs@.len(),
            items == str_seq(xs@),
            items.len() == xs@.len(),
            forall|k: int| 0 <= k < xs@.len() ==> items[k] == (#[trigger] xs@[k])@,
            r@ == join_comma(items.take(i as int)),
        decreases xs@.len() - i,
    {
        if i > 0 {
            r.append(",");
        }
        r.append(xs[i].as_str());
        proof {
            reveal_strlit(",");
            assert(","@ =~= seq![',']);
            lemma_join_comma_snoc(items, i as int);
        }
        i = i + 1;
    }
    proof {
        assert(items.take(items.len() as int) =~= items);
    }
    r
}

/// Writes subject type tags comma-joined, in order.
pub fn csv_subject_types(xs: &Vec<SubjectType>) -> (r: String)
    ensures
        r@ == join_comma(subject_type_seq(xs@)),
{
    let ghost items = subject_type_seq(xs@);
    let mut r = String::new();
    let mut i: usize = 0;
    while i < xs.len()
        invariant
            i <= xs@.len(),
            items == subject_type_seq(xs@),
            items.len() == xs@.len(),
            forall|k: int|
                0 <= k < xs@.len() ==> items[k] == subject_type_name(#[trigger] xs@[k]),
            r@ == join_comma(items.take(i as int)),
        decreases xs@.len() - i,
    {
        if i > 0 {
            r.append(",");
        }
        let name = xs[i].to_string();
        r.append(name.as_str());
        proof {
            reveal_strlit(",");
            assert(","@ =~= seq![',']);
            lemma_join_comma_snoc(items, i as int);
        }
        i = i + 1;
    }
    proof {
        assert(items.take(items.len() as int) =~= items);
    }
    r
}

/// The comma-join items for an optional identifier list.
pub open spec fn ids_items(o: Option<Vec<u64>>) -> Option<Seq<Seq<char>>> {
    match o {
        Some(v) => Some(dec_seq_u64(v@)),
        None => None,
    }
}

/// The comma-join items for an optional list of levels or stages.
pub open spec fn u32_items(o: Option<Vec<u32>>) -> Option<Seq<Seq<char>>> {
    match o {
        Some(v) => Some(dec_seq_u32(v@)),
        None => None,
    }
}

/// The comma-join items for an optional list of strings.
pub open spec fn str_items(o: Option<Vec<String>>) -> Option<Seq<Seq<char>>> {
    match o {
        Some(v) => Some(str_seq(v@)),
        None => None,
    }
}

/// The comma-join items for an optional list of subject types.
pub open spec fn subject_type_items(o: Option<Vec<SubjectType>>) -> Option<Seq<Seq<char>>> {
    match o {
        Some(v) => Some(subject_type_seq(v@)),
        None => None,
    }
}

/// One query parameter view.
pub type ParamV = (Seq<char>, Option<Seq<char>>);

/// The parameter for a list filter: one comma-joined value, or nothing when
/// the filter is unset.
pub open spec fn opt_csv_param(key: Seq<char>, items: Option<Seq<Seq<char>>>) -> Seq<ParamV> {
    match items {
        Some(v) => seq![(key, Some(join_comma(v)))],
        None => Seq::empty(),
    }
}

/// The parameter for a timestamp bound, or nothing when unset.
pub open spec fn opt_time_param(key: Seq<char>, t: Option<Timestamp>) -> Seq<ParamV> {
    match t {
        Some(x) => seq![(key, Some(rfc3339(x)))],
        None => Seq::empty(),
    }
}

/// `true` or `false`.
pub open spec fn bool_str(b: bool) -> Seq<char> {
    if b {
        "true"@
    } else {
        "false"@
    }
}

/// The parameter for an explicit boolean, or nothing when unset.
pub open spec fn opt_bool_param(key: Seq<char>, b: Option<bool>) -> Seq<ParamV> {
    match b {
        Some(x) => seq![(key, Some(bool_str(x)))],
        None => Seq::empty(),
    }
}

/// The parameter for a decimal bound, or nothing when unset.
pub open spec fn opt_u32_param(key: Seq<char>, v: Option<u32>) -> Seq<ParamV> {
    match v {
        Some(x) => seq![(key, Some(dec_digits(x as int)))],
        None => Seq::empty(),
    }
}

/// A bare key when the flag is set; never a `=false` pair.
pub open spec fn flag_param(key: Seq<char>, b: bool) -> Seq<ParamV> {
    if b {
        seq![(key, None)]
    } else {
        Seq::empty()
    }
}

/// Writes `true` or `false`.
pub fn bool_to_string(b: bool) -> (r: String)
    ensures
        r@ == bool_str(b),
{
    if b {
        "true".to_owned()
    } else {
        "false".to_owned()
    }
}

/// Filter parameters for collections that take only identifiers and an
/// update bound: voice actors, level progressions and resets.
#[derive(Debug, Clone, PartialEq, Eq)]
pub struct IdFilter {
    /// Only resources where `data.id` matches one of the array values are
    /// returned.
    pub ids: Option<Vec<crate::Id>>,
    /// Only resources updated after this time are returned.
    pub updated_after: Option<Timestamp>,
}

impl IdFilter {
    /// A filter with every field unset.
    pub fn new() -> (r: IdFilter)
        ensures
            r.ids is None,
            r.updated_after is None,
    {
        IdFilter { ids: None, updated_after: None }
    }

    /// Valid timestamps throughout.
    pub open spec fn wf(self) -> bool {
        self.updated_after matches Some(t) ==> t.wf()
    }

    /// The query parameters this filter serializes to.
    pub open spec fn params(self) -> Seq<ParamV> {
        opt_csv_param("ids"@, ids_items(self.ids)) + opt_time_param(
            "updated_after"@,
            self.updated_after,
        )
    }

    /// Serializes the filter into query parameters.
    #[verifier::rlimit(100)]
    pub fn apply_filters(&self) -> (r: Vec<QueryParam>)
        requires
            self.wf(),
        ensures
            params_deep(r@) == self.params(),
    {
        let mut out: Vec<QueryParam> = Vec::new();
        let ghost mut done: Seq<ParamV> = Seq::empty();
        proof {
            assert(params_deep(out@) =~= done);
        }
        match &self.ids {
            Some(v) => {
                out.push(QueryParam::pair("ids", csv_u64(v)));
            },
            None => {},
        }
        proof {
            done = done + opt_csv_param("ids"@, ids_items(self.ids));
            assert(params_deep(out@) =~= done);
        }
        match &self.updated_after {
            Some(t) => {
                out.push(QueryParam::pair("updated_after", t.to_rfc3339()));
            },
            None => {},
        }
        proof {
            done = done + opt_time_param("updated_after"@, self.updated_after);
            assert(params_deep(out@) =~= done);
            assert(done =~= self.params());
        }
        out
    }
}

/// The collection of study material records will be filtered on the
/// parameters provided.
#[derive(Debug, Clone, PartialEq, Eq)]
pub struct StudyMaterialFilter {
    /// Return study materials with a matching value in the `hidden`
    /// attribute.
    pub hidden: Option<bool>,
    /// Only study material records where `data.id` matches one of the array
    /// values are returned.
    pub ids: Option<Vec<crate::Id>>,
    /// Only study material records where `data.subject_id` matches one of
    /// the array values are returned.
    pub subject_ids: Option<Vec<crate::Id>>,
    /// Only study material records where `data.subject_type` matches one of
    /// the array values are returned.
    pub subject_types: Option<Vec<SubjectType>>,
    /// Only study material records updated after this time are returned.
    pub updated_after: Option<Timestamp>,
}

impl StudyMaterialFilter {
    /// A filter with every field unset.
    pub fn new() -> (r: StudyMaterialFilter)
        ensures
            r.hidden is None,
            r.ids is None,
            r.subject_ids is None,
            r.subject_types is None,
            r.updated_after is None,
    {
        StudyMaterialFilter {
            hidden: None,
            ids: None,
            subject_ids: None,
            subject_types: None,
            updated_after: None,
        }
    }

    /// Valid timestamps throughout.
    pub open spec fn wf(self) -> bool {
        self.updated_after matches Some(t) ==> t.wf()
    }

    /// The query parameters this filter serializes to, in the order they
    /// are appended.
    pub open spec fn params(self) -> Seq<ParamV> {
        opt_csv_param("ids"@, ids_items(self.ids)) + opt_csv_param(
            "subject_ids"@,
            ids_items(self.subject_ids),
        ) + opt_csv_param("subject_types"@, subject_type_items(self.subject_types))
            + opt_bool_param("hidden"@, self.hidden) + opt_time_param(
            "updated_after"@,
            self.updated_after,
        )
    }

    /// Serializes the filter into query parameters.
    #[verifier::rlimit(100)]
    pub fn apply_filters(&self) -> (r: Vec<QueryParam>)
        requires
            self.wf(),
        ensures
            params_deep(r@) == self.params(),
    {
        let mut out: Vec<QueryParam> = Vec::new();
        let ghost mut done: Seq<ParamV> = Seq::empty();
        proof {
            assert(params_deep(out@) =~= done);
        }
        match &self.ids {
            Some(v) => {
                out.push(QueryParam::pair("ids", csv_u64(v)));
            },
            None => {},
        }
        proof {
            done = done + opt_csv_param("ids"@, ids_items(self.ids));
            assert(params_deep(out@) =~= done);
        }
        match &self.subject_ids {
            Some(v) => {
                out.push(QueryParam::pair("subject_ids", csv_u64(v)));
            },
            None => {},
        }
        proof {
            done = done + opt_csv_param("subject_ids"@, ids_items(self.subject_ids));
            assert(params_deep(out@) =~= done);
        }
        match &self.subject_types {
            Some(v) => {
                out.push(QueryParam::pair("subject_types", csv_subject_types(v)));
            },
            None => {},
        }
        proof {
            done = done + opt_csv_param("subject_types"@, subject_type_items(self.subject_types));
            assert(params_deep(out@) =~= done);
        }
        match &self.hidden {
            Some(b) => {
                out.push(QueryParam::pair("hidden", bool_to_string(*b)));
            },
            None => {},
        }
        proof {
            done = done + opt_bool_param("hidden"@, self.hidden);
            assert(params_deep(out@) =~= done);
        }
        match &self.updated_after {
            Some(t) => {
                out.push(QueryParam::pair("updated_after", t.to_rfc3339()));
            },
            None => {},
        }
        proof {
            done = done + opt_time_param("updated_after"@, self.updated_after);
            assert(params_deep(out@) =~= done);
            assert(done =~= self.params());
        }
        out
    }
}

/// Filter parameters for subjects
#[derive(Debug, Clone, PartialEq, Eq)]
pub struct SubjectFilter {
    /// Only subjects where `data.id` matches one of the array values are
    /// returned.
    pub ids: Option<Vec<crate::Id>>,
    /// Return subjects of the specified types.
    pub types: Option<Vec<SubjectType>>,
    /// Return subjects of the specified slug.
    pub slugs: Option<Vec<String>>,
    /// Return subjects at the specified levels.
    pub levels: Option<Vec<u32>>,
    /// Return subjects which are or are not hidden from the user-facing
    /// application.
    pub hidden: Option<bool>,
    /// Only subjects updated after this time are returned.
    pub updated_after: Option<Timestamp>,
}

impl SubjectFilter {
    /// A filter with every field unset.
    pub fn new() -> (r: SubjectFilter)
        ensures
            r.ids is None,
            r.types is None,
            r.slugs is None,
            r.levels is None,
            r.hidden is None,
            r.updated_after is None,
    {
        SubjectFilter {
            ids: None,
            types: None,
            slugs: None,
            levels: None,
            hidden: None,
            updated_after: None,
        }
    }

    /// Valid timestamps throughout.
    pub open spec fn wf(self) -> bool {
        self.updated_after matches Some(t) ==> t.wf()
    }

    /// The query parameters this filter serializes to, in the order they
    /// are appended.
    pub open spec fn params(self) -> Seq<ParamV> {
        opt_csv_param("ids"@, ids_items(self.ids)) + opt_csv_param(
            "types"@,
            subject_type_items(self.types),
        ) + opt_csv_param("slugs"@, str_items(self.slugs)) + opt_csv_param(
            "levels"@,
            u32_items(self.levels),
        ) + opt_bool_param("hidden"@, self.hidden) + opt_time_param(
            "updated_after"@,
            self.updated_after,
        )
    }

    /// Serializes the filter into query parameters.
    #[verifier::rlimit(100)]
    pub fn apply_filters(&self) -> (r: Vec<QueryParam>)
        requires
            self.wf(),
        ensures
            params_deep(r@) == self.params(),
    {
        let mut out: Vec<QueryParam> = Vec::new();
        let ghost mut done: Seq<ParamV> = Seq::empty();
        proof {
            assert(params_deep(out@) =~= done);
        }
        match &self.ids {
            Some(v) => {
                out.push(QueryParam::pair("ids", csv_u64(v)));
            },
            None => {},
        }
        proof {
            done = done + opt_csv_param("ids"@, ids_items(self.ids));
            assert(params_deep(out@) =~= done);
        }
        match &self.types {
            Some(v) => {
                out.push(QueryParam::pair("types", csv_subject_types(v)));
            },
            None => {},
        }
        proof {
            done = done + opt_csv_param("types"@, subject_type_items(self.types));
            assert(params_deep(out@) =~= done);
        }
        match &self.slugs {
            Some(v) => {
                out.push(QueryParam::pair("slugs", csv_strings(v)));
            },
            None => {},
        }
        proof {
            done = done + opt_csv_param("slugs"@, str_items(self.slugs));
            assert(params_deep(out@) =~= done);
        }
        match &self.levels {
            Some(v) => {
                out.push(QueryParam::pair("levels", csv_u32(v)));
            },
            None => {},
        }
        proof {
            done = done + opt_csv_param("levels"@, u32_items(self.levels));
            assert(params_deep(out@) =~= done);
        }
        match &self.hidden {
            Some(b) => {
                out.push(QueryParam::pair("hidden", bool_to_string(*b)));
            },
            None => {},
        }
        proof {
            done = done + opt_bool_param("hidden"@, self.hidden);
            assert(params_deep(out@) =~= done);
        }
        match &self.updated_after {
            Some(t) => {
                out.push(QueryParam::pair("updated_after", t.to_rfc3339()));
            },
            None => {},
        }
        proof {
            done = done + opt_time_param("updated_after"@, self.updated_after);
            assert(params_deep(out@) =~= done);
            assert(done =~= self.params());
        }
        out
    }
}

/// The collection of review statistics will be filtered on the parameters
/// provided.
#[derive(Debug, Clone, PartialEq, Eq)]
pub struct ReviewStatisticFilter {
    /// Return review statistics with a matching value in the `hidden`
    /// attribute.
    pub hidden: Option<bool>,
    /// Only review statistics where `data.id` matches one of the array
    /// values are returned.
    pub ids: Option<Vec<crate::Id>>,
    /// Return review statistics where the `percentage_correct` is greater
    /// than the value.
    pub percentages_greater_than: Option<u32>,
    /// Return review statistics where the `percentage_correct` is less than
    /// the value.
    pub percentages_less_than: Option<u32>,
    /// Only review statistics where `data.subject_id` matches one of the
    /// array values are returned.
    pub subject_ids: Option<Vec<crate::Id>>,
    /// Only review statistics where `data.subject_type` matches one of the
    /// array values are returned.
    pub subject_types: Option<Vec<SubjectType>>,
    /// Only review statistics updated after this time are returned.
    pub updated_after: Option<Timestamp>,
}

impl ReviewStatisticFilter {
    /// A filter with every field unset.
    pub fn new() -> (r: ReviewStatisticFilter)
        ensures
            r.hidden is None,
            r.ids is None,
            r.percentages_greater_than is None,
            r.percentages_less_than is None,
            r.subject_ids is None,
            r.subject_types is None,
            r.updated_after is None,
    {
        ReviewStatisticFilter {
            hidden: None,
            ids: None,
            percentages_greater_than: None,
            percentages_less_than: None,
            subject_ids: None,
            subject_types: None,
            updated_after: None,
        }
    }

    /// Valid timestamps throughout.
    pub open spec fn wf(self) -> bool {
        self.updated_after matches Some(t) ==> t.wf()
    }

    /// The query parameters this filter serializes to, in the order they
    /// are appended.
    pub open spec fn params(self) -> Seq<ParamV> {
        opt_csv_param("ids"@, ids_items(self.ids)) + opt_csv_param(
            "subject_ids"@,
            ids_items(self.subject_ids),
        ) + opt_csv_param("subject_types"@, subject_type_items(self.subject_types))
            + opt_bool_param("hidden"@, self.hidden) + opt_time_param(
            "updated_after"@,
            self.updated_after,
        ) + opt_u32_param("percentages_greater_than"@, self.percentages_greater_than)
            + opt_u32_param("percentages_less_than"@, self.percentages_less_than)
    }

    /// Serializes the filter into query parameters.
    #[verifier::rlimit(100)]
    pub fn apply_filters(&self) -> (r: Vec<QueryParam>)
        requires
            self.wf(),
        ensures
            params_deep(r@) == self.params(),
    {
        let mut out: Vec<QueryParam> = Vec::new();
        let ghost mut done: Seq<ParamV> = Seq::empty();
        proof {
            assert(params_deep(out@) =~= done);
        }
        match &self.ids {
            Some(v) => {
                out.push(QueryParam::pair("ids", csv_u64(v)));
            },
            None => {},
        }
        proof {
            done = done + opt_csv_param("ids"@, ids_items(self.ids));
            assert(params_deep(out@) =~= done);
        }
        match &self.subject_ids {
            Some(v) => {
                out.push(QueryParam::pair("subject_ids", csv_u64(v)));
            },
            None => {},
        }
        proof {
            done = done + opt_csv_param("subject_ids"@, ids_items(self.subject_ids));
            assert(params_deep(out@) =~= done);
        }
        match &self.subject_types {
            Some(v) => {
                out.push(QueryParam::pair("subject_types", csv_subject_types(v)));
            },
            None => {},
        }
        proof {
            done = done + opt_csv_param("subject_types"@, subject_type_items(self.subject_types));
            assert(params_deep(out@) =~= done);
        }
        match &self.hidden {
            Some(b) => {
                out.push(QueryParam::pair("hidden", bool_to_string(*b)));
            },
            None => {},
        }
        proof {
            done = done + opt_bool_param("hidden"@, self.hidden);
            assert(params_deep(out@) =~= done);
        }
        match &self.updated_after {
            Some(t) => {
                out.push(QueryParam::pair("updated_after", t.to_rfc3339()));
            },
            None => {},
        }
        proof {
            done = done + opt_time_param("updated_after"@, self.updated_after);
            assert(params_deep(out@) =~= done);
        }
        match &self.percentages_greater_than {
            Some(p) => {
                out.push(QueryParam::pair("percentages_greater_than", u64_to_string(*p as u64)));
            },
            None => {},
        }
        proof {
            done = done + opt_u32_param(
                "percentages_greater_than"@,
                self.percentages_greater_than,
            );
            assert(params_deep(out@) =~= done);
        }
        match &self.percentages_less_than {
            Some(p) => {
                out.push(QueryParam::pair("percentages_less_than", u64_to_string(*p as u64)));
            },
            None => {},
        }
        proof {
            done = done + opt_u32_param("percentages_less_than"@, self.percentages_less_than);
            assert(params_deep(out@) =~= done);
            assert(done =~= self.params());
        }
        out
    }
}

/// Filter parameters for assignments
#[derive(Debug, Clone, PartialEq, Eq)]
pub struct AssignmentFilter {
    /// Only assignments available at or after this time are returned.
    pub available_after: Option<Timestamp>,
    /// Only assignments available at or before this time are returned.
    pub available_before: Option<Timestamp>,
    /// When set to `true`, returns assignments that have a value in
    /// `data.burned_at`. Returns assignments with a `null` `data.burned_at`
    /// if `false`.
    pub burned: Option<bool>,
    /// Return assignments with a matching value in the `hidden` attribute
    pub hidden: Option<bool>,
    /// Only assignments where `data.id` matches one of the array values are
    /// returned.
    pub ids: Option<Vec<crate::Id>>,
    /// Returns assignments which are immediately available for lessons
    pub immediately_available_for_lessons: bool,
    /// Returns assignments which are immediately available for review
    pub immediately_available_for_review: bool,
    /// Returns assignments which are in the review state
    pub in_review: bool,
    /// Only assignments where the associated subject level matches one of
    /// the array values are returned.
    pub levels: Option<Vec<u32>>,
    /// Only assignments where `data.srs_stage` matches one of the array
    /// values are returned.
    pub srs_stages: Option<Vec<u32>>,
    /// When set to `true`, returns assignments that have a value in
    /// `data.started_at`. Returns assignments with a `null`
    /// `data.started_at` if `false`.
    pub started: Option<bool>,
    /// Only assignments where `data.subject_id` matches one of the array
    /// values are returned.
    pub subject_ids: Option<Vec<crate::Id>>,
    /// Only assignments where `data.subject_type` matches one of the array
    /// values are returned.
    pub subject_types: Option<Vec<SubjectType>>,
    /// When set to `true`, returns assignments that have a value in
    /// `data.unlocked_at`. Returns assignments with a `null`
    /// `data.unlocked_at` if `false`.
    pub unlocked: Option<bool>,
    /// Only assignments updated after this time are returned.
    pub updated_after: Option<Timestamp>,
}

impl AssignmentFilter {
    /// A filter with every field unset.
    pub fn new() -> (r: AssignmentFilter)
        ensures
            r.available_after is None,
            r.available_before is None,
            r.burned is None,
            r.hidden is None,
            r.ids is None,
            !r.immediately_available_for_lessons,
            !r.immediately_available_for_review,
            !r.in_review,
            r.levels is None,
            r.srs_stages is None,
            r.started is None,
            r.subject_ids is None,
            r.subject_types is None,
            r.unlocked is None,
            r.updated_after is None,
    {
        AssignmentFilter {
            available_after: None,
            available_before: None,
            burned: None,
            hidden: None,
            ids: None,
            immediately_available_for_lessons: false,
            immediately_available_for_review: false,
            in_review: false,
            levels: None,
            srs_stages: None,
            started: None,
            subject_ids: None,
            subject_types: None,
            unlocked: None,
            updated_after: None,
        }
    }

    /// Valid timestamps throughout.
    pub open spec fn wf(self) -> bool {
        &&& self.available_after matches Some(t) ==> t.wf()
        &&& self.available_before matches Some(t) ==> t.wf()
        &&& self.updated_after matches Some(t) ==> t.wf()
    }

    /// The first half of the parameter order: the bounds, the explicit
    /// booleans before the identifier list, the identifier list and the
    /// three pure flags.
    pub open spec fn params_a(self) -> Seq<ParamV> {
        opt_time_param("available_after"@, self.available_after) + opt_time_param(
            "available_before"@,
            self.available_before,
        ) + opt_bool_param("burned"@, self.burned) + opt_bool_param("hidden"@, self.hidden)
            + opt_csv_param("ids"@, ids_items(self.ids)) + flag_param(
            "immediately_available_for_lessons"@,
            self.immediately_available_for_lessons,
        ) + flag_param(
            "immediately_available_for_review"@,
            self.immediately_available_for_review,
        ) + flag_param("in_review"@, self.in_review)
    }

    /// The second half of the parameter order: the remaining lists,
    /// booleans and the update bound.
    pub open spec fn params_b(self) -> Seq<ParamV> {
        opt_csv_param("levels"@, u32_items(self.levels)) + opt_csv_param(
            "srs_stages"@,
            u32_items(self.srs_stages),
        ) + opt_bool_param("started"@, self.started) + opt_csv_param(
            "subject_ids"@,
            ids_items(self.subject_ids),
        ) + opt_csv_param("subject_types"@, subject_type_items(self.subject_types))
            + opt_bool_param("unlocked"@, self.unlocked) + opt_time_param(
            "updated_after"@,
            self.updated_after,
        )
    }

    /// The query parameters this filter serializes to, in the order they
    /// are appended.
    pub open spec fn params(self) -> Seq<ParamV> {
        self.params_a() + self.params_b()
    }

    /// Serializes the filter into query parameters.
    #[verifier::rlimit(100)]
    pub fn apply_filters(&self) -> (r: Vec<QueryParam>)
        requires
            self.wf(),
        ensures
            params_deep(r@) == self.params(),
    {
        let mut out: Vec<QueryParam> = self.apply_first_half();
        let mut second: Vec<QueryParam> = self.apply_second_half();
        proof {
            assert(params_deep(out@ + second@) =~= params_deep(out@) + params_deep(second@));
        }
        out.append(&mut second);
        proof {
            assert(params_deep(out@) =~= self.params());
        }
        out
    }

    #[verifier::rlimit(100)]
    fn apply_first_half(&self) -> (out: Vec<QueryParam>)
        requires
            self.wf(),
        ensures
            params_deep(out@) == self.params_a(),
    {
        let mut out: Vec<QueryParam> = Vec::new();
        let ghost mut done: Seq<ParamV> = Seq::empty();
        match &self.available_after {
            Some(t) => {
                out.push(QueryParam::pair("available_after", t.to_rfc3339()));
            },
            None => {},
        }
        proof {
            done = done + opt_time_param("available_after"@, self.available_after);
            assert(params_deep(out@) =~= done);
        }
        match &self.available_before {
            Some(t) => {
                out.push(QueryParam::pair("available_before", t.to_rfc3339()));
            },
            None => {},
        }
        proof {
            done = done + opt_time_param("available_before"@, self.available_before);
            assert(params_deep(out@) =~= done);
        }
        match &self.burned {
            Some(b) => {
                out.push(QueryParam::pair("burned", bool_to_string(*b)));
            },
            None => {},
        }
        proof {
            done = done + opt_bool_param("burned"@, self.burned);
            assert(params_deep(out@) =~= done);
        }
        match &self.hidden {
            Some(b) => {
                out.push(QueryParam::pair("hidden", bool_to_string(*b)));
            },
            None => {},
        }
        proof {
            done = done + opt_bool_param("hidden"@, self.hidden);
            assert(params_deep(out@) =~= done);
        }
        match &self.ids {
            Some(v) => {
                out.push(QueryParam::pair("ids", csv_u64(v)));
            },
            None => {},
        }
        proof {
            done = done + opt_csv_param("ids"@, ids_items(self.ids));
            assert(params_deep(out@) =~= done);
        }
        if self.immediately_available_for_lessons {
            out.push(QueryParam::flag("immediately_available_for_lessons"));
        }
        proof {
            done = done + flag_param(
                "immediately_available_for_lessons"@,
                self.immediately_available_for_lessons,
            );
            assert(params_deep(out@) =~= done);
        }
        if self.immediately_available_for_review {
            out.push(QueryParam::flag("immediately_available_for_review"));
        }
        proof {
            done = done + flag_param(
                "immediately_available_for_review"@,
                self.immediately_available_for_review,
            );
            assert(params_deep(out@) =~= done);
        }
        if self.in_review {
            out.push(QueryParam::flag("in_review"));
        }
        proof {
            done = done + flag_param("in_review"@, self.in_review);
            assert(params_deep(out@) =~= done);
            assert(done =~= self.params_a());
        }
        out
    }

    #[verifier::rlimit(100)]
    fn apply_second_half(&self) -> (out: Vec<QueryParam>)
        requires
            self.wf(),
        ensures
            params_deep(out@) == self.params_b(),
    {
        let mut out: Vec<QueryParam> = Vec::new();
        let ghost mut done: Seq<ParamV> = Seq::empty();
        match &self.levels {
            Some(v) => {
                out.push(QueryParam::pair("levels", csv_u32(v)));
            },
            None => {},
        }
        proof {
            done = done + opt_csv_param("levels"@, u32_items(self.levels));
            assert(params_deep(out@) =~= done);
        }
        match &self.srs_stages {
            Some(v) => {
                out.push(QueryParam::pair("srs_stages", csv_u32(v)));
            },
            None => {},
        }
        proof {
            done = done + opt_csv_param("srs_stages"@, u32_items(self.srs_stages));
            assert(params_deep(out@) =~= done);
        }
        match &self.started {
            Some(b) => {
                out.push(QueryParam::pair("started", bool_to_string(*b)));
            },
            None => {},
        }
        proof {
            done = done + opt_bool_param("started"@, self.started);
            assert(params_deep(out@) =~= done);
        }
        match &self.subject_ids {
            Some(v) => {
                out.push(QueryParam::pair("subject_ids", csv_u64(v)));
            },
            None => {},
        }
        proof {
            done = done + opt_csv_param("subject_ids"@, ids_items(self.subject_ids));
            assert(params_deep(out@) =~= done);
        }
        match &self.subject_types {
            Some(v) => {
                out.push(QueryParam::pair("subject_types", csv_subject_types(v)));
            },
            None => {},
        }
        proof {
            done = done + opt_csv_param("subject_types"@, subject_type_items(self.subject_types));
            assert(params_deep(out@) =~= done);
        }
        match &self.unlocked {
            Some(b) => {
                out.push(QueryParam::pair("unlocked", bool_to_string(*b)));
            },
            None => {},
        }
        proof {
            done = done + opt_bool_param("unlocked"@, self.unlocked);
            assert(params_deep(out@) =~= done);
        }
        match &self.updated_after {
            Some(t) => {
                out.push(QueryParam::pair("updated_after", t.to_rfc3339()));
            },
            None => {},
        }
        proof {
            done = done + opt_time_param("updated_after"@, self.updated_after);
            assert(params_deep(out@) =~= done);
            assert(done =~= self.params_b());
        }
        out
    }
}

/// The entries of a parameter list under one name.
pub open spec fn with_key(params: Seq<ParamV>, key: Seq<char>) -> Seq<ParamV> {
    params.filter(|p: ParamV| p.0 == key)
}

proof fn lemma_filter_none(key: Seq<char>)
    ensures
        with_key(Seq::empty(), key) == Seq::<ParamV>::empty(),
{
    reveal_with_fuel(Seq::filter, 2);
}

proof fn lemma_filter_one(p: ParamV, key: Seq<char>)
    ensures
        with_key(seq![p], key) == if p.0 == key {
            seq![p]
        } else {
            Seq::<ParamV>::empty()
        },
{
    reveal_with_fuel(Seq::filter, 2);
    assert(seq![p].drop_last() =~= Seq::<ParamV>::empty());
    if p.0 == key {
        assert(with_key(seq![p], key) =~= seq![p]);
    }
}

/// An empty filter produces no query parameters, and so an empty query
/// string.
pub proof fn lemma_empty_id_filter(f: IdFilter)
    requires
        f.ids is None,
        f.updated_after is None,
    ensures
        f.params() == Seq::<ParamV>::empty(),
        query_string(f.params()) == Seq::<char>::empty(),
{
    assert(f.params() =~= Seq::<ParamV>::empty());
}

/// An empty filter produces no query parameters, and so an empty query
/// string.
pub proof fn lemma_empty_study_material_filter(f: StudyMaterialFilter)
    requires
        f.hidden is None,
        f.ids is None,
        f.subject_ids is None,
        f.subject_types is None,
        f.updated_after is None,
    ensures
        f.params() == Seq::<ParamV>::empty(),
        query_string(f.params()) == Seq::<char>::empty(),
{
    assert(f.params() =~= Seq::<ParamV>::empty());
}

/// An empty filter produces no query parameters, and so an empty query
/// string.
pub proof fn lemma_empty_subject_filter(f: SubjectFilter)
    requires
        f.ids is None,
        f.types is None,
        f.slugs is None,
        f.levels is None,
        f.hidden is None,
        f.updated_after is None,
    ensures
        f.params() == Seq::<ParamV>::empty(),
        query_string(f.params()) == Seq::<char>::empty(),
{
    assert(f.params() =~= Seq::<ParamV>::empty());
}

/// An empty filter produces no query parameters, and so an empty query
/// string.
pub proof fn lemma_empty_review_statistic_filter(f: ReviewStatisticFilter)
    requires
        f.hidden is None,
        f.ids is None,
        f.percentages_greater_than is None,
        f.percentages_less_than is None,
        f.subject_ids is None,
        f.subject_types is None,
        f.updated_after is None,
    ensures
        f.params() == Seq::<ParamV>::empty(),
        query_string(f.params()) == Seq::<char>::empty(),
{
    assert(f.params() =~= Seq::<ParamV>::empty());
}

/// An empty filter produces no query parameters, and so an empty query
/// string.
pub proof fn lemma_empty_assignment_filter(f: AssignmentFilter)
    requires
        f.available_after is None,
        f.available_before is None,
        f.burned is None,
        f.hidden is None,
        f.ids is None,
        !f.immediately_available_for_lessons,
        !f.immediately_available_for_review,
        !f.in_review,
        f.levels is None,
        f.srs_stages is None,
        f.started is None,
        f.subject_ids is None,
        f.subject_types is None,
        f.unlocked is None,
        f.updated_after is None,
    ensures
        f.params() == Seq::<ParamV>::empty(),
        query_string(f.params()) == Seq::<char>::empty(),
{
    assert(f.params() =~= Seq::<ParamV>::empty());
}

/// A list filter set to any list of identifiers appears exactly once in the
/// query parameters, as one comma-joined value in insertion order; unset,
/// it does not appear at all.
pub proof fn lemma_id_filter_ids_once(f: IdFilter)
    ensures
        with_key(f.params(), "ids"@) == match f.ids {
            Some(v) => seq![("ids"@, Some(join_comma(dec_seq_u64(v@))))],
            None => Seq::<ParamV>::empty(),
        },
{
    broadcast use vstd::seq_lib::group_seq_properties;

    reveal_strlit("ids");
    reveal_strlit("updated_after");
    assert("ids"@.len() == 3);
    assert("updated_after"@.len() == 13);
    let p1 = opt_csv_param("ids"@, ids_items(f.ids));
    let p2 = opt_time_param("updated_after"@, f.updated_after);
    Seq::filter_distributes_over_add(p1, p2, |p: ParamV| p.0 == "ids"@);
    match f.ids {
        Some(v) => {
            lemma_filter_one(("ids"@, Some(join_comma(dec_seq_u64(v@)))), "ids"@);
        },
        None => {
            lemma_filter_none("ids"@);
        },
    }
    match f.updated_after {
        Some(t) => {
            lemma_filter_one(("updated_after"@, Some(rfc3339(t))), "ids"@);
        },
        None => {
            lemma_filter_none("ids"@);
        },
    }
    assert(with_key(f.params(), "ids"@) =~= with_key(p1, "ids"@) + with_key(p2, "ids"@));
    assert(with_key(p2, "ids"@) =~= Seq::<ParamV>::empty());
}

/// A pure flag adds its bare key exactly once when set, and never appears
/// when unset; it is never written as a `=false` pair.
/// A pure flag adds its bare key exactly once when set, and never appears
/// when unset; it is never written as a `=false` pair.
pub proof fn lemma_assignment_filter_flag(f: AssignmentFilter)
    ensures
        with_key(f.params(), "in_review"@) == if f.in_review {
            seq![("in_review"@, None::<Seq<char>>)]
        } else {
            Seq::<ParamV>::empty()
        },
{
    let key = "in_review"@;
    let pred = |p: ParamV| p.0 == key;
    lemma_flag_in_params_a(f);
    lemma_flag_not_in_params_b(f);
    Seq::filter_distributes_over_add(f.params_a(), f.params_b(), pred);
    if f.in_review {
        assert(with_key(f.params(), key) =~= seq![("in_review"@, None::<Seq<char>>)]);
    } else {
        assert(with_key(f.params(), key) =~= Seq::<ParamV>::empty());
    }
}

#[verifier::rlimit(100)]
proof fn lemma_flag_in_params_a(f: AssignmentFilter)
    ensures
        with_key(f.params_a(), "in_review"@) == if f.in_review {
            seq![("in_review"@, None::<Seq<char>>)]
        } else {
            Seq::<ParamV>::empty()
        },
{
    reveal_strlit("available_after");
    reveal_strlit("available_before");
    reveal_strlit("burned");
    reveal_strlit("hidden");
    reveal_strlit("ids");
    reveal_strlit("immediately_available_for_lessons");
    reveal_strlit("immediately_available_for_review");
    reveal_strlit("in_review");
    assert("available_after"@.len() == 15);
    assert("available_before"@.len() == 16);
    assert("burned"@.len() == 6);
    assert("hidden"@.len() == 6);
    assert("ids"@.len() == 3);
    assert("immediately_available_for_lessons"@.len() == 33);
    assert("immediately_available_for_review"@.len() == 32);
    assert("in_review"@.len() == 9);
    let key = "in_review"@;
    let pred = |p: ParamV| p.0 == key;
    lemma_with_key_segment_time("available_after"@, f.available_after, key);
    lemma_with_key_segment_time("available_before"@, f.available_before, key);
    lemma_with_key_segment_bool("burned"@, f.burned, key);
    lemma_with_key_segment_bool("hidden"@, f.hidden, key);
    lemma_with_key_segment_csv("ids"@, ids_items(f.ids), key);
    lemma_with_key_segment_flag(
        "immediately_available_for_lessons"@,
        f.immediately_available_for_lessons,
        key,
    );
    lemma_with_key_segment_flag(
        "immediately_available_for_review"@,
        f.immediately_available_for_review,
        key,
    );
    let pa1 = opt_time_param("available_after"@, f.available_after);
    let pa2 = pa1 + opt_time_param("available_before"@, f.available_before);
    let pa3 = pa2 + opt_bool_param("burned"@, f.burned);
    let pa4 = pa3 + opt_bool_param("hidden"@, f.hidden);
    let pa5 = pa4 + opt_csv_param("ids"@, ids_items(f.ids));
    let pa6 = pa5 + flag_param(
        "immediately_available_for_lessons"@,
        f.immediately_available_for_lessons,
    );
    let pa7 = pa6 + flag_param(
        "immediately_available_for_review"@,
        f.immediately_available_for_review,
    );
    let pa8 = pa7 + flag_param("in_review"@, f.in_review);
    assert(f.params_a() =~= pa8);
    Seq::filter_distributes_over_add(
        pa1,
        opt_time_param("available_before"@, f.available_before),
        pred,
    );
    Seq::filter_distributes_over_add(pa2, opt_bool_param("burned"@, f.burned), pred);
    Seq::filter_distributes_over_add(pa3, opt_bool_param("hidden"@, f.hidden), pred);
    Seq::filter_distributes_over_add(pa4, opt_csv_param("ids"@, ids_items(f.ids)), pred);
    Seq::filter_distributes_over_add(
        pa5,
        flag_param(
            "immediately_available_for_lessons"@,
            f.immediately_available_for_lessons,
        ),
        pred,
    );
    Seq::filter_distributes_over_add(
        pa6,
        flag_param(
            "immediately_available_for_review"@,
            f.immediately_available_for_review,
        ),
        pred,
    );
    Seq::filter_distributes_over_add(pa7, flag_param("in_review"@, f.in_review), pred);
    if f.in_review {
        lemma_filter_one(("in_review"@, None::<Seq<char>>), key);
        assert(with_key(pa8, key) =~= seq![("in_review"@, None::<Seq<char>>)]);
    } else {
        lemma_filter_none(key);
        assert(with_key(pa8, key) =~= Seq::<ParamV>::empty());
    }
}

#[verifier::rlimit(100)]
proof fn lemma_flag_not_in_params_b(f: AssignmentFilter)
    ensures
        with_key(f.params_b(), "in_review"@) == Seq::<ParamV>::empty(),
{
    reveal_strlit("in_review");
    reveal_strlit("levels");
    reveal_strlit("srs_stages");
    reveal_strlit("started");
    reveal_strlit("subject_ids");
    reveal_strlit("subject_types");
    reveal_strlit("unlocked");
    reveal_strlit("updated_after");
    assert("in_review"@.len() == 9);
    assert("levels"@.len() == 6);
    assert("srs_stages"@.len() == 10);
    assert("started"@.len() == 7);
    assert("subject_ids"@.len() == 11);
    assert("subject_types"@.len() == 13);
    assert("unlocked"@.len() == 8);
    assert("updated_after"@.len() == 13);
    let key = "in_review"@;
    let pred = |p: ParamV| p.0 == key;
    lemma_with_key_segment_csv("levels"@, u32_items(f.levels), key);
    lemma_with_key_segment_csv("srs_stages"@, u32_items(f.srs_stages), key);
    lemma_with_key_segment_bool("started"@, f.started, key);
    lemma_with_key_segment_csv("subject_ids"@, ids_items(f.subject_ids), key);
    lemma_with_key_segment_csv("subject_types"@, subject_type_items(f.subject_types), key);
    lemma_with_key_segment_bool("unlocked"@, f.unlocked, key);
    lemma_with_key_segment_time("updated_after"@, f.updated_after, key);
    let pb1 = opt_csv_param("levels"@, u32_items(f.levels));
    let pb2 = pb1 + opt_csv_param("srs_stages"@, u32_items(f.srs_stages));
    let pb3 = pb2 + opt_bool_param("started"@, f.started);
    let pb4 = pb3 + opt_csv_param("subject_ids"@, ids_items(f.subject_ids));
    let pb5 = pb4 + opt_csv_param("subject_types"@, subject_type_items(f.subject_types));
    let pb6 = pb5 + opt_bool_param("unlocked"@, f.unlocked);
    let pb7 = pb6 + opt_time_param("updated_after"@, f.updated_after);
    assert(f.params_b() =~= pb7);
    Seq::filter_distributes_over_add(
        pb1,
        opt_csv_param("srs_stages"@, u32_items(f.srs_stages)),
        pred,
    );
    Seq::filter_distributes_over_add(pb2, opt_bool_param("started"@, f.started), pred);
    Seq::filter_distributes_over_add(
        pb3,
        opt_csv_param("subject_ids"@, ids_items(f.subject_ids)),
        pred,
    );
    Seq::filter_distributes_over_add(
        pb4,
        opt_csv_param("subject_types"@, subject_type_items(f.subject_types)),
        pred,
    );
    Seq::filter_distributes_over_add(pb5, opt_bool_param("unlocked"@, f.unlocked), pred);
    Seq::filter_distributes_over_add(
        pb6,
        opt_time_param("updated_after"@, f.updated_after),
        pred,
    );
    assert(with_key(pb7, key) =~= Seq::<ParamV>::empty());
}

proof fn lemma_with_key_segment_time(k: Seq<char>, t: Option<Timestamp>, key: Seq<char>)
    requires
        k != key,
    ensures
        with_key(opt_time_param(k, t), key) == Seq::<ParamV>::empty(),
{
    match t {
        Some(x) => {
            lemma_filter_one((k, Some(rfc3339(x))), key);
        },
        None => {
            lemma_filter_none(key);
        },
    }
}

proof fn lemma_with_key_segment_bool(k: Seq<char>, b: Option<bool>, key: Seq<char>)
    requires
        k != key,
    ensures
        with_key(opt_bool_param(k, b), key) == Seq::<ParamV>::empty(),
{
    match b {
        Some(x) => {
            lemma_filter_one((k, Some(bool_str(x))), key);
        },
        None => {
            lemma_filter_none(key);
        },
    }
}

proof fn lemma_with_key_segment_csv(
    k: Seq<char>,
    items: Option<Seq<Seq<char>>>,
    key: Seq<char>,
)
    requires
        k != key,
    ensures
        with_key(opt_csv_param(k, items), key) == Seq::<ParamV>::empty(),
{
    match items {
        Some(v) => {
            lemma_filter_one((k, Some(join_comma(v))), key);
        },
        None => {
            lemma_filter_none(key);
        },
    }
}

proof fn lemma_with_key_segment_flag(k: Seq<char>, b: bool, key: Seq<char>)
    requires
        k != key,
    ensures
        with_key(flag_param(k, b), key) == Seq::<ParamV>::empty(),
{
    if b {
        lemma_filter_one((k, None::<Seq<char>>), key);
    } else {
        lemma_filter_none(key);
    }
}

/// A URL under the API base: the base, a slash and the path, then `?` and
/// the query string only when there are parameters.
pub open spec fn collection_url_v(path: Seq<char>, params: Seq<ParamV>) -> Seq<char> {
    crate::URL_BASE@ + "/"@ + path + if params.len() == 0 {
        Seq::<char>::empty()
    } else {
        seq!['?'] + query_string(params)
    }
}

/// A URL naming one resource: the base, the collection path and the
/// identifier as a path segment.
pub open spec fn resource_url_v(path: Seq<char>, id: u64) -> Seq<char> {
    crate::URL_BASE@ + "/"@ + path + "/"@ + dec_digits(id as int)
}

/// Writes a collection URL with its filter parameters.
pub fn collection_url(path: &str, params: &Vec<QueryParam>) -> (r: String)
    ensures
        r@ == collection_url_v(path@, params_deep(params@)),
{
    let mut r: String = crate::URL_BASE.to_owned();
    r.append("/");
    r.append(path);
    if params.len() > 0 {
        r.append("?");
        let q = encode_query(params);
        r.append(q.as_str());
        proof {
            reveal_strlit("?");
            assert("?"@ =~= seq!['?']);
            assert(params_deep(params@).len() == params@.len());
            assert(r@ =~= collection_url_v(path@, params_deep(params@)));
        }
    } else {
        proof {
            assert(params_deep(params@).len() == params@.len());
            assert(r@ =~= collection_url_v(path@, params_deep(params@)));
        }
    }
    r
}

/// Writes the URL of one resource.
pub fn resource_url(path: &str, id: u64) -> (r: String)
    ensures
        r@ == resource_url_v(path@, id),
{
    let mut r: String = crate::URL_BASE.to_owned();
    r.append("/");
    r.append(path);
    r.append("/");
    let d = u64_to_string(id);
    r.append(d.as_str());
    proof {
        assert(r@ =~= resource_url_v(path@, id));
    }
    r
}

/// The URL for listing assignments under a filter.
pub fn assignments_url(filters: &AssignmentFilter) -> (r: String)
    requires
        filters.wf(),
    ensures
        r@ == collection_url_v("assignments"@, filters.params()),
{
    let params = filters.apply_filters();
    collection_url("assignments", &params)
}

/// The URL of one assignment.
pub fn assignment_url(id: u64) -> (r: String)
    ensures
        r@ == resource_url_v("assignments"@, id),
{
    resource_url("assignments", id)
}

/// The URL that starts an assignment.
pub fn start_assignment_url(id: u64) -> (r: String)
    ensures
        r@ == resource_url_v("assignments"@, id) + "/start"@,
{
    let mut r = resource_url("assignments", id);
    r.append("/start");
    r
}

/// The URL for listing voice actors under a filter.
pub fn voice_actors_url(filters: &IdFilter) -> (r: String)
    requires
        filters.wf(),
    ensures
        r@ == collection_url_v("voice_actors"@, filters.params()),
{
    let params = filters.apply_filters();
    collection_url("voice_actors", &params)
}

/// The URL of one voice actor.
pub fn voice_actor_url(id: u64) -> (r: String)
    ensures
        r@ == resource_url_v("voice_actors"@, id),
{
    resource_url("voice_actors", id)
}

/// The URL for listing level progressions under a filter.
pub fn level_progressions_url(filters: &IdFilter) -> (r: String)
    requires
        filters.wf(),
    ensures
        r@ == collection_url_v("level_progressions"@, filters.params()),
{
    let params = filters.apply_filters();
    collection_url("level_progressions", &params)
}

/// The URL of one level progression.
pub fn level_progression_url(id: u64) -> (r: String)
    ensures
        r@ == resource_url_v("level_progressions"@, id),
{
    resource_url("level_progressions", id)
}

/// The URL for listing resets under a filter.
pub fn resets_url(filters: &IdFilter) -> (r: String)
    requires
        filters.wf(),
    ensures
        r@ == collection_url_v("resets"@, filters.params()),
{
    let params = filters.apply_filters();
    collection_url("resets", &params)
}

/// The URL of one reset.
pub fn reset_url(id: u64) -> (r: String)
    ensures
        r@ == resource_url_v("resets"@, id),
{
    resource_url("resets", id)
}

/// The URL for listing review statistics under a filter.
pub fn review_statistics_url(filters: &ReviewStatisticFilter) -> (r: String)
    requires
        filters.wf(),
    ensures
        r@ == collection_url_v("review_statistics"@, filters.params()),
{
    let params = filters.apply_filters();
    collection_url("review_statistics", &params)
}

/// The URL of one review statistic.
pub fn review_statistic_url(id: u64) -> (r: String)
    ensures
        r@ == resource_url_v("review_statistics"@, id),
{
    resource_url("review_statistics", id)
}

/// The URL for listing study materials under a filter.
pub fn study_materials_url(filters: &StudyMaterialFilter) -> (r: String)
    requires
        filters.wf(),
    ensures
        r@ == collection_url_v("study_materials"@, filters.params()),
{
    let params = filters.apply_filters();
    collection_url("study_materials", &params)
}

/// The URL of one study material.
pub fn study_material_url(id: u64) -> (r: String)
    ensures
        r@ == resource_url_v("study_materials"@, id),
{
    resource_url("study_materials", id)
}

/// The URL for creating study materials.
pub fn create_study_material_url() -> (r: String)
    ensures
        r@ == crate::URL_BASE@ + "/study_materials"@,
{
    let mut r: String = crate::URL_BASE.to_owned();
    r.append("/study_materials");
    r
}

/// The URL for listing subjects under a filter.
pub fn subjects_url(filters: &SubjectFilter) -> (r: String)
    requires
        filters.wf(),
    ensures
        r@ == collection_url_v("subjects"@, filters.params()),
{
    let params = filters.apply_filters();
    collection_url("subjects", &params)
}

/// The URL of one subject.
pub fn subject_url(id: u64) -> (r: String)
    ensures
        r@ == resource_url_v("subjects"@, id),
{
    resource_url("subjects", id)
}

/// The URL of the summary report.
pub fn summary_url() -> (r: String)
    ensures
        r@ == crate::URL_BASE@ + "/summary"@,
{
    let mut r: String = crate::URL_BASE.to_owned();
    r.append("/summary");
    r
}

/// The URL of the user endpoint.
pub fn user_url() -> (r: String)
    ensures
        r@ == crate::URL_BASE@ + "/user"@,
{
    let mut r: String = crate::URL_BASE.to_owned();
    r.append("/user");
    r
}

/// An HTTP method the client uses.
#[derive(Debug, Clone, Copy, PartialEq, Eq, Structural)]
pub enum HttpMethod {
    /// A read.
    Get,
    /// A create.
    Post,
    /// An update.
    Put,
}

/// One request, ready to send: its method, its URL, the two required
/// headers, and its JSON body when it has one.
#[derive(Debug, PartialEq, Eq)]
pub struct ApiRequest {
    /// The HTTP method.
    pub method: HttpMethod,
    /// The full URL, query string included.
    pub url: String,
    /// The headers to attach: authorization and API revision.
    pub headers: Vec<(String, String)>,
    /// The JSON body, for mutations.
    pub body: Option<JsonValue>,
}

/// The views of a header list.
pub open spec fn headers_deep(h: Seq<(String, String)>) -> Seq<(Seq<char>, Seq<char>)> {
    h.map_values(|p: (String, String)| (p.0@, p.1@))
}

/// The two headers every request carries: bearer authorization with the
/// secret token, and the fixed API revision.
pub open spec fn required_headers_v(token: Seq<char>) -> Seq<(Seq<char>, Seq<char>)> {
    seq![
        ("Authorization"@, "Bearer "@ + token),
        ("Wanikani-Revision"@, crate::API_VERSION@),
    ]
}

/// Writes the required headers for a request.
pub fn required_headers(token: &str) -> (r: Vec<(String, String)>)
    ensures
        headers_deep(r@) == required_headers_v(token@),
{
    let mut auth: String = "Bearer ".to_owned();
    auth.append(token);
    let mut r: Vec<(String, String)> = Vec::new();
    r.push(("Authorization".to_owned(), auth));
    r.push(("Wanikani-Revision".to_owned(), crate::API_VERSION.to_owned()));
    proof {
        assert(headers_deep(r@) =~= required_headers_v(token@));
    }
    r
}

/// A GET request with the required headers.
pub fn get_request(url: String, token: &str) -> (r: ApiRequest)
    ensures
        r.method == HttpMethod::Get,
        r.url == url,
        headers_deep(r.headers@) == required_headers_v(token@),
        r.body is None,
{
    ApiRequest { method: HttpMethod::Get, url, headers: required_headers(token), body: None }
}

/// A PUT request with the required headers and a JSON body.
pub fn put_request(url: String, token: &str, body: JsonValue) -> (r: ApiRequest)
    ensures
        r.method == HttpMethod::Put,
        r.url == url,
        headers_deep(r.headers@) == required_headers_v(token@),
        r.body == Some(body),
{
    ApiRequest {
        method: HttpMethod::Put,
        url,
        headers: required_headers(token),
        body: Some(body),
    }
}

/// A POST request with the required headers and a JSON body.
pub fn post_request(url: String, token: &str, body: JsonValue) -> (r: ApiRequest)
    ensures
        r.method == HttpMethod::Post,
        r.url == url,
        headers_deep(r.headers@) == required_headers_v(token@),
        r.body == Some(body),
{
    ApiRequest {
        method: HttpMethod::Post,
        url,
        headers: required_headers(token),
        body: Some(body),
    }
}

/// The running state of a pagination walk: the resources gathered so far,
/// the first page's total count, and the next cursor URL to fetch, if any.
/// The caller fetches each `next_url` with the generic fetch-by-URL
/// operation and feeds the page back; the walk is complete when no next
/// cursor remains.
#[derive(Debug, PartialEq, Eq)]
pub struct PageWalk<T> {
    /// Every resource of every absorbed page, in page order.
    pub items: Vec<crate::resource::Resource<T>>,
    /// The total count the first page reported for the collection's scope.
    pub total_count: u64,
    /// The cursor URL of the page to fetch next; `None` when the walk is
    /// complete.
    pub next_url: Option<String>,
}

/// Starts a walk from the first page of a collection.
pub fn start_walk<T>(first: crate::resource::Collection<T>) -> (w: PageWalk<T>)
    ensures
        w.items@ == first.data@,
        w.total_count == first.total_count,
        w.next_url == first.pages.next_url,
{
    PageWalk {
        items: first.data,
        total_count: first.total_count,
        next_url: first.pages.next_url,
    }
}

/// Absorbs the next page: its resources are appended after all earlier
/// ones, in order, and the cursor moves to that page's next URL.
pub fn absorb_page<T>(w: PageWalk<T>, next: crate::resource::Collection<T>) -> (r: PageWalk<T>)
    ensures
        r.items@ == w.items@ + next.data@,
        r.total_count == w.total_count,
        r.next_url == next.pages.next_url,
{
    let mut items = w.items;
    let mut incoming = next.data;
    items.append(&mut incoming);
    PageWalk { items, total_count: w.total_count, next_url: next.pages.next_url }
}

impl<T> PageWalk<T> {
    /// True exactly when no next cursor remains: the caller loops until
    /// this holds.  When the server's scope has not changed underneath the
    /// walk, the items gathered at completion are the whole collection and
    /// their number equals the first page's total count.
    pub fn is_complete(&self) -> (r: bool)
        ensures
            r == (self.next_url is None),
    {
        match &self.next_url {
            Some(_) => false,
            None => true,
        }
    }
}

} // verus!
