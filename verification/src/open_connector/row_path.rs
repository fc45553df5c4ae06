//! Row paths: where in a response document the rows, or one value, lie.
//!
//! A path is `$.` followed by object keys separated by dots. It is parsed
//! once and then walked over each page.
use vstd::prelude::*;

use crate::json;
use crate::json::{get_member, Json, JsonView};
use crate::open_connector::error::{ErrorView, OpenConnectorError};
use crate::text;
use crate::text::{chars_of, split_chars, starts_with};

verus! {

/// The keys that a path names, in order.
pub open spec fn segments_of(path: Seq<char>) -> Seq<Seq<char>> {
    text::split_on(path.skip(2), '.')
}

/// Why a path is not one, if it is not.
pub open spec fn path_problem(path: Seq<char>) -> Option<Seq<char>> {
    if !text::has_prefix(path, "$."@) {
        Some("must start with '$.'"@)
    } else if exists|i: int|
        0 <= i < segments_of(path).len() && (#[trigger] segments_of(path)[i]).len() == 0 {
        Some("must not contain an empty segment"@)
    } else {
        None
    }
}

/// What parsing a path gives.
pub open spec fn parsed_path(path: Seq<char>) -> Result<Seq<char>, ErrorView> {
    match path_problem(path) {
        Some(reason) => Err(ErrorView::InvalidRowPath { path, reason }),
        None => Ok(path),
    }
}

/// Where a walk over a document ends.
pub enum Walked {
    /// At this value.
    Found(JsonView),
    /// At an object that lacks this key.
    Missing(Seq<char>),
    /// In front of this key, at a value of this kind that is no object.
    Blocked(Seq<char>, Seq<char>),
}

/// Follows `segments` from `value` downwards.
pub open spec fn walk(value: JsonView, segments: Seq<Seq<char>>) -> Walked
    decreases segments.len(),
{
    if segments.len() == 0 {
        Walked::Found(value)
    } else {
        match value {
            JsonView::Object(members) => if members.contains_key(segments[0]) {
                walk(members[segments[0]], segments.skip(1))
            } else {
                Walked::Missing(segments[0])
            },
            _ => Walked::Blocked(segments[0], value.described_kind()),
        }
    }
}

/// What a path extracts from a document; `page` is for messages only.
pub open spec fn extracted(path: Seq<char>, value: JsonView, page: usize) -> Result<
    JsonView,
    ErrorView,
> {
    match walk(value, segments_of(path)) {
        Walked::Found(found) => Ok(found),
        Walked::Missing(segment) => Err(ErrorView::RowPathNotFound { path, segment, page }),
        Walked::Blocked(segment, found) => Err(
            ErrorView::RowPathNotObject { path, segment, page, found },
        ),
    }
}

/// The rows that a path extracts: its value must be an array.
pub open spec fn extracted_rows(path: Seq<char>, value: JsonView, page: usize) -> Result<
    Seq<JsonView>,
    ErrorView,
> {
    match extracted(path, value, page) {
        Ok(JsonView::Array(items)) => Ok(items),
        Ok(other) => Err(
            ErrorView::RowPathNotArray { path, page, found: other.described_kind() },
        ),
        Err(e) => Err(e),
    }
}

/// A result by the models of its two sides.
pub open spec fn result_view<T: View>(r: Result<T, OpenConnectorError>) -> Result<T::V, ErrorView> {
    match r {
        Ok(value) => Ok(value@),
        Err(e) => Err(e@),
    }
}

/// A parsed row path; its model is its text.
#[derive(Debug)]
pub struct RowPath {
    raw: String,
    segments: Vec<String>,
}

impl View for RowPath {
    type V = Seq<char>;

    closed spec fn view(&self) -> Seq<char> {
        self.raw@
    }
}

impl RowPath {
    #[verifier::type_invariant]
    spec fn parsed(self) -> bool {
        &&& path_problem(self.raw@) is None
        &&& text::texts(self.segments@) == segments_of(self.raw@)
    }

    /// Parses `$.key[.key…]`.
    pub fn parse(path: &str) -> (r: Result<RowPath, OpenConnectorError>)
        ensures
            result_view(r) == parsed_path(path@),
    {
        let chars = chars_of(path);
        proof {
            reveal_strlit("$.");
        }
        if !starts_with(&chars, "$.") {
            return Err(
                OpenConnectorError::InvalidRowPath {
                    path: path.to_owned(),
                    reason: "must start with '$.'".to_owned(),
                },
            );
        }
        let segments = split_chars(&chars, 2, '.');
        let mut i: usize = 0;
        while i < segments.len()
            invariant
                i <= segments@.len(),
                text::texts(segments@) == segments_of(path@),
                text::has_prefix(path@, "$."@),
                forall|j: int| 0 <= j < i ==> (#[trigger] segments@[j])@.len() > 0,
            decreases segments@.len() - i,
        {
            if segments[i].as_str().is_empty() {
                assert(segments_of(path@)[i as int].len() == 0);
                return Err(
                    OpenConnectorError::InvalidRowPath {
                        path: path.to_owned(),
                        reason: "must not contain an empty segment".to_owned(),
                    },
                );
            }
            i += 1;
        }
        proof {
            assert forall|j: int| 0 <= j < segments_of(path@).len() implies (
            #[trigger] segments_of(path@)[j]).len() != 0 by {
                assert(segments@[j]@ == segments_of(path@)[j]);
            }
        }
        Ok(RowPath { raw: path.to_owned(), segments })
    }

    /// The path as it was written.
    pub fn as_str(&self) -> (s: &str)
        ensures
            s@ == self@,
    {
        self.raw.as_str()
    }

    /// The value that the path leads to. A key that is absent from an object
    /// is reported apart from a value that cannot be entered.
    pub fn extract<'a>(&self, value: &'a Json, page: usize) -> (r: Result<
        &'a Json,
        OpenConnectorError,
    >)
        ensures
            result_view(r) == extracted(self@, value@, page),
    {
        proof {
            use_type_invariant(self);
        }
        let ghost all = segments_of(self@);
        let mut current: &'a Json = value;
        let mut i: usize = 0;
        assert(all.skip(0) =~= all);
        while i < self.segments.len()
            invariant
                i <= self.segments@.len(),
                self@ == self.raw@,
                all == segments_of(self@),
                text::texts(self.segments@) == all,
                walk(value@, all) == walk(current@, all.skip(i as int)),
            decreases self.segments@.len() - i,
        {
            let segment = &self.segments[i];
            assert(all.skip(i as int)[0] == segment@);
            assert(all.skip(i as int).skip(1) =~= all.skip(i + 1));
            match current {
                Json::Object(members) => {
                    match get_member(members, segment.as_str()) {
                        Some(next) => {
                            current = next;
                        },
                        None => {
                            return Err(
                                OpenConnectorError::RowPathNotFound {
                                    path: self.raw.clone(),
                                    segment: segment.clone(),
                                    page,
                                },
                            );
                        },
                    }
                },
                other => {
                    return Err(
                        OpenConnectorError::RowPathNotObject {
                            path: self.raw.clone(),
                            segment: segment.clone(),
                            page,
                            found: other.described_kind().to_owned(),
                        },
                    );
                },
            }
            i += 1;
        }
        assert(all.skip(i as int) =~= Seq::empty());
        Ok(current)
    }

    /// The rows that the path leads to.
    pub fn rows<'a>(&self, value: &'a Json, page: usize) -> (r: Result<
        &'a Vec<Json>,
        OpenConnectorError,
    >)
        ensures
            match r {
                Ok(rows) => extracted_rows(self@, value@, page) == Ok::<_, ErrorView>(json::views(rows@)),
                Err(e) => extracted_rows(self@, value@, page) == Err::<Seq<JsonView>, _>(e@),
            },
    {
        match self.extract(value, page) {
            Ok(found) => match found {
                Json::Array(items) => {
                    assert(found@->Array_0 =~= json::views(items@));
                    Ok(items)
                },
                other => Err(
                    OpenConnectorError::RowPathNotArray {
                        path: self.raw.clone(),
                        page,
                        found: other.described_kind().to_owned(),
                    },
                ),
            },
            Err(e) => Err(e),
        }
    }
}

/// A walk that is stopped says of what kind the value in its way is, and no
/// more of it.
pub proof fn blocked_by_kind(value: JsonView, segments: Seq<Seq<char>>)
    ensures
        walk(value, segments) matches Walked::Blocked(_, found) ==> json::described_kind_name(
            found,
        ),
    decreases segments.len(),
{
    if segments.len() > 0 {
        match value {
            JsonView::Object(members) => blocked_by_kind(members[segments[0]], segments.skip(1)),
            _ => {},
        }
    }
}

} // verus!
