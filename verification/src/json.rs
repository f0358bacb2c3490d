use vstd::prelude::*;

verus! {

/// Whether a text parses as a JSON document.
pub uninterp spec fn spec_json_ok(body: Seq<char>) -> bool;

/// The keys of the JSON object found at `.body.<category>` of the parsed
/// document, in document order; `None` when the text does not parse or
/// that path does not hold an object.
pub uninterp spec fn spec_category_ids(body: Seq<char>, category: Seq<char>) -> Option<
    Seq<Seq<char>>,
>;

/// The string at `.body.title` of the parsed document, if any.
pub uninterp spec fn spec_item_title(body: Seq<char>) -> Option<Seq<char>>;

/// The integer at `.body.pageCount` of the parsed document, if any.
pub uninterp spec fn spec_item_page_count(body: Seq<char>) -> Option<i64>;

/// The integer at `.body.xRestrict` of the parsed document, if any.
pub uninterp spec fn spec_item_restrict(body: Seq<char>) -> Option<i64>;

/// The string at `.body.urls.original` of the parsed document, if any.
pub uninterp spec fn spec_item_original_url(body: Seq<char>) -> Option<Seq<char>>;

/// Relies on serde_json::from_str: tells whether the text is valid JSON.
#[verifier::external_body]
pub(crate) fn json_ok(body: &str) -> (r: bool)
    ensures
        r == spec_json_ok(body@),
{
    serde_json::from_str::<serde_json::Value>(body).is_ok()
}

/// Relies on serde_json::from_str, Value::get and Value::as_object: the
/// keys of the object at `.body.<category>`, in document order.
#[verifier::external_body]
pub(crate) fn category_ids(body: &str, category: &str) -> (r: Option<Vec<String>>)
    ensures
        match r {
            Some(ids) => spec_category_ids(body@, category@) == Some(ids.deep_view()),
            None => spec_category_ids(body@, category@) is None,
        },
{
    let v: serde_json::Value = serde_json::from_str(body).ok()?;
    let obj = v.get("body")?.get(category)?.as_object()?;
    Some(obj.keys().cloned().collect())
}

/// Relies on serde_json::from_str, Value::get and Value::as_str: the
/// string at `.body.title`.
#[verifier::external_body]
pub(crate) fn item_title(body: &str) -> (r: Option<String>)
    ensures
        match r {
            Some(t) => spec_item_title(body@) == Some(t@),
            None => spec_item_title(body@) is None,
        },
{
    let v: serde_json::Value = serde_json::from_str(body).ok()?;
    Some(v.get("body")?.get("title")?.as_str()?.to_owned())
}

/// Relies on serde_json::from_str, Value::get and Value::as_i64: the
/// integer at `.body.pageCount`.
#[verifier::external_body]
pub(crate) fn item_page_count(body: &str) -> (r: Option<i64>)
    ensures
        r == spec_item_page_count(body@),
{
    let v: serde_json::Value = serde_json::from_str(body).ok()?;
    v.get("body")?.get("pageCount")?.as_i64()
}

/// Relies on serde_json::from_str, Value::get and Value::as_i64: the
/// integer at `.body.xRestrict`.
#[verifier::external_body]
pub(crate) fn item_restrict(body: &str) -> (r: Option<i64>)
    ensures
        r == spec_item_restrict(body@),
{
    let v: serde_json::Value = serde_json::from_str(body).ok()?;
    v.get("body")?.get("xRestrict")?.as_i64()
}

/// Relies on serde_json::from_str, Value::get and Value::as_str: the
/// string at `.body.urls.original`.
#[verifier::external_body]
pub(crate) fn item_original_url(body: &str) -> (r: Option<String>)
    ensures
        match r {
            Some(u) => spec_item_original_url(body@) == Some(u@),
            None => spec_item_original_url(body@) is None,
        },
{
    let v: serde_json::Value = serde_json::from_str(body).ok()?;
    Some(v.get("body")?.get("urls")?.get("original")?.as_str()?.to_owned())
}

} // verus!
