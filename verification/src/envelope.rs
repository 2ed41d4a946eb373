//! Interpreting the uniform response envelope.
//!
//! Every management endpoint answers with JSON shaped
//! `{success, result, result_info, errors}`. The functions here decide, for
//! one parsed response document, what the operation's outcome is: the typed
//! payload, or which error. Each exec function is proved equal to a spec
//! function that states the decision over the document's model.

use vstd::prelude::*;

use crate::error::KvError;
use crate::error::KvErrorView;
use crate::json::arr_view;
use crate::json::json_text;
use crate::json::lemma_arr_view_index;
use crate::json::obj_get;
use crate::json::JsonValue;
use crate::json::JsonView;

verus! {

/// A namespace as the service reports it: a server-assigned id and the
/// caller-supplied title.
#[derive(Debug, Clone, PartialEq, Eq)]
pub struct Namespace {
    pub id: String,
    pub title: String,
}

/// The model of a namespace.
pub struct NamespaceView {
    pub id: Seq<char>,
    pub title: Seq<char>,
}

impl View for Namespace {
    type V = NamespaceView;

    open spec fn view(&self) -> NamespaceView {
        NamespaceView { id: self.id@, title: self.title@ }
    }
}

impl DeepView for Namespace {
    type V = NamespaceView;

    open spec fn deep_view(&self) -> NamespaceView {
        self.view()
    }
}

/// One page of a key listing: the key names it carries, the cursor for the
/// next page (empty when this page is the last), and the server-reported
/// count.
#[derive(Debug, Clone, PartialEq, Eq)]
pub struct KeysPage {
    pub names: Vec<String>,
    pub cursor: String,
    pub count: u64,
}

/// The model of a key-listing page.
pub struct KeysPageView {
    pub names: Seq<Seq<char>>,
    pub cursor: Seq<char>,
    pub count: u64,
}

impl View for KeysPage {
    type V = KeysPageView;

    open spec fn view(&self) -> KeysPageView {
        KeysPageView { names: self.names.deep_view(), cursor: self.cursor@, count: self.count }
    }
}

/// Whether the envelope reports success: `Ok(flag)` when a boolean `success`
/// member is present, otherwise which protocol error the response earns.
pub open spec fn spec_check_success(v: JsonView) -> Result<bool, KvErrorView> {
    match obj_get(v, "success"@) {
        Some(s) => match s {
            JsonView::Bool(b) => Ok(b),
            _ => Err(
                KvErrorView::Protocol("The returned 'success' field is not a boolean value."@),
            ),
        },
        None => Err(
            KvErrorView::Protocol("The returned JSON does not contain the 'success' field."@),
        ),
    }
}

/// The outcome of an operation that carries no payload: success, a protocol
/// error on a bad `success` member, or a rejection carrying the serialized
/// envelope.
pub open spec fn spec_unit_outcome(v: JsonView) -> Result<(), KvErrorView> {
    match spec_check_success(v) {
        Err(e) => Err(e),
        Ok(b) => if b {
            Ok(())
        } else {
            Err(KvErrorView::RemoteRejection(json_text(v)))
        },
    }
}

/// A namespace read out of one JSON object: string members `id` and `title`.
pub open spec fn spec_namespace_of(v: JsonView) -> Result<NamespaceView, KvErrorView> {
    match obj_get(v, "id"@) {
        Some(JsonView::Str(id)) => match obj_get(v, "title"@) {
            Some(JsonView::Str(title)) => Ok(NamespaceView { id: id, title: title }),
            Some(_) => Err(
                KvErrorView::Protocol("The 'title' field cannot be converted to a string."@),
            ),
            None => Err(
                KvErrorView::Protocol("The 'title' field cannot be found in the 'result' field."@),
            ),
        },
        Some(_) => Err(KvErrorView::Protocol("The 'id' field cannot be converted to a string."@)),
        None => Err(
            KvErrorView::Protocol("The 'id' field cannot be found in the 'result' field."@),
        ),
    }
}

/// The namespaces read out of the elements of a `result` array, in order;
/// the first ill-formed element decides the error.
pub open spec fn spec_namespaces_of(items: Seq<JsonView>) -> Result<
    Seq<NamespaceView>,
    KvErrorView,
>
    decreases items,
{
    if items.len() == 0 {
        Ok(Seq::empty())
    } else {
        match spec_namespaces_of(items.drop_last()) {
            Err(e) => Err(e),
            Ok(rest) => match spec_namespace_of(items.last()) {
                Err(e) => Err(e),
                Ok(ns) => Ok(rest.push(ns)),
            },
        }
    }
}

/// The outcome of listing namespaces: the ordered namespaces of the `result`
/// array, or the error the envelope or an element earns.
pub open spec fn spec_namespace_list(v: JsonView) -> Result<Seq<NamespaceView>, KvErrorView> {
    match spec_check_success(v) {
        Err(e) => Err(e),
        Ok(b) => if !b {
            Err(KvErrorView::RemoteRejection(json_text(v)))
        } else {
            match obj_get(v, "result"@) {
                None => Err(
                    KvErrorView::Protocol("The returned JSON does not contain the 'result' field."@),
                ),
                Some(r) => match r {
                    JsonView::Arr(items) => spec_namespaces_of(items),
                    _ => Err(
                        KvErrorView::Protocol("The 'results' field cannot be converted to an array."@),
                    ),
                },
            }
        },
    }
}

/// The outcome of creating a namespace: the namespace described by `result`,
/// or the error the envelope or `result` earns.
pub open spec fn spec_created_namespace(v: JsonView) -> Result<NamespaceView, KvErrorView> {
    match spec_check_success(v) {
        Err(e) => Err(e),
        Ok(b) => if !b {
            Err(KvErrorView::RemoteRejection(json_text(v)))
        } else {
            match obj_get(v, "result"@) {
                None => Err(
                    KvErrorView::Protocol("The returned JSON does not contain the 'result' field."@),
                ),
                Some(r) => spec_namespace_of(r),
            }
        },
    }
}

/// The key names read out of the elements of a keys page, in order: each
/// element must carry a string `name` member.
pub open spec fn spec_names_of(items: Seq<JsonView>) -> Result<Seq<Seq<char>>, KvErrorView>
    decreases items,
{
    if items.len() == 0 {
        Ok(Seq::empty())
    } else {
        match spec_names_of(items.drop_last()) {
            Err(e) => Err(e),
            Ok(rest) => match obj_get(items.last(), "name"@) {
                Some(JsonView::Str(s)) => Ok(rest.push(s)),
                _ => Err(KvErrorView::Protocol("No name found in response."@)),
            },
        }
    }
}

/// The outcome of one key-listing request: the page's names, cursor and
/// count, or the error the envelope or a member earns.
pub open spec fn spec_keys_page(v: JsonView) -> Result<KeysPageView, KvErrorView> {
    match spec_check_success(v) {
        Err(e) => Err(e),
        Ok(b) => if !b {
            Err(KvErrorView::RemoteRejection(json_text(v)))
        } else {
            match obj_get(v, "result"@) {
                None => Err(KvErrorView::Protocol("No result found in response."@)),
                Some(r) => match r {
                    JsonView::Arr(items) => match spec_names_of(items) {
                        Err(e) => Err(e),
                        Ok(names) => match obj_get(v, "result_info"@) {
                            None => Err(
                                KvErrorView::Protocol("No result_info found in response."@),
                            ),
                            Some(ri) => match obj_get(ri, "cursor"@) {
                                Some(JsonView::Str(cursor)) => match obj_get(ri, "count"@) {
                                    Some(JsonView::Num(count)) => Ok(
                                        KeysPageView { names, cursor, count },
                                    ),
                                    _ => Err(
                                        KvErrorView::Protocol("No count found in response."@),
                                    ),
                                },
                                _ => Err(KvErrorView::Protocol("No cursor found in response."@)),
                            },
                        },
                    },
                    _ => Err(KvErrorView::Protocol("No result found in response."@)),
                },
            }
        },
    }
}

/// The outcome of reading a key's metadata: the raw `result` document,
/// unchanged, or the error the envelope earns.
pub open spec fn spec_metadata_outcome(v: JsonView) -> Result<JsonView, KvErrorView> {
    match spec_check_success(v) {
        Err(e) => Err(e),
        Ok(b) => if !b {
            Err(KvErrorView::RemoteRejection(json_text(v)))
        } else {
            match obj_get(v, "result"@) {
                Some(r) => Ok(r),
                None => Err(KvErrorView::Protocol("No result found in response."@)),
            }
        },
    }
}

/// The outcome of reading a value. The value endpoint answers with the raw
/// stored text, not an envelope, so any status other than 404 yields the body
/// verbatim. On 404 the body, parsed as JSON, is carried by a not-found
/// error; a 404 body that is not JSON (`parsed` is `None`) is a transport
/// failure.
pub open spec fn spec_value_outcome(
    status: u16,
    body: Seq<char>,
    parsed: Option<JsonView>,
) -> Result<Seq<char>, KvErrorView> {
    if status != 404 {
        Ok(body)
    } else {
        match parsed {
            Some(j) => Err(KvErrorView::NotFound(json_text(j))),
            None => Err(
                KvErrorView::Transport("The body of the response could not be parsed as JSON."@),
            ),
        }
    }
}

/// Decides whether the envelope reports success. `Ok(true)` and `Ok(false)`
/// report a boolean `success` member; a missing or non-boolean member is a
/// protocol error.
pub fn check_success(v: &JsonValue) -> (r: Result<bool, KvError>)
    ensures
        match r {
            Ok(b) => spec_check_success(v@) matches Ok(b2) && b2 == b,
            Err(e) => spec_check_success(v@) matches Err(ev) && ev == e@,
        },
{
    match v.get("success") {
        Some(j) => match j {
            JsonValue::Bool(b) => Ok(*b),
            _ => Err(
                KvError::Protocol("The returned 'success' field is not a boolean value.".to_owned()),
            ),
        },
        None => Err(
            KvError::Protocol("The returned JSON does not contain the 'success' field.".to_owned()),
        ),
    }
}

/// Interprets the response of an operation that carries no payload (deleting
/// or renaming a namespace, writing or deleting keys).
pub fn interpret_unit(v: &JsonValue) -> (r: Result<(), KvError>)
    ensures
        match r {
            Ok(_) => spec_unit_outcome(v@) matches Ok(_),
            Err(e) => spec_unit_outcome(v@) matches Err(ev) && ev == e@,
        },
{
    match check_success(v) {
        Err(e) => Err(e),
        Ok(true) => Ok(()),
        Ok(false) => Err(KvError::RemoteRejection(v.to_text())),
    }
}

fn parse_namespace(v: &JsonValue) -> (r: Result<Namespace, KvError>)
    ensures
        match r {
            Ok(ns) => spec_namespace_of(v@) matches Ok(nv) && nv == ns@,
            Err(e) => spec_namespace_of(v@) matches Err(ev) && ev == e@,
        },
{
    match v.get("id") {
        Some(JsonValue::Str(id)) => match v.get("title") {
            Some(JsonValue::Str(title)) => Ok(
                Namespace { id: id.clone(), title: title.clone() },
            ),
            Some(_) => Err(
                KvError::Protocol("The 'title' field cannot be converted to a string.".to_owned()),
            ),
            None => Err(
                KvError::Protocol(
                    "The 'title' field cannot be found in the 'result' field.".to_owned(),
                ),
            ),
        },
        Some(_) => Err(
            KvError::Protocol("The 'id' field cannot be converted to a string.".to_owned()),
        ),
        None => Err(
            KvError::Protocol("The 'id' field cannot be found in the 'result' field.".to_owned()),
        ),
    }
}

proof fn lemma_namespaces_prefix_err(items: Seq<JsonView>, k: int)
    requires
        0 <= k <= items.len(),
        spec_namespaces_of(items.take(k)) is Err,
    ensures
        spec_namespaces_of(items) == spec_namespaces_of(items.take(k)),
    decreases items.len(),
{
    if k == items.len() {
        assert(items.take(k) =~= items);
    } else {
        assert(items.drop_last().take(k) =~= items.take(k));
        lemma_namespaces_prefix_err(items.drop_last(), k);
    }
}

proof fn lemma_names_prefix_err(items: Seq<JsonView>, k: int)
    requires
        0 <= k <= items.len(),
        spec_names_of(items.take(k)) is Err,
    ensures
        spec_names_of(items) == spec_names_of(items.take(k)),
    decreases items.len(),
{
    if k == items.len() {
        assert(items.take(k) =~= items);
    } else {
        assert(items.drop_last().take(k) =~= items.take(k));
        lemma_names_prefix_err(items.drop_last(), k);
    }
}

/// Interprets the response of listing namespaces: the ordered sequence of
/// namespaces exactly as the server gave them, one `Namespace` per element
/// of `result`.
#[verifier::loop_isolation(false)]
pub fn interpret_namespace_list(v: &JsonValue) -> (r: Result<Vec<Namespace>, KvError>)
    ensures
        match r {
            Ok(list) => spec_namespace_list(v@) matches Ok(l) && l == list.deep_view(),
            Err(e) => spec_namespace_list(v@) matches Err(ev) && ev == e@,
        },
{
    match check_success(v) {
        Err(e) => {
            return Err(e);
        },
        Ok(false) => {
            return Err(KvError::RemoteRejection(v.to_text()));
        },
        Ok(true) => {},
    }
    let result = match v.get("result") {
        None => {
            return Err(
                KvError::Protocol(
                    "The returned JSON does not contain the 'result' field.".to_owned(),
                ),
            );
        },
        Some(r) => r,
    };
    match result {
        JsonValue::Arr(items) => {
            let ghost ivs = arr_view(items@);
            proof {
                lemma_arr_view_index(items@);
                assert(ivs.take(0) =~= Seq::<JsonView>::empty());
            }
            let mut out: Vec<Namespace> = Vec::new();
            let mut i: usize = 0;
            while i < items.len()
                invariant
                    0 <= i <= items@.len(),
                    spec_namespaces_of(ivs.take(i as int)) matches Ok(l) && l == out.deep_view(),
                decreases items@.len() - i,
            {
                proof {
                    assert(ivs.take(i + 1).drop_last() =~= ivs.take(i as int));
                    assert(ivs.take(i + 1).last() == ivs[i as int]);
                }
                match parse_namespace(&items[i]) {
                    Err(e) => {
                        proof {
                            lemma_namespaces_prefix_err(ivs, i + 1);
                        }
                        return Err(e);
                    },
                    Ok(ns) => {
                        let ghost prev = out.deep_view();
                        out.push(ns);
                        proof {
                            assert(out.deep_view() =~= prev.push(ns@));
                        }
                    },
                }
                i = i + 1;
            }
            proof {
                assert(ivs.take(items@.len() as int) =~= ivs);
            }
            Ok(out)
        },
        _ => Err(
            KvError::Protocol("The 'results' field cannot be converted to an array.".to_owned()),
        ),
    }
}

/// Interprets the response of creating a namespace: the `result` object's
/// `id` and `title`, exactly as given.
pub fn interpret_created_namespace(v: &JsonValue) -> (r: Result<Namespace, KvError>)
    ensures
        match r {
            Ok(ns) => spec_created_namespace(v@) matches Ok(nv) && nv == ns@,
            Err(e) => spec_created_namespace(v@) matches Err(ev) && ev == e@,
        },
{
    match check_success(v) {
        Err(e) => {
            return Err(e);
        },
        Ok(false) => {
            return Err(KvError::RemoteRejection(v.to_text()));
        },
        Ok(true) => {},
    }
    match v.get("result") {
        None => Err(
            KvError::Protocol("The returned JSON does not contain the 'result' field.".to_owned()),
        ),
        Some(r) => parse_namespace(r),
    }
}

/// Interprets one response of the paginated key listing: the page's names in
/// server order, the next cursor, and the count.
#[verifier::loop_isolation(false)]
pub fn interpret_keys_page(v: &JsonValue) -> (r: Result<KeysPage, KvError>)
    ensures
        match r {
            Ok(page) => spec_keys_page(v@) matches Ok(pv) && pv == page@,
            Err(e) => spec_keys_page(v@) matches Err(ev) && ev == e@,
        },
{
    match check_success(v) {
        Err(e) => {
            return Err(e);
        },
        Ok(false) => {
            return Err(KvError::RemoteRejection(v.to_text()));
        },
        Ok(true) => {},
    }
    let result = match v.get("result") {
        None => {
            return Err(KvError::Protocol("No result found in response.".to_owned()));
        },
        Some(r) => r,
    };
    let items = match result {
        JsonValue::Arr(items) => items,
        _ => {
            return Err(KvError::Protocol("No result found in response.".to_owned()));
        },
    };
    let ghost ivs = arr_view(items@);
    proof {
        lemma_arr_view_index(items@);
        assert(ivs.take(0) =~= Seq::<JsonView>::empty());
    }
    let mut names: Vec<String> = Vec::new();
    let mut i: usize = 0;
    while i < items.len()
        invariant
            0 <= i <= items@.len(),
            spec_names_of(ivs.take(i as int)) matches Ok(l) && l == names.deep_view(),
        decreases items@.len() - i,
    {
        proof {
            assert(ivs.take(i + 1).drop_last() =~= ivs.take(i as int));
            assert(ivs.take(i + 1).last() == ivs[i as int]);
        }
        match items[i].get("name") {
            Some(JsonValue::Str(name)) => {
                let ghost prev = names.deep_view();
                names.push(name.clone());
                proof {
                    assert(names.deep_view() =~= prev.push(name@));
                }
            },
            _ => {
                proof {
                    lemma_names_prefix_err(ivs, i + 1);
                }
                return Err(KvError::Protocol("No name found in response.".to_owned()));
            },
        }
        i = i + 1;
    }
    proof {
        assert(ivs.take(items@.len() as int) =~= ivs);
    }
    let info = match v.get("result_info") {
        None => {
            return Err(KvError::Protocol("No result_info found in response.".to_owned()));
        },
        Some(ri) => ri,
    };
    let cursor = match info.get("cursor") {
        Some(JsonValue::Str(c)) => c.clone(),
        _ => {
            return Err(KvError::Protocol("No cursor found in response.".to_owned()));
        },
    };
    let count = match info.get("count") {
        Some(JsonValue::Num(n)) => *n,
        _ => {
            return Err(KvError::Protocol("No count found in response.".to_owned()));
        },
    };
    Ok(KeysPage { names, cursor, count })
}

/// Interprets the response of reading a key's metadata: the raw `result`
/// document, unchanged.
pub fn interpret_metadata(v: &JsonValue) -> (r: Result<JsonValue, KvError>)
    ensures
        match r {
            Ok(m) => spec_metadata_outcome(v@) matches Ok(mv) && mv == m@,
            Err(e) => spec_metadata_outcome(v@) matches Err(ev) && ev == e@,
        },
{
    match check_success(v) {
        Err(e) => {
            return Err(e);
        },
        Ok(false) => {
            return Err(KvError::RemoteRejection(v.to_text()));
        },
        Ok(true) => {},
    }
    match v.get("result") {
        Some(r) => Ok(r.deep_clone()),
        None => Err(KvError::Protocol("No result found in response.".to_owned())),
    }
}

/// Interprets the response of reading a value. The value endpoint does not
/// use the envelope: any status other than 404 yields the raw body verbatim;
/// a 404 yields a not-found error carrying the body as JSON, re-serialized
/// (`parsed` is the body parsed as JSON, `None` when it would not parse).
pub fn interpret_value_response(status: u16, body: String, parsed: Option<JsonValue>) -> (r: Result<
    String,
    KvError,
>)
    ensures
        match r {
            Ok(text) => spec_value_outcome(status, body@, parsed.deep_view()) matches Ok(t) && t
                == text@,
            Err(e) => spec_value_outcome(status, body@, parsed.deep_view()) matches Err(ev) && ev
                == e@,
        },
{
    if status != 404 {
        Ok(body)
    } else {
        match parsed {
            Some(j) => Err(KvError::NotFound(j.to_text())),
            None => Err(
                KvError::Transport(
                    "The body of the response could not be parsed as JSON.".to_owned(),
                ),
            ),
        }
    }
}

} // verus!
