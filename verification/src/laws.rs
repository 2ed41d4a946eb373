//! Properties that hold across every operation, proved once over the
//! spec-level outcomes that the envelope interpreters are proved equal to.

use vstd::prelude::*;

use crate::envelope::spec_check_success;
use crate::envelope::spec_created_namespace;
use crate::envelope::spec_keys_page;
use crate::envelope::spec_metadata_outcome;
use crate::envelope::spec_namespace_list;
use crate::envelope::spec_namespace_of;
use crate::envelope::spec_namespaces_of;
use crate::envelope::spec_names_of;
use crate::envelope::spec_unit_outcome;
use crate::envelope::NamespaceView;
use crate::error::KvErrorView;
use crate::json::json_text;
use crate::json::obj_get;
use crate::json::JsonView;

verus! {

/// An envelope whose `success` member is missing or not a boolean earns a
/// protocol error, whatever the operation: no payload is ever read out of
/// such a response.
pub proof fn lemma_bad_success_is_protocol_error(v: JsonView)
    requires
        !(obj_get(v, "success"@) matches Some(JsonView::Bool(_))),
    ensures
        spec_check_success(v) matches Err(KvErrorView::Protocol(_)),
        spec_unit_outcome(v) == Err::<(), KvErrorView>(spec_check_success(v)->Err_0),
        spec_namespace_list(v) == Err::<Seq<NamespaceView>, KvErrorView>(
            spec_check_success(v)->Err_0,
        ),
        spec_created_namespace(v) == Err::<NamespaceView, KvErrorView>(
            spec_check_success(v)->Err_0,
        ),
        spec_keys_page(v) matches Err(e) && e == spec_check_success(v)->Err_0,
        spec_metadata_outcome(v) == Err::<JsonView, KvErrorView>(spec_check_success(v)->Err_0),
{
}

/// An envelope reporting `success == false` earns, whatever the operation, a
/// rejection carrying exactly the serialized envelope.
pub proof fn lemma_failed_envelope_is_rejection(v: JsonView)
    requires
        obj_get(v, "success"@) == Some(JsonView::Bool(false)),
    ensures
        spec_unit_outcome(v) == Err::<(), KvErrorView>(
            KvErrorView::RemoteRejection(json_text(v)),
        ),
        spec_namespace_list(v) == Err::<Seq<NamespaceView>, KvErrorView>(
            KvErrorView::RemoteRejection(json_text(v)),
        ),
        spec_created_namespace(v) == Err::<NamespaceView, KvErrorView>(
            KvErrorView::RemoteRejection(json_text(v)),
        ),
        spec_keys_page(v) matches Err(e) && e == KvErrorView::RemoteRejection(json_text(v)),
        spec_metadata_outcome(v) == Err::<JsonView, KvErrorView>(
            KvErrorView::RemoteRejection(json_text(v)),
        ),
{
}

/// An envelope reporting success lets an operation without a payload
/// succeed.
pub proof fn lemma_successful_envelope_unit(v: JsonView)
    requires
        obj_get(v, "success"@) == Some(JsonView::Bool(true)),
    ensures
        spec_unit_outcome(v) is Ok,
{
}

/// A successful creation response yields the `id` and `title` members of
/// `result` exactly as the JSON gives them.
pub proof fn lemma_created_namespace_exact(
    v: JsonView,
    r: JsonView,
    id: Seq<char>,
    title: Seq<char>,
)
    requires
        obj_get(v, "success"@) == Some(JsonView::Bool(true)),
        obj_get(v, "result"@) == Some(r),
        obj_get(r, "id"@) == Some(JsonView::Str(id)),
        obj_get(r, "title"@) == Some(JsonView::Str(title)),
    ensures
        spec_created_namespace(v) == Ok::<NamespaceView, KvErrorView>(
            NamespaceView { id, title },
        ),
{
}

proof fn lemma_namespaces_of_exact(items: Seq<JsonView>)
    requires
        forall|i: int| 0 <= i < items.len() ==> spec_namespace_of(#[trigger] items[i]) is Ok,
    ensures
        spec_namespaces_of(items) matches Ok(l) && l.len() == items.len() && forall|i: int|
            0 <= i < items.len() ==> l[i] == spec_namespace_of(items[i])->Ok_0,
    decreases items,
{
    if items.len() > 0 {
        assert forall|i: int|
            0 <= i < items.drop_last().len() implies spec_namespace_of(
            #[trigger] items.drop_last()[i],
        ) is Ok by {
            assert(items.drop_last()[i] == items[i]);
        }
        lemma_namespaces_of_exact(items.drop_last());
    }
}

/// A successful listing response whose elements are all well-formed yields
/// one namespace per element, in server order, each field exactly as the
/// JSON gives it.
pub proof fn lemma_namespace_list_exact(v: JsonView, items: Seq<JsonView>)
    requires
        obj_get(v, "success"@) == Some(JsonView::Bool(true)),
        obj_get(v, "result"@) == Some(JsonView::Arr(items)),
        forall|i: int| 0 <= i < items.len() ==> spec_namespace_of(#[trigger] items[i]) is Ok,
    ensures
        spec_namespace_list(v) matches Ok(l) && l.len() == items.len() && forall|i: int|
            0 <= i < items.len() ==> l[i] == spec_namespace_of(items[i])->Ok_0,
{
    lemma_namespaces_of_exact(items);
}

proof fn lemma_names_of_exact(items: Seq<JsonView>)
    requires
        forall|i: int| 0 <= i < items.len() ==> obj_get(
            #[trigger] items[i],
            "name"@,
        ) matches Some(JsonView::Str(_)),
    ensures
        spec_names_of(items) matches Ok(l) && l.len() == items.len() && forall|i: int|
            0 <= i < items.len() ==> Some(JsonView::Str(l[i])) == obj_get(items[i], "name"@),
    decreases items,
{
    if items.len() > 0 {
        assert forall|i: int| 0 <= i < items.drop_last().len() implies obj_get(
            #[trigger] items.drop_last()[i],
            "name"@,
        ) matches Some(JsonView::Str(_)) by {
            assert(items.drop_last()[i] == items[i]);
        }
        lemma_names_of_exact(items.drop_last());
        let rest = spec_names_of(items.drop_last())->Ok_0;
        let l = spec_names_of(items)->Ok_0;
        assert(items.last() == items[items.len() - 1]);
        assert forall|i: int| 0 <= i < items.len() implies Some(JsonView::Str(l[i])) == obj_get(
            items[i],
            "name"@,
        ) by {
            if i < items.len() - 1 {
                assert(items.drop_last()[i] == items[i]);
                assert(l[i] == rest[i]);
            }
        }
    }
}

/// A successful key-listing page yields its names in server order, and the
/// cursor and count exactly as `result_info` gives them.
pub proof fn lemma_keys_page_exact(
    v: JsonView,
    items: Seq<JsonView>,
    info: JsonView,
    cursor: Seq<char>,
    count: u64,
)
    requires
        obj_get(v, "success"@) == Some(JsonView::Bool(true)),
        obj_get(v, "result"@) == Some(JsonView::Arr(items)),
        obj_get(v, "result_info"@) == Some(info),
        obj_get(info, "cursor"@) == Some(JsonView::Str(cursor)),
        obj_get(info, "count"@) == Some(JsonView::Num(count)),
        forall|i: int| 0 <= i < items.len() ==> obj_get(
            #[trigger] items[i],
            "name"@,
        ) matches Some(JsonView::Str(_)),
    ensures
        spec_keys_page(v) matches Ok(p) && p.cursor == cursor && p.count == count && p.names.len()
            == items.len() && forall|i: int| 0 <= i < items.len() ==> Some(
            JsonView::Str(p.names[i]),
        ) == obj_get(items[i], "name"@),
{
    lemma_names_of_exact(items);
}

/// A successful metadata response yields the raw `result` document,
/// unchanged.
pub proof fn lemma_metadata_exact(v: JsonView, r: JsonView)
    requires
        obj_get(v, "success"@) == Some(JsonView::Bool(true)),
        obj_get(v, "result"@) == Some(r),
    ensures
        spec_metadata_outcome(v) == Ok::<JsonView, KvErrorView>(r),
{
}

} // verus!
