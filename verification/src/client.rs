//! The two clients and the requests they plan.
//!
//! `KvClient` is scoped to an account, `KvNamespaceClient` to one namespace.
//! Both are immutable after construction: credentials, the precomputed
//! authorization header, and the base URL. Every operation's request is
//! planned here as an `HttpPlan` — method, URL and body, pinned exactly by
//! the contracts — and the transport that sends it lives outside the
//! library. The paginated key listing keeps its state in `KeyListState`.

use vstd::prelude::*;

use crate::envelope::interpret_keys_page;
use crate::envelope::KeysPage;
use crate::envelope::spec_keys_page;
use crate::error::KvError;
use crate::json::arr_view;
use crate::json::json_text;
use crate::json::lemma_arr_view_index;
use crate::json::lemma_obj_view_index;
use crate::json::obj_view;
use crate::json::JsonValue;
use crate::json::JsonView;
use crate::request::wire_json;
use crate::request::KvRequest;
use crate::request::KvRequestView;

verus! {

use vstd::string::StringExecFns;

/// The HTTP methods the client issues.
#[derive(Debug, Clone, Copy, PartialEq, Eq, Structural)]
pub enum HttpMethod {
    Get,
    Post,
    Put,
    Delete,
}

/// One request, ready to send: the method, the full URL, and the JSON body
/// where the operation carries one. Every request also carries the owning
/// client's `auth_header` as `Authorization` and `application/json` as
/// `Content-Type`.
#[derive(Debug)]
pub struct HttpPlan {
    pub method: HttpMethod,
    pub url: String,
    pub body: Option<String>,
}

/// The account-scoped base URL: every namespace operation starts here.
pub open spec fn account_url(account_id: Seq<char>) -> Seq<char> {
    "https://api.cloudflare.com/client/v4/"@ + "accounts/"@ + account_id
        + "/storage/kv/namespaces"@
}

/// The URL of one namespace.
pub open spec fn namespace_url(account_id: Seq<char>, namespace_id: Seq<char>) -> Seq<char> {
    account_url(account_id) + "/"@ + namespace_id
}

/// The authorization header value: a bearer token built from the API secret.
pub open spec fn bearer_header(api_key: Seq<char>) -> Seq<char> {
    "Bearer "@ + api_key
}

/// The body `{"title": t}` used to create and to rename a namespace.
pub open spec fn title_payload(title: Seq<char>) -> JsonView {
    JsonView::Obj(seq![("title"@, JsonView::Str(title))])
}

/// The serialized writes of a bulk write body, in order.
pub open spec fn wire_list(requests: Seq<KvRequestView>) -> Seq<JsonView> {
    requests.map_values(|r: KvRequestView| wire_json(r))
}

/// The serialized keys of a bulk delete body, in order.
pub open spec fn key_list(keys: Seq<Seq<char>>) -> Seq<JsonView> {
    keys.map_values(|k: Seq<char>| JsonView::Str(k))
}

fn title_body(title: &str) -> (b: String)
    ensures
        b@ == json_text(title_payload(title@)),
{
    let payload = JsonValue::Obj(vec![("title".to_owned(), JsonValue::Str(title.to_owned()))]);
    let ghost entries = (match &payload {
        JsonValue::Obj(es) => es@,
        _ => Seq::empty(),
    });
    proof {
        lemma_obj_view_index(entries);
        assert(obj_view(entries) =~= seq![("title"@, JsonView::Str(title@))]);
    }
    payload.to_text()
}

/// The account-scoped client: lists and creates namespaces. Immutable after
/// construction and freely cloneable; concurrent use needs no locking.
#[derive(Debug, Clone)]
pub struct KvClient {
    pub account_id: String,
    pub api_key: String,
    pub url: String,
    pub auth_header: String,
}

impl KvClient {
    /// Derived state agrees with the credentials: the URL is the account's
    /// namespace collection, the header its bearer token.
    pub open spec fn wf(&self) -> bool {
        &&& self.url@ == account_url(self.account_id@)
        &&& self.auth_header@ == bearer_header(self.api_key@)
    }

    /// A client for the given account, its URL and authorization header
    /// precomputed.
    pub fn new(account_id: &str, api_key: &str) -> (r: KvClient)
        ensures
            r.wf(),
            r.account_id@ == account_id@,
            r.api_key@ == api_key@,
    {
        let mut url: String = "https://api.cloudflare.com/client/v4/".to_owned();
        url.append("accounts/");
        url.append(account_id);
        url.append("/storage/kv/namespaces");
        let mut auth_header: String = "Bearer ".to_owned();
        auth_header.append(api_key);
        proof {
            assert(url@ =~= account_url(account_id@));
        }
        KvClient { account_id: account_id.to_owned(), api_key: api_key.to_owned(), url, auth_header }
    }

    /// The request that lists the account's namespaces.
    pub fn list_namespaces_plan(&self) -> (p: HttpPlan)
        ensures
            p.method == HttpMethod::Get,
            p.url@ == self.url@,
            p.body is None,
    {
        HttpPlan { method: HttpMethod::Get, url: self.url.clone(), body: None }
    }

    /// The request that creates a namespace titled `title`.
    pub fn create_namespace_plan(&self, title: &str) -> (p: HttpPlan)
        ensures
            p.method == HttpMethod::Post,
            p.url@ == self.url@,
            p.body matches Some(b) && b@ == json_text(title_payload(title@)),
    {
        HttpPlan { method: HttpMethod::Post, url: self.url.clone(), body: Some(title_body(title)) }
    }
}

/// The namespace-scoped client: everything that happens to the keys of one
/// namespace, and to the namespace itself. Immutable after construction.
#[derive(Debug, Clone)]
pub struct KvNamespaceClient {
    pub account_id: String,
    pub api_key: String,
    pub namespace_id: String,
    pub url: String,
    pub auth_header: String,
}

impl KvNamespaceClient {
    /// Derived state agrees with the credentials and the namespace id.
    pub open spec fn wf(&self) -> bool {
        &&& self.url@ == namespace_url(self.account_id@, self.namespace_id@)
        &&& self.auth_header@ == bearer_header(self.api_key@)
    }

    /// A client scoped to `namespace_id` under the given account.
    pub fn new(account_id: &str, api_key: &str, namespace_id: &str) -> (r: KvNamespaceClient)
        ensures
            r.wf(),
            r.account_id@ == account_id@,
            r.api_key@ == api_key@,
            r.namespace_id@ == namespace_id@,
    {
        let mut url: String = "https://api.cloudflare.com/client/v4/".to_owned();
        url.append("accounts/");
        url.append(account_id);
        url.append("/storage/kv/namespaces");
        url.append("/");
        url.append(namespace_id);
        let mut auth_header: String = "Bearer ".to_owned();
        auth_header.append(api_key);
        proof {
            assert(url@ =~= namespace_url(account_id@, namespace_id@));
        }
        KvNamespaceClient {
            account_id: account_id.to_owned(),
            api_key: api_key.to_owned(),
            namespace_id: namespace_id.to_owned(),
            url,
            auth_header,
        }
    }

    /// A namespace-scoped client derived from an account client: same
    /// credentials and header, the URL extended by the namespace id.
    pub fn from_kvclient(kvclient: &KvClient, namespace_id: &str) -> (r: KvNamespaceClient)
        ensures
            r.account_id@ == kvclient.account_id@,
            r.api_key@ == kvclient.api_key@,
            r.namespace_id@ == namespace_id@,
            r.url@ == kvclient.url@ + "/"@ + namespace_id@,
            r.auth_header@ == kvclient.auth_header@,
            kvclient.wf() ==> r.wf(),
    {
        let mut url = kvclient.url.clone();
        url.append("/");
        url.append(namespace_id);
        proof {
            assert(url@ =~= kvclient.url@ + "/"@ + namespace_id@);
            if kvclient.wf() {
                assert(url@ =~= namespace_url(kvclient.account_id@, namespace_id@));
            }
        }
        KvNamespaceClient {
            account_id: kvclient.account_id.clone(),
            api_key: kvclient.api_key.clone(),
            namespace_id: namespace_id.to_owned(),
            url,
            auth_header: kvclient.auth_header.clone(),
        }
    }

    /// The request that deletes this namespace.
    pub fn delete_namespace_plan(&self) -> (p: HttpPlan)
        ensures
            p.method == HttpMethod::Delete,
            p.url@ == self.url@,
            p.body is None,
    {
        HttpPlan { method: HttpMethod::Delete, url: self.url.clone(), body: None }
    }

    /// The request that renames this namespace to `new_title`.
    pub fn rename_namespace_plan(&self, new_title: &str) -> (p: HttpPlan)
        ensures
            p.method == HttpMethod::Put,
            p.url@ == self.url@,
            p.body matches Some(b) && b@ == json_text(title_payload(new_title@)),
    {
        HttpPlan {
            method: HttpMethod::Put,
            url: self.url.clone(),
            body: Some(title_body(new_title)),
        }
    }

    fn bulk_url(&self) -> (u: String)
        ensures
            u@ == self.url@ + "/bulk"@,
    {
        let mut u = self.url.clone();
        u.append("/bulk");
        u
    }

    /// The request that writes one key: the bulk endpoint, with a
    /// single-element list as its body.
    pub fn write_plan(&self, payload: KvRequest) -> (p: HttpPlan)
        ensures
            p.method == HttpMethod::Put,
            p.url@ == self.url@ + "/bulk"@,
            p.body matches Some(b) && b@ == json_text(
                JsonView::Arr(seq![wire_json(payload@)]),
            ),
    {
        let item = payload.to_json();
        let body = JsonValue::Arr(vec![item]);
        proof {
            let items = (match &body {
                JsonValue::Arr(a) => a@,
                _ => Seq::empty(),
            });
            lemma_arr_view_index(items);
            assert(arr_view(items) =~= seq![wire_json(payload@)]);
        }
        HttpPlan { method: HttpMethod::Put, url: self.bulk_url(), body: Some(body.to_text()) }
    }

    /// The request that writes the given list of keys in one call: the bulk
    /// endpoint, the writes serialized in order.
    #[verifier::loop_isolation(false)]
    pub fn write_multiple_plan(&self, payload: Vec<KvRequest>) -> (p: HttpPlan)
        ensures
            p.method == HttpMethod::Put,
            p.url@ == self.url@ + "/bulk"@,
            p.body matches Some(b) && b@ == json_text(
                JsonView::Arr(wire_list(payload.deep_view())),
            ),
    {
        let mut items: Vec<JsonValue> = Vec::new();
        let mut i: usize = 0;
        while i < payload.len()
            invariant
                0 <= i <= payload@.len(),
                items@.len() == i,
                forall|j: int| 0 <= j < i ==> items@[j]@ == wire_json(payload@[j]@),
            decreases payload@.len() - i,
        {
            let item = payload[i].to_json();
            items.push(item);
            i = i + 1;
        }
        let body = JsonValue::Arr(items);
        proof {
            let built = (match &body {
                JsonValue::Arr(a) => a@,
                _ => Seq::empty(),
            });
            lemma_arr_view_index(built);
            assert(arr_view(built) =~= wire_list(payload.deep_view()));
        }
        HttpPlan { method: HttpMethod::Put, url: self.bulk_url(), body: Some(body.to_text()) }
    }

    fn bulk_delete_url(&self) -> (u: String)
        ensures
            u@ == self.url@ + "/bulk/delete"@,
    {
        let mut u = self.url.clone();
        u.append("/bulk/delete");
        u
    }

    /// The request that deletes one key: the bulk delete endpoint, with a
    /// single-element list as its body.
    pub fn delete_plan(&self, key: &str) -> (p: HttpPlan)
        ensures
            p.method == HttpMethod::Post,
            p.url@ == self.url@ + "/bulk/delete"@,
            p.body matches Some(b) && b@ == json_text(JsonView::Arr(seq![JsonView::Str(key@)])),
    {
        let body = JsonValue::Arr(vec![JsonValue::Str(key.to_owned())]);
        proof {
            let items = (match &body {
                JsonValue::Arr(a) => a@,
                _ => Seq::empty(),
            });
            lemma_arr_view_index(items);
            assert(arr_view(items) =~= seq![JsonView::Str(key@)]);
        }
        HttpPlan {
            method: HttpMethod::Post,
            url: self.bulk_delete_url(),
            body: Some(body.to_text()),
        }
    }

    /// The request that deletes the given keys in one call, in order.
    #[verifier::loop_isolation(false)]
    pub fn delete_multiple_plan(&self, keys: Vec<&str>) -> (p: HttpPlan)
        ensures
            p.method == HttpMethod::Post,
            p.url@ == self.url@ + "/bulk/delete"@,
            p.body matches Some(b) && b@ == json_text(JsonView::Arr(key_list(keys.deep_view()))),
    {
        let mut items: Vec<JsonValue> = Vec::new();
        let mut i: usize = 0;
        while i < keys.len()
            invariant
                0 <= i <= keys@.len(),
                items@.len() == i,
                forall|j: int| 0 <= j < i ==> items@[j]@ == JsonView::Str(keys@[j]@),
            decreases keys@.len() - i,
        {
            items.push(JsonValue::Str(keys[i].to_owned()));
            i = i + 1;
        }
        let body = JsonValue::Arr(items);
        proof {
            let built = (match &body {
                JsonValue::Arr(a) => a@,
                _ => Seq::empty(),
            });
            lemma_arr_view_index(built);
            assert(arr_view(built) =~= key_list(keys.deep_view()));
        }
        HttpPlan {
            method: HttpMethod::Post,
            url: self.bulk_delete_url(),
            body: Some(body.to_text()),
        }
    }

    /// The request for one page of the key listing, under the given cursor;
    /// the first page uses the empty cursor.
    pub fn keys_page_plan(&self, cursor: &str) -> (p: HttpPlan)
        ensures
            p.method == HttpMethod::Get,
            p.url@ == self.url@ + "/keys?cursor="@ + cursor@,
            p.body is None,
    {
        let mut url = self.url.clone();
        url.append("/keys?cursor=");
        url.append(cursor);
        proof {
            assert(url@ =~= self.url@ + "/keys?cursor="@ + cursor@);
        }
        HttpPlan { method: HttpMethod::Get, url, body: None }
    }

    /// The request that reads the metadata of `key`.
    pub fn read_metadata_plan(&self, key: &str) -> (p: HttpPlan)
        ensures
            p.method == HttpMethod::Get,
            p.url@ == self.url@ + "/metadata/"@ + key@,
            p.body is None,
    {
        let mut url = self.url.clone();
        url.append("/metadata/");
        url.append(key);
        proof {
            assert(url@ =~= self.url@ + "/metadata/"@ + key@);
        }
        HttpPlan { method: HttpMethod::Get, url, body: None }
    }

    /// The request that reads the value of `key`.
    pub fn get_plan(&self, key: &str) -> (p: HttpPlan)
        ensures
            p.method == HttpMethod::Get,
            p.url@ == self.url@ + "/values/"@ + key@,
            p.body is None,
    {
        let mut url = self.url.clone();
        url.append("/values/");
        url.append(key);
        proof {
            assert(url@ =~= self.url@ + "/values/"@ + key@);
        }
        HttpPlan { method: HttpMethod::Get, url, body: None }
    }
}

/// The state of a key listing in progress: the names gathered so far, the
/// cursor for the next page, and whether the last page was reached. The
/// caller alternates `keys_page_plan(cursor)` with `absorb_page` until
/// `finished`; the listing has no iteration bound of its own, so a server
/// that never returns an empty cursor keeps it going.
#[derive(Debug)]
pub struct KeyListState {
    pub keys: Vec<String>,
    pub cursor: String,
    pub finished: bool,
}

impl KeyListState {
    /// A listing about to request its first page.
    pub fn new() -> (s: KeyListState)
        ensures
            s.keys.deep_view() == Seq::<Seq<char>>::empty(),
            s.cursor@ == Seq::<char>::empty(),
            !s.finished,
    {
        let s = KeyListState { keys: Vec::new(), cursor: String::new(), finished: false };
        proof {
            assert(s.keys.deep_view() =~= Seq::<Seq<char>>::empty());
        }
        s
    }

    /// Takes one page's response in: appends its names in server order, moves
    /// to its cursor, and finishes when that cursor is empty. On an
    /// ill-formed page the error is returned and the state is unchanged.
    pub fn absorb_page(&mut self, page: &JsonValue) -> (r: Result<(), KvError>)
        requires
            !old(self).finished,
        ensures
            match r {
                Ok(_) => spec_keys_page(page@) matches Ok(p) && final(self).keys.deep_view()
                    == old(self).keys.deep_view() + p.names && final(self).cursor@ == p.cursor && (
                final(self).finished <==> p.cursor.len() == 0),
                Err(e) => spec_keys_page(page@) matches Err(ev) && ev == e@ && *final(self) == *old(
                    self,
                ),
            },
    {
        match interpret_keys_page(page) {
            Err(e) => Err(e),
            Ok(kp) => {
                let ghost pv = kp@;
                let KeysPage { names, cursor, count: _ } = kp;
                let mut names = names;
                let ghost prev = self.keys.deep_view();
                self.keys.append(&mut names);
                self.finished = cursor.as_str().is_empty();
                self.cursor = cursor;
                proof {
                    assert(self.keys.deep_view() =~= prev + pv.names);
                }
                Ok(())
            },
        }
    }
}

} // verus!
