//! Requests of the lead endpoints, the query parameters of the list and
//! export endpoints, and the paging of the lead stream.
use vstd::prelude::*;
use crate::resources::{concat3, no_query, plain_request, ApiRequest, ApiRequestView, Method};
use crate::text::{decimal, decimal_string};
use crate::types::{
    sort_field_view, ExportFormat, ExportOptions, ExportOptionsView, ListOptions, ListOptionsView,
    SortFieldView, SortOrder,
};

verus! {

/// `<base>/leads<path>`.
pub open spec fn leads_url(base: Seq<char>, path: Seq<char>) -> Seq<char> {
    base + "/leads"@ + path
}

/// The URL of the lead endpoint `path` under `base_url`: `<base>/leads<path>`.
pub fn url(base_url: &str, path: &str) -> (s: String)
    ensures
        s@ == leads_url(base_url@, path@),
{
    concat3(base_url, "/leads", path)
}

fn lead_url(base_url: &str, id: &str) -> (s: String)
    ensures
        s@ == leads_url(base_url@, "/"@ + id@),
{
    let mut path = "/".to_owned();
    path.append(id);
    url(base_url, path.as_str())
}

// ─── Query parameters ──────────────────────────────────────────────────────

/// One `filter` parameter per filter, in order.
pub open spec fn filter_params(filters: Seq<Seq<char>>) -> Seq<(Seq<char>, Seq<char>)> {
    filters.map_values(|f: Seq<char>| ("filter"@, f))
}

/// The parameter `name=value` when the value is present, else nothing.
pub open spec fn opt_param(name: Seq<char>, value: Option<Seq<char>>) -> Seq<(Seq<char>, Seq<char>)> {
    match value {
        Some(v) => seq![(name, v)],
        None => Seq::empty(),
    }
}

/// The text of an optional sort field.
pub open spec fn sort_by_text(f: Option<SortFieldView>) -> Option<Seq<char>> {
    match f {
        Some(f) => Some(f.text()),
        None => None,
    }
}

/// The text of an optional sort order.
pub open spec fn sort_order_text(o: Option<SortOrder>) -> Option<Seq<char>> {
    match o {
        Some(o) => Some(o.text()),
        None => None,
    }
}

/// The decimal text of an optional limit.
pub open spec fn limit_text(l: Option<u32>) -> Option<Seq<char>> {
    match l {
        Some(l) => Some(decimal(l as nat)),
        None => None,
    }
}

/// The parameters that filter and sort: the filters, then `sort_by`, then `sort_order`.
pub open spec fn selection_params(
    filters: Seq<Seq<char>>,
    sort_by: Option<SortFieldView>,
    sort_order: Option<SortOrder>,
) -> Seq<(Seq<char>, Seq<char>)> {
    filter_params(filters) + opt_param("sort_by"@, sort_by_text(sort_by)) + opt_param(
        "sort_order"@,
        sort_order_text(sort_order),
    )
}

/// The query of a list request: the filters, `sort_by`, `sort_order`,
/// `limit` and `cursor`, in this order, each option only when set.
pub open spec fn list_params(o: ListOptionsView) -> Seq<(Seq<char>, Seq<char>)> {
    selection_params(o.filters, o.sort_by, o.sort_order) + opt_param("limit"@, limit_text(o.limit))
        + opt_param("cursor"@, o.cursor)
}

fn push_param(params: &mut Vec<(String, String)>, name: &str, value: String)
    ensures
        final(params).deep_view() == old(params).deep_view().push((name@, value@)),
{
    params.push((name.to_owned(), value));
    assert(final(params).deep_view() =~= old(params).deep_view().push((name@, value@)));
}

fn push_selection(
    params: &mut Vec<(String, String)>,
    filters: &Vec<String>,
    sort_by: &Option<crate::types::SortField>,
    sort_order: Option<SortOrder>,
)
    ensures
        final(params).deep_view() == old(params).deep_view() + selection_params(
            filters.deep_view(),
            sort_field_view(*sort_by),
            sort_order,
        ),
{
    let ghost start = params.deep_view();
    let n = filters.len();
    let mut i: usize = 0;
    while i < n
        invariant
            n == filters.len(),
            i <= n,
            params.deep_view() == start + filter_params(filters.deep_view().take(i as int)),
        decreases n - i,
    {
        push_param(params, "filter", filters[i].clone());
        proof {
            assert(filter_params(filters.deep_view().take(i + 1)) =~= filter_params(
                filters.deep_view().take(i as int),
            ).push(("filter"@, filters.deep_view()[i as int])));
        }
        i = i + 1;
    }
    assert(filters.deep_view().take(n as int) =~= filters.deep_view());
    let ghost after_filters = params.deep_view();
    match sort_by {
        Some(field) => push_param(params, "sort_by", field.as_str()),
        None => {},
    }
    let ghost after_sort_by = params.deep_view();
    assert(after_sort_by =~= after_filters + opt_param("sort_by"@, sort_by_text(sort_field_view(*sort_by))));
    match sort_order {
        Some(order) => push_param(params, "sort_order", order.as_str().to_owned()),
        None => {},
    }
    assert(params.deep_view() =~= after_sort_by + opt_param("sort_order"@, sort_order_text(sort_order)));
    assert(params.deep_view() =~= start + selection_params(
        filters.deep_view(),
        sort_field_view(*sort_by),
        sort_order,
    ));
}

/// The query parameters of a list request (see [`list_params`]).
pub fn build_list_params(opts: &ListOptions) -> (params: Vec<(String, String)>)
    ensures
        params.deep_view() == list_params(opts@),
{
    let mut params = no_query();
    push_selection(&mut params, &opts.filters, &opts.sort_by, opts.sort_order);
    let ghost after_selection = params.deep_view();
    match opts.limit {
        Some(l) => push_param(&mut params, "limit", decimal_string(l as u64)),
        None => {},
    }
    let ghost after_limit = params.deep_view();
    assert(after_limit =~= after_selection + opt_param("limit"@, limit_text(opts@.limit)));
    match &opts.cursor {
        Some(c) => push_param(&mut params, "cursor", c.clone()),
        None => {},
    }
    assert(params.deep_view() =~= list_params(opts@));
    params
}

/// The query of an export request: `format`, then (when options are given)
/// their filters, `sort_by` and `sort_order`.
pub open spec fn export_params(format: ExportFormat, opts: Option<ExportOptionsView>) -> Seq<(Seq<char>, Seq<char>)> {
    seq![("format"@, format.text())] + match opts {
        Some(o) => selection_params(o.filters, o.sort_by, o.sort_order),
        None => Seq::empty(),
    }
}

/// The view of optional export options.
pub open spec fn export_options_view(opts: Option<&ExportOptions>) -> Option<ExportOptionsView> {
    match opts {
        Some(o) => Some(o@),
        None => None,
    }
}

/// The query parameters of an export request (see [`export_params`]).
pub fn build_export_params(format: ExportFormat, opts: Option<&ExportOptions>) -> (params: Vec<(String, String)>)
    ensures
        params.deep_view() == export_params(format, export_options_view(opts)),
{
    let mut params = no_query();
    push_param(&mut params, "format", format.as_str().to_owned());
    match opts {
        Some(o) => push_selection(&mut params, &o.filters, &o.sort_by, o.sort_order),
        None => {},
    }
    assert(params.deep_view() =~= export_params(format, export_options_view(opts)));
    params
}

// ─── Requests ──────────────────────────────────────────────────────────────

/// Create a lead: `POST <base>/leads` with the lead as body.
pub fn create_request(base_url: &str) -> (r: ApiRequest)
    ensures
        r@ == (ApiRequestView { method: Method::Post, url: leads_url(base_url@, Seq::empty()), query: Seq::empty() }),
{
    proof {
        reveal_strlit("");
    }
    plain_request(Method::Post, url(base_url, ""))
}

/// Retrieve a lead: `GET <base>/leads/<id>`.
pub fn get_request(base_url: &str, id: &str) -> (r: ApiRequest)
    ensures
        r@ == (ApiRequestView { method: Method::Get, url: leads_url(base_url@, "/"@ + id@), query: Seq::empty() }),
{
    plain_request(Method::Get, lead_url(base_url, id))
}

/// Partially update a lead: `PUT <base>/leads/<id>` with the changes as body.
pub fn update_request(base_url: &str, id: &str) -> (r: ApiRequest)
    ensures
        r@ == (ApiRequestView { method: Method::Put, url: leads_url(base_url@, "/"@ + id@), query: Seq::empty() }),
{
    plain_request(Method::Put, lead_url(base_url, id))
}

/// Delete a lead: `DELETE <base>/leads/<id>`.
pub fn delete_request(base_url: &str, id: &str) -> (r: ApiRequest)
    ensures
        r@ == (ApiRequestView { method: Method::Delete, url: leads_url(base_url@, "/"@ + id@), query: Seq::empty() }),
{
    plain_request(Method::Delete, lead_url(base_url, id))
}

/// List leads: `GET <base>/leads` with the options' query.
pub fn list_request(base_url: &str, opts: &ListOptions) -> (r: ApiRequest)
    ensures
        r@ == (ApiRequestView { method: Method::Get, url: leads_url(base_url@, Seq::empty()), query: list_params(opts@) }),
{
    proof {
        reveal_strlit("");
    }
    ApiRequest { method: Method::Get, url: url(base_url, ""), query: build_list_params(opts) }
}

/// Create leads in one request: `POST <base>/leads/batch` with `{"leads": [...]}`.
pub fn batch_create_request(base_url: &str) -> (r: ApiRequest)
    ensures
        r@ == (ApiRequestView { method: Method::Post, url: leads_url(base_url@, "/batch"@), query: Seq::empty() }),
{
    plain_request(Method::Post, url(base_url, "/batch"))
}

/// Update leads in one request: `PUT <base>/leads/batch` with `{"ids": [...], "data": {...}}`.
pub fn batch_update_request(base_url: &str) -> (r: ApiRequest)
    ensures
        r@ == (ApiRequestView { method: Method::Put, url: leads_url(base_url@, "/batch"@), query: Seq::empty() }),
{
    plain_request(Method::Put, url(base_url, "/batch"))
}

/// Delete leads in one request: `DELETE <base>/leads/batch` with `{"ids": [...]}`.
pub fn batch_delete_request(base_url: &str) -> (r: ApiRequest)
    ensures
        r@ == (ApiRequestView { method: Method::Delete, url: leads_url(base_url@, "/batch"@), query: Seq::empty() }),
{
    plain_request(Method::Delete, url(base_url, "/batch"))
}

/// Export leads: `GET <base>/leads/export` with the export query.
pub fn export_request(base_url: &str, format: ExportFormat, opts: Option<&ExportOptions>) -> (r: ApiRequest)
    ensures
        r@ == (ApiRequestView {
            method: Method::Get,
            url: base_url@ + "/leads/export"@,
            query: export_params(format, export_options_view(opts)),
        }),
{
    let mut u = base_url.to_owned();
    u.append("/leads/export");
    ApiRequest { method: Method::Get, url: u, query: build_export_params(format, opts) }
}


// ─── Stream paging ─────────────────────────────────────────────────────────

/// The paging state of a lead stream: the options of the next page, and
/// whether the stream has ended.
pub struct LeadPagerView {
    pub opts: ListOptionsView,
    pub done: bool,
}

impl LeadPagerView {
    /// The state after a page that says whether more pages follow and which
    /// cursor fetches the next one: the cursor is replaced (also by none),
    /// and the stream ends unless more pages follow.
    pub open spec fn after_page(self, has_more: bool, next_cursor: Option<Seq<char>>) -> LeadPagerView {
        LeadPagerView { opts: ListOptionsView { cursor: next_cursor, ..self.opts }, done: !has_more }
    }
}

/// Pages through all leads matching some list options: the stream asks for
/// the request of the next page, sends it, yields the page's leads in order,
/// and reports the page (or the failure) back.
#[derive(Debug)]
pub struct LeadPager {
    opts: ListOptions,
    done: bool,
}

impl View for LeadPager {
    type V = LeadPagerView;

    closed spec fn view(&self) -> LeadPagerView {
        LeadPagerView { opts: self.opts@, done: self.done }
    }
}

impl LeadPager {
    /// A stream over the leads matching `opts`, starting at `opts`' cursor.
    pub fn new(opts: ListOptions) -> (p: Self)
        ensures
            p@ == (LeadPagerView { opts: opts@, done: false }),
    {
        LeadPager { opts, done: false }
    }

    /// Whether the stream has ended.
    pub fn is_done(&self) -> (b: bool)
        ensures
            b == self@.done,
    {
        self.done
    }

    /// The request of the next page, or none once the stream has ended.
    pub fn next_request(&self, base_url: &str) -> (r: Option<ApiRequest>)
        ensures
            self@.done <==> r is None,
            r matches Some(req) ==> req@ == (ApiRequestView {
                method: Method::Get,
                url: leads_url(base_url@, Seq::empty()),
                query: list_params(self@.opts),
            }),
    {
        if self.done {
            None
        } else {
            Some(list_request(base_url, &self.opts))
        }
    }

    /// Record a fetched page: whether more pages follow, and the cursor of the next.
    pub fn on_page(&mut self, has_more: bool, next_cursor: Option<String>)
        ensures
            final(self)@ == old(self)@.after_page(has_more, next_cursor.deep_view()),
    {
        self.opts.cursor = next_cursor;
        self.done = !has_more;
    }

    /// Record a failed page: the stream yields the error and ends.
    pub fn on_error(&mut self)
        ensures
            final(self)@ == (LeadPagerView { done: true, ..old(self)@ }),
    {
        self.done = true;
    }
}

/// Every page of a stream sends the same filters, sort and limit: the query
/// of a page is that of the options without cursor, followed by the page's
/// `cursor` when it has one.
pub proof fn lemma_pages_share_selection(opts: ListOptionsView, cursor: Option<Seq<char>>)
    ensures
        list_params(ListOptionsView { cursor, ..opts }) == list_params(
            ListOptionsView { cursor: None, ..opts },
        ) + opt_param("cursor"@, cursor),
{
    assert(list_params(ListOptionsView { cursor: None, ..opts }) + opt_param("cursor"@, cursor)
        =~= list_params(ListOptionsView { cursor, ..opts }));
}

/// A stream ends after a page that says no more pages follow, and after a
/// failure, and not otherwise.
pub proof fn lemma_stream_ends(p: LeadPagerView, has_more: bool, next_cursor: Option<Seq<char>>)
    ensures
        p.after_page(has_more, next_cursor).done <==> !has_more,
        p.after_page(has_more, next_cursor).opts.filters == p.opts.filters,
        p.after_page(has_more, next_cursor).opts.sort_by == p.opts.sort_by,
        p.after_page(has_more, next_cursor).opts.sort_order == p.opts.sort_order,
        p.after_page(has_more, next_cursor).opts.limit == p.opts.limit,
        p.after_page(has_more, next_cursor).opts.cursor == next_cursor,
{
}

/// The next page of a stream is asked with the same query as the first one
/// (its filters, sort and limit), followed by the cursor that the last page
/// gave, when it gave one.
pub proof fn lemma_next_page_keeps_query(p: LeadPagerView, has_more: bool, next_cursor: Option<Seq<char>>)
    ensures
        list_params(p.after_page(has_more, next_cursor).opts) == filter_params(p.opts.filters)
            + opt_param("sort_by"@, sort_by_text(p.opts.sort_by)) + opt_param(
            "sort_order"@,
            sort_order_text(p.opts.sort_order),
        ) + opt_param("limit"@, limit_text(p.opts.limit)) + opt_param("cursor"@, next_cursor),
{
}

/// An export query starts with the format; when options are given, one
/// `filter` pair per filter follows, in order, then `sort_by` and
/// `sort_order` when set, and nothing else. The filters are sent whether a
/// sort is set or not.
pub proof fn lemma_export_query_shape(format: ExportFormat, opts: Option<ExportOptionsView>)
    ensures
        export_params(format, opts)[0] == ("format"@, format.text()),
        opts is None ==> export_params(format, opts) == seq![("format"@, format.text())],
        opts is Some ==> ({
            let o = opts->Some_0;
            let q = export_params(format, opts);
            let n = o.filters.len() as int;
            &&& q.len() == 1 + n + (if o.sort_by is Some { 1int } else { 0int }) + (if o.sort_order is Some {
                1int
            } else {
                0int
            })
            &&& forall|i: int| 0 <= i < n ==> #[trigger] q[i + 1] == ("filter"@, o.filters[i])
            &&& (o.sort_by is Some ==> q[n + 1] == ("sort_by"@, o.sort_by->Some_0.text()))
            &&& (o.sort_order is Some ==> q[q.len() - 1] == ("sort_order"@, o.sort_order->Some_0.text()))
        }),
{
    let q = export_params(format, opts);
    if opts is Some {
        let o = opts->Some_0;
        let n = o.filters.len() as int;
        assert forall|i: int| 0 <= i < n implies #[trigger] q[i + 1] == ("filter"@, o.filters[i]) by {
            assert(q[i + 1] == filter_params(o.filters)[i]);
        }
    }
}

} // verus!
