//! BigQuery: requests for datasets, tables, queries and row inserts, and the values their
//! answers make.
use vstd::prelude::*;
use crate::text::{owned, push_str, join, views};
use crate::external::{json_quote, json_quoted, json_reencode, json_reencoded};
use crate::http::{Method, BodyView, HttpRequest, ApiError, json_parse_message, parsed};
use crate::api::{bodyless_spec, with_body_spec, get_request, json_request};

verus! {

/// The scope a BigQuery token is asked for.
pub open spec fn bigquery_scope() -> Seq<char> {
    "https://www.googleapis.com/auth/bigquery"@
}

/// The scope a BigQuery token is asked for.
pub fn bigquery_scope_string() -> (res: String)
    ensures
        res@ == bigquery_scope(),
{
    owned("https://www.googleapis.com/auth/bigquery")
}

/// The API base URL.
pub open spec fn base_url() -> Seq<char> {
    "https://bigquery.googleapis.com/bigquery/v2"@
}

/// The project and id of a dataset.
pub struct DatasetReference {
    pub project_id: String,
    pub dataset_id: String,
}

/// A dataset.
pub struct Dataset {
    pub id: Option<String>,
    pub dataset_reference: DatasetReference,
    pub friendly_name: Option<String>,
    pub location: Option<String>,
}

/// The project, dataset and id of a table.
pub struct TableReference {
    pub project_id: String,
    pub dataset_id: String,
    pub table_id: String,
}

/// A table.
pub struct Table {
    pub id: Option<String>,
    pub table_reference: TableReference,
    pub friendly_name: Option<String>,
    pub type_: Option<String>,
}

/// A cell of a result row: its text, absent for NULL.
pub struct Field {
    pub value: Option<String>,
}

/// A result row.
pub struct Row {
    pub fields: Vec<Field>,
}

/// The answer to a query.
pub struct QueryResponse {
    pub job_id: String,
    pub job_complete: bool,
    pub rows: Vec<Row>,
    pub total_rows: Option<String>,
}

/// What went wrong with one row of an insert.
pub struct ErrorDetail {
    pub reason: Option<String>,
    pub location: Option<String>,
    pub message: Option<String>,
}

/// The errors of the row at `index` of an insert.
pub struct InsertError {
    pub index: u32,
    pub errors: Vec<ErrorDetail>,
}

/// The answer to an insert.
pub struct InsertAllResponse {
    pub insert_errors: Vec<InsertError>,
}

/// A dataset reference as the API describes it.
pub struct DatasetReferenceJson {
    pub project_id: String,
    pub dataset_id: String,
}

/// A dataset as the API describes it.
pub struct DatasetJson {
    pub id: Option<String>,
    pub dataset_reference: DatasetReferenceJson,
    pub friendly_name: Option<String>,
    pub location: Option<String>,
}

/// A table reference as the API describes it.
pub struct TableReferenceJson {
    pub project_id: String,
    pub dataset_id: String,
    pub table_id: String,
}

/// A table as the API describes it.
pub struct TableJson {
    pub id: Option<String>,
    pub table_reference: TableReferenceJson,
    pub friendly_name: Option<String>,
    pub type_: Option<String>,
}

/// A JSON cell value: null, a string, or any other value as its compact JSON text.
pub enum CellValue {
    Null,
    Text(String),
    Other(String),
}

/// A cell as the API describes it.
pub struct FieldJson {
    pub v: Option<CellValue>,
}

/// A row as the API describes it.
pub struct RowJson {
    pub f: Vec<FieldJson>,
}

/// A query answer as the API describes it.
pub struct QueryResponseJson {
    pub job_id: String,
    pub job_complete: bool,
    pub rows: Vec<RowJson>,
    pub total_rows: Option<String>,
}

/// An error detail as the API describes it.
pub struct ErrorDetailJson {
    pub reason: Option<String>,
    pub location: Option<String>,
    pub message: Option<String>,
}

/// A row's insert errors as the API describes them.
pub struct InsertErrorJson {
    pub index: u32,
    pub errors: Vec<ErrorDetailJson>,
}

/// An insert answer as the API describes it.
pub struct InsertAllResponseJson {
    pub insert_errors: Vec<InsertErrorJson>,
}

/// The answer to a dataset listing.
pub struct ListDatasetsResponse {
    pub datasets: Vec<DatasetJson>,
}

/// The answer to a table listing.
pub struct ListTablesResponse {
    pub tables: Vec<TableJson>,
}

/// The dataset a description makes: the same fields.
pub open spec fn dataset_spec(d: DatasetJson) -> Dataset {
    Dataset {
        id: d.id,
        dataset_reference: DatasetReference {
            project_id: d.dataset_reference.project_id,
            dataset_id: d.dataset_reference.dataset_id,
        },
        friendly_name: d.friendly_name,
        location: d.location,
    }
}

/// The table a description makes: the same fields.
pub open spec fn table_spec(t: TableJson) -> Table {
    Table {
        id: t.id,
        table_reference: TableReference {
            project_id: t.table_reference.project_id,
            dataset_id: t.table_reference.dataset_id,
            table_id: t.table_reference.table_id,
        },
        friendly_name: t.friendly_name,
        type_: t.type_,
    }
}

impl Dataset {
    /// The dataset a description makes.
    pub fn from_json(d: DatasetJson) -> (res: Dataset)
        ensures
            res == dataset_spec(d),
    {
        Dataset {
            id: d.id,
            dataset_reference: DatasetReference {
                project_id: d.dataset_reference.project_id,
                dataset_id: d.dataset_reference.dataset_id,
            },
            friendly_name: d.friendly_name,
            location: d.location,
        }
    }
}

impl Table {
    /// The table a description makes.
    pub fn from_json(t: TableJson) -> (res: Table)
        ensures
            res == table_spec(t),
            res.table_reference.project_id@ == t.table_reference.project_id@,
            res.table_reference.dataset_id@ == t.table_reference.dataset_id@,
            res.table_reference.table_id@ == t.table_reference.table_id@,
    {
        Table {
            id: t.id,
            table_reference: TableReference {
                project_id: t.table_reference.project_id,
                dataset_id: t.table_reference.dataset_id,
                table_id: t.table_reference.table_id,
            },
            friendly_name: t.friendly_name,
            type_: t.type_,
        }
    }
}

/// The datasets of a parsed listing, or the request failure of a parse error.
pub fn list_datasets_result(r: Result<ListDatasetsResponse, String>) -> (res: Result<Vec<Dataset>, ApiError>)
    ensures
        r matches Ok(l) ==> (res matches Ok(v) && v@ == l.datasets@.map_values(|d: DatasetJson| dataset_spec(d))),
        r matches Err(e) ==> (res matches Err(ApiError::RequestFailed(m)) && m@ == json_parse_message(e@)),
{
    let l = parsed(r)?;
    let items = l.datasets;
    let mut out: Vec<Dataset> = Vec::new();
    for d in it: items
        invariant
            out@ == items@.take(it.index() as int).map_values(|d: DatasetJson| dataset_spec(d)),
    {
        out.push(Dataset::from_json(d));
        proof {
            assert(items@.take(it.index() + 1) =~= items@.take(it.index() as int).push(items@[it.index() as int]));
            assert(out@ =~= items@.take(it.index() + 1).map_values(|d: DatasetJson| dataset_spec(d)));
        }
    }
    assert(items@.take(items@.len() as int) =~= items@);
    Ok(out)
}

/// The dataset of a parsed description, or the request failure of a parse error.
pub fn dataset_result(r: Result<DatasetJson, String>) -> (res: Result<Dataset, ApiError>)
    ensures
        r matches Ok(d) ==> res == Ok::<Dataset, ApiError>(dataset_spec(d)),
        r matches Err(e) ==> (res matches Err(ApiError::RequestFailed(m)) && m@ == json_parse_message(e@)),
{
    let d = parsed(r)?;
    Ok(Dataset::from_json(d))
}

/// The tables of a parsed listing, or the request failure of a parse error.
pub fn list_tables_result(r: Result<ListTablesResponse, String>) -> (res: Result<Vec<Table>, ApiError>)
    ensures
        r matches Ok(l) ==> (res matches Ok(v) && v@ == l.tables@.map_values(|t: TableJson| table_spec(t))),
        r matches Err(e) ==> (res matches Err(ApiError::RequestFailed(m)) && m@ == json_parse_message(e@)),
{
    let l = parsed(r)?;
    let items = l.tables;
    let mut out: Vec<Table> = Vec::new();
    for t in it: items
        invariant
            out@ == items@.take(it.index() as int).map_values(|t: TableJson| table_spec(t)),
    {
        out.push(Table::from_json(t));
        proof {
            assert(items@.take(it.index() + 1) =~= items@.take(it.index() as int).push(items@[it.index() as int]));
            assert(out@ =~= items@.take(it.index() + 1).map_values(|t: TableJson| table_spec(t)));
        }
    }
    assert(items@.take(items@.len() as int) =~= items@);
    Ok(out)
}

/// The table of a parsed description, or the request failure of a parse error.
pub fn table_result(r: Result<TableJson, String>) -> (res: Result<Table, ApiError>)
    ensures
        r matches Ok(t) ==> res == Ok::<Table, ApiError>(table_spec(t)),
        r matches Err(e) ==> (res matches Err(ApiError::RequestFailed(m)) && m@ == json_parse_message(e@)),
{
    let t = parsed(r)?;
    Ok(Table::from_json(t))
}

// ---------------------------------------------------------------------------
// Query answers

/// The text of a cell: none for null or absent, the string of a string, the JSON text of any
/// other value.
pub open spec fn cell_text(v: Option<CellValue>) -> Option<Seq<char>> {
    match v {
        Some(CellValue::Text(s)) => Some(s@),
        Some(CellValue::Other(t)) => Some(t@),
        Some(CellValue::Null) => None,
        None => None,
    }
}

/// The contents of a row.
pub open spec fn row_view(r: Row) -> Seq<Option<Seq<char>>> {
    r.fields@.map_values(|f: Field| match f.value {
        Some(s) => Some(s@),
        None => None,
    })
}

/// The contents of a row as the API describes it, each cell read as its text.
pub open spec fn row_json_view(r: RowJson) -> Seq<Option<Seq<char>>> {
    r.f@.map_values(|f: FieldJson| cell_text(f.v))
}

fn field_from_json(f: FieldJson) -> (res: Field)
    ensures
        (match res.value {
            Some(s) => Some(s@),
            None => None,
        }) == cell_text(f.v),
{
    let value = match f.v {
        Some(CellValue::Text(s)) => Some(s),
        Some(CellValue::Other(t)) => Some(t),
        Some(CellValue::Null) => None,
        None => None,
    };
    Field { value }
}

fn row_from_json(r: RowJson) -> (res: Row)
    ensures
        row_view(res) == row_json_view(r),
{
    let items = r.f;
    let mut fields: Vec<Field> = Vec::new();
    for f in it: items
        invariant
            fields@.len() == it.index(),
            forall|i: int| 0 <= i < it.index() ==> (match (#[trigger] fields@[i]).value {
                Some(s) => Some(s@),
                None => None,
            }) == cell_text(items@[i].v),
    {
        fields.push(field_from_json(f));
    }
    let res = Row { fields };
    assert(row_view(res) =~= row_json_view(RowJson { f: items }));
    res
}

/// The query answer a description makes: its job id, completion, total and rows, each cell
/// read as its text.
pub fn convert_query_response(r: QueryResponseJson) -> (res: QueryResponse)
    ensures
        res.job_id == r.job_id,
        res.job_complete == r.job_complete,
        res.total_rows == r.total_rows,
        res.rows@.len() == r.rows@.len(),
        forall|i: int| 0 <= i < r.rows@.len() ==> row_view(#[trigger] res.rows@[i]) == row_json_view(r.rows@[i]),
{
    let items = r.rows;
    let mut rows: Vec<Row> = Vec::new();
    for row in it: items
        invariant
            rows@.len() == it.index(),
            forall|i: int| 0 <= i < it.index() ==> row_view(#[trigger] rows@[i]) == row_json_view(items@[i]),
    {
        rows.push(row_from_json(row));
    }
    QueryResponse { job_id: r.job_id, job_complete: r.job_complete, rows, total_rows: r.total_rows }
}

/// The query answer of a parsed description, or the request failure of a parse error.
pub fn query_result(r: Result<QueryResponseJson, String>) -> (res: Result<QueryResponse, ApiError>)
    ensures
        r matches Ok(q) ==> (res matches Ok(v) && v.job_id == q.job_id && v.job_complete == q.job_complete
            && v.total_rows == q.total_rows && v.rows@.len() == q.rows@.len()
            && forall|i: int| 0 <= i < q.rows@.len() ==> row_view(#[trigger] v.rows@[i]) == row_json_view(q.rows@[i])),
        r matches Err(e) ==> (res matches Err(ApiError::RequestFailed(m)) && m@ == json_parse_message(e@)),
{
    let q = parsed(r)?;
    Ok(convert_query_response(q))
}

/// The error detail a description makes: the same fields.
pub open spec fn error_detail_spec(d: ErrorDetailJson) -> ErrorDetail {
    ErrorDetail { reason: d.reason, location: d.location, message: d.message }
}

/// The insert answer a description makes: per failed row, its index and error details.
pub fn convert_insert_rows_response(r: InsertAllResponseJson) -> (res: InsertAllResponse)
    ensures
        res.insert_errors@.len() == r.insert_errors@.len(),
        forall|i: int| 0 <= i < r.insert_errors@.len() ==> {
            &&& (#[trigger] res.insert_errors@[i]).index == r.insert_errors@[i].index
            &&& res.insert_errors@[i].errors@ == r.insert_errors@[i].errors@.map_values(|d: ErrorDetailJson| error_detail_spec(d))
        },
{
    let items = r.insert_errors;
    let mut out: Vec<InsertError> = Vec::new();
    for e in it: items
        invariant
            out@.len() == it.index(),
            forall|i: int| 0 <= i < it.index() ==> {
                &&& (#[trigger] out@[i]).index == items@[i].index
                &&& out@[i].errors@ == items@[i].errors@.map_values(|d: ErrorDetailJson| error_detail_spec(d))
            },
    {
        let details = e.errors;
        let mut errors: Vec<ErrorDetail> = Vec::new();
        for d in jt: details
            invariant
                errors@ == details@.take(jt.index() as int).map_values(|d: ErrorDetailJson| error_detail_spec(d)),
        {
            errors.push(ErrorDetail { reason: d.reason, location: d.location, message: d.message });
            proof {
                assert(details@.take(jt.index() + 1) =~= details@.take(jt.index() as int).push(details@[jt.index() as int]));
                assert(errors@ =~= details@.take(jt.index() + 1).map_values(|d: ErrorDetailJson| error_detail_spec(d)));
            }
        }
        assert(details@.take(details@.len() as int) =~= details@);
        out.push(InsertError { index: e.index, errors });
    }
    InsertAllResponse { insert_errors: out }
}

/// The insert answer of a parsed description, or the request failure of a parse error.
pub fn insert_rows_result(r: Result<InsertAllResponseJson, String>) -> (res: Result<InsertAllResponse, ApiError>)
    ensures
        r matches Ok(a) ==> (res matches Ok(v) && v.insert_errors@.len() == a.insert_errors@.len()
            && forall|i: int| 0 <= i < a.insert_errors@.len() ==> {
                &&& (#[trigger] v.insert_errors@[i]).index == a.insert_errors@[i].index
                &&& v.insert_errors@[i].errors@ == a.insert_errors@[i].errors@.map_values(|d: ErrorDetailJson| error_detail_spec(d))
            }),
        r matches Err(e) ==> (res matches Err(ApiError::RequestFailed(m)) && m@ == json_parse_message(e@)),
{
    let a = parsed(r)?;
    Ok(convert_insert_rows_response(a))
}

// ---------------------------------------------------------------------------
// Requests

/// The URL of a project's resource path.
pub open spec fn project_url(project: Seq<char>) -> Seq<char> {
    base_url() + "/projects/"@ + project
}

fn project_url_string(project: &str) -> (res: String)
    ensures
        res@ == project_url(project@),
{
    let mut url = owned("https://bigquery.googleapis.com/bigquery/v2");
    push_str(&mut url, "/projects/");
    push_str(&mut url, project);
    url
}

/// The request listing a project's datasets.
pub fn list_datasets_request(auth: &str, project: &str) -> (res: HttpRequest)
    ensures
        res@ == bodyless_spec(Method::Get, project_url(project@) + "/datasets"@, auth@),
{
    let mut url = project_url_string(project);
    push_str(&mut url, "/datasets");
    get_request(url, auth)
}

/// The request describing a dataset.
pub fn get_dataset_request(auth: &str, project: &str, dataset_id: &str) -> (res: HttpRequest)
    ensures
        res@ == bodyless_spec(Method::Get, project_url(project@) + "/datasets/"@ + dataset_id@, auth@),
{
    let mut url = project_url_string(project);
    push_str(&mut url, "/datasets/");
    push_str(&mut url, dataset_id);
    get_request(url, auth)
}

/// The request listing a dataset's tables.
pub fn list_tables_request(auth: &str, project: &str, dataset_id: &str) -> (res: HttpRequest)
    ensures
        res@ == bodyless_spec(Method::Get, project_url(project@) + "/datasets/"@ + dataset_id@ + "/tables"@, auth@),
{
    let mut url = project_url_string(project);
    push_str(&mut url, "/datasets/");
    push_str(&mut url, dataset_id);
    push_str(&mut url, "/tables");
    get_request(url, auth)
}

/// The URL of a table.
pub open spec fn table_url(project: Seq<char>, dataset_id: Seq<char>, table_id: Seq<char>) -> Seq<char> {
    project_url(project) + "/datasets/"@ + dataset_id + "/tables/"@ + table_id
}

fn table_url_string(project: &str, dataset_id: &str, table_id: &str) -> (res: String)
    ensures
        res@ == table_url(project@, dataset_id@, table_id@),
{
    let mut url = project_url_string(project);
    push_str(&mut url, "/datasets/");
    push_str(&mut url, dataset_id);
    push_str(&mut url, "/tables/");
    push_str(&mut url, table_id);
    url
}

/// The request describing a table.
pub fn get_table_request(auth: &str, project: &str, dataset_id: &str, table_id: &str) -> (res: HttpRequest)
    ensures
        res@ == bodyless_spec(Method::Get, table_url(project@, dataset_id@, table_id@), auth@),
{
    get_request(table_url_string(project, dataset_id, table_id), auth)
}

/// The body of a query: the SQL, in standard SQL.
pub open spec fn query_body(sql: Seq<char>) -> Seq<char> {
    "{\"query\":"@ + json_quoted(sql) + ",\"useLegacySql\":false}"@
}

/// The request running a query in standard SQL.
pub fn query_request(auth: &str, project: &str, sql: &str) -> (res: HttpRequest)
    ensures
        res@ == with_body_spec(Method::Post, project_url(project@) + "/queries"@, auth@,
            "application/json"@, BodyView::Text(query_body(sql@))),
{
    let mut body = owned("{\"query\":");
    let q = json_quote(sql);
    push_str(&mut body, q.as_str());
    push_str(&mut body, ",\"useLegacySql\":false}");
    let mut url = project_url_string(project);
    push_str(&mut url, "/queries");
    json_request(Method::Post, url, auth, body)
}

/// The request reading a query job's results.
pub fn get_query_results_request(auth: &str, project: &str, job_id: &str) -> (res: HttpRequest)
    ensures
        res@ == bodyless_spec(Method::Get, project_url(project@) + "/queries/"@ + job_id@, auth@),
{
    let mut url = project_url_string(project);
    push_str(&mut url, "/queries/");
    push_str(&mut url, job_id);
    get_request(url, auth)
}

/// The rows to insert, each parsed as JSON and written back compactly; the first row that is
/// not JSON gives the error.
pub open spec fn reencoded_rows(rows: Seq<Seq<char>>) -> Result<Seq<Seq<char>>, Seq<char>>
    decreases rows.len(),
{
    if rows.len() == 0 {
        Ok(Seq::empty())
    } else {
        match reencoded_rows(rows.drop_last()) {
            Err(e) => Err(e),
            Ok(done) => match json_reencoded(rows.last()) {
                Ok(v) => Ok(done.push(v)),
                Err(e) => Err(e),
            },
        }
    }
}

/// The body of an insert: `{"rows":[{"json":<row>},...]}`.
pub open spec fn insert_body(values: Seq<Seq<char>>) -> Seq<char> {
    "{\"rows\":["@ + join(values.map_values(|v: Seq<char>| "{\"json\":"@ + v + "}"@), ","@) + "]}"@
}

/// The request inserting rows given as JSON texts, or the request failure of a row that is
/// not JSON.
pub fn insert_rows_request(auth: &str, project: &str, dataset_id: &str, table_id: &str, rows: &[String]) -> (res: Result<HttpRequest, ApiError>)
    ensures
        reencoded_rows(views(rows@)) matches Ok(vals) ==> (res matches Ok(r) && r@ == with_body_spec(Method::Post,
            table_url(project@, dataset_id@, table_id@) + "/insertAll"@, auth@, "application/json"@,
            BodyView::Text(insert_body(vals)))),
        reencoded_rows(views(rows@)) matches Err(e) ==> (res matches Err(ApiError::RequestFailed(m))
            && m@ == "JSON parse error for row: "@ + e),
{
    let ghost all = views(rows@);
    let mut body = owned("{\"rows\":[");
    let n = rows.len();
    let mut i: usize = 0;
    while i < n
        invariant
            n == rows@.len(),
            i <= n,
            all == views(rows@),
            reencoded_rows(all.take(i as int)) matches Ok(vals) && body@ == "{\"rows\":["@
                + join(vals.map_values(|v: Seq<char>| "{\"json\":"@ + v + "}"@), ","@)
                && vals.len() == i,
        decreases n - i,
    {
        let ghost vals = reencoded_rows(all.take(i as int))->Ok_0;
        let ghost t = all.take(i + 1);
        assert(t.drop_last() =~= all.take(i as int));
        let value = match json_reencode(rows[i].as_str()) {
            Ok(v) => v,
            Err(e) => {
                let mut m = owned("JSON parse error for row: ");
                push_str(&mut m, e.as_str());
                proof {
                    lemma_reencoded_prefix_error(all, i as int + 1);
                }
                return Err(ApiError::RequestFailed(m));
            },
        };
        if i > 0 {
            push_str(&mut body, ",");
        }
        push_str(&mut body, "{\"json\":");
        push_str(&mut body, value.as_str());
        push_str(&mut body, "}");
        proof {
            let nv = vals.push(value@);
            assert(reencoded_rows(t) == Ok::<Seq<Seq<char>>, Seq<char>>(nv));
            let m = nv.map_values(|v: Seq<char>| "{\"json\":"@ + v + "}"@);
            assert(m.drop_last() =~= vals.map_values(|v: Seq<char>| "{\"json\":"@ + v + "}"@));
            if i == 0 {
                assert(join(m, ","@) == m[0]);
            }
            assert(body@ =~= "{\"rows\":["@ + join(m, ","@));
        }
        i = i + 1;
    }
    assert(all.take(n as int) =~= all);
    push_str(&mut body, "]}");
    let mut url = table_url_string(project, dataset_id, table_id);
    push_str(&mut url, "/insertAll");
    Ok(json_request(Method::Post, url, auth, body))
}

/// An error in the first `k` rows is the error of all the rows.
proof fn lemma_reencoded_prefix_error(rows: Seq<Seq<char>>, k: int)
    requires
        0 <= k <= rows.len(),
        reencoded_rows(rows.take(k)) is Err,
    ensures
        reencoded_rows(rows) == reencoded_rows(rows.take(k)),
    decreases rows.len() - k,
{
    if k < rows.len() {
        let t = rows.take(k + 1);
        assert(t.drop_last() =~= rows.take(k));
        lemma_reencoded_prefix_error(rows, k + 1);
    } else {
        assert(rows.take(k) =~= rows);
    }
}

} // verus!
