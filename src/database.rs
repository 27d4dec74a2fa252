use vstd::prelude::*;
use vstd::string::*;

use crate::network::ApiResponse;
use sea_query::{Alias, ColumnDef, Query, SqliteQueryBuilder, Table};

verus! {

/// The table of stored responses and its columns.
#[derive(Debug, Clone, Copy, PartialEq, Eq)]
pub enum Responses {
    Table,
    Id,
    DateTime,
    RequestType,
    Url,
    Data,
}

impl Responses {
    pub open spec fn spec_name(&self) -> Seq<char> {
        match self {
            Responses::Table => "responses"@,
            Responses::Id => "id"@,
            Responses::DateTime => "date_time"@,
            Responses::RequestType => "request_type"@,
            Responses::Url => "url"@,
            Responses::Data => "data"@,
        }
    }

    /// The SQL name of the table or column.
    pub fn name(&self) -> (r: String)
        ensures
            r@ == self.spec_name(),
    {
        match self {
            Responses::Table => String::from_str("responses"),
            Responses::Id => String::from_str("id"),
            Responses::DateTime => String::from_str("date_time"),
            Responses::RequestType => String::from_str("request_type"),
            Responses::Url => String::from_str("url"),
            Responses::Data => String::from_str("data"),
        }
    }
}

/// Bound, in milliseconds either side of the Unix epoch (about 253,000
/// years), within which every timestamp can be rendered.
pub const TIMESTAMP_LIMIT_MS: i64 = 8_000_000_000_000_000;

/// The RFC 3339 text, with milliseconds and `Z`, of the UTC instant `ms`
/// milliseconds after the Unix epoch.
pub uninterp spec fn rfc3339_millis_of(ms: i64) -> Seq<char>;

/// Relies on chrono's DateTime::from_timestamp_millis, which gives `None`
/// only for an instant outside years -262143..262142, and on DateTime::to_rfc3339_opts with
/// millisecond precision and `Z` for UTC, whose text depends on the instant
/// alone.
#[verifier::external_body]
fn format_timestamp(ms: i64) -> (r: Option<String>)
    ensures
        r matches Some(s) ==> s@ == rfc3339_millis_of(ms),
        -TIMESTAMP_LIMIT_MS <= ms <= TIMESTAMP_LIMIT_MS ==> r is Some,
{
    chrono::DateTime::from_timestamp_millis(ms).map(
        |d| d.to_rfc3339_opts(chrono::SecondsFormat::Millis, true),
    )
}

/// The values of one stored row, all but its generated id.
#[derive(Debug)]
pub struct StoredRow {
    pub date_time: String,
    pub request_type: String,
    pub url: String,
    pub data: String,
}

/// The row stored for `response`, given its timestamp already as text: the
/// variant's tag, and the URL and body verbatim.
pub fn row_from(date_time: String, response: &ApiResponse) -> (r: StoredRow)
    ensures
        r.date_time@ == date_time@,
        r.request_type@ == response.request_type.spec_tag(),
        r.url@ == response.url@,
        r.data@ == response.data@,
{
    StoredRow {
        date_time,
        request_type: response.request_type.tag(),
        url: response.url.clone(),
        data: response.data.clone(),
    }
}

/// The row stored for `response`, with its timestamp in RFC 3339 form;
/// `None` only when the timestamp lies outside what the calendar can render.
pub fn row_of(response: &ApiResponse) -> (r: Option<StoredRow>)
    ensures
        -TIMESTAMP_LIMIT_MS <= response.date_time <= TIMESTAMP_LIMIT_MS ==> r is Some,
        r matches Some(row) ==> {
            &&& row.date_time@ == rfc3339_millis_of(response.date_time)
            &&& row.request_type@ == response.request_type.spec_tag()
            &&& row.url@ == response.url@
            &&& row.data@ == response.data@
        },
{
    match format_timestamp(response.date_time) {
        Some(text) => Some(row_from(text, response)),
        None => None,
    }
}


/// A SQLite identifier in double quotes.
pub open spec fn quoted(name: Seq<char>) -> Seq<char> {
    "\""@ + name + "\""@
}

pub open spec fn no_quote(s: Seq<char>) -> bool {
    forall|i: int| 0 <= i < s.len() ==> s[i] != '"'
}

/// The SQLite statement that creates the response table under the given
/// table and column names unless a table of that name exists already: an
/// integer key and four text columns, none of them nullable.
pub open spec fn create_table_sql(
    table: Seq<char>,
    id: Seq<char>,
    date_time: Seq<char>,
    request_type: Seq<char>,
    url: Seq<char>,
    data: Seq<char>,
) -> Seq<char> {
    "CREATE TABLE IF NOT EXISTS "@ + quoted(table) + " ( "@ + quoted(id)
        + " integer NOT NULL PRIMARY KEY, "@ + quoted(date_time) + " text NOT NULL, "@ + quoted(
        request_type,
    ) + " text NOT NULL, "@ + quoted(url) + " text NOT NULL, "@ + quoted(data)
        + " text NOT NULL )"@
}

/// The SQLite text of an insert of one row into the given table and columns,
/// with one placeholder per value.
pub open spec fn insert_sql(
    table: Seq<char>,
    date_time: Seq<char>,
    request_type: Seq<char>,
    url: Seq<char>,
    data: Seq<char>,
) -> Seq<char> {
    "INSERT INTO "@ + quoted(table) + " ("@ + quoted(date_time) + ", "@ + quoted(request_type)
        + ", "@ + quoted(url) + ", "@ + quoted(data) + ") VALUES (?, ?, ?, ?)"@
}

/// Relies on sea_query's Table::create with if_not_exists, rendered by
/// SqliteQueryBuilder: each name between double quotes (a name holding none
/// needs no escape), `integer` for an integer column and `text` for string
/// and date-time columns, NOT NULL before PRIMARY KEY.
#[verifier::external_body]
fn build_create_table(
    table: &str,
    id: &str,
    date_time: &str,
    request_type: &str,
    url: &str,
    data: &str,
) -> (r: String)
    requires
        no_quote(table@),
        no_quote(id@),
        no_quote(date_time@),
        no_quote(request_type@),
        no_quote(url@),
        no_quote(data@),
    ensures
        r@ == create_table_sql(table@, id@, date_time@, request_type@, url@, data@),
{
    Table::create().table(Alias::new(table)).if_not_exists().col(
        ColumnDef::new(Alias::new(id)).integer().not_null().primary_key(),
    ).col(ColumnDef::new(Alias::new(date_time)).date_time().not_null()).col(
        ColumnDef::new(Alias::new(request_type)).string().not_null(),
    ).col(ColumnDef::new(Alias::new(url)).string().not_null()).col(
        ColumnDef::new(Alias::new(data)).string().not_null(),
    ).build(SqliteQueryBuilder)
}

/// Relies on sea_query's Query::insert rendered by SqliteQueryBuilder: each
/// name is written between double quotes (a name holding none needs no
/// escape) and each value as a `?` placeholder; four values for four
/// columns, so values_panic never panics.
#[verifier::external_body]
fn build_insert(table: &str, columns: [&str; 4], row: &StoredRow) -> (r: String)
    requires
        no_quote(table@),
        forall|k: int| 0 <= k < 4 ==> no_quote(#[trigger] columns[k]@),
    ensures
        r@ == insert_sql(table@, columns[0]@, columns[1]@, columns[2]@, columns[3]@),
{
    Query::insert().into_table(Alias::new(table)).columns(columns.map(Alias::new)).values_panic(
        [
            row.date_time.clone().into(),
            row.request_type.clone().into(),
            row.url.clone().into(),
            row.data.clone().into(),
        ],
    ).build(SqliteQueryBuilder).0
}

/// The statement that creates the response table under the names of
/// `Responses`; guarded by `IF NOT EXISTS`, so running it again leaves an
/// existing table and its rows as they are.
pub fn create_table_statement() -> (r: String)
    ensures
        r@ == create_table_sql(
            Responses::Table.spec_name(),
            Responses::Id.spec_name(),
            Responses::DateTime.spec_name(),
            Responses::RequestType.spec_name(),
            Responses::Url.spec_name(),
            Responses::Data.spec_name(),
        ),
{
    let table = Responses::Table.name();
    let id = Responses::Id.name();
    let date_time = Responses::DateTime.name();
    let request_type = Responses::RequestType.name();
    let url = Responses::Url.name();
    let data = Responses::Data.name();
    proof {
        reveal_strlit("responses");
        reveal_strlit("id");
        reveal_strlit("date_time");
        reveal_strlit("request_type");
        reveal_strlit("url");
        reveal_strlit("data");
    }
    build_create_table(
        table.as_str(),
        id.as_str(),
        date_time.as_str(),
        request_type.as_str(),
        url.as_str(),
        data.as_str(),
    )
}

/// The statement that appends `row` to the response table, and the values to
/// bind to its placeholders: the row's fields in column order.
pub fn insert_statement(row: &StoredRow) -> (r: (String, Vec<String>))
    ensures
        r.0@ == insert_sql(
            Responses::Table.spec_name(),
            Responses::DateTime.spec_name(),
            Responses::RequestType.spec_name(),
            Responses::Url.spec_name(),
            Responses::Data.spec_name(),
        ),
        r.1.len() == 4,
        r.1[0]@ == row.date_time@,
        r.1[1]@ == row.request_type@,
        r.1[2]@ == row.url@,
        r.1[3]@ == row.data@,
{
    let table = Responses::Table.name();
    let date_time = Responses::DateTime.name();
    let request_type = Responses::RequestType.name();
    let url = Responses::Url.name();
    let data = Responses::Data.name();
    proof {
        reveal_strlit("responses");
        reveal_strlit("date_time");
        reveal_strlit("request_type");
        reveal_strlit("url");
        reveal_strlit("data");
    }
    let columns = [date_time.as_str(), request_type.as_str(), url.as_str(), data.as_str()];
    assert(forall|k: int| 0 <= k < 4 ==> no_quote(#[trigger] columns[k]@));
    let sql = build_insert(table.as_str(), columns, row);
    let mut values: Vec<String> = Vec::new();
    values.push(row.date_time.clone());
    values.push(row.request_type.clone());
    values.push(row.url.clone());
    values.push(row.data.clone());
    (sql, values)
}

} // verus!
