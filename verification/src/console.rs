//! The developer console: bounded logs of API requests and database
//! queries, and the rows its two tabs show, newest first.

use crate::text::{decimal, owned, str_eq, u64_to_string};
use std::collections::VecDeque;
use vstd::prelude::*;

verus! {

/// The tabs of the console.
#[derive(Debug, Clone, Copy, PartialEq, Eq, Structural)]
pub enum ConsoleTab {
    ApiRequests,
    DatabaseQueries,
}

/// One logged API request.
#[derive(Debug, Clone)]
pub struct ApiRequestLog {
    pub timestamp: String,
    pub method: String,
    pub url: String,
    pub status: u16,
    pub duration: String,
}

/// One logged database query.
#[derive(Debug, Clone)]
pub struct DatabaseQueryLog {
    pub timestamp: String,
    pub query: String,
    pub duration: String,
    pub rows_affected: Option<u64>,
}

/// State of the console: the tab shown and the two logs, each holding at
/// most `max_logs` entries (at least the newest one).
#[derive(Debug, Clone)]
pub struct ConsoleState {
    pub current_tab: ConsoleTab,
    pub api_logs: VecDeque<ApiRequestLog>,
    pub db_logs: VecDeque<DatabaseQueryLog>,
    pub max_logs: usize,
}

/// Appending `x` to a log bounded by `max`: when the log is full, its
/// oldest entry is dropped first.
pub open spec fn bounded_push<T>(s: Seq<T>, x: T, max: nat) -> Seq<T> {
    if s.len() >= max && s.len() > 0 {
        s.drop_first().push(x)
    } else {
        s.push(x)
    }
}

/// The number of entries a log bounded by `max` holds at most.
pub open spec fn log_capacity(max: nat) -> nat {
    if max == 0 {
        1
    } else {
        max
    }
}

/// The newest `cap` entries of `all`, oldest first.
pub open spec fn most_recent<T>(all: Seq<T>, cap: nat) -> Seq<T> {
    if all.len() <= cap {
        all
    } else {
        all.subrange(all.len() - cap, all.len() as int)
    }
}

impl Default for ConsoleState {
    fn default() -> (r: ConsoleState)
        ensures
            r.current_tab == ConsoleTab::ApiRequests,
            r.api_logs@.len() == 0,
            r.db_logs@.len() == 0,
            r.max_logs == 1000,
    {
        ConsoleState {
            current_tab: ConsoleTab::ApiRequests,
            api_logs: VecDeque::new(),
            db_logs: VecDeque::new(),
            max_logs: 1000,
        }
    }
}

impl ConsoleState {
    /// Logs an API request, dropping the oldest one when the log is full.
    pub fn add_api_log(&mut self, log: ApiRequestLog)
        ensures
            final(self).api_logs@ == bounded_push(old(self).api_logs@, log, old(self).max_logs as nat),
            final(self).db_logs@ == old(self).db_logs@,
            final(self).max_logs == old(self).max_logs,
            final(self).current_tab == old(self).current_tab,
    {
        if self.api_logs.len() >= self.max_logs {
            let _ = self.api_logs.pop_front();
        }
        self.api_logs.push_back(log);
        assert(self.api_logs@ =~= bounded_push(old(self).api_logs@, log, old(self).max_logs as nat));
    }

    /// Logs a database query, dropping the oldest one when the log is full.
    pub fn add_db_log(&mut self, log: DatabaseQueryLog)
        ensures
            final(self).db_logs@ == bounded_push(old(self).db_logs@, log, old(self).max_logs as nat),
            final(self).api_logs@ == old(self).api_logs@,
            final(self).max_logs == old(self).max_logs,
            final(self).current_tab == old(self).current_tab,
    {
        if self.db_logs.len() >= self.max_logs {
            let _ = self.db_logs.pop_front();
        }
        self.db_logs.push_back(log);
        assert(self.db_logs@ =~= bounded_push(old(self).db_logs@, log, old(self).max_logs as nat));
    }

    /// Empties both logs.
    pub fn clear_logs(&mut self)
        ensures
            final(self).api_logs@.len() == 0,
            final(self).db_logs@.len() == 0,
            final(self).max_logs == old(self).max_logs,
            final(self).current_tab == old(self).current_tab,
    {
        self.api_logs.clear();
        self.db_logs.clear();
    }
}

/// A log bounded by `max` never grows past its capacity, and the entry
/// just added is the newest one.
pub proof fn lemma_bounded_push_capacity<T>(s: Seq<T>, x: T, max: nat)
    requires
        s.len() <= log_capacity(max),
    ensures
        bounded_push(s, x, max).len() <= log_capacity(max),
        bounded_push(s, x, max).last() == x,
{
}

/// Starting from an empty log, a bounded log always holds exactly the most
/// recent entries added to it, oldest first: appending to the newest
/// `cap` entries of a history gives the newest `cap` entries of the
/// longer history.
pub proof fn lemma_bounded_push_keeps_most_recent<T>(all: Seq<T>, x: T, max: nat)
    ensures
        bounded_push(most_recent(all, log_capacity(max)), x, max) == most_recent(
            all.push(x),
            log_capacity(max),
        ),
{
    let cap = log_capacity(max);
    let kept = most_recent(all, cap);
    let longer = all.push(x);
    if all.len() < cap {
        assert(kept == all);
        assert(bounded_push(kept, x, max) =~= longer);
    } else {
        assert(kept.len() == cap);
        assert(bounded_push(kept, x, max) =~= kept.drop_first().push(x));
        assert(kept.drop_first().push(x) =~= longer.subrange(longer.len() - cap, longer.len() as int));
    }
}

/// Text styles the console uses.
#[derive(Debug, Clone, Copy, PartialEq, Eq, Structural)]
pub enum TextStyle {
    Standard,
    Subtitle,
    Incoming,
    Outgoing,
    Danger,
}

/// The style of an HTTP method: reads plain, creation incoming, updates
/// outgoing, deletion in the danger style.
pub open spec fn method_style(m: Seq<char>) -> TextStyle {
    if m == "GET"@ {
        TextStyle::Standard
    } else if m == "POST"@ {
        TextStyle::Incoming
    } else if m == "PUT"@ {
        TextStyle::Outgoing
    } else if m == "DELETE"@ {
        TextStyle::Danger
    } else {
        TextStyle::Standard
    }
}

/// The style of an HTTP status: errors (400 and up) in the danger style,
/// redirects (300 and up) outgoing, the rest incoming.
pub open spec fn status_style(s: u16) -> TextStyle {
    if s >= 400 {
        TextStyle::Danger
    } else if s >= 300 {
        TextStyle::Outgoing
    } else {
        TextStyle::Incoming
    }
}

/// One row of the API request tab.
#[derive(Debug, Clone)]
pub struct ApiLogRow {
    pub timestamp: String,
    pub method: String,
    pub method_style: TextStyle,
    pub url: String,
    pub status: String,
    pub status_style: TextStyle,
    pub duration: String,
}

/// One row of the database query tab.
#[derive(Debug, Clone)]
pub struct DbLogRow {
    pub timestamp: String,
    pub query: String,
    pub duration: String,
    pub rows_affected: String,
}

/// `row` shows log entry `log`.
pub open spec fn api_row_of(log: ApiRequestLog, row: ApiLogRow) -> bool {
    &&& row.timestamp@ == log.timestamp@
    &&& row.method@ == log.method@
    &&& row.method_style == method_style(log.method@)
    &&& row.url@ == log.url@
    &&& row.status@ == decimal(log.status as nat)
    &&& row.status_style == status_style(log.status)
    &&& row.duration@ == log.duration@
}

/// The text of an affected-row count: the number, or `-` when unknown.
pub open spec fn rows_affected_text(n: Option<u64>) -> Seq<char> {
    match n {
        Some(k) => decimal(k as nat),
        None => "-"@,
    }
}

/// `row` shows log entry `log`.
pub open spec fn db_row_of(log: DatabaseQueryLog, row: DbLogRow) -> bool {
    &&& row.timestamp@ == log.timestamp@
    &&& row.query@ == log.query@
    &&& row.duration@ == log.duration@
    &&& row.rows_affected@ == rows_affected_text(log.rows_affected)
}

/// The message the API tab shows while its log is empty.
pub open spec fn empty_api_log_message() -> Seq<char> {
    "暂无API请求日志"@
}

/// The message the database tab shows while its log is empty.
pub open spec fn empty_db_log_message() -> Seq<char> {
    "暂无数据库查询日志"@
}

fn method_style_of(m: &str) -> (r: TextStyle)
    ensures
        r == method_style(m@),
{
    if str_eq(m, "GET") {
        TextStyle::Standard
    } else if str_eq(m, "POST") {
        TextStyle::Incoming
    } else if str_eq(m, "PUT") {
        TextStyle::Outgoing
    } else if str_eq(m, "DELETE") {
        TextStyle::Danger
    } else {
        TextStyle::Standard
    }
}

fn status_style_of(s: u16) -> (r: TextStyle)
    ensures
        r == status_style(s),
{
    if s >= 400 {
        TextStyle::Danger
    } else if s >= 300 {
        TextStyle::Outgoing
    } else {
        TextStyle::Incoming
    }
}

/// The rows of the API request tab: one per logged request, newest first.
pub fn api_log_rows(logs: &VecDeque<ApiRequestLog>) -> (r: Vec<ApiLogRow>)
    ensures
        r@.len() == logs@.len(),
        forall|i: int| 0 <= i < r@.len() ==> api_row_of(logs@[logs@.len() - 1 - i], #[trigger] r@[i]),
{
    let n = logs.len();
    let mut out: Vec<ApiLogRow> = Vec::new();
    let mut i: usize = 0;
    while i < n
        invariant
            n == logs@.len(),
            i <= n,
            out@.len() == i,
            forall|j: int| 0 <= j < i ==> api_row_of(logs@[n - 1 - j], #[trigger] out@[j]),
        decreases n - i,
    {
        let log = &logs[n - 1 - i];
        let row = ApiLogRow {
            timestamp: log.timestamp.clone(),
            method: log.method.clone(),
            method_style: method_style_of(log.method.as_str()),
            url: log.url.clone(),
            status: u64_to_string(log.status as u64),
            status_style: status_style_of(log.status),
            duration: log.duration.clone(),
        };
        out.push(row);
        i = i + 1;
    }
    out
}

/// The rows of the database query tab: one per logged query, newest first.
pub fn db_log_rows(logs: &VecDeque<DatabaseQueryLog>) -> (r: Vec<DbLogRow>)
    ensures
        r@.len() == logs@.len(),
        forall|i: int| 0 <= i < r@.len() ==> db_row_of(logs@[logs@.len() - 1 - i], #[trigger] r@[i]),
{
    let n = logs.len();
    let mut out: Vec<DbLogRow> = Vec::new();
    let mut i: usize = 0;
    while i < n
        invariant
            n == logs@.len(),
            i <= n,
            out@.len() == i,
            forall|j: int| 0 <= j < i ==> db_row_of(logs@[n - 1 - j], #[trigger] out@[j]),
        decreases n - i,
    {
        let log = &logs[n - 1 - i];
        let rows = match log.rows_affected {
            Some(k) => u64_to_string(k),
            None => owned("-"),
        };
        let row = DbLogRow {
            timestamp: log.timestamp.clone(),
            query: log.query.clone(),
            duration: log.duration.clone(),
            rows_affected: rows,
        };
        out.push(row);
        i = i + 1;
    }
    out
}


/// What a log tab shows: the empty-state message while its log is empty,
/// else its rows, newest first.
#[derive(Debug, Clone)]
pub enum LogTabContent<R> {
    Empty(String),
    Rows { columns: Vec<String>, rows: Vec<R> },
}

/// The column titles of the API tab.
pub open spec fn api_log_columns() -> Seq<Seq<char>> {
    seq!["时间"@, "方法"@, "URL"@, "状态"@, "耗时"@]
}

/// The column titles of the database tab.
pub open spec fn db_log_columns() -> Seq<Seq<char>> {
    seq!["时间"@, "查询语句"@, "耗时"@, "影响行数"@]
}

/// `c` holds the titles `t`, in order.
pub open spec fn titles_are(c: Seq<String>, t: Seq<Seq<char>>) -> bool {
    c.len() == t.len() && forall|i: int| 0 <= i < c.len() ==> (#[trigger] c[i])@ == t[i]
}

/// The column titles of the API tab.
pub fn api_log_column_titles() -> (r: Vec<String>)
    ensures
        titles_are(r@, api_log_columns()),
{
    let mut r: Vec<String> = Vec::new();
    r.push(owned("时间"));
    r.push(owned("方法"));
    r.push(owned("URL"));
    r.push(owned("状态"));
    r.push(owned("耗时"));
    r
}

/// The column titles of the database tab.
pub fn db_log_column_titles() -> (r: Vec<String>)
    ensures
        titles_are(r@, db_log_columns()),
{
    let mut r: Vec<String> = Vec::new();
    r.push(owned("时间"));
    r.push(owned("查询语句"));
    r.push(owned("耗时"));
    r.push(owned("影响行数"));
    r
}

/// The message the API tab shows while its log is empty.
pub fn empty_api_log_text() -> (r: String)
    ensures
        r@ == empty_api_log_message(),
{
    owned("暂无API请求日志")
}

/// The message the database tab shows while its log is empty.
pub fn empty_db_log_text() -> (r: String)
    ensures
        r@ == empty_db_log_message(),
{
    owned("暂无数据库查询日志")
}

/// The content of the API tab: the empty-state message when no request is
/// logged, else the column titles and one row per request, newest first.
pub fn api_log_view(logs: &VecDeque<ApiRequestLog>) -> (r: LogTabContent<ApiLogRow>)
    ensures
        logs@.len() == 0 <==> r is Empty,
        r matches LogTabContent::Empty(m) ==> m@ == empty_api_log_message(),
        r matches LogTabContent::Rows { columns, rows } ==> {
            &&& titles_are(columns@, api_log_columns())
            &&& rows@.len() == logs@.len()
            &&& forall|i: int| 0 <= i < rows@.len() ==> api_row_of(logs@[logs@.len() - 1 - i], #[trigger] rows@[i])
        },
{
    if logs.len() == 0 {
        LogTabContent::Empty(empty_api_log_text())
    } else {
        LogTabContent::Rows { columns: api_log_column_titles(), rows: api_log_rows(logs) }
    }
}

/// The content of the database tab: the empty-state message when no query
/// is logged, else the column titles and one row per query, newest first.
pub fn db_log_view(logs: &VecDeque<DatabaseQueryLog>) -> (r: LogTabContent<DbLogRow>)
    ensures
        logs@.len() == 0 <==> r is Empty,
        r matches LogTabContent::Empty(m) ==> m@ == empty_db_log_message(),
        r matches LogTabContent::Rows { columns, rows } ==> {
            &&& titles_are(columns@, db_log_columns())
            &&& rows@.len() == logs@.len()
            &&& forall|i: int| 0 <= i < rows@.len() ==> db_row_of(logs@[logs@.len() - 1 - i], #[trigger] rows@[i])
        },
{
    if logs.len() == 0 {
        LogTabContent::Empty(empty_db_log_text())
    } else {
        LogTabContent::Rows { columns: db_log_column_titles(), rows: db_log_rows(logs) }
    }
}

/// One tab button of the console header.
#[derive(Debug, Clone)]
pub struct ConsoleTabButton {
    pub label: String,
    pub tab: ConsoleTab,
    pub active: bool,
}

/// The console header: the two tab buttons, the shown one active, and the
/// label of the button that clears the logs.
#[derive(Debug, Clone)]
pub struct ConsoleHeader {
    pub tabs: Vec<ConsoleTabButton>,
    pub clear_label: String,
}

/// The console header while tab `current` is shown: "API请求" then
/// "数据库查询", each active when it is the shown tab, and "清空日志".
pub fn console_header(current: ConsoleTab) -> (r: ConsoleHeader)
    ensures
        r.tabs@.len() == 2,
        r.tabs@[0].label@ == "API请求"@ && r.tabs@[0].tab == ConsoleTab::ApiRequests
            && r.tabs@[0].active == (current == ConsoleTab::ApiRequests),
        r.tabs@[1].label@ == "数据库查询"@ && r.tabs@[1].tab == ConsoleTab::DatabaseQueries
            && r.tabs@[1].active == (current == ConsoleTab::DatabaseQueries),
        r.clear_label@ == "清空日志"@,
{
    let mut tabs: Vec<ConsoleTabButton> = Vec::new();
    tabs.push(ConsoleTabButton {
        label: owned("API请求"),
        tab: ConsoleTab::ApiRequests,
        active: current == ConsoleTab::ApiRequests,
    });
    tabs.push(ConsoleTabButton {
        label: owned("数据库查询"),
        tab: ConsoleTab::DatabaseQueries,
        active: current == ConsoleTab::DatabaseQueries,
    });
    ConsoleHeader { tabs, clear_label: owned("清空日志") }
}

} // verus!
