//! The decisions of a connection: how it is opened, what an exec call
//! reports, when it is closed, and what the row callback hands on.
use vstd::prelude::*;
use vstd::utf8::{valid_utf8, decode_utf8};
use crate::code::{open_create_flags, SQLITE_RESULT, SQLITE_OPEN_READWRITE};
use crate::loader::{load_step, loaded_library_is_complete, lookup_table, LoadStep, SymbolTable};
use crate::text::{decimal_string, decimal_text, utf8_text, with_nul};

verus! {

// ---------------------------------------------------------------- connect

/// The message for an entry point that the library did not provide.
pub open spec fn not_init_message(name: Seq<char>) -> Seq<char> {
    "not init "@ + name + " yet"@
}

/// The first entry point, in the order `sqlite3_open_v2`, `sqlite3_exec`,
/// `sqlite3_close`, `sqlite3_free`, that the table lacks.
pub open spec fn first_missing_symbol(t: SymbolTable) -> Option<Seq<char>> {
    if !t.has_open_v2 {
        Some("sqlite3_open_v2"@)
    } else if !t.has_exec {
        Some("sqlite3_exec"@)
    } else if !t.has_close {
        Some("sqlite3_close"@)
    } else if !t.has_free {
        Some("sqlite3_free"@)
    } else {
        None
    }
}

/// The message of a connection that could not be opened.
pub open spec fn connect_error_message(dsn: Seq<char>, code: i32) -> Seq<char> {
    "connect "@ + dsn + " error "@ + decimal_text(code as int)
}

/// What a connection attempt does next, in the model.
pub enum ConnectPlan {
    Fail(Seq<char>),
    Open(Seq<char>, i32),
    Connected,
}

/// What a connection attempt does next.
pub enum ConnectStep {
    /// Give up with this message.
    Fail(String),
    /// Call `sqlite3_open_v2` on this NUL-terminated path with these flags.
    Open { path: String, flags: i32 },
    /// The database is open.
    Connected,
}

impl ConnectStep {
    pub open spec fn plan(&self) -> ConnectPlan {
        match self {
            ConnectStep::Fail(m) => ConnectPlan::Fail(m@),
            ConnectStep::Open { path, flags } => ConnectPlan::Open(path@, *flags),
            ConnectStep::Connected => ConnectPlan::Connected,
        }
    }
}

/// The next step of connecting to `dsn`, given the results of the
/// `sqlite3_open_v2` calls made so far: first open read-write creating the
/// file, and if that fails, once more read-write only.
pub open spec fn connect_plan(t: SymbolTable, dsn: Seq<char>, results: Seq<SQLITE_RESULT>) -> ConnectPlan {
    match first_missing_symbol(t) {
        Some(name) => ConnectPlan::Fail(not_init_message(name)),
        None => if results.len() == 0 {
            ConnectPlan::Open(dsn.push('\0'), 6)
        } else if results[0].0 == 0 {
            ConnectPlan::Connected
        } else if results.len() == 1 {
            ConnectPlan::Open(dsn.push('\0'), 2)
        } else if results[1].0 == 0 {
            ConnectPlan::Connected
        } else {
            ConnectPlan::Fail(connect_error_message(dsn, results[1].0))
        },
    }
}

fn not_init(name: &str) -> (m: String)
    ensures
        m@ == not_init_message(name@),
{
    let mut m: String = "not init ".to_owned();
    m.append(name);
    m.append(" yet");
    m
}

/// Decides the next step of connecting to `dsn` with the entry points in
/// `symbols`, after the `sqlite3_open_v2` calls whose results are `results`.
pub fn connect_next(symbols: &SymbolTable, dsn: &str, results: &Vec<SQLITE_RESULT>) -> (step: ConnectStep)
    ensures
        step.plan() == connect_plan(*symbols, dsn@, results@),
{
    if !symbols.has_open_v2 {
        return ConnectStep::Fail(not_init("sqlite3_open_v2"));
    }
    if !symbols.has_exec {
        return ConnectStep::Fail(not_init("sqlite3_exec"));
    }
    if !symbols.has_close {
        return ConnectStep::Fail(not_init("sqlite3_close"));
    }
    if !symbols.has_free {
        return ConnectStep::Fail(not_init("sqlite3_free"));
    }
    let n: usize = results.len();
    if n == 0 {
        return ConnectStep::Open { path: with_nul(dsn), flags: open_create_flags() };
    }
    if results[0].is_ok() {
        return ConnectStep::Connected;
    }
    if n == 1 {
        return ConnectStep::Open { path: with_nul(dsn), flags: SQLITE_OPEN_READWRITE };
    }
    if results[1].is_ok() {
        return ConnectStep::Connected;
    }
    let mut m: String = "connect ".to_owned();
    m.append(dsn);
    m.append(" error ");
    let code: String = decimal_string(results[1].0);
    m.append(code.as_str());
    ConnectStep::Fail(m)
}

// ---------------------------------------------------------------- exec

/// The message of an exec call on a connection that is not open.
pub open spec fn not_opened_message() -> Seq<char> {
    "not opened yet"@
}

/// The error that an exec call of `sql` reports, given the code that
/// `sqlite3_exec` returned and the bytes of the error message it wrote, if
/// it wrote one; `None` when the call succeeded.
pub open spec fn exec_error(sql: Seq<char>, code: i32, errmsg: Option<Seq<u8>>) -> Option<Seq<char>> {
    match errmsg {
        Some(bytes) => if valid_utf8(bytes) {
            Some("exec "@ + sql + "\nstr "@ + decode_utf8(bytes))
        } else {
            Some("exec "@ + sql + "\nerror "@ + decimal_text(code as int))
        },
        None => if code != 0 {
            Some("exec "@ + sql + "\nerror "@ + decimal_text(code as int))
        } else {
            None
        },
    }
}

/// How an exec call ends: what it reports, and whether the error message
/// that sqlite3 allocated must be handed back to `sqlite3_free`.
pub struct ExecEnd {
    pub result: Result<(), String>,
    pub free_errmsg: bool,
}

/// Decides how an exec call of `sql` ends, given the code that
/// `sqlite3_exec` returned and the bytes of the error message it wrote
/// (`None` when it left the message pointer null).
pub fn exec_end(sql: &str, code: &SQLITE_RESULT, errmsg: Option<&[u8]>) -> (end: ExecEnd)
    ensures
        end.free_errmsg == errmsg is Some,
        match end.result {
            Ok(_) => exec_error(
                sql@,
                code.0,
                match errmsg {
                    Some(b) => Some(b@),
                    None => None,
                },
            ) is None,
            Err(m) => exec_error(
                sql@,
                code.0,
                match errmsg {
                    Some(b) => Some(b@),
                    None => None,
                },
            ) == Some(m@),
        },
{
    match errmsg {
        Some(bytes) => {
            let mut m: String = "exec ".to_owned();
            m.append(sql);
            match utf8_text(bytes) {
                Some(text) => {
                    m.append("\nstr ");
                    m.append(text.as_str());
                },
                None => {
                    m.append("\nerror ");
                    let c: String = decimal_string(code.0);
                    m.append(c.as_str());
                },
            }
            ExecEnd { result: Err(m), free_errmsg: true }
        },
        None => {
            if !code.is_ok() {
                let mut m: String = "exec ".to_owned();
                m.append(sql);
                m.append("\nerror ");
                let c: String = decimal_string(code.0);
                m.append(c.as_str());
                ExecEnd { result: Err(m), free_errmsg: false }
            } else {
                ExecEnd { result: Ok(()), free_errmsg: false }
            }
        },
    }
}

// ---------------------------------------------------------------- state

/// What the decisions of a connection read of its state: whether a
/// database handle is held, and whether a row callback is installed.
pub struct ConnModel {
    pub open: bool,
    pub callback: bool,
}

/// The state of a connection. It starts closed; it is open while it holds
/// the handle that `sqlite3_open_v2` gave.
pub struct Connection {
    open: bool,
    callback: bool,
}

impl View for Connection {
    type V = ConnModel;

    closed spec fn view(&self) -> ConnModel {
        ConnModel { open: self.open, callback: self.callback }
    }
}

/// Recording what an open attempt left in the handle slot.
pub open spec fn record_model(m: ConnModel, handle_set: bool) -> ConnModel {
    ConnModel { open: handle_set, callback: m.callback }
}

/// Starting an exec call in state `m`: refused with "not opened yet", the
/// state unchanged, when no database is open; else the statement goes to
/// `sqlite3_exec` NUL-terminated and the callback choice is recorded.
pub open spec fn exec_begin_model(m: ConnModel, sql: Seq<char>, with_callback: bool) -> (
    ConnModel,
    Result<Seq<char>, Seq<char>>,
) {
    if !m.open {
        (m, Err(not_opened_message()))
    } else {
        (ConnModel { open: true, callback: with_callback }, Ok(sql.push('\0')))
    }
}

/// Closing in state `m`: the handle is given back to sqlite3 exactly when
/// one is held, and afterwards none is.
pub open spec fn close_model(m: ConnModel) -> (ConnModel, bool) {
    (ConnModel { open: false, callback: m.callback }, m.open)
}

/// Dropping a connection: it is closed and its callback removed.
pub open spec fn release_model(m: ConnModel) -> (ConnModel, bool) {
    (ConnModel { open: false, callback: false }, m.open)
}

impl Connection {
    /// A connection that holds no database and no callback.
    pub fn new() -> (c: Connection)
        ensures
            c@ == (ConnModel { open: false, callback: false }),
    {
        Connection { open: false, callback: false }
    }

    /// Whether a database handle is held.
    pub fn is_open(&self) -> (b: bool)
        ensures
            b == self@.open,
    {
        self.open
    }

    /// Whether a row callback is installed.
    pub fn has_callback(&self) -> (b: bool)
        ensures
            b == self@.callback,
    {
        self.callback
    }

    /// Records what an open attempt left in the handle slot: a handle, or none.
    pub fn record_open(&mut self, handle_set: bool)
        ensures
            final(self)@ == record_model(old(self)@, handle_set),
    {
        self.open = handle_set;
    }

    /// Starts an exec call of `sql`, installing a row callback or not:
    /// gives the NUL-terminated statement, or the error when no database is open.
    pub fn begin_exec(&mut self, sql: &str, with_callback: bool) -> (r: Result<String, String>)
        ensures
            final(self)@ == exec_begin_model(old(self)@, sql@, with_callback).0,
            match r {
                Ok(c) => exec_begin_model(old(self)@, sql@, with_callback).1 == Ok::<
                    Seq<char>,
                    Seq<char>,
                >(c@),
                Err(m) => exec_begin_model(old(self)@, sql@, with_callback).1 == Err::<
                    Seq<char>,
                    Seq<char>,
                >(m@),
            },
            old(self)@.open ==> r is Ok && final(self)@.open && final(self)@.callback == with_callback,
            r matches Ok(c) ==> c@.len() == sql@.len() + 1 && c@.last() == '\0' && c@.take(
                sql@.len() as int,
            ) == sql@,
    {
        if !self.open {
            return Err("not opened yet".to_owned());
        }
        self.callback = with_callback;
        Ok(with_nul(sql))
    }

    /// Closes the connection; the result says whether a handle was held,
    /// which must then be given to `sqlite3_close`.
    pub fn close(&mut self) -> (held: bool)
        ensures
            (final(self)@, held) == close_model(old(self)@),
    {
        let held: bool = self.open;
        self.open = false;
        held
    }

    /// Tears the connection down as dropping it does: closes it and
    /// removes its callback.
    pub fn release(&mut self) -> (held: bool)
        ensures
            (final(self)@, held) == release_model(old(self)@),
    {
        let held: bool = self.close();
        self.callback = false;
        held
    }
}

// ---------------------------------------------------------------- rows

/// Whether every byte string of `rows` is valid UTF-8.
pub open spec fn all_valid_utf8(rows: Seq<Vec<u8>>) -> bool {
    forall|i: int| 0 <= i < rows.len() ==> valid_utf8(#[trigger] rows[i]@)
}

/// Whether `texts` are the decodings of `rows`, one for one.
pub open spec fn decodes_to(texts: Seq<String>, rows: Seq<Vec<u8>>) -> bool {
    &&& texts.len() == rows.len()
    &&& forall|i: int| 0 <= i < rows.len() ==> (#[trigger] texts[i])@ == decode_utf8(rows[i]@)
}

/// Decodes each byte string as UTF-8; `None` when one is not valid.
pub fn decode_all(rows: &Vec<Vec<u8>>) -> (r: Option<Vec<String>>)
    ensures
        r is Some <==> all_valid_utf8(rows@),
        r matches Some(texts) ==> decodes_to(texts@, rows@),
{
    let mut texts: Vec<String> = Vec::new();
    let n: usize = rows.len();
    let mut i: usize = 0;
    while i < n
        invariant
            n == rows@.len(),
            i <= n,
            texts@.len() == i,
            forall|j: int| 0 <= j < i ==> valid_utf8(#[trigger] rows@[j]@),
            forall|j: int| 0 <= j < i ==> (#[trigger] texts@[j])@ == decode_utf8(rows@[j]@),
        decreases n - i,
    {
        match utf8_text(rows[i].as_slice()) {
            Some(t) => {
                texts.push(t);
            },
            None => {
                assert(!valid_utf8(rows@[i as int]@));
                return None;
            },
        }
        i = i + 1;
    }
    Some(texts)
}

/// What the row callback of an exec call does with one result row.
pub enum RowStep {
    /// No callback is installed: the row is acknowledged (status 0).
    Skip,
    /// A value or a column name is not UTF-8: the row is refused (status -1).
    Reject,
    /// Hand the decoded values and column names to the callback.
    Deliver(Vec<String>, Vec<String>),
}

impl RowStep {
    /// The status to give back to sqlite3 without calling the callback,
    /// when there is one.
    pub fn early_status(&self) -> (s: Option<i32>)
        ensures
            (self is Skip) ==> s == Some(0i32),
            (self is Reject) ==> s == Some(-1i32),
            (self is Deliver) ==> s is None,
    {
        match self {
            RowStep::Skip => Some(0),
            RowStep::Reject => Some(-1),
            RowStep::Deliver(_, _) => None,
        }
    }
}

/// The status given back to sqlite3 after the callback ran: 0 when it
/// succeeded, -1 (abort the statement) when it failed.
pub fn callback_status(succeeded: bool) -> (s: i32)
    ensures
        s == (if succeeded { 0i32 } else { -1i32 }),
{
    if succeeded { 0 } else { -1 }
}

impl Connection {
    /// Decides what happens to one result row, given the bytes of its
    /// values and of its column names.
    pub fn begin_row(&self, vals: &Vec<Vec<u8>>, cols: &Vec<Vec<u8>>) -> (step: RowStep)
        ensures
            !self@.callback ==> step is Skip,
            self@.callback && !(all_valid_utf8(vals@) && all_valid_utf8(cols@)) ==> step is Reject,
            self@.callback && all_valid_utf8(vals@) && all_valid_utf8(cols@) ==> (step matches RowStep::Deliver(v, c)
                && decodes_to(v@, vals@) && decodes_to(c@, cols@)),
    {
        if !self.callback {
            return RowStep::Skip;
        }
        let v: Vec<String> = match decode_all(vals) {
            Some(v) => v,
            None => {
                return RowStep::Reject;
            },
        };
        let c: Vec<String> = match decode_all(cols) {
            Some(c) => c,
            None => {
                return RowStep::Reject;
            },
        };
        RowStep::Deliver(v, c)
    }
}

// ---------------------------------------------------------------- laws

/// Closing twice gives the handle back at most once: the second close
/// finds nothing to release and changes nothing.
pub proof fn close_is_idempotent(m: ConnModel)
    ensures
        !close_model(close_model(m).0).1,
        close_model(close_model(m).0).0 == close_model(m).0,
{
}

/// After a close (or a drop), an exec call is refused with "not opened yet".
pub proof fn exec_after_close_is_refused(m: ConnModel, sql: Seq<char>, with_callback: bool)
    ensures
        exec_begin_model(close_model(m).0, sql, with_callback).1 == Err::<Seq<char>, Seq<char>>(
            not_opened_message(),
        ),
        exec_begin_model(release_model(m).0, sql, with_callback).1 == Err::<Seq<char>, Seq<char>>(
            not_opened_message(),
        ),
{
}

/// A refused exec call leaves the connection as it was.
pub proof fn refused_exec_changes_nothing(m: ConnModel, sql: Seq<char>, with_callback: bool)
    ensures
        exec_begin_model(m, sql, with_callback).1 is Err ==> exec_begin_model(m, sql, with_callback).0 == m,
{
}

/// An exec call succeeds exactly when sqlite3 wrote no error message and
/// returned `SQLITE_OK`; an error message is always an error, whatever the code.
pub proof fn exec_succeeds_iff_clean(sql: Seq<char>, code: i32, errmsg: Option<Seq<u8>>)
    ensures
        exec_error(sql, code, errmsg) is None <==> (errmsg is None && code == 0),
{
}

/// With all entry points present, a connection opens read-write-create
/// first; it retries read-write only after that failed; it is connected
/// exactly when one of at most two attempts returned `SQLITE_OK`, and fails
/// with the second attempt's code otherwise.
pub proof fn connect_protocol(t: SymbolTable, dsn: Seq<char>, results: Seq<SQLITE_RESULT>)
    requires
        t.complete(),
    ensures
        results.len() == 0 ==> connect_plan(t, dsn, results) == ConnectPlan::Open(dsn.push('\0'), 6),
        results.len() == 1 && results[0].0 != 0 ==> connect_plan(t, dsn, results)
            == ConnectPlan::Open(dsn.push('\0'), 2),
        results.len() >= 1 ==> ((connect_plan(t, dsn, results) is Connected) <==> (results[0].0 == 0 || (
        results.len() >= 2 && results[1].0 == 0))),
        results.len() >= 2 && results[0].0 != 0 && results[1].0 != 0 ==> connect_plan(t, dsn, results)
            == ConnectPlan::Fail(connect_error_message(dsn, results[1].0)),
{
}

/// A connection is never attempted with a missing entry point: the
/// attempt fails naming the first one missing.
pub proof fn connect_needs_every_symbol(t: SymbolTable, dsn: Seq<char>, results: Seq<SQLITE_RESULT>)
    ensures
        !t.complete() ==> connect_plan(t, dsn, results) == ConnectPlan::Fail(
            not_init_message(first_missing_symbol(t)->0),
        ),
{
}

/// A call made on a connection between its opening and its drop.
pub enum ConnCall {
    /// `begin_exec` of a statement, with or without a row callback.
    Exec(Seq<char>, bool),
    /// `close`.
    Close,
}

/// Runs `calls` from state `m`: the state they leave, and how many times
/// a handle was given back to `sqlite3_close` on the way.
pub open spec fn run_calls(m: ConnModel, calls: Seq<ConnCall>) -> (ConnModel, nat)
    decreases calls.len(),
{
    if calls.len() == 0 {
        (m, 0)
    } else {
        let (m1, k1) = match calls[0] {
            ConnCall::Exec(sql, cb) => (exec_begin_model(m, sql, cb).0, 0nat),
            ConnCall::Close => (close_model(m).0, if close_model(m).1 { 1nat } else { 0nat }),
        };
        let (m2, k2) = run_calls(m1, calls.drop_first());
        (m2, k1 + k2)
    }
}

/// How many times a handle is given back over a whole life: the calls,
/// then the drop.
pub open spec fn handles_given_back(m: ConnModel, calls: Seq<ConnCall>) -> nat {
    let (m1, k) = run_calls(m, calls);
    k + if release_model(m1).1 { 1nat } else { 0nat }
}

proof fn lemma_run_calls(m: ConnModel, calls: Seq<ConnCall>)
    ensures
        run_calls(m, calls).1 + (if run_calls(m, calls).0.open { 1nat } else { 0nat }) == (if m.open {
            1nat
        } else {
            0nat
        }),
    decreases calls.len(),
{
    if calls.len() > 0 {
        let m1 = match calls[0] {
            ConnCall::Exec(sql, cb) => exec_begin_model(m, sql, cb).0,
            ConnCall::Close => close_model(m).0,
        };
        lemma_run_calls(m1, calls.drop_first());
    }
}

/// Over a whole life, whatever exec and close calls are made and then the
/// drop, a connection that held a handle gives it back to `sqlite3_close`
/// exactly once, and one that held none gives back nothing.
pub proof fn handle_given_back_exactly_once(m: ConnModel, calls: Seq<ConnCall>)
    ensures
        handles_given_back(m, calls) == (if m.open { 1nat } else { 0nat }),
{
    lemma_run_calls(m, calls);
}

/// Whether `results` are the outcomes of a run of the connect protocol:
/// before each of them, the protocol asked for an open.
pub open spec fn is_connect_run(t: SymbolTable, dsn: Seq<char>, results: Seq<SQLITE_RESULT>) -> bool {
    forall|k: int| 0 <= k < results.len() ==> (#[trigger] connect_plan(t, dsn, results.take(k))) is Open
}

/// When every open that returns `SQLITE_OK` leaves a handle, a connection
/// whose run of the protocol ends in `Connected` holds a handle once the
/// last attempt is recorded: its last result was the success.
pub proof fn connected_run_holds_handle(
    t: SymbolTable,
    dsn: Seq<char>,
    results: Seq<SQLITE_RESULT>,
    handles: Seq<bool>,
    start: ConnModel,
)
    requires
        results.len() == handles.len(),
        forall|i: int| 0 <= i < results.len() && results[i].0 == 0 ==> #[trigger] handles[i],
        is_connect_run(t, dsn, results),
        connect_plan(t, dsn, results) is Connected,
    ensures
        results.len() > 0,
        results.last().0 == 0,
        record_model(start, handles.last()).open,
{
    if results.len() == 0 {
        assert(connect_plan(t, dsn, results) is Open);
    }
    if results.len() >= 2 {
        assert(connect_plan(t, dsn, results.take(1)) is Open);
        assert(results.take(1)[0] == results[0]);
    }
    if results.len() >= 3 {
        assert(connect_plan(t, dsn, results.take(2)) is Open);
        assert(results.take(2)[0] == results[0]);
        assert(results.take(2)[1] == results[1]);
    }
    assert(results.last().0 == 0);
    assert(handles[results.len() - 1]);
}

/// On an open connection an exec call always goes ahead: the connection
/// stays open, the row callback is installed exactly when one was passed,
/// whatever was installed before, and sqlite3 receives the whole statement
/// text, every character of it, followed by one NUL.
pub proof fn exec_on_open_connection(m: ConnModel, sql: Seq<char>, with_callback: bool)
    requires
        m.open,
    ensures
        exec_begin_model(m, sql, with_callback).0.open,
        exec_begin_model(m, sql, with_callback).0.callback == with_callback,
        exec_begin_model(m, sql, with_callback).1 matches Ok(c) && c.len() == sql.len() + 1 && c[sql.len() as int] == '\0'
            && forall|i: int| 0 <= i < sql.len() ==> c[i] == sql[i],
{
}

/// Two exec calls in a row on an open connection each install the
/// callback they were given: the second sees the first's choice not at all.
pub proof fn exec_callback_follows_last_call(m: ConnModel, sql1: Seq<char>, cb1: bool, sql2: Seq<char>, cb2: bool)
    requires
        m.open,
    ensures
        exec_begin_model(exec_begin_model(m, sql1, cb1).0, sql2, cb2).0 == (ConnModel { open: true, callback: cb2 }),
{
}

/// A library whose load succeeded offers every entry point a connection
/// needs: connecting to it starts with the read-write-create open.
pub proof fn loaded_library_connects(opened: bool, found: Seq<bool>, dsn: Seq<char>)
    requires
        load_step(opened, found) == LoadStep::Loaded,
    ensures
        first_missing_symbol(lookup_table(found)) is None,
        connect_plan(lookup_table(found), dsn, Seq::empty()) == ConnectPlan::Open(dsn.push('\0'), 6),
{
    loaded_library_is_complete(opened, found);
}

} // verus!
