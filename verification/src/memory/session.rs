//! A session on tables in memory: the tables, and the cursor that a search
//! opened on them.

use vstd::prelude::*;
use crate::bytes::copy_text;
use crate::memory::model::{compiled, search_key, unsupported, Contents, TablesView};
use crate::memory::tables::Tables;
use crate::protocol::{copy_values, Reply, ReplyView, Request, RequestView, RowView, Sql, SqlValue};

verus! {

/// The rows that a cursor has not handed out yet, or nothing where no
/// cursor is open.
pub struct Cursor {
    pub rows: Vec<Vec<SqlValue>>,
    pub position: usize,
    pub open: bool,
}

impl View for Cursor {
    type V = Option<Seq<RowView>>;

    open spec fn view(&self) -> Option<Seq<RowView>> {
        if self.open && self.position <= self.rows.len() {
            Some(self.rows.deep_view().skip(self.position as int))
        } else {
            None
        }
    }
}

/// What a session holds: the tables and the rows left in its cursor.
pub struct SessionView {
    pub tables: TablesView,
    pub cursor: Option<Seq<RowView>>,
}

impl SessionView {
    /// What the tables of the session hold now.
    pub open spec fn now(self) -> Contents {
        self.tables.now
    }

    /// What the session does with a request, and what it answers.
    ///
    /// A cursor holds the rows that its statement returned when it was
    /// opened. The tags of a row are read when they are asked for. A search
    /// is compiled to the statement that means the items of its wallet
    /// with its type: the session knows no predicate over tags.
    pub open spec fn serve(self, request: RequestView) -> (SessionView, ReplyView) {
        match request {
            RequestView::OpenCursor { wallet_id, sql, params } => {
                let (tables, reply) = self.tables.serve(RequestView::Query { sql, params });
                match reply {
                    ReplyView::Rows(rows) => (
                        SessionView { tables, cursor: Some(rows) },
                        ReplyView::Done,
                    ),
                    _ => (SessionView { tables, ..self }, reply),
                }
            },
            RequestView::PrepareTags => (self, ReplyView::Done),
            RequestView::Fetch => match self.cursor {
                Some(rows) => if rows.len() > 0 {
                    (
                        SessionView { cursor: Some(rows.skip(1)), ..self },
                        ReplyView::Fetched(Some(rows[0])),
                    )
                } else {
                    (self, ReplyView::Fetched(None))
                },
                None => (self, unsupported()),
            },
            RequestView::Translate { wallet_id, type_, count } => (
                self,
                compiled(wallet_id, type_, count),
            ),
            _ => {
                let (tables, reply) = self.tables.serve(request);
                (SessionView { tables, ..self }, reply)
            },
        }
    }
}

impl Cursor {
    /// No cursor.
    pub fn none() -> (cursor: Cursor)
        ensures
            cursor@ is None,
    {
        Cursor { rows: Vec::new(), position: 0, open: false }
    }
}

/// Carries out a request on the tables and the cursor of a session, and
/// answers it.
pub fn serve(tables: &mut Tables, cursor: &mut Cursor, request: &Request) -> (reply: Reply)
    ensures
        (SessionView { tables: final(tables)@, cursor: final(cursor)@ }, reply@) == (SessionView {
            tables: old(tables)@,
            cursor: old(cursor)@,
        }).serve(request@),
{
    match request {
        Request::OpenCursor { wallet_id, sql, params } => {
            let sql = match sql {
                Sql::Fixed(statement) => Sql::Fixed(*statement),
                Sql::Translated(text) => Sql::Translated(copy_text(text.as_str())),
            };
            let reply = tables.serve(
                &Request::Query { sql, params: copy_values(params.as_slice()) },
            );
            match reply {
                Reply::Rows(rows) => {
                    cursor.rows = rows;
                    cursor.position = 0;
                    cursor.open = true;
                    assert(cursor.rows.deep_view().skip(0) =~= cursor.rows.deep_view());
                    Reply::Done
                },
                _ => reply,
            }
        },
        Request::PrepareTags => Reply::Done,
        Request::Fetch => {
            if cursor.open && cursor.position <= cursor.rows.len() {
                if cursor.position < cursor.rows.len() {
                    let row = copy_values(cursor.rows[cursor.position].as_slice());
                    let ghost before = cursor.rows.deep_view().skip(cursor.position as int);
                    cursor.position = cursor.position + 1;
                    assert(cursor.rows.deep_view().skip(cursor.position as int) =~= before.skip(
                        1,
                    ));
                    assert(before[0] == row.deep_view());
                    Reply::Fetched(Some(row))
                } else {
                    Reply::Fetched(None)
                }
            } else {
                tables.serve(request)
            }
        },
        Request::Translate { wallet_id, type_, count } => {
            let mut params: Vec<SqlValue> = Vec::new();
            params.push(SqlValue::text(wallet_id.as_str()));
            params.push(SqlValue::bytes(type_.as_slice()));
            assert(params.deep_view() =~= search_key(wallet_id@, type_@));
            let text = if *count {
                copy_text("SELECT count(*) FROM items WHERE wallet_id = $1 AND type = $2")
            } else {
                copy_text(
                    "SELECT id, name, value, key, type FROM items WHERE wallet_id = $1 AND type = $2",
                )
            };
            Reply::Translated { text, params }
        },
        _ => tables.serve(request),
    }
}

} // verus!
