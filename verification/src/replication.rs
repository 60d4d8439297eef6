//! The replication health check: scan the rows of one diagnostic query for
//! the two replication thread status fields and interpret them into a
//! pass/fail verdict.

use vstd::prelude::*;

use crate::pinger::MySQLPinger;
use crate::text::{bool_str, is_affirmative, is_yes, render_bool, str_eq};

verus! {

/// One named column of a result row; `value` is the column's text, or
/// nothing where the cell was absent or unreadable.
#[derive(Debug)]
pub struct NamedValue {
    pub name: String,
    pub value: Option<String>,
}

/// One row of the diagnostic query's result set.
#[derive(Debug)]
pub struct StatusRow {
    pub columns: Vec<NamedValue>,
}

/// Spec-level mirror of `NamedValue`.
pub struct ColumnView {
    pub name: Seq<char>,
    pub value: Option<Seq<char>>,
}

/// Why the replication check failed.
#[derive(Debug)]
pub enum SlaveStatusError {
    /// The diagnostic query itself failed; carries the connector's error.
    Query { error: String },
    /// The query succeeded but the two thread flags were not both
    /// affirmative; carries both observed values, a missing field counting
    /// as false.
    NotRunning { io_running: bool, sql_running: bool },
}

pub open spec fn column_view(c: NamedValue) -> ColumnView {
    ColumnView {
        name: c.name@,
        value: match c.value {
            Some(v) => Some(v@),
            None => None,
        },
    }
}

pub open spec fn row_columns(r: StatusRow) -> Seq<ColumnView> {
    r.columns@.map(|i: int, c: NamedValue| column_view(c))
}

/// All columns of all rows, in scan order.
pub open spec fn all_columns(rows: Seq<StatusRow>) -> Seq<ColumnView>
    decreases rows.len(),
{
    if rows.len() == 0 {
        Seq::empty()
    } else {
        all_columns(rows.drop_last()) + row_columns(rows.last())
    }
}

/// The value a thread flag holds after scanning the columns in order: each
/// readable column of the given name overwrites the flag with whether its
/// value is affirmative, so the last such column wins; with no such column
/// the flag stays false.
pub open spec fn thread_flag(cols: Seq<ColumnView>, name: Seq<char>) -> bool
    decreases cols.len(),
{
    if cols.len() == 0 {
        false
    } else {
        let c = cols.last();
        if c.name == name && c.value is Some {
            is_yes(c.value->0)
        } else {
            thread_flag(cols.drop_last(), name)
        }
    }
}

pub open spec fn io_field_name() -> Seq<char> {
    "Slave_IO_Running"@
}

pub open spec fn sql_field_name() -> Seq<char> {
    "Slave_SQL_Running"@
}

/// Whether the I/O replication thread is reported running by the rows.
pub open spec fn io_running_of(rows: Seq<StatusRow>) -> bool {
    thread_flag(all_columns(rows), io_field_name())
}

/// Whether the SQL replication thread is reported running by the rows.
pub open spec fn sql_running_of(rows: Seq<StatusRow>) -> bool {
    thread_flag(all_columns(rows), sql_field_name())
}

/// The detail line a replication check failure prints: for a failed query
/// the connector's error, otherwise both observed thread flags.
pub open spec fn slave_status_message_spec(e: SlaveStatusError) -> Seq<char> {
    match e {
        SlaveStatusError::Query { error } => error@,
        SlaveStatusError::NotRunning { io_running, sql_running } => "Slave_IO_Running: "@
            + bool_str(io_running) + " Slave_SQL_Running: "@ + bool_str(sql_running),
    }
}

impl SlaveStatusError {
    /// Render this failure for the final status line.
    pub fn message(&self) -> (r: String)
        ensures
            r@ == slave_status_message_spec(*self),
    {
        match self {
            SlaveStatusError::Query { error } => error.clone(),
            SlaveStatusError::NotRunning { io_running, sql_running } => {
                let m = String::from_str("Slave_IO_Running: ").concat(render_bool(*io_running));
                let m = m.concat(" Slave_SQL_Running: ");
                m.concat(render_bool(*sql_running))
            },
        }
    }
}

impl MySQLPinger {
    /// Interpret the outcome of the diagnostic replication-status query:
    /// - a query that failed outright is surfaced as a failure wrapping the
    ///   connector's error, without a verdict;
    /// - otherwise the verdict passes exactly when both thread flags are
    ///   affirmative, and a failure carries both observed values.
    pub fn check_slave_status(&self, query_result: Result<Vec<StatusRow>, String>) -> (r: Result<
        (),
        SlaveStatusError,
    >)
        ensures
            match query_result {
                Err(error) => r == Err::<(), SlaveStatusError>(SlaveStatusError::Query { error }),
                Ok(rows) => {
                    let io_running = io_running_of(rows@);
                    let sql_running = sql_running_of(rows@);
                    if io_running && sql_running {
                        r == Ok::<(), SlaveStatusError>(())
                    } else {
                        r == Err::<(), SlaveStatusError>(
                            SlaveStatusError::NotRunning { io_running, sql_running },
                        )
                    }
                },
            },
    {
        let rows = match query_result {
            Ok(rows) => rows,
            Err(error) => {
                return Err(SlaveStatusError::Query { error });
            },
        };
        let mut io_running: bool = false;
        let mut sql_running: bool = false;
        let mut ri: usize = 0;
        proof {
            assert(rows@.take(0) =~= Seq::<StatusRow>::empty());
        }
        while ri < rows.len()
            invariant
                ri <= rows@.len(),
                io_running == thread_flag(all_columns(rows@.take(ri as int)), io_field_name()),
                sql_running == thread_flag(all_columns(rows@.take(ri as int)), sql_field_name()),
            decreases rows@.len() - ri,
        {
            let row = &rows[ri];
            let ghost done_rows = all_columns(rows@.take(ri as int));
            let mut ci: usize = 0;
            proof {
                assert(row_columns(*row).take(0) =~= Seq::<ColumnView>::empty());
                assert(done_rows + row_columns(*row).take(0) =~= done_rows);
            }
            while ci < row.columns.len()
                invariant
                    ci <= row.columns@.len(),
                    ri < rows@.len(),
                    *row == rows@[ri as int],
                    done_rows == all_columns(rows@.take(ri as int)),
                    io_running == thread_flag(
                        done_rows + row_columns(*row).take(ci as int),
                        io_field_name(),
                    ),
                    sql_running == thread_flag(
                        done_rows + row_columns(*row).take(ci as int),
                        sql_field_name(),
                    ),
                decreases row.columns@.len() - ci,
            {
                let ghost done = done_rows + row_columns(*row).take(ci as int);
                let column = &row.columns[ci];
                proof {
                    assert(row_columns(*row)[ci as int] == column_view(*column));
                    assert(done_rows + row_columns(*row).take(ci as int + 1) =~= done.push(
                        column_view(*column),
                    ));
                    assert(done.push(column_view(*column)).drop_last() =~= done);
                    reveal_strlit("Slave_IO_Running");
                    reveal_strlit("Slave_SQL_Running");
                    assert(io_field_name().len() == 16);
                    assert(sql_field_name().len() == 17);
                    assert(io_field_name() != sql_field_name());
                }
                match &column.value {
                    Some(value) => {
                        if str_eq(column.name.as_str(), "Slave_IO_Running") {
                            io_running = is_affirmative(value.as_str());
                        } else if str_eq(column.name.as_str(), "Slave_SQL_Running") {
                            sql_running = is_affirmative(value.as_str());
                        }
                    },
                    None => {},
                }
                ci = ci + 1;
            }
            proof {
                assert(row_columns(*row).take(row.columns@.len() as int) =~= row_columns(*row));
                assert(rows@.take(ri as int + 1).drop_last() =~= rows@.take(ri as int));
                assert(rows@.take(ri as int + 1).last() == rows@[ri as int]);
                assert(all_columns(rows@.take(ri as int + 1)) =~= done_rows + row_columns(*row));
            }
            ri = ri + 1;
        }
        proof {
            assert(rows@.take(rows@.len() as int) =~= rows@);
        }
        if io_running && sql_running {
            Ok(())
        } else {
            Err(SlaveStatusError::NotRunning { io_running, sql_running })
        }
    }
}

} // verus!
