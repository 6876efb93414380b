//! What differs between database engines: placeholders, recovery of an
//! inserted row's id, and the call that binds an argument.
use crate::text::{decimal, decimal_string};
use vstd::prelude::*;

verus! {

/// A supported database engine.
#[derive(Clone, Copy, Debug, PartialEq, Eq, Structural)]
pub enum Dialect {
    Postgres,
    MySql,
    Sqlite,
}

impl Dialect {
    /// The placeholder of the parameter at a 1-based position: `$` and the
    /// position for Postgres, `?` for the others.
    pub open spec fn placeholder_text(self, position: nat) -> Seq<char> {
        match self {
            Dialect::Postgres => "$"@ + decimal(position),
            Dialect::MySql => "?"@,
            Dialect::Sqlite => "?"@,
        }
    }

    /// Whether an insert statement can hand back the new row's id itself.
    pub open spec fn returning(self) -> bool {
        self == Dialect::Postgres
    }

    /// The query that recovers the id of the row inserted last, for an engine
    /// without a RETURNING clause; empty for an engine with one.
    pub open spec fn last_id_text(self) -> Seq<char> {
        match self {
            Dialect::Postgres => ""@,
            Dialect::MySql => "SELECT LAST_INSERT_ID()"@,
            Dialect::Sqlite => "SELECT last_insert_rowid()"@,
        }
    }

    /// The statement that binds the value of an expression into the argument
    /// collector named `arguments`.
    pub open spec fn bind_text(self, value: Seq<char>) -> Seq<char> {
        " arguments.add("@ + value + "); "@
    }

    /// The placeholders of positions `1..=n`, separated by `, `.
    pub open spec fn placeholders_text(self, n: nat) -> Seq<char>
        decreases n,
    {
        if n == 0 {
            Seq::empty()
        } else if n == 1 {
            self.placeholder_text(1)
        } else {
            self.placeholders_text((n - 1) as nat) + ", "@ + self.placeholder_text(n)
        }
    }

    /// Emits the placeholder of the parameter at a 1-based position.
    pub fn placeholder(self, position: usize) -> (r: String)
        ensures
            r@ == self.placeholder_text(position as nat),
    {
        match self {
            Dialect::Postgres => {
                let mut out = String::from_str("$");
                out.append(decimal_string(position).as_str());
                out
            },
            Dialect::MySql => String::from_str("?"),
            Dialect::Sqlite => String::from_str("?"),
        }
    }

    /// Whether an insert statement can hand back the new row's id itself.
    pub fn supports_returning(self) -> (r: bool)
        ensures
            r == self.returning(),
    {
        match self {
            Dialect::Postgres => true,
            _ => false,
        }
    }

    /// Emits the query that recovers the id of the row inserted last.
    pub fn last_id_query(self) -> (r: String)
        ensures
            r@ == self.last_id_text(),
    {
        match self {
            Dialect::Postgres => String::from_str(""),
            Dialect::MySql => String::from_str("SELECT LAST_INSERT_ID()"),
            Dialect::Sqlite => String::from_str("SELECT last_insert_rowid()"),
        }
    }

    /// Emits the statement that binds the value of an expression.
    pub fn bind_call(self, value: &str) -> (r: String)
        ensures
            r@ == self.bind_text(value@),
    {
        let mut out = String::from_str(" arguments.add(");
        out.append(value);
        out.append("); ");
        out
    }

    /// Emits the placeholders of positions `1..=n`, separated by `, `.
    pub fn placeholders(self, n: usize) -> (r: String)
        ensures
            r@ == self.placeholders_text(n as nat),
    {
        let mut out = String::new();
        let mut i: usize = 0;
        while i < n
            invariant
                i <= n,
                out@ == self.placeholders_text(i as nat),
            decreases n - i,
        {
            if i > 0 {
                out.append(", ");
            }
            i += 1;
            out.append(self.placeholder(i).as_str());
            proof {
                assert(out@ =~= self.placeholders_text(i as nat));
            }
        }
        out
    }
}

} // verus!
