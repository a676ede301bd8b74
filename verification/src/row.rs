use vstd::prelude::*;
use crate::model::{ExistingUser, RowError, Thread};

verus! {

/// A value in one column of a relational result row.
pub enum DbValue {
    Int(i32),
    Text(String),
}

/// One named column of a result row.
pub struct DbColumn {
    pub name: String,
    pub value: DbValue,
}

/// One relational result row, addressed by column name.
pub struct DbRow {
    pub columns: Vec<DbColumn>,
}

/// The value a lookup by column name resolves: the first column carrying
/// the name.
pub open spec fn spec_col(cols: Seq<DbColumn>, name: Seq<char>) -> Option<DbValue>
    decreases cols.len(),
{
    if cols.len() == 0 {
        None
    } else if cols[0].name@ == name {
        Some(cols[0].value)
    } else {
        spec_col(cols.drop_first(), name)
    }
}

/// Reading a column as an integer: missing and mistyped columns are told
/// apart, as the row-mapping errors require.
pub open spec fn spec_col_int(cols: Seq<DbColumn>, name: Seq<char>) -> Result<i32, RowError> {
    match spec_col(cols, name) {
        None => Err(RowError::DataMissing),
        Some(DbValue::Int(v)) => Ok(v),
        Some(DbValue::Text(_)) => Err(RowError::TypeMismatch),
    }
}

/// Reading a column as text.
pub open spec fn spec_col_text(cols: Seq<DbColumn>, name: Seq<char>) -> Result<
    Seq<char>,
    RowError,
> {
    match spec_col(cols, name) {
        None => Err(RowError::DataMissing),
        Some(DbValue::Int(_)) => Err(RowError::TypeMismatch),
        Some(DbValue::Text(s)) => Ok(s@),
    }
}

impl DbRow {
    fn find(&self, name: &str) -> (r: Option<usize>)
        ensures
            match r {
                Some(i) => i < self.columns@.len() && spec_col(self.columns@, name@) == Some(
                    self.columns@[i as int].value,
                ),
                None => spec_col(self.columns@, name@) is None,
            },
    {
        let wanted = name.to_owned();
        proof {
            assert(self.columns@.skip(0) =~= self.columns@);
        }
        let mut i: usize = 0;
        while i < self.columns.len()
            invariant
                i <= self.columns@.len(),
                wanted@ == name@,
                spec_col(self.columns@.skip(i as int), name@) == spec_col(self.columns@, name@),
            decreases self.columns@.len() - i,
        {
            proof {
                let rest = self.columns@.skip(i as int);
                assert(rest[0] == self.columns@[i as int]);
                assert(rest.drop_first() =~= self.columns@.skip(i as int + 1));
            }
            if self.columns[i].name.eq(&wanted) {
                return Some(i);
            }
            i += 1;
        }
        proof {
            assert(self.columns@.skip(self.columns@.len() as int) =~= Seq::<DbColumn>::empty());
        }
        None
    }

    /// `try_get` of an integer column.
    pub fn get_int(&self, name: &str) -> (r: Result<i32, RowError>)
        ensures
            r == spec_col_int(self.columns@, name@),
    {
        match self.find(name) {
            Some(i) => match &self.columns[i].value {
                DbValue::Int(v) => Ok(*v),
                DbValue::Text(_) => Err(RowError::TypeMismatch),
            },
            None => Err(RowError::DataMissing),
        }
    }

    /// `try_get` of a text column.
    pub fn get_text(&self, name: &str) -> (r: Result<String, RowError>)
        ensures
            match r {
                Ok(s) => spec_col_text(self.columns@, name@) == Ok::<Seq<char>, RowError>(s@),
                Err(e) => spec_col_text(self.columns@, name@) == Err::<Seq<char>, RowError>(e),
            },
    {
        match self.find(name) {
            Some(i) => match &self.columns[i].value {
                DbValue::Text(s) => Ok(s.clone()),
                DbValue::Int(_) => Err(RowError::TypeMismatch),
            },
            None => Err(RowError::DataMissing),
        }
    }
}

impl ExistingUser {
    /// Maps a `users` result row by column name: reads `id`.
    pub fn from_row(row: &DbRow) -> (r: Result<ExistingUser, RowError>)
        ensures
            match r {
                Ok(u) => spec_col_int(row.columns@, "id"@) == Ok::<i32, RowError>(u.user_id),
                Err(e) => spec_col_int(row.columns@, "id"@) == Err::<i32, RowError>(e),
            },
    {
        match row.get_int("id") {
            Ok(v) => Ok(ExistingUser { user_id: v }),
            Err(e) => Err(e),
        }
    }
}

impl Thread {
    /// Maps a `threads` result row by column name: reads `floss`, `amount`,
    /// `name` and `color` in that order; the first failure wins.
    pub fn from_row(row: &DbRow) -> (r: Result<Thread, RowError>)
        ensures
            match r {
                Ok(t) => {
                    &&& spec_col_int(row.columns@, "floss"@) == Ok::<i32, RowError>(t.floss)
                    &&& spec_col_int(row.columns@, "amount"@) == Ok::<i32, RowError>(t.amount)
                    &&& spec_col_text(row.columns@, "name"@) == Ok::<Seq<char>, RowError>(t.name@)
                    &&& spec_col_text(row.columns@, "color"@) == Ok::<Seq<char>, RowError>(
                        t.color@,
                    )
                },
                Err(e) => {
                    if spec_col_int(row.columns@, "floss"@) is Err {
                        spec_col_int(row.columns@, "floss"@) == Err::<i32, RowError>(e)
                    } else if spec_col_int(row.columns@, "amount"@) is Err {
                        spec_col_int(row.columns@, "amount"@) == Err::<i32, RowError>(e)
                    } else if spec_col_text(row.columns@, "name"@) is Err {
                        spec_col_text(row.columns@, "name"@) == Err::<Seq<char>, RowError>(e)
                    } else {
                        spec_col_text(row.columns@, "color"@) == Err::<Seq<char>, RowError>(e)
                    }
                },
            },
    {
        let floss = match row.get_int("floss") {
            Ok(v) => v,
            Err(e) => {
                return Err(e);
            },
        };
        let amount = match row.get_int("amount") {
            Ok(v) => v,
            Err(e) => {
                return Err(e);
            },
        };
        let name = match row.get_text("name") {
            Ok(v) => v,
            Err(e) => {
                return Err(e);
            },
        };
        let color = match row.get_text("color") {
            Ok(v) => v,
            Err(e) => {
                return Err(e);
            },
        };
        Ok(Thread { floss, amount, name, color })
    }
}

} // verus!
