use vstd::prelude::*;
use vstd::string::StringExecFns;
use crate::model::Thread;
use crate::numfmt::{i32_to_string, spec_dec_int};

verus! {

/// The text of one VALUES row:
/// `(user, floss, amount, "name", "color")`.
pub open spec fn spec_values_row(uid: i32, t: Thread) -> Seq<char> {
    "("@ + spec_dec_int(uid as int) + ", "@ + spec_dec_int(t.floss as int) + ", "@ + spec_dec_int(
        t.amount as int,
    ) + ", \""@ + t.name@ + "\", \""@ + t.color@ + "\")"@
}

/// All VALUES rows, comma-separated.
pub open spec fn spec_values_list(uid: i32, ts: Seq<Thread>) -> Seq<char>
    decreases ts.len(),
{
    if ts.len() == 0 {
        Seq::empty()
    } else if ts.len() == 1 {
        spec_values_row(uid, ts[0])
    } else {
        spec_values_list(uid, ts.drop_last()) + ","@ + spec_values_row(uid, ts.last())
    }
}

/// The whole statement the bulk upsert executes.
pub open spec fn spec_bulk_sql(uid: i32, ts: Seq<Thread>) -> Seq<char> {
    "INSERT INTO threads (userId, floss, amount, name, color) VALUES"@ + spec_values_list(uid, ts)
        + " AS aliased ON DUPLICATE KEY UPDATE amount = aliased.amount;"@
}

fn push_values_row(sql: &mut String, uid: i32, t: &Thread)
    ensures
        final(sql)@ == old(sql)@ + spec_values_row(uid, *t),
{
    sql.append("(");
    let u = i32_to_string(uid);
    sql.append(u.as_str());
    sql.append(", ");
    let f = i32_to_string(t.floss);
    sql.append(f.as_str());
    sql.append(", ");
    let a = i32_to_string(t.amount);
    sql.append(a.as_str());
    sql.append(", \"");
    sql.append(t.name.as_str());
    sql.append("\", \"");
    sql.append(t.color.as_str());
    sql.append("\")");
    proof {
        assert(sql@ =~= old(sql)@ + spec_values_row(uid, *t));
    }
}

/// Builds the one multi-row statement
/// `INSERT INTO threads (...) VALUES (...),(...) AS aliased ON DUPLICATE
/// KEY UPDATE amount = aliased.amount;`. An empty inventory yields no
/// statement at all: the degenerate statement would be malformed, so the
/// caller treats it as a no-op.
pub fn bulk_upsert_sql(user_id: i32, data: &Vec<Thread>) -> (r: Option<String>)
    ensures
        match r {
            Some(s) => data@.len() > 0 && s@ == spec_bulk_sql(user_id, data@),
            None => data@.len() == 0,
        },
{
    if data.len() == 0 {
        return None;
    }
    let mut sql = String::from_str(
        "INSERT INTO threads (userId, floss, amount, name, color) VALUES",
    );
    let ghost prefix = sql@;
    let mut i: usize = 0;
    while i < data.len()
        invariant
            0 < data@.len(),
            i <= data@.len(),
            sql@ == prefix + spec_values_list(user_id, data@.take(i as int)),
        decreases data@.len() - i,
    {
        proof {
            let t1 = data@.take(i as int + 1);
            assert(t1.drop_last() =~= data@.take(i as int));
            assert(t1.last() == data@[i as int]);
            if i == 0 {
                assert(t1[0] == data@[0]);
                assert(spec_values_list(user_id, data@.take(0)) =~= Seq::<char>::empty());
            }
        }
        if i > 0 {
            sql.append(",");
        }
        push_values_row(&mut sql, user_id, &data[i]);
        proof {
            assert(sql@ =~= prefix + spec_values_list(user_id, data@.take(i as int + 1)));
        }
        i += 1;
    }
    sql.append(" AS aliased ON DUPLICATE KEY UPDATE amount = aliased.amount;");
    proof {
        assert(data@.take(data@.len() as int) =~= data@);
        assert(sql@ =~= spec_bulk_sql(user_id, data@));
    }
    Some(sql)
}

} // verus!
