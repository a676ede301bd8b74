use vstd::prelude::*;
use crate::model::{SignupError, Thread, UpdateError, UpdateThreadMessage, UpdateThreadOptions};

verus! {

/// One row of the `users` table.
pub struct UserRow {
    pub id: i32,
    pub username: String,
    /// The hex-rendered salted digest, never a plaintext password.
    pub password: String,
}

/// One row of the `threads` table: an inventory line and its owner.
pub struct ThreadRow {
    pub user_id: i32,
    pub data: Thread,
}

pub open spec fn seq_has_key(rows: Seq<ThreadRow>, uid: i32, floss: i32) -> bool {
    exists|i: int|
        0 <= i < rows.len() && rows[i].user_id == uid && rows[i].data.floss == floss
}

pub open spec fn seq_key_idx(rows: Seq<ThreadRow>, uid: i32, floss: i32) -> int {
    choose|i: int|
        0 <= i < rows.len() && rows[i].user_id == uid && rows[i].data.floss == floss
}

/// The pair (owning user, floss code) is the natural uniqueness key.
pub open spec fn seq_keys_unique(rows: Seq<ThreadRow>) -> bool {
    forall|i: int, j: int|
        0 <= i < j < rows.len() ==> !(rows[i].user_id == rows[j].user_id && rows[i].data.floss
            == rows[j].data.floss)
}

/// The inventory lines owned by one user, in store order.
pub open spec fn threads_of(rows: Seq<ThreadRow>, uid: i32) -> Seq<Thread>
    decreases rows.len(),
{
    if rows.len() == 0 {
        Seq::empty()
    } else if rows.last().user_id == uid {
        threads_of(rows.drop_last(), uid).push(rows.last().data)
    } else {
        threads_of(rows.drop_last(), uid)
    }
}

/// The relational store: the `users` and `threads` tables.
pub struct Store {
    pub users: Vec<UserRow>,
    pub threads: Vec<ThreadRow>,
}

impl Store {
    /// User ids and usernames are unique.
    pub open spec fn users_wf(self) -> bool {
        forall|i: int, j: int|
            0 <= i < j < self.users@.len() ==> self.users@[i].id != self.users@[j].id
                && self.users@[i].username@ != self.users@[j].username@
    }

    /// Thread keys are unique and every row's owner is a real account.
    pub open spec fn threads_wf(self) -> bool {
        &&& seq_keys_unique(self.threads@)
        &&& forall|i: int|
            0 <= i < self.threads@.len() ==> self.has_user_id(#[trigger] self.threads@[i].user_id)
    }

    pub open spec fn wf(self) -> bool {
        self.users_wf() && self.threads_wf()
    }

    pub open spec fn has_user_id(self, id: i32) -> bool {
        exists|i: int| 0 <= i < self.users@.len() && self.users@[i].id == id
    }

    pub open spec fn has_username(self, name: Seq<char>) -> bool {
        exists|i: int| 0 <= i < self.users@.len() && self.users@[i].username@ == name
    }

    /// The unique user row carrying a username (meaningful under `users_wf`
    /// when `has_username` holds).
    pub open spec fn user_with_name(self, name: Seq<char>) -> UserRow {
        self.users@[choose|i: int|
            0 <= i < self.users@.len() && self.users@[i].username@ == name]
    }

    /// Some user row matches both the username and the stored digest.
    pub open spec fn cred_match(self, name: Seq<char>, digest: Seq<char>) -> bool {
        exists|i: int|
            0 <= i < self.users@.len() && self.users@[i].username@ == name
                && self.users@[i].password@ == digest
    }

    pub open spec fn has_thread(self, uid: i32, floss: i32) -> bool {
        seq_has_key(self.threads@, uid, floss)
    }

    pub open spec fn thread_idx(self, uid: i32, floss: i32) -> int {
        seq_key_idx(self.threads@, uid, floss)
    }

    /// The unique inventory line under a key (meaningful under `threads_wf`
    /// when `has_thread` holds).
    pub open spec fn thread_at(self, uid: i32, floss: i32) -> Thread {
        self.threads@[self.thread_idx(uid, floss)].data
    }

    /// An empty store: no accounts, no inventory.
    pub fn new() -> (r: Store)
        ensures
            r.wf(),
            r.users@ == Seq::<UserRow>::empty(),
            r.threads@ == Seq::<ThreadRow>::empty(),
    {
        Store { users: Vec::new(), threads: Vec::new() }
    }

    /// The existence probe the session guard issues:
    /// `SELECT id FROM users WHERE id = ?`.
    pub fn contains_user_id(&self, id: i32) -> (r: bool)
        ensures
            r == self.has_user_id(id),
    {
        let mut i: usize = 0;
        while i < self.users.len()
            invariant
                i <= self.users@.len(),
                forall|j: int| 0 <= j < i ==> self.users@[j].id != id,
            decreases self.users@.len() - i,
        {
            if self.users[i].id == id {
                return true;
            }
            i += 1;
        }
        false
    }

    fn find_user_by_name(&self, username: &String) -> (r: Option<usize>)
        ensures
            match r {
                Some(i) => i < self.users@.len() && self.users@[i as int].username@ == username@,
                None => !self.has_username(username@),
            },
    {
        let mut i: usize = 0;
        while i < self.users.len()
            invariant
                i <= self.users@.len(),
                forall|j: int| 0 <= j < i ==> self.users@[j].username@ != username@,
            decreases self.users@.len() - i,
        {
            if self.users[i].username.eq(username) {
                return Some(i);
            }
            i += 1;
        }
        None
    }

    /// The login lookup: `SELECT id FROM users WHERE username = ? AND
    /// password = ?`, with the submitted password already hashed. Succeeds
    /// exactly when a row matches both.
    pub fn login_user(&self, username: &String, digest: &String) -> (r: Option<i32>)
        requires
            self.users_wf(),
        ensures
            r is Some <==> self.cred_match(username@, digest@),
            match r {
                Some(id) => self.has_username(username@) && self.user_with_name(username@).id == id
                    && self.user_with_name(username@).password@ == digest@,
                None => true,
            },
    {
        match self.find_user_by_name(username) {
            Some(i) => {
                if self.users[i].password.eq(digest) {
                    proof {
                        assert(self.cred_match(username@, digest@));
                        assert(self.has_username(username@));
                        let k = choose|k: int|
                            0 <= k < self.users@.len() && self.users@[k].username@ == username@;
                        assert(k == i as int);
                    }
                    Some(self.users[i].id)
                } else {
                    proof {
                        assert forall|k: int|
                            0 <= k < self.users@.len() && self.users@[k].username@ == username@
                            implies self.users@[k].password@ != digest@ by {
                            assert(k == i as int);
                        }
                    }
                    None
                }
            },
            None => {
                None
            },
        }
    }

    /// The follow-up lookup signup issues:
    /// `SELECT id FROM users WHERE username = ?`.
    pub fn user_id_for_name(&self, username: &String) -> (r: Option<i32>)
        requires
            self.users_wf(),
        ensures
            match r {
                Some(id) => self.has_username(username@) && self.user_with_name(username@).id
                    == id,
                None => !self.has_username(username@),
            },
    {
        match self.find_user_by_name(username) {
            Some(i) => {
                proof {
                    assert(self.has_username(username@));
                    let k = choose|k: int|
                        0 <= k < self.users@.len() && self.users@[k].username@ == username@;
                    assert(k == i as int);
                }
                Some(self.users[i].id)
            },
            None => None,
        }
    }

    /// The signup insert: `INSERT INTO users (username, password) VALUES
    /// (?, ?)`, which fails exactly on a duplicate username, plus the
    /// store's id assignment. `StoreFailure` surfaces only when the id
    /// space is exhausted.
    pub fn insert_user(&mut self, username: &String, digest: String) -> (r: Result<
        i32,
        SignupError,
    >)
        requires
            old(self).wf(),
        ensures
            final(self).wf(),
            match r {
                Ok(id) => {
                    &&& !old(self).has_username(username@)
                    &&& !old(self).has_user_id(id)
                    &&& !old(self).has_user_id(0x7fff_ffff)
                    &&& final(self).users@ == old(self).users@.push(
                        UserRow { id, username: *username, password: digest },
                    )
                    &&& final(self).threads@ == old(self).threads@
                    &&& final(self).has_username(username@)
                    &&& final(self).has_user_id(id)
                    &&& final(self).user_with_name(username@) == (UserRow {
                        id,
                        username: *username,
                        password: digest,
                    })
                },
                Err(SignupError::DuplicateUsername) => {
                    &&& old(self).has_username(username@)
                    &&& *final(self) == *old(self)
                },
                Err(SignupError::StoreFailure) => {
                    &&& !old(self).has_username(username@)
                    &&& old(self).has_user_id(0x7fff_ffff)
                    &&& *final(self) == *old(self)
                },
            },
    {
        match self.find_user_by_name(username) {
            Some(_) => {
                proof {
                    assert(self.has_username(username@));
                }
                Err(SignupError::DuplicateUsername)
            },
            None => {
                let mut max_id: i32 = 0;
                let mut i: usize = 0;
                while i < self.users.len()
                    invariant
                        i <= self.users@.len(),
                        0 <= max_id,
                        forall|j: int| 0 <= j < i ==> self.users@[j].id <= max_id,
                        max_id != 0 ==> exists|j: int|
                            0 <= j < i && self.users@[j].id == max_id,
                    decreases self.users@.len() - i,
                {
                    if self.users[i].id > max_id {
                        max_id = self.users[i].id;
                    }
                    i += 1;
                }
                if max_id == 0x7fff_ffff {
                    return Err(SignupError::StoreFailure);
                }
                let id = max_id + 1;
                let row = UserRow { id, username: username.clone(), password: digest };
                let ghost old_users = self.users@;
                proof {
                    assert(!self.has_user_id(0x7fff_ffff)) by {
                        if self.has_user_id(0x7fff_ffff) {
                            let w = choose|w: int|
                                0 <= w < old_users.len() && old_users[w].id == 0x7fff_ffff;
                            assert(old_users[w].id <= max_id);
                        }
                    }
                }
                self.users.push(row);
                proof {
                    assert forall|p: int, q: int|
                        0 <= p < q < self.users@.len() implies self.users@[p].id
                        != self.users@[q].id && self.users@[p].username@
                        != self.users@[q].username@ by {
                        if q == self.users@.len() - 1 {
                            assert(old_users[p].id <= max_id);
                            assert(old_users[p].username@ != username@);
                        }
                    }
                    assert(final(self).users_wf());
                    assert forall|k: int|
                        0 <= k < self.threads@.len() implies self.has_user_id(
                        #[trigger] self.threads@[k].user_id,
                    ) by {
                        let w = choose|w: int|
                            0 <= w < old_users.len() && old_users[w].id == self.threads@[
                                k
                            ].user_id;
                        assert(self.users@[w].id == self.threads@[k].user_id);
                    }
                    assert(self.has_username(username@)) by {
                        assert(self.users@[self.users@.len() - 1].username@ == username@);
                    }
                    assert(self.has_user_id(id)) by {
                        assert(self.users@[self.users@.len() - 1].id == id);
                    }
                    let w = choose|w: int|
                        0 <= w < self.users@.len() && self.users@[w].username@ == username@;
                    assert(w == self.users@.len() - 1) by {
                        if w < self.users@.len() - 1 {
                            assert(old_users[w].username@ == username@);
                        }
                    }
                }
                Ok(id)
            },
        }
    }

    /// The listing query: `SELECT floss, amount, name, color FROM threads
    /// WHERE userId = ?`, in store order.
    pub fn threads_for(&self, uid: i32) -> (r: Vec<Thread>)
        ensures
            r@ == threads_of(self.threads@, uid),
    {
        let mut r: Vec<Thread> = Vec::new();
        let mut i: usize = 0;
        while i < self.threads.len()
            invariant
                i <= self.threads@.len(),
                r@ == threads_of(self.threads@.take(i as int), uid),
            decreases self.threads@.len() - i,
        {
            proof {
                let t1 = self.threads@.take(i as int + 1);
                assert(t1.drop_last() =~= self.threads@.take(i as int));
                assert(t1.last() == self.threads@[i as int]);
            }
            if self.threads[i].user_id == uid {
                r.push(self.threads[i].data.duplicate());
            }
            i += 1;
        }
        proof {
            assert(self.threads@.take(self.threads@.len() as int) =~= self.threads@);
        }
        r
    }
}

/// Account existence depends on the `users` table alone.
pub proof fn lemma_user_id_stable(a: Store, b: Store, id: i32)
    requires
        a.users@ == b.users@,
        a.has_user_id(id),
    ensures
        b.has_user_id(id),
{
    let w = choose|w: int| 0 <= w < a.users@.len() && a.users@[w].id == id;
    assert(b.users@[w].id == id);
}

/// What one row of the bulk upsert statement does: an existing key keeps
/// its name and color and takes the incoming amount; a new key is inserted
/// whole.
pub open spec fn spec_upsert_row(rows: Seq<ThreadRow>, uid: i32, t: Thread) -> Seq<ThreadRow> {
    if seq_has_key(rows, uid, t.floss) {
        let i = seq_key_idx(rows, uid, t.floss);
        rows.update(
            i,
            ThreadRow {
                user_id: uid,
                data: Thread {
                    floss: rows[i].data.floss,
                    amount: t.amount,
                    name: rows[i].data.name,
                    color: rows[i].data.color,
                },
            },
        )
    } else {
        rows.push(ThreadRow { user_id: uid, data: t })
    }
}

/// The whole bulk upsert: the incoming rows applied in order.
pub open spec fn spec_upsert_all(rows: Seq<ThreadRow>, uid: i32, ts: Seq<Thread>) -> Seq<
    ThreadRow,
>
    decreases ts.len(),
{
    if ts.len() == 0 {
        rows
    } else {
        spec_upsert_row(spec_upsert_all(rows, uid, ts.drop_last()), uid, ts.last())
    }
}

/// The effect of an accepted single-thread update on the threads table: a
/// first increment creates the row with amount 1 (taking the message's name
/// and color); a decrement at amount 1 deletes the row; any other accepted
/// update moves the amount by exactly one and touches nothing else.
pub open spec fn spec_update_effect(
    old_s: Store,
    new_s: Store,
    uid: i32,
    msg: UpdateThreadMessage,
) -> bool {
    if !old_s.has_thread(uid, msg.floss) {
        &&& msg.action is Increment
        &&& new_s.threads@ == old_s.threads@.push(
            ThreadRow {
                user_id: uid,
                data: Thread { floss: msg.floss, amount: 1, name: msg.name, color: msg.color },
            },
        )
        &&& new_s.has_thread(uid, msg.floss)
        &&& new_s.thread_at(uid, msg.floss).amount == 1
    } else if msg.action is Decrement && old_s.thread_at(uid, msg.floss).amount == 1 {
        &&& new_s.threads@ == old_s.threads@.remove(old_s.thread_idx(uid, msg.floss))
        &&& !new_s.has_thread(uid, msg.floss)
    } else {
        let t = old_s.thread_at(uid, msg.floss);
        let delta: int = if msg.action is Increment {
            1
        } else {
            -1
        };
        &&& new_s.threads@ == old_s.threads@.update(
            old_s.thread_idx(uid, msg.floss),
            ThreadRow {
                user_id: uid,
                data: Thread {
                    floss: t.floss,
                    amount: (t.amount + delta) as i32,
                    name: t.name,
                    color: t.color,
                },
            },
        )
        &&& new_s.has_thread(uid, msg.floss)
        &&& new_s.thread_at(uid, msg.floss).amount == t.amount + delta
    }
}

impl Store {
    fn find_thread(&self, uid: i32, floss: i32) -> (r: Option<usize>)
        ensures
            match r {
                Some(i) => i < self.threads@.len() && self.threads@[i as int].user_id == uid
                    && self.threads@[i as int].data.floss == floss,
                None => !seq_has_key(self.threads@, uid, floss),
            },
    {
        let mut i: usize = 0;
        while i < self.threads.len()
            invariant
                i <= self.threads@.len(),
                forall|j: int|
                    0 <= j < i ==> !(self.threads@[j].user_id == uid && self.threads@[
                        j
                    ].data.floss == floss),
            decreases self.threads@.len() - i,
        {
            if self.threads[i].user_id == uid && self.threads[i].data.floss == floss {
                return Some(i);
            }
            i += 1;
        }
        None
    }

    /// The single-thread update under the manual-arithmetic policy: change
    /// the row's amount by exactly one; a first increment creates the row
    /// with amount 1; a decrement at amount 1 deletes the row outright; a
    /// decrement of an absent row is rejected.
    pub fn apply_update(&mut self, uid: i32, msg: &UpdateThreadMessage) -> (r: Result<
        (),
        UpdateError,
    >)
        requires
            old(self).wf(),
            old(self).has_user_id(uid),
        ensures
            final(self).wf(),
            final(self).users@ == old(self).users@,
            match r {
                Ok(()) => spec_update_effect(*old(self), *final(self), uid, *msg),
                Err(UpdateError::NotFound) => {
                    &&& !old(self).has_thread(uid, msg.floss)
                    &&& msg.action is Decrement
                    &&& *final(self) == *old(self)
                },
                Err(UpdateError::StoreFailure) => {
                    &&& old(self).has_thread(uid, msg.floss)
                    &&& ((msg.action is Increment && old(self).thread_at(uid, msg.floss).amount
                        == i32::MAX) || (msg.action is Decrement && old(self).thread_at(
                        uid,
                        msg.floss,
                    ).amount == i32::MIN))
                    &&& *final(self) == *old(self)
                },
            },
    {
        match self.find_thread(uid, msg.floss) {
            None => {
                match msg.action {
                    UpdateThreadOptions::Increment => {
                        let ghost orig = self.threads@;
                        let row = ThreadRow {
                            user_id: uid,
                            data: Thread {
                                floss: msg.floss,
                                amount: 1,
                                name: msg.name.clone(),
                                color: msg.color.clone(),
                            },
                        };
                        self.threads.push(row);
                        proof {
                            assert forall|p: int, q: int|
                                0 <= p < q < self.threads@.len() implies !(self.threads@[
                                p
                            ].user_id == self.threads@[q].user_id && self.threads@[p].data.floss
                                == self.threads@[q].data.floss) by {
                                if q == self.threads@.len() - 1 {
                                    assert(!seq_has_key(orig, uid, msg.floss));
                                }
                            }
                            assert forall|k: int|
                                0 <= k < self.threads@.len() implies self.has_user_id(
                                #[trigger] self.threads@[k].user_id,
                            ) by {
                                if k < self.threads@.len() - 1 {
                                    assert(orig[k] == self.threads@[k]);
                                    assert(old(self).has_user_id(orig[k].user_id));
                                    lemma_user_id_stable(*old(self), *self, orig[k].user_id);
                                } else {
                                    lemma_user_id_stable(*old(self), *self, uid);
                                }
                            }
                            lemma_key_idx(self.threads@, self.threads@.len() - 1);
                        }
                        Ok(())
                    },
                    UpdateThreadOptions::Decrement => Err(UpdateError::NotFound),
                }
            },
            Some(i) => {
                proof {
                    lemma_key_idx(self.threads@, i as int);
                }
                let a = self.threads[i].data.amount;
                match msg.action {
                    UpdateThreadOptions::Increment => {
                        if a == 0x7fff_ffff {
                            Err(UpdateError::StoreFailure)
                        } else {
                            let ghost orig = self.threads@;
                            self.threads[i].data.amount = a + 1;
                            proof {
                                assert forall|k: int|
                                    0 <= k < orig.len() implies self.has_user_id(
                                    #[trigger] orig[k].user_id,
                                ) by {
                                    assert(old(self).has_user_id(orig[k].user_id));
                                    lemma_user_id_stable(*old(self), *self, orig[k].user_id);
                                }
                                lemma_user_id_stable(*old(self), *self, uid);
                                self.lemma_amount_update_wf(orig, i as int, uid, msg.floss);
                            }
                            Ok(())
                        }
                    },
                    UpdateThreadOptions::Decrement => {
                        if a == 1 {
                            let ghost orig = self.threads@;
                            self.threads.remove(i);
                            proof {
                                assert forall|k: int|
                                    0 <= k < orig.len() implies self.has_user_id(
                                    #[trigger] orig[k].user_id,
                                ) by {
                                    assert(old(self).has_user_id(orig[k].user_id));
                                    lemma_user_id_stable(*old(self), *self, orig[k].user_id);
                                }
                                self.lemma_remove_wf(orig, i as int, uid, msg.floss);
                            }
                            Ok(())
                        } else if a == -0x8000_0000 {
                            Err(UpdateError::StoreFailure)
                        } else {
                            let ghost orig = self.threads@;
                            self.threads[i].data.amount = a - 1;
                            proof {
                                assert forall|k: int|
                                    0 <= k < orig.len() implies self.has_user_id(
                                    #[trigger] orig[k].user_id,
                                ) by {
                                    assert(old(self).has_user_id(orig[k].user_id));
                                    lemma_user_id_stable(*old(self), *self, orig[k].user_id);
                                }
                                lemma_user_id_stable(*old(self), *self, uid);
                                self.lemma_amount_update_wf(orig, i as int, uid, msg.floss);
                            }
                            Ok(())
                        }
                    },
                }
            },
        }
    }

    /// After replacing row `i` by one with the same key and owner, the
    /// table is still well formed and the key still resolves to `i`.
    proof fn lemma_amount_update_wf(self, orig: Seq<ThreadRow>, i: int, uid: i32, floss: i32)
        requires
            seq_keys_unique(orig),
            0 <= i < orig.len(),
            orig[i].user_id == uid,
            orig[i].data.floss == floss,
            self.threads@.len() == orig.len(),
            forall|k: int|
                0 <= k < orig.len() ==> (#[trigger] self.threads@[k]).user_id == orig[k].user_id
                    && self.threads@[k].data.floss == orig[k].data.floss,
            forall|k: int| 0 <= k < orig.len() && k != i ==> #[trigger] self.threads@[k] == orig[k],
            forall|k: int| 0 <= k < orig.len() ==> self.has_user_id(#[trigger] orig[k].user_id),
            self.has_user_id(uid),
        ensures
            self.threads_wf(),
            seq_has_key(self.threads@, uid, floss),
            seq_key_idx(self.threads@, uid, floss) == i,
    {
        assert forall|p: int, q: int|
            0 <= p < q < self.threads@.len() implies !(self.threads@[p].user_id == self.threads@[
            q
        ].user_id && self.threads@[p].data.floss == self.threads@[q].data.floss) by {
            assert(orig[p].user_id == self.threads@[p].user_id);
        }
        assert forall|k: int|
            0 <= k < self.threads@.len() implies self.has_user_id(
            #[trigger] self.threads@[k].user_id,
        ) by {
            assert(self.threads@[k].user_id == orig[k].user_id);
        }
        lemma_key_idx(self.threads@, i);
    }

    /// After removing row `i`, the table is still well formed and its key
    /// is gone.
    proof fn lemma_remove_wf(self, orig: Seq<ThreadRow>, i: int, uid: i32, floss: i32)
        requires
            seq_keys_unique(orig),
            0 <= i < orig.len(),
            orig[i].user_id == uid,
            orig[i].data.floss == floss,
            self.threads@ == orig.remove(i),
            forall|k: int| 0 <= k < orig.len() ==> self.has_user_id(#[trigger] orig[k].user_id),
        ensures
            self.threads_wf(),
            !seq_has_key(self.threads@, uid, floss),
    {
        let rows = self.threads@;
        assert(rows.len() == orig.len() - 1);
        assert forall|k: int| 0 <= k < rows.len() implies rows[k] == orig[
            if k < i {
                k
            } else {
                k + 1
            }
        ] by {}
        assert forall|p: int, q: int|
            0 <= p < q < rows.len() implies !(rows[p].user_id == rows[q].user_id
                && rows[p].data.floss == rows[q].data.floss) by {
            let p2 = if p < i {
                p
            } else {
                p + 1
            };
            let q2 = if q < i {
                q
            } else {
                q + 1
            };
            assert(rows[p] == orig[p2] && rows[q] == orig[q2]);
        }
        assert forall|k: int|
            0 <= k < rows.len() implies self.has_user_id(#[trigger] rows[k].user_id) by {
            let k2 = if k < i {
                k
            } else {
                k + 1
            };
            assert(rows[k] == orig[k2]);
        }
        assert forall|k: int|
            0 <= k < rows.len() implies !(rows[k].user_id == uid && rows[k].data.floss
                == floss) by {
            let k2 = if k < i {
                k
            } else {
                k + 1
            };
            assert(rows[k] == orig[k2]);
            assert(k2 != i);
        }
    }

    /// The bulk upsert: the effect of the one multi-row
    /// `INSERT ... ON DUPLICATE KEY UPDATE amount` statement the service
    /// builds. An empty input is a no-op.
    pub fn bulk_upsert(&mut self, uid: i32, data: &Vec<Thread>)
        requires
            old(self).wf(),
            old(self).has_user_id(uid),
        ensures
            final(self).wf(),
            final(self).users@ == old(self).users@,
            final(self).threads@ == spec_upsert_all(old(self).threads@, uid, data@),
    {
        let ghost orig = self.threads@;
        let ghost orig_users = self.users@;
        let mut i: usize = 0;
        while i < data.len()
            invariant
                i <= data@.len(),
                self.users@ == orig_users,
                self.wf(),
                self.has_user_id(uid),
                self.threads@ == spec_upsert_all(orig, uid, data@.take(i as int)),
            decreases data@.len() - i,
        {
            proof {
                let t1 = data@.take(i as int + 1);
                assert(t1.drop_last() =~= data@.take(i as int));
                assert(t1.last() == data@[i as int]);
            }
            let ghost prev = self.threads@;
            let ghost pre = *self;
            let floss = data[i].floss;
            let amount = data[i].amount;
            match self.find_thread(uid, floss) {
                Some(j) => {
                    proof {
                        lemma_key_idx(self.threads@, j as int);
                    }
                    self.threads[j].data.amount = amount;
                    proof {
                        assert(self.threads@ =~= spec_upsert_row(prev, uid, data@[i as int]));
                        assert forall|k: int|
                            0 <= k < prev.len() implies self.has_user_id(
                            #[trigger] prev[k].user_id,
                        ) by {
                            assert(pre.has_user_id(prev[k].user_id));
                            lemma_user_id_stable(pre, *self, prev[k].user_id);
                        }
                        lemma_user_id_stable(pre, *self, uid);
                        self.lemma_amount_update_wf(prev, j as int, uid, floss);
                    }
                },
                None => {
                    let row = ThreadRow { user_id: uid, data: data[i].duplicate() };
                    self.threads.push(row);
                    proof {
                        assert(self.threads@ =~= spec_upsert_row(prev, uid, data@[i as int]));
                        assert forall|p: int, q: int|
                            0 <= p < q < self.threads@.len() implies !(self.threads@[
                            p
                        ].user_id == self.threads@[q].user_id && self.threads@[p].data.floss
                            == self.threads@[q].data.floss) by {
                            if q == self.threads@.len() - 1 {
                                assert(!seq_has_key(prev, uid, floss));
                            }
                        }
                        assert forall|k: int|
                            0 <= k < self.threads@.len() implies self.has_user_id(
                            #[trigger] self.threads@[k].user_id,
                        ) by {
                            if k < self.threads@.len() - 1 {
                                assert(prev[k] == self.threads@[k]);
                                assert(pre.has_user_id(prev[k].user_id));
                                lemma_user_id_stable(pre, *self, prev[k].user_id);
                            } else {
                                lemma_user_id_stable(pre, *self, uid);
                            }
                        }
                    }
                },
            }
            i += 1;
        }
        proof {
            assert(data@.take(data@.len() as int) =~= data@);
        }
    }
}

/// A sequence of rows none of which a user owns lists nothing for that user.
pub proof fn lemma_no_rows_no_threads(rows: Seq<ThreadRow>, uid: i32)
    requires
        forall|i: int| 0 <= i < rows.len() ==> (#[trigger] rows[i]).user_id != uid,
    ensures
        threads_of(rows, uid) =~= Seq::<Thread>::empty(),
    decreases rows.len(),
{
    if rows.len() > 0 {
        lemma_no_rows_no_threads(rows.drop_last(), uid);
    }
}

/// A fresh account's inventory is empty: an id no user row carries owns no
/// thread rows under referential integrity, so its listing is empty. Signup
/// assigns exactly such an id.
pub proof fn lemma_new_user_empty_inventory(s: Store, id: i32)
    requires
        s.wf(),
        !s.has_user_id(id),
    ensures
        threads_of(s.threads@, id).len() == 0,
{
    assert forall|i: int| 0 <= i < s.threads@.len() implies (#[trigger] s.threads@[i]).user_id
        != id by {
        if s.threads@[i].user_id == id {
            assert(s.has_user_id(id));
        }
    }
    lemma_no_rows_no_threads(s.threads@, id);
}

/// If no row carries a key, the owner's listing carries no entry with that
/// floss code.
pub proof fn lemma_threads_of_no_key(rows: Seq<ThreadRow>, uid: i32, floss: i32)
    requires
        forall|i: int|
            0 <= i < rows.len() ==> !((#[trigger] rows[i]).user_id == uid && rows[i].data.floss
                == floss),
    ensures
        forall|k: int|
            0 <= k < threads_of(rows, uid).len() ==> (#[trigger] threads_of(rows, uid)[
                k
            ]).floss != floss,
    decreases rows.len(),
{
    let ts = threads_of(rows, uid);
    if rows.len() > 0 {
        let prev = rows.drop_last();
        assert forall|i: int|
            0 <= i < prev.len() implies !((#[trigger] prev[i]).user_id == uid && prev[
            i
        ].data.floss == floss) by {
            assert(prev[i] == rows[i]);
        }
        lemma_threads_of_no_key(prev, uid, floss);
        if rows.last().user_id == uid {
            assert(rows[rows.len() - 1].data.floss != floss);
            assert forall|k: int| 0 <= k < ts.len() implies (#[trigger] ts[k]).floss != floss by {
                if k < ts.len() - 1 {
                    assert(ts[k] == threads_of(prev, uid)[k]);
                } else {
                    assert(ts[k] == rows.last().data);
                }
            }
        }
    }
}

/// Deleting at amount one removes the row entirely: after the decrement the
/// user's thread listing no longer carries the floss code.
pub proof fn lemma_decrement_deletes(s_old: Store, s_new: Store, uid: i32, floss: i32)
    requires
        s_old.wf(),
        s_old.has_thread(uid, floss),
        s_new.threads@ == s_old.threads@.remove(s_old.thread_idx(uid, floss)),
    ensures
        !s_new.has_thread(uid, floss),
        forall|k: int|
            0 <= k < threads_of(s_new.threads@, uid).len() ==> (#[trigger] threads_of(
                s_new.threads@,
                uid,
            )[k]).floss != floss,
{
    let orig = s_old.threads@;
    let i = s_old.thread_idx(uid, floss);
    let rows = s_new.threads@;
    assert(0 <= i < orig.len() && orig[i].user_id == uid && orig[i].data.floss == floss);
    assert forall|k: int|
        0 <= k < rows.len() implies !((#[trigger] rows[k]).user_id == uid && rows[k].data.floss
            == floss) by {
        let k2 = if k < i {
            k
        } else {
            k + 1
        };
        assert(rows[k] == orig[k2]);
        assert(k2 != i);
    }
    lemma_threads_of_no_key(rows, uid, floss);
}

/// One application of the upsert leaves the table unique, carries the key,
/// and stores the incoming amount under it.
pub proof fn lemma_upsert_row_props(rows: Seq<ThreadRow>, uid: i32, t: Thread)
    requires
        seq_keys_unique(rows),
    ensures
        ({
            let r = spec_upsert_row(rows, uid, t);
            &&& seq_keys_unique(r)
            &&& seq_has_key(r, uid, t.floss)
            &&& r[seq_key_idx(r, uid, t.floss)].data.amount == t.amount
            &&& r.len() == if seq_has_key(rows, uid, t.floss) {
                rows.len() as int
            } else {
                rows.len() as int + 1
            }
        }),
{
    let r = spec_upsert_row(rows, uid, t);
    if seq_has_key(rows, uid, t.floss) {
        let i = seq_key_idx(rows, uid, t.floss);
        assert(0 <= i < rows.len() && rows[i].user_id == uid && rows[i].data.floss == t.floss);
        assert forall|p: int, q: int|
            0 <= p < q < r.len() implies !(r[p].user_id == r[q].user_id && r[p].data.floss == r[
            q
        ].data.floss) by {
            assert(r[p].user_id == rows[p].user_id && r[p].data.floss == rows[p].data.floss);
            assert(r[q].user_id == rows[q].user_id && r[q].data.floss == rows[q].data.floss);
        }
        lemma_key_idx(r, i);
    } else {
        assert forall|p: int, q: int|
            0 <= p < q < r.len() implies !(r[p].user_id == r[q].user_id && r[p].data.floss == r[
            q
        ].data.floss) by {
            if q == r.len() - 1 {
                assert(!seq_has_key(rows, uid, t.floss));
            }
        }
        lemma_key_idx(r, r.len() - 1);
    }
}

/// A bulk upsert of one floss followed by another of the same floss leaves
/// exactly one row for it, carrying the second amount: the second upsert
/// updates in place instead of inserting a duplicate.
pub proof fn lemma_upsert_twice(rows: Seq<ThreadRow>, uid: i32, t1: Thread, t2: Thread)
    requires
        seq_keys_unique(rows),
        t1.floss == t2.floss,
    ensures
        ({
            let r2 = spec_upsert_row(spec_upsert_row(rows, uid, t1), uid, t2);
            &&& seq_keys_unique(r2)
            &&& seq_has_key(r2, uid, t2.floss)
            &&& r2[seq_key_idx(r2, uid, t2.floss)].data.amount == t2.amount
            &&& r2.len() == if seq_has_key(rows, uid, t1.floss) {
                rows.len() as int
            } else {
                rows.len() as int + 1
            }
        }),
{
    lemma_upsert_row_props(rows, uid, t1);
    let r1 = spec_upsert_row(rows, uid, t1);
    lemma_upsert_row_props(r1, uid, t2);
}

/// The owner's listing carries every row the user owns: a present key
/// appears in the listing with its stored data.
pub proof fn lemma_threads_of_lists_key(rows: Seq<ThreadRow>, uid: i32, floss: i32)
    requires
        seq_keys_unique(rows),
        seq_has_key(rows, uid, floss),
    ensures
        exists|k: int|
            0 <= k < threads_of(rows, uid).len() && threads_of(rows, uid)[k] == rows[seq_key_idx(
                rows,
                uid,
                floss,
            )].data,
    decreases rows.len(),
{
    let i = seq_key_idx(rows, uid, floss);
    assert(0 <= i < rows.len() && rows[i].user_id == uid && rows[i].data.floss == floss);
    lemma_key_idx(rows, i);
    let ts = threads_of(rows, uid);
    if i == rows.len() - 1 {
        assert(rows.last().user_id == uid);
        assert(ts == threads_of(rows.drop_last(), uid).push(rows.last().data));
        let k = ts.len() - 1;
        assert(ts[k] == rows[i].data);
    } else {
        let prev = rows.drop_last();
        assert forall|p: int, q: int|
            0 <= p < q < prev.len() implies !(prev[p].user_id == prev[q].user_id && prev[
            p
        ].data.floss == prev[q].data.floss) by {
            assert(prev[p] == rows[p] && prev[q] == rows[q]);
        }
        assert(prev[i] == rows[i]);
        assert(seq_has_key(prev, uid, floss));
        lemma_key_idx(prev, i);
        lemma_threads_of_lists_key(prev, uid, floss);
        let k = choose|k: int|
            0 <= k < threads_of(prev, uid).len() && threads_of(prev, uid)[k] == prev[seq_key_idx(
                prev,
                uid,
                floss,
            )].data;
        if rows.last().user_id == uid {
            assert(ts == threads_of(prev, uid).push(rows.last().data));
            assert(ts[k] == rows[i].data);
        } else {
            assert(ts == threads_of(prev, uid));
            assert(ts[k] == rows[i].data);
        }
    }
}

/// Incrementing a previously-absent key creates its row with amount 1, and
/// a second increment of the same key yields amount 2.
pub proof fn lemma_double_increment(
    s0: Store,
    s1: Store,
    s2: Store,
    uid: i32,
    m: UpdateThreadMessage,
)
    requires
        s0.wf(),
        m.action is Increment,
        !s0.has_thread(uid, m.floss),
        spec_update_effect(s0, s1, uid, m),
        spec_update_effect(s1, s2, uid, m),
    ensures
        s1.has_thread(uid, m.floss),
        s1.thread_at(uid, m.floss).amount == 1,
        s2.has_thread(uid, m.floss),
        s2.thread_at(uid, m.floss).amount == 2,
{
}

/// Decrementing a row whose amount is exactly one removes it outright:
/// afterwards the key is gone and the owner's listing no longer carries
/// the floss code.
pub proof fn lemma_decrement_at_one_deletes(
    s0: Store,
    s1: Store,
    uid: i32,
    m: UpdateThreadMessage,
)
    requires
        s0.wf(),
        m.action is Decrement,
        s0.has_thread(uid, m.floss),
        s0.thread_at(uid, m.floss).amount == 1,
        spec_update_effect(s0, s1, uid, m),
    ensures
        !s1.has_thread(uid, m.floss),
        forall|k: int|
            0 <= k < threads_of(s1.threads@, uid).len() ==> (#[trigger] threads_of(
                s1.threads@,
                uid,
            )[k]).floss != m.floss,
{
    lemma_decrement_deletes(s0, s1, uid, m.floss);
}

/// Two bulk upserts of the same floss code leave exactly one row for it,
/// carrying the second amount: the second upsert updates in place instead
/// of inserting a duplicate.
pub proof fn lemma_bulk_upsert_twice(
    s0: Store,
    s1: Store,
    s2: Store,
    uid: i32,
    t1: Thread,
    t2: Thread,
)
    requires
        s0.wf(),
        t1.floss == t2.floss,
        s1.threads@ == spec_upsert_all(s0.threads@, uid, seq![t1]),
        s2.threads@ == spec_upsert_all(s1.threads@, uid, seq![t2]),
    ensures
        s2.has_thread(uid, t2.floss),
        s2.thread_at(uid, t2.floss).amount == t2.amount,
        seq_keys_unique(s2.threads@),
        s2.threads@.len() == if s0.has_thread(uid, t1.floss) {
            s0.threads@.len() as int
        } else {
            s0.threads@.len() as int + 1
        },
{
    assert(seq![t1].drop_last() =~= Seq::<Thread>::empty());
    assert(seq![t2].drop_last() =~= Seq::<Thread>::empty());
    assert(seq![t1].last() == t1);
    assert(seq![t2].last() == t2);
    assert(spec_upsert_all(s0.threads@, uid, seq![t1].drop_last()) == s0.threads@);
    assert(spec_upsert_all(s1.threads@, uid, seq![t2].drop_last()) == s1.threads@);
    assert(s1.threads@ == spec_upsert_row(s0.threads@, uid, t1));
    assert(s2.threads@ == spec_upsert_row(s1.threads@, uid, t2));
    lemma_upsert_twice(s0.threads@, uid, t1, t2);
}

/// Login with a wrong password never succeeds: when the account's stored
/// digest differs from the digest of the submitted password, no row matches
/// both username and digest, so no session cookie is issued.
pub proof fn lemma_login_wrong_digest(s: Store, name: Seq<char>, submitted: Seq<char>)
    requires
        s.users_wf(),
        s.has_username(name),
        s.user_with_name(name).password@ != submitted,
    ensures
        !s.cred_match(name, submitted),
{
    let i = choose|i: int| 0 <= i < s.users@.len() && s.users@[i].username@ == name;
    assert forall|k: int|
        0 <= k < s.users@.len() && s.users@[k].username@ == name implies s.users@[k].password@
        != submitted by {
        assert(k == i);
    }
}

/// Key uniqueness pins the witness: the index found for a row's own key is
/// that row's index.
pub proof fn lemma_key_idx(rows: Seq<ThreadRow>, i: int)
    requires
        seq_keys_unique(rows),
        0 <= i < rows.len(),
    ensures
        seq_has_key(rows, rows[i].user_id, rows[i].data.floss),
        seq_key_idx(rows, rows[i].user_id, rows[i].data.floss) == i,
{
    let uid = rows[i].user_id;
    let floss = rows[i].data.floss;
    assert(seq_has_key(rows, uid, floss));
    let j = seq_key_idx(rows, uid, floss);
    assert(0 <= j < rows.len() && rows[j].user_id == uid && rows[j].data.floss == floss);
    if j < i {
        assert(false);
    } else if j > i {
        assert(false);
    }
}

} // verus!
