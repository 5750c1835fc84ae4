//! An in-memory persistence adapter.
//!
//! `MemoryStore` keeps both aggregates' rows in plain vectors and
//! implements the two repository ports against them, enforcing the same
//! constraints a relational store would: unique user identifiers, unique
//! user emails, unique task identifiers, and referential integrity from
//! tasks to users, with deletion of a user cascading to the user's tasks.

use vstd::prelude::*;
use crate::entity::Entity;
use crate::error::DomainError;
use crate::repository::{
    email_taken_by_other, find_task, find_user, has_email, lemma_find_task_after_prefix,
    lemma_find_task_is_some, lemma_find_user_after_prefix, lemma_find_user_is_some,
    lemma_remove_task_push, lemma_remove_tasks_of_user_push, lemma_remove_user_push,
    lemma_tasks_of_user_push, remove_task, remove_tasks_of_user, remove_user, tasks_of_user,
    inserted_task_row, inserted_user_row, update_task_row, update_user_row, updated_task_rows,
    updated_user_rows, user_id_set, TaskRepository, UserRepository,
};
use crate::task::{Task, TaskView};
use crate::user::{User, UserView};
use crate::value_objects::{TaskId, UserId};

verus! {

/// The views of a sequence of stored users.
pub open spec fn user_rows_view(rows: Seq<User>) -> Seq<UserView> {
    rows.map_values(|u: User| u@)
}

/// The views of a sequence of stored tasks.
pub open spec fn task_rows_view(rows: Seq<Task>) -> Seq<TaskView> {
    rows.map_values(|t: Task| t@)
}

/// In-memory implementation of both repository ports, suitable for tests
/// and for substituting a relational store behind the same contracts.
#[derive(Debug)]
pub struct MemoryStore {
    users: Vec<User>,
    tasks: Vec<Task>,
}

impl MemoryStore {
    /// The stored user rows, in insertion order.
    pub closed spec fn stored_users(&self) -> Seq<UserView> {
        user_rows_view(self.users@)
    }

    /// The stored task rows, in insertion order.
    pub closed spec fn stored_tasks(&self) -> Seq<TaskView> {
        task_rows_view(self.tasks@)
    }

    /// An empty store.
    pub fn new() -> (r: Self)
        ensures
            r.stored_users() == Seq::<UserView>::empty(),
            r.stored_tasks() == Seq::<TaskView>::empty(),
    {
        let r = MemoryStore { users: Vec::new(), tasks: Vec::new() };
        proof {
            assert(r.stored_users() =~= Seq::<UserView>::empty());
            assert(r.stored_tasks() =~= Seq::<TaskView>::empty());
        }
        r
    }

    /// Delete a user by identifier, cascading to the user's tasks: every
    /// task owned by the user is removed from the store as well, as a
    /// relational store's foreign key with cascading delete would do.
    /// The result tells whether a user row existed and was removed.
    pub fn delete_user(&mut self, id: &UserId) -> (r: bool)
        ensures
            r == (find_user(old(self).stored_users(), id@) is Some),
            final(self).stored_users() == remove_user(old(self).stored_users(), id@),
            final(self).stored_tasks() == remove_tasks_of_user(old(self).stored_tasks(), id@),
    {
        let ghost rows = self.stored_users();
        let ghost trows = self.stored_tasks();
        let mut kept: Vec<User> = Vec::new();
        let mut existed = false;
        proof {
            assert(rows.take(0) =~= Seq::<UserView>::empty());
            assert(user_rows_view(kept@) =~= remove_user(rows.take(0), id@));
        }
        let mut i: usize = 0;
        while i < self.users.len()
            invariant
                i <= rows.len(),
                rows == self.stored_users(),
                user_rows_view(kept@) == remove_user(rows.take(i as int), id@),
                existed == exists|j: int| 0 <= j < i && rows[j].id == id@,
            decreases rows.len() - i,
        {
            proof {
                assert(rows.take(i as int + 1) =~= rows.take(i as int).push(rows[i as int]));
                lemma_remove_user_push(rows.take(i as int), id@, rows[i as int]);
            }
            if *self.users[i].id() == *id {
                existed = true;
                proof {
                    assert(rows[i as int].id == id@);
                }
            } else {
                let ghost prev = kept@;
                kept.push(self.users[i].clone());
                proof {
                    assert(user_rows_view(kept@) =~= user_rows_view(prev).push(rows[i as int]));
                }
            }
            i += 1;
        }
        proof {
            assert(rows.take(rows.len() as int) =~= rows);
            lemma_find_user_is_some(rows, id@);
        }
        self.users = kept;
        let mut kept_tasks: Vec<Task> = Vec::new();
        proof {
            assert(trows.take(0) =~= Seq::<TaskView>::empty());
            assert(task_rows_view(kept_tasks@) =~= remove_tasks_of_user(trows.take(0), id@));
        }
        let mut i: usize = 0;
        while i < self.tasks.len()
            invariant
                i <= trows.len(),
                trows == self.stored_tasks(),
                task_rows_view(kept_tasks@) == remove_tasks_of_user(trows.take(i as int), id@),
            decreases trows.len() - i,
        {
            proof {
                assert(trows.take(i as int + 1) =~= trows.take(i as int).push(trows[i as int]));
                lemma_remove_tasks_of_user_push(trows.take(i as int), id@, trows[i as int]);
            }
            if *self.tasks[i].user_id() == *id {
            } else {
                let ghost prev = kept_tasks@;
                kept_tasks.push(self.tasks[i].clone());
                proof {
                    assert(task_rows_view(kept_tasks@) =~= task_rows_view(prev).push(
                        trows[i as int],
                    ));
                }
            }
            i += 1;
        }
        proof {
            assert(trows.take(trows.len() as int) =~= trows);
        }
        self.tasks = kept_tasks;
        existed
    }
}

impl UserRepository for MemoryStore {
    open spec fn users(&self) -> Seq<UserView> {
        self.stored_users()
    }

    fn find_by_id(&self, id: &UserId) -> (r: Result<Option<User>, DomainError>) {
        let ghost rows = self.stored_users();
        let mut i: usize = 0;
        while i < self.users.len()
            invariant
                i <= rows.len(),
                rows == self.stored_users(),
                forall|j: int| 0 <= j < i ==> rows[j].id != id@,
            decreases rows.len() - i,
        {
            if *self.users[i].id() == *id {
                proof {
                    lemma_find_user_after_prefix(rows, id@, i as int);
                    assert(rows.skip(i as int)[0] == rows[i as int]);
                    assert(find_user(rows, id@) == Some(rows[i as int]));
                }
                return Ok(Some(self.users[i].clone()));
            }
            i += 1;
        }
        proof {
            lemma_find_user_after_prefix(rows, id@, rows.len() as int);
            assert(rows.skip(rows.len() as int) =~= Seq::<UserView>::empty());
        }
        Ok(None)
    }

    fn find_all(&self) -> (r: Result<Vec<User>, DomainError>) {
        let ghost rows = self.stored_users();
        let mut out: Vec<User> = Vec::new();
        proof {
            assert(user_rows_view(out@) =~= rows.take(0));
        }
        let mut i: usize = 0;
        while i < self.users.len()
            invariant
                i <= rows.len(),
                rows == self.stored_users(),
                user_rows_view(out@) == rows.take(i as int),
            decreases rows.len() - i,
        {
            let ghost prev = out@;
            out.push(self.users[i].clone());
            proof {
                assert(user_rows_view(out@) =~= user_rows_view(prev).push(rows[i as int]));
                assert(rows.take(i as int + 1) =~= rows.take(i as int).push(rows[i as int]));
            }
            i += 1;
        }
        proof {
            assert(rows.take(rows.len() as int) =~= rows);
        }
        Ok(out)
    }

    fn insert(&mut self, user: &User) -> (r: Result<(), DomainError>) {
        let ghost rows = self.stored_users();
        let mut i: usize = 0;
        while i < self.users.len()
            invariant
                i <= rows.len(),
                rows == self.stored_users(),
                forall|j: int| 0 <= j < i ==> rows[j].id != user@.id,
            decreases rows.len() - i,
        {
            if *self.users[i].id() == *user.id() {
                proof {
                    lemma_find_user_after_prefix(rows, user@.id, i as int);
                    assert(rows.skip(i as int)[0] == rows[i as int]);
                }
                return Err(DomainError::AlreadyExists("User already exists".to_owned()));
            }
            i += 1;
        }
        proof {
            lemma_find_user_after_prefix(rows, user@.id, rows.len() as int);
            assert(rows.skip(rows.len() as int) =~= Seq::<UserView>::empty());
        }
        let mut i: usize = 0;
        while i < self.users.len()
            invariant
                i <= rows.len(),
                rows == self.stored_users(),
                forall|j: int| 0 <= j < i ==> rows[j].email != user@.email,
            decreases rows.len() - i,
        {
            if *self.users[i].email() == *user.email() {
                proof {
                    assert(rows[i as int].email == user@.email);
                    assert(has_email(rows, user@.email));
                }
                return Err(DomainError::AlreadyExists("Email already exists".to_owned()));
            }
            i += 1;
        }
        assert(!has_email(rows, user@.email));
        let ghost prev = self.users@;
        self.users.push(user.clone());
        proof {
            assert(self.stored_users() =~= user_rows_view(prev).push(user@));
            assert(inserted_user_row(rows, user@, self.stored_users()));
        }
        Ok(())
    }

    fn update(&mut self, user: &User) -> (r: Result<(), DomainError>) {
        let ghost rows = self.stored_users();
        let mut i: usize = 0;
        while i < self.users.len()
            invariant
                i <= rows.len(),
                rows == self.stored_users(),
                forall|j: int|
                    0 <= j < i ==> !(rows[j].id != user@.id && rows[j].email == user@.email),
            decreases rows.len() - i,
        {
            if !(*self.users[i].id() == *user.id()) && *self.users[i].email() == *user.email() {
                proof {
                    assert(rows[i as int].id != user@.id && rows[i as int].email == user@.email);
                    assert(email_taken_by_other(rows, user@.id, user@.email));
                }
                return Err(DomainError::AlreadyExists("Email already exists".to_owned()));
            }
            i += 1;
        }
        assert(!email_taken_by_other(rows, user@.id, user@.email));
        let mut i: usize = 0;
        while i < self.users.len()
            invariant
                i <= rows.len(),
                self.users@.len() == rows.len(),
                forall|j: int|
                    0 <= j < i ==> self.stored_users()[j] == (if rows[j].id == user@.id {
                        user@
                    } else {
                        rows[j]
                    }),
                forall|j: int| i <= j < rows.len() ==> self.stored_users()[j] == rows[j],
            decreases rows.len() - i,
        {
            let ghost pre = self.stored_users();
            if *self.users[i].id() == *user.id() {
                self.users[i] = user.clone();
            }
            proof {
                assert(self.stored_users()[i as int] == (if rows[i as int].id == user@.id {
                    user@
                } else {
                    rows[i as int]
                }));
                assert forall|j: int| 0 <= j < i + 1 implies self.stored_users()[j] == (if rows[j].id == user@.id {
                    user@
                } else {
                    rows[j]
                }) by {
                    if j < i {
                        assert(self.stored_users()[j] == pre[j]);
                        assert(pre[j] == (if rows[j].id == user@.id {
                            user@
                        } else {
                            rows[j]
                        }));
                    }
                }
            }
            i += 1;
        }
        proof {
            assert(self.stored_users() =~= update_user_row(rows, user@));
            assert(updated_user_rows(rows, user@, self.stored_users()));
        }
        Ok(())
    }

    fn delete(&mut self, id: &UserId) -> (r: Result<bool, DomainError>) {
        Ok(self.delete_user(id))
    }
}

impl TaskRepository for MemoryStore {
    open spec fn tasks(&self) -> Seq<TaskView> {
        self.stored_tasks()
    }

    open spec fn user_ids(&self) -> Set<Seq<char>> {
        user_id_set(self.stored_users())
    }

    fn find_by_id(&self, id: &TaskId) -> (r: Result<Option<Task>, DomainError>) {
        let ghost rows = self.stored_tasks();
        let mut i: usize = 0;
        while i < self.tasks.len()
            invariant
                i <= rows.len(),
                rows == self.stored_tasks(),
                forall|j: int| 0 <= j < i ==> rows[j].id != id@,
            decreases rows.len() - i,
        {
            if *self.tasks[i].id() == *id {
                proof {
                    lemma_find_task_after_prefix(rows, id@, i as int);
                    assert(rows.skip(i as int)[0] == rows[i as int]);
                    assert(find_task(rows, id@) == Some(rows[i as int]));
                }
                return Ok(Some(self.tasks[i].clone()));
            }
            i += 1;
        }
        proof {
            lemma_find_task_after_prefix(rows, id@, rows.len() as int);
            assert(rows.skip(rows.len() as int) =~= Seq::<TaskView>::empty());
        }
        Ok(None)
    }

    fn find_by_user_id(&self, user_id: &UserId) -> (r: Result<Vec<Task>, DomainError>) {
        let ghost rows = self.stored_tasks();
        let mut out: Vec<Task> = Vec::new();
        proof {
            assert(rows.take(0) =~= Seq::<TaskView>::empty());
            assert(task_rows_view(out@) =~= tasks_of_user(rows.take(0), user_id@));
        }
        let mut i: usize = 0;
        while i < self.tasks.len()
            invariant
                i <= rows.len(),
                rows == self.stored_tasks(),
                task_rows_view(out@) == tasks_of_user(rows.take(i as int), user_id@),
            decreases rows.len() - i,
        {
            proof {
                assert(rows.take(i as int + 1) =~= rows.take(i as int).push(rows[i as int]));
                lemma_tasks_of_user_push(rows.take(i as int), user_id@, rows[i as int]);
            }
            if *self.tasks[i].user_id() == *user_id {
                let ghost prev = out@;
                out.push(self.tasks[i].clone());
                proof {
                    assert(task_rows_view(out@) =~= task_rows_view(prev).push(rows[i as int]));
                }
            }
            i += 1;
        }
        proof {
            assert(rows.take(rows.len() as int) =~= rows);
        }
        Ok(out)
    }

    fn find_all(&self) -> (r: Result<Vec<Task>, DomainError>) {
        let ghost rows = self.stored_tasks();
        let mut out: Vec<Task> = Vec::new();
        proof {
            assert(task_rows_view(out@) =~= rows.take(0));
        }
        let mut i: usize = 0;
        while i < self.tasks.len()
            invariant
                i <= rows.len(),
                rows == self.stored_tasks(),
                task_rows_view(out@) == rows.take(i as int),
            decreases rows.len() - i,
        {
            let ghost prev = out@;
            out.push(self.tasks[i].clone());
            proof {
                assert(task_rows_view(out@) =~= task_rows_view(prev).push(rows[i as int]));
                assert(rows.take(i as int + 1) =~= rows.take(i as int).push(rows[i as int]));
            }
            i += 1;
        }
        proof {
            assert(rows.take(rows.len() as int) =~= rows);
        }
        Ok(out)
    }

    fn insert(&mut self, task: &Task) -> (r: Result<(), DomainError>) {
        let ghost rows = self.stored_tasks();
        let ghost urows = self.stored_users();
        let mut i: usize = 0;
        while i < self.tasks.len()
            invariant
                i <= rows.len(),
                rows == self.stored_tasks(),
                forall|j: int| 0 <= j < i ==> rows[j].id != task@.id,
            decreases rows.len() - i,
        {
            if *self.tasks[i].id() == *task.id() {
                proof {
                    lemma_find_task_after_prefix(rows, task@.id, i as int);
                    assert(rows.skip(i as int)[0] == rows[i as int]);
                }
                return Err(DomainError::AlreadyExists("Task already exists".to_owned()));
            }
            i += 1;
        }
        proof {
            lemma_find_task_after_prefix(rows, task@.id, rows.len() as int);
            assert(rows.skip(rows.len() as int) =~= Seq::<TaskView>::empty());
        }
        let mut found_user = false;
        let mut i: usize = 0;
        while i < self.users.len()
            invariant
                i <= urows.len(),
                urows == self.stored_users(),
                found_user ==> user_id_set(urows).contains(task@.user_id),
                !found_user ==> forall|j: int| 0 <= j < i ==> urows[j].id != task@.user_id,
            decreases urows.len() - i,
        {
            if *self.users[i].id() == *task.user_id() {
                proof {
                    assert(urows[i as int].id == task@.user_id);
                    assert(user_id_set(urows).contains(task@.user_id));
                }
                found_user = true;
            }
            i += 1;
        }
        if !found_user {
            assert(!user_id_set(urows).contains(task@.user_id));
            return Err(DomainError::NotFound("Task not found".to_owned()));
        }
        let ghost prev = self.tasks@;
        self.tasks.push(task.clone());
        proof {
            assert(self.stored_tasks() =~= task_rows_view(prev).push(task@));
            assert(inserted_task_row(rows, task@, self.stored_tasks()));
        }
        Ok(())
    }

    fn update(&mut self, task: &Task) -> (r: Result<(), DomainError>) {
        let ghost rows = self.stored_tasks();
        let mut i: usize = 0;
        while i < self.tasks.len()
            invariant
                i <= rows.len(),
                self.tasks@.len() == rows.len(),
                self.stored_users() == old(self).stored_users(),
                forall|j: int|
                    0 <= j < i ==> self.stored_tasks()[j] == (if rows[j].id == task@.id {
                        task@
                    } else {
                        rows[j]
                    }),
                forall|j: int| i <= j < rows.len() ==> self.stored_tasks()[j] == rows[j],
            decreases rows.len() - i,
        {
            let ghost pre = self.stored_tasks();
            if *self.tasks[i].id() == *task.id() {
                self.tasks[i] = task.clone();
            }
            proof {
                assert(self.stored_tasks()[i as int] == (if rows[i as int].id == task@.id {
                    task@
                } else {
                    rows[i as int]
                }));
                assert forall|j: int| 0 <= j < i + 1 implies self.stored_tasks()[j] == (if rows[j].id == task@.id {
                    task@
                } else {
                    rows[j]
                }) by {
                    if j < i {
                        assert(self.stored_tasks()[j] == pre[j]);
                        assert(pre[j] == (if rows[j].id == task@.id {
                            task@
                        } else {
                            rows[j]
                        }));
                    }
                }
            }
            i += 1;
        }
        proof {
            assert(self.stored_tasks() =~= update_task_row(rows, task@));
            assert(updated_task_rows(rows, task@, self.stored_tasks()));
        }
        Ok(())
    }

    fn delete(&mut self, id: &TaskId) -> (r: Result<bool, DomainError>) {
        let ghost rows = self.stored_tasks();
        let mut kept: Vec<Task> = Vec::new();
        let mut existed = false;
        proof {
            assert(rows.take(0) =~= Seq::<TaskView>::empty());
            assert(task_rows_view(kept@) =~= remove_task(rows.take(0), id@));
        }
        let mut i: usize = 0;
        while i < self.tasks.len()
            invariant
                i <= rows.len(),
                rows == self.stored_tasks(),
                self.stored_users() == old(self).stored_users(),
                task_rows_view(kept@) == remove_task(rows.take(i as int), id@),
                existed == exists|j: int| 0 <= j < i && rows[j].id == id@,
            decreases rows.len() - i,
        {
            proof {
                assert(rows.take(i as int + 1) =~= rows.take(i as int).push(rows[i as int]));
                lemma_remove_task_push(rows.take(i as int), id@, rows[i as int]);
            }
            if *self.tasks[i].id() == *id {
                existed = true;
                proof {
                    assert(rows[i as int].id == id@);
                }
            } else {
                let ghost prev = kept@;
                kept.push(self.tasks[i].clone());
                proof {
                    assert(task_rows_view(kept@) =~= task_rows_view(prev).push(rows[i as int]));
                }
            }
            i += 1;
        }
        proof {
            assert(rows.take(rows.len() as int) =~= rows);
            lemma_find_task_is_some(rows, id@);
        }
        self.tasks = kept;
        Ok(existed)
    }
}

} // verus!
