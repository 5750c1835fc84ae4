//! Repository ports: abstract persistence contracts per aggregate.
//!
//! Each port's abstract state is the sequence of stored rows, in storage
//! order. The spec functions here describe what each storage operation
//! does to that state; the traits state the operation contracts that any
//! adapter is expected to honor. Constraints (unique identifier, unique
//! email, referential integrity) are checked at the point of write, not
//! before.

use vstd::prelude::*;
use crate::error::DomainError;
use crate::task::{Task, TaskView};
use crate::user::{User, UserView};
use crate::value_objects::{TaskId, UserId};

verus! {

/// The first stored user with the given identifier, if any.
pub open spec fn find_user(users: Seq<UserView>, id: Seq<char>) -> Option<UserView>
    decreases users.len(),
{
    if users.len() == 0 {
        None
    } else if users[0].id == id {
        Some(users[0])
    } else {
        find_user(users.drop_first(), id)
    }
}

/// The first stored task with the given identifier, if any.
pub open spec fn find_task(tasks: Seq<TaskView>, id: Seq<char>) -> Option<TaskView>
    decreases tasks.len(),
{
    if tasks.len() == 0 {
        None
    } else if tasks[0].id == id {
        Some(tasks[0])
    } else {
        find_task(tasks.drop_first(), id)
    }
}

/// Whether some stored user carries the given email.
pub open spec fn has_email(users: Seq<UserView>, email: Seq<char>) -> bool {
    exists|i: int| 0 <= i < users.len() && users[i].email == email
}

/// Whether a stored user other than `id` carries the given email.
pub open spec fn email_taken_by_other(
    users: Seq<UserView>,
    id: Seq<char>,
    email: Seq<char>,
) -> bool {
    exists|i: int| 0 <= i < users.len() && users[i].id != id && users[i].email == email
}

/// What deleting a user by identifier leaves behind.
pub open spec fn remove_user(users: Seq<UserView>, id: Seq<char>) -> Seq<UserView> {
    users.filter(|u: UserView| u.id != id)
}

/// What deleting a task by identifier leaves behind.
pub open spec fn remove_task(tasks: Seq<TaskView>, id: Seq<char>) -> Seq<TaskView> {
    tasks.filter(|t: TaskView| t.id != id)
}

/// What cascading a user deletion over the task rows leaves behind.
pub open spec fn remove_tasks_of_user(tasks: Seq<TaskView>, user_id: Seq<char>) -> Seq<TaskView> {
    tasks.filter(|t: TaskView| t.user_id != user_id)
}

/// The tasks owned by the given user, in storage order.
pub open spec fn tasks_of_user(tasks: Seq<TaskView>, user_id: Seq<char>) -> Seq<TaskView> {
    tasks.filter(|t: TaskView| t.user_id == user_id)
}

/// What updating a user row by identifier leaves: every row with that
/// identifier replaced, all others untouched.
pub open spec fn update_user_row(users: Seq<UserView>, row: UserView) -> Seq<UserView> {
    users.map_values(|u: UserView| if u.id == row.id { row } else { u })
}

/// What updating a task row by identifier leaves.
pub open spec fn update_task_row(tasks: Seq<TaskView>, row: TaskView) -> Seq<TaskView> {
    tasks.map_values(|t: TaskView| if t.id == row.id { row } else { t })
}

/// Row equality up to the write-only audit timestamp: the adapter
/// assigns that field on write, so no port contract pins it.
pub open spec fn same_user_up_to_stamp(a: UserView, b: UserView) -> bool {
    a.id == b.id && a.name == b.name && a.email == b.email
}

/// Row equality up to the write-only audit timestamp.
pub open spec fn same_task_up_to_stamp(a: TaskView, b: TaskView) -> bool {
    a.id == b.id && a.user_id == b.user_id && a.title == b.title && a.description == b.description
        && a.completed == b.completed
}

/// What inserting a user leaves: the old rows unchanged, and one new row
/// at the end that equals the inserted aggregate except possibly the
/// audit timestamp.
pub open spec fn inserted_user_row(
    before: Seq<UserView>,
    row: UserView,
    after: Seq<UserView>,
) -> bool {
    &&& after.len() == before.len() + 1
    &&& forall|j: int| 0 <= j < before.len() ==> after[j] == before[j]
    &&& same_user_up_to_stamp(after.last(), row)
}

/// What inserting a task leaves.
pub open spec fn inserted_task_row(
    before: Seq<TaskView>,
    row: TaskView,
    after: Seq<TaskView>,
) -> bool {
    &&& after.len() == before.len() + 1
    &&& forall|j: int| 0 <= j < before.len() ==> after[j] == before[j]
    &&& same_task_up_to_stamp(after.last(), row)
}

/// What updating a user row by identifier leaves: every row carrying the
/// identifier replaced by the given aggregate except possibly the audit
/// timestamp, all others untouched.
pub open spec fn updated_user_rows(
    before: Seq<UserView>,
    row: UserView,
    after: Seq<UserView>,
) -> bool {
    &&& after.len() == before.len()
    &&& forall|j: int|
        #![trigger after[j]]
        0 <= j < before.len() ==> if before[j].id == row.id {
            same_user_up_to_stamp(after[j], row)
        } else {
            after[j] == before[j]
        }
}

/// What updating a task row by identifier leaves.
pub open spec fn updated_task_rows(
    before: Seq<TaskView>,
    row: TaskView,
    after: Seq<TaskView>,
) -> bool {
    &&& after.len() == before.len()
    &&& forall|j: int|
        #![trigger after[j]]
        0 <= j < before.len() ==> if before[j].id == row.id {
            same_task_up_to_stamp(after[j], row)
        } else {
            after[j] == before[j]
        }
}

/// The identifiers of all stored users.
pub open spec fn user_id_set(users: Seq<UserView>) -> Set<Seq<char>> {
    Set::new(|id: Seq<char>| exists|i: int| 0 <= i < users.len() && users[i].id == id)
}

/// Searching skips any prefix whose identifiers all differ from `id`.
pub proof fn lemma_find_user_after_prefix(users: Seq<UserView>, id: Seq<char>, k: int)
    requires
        0 <= k <= users.len(),
        forall|j: int| 0 <= j < k ==> users[j].id != id,
    ensures
        find_user(users, id) == find_user(users.skip(k), id),
    decreases k,
{
    if k > 0 {
        lemma_find_user_after_prefix(users, id, k - 1);
        assert(users.skip(k - 1)[0] == users[k - 1]);
        assert(users.skip(k - 1).drop_first() =~= users.skip(k));
    } else {
        assert(users.skip(0) =~= users);
    }
}

/// Searching skips any prefix whose identifiers all differ from `id`.
pub proof fn lemma_find_task_after_prefix(tasks: Seq<TaskView>, id: Seq<char>, k: int)
    requires
        0 <= k <= tasks.len(),
        forall|j: int| 0 <= j < k ==> tasks[j].id != id,
    ensures
        find_task(tasks, id) == find_task(tasks.skip(k), id),
    decreases k,
{
    if k > 0 {
        lemma_find_task_after_prefix(tasks, id, k - 1);
        assert(tasks.skip(k - 1)[0] == tasks[k - 1]);
        assert(tasks.skip(k - 1).drop_first() =~= tasks.skip(k));
    } else {
        assert(tasks.skip(0) =~= tasks);
    }
}

/// A user is found exactly when some stored row carries the identifier.
pub proof fn lemma_find_user_is_some(users: Seq<UserView>, id: Seq<char>)
    ensures
        find_user(users, id) is Some <==> exists|j: int|
            0 <= j < users.len() && users[j].id == id,
    decreases users.len(),
{
    if users.len() > 0 {
        lemma_find_user_is_some(users.drop_first(), id);
        if users[0].id != id {
            assert forall|j: int| 0 <= j < users.len() && users[j].id == id implies exists|j2: int|
                0 <= j2 < users.drop_first().len() && users.drop_first()[j2].id == id by {
                assert(users.drop_first()[j - 1] == users[j]);
            }
            assert forall|j2: int|
                0 <= j2 < users.drop_first().len() && users.drop_first()[j2].id == id implies
                exists|j: int| 0 <= j < users.len() && users[j].id == id by {
                assert(users[j2 + 1] == users.drop_first()[j2]);
            }
        }
    }
}

/// A task is found exactly when some stored row carries the identifier.
pub proof fn lemma_find_task_is_some(tasks: Seq<TaskView>, id: Seq<char>)
    ensures
        find_task(tasks, id) is Some <==> exists|j: int|
            0 <= j < tasks.len() && tasks[j].id == id,
    decreases tasks.len(),
{
    if tasks.len() > 0 {
        lemma_find_task_is_some(tasks.drop_first(), id);
        if tasks[0].id != id {
            assert forall|j: int| 0 <= j < tasks.len() && tasks[j].id == id implies exists|j2: int|
                0 <= j2 < tasks.drop_first().len() && tasks.drop_first()[j2].id == id by {
                assert(tasks.drop_first()[j - 1] == tasks[j]);
            }
            assert forall|j2: int|
                0 <= j2 < tasks.drop_first().len() && tasks.drop_first()[j2].id == id implies
                exists|j: int| 0 <= j < tasks.len() && tasks[j].id == id by {
                assert(tasks[j2 + 1] == tasks.drop_first()[j2]);
            }
        }
    }
}

/// The user a successful search returns carries the identifier it was
/// asked for.
pub proof fn lemma_find_user_key(users: Seq<UserView>, id: Seq<char>)
    requires
        find_user(users, id) is Some,
    ensures
        (find_user(users, id)->Some_0).id == id,
    decreases users.len(),
{
    if users.len() > 0 && users[0].id != id {
        lemma_find_user_key(users.drop_first(), id);
    }
}

/// The task a successful search returns carries the identifier it was
/// asked for.
pub proof fn lemma_find_task_key(tasks: Seq<TaskView>, id: Seq<char>)
    requires
        find_task(tasks, id) is Some,
    ensures
        (find_task(tasks, id)->Some_0).id == id,
    decreases tasks.len(),
{
    if tasks.len() > 0 && tasks[0].id != id {
        lemma_find_task_key(tasks.drop_first(), id);
    }
}

/// Deleting an identifier that no user row carries leaves the rows as
/// they were.
pub proof fn lemma_remove_user_absent(users: Seq<UserView>, id: Seq<char>)
    requires
        forall|j: int| 0 <= j < users.len() ==> users[j].id != id,
    ensures
        remove_user(users, id) == users,
    decreases users.len(),
{
    if users.len() == 0 {
        assert(remove_user(users, id) =~= users);
    } else {
        lemma_remove_user_absent(users.drop_last(), id);
        lemma_remove_user_push(users.drop_last(), id, users.last());
        assert(users.drop_last().push(users.last()) =~= users);
    }
}

/// Deleting an identifier that no task row carries leaves the rows as
/// they were.
pub proof fn lemma_remove_task_absent(tasks: Seq<TaskView>, id: Seq<char>)
    requires
        forall|j: int| 0 <= j < tasks.len() ==> tasks[j].id != id,
    ensures
        remove_task(tasks, id) == tasks,
    decreases tasks.len(),
{
    if tasks.len() == 0 {
        assert(remove_task(tasks, id) =~= tasks);
    } else {
        lemma_remove_task_absent(tasks.drop_last(), id);
        lemma_remove_task_push(tasks.drop_last(), id, tasks.last());
        assert(tasks.drop_last().push(tasks.last()) =~= tasks);
    }
}

/// How deletion behaves on one more stored user row.
pub proof fn lemma_remove_user_push(users: Seq<UserView>, id: Seq<char>, u: UserView)
    ensures
        remove_user(users.push(u), id) == if u.id != id {
            remove_user(users, id).push(u)
        } else {
            remove_user(users, id)
        },
{
    broadcast use Seq::lemma_filter_push;

}

/// How deletion behaves on one more stored task row.
pub proof fn lemma_remove_task_push(tasks: Seq<TaskView>, id: Seq<char>, t: TaskView)
    ensures
        remove_task(tasks.push(t), id) == if t.id != id {
            remove_task(tasks, id).push(t)
        } else {
            remove_task(tasks, id)
        },
{
    broadcast use Seq::lemma_filter_push;

}

/// How a cascading deletion behaves on one more stored task row.
pub proof fn lemma_remove_tasks_of_user_push(tasks: Seq<TaskView>, user_id: Seq<char>, t: TaskView)
    ensures
        remove_tasks_of_user(tasks.push(t), user_id) == if t.user_id != user_id {
            remove_tasks_of_user(tasks, user_id).push(t)
        } else {
            remove_tasks_of_user(tasks, user_id)
        },
{
    broadcast use Seq::lemma_filter_push;

}

/// How the ownership filter behaves on one more stored task row.
pub proof fn lemma_tasks_of_user_push(tasks: Seq<TaskView>, user_id: Seq<char>, t: TaskView)
    ensures
        tasks_of_user(tasks.push(t), user_id) == if t.user_id == user_id {
            tasks_of_user(tasks, user_id).push(t)
        } else {
            tasks_of_user(tasks, user_id)
        },
{
    broadcast use Seq::lemma_filter_push;

}

/// Round trip for users: a row whose identifier was not stored before
/// insertion is found again after insertion, with every field equal to
/// what was inserted. Together with the insert contract, which admits a
/// row only when its identifier is fresh, this says that persisting an
/// aggregate and reading it back yields the aggregate unchanged.
pub proof fn lemma_user_round_trip(users: Seq<UserView>, u: UserView)
    requires
        find_user(users, u.id) is None,
    ensures
        find_user(users.push(u), u.id) == Some(u),
    decreases users.len(),
{
    if users.len() == 0 {
        assert(users.push(u)[0] == u);
    } else {
        assert(users.push(u)[0] == users[0]);
        lemma_user_round_trip(users.drop_first(), u);
        assert(users.push(u).drop_first() =~= users.drop_first().push(u));
    }
}

/// Round trip for tasks: a row whose identifier was not stored before
/// insertion is found again after insertion, with every field equal to
/// what was inserted.
pub proof fn lemma_task_round_trip(tasks: Seq<TaskView>, t: TaskView)
    requires
        find_task(tasks, t.id) is None,
    ensures
        find_task(tasks.push(t), t.id) == Some(t),
    decreases tasks.len(),
{
    if tasks.len() == 0 {
        assert(tasks.push(t)[0] == t);
    } else {
        assert(tasks.push(t)[0] == tasks[0]);
        lemma_task_round_trip(tasks.drop_first(), t);
        assert(tasks.push(t).drop_first() =~= tasks.drop_first().push(t));
    }
}

/// Port for persisting the `User` aggregate.
///
/// `users()` is the adapter's abstract state. Any operation may fail with
/// `Infrastructure` (the storage layer itself failed); such a failure
/// never changes the stored rows, and callers must treat it as opaque.
pub trait UserRepository: Sized {
    /// The stored user rows, in storage order.
    spec fn users(&self) -> Seq<UserView>;

    /// Find a user by identifier.
    fn find_by_id(&self, id: &UserId) -> (r: Result<Option<User>, DomainError>)
        ensures
            match r {
                Ok(found) => match found {
                    Some(u) => find_user(self.users(), id@) == Some(u@),
                    None => find_user(self.users(), id@) is None,
                },
                Err(e) => e is Infrastructure,
            },
    ;

    /// Find all users.
    fn find_all(&self) -> (r: Result<Vec<User>, DomainError>)
        ensures
            match r {
                Ok(v) => v@.map_values(|u: User| u@) == self.users(),
                Err(e) => e is Infrastructure,
            },
    ;

    /// Insert a new user. The stored rows decide: insertion succeeds
    /// exactly when neither the identifier nor the email is already
    /// stored, unless the storage layer itself fails first.
    fn insert(&mut self, user: &User) -> (r: Result<(), DomainError>)
        ensures
            match r {
                Ok(()) => {
                    &&& find_user(old(self).users(), user@.id) is None
                    &&& !has_email(old(self).users(), user@.email)
                    &&& inserted_user_row(old(self).users(), user@, final(self).users())
                },
                Err(e) => final(self).users() == old(self).users() && match e {
                    DomainError::AlreadyExists(m) => {
                        ||| (m@ == "Email already exists"@ && has_email(
                            old(self).users(),
                            user@.email,
                        ))
                        ||| (m@ == "User already exists"@ && find_user(
                            old(self).users(),
                            user@.id,
                        ) is Some)
                    },
                    DomainError::Infrastructure(_) => true,
                    _ => false,
                },
            },
    ;

    /// Update the row carrying the user's identifier. Updating succeeds
    /// exactly when the new email is not taken by a different user,
    /// unless the storage layer itself fails first; a row that does not
    /// exist leaves the rows unchanged and still succeeds.
    fn update(&mut self, user: &User) -> (r: Result<(), DomainError>)
        ensures
            match r {
                Ok(()) => {
                    &&& !email_taken_by_other(old(self).users(), user@.id, user@.email)
                    &&& updated_user_rows(old(self).users(), user@, final(self).users())
                },
                Err(e) => final(self).users() == old(self).users() && match e {
                    DomainError::AlreadyExists(m) => m@ == "Email already exists"@
                        && email_taken_by_other(old(self).users(), user@.id, user@.email),
                    DomainError::Infrastructure(_) => true,
                    _ => false,
                },
            },
    ;

    /// Delete a user by identifier; the result tells whether a row
    /// existed and was removed.
    fn delete(&mut self, id: &UserId) -> (r: Result<bool, DomainError>)
        ensures
            match r {
                Ok(b) => {
                    &&& b == (find_user(old(self).users(), id@) is Some)
                    &&& final(self).users() == remove_user(old(self).users(), id@)
                },
                Err(e) => final(self).users() == old(self).users() && e is Infrastructure,
            },
    ;
}

/// Port for persisting the `Task` aggregate.
///
/// `tasks()` is the adapter's abstract state; `user_ids()` is the set of
/// user identifiers that task rows may reference, against which
/// referential integrity is enforced at the point of write.
pub trait TaskRepository: Sized {
    /// The stored task rows, in storage order.
    spec fn tasks(&self) -> Seq<TaskView>;

    /// The user identifiers a task may reference.
    spec fn user_ids(&self) -> Set<Seq<char>>;

    /// Find a task by identifier.
    fn find_by_id(&self, id: &TaskId) -> (r: Result<Option<Task>, DomainError>)
        ensures
            match r {
                Ok(found) => match found {
                    Some(t) => find_task(self.tasks(), id@) == Some(t@),
                    None => find_task(self.tasks(), id@) is None,
                },
                Err(e) => e is Infrastructure,
            },
    ;

    /// Find the tasks owned by the given user, in storage order.
    fn find_by_user_id(&self, user_id: &UserId) -> (r: Result<Vec<Task>, DomainError>)
        ensures
            match r {
                Ok(v) => v@.map_values(|t: Task| t@) == tasks_of_user(self.tasks(), user_id@),
                Err(e) => e is Infrastructure,
            },
    ;

    /// Find all tasks.
    fn find_all(&self) -> (r: Result<Vec<Task>, DomainError>)
        ensures
            match r {
                Ok(v) => v@.map_values(|t: Task| t@) == self.tasks(),
                Err(e) => e is Infrastructure,
            },
    ;

    /// Insert a new task. The stored rows decide: insertion succeeds
    /// exactly when the identifier is fresh and the referenced user
    /// exists, unless the storage layer itself fails first.
    fn insert(&mut self, task: &Task) -> (r: Result<(), DomainError>)
        ensures
            final(self).user_ids() == old(self).user_ids(),
            match r {
                Ok(()) => {
                    &&& find_task(old(self).tasks(), task@.id) is None
                    &&& old(self).user_ids().contains(task@.user_id)
                    &&& inserted_task_row(old(self).tasks(), task@, final(self).tasks())
                },
                Err(e) => final(self).tasks() == old(self).tasks() && match e {
                    DomainError::AlreadyExists(m) => m@ == "Task already exists"@ && find_task(
                        old(self).tasks(),
                        task@.id,
                    ) is Some,
                    DomainError::NotFound(m) => m@ == "Task not found"@ && !old(
                        self,
                    ).user_ids().contains(task@.user_id),
                    DomainError::Infrastructure(_) => true,
                    _ => false,
                },
            },
    ;

    /// Update the row carrying the task's identifier; a row that does not
    /// exist leaves the rows unchanged and still succeeds.
    fn update(&mut self, task: &Task) -> (r: Result<(), DomainError>)
        ensures
            final(self).user_ids() == old(self).user_ids(),
            match r {
                Ok(()) => updated_task_rows(old(self).tasks(), task@, final(self).tasks()),
                Err(e) => final(self).tasks() == old(self).tasks() && e is Infrastructure,
            },
    ;

    /// Delete a task by identifier; the result tells whether a row
    /// existed and was removed.
    fn delete(&mut self, id: &TaskId) -> (r: Result<bool, DomainError>)
        ensures
            final(self).user_ids() == old(self).user_ids(),
            match r {
                Ok(b) => {
                    &&& b == (find_task(old(self).tasks(), id@) is Some)
                    &&& final(self).tasks() == remove_task(old(self).tasks(), id@)
                },
                Err(e) => final(self).tasks() == old(self).tasks() && e is Infrastructure,
            },
    ;
}

} // verus!
