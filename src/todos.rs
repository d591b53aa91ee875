use vstd::prelude::*;

use crate::clock::{local_now, Stamp};
use crate::text::{concat3, find_trimmed, is_first_match, trim_text, trimmed, trimmed_all};

verus! {

/// Why an operation on a todo list failed.
#[derive(Debug, Clone, Copy, PartialEq, Eq, Structural)]
pub enum TodoErrors {
    /// No todo has the name that was asked for.
    TodoNotFound,
    /// The user declined to recover a missing list.
    TodoClosing,
    /// A stored list could not be read back.
    TodoSeralizationError,
    /// A position outside the list.
    OutOfBounds,
    /// A todo's name is empty or only white space.
    BlankName,
}

/// A single task.
#[derive(Debug)]
pub struct Todo {
    pub name: String,
    pub description: Option<String>,
    pub date_added: Stamp,
    pub completed: bool,
    /// Set when the task is marked completed.
    pub date_completed: Option<Stamp>,
}

fn clone_text(s: &Option<String>) -> (r: Option<String>)
    ensures
        r == *s,
{
    match s {
        Some(t) => Some(t.clone()),
        None => None,
    }
}

impl Clone for Todo {
    fn clone(&self) -> (r: Self)
        ensures
            r == *self,
    {
        Todo {
            name: self.name.clone(),
            description: clone_text(&self.description),
            date_added: self.date_added,
            completed: self.completed,
            date_completed: self.date_completed,
        }
    }
}

impl Todo {
    /// A task added at `at`, not completed yet unless `completed` says so.
    pub open spec fn made(name: String, description: Option<String>, completed: bool, at: Stamp) -> Todo {
        Todo { name, description, date_added: at, completed, date_completed: None }
    }

    /// A task stamped with the given time of addition; a name that is
    /// blank once trimmed is refused.
    pub fn new_at(name: String, description: Option<String>, completed: bool, at: Stamp) -> (r: Result<Todo, TodoErrors>)
        ensures
            trimmed(name@).len() == 0 ==> r == Err::<Todo, TodoErrors>(TodoErrors::BlankName),
            trimmed(name@).len() > 0 ==> r == Ok::<Todo, TodoErrors>(Todo::made(name, description, completed, at)),
    {
        let t = trim_text(name.as_str());
        if t.as_str().is_empty() {
            return Err(TodoErrors::BlankName);
        }
        Ok(Todo { name, description, date_added: at, completed, date_completed: None })
    }

    /// A task stamped with the local time now; a name that is blank once
    /// trimmed is refused.
    pub fn new(name: String, description: Option<String>, completed: bool) -> (r: Result<Todo, TodoErrors>)
        ensures
            trimmed(name@).len() == 0 ==> r == Err::<Todo, TodoErrors>(TodoErrors::BlankName),
            trimmed(name@).len() > 0 ==> (r matches Ok(t) && t == Todo::made(name, description, completed, t.date_added)
                && t.date_added.wf() && (!completed ==> t.consistent())),
    {
        let now = local_now();
        Todo::new_at(name, description, completed, now)
    }

    /// A completion date is recorded exactly when the task is completed.
    pub open spec fn consistent(self) -> bool {
        self.date_completed is Some <==> self.completed
    }

    /// The task once completed at `at`: done, with the completion date it
    /// already had or else `at`, the rest as before.
    pub open spec fn completed_at(self, at: Stamp) -> Todo {
        Todo {
            completed: true,
            date_completed: match self.date_completed {
                Some(d) => Some(d),
                None => Some(at),
            },
            ..self
        }
    }
}

/// The file a list named `name` is kept in when no other is given.
pub open spec fn default_list_path(name: Seq<char>) -> Seq<char> {
    "./recources/"@ + name + ".json"@
}

/// The trimmed names of the todos, in order.
pub open spec fn trimmed_names(todos: Seq<Todo>) -> Seq<Seq<char>> {
    todos.map_values(|t: Todo| trimmed(t.name@))
}

/// An ordered, named collection of todos bound to the file that stores it.
#[derive(Debug)]
pub struct TodoList {
    pub path: String,
    pub name: String,
    pub list: Vec<Todo>,
}

impl Clone for TodoList {
    fn clone(&self) -> (r: Self)
        ensures
            r.same_as(*self),
    {
        let mut list: Vec<Todo> = Vec::new();
        let mut i: usize = 0;
        while i < self.list.len()
            invariant
                i <= self.list@.len(),
                list@ == self.list@.subrange(0, i as int),
            decreases self.list@.len() - i,
        {
            list.push(self.list[i].clone());
            i = i + 1;
        }
        assert(list@ == self.list@);
        TodoList { path: self.path.clone(), name: self.name.clone(), list }
    }
}

impl TodoList {
    /// Whether the two lists hold the same path, name and todos.
    pub open spec fn same_as(self, other: TodoList) -> bool {
        &&& self.path == other.path
        &&& self.name == other.name
        &&& self.list@ == other.list@
    }

    /// An empty list named `name`, kept at `path`, or in the resource
    /// directory under its name when no path is given.
    pub fn create_new(name: String, path: Option<String>) -> (r: TodoList)
        ensures
            r.name == name,
            r.list@.len() == 0,
            r.path@ == match path {
                Some(p) => p@,
                None => default_list_path(name@),
            },
    {
        let path = match path {
            Some(p) => p,
            None => concat3("./recources/", name.as_str(), ".json"),
        };
        TodoList { path, name, list: Vec::new() }
    }

    /// Appends `todo` at the end of the list.
    pub fn add(&mut self, todo: Todo) -> (r: Result<(), TodoErrors>)
        ensures
            r is Ok,
            final(self).list@ == old(self).list@.push(todo),
            final(self).name == old(self).name,
            final(self).path == old(self).path,
    {
        self.list.push(todo);
        Ok(())
    }

    /// Takes out the todo at position `id`; later ones move down by one.
    pub fn remove(&mut self, id: usize) -> (r: Result<(), TodoErrors>)
        ensures
            id < old(self).list@.len() ==> {
                &&& r is Ok
                &&& final(self).list@ == old(self).list@.remove(id as int)
                &&& final(self).list@.len() == old(self).list@.len() - 1
                &&& final(self).name == old(self).name
                &&& final(self).path == old(self).path
            },
            id >= old(self).list@.len() ==> {
                &&& r == Err::<(), TodoErrors>(TodoErrors::OutOfBounds)
                &&& final(self).same_as(*old(self))
            },
    {
        if id < self.list.len() {
            self.list.remove(id);
            Ok(())
        } else {
            Err(TodoErrors::OutOfBounds)
        }
    }

    /// Marks the todo at position `id` completed at `at`; one that already
    /// has a completion date keeps it.
    pub fn complete_at(&mut self, id: usize, at: Stamp) -> (r: Result<(), TodoErrors>)
        ensures
            id < old(self).list@.len() ==> {
                &&& r is Ok
                &&& final(self).list@ == with_completed(old(self).list@, id as int, at)
                &&& final(self).name == old(self).name
                &&& final(self).path == old(self).path
            },
            id >= old(self).list@.len() ==> {
                &&& r == Err::<(), TodoErrors>(TodoErrors::OutOfBounds)
                &&& final(self).same_as(*old(self))
            },
    {
        if id < self.list.len() {
            let mut todo = self.list.remove(id);
            todo.completed = true;
            if todo.date_completed.is_none() {
                todo.date_completed = Some(at);
            }
            self.list.insert(id, todo);
            assert(self.list@ =~= with_completed(old(self).list@, id as int, at));
            Ok(())
        } else {
            Err(TodoErrors::OutOfBounds)
        }
    }

    /// Marks the todo at position `id` completed at the local time now; one
    /// that already has a completion date keeps it.
    pub fn complete(&mut self, id: usize) -> (r: Result<(), TodoErrors>)
        ensures
            id < old(self).list@.len() ==> {
                &&& r is Ok
                &&& exists|at: Stamp| at.wf()
                    && final(self).list@ == with_completed(old(self).list@, id as int, at)
                &&& final(self).name == old(self).name
                &&& final(self).path == old(self).path
            },
            id >= old(self).list@.len() ==> {
                &&& r == Err::<(), TodoErrors>(TodoErrors::OutOfBounds)
                &&& final(self).same_as(*old(self))
            },
    {
        if id < self.list.len() {
            let now = local_now();
            self.complete_at(id, now)
        } else {
            Err(TodoErrors::OutOfBounds)
        }
    }

    /// The position of the first todo whose trimmed name is the trimmed
    /// `name`.
    pub fn find_todo_id(&self, name: String) -> (r: Result<usize, TodoErrors>)
        ensures
            match r {
                Ok(i) => is_first_match(trimmed_names(self.list@), trimmed(name@), i as int),
                Err(e) => {
                    &&& e == TodoErrors::TodoNotFound
                    &&& forall|j: int| 0 <= j < self.list@.len()
                        ==> trimmed(#[trigger] self.list@[j].name@) != trimmed(name@)
                },
            },
    {
        let names = self.names();
        assert(trimmed_all(names@) =~= trimmed_names(self.list@));
        match find_trimmed(&names, name.as_str()) {
            Some(i) => Ok(i),
            None => {
                assert forall|j: int| 0 <= j < self.list@.len()
                    implies trimmed(#[trigger] self.list@[j].name@) != trimmed(name@) by {
                    assert(names@[j] == self.list@[j].name);
                }
                Err(TodoErrors::TodoNotFound)
            },
        }
    }

    /// The names of the todos, in order.
    pub fn names(&self) -> (r: Vec<String>)
        ensures
            r@.len() == self.list@.len(),
            forall|j: int| 0 <= j < r@.len() ==> #[trigger] r@[j] == self.list@[j].name,
    {
        let mut names: Vec<String> = Vec::new();
        let mut i: usize = 0;
        while i < self.list.len()
            invariant
                i <= self.list@.len(),
                names@.len() == i,
                forall|j: int| 0 <= j < i ==> #[trigger] names@[j] == self.list@[j].name,
            decreases self.list@.len() - i,
        {
            names.push(self.list[i].name.clone());
            i = i + 1;
        }
        names
    }
}

/// The todos with the one at `id` marked completed at `at`.
pub open spec fn with_completed(todos: Seq<Todo>, id: int, at: Stamp) -> Seq<Todo> {
    todos.update(id, todos[id].completed_at(at))
}

/// Completing a todo a second time changes nothing: it stays completed, and
/// its completion date is the one the first call set.
pub proof fn lemma_complete_twice(todos: Seq<Todo>, id: int, first: Stamp, second: Stamp)
    requires
        0 <= id < todos.len(),
    ensures
        with_completed(with_completed(todos, id, first), id, second)
            == with_completed(todos, id, first),
        with_completed(with_completed(todos, id, first), id, second)[id].completed,
        todos[id].date_completed is None
            ==> with_completed(with_completed(todos, id, first), id, second)[id].date_completed
            == Some(first),
{
    assert(with_completed(with_completed(todos, id, first), id, second)
        =~= with_completed(todos, id, first));
}

/// Completing a todo keeps every todo of the list consistent that was, and
/// makes the completed one consistent.
pub proof fn lemma_complete_keeps_consistent(todos: Seq<Todo>, id: int, at: Stamp)
    requires
        0 <= id < todos.len(),
        forall|j: int| 0 <= j < todos.len() ==> (#[trigger] todos[j]).consistent(),
    ensures
        forall|j: int| 0 <= j < todos.len() ==> (#[trigger] with_completed(todos, id, at)[j]).consistent(),
{
}

} // verus!
