use vstd::prelude::*;

use crate::text::{concat3, find_trimmed, is_first_match, trimmed, trimmed_all};
use crate::todos::{Todo, TodoErrors, TodoList, with_completed};
use crate::clock::Stamp;

verus! {

/// What kind of failure an [`AppError`] reports.
#[derive(Debug, Clone, Copy, PartialEq, Eq, Structural)]
pub enum AppErrorKind {
    /// A lookup or start-up failure of the application itself.
    Error,
    /// The resource directory holds a file that is not a JSON list.
    WrongExtension,
    /// The list an operation was handed to refused it.
    List(TodoErrors),
}

impl AppErrorKind {
    /// The name the kind is shown under.
    pub open spec fn label_spec(self) -> Seq<char> {
        match self {
            AppErrorKind::Error => "AppError"@,
            AppErrorKind::WrongExtension => "WrongExtension"@,
            AppErrorKind::List(_) => "TodoError"@,
        }
    }

    /// The name the kind is shown under.
    pub fn label(&self) -> (r: String)
        ensures
            r@ == self.label_spec(),
    {
        match self {
            AppErrorKind::Error => "AppError".to_owned(),
            AppErrorKind::WrongExtension => "WrongExtension".to_owned(),
            AppErrorKind::List(_) => "TodoError".to_owned(),
        }
    }
}

/// A failure of the application state, with a text for the user.
#[derive(Debug)]
pub struct AppError {
    pub kind: AppErrorKind,
    pub description: String,
}

impl AppError {
    pub fn new(kind: AppErrorKind, description: &str) -> (r: AppError)
        ensures
            r.kind == kind,
            r.description@ == description@,
    {
        AppError { kind, description: description.to_owned() }
    }

    /// The text shown to the user: the kind's label and the description.
    pub fn message(&self) -> (r: String)
        ensures
            r@ == "Error: "@ + self.kind.label_spec() + " description: "@ + self.description@,
    {
        let label = self.kind.label();
        let head = concat3("Error: ", label.as_str(), " description: ");
        let r = concat3(head.as_str(), self.description.as_str(), "");
        proof {
            reveal_strlit("");
        }
        assert(r@ =~= head@ + self.description@);
        r
    }
}

/// The text an optional string holds.
pub open spec fn text_of(t: Option<String>) -> Option<Seq<char>> {
    match t {
        Some(s) => Some(s@),
        None => None,
    }
}

/// Whether an extension is that of a list file.
pub open spec fn is_json(ext: Option<Seq<char>>) -> bool {
    ext == Some("json"@)
}

/// Whether a directory entry with this extension may hold a list.
pub open spec fn is_list_extension(ext: Option<String>) -> bool {
    is_json(text_of(ext))
}

/// The kind of error an entry with this (refused) extension gives.
pub open spec fn extension_error(ext: Option<String>) -> AppErrorKind {
    match ext {
        Some(_) => AppErrorKind::WrongExtension,
        None => AppErrorKind::Error,
    }
}

/// The text of the error an entry with this (refused) extension gives.
pub open spec fn extension_message(ext: Option<String>) -> Seq<char> {
    match ext {
        Some(e) => "Expected Json found "@ + e@,
        None => "recourse folder is only for json lists"@,
    }
}

/// Whether every entry's extension may hold a list.
pub open spec fn all_list_extensions(exts: Seq<Option<String>>) -> bool {
    forall|j: int| 0 <= j < exts.len() ==> is_list_extension(#[trigger] exts[j])
}

/// Whether `e` is the error of the first entry whose extension is refused.
pub open spec fn refused_at_first(exts: Seq<Option<String>>, e: AppError) -> bool {
    exists|k: int| {
        &&& 0 <= k < exts.len()
        &&& !is_list_extension(exts[k])
        &&& forall|j: int| 0 <= j < k ==> is_list_extension(#[trigger] exts[j])
        &&& e.kind == extension_error(exts[k])
        &&& e.description@ == extension_message(exts[k])
    }
}

/// The trimmed names of the lists, in order.
pub open spec fn list_names(lists: Seq<TodoList>) -> Seq<Seq<char>> {
    lists.map_values(|l: TodoList| trimmed(l.name@))
}

/// A resource directory whose entries all have an extension, one of them
/// other than `json` (such as `txt`), is refused, and the error it gives is
/// `WrongExtension`.
pub proof fn lemma_foreign_file_refused(exts: Seq<Option<String>>, k: int, e: AppError)
    requires
        0 <= k < exts.len(),
        exts[k] matches Some(x) && x@ != "json"@,
        forall|j: int| 0 <= j < exts.len() ==> (#[trigger] exts[j]) is Some,
        refused_at_first(exts, e),
    ensures
        !all_list_extensions(exts),
        e.kind == AppErrorKind::WrongExtension,
{
    assert(!is_list_extension(exts[k]));
}

/// Whatever entry is refused first, the error is a configuration error:
/// `WrongExtension`, or `Error` for an entry without an extension.
pub proof fn lemma_refusal_kind(exts: Seq<Option<String>>, e: AppError)
    requires
        refused_at_first(exts, e),
    ensures
        e.kind == AppErrorKind::WrongExtension || e.kind == AppErrorKind::Error,
{
}

/// Whether `after` is `before` with only the list at `i` changed, to one that
/// keeps its name and path and holds `todos`.
pub open spec fn list_replaced(before: Seq<TodoList>, after: Seq<TodoList>, i: int, todos: Seq<Todo>) -> bool {
    &&& after.len() == before.len()
    &&& forall|j: int| 0 <= j < before.len() && j != i ==> after[j] == before[j]
    &&& after[i].name == before[i].name
    &&& after[i].path == before[i].path
    &&& after[i].list@ == todos
}

/// The list that is worked on, and every list that was found.
#[derive(Debug)]
pub struct AppState {
    pub current_list: TodoList,
    pub global_lists: Vec<TodoList>,
}

impl AppState {
    /// Checks the extensions of the entries of the resource directory, in
    /// order: each must be exactly `json`; the first that is not decides the
    /// error.
    pub fn check_extensions(exts: &Vec<Option<String>>) -> (r: Result<(), AppError>)
        ensures
            r is Ok <==> all_list_extensions(exts@),
            r matches Err(e) ==> refused_at_first(exts@, e),
    {
        let json = "json".to_owned();
        proof {
            reveal_strlit("json");
        }
        let mut k: usize = 0;
        while k < exts.len()
            invariant
                k <= exts@.len(),
                json@ == "json"@,
                forall|j: int| 0 <= j < k ==> is_list_extension(#[trigger] exts@[j]),
            decreases exts@.len() - k,
        {
            let refused = match &exts[k] {
                Some(t) => !(*t == json),
                None => true,
            };
            if refused {
                assert(!is_list_extension(exts@[k as int]));
                match &exts[k] {
                    Some(ext) => {
                        let msg = concat3("Expected Json found ", ext.as_str(), "");
                        proof {
                            reveal_strlit("");
                        }
                        assert(msg@ =~= "Expected Json found "@ + ext@);
                        return Err(AppError { kind: AppErrorKind::WrongExtension, description: msg });
                    },
                    None => {
                        return Err(AppError::new(AppErrorKind::Error, "recourse folder is only for json lists"));
                    },
                }
            }
            k = k + 1;
        }
        Ok(())
    }

    /// The state over the lists found at start-up, the first of them current.
    pub fn init(exts: &Vec<Option<String>>, lists: Vec<TodoList>) -> (r: Result<AppState, AppError>)
        ensures
            r is Ok <==> all_list_extensions(exts@) && lists@.len() > 0,
            !all_list_extensions(exts@) ==> (r matches Err(e) && refused_at_first(exts@, e)),
            all_list_extensions(exts@) && lists@.len() == 0 ==> (r matches Err(e)
                && e.kind == AppErrorKind::Error && e.description@ == "No list found"@),
            r matches Ok(s) ==> s.current_list.same_as(lists@[0]) && s.global_lists@ == lists@,
    {
        match AppState::check_extensions(exts) {
            Ok(()) => {},
            Err(e) => {
                return Err(e);
            },
        }
        if lists.len() == 0 {
            return Err(AppError::new(AppErrorKind::Error, "No list found"));
        }
        let current = lists[0].clone();
        Ok(AppState { current_list: current, global_lists: lists })
    }

    /// The names of the lists found, in order.
    pub fn names(&self) -> (r: Vec<String>)
        ensures
            r@.len() == self.global_lists@.len(),
            forall|j: int| 0 <= j < r@.len() ==> #[trigger] r@[j] == self.global_lists@[j].name,
    {
        let mut names: Vec<String> = Vec::new();
        let mut i: usize = 0;
        while i < self.global_lists.len()
            invariant
                i <= self.global_lists@.len(),
                names@.len() == i,
                forall|j: int| 0 <= j < i ==> #[trigger] names@[j] == self.global_lists@[j].name,
            decreases self.global_lists@.len() - i,
        {
            names.push(self.global_lists[i].name.clone());
            i = i + 1;
        }
        names
    }

    /// The position of the first list whose trimmed name is the trimmed
    /// `name`.
    pub fn find_list(&self, name: String) -> (r: Result<usize, AppError>)
        ensures
            match r {
                Ok(i) => is_first_match(list_names(self.global_lists@), trimmed(name@), i as int),
                Err(e) => {
                    &&& e.kind == AppErrorKind::Error
                    &&& forall|j: int| 0 <= j < self.global_lists@.len()
                        ==> trimmed(#[trigger] self.global_lists@[j].name@) != trimmed(name@)
                },
            },
    {
        let names = self.names();
        assert(trimmed_all(names@) =~= list_names(self.global_lists@));
        match find_trimmed(&names, name.as_str()) {
            Some(i) => Ok(i),
            None => {
                assert forall|j: int| 0 <= j < self.global_lists@.len()
                    implies trimmed(#[trigger] self.global_lists@[j].name@) != trimmed(name@) by {
                    assert(names@[j] == self.global_lists@[j].name);
                }
                Err(AppError::new(AppErrorKind::Error, "List does NOT exist"))
            },
        }
    }

    /// Adds `todo` to the list at position `list_id` of the lists found,
    /// or to the current list when none is given.
    pub fn add_to_list(&mut self, list_id: Option<usize>, todo: Todo) -> (r: Result<(), AppError>)
        ensures
            match list_id {
                None => {
                    &&& r is Ok
                    &&& final(self).current_list.list@ == old(self).current_list.list@.push(todo)
                    &&& final(self).current_list.name == old(self).current_list.name
                    &&& final(self).current_list.path == old(self).current_list.path
                    &&& final(self).global_lists == old(self).global_lists
                },
                Some(i) => if i < old(self).global_lists@.len() {
                    &&& r is Ok
                    &&& list_replaced(old(self).global_lists@, final(self).global_lists@, i as int,
                        old(self).global_lists@[i as int].list@.push(todo))
                    &&& final(self).current_list == old(self).current_list
                } else {
                    &&& r matches Err(e) && e.kind == AppErrorKind::Error
                    &&& *final(self) == *old(self)
                },
            },
    {
        match list_id {
            None => {
                let _ = self.current_list.add(todo);
                Ok(())
            },
            Some(i) => {
                if i < self.global_lists.len() {
                    let _ = self.global_lists[i].add(todo);
                    Ok(())
                } else {
                    Err(AppError::new(AppErrorKind::Error, "List does NOT exist"))
                }
            },
        }
    }

    /// Removes the todo at position `id` of the list at position `list_id`
    /// of the lists found, or of the current list when none is given.
    pub fn remove_from_list(&mut self, list_id: Option<usize>, id: usize) -> (r: Result<(), AppError>)
        ensures
            match list_id {
                None => {
                    &&& final(self).global_lists == old(self).global_lists
                    &&& if id < old(self).current_list.list@.len() {
                        &&& r is Ok
                        &&& final(self).current_list.list@ == old(self).current_list.list@.remove(id as int)
                        &&& final(self).current_list.name == old(self).current_list.name
                        &&& final(self).current_list.path == old(self).current_list.path
                    } else {
                        &&& r matches Err(e) && e.kind == AppErrorKind::List(TodoErrors::OutOfBounds)
                        &&& final(self).current_list.same_as(old(self).current_list)
                    }
                },
                Some(i) => if i < old(self).global_lists@.len() {
                    &&& final(self).current_list == old(self).current_list
                    &&& if id < old(self).global_lists@[i as int].list@.len() {
                        &&& r is Ok
                        &&& list_replaced(old(self).global_lists@, final(self).global_lists@, i as int,
                            old(self).global_lists@[i as int].list@.remove(id as int))
                    } else {
                        &&& r matches Err(e) && e.kind == AppErrorKind::List(TodoErrors::OutOfBounds)
                        &&& list_replaced(old(self).global_lists@, final(self).global_lists@, i as int,
                            old(self).global_lists@[i as int].list@)
                    }
                } else {
                    &&& r matches Err(e) && e.kind == AppErrorKind::Error
                    &&& *final(self) == *old(self)
                },
            },
    {
        let outcome = match list_id {
            None => self.current_list.remove(id),
            Some(i) => {
                if i < self.global_lists.len() {
                    self.global_lists[i].remove(id)
                } else {
                    return Err(AppError::new(AppErrorKind::Error, "List does NOT exist"));
                }
            },
        };
        match outcome {
            Ok(()) => Ok(()),
            Err(e) => Err(AppError::new(AppErrorKind::List(e), "no todo at that position")),
        }
    }

    /// Marks completed, at the local time now, the todo at position
    /// `todo_id` of the list at position `list_id` of the lists found.
    pub fn complete_list_task(&mut self, list_id: usize, todo_id: usize) -> (r: Result<(), AppError>)
        ensures
            if list_id < old(self).global_lists@.len() {
                &&& final(self).current_list == old(self).current_list
                &&& if todo_id < old(self).global_lists@[list_id as int].list@.len() {
                    &&& r is Ok
                    &&& exists|at: Stamp| at.wf() && list_replaced(old(self).global_lists@,
                        final(self).global_lists@, list_id as int,
                        with_completed(old(self).global_lists@[list_id as int].list@, todo_id as int, at))
                } else {
                    &&& r matches Err(e) && e.kind == AppErrorKind::List(TodoErrors::OutOfBounds)
                    &&& list_replaced(old(self).global_lists@, final(self).global_lists@, list_id as int,
                        old(self).global_lists@[list_id as int].list@)
                }
            } else {
                &&& r matches Err(e) && e.kind == AppErrorKind::Error
                &&& *final(self) == *old(self)
            },
    {
        if list_id < self.global_lists.len() {
            match self.global_lists[list_id].complete(todo_id) {
                Ok(()) => Ok(()),
                Err(e) => Err(AppError::new(AppErrorKind::List(e), "no todo at that position")),
            }
        } else {
            Err(AppError::new(AppErrorKind::Error, "List does NOT exist"))
        }
    }

    /// Makes current the list at position `id` of the lists found or, when
    /// no position is given, the first list named `name`.
    pub fn update_current(&mut self, name: String, id: Option<usize>) -> (r: Result<(), AppError>)
        ensures
            final(self).global_lists == old(self).global_lists,
            match id {
                Some(i) => if i < old(self).global_lists@.len() {
                    r is Ok && final(self).current_list.same_as(old(self).global_lists@[i as int])
                } else {
                    r matches Err(e) && e.kind == AppErrorKind::Error
                },
                None => if exists|k: int| is_first_match(list_names(old(self).global_lists@), trimmed(name@), k) {
                    r is Ok && exists|k: int| is_first_match(list_names(old(self).global_lists@), trimmed(name@), k)
                        && final(self).current_list.same_as(old(self).global_lists@[k])
                } else {
                    r matches Err(e) && e.kind == AppErrorKind::Error
                },
            },
            r is Err ==> final(self).current_list == old(self).current_list,
    {
        let found = match id {
            Some(i) => {
                if i < self.global_lists.len() {
                    i
                } else {
                    return Err(AppError::new(AppErrorKind::Error, "List does NOT exist"));
                }
            },
            None => match self.find_list(name) {
                Ok(i) => i,
                Err(e) => {
                    return Err(e);
                },
            },
        };
        self.current_list = self.global_lists[found].clone();
        Ok(())
    }
}

} // verus!
