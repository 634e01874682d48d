//! Workspaces: named units of code and tasks, one of which is current.

use vstd::prelude::*;
use vstd::string::StringExecFns;
use crate::agent::{Task, TaskView, clone_tasks, task_views};

verus! {

/// A named unit of work: the code and the tasks that belong together.
#[derive(Debug)]
pub struct Workspace {
    pub name: String,
    pub code: String,
    pub tasks: Vec<Task>,
}

/// Model of a [`Workspace`].
pub struct WorkspaceView {
    pub name: Seq<char>,
    pub code: Seq<char>,
    pub tasks: Seq<TaskView>,
}

impl View for Workspace {
    type V = WorkspaceView;

    open spec fn view(&self) -> WorkspaceView {
        WorkspaceView { name: self.name@, code: self.code@, tasks: task_views(self.tasks@) }
    }
}

impl WorkspaceView {
    /// The model of a workspace that was just created.
    pub open spec fn untitled() -> WorkspaceView {
        WorkspaceView { name: "Untitled"@, code: Seq::empty(), tasks: Seq::empty() }
    }
}

impl Default for Workspace {
    fn default() -> (workspace: Workspace)
        ensures
            workspace@ == WorkspaceView::untitled(),
    {
        let workspace = Workspace {
            name: String::from_str("Untitled"),
            code: String::new(),
            tasks: Vec::new(),
        };
        assert(task_views(workspace.tasks@) =~= Seq::empty());
        workspace
    }
}

impl Clone for Workspace {
    fn clone(&self) -> (r: Self)
        ensures
            r@ == self@,
    {
        Workspace {
            name: self.name.clone(),
            code: self.code.clone(),
            tasks: clone_tasks(&self.tasks),
        }
    }
}

/// Whether a workspace named `name` stands at index `i` of `entries`.
pub open spec fn named_at(entries: Seq<Workspace>, name: Seq<char>, i: int) -> bool {
    0 <= i < entries.len() && entries[i].name@ == name
}

/// Whether no two workspaces of `entries` have the same name.
pub open spec fn distinct_names(entries: Seq<Workspace>) -> bool {
    forall|i: int, j: int|
        0 <= i < j < entries.len() ==> (#[trigger] entries[i]).name@ != (#[trigger] entries[j]).name@
}

/// The workspaces of a list, each under its name.
spec fn kept(entries: Seq<Workspace>) -> Map<Seq<char>, WorkspaceView> {
    Map::new(
        |name: Seq<char>| exists|i: int| named_at(entries, name, i),
        |name: Seq<char>| entries[choose|i: int| named_at(entries, name, i)]@,
    )
}

/// The workspaces that are kept, each under its name.
pub struct WorkspaceStore {
    entries: Vec<Workspace>,
}

impl View for WorkspaceStore {
    type V = Map<Seq<char>, WorkspaceView>;

    closed spec fn view(&self) -> Map<Seq<char>, WorkspaceView> {
        kept(self.entries@)
    }
}

impl WorkspaceStore {
    /// No two workspaces of a store have the same name.
    #[verifier::type_invariant]
    spec fn names_are_distinct(self) -> bool {
        distinct_names(self.entries@)
    }

    /// A store without workspaces.
    pub fn new() -> (store: WorkspaceStore)
        ensures
            store@ == Map::<Seq<char>, WorkspaceView>::empty(),
    {
        let store = WorkspaceStore { entries: Vec::new() };
        store
    }

    /// The index of the workspace with the given name.
    fn position(&self, name: &String) -> (found: Option<usize>)
        ensures
            match found {
                Some(i) => named_at(self.entries@, name@, i as int),
                None => forall|i: int| !named_at(self.entries@, name@, i),
            },
    {
        let mut i: usize = 0;
        while i < self.entries.len()
            invariant
                i <= self.entries.len(),
                forall|j: int| 0 <= j < i ==> !named_at(self.entries@, name@, j),
            decreases self.entries.len() - i,
        {
            if self.entries[i].name == *name {
                return Some(i);
            }
            i += 1;
        }
        None
    }

    /// Whether a workspace is kept under the given name.
    pub fn contains(&self, name: &String) -> (found: bool)
        ensures
            found == self@.contains_key(name@),
    {
        self.position(name).is_some()
    }

    /// The workspace kept under the given name.
    pub fn get(&self, name: &String) -> (found: Option<&Workspace>)
        ensures
            match found {
                Some(workspace) => self@.contains_key(name@) && self@[name@] == workspace@,
                None => !self@.contains_key(name@),
            },
    {
        match self.position(name) {
            Some(i) => {
                proof {
                    use_type_invariant(self);
                    lemma_entries_view(self.entries@);
                }
                Some(&self.entries[i])
            },
            None => None,
        }
    }

    /// Keeps a workspace under its name, in place of the one that was
    /// kept under that name if there was one.
    pub fn insert(&mut self, workspace: Workspace)
        ensures
            final(self)@ == old(self)@.insert(workspace.name@, workspace@),
    {
        proof {
            use_type_invariant(&*self);
        }
        let found = self.position(&workspace.name);
        let mut holder = WorkspaceStore { entries: Vec::new() };
        core::mem::swap(self, &mut holder);
        let mut entries = holder.entries;
        let ghost before = entries@;
        match found {
            Some(i) => {
                entries.set(i, workspace);
                proof {
                    lemma_replaced(before, i as int, workspace);
                }
            },
            None => {
                entries.push(workspace);
                proof {
                    lemma_added(before, workspace);
                }
            },
        }
        *self = WorkspaceStore { entries };
    }

    /// Drops the workspace kept under the given name, if there is one.
    pub fn remove(&mut self, name: &String)
        ensures
            final(self)@ == old(self)@.remove(name@),
    {
        proof {
            use_type_invariant(&*self);
        }
        match self.position(name) {
            Some(i) => {
                let mut holder = WorkspaceStore { entries: Vec::new() };
                core::mem::swap(self, &mut holder);
                let mut entries = holder.entries;
                let ghost before = entries@;
                entries.remove(i);
                proof {
                    lemma_removed(before, i as int);
                }
                *self = WorkspaceStore { entries };
            },
            None => {
            },
        }
    }
}

/// Putting a workspace in the place of one with the same name keeps the
/// names distinct and changes what is kept under that name only.
proof fn lemma_replaced(before: Seq<Workspace>, place: int, workspace: Workspace)
    requires
        distinct_names(before),
        named_at(before, workspace.name@, place),
    ensures
        distinct_names(before.update(place, workspace)),
        kept(before.update(place, workspace)) == kept(before).insert(
            workspace.name@,
            workspace@,
        ),
{
    let after = before.update(place, workspace);
    let name = workspace.name@;
    lemma_entries_view(before);
    lemma_entries_view(after);
    assert forall|n: Seq<char>| #[trigger]
        kept(after).contains_key(n) == kept(before).insert(name, workspace@).contains_key(n) by {
        if exists|i: int| named_at(after, n, i) {
            let i = choose|i: int| named_at(after, n, i);
            assert(named_at(before, n, i));
        }
        if exists|i: int| named_at(before, n, i) {
            let i = choose|i: int| named_at(before, n, i);
            assert(named_at(after, n, i));
        }
    }
}

/// Adding a workspace under a name that is not taken keeps the names
/// distinct and adds what is kept under that name only.
proof fn lemma_added(before: Seq<Workspace>, workspace: Workspace)
    requires
        distinct_names(before),
        forall|i: int| !named_at(before, workspace.name@, i),
    ensures
        distinct_names(before.push(workspace)),
        kept(before.push(workspace)) == kept(before).insert(workspace.name@, workspace@),
{
    let after = before.push(workspace);
    let name = workspace.name@;
    let place = before.len() as int;
    assert forall|x: int, y: int| 0 <= x < y < after.len() implies (#[trigger] after[x]).name@ != (
    #[trigger] after[y]).name@ by {
        if y == place {
            assert(!named_at(before, name, x));
        }
    }
    lemma_entries_view(before);
    lemma_entries_view(after);
    assert forall|n: Seq<char>| #[trigger]
        kept(after).contains_key(n) == kept(before).insert(name, workspace@).contains_key(n) by {
        if n == name {
            assert(named_at(after, n, place));
        } else {
            if exists|i: int| named_at(after, n, i) {
                let i = choose|i: int| named_at(after, n, i);
                assert(named_at(before, n, i));
            }
            if exists|i: int| named_at(before, n, i) {
                let i = choose|i: int| named_at(before, n, i);
                assert(named_at(after, n, i));
            }
        }
    }
}

/// Taking a workspace out of a list keeps the names distinct and drops
/// what was kept under its name only.
proof fn lemma_removed(before: Seq<Workspace>, place: int)
    requires
        distinct_names(before),
        0 <= place < before.len(),
    ensures
        distinct_names(before.remove(place)),
        kept(before.remove(place)) == kept(before).remove(before[place].name@),
{
    let after = before.remove(place);
    let name = before[place].name@;
    lemma_entries_view(before);
    lemma_entries_view(after);
    assert forall|n: Seq<char>| #[trigger]
        kept(after).contains_key(n) == kept(before).remove(name).contains_key(n) by {
        if exists|k: int| named_at(after, n, k) {
            let k = choose|k: int| named_at(after, n, k);
            let k0 = if k < place { k } else { k + 1 };
            assert(named_at(before, n, k0));
            if n == name {
                if k0 < place {
                    assert(before[k0].name@ != before[place].name@);
                } else {
                    assert(before[place].name@ != before[k0].name@);
                }
            }
        }
        if n != name && exists|k: int| named_at(before, n, k) {
            let k = choose|k: int| named_at(before, n, k);
            let k1 = if k < place { k } else { k - 1 };
            assert(named_at(after, n, k1));
        }
    }
}

/// In a list with distinct names, the workspace found under a name is the
/// one that stands at any index with that name.
proof fn lemma_entries_view(entries: Seq<Workspace>)
    requires
        distinct_names(entries),
    ensures
        forall|n: Seq<char>, i: int| #[trigger]
            named_at(entries, n, i) ==> (choose|c: int| named_at(entries, n, c)) == i,
{
}

} // verus!
