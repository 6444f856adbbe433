//! The named module registry.
//!
//! A module binds a name to an initialization function that a control
//! connection later invokes with the command-line words it received.
//! Registrations happen at program start; in the running system one
//! process-wide registry sits behind a readers/writer lock.

use vstd::prelude::*;

use crate::channel::{cb_contains, cb_find, cb_names_unique, cb_remove};
use crate::channel::{lemma_cb_find_at, lemma_cb_find_contains, lemma_cb_remove_erases};

verus! {

/// A named module: its name and the function run to start it.
pub struct Module<F> {
    pub name: String,
    pub init_func: F,
}

/// The module registry: names bound to modules, names unique, every
/// module stored under its own name.
pub struct ModuleList<F> {
    pub data: Vec<(String, Module<F>)>,
}

impl<F> ModuleList<F> {
    /// The registry invariant: unique names, each module keyed by the
    /// name it carries.
    pub open spec fn wf(&self) -> bool {
        &&& cb_names_unique(self.data@)
        &&& forall|i: int|
            0 <= i < self.data@.len() ==> (#[trigger] self.data@[i].1).name@ == self.data@[i].0@
    }

    /// An empty registry.
    pub fn new() -> (r: Self)
        ensures
            r.wf(),
            r.data@.len() == 0,
    {
        ModuleList { data: Vec::new() }
    }

    /// Find the index of the module named `name`, or the number of
    /// registered modules when no such binding exists.
    fn find_module(&self, name: &str) -> (r: usize)
        ensures
            r == cb_find(self.data@, name@),
    {
        let key: String = name.to_owned();
        let mut i: usize = 0;
        while i < self.data.len()
            invariant
                0 <= i <= self.data@.len(),
                key@ == name@,
                forall|k: int| 0 <= k < i ==> #[trigger] self.data@[k].0@ != name@,
            ensures
                0 <= i <= self.data@.len(),
                forall|k: int| 0 <= k < i ==> #[trigger] self.data@[k].0@ != name@,
                i < self.data@.len() ==> self.data@[i as int].0@ == name@,
            decreases self.data@.len() - i,
        {
            if self.data[i].0 == key {
                break;
            }
            i += 1;
        }
        proof {
            lemma_cb_find_at(self.data@, name@, i as int);
        }
        i
    }

    /// Whether a module is registered under `name`.
    pub fn contains(&self, name: &str) -> (r: bool)
        ensures
            r == cb_contains(self.data@, name@),
    {
        let i = self.find_module(name);
        i < self.data.len()
    }

    /// How many modules are registered.
    pub fn len(&self) -> (r: usize)
        ensures
            r == self.data@.len(),
    {
        self.data.len()
    }
}

impl<F> Module<F> {
    /// Register `func` as the module `name`, replacing any module
    /// already bound to that name.
    pub fn register(list: &mut ModuleList<F>, name: &str, func: F)
        requires
            old(list).wf(),
        ensures
            final(list).wf(),
            final(list).data@.len() == cb_remove(old(list).data@, name@).len() + 1,
            final(list).data@.drop_last() == cb_remove(old(list).data@, name@),
            final(list).data@.last().0@ == name@,
            final(list).data@.last().1.name@ == name@,
            final(list).data@.last().1.init_func == func,
            cb_contains(final(list).data@, name@),
    {
        let i = list.find_module(name);
        if i < list.data.len() {
            list.data.remove(i);
        }
        proof {
            lemma_cb_remove_erases(old(list).data@, name@);
        }
        let ghost removed = list.data@;
        let key: String = name.to_owned();
        let module = Module { name: name.to_owned(), init_func: func };
        list.data.push((key, module));
        proof {
            assert(list.data@.drop_last() =~= removed);
            assert forall|p: int, q: int| 0 <= p < q < list.data@.len() implies #[trigger] list.data@[p].0@
                != #[trigger] list.data@[q].0@ by {
                if q == list.data@.len() - 1 {
                    assert(removed[p].0@ != name@);
                }
            }
            assert(list.data@[list.data@.len() - 1].0@ == name@);
            lemma_cb_find_contains(list.data@, name@);
        }
    }

    /// The module registered under `name`. Looking up a name nothing was
    /// registered under is a caller error: the running system treats it
    /// as fatal.
    pub fn get_module<'a>(list: &'a ModuleList<F>, name: &str) -> (r: &'a Module<F>)
        requires
            list.wf(),
            cb_contains(list.data@, name@),
        ensures
            *r == list.data@[cb_find(list.data@, name@)].1,
            r.name@ == name@,
    {
        let i = list.find_module(name);
        proof {
            crate::channel::lemma_cb_find_range(list.data@, name@);
        }
        &list.data[i].1
    }

}

impl<F: Fn(u32, Vec<String>)> Module<F> {
    /// Run the module's initialization function on the given argument
    /// count and words.
    pub fn execute(&self, argc: u32, argv: Vec<String>)
        requires
            call_requires(self.init_func, (argc, argv)),
        ensures
            call_ensures(self.init_func, (argc, argv), ()),
    {
        (self.init_func)(argc, argv)
    }
}

} // verus!
