//! The single mutable state container: current mode, search text, the full
//! and filtered method lists with their selection cursor, the parameter
//! fields being edited, and the request/response history with its cursor.

use vstd::prelude::*;

use crate::AppMode;
use crate::rpc::HistoryEntry;
use crate::search::{filter_names, filter_spec};

verus! {

/// Application state shared across the client.
pub struct App {
    /// Current interaction mode.
    pub mode: AppMode,
    /// Set by a quit event; checked by the event loop outside the core.
    pub should_quit: bool,
    /// Current search string for filtering methods.
    pub search_input: String,
    /// Full list of available JSON-RPC method names.
    pub all_methods: Vec<String>,
    /// The names of `all_methods` matching `search_input`, in order.
    pub filtered_methods: Vec<String>,
    /// Selection cursor into `filtered_methods`.
    pub methods_selected: usize,
    /// Parameter field values for the selected method.
    pub param_inputs: Vec<String>,
    /// Completed exchanges, in arrival order.
    pub history: Vec<HistoryEntry>,
    /// Selection cursor into `history`.
    pub history_selected: usize,
    /// Identifier for the next request; each confirmed send uses it up.
    pub next_id: u64,
}

impl App {
    /// Both selection cursors stay inside their lists — a cursor is either
    /// a valid index or rests at 0 over an empty list — and the filtered
    /// list never outgrows the full list it was drawn from.
    pub open spec fn wf(self) -> bool {
        &&& self.methods_selected == 0 || self.methods_selected < self.filtered_methods@.len()
        &&& self.history_selected == 0 || self.history_selected < self.history@.len()
        &&& self.filtered_methods@.len() <= self.all_methods@.len()
    }

    /// Constructs the startup state: `Main` mode, empty search, the full
    /// catalog of method names with nothing filtered out, both cursors at
    /// the start, no parameters and no history.
    pub fn new() -> (r: App)
        ensures
            r.wf(),
            r.mode == AppMode::Main,
            !r.should_quit,
            r.search_input@ == Seq::<char>::empty(),
            r.all_methods@.len() == 4,
            r.all_methods@[0]@ == "eth_blockNumber"@,
            r.all_methods@[1]@ == "eth_getBalance"@,
            r.all_methods@[2]@ == "eth_gasPrice"@,
            r.all_methods@[3]@ == "eth_call"@,
            r.filtered_methods@ == r.all_methods@,
            r.methods_selected == 0,
            r.param_inputs@.len() == 0,
            r.history@.len() == 0,
            r.history_selected == 0,
            r.next_id == 1,
    {
        let mut all_methods: Vec<String> = Vec::new();
        all_methods.push("eth_blockNumber".to_owned());
        all_methods.push("eth_getBalance".to_owned());
        all_methods.push("eth_gasPrice".to_owned());
        all_methods.push("eth_call".to_owned());
        let filtered_methods = clone_names(&all_methods);
        App {
            mode: AppMode::Main,
            should_quit: false,
            search_input: String::new(),
            all_methods,
            filtered_methods,
            methods_selected: 0,
            param_inputs: Vec::new(),
            history: Vec::new(),
            history_selected: 0,
            next_id: 1,
        }
    }

    /// Recomputes `filtered_methods` from `all_methods` and the current
    /// `search_input`, and resets the methods cursor to the start. This is
    /// the only derivation rule: the filtered list is never cached apart
    /// from this function's output.
    pub fn filter_methods(&mut self)
        requires
            old(self).wf(),
        ensures
            final(self).wf(),
            final(self).filtered_methods@ == filter_spec(
                old(self).all_methods@,
                old(self).search_input@,
            ),
            final(self).methods_selected == 0,
            final(self).mode == old(self).mode,
            final(self).should_quit == old(self).should_quit,
            final(self).search_input == old(self).search_input,
            final(self).all_methods == old(self).all_methods,
            final(self).param_inputs == old(self).param_inputs,
            final(self).history == old(self).history,
            final(self).history_selected == old(self).history_selected,
            final(self).next_id == old(self).next_id,
    {
        self.filtered_methods = filter_names(&self.all_methods, &self.search_input);
        self.methods_selected = 0;
        proof {
            crate::search::lemma_filter_len(self.all_methods@, self.search_input@);
        }
    }
}

/// Holds when `r` is the position of the first name in `ms` equal to
/// `name`, or `None` when no name is.
pub open spec fn is_first_name_match(ms: Seq<String>, name: Seq<char>, r: Option<usize>) -> bool {
    match r {
        Some(i) => {
            &&& (i as int) < ms.len()
            &&& ms[i as int]@ == name
            &&& forall|j: int| 0 <= j < i ==> ms[j]@ != name
        },
        None => forall|j: int| 0 <= j < ms.len() ==> ms[j]@ != name,
    }
}

/// `name` occurs somewhere in `ms`.
pub open spec fn name_found(ms: Seq<String>, name: Seq<char>) -> bool {
    exists|j: int| 0 <= j < ms.len() && ms[j]@ == name
}

/// Finds the position of the first name in `ms` equal to `name`.
pub fn find_name(ms: &Vec<String>, name: &String) -> (r: Option<usize>)
    ensures
        is_first_name_match(ms@, name@, r),
        r is Some <==> name_found(ms@, name@),
{
    let mut i: usize = 0;
    while i < ms.len()
        invariant
            i <= ms@.len(),
            forall|j: int| 0 <= j < i ==> ms@[j]@ != name@,
        decreases ms@.len() - i,
    {
        if ms[i] == *name {
            return Some(i);
        }
        i = i + 1;
    }
    None
}

/// Copies a list of names; the copy holds the same values.
pub(crate) fn clone_names(v: &Vec<String>) -> (r: Vec<String>)
    ensures
        r@ == v@,
{
    let mut r: Vec<String> = Vec::new();
    let mut i: usize = 0;
    while i < v.len()
        invariant
            i <= v@.len(),
            r@ == v@.take(i as int),
        decreases v@.len() - i,
    {
        r.push(v[i].clone());
        proof {
            assert(v@.take(i as int).push(v@[i as int]) =~= v@.take(i as int + 1));
        }
        i = i + 1;
    }
    proof {
        assert(v@.take(v@.len() as int) =~= v@);
    }
    r
}

} // verus!
