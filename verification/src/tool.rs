use vstd::prelude::*;
use serde_json::Value;

use crate::text::str_eq;

verus! {

/// The tools an agent may call, by name. `T` is the tool type; a name is
/// registered at most once.
pub struct ToolRegistry<T> {
    tools: Vec<(String, T)>,
}

/// The names of registered entries, in registration order.
pub open spec fn entry_names<T>(tools: Seq<(String, T)>) -> Seq<Seq<char>> {
    tools.map_values(|p: (String, T)| p.0@)
}

spec fn entry_index<T>(tools: Seq<(String, T)>, name: Seq<char>) -> int {
    choose|i: int| 0 <= i < tools.len() && tools[i].0@ == name
}

/// Registered entries as a map from name to tool.
pub closed spec fn entries_map<T>(tools: Seq<(String, T)>) -> Map<Seq<char>, T> {
    Map::new(
        |name: Seq<char>| entry_names(tools).contains(name),
        |name: Seq<char>| tools[entry_index(tools, name)].1,
    )
}

proof fn lemma_entries_map_at<T>(tools: Seq<(String, T)>, i: int)
    requires
        entry_names(tools).no_duplicates(),
        0 <= i < tools.len(),
    ensures
        entries_map(tools).dom().contains(tools[i].0@),
        entries_map(tools)[tools[i].0@] == tools[i].1,
{
    let name = tools[i].0@;
    assert(entry_names(tools)[i] == name);
    let j = entry_index(tools, name);
    assert(0 <= j < tools.len() && tools[j].0@ == name);
    assert(entry_names(tools)[j] == name);
}

proof fn lemma_entries_dom<T>(tools: Seq<(String, T)>)
    ensures
        entries_map(tools).dom() == entry_names(tools).to_set(),
{
    assert(entries_map(tools).dom() =~= entry_names(tools).to_set());
}

proof fn lemma_insert_fresh<T>(old_tools: Seq<(String, T)>, entry: (String, T))
    requires
        entry_names(old_tools).no_duplicates(),
        !entry_names(old_tools).contains(entry.0@),
    ensures
        entry_names(old_tools.push(entry)).no_duplicates(),
        entries_map(old_tools.push(entry)) == entries_map(old_tools).insert(entry.0@, entry.1),
{
    let new_tools = old_tools.push(entry);
    let key = entry.0@;
    assert(entry_names(new_tools) =~= entry_names(old_tools).push(key));
    assert(entry_names(new_tools).no_duplicates()) by {
        assert forall|a: int, b: int| 0 <= a < new_tools.len() && 0 <= b < new_tools.len() && a != b
            implies entry_names(new_tools)[a] != entry_names(new_tools)[b] by {
            if a == old_tools.len() {
                assert(entry_names(old_tools)[b] == entry_names(new_tools)[b]);
            } else if b == old_tools.len() {
                assert(entry_names(old_tools)[a] == entry_names(new_tools)[a]);
            }
        }
    }
    let expected = entries_map(old_tools).insert(key, entry.1);
    assert forall|k: Seq<char>| entries_map(new_tools).dom().contains(k) <==> #[trigger] expected.dom().contains(k) by {
        if entries_map(new_tools).dom().contains(k) {
            let j = choose|j: int| 0 <= j < entry_names(new_tools).len() && entry_names(new_tools)[j] == k;
            if j < old_tools.len() {
                assert(entry_names(old_tools)[j] == k);
            }
        }
        if expected.dom().contains(k) && k != key {
            let j = choose|j: int| 0 <= j < entry_names(old_tools).len() && entry_names(old_tools)[j] == k;
            assert(entry_names(new_tools)[j] == k);
        }
        if k == key {
            assert(entry_names(new_tools)[old_tools.len() as int] == k);
        }
    }
    assert forall|k: Seq<char>| #[trigger] entries_map(new_tools).dom().contains(k)
        implies entries_map(new_tools)[k] == expected[k] by {
        let j = choose|j: int| 0 <= j < entry_names(new_tools).len() && entry_names(new_tools)[j] == k;
        lemma_entries_map_at(new_tools, j);
        if j < old_tools.len() {
            assert(new_tools[j] == old_tools[j]);
            lemma_entries_map_at(old_tools, j);
        }
    }
    assert(entries_map(new_tools) =~= expected);
}

proof fn lemma_replace_entry<T>(old_tools: Seq<(String, T)>, i: int, entry: (String, T))
    requires
        entry_names(old_tools).no_duplicates(),
        0 <= i < old_tools.len(),
        old_tools[i].0@ == entry.0@,
    ensures
        entry_names(old_tools.update(i, entry)) == entry_names(old_tools),
        entries_map(old_tools.update(i, entry)) == entries_map(old_tools).insert(entry.0@, entry.1),
{
    let new_tools = old_tools.update(i, entry);
    let key = entry.0@;
    assert(entry_names(new_tools) =~= entry_names(old_tools));
    lemma_entries_map_at(old_tools, i);
    let expected = entries_map(old_tools).insert(key, entry.1);
    assert forall|k: Seq<char>| entries_map(new_tools).dom().contains(k) <==> #[trigger] expected.dom().contains(k) by {}
    assert forall|k: Seq<char>| #[trigger] entries_map(new_tools).dom().contains(k)
        implies entries_map(new_tools)[k] == expected[k] by {
        let j = choose|j: int| 0 <= j < entry_names(new_tools).len() && entry_names(new_tools)[j] == k;
        lemma_entries_map_at(new_tools, j);
        if j != i {
            assert(new_tools[j] == old_tools[j]);
            assert(entry_names(old_tools)[j] != entry_names(old_tools)[i]);
            lemma_entries_map_at(old_tools, j);
        }
    }
    assert(entries_map(new_tools) =~= expected);
}

impl<T> ToolRegistry<T> {
    /// The registered names, in registration order.
    pub closed spec fn names(&self) -> Seq<Seq<char>> {
        entry_names(self.tools@)
    }

    #[verifier::type_invariant]
    closed spec fn names_distinct(&self) -> bool {
        entry_names(self.tools@).no_duplicates()
    }

    /// The registry as a map from name to tool.
    pub closed spec fn view(&self) -> Map<Seq<char>, T> {
        entries_map(self.tools@)
    }

    /// An empty registry.
    pub fn new() -> (r: Self)
        ensures
            r.view() == Map::<Seq<char>, T>::empty(),
            r.view().dom().finite(),
    {
        let r = ToolRegistry { tools: Vec::new() };
        assert(r.view() =~= Map::<Seq<char>, T>::empty());
        r
    }

    fn find(&self, name: &str) -> (r: Option<usize>)
        ensures
            (match r {
                Some(i) => i < self.tools@.len() && self.tools@[i as int].0@ == name@,
                None => !self.names().contains(name@),
            }),
    {
        let mut i: usize = 0;
        while i < self.tools.len()
            invariant
                i <= self.tools@.len(),
                forall|j: int| 0 <= j < i ==> self.tools@[j].0@ != name@,
            decreases self.tools@.len() - i,
        {
            if str_eq(self.tools[i].0.as_str(), name) {
                return Some(i);
            }
            i += 1;
        }
        assert forall|j: int| 0 <= j < self.names().len() implies self.names()[j] != name@ by {
            assert(self.names()[j] == self.tools@[j].0@);
        }
        None
    }

    /// Registers `tool` under `name`; a tool already registered under that
    /// name is replaced. Returns the registry, for chaining.
    pub fn register(&mut self, name: String, tool: T) -> (r: &mut Self)
        ensures
            r@ == old(self)@.insert(name@, tool),
            r@.dom().finite(),
            *final(self) == *final(r),
    {
        proof { use_type_invariant(&*self); }
        let ghost old_tools = self.tools@;
        let ghost key = name@;
        match self.find(name.as_str()) {
            Some(i) => {
                let mut tools = Vec::new();
                std::mem::swap(&mut tools, &mut self.tools);
                proof { lemma_replace_entry(old_tools, i as int, (name, tool)); }
                tools.set(i, (name, tool));
                self.tools = tools;
            }
            None => {
                let mut tools = Vec::new();
                std::mem::swap(&mut tools, &mut self.tools);
                proof { lemma_insert_fresh(old_tools, (name, tool)); }
                tools.push((name, tool));
                self.tools = tools;
            }
        }
        proof {
            lemma_entries_dom(self.tools@);
            vstd::seq_lib::seq_to_set_is_finite(entry_names(self.tools@));
        }
        self
    }

    /// The tool registered under `name`, if any.
    pub fn get(&self, name: &str) -> (r: Option<&T>)
        ensures
            (match r {
                Some(t) => self@.dom().contains(name@) && *t == self@[name@],
                None => !self@.dom().contains(name@),
            }),
    {
        proof { use_type_invariant(self); }
        match self.find(name) {
            Some(i) => {
                proof { lemma_entries_map_at(self.tools@, i as int); }
                Some(&self.tools[i].1)
            }
            None => None,
        }
    }

    /// The number of registered tools.
    pub fn len(&self) -> (n: usize)
        ensures
            n == self@.dom().len(),
    {
        proof {
            use_type_invariant(self);
            lemma_entries_dom(self.tools@);
            entry_names(self.tools@).unique_seq_to_set();
        }
        self.tools.len()
    }

    /// Whether no tool is registered.
    pub fn is_empty(&self) -> (b: bool)
        ensures
            b == (self@.dom().len() == 0),
    {
        self.len() == 0
    }
}

impl<T: Clone> ToolRegistry<T> {
    /// Copies of the registered tools, in registration order: the `i`-th is a
    /// copy of the tool registered under the `i`-th name.
    pub fn tools(&self) -> (v: Vec<T>)
        ensures
            v@.len() == self.names().len(),
            self.names().len() == self@.dom().len(),
            self.names().to_set() == self@.dom(),
            forall|i: int| 0 <= i < v@.len() ==> cloned(self@[self.names()[i]], #[trigger] v@[i]),
    {
        proof {
            use_type_invariant(self);
            lemma_entries_dom(self.tools@);
            entry_names(self.tools@).unique_seq_to_set();
        }
        let mut v: Vec<T> = Vec::new();
        for i in 0..self.tools.len()
            invariant
                entry_names(self.tools@).no_duplicates(),
                v@.len() == i,
                forall|k: int| 0 <= k < i ==> cloned(self.tools@[k].1, #[trigger] v@[k]),
        {
            let t = self.tools[i].1.clone();
            v.push(t);
        }
        assert forall|i: int| 0 <= i < v@.len() implies cloned(self@[self.names()[i]], #[trigger] v@[i]) by {
            lemma_entries_map_at(self.tools@, i);
        }
        v
    }
}

/// The name under which the structured final answer is requested.
pub fn final_answer_tool_name() -> (s: &'static str)
    ensures
        s@ == final_answer_name(),
{
    "final_answer"
}

/// The name of the final-answer tool.
pub open spec fn final_answer_name() -> Seq<char> {
    "final_answer"@
}

/// The tool through which the model hands over its structured final answer:
/// its parameters are the schema of that answer.
pub struct FinalAnswerTool {
    pub schema: Value,
}

impl FinalAnswerTool {
    /// The final-answer tool for answers of `schema`.
    pub fn new(schema: Value) -> (t: Self)
        ensures
            t.schema == schema,
    {
        FinalAnswerTool { schema }
    }
}

/// Registering a tool makes it the one found under its name, leaves every
/// other name as it was, and adds one to the number of tools exactly when the
/// name was not yet taken.
pub proof fn lemma_register_then_get<T>(before: Map<Seq<char>, T>, name: Seq<char>, tool: T, other: Seq<char>)
    requires
        before.dom().finite(),
    ensures
        before.insert(name, tool).dom().contains(name),
        before.insert(name, tool)[name] == tool,
        other != name ==> before.insert(name, tool).dom().contains(other) == before.dom().contains(other),
        other != name && before.dom().contains(other) ==> before.insert(name, tool)[other] == before[other],
        before.dom().contains(name) ==> before.insert(name, tool).dom().len() == before.dom().len(),
        !before.dom().contains(name) ==> before.insert(name, tool).dom().len() == before.dom().len() + 1,
{
    assert(before.insert(name, tool).dom() =~= before.dom().insert(name));
}

} // verus!
