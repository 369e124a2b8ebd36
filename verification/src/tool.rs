//! The tool registry: the set of callable tools, dispatched by name.
//! Registration keeps source order; registering a name twice keeps the
//! first position and the last definition — no duplicate-detection error.

use vstd::prelude::*;

verus! {

/// A named, independently invocable capability the model may request:
/// its catalogue entry (name, description, parameter schema as JSON
/// text) and the peer that executes it.
pub struct Tool {
    pub name: String,
    pub description: String,
    pub parameters: String,
    pub server: String,
}

impl View for Tool {
    type V = (Seq<char>, Seq<char>, Seq<char>, Seq<char>);

    open spec fn view(&self) -> (Seq<char>, Seq<char>, Seq<char>, Seq<char>) {
        (self.name@, self.description@, self.parameters@, self.server@)
    }
}

impl Clone for Tool {
    fn clone(&self) -> (res: Self)
        ensures
            res@ == self@,
    {
        Tool {
            name: self.name.clone(),
            description: self.description.clone(),
            parameters: self.parameters.clone(),
            server: self.server.clone(),
        }
    }
}

/// A run of tools, each under its view.
pub open spec fn tools_view(s: Seq<Tool>) -> Seq<(Seq<char>, Seq<char>, Seq<char>, Seq<char>)> {
    s.map_values(|t: Tool| t@)
}

/// Whether some tool in the run carries this name.
pub open spec fn has_tool(s: Seq<Tool>, name: Seq<char>) -> bool {
    exists|i: int| 0 <= i < s.len() && s[i].name@ == name
}

/// Registration: the first tool of the same name is replaced in place;
/// a new name goes to the end.
pub open spec fn spec_add_tool(s: Seq<Tool>, t: Tool) -> Seq<Tool>
    decreases s.len(),
{
    if s.len() == 0 {
        seq![t]
    } else if s[0].name@ == t.name@ {
        seq![t] + s.subrange(1, s.len() as int)
    } else {
        seq![s[0]] + spec_add_tool(s.subrange(1, s.len() as int), t)
    }
}

/// The registry. One instance is populated at startup and then read by
/// every chat turn.
pub struct ToolSet {
    tools: Vec<Tool>,
}

impl View for ToolSet {
    type V = Seq<Tool>;

    closed spec fn view(&self) -> Seq<Tool> {
        self.tools@
    }
}

impl ToolSet {
    /// No two registered tools share a name.
    pub open spec fn wf(&self) -> bool {
        forall|i: int, j: int| 0 <= i < j < self@.len() ==> self@[i].name@ != self@[j].name@
    }

    pub fn new() -> (r: Self)
        ensures
            r.wf(),
            r@ == Seq::<Tool>::empty(),
    {
        ToolSet { tools: Vec::new() }
    }

    /// Registers a tool by name; when the name is already taken, the last
    /// write wins, in the position of the first.
    pub fn add_tool(&mut self, tool: Tool)
        requires
            old(self).wf(),
        ensures
            final(self).wf(),
            final(self)@ == spec_add_tool(old(self)@, tool),
    {
        proof {
            assert(forall|x: int, y: int|
                0 <= x < y < old(self)@.len() ==> old(self)@[x].name@ != old(self)@[y].name@);
        }
        let n = self.tools.len();
        let mut i: usize = 0;
        while i < n
            invariant
                i <= n,
                n == self.tools@.len(),
                self.tools@ == old(self)@,
                forall|x: int, y: int|
                    0 <= x < y < old(self)@.len() ==> old(self)@[x].name@ != old(self)@[y].name@,
                forall|k: int| 0 <= k < i ==> self.tools@[k].name@ != tool.name@,
            decreases n - i,
        {
            if crate::utils::str_eq(self.tools[i].name.as_str(), tool.name.as_str()) {
                let ghost old_tools = self.tools@;
                self.tools.remove(i);
                self.tools.insert(i, tool);
                proof {
                    assert(self.tools@ =~= old_tools.update(i as int, tool));
                    lemma_add_tool_update(old_tools, tool, i as int);
                    assert forall|x: int, y: int|
                        0 <= x < y < self@.len() implies self@[x].name@ != self@[y].name@ by {
                        assert(old(self)@[x].name@ != old(self)@[y].name@);
                        assert(self@[x].name@ == old_tools[x].name@);
                        assert(self@[y].name@ == old_tools[y].name@);
                    }
                    assert(self.wf());
                }
                return ;
            }
            i += 1;
        }
        let ghost old_tools = self.tools@;
        self.tools.push(tool);
        proof {
            lemma_add_tool_push(old_tools, tool);
        }
    }

    /// The tool registered under `name`, if any.
    pub fn get_tool(&self, name: &str) -> (r: Option<&Tool>)
        ensures
            match r {
                Some(t) => t.name@ == name@ && self@.contains(*t),
                None => !has_tool(self@, name@),
            },
    {
        let n = self.tools.len();
        let mut i: usize = 0;
        while i < n
            invariant
                i <= n,
                n == self.tools@.len(),
                forall|k: int| 0 <= k < i ==> self.tools@[k].name@ != name@,
            decreases n - i,
        {
            if crate::utils::str_eq(self.tools[i].name.as_str(), name) {
                return Some(&self.tools[i]);
            }
            i += 1;
        }
        None
    }

    /// Every registered tool, in registration order: the provider-facing
    /// tool catalogue.
    pub fn tools(&self) -> (r: &Vec<Tool>)
        ensures
            r@ == self@,
    {
        &self.tools
    }

    pub fn is_empty(&self) -> (r: bool)
        ensures
            r == (self@.len() == 0),
    {
        self.tools.is_empty()
    }

    pub fn len(&self) -> (r: usize)
        ensures
            r == self@.len(),
    {
        self.tools.len()
    }
}

impl Default for ToolSet {
    fn default() -> (r: Self)
        ensures
            r.wf(),
            r@ == Seq::<Tool>::empty(),
    {
        ToolSet::new()
    }
}

/// Replacing the first occurrence in place is what registration means.
proof fn lemma_add_tool_update(s: Seq<Tool>, t: Tool, j: int)
    requires
        0 <= j < s.len(),
        s[j].name@ == t.name@,
        forall|k: int| 0 <= k < j ==> s[k].name@ != t.name@,
    ensures
        spec_add_tool(s, t) == s.update(j, t),
    decreases j,
{
    if j == 0 {
        assert(seq![t] + s.subrange(1, s.len() as int) =~= s.update(0, t));
    } else {
        let rest = s.subrange(1, s.len() as int);
        lemma_add_tool_update(rest, t, j - 1);
        assert(seq![s[0]] + rest.update(j - 1, t) =~= s.update(j, t));
    }
}

/// A fresh name goes to the end.
proof fn lemma_add_tool_push(s: Seq<Tool>, t: Tool)
    requires
        !has_tool(s, t.name@),
    ensures
        spec_add_tool(s, t) == s.push(t),
    decreases s.len(),
{
    if s.len() == 0 {
        assert(seq![t] =~= s.push(t));
    } else {
        let rest = s.subrange(1, s.len() as int);
        assert(forall|i: int|
            0 <= i < rest.len() ==> rest[i] == s[i + 1] && rest[i].name@ != t.name@);
        lemma_add_tool_push(rest, t);
        assert(seq![s[0]] + rest.push(t) =~= s.push(t));
    }
}

/// Registration order is kept: registering two fresh names lists them in
/// that order after everything already registered.
pub proof fn lemma_registration_order(s: Seq<Tool>, a: Tool, b: Tool)
    requires
        !has_tool(s, a.name@),
        !has_tool(s, b.name@),
        a.name@ != b.name@,
    ensures
        spec_add_tool(spec_add_tool(s, a), b) == s + seq![a, b],
{
    lemma_add_tool_push(s, a);
    assert(!has_tool(s.push(a), b.name@)) by {
        assert(forall|i: int|
            0 <= i < s.len() ==> s.push(a)[i] == s[i] && s.push(a)[i].name@ != b.name@);
    }
    lemma_add_tool_push(s.push(a), b);
    assert(s.push(a).push(b) =~= s + seq![a, b]);
}

} // verus!
