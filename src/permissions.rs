use vstd::prelude::*;

verus! {

/// The capability grants an extension declares, one list per resource
/// class. `None` grants nothing of that class.
#[derive(Debug)]
pub struct Permissions {
    pub read: Option<Vec<String>>,
    pub write: Option<Vec<String>>,
    pub env: Option<Vec<String>>,
    pub run: Option<Vec<String>>,
    pub net: Option<Vec<String>>,
}

/// The grant structure handed to the script engine: an allow list per
/// resource class, and never an interactive prompt.
#[derive(Debug)]
pub struct EngineGrants {
    pub allow_read: Option<Vec<String>>,
    pub allow_write: Option<Vec<String>>,
    pub allow_env: Option<Vec<String>>,
    pub allow_run: Option<Vec<String>>,
    pub allow_net: Option<Vec<String>>,
    pub prompt: bool,
}

/// The entries of an optional list, as text.
pub open spec fn list_view(l: Option<Vec<String>>) -> Option<Seq<Seq<char>>> {
    match l {
        Some(v) => Some(v@.map_values(|s: String| s@)),
        None => None,
    }
}

/// A copy of an optional list that keeps every entry and their order.
fn copy_list(l: &Option<Vec<String>>) -> (r: Option<Vec<String>>)
    ensures
        list_view(r) == list_view(*l),
{
    match l {
        None => None,
        Some(v) => {
            let mut out: Vec<String> = Vec::new();
            let mut i: usize = 0;
            while i < v.len()
                invariant
                    i <= v.len(),
                    out@.len() == i,
                    forall|j: int| 0 <= j < i ==> #[trigger] out@[j]@ == v@[j]@,
                decreases v.len() - i,
            {
                out.push(v[i].clone());
                i = i + 1;
            }
            proof {
                assert(out@.map_values(|s: String| s@) =~= v@.map_values(|s: String| s@));
            }
            Some(out)
        },
    }
}

impl Permissions {
    /// No access of any class.
    pub fn deny_all() -> (r: Permissions)
        ensures
            r.deny_all_spec(),
    {
        Permissions { read: None, write: None, env: None, run: None, net: None }
    }

    pub open spec fn deny_all_spec(&self) -> bool {
        &&& self.read is None
        &&& self.write is None
        &&& self.env is None
        &&& self.run is None
        &&& self.net is None
    }

    /// The engine grants that each declared class maps to, entry for entry.
    pub open spec fn grants_match(&self, g: EngineGrants) -> bool {
        &&& list_view(g.allow_read) == list_view(self.read)
        &&& list_view(g.allow_write) == list_view(self.write)
        &&& list_view(g.allow_env) == list_view(self.env)
        &&& list_view(g.allow_run) == list_view(self.run)
        &&& list_view(g.allow_net) == list_view(self.net)
    }

    /// Translate the declared grants into the engine's grant structure.
    pub fn to_grants(&self) -> (r: EngineGrants)
        ensures
            self.grants_match(r),
            !r.prompt,
    {
        EngineGrants {
            allow_read: copy_list(&self.read),
            allow_write: copy_list(&self.write),
            allow_env: copy_list(&self.env),
            allow_run: copy_list(&self.run),
            allow_net: copy_list(&self.net),
            prompt: false,
        }
    }

    /// Recover the declared grants from the engine's grant structure.
    pub fn from_grants(g: &EngineGrants) -> (r: Permissions)
        ensures
            r.grants_match(*g),
    {
        Permissions {
            read: copy_list(&g.allow_read),
            write: copy_list(&g.allow_write),
            env: copy_list(&g.allow_env),
            run: copy_list(&g.allow_run),
            net: copy_list(&g.allow_net),
        }
    }
}

impl Default for Permissions {
    fn default() -> (r: Permissions)
        ensures
            r.deny_all_spec(),
    {
        Permissions::deny_all()
    }
}

/// Translating declared grants to the engine and back loses nothing: every
/// class keeps the same entries in the same order.
pub proof fn lemma_grants_round_trip(p: Permissions, g: EngineGrants, q: Permissions)
    requires
        p.grants_match(g),
        q.grants_match(g),
    ensures
        list_view(q.read) == list_view(p.read),
        list_view(q.write) == list_view(p.write),
        list_view(q.env) == list_view(p.env),
        list_view(q.run) == list_view(p.run),
        list_view(q.net) == list_view(p.net),
{
}

} // verus!
