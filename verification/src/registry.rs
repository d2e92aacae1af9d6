//! The process-wide command registry: a mapping from command name to
//! handler.
//!
//! Registration inserts or overwrites — re-registering a name silently
//! replaces the prior handler, a deliberate last-registration-wins policy
//! that lets configuration override defaults.  Invocation looks the name up
//! under shared access and fails with `CommandNotFound`, reported and
//! non-fatal, when the name was never registered.  In the threaded
//! embedding, registration takes exclusive access and lookups take shared
//! access, so invocations see a consistent snapshot of the mapping and no
//! reader ever observes a partially inserted entry; the mapping itself and
//! its transitions are the ones modeled here.

use vstd::prelude::*;
use vstd::string::StrSliceExecFns;
use crate::handlers::Handler;

verus! {

/// Why an invocation failed.
#[derive(Clone, Copy, Debug, PartialEq, Eq, Structural)]
pub enum CommandError {
    /// The name was never registered; no handler ran.
    CommandNotFound,
}

/// Compare two string slices by their character sequences.
pub fn str_eq(a: &str, b: &str) -> (r: bool)
    ensures
        r == (a@ == b@),
{
    let la = a.unicode_len();
    let lb = b.unicode_len();
    if la != lb {
        return false;
    }
    let mut i: usize = 0;
    while i < la
        invariant
            i <= la,
            la == a@.len(),
            la == b@.len(),
            forall|j: int| 0 <= j < i ==> a@[j] == b@[j],
        decreases la - i,
    {
        if a.get_char(i) != b.get_char(i) {
            return false;
        }
        i = i + 1;
    }
    proof {
        assert(a@ =~= b@);
    }
    true
}

/// The mapping that a sequence of registrations denotes: later entries win.
pub open spec fn entries_map(s: Seq<(String, Handler)>) -> Map<Seq<char>, Handler>
    decreases s.len(),
{
    if s.len() == 0 {
        Map::empty()
    } else {
        entries_map(s.drop_last()).insert(s.last().0@, s.last().1)
    }
}

proof fn lemma_entries_map_found(s: Seq<(String, Handler)>, i: int)
    requires
        0 <= i < s.len(),
        forall|j: int| i < j < s.len() ==> s[j].0@ != s[i].0@,
    ensures
        entries_map(s).contains_key(s[i].0@),
        entries_map(s)[s[i].0@] == s[i].1,
    decreases s.len(),
{
    if i == s.len() - 1 {
    } else {
        assert(s.drop_last()[i] == s[i]);
        assert forall|j: int| i < j < s.drop_last().len() implies s.drop_last()[j].0@
            != s.drop_last()[i].0@ by {
            assert(s.drop_last()[j] == s[j]);
        }
        lemma_entries_map_found(s.drop_last(), i);
    }
}

proof fn lemma_entries_map_absent(s: Seq<(String, Handler)>, k: Seq<char>)
    requires
        forall|j: int| 0 <= j < s.len() ==> s[j].0@ != k,
    ensures
        !entries_map(s).contains_key(k),
    decreases s.len(),
{
    if s.len() > 0 {
        assert forall|j: int| 0 <= j < s.drop_last().len() implies s.drop_last()[j].0@ != k by {
            assert(s.drop_last()[j] == s[j]);
        }
        lemma_entries_map_absent(s.drop_last(), k);
    }
}

/// The process-wide mapping from command name to handler.  It owns no
/// business state: each handler only names the outside operation it stands
/// for.  Entries are never removed in the life of the process.
pub struct CommandRegistry {
    entries: Vec<(String, Handler)>,
}

impl View for CommandRegistry {
    type V = Map<Seq<char>, Handler>;

    closed spec fn view(&self) -> Map<Seq<char>, Handler> {
        entries_map(self.entries@)
    }
}

impl CommandRegistry {
    /// An empty registry; explicit init-before-first-use.
    pub fn new() -> (r: CommandRegistry)
        ensures
            r@ == Map::<Seq<char>, Handler>::empty(),
    {
        let r = CommandRegistry { entries: Vec::new() };
        proof {
            assert(r.entries@ =~= Seq::<(String, Handler)>::empty());
        }
        r
    }

    /// Insert or overwrite the handler for `name`.  Overwriting is silent:
    /// the last registration wins.  Names are non-empty; nothing else is
    /// asked of them.
    pub fn register(&mut self, name: String, handler: Handler)
        requires
            name@.len() > 0,
        ensures
            final(self)@ == old(self)@.insert(name@, handler),
    {
        self.entries.push((name, handler));
        proof {
            assert(self.entries@.drop_last() =~= old(self).entries@);
        }
    }

    /// Look `name` up: the registered handler, or `CommandNotFound` — to be
    /// surfaced by the caller, never a panic — when the name is absent.  No
    /// handler is touched in the absent case.
    pub fn invoke<'a>(&'a self, name: &str) -> (r: Result<&'a Handler, CommandError>)
        ensures
            self@.contains_key(name@) ==> (r matches Ok(h) && *h == self@[name@]),
            !self@.contains_key(name@) ==> r == Err::<&'a Handler, CommandError>(
                CommandError::CommandNotFound,
            ),
    {
        let n = self.entries.len();
        let mut i: usize = n;
        while i > 0
            invariant
                i <= n,
                n == self.entries@.len(),
                forall|j: int| i <= j < n ==> self.entries@[j].0@ != name@,
            decreases i,
        {
            i = i - 1;
            let entry = &self.entries[i];
            if str_eq(entry.0.as_str(), name) {
                proof {
                    lemma_entries_map_found(self.entries@, i as int);
                }
                return Ok(&entry.1);
            }
        }
        proof {
            lemma_entries_map_absent(self.entries@, name@);
        }
        Err(CommandError::CommandNotFound)
    }
}

/// Distinct names keep their own handlers: after registering `n1 ↦ h1` and
/// `n2 ↦ h2` with `n1 != n2`, invoking `n1` resolves to `h1` alone and
/// invoking `n2` to `h2` alone, whichever handlers the mapping held before.
pub proof fn lemma_distinct_names_independent(
    m: Map<Seq<char>, Handler>,
    n1: Seq<char>,
    n2: Seq<char>,
    h1: Handler,
    h2: Handler,
)
    requires
        n1 != n2,
    ensures
        m.insert(n1, h1).insert(n2, h2)[n1] == h1,
        m.insert(n1, h1).insert(n2, h2)[n2] == h2,
{
}

/// Registering the same name twice keeps only the second handler: the last
/// registration wins.
pub proof fn lemma_last_registration_wins(
    m: Map<Seq<char>, Handler>,
    n: Seq<char>,
    h1: Handler,
    h2: Handler,
)
    ensures
        m.insert(n, h1).insert(n, h2)[n] == h2,
        m.insert(n, h1).insert(n, h2) == m.insert(n, h2),
{
    assert(m.insert(n, h1).insert(n, h2) =~= m.insert(n, h2));
}

/// Registrations of disjoint names commute and neither is lost: the
/// serialized order in which two such registrations took the exclusive
/// lock does not matter, and invoking each name afterwards resolves to its
/// own handler.
pub proof fn lemma_disjoint_registrations_commute(
    m: Map<Seq<char>, Handler>,
    n1: Seq<char>,
    n2: Seq<char>,
    h1: Handler,
    h2: Handler,
)
    requires
        n1 != n2,
    ensures
        m.insert(n1, h1).insert(n2, h2) == m.insert(n2, h2).insert(n1, h1),
        m.insert(n1, h1).insert(n2, h2).contains_key(n1),
        m.insert(n1, h1).insert(n2, h2).contains_key(n2),
        m.insert(n1, h1).insert(n2, h2)[n1] == h1,
        m.insert(n1, h1).insert(n2, h2)[n2] == h2,
{
    assert(m.insert(n1, h1).insert(n2, h2) =~= m.insert(n2, h2).insert(n1, h1));
}

} // verus!
