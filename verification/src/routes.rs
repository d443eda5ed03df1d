//! Route table assembly and dispatch: an ordered sequence of registrations
//! is folded into a dispatch table keyed by HTTP method and path. When two
//! registrations share a key, the later one in registration order wins —
//! assembly is a plain insertion fold with no duplicate detection.

use vstd::prelude::*;

verus! {

/// The HTTP methods a route can be registered under.
#[derive(Clone, Copy, PartialEq, Eq, Structural, Debug)]
pub enum Method {
    Get,
    Post,
    Put,
    Patch,
    Delete,
}

/// A dispatch key: a method together with a path.
pub type RouteKey = (Method, Seq<char>);

/// The registration view of one table entry.
pub open spec fn entry_view<H>(e: (Method, String, H)) -> (Method, Seq<char>, H) {
    (e.0, e.1@, e.2)
}

/// The dispatch table that an ordered registration sequence denotes: an
/// insertion fold, so a later registration for a key overrides an earlier
/// one.
pub open spec fn routes_map<H>(s: Seq<(Method, Seq<char>, H)>) -> Map<RouteKey, H>
    decreases s.len(),
{
    if s.len() == 0 {
        Map::empty()
    } else {
        routes_map(s.drop_last()).insert((s.last().0, s.last().1), s.last().2)
    }
}

/// Appending one registration inserts exactly its key into the denoted
/// table.
pub proof fn lemma_routes_map_push<H>(s: Seq<(Method, Seq<char>, H)>, e: (Method, Seq<char>, H))
    ensures
        routes_map(s.push(e)) == routes_map(s).insert((e.0, e.1), e.2),
{
    assert(s.push(e).drop_last() =~= s);
    assert(s.push(e).last() == e);
}

/// Registrations at or beyond position `i` whose key is not `k` have no
/// bearing on what the table holds at `k`.
proof fn lemma_routes_map_skip<H>(s: Seq<(Method, Seq<char>, H)>, k: RouteKey, i: int)
    requires
        0 <= i <= s.len(),
        forall|j: int| i <= j < s.len() ==> ((#[trigger] s[j]).0, s[j].1) != k,
    ensures
        routes_map(s).contains_key(k) == routes_map(s.take(i)).contains_key(k),
        routes_map(s).contains_key(k) ==> routes_map(s)[k] == routes_map(s.take(i))[k],
    decreases s.len() - i,
{
    if i == s.len() {
        assert(s.take(i) =~= s);
    } else {
        lemma_routes_map_skip(s, k, i + 1);
        assert(s.take(i + 1).drop_last() =~= s.take(i));
        assert(s.take(i + 1).last() == s[i]);
    }
}

/// The law of assembly: where several registrations share a key, the latest
/// one supplies the handler the table dispatches to.
pub proof fn lemma_last_registration_wins<H>(s: Seq<(Method, Seq<char>, H)>, i: int)
    requires
        0 <= i < s.len(),
        forall|j: int| i < j < s.len() ==> ((#[trigger] s[j]).0, s[j].1) != (s[i].0, s[i].1),
    ensures
        routes_map(s).contains_key((s[i].0, s[i].1)),
        routes_map(s)[(s[i].0, s[i].1)] == s[i].2,
{
    let k = (s[i].0, s[i].1);
    lemma_routes_map_skip(s, k, i + 1);
    assert(s.take(i + 1).drop_last() =~= s.take(i));
    assert(s.take(i + 1).last() == s[i]);
}

/// A key absent from every registration is absent from the table.
pub proof fn lemma_never_registered<H>(s: Seq<(Method, Seq<char>, H)>, k: RouteKey)
    requires
        forall|j: int| 0 <= j < s.len() ==> ((#[trigger] s[j]).0, s[j].1) != k,
    ensures
        !routes_map(s).contains_key(k),
{
    lemma_routes_map_skip(s, k, 0);
    assert(s.take(0) =~= Seq::<(Method, Seq<char>, H)>::empty());
}

/// The frozen dispatch table: an ordered sequence of registrations, read
/// through the map it denotes. Once construction returns, no route is added
/// or removed.
pub struct RouteTable<H> {
    entries: Vec<(Method, String, H)>,
}

impl<H> View for RouteTable<H> {
    type V = Map<RouteKey, H>;

    closed spec fn view(&self) -> Map<RouteKey, H> {
        routes_map(self.registrations())
    }
}

impl<H> RouteTable<H> {
    /// The registrations the table was built from, in order.
    pub closed spec fn registrations(self) -> Seq<(Method, Seq<char>, H)> {
        self.entries@.map_values(|e: (Method, String, H)| entry_view(e))
    }

    /// The table always denotes the fold of its registrations.
    pub proof fn lemma_view_is_fold(self)
        ensures
            self@ == routes_map(self.registrations()),
    {
    }

    /// An empty table: nothing dispatches.
    pub fn new() -> (t: RouteTable<H>)
        ensures
            t@ == Map::<RouteKey, H>::empty(),
            t.registrations() == Seq::<(Method, Seq<char>, H)>::empty(),
    {
        let t = RouteTable { entries: Vec::new() };
        proof {
            assert(t.entries@.map_values(|e: (Method, String, H)| entry_view(e)) =~= Seq::<
                (Method, Seq<char>, H),
            >::empty());
        }
        t
    }

    /// Register one route: the new table dispatches `(method, path)` to
    /// `handler`, overriding any earlier registration of the same key.
    pub fn register(&mut self, method: Method, path: String, handler: H)
        ensures
            final (self)@ == old(self)@.insert((method, path@), handler),
            final (self).registrations() == old(self).registrations().push(
                (method, path@, handler),
            ),
    {
        let ghost before = self.entries@.map_values(|e: (Method, String, H)| entry_view(e));
        self.entries.push((method, path, handler));
        proof {
            let after = self.entries@.map_values(|e: (Method, String, H)| entry_view(e));
            assert(after =~= before.push((method, path@, handler)));
            lemma_routes_map_push(before, (method, path@, handler));
        }
    }

    /// Assemble a table from an ordered collection of registrations in one
    /// step: the result denotes exactly the insertion fold of the input.
    pub fn assemble(routes: Vec<(Method, String, H)>) -> (t: RouteTable<H>)
        ensures
            t@ == routes_map(routes@.map_values(|e: (Method, String, H)| entry_view(e))),
            t.registrations() == routes@.map_values(|e: (Method, String, H)| entry_view(e)),
    {
        RouteTable { entries: routes }
    }

    /// How many registrations the table holds (duplicates included).
    pub fn route_count(&self) -> (n: usize)
        ensures
            n == self.registrations().len(),
    {
        self.entries.len()
    }

    /// Dispatch: find the handler for a method and path, or report that none
    /// is registered. The handler returned is the one the denoted table
    /// holds, i.e. the latest matching registration.
    pub fn dispatch<'a>(&'a self, method: Method, path: &String) -> (h: Option<&'a H>)
        ensures
            match h {
                Some(handler) => self@.contains_key((method, path@)) && *handler == self@[(
                    method,
                    path@,
                )],
                None => !self@.contains_key((method, path@)),
            },
    {
        let ghost s = self.registrations();
        let ghost k = (method, path@);
        proof {
            assert(s.len() == self.entries@.len());
        }
        let mut i = self.entries.len();
        while i > 0
            invariant
                i <= self.entries.len(),
                s == self.registrations(),
                s.len() == self.entries@.len(),
                k == (method, path@),
                forall|j: int| i <= j < s.len() ==> ((#[trigger] s[j]).0, s[j].1) != k,
            decreases i,
        {
            i = i - 1;
            let e = &self.entries[i];
            proof {
                assert(s[i as int] == entry_view(self.entries@[i as int]));
            }
            if e.0 == method && e.1 == *path {
                proof {
                    lemma_last_registration_wins(s, i as int);
                }
                return Some(&e.2);
            }
        }
        proof {
            lemma_never_registered(s, k);
        }
        None
    }
}

} // verus!
