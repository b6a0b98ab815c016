//! The endpoint table: resource names and the path segment of each.

use crate::text::text_eq;
use vstd::prelude::*;

verus! {

/// One line of the table.
pub struct Endpoint {
    pub name: &'static str,
    pub path: &'static str,
}

/// A mapping from resource names to path segments. It is filled when it is
/// made and only read afterwards.
pub struct EndpointTable {
    entries: Vec<Endpoint>,
}

/// The mapping that a list of entries stands for. Where a name occurs twice
/// the later entry counts.
pub open spec fn table_of(entries: Seq<Endpoint>) -> Map<Seq<char>, Seq<char>>
    decreases entries.len(),
{
    if entries.len() == 0 {
        Map::empty()
    } else {
        table_of(entries.drop_last()).insert(entries.last().name@, entries.last().path@)
    }
}

/// The table of the Webdock API.
pub open spec fn standard_endpoints() -> Map<Seq<char>, Seq<char>> {
    Map::empty().insert("ping"@, "ping"@).insert("servers"@, "servers"@).insert(
        "locations"@,
        "locations"@,
    ).insert("profiles"@, "profiles"@).insert("images"@, "images"@).insert(
        "pubkeys"@,
        "account/publicKeys"@,
    ).insert("scripts"@, "scripts"@).insert("hooks"@, "hooks"@).insert("events"@, "events"@)
}

/// What the table of the Webdock API holds, name by name: nine resources,
/// each under its own name but for the public keys, which are kept under the
/// account.
pub proof fn standard_endpoints_listed()
    ensures
        forall|name: Seq<char>| #[trigger]
            standard_endpoints().contains_key(name) <==> name == "ping"@ || name == "servers"@
                || name == "locations"@ || name == "profiles"@ || name == "images"@ || name
                == "pubkeys"@ || name == "scripts"@ || name == "hooks"@ || name == "events"@,
        standard_endpoints()["ping"@] == "ping"@,
        standard_endpoints()["servers"@] == "servers"@,
        standard_endpoints()["locations"@] == "locations"@,
        standard_endpoints()["profiles"@] == "profiles"@,
        standard_endpoints()["images"@] == "images"@,
        standard_endpoints()["pubkeys"@] == "account/publicKeys"@,
        standard_endpoints()["scripts"@] == "scripts"@,
        standard_endpoints()["hooks"@] == "hooks"@,
        standard_endpoints()["events"@] == "events"@,
{
    reveal_strlit("ping");
    reveal_strlit("servers");
    reveal_strlit("locations");
    reveal_strlit("profiles");
    reveal_strlit("images");
    reveal_strlit("pubkeys");
    reveal_strlit("scripts");
    reveal_strlit("hooks");
    reveal_strlit("events");
    assert("servers"@[1] != "scripts"@[1]);
    assert("servers"@[0] != "pubkeys"@[0]);
    assert("scripts"@[0] != "pubkeys"@[0]);
    assert("images"@[0] != "events"@[0]);
}

impl View for EndpointTable {
    type V = Map<Seq<char>, Seq<char>>;

    closed spec fn view(&self) -> Map<Seq<char>, Seq<char>> {
        table_of(self.entries@)
    }
}

impl EndpointTable {
    /// A table without entries.
    pub fn new() -> (table: Self)
        ensures
            table@ == Map::<Seq<char>, Seq<char>>::empty(),
    {
        EndpointTable { entries: Vec::new() }
    }

    /// Maps `name` to `path`, in place of what `name` was mapped to before.
    pub fn insert(&mut self, name: &'static str, path: &'static str)
        ensures
            final(self)@ == old(self)@.insert(name@, path@),
    {
        self.entries.push(Endpoint { name, path });
        proof {
            assert(self.entries@.drop_last() =~= old(self).entries@);
        }
    }

    /// The table of the Webdock API.
    pub fn standard() -> (table: Self)
        ensures
            table@ == standard_endpoints(),
    {
        let mut table = EndpointTable::new();
        table.insert("ping", "ping");
        table.insert("servers", "servers");
        table.insert("locations", "locations");
        table.insert("profiles", "profiles");
        table.insert("images", "images");
        table.insert("pubkeys", "account/publicKeys");
        table.insert("scripts", "scripts");
        table.insert("hooks", "hooks");
        table.insert("events", "events");
        table
    }

    /// The path segment of the resource `name`, if the table has it.
    pub fn get(&self, name: &str) -> (path: Option<&'static str>)
        ensures
            path is Some <==> self@.contains_key(name@),
            path matches Some(segment) ==> segment@ == self@[name@],
    {
        let mut found: Option<&'static str> = None;
        let mut i: usize = 0;
        while i < self.entries.len()
            invariant
                i <= self.entries.len(),
                found is Some <==> table_of(self.entries@.take(i as int)).contains_key(name@),
                found matches Some(segment) ==> segment@ == table_of(
                    self.entries@.take(i as int),
                )[name@],
            decreases self.entries.len() - i,
        {
            proof {
                let next = self.entries@.take(i + 1);
                assert(next.drop_last() =~= self.entries@.take(i as int));
                assert(next.last() == self.entries@[i as int]);
            }
            if text_eq(self.entries[i].name, name) {
                found = Some(self.entries[i].path);
            }
            i += 1;
        }
        proof {
            assert(self.entries@.take(i as int) =~= self.entries@);
        }
        found
    }
}

} // verus!
