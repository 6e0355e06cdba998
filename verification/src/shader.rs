use vstd::prelude::*;

verus! {

/// The shader program registered under `name`: the most recent insertion
/// wins, as later entries stand in front of earlier ones.
pub open spec fn shader_lookup(entries: Seq<(String, u32)>, name: Seq<char>) -> Option<u32>
    decreases entries.len(),
{
    if entries.len() == 0 {
        None
    } else if entries[0].0@ == name {
        Some(entries[0].1)
    } else {
        shader_lookup(entries.drop_first(), name)
    }
}

/// Registry of compiled shader programs: opaque backend handles keyed by
/// name. Compiling and linking are the backend's work; the registry owns
/// the name-to-handle bookkeeping.
pub struct Shader {
    shader_ids: Vec<(String, u32)>,
}

impl Shader {
    /// The registered entries, most recent first.
    pub closed spec fn entries(self) -> Seq<(String, u32)> {
        self.shader_ids@
    }

    /// An empty registry.
    pub fn new() -> (r: Self)
        ensures
            r.entries().len() == 0,
    {
        Shader { shader_ids: Vec::new() }
    }

    /// Register a linked program's handle under its name, shadowing any
    /// earlier handle of that name.
    pub fn insert(&mut self, name: &str, shader_id: u32)
        ensures
            forall|n: Seq<char>|
                #[trigger] shader_lookup(final(self).entries(), n) == if n == name@ {
                    Some(shader_id)
                } else {
                    shader_lookup(old(self).entries(), n)
                },
    {
        self.shader_ids.insert(0, (name.to_owned(), shader_id));
        proof {
            assert(self.entries().drop_first() =~= old(self).entries());
            assert forall|n: Seq<char>|
                #[trigger] shader_lookup(self.entries(), n) == if n == name@ {
                    Some(shader_id)
                } else {
                    shader_lookup(old(self).entries(), n)
                } by {
                assert(self.entries()[0].0@ == name@);
            }
        }
    }

    /// The handle registered under `sname`, or the zero sentinel when the
    /// name is unknown — the caller treats that as a missing resource.
    pub fn get(&self, sname: &str) -> (r: u32)
        ensures
            r == match shader_lookup(self.entries(), sname@) {
                Some(id) => id,
                None => 0u32,
            },
    {
        let owned = sname.to_owned();
        let len = self.shader_ids.len();
        let mut i: usize = 0;
        proof {
            assert(self.entries().skip(0) =~= self.entries());
        }
        while i < len
            invariant
                i <= len,
                len == self.entries().len(),
                owned@ == sname@,
                shader_lookup(self.entries().skip(i as int), sname@) == shader_lookup(
                    self.entries(),
                    sname@,
                ),
            decreases len - i,
        {
            proof {
                assert(self.entries().skip(i as int)[0] == self.entries()[i as int]);
                assert(self.entries().skip(i as int).drop_first() =~= self.entries().skip(
                    i as int + 1,
                ));
            }
            if self.shader_ids[i].0 == owned {
                return self.shader_ids[i].1;
            }
            i = i + 1;
        }
        proof {
            assert(self.entries().skip(len as int) =~= Seq::<(String, u32)>::empty());
        }
        0
    }
}

} // verus!
