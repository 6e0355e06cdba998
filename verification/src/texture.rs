use vstd::prelude::*;

verus! {

/// The texture handle registered under `name`: the most recent insertion
/// wins, as later entries stand in front of earlier ones.
pub open spec fn texture_lookup(entries: Seq<(String, u32)>, name: Seq<char>) -> Option<u32>
    decreases entries.len(),
{
    if entries.len() == 0 {
        None
    } else if entries[0].0@ == name {
        Some(entries[0].1)
    } else {
        texture_lookup(entries.drop_first(), name)
    }
}

/// Registry of decoded textures: opaque backend handles keyed by the
/// texture's name. Decoding and handle creation are the backend's work;
/// the registry owns the name-to-handle bookkeeping.
pub struct Texture {
    texture_ids: Vec<(String, u32)>,
}

impl Texture {
    /// The registered entries, most recent first.
    pub closed spec fn entries(self) -> Seq<(String, u32)> {
        self.texture_ids@
    }

    /// An empty registry.
    pub fn new() -> (r: Self)
        ensures
            r.entries().len() == 0,
    {
        Texture { texture_ids: Vec::new() }
    }

    /// Register a decoded texture's handle under its name, shadowing any
    /// earlier handle of that name.
    pub fn insert(&mut self, name: &str, tex_id: u32)
        ensures
            forall|n: Seq<char>|
                #[trigger] texture_lookup(final(self).entries(), n) == if n == name@ {
                    Some(tex_id)
                } else {
                    texture_lookup(old(self).entries(), n)
                },
    {
        self.texture_ids.insert(0, (name.to_owned(), tex_id));
        proof {
            assert(self.entries().drop_first() =~= old(self).entries());
            assert forall|n: Seq<char>|
                #[trigger] texture_lookup(self.entries(), n) == if n == name@ {
                    Some(tex_id)
                } else {
                    texture_lookup(old(self).entries(), n)
                } by {
                assert(self.entries()[0].0@ == name@);
            }
        }
    }

    /// The handle registered under `tname`, or the zero sentinel when the
    /// name is unknown — the caller treats that as a missing resource.
    pub fn get(&self, tname: &str) -> (r: u32)
        ensures
            r == match texture_lookup(self.entries(), tname@) {
                Some(id) => id,
                None => 0u32,
            },
    {
        let owned = tname.to_owned();
        let len = self.texture_ids.len();
        let mut i: usize = 0;
        proof {
            assert(self.entries().skip(0) =~= self.entries());
        }
        while i < len
            invariant
                i <= len,
                len == self.entries().len(),
                owned@ == tname@,
                texture_lookup(self.entries().skip(i as int), tname@) == texture_lookup(
                    self.entries(),
                    tname@,
                ),
            decreases len - i,
        {
            proof {
                assert(self.entries().skip(i as int)[0] == self.entries()[i as int]);
                assert(self.entries().skip(i as int).drop_first() =~= self.entries().skip(
                    i as int + 1,
                ));
            }
            if self.texture_ids[i].0 == owned {
                return self.texture_ids[i].1;
            }
            i = i + 1;
        }
        proof {
            assert(self.entries().skip(len as int) =~= Seq::<(String, u32)>::empty());
        }
        0
    }
}

} // verus!
