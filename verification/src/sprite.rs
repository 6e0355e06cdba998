use vstd::prelude::*;

use crate::packed::{PackedMatrix, PackedVector};

verus! {

/// One deferred draw command: the sprite's finished MVP transform and
/// color as bit patterns, and the texture to bind for it. Commands live
/// for at most one frame.
#[derive(Clone, Copy, PartialEq, Debug)]
pub struct Sprite {
    pub mvp: PackedMatrix,
    pub color: PackedVector,
    pub texture_id: u32,
}

/// Deferred per-frame sprite command list. Adding a sprite only appends a
/// command; the single flush of the frame hands every pending command out
/// in order and leaves the list empty.
pub struct SpriteBuilder {
    pub shader_id: u32,
    pub matrix_id: i32,
    pub color_id: i32,
    pub vertex_id: u32,
    pub uv_id: u32,
    sprites: Vec<Sprite>,
}

impl SpriteBuilder {
    /// The commands accumulated since the last flush, in submission order.
    pub closed spec fn pending(self) -> Seq<Sprite> {
        self.sprites@
    }

    /// The shader, uniform, and buffer handles the backend draws with:
    /// `(shader_id, matrix_id, color_id, vertex_id, uv_id)`.
    pub closed spec fn handles(self) -> (u32, i32, i32, u32, u32) {
        (self.shader_id, self.matrix_id, self.color_id, self.vertex_id, self.uv_id)
    }

    /// An empty batch over the given shader and buffer handles, which the
    /// graphics backend has already created.
    pub fn new(shader_id: u32, matrix_id: i32, color_id: i32, vertex_id: u32, uv_id: u32) -> (r:
        Self)
        ensures
            r.pending() == Seq::<Sprite>::empty(),
            r.handles() == (shader_id, matrix_id, color_id, vertex_id, uv_id),
    {
        let r = SpriteBuilder { shader_id, matrix_id, color_id, vertex_id, uv_id, sprites: Vec::new() };
        proof {
            assert(r.pending() =~= Seq::<Sprite>::empty());
        }
        r
    }

    /// Append one command to the current frame's batch; nothing is drawn.
    pub fn add_sprite(&mut self, sprite: Sprite)
        ensures
            final(self).pending() == old(self).pending().push(sprite),
            final(self).handles() == old(self).handles(),
    {
        self.sprites.push(sprite);
    }

    /// Number of commands pending for this frame.
    pub fn pending_count(&self) -> (r: usize)
        ensures
            r == self.pending().len(),
    {
        self.sprites.len()
    }

    /// The once-per-frame flush: hand every pending command out in
    /// submission order for the backend to draw, and leave the batch
    /// empty — the next `add_sprite` begins a fresh batch of size 1.
    pub fn draw_sprites(&mut self) -> (commands: Vec<Sprite>)
        ensures
            commands@ == old(self).pending(),
            final(self).pending() == Seq::<Sprite>::empty(),
            final(self).handles() == old(self).handles(),
    {
        let mut drained: Vec<Sprite> = Vec::new();
        std::mem::swap(&mut drained, &mut self.sprites);
        proof {
            assert(final(self).pending() =~= Seq::<Sprite>::empty());
        }
        drained
    }
}


/// Shader and uniform handles for the immediate rectangle and line
/// primitives; the backend creates them once and draws with them.
pub struct RectBuilder {
    pub shader_id: u32,
    pub matrix_id: i32,
    pub color_id: i32,
    pub vertex_id: u32,
}

impl RectBuilder {
    /// Wrap the handles the backend created.
    pub fn new(shader_id: u32, matrix_id: i32, color_id: i32, vertex_id: u32) -> (r: Self)
        ensures
            r.shader_id == shader_id,
            r.matrix_id == matrix_id,
            r.color_id == color_id,
            r.vertex_id == vertex_id,
    {
        RectBuilder { shader_id, matrix_id, color_id, vertex_id }
    }
}

/// Font weights a text style can ask for.
#[derive(Clone, Copy, PartialEq, Eq, Structural, Debug)]
pub enum Weight {
    DONTCARE,
    THIN,
    EXTRALIGHT,
    LIGHT,
    NORMAL,
    MEDIUM,
    SEMIBOLD,
    BOLD,
    EXTRABOLD,
    HEAVY,
}

impl Weight {
    /// The numeric weight the font system expects.
    pub open spec fn spec_value(self) -> i32 {
        match self {
            Weight::DONTCARE => 0,
            Weight::THIN => 100,
            Weight::EXTRALIGHT => 200,
            Weight::LIGHT => 300,
            Weight::NORMAL => 400,
            Weight::MEDIUM => 500,
            Weight::SEMIBOLD => 600,
            Weight::BOLD => 700,
            Weight::EXTRABOLD => 800,
            Weight::HEAVY => 900,
        }
    }

    /// The numeric weight the font system expects.
    pub fn value(self) -> (r: i32)
        ensures
            r == self.spec_value(),
    {
        match self {
            Weight::DONTCARE => 0,
            Weight::THIN => 100,
            Weight::EXTRALIGHT => 200,
            Weight::LIGHT => 300,
            Weight::NORMAL => 400,
            Weight::MEDIUM => 500,
            Weight::SEMIBOLD => 600,
            Weight::BOLD => 700,
            Weight::EXTRABOLD => 800,
            Weight::HEAVY => 900,
        }
    }
}

/// The display-list slot registered for the font named `name`: the most
/// recent definition wins, as later entries stand in front.
pub open spec fn font_lookup(entries: Seq<(String, usize)>, name: Seq<char>) -> Option<usize>
    decreases entries.len(),
{
    if entries.len() == 0 {
        None
    } else if entries[0].0@ == name {
        Some(entries[0].1)
    } else {
        font_lookup(entries.drop_first(), name)
    }
}

/// Registry of defined fonts: each named font gets the next display-list
/// slot, counted from one. Building the glyph lists is the backend's
/// work; the registry owns the name-to-slot bookkeeping.
pub struct TextBuilder {
    fonts: Vec<(String, usize)>,
    index: usize,
}

impl TextBuilder {
    /// The registered fonts, most recent first.
    pub closed spec fn entries(self) -> Seq<(String, usize)> {
        self.fonts@
    }

    /// The slot the next defined font will take.
    pub closed spec fn next_index(self) -> usize {
        self.index
    }

    /// Slots are counted from one.
    pub open spec fn wf(self) -> bool {
        self.next_index() >= 1
    }

    /// An empty registry; the first font takes slot one.
    pub fn new() -> (r: Self)
        ensures
            r.wf(),
            r.entries().len() == 0,
            r.next_index() == 1,
    {
        TextBuilder { fonts: Vec::new(), index: 1 }
    }

    /// Assign the next slot to the font named `name`, shadowing any
    /// earlier definition, and hand the slot back for the backend to fill
    /// with glyph lists.
    pub fn define_font(&mut self, name: &str) -> (slot: usize)
        requires
            old(self).wf(),
            old(self).next_index() < usize::MAX,
        ensures
            final(self).wf(),
            slot == old(self).next_index(),
            final(self).next_index() == old(self).next_index() + 1,
            forall|n: Seq<char>|
                #[trigger] font_lookup(final(self).entries(), n) == if n == name@ {
                    Some(slot)
                } else {
                    font_lookup(old(self).entries(), n)
                },
    {
        let slot = self.index;
        self.fonts.insert(0, (name.to_owned(), slot));
        self.index = self.index + 1;
        proof {
            assert(self.entries().drop_first() =~= old(self).entries());
            assert forall|n: Seq<char>|
                #[trigger] font_lookup(self.entries(), n) == if n == name@ {
                    Some(slot)
                } else {
                    font_lookup(old(self).entries(), n)
                } by {
                assert(self.entries()[0].0@ == name@);
            }
        }
        slot
    }

    /// The slot of the font named `font`, if it was ever defined; drawing
    /// with an unknown font is a no-op the caller reports.
    pub fn font_index(&self, font: &str) -> (r: Option<usize>)
        ensures
            r == font_lookup(self.entries(), font@),
    {
        let owned = font.to_owned();
        let len = self.fonts.len();
        let mut i: usize = 0;
        proof {
            assert(self.entries().skip(0) =~= self.entries());
        }
        while i < len
            invariant
                i <= len,
                len == self.entries().len(),
                owned@ == font@,
                font_lookup(self.entries().skip(i as int), font@) == font_lookup(
                    self.entries(),
                    font@,
                ),
            decreases len - i,
        {
            proof {
                assert(self.entries().skip(i as int)[0] == self.entries()[i as int]);
                assert(self.entries().skip(i as int).drop_first() =~= self.entries().skip(
                    i as int + 1,
                ));
            }
            if self.fonts[i].0 == owned {
                return Some(self.fonts[i].1);
            }
            i = i + 1;
        }
        proof {
            assert(self.entries().skip(len as int) =~= Seq::<(String, usize)>::empty());
        }
        None
    }
}

} // verus!

