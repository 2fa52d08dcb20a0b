use crate::game::Pos;
use crate::render::animation::AnimationFrame;
use crate::render::sprite::{SpriteMetadata, Spritesheet, SpritesheetView};
use crate::render::vert::{Ratio, VertexSprite};
use vstd::prelude::*;

verus! {

/// The vertex at one corner of the quad of a sprite.
///
/// On screen the quad starts at the draw offset plus the position of the
/// frame within the untrimmed sprite, and is as large as the frame. Corners
/// 0 to 3 are its corners at `(x1, y1)`, `(x2, y1)`, `(x1, y2)` and
/// `(x2, y2)`. In the atlas the quad is the frame. The y axis of the screen
/// points up and that of the atlas points down, so the corners at `y1` show
/// the end of the frame and those at `y2` its start. Sprites have no depth:
/// the third coordinate is always zero.
pub open spec fn quad_corner(
    frame: AnimationFrame,
    meta: SpriteMetadata,
    size: [u32; 2],
    corner: int,
) -> VertexSprite {
    let right = corner == 1 || corner == 3;
    let low = corner == 2 || corner == 3;
    let x1 = frame.offset[0] + meta.original_position[0];
    let y1 = frame.offset[1] + meta.original_position[1];
    VertexSprite {
        position: [
            (if right { x1 + meta.frame[2] } else { x1 }) as i64,
            (if low { y1 + meta.frame[3] } else { y1 }) as i64,
            0,
        ],
        uv: [
            Ratio {
                numer: (if right { meta.frame[0] + meta.frame[2] } else { meta.frame[0] as int }) as u64,
                denom: size[0],
            },
            Ratio {
                numer: (if low { meta.frame[1] as int } else { meta.frame[1] + meta.frame[3] }) as u64,
                denom: size[1],
            },
        ],
    }
}

/// The two triangles of a quad, as corner numbers: `0 1 2` and `2 1 3`.
pub open spec fn quad_winding(j: int) -> int {
    if j == 0 {
        0
    } else if j == 1 || j == 4 {
        1
    } else if j == 2 || j == 3 {
        2
    } else {
        3
    }
}

/// The draws of a list whose sprite the atlas knows, each with its metadata,
/// in draw order. A draw whose sprite index has no metadata is left out.
pub open spec fn resolved_sprites(draws: Seq<AnimationFrame>, sheet: SpritesheetView) -> Seq<
    (AnimationFrame, SpriteMetadata),
>
    decreases draws.len(),
{
    if draws.len() == 0 {
        Seq::empty()
    } else {
        let rest = resolved_sprites(draws.drop_last(), sheet);
        match sheet.lookup(draws.last().sprite.sprite_index as int) {
            Some(meta) => rest.push((draws.last(), meta)),
            None => rest,
        }
    }
}

/// Whether the atlas knows the sprite of a draw.
pub open spec fn is_known(draw: AnimationFrame, sheet: SpritesheetView) -> bool {
    sheet.lookup(draw.sprite.sprite_index as int) is Some
}

/// Four vertices per resolved sprite, in corner order.
pub open spec fn batch_vertices(resolved: Seq<(AnimationFrame, SpriteMetadata)>, size: [u32; 2]) -> Seq<
    VertexSprite,
> {
    Seq::new(
        4 * resolved.len(),
        |i: int| quad_corner(resolved[i / 4].0, resolved[i / 4].1, size, i % 4),
    )
}

/// Six indices per sprite: the winding of a quad, relative to the first of
/// the four vertices of that sprite.
pub open spec fn batch_indices(sprites: nat) -> Seq<u32> {
    Seq::new(6 * sprites, |i: int| (4 * (i / 6) + quad_winding(i % 6)) as u32)
}

/// The sprites collected for one frame, one draw list per atlas.
pub struct SpriteRenderer {
    sprites: Vec<Vec<AnimationFrame>>,
}

impl SpriteRenderer {
    /// The draw lists, one per atlas, each in draw order.
    pub closed spec fn draws(&self) -> Seq<Seq<AnimationFrame>> {
        Seq::new(self.sprites.len() as nat, |i: int| self.sprites[i]@)
    }

    /// A collector for `spritesheet_count` atlases, with nothing drawn yet.
    pub fn new(spritesheet_count: usize) -> (r: Self)
        ensures
            r.draws().len() == spritesheet_count,
            forall|i: int| 0 <= i < spritesheet_count ==> (#[trigger] r.draws()[i]).len() == 0,
    {
        let mut sprites: Vec<Vec<AnimationFrame>> = Vec::new();
        let mut i: usize = 0;
        while i < spritesheet_count
            invariant
                i <= spritesheet_count,
                sprites.len() == i,
                forall|j: int| 0 <= j < i ==> (#[trigger] sprites[j])@.len() == 0,
            decreases spritesheet_count - i,
        {
            sprites.push(Vec::new());
            i += 1;
        }
        Self { sprites }
    }

    /// The number of atlases that sprites can be drawn into.
    pub fn atlas_count(&self) -> (count: usize)
        ensures
            count == self.draws().len(),
    {
        self.sprites.len()
    }

    /// The number of sprites drawn into the atlas `index` so far.
    pub fn sprite_count(&self, index: usize) -> (count: usize)
        requires
            index < self.draws().len(),
        ensures
            count == self.draws()[index as int].len(),
    {
        self.sprites[index].len()
    }

    /// Appends one sprite to the draw list of its atlas.
    pub fn draw_sprite(&mut self, sprite: AnimationFrame)
        requires
            sprite.sprite.spritesheet_index < old(self).draws().len(),
        ensures
            final(self).draws() == old(self).draws().update(
                sprite.sprite.spritesheet_index as int,
                old(self).draws()[sprite.sprite.spritesheet_index as int].push(sprite),
            ),
    {
        self.sprites[sprite.sprite.spritesheet_index].push(sprite);
        assert(self.draws() =~= old(self).draws().update(
            sprite.sprite.spritesheet_index as int,
            old(self).draws()[sprite.sprite.spritesheet_index as int].push(sprite),
        ));
    }

    /// The vertex and index buffers for the atlas `index`.
    ///
    /// Returns `None` when nothing was drawn into that atlas this frame. A
    /// draw whose sprite the atlas does not know is skipped; the others each
    /// give four vertices and six indices, in draw order.
    pub fn get_buffers(&self, index: usize, spritesheet: &Spritesheet) -> (out: Option<
        (Vec<VertexSprite>, Vec<u32>),
    >)
        requires
            index < self.draws().len(),
            4 * self.draws()[index as int].len() <= u32::MAX,
        ensures
            self.draws()[index as int].len() == 0 <==> out is None,
            out matches Some((vertices, indices)) ==> {
                let resolved = resolved_sprites(self.draws()[index as int], spritesheet@);
                &&& vertices@ == batch_vertices(resolved, spritesheet@.size)
                &&& indices@ == batch_indices(resolved.len())
            },
            out matches Some((vertices, indices)) ==> {
                let draws = self.draws()[index as int];
                let resolved = resolved_sprites(draws, spritesheet@);
                &&& vertices.len() == 4 * resolved.len()
                &&& indices.len() == 6 * resolved.len()
                &&& resolved.len() <= draws.len()
                &&& (forall|k: int| 0 <= k < draws.len() ==> is_known(#[trigger] draws[k], spritesheet@))
                    ==> resolved.len() == draws.len()
                &&& forall|i: int|
                    0 <= i < indices.len() ==> 0 <= (#[trigger] indices[i]) < vertices.len()
                &&& forall|i: int|
                    0 <= i < indices.len() ==> (#[trigger] indices[i]) == 4 * (i / 6)
                        + quad_winding(i % 6)
                &&& forall|i: int|
                    0 <= i < vertices.len() ==> (#[trigger] vertices[i]) == quad_corner(
                        resolved[i / 4].0,
                        resolved[i / 4].1,
                        spritesheet@.size,
                        i % 4,
                    )
            },
    {
        let sprites = &self.sprites[index];
        if sprites.len() == 0 {
            return None;
        }
        let size = spritesheet.size();
        let mut vertices: Vec<VertexSprite> = Vec::new();
        let mut indices: Vec<u32> = Vec::new();
        let ghost draws = sprites@;
        assert(draws == self.draws()[index as int]);
        let mut k: usize = 0;
        assert(draws.take(0) =~= Seq::<AnimationFrame>::empty());
        while k < sprites.len()
            invariant
                k <= sprites.len(),
                draws == sprites@,
                4 * draws.len() <= u32::MAX,
                size == spritesheet@.size,
                resolved_sprites(draws.take(k as int), spritesheet@).len() <= k,
                vertices@ == batch_vertices(
                    resolved_sprites(draws.take(k as int), spritesheet@),
                    size,
                ),
                indices@ == batch_indices(
                    resolved_sprites(draws.take(k as int), spritesheet@).len(),
                ),
            decreases sprites.len() - k,
        {
            let sprite = sprites[k];
            let ghost before = resolved_sprites(draws.take(k as int), spritesheet@);
            let ghost after = resolved_sprites(draws.take(k as int + 1), spritesheet@);
            proof {
                assert(draws.take(k as int + 1).drop_last() =~= draws.take(k as int));
                assert(draws.take(k as int + 1).last() == sprite);
            }
            match spritesheet.get_sprite_metadata(sprite.sprite.sprite_index) {
                Some(metadata) => {
                    let x1: i64 = sprite.offset[0] as i64 + metadata.original_position[0] as i64;
                    let y1: i64 = sprite.offset[1] as i64 + metadata.original_position[1] as i64;
                    let x2: i64 = x1 + metadata.frame[2] as i64;
                    let y2: i64 = y1 + metadata.frame[3] as i64;
                    let u1 = Ratio { numer: metadata.frame[0] as u64, denom: size[0] };
                    let v1 = Ratio { numer: metadata.frame[1] as u64, denom: size[1] };
                    let u2 = Ratio {
                        numer: metadata.frame[0] as u64 + metadata.frame[2] as u64,
                        denom: size[0],
                    };
                    let v2 = Ratio {
                        numer: metadata.frame[1] as u64 + metadata.frame[3] as u64,
                        denom: size[1],
                    };
                    let ghost old_vertices = vertices@;
                    let offset: u32 = vertices.len() as u32;
                    vertices.push(VertexSprite { position: [x1, y1, 0], uv: [u1, v2] });
                    vertices.push(VertexSprite { position: [x2, y1, 0], uv: [u2, v2] });
                    vertices.push(VertexSprite { position: [x1, y2, 0], uv: [u1, v1] });
                    vertices.push(VertexSprite { position: [x2, y2, 0], uv: [u2, v1] });
                    indices.push(offset);
                    indices.push(offset + 1);
                    indices.push(offset + 2);
                    indices.push(offset + 2);
                    indices.push(offset + 1);
                    indices.push(offset + 3);
                    proof {
                        assert(after == before.push((sprite, *metadata)));
                        assert(vertices@.subrange(0, 4 * before.len() as int) =~= old_vertices);
                        lemma_vertices_push(before, size, sprite, *metadata, vertices@);
                        assert(indices@ =~= batch_indices(after.len()));
                    }
                },
                None => {
                    proof {
                        assert(after == before);
                    }
                },
            }
            k += 1;
        }
        proof {
            assert(draws.take(k as int) =~= draws);
            let resolved = resolved_sprites(draws, spritesheet@);
            lemma_resolved_len(draws, spritesheet@);
            lemma_buffer_sizes(resolved, size);
        }
        Some((vertices, indices))
    }
}

/// Something that can draw itself into the sprite collector at a position.
///
/// Drawing only ever appends: the number of atlases stays the same and what
/// was drawn before stays, in order, at the front of each draw list.
pub trait DisplayElement {
    /// What the element needs of the collector and of the position in order
    /// to draw itself.
    spec fn can_draw(&self, renderer: &SpriteRenderer, pos: &Pos) -> bool;

    fn draw(&self, renderer: &mut SpriteRenderer, pos: &Pos)
        requires
            self.can_draw(old(renderer), pos),
        ensures
            final(renderer).draws().len() == old(renderer).draws().len(),
            forall|i: int|
                0 <= i < old(renderer).draws().len() ==> (#[trigger] old(renderer).draws()[i]).is_prefix_of(
                    final(renderer).draws()[i],
                ),
    ;
}

/// A drawable that always shows the same sprite.
pub struct DisplayElementFixedSprite {
    pub sprite: AnimationFrame,
}

impl DisplayElement for DisplayElementFixedSprite {
    /// The atlas of the sprite is one of the collector's, and the sprite's
    /// offset moved by the position stays inside `i32`.
    open spec fn can_draw(&self, renderer: &SpriteRenderer, pos: &Pos) -> bool {
        &&& self.sprite.sprite.spritesheet_index < renderer.draws().len()
        &&& self.sprite.move_fits(pos.x as int, pos.y as int)
    }

    /// Draws the sprite with its offset moved by the position.
    fn draw(&self, renderer: &mut SpriteRenderer, pos: &Pos)
        ensures
            final(renderer).draws() == old(renderer).draws().update(
                self.sprite.sprite.spritesheet_index as int,
                old(renderer).draws()[self.sprite.sprite.spritesheet_index as int].push(
                    self.sprite.moved(pos.x as int, pos.y as int),
                ),
            ),
    {
        renderer.draw_sprite(self.sprite.offset([pos.x, pos.y]));
    }
}

/// What the game hands to the renderer for one frame: the sprites to draw
/// and the time of the frame.
///
/// The time is a number of seconds in IEEE 754 single precision, held as its
/// bit pattern; it is carried through untouched.
pub struct FrameBuilder {
    sprite_renderer: SpriteRenderer,
    time: u32,
}

impl FrameBuilder {
    /// The draw lists collected so far, one per atlas.
    pub closed spec fn draws(&self) -> Seq<Seq<AnimationFrame>> {
        self.sprite_renderer.draws()
    }

    /// The bit pattern of the frame time.
    pub closed spec fn time(&self) -> u32 {
        self.time
    }

    /// An empty frame for `spritesheet_count` atlases.
    pub fn new(time: u32, spritesheet_count: usize) -> (frame: Self)
        ensures
            frame.time() == time,
            frame.draws().len() == spritesheet_count,
            forall|i: int| 0 <= i < spritesheet_count ==> (#[trigger] frame.draws()[i]).len() == 0,
    {
        Self { sprite_renderer: SpriteRenderer::new(spritesheet_count), time }
    }

    /// The bit pattern of the frame time.
    pub fn get_time(&self) -> (time: u32)
        ensures
            time == self.time(),
    {
        self.time
    }

    /// The sprite collector of the frame, to draw into.
    pub fn get_sprite_renderer(&mut self) -> (renderer: &mut SpriteRenderer)
        ensures
            renderer.draws() == old(self).draws(),
            final(self).draws() == final(renderer).draws(),
            final(self).time() == old(self).time(),
    {
        &mut self.sprite_renderer
    }

    /// The sprite collector of the frame, to read from.
    pub fn sprite_renderer(&self) -> (renderer: &SpriteRenderer)
        ensures
            renderer.draws() == self.draws(),
    {
        &self.sprite_renderer
    }
}

/// Appending the four corners of one more sprite to the vertices of a batch
/// gives the vertices of the batch with that sprite added.
proof fn lemma_vertices_push(
    before: Seq<(AnimationFrame, SpriteMetadata)>,
    size: [u32; 2],
    frame: AnimationFrame,
    meta: SpriteMetadata,
    vertices: Seq<VertexSprite>,
)
    requires
        vertices.len() == 4 * before.len() + 4,
        vertices.subrange(0, 4 * before.len() as int) == batch_vertices(before, size),
        forall|c: int|
            0 <= c < 4 ==> (#[trigger] vertices[4 * before.len() + c]) == quad_corner(
                frame,
                meta,
                size,
                c,
            ),
    ensures
        vertices == batch_vertices(before.push((frame, meta)), size),
{
    let after = before.push((frame, meta));
    let want = batch_vertices(after, size);
    assert forall|i: int| 0 <= i < vertices.len() implies vertices[i] == want[i] by {
        if i < 4 * before.len() {
            assert(vertices[i] == vertices.subrange(0, 4 * before.len() as int)[i]);
            assert(after[i / 4] == before[i / 4]);
        } else {
            let c = i - 4 * before.len();
            assert(i / 4 == before.len());
            assert(i % 4 == c);
            assert(vertices[4 * before.len() + c] == quad_corner(frame, meta, size, c));
        }
    }
    assert(vertices =~= want);
}

/// Resolving a draw list can be done piece by piece: the resolved draws of
/// two lists joined are the resolved draws of each, joined.
pub proof fn lemma_resolved_concat(a: Seq<AnimationFrame>, b: Seq<AnimationFrame>, sheet: SpritesheetView)
    ensures
        resolved_sprites(a + b, sheet) == resolved_sprites(a, sheet) + resolved_sprites(b, sheet),
    decreases b.len(),
{
    if b.len() == 0 {
        assert(a + b =~= a);
        assert(resolved_sprites(a, sheet) + resolved_sprites(b, sheet) =~= resolved_sprites(
            a,
            sheet,
        ));
    } else {
        lemma_resolved_concat(a, b.drop_last(), sheet);
        assert((a + b).drop_last() =~= a + b.drop_last());
        assert((a + b).last() == b.last());
        let ra = resolved_sprites(a, sheet);
        let rb = resolved_sprites(b.drop_last(), sheet);
        match sheet.lookup(b.last().sprite.sprite_index as int) {
            Some(meta) => {
                assert((ra + rb).push((b.last(), meta)) =~= ra + rb.push((b.last(), meta)));
            },
            None => {},
        }
    }
}

/// No more draws are resolved than were made, and when the atlas knows the
/// sprite of every draw, all of them are resolved.
pub proof fn lemma_resolved_len(draws: Seq<AnimationFrame>, sheet: SpritesheetView)
    ensures
        resolved_sprites(draws, sheet).len() <= draws.len(),
        (forall|i: int| 0 <= i < draws.len() ==> is_known(#[trigger] draws[i], sheet))
            ==> resolved_sprites(draws, sheet).len() == draws.len(),
    decreases draws.len(),
{
    if draws.len() > 0 {
        lemma_resolved_len(draws.drop_last(), sheet);
        if forall|i: int| 0 <= i < draws.len() ==> is_known(#[trigger] draws[i], sheet) {
            assert forall|i: int| 0 <= i < draws.drop_last().len() implies is_known(
                #[trigger] draws.drop_last()[i],
                sheet,
            ) by {
                assert(draws.drop_last()[i] == draws[i]);
            }
            assert(is_known(draws[draws.len() - 1], sheet));
        }
    }
}

/// A batch of `n` resolved sprites has exactly `4n` vertices and `6n`
/// indices, and every index points at one of those vertices.
pub proof fn lemma_buffer_sizes(resolved: Seq<(AnimationFrame, SpriteMetadata)>, size: [u32; 2])
    requires
        4 * resolved.len() <= u32::MAX,
    ensures
        batch_vertices(resolved, size).len() == 4 * resolved.len(),
        batch_indices(resolved.len()).len() == 6 * resolved.len(),
        forall|i: int|
            0 <= i < 6 * resolved.len() ==> 0 <= (#[trigger] batch_indices(resolved.len())[i]) < 4
                * resolved.len(),
{
    assert forall|i: int| 0 <= i < 6 * resolved.len() implies 0 <= (#[trigger] batch_indices(
        resolved.len(),
    )[i]) < 4 * resolved.len() by {
        assert(0 <= i / 6 < resolved.len());
        assert(0 <= quad_winding(i % 6) <= 3);
    }
}

/// The six indices of the `k`-th sprite of a batch are `0 1 2 2 1 3`
/// counted from that sprite's first vertex, whatever was drawn and in
/// whatever order.
pub proof fn lemma_quad_winding(sprites: nat, k: int)
    requires
        0 <= k < sprites,
        4 * sprites <= u32::MAX,
    ensures
        batch_indices(sprites)[6 * k] == 4 * k,
        batch_indices(sprites)[6 * k + 1] == 4 * k + 1,
        batch_indices(sprites)[6 * k + 2] == 4 * k + 2,
        batch_indices(sprites)[6 * k + 3] == 4 * k + 2,
        batch_indices(sprites)[6 * k + 4] == 4 * k + 1,
        batch_indices(sprites)[6 * k + 5] == 4 * k + 3,
{
    assert((6 * k) / 6 == k && (6 * k) % 6 == 0);
    assert((6 * k + 1) / 6 == k && (6 * k + 1) % 6 == 1);
    assert((6 * k + 2) / 6 == k && (6 * k + 2) % 6 == 2);
    assert((6 * k + 3) / 6 == k && (6 * k + 3) % 6 == 3);
    assert((6 * k + 4) / 6 == k && (6 * k + 4) % 6 == 4);
    assert((6 * k + 5) / 6 == k && (6 * k + 5) % 6 == 5);
}

/// The four vertices of the `k`-th resolved sprite. With the frame
/// `[x, y, w, h]`, the atlas size `(W, H)` and the top-left screen corner
/// `(px, py)` (the draw offset plus the position of the frame inside the
/// untrimmed sprite), they are, in order:
/// `(px, py)` with uv `(x/W, (y+h)/H)`, `(px+w, py)` with `((x+w)/W, (y+h)/H)`,
/// `(px, py+h)` with `(x/W, y/H)` and `(px+w, py+h)` with `((x+w)/W, y/H)`.
pub proof fn lemma_quad_corners(
    resolved: Seq<(AnimationFrame, SpriteMetadata)>,
    size: [u32; 2],
    k: int,
)
    requires
        0 <= k < resolved.len(),
    ensures
        ({
            let vertices = batch_vertices(resolved, size);
            let (frame, meta) = resolved[k];
            let (x, y, w, h) = (meta.frame[0], meta.frame[1], meta.frame[2], meta.frame[3]);
            let px = frame.offset[0] + meta.original_position[0];
            let py = frame.offset[1] + meta.original_position[1];
            &&& forall|c: int| 0 <= c < 4 ==> (#[trigger] vertices[4 * k + c]).position[2] == 0
            &&& vertices[4 * k].position[0] == px
            &&& vertices[4 * k].position[1] == py
            &&& vertices[4 * k].uv[0] == (Ratio { numer: x as u64, denom: size[0] })
            &&& vertices[4 * k].uv[1] == (Ratio { numer: (y + h) as u64, denom: size[1] })
            &&& vertices[4 * k + 1].position[0] == px + w
            &&& vertices[4 * k + 1].position[1] == py
            &&& vertices[4 * k + 1].uv[0] == (Ratio { numer: (x + w) as u64, denom: size[0] })
            &&& vertices[4 * k + 1].uv[1] == (Ratio { numer: (y + h) as u64, denom: size[1] })
            &&& vertices[4 * k + 2].position[0] == px
            &&& vertices[4 * k + 2].position[1] == py + h
            &&& vertices[4 * k + 2].uv[0] == (Ratio { numer: x as u64, denom: size[0] })
            &&& vertices[4 * k + 2].uv[1] == (Ratio { numer: y as u64, denom: size[1] })
            &&& vertices[4 * k + 3].position[0] == px + w
            &&& vertices[4 * k + 3].position[1] == py + h
            &&& vertices[4 * k + 3].uv[0] == (Ratio { numer: (x + w) as u64, denom: size[0] })
            &&& vertices[4 * k + 3].uv[1] == (Ratio { numer: y as u64, denom: size[1] })
        }),
{
    assert((4 * k) / 4 == k && (4 * k) % 4 == 0);
    assert((4 * k + 1) / 4 == k && (4 * k + 1) % 4 == 1);
    assert((4 * k + 2) / 4 == k && (4 * k + 2) % 4 == 2);
    assert((4 * k + 3) / 4 == k && (4 * k + 3) % 4 == 3);
}

/// The texture coordinates of a sprite whose frame lies inside the atlas lie
/// inside the atlas too: along each axis the texel coordinate is at most the
/// size of the atlas, which is what it is divided by.
pub proof fn lemma_uv_within_atlas(
    frame: AnimationFrame,
    meta: SpriteMetadata,
    size: [u32; 2],
    corner: int,
)
    requires
        meta.fits_atlas(size),
    ensures
        quad_corner(frame, meta, size, corner).uv[0].numer <= size[0],
        quad_corner(frame, meta, size, corner).uv[0].denom == size[0],
        quad_corner(frame, meta, size, corner).uv[1].numer <= size[1],
        quad_corner(frame, meta, size, corner).uv[1].denom == size[1],
{
}

/// A draw whose sprite the atlas does not know leaves no trace in the
/// batch: the draws before and after it are resolved as if it had not been
/// made.
pub proof fn lemma_unknown_sprite_dropped(
    before: Seq<AnimationFrame>,
    unknown: AnimationFrame,
    after: Seq<AnimationFrame>,
    sheet: SpritesheetView,
)
    requires
        sheet.lookup(unknown.sprite.sprite_index as int) is None,
    ensures
        resolved_sprites(before.push(unknown) + after, sheet) == resolved_sprites(
            before + after,
            sheet,
        ),
{
    assert(before.push(unknown).drop_last() =~= before);
    lemma_resolved_concat(before.push(unknown), after, sheet);
    lemma_resolved_concat(before, after, sheet);
}

/// Draws whose sprite the atlas does not know leave no trace in the batch,
/// however many there are and wherever they stand: the batch is that of the
/// same list with those draws taken out, the order of the rest kept, and it
/// has one quad for each draw that is left.
pub proof fn lemma_unknown_sprites_dropped(draws: Seq<AnimationFrame>, sheet: SpritesheetView)
    ensures
        resolved_sprites(draws, sheet) == resolved_sprites(
            draws.filter(|draw: AnimationFrame| is_known(draw, sheet)),
            sheet,
        ),
        resolved_sprites(draws, sheet).len() == draws.filter(
            |draw: AnimationFrame| is_known(draw, sheet),
        ).len(),
    decreases draws.len(),
{
    reveal(Seq::filter);
    let known = |draw: AnimationFrame| is_known(draw, sheet);
    if draws.len() > 0 {
        lemma_unknown_sprites_dropped(draws.drop_last(), sheet);
        let kept = draws.drop_last().filter(known);
        if is_known(draws.last(), sheet) {
            assert(draws.filter(known) == kept.push(draws.last()));
            assert(kept.push(draws.last()).drop_last() =~= kept);
        } else {
            assert(draws.filter(known) == kept);
        }
    }
}

/// The order of the draws decides nothing but the order of the quads: two
/// draw lists of which one is a rearrangement of the other give the same
/// quads, each with its draw, and the same number of them, so that their
/// index buffers are equal.
pub proof fn lemma_draw_order_only_moves_quads(
    a: Seq<AnimationFrame>,
    b: Seq<AnimationFrame>,
    sheet: SpritesheetView,
)
    requires
        a.to_multiset() == b.to_multiset(),
    ensures
        resolved_sprites(a, sheet).to_multiset() == resolved_sprites(b, sheet).to_multiset(),
        resolved_sprites(a, sheet).len() == resolved_sprites(b, sheet).len(),
        batch_indices(resolved_sprites(a, sheet).len()) == batch_indices(
            resolved_sprites(b, sheet).len(),
        ),
    decreases a.len(),
{
    broadcast use vstd::multiset::group_multiset_axioms;

    vstd::seq_lib::to_multiset_len(a);
    vstd::seq_lib::to_multiset_len(b);
    if a.len() == 0 {
        assert(b =~= Seq::<AnimationFrame>::empty());
        assert(a =~= b);
    } else {
        let x = a.last();
        let rest = a.drop_last();
        assert(rest.push(x) =~= a);
        vstd::seq_lib::to_multiset_build(rest, x);
        vstd::seq_lib::to_multiset_contains(b, x);
        assert(b.to_multiset().count(x) > 0);
        let j = choose|j: int| 0 <= j < b.len() && b[j] == x;
        let others = b.remove(j);
        vstd::seq_lib::to_multiset_remove(b, j);
        assert(rest.to_multiset() =~= others.to_multiset());
        lemma_draw_order_only_moves_quads(rest, others, sheet);

        let front = b.take(j);
        let back = b.skip(j + 1);
        assert(others =~= front + back);
        assert(b =~= front.push(x) + back);
        lemma_resolved_concat(front, back, sheet);
        lemma_resolved_concat(front.push(x), back, sheet);
        assert(front.push(x).drop_last() =~= front);
        let rf = resolved_sprites(front, sheet);
        let rb = resolved_sprites(back, sheet);
        vstd::seq_lib::lemma_multiset_commutative(rf, rb);
        match sheet.lookup(x.sprite.sprite_index as int) {
            Some(meta) => {
                vstd::seq_lib::to_multiset_build(resolved_sprites(rest, sheet), (x, meta));
                vstd::seq_lib::to_multiset_build(rf, (x, meta));
                vstd::seq_lib::lemma_multiset_commutative(rf.push((x, meta)), rb);
                assert(resolved_sprites(b, sheet).to_multiset() =~= resolved_sprites(
                    others,
                    sheet,
                ).to_multiset().insert((x, meta)));
            },
            None => {},
        }
        vstd::seq_lib::to_multiset_len(resolved_sprites(a, sheet));
        vstd::seq_lib::to_multiset_len(resolved_sprites(b, sheet));
    }
}

} // verus!
