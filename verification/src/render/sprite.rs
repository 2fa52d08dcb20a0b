use slab::Slab;
use vstd::prelude::*;

verus! {

/// The slab collection of the `slab` crate. What a slab holds is spoken of
/// through [`metadata_slots`] and [`sheet_slots`].
#[verifier::external_type_specification]
#[verifier::external_body]
#[verifier::reject_recursive_types(T)]
pub struct ExSlab<T>(Slab<T>);

/// Where one sprite lies inside its atlas, as the atlas packer reported it.
#[derive(Clone, Copy, Debug)]
pub struct SpriteMetadata {
    /// `x, y, w, h` of the (possibly trimmed) sprite inside the atlas, in
    /// atlas pixels.
    pub frame: [u32; 4],
    pub rotated: bool,
    pub trimmed: bool,
    /// Position of the trimmed frame within the untrimmed sprite.
    pub original_position: [u32; 2],
    /// Size of the sprite before trimming.
    pub original_size: [u32; 2],
}

/// A rectangle in pixels: its top-left corner and its size.
#[derive(Clone, Copy, Debug, PartialEq, Eq, Structural)]
pub struct Rect {
    pub x: u32,
    pub y: u32,
    pub w: u32,
    pub h: u32,
}

impl SpriteMetadata {
    /// The metadata of a sprite that the atlas packer has placed: `frame` is
    /// where the packer put it in the atlas, `source` is where the packed
    /// part lay in the sprite as it was handed to the packer.
    pub fn from_packed(frame: Rect, rotated: bool, trimmed: bool, source: Rect) -> (meta: Self)
        ensures
            meta.frame@ == seq![frame.x, frame.y, frame.w, frame.h],
            meta.rotated == rotated,
            meta.trimmed == trimmed,
            meta.original_position@ == seq![source.x, source.y],
            meta.original_size@ == seq![source.w, source.h],
    {
        let meta = Self {
            frame: [frame.x, frame.y, frame.w, frame.h],
            rotated,
            trimmed,
            original_position: [source.x, source.y],
            original_size: [source.w, source.h],
        };
        assert(meta.frame@ =~= seq![frame.x, frame.y, frame.w, frame.h]);
        assert(meta.original_position@ =~= seq![source.x, source.y]);
        assert(meta.original_size@ =~= seq![source.w, source.h]);
        meta
    }

    /// Whether the frame lies inside an atlas of the given size.
    pub open spec fn fits_atlas(&self, size: [u32; 2]) -> bool {
        self.frame[0] + self.frame[2] <= size[0] && self.frame[1] + self.frame[3] <= size[1]
    }
}

/// A reference to one sprite: which atlas, and which slot inside it.
#[derive(Clone, Copy, Debug, PartialEq, Eq, Structural)]
pub struct SpriteRef {
    pub spritesheet_index: usize,
    pub sprite_index: usize,
}

/// The largest number of slots that a slab of this library is grown to.
///
/// A slot of either slab of this library takes less than 128 bytes, and a
/// `Vec` that grows doubles its capacity. With this bound even the doubled
/// storage stays within the `isize::MAX` bytes that a `Vec` can hold, so
/// that reserving and inserting can only fail where the machine is out of
/// memory.
pub const MAX_SLAB_SLOTS: usize = usize::MAX / 512;

/// The slots of a slab of sprite metadata, in key order: slot `k` holds
/// `Some(v)` when key `k` is associated with `v`, and `None` when the key is
/// vacant.
pub uninterp spec fn metadata_slots(slab: Slab<SpriteMetadata>) -> Seq<Option<SpriteMetadata>>;

/// Whether no slot of the sequence is vacant.
pub open spec fn all_occupied<T>(slots: Seq<Option<T>>) -> bool {
    forall|k: int| 0 <= k < slots.len() ==> (#[trigger] slots[k]) is Some
}

/// `slab::Slab::with_capacity`: the new slab has no slots in use, whatever
/// capacity was reserved. The call panics only where `Vec::with_capacity`
/// does, which the bound on the capacity rules out.
#[verifier::external_body]
fn metadata_slab_with_capacity(capacity: usize) -> (slab: Slab<SpriteMetadata>)
    requires
        capacity <= MAX_SLAB_SLOTS,
    ensures
        metadata_slots(slab) == Seq::<Option<SpriteMetadata>>::empty(),
{
    Slab::with_capacity(capacity)
}

/// `slab::Slab::insert`: the value goes into the next vacant slot and the
/// key of that slot is returned. While no slot is vacant, that is a new slot
/// at the end; otherwise it is one of the vacant slots. All other slots are
/// left as they were. The call panics only where the storage would outgrow
/// a `Vec`, which the bound on the number of slots rules out.
#[verifier::external_body]
fn metadata_slab_insert(slab: &mut Slab<SpriteMetadata>, meta: SpriteMetadata) -> (key: usize)
    requires
        metadata_slots(*old(slab)).len() < MAX_SLAB_SLOTS,
    ensures
        all_occupied(metadata_slots(*old(slab))) ==> key == metadata_slots(*old(slab)).len()
            && metadata_slots(*final(slab)) == metadata_slots(*old(slab)).push(Some(meta)),
        !all_occupied(metadata_slots(*old(slab))) ==> key < metadata_slots(*old(slab)).len()
            && metadata_slots(*old(slab))[key as int] is None && metadata_slots(*final(slab))
            == metadata_slots(*old(slab)).update(key as int, Some(meta)),
{
    slab.insert(meta)
}

/// `slab::Slab::get`: the value in the slot of that key, or `None` when the
/// key is beyond the slots or its slot is vacant.
#[verifier::external_body]
fn metadata_slab_get(slab: &Slab<SpriteMetadata>, key: usize) -> (found: Option<&SpriteMetadata>)
    ensures
        found == (if key < metadata_slots(*slab).len() {
            match metadata_slots(*slab)[key as int] {
                Some(meta) => Some(&meta),
                None => None,
            }
        } else {
            None
        }),
{
    slab.get(key)
}

/// One texture atlas: its size in pixels and the metadata of the sprites
/// packed into it, addressed by dense integer keys.
pub struct Spritesheet {
    size: [u32; 2],
    sprite_metadata: Slab<SpriteMetadata>,
}

/// What an atlas holds.
pub struct SpritesheetView {
    /// The atlas size in pixels, width first.
    pub size: [u32; 2],
    /// The metadata slots in key order: slot `k` holds the metadata stored
    /// under key `k`, if any.
    pub slots: Seq<Option<SpriteMetadata>>,
}

impl SpritesheetView {
    /// The metadata stored under `key`, if any.
    pub open spec fn lookup(self, key: int) -> Option<SpriteMetadata> {
        if 0 <= key < self.slots.len() {
            self.slots[key]
        } else {
            None
        }
    }
}

impl View for Spritesheet {
    type V = SpritesheetView;

    closed spec fn view(&self) -> SpritesheetView {
        SpritesheetView { size: self.size, slots: metadata_slots(self.sprite_metadata) }
    }
}

impl Spritesheet {

    /// Builds an atlas of the given pixel size from named sprite metadata.
    ///
    /// The metadata is stored in the order given, entry `i` under key `i`,
    /// and the second result pairs each name with the key of its metadata.
    pub fn create(size: [u32; 2], metadata: Vec<(String, SpriteMetadata)>) -> (out: (
        Self,
        Vec<(String, usize)>,
    ))
        requires
            metadata.len() <= MAX_SLAB_SLOTS,
        ensures
            out.0@.size == size,
            out.0@.slots.len() == metadata.len(),
            out.1.len() == metadata.len(),
            forall|i: int|
                0 <= i < metadata.len() ==> (#[trigger] out.0@.slots[i]) == Some(metadata[i].1),
            forall|i: int|
                0 <= i < metadata.len() ==> (#[trigger] out.1[i]).0@ == metadata[i].0@
                    && out.1[i].1 == i,
    {
        let mut indices: Vec<(String, usize)> = Vec::new();
        let mut sprite_metadata = metadata_slab_with_capacity(metadata.len());
        let mut i: usize = 0;
        while i < metadata.len()
            invariant
                i <= metadata.len(),
                metadata.len() <= MAX_SLAB_SLOTS,
                metadata_slots(sprite_metadata).len() == i,
                indices.len() == i,
                forall|j: int|
                    0 <= j < i ==> (#[trigger] metadata_slots(sprite_metadata)[j]) == Some(
                        metadata[j].1,
                    ),
                forall|j: int|
                    0 <= j < i ==> (#[trigger] indices[j]).0@ == metadata[j].0@ && indices[j].1
                        == j,
            decreases metadata.len() - i,
        {
            let key = metadata_slab_insert(&mut sprite_metadata, metadata[i].1);
            indices.push((metadata[i].0.clone(), key));
            i += 1;
        }
        (Self { size, sprite_metadata }, indices)
    }

    /// The atlas size in pixels, width first.
    pub fn size(&self) -> (size: [u32; 2])
        ensures
            size == self@.size,
    {
        self.size
    }

    /// The metadata stored under `position`, or `None` when the atlas has no
    /// sprite there.
    pub fn get_sprite_metadata(&self, position: usize) -> (found: Option<&SpriteMetadata>)
        ensures
            found == (match self@.lookup(position as int) {
                Some(meta) => Some(&meta),
                None => None,
            }),
    {
        metadata_slab_get(&self.sprite_metadata, position)
    }
}

/// The slots of a slab of atlases, in key order: slot `k` holds `Some(v)`
/// when key `k` is associated with an atlas that holds `v`, and `None` when
/// the key is vacant.
pub uninterp spec fn sheet_slots(slab: Slab<Spritesheet>) -> Seq<Option<SpritesheetView>>;

/// `slab::Slab::with_capacity`: the new slab has no slots in use, whatever
/// capacity was reserved. The call panics only where `Vec::with_capacity`
/// does, which the bound on the capacity rules out.
#[verifier::external_body]
fn sheet_slab_with_capacity(capacity: usize) -> (slab: Slab<Spritesheet>)
    requires
        capacity <= MAX_SLAB_SLOTS,
    ensures
        sheet_slots(slab) == Seq::<Option<SpritesheetView>>::empty(),
{
    Slab::with_capacity(capacity)
}

/// `slab::Slab::insert`: the value goes into the next vacant slot and the
/// key of that slot is returned. While no slot is vacant, that is a new slot
/// at the end; otherwise it is one of the vacant slots. All other slots are
/// left as they were. The call panics only where the storage would outgrow
/// a `Vec`, which the bound on the number of slots rules out.
#[verifier::external_body]
fn sheet_slab_insert(slab: &mut Slab<Spritesheet>, sheet: Spritesheet) -> (key: usize)
    requires
        sheet_slots(*old(slab)).len() < MAX_SLAB_SLOTS,
    ensures
        all_occupied(sheet_slots(*old(slab))) ==> key == sheet_slots(*old(slab)).len()
            && sheet_slots(*final(slab)) == sheet_slots(*old(slab)).push(Some(sheet@)),
        !all_occupied(sheet_slots(*old(slab))) ==> key < sheet_slots(*old(slab)).len()
            && sheet_slots(*old(slab))[key as int] is None && sheet_slots(*final(slab))
            == sheet_slots(*old(slab)).update(key as int, Some(sheet@)),
{
    slab.insert(sheet)
}

/// `slab::Slab::get`: the value in the slot of that key, or `None` when the
/// key is beyond the slots or its slot is vacant.
#[verifier::external_body]
fn sheet_slab_get(slab: &Slab<Spritesheet>, key: usize) -> (found: Option<&Spritesheet>)
    ensures
        match found {
            Some(sheet) => key < sheet_slots(*slab).len() && sheet_slots(*slab)[key as int]
                == Some(sheet@),
            None => key >= sheet_slots(*slab).len() || sheet_slots(*slab)[key as int] is None,
        },
{
    slab.get(key)
}

/// The sprite references that a list of atlases gives rise to: for each
/// atlas in turn, each of its named sprites in turn, with the position of
/// the atlas in the list as its atlas index.
pub open spec fn sprite_refs(sheets: Seq<(Spritesheet, Vec<(String, usize)>)>) -> Seq<
    (Seq<char>, SpriteRef),
>
    decreases sheets.len(),
{
    if sheets.len() == 0 {
        Seq::empty()
    } else {
        sprite_refs(sheets.drop_last()) + sheet_refs(
            (sheets.len() - 1) as usize,
            sheets.last().1@,
        )
    }
}

/// The sprite references of one atlas; see [`sprite_refs`].
pub open spec fn sheet_refs(spritesheet_index: usize, indices: Seq<(String, usize)>) -> Seq<
    (Seq<char>, SpriteRef),
> {
    Seq::new(
        indices.len(),
        |j: int| (indices[j].0@, SpriteRef { spritesheet_index, sprite_index: indices[j].1 }),
    )
}

/// A list of named sprites with each name as a sequence of characters.
pub open spec fn named_refs(entries: Seq<(String, SpriteRef)>) -> Seq<(Seq<char>, SpriteRef)> {
    Seq::new(entries.len(), |i: int| (entries[i].0@, entries[i].1))
}

/// The sprite that `name` stands for in a list of named sprites: that of
/// the last entry of that name.
pub open spec fn resolve(sprites: Seq<(Seq<char>, SpriteRef)>, name: Seq<char>) -> Option<SpriteRef>
    decreases sprites.len(),
{
    if sprites.len() == 0 {
        None
    } else if sprites.last().0 == name {
        Some(sprites.last().1)
    } else {
        resolve(sprites.drop_last(), name)
    }
}

/// All atlases of the game, and the sprites they hold by name.
pub struct Spritesheets {
    spritesheets: Slab<Spritesheet>,
    sprite_map: Vec<(String, SpriteRef)>,
}

impl Spritesheets {
    /// The atlases in key order; see [`sheet_slots`].
    pub closed spec fn slots(&self) -> Seq<Option<SpritesheetView>> {
        sheet_slots(self.spritesheets)
    }

    /// The named sprites in the order in which they were registered. Where a
    /// name occurs more than once, its last entry counts.
    pub closed spec fn sprites(&self) -> Seq<(Seq<char>, SpriteRef)> {
        named_refs(self.sprite_map@)
    }

    /// What the atlas stored under `key` holds, if there is one.
    pub open spec fn lookup(&self, key: int) -> Option<SpritesheetView> {
        if 0 <= key < self.slots().len() {
            self.slots()[key]
        } else {
            None
        }
    }

    /// Gathers atlases, each with the keys of its named sprites, into one
    /// collection. Atlas `i` of the list is stored under key `i`.
    pub fn init(spritesheets: Vec<(Spritesheet, Vec<(String, usize)>)>) -> (all: Self)
        requires
            spritesheets.len() <= MAX_SLAB_SLOTS,
        ensures
            all.slots().len() == spritesheets.len(),
            forall|i: int|
                0 <= i < spritesheets.len() ==> (#[trigger] all.slots()[i]) == Some(
                    spritesheets[i].0@,
                ),
            all.sprites() == sprite_refs(spritesheets@),
    {
        let ghost given = spritesheets@;
        let count = spritesheets.len();
        let mut slab = sheet_slab_with_capacity(count);
        let mut sprite_map: Vec<(String, SpriteRef)> = Vec::new();
        let mut rest = spritesheets;
        let mut done: usize = 0;
        assert(given.take(0) =~= Seq::<(Spritesheet, Vec<(String, usize)>)>::empty());
        while done < count
            invariant
                done <= count,
                count == given.len(),
                count <= MAX_SLAB_SLOTS,
                rest@ == given.skip(done as int),
                sheet_slots(slab).len() == done,
                forall|i: int|
                    0 <= i < done ==> (#[trigger] sheet_slots(slab)[i]) == Some(given[i].0@),
                named_refs(sprite_map@) == sprite_refs(given.take(done as int)),
            decreases count - done,
        {
            let (spritesheet, indices) = rest.remove(0);
            assert(spritesheet == given[done as int].0 && indices == given[done as int].1);
            let index = sheet_slab_insert(&mut slab, spritesheet);
            let ghost before = named_refs(sprite_map@);
            let mut j: usize = 0;
            while j < indices.len()
                invariant
                    j <= indices.len(),
                    sprite_map.len() == before.len() + j,
                    named_refs(sprite_map@) == before + sheet_refs(index, indices@).take(j as int),
                decreases indices.len() - j,
            {
                let ghost earlier = sprite_map@;
                let name = indices[j].0.clone();
                sprite_map.push(
                    (name, SpriteRef { spritesheet_index: index, sprite_index: indices[j].1 }),
                );
                proof {
                    let now = named_refs(sprite_map@);
                    let want = before + sheet_refs(index, indices@).take(j as int + 1);
                    assert(now.len() == want.len());
                    assert forall|i: int| 0 <= i < now.len() implies now[i] == want[i] by {
                        if i < earlier.len() {
                            assert(sprite_map@[i] == earlier[i]);
                            assert(named_refs(earlier)[i] == (before + sheet_refs(
                                index,
                                indices@,
                            ).take(j as int))[i]);
                        }
                    }
                    assert(now =~= want);
                }
                j += 1;
            }
            proof {
                assert(sheet_refs(index, indices@).take(j as int) =~= sheet_refs(index, indices@));
                assert(given.take(done as int + 1).drop_last() =~= given.take(done as int));
                assert(given.take(done as int + 1).last() == given[done as int]);
                assert(rest@ =~= given.skip(done as int + 1));
            }
            done += 1;
        }
        proof {
            assert(given.take(done as int) =~= given);
        }
        Self { spritesheets: slab, sprite_map }
    }

    /// The named sprites in the order in which they were registered. Where a
    /// name occurs more than once, its last entry counts.
    pub fn get_sprite_map(&self) -> (map: &Vec<(String, SpriteRef)>)
        ensures
            named_refs(map@) == self.sprites(),
    {
        &self.sprite_map
    }

    /// The sprite that `name` stands for, or `None` when no sprite has that
    /// name.
    pub fn find(&self, name: &String) -> (found: Option<SpriteRef>)
        ensures
            found == resolve(self.sprites(), name@),
    {
        let mut i: usize = self.sprite_map.len();
        assert(self.sprites().take(i as int) =~= self.sprites());
        while i > 0
            invariant
                i <= self.sprite_map.len(),
                resolve(self.sprites(), name@) == resolve(self.sprites().take(i as int), name@),
            decreases i,
        {
            i -= 1;
            proof {
                let shown = self.sprites().take(i as int + 1);
                assert(shown.drop_last() =~= self.sprites().take(i as int));
                assert(shown.last() == (self.sprite_map[i as int].0@, self.sprite_map[i as int].1));
            }
            if self.sprite_map[i].0 == *name {
                return Some(self.sprite_map[i].1);
            }
        }
        None
    }

    /// The atlas stored under `index`, or `None` when there is none.
    pub fn get(&self, index: usize) -> (found: Option<&Spritesheet>)
        ensures
            match found {
                Some(sheet) => self.lookup(index as int) == Some(sheet@),
                None => self.lookup(index as int) is None,
            },
    {
        sheet_slab_get(&self.spritesheets, index)
    }
}

} // verus!
