//! GPU object handles and the registry of render-to-texture outputs.

use vstd::prelude::*;
use crate::geometry::LogicalSize;
use crate::resources::{Epoch, ExternalImageId, PipelineId};

verus! {

/// Raw handle of a GPU object.
pub type GLuint = u32;

pub type GLint = i32;

/// A texture on the GPU: its raw handle and its size in pixels.
///
/// The value owns the handle. It is moved, never copied, so at most one
/// `Texture` refers to a given handle.
#[derive(Debug)]
pub struct Texture {
    /// Raw texture handle
    pub texture_id: GLuint,
    /// Size of this texture
    pub size: LogicalSize,
}

/// A texture together with the pipeline and epoch it was registered under.
#[derive(Debug)]
pub struct ActiveTexture {
    pub pipeline_id: PipelineId,
    pub epoch: Epoch,
    pub image_id: ExternalImageId,
    pub texture: Texture,
}

/// Textures that the rasterizer may still draw from, tagged with the epoch
/// of the frame that produced them.
///
/// A texture stays registered until the caller confirms that its epoch is no
/// longer drawn from; only then is it handed back for deletion. The
/// registrations are kept in the order in which they were made, and what
/// is handed back comes in that order.
pub struct TextureRegistry {
    entries: Vec<ActiveTexture>,
    next_image_id: u64,
}

/// The first entry registered under `id`, if there is one.
pub open spec fn lookup_texture(entries: Seq<ActiveTexture>, id: ExternalImageId) -> Option<
    ActiveTexture,
>
    decreases entries.len(),
{
    if entries.len() == 0 {
        None
    } else if entries[0].image_id == id {
        Some(entries[0])
    } else {
        lookup_texture(entries.drop_first(), id)
    }
}

/// No two entries share an image id.
pub open spec fn distinct_image_ids(entries: Seq<ActiveTexture>) -> bool {
    forall|i: int, j: int|
        0 <= i < entries.len() && 0 <= j < entries.len() && i != j ==> (#[trigger] entries[i]).image_id
            != (#[trigger] entries[j]).image_id
}

/// Whether an entry belongs to `pipeline_id` and is older than `epoch`.
pub open spec fn is_stale(entry: ActiveTexture, pipeline_id: PipelineId, epoch: Epoch) -> bool {
    entry.pipeline_id == pipeline_id && entry.epoch.0 < epoch.0
}

/// The mathematical value of a `TextureRegistry`.
pub struct TextureRegistryView {
    /// The live registrations, oldest first
    pub entries: Seq<ActiveTexture>,
    /// The number that the next minted image id will carry
    pub next_id: u64,
}

impl View for TextureRegistry {
    type V = TextureRegistryView;

    closed spec fn view(&self) -> TextureRegistryView {
        TextureRegistryView { entries: self.entries@, next_id: self.next_image_id }
    }
}

impl TextureRegistry {
    /// Image ids are unique and all of them were minted by this registry.
    pub open spec fn wf(&self) -> bool {
        &&& distinct_image_ids(self@.entries)
        &&& forall|i: int| 0 <= i < self@.entries.len() ==> (#[trigger] self@.entries[i]).image_id.0 < self@.next_id
    }

    /// An empty registry.
    pub fn new() -> (registry: TextureRegistry)
        ensures
            registry.wf(),
            registry@ == (TextureRegistryView { entries: Seq::empty(), next_id: 0 }),
    {
        TextureRegistry { entries: Vec::new(), next_image_id: 0 }
    }

    /// Number of live registrations.
    pub fn len(&self) -> (n: usize)
        ensures
            n == self@.entries.len(),
    {
        self.entries.len()
    }

    /// How many image ids the registry can still mint.
    pub fn free_ids(&self) -> (free: u64)
        ensures
            free == u64::MAX - self@.next_id,
    {
        u64::MAX - self.next_image_id
    }
}

/// Registers `texture` for `pipeline_id` under `epoch` and returns the newly
/// minted image id that stands for it.
pub fn insert_into_active_gl_textures(
    registry: &mut TextureRegistry,
    pipeline_id: PipelineId,
    epoch: Epoch,
    texture: Texture,
) -> (image_id: ExternalImageId)
    requires
        old(registry).wf(),
        old(registry)@.next_id < u64::MAX,
    ensures
        final(registry).wf(),
        image_id.0 == old(registry)@.next_id,
        final(registry)@.next_id == old(registry)@.next_id + 1,
        final(registry)@.entries == old(registry)@.entries.push(
            ActiveTexture { pipeline_id, epoch, image_id, texture },
        ),
{
    let external_image_id = ExternalImageId(registry.next_image_id);
    registry.next_image_id = registry.next_image_id + 1;
    registry.entries.push(
        ActiveTexture { pipeline_id, epoch, image_id: external_image_id, texture },
    );
    external_image_id
}

/// Searches every pipeline and epoch for the texture registered under
/// `image_key` and returns its handle and size.
pub fn get_opengl_texture(registry: &TextureRegistry, image_key: &ExternalImageId) -> (found: Option<
    (GLuint, (i64, i64)),
>)
    ensures
        found == match lookup_texture(registry@.entries, *image_key) {
            Some(entry) => Some(
                (entry.texture.texture_id, (entry.texture.size.width, entry.texture.size.height)),
            ),
            None => None,
        },
{
    let mut i: usize = 0;
    assert(registry@.entries.skip(0) =~= registry@.entries);
    while i < registry.entries.len()
        invariant
            i <= registry.entries.len(),
            lookup_texture(registry@.entries, *image_key) == lookup_texture(
                registry@.entries.skip(i as int),
                *image_key,
            ),
        decreases registry.entries.len() - i,
    {
        let entry = &registry.entries[i];
        if entry.image_id.0 == image_key.0 {
            return Some((entry.texture.texture_id, (entry.texture.size.width, entry.texture.size.height)));
        }
        assert(registry@.entries.skip(i as int).drop_first() =~= registry@.entries.skip(i + 1));
        i = i + 1;
    }
    None
}

/// Whether an entry is taken out when `pipeline_id` is evicted up to
/// `bound`: every entry of the pipeline if there is no bound, else those
/// strictly older than the bound.
pub open spec fn is_evicted(entry: ActiveTexture, pipeline_id: PipelineId, bound: Option<Epoch>) -> bool {
    match bound {
        Some(epoch) => is_stale(entry, pipeline_id, epoch),
        None => entry.pipeline_id == pipeline_id,
    }
}

/// The textures of the entries that `is_evicted` selects, in registration order.
pub open spec fn evicted_textures(
    entries: Seq<ActiveTexture>,
    pipeline_id: PipelineId,
    bound: Option<Epoch>,
) -> Seq<Texture> {
    entries.filter(|e: ActiveTexture| is_evicted(e, pipeline_id, bound)).map_values(
        |e: ActiveTexture| e.texture,
    )
}

/// The entries that `is_evicted` leaves in place, in registration order.
pub open spec fn retained_entries(
    entries: Seq<ActiveTexture>,
    pipeline_id: PipelineId,
    bound: Option<Epoch>,
) -> Seq<ActiveTexture> {
    entries.filter(|e: ActiveTexture| !is_evicted(e, pipeline_id, bound))
}

fn evict(registry: &mut TextureRegistry, pipeline_id: &PipelineId, bound: Option<Epoch>) -> (removed:
    Vec<Texture>)
    requires
        old(registry).wf(),
    ensures
        final(registry).wf(),
        final(registry)@.next_id == old(registry)@.next_id,
        final(registry)@.entries == retained_entries(old(registry)@.entries, *pipeline_id, bound),
        removed@ == evicted_textures(old(registry)@.entries, *pipeline_id, bound),
{
    let ghost gone = |e: ActiveTexture| is_evicted(e, *pipeline_id, bound);
    let ghost kept = |e: ActiveTexture| !is_evicted(e, *pipeline_id, bound);
    let ghost texture_of = |e: ActiveTexture| e.texture;
    let mut all: Vec<ActiveTexture> = Vec::new();
    core::mem::swap(&mut registry.entries, &mut all);
    let mut removed: Vec<Texture> = Vec::new();
    let ghost before = all@;
    for entry in it: all
        invariant
            it.seq() == before,
            registry.entries@ == before.take(it.index() as int).filter(kept),
            removed@ == before.take(it.index() as int).filter(gone).map_values(texture_of),
            registry.next_image_id == old(registry).next_image_id,
            gone == |e: ActiveTexture| is_evicted(e, *pipeline_id, bound),
            kept == |e: ActiveTexture| !is_evicted(e, *pipeline_id, bound),
            texture_of == |e: ActiveTexture| e.texture,
    {
        proof {
            let i = it.index() as int;
            before.lemma_take_succ_push(i);
            before.take(i).lemma_filter_push(entry, kept);
            before.take(i).lemma_filter_push(entry, gone);
            before.take(i).filter(gone).lemma_push_map_commute(texture_of, entry);
        }
        let same_pipeline = entry.pipeline_id.0 == pipeline_id.0 && entry.pipeline_id.1
            == pipeline_id.1;
        let evicted = match bound {
            Some(epoch) => same_pipeline && entry.epoch.0 < epoch.0,
            None => same_pipeline,
        };
        if evicted {
            removed.push(entry.texture);
        } else {
            registry.entries.push(entry);
        }
    }
    proof {
        assert(before.take(before.len() as int) =~= before);
        lemma_filter_keeps_wf(before, kept, old(registry)@.next_id);
    }
    removed
}

/// Removes the whole epoch history of `pipeline_id` and hands the removed
/// textures back so that their GPU handles can be released.
pub fn gl_textures_remove_active_pipeline(registry: &mut TextureRegistry, pipeline_id: &PipelineId) -> (removed:
    Vec<Texture>)
    requires
        old(registry).wf(),
    ensures
        final(registry).wf(),
        final(registry)@.next_id == old(registry)@.next_id,
        final(registry)@.entries == retained_entries(old(registry)@.entries, *pipeline_id, None),
        removed@ == evicted_textures(old(registry)@.entries, *pipeline_id, None),
{
    evict(registry, pipeline_id, None)
}

/// Removes every texture of `pipeline_id` whose epoch is strictly older than
/// `epoch`, and hands the removed textures back so that their GPU handles
/// can be released. Textures registered under `epoch` itself stay.
pub fn gl_textures_remove_epochs_from_pipeline(
    registry: &mut TextureRegistry,
    pipeline_id: &PipelineId,
    epoch: Epoch,
) -> (removed: Vec<Texture>)
    requires
        old(registry).wf(),
    ensures
        final(registry).wf(),
        final(registry)@.next_id == old(registry)@.next_id,
        final(registry)@.entries == retained_entries(old(registry)@.entries, *pipeline_id, Some(epoch)),
        removed@ == evicted_textures(old(registry)@.entries, *pipeline_id, Some(epoch)),
{
    evict(registry, pipeline_id, Some(epoch))
}

/// Removes every texture of every pipeline and hands them back so that
/// their GPU handles can be released. Image ids are still never reused.
pub fn gl_textures_clear_opengl_cache(registry: &mut TextureRegistry) -> (removed: Vec<Texture>)
    requires
        old(registry).wf(),
    ensures
        final(registry).wf(),
        final(registry)@.next_id == old(registry)@.next_id,
        final(registry)@.entries == Seq::<ActiveTexture>::empty(),
        removed@ == old(registry)@.entries.map_values(|e: ActiveTexture| e.texture),
{
    let ghost texture_of = |e: ActiveTexture| e.texture;
    let mut all: Vec<ActiveTexture> = Vec::new();
    core::mem::swap(&mut registry.entries, &mut all);
    let mut removed: Vec<Texture> = Vec::new();
    let ghost before = all@;
    for entry in it: all
        invariant
            it.seq() == before,
            removed@ == before.take(it.index() as int).map_values(texture_of),
            texture_of == |e: ActiveTexture| e.texture,
    {
        proof {
            let i = it.index() as int;
            before.lemma_take_succ_push(i);
            before.take(i).lemma_push_map_commute(texture_of, entry);
        }
        removed.push(entry.texture);
    }
    proof {
        assert(before.take(before.len() as int) =~= before);
    }
    removed
}

/// Filtering a well-formed list of registrations keeps ids distinct and
/// below the bound.
proof fn lemma_filter_keeps_wf(
    entries: Seq<ActiveTexture>,
    pred: spec_fn(ActiveTexture) -> bool,
    bound: u64,
)
    requires
        distinct_image_ids(entries),
        forall|i: int| 0 <= i < entries.len() ==> (#[trigger] entries[i]).image_id.0 < bound,
    ensures
        distinct_image_ids(entries.filter(pred)),
        forall|i: int|
            0 <= i < entries.filter(pred).len() ==> (#[trigger] entries.filter(pred)[i]).image_id.0
                < bound,
    decreases entries.len(),
{
    reveal(Seq::filter);
    if entries.len() > 0 {
        let init = entries.drop_last();
        lemma_filter_keeps_wf(init, pred, bound);
        let kept = init.filter(pred);
        assert forall|i: int| 0 <= i < kept.len() implies (#[trigger] kept[i]).image_id
            != entries.last().image_id by {
            init.lemma_filter_contains_rev(pred, kept[i]);
            assert(kept.contains(kept[i]));
            let k = choose|k: int| 0 <= k < init.len() && init[k] == kept[i];
            assert(entries[k] == kept[i]);
        }
    }
}

/// Looking up an id finds the entry at any position that carries it, when
/// ids are distinct.
pub proof fn lemma_lookup_finds(entries: Seq<ActiveTexture>, i: int)
    requires
        distinct_image_ids(entries),
        0 <= i < entries.len(),
    ensures
        lookup_texture(entries, entries[i].image_id) == Some(entries[i]),
    decreases i,
{
    if i > 0 {
        let rest = entries.drop_first();
        assert(rest[i - 1] == entries[i]);
        assert forall|a: int, b: int|
            0 <= a < rest.len() && 0 <= b < rest.len() && a != b implies (#[trigger] rest[a]).image_id
            != (#[trigger] rest[b]).image_id by {
            assert(rest[a] == entries[a + 1]);
            assert(rest[b] == entries[b + 1]);
        }
        lemma_lookup_finds(rest, i - 1);
    }
}

/// Looking up an id that no entry carries finds nothing, and the converse.
pub proof fn lemma_lookup_none(entries: Seq<ActiveTexture>, id: ExternalImageId)
    ensures
        lookup_texture(entries, id) is None <==> forall|i: int|
            0 <= i < entries.len() ==> (#[trigger] entries[i]).image_id != id,
        lookup_texture(entries, id) matches Some(e) ==> e.image_id == id && entries.contains(e),
    decreases entries.len(),
{
    if entries.len() > 0 {
        let rest = entries.drop_first();
        lemma_lookup_none(entries.drop_first(), id);
        if entries[0].image_id != id {
            assert forall|i: int| 0 <= i < rest.len() implies rest[i] == entries[i + 1] by {}
            if lookup_texture(rest, id) is None {
                assert forall|i: int| 0 <= i < entries.len() implies (#[trigger] entries[i]).image_id
                    != id by {
                    if i > 0 {
                        assert(rest[i - 1] == entries[i]);
                    }
                }
            } else {
                let e = lookup_texture(rest, id)->0;
                let k = choose|k: int| 0 <= k < rest.len() && rest[k] == e;
                assert(entries[k + 1] == e);
            }
        } else {
            assert(entries[0] == entries[0]);
        }
    }
}

/// Registering a texture and at once looking up the returned id finds
/// exactly the texture that was registered.
pub proof fn lemma_register_then_lookup(
    registry: TextureRegistry,
    pipeline_id: PipelineId,
    epoch: Epoch,
    texture: Texture,
)
    requires
        registry.wf(),
    ensures
        ({
            let image_id = ExternalImageId(registry@.next_id);
            let entry = ActiveTexture { pipeline_id, epoch, image_id, texture };
            lookup_texture(registry@.entries.push(entry), image_id) == Some(entry)
        }),
{
    let image_id = ExternalImageId(registry@.next_id);
    let entry = ActiveTexture { pipeline_id, epoch, image_id, texture };
    let after = registry@.entries.push(entry);
    assert(distinct_image_ids(after));
    assert(after[after.len() - 1] == entry);
    lemma_lookup_finds(after, after.len() - 1);
}

/// Registering a texture changes what no other id resolves to: every id
/// but the newly minted one resolves after the registration to what it
/// resolved to before.
pub proof fn lemma_register_keeps_lookups(
    registry: TextureRegistry,
    pipeline_id: PipelineId,
    epoch: Epoch,
    texture: Texture,
    id: ExternalImageId,
)
    requires
        id.0 != registry@.next_id,
    ensures
        ({
            let image_id = ExternalImageId(registry@.next_id);
            let entry = ActiveTexture { pipeline_id, epoch, image_id, texture };
            lookup_texture(registry@.entries.push(entry), id) == lookup_texture(
                registry@.entries,
                id,
            )
        }),
{
    let image_id = ExternalImageId(registry@.next_id);
    let entry = ActiveTexture { pipeline_id, epoch, image_id, texture };
    lemma_lookup_after_push(registry@.entries, entry, id);
}

/// An entry pushed under another id changes no lookup of `id`.
proof fn lemma_lookup_after_push(entries: Seq<ActiveTexture>, entry: ActiveTexture, id: ExternalImageId)
    requires
        entry.image_id != id,
    ensures
        lookup_texture(entries.push(entry), id) == lookup_texture(entries, id),
    decreases entries.len(),
{
    let after = entries.push(entry);
    if entries.len() == 0 {
        reveal_with_fuel(lookup_texture, 2);
        assert(after[0] == entry);
        assert(after.drop_first().len() == 0);
    } else {
        assert(after[0] == entries[0]);
        assert(after.drop_first() =~= entries.drop_first().push(entry));
        lemma_lookup_after_push(entries.drop_first(), entry, id);
    }
}

/// After the epochs older than `epoch` are evicted from `pipeline_id`, an
/// id that was registered under that pipeline with an older epoch resolves
/// to nothing, and every other registered id still resolves to its entry.
pub proof fn lemma_lookup_after_eviction(
    registry: TextureRegistry,
    pipeline_id: PipelineId,
    epoch: Epoch,
    i: int,
)
    requires
        registry.wf(),
        0 <= i < registry@.entries.len(),
    ensures
        ({
            let entry = registry@.entries[i];
            let after = retained_entries(registry@.entries, pipeline_id, Some(epoch));
            if entry.pipeline_id == pipeline_id && entry.epoch.0 < epoch.0 {
                lookup_texture(after, entry.image_id) is None
            } else {
                lookup_texture(after, entry.image_id) == Some(entry)
            }
        }),
{
    lemma_lookup_after_removal(registry, pipeline_id, Some(epoch), i);
}

/// After the whole history of `pipeline_id` is removed, none of its ids
/// resolves, and every id of another pipeline still resolves to its entry.
pub proof fn lemma_lookup_after_pipeline_removal(
    registry: TextureRegistry,
    pipeline_id: PipelineId,
    i: int,
)
    requires
        registry.wf(),
        0 <= i < registry@.entries.len(),
    ensures
        ({
            let entry = registry@.entries[i];
            let after = retained_entries(registry@.entries, pipeline_id, None);
            if entry.pipeline_id == pipeline_id {
                lookup_texture(after, entry.image_id) is None
            } else {
                lookup_texture(after, entry.image_id) == Some(entry)
            }
        }),
{
    lemma_lookup_after_removal(registry, pipeline_id, None, i);
}

proof fn lemma_lookup_after_removal(
    registry: TextureRegistry,
    pipeline_id: PipelineId,
    bound: Option<Epoch>,
    i: int,
)
    requires
        registry.wf(),
        0 <= i < registry@.entries.len(),
    ensures
        ({
            let entry = registry@.entries[i];
            let after = retained_entries(registry@.entries, pipeline_id, bound);
            if is_evicted(entry, pipeline_id, bound) {
                lookup_texture(after, entry.image_id) is None
            } else {
                lookup_texture(after, entry.image_id) == Some(entry)
            }
        }),
{
    let entries = registry@.entries;
    let entry = entries[i];
    let kept = |e: ActiveTexture| !is_evicted(e, pipeline_id, bound);
    let after = entries.filter(kept);
    lemma_filter_keeps_wf(entries, kept, registry@.next_id);
    if is_evicted(entry, pipeline_id, bound) {
        lemma_lookup_none(after, entry.image_id);
        assert forall|k: int| 0 <= k < after.len() implies (#[trigger] after[k]).image_id
            != entry.image_id by {
            entries.lemma_filter_contains_rev(kept, after[k]);
            assert(after.contains(after[k]));
            entries.lemma_filter_pred(kept, k);
            let j = choose|j: int| 0 <= j < entries.len() && entries[j] == after[k];
            assert(kept(entries[j]));
            assert(j != i);
        }
    } else {
        entries.lemma_filter_contains(kept, i);
        let k = choose|k: int| 0 <= k < after.len() && after[k] == entry;
        lemma_lookup_finds(after, k);
    }
}

/// Type of the items of a vertex attribute.
#[derive(Debug, Copy, Clone, PartialEq, Eq, Structural, PartialOrd, Ord, Hash)]
pub enum VertexAttributeType {
    /// Vertex attribute is a 32-bit floating-point number
    Float,
    /// Vertex attribute is a 64-bit floating-point number
    Double,
    /// Vertex attribute has type `u8`
    UnsignedByte,
    /// Vertex attribute has type `u16`
    UnsignedShort,
    /// Vertex attribute has type `u32`
    UnsignedInt,
}

impl VertexAttributeType {
    /// The OpenGL id of the type.
    pub open spec fn gl_id(self) -> GLuint {
        match self {
            VertexAttributeType::Float => 0x1406,
            VertexAttributeType::Double => 0x140A,
            VertexAttributeType::UnsignedByte => 0x1401,
            VertexAttributeType::UnsignedShort => 0x1403,
            VertexAttributeType::UnsignedInt => 0x1405,
        }
    }

    /// Size of one item of the type in bytes.
    pub open spec fn mem_size(self) -> usize {
        match self {
            VertexAttributeType::Float => 4,
            VertexAttributeType::Double => 8,
            VertexAttributeType::UnsignedByte => 1,
            VertexAttributeType::UnsignedShort => 2,
            VertexAttributeType::UnsignedInt => 4,
        }
    }

    /// Returns the OpenGL id for the vertex attribute type, ex.
    /// `gl::UNSIGNED_BYTE` for `VertexAttributeType::UnsignedByte`.
    pub fn get_gl_id(&self) -> (id: GLuint)
        ensures
            id == self.gl_id(),
    {
        match self {
            VertexAttributeType::Float => crate::gl_context::float(),
            VertexAttributeType::Double => crate::gl_context::double(),
            VertexAttributeType::UnsignedByte => crate::gl_context::unsigned_byte(),
            VertexAttributeType::UnsignedShort => crate::gl_context::unsigned_short(),
            VertexAttributeType::UnsignedInt => crate::gl_context::unsigned_int(),
        }
    }

    /// Size of one item of the type in bytes.
    pub fn get_mem_size(&self) -> (size: usize)
        ensures
            size == self.mem_size(),
    {
        match self {
            VertexAttributeType::Float => 4,
            VertexAttributeType::Double => 8,
            VertexAttributeType::UnsignedByte => 1,
            VertexAttributeType::UnsignedShort => 2,
            VertexAttributeType::UnsignedInt => 4,
        }
    }
}

#[derive(Debug, Copy, Clone, PartialEq, Eq, PartialOrd, Ord, Hash)]
pub struct VertexAttribute {
    /// Attribute name of the vertex attribute in the vertex shader, i.e. `"vAttrXY"`
    pub name: &'static str,
    /// If the vertex shader has a specific location, (like `layout(location = 2) vAttrXY`),
    /// use this instead of the name to look up the uniform location.
    pub layout_location: Option<usize>,
    /// Type of items of this attribute
    pub attribute_type: VertexAttributeType,
    /// Number of items of this attribute, i.e. 2 for two consecutive values
    pub item_count: usize,
}

impl VertexAttribute {
    /// Size of the attribute in bytes.
    pub open spec fn stride(self) -> int {
        self.attribute_type.mem_size() * self.item_count
    }

    /// Size of the attribute in bytes.
    pub fn get_stride(&self) -> (stride: usize)
        requires
            self.stride() <= usize::MAX,
        ensures
            stride == self.stride(),
    {
        self.attribute_type.get_mem_size() * self.item_count
    }
}

/// Describes the vertex layout and offsets
#[derive(Debug, Clone, PartialEq, Eq, PartialOrd, Ord, Hash)]
pub struct VertexLayout {
    pub fields: Vec<VertexAttribute>,
}

/// The sum of the sizes of `fields`.
pub open spec fn total_stride(fields: Seq<VertexAttribute>) -> int
    decreases fields.len(),
{
    if fields.len() == 0 {
        0
    } else {
        total_stride(fields.drop_last()) + fields.last().stride()
    }
}

/// The size of a field is not negative, so a prefix of the fields is no
/// larger than all of them.
pub proof fn lemma_total_stride_grows(fields: Seq<VertexAttribute>, i: int)
    requires
        0 <= i <= fields.len(),
    ensures
        0 <= total_stride(fields.take(i)) <= total_stride(fields),
    decreases fields.len() - i,
{
    if i == fields.len() {
        assert(fields.take(i) =~= fields);
        lemma_total_stride_nonnegative(fields);
    } else {
        lemma_total_stride_grows(fields, i + 1);
        assert(fields.take(i + 1).drop_last() =~= fields.take(i));
        assert(fields.take(i + 1).last() == fields[i]);
        assert(fields[i].stride() >= 0) by (nonlinear_arith)
            requires
                fields[i].stride() == fields[i].attribute_type.mem_size() * fields[i].item_count,
                fields[i].attribute_type.mem_size() >= 0,
                fields[i].item_count >= 0,
        ;
        lemma_total_stride_nonnegative(fields.take(i));
    }
}

proof fn lemma_total_stride_nonnegative(fields: Seq<VertexAttribute>)
    ensures
        total_stride(fields) >= 0,
    decreases fields.len(),
{
    if fields.len() > 0 {
        lemma_total_stride_nonnegative(fields.drop_last());
        let last = fields.last();
        assert(last.stride() >= 0) by (nonlinear_arith)
            requires
                last.stride() == last.attribute_type.mem_size() * last.item_count,
                last.attribute_type.mem_size() >= 0,
                last.item_count >= 0,
        ;
    }
}

impl VertexLayout {
    /// The layout fits the machine: the size of a whole vertex is a `usize`.
    pub open spec fn fits(&self) -> bool {
        total_stride(self.fields@) <= usize::MAX
    }

    /// Size of a vertex in bytes: the sum of the sizes of its attributes.
    pub fn stride_between_vertices(&self) -> (stride: usize)
        requires
            self.fits(),
        ensures
            stride == total_stride(self.fields@),
    {
        let mut stride: usize = 0;
        let mut i: usize = 0;
        while i < self.fields.len()
            invariant
                i <= self.fields.len(),
                self.fits(),
                stride == total_stride(self.fields@.take(i as int)),
            decreases self.fields.len() - i,
        {
            proof {
                lemma_total_stride_grows(self.fields@, i as int + 1);
                lemma_total_stride_grows(self.fields@, i as int);
                assert(self.fields@.take(i + 1).drop_last() =~= self.fields@.take(i as int));
                assert(self.fields@.take(i + 1).last() == self.fields@[i as int]);
            }
            stride = stride + self.fields[i].get_stride();
            i = i + 1;
        }
        proof {
            assert(self.fields@.take(self.fields.len() as int) =~= self.fields@);
        }
        stride
    }

    /// Offset of each attribute from the start of a vertex, in bytes: the
    /// sum of the sizes of the attributes before it.
    pub fn attribute_offsets(&self) -> (offsets: Vec<usize>)
        requires
            self.fits(),
        ensures
            offsets@.len() == self.fields@.len(),
            forall|i: int|
                0 <= i < offsets@.len() ==> #[trigger] offsets@[i] == total_stride(
                    self.fields@.take(i),
                ),
    {
        let mut offsets: Vec<usize> = Vec::new();
        let mut offset: usize = 0;
        let mut i: usize = 0;
        while i < self.fields.len()
            invariant
                i <= self.fields.len(),
                self.fits(),
                offset == total_stride(self.fields@.take(i as int)),
                offsets@.len() == i,
                forall|k: int|
                    0 <= k < i ==> #[trigger] offsets@[k] == total_stride(self.fields@.take(k)),
            decreases self.fields.len() - i,
        {
            proof {
                lemma_total_stride_grows(self.fields@, i as int + 1);
                lemma_total_stride_grows(self.fields@, i as int);
                assert(self.fields@.take(i + 1).drop_last() =~= self.fields@.take(i as int));
                assert(self.fields@.take(i + 1).last() == self.fields@[i as int]);
            }
            offsets.push(offset);
            offset = offset + self.fields[i].get_stride();
            i = i + 1;
        }
        offsets
    }
}

/// A type of vertices that tells how its fields are laid out.
pub trait VertexLayoutDescription {
    fn get_description() -> VertexLayout;
}

#[derive(Debug, Copy, Clone, PartialEq, Eq, Structural, PartialOrd, Ord, Hash)]
pub enum GlApiVersion {
    Gl { major: usize, minor: usize },
    GlEs { major: usize, minor: usize },
}

impl GlApiVersion {
    /// The OpenGL version that a context reports with the numbers
    /// `major` and `minor`.
    pub fn get(major: GLint, minor: GLint) -> (version: GlApiVersion)
        ensures
            version == (GlApiVersion::Gl { major: major as usize, minor: minor as usize }),
    {
        GlApiVersion::Gl { major: major as usize, minor: minor as usize }
    }
}

#[derive(Debug, Copy, Clone, PartialEq, Eq, Structural, PartialOrd, Ord, Hash)]
pub enum IndexBufferFormat {
    Points,
    Lines,
    LineStrip,
    Triangles,
    TriangleStrip,
    TriangleFan,
}

impl IndexBufferFormat {
    /// The OpenGL id of the drawing mode.
    pub open spec fn gl_id(self) -> GLuint {
        match self {
            IndexBufferFormat::Points => 0,
            IndexBufferFormat::Lines => 1,
            IndexBufferFormat::LineStrip => 3,
            IndexBufferFormat::Triangles => 4,
            IndexBufferFormat::TriangleStrip => 5,
            IndexBufferFormat::TriangleFan => 6,
        }
    }

    /// Returns the `gl::TRIANGLE_STRIP` / `gl::POINTS`, etc.
    pub fn get_gl_id(&self) -> (id: GLuint)
        ensures
            id == self.gl_id(),
    {
        match self {
            IndexBufferFormat::Points => crate::gl_context::points(),
            IndexBufferFormat::Lines => crate::gl_context::lines(),
            IndexBufferFormat::LineStrip => crate::gl_context::line_strip(),
            IndexBufferFormat::Triangles => crate::gl_context::triangles(),
            IndexBufferFormat::TriangleStrip => crate::gl_context::triangle_strip(),
            IndexBufferFormat::TriangleFan => crate::gl_context::triangle_fan(),
        }
    }
}

#[derive(Clone, Debug)]
pub struct VertexShaderCompileError {
    pub error_id: i32,
    pub info_log: String,
}

#[derive(Clone, Debug)]
pub struct FragmentShaderCompileError {
    pub error_id: i32,
    pub info_log: String,
}

#[derive(Clone, Debug, Hash, PartialEq, Eq)]
pub enum GlShaderCompileError {
    Vertex(VertexShaderCompileError),
    Fragment(FragmentShaderCompileError),
}

#[derive(Clone, Debug)]
pub struct GlShaderLinkError {
    pub error_id: i32,
    pub info_log: String,
}

#[derive(Clone, Debug, Hash, PartialEq, Eq)]
pub enum GlShaderCreateError {
    Compile(GlShaderCompileError),
    Link(GlShaderLinkError),
    NoShaderCompiler,
}

/// The message of a compile or link error: the letter E, the driver's
/// status and the driver's log.
pub open spec fn status_message(error_id: i32, info_log: Seq<char>) -> Seq<char> {
    "E"@ + crate::text::decimal(error_id as int) + ": "@ + info_log
}

/// The message of a compile or link error.
fn format_status(error_id: i32, info_log: &String) -> (message: String)
    ensures
        message@ == status_message(error_id, info_log@),
{
    let mut message = String::from_str("E");
    message.append(crate::text::i32_to_string(error_id).as_str());
    message.append(": ");
    message.append(info_log.as_str());
    message
}

impl VertexShaderCompileError {
    /// The error as a message for the user.
    pub fn to_string(&self) -> (message: String)
        ensures
            message@ == status_message(self.error_id, self.info_log@),
    {
        format_status(self.error_id, &self.info_log)
    }
}

impl FragmentShaderCompileError {
    /// The error as a message for the user.
    pub fn to_string(&self) -> (message: String)
        ensures
            message@ == status_message(self.error_id, self.info_log@),
    {
        format_status(self.error_id, &self.info_log)
    }
}

impl GlShaderLinkError {
    /// The error as a message for the user.
    pub fn to_string(&self) -> (message: String)
        ensures
            message@ == status_message(self.error_id, self.info_log@),
    {
        format_status(self.error_id, &self.info_log)
    }
}

impl GlShaderCompileError {
    /// The message of the error.
    pub open spec fn message(self) -> Seq<char> {
        match self {
            GlShaderCompileError::Vertex(e) => "Failed to compile vertex shader: "@
                + status_message(e.error_id, e.info_log@),
            GlShaderCompileError::Fragment(e) => "Failed to compile fragment shader: "@
                + status_message(e.error_id, e.info_log@),
        }
    }

    /// The error as a message for the user.
    pub fn to_string(&self) -> (message: String)
        ensures
            message@ == self.message(),
    {
        match self {
            GlShaderCompileError::Vertex(vert_err) => {
                let mut message = String::from_str("Failed to compile vertex shader: ");
                message.append(vert_err.to_string().as_str());
                message
            },
            GlShaderCompileError::Fragment(frag_err) => {
                let mut message = String::from_str("Failed to compile fragment shader: ");
                message.append(frag_err.to_string().as_str());
                message
            },
        }
    }
}

impl GlShaderCreateError {
    /// The message of the error.
    pub open spec fn message(self) -> Seq<char> {
        match self {
            GlShaderCreateError::Compile(e) => "Shader compile error: "@ + e.message(),
            GlShaderCreateError::Link(e) => "Shader linking error: "@ + status_message(
                e.error_id,
                e.info_log@,
            ),
            GlShaderCreateError::NoShaderCompiler => "OpenGL implementation doesn't include a shader compiler"@,
        }
    }

    /// The error as a message for the user.
    pub fn to_string(&self) -> (message: String)
        ensures
            message@ == self.message(),
    {
        match self {
            GlShaderCreateError::Compile(compile_err) => {
                let mut message = String::from_str("Shader compile error: ");
                message.append(compile_err.to_string().as_str());
                message
            },
            GlShaderCreateError::Link(link_err) => {
                let mut message = String::from_str("Shader linking error: ");
                message.append(link_err.to_string().as_str());
                message
            },
            GlShaderCreateError::NoShaderCompiler => String::from_str(
                "OpenGL implementation doesn't include a shader compiler",
            ),
        }
    }
}

/// The value of a shader uniform.
///
/// A floating-point component is held as the 32 bits of its IEEE 754
/// form. Two values are the same uniform if they are of the same kind and
/// agree bit for bit.
#[derive(Debug, Copy, Clone, PartialEq, Eq, Hash)]
#[allow(inconsistent_fields)]
pub enum UniformType {
    Float(u32),
    FloatVec2([u32; 2]),
    FloatVec3([u32; 3]),
    FloatVec4([u32; 4]),
    Int(i32),
    IntVec2([i32; 2]),
    IntVec3([i32; 3]),
    IntVec4([i32; 4]),
    UnsignedInt(u32),
    UnsignedIntVec2([u32; 2]),
    UnsignedIntVec3([u32; 3]),
    UnsignedIntVec4([u32; 4]),
    Matrix2 { transpose: bool, matrix: [u32; 4] },
    Matrix3 { transpose: bool, matrix: [u32; 9] },
    Matrix4 { transpose: bool, matrix: [u32; 16] },
}

#[derive(Debug, Clone, PartialEq, Eq, Hash)]
pub struct Uniform {
    pub name: String,
    pub uniform_type: UniformType,
}

impl Uniform {
    /// A uniform with the given name and value.
    pub fn new(name: &str, uniform_type: UniformType) -> (uniform: Self)
        ensures
            uniform.name@ == name@,
            uniform.uniform_type == uniform_type,
    {
        Self { name: String::from_str(name), uniform_type }
    }
}

/// Whether two arrays hold the same items.
fn same_items<const N: usize>(a: &[u32; N], b: &[u32; N]) -> (same: bool)
    ensures
        same == (*a == *b),
{
    let mut i: usize = 0;
    while i < N
        invariant
            i <= N,
            forall|k: int| 0 <= k < i ==> a@[k] == b@[k],
        decreases N - i,
    {
        if a[i] != b[i] {
            return false;
        }
        i = i + 1;
    }
    assert(*a =~= *b);
    true
}

/// Whether two arrays hold the same items.
fn same_signed_items<const N: usize>(a: &[i32; N], b: &[i32; N]) -> (same: bool)
    ensures
        same == (*a == *b),
{
    let mut i: usize = 0;
    while i < N
        invariant
            i <= N,
            forall|k: int| 0 <= k < i ==> a@[k] == b@[k],
        decreases N - i,
    {
        if a[i] != b[i] {
            return false;
        }
        i = i + 1;
    }
    assert(*a =~= *b);
    true
}

impl UniformType {
    /// Whether this is the same uniform value as `other`.
    pub fn is_same(&self, other: &UniformType) -> (same: bool)
        ensures
            same == (*self == *other),
    {
        match (self, other) {
            (UniformType::Float(a), UniformType::Float(b)) => *a == *b,
            (UniformType::FloatVec2(a), UniformType::FloatVec2(b)) => same_items(a, b),
            (UniformType::FloatVec3(a), UniformType::FloatVec3(b)) => same_items(a, b),
            (UniformType::FloatVec4(a), UniformType::FloatVec4(b)) => same_items(a, b),
            (UniformType::Int(a), UniformType::Int(b)) => *a == *b,
            (UniformType::IntVec2(a), UniformType::IntVec2(b)) => same_signed_items(a, b),
            (UniformType::IntVec3(a), UniformType::IntVec3(b)) => same_signed_items(a, b),
            (UniformType::IntVec4(a), UniformType::IntVec4(b)) => same_signed_items(a, b),
            (UniformType::UnsignedInt(a), UniformType::UnsignedInt(b)) => *a == *b,
            (UniformType::UnsignedIntVec2(a), UniformType::UnsignedIntVec2(b)) => same_items(a, b),
            (UniformType::UnsignedIntVec3(a), UniformType::UnsignedIntVec3(b)) => same_items(a, b),
            (UniformType::UnsignedIntVec4(a), UniformType::UnsignedIntVec4(b)) => same_items(a, b),
            (
                UniformType::Matrix2 { transpose: ta, matrix: a },
                UniformType::Matrix2 { transpose: tb, matrix: b },
            ) => *ta == *tb && same_items(a, b),
            (
                UniformType::Matrix3 { transpose: ta, matrix: a },
                UniformType::Matrix3 { transpose: tb, matrix: b },
            ) => *ta == *tb && same_items(a, b),
            (
                UniformType::Matrix4 { transpose: ta, matrix: a },
                UniformType::Matrix4 { transpose: tb, matrix: b },
            ) => *ta == *tb && same_items(a, b),
            _ => false,
        }
    }

    /// Whether the value has no floating-point component.
    pub open spec fn is_integral(self) -> bool {
        match self {
            UniformType::Int(_) => true,
            UniformType::IntVec2(_) => true,
            UniformType::IntVec3(_) => true,
            UniformType::IntVec4(_) => true,
            UniformType::UnsignedInt(_) => true,
            UniformType::UnsignedIntVec2(_) => true,
            UniformType::UnsignedIntVec3(_) => true,
            UniformType::UnsignedIntVec4(_) => true,
            _ => false,
        }
    }

    /// The driver call that sets this value at `location`; none for a
    /// value with a floating-point component.
    pub open spec fn set_calls(self, location: GLint) -> Seq<crate::gl_context::GlCall> {
        match self {
            UniformType::Int(r) => seq![crate::gl_context::GlCall::Uniform1i { location, v0: r }],
            UniformType::IntVec2(v) => seq![
                crate::gl_context::GlCall::Uniform2i { location, v0: v@[0], v1: v@[1] },
            ],
            UniformType::IntVec3(v) => seq![
                crate::gl_context::GlCall::Uniform3i { location, v0: v@[0], v1: v@[1], v2: v@[2] },
            ],
            UniformType::IntVec4(v) => seq![
                crate::gl_context::GlCall::Uniform4i {
                    location,
                    x: v@[0],
                    y: v@[1],
                    z: v@[2],
                    w: v@[3],
                },
            ],
            UniformType::UnsignedInt(r) => seq![
                crate::gl_context::GlCall::Uniform1ui { location, v0: r },
            ],
            UniformType::UnsignedIntVec2(v) => seq![
                crate::gl_context::GlCall::Uniform2ui { location, v0: v@[0], v1: v@[1] },
            ],
            UniformType::UnsignedIntVec3(v) => seq![
                crate::gl_context::GlCall::Uniform3ui { location, v0: v@[0], v1: v@[1], v2: v@[2] },
            ],
            UniformType::UnsignedIntVec4(v) => seq![
                crate::gl_context::GlCall::Uniform4ui {
                    location,
                    x: v@[0],
                    y: v@[1],
                    z: v@[2],
                    w: v@[3],
                },
            ],
            _ => Seq::empty(),
        }
    }

    /// Whether the value is made of unsigned integers.
    pub open spec fn is_unsigned(self) -> bool {
        match self {
            UniformType::UnsignedInt(_)
            | UniformType::UnsignedIntVec2(_)
            | UniformType::UnsignedIntVec3(_)
            | UniformType::UnsignedIntVec4(_) => true,
            _ => false,
        }
    }

    /// Whether `set` hands the value to a driver: a value with a
    /// floating-point component it never does, and a value of unsigned
    /// integers only where the context is not one of OpenGL ES, which
    /// cannot take such a value.
    pub open spec fn is_set_on(self, gles: bool) -> bool {
        self.is_integral() && !(self.is_unsigned() && gles)
    }

    /// Sets the uniform at `location` of the current program, if the
    /// value has no floating-point component and the context can take it.
    /// A value with a floating-point component is not handed to the
    /// driver here, and neither is a value of unsigned integers on a
    /// context of OpenGL ES; the result tells the caller that the uniform
    /// is still to be set. The context is asked for its kind only for a
    /// value of unsigned integers.
    pub fn set(self, driver: &mut crate::gl_context::GlDriver, location: GLint) -> (done: bool)
        ensures
            done == self.is_set_on(crate::gl_context::context_is_gles(old(driver).context())),
            final(driver).context() == old(driver).context(),
            final(driver).calls() == old(driver).calls() + if done {
                self.set_calls(location)
            } else {
                Seq::empty()
            },
    {
        let done = match self {
            UniformType::Int(r) => {
                driver.uniform_1i(location, r);
                true
            },
            UniformType::IntVec2(v) => {
                driver.uniform_2i(location, v[0], v[1]);
                true
            },
            UniformType::IntVec3(v) => {
                driver.uniform_3i(location, v[0], v[1], v[2]);
                true
            },
            UniformType::IntVec4(v) => {
                driver.uniform_4i(location, v[0], v[1], v[2], v[3]);
                true
            },
            UniformType::UnsignedInt(r) => {
                if driver.is_gles() {
                    false
                } else {
                    driver.uniform_1ui(location, r);
                    true
                }
            },
            UniformType::UnsignedIntVec2(v) => {
                if driver.is_gles() {
                    false
                } else {
                    driver.uniform_2ui(location, v[0], v[1]);
                    true
                }
            },
            UniformType::UnsignedIntVec3(v) => {
                if driver.is_gles() {
                    false
                } else {
                    driver.uniform_3ui(location, v[0], v[1], v[2]);
                    true
                }
            },
            UniformType::UnsignedIntVec4(v) => {
                if driver.is_gles() {
                    false
                } else {
                    driver.uniform_4ui(location, v[0], v[1], v[2], v[3]);
                    true
                }
            },
            _ => false,
        };
        assert(driver.calls() =~= old(driver).calls() + if done {
            self.set_calls(location)
        } else {
            Seq::empty()
        });
        done
    }
}

} // verus!
