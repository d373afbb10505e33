//! Memoization of decoded images and rendered text layers.
//!
//! Both caches are unbounded and never evict; a miss is computed by the
//! caller and stored, a hit returns the stored buffer. Caching is a pure
//! performance optimization: the transparency lemmas below show that, as
//! long as every stored buffer is the one the key models, a lookup can only
//! hand back exactly what a fresh computation would.

use vstd::prelude::*;
use crate::config::PositionedText;
use crate::imgops::{rgba_dims, rgba_pix, RgbaBuffer};

verus! {

/// What a cache key stands for: the dimensions and pixels of the buffer the
/// key must map to.
pub type BufferModel = ((u32, u32), Map<(int, int), (u8, u8, u8, u8)>);

// --- decoded images, keyed by the exact resolved path string ---
/// The first stored buffer for the key, scanning the entries in insertion
/// order.
pub open spec fn image_lookup(entries: Seq<(String, RgbaBuffer)>, key: Seq<char>) -> Option<
    RgbaBuffer,
>
    decreases entries.len(),
{
    if entries.len() == 0 {
        None
    } else if entries[0].0@ == key {
        Some(entries[0].1)
    } else {
        image_lookup(entries.drop_first(), key)
    }
}

/// Every entry's buffer is the one its key models.
pub open spec fn image_cache_consistent(
    entries: Seq<(String, RgbaBuffer)>,
    model: spec_fn(Seq<char>) -> BufferModel,
) -> bool {
    forall|i: int|
        0 <= i < entries.len() ==> {
            let e = #[trigger] entries[i];
            rgba_dims(e.1) == model(e.0@).0 && rgba_pix(e.1) == model(e.0@).1
        }
}

/// Memoizes decoded images by the exact path string they were requested
/// under. A failed decode is never stored, so a later retry can succeed.
pub struct ImageCache {
    entries: Vec<(String, RgbaBuffer)>,
}

impl ImageCache {
    /// The stored entries, in insertion order.
    pub closed spec fn entries_view(&self) -> Seq<(String, RgbaBuffer)> {
        self.entries@
    }

    /// An empty cache, as at process start or after a conceptual clear.
    pub fn new() -> (r: ImageCache)
        ensures
            r.entries_view() =~= Seq::<(String, RgbaBuffer)>::empty(),
    {
        ImageCache { entries: Vec::new() }
    }

    /// The stored buffer for the key, if one was inserted.
    pub fn get(&self, key: &String) -> (r: Option<&RgbaBuffer>)
        ensures
            match r {
                Some(v) => image_lookup(self.entries_view(), key@) == Some(*v),
                None => image_lookup(self.entries_view(), key@) is None,
            },
    {
        proof {
            assert(self.entries@.skip(0) =~= self.entries@);
        }
        let mut i: usize = 0;
        while i < self.entries.len()
            invariant
                i <= self.entries.len(),
                image_lookup(self.entries@.skip(i as int), key@) == image_lookup(
                    self.entries@,
                    key@,
                ),
            decreases self.entries.len() - i,
        {
            proof {
                assert(self.entries@.skip(i as int).drop_first() =~= self.entries@.skip(
                    i as int + 1,
                ));
                assert(self.entries@.skip(i as int)[0] == self.entries@[i as int]);
            }
            if self.entries[i].0 == *key {
                proof {
                    assert(image_lookup(self.entries@.skip(i as int), key@) == Some(
                        self.entries@[i as int].1,
                    ));
                }
                return Some(&self.entries[i].1);
            }
            i = i + 1;
        }
        proof {
            assert(self.entries@.skip(self.entries@.len() as int) =~= Seq::<(
                String,
                RgbaBuffer,
            )>::empty());
        }
        None
    }

    /// Stores the buffer computed for a key that missed.
    pub fn insert(&mut self, key: String, value: RgbaBuffer)
        ensures
            final(self).entries_view() == old(self).entries_view().push((key, value)),
    {
        self.entries.push((key, value));
    }
}

/// Cache transparency for decoded images: in any consistent cache state —
/// warm or freshly cleared — a hit returns a buffer with exactly the
/// dimensions and pixels the key models, so clearing the cache and
/// recomposing cannot change the output.
pub proof fn lemma_image_cache_transparent(
    entries: Seq<(String, RgbaBuffer)>,
    model: spec_fn(Seq<char>) -> BufferModel,
    key: Seq<char>,
)
    requires
        image_cache_consistent(entries, model),
    ensures
        match image_lookup(entries, key) {
            Some(v) => rgba_dims(v) == model(key).0 && rgba_pix(v) == model(key).1,
            None => true,
        },
    decreases entries.len(),
{
    if entries.len() > 0 && entries[0].0@ != key {
        assert(forall|i: int|
            0 <= i < entries.drop_first().len() ==> #[trigger] entries.drop_first()[i] == entries[
                i + 1
            ]);
        lemma_image_cache_transparent(entries.drop_first(), model, key);
    }
}

/// Inserting the modelled buffer for a key keeps the cache consistent.
pub proof fn lemma_image_cache_insert(
    entries: Seq<(String, RgbaBuffer)>,
    model: spec_fn(Seq<char>) -> BufferModel,
    key: String,
    value: RgbaBuffer,
)
    requires
        image_cache_consistent(entries, model),
        rgba_dims(value) == model(key@).0,
        rgba_pix(value) == model(key@).1,
    ensures
        image_cache_consistent(entries.push((key, value)), model),
{
    let post = entries.push((key, value));
    assert(forall|i: int| 0 <= i < entries.len() ==> #[trigger] post[i] == entries[i]);
    assert(post[entries.len() as int] == (key, value));
}

// --- rendered text layers, keyed by the quantized render parameters ---
/// The render cache's key space: the resolved text with its anchor and its
/// quantized scale and rotation.
pub open spec fn render_key(pt: PositionedText) -> (Seq<char>, int, int, int, int) {
    (pt.text@, pt.x as int, pt.y as int, pt.scale_milli as int, pt.theta_milli as int)
}

/// The first stored layer for the key, scanning the entries in insertion
/// order.
pub open spec fn render_lookup(
    entries: Seq<(PositionedText, RgbaBuffer)>,
    key: (Seq<char>, int, int, int, int),
) -> Option<RgbaBuffer>
    decreases entries.len(),
{
    if entries.len() == 0 {
        None
    } else if render_key(entries[0].0) == key {
        Some(entries[0].1)
    } else {
        render_lookup(entries.drop_first(), key)
    }
}

/// Every entry's layer is the one its key models.
pub open spec fn render_cache_consistent(
    entries: Seq<(PositionedText, RgbaBuffer)>,
    model: spec_fn((Seq<char>, int, int, int, int)) -> BufferModel,
) -> bool {
    forall|i: int|
        0 <= i < entries.len() ==> {
            let e = #[trigger] entries[i];
            rgba_dims(e.1) == model(render_key(e.0)).0 && rgba_pix(e.1) == model(render_key(e.0)).1
        }
}

/// Memoizes rendered, centered and rotated text layers by the quantized
/// tuple of their effective parameters.
pub struct RenderCache {
    entries: Vec<(PositionedText, RgbaBuffer)>,
}

impl RenderCache {
    /// The stored entries, in insertion order.
    pub closed spec fn entries_view(&self) -> Seq<(PositionedText, RgbaBuffer)> {
        self.entries@
    }

    /// An empty cache, as at process start or after a conceptual clear.
    pub fn new() -> (r: RenderCache)
        ensures
            r.entries_view() =~= Seq::<(PositionedText, RgbaBuffer)>::empty(),
    {
        RenderCache { entries: Vec::new() }
    }

    /// The stored layer for the key, if one was inserted.
    pub fn get(&self, key: &PositionedText) -> (r: Option<&RgbaBuffer>)
        ensures
            match r {
                Some(v) => render_lookup(self.entries_view(), render_key(*key)) == Some(*v),
                None => render_lookup(self.entries_view(), render_key(*key)) is None,
            },
    {
        proof {
            assert(self.entries@.skip(0) =~= self.entries@);
        }
        let mut i: usize = 0;
        while i < self.entries.len()
            invariant
                i <= self.entries.len(),
                render_lookup(self.entries@.skip(i as int), render_key(*key)) == render_lookup(
                    self.entries@,
                    render_key(*key),
                ),
            decreases self.entries.len() - i,
        {
            proof {
                assert(self.entries@.skip(i as int).drop_first() =~= self.entries@.skip(
                    i as int + 1,
                ));
                assert(self.entries@.skip(i as int)[0] == self.entries@[i as int]);
            }
            let e = &self.entries[i];
            if e.0.text == key.text && e.0.x == key.x && e.0.y == key.y && e.0.scale_milli
                == key.scale_milli && e.0.theta_milli == key.theta_milli {
                proof {
                    assert(render_key(self.entries@[i as int].0) == render_key(*key));
                    assert(render_lookup(self.entries@.skip(i as int), render_key(*key)) == Some(
                        self.entries@[i as int].1,
                    ));
                }
                return Some(&self.entries[i].1);
            }
            i = i + 1;
        }
        proof {
            assert(self.entries@.skip(self.entries@.len() as int) =~= Seq::<(
                PositionedText,
                RgbaBuffer,
            )>::empty());
        }
        None
    }

    /// Stores the layer rendered for a key that missed.
    pub fn insert(&mut self, key: PositionedText, value: RgbaBuffer)
        ensures
            final(self).entries_view() == old(self).entries_view().push((key, value)),
    {
        self.entries.push((key, value));
    }
}

/// Cache transparency for rendered text layers: in any consistent cache
/// state a hit returns a layer with exactly the dimensions and pixels the
/// quantized key models.
pub proof fn lemma_render_cache_transparent(
    entries: Seq<(PositionedText, RgbaBuffer)>,
    model: spec_fn((Seq<char>, int, int, int, int)) -> BufferModel,
    key: (Seq<char>, int, int, int, int),
)
    requires
        render_cache_consistent(entries, model),
    ensures
        match render_lookup(entries, key) {
            Some(v) => rgba_dims(v) == model(key).0 && rgba_pix(v) == model(key).1,
            None => true,
        },
    decreases entries.len(),
{
    if entries.len() > 0 && render_key(entries[0].0) != key {
        assert(forall|i: int|
            0 <= i < entries.drop_first().len() ==> #[trigger] entries.drop_first()[i] == entries[
                i + 1
            ]);
        lemma_render_cache_transparent(entries.drop_first(), model, key);
    }
}

/// Inserting the modelled layer for a key keeps the cache consistent.
pub proof fn lemma_render_cache_insert(
    entries: Seq<(PositionedText, RgbaBuffer)>,
    model: spec_fn((Seq<char>, int, int, int, int)) -> BufferModel,
    key: PositionedText,
    value: RgbaBuffer,
)
    requires
        render_cache_consistent(entries, model),
        rgba_dims(value) == model(render_key(key)).0,
        rgba_pix(value) == model(render_key(key)).1,
    ensures
        render_cache_consistent(entries.push((key, value)), model),
{
    let post = entries.push((key, value));
    assert(forall|i: int| 0 <= i < entries.len() ==> #[trigger] post[i] == entries[i]);
    assert(post[entries.len() as int] == (key, value));
}

} // verus!
