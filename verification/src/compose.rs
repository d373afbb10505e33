//! Compositing an ordered stack of layers onto a canvas.
//!
//! The canvas starts fully transparent; every layer is painted over it in
//! declared order with source-over alpha blending; the result is flattened to
//! an opaque RGB buffer.

use vstd::prelude::*;
use crate::imgops::{blend_of, rgb_dims, rgb_pix, rgba_dims, rgba_pix, RgbBuffer, RgbaBuffer};
use crate::config::Config;
use crate::naming::{joined, path_join};

verus! {

/// The ordered layer list of one composition: the background stack, the two
/// requested sprites out of the sprite directory, then the foreground stack,
/// every path resolved against the template's base path.
pub fn build_layer_paths(config: &Config, fighter_1: &String, fighter_2: &String) -> (r: Vec<
    String,
>)
    ensures
        r@.len() == config.background_images@.len() + 2 + config.foreground_images@.len(),
        forall|j: int|
            0 <= j < config.background_images@.len() ==> (#[trigger] r@[j])@ == joined(
                config.base_path@,
                config.background_images@[j]@,
            ),
        r@[config.background_images@.len() as int]@ == joined(
            config.base_path@,
            joined(config.char_img_path@, fighter_1@),
        ),
        r@[config.background_images@.len() as int + 1]@ == joined(
            config.base_path@,
            joined(config.char_img_path@, fighter_2@),
        ),
        forall|j: int|
            0 <= j < config.foreground_images@.len() ==> (#[trigger] r@[
            config.background_images@.len() + 2 + j])@ == joined(
                config.base_path@,
                config.foreground_images@[j]@,
            ),
{
    let mut r: Vec<String> = Vec::new();
    let mut i: usize = 0;
    while i < config.background_images.len()
        invariant
            i <= config.background_images.len(),
            r@.len() == i,
            forall|j: int|
                0 <= j < i ==> (#[trigger] r@[j])@ == joined(
                    config.base_path@,
                    config.background_images@[j]@,
                ),
        decreases config.background_images.len() - i,
    {
        r.push(path_join(&config.base_path, &config.background_images[i]));
        i = i + 1;
    }
    let sprite_1 = path_join(&config.char_img_path, fighter_1);
    r.push(path_join(&config.base_path, &sprite_1));
    let sprite_2 = path_join(&config.char_img_path, fighter_2);
    r.push(path_join(&config.base_path, &sprite_2));
    let base: usize = r.len();
    let mut i: usize = 0;
    while i < config.foreground_images.len()
        invariant
            i <= config.foreground_images.len(),
            base == config.background_images@.len() + 2,
            r@.len() == base + i,
            forall|j: int|
                0 <= j < config.background_images@.len() ==> (#[trigger] r@[j])@ == joined(
                    config.base_path@,
                    config.background_images@[j]@,
                ),
            r@[config.background_images@.len() as int]@ == joined(
                config.base_path@,
                joined(config.char_img_path@, fighter_1@),
            ),
            r@[config.background_images@.len() as int + 1]@ == joined(
                config.base_path@,
                joined(config.char_img_path@, fighter_2@),
            ),
            forall|j: int|
                0 <= j < i ==> (#[trigger] r@[base + j])@ == joined(
                    config.base_path@,
                    config.foreground_images@[j]@,
                ),
        decreases config.foreground_images.len() - i,
    {
        r.push(path_join(&config.base_path, &config.foreground_images[i]));
        i = i + 1;
    }
    r
}

/// Source-over blending of one top pixel onto one bottom pixel: a fully
/// transparent top pixel leaves the bottom one, a fully opaque one replaces
/// it, anything in between is the blend.
pub open spec fn over_px(bottom: (u8, u8, u8, u8), top: (u8, u8, u8, u8)) -> (u8, u8, u8, u8) {
    if top.3 == 0 {
        bottom
    } else if top.3 == 255 {
        top
    } else {
        blend_of(bottom, top)
    }
}

/// The pixel at (x, y) after the whole layer stack is painted, in order, onto
/// a fully transparent canvas. A layer contributes only where it covers the
/// coordinate.
pub open spec fn composed_px(layers: Seq<RgbaBuffer>, x: int, y: int) -> (u8, u8, u8, u8)
    decreases layers.len(),
{
    if layers.len() == 0 {
        (0u8, 0u8, 0u8, 0u8)
    } else {
        let below = composed_px(layers.drop_last(), x, y);
        let top = layers.last();
        if x < rgba_dims(top).0 && y < rgba_dims(top).1 {
            over_px(below, rgba_pix(top)[(x, y)])
        } else {
            below
        }
    }
}

/// Overlays the layers in order onto a transparent canvas of the given
/// dimensions: every canvas pixel ends up as the source-over composite of the
/// stack at that coordinate.
pub fn compose_layers(width: u32, height: u32, layers: &Vec<RgbaBuffer>) -> (r: RgbaBuffer)
    requires
        4 * width as int * height as int <= usize::MAX as int,
    ensures
        rgba_dims(r) == (width, height),
        forall|x: int, y: int|
            0 <= x < width && 0 <= y < height ==> #[trigger] rgba_pix(r)[(x, y)] == composed_px(
                layers@,
                x,
                y,
            ),
{
    let mut canvas = RgbaBuffer::new_blank(width, height);
    proof {
        assert(layers@.take(0) =~= Seq::<RgbaBuffer>::empty());
    }
    let mut i: usize = 0;
    while i < layers.len()
        invariant
            i <= layers.len(),
            rgba_dims(canvas) == (width, height),
            forall|x: int, y: int|
                0 <= x < width && 0 <= y < height ==> #[trigger] rgba_pix(canvas)[(x, y)]
                    == composed_px(layers@.take(i as int), x, y),
        decreases layers.len() - i,
    {
        canvas.overlay_at_origin(&layers[i]);
        proof {
            let pre = layers@.take(i as int);
            let post = layers@.take(i as int + 1);
            assert(post.drop_last() =~= pre);
            assert(post.last() == layers@[i as int]);
        }
        i = i + 1;
    }
    proof {
        assert(layers@.take(layers@.len() as int) =~= layers@);
    }
    canvas
}

/// Composes the layer stack onto a canvas sized by the configuration and
/// flattens it to an opaque RGB buffer: each output pixel keeps the red,
/// green and blue channels of the composite and drops its alpha.
pub fn compose_thumbnail(config: &Config, layers: &Vec<RgbaBuffer>) -> (r: RgbBuffer)
    requires
        config.wf(),
    ensures
        rgb_dims(r) == (config.width, config.height),
        forall|x: int, y: int|
            0 <= x < config.width && 0 <= y < config.height ==> #[trigger] rgb_pix(r)[(x, y)] == {
                let p = composed_px(layers@, x, y);
                (p.0, p.1, p.2)
            },
{
    let canvas = compose_layers(config.width, config.height, layers);
    canvas.flatten_to_rgb()
}

/// Determinism of composition: the composite pixel depends only on the
/// dimensions and pixel contents of the layers, so composing the same stack
/// against the same configuration twice yields identical output.
pub proof fn lemma_composition_deterministic(
    a: Seq<RgbaBuffer>,
    b: Seq<RgbaBuffer>,
    x: int,
    y: int,
)
    requires
        a.len() == b.len(),
        forall|i: int|
            0 <= i < a.len() ==> #[trigger] rgba_dims(a[i]) == rgba_dims(b[i]) && rgba_pix(a[i])
                == rgba_pix(b[i]),
    ensures
        composed_px(a, x, y) == composed_px(b, x, y),
    decreases a.len(),
{
    if a.len() > 0 {
        assert(a.drop_last().len() == b.drop_last().len());
        lemma_composition_deterministic(a.drop_last(), b.drop_last(), x, y);
        assert(a.last() == a[a.len() - 1]);
        assert(b.last() == b[b.len() - 1]);
    }
}

/// The layer-order invariant: wherever a layer is fully opaque and no later
/// layer covers that coordinate with non-zero alpha, the composite equals
/// that layer's pixel — later layers occlude earlier ones.
pub proof fn lemma_layer_order(layers: Seq<RgbaBuffer>, j: int, x: int, y: int)
    requires
        0 <= j < layers.len(),
        0 <= x < rgba_dims(layers[j]).0,
        0 <= y < rgba_dims(layers[j]).1,
        rgba_pix(layers[j])[(x, y)].3 == 255,
        forall|k: int|
            j < k < layers.len() ==> (x >= rgba_dims(#[trigger] layers[k]).0 || y >= rgba_dims(
                layers[k],
            ).1 || rgba_pix(layers[k])[(x, y)].3 == 0),
    ensures
        composed_px(layers, x, y) == rgba_pix(layers[j])[(x, y)],
    decreases layers.len(),
{
    let last = layers.len() - 1;
    assert(layers.last() == layers[last]);
    if j == last {
        assert(composed_px(layers, x, y) == over_px(
            composed_px(layers.drop_last(), x, y),
            rgba_pix(layers[j])[(x, y)],
        ));
    } else {
        assert(layers.drop_last()[j] == layers[j]);
        assert(forall|k: int|
            j < k < layers.drop_last().len() ==> #[trigger] layers.drop_last()[k] == layers[k]);
        lemma_layer_order(layers.drop_last(), j, x, y);
    }
}

} // verus!
