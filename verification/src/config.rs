//! The template configuration, the error kinds, and the store that holds the
//! active configuration/font pair and swaps it atomically on reload.

use vstd::prelude::*;

verus! {

/// One text element of the template: a placeholder or literal string, the
/// anchor the rendered text is centered on, and its size and rotation.
///
/// `scale_milli` is the font size in thousandths of a pixel and `theta_milli`
/// the rotation about the anchor in thousandths of a radian; both are the
/// source value multiplied by 1000 and truncated toward zero, which bounds
/// the render cache's key space against floating-point noise.
#[derive(Debug)]
pub struct PositionedText {
    pub text: String,
    pub x: i32,
    pub y: i32,
    pub scale_milli: i32,
    pub theta_milli: i32,
}

/// The template: canvas dimensions, resource locations, the ordered layer
/// stacks and the ordered text elements. Layer order is paint order.
#[derive(Debug)]
pub struct Config {
    pub width: u32,
    pub height: u32,
    pub base_path: String,
    pub char_img_path: String,
    pub font: String,
    pub background_images: Vec<String>,
    pub foreground_images: Vec<String>,
    pub positioned_texts: Vec<PositionedText>,
}

/// The error kinds the pipeline reports: a missing or unparseable
/// configuration, a missing or corrupt image or font resource, or a failure
/// to persist the output artifact.
#[derive(Debug)]
pub enum ThumbnailError {
    ConfigLoad(String),
    ResourceLoad(String),
    CompositionIo(String),
}

impl Config {
    /// A canvas of these dimensions fits in memory: four channel bytes per
    /// pixel.
    pub open spec fn wf(&self) -> bool {
        4 * self.width as int * self.height as int <= usize::MAX as int
    }

    /// Whether a canvas of these dimensions fits in memory.
    pub fn is_well_formed(&self) -> (r: bool)
        ensures
            r == self.wf(),
    {
        let w128: u128 = self.width as u128;
        let h128: u128 = self.height as u128;
        assert(w128 * h128 <= 0xFFFF_FFFF * 0xFFFF_FFFF) by (nonlinear_arith)
            requires
                w128 <= 0xFFFF_FFFF,
                h128 <= 0xFFFF_FFFF,
        ;
        let wh: u128 = w128 * h128;
        let need: u128 = 4u128 * wh;
        proof {
            assert(need as int == 4 * self.width as int * self.height as int) by (nonlinear_arith)
                requires
                    wh as int == w128 as int * h128 as int,
                    need as int == 4 * wh as int,
                    w128 as int == self.width as int,
                    h128 as int == self.height as int,
            ;
        }
        need <= usize::MAX as u128
    }
}

impl PositionedText {
    /// A copy with the same fields.
    pub fn duplicate(&self) -> (r: PositionedText)
        ensures
            r == *self,
    {
        PositionedText {
            text: self.text.clone(),
            x: self.x,
            y: self.y,
            scale_milli: self.scale_milli,
            theta_milli: self.theta_milli,
        }
    }
}

/// A copy of a string vector with the same contents.
pub fn clone_strings(v: &Vec<String>) -> (r: Vec<String>)
    ensures
        r@ == v@,
{
    let mut r: Vec<String> = Vec::new();
    let mut i: usize = 0;
    while i < v.len()
        invariant
            i <= v.len(),
            r@ =~= v@.take(i as int),
        decreases v.len() - i,
    {
        r.push(v[i].clone());
        proof {
            assert(r@ =~= v@.take(i as int + 1));
        }
        i = i + 1;
    }
    proof {
        assert(v@.take(v@.len() as int) =~= v@);
    }
    r
}

/// Two templates with the same dimensions, paths, layer stacks and text
/// elements.
pub open spec fn same_config(a: Config, b: Config) -> bool {
    &&& a.width == b.width
    &&& a.height == b.height
    &&& a.base_path@ == b.base_path@
    &&& a.char_img_path@ == b.char_img_path@
    &&& a.font@ == b.font@
    &&& a.background_images@ == b.background_images@
    &&& a.foreground_images@ == b.foreground_images@
    &&& a.positioned_texts@ == b.positioned_texts@
}

impl Config {
    /// An immutable snapshot: a copy equal to the stored template, so a
    /// long-running composition is unaffected by a later reload.
    pub fn duplicate(&self) -> (r: Config)
        ensures
            same_config(r, *self),
    {
        let mut texts: Vec<PositionedText> = Vec::new();
        let mut i: usize = 0;
        while i < self.positioned_texts.len()
            invariant
                i <= self.positioned_texts.len(),
                texts@ =~= self.positioned_texts@.take(i as int),
            decreases self.positioned_texts.len() - i,
        {
            texts.push(self.positioned_texts[i].duplicate());
            proof {
                assert(texts@ =~= self.positioned_texts@.take(i as int + 1));
            }
            i = i + 1;
        }
        proof {
            assert(self.positioned_texts@.take(self.positioned_texts@.len() as int)
                =~= self.positioned_texts@);
        }
        Config {
            width: self.width,
            height: self.height,
            base_path: self.base_path.clone(),
            char_img_path: self.char_img_path.clone(),
            font: self.font.clone(),
            background_images: clone_strings(&self.background_images),
            foreground_images: clone_strings(&self.foreground_images),
            positioned_texts: texts,
        }
    }
}

/// Holds the active template, the font bytes it references, and the listing
/// of selectable sprite names, as one coherent unit: a reload replaces all of
/// it or none of it.
pub struct ConfigStore {
    config: Config,
    font_bytes: Vec<u8>,
    sprite_names: Vec<String>,
}

impl ConfigStore {
    /// The active template.
    pub closed spec fn active_config(&self) -> Config {
        self.config
    }

    /// The active font bytes.
    pub closed spec fn active_font(&self) -> Seq<u8> {
        self.font_bytes@
    }

    /// The selectable sprite names listed from the active template's sprite
    /// directory.
    pub closed spec fn active_sprites(&self) -> Seq<String> {
        self.sprite_names@
    }

    pub fn new(config: Config, font_bytes: Vec<u8>, sprite_names: Vec<String>) -> (s: Self)
        ensures
            s.active_config() == config,
            s.active_font() == font_bytes@,
            s.active_sprites() == sprite_names@,
    {
        ConfigStore { config, font_bytes, sprite_names }
    }

    /// An immutable snapshot of the active template (copy-out, not a live
    /// reference).
    pub fn current(&self) -> (c: Config)
        ensures
            same_config(c, self.active_config()),
    {
        self.config.duplicate()
    }

    /// Read access to the active font bytes for the duration of a render.
    pub fn font(&self) -> (f: &Vec<u8>)
        ensures
            f@ == self.active_font(),
    {
        &self.font_bytes
    }

    /// The selectable sprite names.
    pub fn sprites(&self) -> (s: &Vec<String>)
        ensures
            s@ == self.active_sprites(),
    {
        &self.sprite_names
    }

    /// Applies the outcome of re-reading the template, its font bytes and its
    /// sprite listing. All-or-nothing: when every read succeeded the whole
    /// pair (and the listing) is replaced at once; when any failed, the
    /// previously active state stays untouched and the error is reported.
    pub fn reload(&mut self, loaded: Result<(Config, Vec<u8>, Vec<String>), ThumbnailError>) -> (r:
        Result<(), ThumbnailError>)
        ensures
            match loaded {
                Ok((c, f, s)) => {
                    &&& final(self).active_config() == c
                    &&& final(self).active_font() == f@
                    &&& final(self).active_sprites() == s@
                    &&& r is Ok
                },
                Err(e) => {
                    &&& *final(self) == *old(self)
                    &&& r == Err::<(), ThumbnailError>(e)
                },
            },
    {
        match loaded {
            Ok((config, font_bytes, sprite_names)) => {
                self.config = config;
                self.font_bytes = font_bytes;
                self.sprite_names = sprite_names;
                Ok(())
            },
            Err(e) => Err(e),
        }
    }
}

} // verus!
