use vstd::prelude::*;

use std::collections::hash_map::Entry;
use std::collections::HashMap;

verus! {

/// A font kept as its file's bytes, with one renderer per font size, made
/// the first time the size is asked for and kept for later.
pub struct TextureFont<R> {
    bytes: Vec<u8>,
    font_renderers: HashMap<u8, R>,
}

impl<R> TextureFont<R> {
    /// The font file's bytes.
    pub closed spec fn font_bytes(&self) -> Vec<u8> {
        self.bytes
    }

    /// The renderer of each size made so far.
    pub closed spec fn renderers(&self) -> Map<u8, R> {
        self.font_renderers@
    }

    /// A font over the bytes of a font file, with no renderer yet.
    pub fn create(bytes: Vec<u8>) -> (r: Result<Self, &'static str>)
        ensures
            r is Ok,
            r->Ok_0.font_bytes() == bytes,
            r->Ok_0.renderers() == Map::<u8, R>::empty(),
    {
        Ok(TextureFont { bytes, font_renderers: HashMap::new() })
    }

    /// Whether a renderer of this size has been made.
    pub fn has_font_renderer(&self, size: u8) -> (r: bool)
        ensures
            r == self.renderers().contains_key(size),
    {
        broadcast use vstd::std_specs::hash::group_hash_axioms;
        self.font_renderers.contains_key(&size)
    }

    /// The renderer of `size`: the one made before, or else a new one made
    /// by `create` from the font's bytes and kept.  When `create` fails its
    /// error is returned and nothing is kept.
    pub fn get_or_create_font_renderer<F>(&mut self, size: u8, create: F) -> (r: Result<&mut R, &'static str>)
        where
            F: FnOnce(&Vec<u8>, u8) -> Result<R, &'static str>,
        requires
            call_requires(create, (&old(self).font_bytes(), size)),
        ensures
            final(self).font_bytes() == old(self).font_bytes(),
            match r {
                Ok(renderer) => {
                    &&& old(self).renderers().contains_key(size) ==> *renderer == old(self).renderers()[size]
                    &&& !old(self).renderers().contains_key(size) ==> call_ensures(
                        create,
                        (&old(self).font_bytes(), size),
                        Ok::<R, &'static str>(*renderer),
                    )
                    &&& final(self).renderers() == old(self).renderers().insert(size, *final(renderer))
                },
                Err(e) => {
                    &&& !old(self).renderers().contains_key(size)
                    &&& call_ensures(create, (&old(self).font_bytes(), size), Err::<R, &'static str>(e))
                    &&& final(self).renderers() == old(self).renderers()
                },
            },
    {
        broadcast use vstd::std_specs::hash::group_hash_axioms;
        if !self.font_renderers.contains_key(&size) {
            let renderer = create(&self.bytes, size)?;
            Ok(self.font_renderers.entry(size).or_insert(renderer))
        } else {
            let existing: Option<&mut R> = match self.font_renderers.entry(size) {
                Entry::Occupied(e) => Some(e.into_mut()),
                Entry::Vacant(_) => None,
            };
            Ok(existing.unwrap())
        }
    }
}

} // verus!
