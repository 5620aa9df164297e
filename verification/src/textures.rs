//! What the host has on the GPU at one moment: the textures of loaded images,
//! and the textures rasterized from this frame's text.

use crate::assets::HandleId;
use vstd::prelude::*;

verus! {

/// The texture of a loaded image, by the handle of the image and with its
/// size in pixels.
#[derive(Clone, Copy, Debug, PartialEq, Eq, Structural)]
pub struct TextureInfo {
    pub handle: HandleId,
    pub width: u32,
    pub height: u32,
}

/// Whether one of `textures` belongs to the image `handle`.
pub open spec fn has_texture(textures: Seq<TextureInfo>, handle: HandleId) -> bool {
    exists|i: int| 0 <= i < textures.len() && (#[trigger] textures[i]).handle == handle
}

/// Looks for the texture of the image `handle`.
pub fn texture_available(textures: &Vec<TextureInfo>, handle: HandleId) -> (available: bool)
    ensures
        available == has_texture(textures@, handle),
{
    let mut i: usize = 0;
    while i < textures.len()
        invariant
            i <= textures.len(),
            forall|k: int| 0 <= k < i ==> (#[trigger] textures@[k]).handle != handle,
        decreases textures.len() - i,
    {
        if textures[i].handle == handle {
            return true;
        }
        i += 1;
    }
    false
}

/// The texture rasterized for the text of one widget, with its size in pixels.
/// `T` is the texture as the graphics context hands it out.
#[derive(Debug)]
pub struct TextTexture<T> {
    pub widget: String,
    pub width: u32,
    pub height: u32,
    pub texture: T,
}

/// The position of the first of `entries` that belongs to `widget`.
pub open spec fn text_slot<T>(entries: Seq<TextTexture<T>>, widget: Seq<char>) -> Option<int>
    decreases entries.len(),
{
    if entries.len() == 0 {
        None
    } else {
        match text_slot(entries.drop_last(), widget) {
            Some(slot) => Some(slot),
            None => if entries.last().widget@ == widget {
                Some(entries.len() - 1)
            } else {
                None
            },
        }
    }
}

/// `text_slot` finds the first entry of the widget, and finds none only where
/// there is none.
pub proof fn lemma_text_slot<T>(entries: Seq<TextTexture<T>>, widget: Seq<char>)
    ensures
        match text_slot(entries, widget) {
            Some(slot) => {
                &&& 0 <= slot < entries.len()
                &&& entries[slot].widget@ == widget
                &&& forall|k: int| 0 <= k < slot ==> (#[trigger] entries[k]).widget@ != widget
            },
            None => forall|k: int| 0 <= k < entries.len() ==> (#[trigger] entries[k]).widget@ != widget,
        },
    decreases entries.len(),
{
    if entries.len() > 0 {
        let init = entries.drop_last();
        lemma_text_slot(init, widget);
        match text_slot(init, widget) {
            Some(slot) => {
                assert forall|k: int| 0 <= k < slot implies (#[trigger] entries[k]).widget@ != widget by {
                    assert(init[k] == entries[k]);
                }
            },
            None => {
                assert forall|k: int| 0 <= k < init.len() implies (#[trigger] entries[k]).widget@ != widget by {
                    assert(init[k] == entries[k]);
                }
            },
        }
    }
}

/// The first entry of a widget is its slot.
pub proof fn lemma_text_slot_is_first<T>(entries: Seq<TextTexture<T>>, widget: Seq<char>, slot: int)
    requires
        0 <= slot < entries.len(),
        entries[slot].widget@ == widget,
        forall|k: int| 0 <= k < slot ==> (#[trigger] entries[k]).widget@ != widget,
    ensures
        text_slot(entries, widget) == Some(slot),
{
    lemma_text_slot(entries, widget);
}

/// The textures of one frame's text blocks, one per widget. They are made
/// anew every frame and never kept.
pub struct TextTextures<T> {
    entries: Vec<TextTexture<T>>,
}

impl<T> View for TextTextures<T> {
    type V = Seq<TextTexture<T>>;

    closed spec fn view(&self) -> Seq<TextTexture<T>> {
        self.entries@
    }
}

impl<T> TextTextures<T> {
    /// No textures yet: the state at the start of a frame.
    pub fn new() -> (textures: TextTextures<T>)
        ensures
            textures@ == Seq::<TextTexture<T>>::empty(),
    {
        TextTextures { entries: Vec::new() }
    }

    /// The slot of the texture of `widget`.
    pub fn find(&self, widget: &String) -> (slot: Option<usize>)
        ensures
            match slot {
                Some(i) => text_slot(self@, widget@) == Some(i as int),
                None => text_slot(self@, widget@).is_none(),
            },
    {
        let mut i: usize = 0;
        while i < self.entries.len()
            invariant
                i <= self.entries.len(),
                forall|k: int| 0 <= k < i ==> (#[trigger] self.entries@[k]).widget@ != widget@,
            decreases self.entries.len() - i,
        {
            if self.entries[i].widget == *widget {
                proof {
                    lemma_text_slot_is_first(self@, widget@, i as int);
                }
                return Some(i);
            }
            i += 1;
        }
        proof {
            lemma_text_slot(self@, widget@);
        }
        None
    }

    /// Records the texture rasterized for `widget` and returns its slot. A
    /// widget that has a texture already keeps its slot, and the new texture
    /// replaces the old one.
    pub fn insert(&mut self, widget: String, width: u32, height: u32, texture: T) -> (slot: usize)
        ensures
            text_slot(final(self)@, widget@) == Some(slot as int),
            final(self)@[slot as int].widget@ == widget@,
            final(self)@[slot as int].width == width,
            final(self)@[slot as int].height == height,
            final(self)@[slot as int].texture == texture,
            match text_slot(old(self)@, widget@) {
                Some(i) => slot == i && final(self)@ == old(self)@.update(i, final(self)@[i]),
                None => slot == old(self)@.len() && final(self)@ == old(self)@.push(
                    final(self)@[slot as int],
                ),
            },
    {
        match self.find(&widget) {
            Some(i) => {
                proof {
                    lemma_text_slot(self@, widget@);
                }
                self.entries[i].width = width;
                self.entries[i].height = height;
                self.entries[i].texture = texture;
                proof {
                    assert(self@ =~= old(self)@.update(i as int, self@[i as int]));
                    assert forall|k: int| 0 <= k < i implies (#[trigger] self@[k]).widget@ != widget@ by {
                        assert(self@[k] == old(self)@[k]);
                    }
                    lemma_text_slot_is_first(self@, widget@, i as int);
                }
                i
            },
            None => {
                proof {
                    lemma_text_slot(self@, widget@);
                }
                let slot: usize = self.entries.len();
                self.entries.push(TextTexture { widget, width, height, texture });
                proof {
                    assert forall|k: int| 0 <= k < slot implies (#[trigger] self@[k]).widget@ != widget@ by {
                        assert(self@[k] == old(self)@[k]);
                    }
                    lemma_text_slot_is_first(self@, widget@, slot as int);
                }
                slot
            },
        }
    }

    /// The texture in `slot`, if there are that many.
    pub fn get(&self, slot: usize) -> (texture: Option<&TextTexture<T>>)
        ensures
            match texture {
                Some(t) => slot < self@.len() && *t == self@[slot as int],
                None => slot >= self@.len(),
            },
    {
        if slot < self.entries.len() {
            Some(&self.entries[slot])
        } else {
            None
        }
    }

    /// How many widgets have a texture.
    pub fn len(&self) -> (n: usize)
        ensures
            n == self@.len(),
    {
        self.entries.len()
    }

    /// Hands the textures over, each in its slot.
    pub fn into_entries(self) -> (entries: Vec<TextTexture<T>>)
        ensures
            entries@ == self@,
    {
        self.entries
    }
}

} // verus!
