//! Fonts as Altium stores them in library and document headers.

use vstd::prelude::*;

verus! {

/// A font that is stored in a library.
#[derive(Clone, Debug, PartialEq)]
pub struct Font {
    pub name: String,
    pub size: u16,
}

impl Font {
    /// The name of this font.
    pub fn name(&self) -> (r: &str)
        ensures
            r@ == self.name@,
    {
        self.name.as_str()
    }

    /// Font size (points).
    pub fn size(&self) -> (r: u16)
        ensures
            r == self.size,
    {
        self.size
    }

    pub fn new(name: String, size: u16) -> (r: Self)
        ensures
            r.name@ == name@,
            r.size == size,
    {
        Font { name, size }
    }
}

impl Default for Font {
    fn default() -> (r: Self)
        ensures
            r.name@ == Seq::<char>::empty(),
            r.size == 0,
    {
        Font { name: String::new(), size: 0 }
    }
}

/// A set of fonts, looked up by Altium's 1-based indices.
#[derive(Clone, Debug, PartialEq)]
pub struct FontCollection {
    pub fonts: Vec<Font>,
}

impl FontCollection {
    pub fn new(fonts: Vec<Font>) -> (r: Self)
        ensures
            r.fonts@ == fonts@,
    {
        FontCollection { fonts }
    }

    /// Look a font up by its 1-based index.
    pub fn get_idx(&self, idx: usize) -> (r: Option<&Font>)
        ensures
            r is Some <==> 1 <= idx <= self.fonts@.len(),
            r is Some ==> *r->0 == self.fonts@[idx - 1],
    {
        if idx >= 1 && idx <= self.fonts.len() {
            Some(&self.fonts[idx - 1])
        } else {
            None
        }
    }

    /// How many fonts the collection holds.
    pub fn len(&self) -> (r: usize)
        ensures
            r == self.fonts@.len(),
    {
        self.fonts.len()
    }

    /// A copy of the collection with the same names and sizes.
    pub fn duplicate(&self) -> (r: Self)
        ensures
            r.fonts@.len() == self.fonts@.len(),
            forall|j: int| 0 <= j < self.fonts@.len() ==> {
                &&& (#[trigger] r.fonts@[j]).name@ == self.fonts@[j].name@
                &&& r.fonts@[j].size == self.fonts@[j].size
            },
    {
        let mut out: Vec<Font> = Vec::new();
        let mut i: usize = 0;
        while i < self.fonts.len()
            invariant
                0 <= i <= self.fonts@.len(),
                out@.len() == i,
                forall|j: int| 0 <= j < i ==> {
                    &&& (#[trigger] out@[j]).name@ == self.fonts@[j].name@
                    &&& out@[j].size == self.fonts@[j].size
                },
            decreases self.fonts@.len() - i,
        {
            let f = &self.fonts[i];
            out.push(Font { name: f.name.clone(), size: f.size });
            i += 1;
        }
        FontCollection { fonts: out }
    }

    /// All fonts, in index order.
    pub fn as_slice(&self) -> (r: &[Font])
        ensures
            r@ == self.fonts@,
    {
        self.fonts.as_slice()
    }
}

impl Default for FontCollection {
    fn default() -> (r: Self)
        ensures
            r.fonts@.len() == 0,
    {
        FontCollection { fonts: Vec::new() }
    }
}

} // verus!
