use vstd::prelude::*;
use crate::status::{AiReturn, lookup_outcome};
use crate::text::{AiString, utf8_text};

verus! {

/// The properties of a material that this library reads: its name and its
/// diffuse and emissive colors, each absent where the importer's query for
/// it did not succeed. `C` is the type of a color.
pub struct AiMaterial<C> {
    pub name: Option<AiString>,
    pub diffuse: Option<C>,
    pub emissive: Option<C>,
}

impl<C> AiMaterial<C> {
    /// A present name is a well-formed string holding text.
    pub open spec fn wf(&self) -> bool {
        self.name matches Some(s) ==> s.wf() && s.is_text_spec()
    }

    /// The name as text, where the material has one.
    pub open spec fn name_text(&self) -> Option<Seq<char>> {
        match self.name {
            Some(s) => Some(utf8_text(s@)),
            None => None,
        }
    }

    /// Builds a material from the outcomes of the importer's three queries:
    /// each value is kept where its query succeeded and dropped otherwise.
    pub fn from_queries(
        name_status: AiReturn,
        name: AiString,
        diffuse_status: AiReturn,
        diffuse: C,
        emissive_status: AiReturn,
        emissive: C,
    ) -> (r: AiMaterial<C>)
        ensures
            r.name == (if name_status == AiReturn::Success { Some(name) } else { None::<AiString> }),
            r.diffuse == (if diffuse_status == AiReturn::Success { Some(diffuse) } else { None::<C> }),
            r.emissive == (if emissive_status == AiReturn::Success { Some(emissive) } else { None::<C> }),
    {
        AiMaterial {
            name: lookup_outcome(name_status, name),
            diffuse: lookup_outcome(diffuse_status, diffuse),
            emissive: lookup_outcome(emissive_status, emissive),
        }
    }

    /// Checks `wf`.
    pub fn is_well_formed(&self) -> (r: bool)
        ensures
            r == self.wf(),
    {
        match &self.name {
            Some(s) => s.is_well_formed() && s.is_text(),
            None => true,
        }
    }

    /// The material's name; `None` where it has none.
    pub fn name(&self) -> (r: Option<String>)
        requires
            self.wf(),
        ensures
            r is Some <==> self.name is Some,
            r matches Some(s) ==> Some(s@) == self.name_text(),
    {
        match &self.name {
            Some(s) => Some(s.as_text()),
            None => None,
        }
    }

    /// The name as text, or the empty string where the material has none.
    pub fn name_or_empty(&self) -> (r: String)
        requires
            self.wf(),
        ensures
            r@ == (match self.name_text() {
                Some(t) => t,
                None => Seq::<char>::empty(),
            }),
    {
        match &self.name {
            Some(s) => s.as_text(),
            None => String::new(),
        }
    }
}

impl<C: Copy> AiMaterial<C> {
    /// The diffuse color; `None` where the material has none.
    pub fn diffuse_color(&self) -> (r: Option<C>)
        ensures
            r == self.diffuse,
    {
        self.diffuse
    }

    /// The emissive color; `None` where the material has none.
    pub fn emissive_color(&self) -> (r: Option<C>)
        ensures
            r == self.emissive,
    {
        self.emissive
    }
}

} // verus!
