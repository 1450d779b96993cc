use vstd::prelude::*;

verus! {

/// A resource as the editor saves it.
#[derive(Debug)]
pub struct ResourceConstructor {
    pub name: String,
}

impl ResourceConstructor {
    pub fn new(name: String) -> (resource: Self)
        ensures
            resource.name == name,
    {
        ResourceConstructor { name }
    }

    /// Renames the resource.
    pub fn rename(&mut self, name: String)
        ensures
            final(self).name == name,
    {
        self.name = name;
    }
}

impl Default for ResourceConstructor {
    fn default() -> (resource: Self)
        ensures
            resource.name@ == Seq::<char>::empty(),
    {
        ResourceConstructor { name: String::new() }
    }
}

pub struct ResourceInfo {
    pub name: String,
}

} // verus!
