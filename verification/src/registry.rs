use vstd::prelude::*;

use crate::component::Component;

verus! {

/// Why a registry operation was refused.
#[derive(Clone, Copy, Debug, PartialEq, Eq, Structural)]
pub enum RegistryError {
    /// `register` found the requested name already taken.
    DuplicateName,
    /// `get` found no component under the requested name.
    NotFound,
}

/// A mapping from component name to component.
///
/// Names are unique: registering a taken name is refused rather than
/// overwriting. Components are visited by position (`len` together with
/// `component_at`), so one pass over the positions sees a point-in-time
/// snapshot of the mapping, every entry exactly once.
pub struct ComponentRegistry {
    components: Vec<Component>,
}

impl ComponentRegistry {
    /// The registered components, in registration order.
    pub closed spec fn spec_components(&self) -> Seq<Component> {
        self.components@
    }

    /// Whether some registered component carries `name`.
    pub open spec fn spec_contains(&self, name: Seq<char>) -> bool {
        exists|i: int|
            0 <= i < self.spec_components().len() && self.spec_components()[i].spec_name() == name
    }

    /// Well-formedness: no two registered components share a name.
    pub open spec fn wf(&self) -> bool {
        forall|i: int, j: int|
            0 <= i < j < self.spec_components().len() ==> self.spec_components()[i].spec_name()
                != self.spec_components()[j].spec_name()
    }

    /// Creates an empty registry.
    pub fn new() -> (r: ComponentRegistry)
        ensures
            r.wf(),
            r.spec_components().len() == 0,
    {
        ComponentRegistry { components: Vec::new() }
    }

    /// The number of registered components.
    pub fn len(&self) -> (n: usize)
        ensures
            n == self.spec_components().len(),
    {
        self.components.len()
    }

    /// The component at position `i` in registration order.
    pub fn component_at(&self, i: usize) -> (c: &Component)
        requires
            i < self.spec_components().len(),
        ensures
            *c == self.spec_components()[i as int],
    {
        &self.components[i]
    }

    /// The position of the component registered under `name`, if any.
    fn position_of(&self, name: &String) -> (r: Option<usize>)
        ensures
            match r {
                Some(i) => i < self.spec_components().len() && self.spec_components()[i as int].spec_name() == name@,
                None => !self.spec_contains(name@),
            },
    {
        let n: usize = self.components.len();
        let mut i: usize = 0;
        while i < n
            invariant
                n == self.spec_components().len(),
                i <= n,
                forall|k: int| 0 <= k < i ==> self.spec_components()[k].spec_name() != name@,
            decreases n - i,
        {
            if self.components[i].name_matches(name) {
                return Some(i);
            }
            i = i + 1;
        }
        None
    }

    /// Whether a component is registered under `name`.
    pub fn contains(&self, name: &String) -> (r: bool)
        ensures
            r == self.spec_contains(name@),
    {
        match self.position_of(name) {
            Some(_) => true,
            None => false,
        }
    }

    /// Registers `component` under its own name. Refused with
    /// `DuplicateName`, and the registry left unchanged, exactly when the
    /// name is already taken; otherwise the component is appended.
    pub fn register(&mut self, component: Component) -> (r: Result<(), RegistryError>)
        requires
            old(self).wf(),
        ensures
            final(self).wf(),
            match r {
                Ok(_) => !old(self).spec_contains(component.spec_name())
                    && final(self).spec_components() == old(self).spec_components().push(component),
                Err(e) => e == RegistryError::DuplicateName
                    && old(self).spec_contains(component.spec_name())
                    && *final(self) == *old(self),
            },
    {
        if self.contains(component.name()) {
            Err(RegistryError::DuplicateName)
        } else {
            let ghost pre = self.spec_components();
            let ghost name = component.spec_name();
            self.components.push(component);
            proof {
                let cs = self.spec_components();
                assert forall|i: int, j: int|
                    0 <= i < j < cs.len() implies cs[i].spec_name() != cs[j].spec_name() by {
                    if j < pre.len() {
                        assert(old(self).wf());
                    } else {
                        assert(cs[j].spec_name() == name);
                        assert(pre[i].spec_name() != name);
                    }
                }
            }
            Ok(())
        }
    }

    /// Looks up the component registered under `name`; fails with
    /// `NotFound`, exactly when no component carries the name.
    pub fn get(&self, name: &String) -> (r: Result<&Component, RegistryError>)
        ensures
            match r {
                Ok(c) => c.spec_name() == name@ && (exists|i: int|
                    0 <= i < self.spec_components().len() && *c == self.spec_components()[i]),
                Err(e) => e == RegistryError::NotFound && !self.spec_contains(name@),
            },
    {
        match self.position_of(name) {
            Some(i) => Ok(&self.components[i]),
            None => Err(RegistryError::NotFound),
        }
    }
}

} // verus!
