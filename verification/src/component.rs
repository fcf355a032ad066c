use vstd::prelude::*;

use crate::health::HealthState;

verus! {

/// A named system component carrying a health flag.
///
/// The name is immutable after construction; the health flag is mutated by
/// periodic checks, by failover activation, and by external simulators.
pub struct Component {
    name: String,
    health: HealthState,
}

impl Component {
    /// The component's immutable name.
    pub closed spec fn spec_name(&self) -> Seq<char> {
        self.name@
    }

    /// Whether the component is currently marked healthy.
    pub closed spec fn is_healthy(&self) -> bool {
        self.health.is_healthy()
    }

    /// Creates a component with the given name and initial health.
    pub fn new(name: &str, healthy: bool) -> (c: Component)
        ensures
            c.spec_name() == name@,
            c.is_healthy() == healthy,
    {
        Component { name: name.to_owned(), health: HealthState::new(healthy) }
    }

    /// Performs a health check: reads the stored health flag.
    pub fn check_health(&self) -> (r: bool)
        ensures
            r == self.is_healthy(),
    {
        self.health.read()
    }

    /// Forces the health flag to `state` (used by failover activation and
    /// by external simulators). Setting the state already stored leaves
    /// the component entirely unchanged.
    pub fn set_health(&mut self, state: bool)
        ensures
            final(self).is_healthy() == state,
            final(self).spec_name() == old(self).spec_name(),
            old(self).is_healthy() == state ==> *final(self) == *old(self),
    {
        self.health.write(state);
    }

    /// Returns the component's name.
    pub fn name(&self) -> (r: &String)
        ensures
            r@ == self.spec_name(),
    {
        &self.name
    }

    /// Whether this component is registered under `name`.
    pub fn name_matches(&self, name: &String) -> (r: bool)
        ensures
            r == (self.spec_name() == name@),
    {
        self.name == *name
    }

    /// Refreshes the health flag from a probe reading and reports the
    /// stored value. A probe that failed or raised an error must be handed
    /// in as `false` (unhealthy): the component never sees the probe's own
    /// error type, and a probe failure never unwinds into the monitor.
    ///
    /// Probing an already-healthy component with a probe that confirms
    /// health is idempotent: the component is left entirely unchanged.
    pub fn apply_probe(&mut self, probe_result: bool) -> (r: bool)
        ensures
            r == probe_result,
            final(self).is_healthy() == probe_result,
            final(self).spec_name() == old(self).spec_name(),
            old(self).is_healthy() == probe_result ==> *final(self) == *old(self),
    {
        self.health.write(probe_result);
        probe_result
    }
}

} // verus!
