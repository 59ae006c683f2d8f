//! What is fixed for a run, checked once.

use vstd::prelude::*;

verus! {

/// Why a configuration was refused.
#[derive(Clone, Copy, Debug, PartialEq, Eq)]
pub enum ConfigError {
    /// A run needs at least one body.
    NoBodies,
    /// The time step is not greater than zero.
    NonPositiveTimeStep,
}

/// The number of bodies and the length of a tick, both found fit for a run:
/// there is at least one body, and the time step compared greater than zero.
///
/// `T` is the type of a time increment.
#[derive(Debug)]
pub struct SimulationConfig<T> {
    body_count: usize,
    time_step: T,
}

/// `positive` is an answer of `time_step > zero`.
pub open spec fn is_positive<T: PartialOrd>(time_step: T, zero: T, positive: bool) -> bool {
    call_ensures(T::gt, (&time_step, &zero), positive)
}

impl<T> SimulationConfig<T> {
    #[verifier::type_invariant]
    spec fn has_bodies(self) -> bool {
        self.body_count > 0
    }

    /// The number of bodies, as a number.
    pub closed spec fn count(self) -> nat {
        self.body_count as nat
    }

    /// The length of a tick, as a value.
    pub closed spec fn tick(self) -> T {
        self.time_step
    }

    /// The number of bodies of the run; never zero.
    pub fn body_count(&self) -> (n: usize)
        ensures
            n == self.count(),
            n > 0,
    {
        proof {
            use_type_invariant(self);
        }
        self.body_count
    }
}

impl<T: Copy> SimulationConfig<T> {
    /// The length of a tick.
    pub fn time_step(&self) -> (dt: T)
        ensures
            dt == self.tick(),
    {
        self.time_step
    }
}

impl<T: PartialOrd> SimulationConfig<T> {
    /// Checks the two values and keeps them.
    ///
    /// A count of zero is refused first; then a time step that does not
    /// compare greater than `zero`, the zero of `T`. Everything else is
    /// accepted.
    pub fn new(body_count: usize, time_step: T, zero: &T) -> (made: Result<Self, ConfigError>)
        ensures
            body_count == 0 <==> made == Err::<Self, ConfigError>(ConfigError::NoBodies),
            body_count > 0 ==> exists|positive: bool|
                {
                    &&& #[trigger] is_positive(time_step, *zero, positive)
                    &&& positive <==> made is Ok
                    &&& !positive <==> made == Err::<Self, ConfigError>(
                        ConfigError::NonPositiveTimeStep,
                    )
                },
            made matches Ok(config) ==> config.count() == body_count && config.tick() == time_step,
    {
        if body_count == 0 {
            return Err(ConfigError::NoBodies);
        }
        let positive = time_step > *zero;
        assert(is_positive(time_step, *zero, positive));
        if positive {
            Ok(SimulationConfig { body_count, time_step })
        } else {
            Err(ConfigError::NonPositiveTimeStep)
        }
    }
}

} // verus!
