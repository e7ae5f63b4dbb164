//! The analyzer: its constants, how they are derived, and the integration
//! of a ground-acceleration record step by step.
//!
//! The update rules are values of function type. A contract speaks of a rule
//! `f` through `f.ensures(args, result)`, the results that `f` may return on
//! `args`, so it holds for exact and for rounded arithmetic alike.

use crate::response::{Result, Series};
use vstd::prelude::*;

verus! {

/// Response analysis parameters
#[derive(Debug)]
pub struct ResponseAccAnalyzerParams<T> {
    /// Natural period [ms]
    pub natural_period_ms: u32,
    /// Input data time resolution [ms]
    pub dt_ms: u32,
    /// Damping constant
    pub damping_h: T,
    /// β of the Newmark-β method
    pub beta: T,
    /// Initial response displacement
    pub init_x: T,
    /// Initial response velocity
    pub init_v: T,
    /// Initial response acceleration
    pub init_a: T,
    /// Initial ground acceleration
    pub init_xg: T,
}

/// The mass that a new analyzer is given.
pub const DEFAULT_MASS: u8 = 100;

/// Why a parameter set gives no analyzer.
#[derive(Debug, Clone, Copy, PartialEq, Eq)]
pub enum ParamError {
    /// The natural period is zero.
    NaturalPeriodNotPositive,
}

/// Seismic response analyser for one mass point systems.
///
/// Holds the time step, the mass with the stiffness and damping coefficient
/// derived from it, β, and the state at time zero.
#[derive(Debug)]
pub struct ResponseAccAnalyzer<T> {
    dt: T,
    hardness: T,
    mass: T,
    damping_c: T,
    beta: T,
    init_x: T,
    init_v: T,
    init_a: T,
    init_xg: T,
}

impl<T: Copy> Clone for ResponseAccAnalyzerParams<T> {
    fn clone(&self) -> (copy: Self)
        ensures
            copy == *self,
    {
        *self
    }
}

impl<T: Copy> Copy for ResponseAccAnalyzerParams<T> {}

impl<T: Copy> Clone for ResponseAccAnalyzer<T> {
    fn clone(&self) -> (copy: Self)
        ensures
            copy == *self,
    {
        *self
    }
}

impl<T: Copy> Copy for ResponseAccAnalyzer<T> {}

/// The values that a [`ResponseAccAnalyzer`] holds.
pub struct Constants<T> {
    pub dt: T,
    pub hardness: T,
    pub mass: T,
    pub damping_c: T,
    pub beta: T,
    pub init_x: T,
    pub init_v: T,
    pub init_a: T,
    pub init_xg: T,
}

impl<T> View for ResponseAccAnalyzer<T> {
    type V = Constants<T>;

    closed spec fn view(&self) -> Constants<T> {
        Constants {
            dt: self.dt,
            hardness: self.hardness,
            mass: self.mass,
            damping_c: self.damping_c,
            beta: self.beta,
            init_x: self.init_x,
            init_v: self.init_v,
            init_a: self.init_a,
            init_xg: self.init_xg,
        }
    }
}

/// The stiffness and the damping coefficient in `c` are what the two rules
/// give for the mass in `c`: the stiffness from the mass and the natural
/// period, the damping coefficient from the damping constant, the mass and
/// that stiffness.
pub open spec fn derived_from_mass<T, H: Fn(T, u32) -> T, C: Fn(T, T, T) -> T>(
    c: Constants<T>,
    natural_period_ms: u32,
    damping_h: T,
    calc_hardness: H,
    calc_damping_c: C,
) -> bool {
    &&& calc_hardness.ensures((c.mass, natural_period_ms), c.hardness)
    &&& calc_damping_c.ensures((damping_h, c.mass, c.hardness), c.damping_c)
}

/// The sample sequence that is integrated over: the ground acceleration at
/// time zero, then the record.
pub open spec fn extended<T>(init_xg: T, xg: Seq<T>) -> Seq<T> {
    seq![init_xg] + xg
}

/// Step `i` of `r` follows the update rules: from the state in entry `i` and
/// the ground sample `ext[i]`, the new acceleration comes from `a_1`; the new
/// velocity from `v_1` on the old and the new acceleration; the new
/// displacement from `x_1` likewise; and the absolute acceleration of the
/// step from the new acceleration and the same ground sample.
pub open spec fn step_follows<
    T,
    FA: Fn(ResponseAccAnalyzer<T>, T, T, T, T) -> T,
    FV: Fn(ResponseAccAnalyzer<T>, T, T, T) -> T,
    FX: Fn(ResponseAccAnalyzer<T>, T, T, T, T) -> T,
    FS: Fn(T, T) -> T,
>(
    analyzer: ResponseAccAnalyzer<T>,
    a_1: FA,
    v_1: FV,
    x_1: FX,
    abs_response_acc: FS,
    ext: Seq<T>,
    r: Series<T>,
    i: int,
) -> bool {
    &&& a_1.ensures((analyzer, ext[i], r.a[i], r.v[i], r.x[i]), r.a[i + 1])
    &&& v_1.ensures((analyzer, r.a[i], r.a[i + 1], r.v[i]), r.v[i + 1])
    &&& x_1.ensures((analyzer, r.a[i], r.a[i + 1], r.v[i], r.x[i]), r.x[i + 1])
    &&& abs_response_acc.ensures((r.a[i + 1], ext[i]), r.abs_acc[i])
}

/// `r` is a response of `analyzer` to the samples `ext` under the given
/// update rules: one step per sample, starting from the analyzer's initial
/// state, each step following the rules.
pub open spec fn is_response<
    T,
    FA: Fn(ResponseAccAnalyzer<T>, T, T, T, T) -> T,
    FV: Fn(ResponseAccAnalyzer<T>, T, T, T) -> T,
    FX: Fn(ResponseAccAnalyzer<T>, T, T, T, T) -> T,
    FS: Fn(T, T) -> T,
>(
    analyzer: ResponseAccAnalyzer<T>,
    a_1: FA,
    v_1: FV,
    x_1: FX,
    abs_response_acc: FS,
    ext: Seq<T>,
    r: Series<T>,
) -> bool {
    &&& r.steps() == ext.len()
    &&& r.aligned()
    &&& r.x[0] == analyzer@.init_x
    &&& r.v[0] == analyzer@.init_v
    &&& r.a[0] == analyzer@.init_a
    &&& forall|i: int|
        0 <= i < ext.len() ==> #[trigger] step_follows(
            analyzer,
            a_1,
            v_1,
            x_1,
            abs_response_acc,
            ext,
            r,
            i,
        )
}

impl<T: Copy> ResponseAccAnalyzer<T> {
    /// Generate a response analyzer from parameters.
    ///
    /// The mass is fixed at [`DEFAULT_MASS`]: the parameters name none, because
    /// stiffness and damping coefficient scale with it and the response does
    /// not depend on it. `seconds` turns the time resolution from
    /// milliseconds into the time step; `calc_hardness` gives the stiffness
    /// for a mass and a natural period in milliseconds; `calc_damping_c`
    /// gives the damping coefficient for a damping constant, a mass and a
    /// stiffness, and is applied to the stiffness just computed.
    ///
    /// A natural period of zero is rejected: no stiffness belongs to it.
    /// Every other parameter set gives an analyzer.
    pub fn from_params<S: Fn(u32) -> T, H: Fn(T, u32) -> T, C: Fn(T, T, T) -> T>(
        params: ResponseAccAnalyzerParams<T>,
        seconds: S,
        calc_hardness: H,
        calc_damping_c: C,
    ) -> (built: core::result::Result<Self, ParamError>) where T: From<u8>
        requires
            params.natural_period_ms != 0 ==> {
                &&& seconds.requires((params.dt_ms,))
                &&& forall|mass: T|
                    call_ensures(T::from, (DEFAULT_MASS,), mass) ==> calc_hardness.requires(
                        (mass, params.natural_period_ms),
                    )
                &&& forall|mass: T, hardness: T|
                    call_ensures(T::from, (DEFAULT_MASS,), mass) ==> calc_damping_c.requires(
                        (params.damping_h, mass, hardness),
                    )
            },
        ensures
            params.natural_period_ms == 0 <==> built == core::result::Result::<
                Self,
                ParamError,
            >::Err(ParamError::NaturalPeriodNotPositive),
            params.natural_period_ms != 0 <==> built is Ok,
            built matches Ok(analyzer) ==> {
                &&& seconds.ensures((params.dt_ms,), analyzer@.dt)
                &&& call_ensures(T::from, (DEFAULT_MASS,), analyzer@.mass)
                &&& derived_from_mass(
                    analyzer@,
                    params.natural_period_ms,
                    params.damping_h,
                    calc_hardness,
                    calc_damping_c,
                )
                &&& analyzer@.beta == params.beta
                &&& analyzer@.init_x == params.init_x
                &&& analyzer@.init_v == params.init_v
                &&& analyzer@.init_a == params.init_a
                &&& analyzer@.init_xg == params.init_xg
            },
    {
        if params.natural_period_ms == 0 {
            return Err(ParamError::NaturalPeriodNotPositive);
        }
        let mass = T::from(DEFAULT_MASS);
        let hardness = calc_hardness(mass, params.natural_period_ms);
        let damping_c = calc_damping_c(params.damping_h, mass, hardness);
        Ok(
            Self {
                dt: seconds(params.dt_ms),
                hardness,
                mass,
                damping_c,
                beta: params.beta,
                init_x: params.init_x,
                init_v: params.init_v,
                init_a: params.init_a,
                init_xg: params.init_xg,
            },
        )
    }

    /// Change the mass, and with it the stiffness and the damping
    /// coefficient, which are recomputed for the new mass by the same two
    /// rules as in [`Self::from_params`]. Time step, β and the initial state
    /// stay as they are. Returns a copy of the changed analyzer.
    pub fn set_mass<H: Fn(T, u32) -> T, C: Fn(T, T, T) -> T>(
        &mut self,
        mass: T,
        natural_period_ms: u32,
        damping_h: T,
        calc_hardness: H,
        calc_damping_c: C,
    ) -> (changed: Self)
        requires
            calc_hardness.requires((mass, natural_period_ms)),
            forall|hardness: T| calc_damping_c.requires((damping_h, mass, hardness)),
        ensures
            changed == *final(self),
            final(self)@.mass == mass,
            derived_from_mass(
                final(self)@,
                natural_period_ms,
                damping_h,
                calc_hardness,
                calc_damping_c,
            ),
            final(self)@.dt == old(self)@.dt,
            final(self)@.beta == old(self)@.beta,
            final(self)@.init_x == old(self)@.init_x,
            final(self)@.init_v == old(self)@.init_v,
            final(self)@.init_a == old(self)@.init_a,
            final(self)@.init_xg == old(self)@.init_xg,
    {
        self.mass = mass;
        self.hardness = calc_hardness(mass, natural_period_ms);
        self.damping_c = calc_damping_c(damping_h, mass, self.hardness);
        *self
    }

    /// Calculate the response to the ground acceleration record `xg`.
    ///
    /// The ground acceleration at time zero is put in front of the record,
    /// and one step is taken for every sample of the extended record, the
    /// one at time zero included. The state series therefore hold
    /// `xg.len() + 2` entries and the absolute acceleration `xg.len() + 1`.
    /// In each step the new acceleration is computed first; velocity,
    /// displacement and absolute acceleration are computed from it.
    pub fn analyze<
        FA: Fn(ResponseAccAnalyzer<T>, T, T, T, T) -> T,
        FV: Fn(ResponseAccAnalyzer<T>, T, T, T) -> T,
        FX: Fn(ResponseAccAnalyzer<T>, T, T, T, T) -> T,
        FS: Fn(T, T) -> T,
    >(&self, xg: Vec<T>, a_1: FA, v_1: FV, x_1: FX, abs_response_acc: FS) -> (result: Result<T>)
        requires
            xg.len() < usize::MAX,
            forall|g: T, a: T, v: T, x: T| a_1.requires((*self, g, a, v, x)),
            forall|a: T, a1: T, v: T| v_1.requires((*self, a, a1, v)),
            forall|a: T, a1: T, v: T, x: T| x_1.requires((*self, a, a1, v, x)),
            forall|a: T, g: T| abs_response_acc.requires((a, g)),
        ensures
            is_response(
                *self,
                a_1,
                v_1,
                x_1,
                abs_response_acc,
                extended(self@.init_xg, xg@),
                result@,
            ),
            result@.abs_acc.len() == xg.len() + 1,
            result@.x.len() == xg.len() + 2,
            result@.v.len() == xg.len() + 2,
            result@.a.len() == xg.len() + 2,
    {
        let ghost record = xg@;
        let mut xg = xg;
        xg.insert(0, self.init_xg);
        let n: usize = xg.len();
        assert(xg@ =~= extended(self@.init_xg, record));

        let mut result = Result {
            x: Vec::with_capacity(n),
            v: Vec::with_capacity(n),
            a: Vec::with_capacity(n),
            abs_acc: Vec::with_capacity(n),
        };
        result.x.push(self.init_x);
        result.v.push(self.init_v);
        result.a.push(self.init_a);

        let mut i: usize = 0;
        while i < n
            invariant
                n == xg.len(),
                i <= n,
                result@.steps() == i,
                result@.aligned(),
                result@.x[0] == self@.init_x,
                result@.v[0] == self@.init_v,
                result@.a[0] == self@.init_a,
                forall|j: int|
                    0 <= j < i ==> #[trigger] step_follows(
                        *self,
                        a_1,
                        v_1,
                        x_1,
                        abs_response_acc,
                        xg@,
                        result@,
                        j,
                    ),
                forall|g: T, a: T, v: T, x: T| a_1.requires((*self, g, a, v, x)),
                forall|a: T, a1: T, v: T| v_1.requires((*self, a, a1, v)),
                forall|a: T, a1: T, v: T, x: T| x_1.requires((*self, a, a1, v, x)),
                forall|a: T, g: T| abs_response_acc.requires((a, g)),
            decreases n - i,
        {
            let ghost before = result@;
            let x = result.x[i];
            let v = result.v[i];
            let a = result.a[i];
            let g = xg[i];

            let a_next = a_1(*self, g, a, v, x);
            let v_next = v_1(*self, a, a_next, v);
            let x_next = x_1(*self, a, a_next, v, x);

            result.x.push(x_next);
            result.v.push(v_next);
            result.a.push(a_next);
            result.abs_acc.push(abs_response_acc(a_next, g));

            proof {
                assert forall|j: int| 0 <= j < i + 1 implies #[trigger] step_follows(
                    *self,
                    a_1,
                    v_1,
                    x_1,
                    abs_response_acc,
                    xg@,
                    result@,
                    j,
                ) by {
                    if j < i {
                        assert(step_follows(
                            *self,
                            a_1,
                            v_1,
                            x_1,
                            abs_response_acc,
                            xg@,
                            before,
                            j,
                        ));
                    }
                }
            }
            i += 1;
        }
        result
    }

    /// Time step of the integration
    pub fn dt(&self) -> (value: T)
        ensures
            value == self@.dt,
    {
        self.dt
    }

    /// Stiffness of the spring
    pub fn hardness(&self) -> (value: T)
        ensures
            value == self@.hardness,
    {
        self.hardness
    }

    /// Mass of the mass point
    pub fn mass(&self) -> (value: T)
        ensures
            value == self@.mass,
    {
        self.mass
    }

    /// Damping coefficient
    pub fn damping_c(&self) -> (value: T)
        ensures
            value == self@.damping_c,
    {
        self.damping_c
    }

    /// β of the Newmark-β method
    pub fn beta(&self) -> (value: T)
        ensures
            value == self@.beta,
    {
        self.beta
    }

    /// Response displacement at time zero
    pub fn init_x(&self) -> (value: T)
        ensures
            value == self@.init_x,
    {
        self.init_x
    }

    /// Response velocity at time zero
    pub fn init_v(&self) -> (value: T)
        ensures
            value == self@.init_v,
    {
        self.init_v
    }

    /// Response acceleration at time zero
    pub fn init_a(&self) -> (value: T)
        ensures
            value == self@.init_a,
    {
        self.init_a
    }

    /// Ground acceleration at time zero
    pub fn init_xg(&self) -> (value: T)
        ensures
            value == self@.init_xg,
    {
        self.init_xg
    }
}

} // verus!
