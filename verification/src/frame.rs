//! Ready-made frame contents: the [`Stop`] and [`Position`] command
//! shapes, the standing [`Query`] a controller sends by default, and the
//! [`QueryType`] policy that says how a per-call query combines with it.

use crate::builder::{insert_all, Frame, FrameBuilder};
use crate::protocol::Resolution;
use crate::registers::{
    int_payload, Mode, Modes, RegisterAddr, RegisterData, RegisterDataView,
};
use vstd::prelude::*;

verus! {

/// The view of an optional register operation as a run of zero or one.
pub open spec fn opt_reg_views(o: Option<RegisterData>) -> Seq<RegisterDataView> {
    match o {
        Some(rd) => seq![rd@],
        None => Seq::empty(),
    }
}

/// Appends an optional register operation.
fn push_opt(regs: &mut Vec<RegisterData>, o: Option<RegisterData>)
    ensures
        crate::registers::views_of(final(regs)@) == crate::registers::views_of(old(regs)@)
            + opt_reg_views(o),
{
    let ghost o0 = opt_reg_views(o);
    match o {
        Some(rd) => {
            let ghost r0 = regs@;
            regs.push(rd);
            proof {
                assert(crate::registers::views_of(regs@) =~= crate::registers::views_of(r0)
                    + o0);
            }
        },
        None => {
            proof {
                assert(crate::registers::views_of(regs@) =~= crate::registers::views_of(regs@)
                    + o0);
            }
        },
    }
}

/// The register operation that a [`Stop`] stands for: the mode register
/// written to `Modes::Stopped` at the default resolution.
pub open spec fn stop_mode_view() -> RegisterDataView {
    RegisterDataView {
        address: RegisterAddr::Mode,
        resolution: Resolution::Int8,
        data: Some(int_payload(Modes::Stopped.spec_value() as int, Resolution::Int8)),
    }
}

/// Sets the mode register to `Modes::Stopped`.
#[derive(Clone, Copy)]
pub struct Stop;

impl Stop {
    /// The builder holding this command's one register write.
    pub fn to_builder(self) -> (r: FrameBuilder)
        ensures
            r.wf(),
            r@ == Map::<(u8, u16), RegisterDataView>::empty().insert(
                crate::builder::reg_key(stop_mode_view()),
                stop_mode_view(),
            ),
    {
        let mut b = Frame::builder();
        match Mode::write(Modes::Stopped) {
            Ok(rd) => {
                b.add(rd);
            },
            Err(_) => {
                proof {
                    assert(false);
                }
            },
        }
        b
    }
}

/// The register operation that a [`Position`] always carries: the mode
/// register written to `Modes::Position` at the default resolution.
pub open spec fn position_mode_view() -> RegisterDataView {
    RegisterDataView {
        address: RegisterAddr::Mode,
        resolution: Resolution::Int8,
        data: Some(int_payload(Modes::Position.spec_value() as int, Resolution::Int8)),
    }
}

/// Sets the mode register to `Modes::Position`, together with any of the
/// position-mode command registers the caller filled in. A `None` field is
/// simply left out of the frame.
///
/// Every field is public: build the value directly, start from
/// [`Position::default`] or [`Position::hold`] and assign the fields to
/// change, then hand it to [`Position::to_builder`].
pub struct Position {
    /// A write of the commanded position register.
    pub position: Option<RegisterData>,
    /// A write of the commanded velocity register.
    pub velocity: Option<RegisterData>,
    /// A write of the feedforward torque register.
    pub feedforward_torque: Option<RegisterData>,
    /// A write of the proportional-gain scale register.
    pub kp_scale: Option<RegisterData>,
    /// A write of the derivative-gain scale register.
    pub kd_scale: Option<RegisterData>,
    /// A write of the maximum-torque register.
    pub maximum_torque: Option<RegisterData>,
    /// A write of the stop-position register.
    pub stop_position: Option<RegisterData>,
    /// A write of the watchdog-timeout register.
    pub watchdog_timeout: Option<RegisterData>,
    /// A write of the velocity-limit register.
    pub velocity_limit: Option<RegisterData>,
    /// A write of the acceleration-limit register.
    pub acceleration_limit: Option<RegisterData>,
    /// A write of the fixed-voltage-override register.
    pub fixed_voltage_override: Option<RegisterData>,
}

/// The register operations a [`Position`] stands for, in the order they
/// are added.
pub open spec fn position_views(p: Position) -> Seq<RegisterDataView> {
    seq![position_mode_view()] + opt_reg_views(p.position) + opt_reg_views(p.velocity)
        + opt_reg_views(p.feedforward_torque) + opt_reg_views(p.kp_scale) + opt_reg_views(
        p.kd_scale,
    ) + opt_reg_views(p.maximum_torque) + opt_reg_views(p.stop_position) + opt_reg_views(
        p.watchdog_timeout,
    ) + opt_reg_views(p.velocity_limit) + opt_reg_views(p.acceleration_limit) + opt_reg_views(
        p.fixed_voltage_override,
    )
}

impl Default for Position {
    /// A position command with every optional register left out.
    fn default() -> (r: Self)
        ensures
            r.position is None,
            r.velocity is None,
            r.feedforward_torque is None,
            r.kp_scale is None,
            r.kd_scale is None,
            r.maximum_torque is None,
            r.stop_position is None,
            r.watchdog_timeout is None,
            r.velocity_limit is None,
            r.acceleration_limit is None,
            r.fixed_voltage_override is None,
    {
        Position {
            position: None,
            velocity: None,
            feedforward_torque: None,
            kp_scale: None,
            kd_scale: None,
            maximum_torque: None,
            stop_position: None,
            watchdog_timeout: None,
            velocity_limit: None,
            acceleration_limit: None,
            fixed_voltage_override: None,
        }
    }
}

impl Position {
    /// A command that holds the current position: the commanded position is
    /// written as the not-a-number sentinel (at float resolution, its raw
    /// IEEE-754 bytes), which the device reads as "stay where you are".
    pub fn hold() -> (r: Self)
        ensures
            r.position matches Some(rd) && rd@ == (RegisterDataView {
                address: RegisterAddr::CommandPosition,
                resolution: Resolution::Float,
                data: Some(seq![0u8, 0u8, 192u8, 127u8]),
            }),
            r.velocity is None,
            r.feedforward_torque is None,
            r.kp_scale is None,
            r.kd_scale is None,
            r.maximum_torque is None,
            r.stop_position is None,
            r.watchdog_timeout is None,
            r.velocity_limit is None,
            r.acceleration_limit is None,
            r.fixed_voltage_override is None,
    {
        let mut data: Vec<u8> = Vec::new();
        data.push(0);
        data.push(0);
        data.push(192);
        data.push(127);
        proof {
            assert(data@ =~= seq![0u8, 0u8, 192u8, 127u8]);
        }
        Position {
            position: Some(
                RegisterData {
                    address: RegisterAddr::CommandPosition,
                    resolution: Resolution::Float,
                    data: Some(data),
                },
            ),
            ..Position::default()
        }
    }

    /// The builder holding this command's register operations, the mode
    /// write first.
    pub fn to_builder(self) -> (r: FrameBuilder)
        ensures
            r.wf(),
            r@ == insert_all(Map::<(u8, u16), RegisterDataView>::empty(), position_views(self)),
    {
        let ghost p = self;
        let mut regs: Vec<RegisterData> = Vec::new();
        match Mode::write(Modes::Position) {
            Ok(rd) => {
                regs.push(rd);
            },
            Err(_) => {
                proof {
                    assert(false);
                }
            },
        }
        push_opt(&mut regs, self.position);
        push_opt(&mut regs, self.velocity);
        push_opt(&mut regs, self.feedforward_torque);
        push_opt(&mut regs, self.kp_scale);
        push_opt(&mut regs, self.kd_scale);
        push_opt(&mut regs, self.maximum_torque);
        push_opt(&mut regs, self.stop_position);
        push_opt(&mut regs, self.watchdog_timeout);
        push_opt(&mut regs, self.velocity_limit);
        push_opt(&mut regs, self.acceleration_limit);
        push_opt(&mut regs, self.fixed_voltage_override);
        proof {
            assert(crate::registers::views_of(regs@) =~= position_views(p));
        }
        Frame::with_builder(regs)
    }
}

/// Specifies which query is merged into the frame being sent.
pub enum QueryType {
    /// Send the controller's standing default query.
    Default,
    /// Send the standing default query merged with the given builder, the
    /// given builder winning on any shared register.
    DefaultAnd(FrameBuilder),
    /// Send the given builder only, ignoring the standing default.
    Custom(FrameBuilder),
}

impl QueryType {
    /// Whether the builders a query type carries are well formed.
    pub open spec fn wf(self) -> bool {
        match self {
            QueryType::Default => true,
            QueryType::DefaultAnd(b) => b.wf(),
            QueryType::Custom(b) => b.wf(),
        }
    }
}

/// A query: a set of registers to be read back from the device. The named
/// fields are the commonly wanted registers; any further register can ride
/// along in `extra`. A `None` field is left out of the frame.
pub struct Query {
    /// A read of the mode register.
    pub mode: Option<RegisterData>,
    /// A read of the measured position register.
    pub position: Option<RegisterData>,
    /// A read of the measured velocity register.
    pub velocity: Option<RegisterData>,
    /// A read of the measured torque register.
    pub torque: Option<RegisterData>,
    /// A read of the q-phase current register.
    pub q_current: Option<RegisterData>,
    /// A read of the d-phase current register.
    pub d_current: Option<RegisterData>,
    /// A read of the absolute position register.
    pub abs_position: Option<RegisterData>,
    /// A read of the motor temperature register.
    pub motor_temperature: Option<RegisterData>,
    /// A read of the trajectory-complete register.
    pub trajectory_complete: Option<RegisterData>,
    /// A read of the home-state register.
    pub home_state: Option<RegisterData>,
    /// A read of the bus voltage register.
    pub voltage: Option<RegisterData>,
    /// A read of the board temperature register.
    pub temperature: Option<RegisterData>,
    /// A read of the fault register.
    pub fault: Option<RegisterData>,
    /// A read of the first auxiliary port's GPIO status register.
    pub aux1_gpio: Option<RegisterData>,
    /// A read of the second auxiliary port's GPIO status register.
    pub aux2_gpio: Option<RegisterData>,
    /// Any further registers to query.
    pub extra: Option<Vec<RegisterData>>,
}

/// The register operations a [`Query`] stands for, in the order they are
/// added.
pub open spec fn query_views(q: Query) -> Seq<RegisterDataView> {
    opt_reg_views(q.mode) + opt_reg_views(q.position) + opt_reg_views(q.velocity) + opt_reg_views(
        q.torque,
    ) + opt_reg_views(q.q_current) + opt_reg_views(q.d_current) + opt_reg_views(q.abs_position)
        + opt_reg_views(q.motor_temperature) + opt_reg_views(q.trajectory_complete)
        + opt_reg_views(q.home_state) + opt_reg_views(q.voltage) + opt_reg_views(q.temperature)
        + opt_reg_views(q.fault) + opt_reg_views(q.aux1_gpio) + opt_reg_views(q.aux2_gpio) + (
    match q.extra {
        Some(v) => crate::registers::views_of(v@),
        None => Seq::empty(),
    })
}

/// One read request, for stating the default query's contents.
pub open spec fn read_view(addr: RegisterAddr, res: Resolution) -> RegisterDataView {
    RegisterDataView { address: addr, resolution: res, data: None }
}

/// The named fields of the standing default query: mode at `Int8`;
/// position, velocity and torque at `Float`; voltage, temperature and
/// fault at `Int8`; everything else left out.
pub open spec fn default_query_fields(q: Query) -> bool {
    &&& q.mode matches Some(rd) && rd@ == read_view(RegisterAddr::Mode, Resolution::Int8)
    &&& q.position matches Some(rd) && rd@ == read_view(RegisterAddr::Position, Resolution::Float)
    &&& q.velocity matches Some(rd) && rd@ == read_view(RegisterAddr::Velocity, Resolution::Float)
    &&& q.torque matches Some(rd) && rd@ == read_view(RegisterAddr::Torque, Resolution::Float)
    &&& q.q_current is None
    &&& q.d_current is None
    &&& q.abs_position is None
    &&& q.motor_temperature is None
    &&& q.trajectory_complete is None
    &&& q.home_state is None
    &&& q.voltage matches Some(rd) && rd@ == read_view(RegisterAddr::Voltage, Resolution::Int8)
    &&& q.temperature matches Some(rd) && rd@ == read_view(
        RegisterAddr::Temperature,
        Resolution::Int8,
    )
    &&& q.fault matches Some(rd) && rd@ == read_view(RegisterAddr::Fault, Resolution::Int8)
    &&& q.aux1_gpio is None
    &&& q.aux2_gpio is None
}


/// The register operations of the standing default query, in order: mode
/// at `Int8`; position, velocity and torque at `Float`; voltage,
/// temperature and fault at `Int8`.
pub open spec fn default_query_regs() -> Seq<RegisterDataView> {
    seq![
        read_view(RegisterAddr::Mode, Resolution::Int8),
        read_view(RegisterAddr::Position, Resolution::Float),
        read_view(RegisterAddr::Velocity, Resolution::Float),
        read_view(RegisterAddr::Torque, Resolution::Float),
        read_view(RegisterAddr::Voltage, Resolution::Int8),
        read_view(RegisterAddr::Temperature, Resolution::Int8),
        read_view(RegisterAddr::Fault, Resolution::Int8),
    ]
}

/// A [`Query`] with the default fields stands for exactly the default
/// query's register operations.
pub proof fn lemma_default_query_views(q: Query)
    requires
        default_query_fields(q),
        q.extra is None,
    ensures
        query_views(q) == default_query_regs(),
{
    assert(query_views(q) =~= default_query_regs());
}

impl Default for Query {
    /// The standing default query.
    fn default() -> (r: Self)
        ensures
            default_query_fields(r),
            r.extra is None,
    {
        Query {
            mode: Some(RegisterData::read(RegisterAddr::Mode, Resolution::Int8)),
            position: Some(RegisterData::read(RegisterAddr::Position, Resolution::Float)),
            velocity: Some(RegisterData::read(RegisterAddr::Velocity, Resolution::Float)),
            torque: Some(RegisterData::read(RegisterAddr::Torque, Resolution::Float)),
            q_current: None,
            d_current: None,
            abs_position: None,
            motor_temperature: None,
            trajectory_complete: None,
            home_state: None,
            voltage: Some(RegisterData::read(RegisterAddr::Voltage, Resolution::Int8)),
            temperature: Some(RegisterData::read(RegisterAddr::Temperature, Resolution::Int8)),
            fault: Some(RegisterData::read(RegisterAddr::Fault, Resolution::Int8)),
            aux1_gpio: None,
            aux2_gpio: None,
            extra: None,
        }
    }
}

impl Query {
    /// The default query.
    pub fn new() -> (r: Self)
        ensures
            default_query_fields(r),
            r.extra is None,
    {
        Query::default()
    }

    /// The default query extended with further registers.
    pub fn new_with_extra(extra: Vec<RegisterData>) -> (r: Self)
        ensures
            default_query_fields(r),
            r.extra matches Some(v) && crate::registers::views_of(v@) == crate::registers::views_of(
                extra@,
            ),
    {
        Query { extra: Some(extra), ..Query::default() }
    }

    /// The builder holding this query's read requests.
    pub fn to_builder(self) -> (r: FrameBuilder)
        ensures
            r.wf(),
            r@ == insert_all(Map::<(u8, u16), RegisterDataView>::empty(), query_views(self)),
    {
        let ghost q = self;
        let mut regs: Vec<RegisterData> = Vec::new();
        push_opt(&mut regs, self.mode);
        push_opt(&mut regs, self.position);
        push_opt(&mut regs, self.velocity);
        push_opt(&mut regs, self.torque);
        push_opt(&mut regs, self.q_current);
        push_opt(&mut regs, self.d_current);
        push_opt(&mut regs, self.abs_position);
        push_opt(&mut regs, self.motor_temperature);
        push_opt(&mut regs, self.trajectory_complete);
        push_opt(&mut regs, self.home_state);
        push_opt(&mut regs, self.voltage);
        push_opt(&mut regs, self.temperature);
        push_opt(&mut regs, self.fault);
        push_opt(&mut regs, self.aux1_gpio);
        push_opt(&mut regs, self.aux2_gpio);
        match self.extra {
            Some(extra) => {
                let mut i: usize = 0;
                let ghost r0 = crate::registers::views_of(regs@);
                while i < extra.len()
                    invariant
                        i <= extra@.len(),
                        crate::registers::views_of(regs@) == r0 + crate::registers::views_of(
                            extra@,
                        ).take(i as int),
                    decreases extra@.len() - i,
                {
                    let c = extra[i].clone();
                    proof {
                        assert(c@ == crate::registers::views_of(extra@)[i as int]);
                    }
                    let ghost q0 = regs@;
                    regs.push(c);
                    i = i + 1;
                    proof {
                        assert(crate::registers::views_of(regs@) =~= crate::registers::views_of(
                            q0,
                        ).push(c@));
                        assert(crate::registers::views_of(extra@).take(i as int) =~= crate::registers::views_of(
                            extra@,
                        ).take(i - 1).push(crate::registers::views_of(extra@)[i - 1]));
                    }
                }
                proof {
                    assert(crate::registers::views_of(extra@).take(extra@.len() as int)
                        =~= crate::registers::views_of(extra@));
                    assert(crate::registers::views_of(regs@) =~= query_views(q));
                }
            },
            None => {
                proof {
                    assert(crate::registers::views_of(regs@) =~= query_views(q));
                }
            },
        }
        Frame::with_builder(regs)
    }
}

} // verus!
