//! The session layer: a [`Controller`] addresses one device over a
//! [`Transport`], resolving the query policy into one merged builder,
//! serializing it, and parsing the device's response.

use crate::builder::{
    built_subframe_ok, lemma_built_frame_serializes, regs_to_map, sorted_by_key, spec_build,
    spec_build_bytes, spec_frame_result, Frame, FrameBuilder,
};
use crate::error::{Error, FrameParseError};
use crate::frame::QueryType;
use crate::registers::RegisterDataView;
use crate::response::{spec_parse_frame, ResponseFrame};
use vstd::prelude::*;

verus! {

/// The payload limit of one CAN-FD message.
pub const MAX_FRAME_DATA: usize = 64;

/// The mathematical value of a [`CanFdFrame`].
pub ghost struct CanFdFrameView {
    pub arbitration_id: u16,
    pub data: Seq<u8>,
    pub brs: bool,
}

/// One CAN-FD message: an arbitration id, up to 64 payload bytes, and the
/// bit-rate-switch flag.
pub struct CanFdFrame {
    /// The arbitration id: the device id in the low bits, and a set high
    /// bit when a response is expected.
    pub arbitration_id: u16,
    /// The payload bytes.
    pub data: Vec<u8>,
    /// Whether the frame is sent with bit-rate switching.
    pub brs: bool,
}

impl View for CanFdFrame {
    type V = CanFdFrameView;

    open spec fn view(&self) -> CanFdFrameView {
        CanFdFrameView { arbitration_id: self.arbitration_id, data: self.data@, brs: self.brs }
    }
}

/// Carries CAN-FD frames to and from the bus. The core never opens or
/// configures the transport; implementations live with the caller.
pub trait Transport {
    /// The transport's own error type.
    type Error;

    /// Sends one frame.
    fn transmit(&mut self, frame: CanFdFrame) -> Result<(), Self::Error>;

    /// Blocks until one frame arrives.
    fn receive(&mut self) -> Result<CanFdFrame, Self::Error>;
}

/// The register mapping a bare query resolves to: the standing default
/// `dq` for `Default`, the default overridden by the extra builder for
/// `DefaultAnd`, and the given builder alone for `Custom`.
pub open spec fn resolved_query_map(
    dq: Map<(u8, u16), RegisterDataView>,
    query: QueryType,
) -> Map<(u8, u16), RegisterDataView> {
    match query {
        QueryType::Default => dq,
        QueryType::DefaultAnd(q) => dq.union_prefer_right(q@),
        QueryType::Custom(q) => q@,
    }
}

/// The register mapping a command with a query resolves to, the most
/// specific winning on shared registers: the standing default `dq` loses
/// to the command builder, which loses to the per-call extra; `Custom`
/// ignores the standing default entirely.
pub open spec fn resolved_command_map(
    dq: Map<(u8, u16), RegisterDataView>,
    frame: FrameBuilder,
    query: QueryType,
) -> Map<(u8, u16), RegisterDataView> {
    match query {
        QueryType::Default => dq.union_prefer_right(frame@),
        QueryType::DefaultAnd(q) => dq.union_prefer_right(frame@).union_prefer_right(q@),
        QueryType::Custom(q) => frame@.union_prefer_right(q@),
    }
}

/// Drives one device: holds the transport, the standing default query, and
/// the bit-rate-switch preference.
pub struct Controller<T> {
    transport: T,
    default_query: FrameBuilder,
    /// Disable BRS (bit-rate switch) in the CAN-FD frames sent, for buses
    /// that cannot keep up with the switched rate.
    pub disable_brs: bool,
}

impl<T: Transport> Controller<T> {
    /// The standing default query, for use in contracts.
    pub closed spec fn spec_default_query(&self) -> FrameBuilder {
        self.default_query
    }

    /// The controller's standing default query is well formed.
    pub open spec fn wf(&self) -> bool {
        self.spec_default_query().wf()
    }

    /// Whether bit-rate switching is disabled, for use in contracts.
    pub closed spec fn spec_disable_brs(&self) -> bool {
        self.disable_brs
    }

    /// A controller over the given transport, with the standard default
    /// query: mode, voltage, temperature and fault at `Int8`; position,
    /// velocity and torque at `Float`.
    pub fn new(transport: T, disable_brs: bool) -> (r: Self)
        ensures
            r.wf(),
            r.spec_disable_brs() == disable_brs,
            r.spec_default_query()@ == crate::builder::insert_all(
                Map::<(u8, u16), crate::registers::RegisterDataView>::empty(),
                crate::frame::default_query_regs(),
            ),
    {
        let q = crate::frame::Query::default();
        proof {
            crate::frame::lemma_default_query_views(q);
        }
        Controller { transport, default_query: q.to_builder(), disable_brs }
    }

    /// A controller over the given transport, with a caller-chosen default
    /// query.
    pub fn with_query(transport: T, disable_brs: bool, default_query: FrameBuilder) -> (r: Self)
        requires
            default_query.wf(),
        ensures
            r.wf(),
            r.spec_default_query() == default_query,
            r.spec_disable_brs() == disable_brs,
    {
        Controller { transport, default_query, disable_brs }
    }

    /// The builder a bare query resolves to: the standing default for
    /// `Default`, the default merged with the extra builder (the extra
    /// winning on shared registers) for `DefaultAnd`, and the given builder
    /// alone for `Custom`.
    pub fn resolve_query(&self, query: QueryType) -> (r: FrameBuilder)
        requires
            self.wf(),
            query.wf(),
        ensures
            r.wf(),
            r@ == resolved_query_map(self.spec_default_query()@, query),
    {
        match query {
            QueryType::Default => self.default_query.clone(),
            QueryType::DefaultAnd(q) => self.default_query.clone().merge(q),
            QueryType::Custom(q) => q,
        }
    }

    /// The builder a command with a query resolves to, the most specific
    /// winning on shared registers: the standing default loses to the
    /// command builder, which loses to the per-call extra; `Custom` ignores
    /// the standing default entirely.
    pub fn resolve_command(&self, frame: FrameBuilder, query: QueryType) -> (r: FrameBuilder)
        requires
            self.wf(),
            frame.wf(),
            query.wf(),
        ensures
            r.wf(),
            r@ == resolved_command_map(self.spec_default_query()@, frame, query),
    {
        match query {
            QueryType::Default => self.default_query.clone().merge(frame),
            QueryType::DefaultAnd(q) => self.default_query.clone().merge(frame).merge(q),
            QueryType::Custom(q) => frame.merge(q),
        }
    }

    /// Sends a single query frame to the device and parses its response.
    /// The resolved query (see [`Controller::resolve_query`]) is built and
    /// serialized here, so a `Frame` error cannot occur and a length error
    /// comes exactly when the resolved frame's wire form exceeds the CAN-FD
    /// payload limit; transport and parse failures are the only other ways
    /// to fail.
    pub fn query(&mut self, id: u8, query: QueryType) -> (r: Result<ResponseFrame, Error<
        T::Error,
    >>)
        requires
            old(self).wf(),
            query.wf(),
        ensures
            final(self).wf(),
            final(self).spec_default_query() == old(self).spec_default_query(),
            !(r matches Err(e) && e is Frame),
            !(r matches Err(e) && e is NoResponse),
            r matches Err(e) ==> (e matches Error::InvalidFrameLength(n) ==> n > MAX_FRAME_DATA
                && exists|es: Seq<RegisterDataView>|
                sorted_by_key(es) && (#[trigger] regs_to_map(es)) == resolved_query_map(
                    old(self).spec_default_query()@,
                    query,
                ) && n == spec_build_bytes(es).len()),
            (forall|es: Seq<RegisterDataView>|
                sorted_by_key(es) && (#[trigger] regs_to_map(es)) == resolved_query_map(
                    old(self).spec_default_query()@,
                    query,
                ) ==> spec_build_bytes(es).len() <= MAX_FRAME_DATA) ==> !(r matches Err(e) && e
                is InvalidFrameLength),
            r matches Err(e) ==> (e matches Error::FrameParse(pe) ==> exists|data: Seq<u8>|
                (#[trigger] spec_parse_frame(data, 0)) == Err::<
                    Seq<RegisterDataView>,
                    FrameParseError,
                >(pe)),
            r matches Ok(f) ==> exists|data: Seq<u8>|
                (#[trigger] spec_parse_frame(data, 0)) == Ok::<
                    Seq<RegisterDataView>,
                    FrameParseError,
                >(f@),
    {
        let builder = self.resolve_query(query);
        let ghost es0 = builder.entries();
        proof {
            assert(sorted_by_key(es0));
            assert(regs_to_map(es0) == resolved_query_map(
                old(self).spec_default_query()@,
                query,
            ));
        }
        let frame = builder.build();
        proof {
            lemma_built_frame_serializes(frame@);
            assert(frame@ == spec_build(es0));
        }
        self.transfer_single_with_response(id, frame)
    }

    /// Sends a single command frame with no response expected. The query
    /// policy never applies; nothing is read back, so the only failures
    /// are a frame over the CAN-FD payload limit — exactly when the
    /// builder's wire form exceeds it — and the transport's own.
    pub fn send_no_response(&mut self, id: u8, frame: FrameBuilder) -> (r: Result<(), Error<
        T::Error,
    >>)
        requires
            old(self).wf(),
            frame.wf(),
        ensures
            final(self).wf(),
            final(self).spec_default_query() == old(self).spec_default_query(),
            !(r matches Err(e) && e is Frame),
            !(r matches Err(e) && e is NoResponse),
            !(r matches Err(e) && e is FrameParse),
            r matches Err(e) ==> (e matches Error::InvalidFrameLength(n) ==> n > MAX_FRAME_DATA
                && exists|es: Seq<RegisterDataView>|
                sorted_by_key(es) && (#[trigger] regs_to_map(es)) == frame@ && n
                    == spec_build_bytes(es).len()),
            (forall|es: Seq<RegisterDataView>|
                sorted_by_key(es) && (#[trigger] regs_to_map(es)) == frame@
                    ==> spec_build_bytes(es).len() <= MAX_FRAME_DATA) ==> !(r matches Err(e) && e
                is InvalidFrameLength),
    {
        let ghost es0 = frame.entries();
        proof {
            assert(sorted_by_key(es0));
            assert(regs_to_map(es0) == frame@);
        }
        let built = frame.build();
        proof {
            lemma_built_frame_serializes(built@);
            assert(built@ == spec_build(es0));
        }
        self.transfer_single_no_response(id, built)
    }

    /// Sends a command frame merged with the resolved query (see
    /// [`Controller::resolve_command`]) and parses the device's response.
    /// A length error comes exactly when the merged frame's wire form
    /// exceeds the CAN-FD payload limit; transport and parse failures are
    /// the only other ways to fail.
    pub fn send_with_query(&mut self, id: u8, frame: FrameBuilder, query: QueryType) -> (r: Result<
        ResponseFrame,
        Error<T::Error>,
    >)
        requires
            old(self).wf(),
            frame.wf(),
            query.wf(),
        ensures
            final(self).wf(),
            final(self).spec_default_query() == old(self).spec_default_query(),
            !(r matches Err(e) && e is Frame),
            !(r matches Err(e) && e is NoResponse),
            r matches Err(e) ==> (e matches Error::InvalidFrameLength(n) ==> n > MAX_FRAME_DATA
                && exists|es: Seq<RegisterDataView>|
                sorted_by_key(es) && (#[trigger] regs_to_map(es)) == resolved_command_map(
                    old(self).spec_default_query()@,
                    frame,
                    query,
                ) && n == spec_build_bytes(es).len()),
            (forall|es: Seq<RegisterDataView>|
                sorted_by_key(es) && (#[trigger] regs_to_map(es)) == resolved_command_map(
                    old(self).spec_default_query()@,
                    frame,
                    query,
                ) ==> spec_build_bytes(es).len() <= MAX_FRAME_DATA) ==> !(r matches Err(e) && e
                is InvalidFrameLength),
            r matches Err(e) ==> (e matches Error::FrameParse(pe) ==> exists|data: Seq<u8>|
                (#[trigger] spec_parse_frame(data, 0)) == Err::<
                    Seq<RegisterDataView>,
                    FrameParseError,
                >(pe)),
            r matches Ok(f) ==> exists|data: Seq<u8>|
                (#[trigger] spec_parse_frame(data, 0)) == Ok::<
                    Seq<RegisterDataView>,
                    FrameParseError,
                >(f@),
    {
        let builder = self.resolve_command(frame, query);
        let ghost es0 = builder.entries();
        proof {
            assert(sorted_by_key(es0));
            assert(regs_to_map(es0) == resolved_command_map(
                old(self).spec_default_query()@,
                frame,
                query,
            ));
        }
        let built = builder.build();
        proof {
            lemma_built_frame_serializes(built@);
            assert(built@ == spec_build(es0));
        }
        self.transfer_single_with_response(id, built)
    }

    /// Serializes and transmits one frame with the device id alone in the
    /// arbitration id: fire and forget.
    fn transfer_single_no_response(&mut self, id: u8, frame: Frame) -> (r: Result<(), Error<
        T::Error,
    >>)
        requires
            old(self).wf(),
            forall|i: int| 0 <= i < frame@.len() ==> built_subframe_ok(#[trigger] frame@[i]),
        ensures
            final(self).wf(),
            final(self).spec_default_query() == old(self).spec_default_query(),
            !(r matches Err(e) && e is Frame),
            !(r matches Err(e) && e is NoResponse),
            !(r matches Err(e) && e is FrameParse),
            r matches Err(e) ==> (e matches Error::InvalidFrameLength(n)
                ==> spec_frame_result(frame@) matches Ok(b) && n == b.len() && n
                > MAX_FRAME_DATA),
            (spec_frame_result(frame@) matches Ok(b) && b.len() <= MAX_FRAME_DATA) ==> !(
            r matches Err(e) && e is InvalidFrameLength),
    {
        proof {
            lemma_built_frame_serializes(frame@);
        }
        let data = match frame.as_bytes() {
            Ok(b) => b,
            Err(e) => {
                proof {
                    assert(false);
                }
                return Err(Error::Frame(e));
            },
        };
        if data.len() > MAX_FRAME_DATA {
            return Err(Error::InvalidFrameLength(data.len()));
        }
        let can = CanFdFrame {
            arbitration_id: id as u16,
            data,
            brs: !self.disable_brs,
        };
        match self.transport.transmit(can) {
            Ok(u) => Ok(u),
            Err(e) => Err(Error::Transport(e)),
        }
    }

    /// Serializes and transmits one frame with the response bit set in the
    /// arbitration id, then blocks for the response and parses it.
    fn transfer_single_with_response(&mut self, id: u8, frame: Frame) -> (r: Result<
        ResponseFrame,
        Error<T::Error>,
    >)
        requires
            old(self).wf(),
            forall|i: int| 0 <= i < frame@.len() ==> built_subframe_ok(#[trigger] frame@[i]),
        ensures
            final(self).wf(),
            final(self).spec_default_query() == old(self).spec_default_query(),
            !(r matches Err(e) && e is Frame),
            !(r matches Err(e) && e is NoResponse),
            r matches Err(e) ==> (e matches Error::InvalidFrameLength(n)
                ==> spec_frame_result(frame@) matches Ok(b) && n == b.len() && n
                > MAX_FRAME_DATA),
            (spec_frame_result(frame@) matches Ok(b) && b.len() <= MAX_FRAME_DATA) ==> !(
            r matches Err(e) && e is InvalidFrameLength),
            r matches Err(e) ==> (e matches Error::FrameParse(pe) ==> exists|data: Seq<u8>|
                (#[trigger] spec_parse_frame(data, 0)) == Err::<
                    Seq<RegisterDataView>,
                    FrameParseError,
                >(pe)),
            r matches Ok(f) ==> exists|data: Seq<u8>|
                (#[trigger] spec_parse_frame(data, 0)) == Ok::<
                    Seq<RegisterDataView>,
                    FrameParseError,
                >(f@),
    {
        proof {
            lemma_built_frame_serializes(frame@);
        }
        let data = match frame.as_bytes() {
            Ok(b) => b,
            Err(e) => {
                proof {
                    assert(false);
                }
                return Err(Error::Frame(e));
            },
        };
        if data.len() > MAX_FRAME_DATA {
            return Err(Error::InvalidFrameLength(data.len()));
        }
        let can = CanFdFrame {
            arbitration_id: id as u16 | 0x8000,
            data,
            brs: !self.disable_brs,
        };
        match self.transport.transmit(can) {
            Ok(_) => {},
            Err(e) => {
                return Err(Error::Transport(e));
            },
        }
        let response = match self.transport.receive() {
            Ok(f) => f,
            Err(e) => {
                return Err(Error::Transport(e));
            },
        };
        match ResponseFrame::from_bytes(response.data.as_slice()) {
            Ok(f) => {
                proof {
                    assert(spec_parse_frame(response.data@, 0) == Ok::<
                        Seq<RegisterDataView>,
                        FrameParseError,
                    >(f@));
                }
                Ok(f)
            },
            Err(e) => {
                proof {
                    assert(spec_parse_frame(response.data@, 0) == Err::<
                        Seq<RegisterDataView>,
                        FrameParseError,
                    >(e));
                }
                Err(Error::FrameParse(e))
            },
        }
    }
}

} // verus!
