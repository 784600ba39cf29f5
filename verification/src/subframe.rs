//! Subframes: one run of same-resolution, same-direction register operations
//! at consecutive addresses, with its wire layout — header byte (kind and
//! count), optional count byte, varint start address, then payload bytes for
//! write and reply kinds.

use crate::bytes::{varint, varint_read_spec, varint_push};
use crate::error::{FrameError, FrameParseError, RegisterError};
use crate::protocol::Resolution;
use crate::registers::{
    views_of, FrameRegisters, RegisterAddr, RegisterData, RegisterDataView,
};
use vstd::prelude::*;
use vstd::slice::slice_subrange;

verus! {

/// The mathematical value of a [`SubFrame`]: its kind, its wire register
/// count, and the register operations it holds.
pub ghost struct SubFrameView {
    pub register: FrameRegisters,
    pub len: u8,
    pub data: Seq<RegisterDataView>,
}

/// One run of register operations that shares a kind, to be serialized
/// behind a single header, or parsed back from one.
#[derive(Debug)]
pub struct SubFrame {
    /// The kind of this subframe.
    pub register: FrameRegisters,
    /// The register count announced in the header.
    pub len: u8,
    /// The register operations this subframe holds.
    pub data: Vec<RegisterData>,
}

impl View for SubFrame {
    type V = SubFrameView;

    open spec fn view(&self) -> SubFrameView {
        SubFrameView { register: self.register, len: self.len, data: views_of(self.data@) }
    }
}

/// Whether `rv` sits at the address right after the registers already in a
/// subframe (any address may start an empty one).
pub open spec fn sequential_after(d: Seq<RegisterDataView>, rv: RegisterDataView) -> bool {
    d.len() == 0 || d.last().address.spec_value() + 1 == rv.address.spec_value()
}

/// Whether `rv` has the same direction (read or write) as the registers
/// already in a subframe.
pub open spec fn same_direction(d: Seq<RegisterDataView>, rv: RegisterDataView) -> bool {
    d.len() == 0 || (d.last().data is Some <==> rv.data is Some)
}

/// Whether every register in a subframe carries payload bytes.
pub open spec fn all_have_data(d: Seq<RegisterDataView>) -> bool {
    forall|i: int| 0 <= i < d.len() ==> d[i].data is Some
}

/// The payload bytes of a run of registers, in order.
pub open spec fn concat_payloads(d: Seq<RegisterDataView>) -> Seq<u8>
    decreases d.len(),
{
    if d.len() == 0 {
        Seq::empty()
    } else {
        concat_payloads(d.drop_last()) + (match d.last().data {
            Some(b) => b,
            None => Seq::empty(),
        })
    }
}

/// The header of a subframe: one byte holding the kind and, when it fits in
/// two bits, the count; otherwise the count follows as its own byte.
pub open spec fn subframe_header(register: FrameRegisters, len: u8) -> Seq<u8> {
    if len < 4 {
        seq![register.spec_value() | len]
    } else {
        seq![register.spec_value(), len]
    }
}

/// The full wire form of a subframe (meaningful when it holds at least one
/// register): header, start address as a varint, then — only when the run
/// writes — every register's payload in order. Read requests carry no
/// payload: the device is only told where to start and how many to report.
pub open spec fn spec_subframe_bytes(sf: SubFrameView) -> Seq<u8> {
    subframe_header(sf.register, sf.len) + varint(sf.data[0].address.spec_value() as nat) + (
    if sf.data[0].data is Some {
        concat_payloads(sf.data)
    } else {
        Seq::empty()
    })
}

impl SubFrame {
    /// An empty subframe of the given kind, whose header will announce
    /// `len` registers.
    pub fn new(register: FrameRegisters, len: u8) -> (r: Self)
        ensures
            r@ == (SubFrameView { register, len, data: Seq::<RegisterDataView>::empty() }),
    {
        let r = SubFrame { register, len, data: Vec::new() };
        proof {
            assert(r@.data =~= Seq::<RegisterDataView>::empty());
        }
        r
    }

    /// Appends one register operation. The register must continue the run:
    /// its address right after the last one, its direction the same.
    pub fn add(&mut self, register: RegisterData) -> (r: Result<(), FrameError>)
        ensures
            !sequential_after(old(self)@.data, register@) ==> (r matches Err(e) && e
                == FrameError::NonSequentialRegisters && final(self)@ == old(self)@),
            sequential_after(old(self)@.data, register@) && !same_direction(
                old(self)@.data,
                register@,
            ) ==> (r matches Err(e) && e == FrameError::MixedReadWrites && final(self)@ == old(
                self,
            )@),
            sequential_after(old(self)@.data, register@) && same_direction(
                old(self)@.data,
                register@,
            ) ==> (r matches Ok(u) && final(self)@ == (SubFrameView {
                register: old(self)@.register,
                len: old(self)@.len,
                data: old(self)@.data.push(register@),
            })),
    {
        if self.data.len() > 0 {
            let prev = &self.data[self.data.len() - 1];
            proof {
                assert(self@.data.last() == prev@);
            }
            if prev.address.value() + 1 != register.address.value() {
                return Err(FrameError::NonSequentialRegisters);
            }
            if prev.data.is_none() != register.data.is_none() {
                return Err(FrameError::MixedReadWrites);
            }
        }
        self.data.push(register);
        proof {
            assert(self@.data =~= old(self)@.data.push(register@));
        }
        Ok(())
    }

    /// Serializes this subframe, as [`spec_subframe_bytes`] lays it out.
    /// A subframe with no registers is rejected with `EmptySubFrame`; a
    /// write run with a payload-less register in it with `MixedReadWrites`.
    pub fn as_bytes(&self) -> (r: Result<Vec<u8>, FrameError>)
        ensures
            self@.data.len() == 0 ==> (r matches Err(e) && e == FrameError::EmptySubFrame),
            self@.data.len() > 0 && self@.data[0].data is Some && !all_have_data(self@.data) ==> (
            r matches Err(e) && e == FrameError::MixedReadWrites),
            self@.data.len() > 0 && (self@.data[0].data is None || all_have_data(self@.data))
                ==> (r matches Ok(b) && b@ == spec_subframe_bytes(self@)),
    {
        if self.data.len() == 0 {
            return Err(FrameError::EmptySubFrame);
        }
        let mut buf: Vec<u8> = Vec::new();
        if self.len < 4 {
            buf.push(self.register.value() | self.len);
        } else {
            buf.push(self.register.value());
            buf.push(self.len);
        }
        proof {
            assert(buf@ =~= subframe_header(self@.register, self@.len));
        }
        varint_push(&mut buf, self.data[0].address.value());
        let ghost head = subframe_header(self@.register, self@.len) + varint(
            self@.data[0].address.spec_value() as nat,
        );
        let first_is_write = self.data[0].data.is_some();
        proof {
            assert(self@.data[0] == self.data@[0]@);
            assert(first_is_write == (self@.data[0].data is Some));
        }
        if first_is_write {
            let mut i: usize = 0;
            while i < self.data.len()
                invariant
                    i <= self@.data.len(),
                    self@.data[0].data is Some,
                    buf@ == head + concat_payloads(self@.data.take(i as int)),
                    forall|j: int| 0 <= j < i ==> self@.data[j].data is Some,
                decreases self@.data.len() - i,
            {
                match &self.data[i].data {
                    Some(d) => {
                        let mut k: usize = 0;
                        let ghost base = buf@;
                        while k < d.len()
                            invariant
                                k <= d@.len(),
                                buf@ == base + d@.take(k as int),
                            decreases d@.len() - k,
                        {
                            buf.push(d[k]);
                            k = k + 1;
                            proof {
                                assert(buf@ =~= base + d@.take(k as int));
                            }
                        }
                        proof {
                            assert(d@.take(d@.len() as int) =~= d@);
                            assert(self@.data.take(i + 1).drop_last() =~= self@.data.take(
                                i as int,
                            ));
                            assert(self@.data.take(i + 1).last() == self@.data[i as int]);
                            assert(buf@ =~= head + concat_payloads(self@.data.take(i + 1)));
                        }
                    },
                    None => {
                        proof {
                            assert(self@.data[i as int] == self.data@[i as int]@);
                            assert(self@.data[i as int].data is None);
                            assert(!all_have_data(self@.data));
                        }
                        return Err(FrameError::MixedReadWrites);
                    },
                }
                i = i + 1;
            }
            proof {
                assert(self@.data.take(self@.data.len() as int) =~= self@.data);
            }
        }
        proof {
            assert(buf@ =~= spec_subframe_bytes(self@));
        }
        Ok(buf)
    }
}

/// Whether five continuation bytes in a row start at `pos`: more than any
/// register address can need, so the reader gives up there.
pub open spec fn five_continuations(b: Seq<u8>, pos: int) -> bool {
    &&& pos + 5 <= b.len()
    &&& b[pos] >= 128
    &&& b[pos + 1] >= 128
    &&& b[pos + 2] >= 128
    &&& b[pos + 3] >= 128
    &&& b[pos + 4] >= 128
}

/// What reading a varint-encoded register address at `pos` returns: the
/// address and the position after it, `Io` when the buffer ends inside the
/// varint, `InvalidAddress` when the varint is longer than five bytes or its
/// value exceeds the address domain.
pub open spec fn spec_read_addr(b: Seq<u8>, pos: int) -> Result<(u16, int), FrameParseError> {
    if five_continuations(b, pos) {
        Err(FrameParseError::RegisterError(RegisterError::InvalidAddress))
    } else {
        match varint_read_spec(b, pos) {
            None => Err(FrameParseError::RegisterError(RegisterError::Io)),
            Some((v, end)) => if v > 0xffff {
                Err(FrameParseError::RegisterError(RegisterError::InvalidAddress))
            } else {
                Ok((v as u16, end))
            },
        }
    }
}

/// Reads a varint-encoded register address, as [`spec_read_addr`] reads it.
fn read_addr(buf: &[u8], pos: usize) -> (r: Result<(u16, usize), FrameParseError>)
    ensures
        r matches Ok(p) ==> spec_read_addr(buf@, pos as int) == Ok::<(u16, int), FrameParseError>(
            (p.0, p.1 as int),
        ) && pos < p.1 <= buf@.len(),
        r matches Err(e) ==> spec_read_addr(buf@, pos as int) == Err::<
            (u16, int),
            FrameParseError,
        >(e),
{
    let mut i: usize = 0;
    let mut val: u64 = 0;
    let mut mult: u64 = 1;
    loop
        invariant
            i <= 4,
            val < mult,
            i == 0 ==> mult == 1,
            i == 1 ==> mult == 128,
            i == 2 ==> mult == 16384,
            i == 3 ==> mult == 2097152,
            i == 4 ==> mult == 268435456,
            forall|j: int| pos <= j < pos + i ==> buf@[j] >= 128,
            varint_read_spec(buf@, pos as int) == (match varint_read_spec(buf@, pos + i) {
                None => None::<(nat, int)>,
                Some((v, end)) => Some(((val + mult * v) as nat, end)),
            }),
        decreases 5 - i,
    {
        if pos >= buf.len() || i >= buf.len() - pos {
            proof {
                assert(varint_read_spec(buf@, pos + i) is None);
                assert(!five_continuations(buf@, pos as int));
            }
            return Err(FrameParseError::RegisterError(RegisterError::Io));
        }
        let byte = buf[pos + i];
        if byte < 128 {
            proof {
                assert(varint_read_spec(buf@, pos + i) == Some((byte as nat, pos + i + 1)));
                assert(!five_continuations(buf@, pos as int));
            }
            let total: u64 = val + (byte as u64) * mult;
            if total > 0xffff {
                return Err(FrameParseError::RegisterError(RegisterError::InvalidAddress));
            }
            return Ok((total as u16, pos + i + 1));
        }
        if i == 4 {
            proof {
                assert(five_continuations(buf@, pos as int));
            }
            return Err(FrameParseError::RegisterError(RegisterError::InvalidAddress));
        }
        let ghost old_val = val as int;
        let ghost old_mult = mult as int;
        val = val + ((byte - 128) as u64) * mult;
        mult = mult * 128;
        i = i + 1;
        proof {
            match varint_read_spec(buf@, pos + i) {
                None => {},
                Some((v, e)) => {
                    assert(old_mult * ((byte - 128) + 128 * v) == old_mult * (byte - 128) + (
                    old_mult * 128) * v) by (nonlinear_arith);
                },
            }
        }
    }
}

/// What parsing `count` registers of resolution `res` from `b` returns,
/// starting at byte `pos` and address `addr`: each register takes the next
/// `res.spec_size()` bytes as its payload and the next consecutive address,
/// which must name a known register.
pub open spec fn spec_parse_regs(
    b: Seq<u8>,
    pos: int,
    addr: int,
    count: nat,
    res: Resolution,
) -> Result<Seq<RegisterDataView>, RegisterError>
    decreases count,
{
    if count == 0 {
        Ok(Seq::empty())
    } else if addr > 0xffff || RegisterAddr::spec_from_u16(addr as u16) is None {
        Err(RegisterError::InvalidAddress)
    } else {
        match spec_parse_regs(b, pos + res.spec_size(), addr + 1, (count - 1) as nat, res) {
            Err(e) => Err(e),
            Ok(rest) => Ok(
                seq![
                    RegisterDataView {
                        address: match RegisterAddr::spec_from_u16(addr as u16) {
                            Some(a) => a,
                            None => RegisterAddr::Mode,
                        },
                        resolution: res,
                        data: Some(b.subrange(pos, pos + res.spec_size())),
                    },
                ] + rest,
            ),
        }
    }
}

/// What parsing the start of `b` as one subframe returns: a parsed subframe
/// (or `None` for padding or an empty buffer) and the bytes consumed, or the
/// first error. Byte 0's top six bits pick the kind and its low two bits the
/// count, with a zero count field meaning the count follows as its own byte;
/// the start address follows as a varint; write and reply kinds then carry
/// `count` payloads of the kind's width, while read kinds carry none.
pub open spec fn spec_parse_subframe(b: Seq<u8>) -> Result<
    (Option<SubFrameView>, int),
    FrameParseError,
> {
    if b.len() == 0 {
        Ok((None::<SubFrameView>, 0))
    } else {
        let kb = ((b[0] / 4) * 4) as u8;
        match FrameRegisters::spec_from_u8(kb) {
            None => Err(FrameParseError::InvalidFrameRegister(b[0])),
            Some(fr) => if fr == FrameRegisters::Nop {
                Ok((None::<SubFrameView>, 1))
            } else {
                match fr.spec_resolution() {
                    None => Err(FrameParseError::UnsupportedSubframeRegister(fr)),
                    Some(res) => {
                        let c = b[0] % 4;
                        if c == 0 && b.len() < 2 {
                            Err(FrameParseError::RegisterError(RegisterError::Io))
                        } else {
                            let len: u8 = if c == 0 {
                                b[1]
                            } else {
                                c
                            };
                            let apos: int = if c == 0 {
                                2
                            } else {
                                1
                            };
                            match spec_read_addr(b, apos) {
                                Err(e) => Err(e),
                                Ok((addr, dpos)) => if fr.is_read_kind() {
                                    Ok(
                                        (
                                            Some(
                                                SubFrameView {
                                                    register: fr,
                                                    len,
                                                    data: Seq::empty(),
                                                },
                                            ),
                                            dpos,
                                        ),
                                    )
                                } else {
                                    let end = dpos + len * res.spec_size();
                                    if b.len() < end {
                                        Err(FrameParseError::RegisterError(RegisterError::Io))
                                    } else {
                                        match spec_parse_regs(b, dpos, addr as int, len as nat, res) {
                                            Err(e) => Err(FrameParseError::RegisterError(e)),
                                            Ok(data) => Ok(
                                                (
                                                    Some(
                                                        SubFrameView { register: fr, len, data },
                                                    ),
                                                    end,
                                                ),
                                            ),
                                        }
                                    }
                                },
                            }
                        }
                    },
                }
            },
        }
    }
}


/// A header byte whose six kind bits name no known subframe kind is always
/// rejected, and the error carries that offending header byte.
pub proof fn lemma_unknown_kind_rejected(b: Seq<u8>)
    requires
        b.len() > 0,
        FrameRegisters::spec_from_u8(((b[0] / 4) * 4) as u8) is None,
    ensures
        spec_parse_subframe(b) == Err::<(Option<SubFrameView>, int), FrameParseError>(
            FrameParseError::InvalidFrameRegister(b[0]),
        ),
{
}

/// The view of a parsed subframe option.
pub open spec fn subframe_opt_view(o: Option<SubFrame>) -> Option<SubFrameView> {
    match o {
        Some(sf) => Some(sf@),
        None => None,
    }
}

impl SubFrame {
    /// Parses the start of `buf` as one subframe, as [`spec_parse_subframe`]
    /// reads it, returning the subframe (or `None` for padding or an empty
    /// buffer) and the number of bytes consumed. A header byte whose kind
    /// bits match no known kind is rejected with `InvalidFrameRegister`
    /// carrying that header byte.
    pub fn from_bytes(buf: &[u8]) -> (r: Result<(Option<SubFrame>, usize), FrameParseError>)
        ensures
            r matches Ok(p) ==> spec_parse_subframe(buf@) == Ok::<
                (Option<SubFrameView>, int),
                FrameParseError,
            >((subframe_opt_view(p.0), p.1 as int)) && p.1 <= buf@.len() && (buf@.len() > 0 ==> 1
                <= p.1),
            r matches Err(e) ==> spec_parse_subframe(buf@) == Err::<
                (Option<SubFrameView>, int),
                FrameParseError,
            >(e),
    {
        if buf.len() == 0 {
            return Ok((None, 0));
        }
        let b0 = buf[0];
        let kb = (b0 / 4) * 4;
        let fr = match FrameRegisters::from_u8(kb) {
            Some(fr) => fr,
            None => {
                return Err(FrameParseError::InvalidFrameRegister(b0));
            },
        };
        if fr == FrameRegisters::Nop {
            return Ok((None, 1));
        }
        let res = match fr.resolution() {
            Some(res) => res,
            None => {
                return Err(FrameParseError::UnsupportedSubframeRegister(fr));
            },
        };
        let c = b0 % 4;
        if c == 0 && buf.len() < 2 {
            return Err(FrameParseError::RegisterError(RegisterError::Io));
        }
        let (len, apos): (u8, usize) = if c == 0 {
            (buf[1], 2)
        } else {
            (c, 1)
        };
        let (addr, dpos) = match read_addr(buf, apos) {
            Ok(p) => p,
            Err(e) => {
                return Err(e);
            },
        };
        let is_read = matches!(
            fr,
            FrameRegisters::ReadInt8
                | FrameRegisters::ReadInt16
                | FrameRegisters::ReadInt32
                | FrameRegisters::ReadF32
        );
        proof {
            assert(is_read == fr.is_read_kind());
        }
        if is_read {
            let sf = SubFrame { register: fr, len, data: Vec::new() };
            proof {
                assert(sf@.data =~= Seq::<RegisterDataView>::empty());
            }
            return Ok((Some(sf), dpos));
        }
        let size = res.size();
        let total = (len as usize) * size;
        if buf.len() - dpos < total {
            return Err(FrameParseError::RegisterError(RegisterError::Io));
        }
        let end = dpos + total;
        let mut regs: Vec<RegisterData> = Vec::new();
        let mut p: usize = dpos;
        let mut j: usize = 0;
        proof {
            assert((len as usize - 0) * size == total);
        }
        while j < len as usize
            invariant
                j <= len as usize,
                size == res.spec_size(),
                1 <= size <= 4,
                p + (len as usize - j) * size == end,
                dpos <= p,
                end <= buf@.len(),
                addr <= 0xffff,
                spec_parse_subframe(buf@) == (match spec_parse_regs(
                    buf@,
                    dpos as int,
                    addr as int,
                    len as nat,
                    res,
                ) {
                    Err(e) => Err::<(Option<SubFrameView>, int), FrameParseError>(
                        FrameParseError::RegisterError(e),
                    ),
                    Ok(data) => Ok::<(Option<SubFrameView>, int), FrameParseError>(
                        (Some(SubFrameView { register: fr, len, data }), end as int),
                    ),
                }),
                spec_parse_regs(buf@, dpos as int, addr as int, len as nat, res) == (
                match spec_parse_regs(buf@, p as int, addr + j, (len as usize - j) as nat, res) {
                    Err(e) => Err::<Seq<RegisterDataView>, RegisterError>(e),
                    Ok(rest) => Ok::<Seq<RegisterDataView>, RegisterError>(views_of(regs@) + rest),
                }),
            decreases len as int - j,
        {
            proof {
                assert((len as usize - j) * size >= 1 * size) by (nonlinear_arith)
                    requires
                        j < len as usize,
                        size >= 1,
                ;
            }
            let cur = addr as u32 + j as u32;
            if cur > 0xffff {
                proof {
                    assert(spec_parse_regs(buf@, p as int, addr + j, (len as usize - j) as nat, res)
                        == Err::<Seq<RegisterDataView>, RegisterError>(
                        RegisterError::InvalidAddress,
                    ));
                }
                return Err(FrameParseError::RegisterError(RegisterError::InvalidAddress));
            }
            let payload = slice_subrange(buf, p, p + size);
            match RegisterData::from_bytes(cur as u16, payload, res) {
                Ok(rd) => {
                    let ghost regs0 = regs@;
                    let ghost p0 = p as int;
                    let ghost j0 = j as int;
                    regs.push(rd);
                    p = p + size;
                    j = j + 1;
                    proof {
                        let c0 = (len as int - j0) as nat;
                        assert(views_of(regs@) =~= views_of(regs0) + seq![rd@]);
                        assert((len as int - j0) * size == size + (len as int - j0 - 1) * size)
                            by (nonlinear_arith);
                        let rv = RegisterDataView {
                            address: match RegisterAddr::spec_from_u16((addr + j0) as u16) {
                                Some(a) => a,
                                None => RegisterAddr::Mode,
                            },
                            resolution: res,
                            data: Some(buf@.subrange(p0, p0 + size)),
                        };
                        assert(rd@ == rv);
                        assert(spec_parse_regs(buf@, p0, addr + j0, c0, res) == (
                        match spec_parse_regs(buf@, p0 + size, addr + j0 + 1, (c0 - 1) as nat, res) {
                            Err(e) => Err::<Seq<RegisterDataView>, RegisterError>(e),
                            Ok(rest) => Ok::<Seq<RegisterDataView>, RegisterError>(seq![rv] + rest),
                        }));
                        match spec_parse_regs(buf@, p as int, addr + j, (len as usize - j) as nat, res) {
                            Err(e) => {},
                            Ok(rest) => {
                                assert((views_of(regs0) + seq![rd@]) + rest =~= views_of(regs0) + (
                                seq![rd@] + rest));
                            },
                        }
                    }
                },
                Err(e) => {
                    proof {
                        assert(spec_parse_regs(
                            buf@,
                            p as int,
                            addr + j,
                            (len as usize - j) as nat,
                            res,
                        ) == Err::<Seq<RegisterDataView>, RegisterError>(
                            RegisterError::InvalidAddress,
                        ));
                    }
                    return Err(FrameParseError::RegisterError(e));
                },
            }
        }
        proof {
            assert(spec_parse_regs(buf@, p as int, addr + j, 0, res) == Ok::<
                Seq<RegisterDataView>,
                RegisterError,
            >(Seq::empty()));
            assert(views_of(regs@) + Seq::<RegisterDataView>::empty() =~= views_of(regs@));
        }
        Ok((Some(SubFrame { register: fr, len, data: regs }), end))
    }
}

} // verus!
