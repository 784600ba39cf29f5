//! Response frames: the registers a device reported, parsed out of raw
//! response bytes subframe by subframe and queried by address.

use crate::error::{FrameParseError, RegisterError};
use crate::registers::{views_of, RegisterAddr, RegisterData, RegisterDataView};
use crate::subframe::{spec_parse_subframe, SubFrame, SubFrameView};
use vstd::prelude::*;
use vstd::slice::slice_subrange;

verus! {

/// What parsing a whole response payload from `pos` on returns: subframes
/// are read one after another, padding is skipped, and every register they
/// carry is collected in order; the first subframe error aborts. (The two
/// guards on the consumed count can never fire — a parsed subframe consumes
/// at least one byte and at most the remainder — they only bound the
/// recursion.)
pub open spec fn spec_parse_frame(b: Seq<u8>, pos: int) -> Result<
    Seq<RegisterDataView>,
    FrameParseError,
>
    decreases b.len() - pos,
{
    if pos < 0 || pos >= b.len() {
        Ok(Seq::empty())
    } else {
        match spec_parse_subframe(b.skip(pos)) {
            Err(e) => Err(e),
            Ok((osf, n)) => if n < 1 || pos + n > b.len() {
                Err(FrameParseError::RegisterError(RegisterError::Io))
            } else {
                match spec_parse_frame(b, pos + n) {
                    Err(e) => Err(e),
                    Ok(rest) => Ok(
                        (match osf {
                            Some(sf) => sf.data,
                            None => Seq::empty(),
                        }) + rest,
                    ),
                }
            },
        }
    }
}

/// The first register with address `a`, scanning front to back.
pub open spec fn spec_get(s: Seq<RegisterDataView>, a: RegisterAddr) -> Option<RegisterDataView>
    decreases s.len(),
{
    if s.len() == 0 {
        None
    } else if s[0].address == a {
        Some(s[0])
    } else {
        spec_get(s.skip(1), a)
    }
}

/// The registers found for a run of addresses, or `None` as soon as one
/// address is missing.
pub open spec fn spec_get_many(s: Seq<RegisterDataView>, addrs: Seq<RegisterAddr>) -> Option<
    Seq<RegisterDataView>,
>
    decreases addrs.len(),
{
    if addrs.len() == 0 {
        Some(Seq::empty())
    } else {
        match spec_get(s, addrs[0]) {
            None => None,
            Some(rv) => match spec_get_many(s, addrs.skip(1)) {
                None => None,
                Some(rest) => Some(seq![rv] + rest),
            },
        }
    }
}

/// `spec_get` finds a register exactly when one with that address is there,
/// and what it finds is the first one.
pub proof fn lemma_spec_get_found(s: Seq<RegisterDataView>, a: RegisterAddr)
    ensures
        spec_get(s, a) is Some <==> exists|i: int| 0 <= i < s.len() && (#[trigger] s[i]).address
            == a,
        spec_get(s, a) matches Some(rv) ==> exists|i: int|
            0 <= i < s.len() && s[i] == rv && s[i].address == a && forall|j: int|
                0 <= j < i ==> (#[trigger] s[j]).address != a,
    decreases s.len(),
{
    if s.len() > 0 && s[0].address != a {
        lemma_spec_get_found(s.skip(1), a);
        if spec_get(s.skip(1), a) is Some {
            let i = choose|i: int|
                0 <= i < s.skip(1).len() && s.skip(1)[i] == spec_get(s.skip(1), a).unwrap() && s.skip(
                    1,
                )[i].address == a && forall|j: int|
                    0 <= j < i ==> (#[trigger] s.skip(1)[j]).address != a;
            assert(s[i + 1] == s.skip(1)[i]);
            assert forall|j: int| 0 <= j < i + 1 implies (#[trigger] s[j]).address != a by {
                if j > 0 {
                    assert(s.skip(1)[j - 1] == s[j]);
                }
            }
        }
        if exists|i: int| 0 <= i < s.len() && (#[trigger] s[i]).address == a {
            let i = choose|i: int| 0 <= i < s.len() && (#[trigger] s[i]).address == a;
            assert(i > 0);
            assert(s.skip(1)[i - 1] == s[i]);
        }
    }
}

/// The registers a device reported in one response, in wire order.
pub struct ResponseFrame {
    /// The decoded registers, flattened across subframes.
    pub registers: Vec<RegisterData>,
}

impl View for ResponseFrame {
    type V = Seq<RegisterDataView>;

    open spec fn view(&self) -> Seq<RegisterDataView> {
        views_of(self.registers@)
    }
}

impl ResponseFrame {
    /// Parses a raw response payload, as [`spec_parse_frame`] reads it:
    /// every subframe's registers in order, the first error propagated.
    pub fn from_bytes(buf: &[u8]) -> (r: Result<ResponseFrame, FrameParseError>)
        ensures
            r matches Ok(f) ==> spec_parse_frame(buf@, 0) == Ok::<
                Seq<RegisterDataView>,
                FrameParseError,
            >(f@),
            r matches Err(e) ==> spec_parse_frame(buf@, 0) == Err::<
                Seq<RegisterDataView>,
                FrameParseError,
            >(e),
    {
        let mut results: Vec<RegisterData> = Vec::new();
        let mut pos: usize = 0;
        while pos < buf.len()
            invariant
                pos <= buf@.len(),
                spec_parse_frame(buf@, 0) == (match spec_parse_frame(buf@, pos as int) {
                    Err(e) => Err::<Seq<RegisterDataView>, FrameParseError>(e),
                    Ok(rest) => Ok::<Seq<RegisterDataView>, FrameParseError>(
                        views_of(results@) + rest,
                    ),
                }),
            decreases buf@.len() - pos,
        {
            let tail = slice_subrange(buf, pos, buf.len());
            proof {
                assert(tail@ =~= buf@.skip(pos as int));
            }
            match SubFrame::from_bytes(tail) {
                Err(e) => {
                    return Err(e);
                },
                Ok((osf, n)) => {
                    let ghost r0 = views_of(results@);
                    match &osf {
                        Some(sf) => {
                            let mut k: usize = 0;
                            while k < sf.data.len()
                                invariant
                                    k <= sf.data@.len(),
                                    views_of(results@) == r0 + views_of(sf.data@).take(k as int),
                                decreases sf.data@.len() - k,
                            {
                                let c = sf.data[k].clone();
                                proof {
                                    assert(c@ == views_of(sf.data@)[k as int]);
                                }
                                let ghost q0 = results@;
                                results.push(c);
                                k = k + 1;
                                proof {
                                    assert(views_of(results@) =~= views_of(q0).push(c@));
                                    assert(views_of(sf.data@).take(k as int) =~= views_of(
                                        sf.data@,
                                    ).take(k - 1).push(views_of(sf.data@)[k - 1]));
                                    assert(views_of(results@) =~= r0 + views_of(sf.data@).take(
                                        k as int,
                                    ));
                                }
                            }
                            proof {
                                assert(views_of(sf.data@).take(sf.data@.len() as int) =~= views_of(
                                    sf.data@,
                                ));
                                assert(views_of(sf.data@) == sf@.data);
                            }
                        },
                        None => {
                            proof {
                                assert(views_of(results@) =~= r0 + Seq::<
                                    RegisterDataView,
                                >::empty());
                            }
                        },
                    }
                    pos = pos + n;
                    proof {
                        let sfd: Seq<RegisterDataView> = match crate::subframe::subframe_opt_view(
                            osf,
                        ) {
                            Some(sv) => sv.data,
                            None => Seq::empty(),
                        };
                        assert(views_of(results@) =~= r0 + sfd);
                        match spec_parse_frame(buf@, pos as int) {
                            Err(e) => {},
                            Ok(rest) => {
                                assert((r0 + sfd) + rest =~= r0 + (sfd + rest));
                            },
                        }
                    }
                },
            }
        }
        proof {
            assert(spec_parse_frame(buf@, pos as int) == Ok::<
                Seq<RegisterDataView>,
                FrameParseError,
            >(Seq::empty()));
            assert(views_of(results@) + Seq::<RegisterDataView>::empty() =~= views_of(results@));
        }
        Ok(ResponseFrame { registers: results })
    }

    /// The first reported register at `addr`, or `None` when the response
    /// does not carry that register.
    pub fn get(&self, addr: RegisterAddr) -> (r: Option<&RegisterData>)
        ensures
            r matches Some(rd) ==> spec_get(self@, addr) == Some(rd@),
            r is None ==> spec_get(self@, addr) is None,
    {
        let mut i: usize = 0;
        proof {
            assert(self@.skip(0) =~= self@);
        }
        while i < self.registers.len()
            invariant
                i <= self.registers@.len(),
                spec_get(self@, addr) == spec_get(self@.skip(i as int), addr),
                forall|j: int| 0 <= j < i ==> (#[trigger] self@[j]).address != addr,
            decreases self.registers@.len() - i,
        {
            proof {
                assert(self@[i as int] == self.registers@[i as int]@);
                assert(self@.skip(i as int)[0] == self@[i as int]);
            }
            if addresses_equal(self.registers[i].address, addr) {
                return Some(&self.registers[i]);
            }
            i = i + 1;
            proof {
                assert(self@.skip(i - 1).skip(1) =~= self@.skip(i as int));
            }
        }
        proof {
            assert(self@.skip(i as int).len() == 0);
        }
        None
    }

    /// All the requested registers, in the order asked for, or `None` as
    /// soon as one of them is missing from the response.
    pub fn get_many(&self, addrs: &Vec<RegisterAddr>) -> (r: Option<Vec<RegisterData>>)
        ensures
            r matches Some(v) ==> spec_get_many(self@, addrs@) == Some(views_of(v@)),
            r is None ==> spec_get_many(self@, addrs@) is None,
    {
        let mut out: Vec<RegisterData> = Vec::new();
        let mut i: usize = 0;
        proof {
            assert(addrs@.skip(0) =~= addrs@);
            match spec_get_many(self@, addrs@) {
                None => {},
                Some(rest) => {
                    assert(views_of(out@) + rest =~= rest);
                },
            }
        }
        while i < addrs.len()
            invariant
                i <= addrs@.len(),
                spec_get_many(self@, addrs@) == (match spec_get_many(
                    self@,
                    addrs@.skip(i as int),
                ) {
                    None => None::<Seq<RegisterDataView>>,
                    Some(rest) => Some(views_of(out@) + rest),
                }),
            decreases addrs@.len() - i,
        {
            proof {
                assert(addrs@.skip(i as int)[0] == addrs@[i as int]);
            }
            match self.get(addrs[i]) {
                Some(rd) => {
                    let c = rd.clone();
                    let ghost o0 = out@;
                    out.push(c);
                    i = i + 1;
                    proof {
                        assert(views_of(out@) =~= views_of(o0).push(c@));
                        assert(addrs@.skip(i - 1).skip(1) =~= addrs@.skip(i as int));
                        match spec_get_many(self@, addrs@.skip(i as int)) {
                            None => {},
                            Some(rest) => {
                                assert(views_of(o0).push(c@) + rest =~= views_of(o0) + (seq![c@]
                                    + rest));
                            },
                        }
                    }
                },
                None => {
                    proof {
                        assert(spec_get_many(self@, addrs@.skip(i as int)) is None);
                    }
                    return None;
                },
            }
        }
        proof {
            assert(addrs@.skip(addrs@.len() as int).len() == 0);
            assert(views_of(out@) + Seq::<RegisterDataView>::empty() =~= views_of(out@));
        }
        Some(out)
    }
}

/// Whether two register addresses are the same.
fn addresses_equal(a: RegisterAddr, b: RegisterAddr) -> (r: bool)
    ensures
        r == (a == b),
{
    a == b
}

} // verus!
