//! Frames and the frame builder: registers accumulate keyed by subframe kind
//! and address (last write wins), merge with override semantics, and `build`
//! splits each kind's registers into maximal runs of consecutive addresses.

use crate::error::{FrameError, RegisterError};
use crate::protocol::Resolution;
use crate::registers::{
    kind_of_reg, spec_frame_register, views_of, FrameRegisters, RegisterData, RegisterDataView,
};
use crate::subframe::{
    all_have_data, spec_subframe_bytes, SubFrame, SubFrameView,
};
use vstd::prelude::*;

verus! {

/// The bucket a register belongs to: its subframe kind's wire value and its
/// address. The builder keeps one register per key.
pub open spec fn reg_key(rv: RegisterDataView) -> (u8, u16) {
    (kind_of_reg(rv).spec_value(), rv.address.spec_value())
}

/// Strict ordering of builder keys: by kind value, then by address.
pub open spec fn key_lt(a: (u8, u16), b: (u8, u16)) -> bool {
    a.0 < b.0 || (a.0 == b.0 && a.1 < b.1)
}

/// Whether a run of registers is strictly sorted by builder key (which also
/// makes all keys distinct).
pub open spec fn sorted_by_key(s: Seq<RegisterDataView>) -> bool {
    forall|i: int, j: int|
        0 <= i < j < s.len() ==> key_lt(reg_key(#[trigger] s[i]), reg_key(#[trigger] s[j]))
}

/// The mapping from builder key to register that a run of registers
/// describes, later entries overwriting earlier ones.
pub open spec fn regs_to_map(s: Seq<RegisterDataView>) -> Map<(u8, u16), RegisterDataView>
    decreases s.len(),
{
    if s.len() == 0 {
        Map::empty()
    } else {
        regs_to_map(s.drop_last()).insert(reg_key(s.last()), s.last())
    }
}

/// `m` with every register of `s` inserted under its key, in order.
pub open spec fn insert_all(
    m: Map<(u8, u16), RegisterDataView>,
    s: Seq<RegisterDataView>,
) -> Map<(u8, u16), RegisterDataView>
    decreases s.len(),
{
    if s.len() == 0 {
        m
    } else {
        insert_all(m, s.drop_last()).insert(reg_key(s.last()), s.last())
    }
}

proof fn lemma_regs_to_map_update(s: Seq<RegisterDataView>, i: int, rv: RegisterDataView)
    requires
        0 <= i < s.len(),
        reg_key(s[i]) == reg_key(rv),
        forall|a: int, b: int|
            0 <= a < b < s.len() ==> reg_key(#[trigger] s[a]) != reg_key(#[trigger] s[b]),
    ensures
        regs_to_map(s.update(i, rv)) == regs_to_map(s).insert(reg_key(rv), rv),
    decreases s.len(),
{
    let t = s.update(i, rv);
    let k = reg_key(rv);
    if i == s.len() - 1 {
        assert(t.drop_last() =~= s.drop_last());
        assert(t.last() == rv);
        assert(regs_to_map(s.drop_last()).insert(k, s.last()).insert(k, rv) =~= regs_to_map(
            s.drop_last(),
        ).insert(k, rv));
    } else {
        let sp = s.drop_last();
        assert(t.drop_last() =~= sp.update(i, rv));
        assert(t.last() == s.last());
        assert(sp[i] == s[i]);
        lemma_regs_to_map_update(sp, i, rv);
        let kl = reg_key(s.last());
        assert(reg_key(s[i]) != reg_key(s[s.len() - 1]));
        assert(regs_to_map(sp).insert(k, rv).insert(kl, s.last()) =~= regs_to_map(sp).insert(
            kl,
            s.last(),
        ).insert(k, rv));
    }
}

proof fn lemma_regs_to_map_insert(s: Seq<RegisterDataView>, i: int, rv: RegisterDataView)
    requires
        0 <= i <= s.len(),
        forall|j: int| 0 <= j < s.len() ==> reg_key(#[trigger] s[j]) != reg_key(rv),
    ensures
        regs_to_map(s.insert(i, rv)) == regs_to_map(s).insert(reg_key(rv), rv),
    decreases s.len(),
{
    let t = s.insert(i, rv);
    let k = reg_key(rv);
    if i == s.len() {
        assert(t.drop_last() =~= s);
        assert(t.last() == rv);
    } else {
        let sp = s.drop_last();
        assert(t.drop_last() =~= sp.insert(i, rv));
        assert(t.last() == s.last());
        lemma_regs_to_map_insert(sp, i, rv);
        let kl = reg_key(s.last());
        assert(reg_key(s[s.len() - 1]) != k);
        assert(regs_to_map(sp).insert(k, rv).insert(kl, s.last()) =~= regs_to_map(sp).insert(
            kl,
            s.last(),
        ).insert(k, rv));
    }
}


/// Merge precedence: on any register key the right-hand builder holds,
/// the merged builder carries the right-hand register — the merge argument
/// wins — and keys only the left-hand builder holds keep its register.
pub proof fn lemma_merge_precedence(
    a: Map<(u8, u16), RegisterDataView>,
    b: Map<(u8, u16), RegisterDataView>,
    k: (u8, u16),
)
    ensures
        b.contains_key(k) ==> a.union_prefer_right(b)[k] == b[k],
        !b.contains_key(k) && a.contains_key(k) ==> a.union_prefer_right(b)[k] == a[k],
{
}

proof fn lemma_regs_to_map_contains(s: Seq<RegisterDataView>, k: (u8, u16))
    ensures
        regs_to_map(s).contains_key(k) <==> exists|i: int|
            0 <= i < s.len() && reg_key(#[trigger] s[i]) == k,
    decreases s.len(),
{
    if s.len() > 0 {
        lemma_regs_to_map_contains(s.drop_last(), k);
        if regs_to_map(s).contains_key(k) {
            if reg_key(s.last()) == k {
                assert(reg_key(s[s.len() - 1]) == k);
            } else {
                let i = choose|i: int|
                    0 <= i < s.drop_last().len() && reg_key(#[trigger] s.drop_last()[i]) == k;
                assert(reg_key(s[i]) == k);
            }
        }
        if exists|i: int| 0 <= i < s.len() && reg_key(#[trigger] s[i]) == k {
            let i = choose|i: int| 0 <= i < s.len() && reg_key(#[trigger] s[i]) == k;
            if i < s.len() - 1 {
                assert(reg_key(s.drop_last()[i]) == k);
            }
        }
    }
}

/// A strictly key-sorted run of registers is determined by the mapping it
/// describes: the builder's map view pins its entries, and with them the
/// frame `build` makes.
pub proof fn lemma_sorted_entries_unique(s1: Seq<RegisterDataView>, s2: Seq<RegisterDataView>)
    requires
        sorted_by_key(s1),
        sorted_by_key(s2),
        regs_to_map(s1) == regs_to_map(s2),
    ensures
        s1 == s2,
    decreases s1.len(),
{
    if s1.len() == 0 {
        if s2.len() > 0 {
            assert(regs_to_map(s2).contains_key(reg_key(s2.last())));
            assert(!regs_to_map(s1).contains_key(reg_key(s2.last())));
        }
        assert(s1 =~= s2);
    } else if s2.len() == 0 {
        assert(regs_to_map(s1).contains_key(reg_key(s1.last())));
        assert(!regs_to_map(s2).contains_key(reg_key(s1.last())));
    } else {
        let k1 = reg_key(s1.last());
        let k2 = reg_key(s2.last());
        // The last entry of a sorted run carries the greatest key of the
        // mapping, so the two last keys agree.
        if k1 != k2 {
            lemma_regs_to_map_contains(s2, k1);
            let i2 = choose|i: int| 0 <= i < s2.len() && reg_key(#[trigger] s2[i]) == k1;
            assert(i2 < s2.len() - 1);
            assert(key_lt(k1, k2));
            lemma_regs_to_map_contains(s1, k2);
            let i1 = choose|i: int| 0 <= i < s1.len() && reg_key(#[trigger] s1[i]) == k2;
            assert(i1 < s1.len() - 1);
            assert(key_lt(k2, k1));
        }
        assert(regs_to_map(s1)[k1] == s1.last());
        assert(regs_to_map(s2)[k1] == s2.last());
        assert(s1.last() == s2.last());
        // Dropping the shared last entry removes exactly that key.
        lemma_regs_to_map_contains(s1.drop_last(), k1);
        assert forall|i: int| 0 <= i < s1.drop_last().len() implies reg_key(
            #[trigger] s1.drop_last()[i],
        ) != k1 by {
            assert(s1.drop_last()[i] == s1[i]);
            assert(key_lt(reg_key(s1[i]), k1));
        }
        assert(!regs_to_map(s1.drop_last()).contains_key(k1));
        lemma_regs_to_map_contains(s2.drop_last(), k1);
        assert forall|i: int| 0 <= i < s2.drop_last().len() implies reg_key(
            #[trigger] s2.drop_last()[i],
        ) != k1 by {
            assert(s2.drop_last()[i] == s2[i]);
            assert(key_lt(reg_key(s2[i]), k1));
        }
        assert(!regs_to_map(s2.drop_last()).contains_key(k1));
        assert(regs_to_map(s1.drop_last()) =~= regs_to_map(s1).remove(k1));
        assert(regs_to_map(s2.drop_last()) =~= regs_to_map(s2).remove(k1));
        lemma_sorted_entries_unique(s1.drop_last(), s2.drop_last());
        assert(s1.len() == s2.len());
        assert forall|i: int| 0 <= i < s1.len() implies s1[i] == s2[i] by {
            if i < s1.len() - 1 {
                assert(s1.drop_last()[i] == s2.drop_last()[i]);
            }
        }
        assert(s1 =~= s2);
    }
}

/// The views of a frame's subframes, in order.
pub open spec fn subframe_views(s: Seq<SubFrame>) -> Seq<SubFrameView> {
    s.map_values(|sf: SubFrame| sf@)
}

/// All registers of a run of subframes, flattened in order.
pub open spec fn flatten_subframes(fs: Seq<SubFrameView>) -> Seq<RegisterDataView>
    decreases fs.len(),
{
    if fs.len() == 0 {
        Seq::empty()
    } else {
        flatten_subframes(fs.drop_last()) + fs.last().data
    }
}

/// Whether a run of registers sits at consecutive addresses: each one's
/// address is the first one's plus its position.
pub open spec fn contiguous(d: Seq<RegisterDataView>) -> bool {
    forall|i: int|
        0 <= i < d.len() ==> (#[trigger] d[i]).address.spec_value() == d[0].address.spec_value()
            + i
}

/// What `build` guarantees of each subframe it makes: nonempty, its header
/// count equal to its register count, consecutive addresses, and every
/// register under the subframe's kind.
pub open spec fn built_subframe_ok(sf: SubFrameView) -> bool {
    &&& 1 <= sf.data.len() <= 255
    &&& sf.len as int == sf.data.len()
    &&& contiguous(sf.data)
    &&& forall|i: int| 0 <= i < sf.data.len() ==> kind_of_reg(#[trigger] sf.data[i]) == sf.register
}

/// Why two adjacent built subframes could not be one: the kind changes, the
/// addresses have a gap, or the first run is as long as a count byte allows.
pub open spec fn split_needed(a: SubFrameView, b: SubFrameView) -> bool {
    ||| a.register != b.register
    ||| a.data.last().address.spec_value() + 1 != b.data[0].address.spec_value()
    ||| a.data.len() == 255
}

/// What serializing one subframe returns.
pub open spec fn spec_subframe_result(sf: SubFrameView) -> Result<Seq<u8>, FrameError> {
    if sf.data.len() == 0 {
        Err(FrameError::EmptySubFrame)
    } else if sf.data[0].data is Some && !all_have_data(sf.data) {
        Err(FrameError::MixedReadWrites)
    } else {
        Ok(spec_subframe_bytes(sf))
    }
}


/// A subframe with no registers never serializes: the result is always the
/// empty-subframe error, never a zero-length payload.
pub proof fn lemma_empty_subframe_rejected(sf: SubFrameView)
    requires
        sf.data.len() == 0,
    ensures
        spec_subframe_result(sf) == Err::<Seq<u8>, FrameError>(FrameError::EmptySubFrame),
{
}

/// What serializing a run of subframes returns: their wire forms
/// concatenated, or the first subframe's error.
pub open spec fn spec_frame_result(fs: Seq<SubFrameView>) -> Result<Seq<u8>, FrameError>
    decreases fs.len(),
{
    if fs.len() == 0 {
        Ok(Seq::empty())
    } else {
        match spec_frame_result(fs.drop_last()) {
            Err(e) => Err(e),
            Ok(b) => match spec_subframe_result(fs.last()) {
                Err(e) => Err(e),
                Ok(sb) => Ok(b + sb),
            },
        }
    }
}

proof fn lemma_frame_result_err_persists(fs: Seq<SubFrameView>, k: int)
    requires
        0 <= k <= fs.len(),
        spec_frame_result(fs.take(k)) is Err,
    ensures
        spec_frame_result(fs) == spec_frame_result(fs.take(k)),
    decreases fs.len() - k,
{
    if k < fs.len() {
        assert(fs.take(k + 1).drop_last() =~= fs.take(k));
        lemma_frame_result_err_persists(fs, k + 1);
    } else {
        assert(fs.take(k) =~= fs);
    }
}

/// A frame whose subframes all came out of [`FrameBuilder::build`] always
/// serializes: every subframe is nonempty and of one direction, so no
/// serialization error can occur.
#[verifier::rlimit(100)]
pub proof fn lemma_built_frame_serializes(fs: Seq<SubFrameView>)
    requires
        forall|i: int| 0 <= i < fs.len() ==> built_subframe_ok(#[trigger] fs[i]),
    ensures
        spec_frame_result(fs) is Ok,
    decreases fs.len(),
{
    if fs.len() > 0 {
        assert(forall|i: int|
            0 <= i < fs.drop_last().len() ==> fs.drop_last()[i] == fs[i]);
        lemma_built_frame_serializes(fs.drop_last());
        let sf = fs.last();
        assert(built_subframe_ok(sf));
        if sf.data[0].data is Some {
            assert forall|i: int| 0 <= i < sf.data.len() implies sf.data[i].data is Some by {
                assert(kind_of_reg(sf.data[i]) == sf.register);
                assert(kind_of_reg(sf.data[0]) == sf.register);
            }
            assert(all_have_data(sf.data));
        }
    }
}

/// A frame: an ordered run of subframes forming one outbound payload.
pub struct Frame {
    /// The subframes, in the order they are serialized.
    pub subframes: Vec<SubFrame>,
}

impl View for Frame {
    type V = Seq<SubFrameView>;

    open spec fn view(&self) -> Seq<SubFrameView> {
        subframe_views(self.subframes@)
    }
}

impl Frame {
    /// Serializes every subframe in order and concatenates the bytes, as
    /// [`spec_frame_result`] lays them out; the first subframe error aborts.
    pub fn as_bytes(&self) -> (r: Result<Vec<u8>, FrameError>)
        ensures
            r matches Ok(b) ==> spec_frame_result(self@) == Ok::<Seq<u8>, FrameError>(b@),
            r matches Err(e) ==> spec_frame_result(self@) == Err::<Seq<u8>, FrameError>(e),
    {
        let mut buf: Vec<u8> = Vec::new();
        let mut i: usize = 0;
        while i < self.subframes.len()
            invariant
                i <= self@.len(),
                self@.len() == self.subframes@.len(),
                spec_frame_result(self@.take(i as int)) == Ok::<Seq<u8>, FrameError>(buf@),
            decreases self@.len() - i,
        {
            proof {
                assert(self@[i as int] == self.subframes@[i as int]@);
                assert(self@.take(i + 1).drop_last() =~= self@.take(i as int));
                assert(self@.take(i + 1).last() == self@[i as int]);
            }
            match self.subframes[i].as_bytes() {
                Ok(sb) => {
                    let ghost base = buf@;
                    let mut k: usize = 0;
                    while k < sb.len()
                        invariant
                            k <= sb@.len(),
                            buf@ == base + sb@.take(k as int),
                        decreases sb@.len() - k,
                    {
                        buf.push(sb[k]);
                        k = k + 1;
                        proof {
                            assert(buf@ =~= base + sb@.take(k as int));
                        }
                    }
                    proof {
                        assert(sb@.take(sb@.len() as int) =~= sb@);
                    }
                },
                Err(e) => {
                    proof {
                        assert(spec_frame_result(self@.take(i + 1)) == Err::<Seq<u8>, FrameError>(
                            e,
                        ));
                        lemma_frame_result_err_persists(self@, i + 1);
                    }
                    return Err(e);
                },
            }
            i = i + 1;
        }
        proof {
            assert(self@.take(self@.len() as int) =~= self@);
        }
        Ok(buf)
    }

    /// A fresh, empty [`FrameBuilder`].
    pub fn builder() -> (r: FrameBuilder)
        ensures
            r.wf(),
            r@ == Map::<(u8, u16), RegisterDataView>::empty(),
            r.entries() == Seq::<RegisterDataView>::empty(),
    {
        let r = FrameBuilder { regs: Vec::new() };
        proof {
            assert(r.entries() =~= Seq::<RegisterDataView>::empty());
        }
        r
    }

    /// A [`FrameBuilder`] holding the given registers, added in order (so on
    /// a key collision the later register wins).
    pub fn with_builder(regs: Vec<RegisterData>) -> (r: FrameBuilder)
        ensures
            r.wf(),
            r@ == insert_all(Map::<(u8, u16), RegisterDataView>::empty(), views_of(regs@)),
    {
        let mut b = Frame::builder();
        let mut i: usize = 0;
        while i < regs.len()
            invariant
                i <= regs@.len(),
                b.wf(),
                b@ == insert_all(
                    Map::<(u8, u16), RegisterDataView>::empty(),
                    views_of(regs@).take(i as int),
                ),
            decreases regs@.len() - i,
        {
            b.add(regs[i].clone());
            i = i + 1;
            proof {
                let vs = views_of(regs@);
                assert(vs.take(i as int).drop_last() =~= vs.take(i - 1));
                assert(vs.take(i as int).last() == vs[i - 1]);
            }
        }
        proof {
            assert(views_of(regs@).take(regs@.len() as int) =~= views_of(regs@));
        }
        b
    }
}

/// Accumulates register operations for one frame, keyed by subframe kind and
/// address: adding a register that shares a key with an earlier one silently
/// replaces it, and `build` lays the result out deterministically.
pub struct FrameBuilder {
    regs: Vec<RegisterData>,
}

impl FrameBuilder {
    /// The registers this builder holds, strictly sorted by key.
    pub closed spec fn entries(self) -> Seq<RegisterDataView> {
        views_of(self.regs@)
    }

    /// The builder's registers are strictly sorted by key.
    pub open spec fn wf(self) -> bool {
        sorted_by_key(self.entries())
    }
}

impl View for FrameBuilder {
    type V = Map<(u8, u16), RegisterDataView>;

    open spec fn view(&self) -> Map<(u8, u16), RegisterDataView> {
        regs_to_map(self.entries())
    }
}

impl Clone for FrameBuilder {
    fn clone(&self) -> (r: Self)
        ensures
            r.entries() == self.entries(),
            r@ == self@,
            r.wf() == self.wf(),
    {
        let mut regs: Vec<RegisterData> = Vec::new();
        let mut i: usize = 0;
        while i < self.regs.len()
            invariant
                i <= self.regs@.len(),
                views_of(regs@) == views_of(self.regs@).take(i as int),
            decreases self.regs@.len() - i,
        {
            let c = self.regs[i].clone();
            proof {
                assert(c@ == views_of(self.regs@)[i as int]);
            }
            let ghost r0 = regs@;
            regs.push(c);
            i = i + 1;
            proof {
                assert(regs@ == r0.push(c));
                assert(views_of(regs@) =~= views_of(r0).push(c@));
                assert(views_of(self.regs@).take(i as int) =~= views_of(self.regs@).take(i - 1).push(
                    views_of(self.regs@)[i - 1],
                ));
            }
        }
        let r = FrameBuilder { regs };
        proof {
            assert(views_of(self.regs@).take(self.regs@.len() as int) =~= views_of(self.regs@));
        }
        r
    }
}

/// The builder key of one register, as the wire will see it.
fn reg_key_of(r: &RegisterData) -> (k: (u8, u16))
    ensures
        k == reg_key(r@),
{
    let kind = FrameBuilder::frame_register(r.resolution, r.data.is_none());
    (kind.value(), r.address.value())
}

/// Strict key order, as [`key_lt`] defines it.
fn key_lt_exec(a: (u8, u16), b: (u8, u16)) -> (r: bool)
    ensures
        r == key_lt(a, b),
{
    a.0 < b.0 || (a.0 == b.0 && a.1 < b.1)
}

impl FrameBuilder {
    /// The subframe kind that carries a register of this resolution and
    /// direction (`read` meaning a payload-less read request).
    pub fn frame_register(resolution: Resolution, read: bool) -> (r: FrameRegisters)
        ensures
            r == spec_frame_register(resolution, read),
    {
        match (resolution, read) {
            (Resolution::Int8, true) => FrameRegisters::ReadInt8,
            (Resolution::Int16, true) => FrameRegisters::ReadInt16,
            (Resolution::Int32, true) => FrameRegisters::ReadInt32,
            (Resolution::Float, true) => FrameRegisters::ReadF32,
            (Resolution::Int8, false) => FrameRegisters::WriteInt8,
            (Resolution::Int16, false) => FrameRegisters::WriteInt16,
            (Resolution::Int32, false) => FrameRegisters::WriteInt32,
            (Resolution::Float, false) => FrameRegisters::WriteF32,
        }
    }

    /// Adds one register operation, replacing any earlier register under the
    /// same kind and address: the last write wins, silently.
    pub fn add(&mut self, reg: RegisterData)
        requires
            old(self).wf(),
        ensures
            final(self).wf(),
            final(self)@ == old(self)@.insert(reg_key(reg@), reg@),
    {
        let k = reg_key_of(&reg);
        let ghost es = self.entries();
        let ghost rv = reg@;
        let mut i: usize = 0;
        while i < self.regs.len() && key_lt_exec(reg_key_of(&self.regs[i]), k)
            invariant
                i <= self.regs@.len(),
                k == reg_key(rv),
                es == views_of(self.regs@),
                sorted_by_key(es),
                forall|j: int| 0 <= j < i ==> key_lt(reg_key(#[trigger] es[j]), k),
            decreases self.regs@.len() - i,
        {
            proof {
                assert(es[i as int] == self.regs@[i as int]@);
            }
            i = i + 1;
        }
        proof {
            assert(i < self.regs@.len() ==> es[i as int] == self.regs@[i as int]@);
        }
        let replace = if i < self.regs.len() {
            let ik = reg_key_of(&self.regs[i]);
            ik.0 == k.0 && ik.1 == k.1
        } else {
            false
        };
        if replace {
            self.regs.remove(i);
            self.regs.insert(i, reg);
            proof {
                assert(self.regs@ =~= old(self).regs@.update(i as int, reg));
                assert(views_of(self.regs@) =~= es.update(i as int, rv));
                assert(reg_key(es[i as int]) == k);
                lemma_regs_to_map_update(es, i as int, rv);
                assert forall|a: int, b: int|
                    0 <= a < b < es.update(i as int, rv).len() implies key_lt(
                    reg_key(#[trigger] es.update(i as int, rv)[a]),
                    reg_key(#[trigger] es.update(i as int, rv)[b]),
                ) by {
                    assert(key_lt(reg_key(es[a]), reg_key(es[b])));
                }
            }
        } else {
            self.regs.insert(i, reg);
            proof {
                let t = es.insert(i as int, rv);
                assert(views_of(self.regs@) =~= t);
                assert forall|j: int| 0 <= j < es.len() implies reg_key(#[trigger] es[j]) != k by {
                    if j < i {
                        assert(key_lt(reg_key(es[j]), k));
                    } else {
                        if i < es.len() {
                            assert(!key_lt(reg_key(es[i as int]), k));
                            assert(reg_key(es[i as int]) != k);
                            if j > i {
                                assert(key_lt(reg_key(es[i as int]), reg_key(es[j])));
                            }
                        }
                    }
                }
                lemma_regs_to_map_insert(es, i as int, rv);
                assert forall|a: int, b: int| 0 <= a < b < t.len() implies key_lt(
                    reg_key(#[trigger] t[a]),
                    reg_key(#[trigger] t[b]),
                ) by {
                    if i < es.len() {
                        assert(!key_lt(reg_key(es[i as int]), k));
                        assert(reg_key(es[i as int]) != k);
                    }
                    if a < i {
                        assert(t[a] == es[a]);
                    }
                    if b < i {
                        assert(t[b] == es[b]);
                    }
                    if a > i {
                        assert(t[a] == es[a - 1]);
                    }
                    if b > i {
                        assert(t[b] == es[b - 1]);
                    }
                }
            }
        }
    }

    /// Merges `other` into `self`: every register of `other` is added, so on
    /// any shared key `other`'s register wins.
    pub fn merge(self, other: Self) -> (r: Self)
        requires
            self.wf(),
            other.wf(),
        ensures
            r.wf(),
            r@ == self@.union_prefer_right(other@),
    {
        let ghost a = self@;
        let ghost os = other.entries();
        let mut me = self;
        let mut idx: usize = 0;
        while idx < other.regs.len()
            invariant
                idx <= other.regs@.len(),
                os == views_of(other.regs@),
                me.wf(),
                me@ == a.union_prefer_right(regs_to_map(os.take(idx as int))),
            decreases other.regs@.len() - idx,
        {
            proof {
                assert(os[idx as int] == other.regs@[idx as int]@);
            }
            me.add(other.regs[idx].clone());
            idx = idx + 1;
            proof {
                let k = reg_key(os[idx - 1]);
                assert(os.take(idx as int).drop_last() =~= os.take(idx - 1));
                assert(os.take(idx as int).last() == os[idx - 1]);
                assert(regs_to_map(os.take(idx as int)) == regs_to_map(os.take(idx - 1)).insert(
                    k,
                    os[idx - 1],
                ));
                assert(a.union_prefer_right(regs_to_map(os.take(idx - 1))).insert(k, os[idx - 1])
                    =~= a.union_prefer_right(regs_to_map(os.take(idx as int))));
            }
        }
        proof {
            assert(os.take(other.regs@.len() as int) =~= os);
        }
        me
    }

    /// Adds the registers behind a run of fallible constructions: if every
    /// one succeeded they are all added in order, and the first failure is
    /// returned instead with the builder left unchanged.
    pub fn try_add_many(&mut self, regs: Vec<Result<RegisterData, RegisterError>>) -> (r: Result<
        (),
        RegisterError,
    >)
        requires
            old(self).wf(),
        ensures
            final(self).wf(),
            r is Ok <==> (forall|j: int| 0 <= j < regs@.len() ==> (#[trigger] regs@[j]) is Ok),
            r is Ok ==> final(self)@ == insert_all(old(self)@, ok_views(regs@)),
            r matches Err(e) ==> final(self)@ == old(self)@ && exists|j: int|
                0 <= j < regs@.len() && ((#[trigger] regs@[j]) matches Err(e2) && e2 == e) && (
                forall|m: int| 0 <= m < j ==> regs@[m] is Ok),
    {
        let ghost pre = *self;
        let mut i: usize = 0;
        while i < regs.len()
            invariant
                i <= regs@.len(),
                *self == pre,
                pre == *old(self),
                pre.wf(),
                forall|j: int| 0 <= j < i ==> (#[trigger] regs@[j]) is Ok,
            decreases regs@.len() - i,
        {
            if let Err(e) = &regs[i] {
                proof {
                    assert(regs@[i as int] matches Err(e2) && e2 == *e);
                }
                return Err(*e);
            }
            i = i + 1;
        }
        let ghost m0 = old(self)@;
        let ghost ovs = ok_views(regs@);
        let mut idx: usize = 0;
        while idx < regs.len()
            invariant
                idx <= regs@.len(),
                ovs == ok_views(regs@),
                forall|j: int| 0 <= j < regs@.len() ==> (#[trigger] regs@[j]) is Ok,
                self.wf(),
                self@ == insert_all(m0, ovs.take(idx as int)),
            decreases regs@.len() - idx,
        {
            match &regs[idx] {
                Ok(rd) => {
                    proof {
                        assert(ovs[idx as int] == rd@);
                    }
                    self.add(rd.clone());
                },
                Err(_) => {
                    proof {
                        assert(false);
                    }
                },
            }
            idx = idx + 1;
            proof {
                assert(ovs.take(idx as int).drop_last() =~= ovs.take(idx - 1));
                assert(ovs.take(idx as int).last() == ovs[idx - 1]);
            }
        }
        proof {
            assert(ovs.take(regs@.len() as int) =~= ovs);
        }
        Ok(())
    }

    /// Builds the frame: walking the registers in key order, each maximal
    /// run of one kind at consecutive addresses becomes one subframe (runs
    /// longer than a count byte can announce are split at 255). Splitting is
    /// a structural decision, never an error, so `build` cannot fail.
    #[verifier::rlimit(100)]
    pub fn build(self) -> (r: Frame)
        requires
            self.wf(),
        ensures
            r@ == spec_build(self.entries()),
            flatten_subframes(r@) == self.entries(),
            forall|i: int| 0 <= i < r@.len() ==> built_subframe_ok(#[trigger] r@[i]),
            forall|i: int| 0 < i < r@.len() ==> split_needed(r@[i - 1], #[trigger] r@[i]),
    {
        let ghost es = self.entries();
        let n = self.regs.len();
        let mut subframes: Vec<SubFrame> = Vec::new();
        let ghost mut fsv: Seq<SubFrameView> = Seq::empty();
        let mut i: usize = 0;
        proof {
            assert(fsv =~= subframe_views(subframes@));
            assert(flatten_subframes(fsv) =~= es.take(0));
            assert(spec_build(es) =~= fsv + spec_build_from(es, 0));
        }
        while i < n
            invariant
                i <= n,
                n == self.regs@.len(),
                es == views_of(self.regs@),
                fsv == subframe_views(subframes@),
                spec_build(es) == fsv + spec_build_from(es, i as int),
                flatten_subframes(fsv) == es.take(i as int),
                forall|k: int| 0 <= k < fsv.len() ==> built_subframe_ok(#[trigger] fsv[k]),
                forall|k: int| 0 < k < fsv.len() ==> split_needed(fsv[k - 1], #[trigger] fsv[k]),
                i < n && fsv.len() > 0 ==> run_breaks(fsv.last(), es[i as int]),
            decreases n - i,
        {
            let (sf, next) = collect_run(&self.regs, i);
            let ghost prev_fsv = fsv;
            let ghost prev_i = i as int;
            subframes.push(sf);
            i = next;
            proof {
                fsv = fsv.push(sf@);
                assert(fsv =~= subframe_views(subframes@));
                assert(fsv.drop_last() =~= prev_fsv);
                assert(fsv.last() == sf@);
                lemma_spec_build_step(es, prev_i, i as int, sf@);
                assert(prev_fsv + (seq![sf@] + spec_build_from(es, i as int)) =~= (prev_fsv
                    + seq![sf@]) + spec_build_from(es, i as int));
                assert(fsv =~= prev_fsv + seq![sf@]);
                assert(flatten_subframes(fsv) == flatten_subframes(prev_fsv) + sf@.data);
                assert(es.take(prev_i) + es.subrange(prev_i, i as int) =~= es.take(i as int));
                assert(sf@.data[0] == es[prev_i]);
                assert forall|k: int| 0 <= k < fsv.len() implies built_subframe_ok(
                    #[trigger] fsv[k],
                ) by {
                    if k < fsv.len() - 1 {
                        assert(fsv[k] == prev_fsv[k]);
                        assert(built_subframe_ok(prev_fsv[k]));
                    } else {
                        assert(fsv[k] == sf@);
                    }
                }
                assert forall|k: int| 0 < k < fsv.len() implies split_needed(
                    fsv[k - 1],
                    #[trigger] fsv[k],
                ) by {
                    if k < fsv.len() - 1 {
                        assert(fsv[k] == prev_fsv[k] && fsv[k - 1] == prev_fsv[k - 1]);
                        assert(split_needed(prev_fsv[k - 1], prev_fsv[k]));
                    } else {
                        if prev_fsv.len() > 0 {
                            assert(run_breaks(prev_fsv.last(), es[prev_i]));
                            assert(split_needed(prev_fsv.last(), sf@));
                        }
                    }
                }
            }
        }
        proof {
            assert(es.take(n as int) =~= es);
            assert(spec_build_from(es, n as int) =~= Seq::<SubFrameView>::empty());
            assert(fsv + Seq::<SubFrameView>::empty() =~= fsv);
        }
        Frame { subframes }
    }
}


/// The end of the maximal run one subframe can carry, the run starting at
/// `start` and validated through index `i`: the run extends while the kind
/// stays, the address is the successor, and the count fits a count byte.
pub open spec fn run_end(es: Seq<RegisterDataView>, start: int, i: int) -> int
    decreases es.len() - i,
{
    if i + 1 < es.len() && i + 1 - start < 255 && kind_of_reg(es[i + 1]) == kind_of_reg(es[i])
        && es[i + 1].address.spec_value() == es[i].address.spec_value() + 1 {
        run_end(es, start, i + 1)
    } else {
        i + 1
    }
}

proof fn lemma_run_end_bounds(es: Seq<RegisterDataView>, start: int, i: int)
    requires
        0 <= start <= i < es.len(),
    ensures
        i + 1 <= run_end(es, start, i) <= es.len(),
    decreases es.len() - i,
{
    if i + 1 < es.len() && i + 1 - start < 255 && kind_of_reg(es[i + 1]) == kind_of_reg(es[i])
        && es[i + 1].address.spec_value() == es[i].address.spec_value() + 1 {
        lemma_run_end_bounds(es, start, i + 1);
    }
}

/// The frame that `build` makes of a sorted run of registers: one subframe
/// per maximal run. (The clamp on `end` never fires — a run always ends
/// past its start and within the registers — it only keeps the recursion
/// visibly bounded.)
pub open spec fn spec_build_from(es: Seq<RegisterDataView>, start: int) -> Seq<SubFrameView>
    decreases es.len() - start,
{
    if start < 0 || start >= es.len() {
        Seq::empty()
    } else {
        let end0 = run_end(es, start, start);
        let end = if end0 <= start || end0 > es.len() {
            start + 1
        } else {
            end0
        };
        seq![
            SubFrameView {
                register: kind_of_reg(es[start]),
                len: (end - start) as u8,
                data: es.subrange(start, end),
            },
        ] + spec_build_from(es, end)
    }
}

/// The frame that `build` makes of a sorted run of registers.
pub open spec fn spec_build(es: Seq<RegisterDataView>) -> Seq<SubFrameView> {
    spec_build_from(es, 0)
}

/// The wire bytes of the frame built from a sorted run of registers (the
/// error arm is unreachable: built frames always serialize).
pub open spec fn spec_build_bytes(es: Seq<RegisterDataView>) -> Seq<u8> {
    match spec_frame_result(spec_build(es)) {
        Ok(b) => b,
        Err(_) => Seq::empty(),
    }
}

proof fn lemma_spec_build_step(es: Seq<RegisterDataView>, start: int, next: int, sfv: SubFrameView)
    requires
        0 <= start < next <= es.len(),
        next == run_end(es, start, start),
        next - start <= 255,
        sfv.register == kind_of_reg(es[start]),
        sfv.len as int == next - start,
        sfv.data == es.subrange(start, next),
    ensures
        spec_build_from(es, start) == seq![sfv] + spec_build_from(es, next),
{
    assert(spec_build_from(es, start) =~= seq![sfv] + spec_build_from(es, next));
}

/// Whether the register `next` cannot extend a built subframe: the kind
/// changes, the address is not the successor, or the run is already as long
/// as a count byte can announce.
pub open spec fn run_breaks(a: SubFrameView, next: RegisterDataView) -> bool {
    ||| a.register != kind_of_reg(next)
    ||| a.data.last().address.spec_value() + 1 != next.address.spec_value()
    ||| a.data.len() == 255
}

proof fn lemma_collected_run_ok(
    es: Seq<RegisterDataView>,
    start: int,
    i: int,
    kind: FrameRegisters,
    sfv: SubFrameView,
)
    requires
        0 <= start < i <= es.len(),
        i - start <= 255,
        sfv.data == es.subrange(start, i),
        sfv.register == kind,
        sfv.len as int == i - start,
        forall|k: int| start <= k < i ==> kind_of_reg(#[trigger] es[k]) == kind,
        contiguous(es.subrange(start, i)),
    ensures
        built_subframe_ok(sfv),
        sfv.data[0] == es[start],
        sfv.data.last() == es[i - 1],
{
    assert(sfv.data.len() == i - start);
    assert forall|j: int| 0 <= j < sfv.data.len() implies kind_of_reg(#[trigger] sfv.data[j])
        == sfv.register by {
        assert(sfv.data[j] == es[start + j]);
        assert(kind_of_reg(es[start + j]) == kind);
    }
}

/// Collects the maximal run of registers starting at `start` that one
/// subframe can carry: one kind, consecutive addresses, at most 255 of them.
#[verifier::rlimit(100)]
fn collect_run(regs: &Vec<RegisterData>, start: usize) -> (r: (SubFrame, usize))
    requires
        start < regs@.len(),
    ensures
        start < r.1 <= regs@.len(),
        r.0@.register == kind_of_reg(views_of(regs@)[start as int]),
        r.0@.len as int == r.1 - start,
        r.0@.data == views_of(regs@).subrange(start as int, r.1 as int),
        built_subframe_ok(r.0@),
        r.1 < regs@.len() ==> run_breaks(r.0@, views_of(regs@)[r.1 as int]),
        r.1 as int == run_end(views_of(regs@), start as int, start as int),
{
    let ghost es = views_of(regs@);
    let n = regs.len();
    let kind = FrameBuilder::frame_register(regs[start].resolution, regs[start].data.is_none());
    let mut sf_data: Vec<RegisterData> = Vec::new();
    let c0 = regs[start].clone();
    proof {
        assert(c0@ == es[start as int]);
    }
    sf_data.push(c0);
    let mut count: u8 = 1;
    let mut i: usize = start + 1;
    proof {
        assert(views_of(sf_data@) =~= es.subrange(start as int, i as int));
    }
    loop
        invariant
            0 <= start < i <= n,
            n == regs@.len(),
            es == views_of(regs@),
            1 <= count <= 255,
            count as int == i - start,
            views_of(sf_data@) == es.subrange(start as int, i as int),
            kind == kind_of_reg(es[start as int]),
            forall|k: int| start <= k < i ==> kind_of_reg(#[trigger] es[k]) == kind,
            contiguous(es.subrange(start as int, i as int)),
            run_end(es, start as int, start as int) == run_end(es, start as int, i - 1),
        ensures
            start < i <= n,
            count as int == i - start,
            views_of(sf_data@) == es.subrange(start as int, i as int),
            kind == kind_of_reg(es[start as int]),
            forall|k: int| start <= k < i ==> kind_of_reg(#[trigger] es[k]) == kind,
            contiguous(es.subrange(start as int, i as int)),
            1 <= count <= 255,
            run_end(es, start as int, start as int) == i,
            i == n || count == 255 || kind_of_reg(es[i as int]) != kind || es[
                i as int
            ].address.spec_value() != es[i - 1].address.spec_value() + 1,
        decreases n - i,
    {
        if i >= n || count == 255 {
            break ;
        }
        proof {
            assert(es[i as int] == regs@[i as int]@);
            assert(es[i - 1] == regs@[i - 1]@);
        }
        let next_kind = FrameBuilder::frame_register(regs[i].resolution, regs[i].data.is_none());
        if next_kind != kind {
            break ;
        }
        if regs[i].address.value() != regs[i - 1].address.value() + 1 {
            break ;
        }
        let cn = regs[i].clone();
        proof {
            assert(cn@ == es[i as int]);
        }
        let ghost d0 = sf_data@;
        sf_data.push(cn);
        count = count + 1;
        i = i + 1;
        proof {
            assert(sf_data@ == d0.push(cn));
            assert(views_of(sf_data@) =~= views_of(d0).push(cn@));
            let sub = es.subrange(start as int, i as int);
            let subp = es.subrange(start as int, i - 1);
            assert(sub =~= subp.push(es[i - 1]));
            assert(sub[0] == subp[0]);
            assert forall|j: int| 0 <= j < sub.len() implies (#[trigger] sub[j]).address.spec_value()
                == sub[0].address.spec_value() + j by {
                if j < sub.len() - 1 {
                    assert(sub[j] == subp[j]);
                    assert(subp[j].address.spec_value() == subp[0].address.spec_value() + j);
                } else {
                    assert(sub[j] == es[i - 1]);
                    assert(subp[subp.len() - 1].address.spec_value() == subp[0].address.spec_value()
                        + (subp.len() - 1));
                    assert(es[i - 2] == subp[subp.len() - 1]);
                }
            }
            assert(contiguous(sub));
        }
    }
    let sf = SubFrame { register: kind, len: count, data: sf_data };
    proof {
        lemma_collected_run_ok(es, start as int, i as int, kind, sf@);
    }
    (sf, i)
}

/// The views of the successful constructions in `s` (meaningful when all
/// succeeded), with a placeholder where one failed.
pub open spec fn ok_views(s: Seq<Result<RegisterData, RegisterError>>) -> Seq<RegisterDataView> {
    s.map_values(
        |x: Result<RegisterData, RegisterError>|
            match x {
                Ok(rd) => rd@,
                Err(_) => RegisterDataView {
                    address: crate::registers::RegisterAddr::Mode,
                    resolution: Resolution::Int8,
                    data: None,
                },
            },
    )
}

} // verus!
