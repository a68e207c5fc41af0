//! Frames and the positional out-of-band discipline.
//!
//! A frame is the wire unit: a correlation id, a serialized payload, an
//! ordered sequence of opaque out-of-band values, and flags saying which of
//! those values have their ownership transferred to the receiver.
//!
//! A call's arguments are split by their declared transport mode: the
//! serialized ones go, in declaration order, into the payload; the posted
//! ones form the out-of-band sequence, also in declaration order. The
//! receiver reconstructs the argument list positionally: it never matches
//! out-of-band values by name, only by order. [`lemma_positional_roundtrip`]
//! proves that this reconstruction restores exactly the arguments that were
//! split.

use vstd::prelude::*;

use crate::decl::{RpcMethod, RpcMethodV};
use crate::names::contains_name;

verus! {

/// The transport mode of a declared parameter (or of a return value).
#[derive(Clone, Copy, PartialEq, Eq, Structural, Debug)]
pub enum ParamMode {
    /// Serialized into the payload.
    Serialized,
    /// Carried out-of-band, copied to the receiver.
    PostedByValue,
    /// Carried out-of-band, ownership moved to the receiver.
    PostedByTransfer,
}

/// An opaque out-of-band value: a handle meaningful only to the transport
/// and to consumers sharing its representation. It is never serialized.
#[derive(Clone, Copy, PartialEq, Eq, Structural, Debug)]
pub struct OpaqueValue {
    pub handle: u64,
}

/// One argument value of a call: either a plain datum the payload codec
/// serializes, or an opaque value that must travel out-of-band.
#[derive(Clone, Copy, PartialEq, Eq, Structural, Debug)]
pub enum CallValue {
    Data(u64),
    Opaque(OpaqueValue),
}

/// The wire unit.
pub struct Frame {
    /// The correlation id binding a request to its response.
    pub id: u64,
    /// The serialized payload.
    pub payload: Vec<u8>,
    /// The out-of-band values, in declaration order of the posted
    /// parameters (or the posted return value).
    pub out_of_band: Vec<OpaqueValue>,
    /// For each out-of-band value, whether its ownership is transferred.
    pub transfer: Vec<bool>,
}

pub struct FrameV {
    pub id: u64,
    pub payload: Seq<u8>,
    pub out_of_band: Seq<OpaqueValue>,
    pub transfer: Seq<bool>,
}

impl View for Frame {
    type V = FrameV;

    open spec fn view(&self) -> FrameV {
        FrameV {
            id: self.id,
            payload: self.payload@,
            out_of_band: self.out_of_band@,
            transfer: self.transfer@,
        }
    }
}

impl Frame {
    /// One transfer flag per out-of-band value.
    pub open spec fn wf(&self) -> bool {
        self.transfer@.len() == self.out_of_band@.len()
    }
}

// ===================== modes of a method =====================

/// The mode of the `i`-th declared parameter: posted when its name stands
/// in the method's post set, with transfer when it also stands in the
/// transfer set.
pub open spec fn mode_of(m: RpcMethodV, i: int) -> ParamMode {
    if !m.post.contains(m.args[i].name) {
        ParamMode::Serialized
    } else if m.transfer.contains(m.args[i].name) {
        ParamMode::PostedByTransfer
    } else {
        ParamMode::PostedByValue
    }
}

/// The modes of all declared parameters, in declaration order.
pub open spec fn modes_of(m: RpcMethodV) -> Seq<ParamMode> {
    Seq::new(m.args.len(), |i: int| mode_of(m, i))
}

/// Computes the transport mode of every parameter of a checked method, in
/// declaration order.
pub fn method_modes(m: &RpcMethod) -> (r: Vec<ParamMode>)
    ensures
        r@ == modes_of(m@),
{
    let mut out: Vec<ParamMode> = Vec::new();
    let mut i: usize = 0;
    while i < m.args.len()
        invariant
            i <= m.args@.len(),
            out@.len() == i,
            forall|k: int| 0 <= k < i ==> out@[k] == mode_of(m@, k),
        decreases m.args@.len() - i,
    {
        let mode = if !contains_name(&m.post, m.args[i].name.as_slice()) {
            ParamMode::Serialized
        } else if contains_name(&m.transfer, m.args[i].name.as_slice()) {
            ParamMode::PostedByTransfer
        } else {
            ParamMode::PostedByValue
        };
        out.push(mode);
        i = i + 1;
    }
    proof {
        assert(out@ =~= modes_of(m@));
    }
    out
}

// ===================== splitting a call =====================

/// The arguments fit the modes: one value per mode, a plain datum exactly
/// where the mode says serialized.
pub open spec fn args_match(modes: Seq<ParamMode>, args: Seq<CallValue>) -> bool {
    &&& modes.len() == args.len()
    &&& forall|i: int|
        0 <= i < modes.len() ==> ((modes[i] is Serialized) <==> (args[i] is Data))
}

/// The plain data of the serialized arguments, in declaration order.
pub open spec fn serial_values(modes: Seq<ParamMode>, args: Seq<CallValue>) -> Seq<u64>
    decreases modes.len(),
{
    if modes.len() == 0 || args.len() == 0 {
        Seq::empty()
    } else {
        (match (modes[0], args[0]) {
            (ParamMode::Serialized, CallValue::Data(d)) => seq![d],
            _ => Seq::<u64>::empty(),
        }) + serial_values(modes.skip(1), args.skip(1))
    }
}

/// The opaque values of the posted arguments, in declaration order: the
/// out-of-band sequence of the call.
pub open spec fn posted_values(modes: Seq<ParamMode>, args: Seq<CallValue>) -> Seq<OpaqueValue>
    decreases modes.len(),
{
    if modes.len() == 0 || args.len() == 0 {
        Seq::empty()
    } else {
        (match (modes[0], args[0]) {
            (ParamMode::Serialized, _) => Seq::<OpaqueValue>::empty(),
            (_, CallValue::Opaque(o)) => seq![o],
            _ => Seq::<OpaqueValue>::empty(),
        }) + posted_values(modes.skip(1), args.skip(1))
    }
}

/// One flag per posted argument: whether its ownership is transferred.
pub open spec fn transfer_flags(modes: Seq<ParamMode>) -> Seq<bool>
    decreases modes.len(),
{
    if modes.len() == 0 {
        Seq::empty()
    } else {
        (match modes[0] {
            ParamMode::Serialized => Seq::<bool>::empty(),
            ParamMode::PostedByValue => seq![false],
            ParamMode::PostedByTransfer => seq![true],
        }) + transfer_flags(modes.skip(1))
    }
}

/// How many arguments are serialized.
pub open spec fn serial_count(modes: Seq<ParamMode>) -> nat
    decreases modes.len(),
{
    if modes.len() == 0 {
        0
    } else {
        (if modes[0] is Serialized {
            1nat
        } else {
            0nat
        }) + serial_count(modes.skip(1))
    }
}

/// How many arguments are posted out-of-band.
pub open spec fn posted_count(modes: Seq<ParamMode>) -> nat
    decreases modes.len(),
{
    if modes.len() == 0 {
        0
    } else {
        (if modes[0] is Serialized {
            0nat
        } else {
            1nat
        }) + posted_count(modes.skip(1))
    }
}

/// Partitions a call's arguments by mode: the plain data to serialize into
/// the payload, the out-of-band sequence, and the transfer flags, each in
/// declaration order.
pub fn split_args(modes: &Vec<ParamMode>, args: &Vec<CallValue>) -> (r: (
    Vec<u64>,
    Vec<OpaqueValue>,
    Vec<bool>,
))
    requires
        args_match(modes@, args@),
    ensures
        r.0@ == serial_values(modes@, args@),
        r.1@ == posted_values(modes@, args@),
        r.2@ == transfer_flags(modes@),
        r.2@.len() == r.1@.len(),
{
    let mut data: Vec<u64> = Vec::new();
    let mut oob: Vec<OpaqueValue> = Vec::new();
    let mut flags: Vec<bool> = Vec::new();
    let mut i: usize = 0;
    proof {
        assert(modes@.skip(0) =~= modes@);
        assert(args@.skip(0) =~= args@);
    }
    while i < modes.len()
        invariant
            args_match(modes@, args@),
            i <= modes@.len(),
            serial_values(modes@, args@) == data@ + serial_values(
                modes@.skip(i as int),
                args@.skip(i as int),
            ),
            posted_values(modes@, args@) == oob@ + posted_values(
                modes@.skip(i as int),
                args@.skip(i as int),
            ),
            transfer_flags(modes@) == flags@ + transfer_flags(modes@.skip(i as int)),
            flags@.len() == oob@.len(),
        decreases modes@.len() - i,
    {
        proof {
            assert(modes@.skip(i as int)[0] == modes@[i as int]);
            assert(args@.skip(i as int)[0] == args@[i as int]);
            assert(modes@.skip(i as int).skip(1) =~= modes@.skip(i as int + 1));
            assert(args@.skip(i as int).skip(1) =~= args@.skip(i as int + 1));
        }
        match (modes[i], args[i]) {
            (ParamMode::Serialized, CallValue::Data(d)) => {
                data.push(d);
            },
            (ParamMode::PostedByValue, CallValue::Opaque(o)) => {
                oob.push(o);
                flags.push(false);
            },
            (ParamMode::PostedByTransfer, CallValue::Opaque(o)) => {
                oob.push(o);
                flags.push(true);
            },
            _ => {
                proof {
                    assert(false);
                }
            },
        }
        i = i + 1;
    }
    proof {
        assert(modes@.skip(modes@.len() as int) =~= Seq::<ParamMode>::empty());
        assert(serial_values(modes@, args@) =~= data@);
        assert(posted_values(modes@, args@) =~= oob@);
        assert(transfer_flags(modes@) =~= flags@);
    }
    (data, oob, flags)
}

// ===================== reconstructing a call =====================

/// The receiver's reconstruction: walk the modes in declaration order,
/// taking the next payload datum for a serialized parameter and shifting
/// the next out-of-band value for a posted one — strictly positionally.
pub open spec fn joined(modes: Seq<ParamMode>, data: Seq<u64>, oob: Seq<OpaqueValue>) -> Seq<
    CallValue,
>
    decreases modes.len(),
{
    if modes.len() == 0 {
        Seq::empty()
    } else if modes[0] is Serialized {
        (if data.len() > 0 {
            seq![CallValue::Data(data[0])]
        } else {
            Seq::<CallValue>::empty()
        }) + joined(
            modes.skip(1),
            if data.len() > 0 {
                data.skip(1)
            } else {
                data
            },
            oob,
        )
    } else {
        (if oob.len() > 0 {
            seq![CallValue::Opaque(oob[0])]
        } else {
            Seq::<CallValue>::empty()
        }) + joined(
            modes.skip(1),
            data,
            if oob.len() > 0 {
                oob.skip(1)
            } else {
                oob
            },
        )
    }
}

/// Reconstructs the argument list of a call from its payload data and its
/// out-of-band sequence, consuming both positionally in declaration order.
pub fn join_args(modes: &Vec<ParamMode>, data: &Vec<u64>, oob: &Vec<OpaqueValue>) -> (r: Vec<
    CallValue,
>)
    requires
        data@.len() == serial_count(modes@),
        oob@.len() == posted_count(modes@),
    ensures
        r@ == joined(modes@, data@, oob@),
{
    let mut out: Vec<CallValue> = Vec::new();
    let data_len = data.len();
    let oob_len = oob.len();
    let mut si: usize = 0;
    let mut oi: usize = 0;
    let mut i: usize = 0;
    proof {
        assert(modes@.skip(0) =~= modes@);
        assert(data@.skip(0) =~= data@);
        assert(oob@.skip(0) =~= oob@);
    }
    while i < modes.len()
        invariant
            i <= modes@.len(),
            si <= data_len,
            oi <= oob_len,
            data_len == data@.len(),
            oob_len == oob@.len(),
            data@.len() - si == serial_count(modes@.skip(i as int)),
            oob@.len() - oi == posted_count(modes@.skip(i as int)),
            joined(modes@, data@, oob@) == out@ + joined(
                modes@.skip(i as int),
                data@.skip(si as int),
                oob@.skip(oi as int),
            ),
        decreases modes@.len() - i,
    {
        proof {
            assert(modes@.skip(i as int)[0] == modes@[i as int]);
            assert(modes@.skip(i as int).skip(1) =~= modes@.skip(i as int + 1));
        }
        if matches!(modes[i], ParamMode::Serialized) {
            proof {
                assert(serial_count(modes@.skip(i as int)) >= 1);
                assert(si < data_len);
                assert(data@.skip(si as int)[0] == data@[si as int]);
                assert(data@.skip(si as int).skip(1) =~= data@.skip(si as int + 1));
            }
            out.push(CallValue::Data(data[si]));
            si = si + 1;
        } else {
            proof {
                assert(posted_count(modes@.skip(i as int)) >= 1);
                assert(oi < oob_len);
                assert(oob@.skip(oi as int)[0] == oob@[oi as int]);
                assert(oob@.skip(oi as int).skip(1) =~= oob@.skip(oi as int + 1));
            }
            out.push(CallValue::Opaque(oob[oi]));
            oi = oi + 1;
        }
        i = i + 1;
    }
    proof {
        assert(modes@.skip(modes@.len() as int) =~= Seq::<ParamMode>::empty());
        assert(joined(modes@, data@, oob@) =~= out@);
    }
    out
}

/// Counts the serialized parameters of a mode list.
pub fn serial_count_of(modes: &Vec<ParamMode>) -> (r: usize)
    ensures
        r == serial_count(modes@),
{
    let mut cnt: usize = 0;
    let mut i: usize = 0;
    proof {
        assert(modes@.skip(0) =~= modes@);
    }
    while i < modes.len()
        invariant
            i <= modes@.len(),
            cnt <= i,
            serial_count(modes@) == cnt + serial_count(modes@.skip(i as int)),
        decreases modes@.len() - i,
    {
        proof {
            assert(modes@.skip(i as int)[0] == modes@[i as int]);
            assert(modes@.skip(i as int).skip(1) =~= modes@.skip(i as int + 1));
        }
        if matches!(modes[i], ParamMode::Serialized) {
            cnt = cnt + 1;
        }
        i = i + 1;
    }
    proof {
        assert(modes@.skip(modes@.len() as int) =~= Seq::<ParamMode>::empty());
    }
    cnt
}

/// Counts the posted parameters of a mode list.
pub fn posted_count_of(modes: &Vec<ParamMode>) -> (r: usize)
    ensures
        r == posted_count(modes@),
{
    let mut cnt: usize = 0;
    let mut i: usize = 0;
    proof {
        assert(modes@.skip(0) =~= modes@);
    }
    while i < modes.len()
        invariant
            i <= modes@.len(),
            cnt <= i,
            posted_count(modes@) == cnt + posted_count(modes@.skip(i as int)),
        decreases modes@.len() - i,
    {
        proof {
            assert(modes@.skip(i as int)[0] == modes@[i as int]);
            assert(modes@.skip(i as int).skip(1) =~= modes@.skip(i as int + 1));
        }
        if !matches!(modes[i], ParamMode::Serialized) {
            cnt = cnt + 1;
        }
        i = i + 1;
    }
    proof {
        assert(modes@.skip(modes@.len() as int) =~= Seq::<ParamMode>::empty());
    }
    cnt
}

/// Reconstructs a call's arguments after checking that the payload data
/// and the out-of-band sequence have exactly the lengths the modes demand.
/// A frame whose sequences do not fit the method is a contract violation
/// and yields nothing.
pub fn join_args_checked(modes: &Vec<ParamMode>, data: &Vec<u64>, oob: &Vec<OpaqueValue>) -> (r:
    Option<Vec<CallValue>>)
    ensures
        match r {
            Some(v) => {
                &&& data@.len() == serial_count(modes@)
                &&& oob@.len() == posted_count(modes@)
                &&& v@ == joined(modes@, data@, oob@)
            },
            None => data@.len() != serial_count(modes@) || oob@.len() != posted_count(modes@),
        },
{
    let sc = serial_count_of(modes);
    let pc = posted_count_of(modes);
    if data.len() != sc || oob.len() != pc {
        return None;
    }
    Some(join_args(modes, data, oob))
}

/// Positional out-of-band integrity: reconstructing a call from the
/// sequences its split produced restores exactly the original arguments,
/// for every mix of serialized and posted parameters and in every
/// declaration order.
pub proof fn lemma_positional_roundtrip(modes: Seq<ParamMode>, args: Seq<CallValue>)
    requires
        args_match(modes, args),
    ensures
        joined(modes, serial_values(modes, args), posted_values(modes, args)) == args,
    decreases modes.len(),
{
    if modes.len() == 0 {
        assert(joined(modes, serial_values(modes, args), posted_values(modes, args)) =~= args);
    } else {
        let mt = modes.skip(1);
        let at = args.skip(1);
        assert forall|j: int| 0 <= j < mt.len() implies ((mt[j] is Serialized) <==> (
        at[j] is Data)) by {
            assert(mt[j] == modes[j + 1]);
            assert(at[j] == args[j + 1]);
        }
        lemma_positional_roundtrip(mt, at);
        let sv = serial_values(modes, args);
        let pv = posted_values(modes, args);
        if modes[0] is Serialized {
            let d = args[0]->Data_0;
            assert(sv == seq![d] + serial_values(mt, at));
            assert(sv.len() > 0 && sv[0] == d);
            assert(sv.skip(1) =~= serial_values(mt, at));
            assert(pv == posted_values(mt, at));
            assert(joined(modes, sv, pv) == seq![CallValue::Data(d)] + joined(
                mt,
                serial_values(mt, at),
                posted_values(mt, at),
            ));
            assert(joined(modes, sv, pv) =~= args);
        } else {
            let o = args[0]->Opaque_0;
            assert(pv == seq![o] + posted_values(mt, at));
            assert(pv.len() > 0 && pv[0] == o);
            assert(pv.skip(1) =~= posted_values(mt, at));
            assert(sv == serial_values(mt, at));
            assert(joined(modes, sv, pv) == seq![CallValue::Opaque(o)] + joined(
                mt,
                serial_values(mt, at),
                posted_values(mt, at),
            ));
            assert(joined(modes, sv, pv) =~= args);
        }
    }
}

} // verus!
