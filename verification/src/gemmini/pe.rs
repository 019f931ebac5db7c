//! Processing element.

use vstd::prelude::*;
use crate::gemmini::arithmetic::{
    is_output,
    low_input_bits,
    low_output_bits,
    mac,
    resize_to_input,
    resize_to_output,
    rounded_shift,
    saturated,
    shift_and_clip,
    ACC_BITS,
};

verus! {

/// PE row data signals.
#[derive(Debug, Clone, Copy, PartialEq, Eq, Structural)]
pub struct PeRowData {
    /// A.
    ///
    /// Represents the activation value.
    pub a: i8,
}

/// PE column data signals. Both are signed numbers of `OUTPUT_BITS` bits.
#[derive(Debug, Clone, Copy, PartialEq, Eq, Structural)]
pub struct PeColData {
    /// B.
    ///
    /// Represents the weight value (in OS dataflow) or the above PE's MAC result (in WS dataflow).
    pub b: i32,
    /// D.
    ///
    /// Represents the preloading bias value (in OS dataflow) or the preloading weight value (in WS dataflow).
    pub d: i32,
}

/// PE column control signals.
#[derive(Debug, Clone, Copy, PartialEq, Eq, Structural)]
pub struct PeColControl {
    /// Identifier for the matrix multiplication operation (not used in the PE logic).
    pub id: u8,
    /// Indicates whether the current row is the last row (not used in the PE logic).
    pub last: bool,
    /// PE control signals.
    pub control: PeControl,
}

/// PE control signals.
#[derive(Debug, Clone, Copy, PartialEq, Eq, Structural)]
pub struct PeControl {
    /// Represents the dataflow.
    pub dataflow: Dataflow,
    /// Indicates which register to use for preloading the value.
    pub propagate: Propagate,
    /// The number of bits by which the accumulated result of matrix multiplication is right-shifted when leaving the
    /// systolic array, used to scale down the result. It is less than `ACC_BITS`.
    pub shift: u8,
}

/// Represents the dataflow.
#[derive(Debug, Clone, Copy, PartialEq, Eq, Structural)]
pub enum Dataflow {
    /// Output stationary.
    OS,
    /// Weight stationary.
    WS,
}

impl Default for Dataflow {
    fn default() -> (r: Self)
        ensures
            r == Dataflow::OS,
    {
        Dataflow::OS
    }
}

/// Indicates which register to use for preloading the value.
#[derive(Debug, Clone, Copy, PartialEq, Eq, Structural)]
pub enum Propagate {
    /// Use register 1 for preloading (and register 2 for the MAC unit input).
    Reg1,
    /// Use register 2 for preloading (and register 1 for the MAC unit input).
    Reg2,
}

impl Default for Propagate {
    fn default() -> (r: Self)
        ensures
            r == Propagate::Reg1,
    {
        Propagate::Reg1
    }
}

/// PE state registers.
///
/// Each register stores values based on the dataflow and propagate signal:
///
/// - WS dataflow, preload: weight value for the next operation.
/// - WS dataflow, compute: weight value for the current operation.
/// - OS dataflow, preload: bias value for the next operation.
/// - OS dataflow, compute: partial sum value for the current operation.
///
/// NOTE: In OS dataflow, it outputs the matmul result when a change in the propagate value is detected.
#[derive(Debug, Clone, Copy, PartialEq, Eq, Structural)]
pub struct PeS {
    /// Register 1.
    pub reg1: i32,
    /// Register 2.
    pub reg2: i32,
    /// The propagate value comes from the previous input.
    ///
    /// NOTE: In the PE logic, it is only used to check whether the current propagate value differs from the previous one.
    pub propagate: Propagate,
}

impl Default for PeS {
    fn default() -> (r: Self)
        ensures
            r == (PeS { reg1: 0, reg2: 0, propagate: Propagate::Reg1 }),
    {
        PeS { reg1: 0, reg2: 0, propagate: Propagate::Reg1 }
    }
}

impl PeColData {
    /// Both signals are signed numbers of `OUTPUT_BITS` bits.
    pub open spec fn wf(self) -> bool {
        is_output(self.b as int) && is_output(self.d as int)
    }
}

impl PeControl {
    /// The shift amount is less than the width of an accumulator.
    pub open spec fn wf(self) -> bool {
        self.shift < ACC_BITS
    }
}

impl PeS {
    /// The state in which `preload` is in the register that `propagate`
    /// selects for preloading and `compute` in the other one.
    pub open spec fn with_slots(preload: i32, compute: i32, propagate: Propagate) -> PeS {
        match propagate {
            Propagate::Reg1 => PeS { reg1: preload, reg2: compute, propagate },
            Propagate::Reg2 => PeS { reg1: compute, reg2: preload, propagate },
        }
    }

    /// The register that `propagate` selects for preloading.
    pub open spec fn preload_slot(self, propagate: Propagate) -> i32 {
        match propagate {
            Propagate::Reg1 => self.reg1,
            Propagate::Reg2 => self.reg2,
        }
    }

    /// The register that `propagate` leaves to the MAC unit.
    pub open spec fn compute_slot(self, propagate: Propagate) -> i32 {
        match propagate {
            Propagate::Reg1 => self.reg2,
            Propagate::Reg2 => self.reg1,
        }
    }

    /// Creates a new PE state.
    pub fn new(reg1: i32, reg2: i32, propagate: Propagate) -> (r: Self)
        ensures
            r == (PeS { reg1, reg2, propagate }),
    {
        PeS { reg1, reg2, propagate }
    }

    /// Creates a new PE state for OS dataflow.
    ///
    /// # Arguments
    ///
    /// - `preload`: Bias value for the next operation.
    /// - `partial_sum`: MAC result of the current operation.
    /// - `propagate`: Propagate value.
    pub fn new_os(preload: i32, partial_sum: i32, propagate: Propagate) -> (r: Self)
        ensures
            r == PeS::with_slots(preload, partial_sum, propagate),
    {
        match propagate {
            Propagate::Reg1 => PeS::new(preload, partial_sum, propagate),
            Propagate::Reg2 => PeS::new(partial_sum, preload, propagate),
        }
    }

    /// Creates a new PE state for WS dataflow.
    ///
    /// # Arguments
    ///
    /// - `preload`: Weight value for the next operation.
    /// - `weight`: Weight value for the current operation.
    /// - `propagate`: Propagate value.
    pub fn new_ws(preload: i8, weight: i8, propagate: Propagate) -> (r: Self)
        ensures
            r == PeS::with_slots(preload as i32, weight as i32, propagate),
    {
        let preload = preload as i32;
        let weight = weight as i32;

        match propagate {
            Propagate::Reg1 => PeS::new(preload, weight, propagate),
            Propagate::Reg2 => PeS::new(weight, preload, propagate),
        }
    }
}

/// What a PE drives in one cycle, and the state it latches for the next.
#[derive(Debug, Clone, Copy, PartialEq, Eq)]
pub struct PeOut {
    /// Row data for the PE to the right: the row data received from the left.
    pub out_right: Option<PeRowData>,
    /// Column data for the PE below.
    pub out_bottom_data: Option<PeColData>,
    /// Column control for the PE below: the column control received from above.
    pub out_bottom_control: Option<PeColControl>,
    /// State for the next cycle.
    pub next: PeS,
}

/// The weight that the MAC unit multiplies the activation with: the weight
/// that comes from above in OS dataflow, the stationary weight in WS dataflow.
pub open spec fn mac_weight(data: PeColData, control: PeControl, state: PeS) -> int {
    match control.dataflow {
        Dataflow::OS => low_input_bits(data.b as int),
        Dataflow::WS => low_input_bits(state.compute_slot(control.propagate) as int),
    }
}

/// What the MAC unit gives: the product of the activation and the weight
/// added to the stationary partial sum in OS dataflow, and to the partial sum
/// that comes from above in WS dataflow.
pub open spec fn mac_result(row: PeRowData, data: PeColData, control: PeControl, state: PeS) -> int {
    let bias = match control.dataflow {
        Dataflow::OS => state.compute_slot(control.propagate),
        Dataflow::WS => data.b,
    };
    low_output_bits(row.a as int * mac_weight(data, control, state) + bias as int)
}

/// The column data that a PE sends down.
///
/// In OS dataflow the weight passes through, and the register selected for
/// preloading leaves the array: scaled down by the shift amount in the cycle
/// in which the propagate value changes, and clipped. In WS dataflow the MAC
/// result goes down, together with the register selected for preloading.
pub open spec fn spec_pe_data(row: PeRowData, data: PeColData, control: PeControl, state: PeS) -> PeColData {
    match control.dataflow {
        Dataflow::OS => PeColData {
            b: data.b,
            d: saturated(
                rounded_shift(
                    state.preload_slot(control.propagate) as int,
                    if state.propagate != control.propagate {
                        control.shift as nat
                    } else {
                        0
                    },
                ),
            ) as i32,
        },
        Dataflow::WS => PeColData {
            b: mac_result(row, data, control, state) as i32,
            d: low_output_bits(state.preload_slot(control.propagate) as int) as i32,
        },
    }
}

/// The state that a PE latches.
///
/// The value that comes from above for preloading goes to the register
/// selected for preloading. The other register takes the MAC result in OS
/// dataflow, and keeps the stationary weight in WS dataflow.
pub open spec fn spec_pe_next(row: PeRowData, data: PeColData, control: PeControl, state: PeS) -> PeS {
    match control.dataflow {
        Dataflow::OS => PeS::with_slots(
            data.d,
            mac_result(row, data, control, state) as i32,
            control.propagate,
        ),
        Dataflow::WS => PeS::with_slots(
            low_input_bits(data.d as int) as i32,
            mac_weight(data, control, state) as i32,
            control.propagate,
        ),
    }
}

/// PE, for one cycle.
///
/// The row data passes through to the right and the column control to the
/// bottom. When all three inputs are valid, the PE sends column data down and
/// latches a new state; otherwise it sends none and keeps its state.
///
/// NOTE: It is assumed that all valid signals for the input interfaces have the same value.
pub fn pe(
    in_left: Option<PeRowData>,
    in_top: (Option<PeColData>, Option<PeColControl>),
    pe_s: PeS,
) -> (r: PeOut)
    requires
        in_top.0 is Some ==> in_top.0->0.wf(),
        in_top.1 is Some ==> in_top.1->0.control.wf(),
    ensures
        r.out_right == in_left,
        r.out_bottom_control == in_top.1,
        match (in_left, in_top.0, in_top.1) {
            (Some(row), Some(data), Some(control)) => {
                &&& r.out_bottom_data == Some(spec_pe_data(row, data, control.control, pe_s))
                &&& r.next == spec_pe_next(row, data, control.control, pe_s)
                &&& r.out_bottom_data->0.wf()
            },
            _ => r.out_bottom_data is None && r.next == pe_s,
        },
{
    let (in_top_data, in_top_control) = in_top;
    let (row, data, control) = match (in_left, in_top_data, in_top_control) {
        (Some(row), Some(data), Some(control)) => (row, data, control),
        _ => {
            return PeOut {
                out_right: in_left,
                out_bottom_data: None,
                out_bottom_control: in_top_control,
                next: pe_s,
            };
        },
    };
    let in_propagate = control.control.propagate;
    let in_dataflow = control.control.dataflow;

    // MAC Unit input selection
    let mac_activation = row.a;
    let (mac_weight, mac_bias) = match in_dataflow {
        Dataflow::OS => match in_propagate {
            Propagate::Reg1 => (resize_to_input(data.b), pe_s.reg2),
            Propagate::Reg2 => (resize_to_input(data.b), pe_s.reg1),
        },
        Dataflow::WS => match in_propagate {
            Propagate::Reg1 => (resize_to_input(pe_s.reg2), data.b),
            Propagate::Reg2 => (resize_to_input(pe_s.reg1), data.b),
        },
    };

    // MAC output
    let mac_result = mac(mac_activation, mac_weight, mac_bias);

    // Postprocess
    let (out_b, out_d) = match in_dataflow {
        Dataflow::OS => {
            let shamt = if pe_s.propagate != in_propagate {
                control.control.shift
            } else {
                0
            };
            match in_propagate {
                Propagate::Reg1 => (data.b, shift_and_clip(pe_s.reg1, shamt)),
                Propagate::Reg2 => (data.b, shift_and_clip(pe_s.reg2, shamt)),
            }
        },
        Dataflow::WS => match in_propagate {
            Propagate::Reg1 => (mac_result, resize_to_output(pe_s.reg1)),
            Propagate::Reg2 => (mac_result, resize_to_output(pe_s.reg2)),
        },
    };

    let out_bottom_data = PeColData { b: out_b, d: out_d };
    let next_pe_s = match in_dataflow {
        Dataflow::OS => PeS::new_os(data.d, mac_result, in_propagate),
        Dataflow::WS => PeS::new_ws(resize_to_input(data.d), mac_weight, in_propagate),
    };
    PeOut {
        out_right: in_left,
        out_bottom_data: Some(out_bottom_data),
        out_bottom_control: in_top_control,
        next: next_pe_s,
    }
}

/// In WS dataflow the weight is stationary: as long as the propagate value
/// holds, the register left to the MAC unit keeps the weight that the MAC
/// unit used, whatever comes in.
pub proof fn lemma_weight_is_stationary(row: PeRowData, data: PeColData, control: PeControl, state: PeS)
    requires
        control.dataflow is WS,
    ensures
        spec_pe_next(row, data, control, state).compute_slot(control.propagate) == mac_weight(
            data,
            control,
            state,
        ),
        mac_weight(data, control, spec_pe_next(row, data, control, state)) == mac_weight(
            data,
            control,
            state,
        ),
{
}

/// In OS dataflow the output is stationary: the register left to the MAC
/// unit takes the MAC result, and the value that comes from above for
/// preloading waits in the other register.
pub proof fn lemma_output_is_stationary(row: PeRowData, data: PeColData, control: PeControl, state: PeS)
    requires
        control.dataflow is OS,
    ensures
        spec_pe_next(row, data, control, state).compute_slot(control.propagate) == mac_result(
            row,
            data,
            control,
            state,
        ),
        spec_pe_next(row, data, control, state).preload_slot(control.propagate) == data.d,
{
}

} // verus!
