use hazardflow::gemmini::arithmetic::{
    clip_with_saturation, mac, resize_to_input, resize_to_output, rounding_shift, shift_and_clip,
    OUTPUT_MAX, OUTPUT_MIN,
};
use hazardflow::gemmini::pe::{
    pe, Dataflow, PeColControl, PeColData, PeControl, PeOut, PeRowData, PeS, Propagate,
};
use hazardflow::gemmini::transposer::{transposer_ctrl, transposer_pe, Dir, TransposerPeOut};

fn control(dataflow: Dataflow, propagate: Propagate, shift: u8) -> PeColControl {
    PeColControl { id: 1, last: false, control: PeControl { dataflow, propagate, shift } }
}

#[test]
fn resize_keeps_the_low_bits() {
    assert_eq!(resize_to_input(5), 5);
    assert_eq!(resize_to_input(-1), -1);
    assert_eq!(resize_to_input(0x7f), 127);
    assert_eq!(resize_to_input(0x80), -128);
    assert_eq!(resize_to_input(0x17f), 127);
    assert_eq!(resize_to_input(256), 0);
    assert_eq!(resize_to_input(i32::MIN), 0);
    assert_eq!(resize_to_input(i32::MAX), -1);

    assert_eq!(resize_to_output(5), 5);
    assert_eq!(resize_to_output(-1), -1);
    assert_eq!(resize_to_output(0x7_ffff), 524287);
    assert_eq!(resize_to_output(0x8_0000), -524288);
    assert_eq!(resize_to_output(0x10_0000), 0);
    assert_eq!(resize_to_output(i32::MIN), 0);
    assert_eq!(resize_to_output(i32::MAX), -1);
}

#[test]
fn clip_saturates_at_the_bounds() {
    assert_eq!(OUTPUT_MAX, 524287);
    assert_eq!(OUTPUT_MIN, -524288);
    assert_eq!(clip_with_saturation(0), 0);
    assert_eq!(clip_with_saturation(524287), 524287);
    assert_eq!(clip_with_saturation(524288), 524287);
    assert_eq!(clip_with_saturation(-524288), -524288);
    assert_eq!(clip_with_saturation(-524289), -524288);
    assert_eq!(clip_with_saturation(i64::MAX), 524287);
    assert_eq!(clip_with_saturation(i64::MIN), -524288);
}

#[test]
fn mac_multiplies_and_accumulates() {
    assert_eq!(mac(3, 4, 5), 17);
    assert_eq!(mac(-3, 4, 5), -7);
    assert_eq!(mac(-128, -128, 0), 16384);
    assert_eq!(mac(0, 0, -9), -9);
    // the sum leaves 20 bits: the low bits are kept
    assert_eq!(mac(127, 127, 524287), -508160);
    assert_eq!(mac(1, 1, i32::MAX), 0);
}

#[test]
fn rounding_shift_rounds_to_nearest_and_ties_to_even() {
    assert_eq!(rounding_shift(5, 1), 2);
    assert_eq!(rounding_shift(7, 1), 4);
    assert_eq!(rounding_shift(6, 2), 2);
    assert_eq!(rounding_shift(2, 2), 0);
    assert_eq!(rounding_shift(3, 2), 1);
    assert_eq!(rounding_shift(1000, 3), 125);
    assert_eq!(rounding_shift(1001, 3), 125);
    assert_eq!(rounding_shift(1004, 3), 126);
    assert_eq!(rounding_shift(1005, 3), 126);
    assert_eq!(rounding_shift(-5, 1), -2);
    assert_eq!(rounding_shift(-7, 1), -4);
    assert_eq!(rounding_shift(-3, 1), -2);
    assert_eq!(rounding_shift(-1, 1), 0);
    assert_eq!(rounding_shift(-1, 4), 0);
}

#[test]
fn rounding_shift_at_the_edges() {
    for v in [0, 1, -1, 12345, i32::MIN, i32::MAX] {
        assert_eq!(rounding_shift(v, 0), v);
    }
    assert_eq!(rounding_shift(i32::MAX, 1), 1073741824);
    assert_eq!(rounding_shift(i32::MIN, 1), -1073741824);
    assert_eq!(rounding_shift(i32::MAX, 31), 1);
    assert_eq!(rounding_shift(i32::MIN, 31), -1);
    assert_eq!(rounding_shift(0x4000_0000, 31), 0);
    assert_eq!(rounding_shift(0x4000_0001, 31), 1);
}

#[test]
fn shift_and_clip_shifts_then_clips() {
    assert_eq!(shift_and_clip(1000, 3), 125);
    assert_eq!(shift_and_clip(i32::MAX, 0), 524287);
    assert_eq!(shift_and_clip(i32::MIN, 0), -524288);
    assert_eq!(shift_and_clip(i32::MAX, 12), 524287);
    assert_eq!(shift_and_clip(i32::MAX, 13), 262144);
    assert_eq!(shift_and_clip(7, 1), 4);
}

#[test]
fn pe_state_constructors() {
    assert_eq!(PeS::default(), PeS { reg1: 0, reg2: 0, propagate: Propagate::Reg1 });
    assert_eq!(PeS::new(1, 2, Propagate::Reg2), PeS { reg1: 1, reg2: 2, propagate: Propagate::Reg2 });
    assert_eq!(
        PeS::new_os(10, 20, Propagate::Reg1),
        PeS { reg1: 10, reg2: 20, propagate: Propagate::Reg1 }
    );
    assert_eq!(
        PeS::new_os(10, 20, Propagate::Reg2),
        PeS { reg1: 20, reg2: 10, propagate: Propagate::Reg2 }
    );
    assert_eq!(
        PeS::new_ws(-3, 4, Propagate::Reg1),
        PeS { reg1: -3, reg2: 4, propagate: Propagate::Reg1 }
    );
    assert_eq!(
        PeS::new_ws(-3, 4, Propagate::Reg2),
        PeS { reg1: 4, reg2: -3, propagate: Propagate::Reg2 }
    );
    assert_eq!(Dataflow::default(), Dataflow::OS);
    assert_eq!(Propagate::default(), Propagate::Reg1);
}

#[test]
fn pe_without_valid_input_keeps_its_state() {
    let state = PeS::new(5, 6, Propagate::Reg2);
    let row = Some(PeRowData { a: 1 });
    let ctl = Some(control(Dataflow::OS, Propagate::Reg1, 0));
    assert_eq!(
        pe(None, (None, None), state),
        PeOut { out_right: None, out_bottom_data: None, out_bottom_control: None, next: state }
    );
    assert_eq!(
        pe(row, (None, ctl), state),
        PeOut { out_right: row, out_bottom_data: None, out_bottom_control: ctl, next: state }
    );
}

#[test]
fn pe_output_stationary_accumulates_in_place() {
    let ctl = control(Dataflow::OS, Propagate::Reg1, 0);
    let state = PeS::default();
    let out = pe(Some(PeRowData { a: 2 }), (Some(PeColData { b: 3, d: 10 }), Some(ctl)), state);
    assert_eq!(out.out_right, Some(PeRowData { a: 2 }));
    assert_eq!(out.out_bottom_control, Some(ctl));
    assert_eq!(out.out_bottom_data, Some(PeColData { b: 3, d: 0 }));
    assert_eq!(out.next, PeS { reg1: 10, reg2: 6, propagate: Propagate::Reg1 });

    let out = pe(Some(PeRowData { a: -1 }), (Some(PeColData { b: 4, d: 0 }), Some(ctl)), out.next);
    assert_eq!(out.out_bottom_data, Some(PeColData { b: 4, d: 10 }));
    assert_eq!(out.next, PeS { reg1: 0, reg2: 2, propagate: Propagate::Reg1 });
}

#[test]
fn pe_output_stationary_shifts_the_result_when_propagate_changes() {
    let state = PeS { reg1: 0, reg2: 7, propagate: Propagate::Reg1 };
    let ctl = control(Dataflow::OS, Propagate::Reg2, 1);
    let out = pe(Some(PeRowData { a: 2 }), (Some(PeColData { b: 3, d: 100 }), Some(ctl)), state);
    // register 2 is now preloaded: its old value leaves, shifted by one bit and rounded
    assert_eq!(out.out_bottom_data, Some(PeColData { b: 3, d: 4 }));
    // register 1 accumulates: 0 + 2 * 3
    assert_eq!(out.next, PeS { reg1: 6, reg2: 100, propagate: Propagate::Reg2 });

    // with the same propagate value as before nothing is shifted
    let same = PeS { reg1: 0, reg2: 7, propagate: Propagate::Reg2 };
    let out = pe(Some(PeRowData { a: 2 }), (Some(PeColData { b: 3, d: 100 }), Some(ctl)), same);
    assert_eq!(out.out_bottom_data, Some(PeColData { b: 3, d: 7 }));
}

#[test]
fn pe_output_stationary_clips_what_leaves() {
    let state = PeS { reg1: i32::MAX, reg2: 0, propagate: Propagate::Reg1 };
    let ctl = control(Dataflow::OS, Propagate::Reg1, 0);
    let out = pe(Some(PeRowData { a: 0 }), (Some(PeColData { b: 0, d: 0 }), Some(ctl)), state);
    assert_eq!(out.out_bottom_data, Some(PeColData { b: 0, d: 524287 }));
}

#[test]
fn pe_weight_stationary_passes_the_sum_down() {
    let state = PeS { reg1: 5, reg2: 3, propagate: Propagate::Reg1 };
    let ctl = control(Dataflow::WS, Propagate::Reg1, 0);
    let out = pe(Some(PeRowData { a: 2 }), (Some(PeColData { b: 100, d: 9 }), Some(ctl)), state);
    assert_eq!(out.out_bottom_data, Some(PeColData { b: 106, d: 5 }));
    assert_eq!(out.next, PeS { reg1: 9, reg2: 3, propagate: Propagate::Reg1 });

    let ctl = control(Dataflow::WS, Propagate::Reg2, 0);
    let out = pe(Some(PeRowData { a: 2 }), (Some(PeColData { b: 100, d: 9 }), Some(ctl)), state);
    // register 1 now holds the weight
    assert_eq!(out.out_bottom_data, Some(PeColData { b: 110, d: 3 }));
    assert_eq!(out.next, PeS { reg1: 5, reg2: 9, propagate: Propagate::Reg2 });
}

#[test]
fn pe_weight_stationary_keeps_the_low_bits_of_what_it_loads() {
    let state = PeS { reg1: 0x1_0000_5, reg2: 0x17f, propagate: Propagate::Reg1 };
    let ctl = control(Dataflow::WS, Propagate::Reg1, 0);
    let out = pe(Some(PeRowData { a: 1 }), (Some(PeColData { b: 0, d: 0x180 }), Some(ctl)), state);
    assert_eq!(out.out_bottom_data, Some(PeColData { b: 127, d: 5 }));
    assert_eq!(out.next, PeS { reg1: -128, reg2: 127, propagate: Propagate::Reg1 });
}

#[test]
fn direction_flips() {
    assert_eq!(Dir::default(), Dir::Row);
    assert_eq!(Dir::Row.flip(), Dir::Col);
    assert_eq!(Dir::Col.flip(), Dir::Row);
    assert_eq!(Dir::Row.flip().flip(), Dir::Row);
}

#[test]
fn transposer_cell_latches_the_selected_side() {
    assert_eq!(
        transposer_pe(Some(1), (Some(2), Some(Dir::Row)), Some(9)),
        TransposerPeOut { out_row: Some(9), out_col: Some(9), out_dir: Some(Dir::Row), next: Some(1) }
    );
    assert_eq!(
        transposer_pe(Some(1), (Some(2), Some(Dir::Col)), None),
        TransposerPeOut { out_row: None, out_col: None, out_dir: Some(Dir::Col), next: Some(2) }
    );
    assert_eq!(
        transposer_pe(Some(1), (Some(2), None), Some(9)),
        TransposerPeOut { out_row: Some(9), out_col: Some(9), out_dir: None, next: None }
    );
    assert_eq!(transposer_pe(None, (Some(2), Some(Dir::Row)), None).next, None);
}

#[test]
fn transposer_control_flips_after_each_matrix() {
    let mut s = (0usize, Dir::default());
    let mut dirs = Vec::new();
    for _ in 0..9 {
        let (dir, next) = transposer_ctrl::<4>(s);
        dirs.push(dir);
        s = next;
    }
    assert_eq!(
        dirs,
        vec![Dir::Row, Dir::Row, Dir::Row, Dir::Row, Dir::Col, Dir::Col, Dir::Col, Dir::Col, Dir::Row]
    );
    assert_eq!(s, (1, Dir::Row));
    assert_eq!(transposer_ctrl::<1>((0, Dir::Row)), (Dir::Row, (0, Dir::Col)));
    assert_eq!(transposer_ctrl::<16>((14, Dir::Col)), (Dir::Col, (15, Dir::Col)));
    assert_eq!(transposer_ctrl::<16>((15, Dir::Col)), (Dir::Col, (0, Dir::Row)));
}
