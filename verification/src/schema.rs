//! Layout of the full state vector.
//!
//! Every producer and consumer of a simulation record indexes the same
//! fixed-length vector through the constants below.  The index assignment is
//! a total bijection onto `0 .. STATE_VEC_NUM_ELEMENTS`; the proof at the end
//! of this module pins that down so a schema change cannot silently leave a
//! hole or a collision.

use vstd::prelude::*;

verus! {

/// Number of elements in the full state vector.
pub const STATE_VEC_NUM_ELEMENTS: usize = 34;

pub const STATE_VEC_INDX_SIM_TIME: usize = 0;
pub const STATE_VEC_INDX_POS_X: usize = 1;
pub const STATE_VEC_INDX_POS_Y: usize = 2;
pub const STATE_VEC_INDX_POS_Z: usize = 3;
pub const STATE_VEC_INDX_VEL_X: usize = 4;
pub const STATE_VEC_INDX_VEL_Y: usize = 5;
pub const STATE_VEC_INDX_VEL_Z: usize = 6;
pub const STATE_VEC_INDX_ACC_X: usize = 7;
pub const STATE_VEC_INDX_ACC_Y: usize = 8;
pub const STATE_VEC_INDX_ACC_Z: usize = 9;
pub const STATE_VEC_INDX_ATTQ_X: usize = 10;
pub const STATE_VEC_INDX_ATTQ_Y: usize = 11;
pub const STATE_VEC_INDX_ATTQ_Z: usize = 12;
pub const STATE_VEC_INDX_ATTQ_W: usize = 13;
pub const STATE_VEC_INDX_ATTRATE_X: usize = 14;
pub const STATE_VEC_INDX_ATTRATE_Y: usize = 15;
pub const STATE_VEC_INDX_ATTRATE_Z: usize = 16;
pub const STATE_VEC_INDX_ATTACC_X: usize = 17;
pub const STATE_VEC_INDX_ATTACC_Y: usize = 18;
pub const STATE_VEC_INDX_ATTACC_Z: usize = 19;
pub const STATE_VEC_INDX_MASS: usize = 20;
pub const STATE_VEC_INDX_J2000_S: usize = 21;
pub const STATE_VEC_INDX_ALTITUDE_PCPF_M: usize = 22;
pub const STATE_VEC_INDX_POS_PCPF_LAT_DEG: usize = 23;
pub const STATE_VEC_INDX_POS_PCPF_LONG_DEG: usize = 24;
pub const STATE_VEC_INDX_GRAV_ACC_MSS: usize = 25;
pub const STATE_VEC_INDX_GAST_DEG: usize = 26;
pub const STATE_VEC_INDX_VEL_MAGN_PCI_MS: usize = 27;
pub const STATE_VEC_INDX_ATMOS_DENSITY: usize = 28;
pub const STATE_VEC_INDX_AERO_FORCE_X: usize = 29;
pub const STATE_VEC_INDX_AERO_FORCE_Y: usize = 30;
pub const STATE_VEC_INDX_AERO_FORCE_Z: usize = 31;
pub const STATE_VEC_INDX_DRAG_COEFF: usize = 32;
pub const STATE_VEC_INDX_BALLISTIC_COEFF: usize = 33;

/// Indices of the x, y and z entries of a cartesian vector.
pub const VEC_X: usize = 0;
pub const VEC_Y: usize = 1;
pub const VEC_Z: usize = 2;

/// The schema indices in field order.
pub open spec fn schema_indices() -> Seq<int> {
    seq![
        STATE_VEC_INDX_SIM_TIME as int,
        STATE_VEC_INDX_POS_X as int,
        STATE_VEC_INDX_POS_Y as int,
        STATE_VEC_INDX_POS_Z as int,
        STATE_VEC_INDX_VEL_X as int,
        STATE_VEC_INDX_VEL_Y as int,
        STATE_VEC_INDX_VEL_Z as int,
        STATE_VEC_INDX_ACC_X as int,
        STATE_VEC_INDX_ACC_Y as int,
        STATE_VEC_INDX_ACC_Z as int,
        STATE_VEC_INDX_ATTQ_X as int,
        STATE_VEC_INDX_ATTQ_Y as int,
        STATE_VEC_INDX_ATTQ_Z as int,
        STATE_VEC_INDX_ATTQ_W as int,
        STATE_VEC_INDX_ATTRATE_X as int,
        STATE_VEC_INDX_ATTRATE_Y as int,
        STATE_VEC_INDX_ATTRATE_Z as int,
        STATE_VEC_INDX_ATTACC_X as int,
        STATE_VEC_INDX_ATTACC_Y as int,
        STATE_VEC_INDX_ATTACC_Z as int,
        STATE_VEC_INDX_MASS as int,
        STATE_VEC_INDX_J2000_S as int,
        STATE_VEC_INDX_ALTITUDE_PCPF_M as int,
        STATE_VEC_INDX_POS_PCPF_LAT_DEG as int,
        STATE_VEC_INDX_POS_PCPF_LONG_DEG as int,
        STATE_VEC_INDX_GRAV_ACC_MSS as int,
        STATE_VEC_INDX_GAST_DEG as int,
        STATE_VEC_INDX_VEL_MAGN_PCI_MS as int,
        STATE_VEC_INDX_ATMOS_DENSITY as int,
        STATE_VEC_INDX_AERO_FORCE_X as int,
        STATE_VEC_INDX_AERO_FORCE_Y as int,
        STATE_VEC_INDX_AERO_FORCE_Z as int,
        STATE_VEC_INDX_DRAG_COEFF as int,
        STATE_VEC_INDX_BALLISTIC_COEFF as int,
    ]
}

/// The column labels of an archive row, one per state-vector field, in
/// schema order.
pub fn state_vec_header() -> (v: Vec<&'static str>)
    ensures
        v@.len() == STATE_VEC_NUM_ELEMENTS,
        v@[STATE_VEC_INDX_SIM_TIME as int]@ == "sim_time_s"@,
        v@[STATE_VEC_INDX_POS_X as int]@ == "pos_x_pci"@,
        v@[STATE_VEC_INDX_POS_Y as int]@ == "pos_y_pci"@,
        v@[STATE_VEC_INDX_POS_Z as int]@ == "pos_z_pci"@,
        v@[STATE_VEC_INDX_VEL_X as int]@ == "vel_x_pci"@,
        v@[STATE_VEC_INDX_VEL_Y as int]@ == "vel_y_pci"@,
        v@[STATE_VEC_INDX_VEL_Z as int]@ == "vel_z_pci"@,
        v@[STATE_VEC_INDX_ACC_X as int]@ == "acc_x_pci"@,
        v@[STATE_VEC_INDX_ACC_Y as int]@ == "acc_y_pci"@,
        v@[STATE_VEC_INDX_ACC_Z as int]@ == "acc_z_pci"@,
        v@[STATE_VEC_INDX_ATTQ_X as int]@ == "att_q_x_pci2sbf"@,
        v@[STATE_VEC_INDX_ATTQ_Y as int]@ == "att_q_y_pci2sbf"@,
        v@[STATE_VEC_INDX_ATTQ_Z as int]@ == "att_q_z_pci2sbf"@,
        v@[STATE_VEC_INDX_ATTQ_W as int]@ == "att_q_w_pci2sbf"@,
        v@[STATE_VEC_INDX_ATTRATE_X as int]@ == "att_rate_x_sbf"@,
        v@[STATE_VEC_INDX_ATTRATE_Y as int]@ == "att_rate_y_sbf"@,
        v@[STATE_VEC_INDX_ATTRATE_Z as int]@ == "att_rate_z_sbf"@,
        v@[STATE_VEC_INDX_ATTACC_X as int]@ == "att_acc_x_sbf"@,
        v@[STATE_VEC_INDX_ATTACC_Y as int]@ == "att_acc_y_sbf"@,
        v@[STATE_VEC_INDX_ATTACC_Z as int]@ == "att_acc_z_sbf"@,
        v@[STATE_VEC_INDX_MASS as int]@ == "mass_kg"@,
        v@[STATE_VEC_INDX_J2000_S as int]@ == "j2000_times_s"@,
        v@[STATE_VEC_INDX_ALTITUDE_PCPF_M as int]@ == "altitude_pcpf_m"@,
        v@[STATE_VEC_INDX_POS_PCPF_LAT_DEG as int]@ == "latitude_pcpf_deg"@,
        v@[STATE_VEC_INDX_POS_PCPF_LONG_DEG as int]@ == "longitude_pcpf_deg"@,
        v@[STATE_VEC_INDX_GRAV_ACC_MSS as int]@ == "magn_grav_acc_mss"@,
        v@[STATE_VEC_INDX_GAST_DEG as int]@ == "gast_deg"@,
        v@[STATE_VEC_INDX_VEL_MAGN_PCI_MS as int]@ == "vel_magn_pci_ms"@,
        v@[STATE_VEC_INDX_ATMOS_DENSITY as int]@ == "atmos_density_kgmmm"@,
        v@[STATE_VEC_INDX_AERO_FORCE_X as int]@ == "aero_force_pci_n_x"@,
        v@[STATE_VEC_INDX_AERO_FORCE_Y as int]@ == "aero_force_pci_n_y"@,
        v@[STATE_VEC_INDX_AERO_FORCE_Z as int]@ == "aero_force_pci_n_z"@,
        v@[STATE_VEC_INDX_DRAG_COEFF as int]@ == "aero_drag_coeff"@,
        v@[STATE_VEC_INDX_BALLISTIC_COEFF as int]@ == "ballistic_coeff_kgmm"@,
{
    let mut v: Vec<&'static str> = Vec::new();
    v.push("sim_time_s");
    v.push("pos_x_pci");
    v.push("pos_y_pci");
    v.push("pos_z_pci");
    v.push("vel_x_pci");
    v.push("vel_y_pci");
    v.push("vel_z_pci");
    v.push("acc_x_pci");
    v.push("acc_y_pci");
    v.push("acc_z_pci");
    v.push("att_q_x_pci2sbf");
    v.push("att_q_y_pci2sbf");
    v.push("att_q_z_pci2sbf");
    v.push("att_q_w_pci2sbf");
    v.push("att_rate_x_sbf");
    v.push("att_rate_y_sbf");
    v.push("att_rate_z_sbf");
    v.push("att_acc_x_sbf");
    v.push("att_acc_y_sbf");
    v.push("att_acc_z_sbf");
    v.push("mass_kg");
    v.push("j2000_times_s");
    v.push("altitude_pcpf_m");
    v.push("latitude_pcpf_deg");
    v.push("longitude_pcpf_deg");
    v.push("magn_grav_acc_mss");
    v.push("gast_deg");
    v.push("vel_magn_pci_ms");
    v.push("atmos_density_kgmmm");
    v.push("aero_force_pci_n_x");
    v.push("aero_force_pci_n_y");
    v.push("aero_force_pci_n_z");
    v.push("aero_drag_coeff");
    v.push("ballistic_coeff_kgmm");
    v
}

/// The schema is a total bijection: the 34 field constants enumerate the
/// positions `0 .. STATE_VEC_NUM_ELEMENTS` exactly once each, in order.
pub proof fn lemma_schema_is_total_bijection()
    ensures
        schema_indices().len() == STATE_VEC_NUM_ELEMENTS,
        forall|i: int|
            0 <= i < STATE_VEC_NUM_ELEMENTS ==> #[trigger] schema_indices()[i] == i,
{
    assert forall|i: int| 0 <= i < STATE_VEC_NUM_ELEMENTS implies #[trigger] schema_indices()[i]
        == i by {
        reveal(schema_indices);
    }
}

} // verus!
