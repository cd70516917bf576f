use dke_sim::schema::state_vec_header;
use dke_sim::schema::STATE_VEC_NUM_ELEMENTS;
use dke_sim::schema::STATE_VEC_INDX_SIM_TIME;
use dke_sim::schema::STATE_VEC_INDX_POS_X;
use dke_sim::schema::STATE_VEC_INDX_POS_Y;
use dke_sim::schema::STATE_VEC_INDX_POS_Z;
use dke_sim::schema::STATE_VEC_INDX_VEL_X;
use dke_sim::schema::STATE_VEC_INDX_VEL_Y;
use dke_sim::schema::STATE_VEC_INDX_VEL_Z;
use dke_sim::schema::STATE_VEC_INDX_ACC_X;
use dke_sim::schema::STATE_VEC_INDX_ACC_Y;
use dke_sim::schema::STATE_VEC_INDX_ACC_Z;
use dke_sim::schema::STATE_VEC_INDX_ATTQ_X;
use dke_sim::schema::STATE_VEC_INDX_ATTQ_Y;
use dke_sim::schema::STATE_VEC_INDX_ATTQ_Z;
use dke_sim::schema::STATE_VEC_INDX_ATTQ_W;
use dke_sim::schema::STATE_VEC_INDX_ATTRATE_X;
use dke_sim::schema::STATE_VEC_INDX_ATTRATE_Y;
use dke_sim::schema::STATE_VEC_INDX_ATTRATE_Z;
use dke_sim::schema::STATE_VEC_INDX_ATTACC_X;
use dke_sim::schema::STATE_VEC_INDX_ATTACC_Y;
use dke_sim::schema::STATE_VEC_INDX_ATTACC_Z;
use dke_sim::schema::STATE_VEC_INDX_MASS;
use dke_sim::schema::STATE_VEC_INDX_J2000_S;
use dke_sim::schema::STATE_VEC_INDX_ALTITUDE_PCPF_M;
use dke_sim::schema::STATE_VEC_INDX_POS_PCPF_LAT_DEG;
use dke_sim::schema::STATE_VEC_INDX_POS_PCPF_LONG_DEG;
use dke_sim::schema::STATE_VEC_INDX_GRAV_ACC_MSS;
use dke_sim::schema::STATE_VEC_INDX_GAST_DEG;
use dke_sim::schema::STATE_VEC_INDX_VEL_MAGN_PCI_MS;
use dke_sim::schema::STATE_VEC_INDX_ATMOS_DENSITY;
use dke_sim::schema::STATE_VEC_INDX_AERO_FORCE_X;
use dke_sim::schema::STATE_VEC_INDX_AERO_FORCE_Y;
use dke_sim::schema::STATE_VEC_INDX_AERO_FORCE_Z;
use dke_sim::schema::STATE_VEC_INDX_DRAG_COEFF;
use dke_sim::schema::STATE_VEC_INDX_BALLISTIC_COEFF;
use dke_sim::schema::VEC_X;
use dke_sim::schema::VEC_Y;
use dke_sim::schema::VEC_Z;

#[test]
fn schema_indices_cover_the_range_once() {
    let indices = [
        STATE_VEC_INDX_SIM_TIME,
        STATE_VEC_INDX_POS_X,
        STATE_VEC_INDX_POS_Y,
        STATE_VEC_INDX_POS_Z,
        STATE_VEC_INDX_VEL_X,
        STATE_VEC_INDX_VEL_Y,
        STATE_VEC_INDX_VEL_Z,
        STATE_VEC_INDX_ACC_X,
        STATE_VEC_INDX_ACC_Y,
        STATE_VEC_INDX_ACC_Z,
        STATE_VEC_INDX_ATTQ_X,
        STATE_VEC_INDX_ATTQ_Y,
        STATE_VEC_INDX_ATTQ_Z,
        STATE_VEC_INDX_ATTQ_W,
        STATE_VEC_INDX_ATTRATE_X,
        STATE_VEC_INDX_ATTRATE_Y,
        STATE_VEC_INDX_ATTRATE_Z,
        STATE_VEC_INDX_ATTACC_X,
        STATE_VEC_INDX_ATTACC_Y,
        STATE_VEC_INDX_ATTACC_Z,
        STATE_VEC_INDX_MASS,
        STATE_VEC_INDX_J2000_S,
        STATE_VEC_INDX_ALTITUDE_PCPF_M,
        STATE_VEC_INDX_POS_PCPF_LAT_DEG,
        STATE_VEC_INDX_POS_PCPF_LONG_DEG,
        STATE_VEC_INDX_GRAV_ACC_MSS,
        STATE_VEC_INDX_GAST_DEG,
        STATE_VEC_INDX_VEL_MAGN_PCI_MS,
        STATE_VEC_INDX_ATMOS_DENSITY,
        STATE_VEC_INDX_AERO_FORCE_X,
        STATE_VEC_INDX_AERO_FORCE_Y,
        STATE_VEC_INDX_AERO_FORCE_Z,
        STATE_VEC_INDX_DRAG_COEFF,
        STATE_VEC_INDX_BALLISTIC_COEFF,
    ];
    assert_eq!(indices.len(), STATE_VEC_NUM_ELEMENTS);
    for (position, index) in indices.iter().enumerate() {
        assert_eq!(*index, position);
    }
}

#[test]
fn header_matches_schema_order() {
    let header = state_vec_header();
    assert_eq!(header.len(), STATE_VEC_NUM_ELEMENTS);
    assert_eq!(header[STATE_VEC_INDX_SIM_TIME], "sim_time_s");
    assert_eq!(header[STATE_VEC_INDX_MASS], "mass_kg");
    assert_eq!(header[STATE_VEC_INDX_ALTITUDE_PCPF_M], "altitude_pcpf_m");
    assert_eq!(header[STATE_VEC_INDX_GAST_DEG], "gast_deg");
    assert_eq!(header[STATE_VEC_INDX_BALLISTIC_COEFF], "ballistic_coeff_kgmm");
}

#[test]
fn cartesian_indices() {
    assert_eq!(VEC_X, 0);
    assert_eq!(VEC_Y, 1);
    assert_eq!(VEC_Z, 2);
}
