use hand2talk::store::VTLParams;
use hand2talk::vtl::{GlottisIdx, TractIdx, VTLParam, GLOTTIS_LEN, TRACT_LEN, UNIT};

#[test]
fn fresh_snapshot_holds_defaults_in_registry_order() {
    let p = VTLParams::new();
    let (tract, glottis) = p.snapshot();
    assert_eq!(
        tract,
        vec![
            1_000_000, -4_750_000, 0, -2_000_000, -70_000, 950_000, 0, -100_000, -400_000,
            -1_460_000, 3_500_000, -1_000_000, 2_000_000, 500_000, 0, 0, 0, 0, 0
        ]
    );
    assert_eq!(
        glottis,
        vec![
            120_000_000, 0, 10_000, 20_000, 50_000, 1_220_000, 1_000_000, 50_000, 0, 25_000_000,
            -10_000_000
        ]
    );
    assert_eq!(tract.len(), TRACT_LEN);
    assert_eq!(glottis.len(), GLOTTIS_LEN);
    assert_eq!(p.throat_state(), &tract[..]);
    assert_eq!(p.glottis_state(), &glottis[..]);
}

#[test]
fn in_range_write_is_affine() {
    let mut p = VTLParams::new();
    p.set_throat_value(TractIdx::TTX, 250_000);
    assert_eq!(p.throat_value(TractIdx::TTX), 2_500_000);
    p.set_glottis_value(GlottisIdx::F0, 500_000);
    assert_eq!(p.glottis_value(GlottisIdx::F0), 320_000_000);
    p.set_glottis_value(GlottisIdx::PL, UNIT);
    assert_eq!(p.glottis_value(GlottisIdx::PL), 3_141_500);
    p.set_throat_value(TractIdx::HY, 0);
    assert_eq!(p.throat_value(TractIdx::HY), -6_000_000);
}

#[test]
fn write_rounds_down_to_a_millionth() {
    let mut p = VTLParams::new();
    // 350_000 * 333_333 / 1_000_000 = 116_666.55
    p.set_glottis_value(GlottisIdx::XB, 333_333);
    assert_eq!(p.glottis_value(GlottisIdx::XB), -50_000 + 116_666);
}

#[test]
fn write_out_of_range_is_clamped() {
    let mut low = VTLParams::new();
    let mut zero = VTLParams::new();
    low.set_throat_value(TractIdx::LD, -5);
    zero.set_throat_value(TractIdx::LD, 0);
    assert_eq!(low.throat_value(TractIdx::LD), -2_000_000);
    assert_eq!(low.snapshot(), zero.snapshot());

    let mut high = VTLParams::new();
    let mut one = VTLParams::new();
    high.set_glottis_value(GlottisIdx::AS, i64::MAX);
    one.set_glottis_value(GlottisIdx::AS, UNIT);
    assert_eq!(high.glottis_value(GlottisIdx::AS), 0);
    assert_eq!(high.snapshot(), one.snapshot());

    let mut far_low = VTLParams::new();
    far_low.set_glottis_value(GlottisIdx::F0, i64::MIN);
    assert_eq!(far_low.glottis_value(GlottisIdx::F0), 40_000_000);
}

#[test]
fn write_touches_one_parameter() {
    let fresh = VTLParams::new();
    let mut p = VTLParams::new();
    p.set_throat_value(TractIdx::VO, UNIT);
    let (tract, glottis) = p.snapshot();
    let (fresh_tract, fresh_glottis) = fresh.snapshot();
    assert_eq!(glottis, fresh_glottis);
    for i in 0..TRACT_LEN {
        if i == 7 {
            assert_eq!(tract[i], 1_000_000);
        } else {
            assert_eq!(tract[i], fresh_tract[i]);
        }
    }
}

#[test]
fn descriptors_hold_the_registry() {
    let ld: VTLParam = TractIdx::LD.param();
    assert_eq!(ld.name, "LD");
    assert_eq!((ld.min, ld.max, ld.start_val), (-2_000_000, 4_000_000, 950_000));
    let pr = GlottisIdx::PR.param();
    assert_eq!(pr.name, "PR");
    assert_eq!((pr.min, pr.max, pr.start_val), (0, 20_000_000_000, 0));
    assert_eq!(ld.denormalise(UNIT / 2), 1_000_000);
    assert_eq!(ld.denormalise(-UNIT), -2_000_000);
    assert_eq!(ld.denormalise(3 * UNIT), 4_000_000);
}
