use hand2talk::engine::{EnginePhase, VTLApi, INIT_FAILED};
use hand2talk::store::VTLParams;

#[test]
fn failed_initialisation_gives_no_handle() {
    assert!(VTLApi::new(INIT_FAILED).is_none());
    assert!(VTLApi::new(0).is_some());
    assert!(VTLApi::new(-3).is_some());
}

#[test]
fn reset_with_defaults_then_zero_sample_request_is_taken() {
    let params = VTLParams::new();
    let mut api = VTLApi::new(0).unwrap();
    assert!(api.auto_calc_tr(true));
    assert!(api.reset(params.throat_state(), params.glottis_state()));
    assert_eq!(api.current_phase(), EnginePhase::Reset);
    assert_eq!(api.add_tract(0, params.throat_state(), params.glottis_state()), Some(0));
    assert_eq!(api.current_phase(), EnginePhase::Streaming);
    assert_eq!(api.add_tract(512, params.throat_state(), params.glottis_state()), Some(512));
}

#[test]
fn synthesis_before_reset_is_refused() {
    let params = VTLParams::new();
    let mut api = VTLApi::new(0).unwrap();
    assert_eq!(api.add_tract(0, params.throat_state(), params.glottis_state()), None);
    assert_eq!(api.current_phase(), EnginePhase::Initialized);
}

#[test]
fn reset_is_taken_once_and_only_with_full_vectors() {
    let params = VTLParams::new();
    let mut api = VTLApi::new(0).unwrap();
    assert!(!api.reset(&params.throat_state()[1..], params.glottis_state()));
    assert!(api.reset(params.throat_state(), params.glottis_state()));
    assert!(!api.reset(params.throat_state(), params.glottis_state()));
    assert!(api.auto_calc_tr(false));
    assert_eq!(api.current_phase(), EnginePhase::Reset);
}

#[test]
fn oversized_request_is_refused() {
    let params = VTLParams::new();
    let mut api = VTLApi::new(0).unwrap();
    assert!(api.reset(params.throat_state(), params.glottis_state()));
    let (tract, glottis) = params.snapshot();
    assert_eq!(api.add_tract(i32::MAX as usize + 1, &tract, &glottis), None);
    assert_eq!(api.add_tract(10, &tract, &glottis[..3]), None);
    assert_eq!(api.current_phase(), EnginePhase::Reset);
}

#[test]
fn close_waits_for_the_stream_to_stop() {
    let params = VTLParams::new();
    let mut api = VTLApi::new(0).unwrap();
    assert!(api.reset(params.throat_state(), params.glottis_state()));
    assert_eq!(api.add_tract(64, params.throat_state(), params.glottis_state()), Some(64));
    assert!(!api.close());
    assert_eq!(api.current_phase(), EnginePhase::Streaming);
    assert!(api.stop());
    assert_eq!(api.add_tract(64, params.throat_state(), params.glottis_state()), None);
    assert!(!api.auto_calc_tr(true));
    assert!(api.close());
    assert_eq!(api.current_phase(), EnginePhase::Closed);
    assert!(!api.close());
    assert!(!api.stop());
}
