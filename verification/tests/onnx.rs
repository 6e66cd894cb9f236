use open_clip_inference::onnx::{builder_settings, OnnxSession, OptimizationLevel, SessionSetting};

fn session(names: &[&str]) -> OnnxSession {
    OnnxSession::new(names.iter().map(|s| s.to_string()).collect(), Vec::new(), None, None, None, None)
}

#[test]
fn has_input_checks_names() {
    let s = session(&["input_ids", "pixel_values"]);
    assert!(s.has_input("pixel_values"));
    assert!(s.has_input("input_ids"));
    assert!(!s.has_input("pixel"));
    assert!(!s.has_input(""));
    assert!(!session(&[]).has_input("input"));
}

#[test]
fn find_input_prefers_earlier_possibility() {
    let s = session(&["input", "pixel_values"]);
    assert_eq!(s.find_input(&["pixel_values", "input"]), Some("pixel_values".to_string()));
    assert_eq!(s.find_input(&["input", "pixel_values"]), Some("input".to_string()));
    assert_eq!(s.find_input(&["image", "input"]), Some("input".to_string()));
    assert_eq!(s.find_input(&["image", "text"]), None);
    assert_eq!(s.find_input(&[]), None);
}

#[test]
fn find_input_result_is_an_input() {
    let s = session(&["a", "b", "c"]);
    let possibilities = ["x", "c", "b"];
    let found = s.find_input(&possibilities).unwrap();
    assert!(s.has_input(&found));
    assert_eq!(found, "c");
}

#[test]
fn settings_follow_builder_order() {
    assert_eq!(builder_settings(None, None, None, None), vec![SessionSetting::ExecutionProviders]);
    assert_eq!(
        builder_settings(Some(OptimizationLevel::Level3), Some(4), Some(2), Some(false)),
        vec![
            SessionSetting::ExecutionProviders,
            SessionSetting::OptimizationLevel(OptimizationLevel::Level3),
            SessionSetting::IntraThreads(4),
            SessionSetting::InterThreads(2),
            SessionSetting::MemoryPattern(false),
        ]
    );
    let s = OnnxSession::new(vec![], Vec::new(), None, Some(2), None, Some(true));
    assert_eq!(
        s.settings(),
        vec![SessionSetting::ExecutionProviders, SessionSetting::IntraThreads(2), SessionSetting::MemoryPattern(true)]
    );
}
