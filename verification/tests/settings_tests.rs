use coe33_asr::settings::Settings;

#[test]
fn defaults_start_and_split_only() {
    let s = Settings::default();
    assert!(s.start);
    assert!(s.split);
    assert!(!s.reset);
    assert!(!s.ng_plus);
    assert!(!s.fw_goblu);
    assert!(!s.et_simon_tds);
}

#[test]
fn settings_are_looked_up_by_name() {
    let mut s = Settings::default();
    s.maelle_tutorial = true;
    s.et_simon_tds = true;
    assert!(s.enabled(&String::from("maelle_tutorial")));
    assert!(s.enabled(&String::from("et_simon_tds")));
    assert!(s.enabled(&String::from("start")));
    assert!(!s.enabled(&String::from("reset")));
    assert!(!s.enabled(&String::from("fw_goblu")));
    assert!(!s.enabled(&String::from("flw_goblu")));
    assert!(!s.enabled(&String::from("_act_1")));
    assert!(!s.enabled(&String::from("")));
}
