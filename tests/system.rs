use blinkt::system::{Error, Model, SoC, System};

fn detect(text: &str) -> Result<System, Error> {
    System::from_cpuinfo(text.as_bytes())
}

#[test]
fn new_style_revision_of_a_pi_3() {
    let text = "processor\t: 0\nmodel name\t: ARMv7 Processor rev 4 (v7l)\n\
                Hardware\t: BCM2835\nRevision\t: a02082\nSerial\t\t: 00000000\n";
    let s = detect(text).unwrap();
    assert_eq!(s.model, Model::RaspberryPi3B);
    assert_eq!(s.soc, SoC::BCM2837);
    assert_eq!(s.peripheral_base, 0x3f000000);
    assert_eq!(s.gpio_offset, 0x200000);
}

#[test]
fn new_style_revisions_of_other_models() {
    let cases = [
        ("900021", Model::RaspberryPiAPlus, SoC::BCM2835),
        ("a01041", Model::RaspberryPi2B, SoC::BCM2836),
        ("900092", Model::RaspberryPiZero, SoC::BCM2835),
        ("a02060", Model::RaspberryPiCompute, SoC::BCM2835),
        ("000000", Model::RaspberryPiA, SoC::BCM2835),
        ("000010", Model::RaspberryPiB, SoC::BCM2835),
        ("000030", Model::RaspberryPiBPlus, SoC::BCM2835),
    ];
    for (rev, model, soc) in cases {
        let text = format!("Hardware\t: BCM2709\nRevision\t: {}\n", rev);
        let s = detect(&text).unwrap();
        assert_eq!(s.model, model);
        assert_eq!(s.soc, soc);
    }
}

#[test]
fn old_style_revisions() {
    let cases = [
        ("0002", Model::RaspberryPiB),
        ("000e", Model::RaspberryPiB),
        ("0008", Model::RaspberryPiA),
        ("0012", Model::RaspberryPiAPlus),
        ("0010", Model::RaspberryPiBPlus),
        ("0013", Model::RaspberryPiBPlus),
        ("0011", Model::RaspberryPiCompute),
    ];
    for (rev, model) in cases {
        let text = format!("Hardware\t: BCM2708\nRevision\t: {}", rev);
        let s = detect(&text).unwrap();
        assert_eq!(s.model, model);
        assert_eq!(s.soc, SoC::BCM2835);
        assert_eq!(s.peripheral_base, 0x20000000);
    }
}

#[test]
fn unknown_soc_is_rejected() {
    assert_eq!(detect("Hardware\t: BCM2711\nRevision\t: a03111\n"), Err(Error::UnknownSoC));
    assert_eq!(detect(""), Err(Error::UnknownSoC));
    assert_eq!(detect("Hardware\t: BCM28350\nRevision\t: a02082\n"), Err(Error::UnknownSoC));
    assert_eq!(detect("Hardware: BCM2835\nRevision\t: a02082\n"), Err(Error::UnknownSoC));
}

#[test]
fn unknown_model_is_rejected() {
    assert_eq!(detect("Hardware\t: BCM2835\nRevision\t: a020d3\n"), Err(Error::UnknownModel));
    assert_eq!(detect("Hardware\t: BCM2835\nRevision\t: 00010\n"), Err(Error::UnknownModel));
    assert_eq!(detect("Hardware\t: BCM2835\nRevision\t: 0014\n"), Err(Error::UnknownModel));
    assert_eq!(detect("Hardware\t: BCM2835\n"), Err(Error::UnknownModel));
}

#[test]
fn last_matching_line_wins() {
    let text = "Hardware\t: BCM9999\nRevision\t: 0002\nHardware\t: BCM2836\nRevision\t: a21041\n";
    let s = detect(text).unwrap();
    assert_eq!(s.model, Model::RaspberryPi2B);
    assert_eq!(s.soc, SoC::BCM2836);
}

#[test]
fn models_map_to_their_soc() {
    assert_eq!(System::for_model(Model::Unknown), Err(Error::UnknownModel));
    let s = System::for_model(Model::RaspberryPiB).unwrap();
    assert_eq!(s.soc, SoC::BCM2835);
    assert_eq!(s.peripheral_base, 0x20000000);
    let s = System::for_model(Model::RaspberryPi3B).unwrap();
    assert_eq!(s.soc, SoC::BCM2837);
}
