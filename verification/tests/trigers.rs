use plc_runtime::pls_std::FTrig;
use plc_runtime::pls_std::RTrig;
use plc_runtime::pls_std::Rs;

#[test]
fn test_r_trig() {
    let mut resutl: Vec<bool> = vec![];

    let mut trig = RTrig::new();

    for i in [false, true, true, true, false, false, true, true] {
        trig.run(i);
        resutl.push(trig.get_q());
    }

    let expect = [false, true, false, false, false, false, true, false];

    assert_eq!(resutl, expect);
}

#[test]
fn test_f_trig() {
    let mut resutl: Vec<bool> = vec![];

    let mut trig = FTrig::new();

    for i in [false, true, false, true, false, false, true, true] {
        trig.run(i);
        resutl.push(trig.get_q());
    }

    let expect = [false, false, true, false, true, false, false, false];

    assert_eq!(resutl, expect);
}

#[test]
fn test_rs_trig() {
    let mut resutl: Vec<bool> = vec![];

    let mut trig = Rs::new();

    for i in 0..16 {
        let set = i % 2 == 0;
        let reset = i % 3 == 0;
        trig.run(set, reset);
        resutl.push(trig.get_q());
    }

    let expect = [
        false, false, true, false, true, true, false, false, true, false, true, true, false,
        false, true, false,
    ];

    assert_eq!(resutl, expect);
}
