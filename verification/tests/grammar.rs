use webcalc::route::check_number_format;
use webcalc::route::match_route;

#[test]
fn number_tokens_accepted() {
    let good = [
        "0", "5", "12", "-0", "-7", "3.5", "0.25", "-12.75", "1e9", "1E9", "2e+3", "2e-3",
        "-1.5e10", "0e0", "10.125E-2",
    ];
    for t in good.iter() {
        assert!(check_number_format(t.as_bytes()), "{}", t);
    }
}

#[test]
fn number_tokens_rejected() {
    let bad = [
        "", "abc", "1.2.3", "+1", "01", "00", "1.", "-", ".5", "1e", "1e+", "--1", "1 ", " 1",
        "0x1", "NaN", "inf", "1..2", "1e5e5", "-.5",
    ];
    for t in bad.iter() {
        assert!(!check_number_format(t.as_bytes()), "{}", t);
    }
}

#[test]
fn route_extracts_segments() {
    let m = match_route(b"/plus/2/3").unwrap();
    assert_eq!(m.name, b"plus".to_vec());
    assert_eq!(m.first, b"2".to_vec());
    assert_eq!(m.second, b"3".to_vec());

    let m = match_route(b"/Div/-1.5e3/0.25").unwrap();
    assert_eq!(m.name, b"Div".to_vec());
    assert_eq!(m.first, b"-1.5e3".to_vec());
    assert_eq!(m.second, b"0.25".to_vec());
}

#[test]
fn route_rejects_other_shapes() {
    let bad = [
        "", "/", "/plus", "/plus/1", "/plus/1/2/3", "/plus/1/2/", "plus/1/2", "//1/2",
        "/plus//2", "/pl2us/1/2", "/plus/abc/2", "/plus/1/x", "/plus/1/2x", "/plus/+1/2",
        "/plus/01/2", "/ plus/1/2",
    ];
    for p in bad.iter() {
        assert!(match_route(p.as_bytes()).is_none(), "{}", p);
    }
}
