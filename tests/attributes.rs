use nvmet::{IoError, IoErrorKind, ParseError, Port, ReadError, Subsystem};

fn ok(s: &str) -> Result<String, IoError> {
    Ok(s.to_string())
}

fn subsystem() -> Subsystem {
    Subsystem::open("nqn.test-1".to_string())
}

#[test]
fn enable_round_trips_both_values() {
    let ns = subsystem().namespace(1);
    for b in [true, false] {
        let w = ns.set_enable(b);
        assert_eq!(w.path, "/sys/kernel/config/nvmet/subsystems/nqn.test-1/namespaces/1/enable");
        assert_eq!(ns.enable(Ok(w.text)), Ok(b));
    }
}

#[test]
fn boolean_text_is_one_or_zero() {
    let ns = subsystem().namespace(1);
    assert_eq!(ns.set_enable(true).text, "1\n");
    assert_eq!(ns.set_enable(false).text, "0\n");
    assert_eq!(ns.enable(ok("1\n")), Ok(true));
    assert_eq!(ns.enable(ok("0\n")), Ok(false));
}

#[test]
fn boolean_rejects_other_text() {
    let ns = subsystem().namespace(1);
    for t in ["2\n", "\n", "true\n", "01\n", "+1\n", "11\n"] {
        assert_eq!(ns.enable(ok(t)), Err(ReadError::Parse(ParseError::InvalidBool)), "{:?}", t);
    }
    let s = subsystem();
    assert_eq!(s.attr_allow_any_host(ok("yes\n")), Err(ReadError::Parse(ParseError::InvalidBool)));
}

#[test]
fn allow_any_host_round_trips() {
    let s = subsystem();
    for b in [true, false] {
        let w = s.set_attr_allow_any_host(b);
        assert_eq!(w.path, "/sys/kernel/config/nvmet/subsystems/nqn.test-1/attr_allow_any_host");
        assert_eq!(s.attr_allow_any_host(Ok(w.text)), Ok(b));
    }
}

#[test]
fn read_failure_is_passed_on() {
    let ns = subsystem().namespace(2);
    let e = IoError { kind: IoErrorKind::PermissionDenied, os_code: Some(13) };
    assert_eq!(ns.enable(Err(e)), Err(ReadError::Io(e)));
    assert_eq!(ns.ana_grpid(Err(e)), Err(ReadError::Io(e)));
    assert_eq!(ns.device_uuid(Err(e)), Err(ReadError::Io(e)));
    assert_eq!(ns.device_path(Err(e)), Err(e));
    assert_eq!(subsystem().attr_serial(Err(e)), Err(e));
}

#[test]
fn ana_grpid_round_trips() {
    let ns = subsystem().namespace(5);
    for n in [0u32, 1, 9, 10, 99, 100, 12345, u32::MAX - 1, u32::MAX] {
        let w = ns.set_ana_grpid(n);
        assert_eq!(w.text, format!("{}\n", n));
        assert_eq!(w.path, "/sys/kernel/config/nvmet/subsystems/nqn.test-1/namespaces/5/ana_grpid");
        assert_eq!(ns.ana_grpid(Ok(w.text)), Ok(n));
    }
}

#[test]
fn cntlid_round_trips() {
    let s = subsystem();
    for n in [0u16, 1, 7, 65534, u16::MAX] {
        let w = s.set_attr_cntlid_min(n);
        assert_eq!(w.text, format!("{}\n", n));
        assert_eq!(s.attr_cntlid_min(Ok(w.text)), Ok(n));
        let w = s.set_attr_cntlid_max(n);
        assert_eq!(w.path, "/sys/kernel/config/nvmet/subsystems/nqn.test-1/attr_cntlid_max");
        assert_eq!(s.attr_cntlid_max(Ok(w.text)), Ok(n));
    }
}

#[test]
fn unsigned_parse_errors_match_std() {
    let ns = subsystem().namespace(1);
    let cases = [
        "", "\n", "+", "-", "-1", "+7", "12a", "a12", "4294967295", "4294967296",
        "99999999999x", "4294967295x", " 42 \n", "0042", "1 2",
    ];
    for t in cases {
        let expected = match t.trim().parse::<u32>() {
            Ok(v) => Ok(v),
            Err(e) => Err(ReadError::Parse(match e.kind() {
                std::num::IntErrorKind::Empty => ParseError::Empty,
                std::num::IntErrorKind::PosOverflow => ParseError::PosOverflow,
                _ => ParseError::InvalidDigit,
            })),
        };
        assert_eq!(ns.ana_grpid(ok(t)), expected, "{:?}", t);
    }
}

#[test]
fn unsigned_parse_error_kinds() {
    let s = subsystem();
    assert_eq!(s.attr_cntlid_max(ok("\n")), Err(ReadError::Parse(ParseError::Empty)));
    assert_eq!(s.attr_cntlid_max(ok("65536\n")), Err(ReadError::Parse(ParseError::PosOverflow)));
    assert_eq!(s.attr_cntlid_max(ok("6x\n")), Err(ReadError::Parse(ParseError::InvalidDigit)));
    assert_eq!(s.attr_cntlid_max(ok("+12\n")), Ok(12));
}

#[test]
fn string_attributes_round_trip() {
    let ns = subsystem().namespace(1);
    let nguid = "ef90689c-6c46-d44c-89c1-4067801309a8";
    let w = ns.set_device_nguid(nguid);
    assert_eq!(w.text, format!("{}\n", nguid));
    assert_eq!(ns.device_nguid(Ok(w.text)), Ok(nguid.to_string()));
    let w = ns.set_device_uuid("a-b-c");
    assert_eq!(w.path, "/sys/kernel/config/nvmet/subsystems/nqn.test-1/namespaces/1/device_uuid");
    assert_eq!(ns.device_uuid(Ok(w.text)), Ok("a-b-c".to_string()));

    let s = subsystem();
    for v in ["Linux", "", " padded model ", "SER123"] {
        let w = s.set_attr_model(v);
        assert_eq!(s.attr_model(Ok(w.text)), Ok(v.to_string()));
        let w = s.set_attr_serial(v);
        assert_eq!(s.attr_serial(Ok(w.text)), Ok(v.to_string()));
    }

    let p = Port::open(1);
    for v in ["ipv4", "192.168.0.10", "4420", "tcp"] {
        let w = p.set_addr_adrfam(v);
        assert_eq!(p.addr_adrfam(Ok(w.text)), Ok(v.to_string()));
        let w = p.set_addr_traddr(v);
        assert_eq!(p.addr_traddr(Ok(w.text)), Ok(v.to_string()));
        let w = p.set_addr_trsvcid(v);
        assert_eq!(p.addr_trsvcid(Ok(w.text)), Ok(v.to_string()));
        let w = p.set_addr_trtype(v);
        assert_eq!(w.path, "/sys/kernel/config/nvmet/ports/1/addr_trtype");
        assert_eq!(p.addr_trtype(Ok(w.text)), Ok(v.to_string()));
    }
    assert_eq!(p.id(), 1);
    assert_eq!(Port::open(2).id(), 2);
}

#[test]
fn trimmed_and_line_readers_differ_on_white_space() {
    let ns = subsystem().namespace(1);
    assert_eq!(ns.device_nguid(ok("\t abc \u{a0}\n")), Ok("abc".to_string()));
    assert_eq!(ns.device_nguid(ok(" \n")), Ok(String::new()));
    let s = subsystem();
    assert_eq!(s.attr_model(ok(" x \n\n")), Ok(" x ".to_string()));
    assert_eq!(s.attr_serial(ok("abc")), Ok("abc".to_string()));
}

#[test]
fn device_path_null_sentinel() {
    let ns = subsystem().namespace(1);
    assert_eq!(ns.device_path(ok("(null)\n")), Ok(None));
    assert_eq!(ns.device_path(ok("/dev/nvme0n1\n")), Ok(Some("/dev/nvme0n1".to_string())));
    assert_eq!(ns.device_path(ok("(null)")), Ok(Some("(null)".to_string())));
    assert_eq!(ns.device_path(ok("(null)\n\n")), Ok(Some("(null)\n".to_string())));
    assert_eq!(ns.device_path(ok("x\n\n")), Ok(Some("x\n".to_string())));
    assert_eq!(ns.device_path(ok("/dev/sda")), Ok(Some("/dev/sda".to_string())));
    assert_eq!(ns.device_path(ok("\n")), Ok(Some(String::new())));
    let w = ns.set_device_path("/dev/loop0");
    assert_eq!(w.path, "/sys/kernel/config/nvmet/subsystems/nqn.test-1/namespaces/1/device_path");
    assert_eq!(w.text, "/dev/loop0\n");
    assert_eq!(ns.device_path(Ok(w.text)), Ok(Some("/dev/loop0".to_string())));
}
