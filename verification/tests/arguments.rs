use lc1c::{Argument, IntegerError};

fn label(name: &str) -> Argument {
    Argument::Label(name.to_string())
}

#[test]
fn get_type_names_each_kind() {
    assert_eq!(Argument::Absolute(1).get_type(), ('@', "absolute"));
    assert_eq!(Argument::IdConst(1).get_type(), ('$', "ind.const"));
    assert_eq!(label("x").get_type(), (':', "label"));
    assert_eq!(Argument::Placeholder.get_type(), ('_', "place.holder"));
}

#[test]
fn take_leaves_a_placeholder() {
    let all = vec![
        Argument::Absolute(42),
        Argument::IdConst(7),
        label("loop"),
        Argument::Placeholder,
    ];
    for before in all {
        let mut slot = before.clone();
        let taken = slot.take();
        assert_eq!(taken, before);
        assert_eq!(slot, Argument::Placeholder);
    }
}

#[test]
fn to_string_writes_the_sigil_and_the_number() {
    assert_eq!(Argument::Absolute(42).to_string(), "@42");
    assert_eq!(Argument::Absolute(0).to_string(), "@0");
    assert_eq!(Argument::Absolute(65535).to_string(), "@65535");
    assert_eq!(Argument::IdConst(7).to_string(), "$7");
    assert_eq!(Argument::IdConst(1000).to_string(), "$1000");
    assert_eq!(label("start").to_string(), "start");
    assert_eq!(Argument::Placeholder.to_string(), "@_");
}

#[test]
fn from_str_reads_each_kind() {
    assert_eq!(Argument::from_str("@42"), Ok(Argument::Absolute(42)));
    assert_eq!(Argument::from_str("@0"), Ok(Argument::Absolute(0)));
    assert_eq!(Argument::from_str("@65535"), Ok(Argument::Absolute(65535)));
    assert_eq!(Argument::from_str("$7"), Ok(Argument::IdConst(7)));
    assert_eq!(Argument::from_str("start"), Ok(label("start")));
    assert_eq!(Argument::from_str("42"), Ok(label("42")));
    assert_eq!(Argument::from_str("_"), Ok(label("_")));
    assert_eq!(Argument::from_str("a@1"), Ok(label("a@1")));
    assert_eq!(Argument::from_str("\u{e9}t\u{e9}"), Ok(label("\u{e9}t\u{e9}")));
}

#[test]
fn from_str_takes_a_sign_and_leading_zeros() {
    assert_eq!(Argument::from_str("@+5"), Ok(Argument::Absolute(5)));
    assert_eq!(Argument::from_str("$007"), Ok(Argument::IdConst(7)));
    assert_eq!(Argument::from_str("@0000065535"), Ok(Argument::Absolute(65535)));
}

#[test]
fn from_str_reports_why_a_number_is_bad() {
    assert_eq!(Argument::from_str("@"), Err(IntegerError::Empty));
    assert_eq!(Argument::from_str("$"), Err(IntegerError::Empty));
    assert_eq!(Argument::from_str("@x"), Err(IntegerError::InvalidDigit));
    assert_eq!(Argument::from_str("@_"), Err(IntegerError::InvalidDigit));
    assert_eq!(Argument::from_str("@-1"), Err(IntegerError::InvalidDigit));
    assert_eq!(Argument::from_str("@+"), Err(IntegerError::InvalidDigit));
    assert_eq!(Argument::from_str("$1 "), Err(IntegerError::InvalidDigit));
    assert_eq!(Argument::from_str("@65536"), Err(IntegerError::PosOverflow));
    assert_eq!(Argument::from_str("$99999"), Err(IntegerError::PosOverflow));
}

#[test]
fn the_sigil_alone_decides_the_kind() {
    let rests = vec!["", "0", "12", "65535", "65536", "x", "+3", "-3", "@1", "$1", "1:", "\u{e9}"];
    for rest in rests {
        let at = format!("@{}", rest);
        match Argument::from_str(&at) {
            Ok(Argument::Absolute(_)) | Err(_) => {}
            other => panic!("{:?} gave {:?}", at, other),
        }
        let dollar = format!("${}", rest);
        match Argument::from_str(&dollar) {
            Ok(Argument::IdConst(_)) | Err(_) => {}
            other => panic!("{:?} gave {:?}", dollar, other),
        }
        for first in vec!['a', 'Z', '0', '_', ':', '#', '+', '\u{e9}'] {
            let plain = format!("{}{}", first, rest);
            assert_eq!(Argument::from_str(&plain), Ok(label(&plain)));
        }
    }
}

#[test]
fn a_written_argument_is_read_back() {
    for n in vec![0u16, 1, 9, 10, 99, 100, 255, 256, 4096, 9999, 10000, 65534, 65535] {
        let a = Argument::Absolute(n);
        assert_eq!(Argument::from_str(&a.to_string()), Ok(a));
        let c = Argument::IdConst(n);
        assert_eq!(Argument::from_str(&c.to_string()), Ok(c));
    }
    let l = label("again");
    assert_eq!(Argument::from_str(&l.to_string()), Ok(l));
    assert_eq!(
        Argument::from_str(&Argument::Placeholder.to_string()),
        Err(IntegerError::InvalidDigit)
    );
}
