use cargo_equip_core::error::ErrorKind;
use cargo_equip_core::pseudo_module::PseudoModulePath;

fn parse(s: &str) -> Result<(), ()> {
    PseudoModulePath::from_str(s).map(|_| ()).map_err(|_| ())
}

#[test]
fn parse_pseudo_module_path() {
    assert!(parse("::library::module").is_ok());
    assert!(parse("::library::module::module").is_err());
    assert!(parse("library::module").is_err());
}

#[test]
fn parse_yields_both_segments_and_serializes_quoted() {
    let p = PseudoModulePath::from_str("::my_lib2::Mod_9").unwrap();
    assert_eq!(p.extern_crate_name, "my_lib2");
    assert_eq!(p.module_name, "Mod_9");
    assert_eq!(p.to_string(), "\"::my_lib2::Mod_9\"");
    let again = PseudoModulePath::from_str(&p.to_string()[1..p.to_string().len() - 1]).unwrap();
    assert_eq!(again, p);
}

#[test]
fn parse_refuses_other_shapes() {
    for s in [
        "", "::", "::a", "::a::", ":::a::b", "::a::b::", "a::b", "::a-b::c", "::a::b c", "::a:b",
        "::::b", " ::a::b", "::a::b ", "::é::b",
    ] {
        let r = PseudoModulePath::from_str(s);
        assert!(r.is_err(), "{}", s);
        assert_eq!(r.unwrap_err().kind(), ErrorKind::MalformedPseudoModulePath);
    }
}

#[test]
fn new_keeps_segments() {
    let p = PseudoModulePath::new("acl", "fenwick");
    assert_eq!(p.to_string(), "\"::acl::fenwick\"");
    assert_eq!(PseudoModulePath::from_str("::acl::fenwick").unwrap(), p);
}
