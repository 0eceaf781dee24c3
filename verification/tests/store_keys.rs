use wasmcloud_control_interface::keys::link_key;
use wasmcloud_control_interface::metadata::StoreOp;

#[test]
fn a_link_key_is_the_digest_of_its_three_names() {
    assert_eq!(
        link_key("MACTOR", "wasmcloud:httpserver", "default"),
        "LINKDEF_5371335117B08B6327ABAC624BB3C481ECD2D08BA1552DB58E258F2275A6A6EA"
    );
    assert_eq!(
        link_key("a", "b", "c"),
        "LINKDEF_BA7816BF8F01CFEA414140DE5DAE2223B00361A396177A9CB410FF61F20015AD"
    );
    assert_eq!(
        link_key("", "", ""),
        "LINKDEF_E3B0C44298FC1C149AFBF4C8996FB92427AE41E4649B934CA495991B7852B855"
    );
}

#[test]
fn a_link_key_is_the_same_for_the_same_link() {
    assert_eq!(link_key("M1", "c:x", "default"), link_key("M1", "c:x", "default"));
    assert_ne!(link_key("M1", "c:x", "default"), link_key("M2", "c:x", "default"));
    assert_ne!(link_key("M1", "c:x", "default"), link_key("M1", "c:y", "default"));
    assert_ne!(link_key("M1", "c:x", "default"), link_key("M1", "c:x", "other"));
}

#[test]
fn a_link_key_is_in_upper_case_hexadecimal() {
    let key = link_key("MACTOR", "wasmcloud:keyvalue", "redis");
    assert_eq!(key.len(), "LINKDEF_".len() + 64);
    assert!(key["LINKDEF_".len()..].chars().all(|c| c.is_ascii_digit() || ('A'..='F').contains(&c)));
}

#[test]
fn names_beyond_ascii_are_hashed_by_their_bytes() {
    assert_eq!(
        link_key("\u{e9}", "", ""),
        link_key("", "\u{e9}", "")
    );
    assert_ne!(link_key("\u{e9}", "", ""), link_key("e", "", ""));
}

#[test]
fn each_store_operation_names_what_it_touches() {
    assert_eq!(StoreOp::ReadClaims.scope(), "CLAIMS_");
    assert_eq!(StoreOp::ReadLinks.scope(), "LINKDEF_");
    assert_eq!(StoreOp::DeleteLink { key: "LINKDEF_AB".to_string() }.scope(), "LINKDEF_AB");
}
