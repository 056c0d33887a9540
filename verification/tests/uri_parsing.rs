use symphony::uri::UUri;

#[test]
fn parses_the_local_entity_uri() {
    let u = UUri::parse("//symphony/1DA/2/0").expect("well-formed URI");
    assert_eq!(u.authority, "symphony");
    assert_eq!(u.entity_id, 0x1DA);
    assert_eq!(u.version, 2);
    assert_eq!(u.resource_id, 0);
    assert!(u.is_rpc_response());
}

#[test]
fn parses_the_get_method_uri() {
    let u = UUri::parse("//updater/BBC/1/1").expect("well-formed URI");
    assert_eq!(u.authority, "updater");
    assert_eq!(u.entity_id, 0xBBC);
    assert_eq!(u.version, 1);
    assert_eq!(u.resource_id, 1);
    assert!(!u.is_rpc_response());
}

#[test]
fn parses_lowercase_hex_segments() {
    let u = UUri::parse("//dev/ab12/f/fffe").expect("well-formed URI");
    assert_eq!(u.entity_id, 0xAB12);
    assert_eq!(u.version, 0xF);
    assert_eq!(u.resource_id, 0xFFFE);
}

#[test]
fn rejects_malformed_uris() {
    assert!(UUri::parse("").is_none());
    assert!(UUri::parse("symphony/1DA/2/0").is_none());
    assert!(UUri::parse("//symphony").is_none());
    assert!(UUri::parse("//symphony/1DA").is_none());
    assert!(UUri::parse("//symphony/1DA/2").is_none());
    assert!(UUri::parse("///1DA/2/0").is_none());
    assert!(UUri::parse("//symphony/XYZ/2/0").is_none());
    assert!(UUri::parse("//symphony/1DA/2/").is_none());
    assert!(UUri::parse("//symphony/1DA//0").is_none());
}

#[test]
fn rejects_values_out_of_range() {
    assert!(UUri::parse("//a/1/100/0").is_none(), "version above u8");
    assert!(UUri::parse("//a/1/2/10000").is_none(), "resource above u16");
    assert!(UUri::parse("//a/100000000/2/0").is_none(), "entity above u32");
    assert!(UUri::parse("//a/00000001DA/2/0").is_some(), "leading zeros are fine");
}

#[test]
fn derives_method_uris_by_resource_id() {
    let get = UUri::parse("//updater/BBC/1/1").expect("well-formed URI");
    let update = get.with_resource_id(2);
    let delete = get.with_resource_id(3);
    assert_eq!(update.authority, "updater");
    assert_eq!(update.entity_id, 0xBBC);
    assert_eq!(update.version, 1);
    assert_eq!(update.resource_id, 2);
    assert_eq!(delete.resource_id, 3);
}
