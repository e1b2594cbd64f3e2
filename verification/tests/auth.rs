use frag_proxy::auth::{
    text_of_header, RequestParts, UserData, VerifiedPath, WriteUser, USER_DATA_HEADER,
    VERIFIED_PATH_HEADER,
};

fn parts(user_data: Option<&[u8]>, verified_path: Option<&[u8]>) -> RequestParts {
    RequestParts {
        user_data: user_data.map(|b| b.to_vec()),
        verified_path: verified_path.map(|b| b.to_vec()),
    }
}

fn read_user_data(text: &str) -> Option<UserData> {
    let value: serde_json::Value = serde_json::from_str(text).ok()?;
    let object = value.as_object()?;
    match object.get("read_only") {
        None | Some(serde_json::Value::Null) => Some(UserData { read_only: None }),
        Some(serde_json::Value::Bool(flag)) => Some(UserData { read_only: Some(*flag) }),
        Some(_) => None,
    }
}

fn decide_write(header: Option<&[u8]>) -> Result<WriteUser, (u16, String)> {
    let parts = parts(header, None);
    let user_data = text_of_header(&parts.user_data).and_then(|text| read_user_data(&text));
    WriteUser::from_parts_sync(&parts, user_data)
}

#[test]
fn header_names_are_lower_case() {
    assert_eq!(USER_DATA_HEADER, "x-verified-user-data");
    assert_eq!(VERIFIED_PATH_HEADER, "x-verified-path");
}

#[test]
fn header_text_reads_utf8() {
    assert_eq!(text_of_header(&Some(b"/base/".to_vec())), Some("/base/".to_string()));
    assert_eq!(text_of_header(&Some("/caf\u{e9}/".as_bytes().to_vec())), Some("/caf\u{e9}/".to_string()));
    assert_eq!(text_of_header(&Some(Vec::new())), Some(String::new()));
}

#[test]
fn header_text_is_absent_without_header_or_utf8() {
    assert_eq!(text_of_header(&None), None);
    assert_eq!(text_of_header(&Some(vec![0xff, 0xfe])), None);
    assert_eq!(text_of_header(&Some(vec![b'a', 0xc3])), None);
    assert_eq!(text_of_header(&Some(vec![0xed, 0xa0, 0x80])), None);
    assert_eq!(text_of_header(&Some(vec![0xc0, 0xaf])), None);
}

#[test]
fn missing_user_data_is_unauthorized() {
    assert_eq!(decide_write(None), Err((401, "Missing x-verified-user-data header".to_string())));
}

#[test]
fn missing_user_data_is_unauthorized_whatever_was_parsed() {
    let parts = parts(None, None);
    assert_eq!(
        WriteUser::from_parts_sync(&parts, Some(UserData { read_only: Some(false) })),
        Err((401, "Missing x-verified-user-data header".to_string()))
    );
}

#[test]
fn user_data_that_is_not_utf8_is_a_bad_request() {
    assert_eq!(
        decide_write(Some(&[b'{', 0xff, b'}'])),
        Err((400, "Invalid x-verified-user-data header".to_string()))
    );
    let parts = parts(Some(&[0x80]), None);
    assert_eq!(
        WriteUser::from_parts_sync(&parts, Some(UserData { read_only: None })),
        Err((400, "Invalid x-verified-user-data header".to_string()))
    );
}

#[test]
fn user_data_that_is_not_json_is_a_bad_request() {
    assert_eq!(
        decide_write(Some(b"not json")),
        Err((400, "Invalid JSON in x-verified-user-data header".to_string()))
    );
    assert_eq!(decide_write(Some(b"")), Err((400, "Invalid JSON in x-verified-user-data header".to_string())));
    assert_eq!(
        decide_write(Some(b"{\"read_only\":\"yes\"}")),
        Err((400, "Invalid JSON in x-verified-user-data header".to_string()))
    );
}

#[test]
fn read_only_user_is_forbidden() {
    assert_eq!(
        decide_write(Some(b"{\"read_only\":true}")),
        Err((403, "Read-only access: Cannot modify artifacts".to_string()))
    );
}

#[test]
fn user_who_may_write_is_admitted() {
    assert_eq!(decide_write(Some(b"{\"read_only\":false}")), Ok(WriteUser));
    assert_eq!(decide_write(Some(b"{}")), Ok(WriteUser));
    assert_eq!(decide_write(Some(b"{\"read_only\":null}")), Ok(WriteUser));
    assert_eq!(decide_write(Some(b"{\"name\":\"ada\"}")), Ok(WriteUser));
}

#[test]
fn verified_path_defaults_to_root() {
    assert_eq!(
        VerifiedPath::from_request_parts(&parts(None, None)),
        Ok(VerifiedPath("/".to_string()))
    );
}

#[test]
fn verified_path_defaults_to_root_when_not_utf8() {
    assert_eq!(
        VerifiedPath::from_request_parts(&parts(None, Some(&[b'/', 0xff]))),
        Ok(VerifiedPath("/".to_string()))
    );
}

#[test]
fn verified_path_is_taken_from_the_header() {
    assert_eq!(
        VerifiedPath::from_request_parts(&parts(None, Some(b"/apps/demo/"))),
        Ok(VerifiedPath("/apps/demo/".to_string()))
    );
    assert_eq!(
        VerifiedPath::from_request_parts(&parts(None, Some(b""))),
        Ok(VerifiedPath(String::new()))
    );
}

#[test]
fn verified_path_ignores_the_user_data_header() {
    assert_eq!(
        VerifiedPath::from_request_parts(&parts(Some(b"{\"read_only\":true}"), None)),
        Ok(VerifiedPath("/".to_string()))
    );
}
