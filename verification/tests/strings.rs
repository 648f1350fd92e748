use sdl3_gamepad::cstr::{c_str_to_string, c_str_to_string_or_err, to_c_string};
use sdl3_gamepad::error::AddMappingError;

#[test]
fn c_string_appends_terminator() {
    assert_eq!(to_c_string("abc").unwrap(), vec![b'a', b'b', b'c', 0]);
    assert_eq!(to_c_string("").unwrap(), vec![0]);
    assert_eq!(to_c_string("é").unwrap(), vec![0xc3, 0xa9, 0]);
}

#[test]
fn c_string_reports_first_nul() {
    let err = to_c_string("ab\0c\0").unwrap_err();
    assert_eq!(err.nul_position(), 2);
    assert_eq!(err.clone().into_vec(), b"ab\0c\0".to_vec());
    let err = to_c_string("\0").unwrap_err();
    assert_eq!(err.nul_position(), 0);
}

#[test]
fn c_string_position_counts_bytes() {
    let err = to_c_string("é\0").unwrap_err();
    assert_eq!(err.nul_position(), 2);
}

#[test]
fn nul_error_message_names_position() {
    let err = to_c_string("0123456789abc\0").unwrap_err();
    assert_eq!(err.to_string(), "nul byte found in provided data at position: 13");
    let err = to_c_string("\0").unwrap_err();
    assert_eq!(err.to_string(), "nul byte found in provided data at position: 0");
}

#[test]
fn c_str_to_string_of_null_is_empty() {
    assert_eq!(c_str_to_string(None), "");
    assert_eq!(c_str_to_string(Some(String::from("Xbox"))), "Xbox");
}

#[test]
fn c_str_to_string_or_err_of_null_is_error() {
    assert_eq!(c_str_to_string_or_err(None, String::from("oops")), Err(String::from("oops")));
    assert_eq!(
        c_str_to_string_or_err(Some(String::from("m")), String::from("oops")),
        Ok(String::from("m"))
    );
}

#[test]
fn add_mapping_error_messages() {
    let nul = to_c_string("a\0").unwrap_err();
    assert_eq!(
        AddMappingError::InvalidMapping(nul).to_string(),
        "Null error: nul byte found in provided data at position: 1"
    );
    assert_eq!(
        AddMappingError::InvalidFilePath(String::from("x.txt")).to_string(),
        "Invalid file path (x.txt)"
    );
    assert_eq!(
        AddMappingError::ReadError(String::from("eof")).to_string(),
        "Read error: eof"
    );
    assert_eq!(
        AddMappingError::SdlError(String::from("bad")).to_string(),
        "SDL error: bad"
    );
}

#[test]
fn add_mapping_error_descriptions() {
    let nul = to_c_string("\0").unwrap_err();
    assert_eq!(AddMappingError::InvalidMapping(nul).description(), "invalid mapping");
    assert_eq!(AddMappingError::InvalidFilePath(String::from("p")).description(), "invalid file path");
    assert_eq!(AddMappingError::ReadError(String::from("r")).description(), "read error");
    assert_eq!(AddMappingError::SdlError(String::from("sdl says")).description(), "sdl says");
}

#[test]
fn large_positions_render_in_decimal() {
    let mut s = "x".repeat(1234);
    s.push('\0');
    let err = to_c_string(&s).unwrap_err();
    assert_eq!(err.to_string(), "nul byte found in provided data at position: 1234");
}

#[test]
fn c_string_reads_back_as_the_string() {
    for s in ["leftx", "", "a:b0,b:b1", "ünïcode"] {
        let c = to_c_string(s).unwrap();
        let end = c.iter().position(|&b| b == 0).unwrap();
        assert_eq!(end, c.len() - 1);
        assert_eq!(&c[..end], s.as_bytes());
    }
}
