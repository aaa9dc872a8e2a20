use omock::naming::{body_template_name, header_name, id_string};

#[test]
fn identifiers_are_written_as_hyphenated_lower_case_hexadecimal() {
    assert_eq!(id_string(0), "00000000-0000-0000-0000-000000000000");
    assert_eq!(id_string(u128::MAX), "ffffffff-ffff-ffff-ffff-ffffffffffff");
    assert_eq!(
        id_string(0x0123_4567_89ab_cdef_0123_4567_89ab_cdef),
        "01234567-89ab-cdef-0123-456789abcdef"
    );
}

#[test]
fn identifiers_are_written_as_the_uuid_crate_writes_them() {
    for _ in 0..200 {
        let id = uuid::Uuid::new_v4();
        assert_eq!(id_string(id.as_u128()), id.to_string());
    }
}

#[test]
fn template_names() {
    let id = 0x5e3f_0000_0000_4000_8000_0000_0000_00ff;
    assert_eq!(body_template_name(id, 0), "5e3f0000-0000-4000-8000-0000000000ff_0");
    assert_eq!(body_template_name(id, 12), "5e3f0000-0000-4000-8000-0000000000ff_12");
    assert_eq!(
        header_name(id, 3, "X-Trace"),
        "5e3f0000-0000-4000-8000-0000000000ff_3_header_X-Trace"
    );
}
