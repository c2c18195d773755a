use coreclr::{to_byte_string, to_parallel_arrays, HostError, InitializeCall, PropertyMap};

#[test]
fn byte_string_appends_terminator() {
    assert_eq!(to_byte_string("abc"), Ok(vec![97u8, 98, 99, 0]));
}

#[test]
fn byte_string_of_empty_text_is_terminator_alone() {
    assert_eq!(to_byte_string(""), Ok(vec![0u8]));
}

#[test]
fn byte_string_keeps_utf8_bytes() {
    assert_eq!(to_byte_string("é"), Ok(vec![0xc3u8, 0xa9, 0]));
}

#[test]
fn byte_string_refuses_embedded_nul() {
    assert_eq!(to_byte_string("a\0b"), Err(HostError::Encoding));
    assert_eq!(to_byte_string("\0"), Err(HostError::Encoding));
    assert_eq!(to_byte_string("end\0"), Err(HostError::Encoding));
}

#[test]
fn property_map_insert_replaces_existing_key() {
    let mut m = PropertyMap::new();
    m.insert("APP_PATHS", "/tmp/a");
    m.insert("TRUSTED_PLATFORM_ASSEMBLIES", "x.dll");
    m.insert("APP_PATHS", "/tmp/b");
    assert_eq!(m.len(), 2);
    let arrays = to_parallel_arrays(&m).unwrap();
    assert_eq!(arrays.keys[0], b"APP_PATHS\0".to_vec());
    assert_eq!(arrays.values[0], b"/tmp/b\0".to_vec());
    assert_eq!(arrays.keys[1], b"TRUSTED_PLATFORM_ASSEMBLIES\0".to_vec());
    assert_eq!(arrays.values[1], b"x.dll\0".to_vec());
}

#[test]
fn parallel_arrays_have_one_buffer_per_key_and_value() {
    for n in 0..5usize {
        let mut m = PropertyMap::new();
        for i in 0..n {
            m.insert(&format!("key{}", i), &format!("value{}", i));
        }
        let arrays = to_parallel_arrays(&m).unwrap();
        assert_eq!(arrays.keys.len(), n);
        assert_eq!(arrays.values.len(), n);
        for i in 0..n {
            assert_eq!(arrays.keys[i], format!("key{}\0", i).into_bytes());
            assert_eq!(arrays.values[i], format!("value{}\0", i).into_bytes());
        }
    }
}

#[test]
fn parallel_arrays_refuse_nul_in_key_or_value() {
    let mut m = PropertyMap::new();
    m.insert("ok", "fine");
    m.insert("bad\0key", "v");
    assert!(matches!(to_parallel_arrays(&m), Err(HostError::Encoding)));
    let mut m = PropertyMap::new();
    m.insert("k", "bad\0value");
    assert!(matches!(to_parallel_arrays(&m), Err(HostError::Encoding)));
}

#[test]
fn initialize_call_marshals_all_inputs() {
    let mut m = PropertyMap::new();
    m.insert("APP_PATHS", "/tmp/app");
    let call = InitializeCall::new("/tmp/app", "testdomain", &m).unwrap();
    assert_eq!(call.exe_path, b"/tmp/app\0".to_vec());
    assert_eq!(call.app_domain_name, b"testdomain\0".to_vec());
    assert_eq!(call.property_count, 1);
    assert_eq!(call.properties.keys, vec![b"APP_PATHS\0".to_vec()]);
    assert_eq!(call.properties.values, vec![b"/tmp/app\0".to_vec()]);
}

#[test]
fn initialize_call_refuses_nul_before_any_call() {
    let m = PropertyMap::new();
    assert!(matches!(InitializeCall::new("/tmp\0app", "d", &m), Err(HostError::Encoding)));
    assert!(matches!(InitializeCall::new("/tmp/app", "d\0", &m), Err(HostError::Encoding)));
    let mut m = PropertyMap::new();
    m.insert("APP_PATHS", "/tmp\0app");
    assert!(matches!(InitializeCall::new("/tmp/app", "d", &m), Err(HostError::Encoding)));
}
