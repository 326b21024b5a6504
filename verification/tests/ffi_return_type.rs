use perry_lower_call::ffi::{ffi_return, manifest_return_flags, FfiReturn, HirReturn};

/// The manifest-driven return flags: `(i64_str, string, i64, void)`.
fn parse_flags(manifest_ret: Option<&str>) -> (bool, bool, bool, bool) {
    manifest_return_flags(manifest_ret)
}

#[test]
fn i64_str_is_recognized() {
    let (i64_str, string, i64, void) = parse_flags(Some("i64_str"));
    assert!(i64_str, "returns_i64_str must be true for \"i64_str\"");
    assert!(!string, "returns_string must be false for \"i64_str\"");
    assert!(!i64, "returns_i64 must be false for \"i64_str\"");
    assert!(!void, "returns_void must be false for \"i64_str\"");
}

#[test]
fn string_not_confused_with_i64_str() {
    let (i64_str, string, i64, void) = parse_flags(Some("string"));
    assert!(!i64_str, "returns_i64_str must be false for \"string\"");
    assert!(string, "returns_string must be true for \"string\"");
    assert!(!i64, "returns_i64 must be false for \"string\"");
    assert!(!void, "returns_void must be false for \"string\"");
}

#[test]
fn ptr_alias_for_string() {
    let (i64_str, string, i64, void) = parse_flags(Some("ptr"));
    assert!(!i64_str, "returns_i64_str must be false for \"ptr\"");
    assert!(string, "returns_string must be true for \"ptr\"");
    assert!(!i64, "returns_i64 must be false for \"ptr\"");
    assert!(!void, "returns_void must be false for \"ptr\"");
}

#[test]
fn i64_stays_numeric() {
    let (i64_str, string, i64, void) = parse_flags(Some("i64"));
    assert!(!i64_str, "returns_i64_str must be false for \"i64\"");
    assert!(!string, "returns_string must be false for \"i64\"");
    assert!(i64, "returns_i64 must be true for \"i64\"");
    assert!(!void, "returns_void must be false for \"i64\"");
}

#[test]
fn void_recognized() {
    let (i64_str, string, i64, void) = parse_flags(Some("void"));
    assert!(!i64_str, "returns_i64_str must be false for \"void\"");
    assert!(!string, "returns_string must be false for \"void\"");
    assert!(!i64, "returns_i64 must be false for \"void\"");
    assert!(void, "returns_void must be true for \"void\"");
}

#[test]
fn i64_str_dispatch_order() {
    // When manifest is "i64_str", it must take the i64_str path even
    // if the HIR type also says String (which would normally set
    // returns_string via the ext_return_type arm).
    let manifest_ret: Option<&str> = Some("i64_str");
    let (returns_i64_str, manifest_string, _, _) = parse_flags(manifest_ret);
    // Simulate returns_string with HIR String type:
    let hir_string_arm = true; // ext_return_type == HirType::String
    let returns_string = manifest_string || hir_string_arm;
    // Both could be true simultaneously, but in the dispatch the
    // `returns_i64_str` branch is checked FIRST, so it wins.
    assert!(returns_i64_str);
    assert!(returns_string); // also true — but i64_str branch fires first
    assert_eq!(ffi_return(manifest_ret, HirReturn::String, false, "native_fn"), FfiReturn::I64Str);
}
