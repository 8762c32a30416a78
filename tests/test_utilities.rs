use chord_collector::test_utilities::{
    i32_key_state_value_from_str, key_code_from_str, key_table_name, mipoch,
};

#[test]
fn can_return_u16_keycode_from_str() {
    assert_eq!(key_code_from_str("ESC").unwrap(), 1);
    assert_eq!(key_code_from_str("D").unwrap(), 32);
    assert_eq!(key_code_from_str("j").unwrap(), 36);
    assert_eq!(key_code_from_str("leftctrl").unwrap(), 29);
    assert_eq!(key_code_from_str("BTN_START").unwrap(), 0x13b);
    assert_eq!(key_code_from_str("BTn_sELECT").unwrap(), 0x13a);

    assert!(key_code_from_str("escape").is_err());
    assert!(key_code_from_str("left control").is_err());
    assert!(key_code_from_str("left_control").is_err());
}

#[test]
fn table_names_get_a_key_prefix_unless_buttons() {
    assert_eq!(key_table_name("D"), "KEY_D");
    assert_eq!(key_table_name("LEFTCTRL"), "KEY_LEFTCTRL");
    assert_eq!(key_table_name("BTN_START"), "BTN_START");
    assert_eq!(key_table_name("XBTN_"), "XBTN_");
    assert_eq!(key_table_name("BTN"), "KEY_BTN");
    assert_eq!(key_table_name(""), "KEY_");
}

#[test]
fn lowercase_names_are_upper_cased_before_lookup() {
    assert_eq!(key_code_from_str("esc").unwrap(), 1);
    assert_eq!(key_code_from_str("btn_start").unwrap(), 0x13b);
    assert!(key_code_from_str("").is_err());
}

#[test]
fn state_names_map_to_codes() {
    assert_eq!(i32_key_state_value_from_str("Up"), 0);
    assert_eq!(i32_key_state_value_from_str("Down"), 1);
    assert_eq!(i32_key_state_value_from_str("Hold"), 2);
}

#[test]
fn mipoch_counts_milliseconds_from_the_epoch() {
    assert_eq!(mipoch(0).as_nanos(), 0);
    assert_eq!(mipoch(22).as_nanos(), 22_000_000);
    assert_eq!(mipoch(u64::MAX).as_nanos(), u64::MAX as u128 * 1_000_000);
}
