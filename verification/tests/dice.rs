//! Tests for the DICE input-value modeling.

use op_broker::dice::Config;
use op_broker::dice::ConfigKind;
use op_broker::dice::DiceMode;
use op_broker::dice::InputValues;
use op_broker::dice::CDI_SIZE;
use op_broker::dice::HASH_SIZE;
use op_broker::dice::HIDDEN_SIZE;
use op_broker::dice::INLINE_CONFIG_SIZE;

#[test]
fn sizes_match_the_dice_profile() {
    assert_eq!(HASH_SIZE, 64);
    assert_eq!(HIDDEN_SIZE, 64);
    assert_eq!(INLINE_CONFIG_SIZE, 64);
    assert_eq!(CDI_SIZE, 32);
}

#[test]
fn inline_config_is_kept_verbatim() {
    let mut v = [0u8; INLINE_CONFIG_SIZE];
    v[0] = 0xaa;
    v[INLINE_CONFIG_SIZE - 1] = 0x55;
    let config = Config::Inline(v);
    assert_eq!(config.inline_config(), v);
    assert_eq!(config.descriptor_size(), 0);
}

#[test]
fn descriptor_config_reports_its_size_and_zero_inline_value() {
    let config = Config::Descriptor(vec![1, 2, 3, 4, 5]);
    assert_eq!(config.descriptor_size(), 5);
    assert_eq!(config.inline_config(), [0u8; INLINE_CONFIG_SIZE]);
}

#[test]
fn input_values_from_inline_config() {
    let code_hash = [3u8; HASH_SIZE];
    let authority_hash = [4u8; HASH_SIZE];
    let hidden = [5u8; HIDDEN_SIZE];
    let inline = [9u8; INLINE_CONFIG_SIZE];
    let iv = InputValues::new(
        code_hash,
        Config::Inline(inline),
        authority_hash,
        DiceMode::Normal,
        hidden,
    );
    assert_eq!(iv.code_hash, code_hash);
    assert_eq!(iv.authority_hash, authority_hash);
    assert_eq!(iv.hidden, hidden);
    assert_eq!(iv.mode, DiceMode::Normal);
    assert_eq!(iv.config_kind, ConfigKind::Inline);
    assert_eq!(iv.config_value, inline);
    assert!(iv.config_descriptor.is_empty());
}

#[test]
fn input_values_from_descriptor_config() {
    let descriptor = vec![7u8, 8, 9];
    let iv = InputValues::new(
        [0u8; HASH_SIZE],
        Config::Descriptor(descriptor.clone()),
        [1u8; HASH_SIZE],
        DiceMode::Debug,
        [2u8; HIDDEN_SIZE],
    );
    assert_eq!(iv.config_kind, ConfigKind::Descriptor);
    assert_eq!(iv.config_value, [0u8; INLINE_CONFIG_SIZE]);
    assert_eq!(iv.config_descriptor, descriptor);
    assert_eq!(iv.mode, DiceMode::Debug);
}

#[test]
fn configs_compare_by_contents() {
    let a = Config::Descriptor(vec![1, 2]);
    let b = Config::Descriptor(vec![1, 2]);
    let c = Config::Inline([0u8; INLINE_CONFIG_SIZE]);
    assert_eq!(a, b);
    assert_ne!(a, c);
    assert_eq!(a.clone(), b);
}
